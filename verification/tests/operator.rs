use incidentbench::adapter::PrepareResult;
use incidentbench::configmaps::{
    aggregator_addr_of, build_prepare_result_configmap, build_sql_files_configmap,
    build_worker_configmaps, configmaps_for_seed, derive_query_session, is_sql_file,
    phase_controller_addr_of, total_query_workers, Body,
};
use incidentbench::crd::{
    default_ingest_replicas, default_kafka_replicas, default_kafka_storage, default_num_mediators,
    default_num_os, default_query_group_replicas, default_scale, default_scenario_key,
    default_storage_type, default_sub_path, Condition, ConfigMapRef, IncidentBenchRunSpec,
    KafkaSpec, LifecyclePhase, QueryGroupSpec, ResultsSpec, RunResults, ScalingSpec, ScenarioRef,
    TargetSpec, WarehouseSpec, WorkerReplicaSpec, WorkerSpec,
};
use incidentbench::decimal::Ratio;
use incidentbench::events::render;
use incidentbench::json::Json;
use incidentbench::lifecycle::{
    already_cleaned, build_warehouse_configs, check_deployment_health, cleaned_patch,
    finalizer_patch, handle_aggregating, handle_initializing, handle_pending, handle_preparing,
    handle_reporting, handle_running, has_finalizer, kafka_bootstrap, kafka_topics,
    no_finalizer_patch, reconcile, resolve_scenario, should_fetch_results, update_phase_failed,
    DeploymentState, LiveFigures, PrepareOutcome, ScenarioSource, Task, TimelineStatus,
};
use incidentbench::metrics::Scorecard;
use incidentbench::plan::{
    build_deployments, deployments_to_scale_down, handle_cleanup, scale_down_patch,
    watched_deployments,
};
use incidentbench::resources::{
    build_reporter_job, build_results_pvc, owner_reference, standard_labels, RunIdentity,
};
use incidentbench::scenario::{
    DataGeneratorConfig, DataStream, FieldDef, FieldType, PhaseDef, QueryConfig, QueryDef,
    QueryGroup, QueryMix, ReportConfig, Scenario, ScenarioMeta, Schema, StreamPhaseIngest,
    Timeline, ValidRunCriteria,
};
use incidentbench::seeds::run_seed;

const PHASES: [&str; 6] =
    ["baseline", "incident_trigger", "ingestion_surge", "overlap", "recovery", "post_incident"];

fn query(name: &str, category: Option<&str>) -> QueryDef {
    QueryDef {
        name: name.to_string(),
        query_type: "search".to_string(),
        weight_ppb: None,
        template: "*".to_string(),
        index: "logs-idx".to_string(),
        sort: None,
        limit: None,
        timeout_ms: 1000,
        sql: None,
        sql_file: None,
        category: category.map(|c| c.to_string()),
        description: String::new(),
        variables: vec![],
    }
}

fn scenario() -> Scenario {
    Scenario {
        scenario: ScenarioMeta {
            name: "outage".to_string(),
            version: "1".to_string(),
            display_name: "Outage".to_string(),
            description: String::new(),
            domain: "sre".to_string(),
        },
        data_streams: Some(vec![DataStream {
            name: "logs".to_string(),
            schema: Schema {
                index_name: "logs-idx".to_string(),
                timestamp_field: "@timestamp".to_string(),
                fields: vec![FieldDef {
                    name: "@timestamp".to_string(),
                    field_type: FieldType::Timestamp,
                    generator: "now".to_string(),
                    config: Json::Null,
                }],
            },
            data_generator: DataGeneratorConfig {
                generator_type: "template".to_string(),
                config: Json::Null,
            },
            kafka_partitions: Some(6),
            ingest_replicas: 2,
            ingest: PHASES
                .iter()
                .map(|p| (p.to_string(), StreamPhaseIngest { target_eps: 10, batch_size: 5 }))
                .collect(),
        }]),
        query_mix: QueryMix { queries: vec![query("q1", None), query("q2", None)] },
        query_groups: None,
        timeline: Timeline {
            phases: PHASES
                .iter()
                .map(|p| PhaseDef {
                    name: p.to_string(),
                    display_name: p.to_string(),
                    duration_seconds: 30,
                    query: QueryConfig { target_pqps: 4_000_000_000_000, mix_override: None },
                    description: String::new(),
                })
                .collect(),
        },
        valid_run_criteria: ValidRunCriteria { rules: vec![] },
        report: ReportConfig { title: None, emphasis: vec![] },
        default_timeout_ms: 10_000,
        query_session: None,
    }
}

fn workers(groups: Option<Vec<(&str, &str, u32)>>) -> WorkerSpec {
    WorkerSpec {
        ingest: WorkerReplicaSpec { replicas: 2, resources: None },
        query: WorkerReplicaSpec { replicas: 4, resources: None },
        query_groups: groups.map(|g| {
            g.into_iter()
                .map(|(name, warehouse, replicas)| QueryGroupSpec {
                    name: name.to_string(),
                    warehouse: WarehouseSpec {
                        name: warehouse.to_string(),
                        num_mediators: 1,
                        num_os: 3,
                    },
                    replicas,
                    resources: None,
                })
                .collect()
        }),
    }
}

fn run() -> RunIdentity {
    RunIdentity {
        name: "r1".to_string(),
        namespace: Some("bench".to_string()),
        uid: "u-1".to_string(),
    }
}

fn spec() -> IncidentBenchRunSpec {
    IncidentBenchRunSpec {
        scenario: None,
        scenario_ref: None,
        target: TargetSpec { adapter: "mach5".to_string(), config: Json::object() },
        kafka: KafkaSpec { bootstrap_servers: None, managed: false, managed_config: None },
        scaling: ScalingSpec { duration_scale_ppm: 1_000_000, rate_scale_ppm: 1_000_000 },
        workers: workers(None),
        results: ResultsSpec::default(),
        images: None,
        sql_dir: None,
        dry_run: false,
    }
}

#[test]
fn a_run_goes_through_its_life() {
    let none: Vec<Condition> = vec![];
    assert!(matches!(
        reconcile(LifecyclePhase::Pending, &none, false),
        Task::Advance(LifecyclePhase::Pending)
    ));
    assert!(matches!(
        reconcile(LifecyclePhase::Running, &none, false),
        Task::Advance(LifecyclePhase::Running)
    ));
    assert!(matches!(reconcile(LifecyclePhase::Completed, &none, false), Task::CleanUp));
    assert!(matches!(reconcile(LifecyclePhase::Failed, &none, false), Task::Rest));
    assert!(matches!(reconcile(LifecyclePhase::Failed, &none, true), Task::CleanUp));
    let cleaned = vec![Condition {
        condition_type: "Cleaned".to_string(),
        status: "True".to_string(),
        message: None,
        last_transition_time: None,
    }];
    assert!(already_cleaned(&cleaned));
    assert!(matches!(reconcile(LifecyclePhase::Completed, &cleaned, false), Task::Rest));
}

#[test]
fn a_pending_run_is_validated() {
    let ok = handle_pending(&Ok(scenario()), false, "id-1", "now");
    assert_eq!(ok.phase, Some(LifecyclePhase::Preparing));
    assert!(render(&ok.patch).contains("\"runId\":\"id-1\""));
    let dry = handle_pending(&Ok(scenario()), true, "id-1", "now");
    assert_eq!(dry.phase, Some(LifecyclePhase::Completed));
    assert!(render(&dry.patch).contains(
        "Dry-run: scenario 'Outage' validated successfully. 1 data streams, 6 phases, total duration: 180s"
    ));
    let mut bad = scenario();
    bad.query_mix.queries[0].index = "nope".to_string();
    let failed = handle_pending(&Ok(bad), false, "id-1", "now");
    assert_eq!(failed.phase, Some(LifecyclePhase::Failed));
    assert!(render(&failed.patch).contains("Scenario validation failed: "));
    let lost = handle_pending(&Err("gone".to_string()), false, "id-1", "now");
    assert!(render(&lost.patch).contains("Failed to resolve scenario: gone"));
}

#[test]
fn scenarios_are_inline_or_elsewhere() {
    match resolve_scenario(&spec()) {
        Err(e) => assert_eq!(e, "Either scenario or scenarioRef must be specified"),
        Ok(_) => panic!("no scenario"),
    }
    let mut s = spec();
    s.scenario_ref = Some(ScenarioRef {
        config_map: ConfigMapRef { name: "cm".to_string(), key: "scenario.yaml".to_string() },
    });
    match resolve_scenario(&s) {
        Ok(ScenarioSource::ConfigMap { name, key }) => {
            assert_eq!((name.as_str(), key.as_str()), ("cm", "scenario.yaml"))
        }
        _ => panic!("no reference"),
    }
    s.scenario = Some(scenario());
    assert!(matches!(resolve_scenario(&s), Ok(ScenarioSource::Inline)));
}

#[test]
fn preparing_ends_well_or_not() {
    let s = scenario();
    let good = PrepareOutcome::Prepared(PrepareResult {
        consumer_groups: vec![("logs".to_string(), "logs-cg".to_string())],
        query_endpoints: vec![("w".to_string(), "http://w".to_string())],
    });
    let r = handle_preparing(&good, &s, "now");
    assert_eq!(r.phase, Some(LifecyclePhase::Initializing));
    assert!(render(&r.patch).contains(
        "Streams [\\\"logs\\\"] created. Consumer groups: logs=logs-cg. Warehouses: w=http://w"
    ));
    for (outcome, text) in [
        (
            PrepareOutcome::TopicFailed { topic: "t".to_string(), error: "e".to_string() },
            "Failed to create Kafka topic 't': e",
        ),
        (PrepareOutcome::NoAdapter("e".to_string()), "Failed to create adapter: e"),
        (PrepareOutcome::AdapterFailed("e".to_string()), "Adapter prepare failed: e"),
    ] {
        let r = handle_preparing(&outcome, &s, "now");
        assert_eq!(r.phase, Some(LifecyclePhase::Failed));
        assert!(render(&r.patch).contains(text), "{}", text);
    }
}

#[test]
fn workers_are_deployed_and_watched() {
    let s = scenario();
    assert!(handle_initializing(&s, &workers(None), 1, 4, "now").is_none());
    assert!(handle_initializing(&s, &workers(None), 2, 3, "now").is_none());
    let r = handle_initializing(&s, &workers(None), 2, 5, "now").unwrap();
    let counts = "\"ingest_desired\":2,\"ingest_ready\":2,\"query_desired\":4,\"query_ready\":5";
    assert!(render(&r.patch).contains(counts));
    assert_eq!(r.phase, Some(LifecyclePhase::Running));
    assert!(render(&r.patch)
        .contains("2 ingest workers (across 1 streams), 4 query workers deployed"));
    let built = build_deployments("r1", &s, &workers(None), &None, &run(), &None);
    let names: Vec<String> = built.iter().map(|d| d.0.clone()).collect();
    let watched = watched_deployments("r1", &s.data_streams, &workers(None));
    assert!(names.iter().all(|n| watched.contains(n)), "{:?} {:?}", names, watched);
    let down = deployments_to_scale_down("r1", &s.data_streams, &workers(None));
    assert_eq!(
        watched_deployments("r1", &None, &workers(None)),
        vec!["r1-phase-controller", "r1-aggregator", "r1-query"]
    );
    assert_eq!(
        deployments_to_scale_down("r1", &None, &workers(None)),
        vec!["r1-query", "r1-phase-controller"]
    );
    assert!(down.contains(&"r1-query".to_string()));
    assert!(!down.contains(&"r1-aggregator".to_string()));
    assert_eq!(render(&scale_down_patch()), "{\"spec\":{\"replicas\":0}}");
    let grouped = workers(Some(vec![("heavy", "w", 3), ("light", "w", 5)]));
    assert_eq!(total_query_workers(&grouped), 8);
    let plan = handle_cleanup("r1", &s.data_streams, &grouped);
    let built = build_deployments("r1", &s, &grouped, &None, &run(), &None);
    for d in &built {
        assert!(plan.deployments.contains(&d.0), "{} is left", d.0);
    }
    let topics: Vec<String> = kafka_topics(&s.data_streams).into_iter().map(|t| t.0).collect();
    assert_eq!(plan.topics, topics);
    assert_eq!(plan.services, vec!["r1-phase-controller", "r1-aggregator"]);
    assert!(plan.config_maps.contains(&"r1-prepare".to_string()));
    assert!(plan.config_maps.contains(&"r1-sql-files".to_string()));
}

#[test]
fn resources_belong_to_their_run() {
    let built = build_deployments("r1", &scenario(), &workers(None), &None, &run(), &None);
    assert_eq!(built.len(), 4);
    for (name, doc) in &built {
        let metadata = doc.get("metadata").unwrap();
        assert_eq!(metadata.get("name").unwrap().as_text(), Some(name.as_str()));
        let owners = render(metadata.get("ownerReferences").unwrap());
        assert_eq!(owners, format!("[{}]", render(&owner_reference(&run()))));
    }
}

#[test]
fn broken_deployments_are_noticed() {
    assert!(check_deployment_health("d", &None).is_ok());
    let state = |available: i32, unavailable: i32, status: &str| {
        Some(DeploymentState {
            replicas: 2,
            available,
            unavailable,
            conditions: vec![
                ("Available".to_string(), "False".to_string()),
                ("Progressing".to_string(), status.to_string()),
            ],
        })
    };
    assert!(check_deployment_health("d", &state(2, 0, "True")).is_ok());
    assert!(check_deployment_health("d", &state(0, 2, "True")).is_ok());
    assert!(check_deployment_health("d", &state(1, 1, "False")).is_ok());
    match check_deployment_health("d", &state(0, 2, "False")) {
        Err(e) => assert_eq!(e, "Deployment 'd' has stalled: 2 unavailable, 0 available"),
        Ok(()) => panic!("stalled"),
    }
}

#[test]
fn a_running_run_reports_until_its_end() {
    let timeline = |complete: bool| {
        Some(TimelineStatus {
            current_phase: "overlap".to_string(),
            total_elapsed_seconds: 90,
            total_duration_seconds: 180,
            timeline_complete: complete,
        })
    };
    let figures = LiveFigures {
        ingest_events_produced: 498,
        query_executed: 2,
        ingest_target_eps: 500,
        query_target_uqps: 2_000_000,
        kafka_consumer_lag: 1250,
    };
    let going = handle_running(&Ok(()), &timeline(false), Some(figures), "now").unwrap();
    assert_eq!(going.phase, None);
    assert!(render(&going.patch).contains("\"elapsed_seconds\":90,\"total_seconds\":180"));
    let over = handle_running(&Ok(()), &timeline(true), None, "now").unwrap();
    assert_eq!(over.phase, Some(LifecyclePhase::Aggregating));
    let broken = handle_running(&Err("dead".to_string()), &timeline(true), None, "now").unwrap();
    assert_eq!(broken.phase, Some(LifecyclePhase::Failed));
    assert!(handle_running(&Ok(()), &None, None, "now").is_none());
}

#[test]
fn results_are_kept() {
    assert!(should_fetch_results("complete", 0));
    assert!(!should_fetch_results("collecting", 1));
    assert!(should_fetch_results("collecting", 100_000));
    let none = handle_aggregating(&None);
    assert!(render(&none.patch).contains("No metrics data collected from workers"));
    let some = handle_aggregating(&Some(RunResults {
        valid: true,
        validity_violations: vec![],
        warnings: vec![],
        harness_saturated: false,
        scorecard: Some(Scorecard {
            baseline_p99_ns: Ratio { num: 16_360_000, den: 1 },
            overlap_p99_ns: Ratio { num: 3_890_000, den: 1 },
            p99_degradation_ratio: Ratio { num: 389, den: 1636 },
            query_error_rate_overlap: Ratio { num: 0, den: 1 },
            peak_backlog: 2778,
            backlog_drain_time_s: 1,
            recovery_time_s: 0,
        }),
    }));
    assert_eq!(some.phase, Some(LifecyclePhase::Reporting));
    assert!(render(&some.patch).contains("\"baseline_p99_ms\":16.36"));
    assert!(handle_reporting(0, 2, "now").is_none());
    assert_eq!(handle_reporting(1, 0, "now").unwrap().phase, Some(LifecyclePhase::Completed));
    assert!(render(&handle_reporting(0, 3, "now").unwrap().patch).contains("Reporter job failed"));
}

#[test]
fn small_patches() {
    assert!(has_finalizer(&Some(vec!["incidentbench.io/cleanup".to_string()])));
    assert!(!has_finalizer(&None));
    assert_eq!(
        render(&finalizer_patch()),
        "{\"metadata\":{\"finalizers\":[\"incidentbench.io/cleanup\"]}}"
    );
    assert_eq!(render(&no_finalizer_patch()), "{\"metadata\":{\"finalizers\":null}}");
    assert!(render(&cleaned_patch("now")).contains("All resources cleaned up"));
    let f = update_phase_failed("why", "now");
    assert_eq!(f.phase, Some(LifecyclePhase::Failed));
    assert_eq!(kafka_bootstrap(&None), "kafka-bootstrap:9092");
    assert_eq!(kafka_bootstrap(&Some("k:1".to_string())), "k:1");
    assert_eq!(kafka_topics(&scenario().data_streams)[0].1, 6);
}

#[test]
fn warehouses_come_from_groups_or_the_target() {
    let target = Json::object().with(
        "warehouse",
        Json::object().with("name", Json::text("big")).with("numOs", Json::Uint(9)),
    );
    let one = build_warehouse_configs(&workers(None), &target);
    assert_eq!(one.len(), 1);
    assert_eq!((one[0].name.as_str(), one[0].num_os), ("big", 9));
    let many = build_warehouse_configs(&workers(Some(vec![("a", "x", 1), ("b", "y", 1)])), &target);
    assert_eq!(many.len(), 2);
    assert_eq!(many[1].name, "y");
    let plain = build_warehouse_configs(&workers(None), &Json::object());
    assert_eq!(plain[0].name, "incidentbench-wh");
}

#[test]
fn workers_are_configured() {
    let s = scenario();
    let groups = vec![("logs".to_string(), "logs-cg".to_string())];
    let ends = vec![("w".to_string(), "http://w".to_string())];
    let maps = build_worker_configmaps(
        "r1", &s, &workers(None), "mach5", &Json::object(), &run(), &groups, &ends, "k:9092",
    );
    let same = configmaps_for_seed(
        "r1", run_seed("r1"), &s, &workers(None), "mach5", &Json::object(), &run(), &groups, &ends,
        "k:9092",
    );
    assert_eq!(maps.len(), same.len());
    let names: Vec<&str> = maps.iter().map(|m| m.name.as_str()).collect();
    assert!(names.contains(&"r1-scenario"));
    assert!(names.contains(&"r1-phase-controller"));
    assert!(names.contains(&"r1-ingest-logs"));
    assert!(names.contains(&"r1-query"));
    let plan = handle_cleanup("r1", &s.data_streams, &workers(None));
    for n in &names {
        assert!(plan.config_maps.contains(&n.to_string()), "{} is left", n);
    }
    let seed = format!("\"run_seed\":{}", run_seed("r1"));
    let ingest = maps.iter().find(|m| m.name == "r1-ingest-logs").unwrap();
    match &ingest.data[0].1 {
        Body::Yaml(j) => assert!(render(j).contains(&seed)),
        _ => panic!("no configuration"),
    }
    assert_eq!(phase_controller_addr_of("r1", "bench"), "r1-phase-controller.bench.svc:50051");
    assert_eq!(aggregator_addr_of("r1", "bench"), "r1-aggregator.bench.svc:50052");
}

#[test]
fn groups_are_configured_by_weight() {
    let mut s = scenario();
    s.query_groups = Some(vec![
        QueryGroup {
            name: "heavy".to_string(),
            weight_ppb: 250_000_000,
            mix_override: Some(vec![("q2".to_string(), 1_000_000_000)]),
        },
        QueryGroup { name: "light".to_string(), weight_ppb: 750_000_000, mix_override: None },
    ]);
    let w = workers(Some(vec![("heavy", "w", 2), ("light", "w", 1)]));
    let maps = build_worker_configmaps(
        "r1", &s, &w, "mach5", &Json::object(), &run(), &vec![],
        &vec![("w".to_string(), "http://w".to_string())], "k:9092",
    );
    let heavy = maps.iter().find(|m| m.name == "r1-query-heavy").unwrap();
    match &heavy.data[0].1 {
        Body::Yaml(j) => {
            let text = render(j);
            assert!(text.contains("\"query_mqps\":500"), "{}", text);
            assert!(text.contains("\"q2\"") && !text.contains("\"q1\""));
            assert!(text.contains("\"query_endpoint\":\"http://w\""));
        }
        _ => panic!("no configuration"),
    }
}

#[test]
fn sessions_come_from_categories() {
    let mut s = scenario();
    assert!(derive_query_session(&s).is_none());
    s.query_mix.queries = vec![query("a", Some("x")), query("b", Some("y")), query("c", Some("x"))];
    let d = derive_query_session(&s).unwrap();
    assert_eq!(d.categories.len(), 2);
    assert_eq!(d.categories[0].name, "x");
    assert_eq!(d.categories[0].queries.len(), 2);
}

#[test]
fn other_resources() {
    let m = build_prepare_result_configmap("r1", &vec![], &vec![], &run());
    assert_eq!(m.name, "r1-prepare");
    assert!(build_sql_files_configmap("r1", &vec![], &run()).is_none());
    let f = vec![("dir/a.sql".to_string(), "SELECT 1".to_string())];
    let sql = build_sql_files_configmap("r1", &f, &run()).unwrap();
    assert_eq!(sql.data[0].0, "dir_a.sql");
    assert!(is_sql_file("a.sql") && is_sql_file("..sql"));
    assert!(!is_sql_file(".sql") && !is_sql_file("a.sql.bak") && !is_sql_file("sql"));
    match &sql.data[0].1 {
        Body::Plain(t) => assert_eq!(t, "SELECT 1"),
        _ => panic!("no text"),
    }
    assert!(render(&standard_labels("r1", "query")).contains("\"app.kubernetes.io/component\":\"query\""));
    assert!(render(&owner_reference(&run())).contains("\"uid\":\"u-1\""));
    assert!(render(&build_results_pvc("r1", &run())).contains("r1-results"));
    assert!(render(&build_reporter_job("r1", &None, &run())).contains("r1-reporter"));
}

#[test]
fn defaults_of_the_resource() {
    assert_eq!(default_scenario_key(), "scenario.yaml");
    assert_eq!(default_kafka_replicas(), 3);
    assert_eq!(default_kafka_storage(), "10Gi");
    assert_eq!(default_query_group_replicas(), 4);
    assert_eq!(default_num_mediators(), 1);
    assert_eq!(default_num_os(), 2);
    assert_eq!(default_ingest_replicas(), 10);
    assert_eq!(default_storage_type(), "pvc");
    assert_eq!(default_sub_path(), "runs/");
    assert_eq!(default_scale(), 1_000_000);
    assert_eq!(WorkerReplicaSpec::default_ingest().replicas, 10);
    assert_eq!(WorkerReplicaSpec::default_query().replicas, 4);
    assert_eq!(LifecyclePhase::Aggregating.name(), "Aggregating");
}
