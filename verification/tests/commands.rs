use incidentbench::console::{
    age_text, created_lines, deleted_line, deleting_lines, invalid_lines, list_header, list_row,
    no_runs, pad_left, pad_right, run_name, run_plan, run_resource, sanitize, status_lines,
    valid_lines, RunRequest,
};
use incidentbench::crd::{
    Condition, IncidentBenchRunStatus, LifecyclePhase, ProgressStatus, RunResults, WorkerStatus,
};
use incidentbench::decimal::Ratio;
use incidentbench::download::{missing_file, plan_download, regenerated_lines};
use incidentbench::events::render;
use incidentbench::json::Json;
use incidentbench::live::{
    discover_aggregator_addr, format_snapshot_json, format_snapshot_table, remember, screen_cards,
    screen_status, sparkline, table_header,
};
use incidentbench::metrics::{AggregatedMetricPoint, PercentileSummary, Scorecard};
use incidentbench::scenario::{
    DataGeneratorConfig, DataStream, FieldDef, FieldType, PhaseDef, QueryConfig, QueryMix,
    ReportConfig, Scenario, ScenarioMeta, Schema, StreamPhaseIngest, Timeline, ValidRunCriteria,
};

fn scenario() -> Scenario {
    Scenario {
        scenario: ScenarioMeta {
            name: "SRE Outage".to_string(),
            version: "2.0".to_string(),
            display_name: "Outage".to_string(),
            description: String::new(),
            domain: "sre".to_string(),
        },
        data_streams: Some(vec![DataStream {
            name: "logs".to_string(),
            schema: Schema {
                index_name: "logs-idx".to_string(),
                timestamp_field: "@timestamp".to_string(),
                fields: vec![FieldDef {
                    name: "@timestamp".to_string(),
                    field_type: FieldType::Timestamp,
                    generator: "now".to_string(),
                    config: Json::Null,
                }],
            },
            data_generator: DataGeneratorConfig {
                generator_type: "template".to_string(),
                config: Json::Null,
            },
            kafka_partitions: None,
            ingest_replicas: 2,
            ingest: vec![(
                "baseline".to_string(),
                StreamPhaseIngest { target_eps: 50_000, batch_size: 5 },
            )],
        }]),
        query_mix: QueryMix { queries: vec![] },
        query_groups: None,
        timeline: Timeline {
            phases: vec![PhaseDef {
                name: "baseline".to_string(),
                display_name: "Baseline".to_string(),
                duration_seconds: 90,
                query: QueryConfig { target_pqps: 2_500_000_000_000, mix_override: None },
                description: String::new(),
            }],
        },
        valid_run_criteria: ValidRunCriteria { rules: vec![] },
        report: ReportConfig { title: None, emphasis: vec![] },
        default_timeout_ms: 10_000,
        query_session: None,
    }
}

fn request() -> RunRequest {
    RunRequest {
        target: "mach5".to_string(),
        kafka_bootstrap: "k:9092".to_string(),
        duration_scale_ppm: 500_000,
        rate_scale_ppm: 1_000_000,
        replicas_ingest: 10,
        replicas_query: 4,
    }
}

#[test]
fn the_plan_of_a_run() {
    assert_eq!(
        run_plan(&scenario(), &request()),
        vec![
            "IncidentBench Run Plan",
            "======================",
            "Scenario:        SRE Outage v2.0",
            "Target:          mach5",
            "Kafka:           k:9092",
            "Duration Scale:  0.5x",
            "Rate Scale:      1x",
            "Ingest Workers:  10",
            "Query Workers:   4",
            "Total Duration:  90s (1.5 min)",
            "Total Events:    ~4.5M",
            "",
            "Data Streams:",
            "  logs (index: logs-idx, replicas: 2)",
            "",
            "Phase Timeline:",
            "  Baseline               90s    50000 EPS    2.5 QPS",
        ]
    );
}

#[test]
fn the_name_of_a_run() {
    assert_eq!(run_name("SRE Outage!", "20250101-000000"), "sre-outage-20250101-000000");
    assert_eq!(run_name("..Ünï_x-", "t"), "n--x-t");
    assert_eq!(sanitize("-.a b.c.-"), "a-b.c");
    assert_eq!(sanitize("---"), "");
}

#[test]
fn the_resource_of_a_run() {
    let j = run_resource("n", Json::text("S"), &request(), Json::object());
    assert_eq!(
        render(&j),
        "{\"apiVersion\":\"incidentbench.io/v1alpha1\",\"kind\":\"IncidentBenchRun\",\
         \"metadata\":{\"name\":\"n\",\"namespace\":\"incidentbench\"},\"spec\":{\"scenario\":\"S\",\
         \"target\":{\"adapter\":\"mach5\",\"config\":{}},\"kafka\":{\"bootstrapServers\":\"k:9092\"},\
         \"scaling\":{\"durationScale\":0.5,\"rateScale\":1.0},\
         \"workers\":{\"ingest\":{\"replicas\":10},\"query\":{\"replicas\":4}},\"dryRun\":false}}"
    );
    assert_eq!(created_lines("n")[3], "  incidentbench metrics n --live");
}

#[test]
fn scenarios_are_praised_or_blamed() {
    let lines = valid_lines(&scenario());
    assert_eq!(lines[0], "Scenario 'SRE Outage' is valid.");
    assert_eq!(lines[4], "  Streams:    1");
    assert_eq!(lines[5], "    logs -> index 'logs-idx' (1 fields)");
    assert_eq!(lines[9], "  Events:     ~4.5M");
    assert_eq!(
        invalid_lines("x", &vec!["a".to_string(), "b".to_string()]),
        vec!["Scenario 'x' has 2 validation error(s):", "  - a", "  - b"]
    );
}

fn status() -> IncidentBenchRunStatus {
    IncidentBenchRunStatus {
        phase: LifecyclePhase::Running,
        conditions: vec![Condition {
            condition_type: "Prepared".to_string(),
            status: "True".to_string(),
            message: Some("ok".to_string()),
            last_transition_time: None,
        }],
        current_benchmark_phase: Some("overlap".to_string()),
        current_benchmark_phase_index: None,
        workers: Some(WorkerStatus {
            ingest_desired: 10,
            ingest_ready: 9,
            query_desired: 4,
            query_ready: 4,
        }),
        run_id: Some("id".to_string()),
        start_time: None,
        completion_time: None,
        progress: Some(ProgressStatus {
            elapsed_seconds: 45,
            total_seconds: 180,
            achieved_ingest_eps: 498,
            target_ingest_eps: 500,
            achieved_query_uqps: 2_000_000,
            target_query_uqps: 5_000_000,
            kafka_consumer_lag: 12,
        }),
        results: Some(RunResults {
            valid: false,
            validity_violations: vec!["too short".to_string()],
            warnings: vec![],
            harness_saturated: false,
            scorecard: Some(Scorecard {
                baseline_p99_ns: Ratio { num: 16_360_000, den: 1 },
                overlap_p99_ns: Ratio { num: 3_890_000, den: 1 },
                p99_degradation_ratio: Ratio { num: 389, den: 1636 },
                query_error_rate_overlap: Ratio { num: 1, den: 8 },
                peak_backlog: 2778,
                backlog_drain_time_s: 1,
                recovery_time_s: 0,
            }),
        }),
    }
}

#[test]
fn the_status_of_a_run() {
    assert_eq!(
        status_lines("r1", "ns", &Some(status())),
        vec![
            "Name:      r1",
            "Namespace: ns",
            "Phase:     Running",
            "Run ID:    id",
            "Benchmark Phase: overlap",
            "Workers:   ingest 9/10, query 4/4",
            "Progress:  45/180s (25%)",
            "Ingest:    498 / 500 EPS",
            "Query:     2.0 / 5.0 QPS",
            "Kafka Lag: 12",
            "",
            "Valid:     NO",
            "Violations:",
            "  - too short",
            "",
            "Scorecard:",
            "  Baseline p99:     16.4 ms",
            "  Overlap p99:      3.9 ms",
            "  Degradation:      0.2x",
            "  Error Rate:       12.5%",
            "  Peak Backlog:     2778",
            "  Drain Time:       1.0s",
            "  Recovery Time:    0.0s",
            "",
            "Conditions:",
            "  Prepared = True (ok)",
        ]
    );
    assert_eq!(status_lines("r1", "ns", &None)[2], "Phase:     Pending (no status yet)");
}

#[test]
fn the_list_of_runs() {
    assert_eq!(
        list_header(),
        format!("{:<30} {:<15} {:<15} {:<10}", "NAME", "PHASE", "BENCHMARK", "AGE")
    );
    assert_eq!(
        list_row("r1", &Some(status()), Some(7300)),
        format!("{:<30} {:<15} {:<15} {:<10}", "r1", "Running", "overlap", "2h")
    );
    assert_eq!(
        list_row("r1", &None, None),
        format!("{:<30} {:<15} {:<15} {:<10}", "r1", "Pending", "-", "-")
    );
    assert_eq!(age_text(59), "59s");
    assert_eq!(age_text(60), "1m");
    assert_eq!(age_text(3599), "59m");
    assert_eq!(age_text(3600), "1h");
    assert_eq!(no_runs("ns"), "No IncidentBenchRun resources found in namespace 'ns'");
    assert_eq!(deleting_lines("r1", "ns")[0], "Deleting IncidentBenchRun 'r1' in namespace 'ns'...");
    assert!(deleted_line("r1").contains("incidentbench status r1"));
    assert_eq!(pad_left("abc", 2), "abc");
    assert_eq!(pad_right("é", 3), "é  ");
}

fn point(second: u64) -> AggregatedMetricPoint {
    AggregatedMetricPoint {
        timestamp_s: second,
        phase: "overlap".to_string(),
        ingest_events_produced: second,
        ingest_events_acknowledged: 0,
        ingest_events_failed: 0,
        ingest_target_eps: 500,
        ingest_kafka_produce_latency: PercentileSummary::default(),
        query_executed: 10,
        query_errors: 2,
        query_target_uqps: 12_500_000,
        query_latency: PercentileSummary {
            p50: 1_250_000,
            p95: 2_000_000,
            p99: 3_449_999,
            max: 4_000_000,
            count: 10,
        },
        kafka_consumer_lag: 77,
        ingest_workers_reporting: 3,
        query_workers_reporting: 4,
        concurrent_sessions: 0,
        harness_saturated: false,
        max_worker_cpu_ppm: 0,
        query_group_metrics: vec![],
    }
}

#[test]
fn a_second_as_a_line() {
    assert_eq!(
        table_header(),
        format!(
            "{:<12} {:>10} {:>10} {:>8} {:>8} {:>8} {:>8} {:>12} {:>6}",
            "PHASE", "INGEST_EPS", "TARGET", "Q_QPS", "Q_TARG", "P50", "P99", "KAFKA_LAG", "ERRS"
        )
    );
    assert_eq!(
        format_snapshot_table(&point(498)),
        format!(
            "{:<12} {:>10} {:>10} {:>8} {:>8.1} {:>8.1} {:>8.1} {:>12} {:>6}",
            "overlap", 498, 500, 10, 12.5, 1.25, 3.449999, 77, 2
        )
    );
    assert_eq!(
        render(&format_snapshot_json(&point(498))),
        "{\"phase\":\"overlap\",\"ingest_eps\":498,\"ingest_target_eps\":500,\"query_qps\":10,\
         \"query_target_qps\":12.5,\"query_p50\":1.25,\
         \"query_p95\":2.0,\"query_p99\":3.449999,\"kafka_consumer_lag\":77,\
         \"query_errors\":2}"
    );
}

#[test]
fn the_screen_of_a_run() {
    let mut history = Vec::new();
    for s in 0..350 {
        remember(&mut history, point(s));
    }
    assert_eq!(history.len(), 300);
    assert_eq!(history[0].timestamp_s, 50);
    assert_eq!(sparkline(&history), (290..350).collect::<Vec<u64>>());
    assert_eq!(sparkline(&vec![point(1)]), vec![1]);
    assert_eq!(
        screen_status(&point(498)),
        "Phase: overlap  |  Ingest: 498 / 500 EPS  |  Query: 10.0 / 12.5 QPS  |  Kafka Lag: 77"
    );
    let cards = screen_cards(&point(498));
    assert_eq!(cards.len(), 8);
    assert_eq!(cards[2], ("Query p99".to_string(), "3.4 ms".to_string()));
    assert_eq!(cards[7], ("Workers".to_string(), "I:3 Q:4".to_string()));
    assert_eq!(discover_aggregator_addr("r1", "ns"), "r1-aggregator.ns.svc:50052");
}

#[test]
fn fetching_a_report() {
    match plan_download("r1", "ns", "out", LifecyclePhase::Running) {
        Err(e) => assert_eq!(e, "Run is not Completed yet (current phase: Running)"),
        Ok(_) => panic!("not completed"),
    }
    let d = match plan_download("r1", "ns", "out", LifecyclePhase::Completed) {
        Ok(d) => d,
        Err(e) => panic!("{}", e),
    };
    assert_eq!(d.claim_name, "r1-results");
    assert_eq!(d.pod_name, "r1-report-dl");
    assert_eq!(d.copies.len(), 7);
    assert_eq!(d.copies[0].from, "ns/r1-report-dl:/results/report.html");
    assert_eq!(d.copies[0].to, "out/report.html");
    assert!(render(&d.manifest).contains("\"claimName\":\"r1-results\""));
    assert_eq!(regenerated_lines("out").len(), 7);
    assert!(missing_file("x").starts_with("  Warning: x not found"));
}
