use incidentbench::json::Json;
use incidentbench::rates::stream_phase_eps;
use incidentbench::scenario::{
    default_batch_size, default_parallelism, default_timeout_ms, DataGeneratorConfig, DataStream,
    FieldDef, FieldType, PhaseDef, QueryConfig, QueryDef, QueryGroup, QueryMix, ReportConfig,
    Scenario, ScenarioMeta, Schema, StreamPhaseIngest, Timeline, ValidRunCriteria,
};

fn phase(name: &str, display: &str, qps: u64) -> PhaseDef {
    PhaseDef {
        name: name.to_string(),
        display_name: display.to_string(),
        duration_seconds: 30,
        query: QueryConfig { target_pqps: qps as u128 * 1_000_000_000_000, mix_override: None },
        description: String::new(),
    }
}

fn ingest(name: &str, eps: u64) -> (String, StreamPhaseIngest) {
    (name.to_string(), StreamPhaseIngest { target_eps: eps, batch_size: 500 })
}

fn query(name: &str, index: &str) -> QueryDef {
    QueryDef {
        name: name.to_string(),
        query_type: "search".to_string(),
        weight_ppb: None,
        template: "level:ERROR".to_string(),
        index: index.to_string(),
        sort: None,
        limit: None,
        timeout_ms: 10000,
        sql: None,
        sql_file: None,
        category: None,
        description: String::new(),
        variables: vec![],
    }
}

fn make_stream() -> DataStream {
    DataStream {
        name: "test-logs".to_string(),
        schema: Schema {
            index_name: "test-logs".to_string(),
            timestamp_field: "@timestamp".to_string(),
            fields: vec![
                FieldDef {
                    name: "@timestamp".to_string(),
                    field_type: FieldType::Timestamp,
                    generator: "now".to_string(),
                    config: Json::Null,
                },
                FieldDef {
                    name: "level".to_string(),
                    field_type: FieldType::Keyword,
                    generator: "weighted_enum".to_string(),
                    config: Json::object().with(
                        "values",
                        Json::object()
                            .with("INFO", Json::Number("0.9".to_string()))
                            .with("ERROR", Json::Number("0.1".to_string())),
                    ),
                },
            ],
        },
        data_generator: DataGeneratorConfig {
            generator_type: "template".to_string(),
            config: Json::object().with("seed", Json::Uint(42)),
        },
        kafka_partitions: None,
        ingest_replicas: 2,
        ingest: vec![
            ingest("baseline", 100),
            ingest("incident_trigger", 200),
            ingest("ingestion_surge", 500),
            ingest("overlap", 500),
            ingest("recovery", 200),
            ingest("post_incident", 100),
        ],
    }
}

fn make_test_scenario() -> Scenario {
    Scenario {
        scenario: ScenarioMeta {
            name: "test".to_string(),
            version: "1.0.0".to_string(),
            display_name: "Test".to_string(),
            description: String::new(),
            domain: "sre".to_string(),
        },
        data_streams: Some(vec![make_stream()]),
        query_mix: QueryMix { queries: vec![query("error_search", "test-logs")] },
        query_groups: None,
        timeline: Timeline {
            phases: vec![
                phase("baseline", "Baseline", 10),
                phase("incident_trigger", "Incident Trigger", 10),
                phase("ingestion_surge", "Ingestion Surge", 20),
                phase("overlap", "Overlap", 50),
                phase("recovery", "Recovery", 20),
                phase("post_incident", "Post-Incident", 10),
            ],
        },
        valid_run_criteria: ValidRunCriteria { rules: vec![] },
        report: ReportConfig { title: None, emphasis: vec![] },
        default_timeout_ms: 10_000,
        query_session: None,
    }
}

#[test]
fn test_scenario_validates_ok() {
    let scenario = make_test_scenario();
    let errors = scenario.validate();
    assert!(errors.is_empty(), "Expected no errors, got: {:?}", errors);
}

#[test]
fn test_scenario_validates_empty_streams() {
    let mut scenario = make_test_scenario();
    scenario.data_streams = Some(vec![]);
    let errors = scenario.validate();
    assert!(errors
        .iter()
        .any(|e| e.contains("data_streams must have at least one stream if specified")));
}

#[test]
fn test_scenario_validates_bad_query_index() {
    let mut scenario = make_test_scenario();
    scenario.query_mix.queries[0].index = "nonexistent".to_string();
    let errors = scenario.validate();
    assert!(errors.iter().any(|e| e.contains("nonexistent")));
}

#[test]
fn test_ingest_rate_table_divides_evenly() {
    let scenario = make_test_scenario();
    let stream = &scenario.data_streams.as_ref().unwrap()[0];
    let table = scenario.compute_ingest_rate_table(stream, 0);
    let baseline = table.phases.iter().find(|p| p.phase_name == "baseline").unwrap();
    assert_eq!(baseline.ingest_eps, 50);
}

#[test]
fn test_ingest_rate_table_remainder_to_last_worker() {
    let mut scenario = make_test_scenario();
    scenario.data_streams.as_mut().unwrap()[0].ingest[0].1.target_eps = 101;
    let stream = &scenario.data_streams.as_ref().unwrap()[0];
    let table0 = scenario.compute_ingest_rate_table(stream, 0);
    let table1 = scenario.compute_ingest_rate_table(stream, 1);
    let w0_baseline = table0.phases.iter().find(|p| p.phase_name == "baseline").unwrap();
    let w1_baseline = table1.phases.iter().find(|p| p.phase_name == "baseline").unwrap();
    assert_eq!(w0_baseline.ingest_eps, 50);
    assert_eq!(w1_baseline.ingest_eps, 51);
}

#[test]
fn test_ingest_rate_table_zero_replicas_no_panic() {
    let mut scenario = make_test_scenario();
    scenario.data_streams.as_mut().unwrap()[0].ingest_replicas = 0;
    let stream = &scenario.data_streams.as_ref().unwrap()[0];
    let table = scenario.compute_ingest_rate_table(stream, 0);
    let baseline = table.phases.iter().find(|p| p.phase_name == "baseline").unwrap();
    assert_eq!(baseline.ingest_eps, 100);
}

#[test]
fn test_query_rate_table_zero_workers_no_panic() {
    let scenario = make_test_scenario();
    let table = scenario.compute_query_rate_table(0, 0);
    let baseline = table.phases.iter().find(|p| p.phase_name == "baseline").unwrap();
    assert_eq!(baseline.query_mqps, 10000);
}

#[test]
fn test_query_rate_table_distributes_qps() {
    let scenario = make_test_scenario();
    let table = scenario.compute_query_rate_table(4, 0);
    let overlap = table.phases.iter().find(|p| p.phase_name == "overlap").unwrap();
    assert_eq!(overlap.query_mqps, 12500);
}

#[test]
fn test_query_rate_table_supports_sub_one_qps_per_worker() {
    let mut scenario = make_test_scenario();
    for phase in &mut scenario.timeline.phases {
        phase.query.target_pqps = 1_000_000_000_000;
    }
    let worker_rates: Vec<u64> = (0..4)
        .map(|worker_index| {
            let table = scenario.compute_query_rate_table(4, worker_index);
            table
                .phases
                .iter()
                .find(|p| p.phase_name == "baseline")
                .unwrap()
                .query_mqps
        })
        .collect();
    assert_eq!(worker_rates, vec![250, 250, 250, 250]);
    assert_eq!(worker_rates.iter().sum::<u64>(), 1000);
}

#[test]
fn test_total_duration() {
    let scenario = make_test_scenario();
    assert_eq!(scenario.total_duration_seconds(), 180);
}

#[test]
fn test_with_scaling() {
    let scenario = make_test_scenario();
    let scaled = scenario.with_scaling(2_000_000, 500_000);
    let baseline = scaled.timeline.phases.iter().find(|p| p.name == "baseline").unwrap();
    assert_eq!(baseline.duration_seconds, 60);
    assert_eq!(baseline.query.target_pqps, 5_000_000_000_000);
    let stream_baseline = &scaled.data_streams.as_ref().unwrap()[0]
        .ingest
        .iter()
        .find(|e| e.0 == "baseline")
        .unwrap()
        .1;
    assert_eq!(stream_baseline.target_eps, 50);
}

#[test]
fn scaling_keeps_the_smallest_rates() {
    let mut scenario = make_test_scenario();
    scenario.timeline.phases[0].query.target_pqps = 3_000_000;
    let scaled = scenario.with_scaling(1_000_000, 7);
    assert_eq!(scaled.timeline.phases[0].query.target_pqps, 21);
    scenario.timeline.phases[0].query.target_pqps = u128::MAX;
    let scaled = scenario.with_scaling(1_000_000, 2_000_000);
    assert_eq!(scaled.timeline.phases[0].query.target_pqps, u128::MAX);
    assert_eq!(scaled.compute_query_rate_table(1, 0).phases[0].query_mqps, u64::MAX);
}

#[test]
fn scaling_by_one_changes_nothing() {
    let scenario = make_test_scenario();
    let scaled = scenario.with_scaling(1_000_000, 1_000_000);
    for (a, b) in scenario.timeline.phases.iter().zip(scaled.timeline.phases.iter()) {
        assert_eq!(a.name, b.name);
        assert_eq!(a.duration_seconds, b.duration_seconds);
        assert_eq!(a.query.target_pqps, b.query.target_pqps);
    }
    assert_eq!(scenario.total_events_at_target(), scaled.total_events_at_target());
}

#[test]
fn shares_of_all_workers_make_the_whole() {
    let mut scenario = make_test_scenario();
    {
        let stream = &mut scenario.data_streams.as_mut().unwrap()[0];
        stream.ingest_replicas = 7;
        stream.ingest[3].1.target_eps = 1003;
    }
    let stream = &scenario.data_streams.as_ref().unwrap()[0];
    let sum: u64 = (0..7)
        .map(|i| {
            scenario
                .compute_ingest_rate_table(stream, i)
                .phases
                .iter()
                .find(|p| p.phase_name == "overlap")
                .unwrap()
                .ingest_eps
        })
        .sum();
    assert_eq!(sum, 1003);
}

#[test]
fn totals_of_a_scenario() {
    let scenario = make_test_scenario();
    assert_eq!(scenario.total_events_at_target(), 30 * (100 + 200 + 500 + 500 + 200 + 100));
    assert_eq!(scenario.total_ingest_replicas(), 2);
    assert_eq!(scenario.phase_target_eps("overlap"), 500);
    assert_eq!(scenario.phase_target_eps("nothing"), 0);
    assert!(scenario.has_ingest());
    assert!(!scenario.is_session_mode());
    let stream = &scenario.data_streams.as_ref().unwrap()[0];
    assert_eq!(stream_phase_eps(stream, "recovery"), 200);
}

#[test]
fn a_scenario_without_streams_ingests_nothing() {
    let mut scenario = make_test_scenario();
    scenario.data_streams = None;
    scenario.query_mix.queries[0].index = String::new();
    assert!(!scenario.has_ingest());
    assert_eq!(scenario.total_events_at_target(), 0);
    assert_eq!(scenario.total_ingest_replicas(), 0);
}

#[test]
fn sessions_need_a_category_for_every_query() {
    let mut scenario = make_test_scenario();
    scenario.query_mix.queries[0].category = Some("top".to_string());
    assert!(scenario.is_session_mode());
    scenario.query_mix.queries.push(query("other", "test-logs"));
    assert!(!scenario.is_session_mode());
}

#[test]
fn a_group_keeps_to_the_queries_it_names() {
    let mut scenario = make_test_scenario();
    scenario.query_mix.queries.push(query("slow_search", "test-logs"));
    let group = QueryGroup {
        name: "analysts".to_string(),
        weight_ppb: 250_000_000,
        mix_override: Some(vec![("slow_search".to_string(), 1_000_000_000)]),
    };
    let mix = scenario.resolve_group_query_mix(&group);
    assert_eq!(mix.queries.len(), 1);
    assert_eq!(mix.queries[0].name, "slow_search");
}

#[test]
fn a_group_gets_its_weight_of_the_queries() {
    let scenario = make_test_scenario();
    let table = scenario.compute_group_rate_table(250_000_000, 5, 0);
    let overlap = table.phases.iter().find(|p| p.phase_name == "overlap").unwrap();
    assert_eq!(overlap.query_mqps, 2500);
}

#[test]
fn weights_of_queries_add_up_to_one() {
    let mut scenario = make_test_scenario();
    assert!(scenario.validate().is_empty());
    scenario.query_mix.queries[0].weight_ppb = Some(250_000_000);
    assert_eq!(scenario.validate(), vec!["Query weights must sum to 1.0, got 0.250".to_string()]);
    let mut other = query("slow_search", "test-logs");
    other.weight_ppb = Some(750_000_000);
    scenario.query_mix.queries.push(other);
    assert!(scenario.validate().is_empty());
    // One of which nothing is said counts for nothing.
    scenario.query_mix.queries.push(query("other", "test-logs"));
    assert!(scenario.validate().is_empty());
}

#[test]
fn missing_phases_and_short_phases_are_complained_of() {
    let mut scenario = make_test_scenario();
    scenario.timeline.phases[0].duration_seconds = 29;
    let _ = scenario.timeline.phases.pop();
    let errors = scenario.validate();
    assert!(errors.len() >= 2, "{:?}", errors);
    assert!(errors.iter().any(|e| e.contains("post_incident")), "{:?}", errors);
    assert!(errors.iter().any(|e| e.contains("29")), "{:?}", errors);
}

#[test]
fn defaults_of_a_scenario() {
    assert_eq!(default_parallelism(), 1);
    assert_eq!(default_timeout_ms(), 10_000);
    assert_eq!(default_batch_size(), 500);
    assert_eq!(FieldType::Timestamp.to_mapping_type(), "date");
    assert_eq!(FieldType::Int.to_mapping_type(), "integer");
    assert_eq!(FieldType::Ip.to_mapping_type(), "ip");
}
