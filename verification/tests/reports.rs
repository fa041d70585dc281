use incidentbench::categories::build_per_category_latency;
use incidentbench::criteria::{evaluate_criteria_rule, evaluate_validity};
use incidentbench::decimal::Ratio;
use incidentbench::docs::ToDoc;
use incidentbench::events::render;
use incidentbench::groups::compare_groups;
use incidentbench::html_report;
use incidentbench::html_report::{
    generate_csv, generate_phase_rows, generate_query_group_section,
};
use incidentbench::json::Json;
use incidentbench::json_report;
use incidentbench::json_report::{build_query_group_comparison, ReportContext, ReportTables};
use incidentbench::metrics::{
    compute_derived, AggregatedMetricPoint, PercentileSummary, PerQueryTimeSeries,
    PerQueryTimeSeriesPoint, QueryGroupMetrics, Scorecard, TimeSeries,
};
use incidentbench::scenario::{
    DataGeneratorConfig, DataStream, FieldDef, FieldType, PhaseDef, QueryConfig, QueryDef,
    QueryMix, ReportConfig, Scenario, ScenarioMeta, Schema, StreamPhaseIngest, Timeline,
    ValidRunCriteria, ValidRunRule,
};
use incidentbench::seeds::compute_config_hash;

fn query(name: &str, category: Option<&str>) -> QueryDef {
    QueryDef {
        name: name.to_string(),
        query_type: "search".to_string(),
        weight_ppb: None,
        template: "*".to_string(),
        index: "test".to_string(),
        sort: None,
        limit: None,
        timeout_ms: 5000,
        description: String::new(),
        variables: vec![],
        sql: None,
        sql_file: None,
        category: category.map(|c| c.to_string()),
    }
}

fn make_scenario_for_test() -> Scenario {
    let stream = DataStream {
        name: "test".to_string(),
        schema: Schema {
            index_name: "test".to_string(),
            timestamp_field: "@timestamp".to_string(),
            fields: vec![FieldDef {
                name: "@timestamp".to_string(),
                field_type: FieldType::Timestamp,
                generator: "now".to_string(),
                config: Json::Null,
            }],
        },
        data_generator: DataGeneratorConfig {
            generator_type: "template".to_string(),
            config: Json::object().with("seed", Json::Uint(1)),
        },
        kafka_partitions: None,
        ingest_replicas: 1,
        ingest: [
            ("baseline", 100),
            ("incident_trigger", 200),
            ("ingestion_surge", 500),
            ("overlap", 500),
            ("recovery", 200),
            ("post_incident", 100),
        ]
        .into_iter()
        .map(|(n, eps)| {
            (n.to_string(), StreamPhaseIngest { target_eps: eps, batch_size: 500 })
        })
        .collect(),
    };

    Scenario {
        scenario: ScenarioMeta {
            name: "test".to_string(),
            version: "1.0".to_string(),
            display_name: "Test".to_string(),
            description: String::new(),
            domain: "sre".to_string(),
        },
        data_streams: Some(vec![stream]),
        default_timeout_ms: 10_000,
        query_session: None,
        query_mix: QueryMix { queries: vec![query("q1", None)] },
        query_groups: None,
        timeline: Timeline {
            phases: [
                "baseline",
                "incident_trigger",
                "ingestion_surge",
                "overlap",
                "recovery",
                "post_incident",
            ]
            .iter()
            .map(|n| PhaseDef {
                name: n.to_string(),
                display_name: n.to_string(),
                duration_seconds: 30,
                query: QueryConfig { target_pqps: 10_000_000_000_000, mix_override: None },
                description: String::new(),
            })
            .collect(),
        },
        valid_run_criteria: ValidRunCriteria {
            rules: vec![ValidRunRule {
                name: "max_error_rate".to_string(),
                condition: "query_error_rate_overlap < 0.1".to_string(),
                message: "error rate too high".to_string(),
            }],
        },
        report: ReportConfig { title: None, emphasis: vec![] },
    }
}

/// `p99` is in milliseconds.
fn make_point(phase: &str, p99: f64, ingest_produced: u64) -> AggregatedMetricPoint {
    let ns = |ms: f64| (ms * 1_000_000.0).round() as u64;
    AggregatedMetricPoint {
        timestamp_s: 0,
        phase: phase.to_string(),
        ingest_events_produced: ingest_produced,
        ingest_events_acknowledged: ingest_produced,
        ingest_events_failed: 0,
        ingest_target_eps: ingest_produced,
        ingest_kafka_produce_latency: PercentileSummary::default(),
        query_executed: 10,
        query_errors: 0,
        query_target_uqps: 10_000_000,
        query_latency: PercentileSummary {
            p50: ns(p99 * 0.5),
            p95: ns(p99 * 0.8),
            p99: ns(p99),
            max: ns(p99 * 1.2),
            count: 10,
        },
        kafka_consumer_lag: 0,
        ingest_workers_reporting: 1,
        query_workers_reporting: 1,
        concurrent_sessions: 0,
        harness_saturated: false,
        max_worker_cpu_ppm: 300_000,
        query_group_metrics: vec![],
    }
}

fn series(points: Vec<AggregatedMetricPoint>) -> TimeSeries {
    TimeSeries { resolution_s: 1, points }
}

fn clean_run() -> TimeSeries {
    let mut points = Vec::new();
    for _ in 0..10 {
        points.push(make_point("baseline", 5.0, 300));
    }
    for _ in 0..10 {
        points.push(make_point("overlap", 8.0, 1500));
    }
    series(points)
}

#[test]
fn test_evaluate_validity_passes_clean_run() {
    let scenario = make_scenario_for_test();
    let (valid, violations, _) = evaluate_validity(&clean_run(), &scenario);
    assert!(valid, "Expected valid, violations: {:?}", violations);
}

#[test]
fn test_evaluate_validity_fails_unstable_baseline() {
    let scenario = make_scenario_for_test();
    let mut points = Vec::new();
    for _ in 0..5 {
        points.push(make_point("baseline", 5.0, 300));
    }
    points.push(make_point("baseline", 50.0, 300));
    for _ in 0..10 {
        points.push(make_point("overlap", 8.0, 1500));
    }
    let (valid, violations, _) = evaluate_validity(&series(points), &scenario);
    assert!(!valid);
    assert!(violations.iter().any(|v| v.contains("Baseline p99 unstable")));
    assert!(violations
        .iter()
        .any(|v| v == "Baseline p99 unstable: max 50.0ms > 2x median 5.0ms"));
}

#[test]
fn test_evaluate_validity_custom_criteria_violation() {
    let scenario = make_scenario_for_test();
    let mut points = Vec::new();
    for _ in 0..10 {
        points.push(make_point("baseline", 5.0, 100));
    }
    for _ in 0..10 {
        let mut overlap_point = make_point("overlap", 8.0, 500);
        overlap_point.ingest_events_produced = 1500;
        overlap_point.ingest_events_acknowledged = 1500;
        overlap_point.ingest_target_eps = 1500;
        overlap_point.query_errors = 5;
        points.push(overlap_point);
    }
    let (valid, violations, _) = evaluate_validity(&series(points), &scenario);
    assert!(!valid);
    assert!(violations.iter().any(|v| v.contains("error rate too high")));
    assert!(violations.iter().any(|v| v == "max_error_rate: error rate too high"));
    assert!(violations.iter().any(|v| v == "Baseline ingest EPS 33 < 90% of target 100"));
}

/// The test scenario as a text.
fn config_text(s: &Scenario) -> String {
    let phases: Vec<String> = s
        .timeline
        .phases
        .iter()
        .map(|p| format!("{}: {}s", p.name, p.duration_seconds))
        .collect();
    let streams: Vec<String> = s
        .data_streams
        .iter()
        .flatten()
        .map(|d| format!("{}: {}", d.name, render(&d.schema.to_json())))
        .collect();
    format!(
        "{} {} {}\n{}\n{}\n{}\n",
        s.scenario.name,
        s.scenario.version,
        s.scenario.domain,
        streams.join("\n"),
        render(&s.query_mix.to_json()),
        phases.join("\n")
    )
}

#[test]
fn test_config_hash_deterministic() {
    let config = &config_text(&make_scenario_for_test());
    let hash1 = compute_config_hash(config);
    let hash2 = compute_config_hash(config);
    assert_eq!(hash1, hash2);
    assert!(!hash1.is_empty());
    assert!(hash1.len() == 64);
}

#[test]
fn the_config_hash_is_sha256() {
    assert_eq!(
        compute_config_hash("abc"),
        "ba7816bf8f01cfea414140de5dae2223b00361a396177a9cb410ff61f20015ad"
    );
}

#[test]
fn slow_overlap_and_saturation_are_warned_of() {
    let scenario = make_scenario_for_test();
    let mut run = clean_run();
    for (i, p) in run.points.iter_mut().enumerate() {
        p.timestamp_s = i as u64;
        p.harness_saturated = i >= 4 && i < 13;
    }
    let slow = "Overlap QPS 3.3 < 50% of target 10.0".to_string();
    let (valid, _, warnings) = evaluate_validity(&run, &scenario);
    assert!(valid);
    // Nine seconds in a row are not enough.
    assert_eq!(warnings, vec![slow.clone()]);
    run.points[13].harness_saturated = true;
    let (_, _, warnings) = evaluate_validity(&run, &scenario);
    assert_eq!(warnings, vec![slow, "Harness saturation detected".to_string()]);
}

#[test]
fn too_few_queries_at_the_baseline_speak_against_a_run() {
    let scenario = make_scenario_for_test();
    let mut run = clean_run();
    for p in run.points.iter_mut().take(10) {
        p.query_executed = 9;
    }
    assert!(evaluate_validity(&run, &scenario).0);
    run.points[0].query_executed = 8;
    let (valid, violations, _) = evaluate_validity(&run, &scenario);
    assert!(!valid);
    assert_eq!(violations, vec!["Baseline QPS 8.9 < 90% of target 10.0".to_string()]);
}

#[test]
fn weak_ingest_and_many_errors_are_warned_of() {
    let scenario = make_scenario_for_test();
    let mut run = clean_run();
    run.points.push(make_point("ingestion_surge", 5.0, 249));
    for p in run.points.iter_mut().skip(10).take(10) {
        p.ingest_events_produced = 100;
        p.query_executed = 20;
        p.query_errors = 2;
    }
    let (_, _, warnings) = evaluate_validity(&run, &scenario);
    assert_eq!(
        warnings,
        vec![
            "Surge ingest EPS 249 < 50% of target 500".to_string(),
            "Overlap ingest EPS 100 < 50% of target 500".to_string(),
        ]
    );
    run.points[10].query_errors = 3;
    let (_, _, warnings) = evaluate_validity(&run, &scenario);
    assert_eq!(warnings[2], "Phase 'overlap' query errors 21 > 10% of 200");
}

#[test]
fn a_rule_without_a_message_is_quoted() {
    let mut scenario = make_scenario_for_test();
    scenario.valid_run_criteria.rules = vec![ValidRunRule {
        name: "volume".to_string(),
        condition: "query.total_executed >= 500".to_string(),
        message: String::new(),
    }];
    let (valid, violations, _) = evaluate_validity(&clean_run(), &scenario);
    assert!(!valid);
    assert_eq!(
        violations,
        vec!["Criteria 'volume' violated: query.total_executed >= 500".to_string()]
    );
}

#[test]
fn equal_numbers_may_differ_a_little() {
    let d = compute_derived(&clean_run());
    // Less than 2^-52 apart, which is 2.220446049250313080847263336181640625e-16.
    assert!(!evaluate_criteria_rule("baseline_p99_ms == 5.0000000000000002", &d));
    assert!(!evaluate_criteria_rule("baseline_p99_ms == 4.9999999999999998", &d));
    assert!(evaluate_criteria_rule("baseline_p99_ms == 5.0000000000000003", &d));
    assert!(evaluate_criteria_rule("baseline_p99_ms == 4.9999999999999997", &d));
    let part = "0000000000000002220446049250313080847263336181640625";
    assert!(evaluate_criteria_rule(&format!("overlap_p99_ms == 8.{}", part), &d));
    assert!(!evaluate_criteria_rule(&format!("overlap_p99_ms == 8.{}", part.replace("0625", "0624")), &d));
    assert!(!evaluate_criteria_rule("query_p99_ratio == 1.6", &d));
    assert!(!evaluate_criteria_rule("peak_backlog == -2e-16", &d));
    assert!(evaluate_criteria_rule("peak_backlog == -3e-16", &d));
    assert!(!evaluate_criteria_rule("peak_backlog == 2e-16", &d));
    assert!(evaluate_criteria_rule("peak_backlog == inf", &d));
    assert!(evaluate_criteria_rule("peak_backlog == nan", &d));
}

#[test]
fn every_operator_compares() {
    let d = compute_derived(&clean_run());
    // The mean of the baseline is 5 ms, that of the overlap 8 ms.
    assert!(!evaluate_criteria_rule("baseline_p99_ms == 5", &d));
    assert!(evaluate_criteria_rule("baseline_p99_ms == 5.000001", &d));
    assert!(!evaluate_criteria_rule("baseline_p99_ms <= 5.0", &d));
    assert!(evaluate_criteria_rule("baseline_p99_ms < 5", &d));
    assert!(!evaluate_criteria_rule("overlap_p99_ms > 7.999", &d));
    assert!(evaluate_criteria_rule("overlap_p99_ms >= 8.1", &d));
    assert!(!evaluate_criteria_rule("query_p99_ratio < 1.7", &d));
    assert!(evaluate_criteria_rule("query_p99_ratio < 1.6", &d));
    assert!(!evaluate_criteria_rule("query.p99_ratio <= 1.6", &d));
    assert!(evaluate_criteria_rule("peak_backlog > -1 extra", &d) == false);
    assert!(!evaluate_criteria_rule("peak_backlog > -1", &d));
    assert!(!evaluate_criteria_rule("peak_backlog != 0", &d));
    assert!(!evaluate_criteria_rule("no_such_figure < 0", &d));
    assert!(!evaluate_criteria_rule("peak_backlog < many", &d));
    assert!(!evaluate_criteria_rule("query_error_rate_overlap < 0.0000005", &d));
    assert!(evaluate_criteria_rule("query_error_rate_overlap > 0.0000005", &d));
    assert!(!evaluate_criteria_rule("query_error_rate_overlap == -0.0", &d));
    assert!(!evaluate_criteria_rule("peak_backlog < inf", &d));
    assert!(evaluate_criteria_rule("peak_backlog > Infinity", &d));
    assert!(!evaluate_criteria_rule("peak_backlog > -inf", &d));
    assert!(evaluate_criteria_rule("peak_backlog >= NaN", &d));
    assert!(!evaluate_criteria_rule("query_p99_ratio < 1.6000000000000000000000000000000001", &d));
    assert!(evaluate_criteria_rule("query_p99_ratio <= 1.5999999999999999999999999999999999", &d));
    assert!(!evaluate_criteria_rule("query_p99_ratio < 1e9999999", &d));
    assert!(evaluate_criteria_rule("ingest.baseline_eps < 3e2", &d));
    assert!(!evaluate_criteria_rule("ingest.baseline_eps <= 3e2", &d));
}

#[test]
fn the_scorecard_of_a_run() {
    let mut run = clean_run();
    for (i, p) in run.points.iter_mut().enumerate() {
        p.timestamp_s = 100 + i as u64;
    }
    run.points[12].kafka_consumer_lag = 2778;
    run.points[13].kafka_consumer_lag = 1000;
    let mut late = make_point("recovery", 7.0, 200);
    late.timestamp_s = 120;
    run.points.push(late);
    let mut later = make_point("recovery", 5.5, 200);
    later.timestamp_s = 123;
    run.points.push(later);
    let card = Scorecard::from_derived(&compute_derived(&run));
    assert_eq!(card.baseline_p99_ns, Ratio { num: 50_000_000, den: 10 });
    assert_eq!(card.overlap_p99_ns, Ratio { num: 80_000_000, den: 10 });
    assert_eq!(card.peak_backlog, 2778);
    assert_eq!(card.backlog_drain_time_s, 2);
    assert_eq!(card.recovery_time_s, 3);
    assert_eq!(card.query_error_rate_overlap.num, 0);
}

#[test]
fn a_backlog_drains_to_the_level_of_the_baseline() {
    let mut points = Vec::new();
    for (t, phase, lag) in
        [(1, "baseline", 0), (10, "overlap", 5000), (15, "recovery", 50), (20, "recovery", 0)]
    {
        let mut p = make_point(phase, 0.0, 0);
        p.timestamp_s = t;
        p.kafka_consumer_lag = lag;
        points.push(p);
    }
    assert_eq!(compute_derived(&series(points)).ingest_backlog_drain_time_s, 10);
}

#[test]
fn a_run_that_never_recovers_is_told_from_one_that_does_at_once() {
    let run = |latencies: [f64; 3]| {
        let mut points = vec![make_point("baseline", 5.0, 100)];
        for (i, ms) in latencies.iter().enumerate() {
            let mut p = make_point("recovery", *ms, 100);
            p.timestamp_s = 50 + i as u64;
            points.push(p);
        }
        compute_derived(&series(points)).recovery_time_to_baseline_s
    };
    assert_eq!(run([6.0, 9.0, 9.0]), 0);
    assert_eq!(run([9.0, 9.0, 6.0]), 2);
    assert_eq!(run([9.0, 9.0, 9.0]), 3);
}

fn row(name: &str, p50: &str, p99: &str, count: u64, errors: u64, timeouts: u64) -> Json {
    Json::object()
        .with("query_name", Json::text(name))
        .with("p50", Json::Number(p50.to_string()))
        .with("p95", Json::Number(p99.to_string()))
        .with("p99", Json::Number(p99.to_string()))
        .with("min", Json::Uint(1))
        .with("max", Json::Uint(90))
        .with("count", Json::Uint(count))
        .with("error_count", Json::Uint(errors))
        .with("timeout_count", Json::Uint(timeouts))
}

#[test]
fn categories_take_their_queries_together() {
    let queries = vec![
        query("b1", Some("beta")),
        query("a1", Some("alpha")),
        query("b2", Some("beta")),
        query("loose", None),
        query("unknown", Some("alpha")),
    ];
    let per_query = vec![
        row("b1", "2.5", "10", 3, 2, 1),
        row("a1", "4", "20", 1, 0, 0),
        row("b2", "10", "30.25", 1, 0, 0),
        row("loose", "1", "1", 1, 1, 1),
    ];
    let timed_out = vec![
        Json::object().with("category", Json::text("beta")),
        Json::object().with("category", Json::text("gamma")),
    ];
    let r = build_per_category_latency(&queries, &timed_out, &per_query);
    assert_eq!(r.len(), 2);
    assert_eq!(
        render(&r[0]),
        "{\"query_name\":\"alpha\",\"min\":1.0,\"p50\":4.0,\
         \"p95\":20.0,\"p99\":20.0,\"max\":90.0,\
         \"count\":1,\"error_count\":0,\"timeout_count\":0}"
    );
    // (2.5 * 3 + 10 * 1) / 4 milliseconds.
    assert_eq!(
        render(&r[1]),
        "{\"query_name\":\"beta\",\"min\":1.0,\"p50\":4.375,\
         \"p95\":30.25,\"p99\":30.25,\"max\":90.0,\
         \"count\":4,\"error_count\":2,\"timeout_count\":1}"
    );
}

fn group(executed: u64, errors: u64, p99_ms: u64, warehouse: &str) -> QueryGroupMetrics {
    QueryGroupMetrics {
        executed,
        errors,
        target_uqps: 0,
        latency: PercentileSummary { p50: 0, p95: 0, p99: p99_ms * 1_000_000, max: 0, count: 1 },
        warehouse_name: warehouse.to_string(),
    }
}

fn grouped_run() -> TimeSeries {
    let mut a = make_point("baseline", 5.0, 300);
    a.query_group_metrics =
        vec![("light".to_string(), group(4, 0, 10, "l")), ("heavy".to_string(), group(6, 0, 4, "h"))];
    let mut b = make_point("overlap", 8.0, 300);
    b.query_group_metrics = vec![("heavy".to_string(), group(12, 3, 9, "h"))];
    series(vec![a, b])
}

#[test]
fn groups_are_compared_in_order() {
    let list = compare_groups(&grouped_run().points);
    let names: Vec<&str> = list.iter().map(|e| e.0.as_str()).collect();
    assert_eq!(names, vec!["heavy", "light"]);
    assert_eq!(list[0].1.overlap.errors, 3);
    let scenario = make_scenario_for_test();
    let json = build_query_group_comparison(&grouped_run(), &scenario);
    assert_eq!(
        render(&json),
        "{\"heavy\":{\"warehouse\":\"h\",\"baseline_p99_ms\":4.0,\
         \"overlap_p99_ms\":9.0,\"p99_degradation_ratio\":2.25,\
         \"baseline_avg_qps\":0.2,\"overlap_avg_qps\":0.4,\"overlap_error_rate\":0.25},\
         \"light\":{\"warehouse\":\"l\",\"baseline_p99_ms\":10.0,\
         \"overlap_p99_ms\":0.0,\"p99_degradation_ratio\":0.0,\
         \"baseline_avg_qps\":0.133333333333333333,\"overlap_avg_qps\":0.0,\"overlap_error_rate\":0.0}}"
    );
    assert_eq!(render(&build_query_group_comparison(&clean_run(), &scenario)), "null");
}

#[test]
fn the_group_table_of_the_page() {
    let html = generate_query_group_section(&grouped_run());
    assert!(html.starts_with("<h2>Query Group Comparison</h2>\n<table>\n"));
    assert!(html.contains(
        "<tr><td>heavy</td><td>h</td><td>4.0</td><td>9.0</td><td>2.2x</td><td>6.0</td>\
         <td>12.0</td><td>25.0%</td></tr>\n  <tr><td>light</td>"
    ));
    assert!(html.ends_with("0.0%</td></tr>\n</table>"));
    assert_eq!(generate_query_group_section(&clean_run()), "");
}

#[test]
fn the_phase_table_of_the_page() {
    let scenario = make_scenario_for_test();
    let rows = generate_phase_rows(&scenario, &clean_run());
    let lines: Vec<&str> = rows.split("\n  ").collect();
    assert_eq!(lines.len(), 6);
    assert_eq!(
        lines[0],
        "<tr><td>baseline</td><td>30s</td><td>300 / 100</td><td>10.0 / 10.0</td>\
         <td>5.0ms</td><td>0</td></tr>"
    );
    assert_eq!(
        lines[1],
        "<tr><td>incident_trigger</td><td>30s</td><td>0 / 200</td><td>0.0 / 10.0</td>\
         <td>0.0ms</td><td>0</td></tr>"
    );
}

#[test]
fn the_page_of_a_run() {
    let scenario = make_scenario_for_test();
    let mut run = clean_run();
    run.points[3].query_latency.p99 = 5_250_000;
    let card = Scorecard::from_derived(&compute_derived(&run));
    let html = html_report::generate(&scenario, &run, &card, "0.1.0", "2025-01-01T00:00:00+00:00");
    assert!(html.starts_with("<!DOCTYPE html>\n<html lang=\"en\">\n"));
    assert!(html.contains("<title>IncidentBench Report — test</title>"));
    assert!(html.contains("Test v1.0 &mdash; 2025-01-01T00:00:00+00:00</div>"));
    assert!(html.contains("<span class=\"badge valid\">VALID</span>"));
    assert!(html.contains("<div class=\"value\">1.6x</div>"));
    assert!(html.contains("<tr><td>Total Duration</td><td>180s</td></tr>"));
    assert!(html.contains("<tr><td>Total Events</td><td>48000</td></tr>"));
    assert!(html.contains("const phaseBoundaries = [[0,\"baseline\"],[0,\"overlap\"]];"));
    assert!(html.contains("data: [5.0,5.0,5.0,5.25,5.0,5.0,5.0,5.0,5.0,5.0,8.0,8.0,8.0,8.0,8.0,8.0,8.0,8.0,8.0,8.0]"));
    assert!(html.ends_with("</script>\n</body>\n</html>"));
    let style = html.find("  * { margin: 0; padding: 0; box-sizing: border-box; }");
    assert!(style.is_some());
    assert!(!html.contains("//") && !html.contains(" src="));
}

#[test]
fn an_invalid_run_has_a_badge_that_says_so() {
    let scenario = make_scenario_for_test();
    let mut run = clean_run();
    run.points[0].query_latency.p99 = 500_000_000;
    let card = Scorecard::from_derived(&compute_derived(&run));
    let html = html_report::generate(&scenario, &run, &card, "0.1.0", "now");
    assert!(html.contains("<span class=\"badge invalid\">INVALID</span>"));
}

#[test]
fn the_table_of_the_series() {
    let mut p = make_point("overlap", 8.125, 1500);
    p.timestamp_s = 77;
    p.query_errors = 2;
    p.kafka_consumer_lag = 9;
    let csv = generate_csv(&series(vec![p]));
    let lines: Vec<&str> = csv.lines().collect();
    assert_eq!(lines.len(), 2);
    assert!(lines[0].starts_with("timestamp_s,phase,ingest_events_produced,ingest_events_acked,"));
    assert_eq!(lines[1], "77,overlap,1500,1500,0,1500,10,2,10.0,4.06,6.50,8.12,9");
}

#[test]
fn the_document_of_a_run() {
    let scenario = make_scenario_for_test();
    let run = clean_run();
    let derived = compute_derived(&run);
    let card = Scorecard::from_derived(&derived);
    let context = ReportContext {
        version: "0.1.0".to_string(),
        timestamp: "now".to_string(),
        config_text: "abc".to_string(),
    };
    let tables = ReportTables {
        timed_out_queries: vec![Json::object().with("phase", Json::text("overlap"))],
        per_category_latency: vec![],
        per_query_latency: vec![],
        per_query_timeseries: vec![PerQueryTimeSeries {
            query_name: "q1".to_string(),
            points: vec![PerQueryTimeSeriesPoint {
                timestamp_s: 1,
                phase: "overlap".to_string(),
                p95_ns: 2_000_000,
                count: 3,
                error_count: 1,
            }],
        }],
    };
    let json = json_report::generate(&scenario, &run, &derived, &card, &context, &tables);
    let text = render(&json);
    assert!(text.starts_with("{\"incidentbench_version\":\"0.1.0\",\"scenario\":{\"name\":\"test\""));
    assert!(text.contains("\"config_hash\":\"ba7816bf8f01cfea"));
    assert!(text.contains("\"valid\":true,\"validity_violations\":[]"));
    assert!(text.contains("\"topics\":[\"test\"]"));
    assert!(text.contains("\"timeseries\":{\"resolution_s\":1,\"point_count\":20}"));
    assert!(text.contains("\"total_queries\":100,\"total_errors\":0,\"total_non_timeout_errors\":0,\"total_timeouts\":1"));
    assert!(text.contains("\"achieved_avg_eps\":100.0,\"total_events\":3000"));
    assert!(text.contains("\"query_groups\":null"));
    assert!(text.ends_with(
        "\"per_query_timeseries\":[{\"query_name\":\"q1\",\"points\":[{\"timestamp_s\":1,\
         \"phase\":\"overlap\",\"p95_ms\":2.0,\"count\":3,\"error_count\":1}]}]}"
    ));
}
