use incidentbench::aggregator::{
    AggState, MetricsAggregatorService, PerQueryAccumulator, MAX_QUERY_ERROR_RECORDS,
};
use incidentbench::bucket::{build_per_query_timeseries_points, try_aggregate_bucket, SecondBucket};
use incidentbench::lag::{compute_consumer_lag, PartitionOffsets};
use incidentbench::latency::{
    latency_distribution_from_values, merge_latency_distributions, percentile_of, sort_latencies,
};
use incidentbench::metrics::{AggregatedMetricPoint, PercentileSummary};
use incidentbench::results::{compute_per_query_summaries, saturated};
use incidentbench::snapshot::{QueryErrorRecord, QueryTypeLatency, WorkerMetricSnapshot};

fn snapshot(mode: &str, second: u64, executed: u64, cpu_ppm: u64) -> WorkerMetricSnapshot {
    WorkerMetricSnapshot {
        worker_id: format!("{}-{}", mode, second),
        worker_mode: mode.to_string(),
        worker_index: 0,
        timestamp_ns: second * 1_000_000_000 + 5,
        phase: "baseline".to_string(),
        events_produced: 7,
        events_acknowledged: 6,
        events_failed: 1,
        kafka_produce_latency: None,
        queries_executed: executed,
        query_errors: 1,
        query_latency: Some(latency_distribution_from_values(&vec![1_000_000, 3_000_000])),
        query_latency_by_type: vec![QueryTypeLatency {
            query_name: "q".to_string(),
            latency: Some(latency_distribution_from_values(&vec![1_000_000, 3_000_000])),
            executed,
            errors: 1,
        }],
        query_group: String::new(),
        cpu_ppm,
        memory_bytes: 1,
        target_rate: 2500,
        concurrent_sessions: 0,
        timed_out_queries: vec![],
        query_error_records: vec![],
    }
}

#[test]
fn get_results_force_completes_with_collected_snapshots() {
    let mut service = MetricsAggregatorService::new(String::new());
    service.had_workers = true;
    service.connected_workers = 1;
    service.total_snapshots = 1;
    service.timeline.push(AggregatedMetricPoint {
        timestamp_s: 1,
        phase: "baseline".to_string(),
        ingest_events_produced: 0,
        ingest_events_acknowledged: 0,
        ingest_events_failed: 0,
        ingest_target_eps: 0,
        ingest_kafka_produce_latency: PercentileSummary::default(),
        query_executed: 1,
        query_errors: 0,
        query_target_uqps: 1_000_000,
        query_latency: PercentileSummary::default(),
        kafka_consumer_lag: 0,
        ingest_workers_reporting: 0,
        query_workers_reporting: 1,
        concurrent_sessions: 0,
        harness_saturated: false,
        max_worker_cpu_ppm: 0,
        query_group_metrics: vec![],
    });
    let r = service.get_results();
    assert!(r.is_ok(), "GetResults should force-complete when snapshots exist");
    assert_eq!(service.state, AggState::Complete);
    assert_eq!(service.connected_workers, 1);
}

#[test]
fn without_snapshots_there_are_no_results() {
    let mut service = MetricsAggregatorService::new(String::new());
    service.worker_connected();
    match service.get_results() {
        Ok(_) => panic!("no results yet"),
        Err(e) => assert_eq!(
            e,
            "Aggregation not yet complete; call GetAggregationStatus to check state"
        ),
    }
    assert_eq!(service.state, AggState::Collecting);
}

#[test]
fn a_snapshot_counts_in_its_second() {
    let mut service = MetricsAggregatorService::new("/results".to_string());
    service.worker_connected();
    service.worker_connected();
    service.set_stream_lag("a", 5);
    service.set_stream_lag("b", 7);
    service.set_stream_lag("a", 6);
    let _ = service.report_metrics(snapshot("query", 10, 4, 100_000));
    let point = service.report_metrics(snapshot("query", 10, 6, 950_000)).unwrap();
    assert_eq!(point.timestamp_s, 10);
    assert_eq!(point.query_executed, 10);
    assert_eq!(point.query_errors, 2);
    assert_eq!(point.kafka_consumer_lag, 13);
    assert!(point.harness_saturated);
    assert_eq!(point.max_worker_cpu_ppm, 950_000);
    assert_eq!(service.timeline.len(), 1);
    let _ = service.report_metrics(snapshot("ingest", 11, 0, 0));
    assert_eq!(service.timeline.len(), 2);
    assert_eq!(service.get_latest_snapshot().unwrap().timestamp_s, 11);
    let status = service.get_aggregation_status();
    assert_eq!(status.state, "collecting");
    assert_eq!(status.snapshots_received, 3);
    assert_eq!(status.seconds_aggregated, 2);
    assert_eq!(status.connected_workers, 2);
    assert!(!service.worker_disconnected());
    assert!(service.worker_disconnected());
    assert_eq!(service.get_aggregation_status().state, "complete");
}

#[test]
fn short_runs_are_not_valid() {
    let mut service = MetricsAggregatorService::new(String::new());
    service.worker_connected();
    let _ = service.report_metrics(snapshot("query", 10, 4, 0));
    let r = match service.get_results() {
        Ok(r) => r,
        Err(e) => panic!("{}", e),
    };
    assert!(!r.valid);
    assert_eq!(
        r.validity_violations,
        vec![
            "Timeline too short: 1 seconds (minimum 10)".to_string(),
            "Missing 'overlap' phase data".to_string(),
        ]
    );
    assert_eq!(r.per_query_latency[0].0, "q");
    assert_eq!(r.per_query_latency[0].1.count, 2);
}

#[test]
fn error_records_are_kept_up_to_a_limit() {
    let mut service = MetricsAggregatorService::new(String::new());
    service.worker_connected();
    for second in 0..3u64 {
        let mut s = snapshot("query", second, 1, 0);
        for i in 0..600 {
            s.query_error_records.push(QueryErrorRecord {
                query_name: "q".to_string(),
                category: String::new(),
                phase: "baseline".to_string(),
                worker_id: "w".to_string(),
                worker_index: 0,
                timestamp_ms: i,
                duration_ns: 0,
                timed_out: false,
                error_class: "unknown".to_string(),
                message: String::new(),
            });
        }
        let _ = service.report_metrics(s);
    }
    assert_eq!(service.query_error_records.len(), MAX_QUERY_ERROR_RECORDS);
}

#[test]
fn late_snapshots_are_dropped() {
    let mut service = MetricsAggregatorService::new(String::new());
    service.worker_connected();
    assert!(service.report_metrics(snapshot("query", 20, 5, 0)).is_some());
    assert!(service.report_metrics(snapshot("query", 17, 2, 0)).is_some());
    assert!(service.report_metrics(snapshot("query", 16, 7, 0)).is_none());
    let seconds: Vec<u64> = service.timeline.iter().map(|p| p.timestamp_s).collect();
    assert_eq!(seconds, vec![20, 17]);
    assert!(service.report_metrics(snapshot("query", 21, 1, 0)).is_some());
    assert!(service.report_metrics(snapshot("query", 17, 9, 0)).is_none());
    assert_eq!(service.timeline[1].query_executed, 2);
    assert_eq!(service.get_aggregation_status().snapshots_received, 5);
}

#[test]
fn what_is_persisted_is_in_order() {
    let mut service = MetricsAggregatorService::new(String::new());
    service.worker_connected();
    for second in [12u64, 10, 11] {
        let _ = service.report_metrics(snapshot("query", second, 1, 0));
    }
    let p = service.persist_results();
    let times: Vec<u64> = p.metrics.iter().map(|m| m.timestamp_s).collect();
    assert_eq!(times, vec![10, 11, 12]);
    assert_eq!(p.per_query_timeseries.len(), 1);
    let seconds: Vec<u64> = p.per_query_timeseries[0].1.points.iter().map(|x| x.timestamp_s).collect();
    assert_eq!(seconds, vec![10, 11, 12]);
}

#[test]
fn saturation_is_sustained_by_one_worker() {
    let run = |worker_of: fn(u64) -> &'static str, seconds: u64| {
        let mut service = MetricsAggregatorService::new(String::new());
        service.worker_connected();
        for second in 0..seconds {
            let mut s = snapshot("query", 100 + second, 1, 950_000);
            s.worker_id = worker_of(second).to_string();
            let _ = service.report_metrics(s);
        }
        match service.get_results() {
            Ok(r) => (r.harness_saturated, r.warnings.len()),
            Err(e) => panic!("{}", e),
        }
    };
    assert_eq!(run(|_| "a", 1), (false, 0));
    assert_eq!(run(|_| "a", 9), (false, 0));
    assert_eq!(run(|_| "a", 10), (true, 1));
    assert_eq!(run(|t| if t % 2 == 0 { "a" } else { "b" }, 20), (false, 0));
}

#[test]
fn condensing_and_merging_ignore_order() {
    let many: Vec<u64> = (0..1000u64).map(|i| (i * 7919) % 1009).collect();
    let mut other = many.clone();
    other.reverse();
    let a = latency_distribution_from_values(&many);
    let b = latency_distribution_from_values(&other);
    assert_eq!(a.centroids, b.centroids);
    assert_eq!(a.centroids.len(), 100);
    assert_eq!((a.min_ns, a.max_ns, a.count), (0, 1008, 1000));
    assert_eq!(latency_distribution_from_values(&many[..199].to_vec()).centroids.len(), 199);
    let few = || latency_distribution_from_values(&vec![5, 1, 9]);
    let one = merge_latency_distributions(&vec![few(), a]);
    let two = merge_latency_distributions(&vec![b, few()]);
    assert_eq!(one, two);
    assert_eq!(one.count, 1003);
    assert_eq!(one.max, 1008);
}

#[test]
fn a_second_is_the_sum_of_its_snapshots() {
    let b = SecondBucket {
        timestamp_s: 3,
        ingest_snapshots: vec![snapshot("ingest", 3, 0, 10), snapshot("ingest", 3, 0, 20)],
        query_snapshots: vec![snapshot("query", 3, 5, 30)],
    };
    let p = try_aggregate_bucket(&b, 99);
    assert_eq!(p.ingest_events_produced, 14);
    assert_eq!(p.ingest_events_acknowledged, 12);
    assert_eq!(p.ingest_events_failed, 2);
    assert_eq!(p.ingest_target_eps, 5000);
    assert_eq!(p.query_executed, 5);
    assert_eq!(p.query_target_uqps, 2_500_000);
    assert_eq!(p.kafka_consumer_lag, 99);
    assert_eq!(p.ingest_workers_reporting, 2);
    assert_eq!(p.query_workers_reporting, 1);
    assert_eq!(p.max_worker_cpu_ppm, 30);
    assert!(!p.harness_saturated);
    assert!(!saturated(&vec![p]));
    let q = build_per_query_timeseries_points(&b);
    assert_eq!(q.len(), 1);
    assert_eq!(q[0].0, "q");
    assert_eq!(q[0].1.count, 2);
    assert_eq!(q[0].1.error_count, 1);
}

#[test]
fn lag_is_what_is_not_committed() {
    let parts = vec![
        PartitionOffsets { high: 100, committed: Some(40) },
        PartitionOffsets { high: 10, committed: None },
        PartitionOffsets { high: 5, committed: Some(9) },
    ];
    assert_eq!(compute_consumer_lag(&parts), 70);
}

#[test]
fn percentiles_of_few_and_many() {
    let none = latency_distribution_from_values(&vec![]);
    assert_eq!(none.count, 0);
    assert_eq!(merge_latency_distributions(&vec![]), PercentileSummary::default());
    let values: Vec<u64> = (1..=1000).rev().collect();
    let d = latency_distribution_from_values(&values);
    assert_eq!(d.count, 1000);
    assert_eq!(d.min_ns, 1);
    assert_eq!(d.max_ns, 1000);
    let total: u64 = d.centroids.iter().map(|c| c.count).sum();
    assert_eq!(total, 1000);
    let m = merge_latency_distributions(&vec![d]);
    assert!(m.p50 <= m.p95 && m.p95 <= m.p99 && m.p99 <= m.max);
    assert_eq!(m.count, 1000);
    assert_eq!(m.max, 1000);
    let sorted = sort_latencies(&vec![30, 10, 20]);
    assert_eq!(sorted, vec![10, 20, 30]);
    assert_eq!(percentile_of(&sorted, 50), 20);
    assert_eq!(percentile_of(&sorted, 99), 30);
    assert_eq!(percentile_of(&vec![], 99), 0);
}

#[test]
fn timeouts_are_told_from_other_errors() {
    let acc = vec![(
        "q".to_string(),
        PerQueryAccumulator { latencies: vec![4, 2, 6], error_count: 5, timeout_count: 2 },
    )];
    let s = compute_per_query_summaries(&acc);
    assert_eq!(s[0].1.min, 2);
    assert_eq!(s[0].1.p50, 4);
    assert_eq!(s[0].1.max, 6);
    assert_eq!(s[0].1.error_count, 3);
    assert_eq!(s[0].1.timeout_count, 2);
}
