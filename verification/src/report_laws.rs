//! What the results and reports of a run say of its points.
use vstd::prelude::*;
use vstd::seq_lib::group_to_multiset_ensures;
use vstd::string::*;
use crate::aggregator::{AccumulatorView, AggregatorView};
use crate::bucket::BucketView;
use crate::categories;
use crate::categories::{QueryRow, Rollup};
use crate::criteria;
use crate::deployment_laws::{member, nth};
use crate::groups;
use crate::groups::{GroupFiguresView, PhaseFigures};
use crate::json;
use crate::json::Doc;
use crate::json_report;
use crate::json_report::{ReportContext, ReportTables};
use crate::latency;
use crate::lifecycle;
use crate::metrics;
use crate::metrics::{
    AggregatedMetricPoint, DerivedMetrics, GroupMetricsView, Measure, PointView, Scorecard,
    MAX_POINTS,
};
use crate::model;
use crate::order;
use crate::order::Timed;
use crate::percentile_laws;
use crate::results;
use crate::scenario::{PhaseView, ScenarioView};
use crate::scorecard_laws;
use crate::scorecard_laws::{seconds, total};
use crate::snapshot::SnapshotView;
use crate::sorting;
use crate::validity_laws;
use crate::validity_laws::aimed_eps;

verus! {

proof fn category_keys()
    ensures
        "query_name"@ != "min"@,
        "query_name"@ != "p50"@,
        "min"@ != "p50"@,
        "query_name"@ != "p95"@,
        "min"@ != "p95"@,
        "p50"@ != "p95"@,
        "query_name"@ != "p99"@,
        "min"@ != "p99"@,
        "p50"@ != "p99"@,
        "p95"@ != "p99"@,
        "query_name"@ != "max"@,
        "min"@ != "max"@,
        "p50"@ != "max"@,
        "p95"@ != "max"@,
        "p99"@ != "max"@,
        "query_name"@ != "count"@,
        "min"@ != "count"@,
        "p50"@ != "count"@,
        "p95"@ != "count"@,
        "p99"@ != "count"@,
        "max"@ != "count"@,
        "query_name"@ != "error_count"@,
        "min"@ != "error_count"@,
        "p50"@ != "error_count"@,
        "p95"@ != "error_count"@,
        "p99"@ != "error_count"@,
        "max"@ != "error_count"@,
        "count"@ != "error_count"@,
        "query_name"@ != "timeout_count"@,
        "min"@ != "timeout_count"@,
        "p50"@ != "timeout_count"@,
        "p95"@ != "timeout_count"@,
        "p99"@ != "timeout_count"@,
        "max"@ != "timeout_count"@,
        "count"@ != "timeout_count"@,
        "error_count"@ != "timeout_count"@,
{
    reveal_strlit("query_name");
    reveal_strlit("min");
    reveal_strlit("p50");
    reveal_strlit("p95");
    reveal_strlit("p99");
    reveal_strlit("max");
    reveal_strlit("count");
    reveal_strlit("error_count");
    reveal_strlit("timeout_count");
    assert("query_name"@.len() != "min"@.len());
    assert("query_name"@.len() != "p50"@.len());
    assert("min"@[0] != "p50"@[0]);
    assert("query_name"@.len() != "p95"@.len());
    assert("min"@[0] != "p95"@[0]);
    assert("p50"@[1] != "p95"@[1]);
    assert("query_name"@.len() != "p99"@.len());
    assert("min"@[0] != "p99"@[0]);
    assert("p50"@[1] != "p99"@[1]);
    assert("p95"@[2] != "p99"@[2]);
    assert("query_name"@.len() != "max"@.len());
    assert("min"@[1] != "max"@[1]);
    assert("p50"@[0] != "max"@[0]);
    assert("p95"@[0] != "max"@[0]);
    assert("p99"@[0] != "max"@[0]);
    assert("query_name"@.len() != "count"@.len());
    assert("min"@.len() != "count"@.len());
    assert("p50"@.len() != "count"@.len());
    assert("p95"@.len() != "count"@.len());
    assert("p99"@.len() != "count"@.len());
    assert("max"@.len() != "count"@.len());
    assert("query_name"@.len() != "error_count"@.len());
    assert("min"@.len() != "error_count"@.len());
    assert("p50"@.len() != "error_count"@.len());
    assert("p95"@.len() != "error_count"@.len());
    assert("p99"@.len() != "error_count"@.len());
    assert("max"@.len() != "error_count"@.len());
    assert("count"@.len() != "error_count"@.len());
    assert("query_name"@.len() != "timeout_count"@.len());
    assert("min"@.len() != "timeout_count"@.len());
    assert("p50"@.len() != "timeout_count"@.len());
    assert("p95"@.len() != "timeout_count"@.len());
    assert("p99"@.len() != "timeout_count"@.len());
    assert("max"@.len() != "timeout_count"@.len());
    assert("count"@.len() != "timeout_count"@.len());
    assert("error_count"@.len() != "timeout_count"@.len());
}

proof fn group_keys()
    ensures
        "warehouse"@ != "baseline_p99_ms"@,
        "warehouse"@ != "overlap_p99_ms"@,
        "baseline_p99_ms"@ != "overlap_p99_ms"@,
        "warehouse"@ != "p99_degradation_ratio"@,
        "baseline_p99_ms"@ != "p99_degradation_ratio"@,
        "overlap_p99_ms"@ != "p99_degradation_ratio"@,
        "warehouse"@ != "baseline_avg_qps"@,
        "baseline_p99_ms"@ != "baseline_avg_qps"@,
        "overlap_p99_ms"@ != "baseline_avg_qps"@,
        "p99_degradation_ratio"@ != "baseline_avg_qps"@,
        "warehouse"@ != "overlap_avg_qps"@,
        "baseline_p99_ms"@ != "overlap_avg_qps"@,
        "overlap_p99_ms"@ != "overlap_avg_qps"@,
        "p99_degradation_ratio"@ != "overlap_avg_qps"@,
        "baseline_avg_qps"@ != "overlap_avg_qps"@,
        "warehouse"@ != "overlap_error_rate"@,
        "baseline_p99_ms"@ != "overlap_error_rate"@,
        "overlap_p99_ms"@ != "overlap_error_rate"@,
        "p99_degradation_ratio"@ != "overlap_error_rate"@,
        "baseline_avg_qps"@ != "overlap_error_rate"@,
        "overlap_avg_qps"@ != "overlap_error_rate"@,
{
    reveal_strlit("warehouse");
    reveal_strlit("baseline_p99_ms");
    reveal_strlit("overlap_p99_ms");
    reveal_strlit("p99_degradation_ratio");
    reveal_strlit("baseline_avg_qps");
    reveal_strlit("overlap_avg_qps");
    reveal_strlit("overlap_error_rate");
    assert("warehouse"@.len() != "baseline_p99_ms"@.len());
    assert("warehouse"@.len() != "overlap_p99_ms"@.len());
    assert("baseline_p99_ms"@.len() != "overlap_p99_ms"@.len());
    assert("warehouse"@.len() != "p99_degradation_ratio"@.len());
    assert("baseline_p99_ms"@.len() != "p99_degradation_ratio"@.len());
    assert("overlap_p99_ms"@.len() != "p99_degradation_ratio"@.len());
    assert("warehouse"@.len() != "baseline_avg_qps"@.len());
    assert("baseline_p99_ms"@.len() != "baseline_avg_qps"@.len());
    assert("overlap_p99_ms"@.len() != "baseline_avg_qps"@.len());
    assert("p99_degradation_ratio"@.len() != "baseline_avg_qps"@.len());
    assert("warehouse"@.len() != "overlap_avg_qps"@.len());
    assert("baseline_p99_ms"@[0] != "overlap_avg_qps"@[0]);
    assert("overlap_p99_ms"@.len() != "overlap_avg_qps"@.len());
    assert("p99_degradation_ratio"@.len() != "overlap_avg_qps"@.len());
    assert("baseline_avg_qps"@.len() != "overlap_avg_qps"@.len());
    assert("warehouse"@.len() != "overlap_error_rate"@.len());
    assert("baseline_p99_ms"@.len() != "overlap_error_rate"@.len());
    assert("overlap_p99_ms"@.len() != "overlap_error_rate"@.len());
    assert("p99_degradation_ratio"@.len() != "overlap_error_rate"@.len());
    assert("baseline_avg_qps"@.len() != "overlap_error_rate"@.len());
    assert("overlap_avg_qps"@.len() != "overlap_error_rate"@.len());
}

proof fn phase_keys()
    ensures
        "name"@ != "display_name"@,
        "name"@ != "duration_s"@,
        "display_name"@ != "duration_s"@,
        "name"@ != "ingest"@,
        "display_name"@ != "ingest"@,
        "duration_s"@ != "ingest"@,
        "name"@ != "query"@,
        "display_name"@ != "query"@,
        "duration_s"@ != "query"@,
        "ingest"@ != "query"@,
        "name"@ != "kafka_peak_consumer_lag"@,
        "display_name"@ != "kafka_peak_consumer_lag"@,
        "duration_s"@ != "kafka_peak_consumer_lag"@,
        "ingest"@ != "kafka_peak_consumer_lag"@,
        "query"@ != "kafka_peak_consumer_lag"@,
        "target_eps"@ != "achieved_avg_eps"@,
        "target_eps"@ != "total_events"@,
        "achieved_avg_eps"@ != "total_events"@,
        "target_qps"@ != "achieved_avg_qps"@,
        "target_qps"@ != "concurrent_sessions"@,
        "achieved_avg_qps"@ != "concurrent_sessions"@,
        "target_qps"@ != "total_queries"@,
        "achieved_avg_qps"@ != "total_queries"@,
        "concurrent_sessions"@ != "total_queries"@,
        "target_qps"@ != "total_errors"@,
        "achieved_avg_qps"@ != "total_errors"@,
        "concurrent_sessions"@ != "total_errors"@,
        "total_queries"@ != "total_errors"@,
        "target_qps"@ != "total_non_timeout_errors"@,
        "achieved_avg_qps"@ != "total_non_timeout_errors"@,
        "concurrent_sessions"@ != "total_non_timeout_errors"@,
        "total_queries"@ != "total_non_timeout_errors"@,
        "total_errors"@ != "total_non_timeout_errors"@,
        "target_qps"@ != "total_timeouts"@,
        "achieved_avg_qps"@ != "total_timeouts"@,
        "concurrent_sessions"@ != "total_timeouts"@,
        "total_queries"@ != "total_timeouts"@,
        "total_errors"@ != "total_timeouts"@,
        "total_non_timeout_errors"@ != "total_timeouts"@,
        "target_qps"@ != "error_rate"@,
        "achieved_avg_qps"@ != "error_rate"@,
        "concurrent_sessions"@ != "error_rate"@,
        "total_queries"@ != "error_rate"@,
        "total_errors"@ != "error_rate"@,
        "total_non_timeout_errors"@ != "error_rate"@,
        "total_timeouts"@ != "error_rate"@,
        "target_qps"@ != "latency_p50_ms"@,
        "achieved_avg_qps"@ != "latency_p50_ms"@,
        "concurrent_sessions"@ != "latency_p50_ms"@,
        "total_queries"@ != "latency_p50_ms"@,
        "total_errors"@ != "latency_p50_ms"@,
        "total_non_timeout_errors"@ != "latency_p50_ms"@,
        "total_timeouts"@ != "latency_p50_ms"@,
        "error_rate"@ != "latency_p50_ms"@,
        "target_qps"@ != "latency_p95_ms"@,
        "achieved_avg_qps"@ != "latency_p95_ms"@,
        "concurrent_sessions"@ != "latency_p95_ms"@,
        "total_queries"@ != "latency_p95_ms"@,
        "total_errors"@ != "latency_p95_ms"@,
        "total_non_timeout_errors"@ != "latency_p95_ms"@,
        "total_timeouts"@ != "latency_p95_ms"@,
        "error_rate"@ != "latency_p95_ms"@,
        "latency_p50_ms"@ != "latency_p95_ms"@,
        "target_qps"@ != "latency_p99_ms"@,
        "achieved_avg_qps"@ != "latency_p99_ms"@,
        "concurrent_sessions"@ != "latency_p99_ms"@,
        "total_queries"@ != "latency_p99_ms"@,
        "total_errors"@ != "latency_p99_ms"@,
        "total_non_timeout_errors"@ != "latency_p99_ms"@,
        "total_timeouts"@ != "latency_p99_ms"@,
        "error_rate"@ != "latency_p99_ms"@,
        "latency_p50_ms"@ != "latency_p99_ms"@,
        "latency_p95_ms"@ != "latency_p99_ms"@,
{
    reveal_strlit("name");
    reveal_strlit("display_name");
    reveal_strlit("duration_s");
    reveal_strlit("ingest");
    reveal_strlit("query");
    reveal_strlit("kafka_peak_consumer_lag");
    reveal_strlit("target_eps");
    reveal_strlit("achieved_avg_eps");
    reveal_strlit("total_events");
    reveal_strlit("target_qps");
    reveal_strlit("achieved_avg_qps");
    reveal_strlit("concurrent_sessions");
    reveal_strlit("total_queries");
    reveal_strlit("total_errors");
    reveal_strlit("total_non_timeout_errors");
    reveal_strlit("total_timeouts");
    reveal_strlit("error_rate");
    reveal_strlit("latency_p50_ms");
    reveal_strlit("latency_p95_ms");
    reveal_strlit("latency_p99_ms");
    assert("name"@.len() != "display_name"@.len());
    assert("name"@.len() != "duration_s"@.len());
    assert("display_name"@.len() != "duration_s"@.len());
    assert("name"@.len() != "ingest"@.len());
    assert("display_name"@.len() != "ingest"@.len());
    assert("duration_s"@.len() != "ingest"@.len());
    assert("name"@.len() != "query"@.len());
    assert("display_name"@.len() != "query"@.len());
    assert("duration_s"@.len() != "query"@.len());
    assert("ingest"@.len() != "query"@.len());
    assert("name"@.len() != "kafka_peak_consumer_lag"@.len());
    assert("display_name"@.len() != "kafka_peak_consumer_lag"@.len());
    assert("duration_s"@.len() != "kafka_peak_consumer_lag"@.len());
    assert("ingest"@.len() != "kafka_peak_consumer_lag"@.len());
    assert("query"@.len() != "kafka_peak_consumer_lag"@.len());
    assert("target_eps"@.len() != "achieved_avg_eps"@.len());
    assert("target_eps"@.len() != "total_events"@.len());
    assert("achieved_avg_eps"@.len() != "total_events"@.len());
    assert("target_qps"@.len() != "achieved_avg_qps"@.len());
    assert("target_qps"@.len() != "concurrent_sessions"@.len());
    assert("achieved_avg_qps"@.len() != "concurrent_sessions"@.len());
    assert("target_qps"@.len() != "total_queries"@.len());
    assert("achieved_avg_qps"@.len() != "total_queries"@.len());
    assert("concurrent_sessions"@.len() != "total_queries"@.len());
    assert("target_qps"@.len() != "total_errors"@.len());
    assert("achieved_avg_qps"@.len() != "total_errors"@.len());
    assert("concurrent_sessions"@.len() != "total_errors"@.len());
    assert("total_queries"@.len() != "total_errors"@.len());
    assert("target_qps"@.len() != "total_non_timeout_errors"@.len());
    assert("achieved_avg_qps"@.len() != "total_non_timeout_errors"@.len());
    assert("concurrent_sessions"@.len() != "total_non_timeout_errors"@.len());
    assert("total_queries"@.len() != "total_non_timeout_errors"@.len());
    assert("total_errors"@.len() != "total_non_timeout_errors"@.len());
    assert("target_qps"@.len() != "total_timeouts"@.len());
    assert("achieved_avg_qps"@.len() != "total_timeouts"@.len());
    assert("concurrent_sessions"@.len() != "total_timeouts"@.len());
    assert("total_queries"@.len() != "total_timeouts"@.len());
    assert("total_errors"@.len() != "total_timeouts"@.len());
    assert("total_non_timeout_errors"@.len() != "total_timeouts"@.len());
    assert("target_qps"@[0] != "error_rate"@[0]);
    assert("achieved_avg_qps"@.len() != "error_rate"@.len());
    assert("concurrent_sessions"@.len() != "error_rate"@.len());
    assert("total_queries"@.len() != "error_rate"@.len());
    assert("total_errors"@.len() != "error_rate"@.len());
    assert("total_non_timeout_errors"@.len() != "error_rate"@.len());
    assert("total_timeouts"@.len() != "error_rate"@.len());
    assert("target_qps"@.len() != "latency_p50_ms"@.len());
    assert("achieved_avg_qps"@.len() != "latency_p50_ms"@.len());
    assert("concurrent_sessions"@.len() != "latency_p50_ms"@.len());
    assert("total_queries"@.len() != "latency_p50_ms"@.len());
    assert("total_errors"@.len() != "latency_p50_ms"@.len());
    assert("total_non_timeout_errors"@.len() != "latency_p50_ms"@.len());
    assert("total_timeouts"@[0] != "latency_p50_ms"@[0]);
    assert("error_rate"@.len() != "latency_p50_ms"@.len());
    assert("target_qps"@.len() != "latency_p95_ms"@.len());
    assert("achieved_avg_qps"@.len() != "latency_p95_ms"@.len());
    assert("concurrent_sessions"@.len() != "latency_p95_ms"@.len());
    assert("total_queries"@.len() != "latency_p95_ms"@.len());
    assert("total_errors"@.len() != "latency_p95_ms"@.len());
    assert("total_non_timeout_errors"@.len() != "latency_p95_ms"@.len());
    assert("total_timeouts"@[0] != "latency_p95_ms"@[0]);
    assert("error_rate"@.len() != "latency_p95_ms"@.len());
    assert("latency_p50_ms"@[9] != "latency_p95_ms"@[9]);
    assert("target_qps"@.len() != "latency_p99_ms"@.len());
    assert("achieved_avg_qps"@.len() != "latency_p99_ms"@.len());
    assert("concurrent_sessions"@.len() != "latency_p99_ms"@.len());
    assert("total_queries"@.len() != "latency_p99_ms"@.len());
    assert("total_errors"@.len() != "latency_p99_ms"@.len());
    assert("total_non_timeout_errors"@.len() != "latency_p99_ms"@.len());
    assert("total_timeouts"@[0] != "latency_p99_ms"@[0]);
    assert("error_rate"@.len() != "latency_p99_ms"@.len());
    assert("latency_p50_ms"@[9] != "latency_p99_ms"@[9]);
    assert("latency_p95_ms"@[10] != "latency_p99_ms"@[10]);
}

proof fn card_keys()
    ensures
        "baseline_p99_ms"@ != "overlap_p99_ms"@,
        "baseline_p99_ms"@ != "p99_degradation_ratio"@,
        "overlap_p99_ms"@ != "p99_degradation_ratio"@,
        "baseline_p99_ms"@ != "query_error_rate_overlap"@,
        "overlap_p99_ms"@ != "query_error_rate_overlap"@,
        "p99_degradation_ratio"@ != "query_error_rate_overlap"@,
        "baseline_p99_ms"@ != "peak_backlog"@,
        "overlap_p99_ms"@ != "peak_backlog"@,
        "p99_degradation_ratio"@ != "peak_backlog"@,
        "query_error_rate_overlap"@ != "peak_backlog"@,
        "baseline_p99_ms"@ != "backlog_drain_time_s"@,
        "overlap_p99_ms"@ != "backlog_drain_time_s"@,
        "p99_degradation_ratio"@ != "backlog_drain_time_s"@,
        "query_error_rate_overlap"@ != "backlog_drain_time_s"@,
        "peak_backlog"@ != "backlog_drain_time_s"@,
        "baseline_p99_ms"@ != "recovery_time_s"@,
        "overlap_p99_ms"@ != "recovery_time_s"@,
        "p99_degradation_ratio"@ != "recovery_time_s"@,
        "query_error_rate_overlap"@ != "recovery_time_s"@,
        "peak_backlog"@ != "recovery_time_s"@,
        "backlog_drain_time_s"@ != "recovery_time_s"@,
{
    reveal_strlit("baseline_p99_ms");
    reveal_strlit("overlap_p99_ms");
    reveal_strlit("p99_degradation_ratio");
    reveal_strlit("query_error_rate_overlap");
    reveal_strlit("peak_backlog");
    reveal_strlit("backlog_drain_time_s");
    reveal_strlit("recovery_time_s");
    assert("baseline_p99_ms"@.len() != "overlap_p99_ms"@.len());
    assert("baseline_p99_ms"@.len() != "p99_degradation_ratio"@.len());
    assert("overlap_p99_ms"@.len() != "p99_degradation_ratio"@.len());
    assert("baseline_p99_ms"@.len() != "query_error_rate_overlap"@.len());
    assert("overlap_p99_ms"@.len() != "query_error_rate_overlap"@.len());
    assert("p99_degradation_ratio"@.len() != "query_error_rate_overlap"@.len());
    assert("baseline_p99_ms"@.len() != "peak_backlog"@.len());
    assert("overlap_p99_ms"@.len() != "peak_backlog"@.len());
    assert("p99_degradation_ratio"@.len() != "peak_backlog"@.len());
    assert("query_error_rate_overlap"@.len() != "peak_backlog"@.len());
    assert("baseline_p99_ms"@.len() != "backlog_drain_time_s"@.len());
    assert("overlap_p99_ms"@.len() != "backlog_drain_time_s"@.len());
    assert("p99_degradation_ratio"@.len() != "backlog_drain_time_s"@.len());
    assert("query_error_rate_overlap"@.len() != "backlog_drain_time_s"@.len());
    assert("peak_backlog"@.len() != "backlog_drain_time_s"@.len());
    assert("baseline_p99_ms"@[0] != "recovery_time_s"@[0]);
    assert("overlap_p99_ms"@.len() != "recovery_time_s"@.len());
    assert("p99_degradation_ratio"@.len() != "recovery_time_s"@.len());
    assert("query_error_rate_overlap"@.len() != "recovery_time_s"@.len());
    assert("peak_backlog"@.len() != "recovery_time_s"@.len());
    assert("backlog_drain_time_s"@.len() != "recovery_time_s"@.len());
}

proof fn derived_keys()
    ensures
        "query_baseline_p50"@ != "query_baseline_p99"@,
        "query_baseline_p50"@ != "query_overlap_p50"@,
        "query_baseline_p99"@ != "query_overlap_p50"@,
        "query_baseline_p50"@ != "query_overlap_p99"@,
        "query_baseline_p99"@ != "query_overlap_p99"@,
        "query_overlap_p50"@ != "query_overlap_p99"@,
        "query_baseline_p50"@ != "query_p99_ratio"@,
        "query_baseline_p99"@ != "query_p99_ratio"@,
        "query_overlap_p50"@ != "query_p99_ratio"@,
        "query_overlap_p99"@ != "query_p99_ratio"@,
        "query_baseline_p50"@ != "query_error_rate_overlap"@,
        "query_baseline_p99"@ != "query_error_rate_overlap"@,
        "query_overlap_p50"@ != "query_error_rate_overlap"@,
        "query_overlap_p99"@ != "query_error_rate_overlap"@,
        "query_p99_ratio"@ != "query_error_rate_overlap"@,
        "query_baseline_p50"@ != "query_throughput_ratio"@,
        "query_baseline_p99"@ != "query_throughput_ratio"@,
        "query_overlap_p50"@ != "query_throughput_ratio"@,
        "query_overlap_p99"@ != "query_throughput_ratio"@,
        "query_p99_ratio"@ != "query_throughput_ratio"@,
        "query_error_rate_overlap"@ != "query_throughput_ratio"@,
        "query_baseline_p50"@ != "ingest_baseline_eps"@,
        "query_baseline_p99"@ != "ingest_baseline_eps"@,
        "query_overlap_p50"@ != "ingest_baseline_eps"@,
        "query_overlap_p99"@ != "ingest_baseline_eps"@,
        "query_p99_ratio"@ != "ingest_baseline_eps"@,
        "query_error_rate_overlap"@ != "ingest_baseline_eps"@,
        "query_throughput_ratio"@ != "ingest_baseline_eps"@,
        "query_baseline_p50"@ != "ingest_peak_eps"@,
        "query_baseline_p99"@ != "ingest_peak_eps"@,
        "query_overlap_p50"@ != "ingest_peak_eps"@,
        "query_overlap_p99"@ != "ingest_peak_eps"@,
        "query_p99_ratio"@ != "ingest_peak_eps"@,
        "query_error_rate_overlap"@ != "ingest_peak_eps"@,
        "query_throughput_ratio"@ != "ingest_peak_eps"@,
        "ingest_baseline_eps"@ != "ingest_peak_eps"@,
        "query_baseline_p50"@ != "ingest_throughput_ratio"@,
        "query_baseline_p99"@ != "ingest_throughput_ratio"@,
        "query_overlap_p50"@ != "ingest_throughput_ratio"@,
        "query_overlap_p99"@ != "ingest_throughput_ratio"@,
        "query_p99_ratio"@ != "ingest_throughput_ratio"@,
        "query_error_rate_overlap"@ != "ingest_throughput_ratio"@,
        "query_throughput_ratio"@ != "ingest_throughput_ratio"@,
        "ingest_baseline_eps"@ != "ingest_throughput_ratio"@,
        "ingest_peak_eps"@ != "ingest_throughput_ratio"@,
        "query_baseline_p50"@ != "ingest_peak_backlog"@,
        "query_baseline_p99"@ != "ingest_peak_backlog"@,
        "query_overlap_p50"@ != "ingest_peak_backlog"@,
        "query_overlap_p99"@ != "ingest_peak_backlog"@,
        "query_p99_ratio"@ != "ingest_peak_backlog"@,
        "query_error_rate_overlap"@ != "ingest_peak_backlog"@,
        "query_throughput_ratio"@ != "ingest_peak_backlog"@,
        "ingest_baseline_eps"@ != "ingest_peak_backlog"@,
        "ingest_peak_eps"@ != "ingest_peak_backlog"@,
        "ingest_throughput_ratio"@ != "ingest_peak_backlog"@,
        "query_baseline_p50"@ != "ingest_backlog_drain_time_s"@,
        "query_baseline_p99"@ != "ingest_backlog_drain_time_s"@,
        "query_overlap_p50"@ != "ingest_backlog_drain_time_s"@,
        "query_overlap_p99"@ != "ingest_backlog_drain_time_s"@,
        "query_p99_ratio"@ != "ingest_backlog_drain_time_s"@,
        "query_error_rate_overlap"@ != "ingest_backlog_drain_time_s"@,
        "query_throughput_ratio"@ != "ingest_backlog_drain_time_s"@,
        "ingest_baseline_eps"@ != "ingest_backlog_drain_time_s"@,
        "ingest_peak_eps"@ != "ingest_backlog_drain_time_s"@,
        "ingest_throughput_ratio"@ != "ingest_backlog_drain_time_s"@,
        "ingest_peak_backlog"@ != "ingest_backlog_drain_time_s"@,
        "query_baseline_p50"@ != "recovery_time_to_baseline_s"@,
        "query_baseline_p99"@ != "recovery_time_to_baseline_s"@,
        "query_overlap_p50"@ != "recovery_time_to_baseline_s"@,
        "query_overlap_p99"@ != "recovery_time_to_baseline_s"@,
        "query_p99_ratio"@ != "recovery_time_to_baseline_s"@,
        "query_error_rate_overlap"@ != "recovery_time_to_baseline_s"@,
        "query_throughput_ratio"@ != "recovery_time_to_baseline_s"@,
        "ingest_baseline_eps"@ != "recovery_time_to_baseline_s"@,
        "ingest_peak_eps"@ != "recovery_time_to_baseline_s"@,
        "ingest_throughput_ratio"@ != "recovery_time_to_baseline_s"@,
        "ingest_peak_backlog"@ != "recovery_time_to_baseline_s"@,
        "ingest_backlog_drain_time_s"@ != "recovery_time_to_baseline_s"@,
{
    reveal_strlit("query_baseline_p50");
    reveal_strlit("query_baseline_p99");
    reveal_strlit("query_overlap_p50");
    reveal_strlit("query_overlap_p99");
    reveal_strlit("query_p99_ratio");
    reveal_strlit("query_error_rate_overlap");
    reveal_strlit("query_throughput_ratio");
    reveal_strlit("ingest_baseline_eps");
    reveal_strlit("ingest_peak_eps");
    reveal_strlit("ingest_throughput_ratio");
    reveal_strlit("ingest_peak_backlog");
    reveal_strlit("ingest_backlog_drain_time_s");
    reveal_strlit("recovery_time_to_baseline_s");
    assert("query_baseline_p50"@[16] != "query_baseline_p99"@[16]);
    assert("query_baseline_p50"@.len() != "query_overlap_p50"@.len());
    assert("query_baseline_p99"@.len() != "query_overlap_p50"@.len());
    assert("query_baseline_p50"@.len() != "query_overlap_p99"@.len());
    assert("query_baseline_p99"@.len() != "query_overlap_p99"@.len());
    assert("query_overlap_p50"@[15] != "query_overlap_p99"@[15]);
    assert("query_baseline_p50"@.len() != "query_p99_ratio"@.len());
    assert("query_baseline_p99"@.len() != "query_p99_ratio"@.len());
    assert("query_overlap_p50"@.len() != "query_p99_ratio"@.len());
    assert("query_overlap_p99"@.len() != "query_p99_ratio"@.len());
    assert("query_baseline_p50"@.len() != "query_error_rate_overlap"@.len());
    assert("query_baseline_p99"@.len() != "query_error_rate_overlap"@.len());
    assert("query_overlap_p50"@.len() != "query_error_rate_overlap"@.len());
    assert("query_overlap_p99"@.len() != "query_error_rate_overlap"@.len());
    assert("query_p99_ratio"@.len() != "query_error_rate_overlap"@.len());
    assert("query_baseline_p50"@.len() != "query_throughput_ratio"@.len());
    assert("query_baseline_p99"@.len() != "query_throughput_ratio"@.len());
    assert("query_overlap_p50"@.len() != "query_throughput_ratio"@.len());
    assert("query_overlap_p99"@.len() != "query_throughput_ratio"@.len());
    assert("query_p99_ratio"@.len() != "query_throughput_ratio"@.len());
    assert("query_error_rate_overlap"@.len() != "query_throughput_ratio"@.len());
    assert("query_baseline_p50"@.len() != "ingest_baseline_eps"@.len());
    assert("query_baseline_p99"@.len() != "ingest_baseline_eps"@.len());
    assert("query_overlap_p50"@.len() != "ingest_baseline_eps"@.len());
    assert("query_overlap_p99"@.len() != "ingest_baseline_eps"@.len());
    assert("query_p99_ratio"@.len() != "ingest_baseline_eps"@.len());
    assert("query_error_rate_overlap"@.len() != "ingest_baseline_eps"@.len());
    assert("query_throughput_ratio"@.len() != "ingest_baseline_eps"@.len());
    assert("query_baseline_p50"@.len() != "ingest_peak_eps"@.len());
    assert("query_baseline_p99"@.len() != "ingest_peak_eps"@.len());
    assert("query_overlap_p50"@.len() != "ingest_peak_eps"@.len());
    assert("query_overlap_p99"@.len() != "ingest_peak_eps"@.len());
    assert("query_p99_ratio"@[0] != "ingest_peak_eps"@[0]);
    assert("query_error_rate_overlap"@.len() != "ingest_peak_eps"@.len());
    assert("query_throughput_ratio"@.len() != "ingest_peak_eps"@.len());
    assert("ingest_baseline_eps"@.len() != "ingest_peak_eps"@.len());
    assert("query_baseline_p50"@.len() != "ingest_throughput_ratio"@.len());
    assert("query_baseline_p99"@.len() != "ingest_throughput_ratio"@.len());
    assert("query_overlap_p50"@.len() != "ingest_throughput_ratio"@.len());
    assert("query_overlap_p99"@.len() != "ingest_throughput_ratio"@.len());
    assert("query_p99_ratio"@.len() != "ingest_throughput_ratio"@.len());
    assert("query_error_rate_overlap"@.len() != "ingest_throughput_ratio"@.len());
    assert("query_throughput_ratio"@.len() != "ingest_throughput_ratio"@.len());
    assert("ingest_baseline_eps"@.len() != "ingest_throughput_ratio"@.len());
    assert("ingest_peak_eps"@.len() != "ingest_throughput_ratio"@.len());
    assert("query_baseline_p50"@.len() != "ingest_peak_backlog"@.len());
    assert("query_baseline_p99"@.len() != "ingest_peak_backlog"@.len());
    assert("query_overlap_p50"@.len() != "ingest_peak_backlog"@.len());
    assert("query_overlap_p99"@.len() != "ingest_peak_backlog"@.len());
    assert("query_p99_ratio"@.len() != "ingest_peak_backlog"@.len());
    assert("query_error_rate_overlap"@.len() != "ingest_peak_backlog"@.len());
    assert("query_throughput_ratio"@.len() != "ingest_peak_backlog"@.len());
    assert("ingest_baseline_eps"@[7] != "ingest_peak_backlog"@[7]);
    assert("ingest_peak_eps"@.len() != "ingest_peak_backlog"@.len());
    assert("ingest_throughput_ratio"@.len() != "ingest_peak_backlog"@.len());
    assert("query_baseline_p50"@.len() != "ingest_backlog_drain_time_s"@.len());
    assert("query_baseline_p99"@.len() != "ingest_backlog_drain_time_s"@.len());
    assert("query_overlap_p50"@.len() != "ingest_backlog_drain_time_s"@.len());
    assert("query_overlap_p99"@.len() != "ingest_backlog_drain_time_s"@.len());
    assert("query_p99_ratio"@.len() != "ingest_backlog_drain_time_s"@.len());
    assert("query_error_rate_overlap"@.len() != "ingest_backlog_drain_time_s"@.len());
    assert("query_throughput_ratio"@.len() != "ingest_backlog_drain_time_s"@.len());
    assert("ingest_baseline_eps"@.len() != "ingest_backlog_drain_time_s"@.len());
    assert("ingest_peak_eps"@.len() != "ingest_backlog_drain_time_s"@.len());
    assert("ingest_throughput_ratio"@.len() != "ingest_backlog_drain_time_s"@.len());
    assert("ingest_peak_backlog"@.len() != "ingest_backlog_drain_time_s"@.len());
    assert("query_baseline_p50"@.len() != "recovery_time_to_baseline_s"@.len());
    assert("query_baseline_p99"@.len() != "recovery_time_to_baseline_s"@.len());
    assert("query_overlap_p50"@.len() != "recovery_time_to_baseline_s"@.len());
    assert("query_overlap_p99"@.len() != "recovery_time_to_baseline_s"@.len());
    assert("query_p99_ratio"@.len() != "recovery_time_to_baseline_s"@.len());
    assert("query_error_rate_overlap"@.len() != "recovery_time_to_baseline_s"@.len());
    assert("query_throughput_ratio"@.len() != "recovery_time_to_baseline_s"@.len());
    assert("ingest_baseline_eps"@.len() != "recovery_time_to_baseline_s"@.len());
    assert("ingest_peak_eps"@.len() != "recovery_time_to_baseline_s"@.len());
    assert("ingest_throughput_ratio"@.len() != "recovery_time_to_baseline_s"@.len());
    assert("ingest_peak_backlog"@.len() != "recovery_time_to_baseline_s"@.len());
    assert("ingest_backlog_drain_time_s"@[0] != "recovery_time_to_baseline_s"@[0]);
}

proof fn run_keys()
    ensures
        "id"@ != "timestamp"@,
        "id"@ != "valid"@,
        "timestamp"@ != "valid"@,
        "id"@ != "validity_violations"@,
        "timestamp"@ != "validity_violations"@,
        "valid"@ != "validity_violations"@,
        "id"@ != "warnings"@,
        "timestamp"@ != "warnings"@,
        "valid"@ != "warnings"@,
        "validity_violations"@ != "warnings"@,
        "id"@ != "harness_saturated"@,
        "timestamp"@ != "harness_saturated"@,
        "valid"@ != "harness_saturated"@,
        "validity_violations"@ != "harness_saturated"@,
        "warnings"@ != "harness_saturated"@,
        "id"@ != "saturated_workers"@,
        "timestamp"@ != "saturated_workers"@,
        "valid"@ != "saturated_workers"@,
        "validity_violations"@ != "saturated_workers"@,
        "warnings"@ != "saturated_workers"@,
        "harness_saturated"@ != "saturated_workers"@,
{
    reveal_strlit("id");
    reveal_strlit("timestamp");
    reveal_strlit("valid");
    reveal_strlit("validity_violations");
    reveal_strlit("warnings");
    reveal_strlit("harness_saturated");
    reveal_strlit("saturated_workers");
    assert("id"@.len() != "timestamp"@.len());
    assert("id"@.len() != "valid"@.len());
    assert("timestamp"@.len() != "valid"@.len());
    assert("id"@.len() != "validity_violations"@.len());
    assert("timestamp"@.len() != "validity_violations"@.len());
    assert("valid"@.len() != "validity_violations"@.len());
    assert("id"@.len() != "warnings"@.len());
    assert("timestamp"@.len() != "warnings"@.len());
    assert("valid"@.len() != "warnings"@.len());
    assert("validity_violations"@.len() != "warnings"@.len());
    assert("id"@.len() != "harness_saturated"@.len());
    assert("timestamp"@.len() != "harness_saturated"@.len());
    assert("valid"@.len() != "harness_saturated"@.len());
    assert("validity_violations"@.len() != "harness_saturated"@.len());
    assert("warnings"@.len() != "harness_saturated"@.len());
    assert("id"@.len() != "saturated_workers"@.len());
    assert("timestamp"@.len() != "saturated_workers"@.len());
    assert("valid"@.len() != "saturated_workers"@.len());
    assert("validity_violations"@.len() != "saturated_workers"@.len());
    assert("warnings"@.len() != "saturated_workers"@.len());
    assert("harness_saturated"@[0] != "saturated_workers"@[0]);
}

proof fn report_keys()
    ensures
        "incidentbench_version"@ != "scenario"@,
        "incidentbench_version"@ != "target"@,
        "scenario"@ != "target"@,
        "incidentbench_version"@ != "harness"@,
        "scenario"@ != "harness"@,
        "target"@ != "harness"@,
        "incidentbench_version"@ != "run"@,
        "scenario"@ != "run"@,
        "target"@ != "run"@,
        "harness"@ != "run"@,
        "incidentbench_version"@ != "scorecard"@,
        "scenario"@ != "scorecard"@,
        "target"@ != "scorecard"@,
        "harness"@ != "scorecard"@,
        "run"@ != "scorecard"@,
        "incidentbench_version"@ != "derived_metrics"@,
        "scenario"@ != "derived_metrics"@,
        "target"@ != "derived_metrics"@,
        "harness"@ != "derived_metrics"@,
        "run"@ != "derived_metrics"@,
        "scorecard"@ != "derived_metrics"@,
        "incidentbench_version"@ != "phases"@,
        "scenario"@ != "phases"@,
        "target"@ != "phases"@,
        "harness"@ != "phases"@,
        "run"@ != "phases"@,
        "scorecard"@ != "phases"@,
        "derived_metrics"@ != "phases"@,
        "incidentbench_version"@ != "timeseries"@,
        "scenario"@ != "timeseries"@,
        "target"@ != "timeseries"@,
        "harness"@ != "timeseries"@,
        "run"@ != "timeseries"@,
        "scorecard"@ != "timeseries"@,
        "derived_metrics"@ != "timeseries"@,
        "phases"@ != "timeseries"@,
        "incidentbench_version"@ != "query_groups"@,
        "scenario"@ != "query_groups"@,
        "target"@ != "query_groups"@,
        "harness"@ != "query_groups"@,
        "run"@ != "query_groups"@,
        "scorecard"@ != "query_groups"@,
        "derived_metrics"@ != "query_groups"@,
        "phases"@ != "query_groups"@,
        "timeseries"@ != "query_groups"@,
        "incidentbench_version"@ != "timed_out_queries"@,
        "scenario"@ != "timed_out_queries"@,
        "target"@ != "timed_out_queries"@,
        "harness"@ != "timed_out_queries"@,
        "run"@ != "timed_out_queries"@,
        "scorecard"@ != "timed_out_queries"@,
        "derived_metrics"@ != "timed_out_queries"@,
        "phases"@ != "timed_out_queries"@,
        "timeseries"@ != "timed_out_queries"@,
        "query_groups"@ != "timed_out_queries"@,
        "incidentbench_version"@ != "per_category_latency"@,
        "scenario"@ != "per_category_latency"@,
        "target"@ != "per_category_latency"@,
        "harness"@ != "per_category_latency"@,
        "run"@ != "per_category_latency"@,
        "scorecard"@ != "per_category_latency"@,
        "derived_metrics"@ != "per_category_latency"@,
        "phases"@ != "per_category_latency"@,
        "timeseries"@ != "per_category_latency"@,
        "query_groups"@ != "per_category_latency"@,
        "timed_out_queries"@ != "per_category_latency"@,
        "incidentbench_version"@ != "per_query_latency"@,
        "scenario"@ != "per_query_latency"@,
        "target"@ != "per_query_latency"@,
        "harness"@ != "per_query_latency"@,
        "run"@ != "per_query_latency"@,
        "scorecard"@ != "per_query_latency"@,
        "derived_metrics"@ != "per_query_latency"@,
        "phases"@ != "per_query_latency"@,
        "timeseries"@ != "per_query_latency"@,
        "query_groups"@ != "per_query_latency"@,
        "timed_out_queries"@ != "per_query_latency"@,
        "per_category_latency"@ != "per_query_latency"@,
        "incidentbench_version"@ != "per_query_timeseries"@,
        "scenario"@ != "per_query_timeseries"@,
        "target"@ != "per_query_timeseries"@,
        "harness"@ != "per_query_timeseries"@,
        "run"@ != "per_query_timeseries"@,
        "scorecard"@ != "per_query_timeseries"@,
        "derived_metrics"@ != "per_query_timeseries"@,
        "phases"@ != "per_query_timeseries"@,
        "timeseries"@ != "per_query_timeseries"@,
        "query_groups"@ != "per_query_timeseries"@,
        "timed_out_queries"@ != "per_query_timeseries"@,
        "per_category_latency"@ != "per_query_timeseries"@,
        "per_query_latency"@ != "per_query_timeseries"@,
        "name"@ != "version"@,
        "resolution_s"@ != "point_count"@,
{
    reveal_strlit("incidentbench_version");
    reveal_strlit("scenario");
    reveal_strlit("target");
    reveal_strlit("harness");
    reveal_strlit("run");
    reveal_strlit("scorecard");
    reveal_strlit("derived_metrics");
    reveal_strlit("phases");
    reveal_strlit("timeseries");
    reveal_strlit("query_groups");
    reveal_strlit("timed_out_queries");
    reveal_strlit("per_category_latency");
    reveal_strlit("per_query_latency");
    reveal_strlit("per_query_timeseries");
    reveal_strlit("name");
    reveal_strlit("version");
    reveal_strlit("resolution_s");
    reveal_strlit("point_count");
    assert("incidentbench_version"@.len() != "scenario"@.len());
    assert("incidentbench_version"@.len() != "target"@.len());
    assert("scenario"@.len() != "target"@.len());
    assert("incidentbench_version"@.len() != "harness"@.len());
    assert("scenario"@.len() != "harness"@.len());
    assert("target"@.len() != "harness"@.len());
    assert("incidentbench_version"@.len() != "run"@.len());
    assert("scenario"@.len() != "run"@.len());
    assert("target"@.len() != "run"@.len());
    assert("harness"@.len() != "run"@.len());
    assert("incidentbench_version"@.len() != "scorecard"@.len());
    assert("scenario"@.len() != "scorecard"@.len());
    assert("target"@.len() != "scorecard"@.len());
    assert("harness"@.len() != "scorecard"@.len());
    assert("run"@.len() != "scorecard"@.len());
    assert("incidentbench_version"@.len() != "derived_metrics"@.len());
    assert("scenario"@.len() != "derived_metrics"@.len());
    assert("target"@.len() != "derived_metrics"@.len());
    assert("harness"@.len() != "derived_metrics"@.len());
    assert("run"@.len() != "derived_metrics"@.len());
    assert("scorecard"@.len() != "derived_metrics"@.len());
    assert("incidentbench_version"@.len() != "phases"@.len());
    assert("scenario"@.len() != "phases"@.len());
    assert("target"@[0] != "phases"@[0]);
    assert("harness"@.len() != "phases"@.len());
    assert("run"@.len() != "phases"@.len());
    assert("scorecard"@.len() != "phases"@.len());
    assert("derived_metrics"@.len() != "phases"@.len());
    assert("incidentbench_version"@.len() != "timeseries"@.len());
    assert("scenario"@.len() != "timeseries"@.len());
    assert("target"@.len() != "timeseries"@.len());
    assert("harness"@.len() != "timeseries"@.len());
    assert("run"@.len() != "timeseries"@.len());
    assert("scorecard"@.len() != "timeseries"@.len());
    assert("derived_metrics"@.len() != "timeseries"@.len());
    assert("phases"@.len() != "timeseries"@.len());
    assert("incidentbench_version"@.len() != "query_groups"@.len());
    assert("scenario"@.len() != "query_groups"@.len());
    assert("target"@.len() != "query_groups"@.len());
    assert("harness"@.len() != "query_groups"@.len());
    assert("run"@.len() != "query_groups"@.len());
    assert("scorecard"@.len() != "query_groups"@.len());
    assert("derived_metrics"@.len() != "query_groups"@.len());
    assert("phases"@.len() != "query_groups"@.len());
    assert("timeseries"@.len() != "query_groups"@.len());
    assert("incidentbench_version"@.len() != "timed_out_queries"@.len());
    assert("scenario"@.len() != "timed_out_queries"@.len());
    assert("target"@.len() != "timed_out_queries"@.len());
    assert("harness"@.len() != "timed_out_queries"@.len());
    assert("run"@.len() != "timed_out_queries"@.len());
    assert("scorecard"@.len() != "timed_out_queries"@.len());
    assert("derived_metrics"@.len() != "timed_out_queries"@.len());
    assert("phases"@.len() != "timed_out_queries"@.len());
    assert("timeseries"@.len() != "timed_out_queries"@.len());
    assert("query_groups"@.len() != "timed_out_queries"@.len());
    assert("incidentbench_version"@.len() != "per_category_latency"@.len());
    assert("scenario"@.len() != "per_category_latency"@.len());
    assert("target"@.len() != "per_category_latency"@.len());
    assert("harness"@.len() != "per_category_latency"@.len());
    assert("run"@.len() != "per_category_latency"@.len());
    assert("scorecard"@.len() != "per_category_latency"@.len());
    assert("derived_metrics"@.len() != "per_category_latency"@.len());
    assert("phases"@.len() != "per_category_latency"@.len());
    assert("timeseries"@.len() != "per_category_latency"@.len());
    assert("query_groups"@.len() != "per_category_latency"@.len());
    assert("timed_out_queries"@.len() != "per_category_latency"@.len());
    assert("incidentbench_version"@.len() != "per_query_latency"@.len());
    assert("scenario"@.len() != "per_query_latency"@.len());
    assert("target"@.len() != "per_query_latency"@.len());
    assert("harness"@.len() != "per_query_latency"@.len());
    assert("run"@.len() != "per_query_latency"@.len());
    assert("scorecard"@.len() != "per_query_latency"@.len());
    assert("derived_metrics"@.len() != "per_query_latency"@.len());
    assert("phases"@.len() != "per_query_latency"@.len());
    assert("timeseries"@.len() != "per_query_latency"@.len());
    assert("query_groups"@.len() != "per_query_latency"@.len());
    assert("timed_out_queries"@[0] != "per_query_latency"@[0]);
    assert("per_category_latency"@.len() != "per_query_latency"@.len());
    assert("incidentbench_version"@.len() != "per_query_timeseries"@.len());
    assert("scenario"@.len() != "per_query_timeseries"@.len());
    assert("target"@.len() != "per_query_timeseries"@.len());
    assert("harness"@.len() != "per_query_timeseries"@.len());
    assert("run"@.len() != "per_query_timeseries"@.len());
    assert("scorecard"@.len() != "per_query_timeseries"@.len());
    assert("derived_metrics"@.len() != "per_query_timeseries"@.len());
    assert("phases"@.len() != "per_query_timeseries"@.len());
    assert("timeseries"@.len() != "per_query_timeseries"@.len());
    assert("query_groups"@.len() != "per_query_timeseries"@.len());
    assert("timed_out_queries"@.len() != "per_query_timeseries"@.len());
    assert("per_category_latency"@[4] != "per_query_timeseries"@[4]);
    assert("per_query_latency"@.len() != "per_query_timeseries"@.len());
    assert("name"@.len() != "version"@.len());
    assert("resolution_s"@.len() != "point_count"@.len());
}

// ---------------------------------------------------------------------------
// Results
// ---------------------------------------------------------------------------

/// The results of a run may be used exactly where ten seconds were measured, and both the
/// baseline and the overlap are among them; their scorecard is that of all points.
pub proof fn results_need_ten_seconds_and_both_phases(a: AggregatorView)
    ensures
        ({
            let r = results::results(a);
            &&& r.valid <==> a.timeline.len() >= 10 && (exists|i: int|
                0 <= i < a.timeline.len() && (#[trigger] a.timeline[i]).phase == "baseline"@) && (
            exists|i: int|
                0 <= i < a.timeline.len() && (#[trigger] a.timeline[i]).phase == "overlap"@)
            &&& r.valid <==> r.violations.len() == 0
            &&& r.scorecard == Scorecard::of(metrics::derived(a.timeline))
            &&& r.timed_out == a.timed_out
            &&& r.per_query.len() == a.per_query.len()
        }),
{
}

/// A worker was above nine tenths of its processor in a second.
pub open spec fn was_above(list: Seq<SnapshotView>, id: Seq<char>) -> bool {
    exists|k: int|
        0 <= k < list.len() && (#[trigger] list[k]).worker_id == id && list[k].cpu_ppm > 900_000
}

pub open spec fn was_above_at(buckets: Seq<BucketView>, id: Seq<char>, second: int) -> bool {
    exists|i: int|
        0 <= i < buckets.len() && (#[trigger] buckets[i]).timestamp_s == second && (was_above(
            buckets[i].ingest,
            id,
        ) || was_above(buckets[i].query, id))
}

/// A worker was above nine tenths of its processor for ten seconds in a row.
pub open spec fn was_above_for_ten(buckets: Seq<BucketView>, id: Seq<char>, second: int) -> bool {
    forall|j: int| second <= j < second + 10 ==> #[trigger] was_above_at(buckets, id, j)
}

/// The harness counts as saturated exactly where one and the same worker was above nine tenths
/// of its processor for ten seconds in a row; then there is a warning.
pub proof fn one_busy_worker_saturates(a: AggregatorView)
    ensures
        results::results(a).harness_saturated <==> exists|id: Seq<char>, second: int| #[trigger]
            was_above_for_ten(a.buckets, id, second),
        results::results(a).harness_saturated <==> results::results(a).warnings.len() > 0,
{
    let b = a.buckets;
    assert forall|id: Seq<char>, j: int| #[trigger] results::worker_saturated_at(b, id, j)
        == was_above_at(b, id, j) by {
        assert forall|list: Seq<SnapshotView>| #[trigger] results::in_list(list, id) == was_above(
            list,
            id,
        ) by {}
        if results::worker_saturated_at(b, id, j) {
            let i = choose|i: int|
                0 <= i < b.len() && (#[trigger] b[i]).timestamp_s == j && results::has_saturated(
                    b[i],
                    id,
                );
            assert(results::in_list(b[i].ingest, id) == was_above(b[i].ingest, id));
            assert(results::in_list(b[i].query, id) == was_above(b[i].query, id));
        }
        if was_above_at(b, id, j) {
            let i = choose|i: int|
                0 <= i < b.len() && (#[trigger] b[i]).timestamp_s == j && (was_above(
                    b[i].ingest,
                    id,
                ) || was_above(b[i].query, id));
            assert(results::in_list(b[i].ingest, id) == was_above(b[i].ingest, id));
            assert(results::in_list(b[i].query, id) == was_above(b[i].query, id));
            assert(results::has_saturated(b[i], id));
        }
    }
    if results::sustained(b) {
        let (id, t) = choose|id: Seq<char>, t: int| #[trigger]
            results::worker_saturated_for(b, id, t, 10);
        assert forall|j: int| t <= j < t + 10 implies #[trigger] was_above_at(b, id, j) by {
            assert(results::worker_saturated_at(b, id, t + (j - t)));
        }
        assert(was_above_for_ten(b, id, t));
    }
    if exists|id: Seq<char>, second: int| #[trigger] was_above_for_ten(b, id, second) {
        let (id, t) = choose|id: Seq<char>, t: int| #[trigger] was_above_for_ten(b, id, t);
        assert forall|k: int| 0 <= k < 10 implies results::worker_saturated_at(
            b,
            id,
            #[trigger] (t + k),
        ) by {
            assert(was_above_at(b, id, t + k));
        }
        assert(results::worker_saturated_for(b, id, t, 10));
    }
}

/// The figures of a query: the least and the greatest of its latencies, percentiles near their
/// place, and how many there were; its errors are those that are no timeouts.
pub proof fn figures_are_of_the_latencies(a: AccumulatorView)
    requires
        0 < a.latencies.len() <= u64::MAX,
    ensures
        ({
            let f = results::figures_of(a);
            &&& a.latencies.contains(f.min)
            &&& a.latencies.contains(f.max)
            &&& forall|i: int|
                0 <= i < a.latencies.len() ==> f.min <= #[trigger] a.latencies[i] <= f.max
            &&& f.min <= f.p50 <= f.p95 <= f.p99 <= f.max
            &&& f.count == a.latencies.len()
            &&& f.timeout_count == a.timeout_count
            &&& a.error_count >= a.timeout_count ==> f.error_count == a.error_count
                - a.timeout_count
            &&& a.error_count < a.timeout_count ==> f.error_count == 0
        }),
{
    broadcast use group_to_multiset_ensures;

    let wide = latency::widened(a.latencies);
    let sorted = sorting::arranged(wide);
    sorting::arranged_is_sorted(wide);
    latency::arranged_bound(wide, u64::MAX as u128);
    let n = sorted.len() as int;
    assert(sorted.contains(sorted[0]) && sorted.contains(sorted[n - 1]));
    assert(sorted.to_multiset().count(sorted[0]) > 0);
    assert(sorted.to_multiset().count(sorted[n - 1]) > 0);
    assert(wide.contains(sorted[0]) && wide.contains(sorted[n - 1]));
    let low = choose|i: int| 0 <= i < wide.len() && wide[i] == sorted[0];
    let high = choose|i: int| 0 <= i < wide.len() && wide[i] == sorted[n - 1];
    let f = results::figures_of(a);
    assert(a.latencies[low] == f.min);
    assert(a.latencies[high] == f.max);
    assert forall|i: int| 0 <= i < a.latencies.len() implies f.min <= #[trigger] a.latencies[i]
        <= f.max by {
        assert(wide.contains(wide[i]));
        assert(wide.to_multiset().count(wide[i]) > 0);
        assert(sorted.contains(wide[i]));
        let k = choose|k: int| 0 <= k < sorted.len() && sorted[k] == wide[i];
        assert(sorted[0] <= sorted[k] <= sorted[n - 1]);
    }
    assert(latency::percentile_index(n, 50) <= latency::percentile_index(n, 95)
        <= latency::percentile_index(n, 99) <= n - 1);
    assert(sorted[0] <= sorted[latency::percentile_index(n, 50)]);
    assert(sorted[latency::percentile_index(n, 50)] <= sorted[latency::percentile_index(n, 95)]);
    assert(sorted[latency::percentile_index(n, 95)] <= sorted[latency::percentile_index(n, 99)]);
    assert(sorted[latency::percentile_index(n, 99)] <= sorted[n - 1]);
}

/// The percentiles of a query are those of 50, 95 and 99 hundredths of the way through its
/// sorted latencies.
pub proof fn figures_have_their_percentiles(a: AccumulatorView)
    requires
        0 < a.latencies.len() <= u64::MAX,
    ensures
        ({
            let f = results::figures_of(a);
            let s = sorting::arranged(latency::widened(a.latencies));
            let at = |x: u64, percent: int|
                exists|i: int|
                    0 <= i < s.len() && #[trigger] s[i] == x && -50 < 100 * i - percent * (s.len()
                        - 1) <= 50;
            at(f.p50, 50) && at(f.p95, 95) && at(f.p99, 99)
        }),
{
    let wide = latency::widened(a.latencies);
    let s = sorting::arranged(wide);
    sorting::arranged_is_sorted(wide);
    latency::arranged_bound(wide, u64::MAX as u128);
    percentile_laws::percentiles_of_values_are_near_their_place(s, 50);
    percentile_laws::percentiles_of_values_are_near_their_place(s, 95);
    percentile_laws::percentiles_of_values_are_near_their_place(s, 99);
}

proof fn scheduling_keeps<T: Timed>(s: Seq<T::V>, x: T::V)
    ensures
        order::scheduled::<T>(s, x).to_multiset() == s.to_multiset().insert(x),
    decreases s.len(),
{
    broadcast use group_to_multiset_ensures;

    if !(s.len() == 0 || T::time(s.last()) <= T::time(x)) {
        let front = s.drop_last();
        scheduling_keeps::<T>(front, x);
        assert(front.push(s.last()) =~= s);
        assert(order::scheduled::<T>(s, x).to_multiset() =~= s.to_multiset().insert(x));
    }
}

proof fn by_time_keeps<T: Timed>(s: Seq<T::V>, n: int)
    requires
        0 <= n <= s.len(),
    ensures
        order::by_time::<T>(s, n).to_multiset() == s.take(n).to_multiset(),
    decreases n,
{
    broadcast use group_to_multiset_ensures;

    if n > 0 {
        by_time_keeps::<T>(s, n - 1);
        scheduling_keeps::<T>(order::by_time::<T>(s, n - 1), s[n - 1]);
        assert(s.take(n - 1).push(s[n - 1]) =~= s.take(n));
    } else {
        assert(s.take(0) =~= Seq::<T::V>::empty());
    }
}

/// What is written of an aggregation is all of it: its points, each as often as it was there,
/// in the order of time, and its records as they came.
pub proof fn everything_is_written(a: AggregatorView)
    ensures
        ({
            let p = results::persisted(a);
            &&& p.metrics.to_multiset() == a.timeline.to_multiset()
            &&& forall|i: int, j: int|
                0 <= i < j < p.metrics.len() ==> (#[trigger] p.metrics[i]).timestamp_s <= (
                #[trigger] p.metrics[j]).timestamp_s
            &&& p.timed_out == a.timed_out
            &&& p.errors == a.errors
            &&& p.series.len() == a.series.len()
            &&& forall|k: int|
                0 <= k < a.series.len() ==> (#[trigger] p.series[k]).0 == a.series[k].0
                    && p.series[k].1.to_multiset() == a.series[k].1.to_multiset()
            &&& p.per_query.len() == a.per_query.len()
        }),
{
    let n = a.timeline.len() as int;
    order::by_time_ascends::<AggregatedMetricPoint>(a.timeline, n);
    by_time_keeps::<AggregatedMetricPoint>(a.timeline, n);
    assert(a.timeline.take(n) =~= a.timeline);
    order::by_name_ascends(results::summaries(a.per_query), a.per_query.len() as int);
    let p = results::persisted(a);
    assert forall|k: int| 0 <= k < a.series.len() implies (#[trigger] p.series[k]).0
        == a.series[k].0 && p.series[k].1.to_multiset() == a.series[k].1.to_multiset() by {
        let s = a.series[k].1;
        by_time_keeps::<crate::metrics::PerQueryTimeSeriesPoint>(s, s.len() as int);
        assert(s.take(s.len() as int) =~= s);
    }
}

// ---------------------------------------------------------------------------
// Categories
// ---------------------------------------------------------------------------

/// A category with one query more: counts and errors add up, the percentiles are the worst,
/// and the extremes those of either.
pub proof fn categories_take_the_worst(r: Rollup, row: QueryRow)
    requires
        r.count + row.count <= u64::MAX,
        r.errors + row.errors <= u64::MAX,
        r.p50_sum + row.p50 * row.count <= u128::MAX,
    ensures
        ({
            let after = r.with(row);
            &&& after.count == r.count + row.count
            &&& after.errors == r.errors + row.errors
            &&& after.p50_sum == r.p50_sum + row.p50 * row.count
            &&& after.p95 >= r.p95 && after.p95 >= row.p95 && (after.p95 == r.p95 || after.p95
                == row.p95)
            &&& after.p99 >= r.p99 && after.p99 >= row.p99 && (after.p99 == r.p99 || after.p99
                == row.p99)
            &&& after.max >= r.max && after.max >= row.max && (after.max == r.max || after.max
                == row.max)
            &&& row.count > 0 ==> (after.min matches Some(m) && m <= row.min && (r.min matches Some(
                k,
            ) ==> m <= k) && (m == row.min || r.min == Some(m)))
            &&& row.count == 0 ==> after.min == r.min
        }),
{
}

/// The document is a number with the value `num / den`.
pub open spec fn is_value(d: Doc, num: int, den: int) -> bool {
    d matches Doc::Quotient { num: a, den: b } && b > 0 && a * den == b * num
}

/// The document of a category: its medians as their mean, weighted by how often each query was
/// counted, the percentiles in milliseconds, and its errors without the timeouts.
pub proof fn categories_are_told(category: Seq<char>, r: Rollup, timeouts: nat)
    requires
        r.count > 0,
    ensures
        ({
            let d = categories::category_doc(category, r, timeouts as int);
            &&& member(d, "query_name"@) == Doc::Text(category)
            &&& is_value(member(d, "p50"@), r.p50_sum as int, r.count * 1_000_000)
            &&& is_value(member(d, "p95"@), r.p95 as int, 1_000_000)
            &&& is_value(member(d, "p99"@), r.p99 as int, 1_000_000)
            &&& is_value(member(d, "max"@), r.max as int, 1_000_000)
            &&& r.min matches Some(m) ==> is_value(member(d, "min"@), m as int, 1_000_000)
            &&& member(d, "count"@) == Doc::Uint(r.count as nat)
            &&& member(d, "timeout_count"@) == Doc::Uint(timeouts)
            &&& member(d, "error_count"@) matches Doc::Uint(e) && (r.errors >= timeouts ==> e
                + timeouts == r.errors)
        }),
{
    broadcast use json::with_then_get;

    category_keys();
    commuting();
}

// ---------------------------------------------------------------------------
// Groups
// ---------------------------------------------------------------------------

/// A figure of a group summed over the seconds of a phase in which it reported.
pub open spec fn group_total(
    points: Seq<PointView>,
    phase: Seq<char>,
    group: Seq<char>,
    f: spec_fn(GroupMetricsView) -> int,
) -> int
    decreases points.len(),
{
    if points.len() == 0 {
        0
    } else {
        group_total(points.drop_last(), phase, group, f) + match model::find(
            points.last().groups,
            group,
        ) {
            Some(m) => if points.last().phase == phase {
                f(m)
            } else {
                0
            },
            None => 0,
        }
    }
}

proof fn reports_add_up(
    points: Seq<PointView>,
    phase: Seq<char>,
    group: Seq<char>,
    n: int,
    f: spec_fn(GroupMetricsView) -> int,
)
    requires
        0 <= n <= points.len(),
        forall|m: GroupMetricsView| 0 <= #[trigger] f(m) <= u64::MAX,
    ensures
        model::sum(groups::reports(points, phase, group, n).map_values(f)) == group_total(
            points.take(n),
            phase,
            group,
            f,
        ),
        0 <= group_total(points.take(n), phase, group, f) <= n * 0xffff_ffff_ffff_ffff,
    decreases n,
{
    let all = groups::reports(points, phase, group, n).map_values(f);
    if n > 0 {
        reports_add_up(points, phase, group, n - 1, f);
        assert(points.take(n).drop_last() =~= points.take(n - 1));
        assert(points.take(n).last() == points[n - 1]);
        let before = groups::reports(points, phase, group, n - 1);
        if let Some(m) = model::find(points[n - 1].groups, group) {
            assert(0 <= f(m) <= u64::MAX);
            if points[n - 1].phase == phase {
                assert(all.drop_last() =~= before.map_values(f));
            }
        }
    } else {
        assert(all =~= Seq::<int>::empty());
    }
}

proof fn reports_are_counted(points: Seq<PointView>, phase: Seq<char>, group: Seq<char>, n: int)
    requires
        0 <= n <= points.len(),
    ensures
        groups::reports(points, phase, group, n).len() == group_total(
            points.take(n),
            phase,
            group,
            |m: GroupMetricsView| 1,
        ),
        groups::reports(points, phase, group, n).len() <= n,
    decreases n,
{
    if n > 0 {
        reports_are_counted(points, phase, group, n - 1);
        assert(points.take(n).drop_last() =~= points.take(n - 1));
        assert(points.take(n).last() == points[n - 1]);
    }
}

/// The sums of a group in a phase.
pub open spec fn sums_up(
    f: PhaseFigures,
    points: Seq<PointView>,
    phase: Seq<char>,
    group: Seq<char>,
) -> bool {
    &&& f.seconds == group_total(points, phase, group, |m: GroupMetricsView| 1)
    &&& f.p99 == group_total(points, phase, group, |m: GroupMetricsView| m.latency.p99 as int)
    &&& f.executed == group_total(points, phase, group, |m: GroupMetricsView| m.executed as int)
    &&& f.errors == group_total(points, phase, group, |m: GroupMetricsView| m.errors as int)
}

/// The figures of a group are the sums of what it reported in the baseline and in the overlap,
/// and of nothing else.
pub proof fn groups_are_summed_by_phase(points: Seq<PointView>, group: Seq<char>)
    requires
        points.len() <= MAX_POINTS,
    ensures
        sums_up(groups::group_figures(points, group).baseline, points, "baseline"@, group),
        sums_up(groups::group_figures(points, group).overlap, points, "overlap"@, group),
{
    one_phase(points, "baseline"@, group);
    one_phase(points, "overlap"@, group);
}

proof fn one_phase(points: Seq<PointView>, phase: Seq<char>, group: Seq<char>)
    requires
        points.len() <= MAX_POINTS,
    ensures
        sums_up(
            groups::summed(groups::reports(points, phase, group, points.len() as int)),
            points,
            phase,
            group,
        ),
{
    let n = points.len() as int;
    assert(points.take(n) =~= points);
    reports_are_counted(points, phase, group, n);
    reports_add_up(points, phase, group, n, |m: GroupMetricsView| m.latency.p99 as int);
    reports_add_up(points, phase, group, n, |m: GroupMetricsView| m.executed as int);
    reports_add_up(points, phase, group, n, |m: GroupMetricsView| m.errors as int);
    assert(n * 0xffff_ffff_ffff_ffff <= MAX_POINTS * 0xffff_ffff_ffff_ffff) by (nonlinear_arith)
        requires
            n <= MAX_POINTS,
    ;
}

/// What a report says of a group: mean latencies in milliseconds, how they relate, queries per
/// second over the phases' durations, and the fraction of the overlap's queries that failed.
pub proof fn groups_are_told(f: GroupFiguresView, baseline_s: u64, overlap_s: u64)
    requires
        f.baseline.wf(),
        f.overlap.wf(),
        f.baseline.seconds > 0,
        f.overlap.seconds > 0,
        f.baseline.p99 > 0,
        f.overlap.executed > 0,
        baseline_s > 0,
        overlap_s > 0,
    ensures
        ({
            let d = json_report::group_doc(f, baseline_s, overlap_s);
            &&& member(d, "warehouse"@) == Doc::Text(f.warehouse)
            &&& is_value(
                member(d, "baseline_p99_ms"@),
                f.baseline.p99 as int,
                f.baseline.seconds * 1_000_000,
            )
            &&& is_value(
                member(d, "overlap_p99_ms"@),
                f.overlap.p99 as int,
                f.overlap.seconds * 1_000_000,
            )
            &&& is_value(
                member(d, "p99_degradation_ratio"@),
                f.overlap.p99 * f.baseline.seconds,
                f.overlap.seconds * f.baseline.p99,
            )
            &&& is_value(
                member(d, "baseline_avg_qps"@),
                f.baseline.executed as int,
                baseline_s as int,
            )
            &&& is_value(member(d, "overlap_avg_qps"@), f.overlap.executed as int, overlap_s as int)
            &&& is_value(
                member(d, "overlap_error_rate"@),
                f.overlap.errors as int,
                f.overlap.executed as int,
            )
        }),
{
    broadcast use json::with_then_get;

    group_keys();
    let a = f.overlap.p99 * f.baseline.seconds;
    let b = f.overlap.seconds * f.baseline.p99;
    assert(0 <= a <= MAX_POINTS * 0xffff_ffff_ffff_ffff * MAX_POINTS) by (nonlinear_arith)
        requires
            a == f.overlap.p99 * f.baseline.seconds,
            0 <= f.overlap.p99 <= MAX_POINTS * 0xffff_ffff_ffff_ffff,
            0 <= f.baseline.seconds <= MAX_POINTS,
    ;
    assert(0 < b <= MAX_POINTS * 0xffff_ffff_ffff_ffff * MAX_POINTS) by (nonlinear_arith)
        requires
            b == f.overlap.seconds * f.baseline.p99,
            0 < f.baseline.p99 <= MAX_POINTS * 0xffff_ffff_ffff_ffff,
            0 < f.overlap.seconds <= MAX_POINTS,
    ;
    commuting();
}

proof fn commuting()
    ensures
        forall|a: int, b: int| #[trigger] (a * b) == b * a,
{
    assert forall|a: int, b: int| #[trigger] (a * b) == b * a by {
        assert(a * b == b * a) by (nonlinear_arith);
    }
}

// ---------------------------------------------------------------------------
// The report
// ---------------------------------------------------------------------------

/// What a report says of a phase: what it aimed at, what all its seconds did together and per
/// second of its duration, which fraction of its queries failed, and mean latencies in
/// milliseconds.
pub proof fn phases_are_told(
    p: PhaseView,
    points: Seq<PointView>,
    s: ScenarioView,
    timed_out: Seq<Doc>,
)
    requires
        points.len() <= MAX_POINTS,
        p.duration_seconds > 0,
        seconds(points, p.name) > 0,
        total(points, p.name, |q: PointView| q.query_executed as int) > 0,
        total(points, p.name, |q: PointView| q.query_executed as int) <= u64::MAX,
        total(points, p.name, |q: PointView| q.query_errors as int) <= u64::MAX,
        total(points, p.name, |q: PointView| q.ingest_events_produced as int) <= u64::MAX,
        aimed_eps(s.stream_list(), p.name) <= u64::MAX,
    ensures
        ({
            let d = json_report::phase_doc(p, points, s, timed_out);
            let i = member(d, "ingest"@);
            let q = member(d, "query"@);
            let made = total(points, p.name, |x: PointView| x.ingest_events_produced as int);
            let done = total(points, p.name, |x: PointView| x.query_executed as int);
            let failed = total(points, p.name, |x: PointView| x.query_errors as int);
            let n = seconds(points, p.name);
            &&& member(d, "name"@) == Doc::Text(p.name)
            &&& member(d, "display_name"@) == Doc::Text(p.display_name)
            &&& member(d, "duration_s"@) == Doc::Uint(p.duration_seconds as nat)
            &&& member(i, "target_eps"@) == Doc::Uint(aimed_eps(s.stream_list(), p.name) as nat)
            &&& member(i, "total_events"@) == Doc::Uint(made as nat)
            &&& is_value(member(i, "achieved_avg_eps"@), made, p.duration_seconds as int)
            &&& is_value(member(q, "target_qps"@), p.target_pqps as int, 1_000_000_000_000)
            &&& is_value(member(q, "achieved_avg_qps"@), done, p.duration_seconds as int)
            &&& member(q, "total_queries"@) == Doc::Uint(done as nat)
            &&& member(q, "total_errors"@) == Doc::Uint(failed as nat)
            &&& is_value(member(q, "error_rate"@), failed, done)
            &&& is_value(
                member(q, "latency_p50_ms"@),
                total(points, p.name, |x: PointView| x.query_latency.p50 as int),
                n * 1_000_000,
            )
            &&& is_value(
                member(q, "latency_p95_ms"@),
                total(points, p.name, |x: PointView| x.query_latency.p95 as int),
                n * 1_000_000,
            )
            &&& is_value(
                member(q, "latency_p99_ms"@),
                total(points, p.name, |x: PointView| x.query_latency.p99 as int),
                n * 1_000_000,
            )
        }),
{
    broadcast use json::with_then_get;

    phase_keys();
    validity_laws::phase_facts(points, p.name);
    validity_laws::aims_agree(s.stream_list(), p.name);
    scorecard_laws::means_agree(
        points,
        p.name,
        Measure::P50,
        |x: PointView| x.query_latency.p50 as int,
    );
    scorecard_laws::means_agree(
        points,
        p.name,
        Measure::P95,
        |x: PointView| x.query_latency.p95 as int,
    );
    scorecard_laws::means_agree(
        points,
        p.name,
        Measure::P99,
        |x: PointView| x.query_latency.p99 as int,
    );
    scorecard_laws::totals_agree(
        points,
        p.name,
        Measure::Produced,
        |x: PointView| x.ingest_events_produced as int,
    );
    scorecard_laws::totals_agree(
        points,
        p.name,
        Measure::Errors,
        |x: PointView| x.query_errors as int,
    );
    commuting();
}

/// The timeouts of a phase are told apart from its other errors.
pub proof fn timeouts_are_told_apart(p: PhaseView, points: Seq<PointView>, timed_out: Seq<Doc>)
    requires
        points.len() <= MAX_POINTS,
        total(points, p.name, |q: PointView| q.query_errors as int) <= u64::MAX,
    ensures
        ({
            let q = json_report::phase_query_doc(p, points, timed_out);
            let failed = total(points, p.name, |x: PointView| x.query_errors as int);
            member(q, "total_timeouts"@) matches Doc::Uint(late) && (failed >= late ==> member(
                q,
                "total_non_timeout_errors"@,
            ) == Doc::Uint((failed - late) as nat)) && (timed_out.len() <= u64::MAX ==> late
                == in_phase(timed_out, p.name))
        }),
{
    broadcast use json::with_then_get;

    phase_keys();
    validity_laws::phase_facts(points, p.name);
    scorecard_laws::totals_agree(
        points,
        p.name,
        Measure::Errors,
        |x: PointView| x.query_errors as int,
    );
    said_is_counted(timed_out, p.name, timed_out.len() as int);
    assert(timed_out.take(timed_out.len() as int) =~= timed_out);
}

/// How many of the records are of a phase.
pub open spec fn in_phase(records: Seq<Doc>, phase: Seq<char>) -> int
    decreases records.len(),
{
    if records.len() == 0 {
        0
    } else {
        in_phase(records.drop_last(), phase) + if member(records.last(), "phase"@) == Doc::Text(
            phase,
        ) {
            1int
        } else {
            0
        }
    }
}

proof fn said_is_counted(records: Seq<Doc>, phase: Seq<char>, n: int)
    requires
        0 <= n <= records.len(),
    ensures
        categories::saying(records, "phase"@, phase, n) == in_phase(records.take(n), phase),
        categories::saying(records, "phase"@, phase, n) <= n,
    decreases n,
{
    if n > 0 {
        said_is_counted(records, phase, n - 1);
        assert(records.take(n).drop_last() =~= records.take(n - 1));
        assert(records.take(n).last() == records[n - 1]);
    }
}

/// The scorecard in a report has the figures of the run; latencies are in milliseconds.
pub proof fn scorecards_are_told(c: Scorecard)
    requires
        c.baseline_p99_ns.den > 0,
        c.overlap_p99_ns.den > 0,
        c.p99_degradation_ratio.den > 0,
        c.query_error_rate_overlap.den > 0,
    ensures
        ({
            let d = lifecycle::scorecard_doc(c);
            &&& is_value(
                member(d, "baseline_p99_ms"@),
                c.baseline_p99_ns.num as int,
                c.baseline_p99_ns.den * 1_000_000,
            )
            &&& is_value(
                member(d, "overlap_p99_ms"@),
                c.overlap_p99_ns.num as int,
                c.overlap_p99_ns.den * 1_000_000,
            )
            &&& is_value(
                member(d, "p99_degradation_ratio"@),
                c.p99_degradation_ratio.num as int,
                c.p99_degradation_ratio.den as int,
            )
            &&& is_value(
                member(d, "query_error_rate_overlap"@),
                c.query_error_rate_overlap.num as int,
                c.query_error_rate_overlap.den as int,
            )
            &&& member(d, "peak_backlog"@) == Doc::Uint(c.peak_backlog as nat)
            &&& member(d, "backlog_drain_time_s"@) == Doc::Uint(c.backlog_drain_time_s as nat)
            &&& member(d, "recovery_time_s"@) == Doc::Uint(c.recovery_time_s as nat)
        }),
{
    broadcast use json::with_then_get;

    card_keys();
    commuting();
}

/// The derived figures in a report are those of the run; latencies are in milliseconds.
pub proof fn derived_figures_are_told(d: DerivedMetrics)
    requires
        d.wf(),
    ensures
        ({
            let r = json_report::derived_doc(d);
            &&& is_value(
                member(r, "query_baseline_p50"@),
                d.query_baseline_p50.num as int,
                d.query_baseline_p50.den * 1_000_000,
            )
            &&& is_value(
                member(r, "query_baseline_p99"@),
                d.query_baseline_p99.num as int,
                d.query_baseline_p99.den * 1_000_000,
            )
            &&& is_value(
                member(r, "query_overlap_p50"@),
                d.query_overlap_p50.num as int,
                d.query_overlap_p50.den * 1_000_000,
            )
            &&& is_value(
                member(r, "query_overlap_p99"@),
                d.query_overlap_p99.num as int,
                d.query_overlap_p99.den * 1_000_000,
            )
            &&& is_value(
                member(r, "query_p99_ratio"@),
                d.query_p99_ratio.num as int,
                d.query_p99_ratio.den as int,
            )
            &&& is_value(
                member(r, "query_error_rate_overlap"@),
                d.query_error_rate_overlap.num as int,
                d.query_error_rate_overlap.den as int,
            )
            &&& is_value(
                member(r, "query_throughput_ratio"@),
                d.query_throughput_ratio.num as int,
                d.query_throughput_ratio.den as int,
            )
            &&& is_value(
                member(r, "ingest_baseline_eps"@),
                d.ingest_baseline_eps.num as int,
                d.ingest_baseline_eps.den as int,
            )
            &&& is_value(
                member(r, "ingest_throughput_ratio"@),
                d.ingest_throughput_ratio.num as int,
                d.ingest_throughput_ratio.den as int,
            )
            &&& member(r, "ingest_peak_eps"@) == Doc::Uint(d.ingest_peak_eps as nat)
            &&& member(r, "ingest_peak_backlog"@) == Doc::Uint(d.ingest_peak_backlog as nat)
            &&& member(r, "ingest_backlog_drain_time_s"@) == Doc::Uint(
                d.ingest_backlog_drain_time_s as nat,
            )
            &&& member(r, "recovery_time_to_baseline_s"@) == Doc::Uint(
                d.recovery_time_to_baseline_s as nat,
            )
        }),
{
    broadcast use json::with_then_get;

    derived_keys();
    commuting();
}

/// A report says whether the run may be used, and if not why: it may exactly where there is no
/// violation.
pub proof fn validity_is_told(points: Seq<PointView>, s: ScenarioView, timestamp: Seq<char>)
    ensures
        ({
            let d = json_report::run_doc(points, s, timestamp);
            &&& member(d, "valid"@) == Doc::Bool(criteria::violations(points, s).len() == 0)
            &&& member(d, "validity_violations"@) matches Doc::Array(v) && v.len()
                == criteria::violations(points, s).len() && forall|i: int|
                0 <= i < v.len() ==> #[trigger] v[i] == Doc::Text(criteria::violations(points, s)[i])
            &&& member(d, "warnings"@) matches Doc::Array(v) && v.len() == criteria::warnings(
                points,
                s,
            ).len() && forall|i: int|
                0 <= i < v.len() ==> #[trigger] v[i] == Doc::Text(criteria::warnings(points, s)[i])
            &&& member(d, "timestamp"@) == Doc::Text(timestamp)
            &&& member(d, "harness_saturated"@) == Doc::Bool(
                exists|second: int| #[trigger] validity_laws::was_busy_for_ten(points, second),
            )
        }),
{
    broadcast use json::with_then_get;

    run_keys();
    validity_laws::ten_busy_seconds_saturate(points);
}

/// A report holds the scenario, the scorecard, the derived figures, a summary of every phase in
/// order, and the tables that it was given.
pub proof fn reports_hold_everything(
    s: ScenarioView,
    points: Seq<PointView>,
    resolution_s: u32,
    d: DerivedMetrics,
    card: Scorecard,
    c: ReportContext,
    t: ReportTables,
    i: int,
)
    requires
        0 <= i < s.phases.len(),
    ensures
        ({
            let r = json_report::report_doc(s, points, resolution_s, d, card, c, t);
            let late = model::vmap(t.timed_out_queries@);
            &&& member(r, "incidentbench_version"@) == Doc::Text(c.version@)
            &&& member(member(r, "scenario"@), "name"@) == Doc::Text(s.meta.name)
            &&& member(member(r, "scenario"@), "version"@) == Doc::Text(s.meta.version)
            &&& member(r, "run"@) == json_report::run_doc(points, s, c.timestamp@)
            &&& member(r, "scorecard"@) == lifecycle::scorecard_doc(card)
            &&& member(r, "derived_metrics"@) == json_report::derived_doc(d)
            &&& nth(member(r, "phases"@), i) == json_report::phase_doc(s.phases[i], points, s, late)
            &&& member(member(r, "timeseries"@), "resolution_s"@) == Doc::Uint(resolution_s as nat)
            &&& member(member(r, "timeseries"@), "point_count"@) == Doc::Uint(points.len())
            &&& member(r, "timed_out_queries"@) == Doc::Array(late)
            &&& member(r, "per_category_latency"@) == Doc::Array(
                model::vmap(t.per_category_latency@),
            )
            &&& member(r, "per_query_latency"@) == Doc::Array(model::vmap(t.per_query_latency@))
        }),
{
    broadcast use json::with_then_get;

    report_keys();
}

} // verus!
