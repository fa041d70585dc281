//! What a worker reports every second.
use vstd::prelude::*;
use crate::latency::{DistributionView, LatencyDistribution};
use crate::model;
use crate::model::Duplicate;

verus! {

/// What a worker did in one second.
pub struct WorkerMetricSnapshot {
    pub worker_id: String,
    /// `ingest`, `query` or `query-session`.
    pub worker_mode: String,
    pub worker_index: u32,
    pub timestamp_ns: u64,
    pub phase: String,
    pub events_produced: u64,
    pub events_acknowledged: u64,
    pub events_failed: u64,
    pub kafka_produce_latency: Option<LatencyDistribution>,
    pub queries_executed: u64,
    pub query_errors: u64,
    pub query_latency: Option<LatencyDistribution>,
    pub query_latency_by_type: Vec<QueryTypeLatency>,
    pub query_group: String,
    pub cpu_ppm: u64,
    pub memory_bytes: u64,
    /// Events per second for ingest workers, thousandths of a query per second for query
    /// workers.
    pub target_rate: u64,
    pub concurrent_sessions: u32,
    pub timed_out_queries: Vec<TimedOutQueryRecord>,
    pub query_error_records: Vec<QueryErrorRecord>,
}

/// What a worker did with one query in one second.
pub struct QueryTypeLatency {
    pub query_name: String,
    pub latency: Option<LatencyDistribution>,
    pub executed: u64,
    pub errors: u64,
}

/// A query that ran out of time.
pub struct TimedOutQueryRecord {
    pub query_name: String,
    pub category: String,
    pub phase: String,
    pub timestamp_ms: i64,
    pub duration_ns: u64,
    pub timeout_ms: u64,
}

/// A query that failed.
pub struct QueryErrorRecord {
    pub query_name: String,
    pub category: String,
    pub phase: String,
    pub worker_id: String,
    pub worker_index: u32,
    pub timestamp_ms: i64,
    pub duration_ns: u64,
    pub timed_out: bool,
    pub error_class: String,
    pub message: String,
}

pub struct TypeView {
    pub query_name: Seq<char>,
    pub latency: Option<DistributionView>,
    pub executed: u64,
    pub errors: u64,
}

pub struct TimeoutView {
    pub query_name: Seq<char>,
    pub category: Seq<char>,
    pub phase: Seq<char>,
    pub timestamp_ms: i64,
    pub duration_ns: u64,
    pub timeout_ms: u64,
}

pub struct ErrorView {
    pub query_name: Seq<char>,
    pub category: Seq<char>,
    pub phase: Seq<char>,
    pub worker_id: Seq<char>,
    pub worker_index: u32,
    pub timestamp_ms: i64,
    pub duration_ns: u64,
    pub timed_out: bool,
    pub error_class: Seq<char>,
    pub message: Seq<char>,
}

pub struct SnapshotView {
    pub worker_id: Seq<char>,
    pub worker_mode: Seq<char>,
    pub worker_index: u32,
    pub timestamp_ns: u64,
    pub phase: Seq<char>,
    pub events_produced: u64,
    pub events_acknowledged: u64,
    pub events_failed: u64,
    pub kafka_produce_latency: Option<DistributionView>,
    pub queries_executed: u64,
    pub query_errors: u64,
    pub query_latency: Option<DistributionView>,
    pub by_type: Seq<TypeView>,
    pub query_group: Seq<char>,
    pub cpu_ppm: u64,
    pub memory_bytes: u64,
    pub target_rate: u64,
    pub concurrent_sessions: u32,
    pub timed_out: Seq<TimeoutView>,
    pub errors: Seq<ErrorView>,
}

/// The distribution that an optional one stands for.
pub open spec fn opt_dist(d: Option<LatencyDistribution>) -> Option<DistributionView> {
    match d {
        Some(x) => Some(x@),
        None => None,
    }
}

impl View for QueryTypeLatency {
    type V = TypeView;

    open spec fn view(&self) -> TypeView {
        TypeView {
            query_name: self.query_name@,
            latency: opt_dist(self.latency),
            executed: self.executed,
            errors: self.errors,
        }
    }
}

impl View for TimedOutQueryRecord {
    type V = TimeoutView;

    open spec fn view(&self) -> TimeoutView {
        TimeoutView {
            query_name: self.query_name@,
            category: self.category@,
            phase: self.phase@,
            timestamp_ms: self.timestamp_ms,
            duration_ns: self.duration_ns,
            timeout_ms: self.timeout_ms,
        }
    }
}

impl View for QueryErrorRecord {
    type V = ErrorView;

    open spec fn view(&self) -> ErrorView {
        ErrorView {
            query_name: self.query_name@,
            category: self.category@,
            phase: self.phase@,
            worker_id: self.worker_id@,
            worker_index: self.worker_index,
            timestamp_ms: self.timestamp_ms,
            duration_ns: self.duration_ns,
            timed_out: self.timed_out,
            error_class: self.error_class@,
            message: self.message@,
        }
    }
}

impl View for WorkerMetricSnapshot {
    type V = SnapshotView;

    open spec fn view(&self) -> SnapshotView {
        SnapshotView {
            worker_id: self.worker_id@,
            worker_mode: self.worker_mode@,
            worker_index: self.worker_index,
            timestamp_ns: self.timestamp_ns,
            phase: self.phase@,
            events_produced: self.events_produced,
            events_acknowledged: self.events_acknowledged,
            events_failed: self.events_failed,
            kafka_produce_latency: opt_dist(self.kafka_produce_latency),
            queries_executed: self.queries_executed,
            query_errors: self.query_errors,
            query_latency: opt_dist(self.query_latency),
            by_type: model::vmap(self.query_latency_by_type@),
            query_group: self.query_group@,
            cpu_ppm: self.cpu_ppm,
            memory_bytes: self.memory_bytes,
            target_rate: self.target_rate,
            concurrent_sessions: self.concurrent_sessions,
            timed_out: model::vmap(self.timed_out_queries@),
            errors: model::vmap(self.query_error_records@),
        }
    }
}

impl Duplicate for TimedOutQueryRecord {
    fn duplicate(&self) -> (r: Self) {
        TimedOutQueryRecord {
            query_name: self.query_name.clone(),
            category: self.category.clone(),
            phase: self.phase.clone(),
            timestamp_ms: self.timestamp_ms,
            duration_ns: self.duration_ns,
            timeout_ms: self.timeout_ms,
        }
    }
}

impl Duplicate for QueryErrorRecord {
    fn duplicate(&self) -> (r: Self) {
        QueryErrorRecord {
            query_name: self.query_name.clone(),
            category: self.category.clone(),
            phase: self.phase.clone(),
            worker_id: self.worker_id.clone(),
            worker_index: self.worker_index,
            timestamp_ms: self.timestamp_ms,
            duration_ns: self.duration_ns,
            timed_out: self.timed_out,
            error_class: self.error_class.clone(),
            message: self.message.clone(),
        }
    }
}

/// A copy of an optional distribution.
pub fn copy_opt_dist(d: &Option<LatencyDistribution>) -> (r: Option<LatencyDistribution>)
    ensures
        opt_dist(r) == opt_dist(*d),
{
    match d {
        Some(x) => Some(x.duplicate()),
        None => None,
    }
}

} // verus!
