//! What is measured, second by second, and what is derived from it after the run.
//!
//! Latencies are in nanoseconds, rates of queries in millionths of a query per second,
//! processor use in parts per million of one core. Means and ratios are exact quotients.
use vstd::prelude::*;
use crate::decimal::Ratio;
use crate::model;
use crate::rates;
use crate::model::Duplicate;
use crate::text;

verus! {

/// The greatest number of one-second points that a series may have for its quotients to
/// fit.
pub const MAX_POINTS: usize = 67_108_864;

/// Percentiles of a set of latencies.
#[derive(Clone, Copy, PartialEq, Eq, Structural, Debug)]
pub struct PercentileSummary {
    pub p50: u64,
    pub p95: u64,
    pub p99: u64,
    pub max: u64,
    pub count: u64,
}

impl PercentileSummary {
    /// The summary of nothing.
    pub open spec fn blank() -> PercentileSummary {
        PercentileSummary { p50: 0, p95: 0, p99: 0, max: 0, count: 0 }
    }
}

impl Default for PercentileSummary {
    fn default() -> (r: Self)
        ensures
            r == PercentileSummary::blank(),
    {
        PercentileSummary { p50: 0, p95: 0, p99: 0, max: 0, count: 0 }
    }
}

/// What all workers together did in one second.
pub struct AggregatedMetricPoint {
    pub timestamp_s: u64,
    pub phase: String,
    pub ingest_events_produced: u64,
    pub ingest_events_acknowledged: u64,
    pub ingest_events_failed: u64,
    pub ingest_target_eps: u64,
    pub ingest_kafka_produce_latency: PercentileSummary,
    pub query_executed: u64,
    pub query_errors: u64,
    pub query_target_uqps: u64,
    pub query_latency: PercentileSummary,
    pub kafka_consumer_lag: u64,
    pub ingest_workers_reporting: u32,
    pub query_workers_reporting: u32,
    pub concurrent_sessions: u32,
    pub harness_saturated: bool,
    pub max_worker_cpu_ppm: u64,
    /// The same for each group of query workers, by the group's name.
    pub query_group_metrics: Vec<(String, QueryGroupMetrics)>,
}

/// What one group of query workers did in one second.
pub struct QueryGroupMetrics {
    pub executed: u64,
    pub errors: u64,
    pub target_uqps: u64,
    pub latency: PercentileSummary,
    pub warehouse_name: String,
}

/// The points of a run, in the order in which they were recorded.
pub struct TimeSeries {
    pub resolution_s: u32,
    pub points: Vec<AggregatedMetricPoint>,
}

/// The latencies of one query in one second.
pub struct PerQueryTimeSeriesPoint {
    pub timestamp_s: u64,
    pub phase: String,
    pub p95_ns: u64,
    pub count: u64,
    pub error_count: u64,
}

/// The latencies of one query over a run.
pub struct PerQueryTimeSeries {
    pub query_name: String,
    pub points: Vec<PerQueryTimeSeriesPoint>,
}

/// What is derived from a run's points.
#[derive(Clone, Copy, PartialEq, Eq, Structural, Debug)]
pub struct DerivedMetrics {
    pub query_baseline_p50: Ratio,
    pub query_baseline_p99: Ratio,
    pub query_overlap_p50: Ratio,
    pub query_overlap_p99: Ratio,
    pub query_p99_ratio: Ratio,
    pub query_error_rate_overlap: Ratio,
    pub query_throughput_ratio: Ratio,
    pub ingest_baseline_eps: Ratio,
    pub ingest_peak_eps: u64,
    pub ingest_throughput_ratio: Ratio,
    pub ingest_peak_backlog: u64,
    pub ingest_backlog_drain_time_s: u64,
    pub recovery_time_to_baseline_s: u64,
    pub query_total_executed: u128,
}

/// The figures by which runs are compared.
#[derive(Clone, Copy, PartialEq, Eq, Structural, Debug)]
pub struct Scorecard {
    pub baseline_p99_ns: Ratio,
    pub overlap_p99_ns: Ratio,
    pub p99_degradation_ratio: Ratio,
    pub query_error_rate_overlap: Ratio,
    pub peak_backlog: u64,
    pub backlog_drain_time_s: u64,
    pub recovery_time_s: u64,
}

pub struct GroupMetricsView {
    pub executed: u64,
    pub errors: u64,
    pub target_uqps: u64,
    pub latency: PercentileSummary,
    pub warehouse_name: Seq<char>,
}

pub struct PointView {
    pub timestamp_s: u64,
    pub phase: Seq<char>,
    pub ingest_events_produced: u64,
    pub ingest_events_acknowledged: u64,
    pub ingest_events_failed: u64,
    pub ingest_target_eps: u64,
    pub ingest_kafka_produce_latency: PercentileSummary,
    pub query_executed: u64,
    pub query_errors: u64,
    pub query_target_uqps: u64,
    pub query_latency: PercentileSummary,
    pub kafka_consumer_lag: u64,
    pub ingest_workers_reporting: u32,
    pub query_workers_reporting: u32,
    pub concurrent_sessions: u32,
    pub harness_saturated: bool,
    pub max_worker_cpu_ppm: u64,
    pub groups: Seq<(Seq<char>, GroupMetricsView)>,
}

pub struct QueryPointView {
    pub timestamp_s: u64,
    pub phase: Seq<char>,
    pub p95_ns: u64,
    pub count: u64,
    pub error_count: u64,
}

impl View for QueryGroupMetrics {
    type V = GroupMetricsView;

    open spec fn view(&self) -> GroupMetricsView {
        GroupMetricsView {
            executed: self.executed,
            errors: self.errors,
            target_uqps: self.target_uqps,
            latency: self.latency,
            warehouse_name: self.warehouse_name@,
        }
    }
}

impl View for AggregatedMetricPoint {
    type V = PointView;

    open spec fn view(&self) -> PointView {
        PointView {
            timestamp_s: self.timestamp_s,
            phase: self.phase@,
            ingest_events_produced: self.ingest_events_produced,
            ingest_events_acknowledged: self.ingest_events_acknowledged,
            ingest_events_failed: self.ingest_events_failed,
            ingest_target_eps: self.ingest_target_eps,
            ingest_kafka_produce_latency: self.ingest_kafka_produce_latency,
            query_executed: self.query_executed,
            query_errors: self.query_errors,
            query_target_uqps: self.query_target_uqps,
            query_latency: self.query_latency,
            kafka_consumer_lag: self.kafka_consumer_lag,
            ingest_workers_reporting: self.ingest_workers_reporting,
            query_workers_reporting: self.query_workers_reporting,
            concurrent_sessions: self.concurrent_sessions,
            harness_saturated: self.harness_saturated,
            max_worker_cpu_ppm: self.max_worker_cpu_ppm,
            groups: model::vmap(self.query_group_metrics@),
        }
    }
}

impl View for PerQueryTimeSeriesPoint {
    type V = QueryPointView;

    open spec fn view(&self) -> QueryPointView {
        QueryPointView {
            timestamp_s: self.timestamp_s,
            phase: self.phase@,
            p95_ns: self.p95_ns,
            count: self.count,
            error_count: self.error_count,
        }
    }
}

impl View for PerQueryTimeSeries {
    type V = (Seq<char>, Seq<QueryPointView>);

    open spec fn view(&self) -> (Seq<char>, Seq<QueryPointView>) {
        (self.query_name@, model::vmap(self.points@))
    }
}

impl View for TimeSeries {
    type V = Seq<PointView>;

    open spec fn view(&self) -> Seq<PointView> {
        model::vmap(self.points@)
    }
}

impl Duplicate for QueryGroupMetrics {
    fn duplicate(&self) -> (r: Self) {
        QueryGroupMetrics {
            executed: self.executed,
            errors: self.errors,
            target_uqps: self.target_uqps,
            latency: self.latency,
            warehouse_name: self.warehouse_name.clone(),
        }
    }
}

impl Duplicate for AggregatedMetricPoint {
    fn duplicate(&self) -> (r: Self) {
        AggregatedMetricPoint {
            timestamp_s: self.timestamp_s,
            phase: self.phase.clone(),
            ingest_events_produced: self.ingest_events_produced,
            ingest_events_acknowledged: self.ingest_events_acknowledged,
            ingest_events_failed: self.ingest_events_failed,
            ingest_target_eps: self.ingest_target_eps,
            ingest_kafka_produce_latency: self.ingest_kafka_produce_latency,
            query_executed: self.query_executed,
            query_errors: self.query_errors,
            query_target_uqps: self.query_target_uqps,
            query_latency: self.query_latency,
            kafka_consumer_lag: self.kafka_consumer_lag,
            ingest_workers_reporting: self.ingest_workers_reporting,
            query_workers_reporting: self.query_workers_reporting,
            concurrent_sessions: self.concurrent_sessions,
            harness_saturated: self.harness_saturated,
            max_worker_cpu_ppm: self.max_worker_cpu_ppm,
            query_group_metrics: model::duplicate_list(&self.query_group_metrics),
        }
    }
}

impl Duplicate for PerQueryTimeSeriesPoint {
    fn duplicate(&self) -> (r: Self) {
        PerQueryTimeSeriesPoint {
            timestamp_s: self.timestamp_s,
            phase: self.phase.clone(),
            p95_ns: self.p95_ns,
            count: self.count,
            error_count: self.error_count,
        }
    }
}

// ---------------------------------------------------------------------------
// Phases of a series
// ---------------------------------------------------------------------------

/// One of the figures of a point.
#[derive(Clone, Copy, PartialEq, Eq, Structural, Debug)]
pub enum Measure {
    P50,
    P95,
    P99,
    Executed,
    Errors,
    Produced,
    Lag,
    Sessions,
}

/// The figure of a point.
pub open spec fn measured(p: PointView, m: Measure) -> int {
    match m {
        Measure::P50 => p.query_latency.p50 as int,
        Measure::P95 => p.query_latency.p95 as int,
        Measure::P99 => p.query_latency.p99 as int,
        Measure::Executed => p.query_executed as int,
        Measure::Errors => p.query_errors as int,
        Measure::Produced => p.ingest_events_produced as int,
        Measure::Lag => p.kafka_consumer_lag as int,
        Measure::Sessions => p.concurrent_sessions as int,
    }
}

/// The points of a phase.
pub open spec fn in_phase(points: Seq<PointView>, phase: Seq<char>) -> Seq<PointView> {
    points.filter(|p: PointView| p.phase == phase)
}

/// The figures of a list of points.
pub open spec fn figures(points: Seq<PointView>, m: Measure) -> Seq<int> {
    points.map_values(|p: PointView| measured(p, m))
}

/// The sum of a figure over a phase.
pub open spec fn phase_total(points: Seq<PointView>, phase: Seq<char>, m: Measure) -> int {
    model::sum(figures(in_phase(points, phase), m))
}

/// The greatest figure of a phase.
pub open spec fn phase_peak(points: Seq<PointView>, phase: Seq<char>, m: Measure) -> int {
    model::greatest(figures(in_phase(points, phase), m))
}

/// Taking one point more takes it in where its phase is the one asked for.
pub proof fn in_phase_step(points: Seq<PointView>, phase: Seq<char>, i: int)
    requires
        0 <= i < points.len(),
    ensures
        in_phase(points.take(i + 1), phase) == if points[i].phase == phase {
            in_phase(points.take(i), phase).push(points[i])
        } else {
            in_phase(points.take(i), phase)
        },
{
    reveal(Seq::filter);
    assert(points.take(i + 1).drop_last() =~= points.take(i));
    assert(points.take(i + 1).last() == points[i]);
}

proof fn figures_push(points: Seq<PointView>, p: PointView, m: Measure)
    ensures
        figures(points.push(p), m) == figures(points, m).push(measured(p, m)),
{
    assert(figures(points.push(p), m) =~= figures(points, m).push(measured(p, m)));
}

fn figure_of(p: &AggregatedMetricPoint, m: Measure) -> (r: u64)
    ensures
        r == measured(p@, m),
{
    match m {
        Measure::P50 => p.query_latency.p50,
        Measure::P95 => p.query_latency.p95,
        Measure::P99 => p.query_latency.p99,
        Measure::Executed => p.query_executed,
        Measure::Errors => p.query_errors,
        Measure::Produced => p.ingest_events_produced,
        Measure::Lag => p.kafka_consumer_lag,
        Measure::Sessions => p.concurrent_sessions as u64,
    }
}

/// How many points a phase has.
pub fn phase_len(points: &Vec<AggregatedMetricPoint>, phase: &str) -> (r: usize)
    ensures
        r == in_phase(model::vmap(points@), phase@).len(),
        r <= points@.len(),
{
    let ghost all = model::vmap(points@);
    let mut n: usize = 0;
    let mut i: usize = 0;
    proof {
        reveal(Seq::filter);
        assert(in_phase(all.take(0), phase@) =~= Seq::empty());
    }
    while i < points.len()
        invariant
            n <= i <= points@.len(),
            all == model::vmap(points@),
            n == in_phase(all.take(i as int), phase@).len(),
        decreases points@.len() - i,
    {
        proof {
            in_phase_step(all, phase@, i as int);
            assert(all[i as int] == points@[i as int]@);
        }
        if text::same(points[i].phase.as_str(), phase) {
            n += 1;
        }
        i += 1;
    }
    assert(all.take(i as int) =~= all);
    n
}

/// The sum of a figure over a phase.
pub fn phase_sum(points: &Vec<AggregatedMetricPoint>, phase: &str, m: Measure) -> (r: u128)
    ensures
        r == phase_total(model::vmap(points@), phase@, m),
        r <= points@.len() * 0xffff_ffff_ffff_ffff,
{
    let ghost all = model::vmap(points@);
    let len: usize = points.len();
    let mut total: u128 = 0;
    let mut i: usize = 0;
    proof {
        reveal(Seq::filter);
        assert(in_phase(all.take(0), phase@) =~= Seq::empty());
        assert(figures(in_phase(all.take(0), phase@), m) =~= Seq::<int>::empty());
    }
    while i < len
        invariant
            i <= len == points@.len(),
            all == model::vmap(points@),
            total == phase_total(all.take(i as int), phase@, m),
            total <= i * 0xffff_ffff_ffff_ffff,
        decreases len - i,
    {
        proof {
            in_phase_step(all, phase@, i as int);
            assert(all[i as int] == points@[i as int]@);
            let before = in_phase(all.take(i as int), phase@);
            figures_push(before, all[i as int], m);
            let longer = figures(before, m).push(measured(all[i as int], m));
            assert(longer.drop_last() =~= figures(before, m));
        }
        if text::same(points[i].phase.as_str(), phase) {
            total = total + figure_of(&points[i], m) as u128;
        }
        i += 1;
    }
    assert(all.take(i as int) =~= all);
    total
}

/// The greatest figure of a phase; 0 where it has no points.
pub fn phase_max(points: &Vec<AggregatedMetricPoint>, phase: &str, m: Measure) -> (r: u64)
    ensures
        r == phase_peak(model::vmap(points@), phase@, m),
{
    let ghost all = model::vmap(points@);
    let mut peak: u64 = 0;
    let mut i: usize = 0;
    proof {
        reveal(Seq::filter);
        assert(in_phase(all.take(0), phase@) =~= Seq::empty());
        assert(figures(in_phase(all.take(0), phase@), m) =~= Seq::<int>::empty());
    }
    while i < points.len()
        invariant
            i <= points@.len(),
            all == model::vmap(points@),
            peak == phase_peak(all.take(i as int), phase@, m),
        decreases points@.len() - i,
    {
        proof {
            in_phase_step(all, phase@, i as int);
            assert(all[i as int] == points@[i as int]@);
            let before = in_phase(all.take(i as int), phase@);
            figures_push(before, all[i as int], m);
            let longer = figures(before, m).push(measured(all[i as int], m));
            assert(longer.drop_last() =~= figures(before, m));
        }
        if text::same(points[i].phase.as_str(), phase) {
            let x: u64 = figure_of(&points[i], m);
            if x > peak {
                peak = x;
            }
        }
        i += 1;
    }
    assert(all.take(i as int) =~= all);
    peak
}

/// The sum of a figure over all points.
pub fn series_sum(points: &Vec<AggregatedMetricPoint>, m: Measure) -> (r: u128)
    ensures
        r == model::sum(figures(model::vmap(points@), m)),
        r <= points@.len() * 0xffff_ffff_ffff_ffff,
{
    let ghost all = figures(model::vmap(points@), m);
    let len: usize = points.len();
    let mut total: u128 = 0;
    let mut i: usize = 0;
    assert(all.take(0) =~= Seq::<int>::empty());
    while i < len
        invariant
            i <= len == points@.len(),
            all == figures(model::vmap(points@), m),
            total == model::sum(all.take(i as int)),
            total <= i * 0xffff_ffff_ffff_ffff,
        decreases len - i,
    {
        proof {
            model::sum_take(all, i as int);
            assert(all[i as int] == measured(points@[i as int]@, m));
        }
        total = total + figure_of(&points[i], m) as u128;
        i += 1;
    }
    assert(all.take(i as int) =~= all);
    total
}

/// The greatest figure of all points; 0 where there are none.
pub fn series_max(points: &Vec<AggregatedMetricPoint>, m: Measure) -> (r: u64)
    ensures
        r == model::greatest(figures(model::vmap(points@), m)),
{
    let ghost all = figures(model::vmap(points@), m);
    let mut peak: u64 = 0;
    let mut i: usize = 0;
    assert(all.take(0) =~= Seq::<int>::empty());
    while i < points.len()
        invariant
            i <= points@.len(),
            all == figures(model::vmap(points@), m),
            peak == model::greatest(all.take(i as int)),
        decreases points@.len() - i,
    {
        proof {
            model::greatest_take(all, i as int);
            assert(all[i as int] == measured(points@[i as int]@, m));
        }
        let x: u64 = figure_of(&points[i], m);
        if x > peak {
            peak = x;
        }
        i += 1;
    }
    assert(all.take(i as int) =~= all);
    peak
}

// ---------------------------------------------------------------------------
// Derived metrics
// ---------------------------------------------------------------------------

/// A quotient, and zero where its denominator is zero.
pub open spec fn quotient(num: int, den: int) -> Ratio {
    if den > 0 {
        Ratio { num: num as u128, den: den as u128 }
    } else {
        Ratio { num: 0, den: 1 }
    }
}

/// The mean of a figure over a phase.
pub open spec fn phase_mean(points: Seq<PointView>, phase: Seq<char>, m: Measure) -> Ratio {
    quotient(phase_total(points, phase, m), in_phase(points, phase).len() as int)
}

/// The first point at or after the `i`-th at which the lag is the peak: its time.
pub open spec fn peak_time(points: Seq<PointView>, peak: int, i: int) -> int
    decreases points.len() - i,
{
    if i >= points.len() {
        0
    } else if points[i].kafka_consumer_lag == peak {
        points[i].timestamp_s as int
    } else {
        peak_time(points, peak, i + 1)
    }
}

/// The first point from the `i`-th on that is later than the peak and whose lag is at
/// most `level`: its time, and the peak's where there is none.
pub open spec fn drained_time(points: Seq<PointView>, peak: int, level: int, i: int) -> int
    decreases points.len() - i,
{
    if i >= points.len() {
        peak
    } else if points[i].timestamp_s > peak && points[i].kafka_consumer_lag <= level {
        points[i].timestamp_s as int
    } else {
        drained_time(points, peak, level, i + 1)
    }
}

/// The lag at which the backlog counts as drained: the mean lag of the baseline.
pub open spec fn drained_level(points: Seq<PointView>) -> int {
    let mean = phase_mean(points, "baseline"@, Measure::Lag);
    mean.num as int / mean.den as int
}

/// The time from the greatest lag until the lag is back at its baseline.
pub open spec fn drain_seconds(points: Seq<PointView>) -> int {
    let peak = model::greatest(figures(points, Measure::Lag));
    let at = peak_time(points, peak, 0);
    drained_time(points, at, drained_level(points), 0) - at
}

/// A point after the incident.
pub open spec fn is_recovery(p: PointView) -> bool {
    p.phase == "recovery"@ || p.phase == "post_incident"@
}

/// The latency is back to within 1.2 times the mean of the baseline.
pub open spec fn recovered(p: PointView, baseline: Ratio) -> bool {
    p.query_latency.p99 > 0 && p.query_latency.p99 * 10 * baseline.den <= 12 * baseline.num
}

/// The time of the first point after the incident, from the `i`-th point on.
pub open spec fn recovery_start(points: Seq<PointView>, i: int) -> int
    decreases points.len() - i,
{
    if i >= points.len() {
        0
    } else if is_recovery(points[i]) {
        points[i].timestamp_s as int
    } else {
        recovery_start(points, i + 1)
    }
}

/// The time of the first point after the incident with the latency back, from the `i`-th
/// point on, where there is one.
pub open spec fn recovery_end(points: Seq<PointView>, baseline: Ratio, i: int) -> Option<int>
    decreases points.len() - i,
{
    if i >= points.len() {
        None
    } else if is_recovery(points[i]) && recovered(points[i], baseline) {
        Some(points[i].timestamp_s as int)
    } else {
        recovery_end(points, baseline, i + 1)
    }
}

/// The greatest time of a point after the incident among the first `n`, and 0 where there is
/// none.
pub open spec fn recovery_last(points: Seq<PointView>, n: int) -> int
    decreases n,
{
    if n <= 0 {
        0
    } else if is_recovery(points[n - 1]) && points[n - 1].timestamp_s > recovery_last(
        points,
        n - 1,
    ) {
        points[n - 1].timestamp_s as int
    } else {
        recovery_last(points, n - 1)
    }
}

/// Points after the incident were measured.
pub open spec fn has_recovery(points: Seq<PointView>) -> bool {
    exists|i: int| 0 <= i < points.len() && is_recovery(#[trigger] points[i])
}

/// The time from the end of the incident until the latency is back at its baseline. Where it
/// does not come back, a second more than was measured after the incident; where nothing was
/// measured, nothing.
pub open spec fn recovery_seconds(points: Seq<PointView>) -> int {
    let start = recovery_start(points, 0);
    match recovery_end(points, phase_mean(points, "baseline"@, Measure::P99), 0) {
        Some(end) => if end < start {
            0
        } else {
            end - start
        },
        None => if has_recovery(points) {
            rates::at_most_u64(recovery_last(points, points.len() as int) - start + 1)
        } else {
            0
        },
    }
}

/// The first point of a phase, where it has one.
pub open spec fn first_in_phase(points: Seq<PointView>, phase: Seq<char>, i: int) -> Option<
    PointView,
>
    decreases points.len() - i,
{
    if i >= points.len() {
        None
    } else if points[i].phase == phase {
        Some(points[i])
    } else {
        first_in_phase(points, phase, i + 1)
    }
}

/// What is derived from a run's points.
pub open spec fn derived(points: Seq<PointView>) -> DerivedMetrics {
    let base = phase_mean(points, "baseline"@, Measure::P99);
    let over = phase_mean(points, "overlap"@, Measure::P99);
    let overlap_len = in_phase(points, "overlap"@).len();
    let first = first_in_phase(points, "overlap"@, 0);
    let executed = phase_total(points, "overlap"@, Measure::Executed);
    let surge = phase_peak(points, "ingestion_surge"@, Measure::Produced);
    let peak = phase_peak(points, "overlap"@, Measure::Produced);
    DerivedMetrics {
        query_baseline_p50: phase_mean(points, "baseline"@, Measure::P50),
        query_baseline_p99: base,
        query_overlap_p50: phase_mean(points, "overlap"@, Measure::P50),
        query_overlap_p99: over,
        query_p99_ratio: quotient(over.num * base.den, over.den * base.num),
        query_error_rate_overlap: quotient(
            phase_total(points, "overlap"@, Measure::Errors),
            executed,
        ),
        query_throughput_ratio: match first {
            Some(p) => quotient(executed * 1_000_000, overlap_len * p.query_target_uqps),
            None => Ratio { num: 0, den: 1 },
        },
        ingest_baseline_eps: phase_mean(points, "baseline"@, Measure::Produced),
        ingest_peak_eps: if surge > peak {
            surge as u64
        } else {
            peak as u64
        },
        ingest_throughput_ratio: match first {
            Some(p) => quotient(
                phase_total(points, "overlap"@, Measure::Produced),
                overlap_len * p.ingest_target_eps,
            ),
            None => Ratio { num: 0, den: 1 },
        },
        ingest_peak_backlog: model::greatest(figures(points, Measure::Lag)) as u64,
        ingest_backlog_drain_time_s: drain_seconds(points) as u64,
        recovery_time_to_baseline_s: recovery_seconds(points) as u64,
        query_total_executed: model::sum(figures(points, Measure::Executed)) as u128,
    }
}

/// The greatest numerator of a derived quotient.
pub const GREATEST_NUMERATOR: u128 = 0x10_0000_0000_0000_0000_0000_0000_0000;

/// A quotient of bounded size.
pub open spec fn bounded(r: Ratio) -> bool {
    0 < r.den && r.num <= GREATEST_NUMERATOR && r.den <= GREATEST_NUMERATOR
}

impl DerivedMetrics {
    /// The quotients are those of a series of no more points than it may have.
    pub open spec fn wf(self) -> bool {
        &&& bounded(self.query_baseline_p50)
        &&& bounded(self.query_baseline_p99)
        &&& bounded(self.query_overlap_p50)
        &&& bounded(self.query_overlap_p99)
        &&& bounded(self.query_p99_ratio)
        &&& bounded(self.query_error_rate_overlap)
        &&& bounded(self.query_throughput_ratio)
        &&& bounded(self.ingest_baseline_eps)
        &&& bounded(self.ingest_throughput_ratio)
        &&& self.query_total_executed <= GREATEST_NUMERATOR
        &&& self.query_baseline_p50.den <= MAX_POINTS
        &&& self.query_baseline_p99.den <= MAX_POINTS
        &&& self.query_overlap_p50.den <= MAX_POINTS
        &&& self.query_overlap_p99.den <= MAX_POINTS
    }
}

/// A quotient, and zero where its denominator is zero.
pub fn ratio_of(num: u128, den: u128) -> (r: Ratio)
    ensures
        r == quotient(num as int, den as int),
{
    if den > 0 {
        Ratio { num, den }
    } else {
        Ratio { num: 0, den: 1 }
    }
}

/// The mean of a figure over a phase.
pub fn mean_of(points: &Vec<AggregatedMetricPoint>, phase: &str, m: Measure) -> (r: Ratio)
    requires
        points@.len() <= MAX_POINTS,
    ensures
        r == phase_mean(model::vmap(points@), phase@, m),
        0 < r.den <= MAX_POINTS,
        r.num <= MAX_POINTS * 0xffff_ffff_ffff_ffff,
{
    let n: usize = phase_len(points, phase);
    let total: u128 = phase_sum(points, phase, m);
    assert(points@.len() * 0xffff_ffff_ffff_ffff <= MAX_POINTS * 0xffff_ffff_ffff_ffff)
        by (nonlinear_arith)
        requires
            points@.len() <= MAX_POINTS,
    ;
    ratio_of(total, n as u128)
}

fn peak_time_of(points: &Vec<AggregatedMetricPoint>, peak: u64) -> (r: u64)
    ensures
        r == peak_time(model::vmap(points@), peak as int, 0),
{
    let ghost all = model::vmap(points@);
    let mut i: usize = 0;
    while i < points.len()
        invariant
            i <= points@.len(),
            all == model::vmap(points@),
            peak_time(all, peak as int, 0) == peak_time(all, peak as int, i as int),
        decreases points@.len() - i,
    {
        assert(all[i as int] == points@[i as int]@);
        if points[i].kafka_consumer_lag == peak {
            return points[i].timestamp_s;
        }
        i += 1;
    }
    0
}

fn drained_time_of(points: &Vec<AggregatedMetricPoint>, peak: u64, level: u128) -> (r: u64)
    ensures
        r == drained_time(model::vmap(points@), peak as int, level as int, 0),
        r >= peak,
{
    let ghost all = model::vmap(points@);
    let mut i: usize = 0;
    while i < points.len()
        invariant
            i <= points@.len(),
            all == model::vmap(points@),
            drained_time(all, peak as int, level as int, 0) == drained_time(
                all,
                peak as int,
                level as int,
                i as int,
            ),
        decreases points@.len() - i,
    {
        assert(all[i as int] == points@[i as int]@);
        if points[i].timestamp_s > peak && points[i].kafka_consumer_lag as u128 <= level {
            return points[i].timestamp_s;
        }
        i += 1;
    }
    peak
}

fn after_incident(p: &AggregatedMetricPoint) -> (r: bool)
    ensures
        r == is_recovery(p@),
{
    text::same(p.phase.as_str(), "recovery") || text::same(p.phase.as_str(), "post_incident")
}

fn recovery_start_of(points: &Vec<AggregatedMetricPoint>) -> (r: u64)
    ensures
        r == recovery_start(model::vmap(points@), 0),
{
    let ghost all = model::vmap(points@);
    let mut i: usize = 0;
    while i < points.len()
        invariant
            i <= points@.len(),
            all == model::vmap(points@),
            recovery_start(all, 0) == recovery_start(all, i as int),
        decreases points@.len() - i,
    {
        assert(all[i as int] == points@[i as int]@);
        if after_incident(&points[i]) {
            return points[i].timestamp_s;
        }
        i += 1;
    }
    0
}

fn recovery_end_of(points: &Vec<AggregatedMetricPoint>, baseline: Ratio) -> (r: Option<u64>)
    requires
        0 < baseline.den <= MAX_POINTS,
        baseline.num <= MAX_POINTS * 0xffff_ffff_ffff_ffff,
    ensures
        match r {
            Some(t) => recovery_end(model::vmap(points@), baseline, 0) == Some(t as int),
            None => recovery_end(model::vmap(points@), baseline, 0) is None,
        },
{
    let ghost all = model::vmap(points@);
    let mut i: usize = 0;
    while i < points.len()
        invariant
            i <= points@.len(),
            0 < baseline.den <= MAX_POINTS,
            baseline.num <= MAX_POINTS * 0xffff_ffff_ffff_ffff,
            all == model::vmap(points@),
            recovery_end(all, baseline, 0) == recovery_end(all, baseline, i as int),
        decreases points@.len() - i,
    {
        assert(all[i as int] == points@[i as int]@);
        let p99: u128 = points[i].query_latency.p99 as u128;
        assert(0 <= (p99 * 10) * baseline.den <= 0xffff_ffff_ffff_ffff * 10 * MAX_POINTS)
            by (nonlinear_arith)
            requires
                0 <= p99 <= 0xffff_ffff_ffff_ffff,
                0 <= baseline.den <= MAX_POINTS,
        ;
        if after_incident(&points[i]) && p99 > 0 && p99 * 10 * baseline.den <= 12 * baseline.num {
            return Some(points[i].timestamp_s);
        }
        i += 1;
    }
    None
}

fn recovery_last_of(points: &Vec<AggregatedMetricPoint>) -> (r: Option<u64>)
    ensures
        r is Some <==> has_recovery(model::vmap(points@)),
        r matches Some(t) ==> t == recovery_last(model::vmap(points@), points@.len() as int),
{
    let ghost all = model::vmap(points@);
    let mut last: u64 = 0;
    let mut any = false;
    let mut i: usize = 0;
    while i < points.len()
        invariant
            i <= points@.len(),
            all == model::vmap(points@),
            last == recovery_last(all, i as int),
            any == exists|k: int| 0 <= k < i && is_recovery(#[trigger] all[k]),
        decreases points@.len() - i,
    {
        assert(all[i as int] == points@[i as int]@);
        if after_incident(&points[i]) {
            assert(is_recovery(all[i as int]));
            any = true;
            if points[i].timestamp_s > last {
                last = points[i].timestamp_s;
            }
        }
        i += 1;
    }
    if any {
        Some(last)
    } else {
        None
    }
}

fn recovery_seconds_of(points: &Vec<AggregatedMetricPoint>, baseline: Ratio) -> (r: u64)
    requires
        baseline == phase_mean(model::vmap(points@), "baseline"@, Measure::P99),
        0 < baseline.den <= MAX_POINTS,
        baseline.num <= MAX_POINTS * 0xffff_ffff_ffff_ffff,
    ensures
        r == recovery_seconds(model::vmap(points@)),
{
    let start: u64 = recovery_start_of(points);
    match recovery_end_of(points, baseline) {
        Some(end) => if end < start {
            0
        } else {
            end - start
        },
        None => match recovery_last_of(points) {
            Some(last) => {
                proof {
                    starts_before_it_ends(model::vmap(points@), 0);
                }
                let measured: u64 = last - start;
                if measured == u64::MAX {
                    measured
                } else {
                    measured + 1
                }
            },
            None => 0,
        },
    }
}

proof fn last_is_greatest(points: Seq<PointView>, n: int, i: int)
    requires
        0 <= i < n <= points.len(),
        is_recovery(points[i]),
    ensures
        points[i].timestamp_s <= recovery_last(points, n),
    decreases n,
{
    if i < n - 1 {
        last_is_greatest(points, n - 1, i);
    }
}

proof fn starts_before_it_ends(points: Seq<PointView>, i: int)
    requires
        0 <= i <= points.len(),
    ensures
        0 <= recovery_start(points, i) <= recovery_last(points, points.len() as int),
    decreases points.len() - i,
{
    if i < points.len() {
        if is_recovery(points[i]) {
            last_is_greatest(points, points.len() as int, i);
        } else {
            starts_before_it_ends(points, i + 1);
        }
    } else {
        last_is_natural(points, points.len() as int);
    }
}

proof fn last_is_natural(points: Seq<PointView>, n: int)
    ensures
        0 <= recovery_last(points, n),
    decreases n,
{
    if n > 0 {
        last_is_natural(points, n - 1);
    }
}

proof fn end_is_measured(points: Seq<PointView>, baseline: Ratio, i: int)
    requires
        0 <= i,
    ensures
        recovery_end(points, baseline, i) matches Some(end) ==> end <= recovery_last(
            points,
            points.len() as int,
        ),
        recovery_end(points, baseline, i) is None <==> forall|k: int|
            i <= k < points.len() && is_recovery(#[trigger] points[k]) ==> !recovered(
                points[k],
                baseline,
            ),
    decreases points.len() - i,
{
    if i < points.len() {
        if is_recovery(points[i]) && recovered(points[i], baseline) {
            last_is_greatest(points, points.len() as int, i);
        } else {
            end_is_measured(points, baseline, i + 1);
        }
    }
}

/// A run whose latency does not come back is told from one that recovers at once: its
/// recovery time is not 0, and greater than that of any run that recovers within the same
/// points.
pub proof fn no_recovery_is_not_immediate(points: Seq<PointView>)
    requires
        has_recovery(points),
        recovery_last(points, points.len() as int) - recovery_start(points, 0) < u64::MAX,
    ensures
        ({
            let baseline = phase_mean(points, "baseline"@, Measure::P99);
            let measured = recovery_last(points, points.len() as int) - recovery_start(points, 0);
            if forall|k: int|
                0 <= k < points.len() && is_recovery(#[trigger] points[k]) ==> !recovered(
                    points[k],
                    baseline,
                ) {
                recovery_seconds(points) == measured + 1 && recovery_seconds(points) > 0
            } else {
                recovery_seconds(points) <= measured
            }
        }),
{
    let baseline = phase_mean(points, "baseline"@, Measure::P99);
    starts_before_it_ends(points, 0);
    end_is_measured(points, baseline, 0);
}

/// The first point of a phase, where it has one.
pub fn first_point_of<'a>(points: &'a Vec<AggregatedMetricPoint>, phase: &str) -> (r: Option<
    &'a AggregatedMetricPoint,
>)
    ensures
        r is Some <==> first_in_phase(model::vmap(points@), phase@, 0) is Some,
        r is Some ==> first_in_phase(model::vmap(points@), phase@, 0) == Some(r->0@),
{
    let ghost all = model::vmap(points@);
    let mut i: usize = 0;
    while i < points.len()
        invariant
            i <= points@.len(),
            all == model::vmap(points@),
            first_in_phase(all, phase@, 0) == first_in_phase(all, phase@, i as int),
        decreases points@.len() - i,
    {
        assert(all[i as int] == points@[i as int]@);
        if text::same(points[i].phase.as_str(), phase) {
            return Some(&points[i]);
        }
        i += 1;
    }
    None
}

/// Computes what is derived from a run's points.
pub fn compute_derived(timeseries: &TimeSeries) -> (r: DerivedMetrics)
    requires
        timeseries.points@.len() <= MAX_POINTS,
    ensures
        r == derived(timeseries@),
        r.wf(),
{
    let points = &timeseries.points;
    let ghost all = model::vmap(points@);
    let base = mean_of(points, "baseline", Measure::P99);
    let over = mean_of(points, "overlap", Measure::P99);
    let overlap_len: usize = phase_len(points, "overlap");
    let executed: u128 = phase_sum(points, "overlap", Measure::Executed);
    let errors: u128 = phase_sum(points, "overlap", Measure::Errors);
    let produced: u128 = phase_sum(points, "overlap", Measure::Produced);
    let surge: u64 = phase_max(points, "ingestion_surge", Measure::Produced);
    let peak: u64 = phase_max(points, "overlap", Measure::Produced);
    assert(points@.len() * 0xffff_ffff_ffff_ffff <= MAX_POINTS * 0xffff_ffff_ffff_ffff)
        by (nonlinear_arith)
        requires
            points@.len() <= MAX_POINTS,
    ;
    assert(0 <= over.num * base.den <= MAX_POINTS * 0xffff_ffff_ffff_ffff * MAX_POINTS)
        by (nonlinear_arith)
        requires
            0 <= over.num <= MAX_POINTS * 0xffff_ffff_ffff_ffff,
            0 <= base.den <= MAX_POINTS,
    ;
    assert(0 <= over.den * base.num <= MAX_POINTS * 0xffff_ffff_ffff_ffff * MAX_POINTS)
        by (nonlinear_arith)
        requires
            0 <= base.num <= MAX_POINTS * 0xffff_ffff_ffff_ffff,
            0 <= over.den <= MAX_POINTS,
    ;
    let ratio = ratio_of(over.num * base.den, over.den * base.num);
    let first = first_point_of(points, "overlap");
    let (query_throughput, ingest_throughput) = match first {
        Some(p) => {
            assert(0 <= overlap_len * p.query_target_uqps <= MAX_POINTS * 0xffff_ffff_ffff_ffff)
                by (nonlinear_arith)
                requires
                    0 <= overlap_len <= MAX_POINTS,
                    0 <= p.query_target_uqps <= 0xffff_ffff_ffff_ffff,
            ;
            assert(0 <= overlap_len * p.ingest_target_eps <= MAX_POINTS * 0xffff_ffff_ffff_ffff)
                by (nonlinear_arith)
                requires
                    0 <= overlap_len <= MAX_POINTS,
                    0 <= p.ingest_target_eps <= 0xffff_ffff_ffff_ffff,
            ;
            (
                ratio_of(
                    executed * 1_000_000,
                    (overlap_len as u128) * (p.query_target_uqps as u128),
                ),
                ratio_of(produced, (overlap_len as u128) * (p.ingest_target_eps as u128)),
            )
        },
        None => (Ratio::zero(), Ratio::zero()),
    };
    let lag_peak: u64 = series_max(points, Measure::Lag);
    let lag_mean = mean_of(points, "baseline", Measure::Lag);
    let level: u128 = lag_mean.num / lag_mean.den;
    let peak_at: u64 = peak_time_of(points, lag_peak);
    let drained_at: u64 = drained_time_of(points, peak_at, level);
    let recovery: u64 = recovery_seconds_of(points, base);
    let total_executed: u128 = series_sum(points, Measure::Executed);
    let r = DerivedMetrics {
        query_baseline_p50: mean_of(points, "baseline", Measure::P50),
        query_baseline_p99: base,
        query_overlap_p50: mean_of(points, "overlap", Measure::P50),
        query_overlap_p99: over,
        query_p99_ratio: ratio,
        query_error_rate_overlap: ratio_of(errors, executed),
        query_throughput_ratio: query_throughput,
        ingest_baseline_eps: mean_of(points, "baseline", Measure::Produced),
        ingest_peak_eps: if surge > peak {
            surge
        } else {
            peak
        },
        ingest_throughput_ratio: ingest_throughput,
        ingest_peak_backlog: lag_peak,
        ingest_backlog_drain_time_s: drained_at - peak_at,
        recovery_time_to_baseline_s: recovery,
        query_total_executed: total_executed,
    };
    r
}

impl Scorecard {
    /// The scorecard that derived metrics give.
    pub open spec fn of(d: DerivedMetrics) -> Scorecard {
        Scorecard {
            baseline_p99_ns: d.query_baseline_p99,
            overlap_p99_ns: d.query_overlap_p99,
            p99_degradation_ratio: d.query_p99_ratio,
            query_error_rate_overlap: d.query_error_rate_overlap,
            peak_backlog: d.ingest_peak_backlog,
            backlog_drain_time_s: d.ingest_backlog_drain_time_s,
            recovery_time_s: d.recovery_time_to_baseline_s,
        }
    }

    /// The scorecard that derived metrics give.
    pub fn from_derived(d: &DerivedMetrics) -> (r: Scorecard)
        ensures
            r == Scorecard::of(*d),
    {
        Scorecard {
            baseline_p99_ns: d.query_baseline_p99,
            overlap_p99_ns: d.query_overlap_p99,
            p99_degradation_ratio: d.query_p99_ratio,
            query_error_rate_overlap: d.query_error_rate_overlap,
            peak_backlog: d.ingest_peak_backlog,
            backlog_drain_time_s: d.ingest_backlog_drain_time_s,
            recovery_time_s: d.recovery_time_to_baseline_s,
        }
    }
}

/// The peak backlog is the greatest lag of the run: no point has more, and where there
/// are points one of them has it.
pub proof fn peak_backlog_is_greatest(points: Seq<PointView>)
    ensures
        forall|i: int|
            0 <= i < points.len() ==> (#[trigger] points[i]).kafka_consumer_lag
                <= derived(points).ingest_peak_backlog,
        points.len() > 0 ==> exists|i: int|
            0 <= i < points.len() && (#[trigger] points[i]).kafka_consumer_lag == derived(
                points,
            ).ingest_peak_backlog,
{
    let lags = figures(points, Measure::Lag);
    model::greatest_is_max(lags);
    let peak = model::greatest(lags);
    if points.len() > 0 {
        let k = choose|k: int| 0 <= k < lags.len() && lags[k] == peak;
        assert(points[k].kafka_consumer_lag == peak);
    }
    assert forall|i: int| 0 <= i < points.len() implies (#[trigger] points[i]).kafka_consumer_lag
        <= derived(points).ingest_peak_backlog by {
        assert(lags[i] == points[i].kafka_consumer_lag);
        if points.len() > 0 {
            let k = choose|k: int| 0 <= k < lags.len() && lags[k] == peak;
            assert(points[k].kafka_consumer_lag == peak);
        }
    }
}

} // verus!
