//! What the aggregator answers: its status, the results of a run, and what is written to
//! disk.
use vstd::prelude::*;
use crate::aggregator::{
    AccumulatorView, AggState, AggregatorView, MetricsAggregatorService, PerQueryAccumulator,
    QuerySeries, MIN_TIMELINE_SECONDS,
};
use crate::bucket::{BucketView, SecondBucket, SATURATED_PPM};
use crate::latency;
use crate::metrics;
use crate::metrics::{
    AggregatedMetricPoint, PointView, QueryPointView, Scorecard, TimeSeries, MAX_POINTS,
};
use crate::model;
use crate::model::Duplicate;
use crate::order;
use crate::snapshot::{
    ErrorView, QueryErrorRecord, SnapshotView, TimedOutQueryRecord, TimeoutView,
    WorkerMetricSnapshot,
};
use crate::sorting;
use crate::text;
use crate::validation;

verus! {

/// How many seconds in a row a worker is above its limit where the harness is saturated.
pub const SUSTAINED_SECONDS: u64 = 10;

/// How far the aggregation is.
pub struct AggregationStatus {
    pub state: &'static str,
    pub snapshots_received: u64,
    pub seconds_aggregated: usize,
    pub connected_workers: u32,
}

/// Percentiles, and how often a query ran, failed and ran out of time.
#[derive(Clone, Copy, PartialEq, Eq, Structural, Debug)]
pub struct QueryFigures {
    pub min: u64,
    pub p50: u64,
    pub p95: u64,
    pub p99: u64,
    pub max: u64,
    pub count: u64,
    /// The errors that are no timeouts.
    pub error_count: u64,
    pub timeout_count: u64,
}

impl View for QueryFigures {
    type V = QueryFigures;

    open spec fn view(&self) -> QueryFigures {
        *self
    }
}

impl Duplicate for QueryFigures {
    fn duplicate(&self) -> (r: Self) {
        *self
    }
}

/// The results of a run.
pub struct ResultsReport {
    pub valid: bool,
    pub validity_violations: Vec<String>,
    pub warnings: Vec<String>,
    pub harness_saturated: bool,
    pub scorecard: Scorecard,
    pub timed_out_queries: Vec<TimedOutQueryRecord>,
    pub per_query_latency: Vec<(String, QueryFigures)>,
}

pub struct ResultsView {
    pub valid: bool,
    pub violations: Seq<Seq<char>>,
    pub warnings: Seq<Seq<char>>,
    pub harness_saturated: bool,
    pub scorecard: Scorecard,
    pub timed_out: Seq<TimeoutView>,
    pub per_query: Seq<(Seq<char>, QueryFigures)>,
}

impl View for ResultsReport {
    type V = ResultsView;

    open spec fn view(&self) -> ResultsView {
        ResultsView {
            valid: self.valid,
            violations: text::views(self.validity_violations@),
            warnings: text::views(self.warnings@),
            harness_saturated: self.harness_saturated,
            scorecard: self.scorecard,
            timed_out: model::vmap(self.timed_out_queries@),
            per_query: model::vmap(self.per_query_latency@),
        }
    }
}

/// The figures of one query.
pub open spec fn figures_of(a: AccumulatorView) -> QueryFigures {
    let sorted = sorting::arranged(latency::widened(a.latencies));
    QueryFigures {
        min: if sorted.len() == 0 {
            0
        } else {
            sorted[0] as u64
        },
        p50: latency::percentile(sorted, 50) as u64,
        p95: latency::percentile(sorted, 95) as u64,
        p99: latency::percentile(sorted, 99) as u64,
        max: if sorted.len() == 0 {
            0
        } else {
            sorted.last() as u64
        },
        count: a.latencies.len() as u64,
        error_count: if a.error_count < a.timeout_count {
            0
        } else {
            (a.error_count - a.timeout_count) as u64
        },
        timeout_count: a.timeout_count,
    }
}

/// The figures of all queries.
pub open spec fn summaries(per_query: Seq<(Seq<char>, AccumulatorView)>) -> Seq<
    (Seq<char>, QueryFigures),
> {
    per_query.map_values(|e: (Seq<char>, AccumulatorView)| (e.0, figures_of(e.1)))
}

fn figures_from(a: &PerQueryAccumulator) -> (r: QueryFigures)
    ensures
        r == figures_of(a@),
{
    let sorted = latency::sort_latencies(&a.latencies);
    let n: usize = sorted.len();
    QueryFigures {
        min: if n == 0 {
            0
        } else {
            sorted[0] as u64
        },
        p50: latency::percentile_of(&sorted, 50),
        p95: latency::percentile_of(&sorted, 95),
        p99: latency::percentile_of(&sorted, 99),
        max: if n == 0 {
            0
        } else {
            sorted[n - 1] as u64
        },
        count: n as u64,
        error_count: if a.error_count < a.timeout_count {
            0
        } else {
            a.error_count - a.timeout_count
        },
        timeout_count: a.timeout_count,
    }
}

/// The figures of all queries, in the order in which they first came.
pub fn compute_per_query_summaries(acc: &Vec<(String, PerQueryAccumulator)>) -> (r: Vec<
    (String, QueryFigures),
>)
    ensures
        model::vmap(r@) == summaries(model::vmap(acc@)),
{
    let ghost all = summaries(model::vmap(acc@));
    let mut out: Vec<(String, QueryFigures)> = Vec::new();
    let mut i: usize = 0;
    assert(model::vmap(out@) =~= all.take(0));
    while i < acc.len()
        invariant
            i <= acc@.len(),
            all == summaries(model::vmap(acc@)),
            model::vmap(out@) == all.take(i as int),
        decreases acc@.len() - i,
    {
        broadcast use model::vmap_push, model::take_push;

        assert(model::vmap(acc@)[i as int] == acc@[i as int]@);
        let e = (acc[i].0.clone(), figures_from(&acc[i].1));
        assert(e@ == all[i as int]);
        out.push(e);
        i += 1;
    }
    assert(all.take(i as int) =~= all);
    out
}

// ---------------------------------------------------------------------------
// Results
// ---------------------------------------------------------------------------

/// Some point belongs to the phase.
pub open spec fn has_phase(timeline: Seq<PointView>, phase: Seq<char>) -> bool {
    exists|i: int| 0 <= i < timeline.len() && (#[trigger] timeline[i]).phase == phase
}

/// In that second some worker was above its limit.
pub open spec fn saturated_at(timeline: Seq<PointView>, second: int) -> bool {
    exists|i: int|
        0 <= i < timeline.len() && (#[trigger] timeline[i]).timestamp_s == second
            && timeline[i].harness_saturated
}

/// In each of so many seconds from one on some worker was above its limit.
pub open spec fn saturated_for(timeline: Seq<PointView>, second: int, n: int) -> bool {
    forall|k: int| 0 <= k < n ==> saturated_at(timeline, #[trigger] (second + k))
}

/// The harness was saturated: for ten seconds in a row some worker was above its limit.
pub open spec fn sustained_in(timeline: Seq<PointView>) -> bool {
    exists|second: int| #[trigger] saturated_for(timeline, second, SUSTAINED_SECONDS as int)
}

/// In that second the worker was above its limit.
pub open spec fn worker_saturated_at(buckets: Seq<BucketView>, id: Seq<char>, second: int) -> bool {
    exists|i: int|
        0 <= i < buckets.len() && (#[trigger] buckets[i]).timestamp_s == second
            && has_saturated(buckets[i], id)
}

/// A snapshot of that second shows the worker above its limit.
pub open spec fn has_saturated(b: BucketView, id: Seq<char>) -> bool {
    in_list(b.ingest, id) || in_list(b.query, id)
}

/// One of the snapshots shows the worker above its limit.
pub open spec fn in_list(list: Seq<SnapshotView>, id: Seq<char>) -> bool {
    exists|k: int|
        0 <= k < list.len() && (#[trigger] list[k]).worker_id == id && list[k].cpu_ppm
            > SATURATED_PPM
}

/// In each of so many seconds from one on the worker was above its limit.
pub open spec fn worker_saturated_for(
    buckets: Seq<BucketView>,
    id: Seq<char>,
    second: int,
    n: int,
) -> bool {
    forall|k: int| 0 <= k < n ==> worker_saturated_at(buckets, id, #[trigger] (second + k))
}

/// The harness was saturated: a worker was above its limit for ten seconds in a row.
pub open spec fn sustained(buckets: Seq<BucketView>) -> bool {
    exists|id: Seq<char>, second: int|
        #[trigger] worker_saturated_for(buckets, id, second, SUSTAINED_SECONDS as int)
}

/// Why the results of a timeline cannot be used.
pub open spec fn violations(timeline: Seq<PointView>) -> Seq<Seq<char>> {
    let a = validation::complain(
        Seq::empty(),
        timeline.len() < MIN_TIMELINE_SECONDS,
        "Timeline too short: "@ + text::decimal(timeline.len()) + " seconds (minimum 10)"@,
    );
    let b = validation::complain(
        a,
        !has_phase(timeline, "baseline"@),
        "Missing 'baseline' phase data"@,
    );
    validation::complain(b, !has_phase(timeline, "overlap"@), "Missing 'overlap' phase data"@)
}

/// What is to be kept in mind about a run.
pub open spec fn warnings(buckets: Seq<BucketView>) -> Seq<Seq<char>> {
    validation::complain(
        Seq::empty(),
        sustained(buckets),
        "Harness CPU saturation detected (>90%) \u{2014} results may undercount achieved throughput"@,
    )
}

/// The results of a run.
pub open spec fn results(a: AggregatorView) -> ResultsView {
    ResultsView {
        valid: violations(a.timeline).len() == 0,
        violations: violations(a.timeline),
        warnings: warnings(a.buckets),
        harness_saturated: sustained(a.buckets),
        scorecard: Scorecard::of(metrics::derived(a.timeline)),
        timed_out: a.timed_out,
        per_query: summaries(a.per_query),
    }
}

/// There is something to give results of: the aggregation is complete, or there are
/// snapshots to complete it with.
pub open spec fn can_answer(a: AggregatorView) -> bool {
    a.state == AggState::Complete || (a.had_workers && a.total_snapshots > 0)
}

fn phase_present(timeline: &Vec<AggregatedMetricPoint>, phase: &str) -> (r: bool)
    ensures
        r == has_phase(model::vmap(timeline@), phase@),
{
    let ghost all = model::vmap(timeline@);
    let mut i: usize = 0;
    while i < timeline.len()
        invariant
            i <= timeline@.len(),
            all == model::vmap(timeline@),
            forall|k: int| 0 <= k < i ==> (#[trigger] all[k]).phase != phase@,
        decreases timeline@.len() - i,
    {
        assert(all[i as int] == timeline@[i as int]@);
        if text::same(timeline[i].phase.as_str(), phase) {
            return true;
        }
        i += 1;
    }
    false
}

fn point_saturated_at(timeline: &Vec<AggregatedMetricPoint>, second: u128) -> (r: bool)
    ensures
        r == saturated_at(model::vmap(timeline@), second as int),
{
    let ghost all = model::vmap(timeline@);
    let mut i: usize = 0;
    while i < timeline.len()
        invariant
            i <= timeline@.len(),
            all == model::vmap(timeline@),
            forall|k: int|
                0 <= k < i ==> !((#[trigger] all[k]).timestamp_s == second
                    && all[k].harness_saturated),
        decreases timeline@.len() - i,
    {
        assert(all[i as int] == timeline@[i as int]@);
        if timeline[i].timestamp_s as u128 == second && timeline[i].harness_saturated {
            return true;
        }
        i += 1;
    }
    false
}

fn points_saturated_for(timeline: &Vec<AggregatedMetricPoint>, second: u64) -> (r: bool)
    ensures
        r == saturated_for(model::vmap(timeline@), second as int, SUSTAINED_SECONDS as int),
{
    let ghost all = model::vmap(timeline@);
    let mut k: u64 = 0;
    while k < SUSTAINED_SECONDS
        invariant
            k <= SUSTAINED_SECONDS,
            all == model::vmap(timeline@),
            forall|m: int| 0 <= m < k ==> saturated_at(all, #[trigger] (second + m)),
        decreases SUSTAINED_SECONDS - k,
    {
        if !point_saturated_at(timeline, second as u128 + k as u128) {
            assert(!saturated_at(all, second + k as int));
            return false;
        }
        k += 1;
    }
    true
}

/// Whether the harness was saturated, by the points of a run.
pub fn saturated(timeline: &Vec<AggregatedMetricPoint>) -> (r: bool)
    ensures
        r == sustained_in(model::vmap(timeline@)),
{
    let ghost all = model::vmap(timeline@);
    let mut i: usize = 0;
    while i < timeline.len()
        invariant
            i <= timeline@.len(),
            all == model::vmap(timeline@),
            forall|k: int|
                0 <= k < i ==> !saturated_for(
                    all,
                    (#[trigger] all[k]).timestamp_s as int,
                    SUSTAINED_SECONDS as int,
                ),
        decreases timeline@.len() - i,
    {
        assert(all[i as int] == timeline@[i as int]@);
        if points_saturated_for(timeline, timeline[i].timestamp_s) {
            return true;
        }
        i += 1;
    }
    proof {
        if sustained_in(all) {
            let second = choose|second: int|
                #[trigger] saturated_for(all, second, SUSTAINED_SECONDS as int);
            assert(saturated_at(all, second + 0));
            let k = choose|k: int|
                0 <= k < all.len() && (#[trigger] all[k]).timestamp_s == second
                    && all[k].harness_saturated;
            assert(!saturated_for(all, all[k].timestamp_s as int, SUSTAINED_SECONDS as int));
        }
    }
    false
}

fn list_has(list: &Vec<WorkerMetricSnapshot>, id: &str) -> (r: bool)
    ensures
        r == in_list(model::vmap(list@), id@),
{
    let ghost all = model::vmap(list@);
    let mut i: usize = 0;
    while i < list.len()
        invariant
            i <= list@.len(),
            all == model::vmap(list@),
            forall|k: int|
                0 <= k < i ==> !((#[trigger] all[k]).worker_id == id@ && all[k].cpu_ppm
                    > SATURATED_PPM),
        decreases list@.len() - i,
    {
        assert(all[i as int] == list@[i as int]@);
        if list[i].cpu_ppm > SATURATED_PPM && text::same(list[i].worker_id.as_str(), id) {
            return true;
        }
        i += 1;
    }
    false
}

fn saturated_worker_at(buckets: &Vec<SecondBucket>, id: &str, second: u128) -> (r: bool)
    ensures
        r == worker_saturated_at(model::vmap(buckets@), id@, second as int),
{
    let ghost all = model::vmap(buckets@);
    let mut i: usize = 0;
    while i < buckets.len()
        invariant
            i <= buckets@.len(),
            all == model::vmap(buckets@),
            forall|k: int|
                0 <= k < i ==> !((#[trigger] all[k]).timestamp_s == second && has_saturated(
                    all[k],
                    id@,
                )),
        decreases buckets@.len() - i,
    {
        assert(all[i as int] == buckets@[i as int]@);
        let b = &buckets[i];
        if b.timestamp_s as u128 == second && (list_has(&b.ingest_snapshots, id) || list_has(
            &b.query_snapshots,
            id,
        )) {
            return true;
        }
        i += 1;
    }
    false
}

fn saturated_worker_for(buckets: &Vec<SecondBucket>, id: &str, second: u64) -> (r: bool)
    ensures
        r == worker_saturated_for(
            model::vmap(buckets@),
            id@,
            second as int,
            SUSTAINED_SECONDS as int,
        ),
{
    let ghost all = model::vmap(buckets@);
    let mut k: u64 = 0;
    while k < SUSTAINED_SECONDS
        invariant
            k <= SUSTAINED_SECONDS,
            all == model::vmap(buckets@),
            forall|m: int| 0 <= m < k ==> worker_saturated_at(all, id@, #[trigger] (second + m)),
        decreases SUSTAINED_SECONDS - k,
    {
        if !saturated_worker_at(buckets, id, second as u128 + k as u128) {
            assert(!worker_saturated_at(all, id@, second + k as int));
            return false;
        }
        k += 1;
    }
    true
}

/// None of the first `n` snapshots begins ten seconds in a row.
pub open spec fn none_begins(
    buckets: Seq<BucketView>,
    list: Seq<SnapshotView>,
    second: int,
    n: int,
) -> bool {
    forall|k: int|
        0 <= k < n && (#[trigger] list[k]).cpu_ppm > SATURATED_PPM ==> !worker_saturated_for(
            buckets,
            list[k].worker_id,
            second,
            SUSTAINED_SECONDS as int,
        )
}

fn one_begins(buckets: &Vec<SecondBucket>, list: &Vec<WorkerMetricSnapshot>, second: u64) -> (r:
    bool)
    ensures
        r ==> sustained(model::vmap(buckets@)),
        !r ==> none_begins(
            model::vmap(buckets@),
            model::vmap(list@),
            second as int,
            list@.len() as int,
        ),
{
    let ghost all = model::vmap(list@);
    let mut i: usize = 0;
    while i < list.len()
        invariant
            i <= list@.len(),
            all == model::vmap(list@),
            none_begins(model::vmap(buckets@), all, second as int, i as int),
        decreases list@.len() - i,
    {
        assert(all[i as int] == list@[i as int]@);
        if list[i].cpu_ppm > SATURATED_PPM && saturated_worker_for(
            buckets,
            list[i].worker_id.as_str(),
            second,
        ) {
            return true;
        }
        i += 1;
    }
    false
}

/// Whether the harness was saturated, by the snapshots of its workers.
pub fn harness_was_saturated(buckets: &Vec<SecondBucket>) -> (r: bool)
    ensures
        r == sustained(model::vmap(buckets@)),
{
    let ghost all = model::vmap(buckets@);
    let mut i: usize = 0;
    while i < buckets.len()
        invariant
            i <= buckets@.len(),
            all == model::vmap(buckets@),
            forall|k: int|
                0 <= k < i ==> none_begins(
                    all,
                    (#[trigger] all[k]).ingest,
                    all[k].timestamp_s as int,
                    all[k].ingest.len() as int,
                ) && none_begins(
                    all,
                    all[k].query,
                    all[k].timestamp_s as int,
                    all[k].query.len() as int,
                ),
        decreases buckets@.len() - i,
    {
        assert(all[i as int] == buckets@[i as int]@);
        let b = &buckets[i];
        if one_begins(buckets, &b.ingest_snapshots, b.timestamp_s) || one_begins(
            buckets,
            &b.query_snapshots,
            b.timestamp_s,
        ) {
            return true;
        }
        i += 1;
    }
    proof {
        if sustained(all) {
            let (id, second) = choose|id: Seq<char>, second: int|
                #[trigger] worker_saturated_for(all, id, second, SUSTAINED_SECONDS as int);
            assert(worker_saturated_at(all, id, second + 0));
            let k = choose|k: int|
                0 <= k < all.len() && (#[trigger] all[k]).timestamp_s == second && has_saturated(
                    all[k],
                    id,
                );
            assert(none_begins(all, all[k].ingest, second, all[k].ingest.len() as int));
            assert(none_begins(all, all[k].query, second, all[k].query.len() as int));
            if in_list(all[k].ingest, id) {
                let m = choose|m: int|
                    0 <= m < all[k].ingest.len() && (#[trigger] all[k].ingest[m]).worker_id == id
                        && all[k].ingest[m].cpu_ppm > SATURATED_PPM;
                assert(all[k].ingest[m].cpu_ppm > SATURATED_PPM);
            } else {
                let m = choose|m: int|
                    0 <= m < all[k].query.len() && (#[trigger] all[k].query[m]).worker_id == id
                        && all[k].query[m].cpu_ppm > SATURATED_PPM;
                assert(all[k].query[m].cpu_ppm > SATURATED_PPM);
            }
        }
    }
    false
}

/// What is written when an aggregation is complete, in order of time and of name.
pub struct PersistedResults {
    pub metrics: Vec<AggregatedMetricPoint>,
    pub timed_out_queries: Vec<TimedOutQueryRecord>,
    pub query_error_samples: Vec<QueryErrorRecord>,
    pub per_query_latency: Vec<(String, QueryFigures)>,
    pub per_query_timeseries: Vec<(String, QuerySeries)>,
}

pub struct PersistedView {
    pub metrics: Seq<PointView>,
    pub timed_out: Seq<TimeoutView>,
    pub errors: Seq<ErrorView>,
    pub per_query: Seq<(Seq<char>, QueryFigures)>,
    pub series: Seq<(Seq<char>, Seq<QueryPointView>)>,
}

impl View for PersistedResults {
    type V = PersistedView;

    open spec fn view(&self) -> PersistedView {
        PersistedView {
            metrics: model::vmap(self.metrics@),
            timed_out: model::vmap(self.timed_out_queries@),
            errors: model::vmap(self.query_error_samples@),
            per_query: model::vmap(self.per_query_latency@),
            series: model::vmap(self.per_query_timeseries@),
        }
    }
}

/// What is written of an aggregation.
pub open spec fn persisted(a: AggregatorView) -> PersistedView {
    PersistedView {
        metrics: order::by_time::<AggregatedMetricPoint>(
            a.timeline,
            a.timeline.len() as int,
        ),
        timed_out: a.timed_out,
        errors: a.errors,
        per_query: order::by_name(summaries(a.per_query), a.per_query.len() as int),
        series: a.series.map_values(
            |e: (Seq<char>, Seq<QueryPointView>)|
                (
                    e.0,
                    order::by_time::<crate::metrics::PerQueryTimeSeriesPoint>(
                        e.1,
                        e.1.len() as int,
                    ),
                ),
        ),
    }
}

impl MetricsAggregatorService {
    /// How far the aggregation is.
    pub fn get_aggregation_status(&self) -> (r: AggregationStatus)
        ensures
            r.state@ == (match self.state {
                AggState::Collecting => "collecting"@,
                AggState::Complete => "complete"@,
            }),
            r.snapshots_received == self.total_snapshots,
            r.seconds_aggregated == self@.timeline.len(),
            r.connected_workers == self.connected_workers,
    {
        AggregationStatus {
            state: match self.state {
                AggState::Collecting => "collecting",
                AggState::Complete => "complete",
            },
            snapshots_received: self.total_snapshots,
            seconds_aggregated: self.timeline.len(),
            connected_workers: self.connected_workers,
        }
    }

    /// The point that was added last, where there is one.
    pub fn get_latest_snapshot(&self) -> (r: Option<&AggregatedMetricPoint>)
        ensures
            r is Some <==> self@.timeline.len() > 0,
            r is Some ==> r->0@ == self@.timeline.last(),
    {
        let n: usize = self.timeline.len();
        if n > 0 {
            Some(&self.timeline[n - 1])
        } else {
            None
        }
    }

    /// The results of the run. Where workers still report, what they have reported so far
    /// completes the aggregation; where none has, there are no results yet.
    pub fn get_results(&mut self) -> (r: Result<ResultsReport, String>)
        requires
            old(self).timeline@.len() <= MAX_POINTS,
        ensures
            match r {
                Ok(report) => can_answer(old(self)@) && report@ == results(old(self)@)
                    && final(self)@ == (AggregatorView {
                    state: AggState::Complete,
                    ..old(self)@
                }),
                Err(e) => !can_answer(old(self)@) && final(self)@ == old(self)@ && e@
                    == "Aggregation not yet complete; call GetAggregationStatus to check state"@,
            },
    {
        if self.state != AggState::Complete {
            if self.had_workers && self.total_snapshots > 0 {
                let _ = self.complete_aggregation();
            } else {
                return Err(
                    text::owned(
                        "Aggregation not yet complete; call GetAggregationStatus to check state",
                    ),
                );
            }
        }
        let ghost tv = self@.timeline;
        assert(tv.len() == self.timeline@.len());
        assert(old(self)@.timeline.len() == old(self).timeline@.len());
        let series = TimeSeries { resolution_s: 1, points: model::duplicate_list(&self.timeline) };
        let derived = metrics::compute_derived(&series);
        let scorecard = Scorecard::from_derived(&derived);
        let harness_saturated = harness_was_saturated(&self.buckets);
        let mut list: Vec<String> = Vec::new();
        assert(text::views(list@) =~= Seq::empty());
        if self.timeline.len() < MIN_TIMELINE_SECONDS {
            let n = text::decimal_usize(self.timeline.len());
            let m = text::join3("Timeline too short: ", n.as_str(), " seconds (minimum 10)");
            proof {
                model::views_push(list@, m);
            }
            list.push(m);
        }
        if !phase_present(&self.timeline, "baseline") {
            let m = text::owned("Missing 'baseline' phase data");
            proof {
                model::views_push(list@, m);
            }
            list.push(m);
        }
        if !phase_present(&self.timeline, "overlap") {
            let m = text::owned("Missing 'overlap' phase data");
            proof {
                model::views_push(list@, m);
            }
            list.push(m);
        }
        let mut notes: Vec<String> = Vec::new();
        assert(text::views(notes@) =~= Seq::empty());
        if harness_saturated {
            let m = text::owned(
                "Harness CPU saturation detected (>90%) \u{2014} results may undercount achieved throughput",
            );
            proof {
                model::views_push(notes@, m);
            }
            notes.push(m);
        }
        assert(text::views(list@) == violations(tv));
        assert(text::views(list@).len() == list@.len());
        Ok(
            ResultsReport {
                valid: list.len() == 0,
                validity_violations: list,
                warnings: notes,
                harness_saturated,
                scorecard,
                timed_out_queries: model::duplicate_list(&self.timed_out_queries),
                per_query_latency: compute_per_query_summaries(&self.per_query_latency),
            },
        )
    }

    /// What is written of the aggregation.
    pub fn persist_results(&self) -> (r: PersistedResults)
        ensures
            r@ == persisted(self@),
    {
        let summary = compute_per_query_summaries(&self.per_query_latency);
        assert(model::vmap(summary@).len() == summary@.len());
        let ghost want = persisted(self@).series;
        let mut series: Vec<(String, QuerySeries)> = Vec::new();
        let mut i: usize = 0;
        assert(model::vmap(series@) =~= want.take(0));
        while i < self.per_query_timeseries.len()
            invariant
                i <= self.per_query_timeseries@.len(),
                want == persisted(self@).series,
                model::vmap(series@) == want.take(i as int),
            decreases self.per_query_timeseries@.len() - i,
        {
            broadcast use model::vmap_push, model::take_push;

            let e = &self.per_query_timeseries[i];
            assert(self@.series[i as int] == e@);
            let points = order::sort_by_time(&e.1.points);
            let sorted = (e.0.clone(), QuerySeries { points });
            assert(sorted@ == want[i as int]);
            series.push(sorted);
            i += 1;
        }
        assert(want.take(i as int) =~= want);
        PersistedResults {
            metrics: order::sort_by_time(&self.timeline),
            timed_out_queries: model::duplicate_list(&self.timed_out_queries),
            query_error_samples: model::duplicate_list(&self.query_error_records),
            per_query_latency: order::sort_by_name(&summary),
            per_query_timeseries: series,
        }
    }
}

} // verus!
