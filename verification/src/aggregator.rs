//! The aggregator: it gathers the workers' snapshots second by second, and gives the
//! results when the run is over.
use vstd::prelude::*;
use vstd::string::*;
use crate::bucket;
use crate::bucket::{BucketView, SecondBucket};
use crate::latency;
use crate::latency::TDigestCentroid;
use crate::metrics::{AggregatedMetricPoint, PerQueryTimeSeriesPoint, PointView, QueryPointView};
use crate::model;
use crate::model::Duplicate;
use crate::rates;
use crate::snapshot::{
    ErrorView, QueryErrorRecord, QueryTypeLatency, SnapshotView, TimedOutQueryRecord, TimeoutView,
    TypeView, WorkerMetricSnapshot,
};
use crate::text;

verus! {

/// How many seconds a snapshot may lie behind the latest one and still count.
pub const GRACE_SECONDS: u64 = 3;

/// How many records of failed queries are kept.
pub const MAX_QUERY_ERROR_RECORDS: usize = 1000;

/// How many seconds a usable timeline has at least.
pub const MIN_TIMELINE_SECONDS: usize = 10;

/// One stream whose lag is watched.
pub struct AggregatorStreamConfig {
    pub name: String,
    pub kafka_topic: String,
    pub consumer_group: String,
}

/// What the aggregator is told.
pub struct AggregatorConfig {
    /// Empty where nothing is ingested.
    pub kafka_bootstrap_servers: String,
    pub streams: Vec<AggregatorStreamConfig>,
    pub results_path: String,
}

/// What is known of one query over the whole run.
pub struct PerQueryAccumulator {
    pub latencies: Vec<u64>,
    pub error_count: u64,
    pub timeout_count: u64,
}

pub struct AccumulatorView {
    pub latencies: Seq<u64>,
    pub error_count: u64,
    pub timeout_count: u64,
}

impl View for PerQueryAccumulator {
    type V = AccumulatorView;

    open spec fn view(&self) -> AccumulatorView {
        AccumulatorView {
            latencies: self.latencies@,
            error_count: self.error_count,
            timeout_count: self.timeout_count,
        }
    }
}

impl AccumulatorView {
    /// Nothing is known.
    pub open spec fn blank() -> AccumulatorView {
        AccumulatorView { latencies: Seq::empty(), error_count: 0, timeout_count: 0 }
    }
}

/// Whether snapshots are still taken.
#[derive(Clone, Copy, PartialEq, Eq, Structural, Debug)]
pub enum AggState {
    Collecting,
    Complete,
}

/// All that the aggregator knows of a run.
pub struct MetricsAggregatorService {
    pub buckets: Vec<SecondBucket>,
    /// One point for each second of which there are snapshots.
    pub timeline: Vec<AggregatedMetricPoint>,
    pub kafka_consumer_lag: u64,
    pub per_stream_lag: Vec<(String, u64)>,
    pub connected_workers: u32,
    pub had_workers: bool,
    pub total_snapshots: u64,
    pub state: AggState,
    pub timed_out_queries: Vec<TimedOutQueryRecord>,
    pub query_error_records: Vec<QueryErrorRecord>,
    pub per_query_latency: Vec<(String, PerQueryAccumulator)>,
    pub per_query_timeseries: Vec<(String, QuerySeries)>,
    pub results_path: String,
}

/// The points of one query.
pub struct QuerySeries {
    pub points: Vec<PerQueryTimeSeriesPoint>,
}

impl View for QuerySeries {
    type V = Seq<QueryPointView>;

    open spec fn view(&self) -> Seq<QueryPointView> {
        model::vmap(self.points@)
    }
}

pub struct AggregatorView {
    pub buckets: Seq<BucketView>,
    pub timeline: Seq<PointView>,
    pub kafka_consumer_lag: u64,
    pub per_stream_lag: Seq<(Seq<char>, u64)>,
    pub connected_workers: u32,
    pub had_workers: bool,
    pub total_snapshots: u64,
    pub state: AggState,
    pub timed_out: Seq<TimeoutView>,
    pub errors: Seq<ErrorView>,
    pub per_query: Seq<(Seq<char>, AccumulatorView)>,
    pub series: Seq<(Seq<char>, Seq<QueryPointView>)>,
    pub results_path: Seq<char>,
}

impl View for MetricsAggregatorService {
    type V = AggregatorView;

    open spec fn view(&self) -> AggregatorView {
        AggregatorView {
            buckets: model::vmap(self.buckets@),
            timeline: model::vmap(self.timeline@),
            kafka_consumer_lag: self.kafka_consumer_lag,
            per_stream_lag: model::vmap(self.per_stream_lag@),
            connected_workers: self.connected_workers,
            had_workers: self.had_workers,
            total_snapshots: self.total_snapshots,
            state: self.state,
            timed_out: model::vmap(self.timed_out_queries@),
            errors: model::vmap(self.query_error_records@),
            per_query: model::vmap(self.per_query_latency@),
            series: model::vmap(self.per_query_timeseries@),
            results_path: self.results_path@,
        }
    }
}

// ---------------------------------------------------------------------------
// What one snapshot changes
// ---------------------------------------------------------------------------

/// A sum of two counts, or the greatest count where it is greater.
pub open spec fn count_sum(a: u64, b: u64) -> u64 {
    rates::at_most_u64(a + b) as u64
}

/// The latencies that the first `n` centroids stand for, each as often as it counts, and
/// at least once.
pub open spec fn expanded(c: Seq<TDigestCentroid>, n: int) -> Seq<u64>
    decreases n,
{
    if n <= 0 {
        Seq::empty()
    } else {
        expanded(c, n - 1) + repeated(c[n - 1])
    }
}

/// The latencies that one centroid stands for.
pub open spec fn repeated(c: TDigestCentroid) -> Seq<u64> {
    Seq::new(
        if c.count < 1 {
            1
        } else {
            c.count as nat
        },
        |i: int| c.mean_ns,
    )
}

/// What is known of a query.
pub open spec fn known(
    per_query: Seq<(Seq<char>, AccumulatorView)>,
    name: Seq<char>,
) -> AccumulatorView {
    match model::find(per_query, name) {
        Some(a) => a,
        None => AccumulatorView::blank(),
    }
}

/// What is known of the queries after what a snapshot says of one.
pub open spec fn after_type(
    per_query: Seq<(Seq<char>, AccumulatorView)>,
    t: TypeView,
) -> Seq<(Seq<char>, AccumulatorView)> {
    match t.latency {
        None => per_query,
        Some(d) => {
            let a = known(per_query, t.query_name);
            model::bind(
                per_query,
                t.query_name,
                AccumulatorView {
                    latencies: a.latencies + expanded(d.centroids, d.centroids.len() as int),
                    error_count: count_sum(a.error_count, t.errors),
                    timeout_count: a.timeout_count,
                },
            )
        },
    }
}

/// What is known of the queries after what a snapshot says of the first `n`.
pub open spec fn after_types(
    per_query: Seq<(Seq<char>, AccumulatorView)>,
    t: Seq<TypeView>,
    n: int,
) -> Seq<(Seq<char>, AccumulatorView)>
    decreases n,
{
    if n <= 0 {
        per_query
    } else {
        after_type(after_types(per_query, t, n - 1), t[n - 1])
    }
}

/// What is known of the queries after the first `n` of them ran out of time.
pub open spec fn after_timeouts(
    per_query: Seq<(Seq<char>, AccumulatorView)>,
    t: Seq<TimeoutView>,
    n: int,
) -> Seq<(Seq<char>, AccumulatorView)>
    decreases n,
{
    if n <= 0 {
        per_query
    } else {
        let before = after_timeouts(per_query, t, n - 1);
        let a = known(before, t[n - 1].query_name);
        model::bind(
            before,
            t[n - 1].query_name,
            AccumulatorView { timeout_count: count_sum(a.timeout_count, 1), ..a },
        )
    }
}

/// A second of which there are no snapshots yet.
pub open spec fn empty_bucket(timestamp_s: u64) -> BucketView {
    BucketView { timestamp_s, ingest: Seq::empty(), query: Seq::empty() }
}

/// The bucket of a second, from the `i`-th on.
pub open spec fn bucket_at(buckets: Seq<BucketView>, timestamp_s: u64, i: int) -> BucketView
    decreases buckets.len() - i,
{
    if i >= buckets.len() {
        empty_bucket(timestamp_s)
    } else if buckets[i].timestamp_s == timestamp_s {
        buckets[i]
    } else {
        bucket_at(buckets, timestamp_s, i + 1)
    }
}

/// A bucket with one more snapshot, in its place by the worker's mode. A snapshot of
/// another mode is not kept.
pub open spec fn with_snapshot(b: BucketView, s: SnapshotView) -> BucketView {
    if s.worker_mode == "ingest"@ {
        BucketView { ingest: b.ingest.push(s), ..b }
    } else if s.worker_mode == "query"@ || s.worker_mode == "query-session"@ {
        BucketView { query: b.query.push(s), ..b }
    } else {
        b
    }
}

/// The buckets with that of one second replaced, or added, from the `i`-th on.
pub open spec fn replace_bucket(buckets: Seq<BucketView>, b: BucketView, i: int) -> Seq<BucketView>
    decreases buckets.len() - i,
{
    if i >= buckets.len() {
        buckets.push(b)
    } else if buckets[i].timestamp_s == b.timestamp_s {
        buckets.update(i, b)
    } else {
        replace_bucket(buckets, b, i + 1)
    }
}

/// The timeline with the point of one second replaced, or added, from the `i`-th on.
pub open spec fn replace_point(timeline: Seq<PointView>, p: PointView, i: int) -> Seq<PointView>
    decreases timeline.len() - i,
{
    if i >= timeline.len() {
        timeline.push(p)
    } else if timeline[i].timestamp_s == p.timestamp_s {
        timeline.update(i, p)
    } else {
        replace_point(timeline, p, i + 1)
    }
}

/// The points of a query with that of one second replaced, or added, from the `i`-th on.
pub open spec fn replace_query_point(
    points: Seq<QueryPointView>,
    p: QueryPointView,
    i: int,
) -> Seq<QueryPointView>
    decreases points.len() - i,
{
    if i >= points.len() {
        points.push(p)
    } else if points[i].timestamp_s == p.timestamp_s {
        points.update(i, p)
    } else {
        replace_query_point(points, p, i + 1)
    }
}

/// The points of the queries after the first `n` new ones.
pub open spec fn after_points(
    series: Seq<(Seq<char>, Seq<QueryPointView>)>,
    new: Seq<(Seq<char>, QueryPointView)>,
    n: int,
) -> Seq<(Seq<char>, Seq<QueryPointView>)>
    decreases n,
{
    if n <= 0 {
        series
    } else {
        let before = after_points(series, new, n - 1);
        let points = match model::find(before, new[n - 1].0) {
            Some(p) => p,
            None => Seq::empty(),
        };
        model::bind(before, new[n - 1].0, replace_query_point(points, new[n - 1].1, 0))
    }
}

/// The records of failed queries, with more behind as far as there is room.
pub open spec fn kept_errors(kept: Seq<ErrorView>, more: Seq<ErrorView>) -> Seq<ErrorView> {
    if kept.len() >= MAX_QUERY_ERROR_RECORDS {
        kept
    } else if more.len() <= MAX_QUERY_ERROR_RECORDS - kept.len() {
        kept + more
    } else {
        kept + more.take(MAX_QUERY_ERROR_RECORDS - kept.len())
    }
}

/// A snapshot of this second comes too late: one came already of a second that is more than
/// the grace period later.
pub open spec fn late(buckets: Seq<BucketView>, second: u64) -> bool {
    exists|i: int|
        0 <= i < buckets.len() && (#[trigger] buckets[i]).timestamp_s > second + GRACE_SECONDS
}

/// The second of a snapshot.
pub open spec fn second_of(s: SnapshotView) -> u64 {
    (s.timestamp_ns / 1_000_000_000) as u64
}

/// What the aggregator knows after one more snapshot. Of one that comes too late it counts
/// only that it came.
pub open spec fn reported(a: AggregatorView, s: SnapshotView) -> AggregatorView {
    let b = with_snapshot(bucket_at(a.buckets, second_of(s), 0), s);
    let points = bucket::query_points(b);
    if late(a.buckets, second_of(s)) {
        AggregatorView { total_snapshots: count_sum(a.total_snapshots, 1), ..a }
    } else {
        AggregatorView {
            total_snapshots: count_sum(a.total_snapshots, 1),
            per_query: after_timeouts(
                after_types(a.per_query, s.by_type, s.by_type.len() as int),
                s.timed_out,
                s.timed_out.len() as int,
            ),
            buckets: replace_bucket(a.buckets, b, 0),
            timed_out: a.timed_out + s.timed_out,
            errors: kept_errors(a.errors, s.errors),
            timeline: replace_point(a.timeline, bucket::aggregate(b, a.kafka_consumer_lag), 0),
            series: after_points(a.series, points, points.len() as int),
            ..a
        }
    }
}

fn count_up(a: u64, b: u64) -> (r: u64)
    ensures
        r == count_sum(a, b),
{
    if a > u64::MAX - b {
        u64::MAX
    } else {
        a + b
    }
}

fn entry_of(per_query: &mut Vec<(String, PerQueryAccumulator)>, name: &str) -> (r: usize)
    ensures
        r < final(per_query)@.len(),
        model::is_first(model::vmap(final(per_query)@), name@, r as int),
        final(per_query)@[r as int].1@ == known(model::vmap(old(per_query)@), name@),
        forall|v: AccumulatorView|
            model::bind(model::vmap(old(per_query)@), name@, v) == #[trigger] model::vmap(
                final(per_query)@,
            ).update(r as int, (name@, v)),
{
    let ghost before = model::vmap(per_query@);
    match model::position(per_query, name) {
        Some(i) => {
            proof {
                assert(before[i as int] == per_query@[i as int]@);
                assert forall|v: AccumulatorView|
                    model::bind(before, name@, v) == #[trigger] before.update(
                        i as int,
                        (name@, v),
                    ) by {
                    model::bind_first(before, name@, i as int, v);
                }
                model::bind_first(before, name@, i as int, AccumulatorView::blank());
            }
            i
        },
        None => {
            let i: usize = per_query.len();
            let blank = PerQueryAccumulator {
                latencies: Vec::new(),
                error_count: 0,
                timeout_count: 0,
            };
            assert(blank@.latencies =~= Seq::empty());
            per_query.push((text::owned(name), blank));
            proof {
                let now = model::vmap(per_query@);
                assert(now =~= before.push((name@, AccumulatorView::blank())));
                model::bind_fresh(before, name@, AccumulatorView::blank());
                assert forall|v: AccumulatorView|
                    model::bind(before, name@, v) == #[trigger] now.update(
                        i as int,
                        (name@, v),
                    ) by {
                    model::bind_fresh(before, name@, v);
                    assert(before.push((name@, v)) =~= now.update(i as int, (name@, v)));
                }
                assert forall|k: int| 0 <= k < i implies (#[trigger] now[k]).0 != name@ by {
                    assert(now[k] == before[k]);
                }
            }
            i
        },
    }
}

fn expand(latencies: &mut Vec<u64>, centroids: &Vec<TDigestCentroid>)
    ensures
        final(latencies)@ == old(latencies)@ + expanded(
            centroids@,
            centroids@.len() as int,
        ),
{
    let ghost start = latencies@;
    let mut i: usize = 0;
    assert(start + expanded(centroids@, 0) =~= start);
    while i < centroids.len()
        invariant
            i <= centroids@.len(),
            start == old(latencies)@,
            latencies@ == start + expanded(centroids@, i as int),
        decreases centroids@.len() - i,
    {
        let c = centroids[i];
        let times: u64 = if c.count < 1 {
            1
        } else {
            c.count
        };
        let ghost before = latencies@;
        let ghost part = repeated(c);
        let mut k: u64 = 0;
        assert(before + part.take(0) =~= before);
        while k < times
            invariant
                k <= times,
                part == repeated(c),
                part.len() == times,
                latencies@ == before + part.take(k as int),
            decreases times - k,
        {
            latencies.push(c.mean_ns);
            assert(latencies@ =~= before + part.take(k + 1));
            k += 1;
        }
        proof {
            assert(part.take(k as int) =~= part);
            assert(start + (expanded(centroids@, i as int) + part) =~= latencies@);
        }
        i += 1;
    }
}

fn note_types(per_query: &mut Vec<(String, PerQueryAccumulator)>, types: &Vec<QueryTypeLatency>)
    ensures
        model::vmap(final(per_query)@) == after_types(
            model::vmap(old(per_query)@),
            model::vmap(types@),
            types@.len() as int,
        ),
{
    let ghost start = model::vmap(per_query@);
    let ghost tv = model::vmap(types@);
    let mut i: usize = 0;
    while i < types.len()
        invariant
            i <= types@.len(),
            start == model::vmap(old(per_query)@),
            tv == model::vmap(types@),
            model::vmap(per_query@) == after_types(start, tv, i as int),
        decreases types@.len() - i,
    {
        assert(tv[i as int] == types@[i as int]@);
        match &types[i].latency {
            None => {},
            Some(d) => {
                let ghost before = model::vmap(per_query@);
                let at: usize = entry_of(per_query, types[i].query_name.as_str());
                let ghost mid = per_query@;
                let ghost a = per_query@[at as int].1@;
                expand(&mut per_query[at].1.latencies, &d.centroids);
                let errors: u64 = count_up(per_query[at].1.error_count, types[i].errors);
                per_query[at].1.error_count = errors;
                proof {
                    let name = tv[i as int].query_name;
                    let v = AccumulatorView {
                        latencies: a.latencies + expanded(
                            d.centroids@,
                            d.centroids@.len() as int,
                        ),
                        error_count: count_sum(a.error_count, tv[i as int].errors),
                        timeout_count: a.timeout_count,
                    };
                    assert(model::bind(before, name, v) == model::vmap(mid).update(
                        at as int,
                        (name, v),
                    ));
                    assert(model::vmap(mid)[at as int] == mid[at as int]@);
                    assert(model::vmap(per_query@) =~= model::vmap(mid).update(
                        at as int,
                        (name, v),
                    ));
                }
            },
        }
        i += 1;
    }
}

fn note_timeouts(
    per_query: &mut Vec<(String, PerQueryAccumulator)>,
    timeouts: &Vec<TimedOutQueryRecord>,
)
    ensures
        model::vmap(final(per_query)@) == after_timeouts(
            model::vmap(old(per_query)@),
            model::vmap(timeouts@),
            timeouts@.len() as int,
        ),
{
    let ghost start = model::vmap(per_query@);
    let ghost tv = model::vmap(timeouts@);
    let mut i: usize = 0;
    while i < timeouts.len()
        invariant
            i <= timeouts@.len(),
            start == model::vmap(old(per_query)@),
            tv == model::vmap(timeouts@),
            model::vmap(per_query@) == after_timeouts(start, tv, i as int),
        decreases timeouts@.len() - i,
    {
        assert(tv[i as int] == timeouts@[i as int]@);
        let ghost before = model::vmap(per_query@);
        let at: usize = entry_of(per_query, timeouts[i].query_name.as_str());
        let ghost mid = per_query@;
        let ghost a = per_query@[at as int].1@;
        let count: u64 = count_up(per_query[at].1.timeout_count, 1);
        per_query[at].1.timeout_count = count;
        proof {
            let name = tv[i as int].query_name;
            let v = AccumulatorView { timeout_count: count_sum(a.timeout_count, 1), ..a };
            assert(model::bind(before, name, v) == model::vmap(mid).update(at as int, (name, v)));
            assert(model::vmap(mid)[at as int] == mid[at as int]@);
            assert(model::vmap(per_query@) =~= model::vmap(mid).update(at as int, (name, v)));
        }
        i += 1;
    }
}

pub(crate) proof fn bucket_at_time(buckets: Seq<BucketView>, second: u64, i: int)
    ensures
        bucket_at(buckets, second, i).timestamp_s == second,
    decreases buckets.len() - i,
{
    if i < buckets.len() {
        bucket_at_time(buckets, second, i + 1);
    }
}

/// Puts a snapshot into the bucket of its second and gives the place of that bucket.
fn comes_late(buckets: &Vec<SecondBucket>, second: u64) -> (r: bool)
    ensures
        r == late(model::vmap(buckets@), second),
{
    let ghost all = model::vmap(buckets@);
    let mut i: usize = 0;
    while i < buckets.len()
        invariant
            i <= buckets@.len(),
            all == model::vmap(buckets@),
            forall|j: int|
                0 <= j < i ==> (#[trigger] all[j]).timestamp_s <= second + GRACE_SECONDS,
        decreases buckets@.len() - i,
    {
        assert(all[i as int] == buckets@[i as int]@);
        if buckets[i].timestamp_s as u128 > second as u128 + GRACE_SECONDS as u128 {
            return true;
        }
        i += 1;
    }
    false
}

fn put_snapshot(buckets: &mut Vec<SecondBucket>, second: u64, snapshot: WorkerMetricSnapshot) -> (r:
    usize)
    ensures
        r < final(buckets)@.len(),
        final(buckets)@[r as int]@ == with_snapshot(
            bucket_at(model::vmap(old(buckets)@), second, 0),
            snapshot@,
        ),
        model::vmap(final(buckets)@) == replace_bucket(
            model::vmap(old(buckets)@),
            with_snapshot(bucket_at(model::vmap(old(buckets)@), second, 0), snapshot@),
            0,
        ),
{
    broadcast use model::vmap_push;

    let ghost all = model::vmap(buckets@);
    let ghost b = with_snapshot(bucket_at(all, second, 0), snapshot@);
    proof {
        bucket_at_time(all, second, 0);
    }
    let mut i: usize = 0;
    while i < buckets.len() && buckets[i].timestamp_s != second
        invariant
            i <= buckets@.len(),
            *buckets == *old(buckets),
            all == model::vmap(buckets@),
            b == with_snapshot(bucket_at(all, second, 0), snapshot@),
            bucket_at(all, second, 0) == bucket_at(all, second, i as int),
            b.timestamp_s == second,
            replace_bucket(all, b, 0) == replace_bucket(all, b, i as int),
        decreases buckets@.len() - i,
    {
        assert(all[i as int] == buckets@[i as int]@);
        i += 1;
    }
    let mode = snapshot.worker_mode.as_str();
    let is_ingest = text::same(mode, "ingest");
    let is_query = text::same(mode, "query") || text::same(mode, "query-session");
    if i < buckets.len() {
        assert(all[i as int] == buckets@[i as int]@);
        if is_ingest {
            buckets[i].ingest_snapshots.push(snapshot);
        } else if is_query {
            buckets[i].query_snapshots.push(snapshot);
        }
        assert(model::vmap(buckets@) =~= all.update(i as int, b));
    } else {
        let mut fresh = SecondBucket {
            timestamp_s: second,
            ingest_snapshots: Vec::new(),
            query_snapshots: Vec::new(),
        };
        assert(fresh@.ingest =~= Seq::empty());
        assert(fresh@.query =~= Seq::empty());
        if is_ingest {
            fresh.ingest_snapshots.push(snapshot);
        } else if is_query {
            fresh.query_snapshots.push(snapshot);
        }
        buckets.push(fresh);
    }
    i
}

fn put_point(timeline: &mut Vec<AggregatedMetricPoint>, p: AggregatedMetricPoint)
    ensures
        model::vmap(final(timeline)@) == replace_point(model::vmap(old(timeline)@), p@, 0),
{
    broadcast use model::vmap_push;

    let ghost all = model::vmap(timeline@);
    let mut i: usize = 0;
    while i < timeline.len() && timeline[i].timestamp_s != p.timestamp_s
        invariant
            i <= timeline@.len(),
            *timeline == *old(timeline),
            all == model::vmap(timeline@),
            replace_point(all, p@, 0) == replace_point(all, p@, i as int),
        decreases timeline@.len() - i,
    {
        assert(all[i as int] == timeline@[i as int]@);
        i += 1;
    }
    if i < timeline.len() {
        assert(all[i as int] == timeline@[i as int]@);
        timeline.set(i, p);
        assert(model::vmap(timeline@) =~= all.update(i as int, p@));
    } else {
        timeline.push(p);
    }
}

fn put_query_point(points: &mut Vec<PerQueryTimeSeriesPoint>, p: PerQueryTimeSeriesPoint)
    ensures
        model::vmap(final(points)@) == replace_query_point(model::vmap(old(points)@), p@, 0),
{
    broadcast use model::vmap_push;

    let ghost all = model::vmap(points@);
    let mut i: usize = 0;
    while i < points.len() && points[i].timestamp_s != p.timestamp_s
        invariant
            i <= points@.len(),
            *points == *old(points),
            all == model::vmap(points@),
            replace_query_point(all, p@, 0) == replace_query_point(all, p@, i as int),
        decreases points@.len() - i,
    {
        assert(all[i as int] == points@[i as int]@);
        i += 1;
    }
    if i < points.len() {
        assert(all[i as int] == points@[i as int]@);
        points.set(i, p);
        assert(model::vmap(points@) =~= all.update(i as int, p@));
    } else {
        points.push(p);
    }
}

fn put_query_points(
    series: &mut Vec<(String, QuerySeries)>,
    new: &Vec<(String, PerQueryTimeSeriesPoint)>,
)
    ensures
        model::vmap(final(series)@) == after_points(
            model::vmap(old(series)@),
            model::vmap(new@),
            new@.len() as int,
        ),
{
    let ghost start = model::vmap(series@);
    let ghost nv = model::vmap(new@);
    let mut i: usize = 0;
    while i < new.len()
        invariant
            i <= new@.len(),
            start == model::vmap(old(series)@),
            nv == model::vmap(new@),
            model::vmap(series@) == after_points(start, nv, i as int),
        decreases new@.len() - i,
    {
        broadcast use model::vmap_push;

        assert(nv[i as int] == new@[i as int]@);
        let ghost before = model::vmap(series@);
        let ghost name = nv[i as int].0;
        let point = new[i].1.duplicate();
        match model::position(series, new[i].0.as_str()) {
            Some(at) => {
                let ghost mid = series@;
                put_query_point(&mut series[at].1.points, point);
                proof {
                    assert(before[at as int] == mid[at as int]@);
                    let v = replace_query_point(mid[at as int].1@, point@, 0);
                    model::bind_first(before, name, at as int, v);
                    assert(model::vmap(series@) =~= before.update(at as int, (name, v)));
                }
            },
            None => {
                let mut points: Vec<PerQueryTimeSeriesPoint> = Vec::new();
                points.push(point);
                let fresh = QuerySeries { points };
                proof {
                    model::bind_fresh(before, name, fresh@);
                    assert(fresh@ =~= replace_query_point(Seq::empty(), point@, 0));
                }
                series.push((new[i].0.clone(), fresh));
                assert(model::vmap(series@) =~= before.push((name, fresh@)));
            },
        }
        i += 1;
    }
}

fn keep_errors(kept: &mut Vec<QueryErrorRecord>, more: &Vec<QueryErrorRecord>)
    ensures
        model::vmap(final(kept)@) == kept_errors(model::vmap(old(kept)@), model::vmap(more@)),
{
    let ghost start = model::vmap(kept@);
    let ghost mv = model::vmap(more@);
    let mut i: usize = 0;
    assert(start + mv.take(0) =~= start);
    while i < more.len() && kept.len() < MAX_QUERY_ERROR_RECORDS
        invariant
            i <= more@.len(),
            start == model::vmap(old(kept)@),
            mv == model::vmap(more@),
            model::vmap(kept@) == start + mv.take(i as int),
            kept@.len() == start.len() + i,
            i > 0 ==> start.len() + i <= MAX_QUERY_ERROR_RECORDS,
        decreases more@.len() - i,
    {
        broadcast use model::vmap_push, model::take_push;

        assert(mv[i as int] == more@[i as int]@);
        kept.push(more[i].duplicate());
        assert(model::vmap(kept@) =~= start + mv.take(i + 1));
        i += 1;
    }
    proof {
        if i == more@.len() {
            assert(mv.take(i as int) =~= mv);
        }
        assert(model::vmap(kept@) =~= kept_errors(start, mv));
    }
}

fn append_timeouts(kept: &mut Vec<TimedOutQueryRecord>, more: &Vec<TimedOutQueryRecord>)
    ensures
        model::vmap(final(kept)@) == model::vmap(old(kept)@) + model::vmap(more@),
{
    let ghost start = model::vmap(kept@);
    let ghost mv = model::vmap(more@);
    let mut i: usize = 0;
    assert(start + mv.take(0) =~= start);
    while i < more.len()
        invariant
            i <= more@.len(),
            start == model::vmap(old(kept)@),
            mv == model::vmap(more@),
            model::vmap(kept@) == start + mv.take(i as int),
        decreases more@.len() - i,
    {
        broadcast use model::vmap_push, model::take_push;

        assert(mv[i as int] == more@[i as int]@);
        kept.push(more[i].duplicate());
        assert(model::vmap(kept@) =~= start + mv.take(i + 1));
        i += 1;
    }
    assert(mv.take(i as int) =~= mv);
}

// ---------------------------------------------------------------------------
// The course of a run
// ---------------------------------------------------------------------------

/// What the aggregator knows at the start.
pub open spec fn started(results_path: Seq<char>) -> AggregatorView {
    AggregatorView {
        buckets: Seq::empty(),
        timeline: Seq::empty(),
        kafka_consumer_lag: 0,
        per_stream_lag: Seq::empty(),
        connected_workers: 0,
        had_workers: false,
        total_snapshots: 0,
        state: AggState::Collecting,
        timed_out: Seq::empty(),
        errors: Seq::empty(),
        per_query: Seq::empty(),
        series: Seq::empty(),
        results_path,
    }
}

/// One more worker reports.
pub open spec fn joined(a: AggregatorView) -> AggregatorView {
    AggregatorView {
        connected_workers: if a.connected_workers == u32::MAX {
            u32::MAX
        } else {
            (a.connected_workers + 1) as u32
        },
        had_workers: true,
        ..a
    }
}

/// A worker is done. When none is left, the aggregation is complete.
pub open spec fn left(a: AggregatorView) -> AggregatorView {
    let n = if a.connected_workers == 0 {
        0
    } else {
        a.connected_workers - 1
    };
    AggregatorView {
        connected_workers: n as u32,
        state: if n == 0 && a.had_workers {
            AggState::Complete
        } else {
            a.state
        },
        ..a
    }
}

/// The lags of the streams.
pub open spec fn lags(entries: Seq<(Seq<char>, u64)>) -> Seq<int> {
    entries.map_values(|e: (Seq<char>, u64)| e.1 as int)
}

/// A stream's lag was measured; the lag of the run is that of all streams.
pub open spec fn lagging(a: AggregatorView, stream: Seq<char>, lag: u64) -> AggregatorView {
    let entries = model::bind(a.per_stream_lag, stream, lag);
    AggregatorView {
        per_stream_lag: entries,
        kafka_consumer_lag: rates::at_most_u64(model::sum(lags(entries))) as u64,
        ..a
    }
}

impl MetricsAggregatorService {
    /// The aggregator at the start of a run.
    pub fn new(results_path: String) -> (r: Self)
        ensures
            r@ == started(results_path@),
    {
        let r = MetricsAggregatorService {
            buckets: Vec::new(),
            timeline: Vec::new(),
            kafka_consumer_lag: 0,
            per_stream_lag: Vec::new(),
            connected_workers: 0,
            had_workers: false,
            total_snapshots: 0,
            state: AggState::Collecting,
            timed_out_queries: Vec::new(),
            query_error_records: Vec::new(),
            per_query_latency: Vec::new(),
            per_query_timeseries: Vec::new(),
            results_path,
        };
        proof {
            let w = started(results_path@);
            assert(r@.buckets =~= w.buckets);
            assert(r@.timeline =~= w.timeline);
            assert(r@.per_stream_lag =~= w.per_stream_lag);
            assert(r@.timed_out =~= w.timed_out);
            assert(r@.errors =~= w.errors);
            assert(r@.per_query =~= w.per_query);
            assert(r@.series =~= w.series);
        }
        r
    }

    /// A worker begins to report.
    pub fn worker_connected(&mut self)
        ensures
            final(self)@ == joined(old(self)@),
    {
        if self.connected_workers < u32::MAX {
            self.connected_workers = self.connected_workers + 1;
        }
        self.had_workers = true;
    }

    /// Takes one snapshot in, and gives the point of its second; nothing where it came too
    /// late.
    pub fn report_metrics(&mut self, snapshot: WorkerMetricSnapshot) -> (r: Option<
        AggregatedMetricPoint,
    >)
        ensures
            final(self)@ == reported(old(self)@, snapshot@),
            r is None <==> late(old(self)@.buckets, second_of(snapshot@)),
            r matches Some(p) ==> p@ == bucket::aggregate(
                with_snapshot(
                    bucket_at(old(self)@.buckets, second_of(snapshot@), 0),
                    snapshot@,
                ),
                old(self)@.kafka_consumer_lag,
            ),
    {
        let second: u64 = snapshot.timestamp_ns / 1_000_000_000;
        self.total_snapshots = count_up(self.total_snapshots, 1);
        if comes_late(&self.buckets, second) {
            return None;
        }
        note_types(&mut self.per_query_latency, &snapshot.query_latency_by_type);
        note_timeouts(&mut self.per_query_latency, &snapshot.timed_out_queries);
        append_timeouts(&mut self.timed_out_queries, &snapshot.timed_out_queries);
        keep_errors(&mut self.query_error_records, &snapshot.query_error_records);
        let at: usize = put_snapshot(&mut self.buckets, second, snapshot);
        let point = bucket::try_aggregate_bucket(&self.buckets[at], self.kafka_consumer_lag);
        let points = bucket::build_per_query_timeseries_points(&self.buckets[at]);
        put_query_points(&mut self.per_query_timeseries, &points);
        let copy = point.duplicate();
        put_point(&mut self.timeline, point);
        Some(copy)
    }

    /// A worker ends its reports. Gives whether this completed the aggregation.
    pub fn worker_disconnected(&mut self) -> (r: bool)
        ensures
            final(self)@ == left(old(self)@),
            r == (old(self).state == AggState::Collecting && final(self).state
                == AggState::Complete),
    {
        if self.connected_workers > 0 {
            self.connected_workers = self.connected_workers - 1;
        }
        if self.connected_workers == 0 && self.had_workers {
            self.complete_aggregation()
        } else {
            false
        }
    }

    /// Ends the aggregation. Gives whether it was still going on, and with it whether the
    /// results are to be written.
    pub fn complete_aggregation(&mut self) -> (r: bool)
        ensures
            final(self)@ == (AggregatorView { state: AggState::Complete, ..old(self)@ }),
            r == (old(self).state == AggState::Collecting),
    {
        if self.state == AggState::Complete {
            return false;
        }
        self.state = AggState::Complete;
        true
    }

    /// Notes the lag of a stream.
    pub fn set_stream_lag(&mut self, stream: &str, lag: u64)
        ensures
            final(self)@ == lagging(old(self)@, stream@, lag),
    {
        model::bind_entry(&mut self.per_stream_lag, stream, lag);
        let entries = &self.per_stream_lag;
        let ghost all = lags(model::vmap(entries@));
        let len: usize = entries.len();
        let mut total: u128 = 0;
        let mut i: usize = 0;
        assert(all.take(0) =~= Seq::<int>::empty());
        while i < len
            invariant
                i <= len == entries@.len(),
                all == lags(model::vmap(entries@)),
                total == model::sum(all.take(i as int)),
                total <= i * 0xffff_ffff_ffff_ffff,
            decreases len - i,
        {
            proof {
                model::sum_take(all, i as int);
                assert(all[i as int] == entries@[i as int].1);
            }
            total = total + entries[i].1 as u128;
            i += 1;
        }
        assert(all.take(i as int) =~= all);
        self.kafka_consumer_lag = if total > u64::MAX as u128 {
            u64::MAX
        } else {
            total as u64
        };
    }
}

} // verus!
