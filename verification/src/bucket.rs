//! One second of a run: the snapshots of all workers, and what they add up to.
use vstd::prelude::*;
use crate::latency;
use crate::latency::{DistributionView, LatencyDistribution};
use crate::metrics::{
    AggregatedMetricPoint, GroupMetricsView, PerQueryTimeSeriesPoint, PointView, QueryGroupMetrics,
    QueryPointView,
};
use crate::model;
use crate::model::Duplicate;
use crate::rates;
use crate::snapshot;
use crate::snapshot::{QueryTypeLatency, SnapshotView, TypeView, WorkerMetricSnapshot};
use crate::text;

verus! {

/// Above this use of its processor a worker counts as saturated, in parts per million.
pub const SATURATED_PPM: u64 = 900_000;

/// The snapshots of one second, in the order in which they came.
pub struct SecondBucket {
    pub timestamp_s: u64,
    pub ingest_snapshots: Vec<WorkerMetricSnapshot>,
    pub query_snapshots: Vec<WorkerMetricSnapshot>,
}

pub struct BucketView {
    pub timestamp_s: u64,
    pub ingest: Seq<SnapshotView>,
    pub query: Seq<SnapshotView>,
}

impl View for SecondBucket {
    type V = BucketView;

    open spec fn view(&self) -> BucketView {
        BucketView {
            timestamp_s: self.timestamp_s,
            ingest: model::vmap(self.ingest_snapshots@),
            query: model::vmap(self.query_snapshots@),
        }
    }
}

/// One of the figures of a snapshot.
#[derive(Clone, Copy, PartialEq, Eq, Structural, Debug)]
pub enum Figure {
    Produced,
    Acknowledged,
    Failed,
    TargetRate,
    Executed,
    Errors,
    Sessions,
    Cpu,
}

/// The figure of a snapshot.
pub open spec fn figure(s: SnapshotView, f: Figure) -> int {
    match f {
        Figure::Produced => s.events_produced as int,
        Figure::Acknowledged => s.events_acknowledged as int,
        Figure::Failed => s.events_failed as int,
        Figure::TargetRate => s.target_rate as int,
        Figure::Executed => s.queries_executed as int,
        Figure::Errors => s.query_errors as int,
        Figure::Sessions => s.concurrent_sessions as int,
        Figure::Cpu => s.cpu_ppm as int,
    }
}

/// The figures of some snapshots.
pub open spec fn figures(s: Seq<SnapshotView>, f: Figure) -> Seq<int> {
    s.map_values(|x: SnapshotView| figure(x, f))
}

/// The sum of a figure, or the greatest 64-bit number where it is greater.
pub open spec fn total(s: Seq<SnapshotView>, f: Figure) -> u64 {
    rates::at_most_u64(model::sum(figures(s, f))) as u64
}

/// A sum that fits 32 bits, or the greatest such number.
pub open spec fn at_most_u32(n: int) -> int {
    if n > u32::MAX {
        u32::MAX as int
    } else {
        n
    }
}

/// A rate in millionths, given in thousandths.
pub open spec fn milli_to_micro(m: u64) -> u64 {
    rates::at_most_u64(m * 1000) as u64
}

/// The distributions that some snapshots hold: of the time to produce, or of queries.
pub open spec fn dists(s: Seq<SnapshotView>, of_queries: bool) -> Seq<DistributionView>
    decreases s.len(),
{
    if s.len() == 0 {
        Seq::empty()
    } else {
        let rest = dists(s.drop_last(), of_queries);
        let d = if of_queries {
            s.last().query_latency
        } else {
            s.last().kafka_produce_latency
        };
        match d {
            Some(x) => rest.push(x),
            None => rest,
        }
    }
}

/// The groups that the snapshots name, in the order of their first snapshot.
pub open spec fn group_names(s: Seq<SnapshotView>, n: int) -> Seq<Seq<char>>
    decreases n,
{
    if n <= 0 {
        Seq::empty()
    } else {
        let before = group_names(s, n - 1);
        let g = s[n - 1].query_group;
        if g.len() == 0 || before.contains(g) {
            before
        } else {
            before.push(g)
        }
    }
}

/// The snapshots of a group.
pub open spec fn in_group(s: Seq<SnapshotView>, group: Seq<char>) -> Seq<SnapshotView> {
    s.filter(|x: SnapshotView| x.query_group == group)
}

/// What the workers of a group did.
pub open spec fn group_metrics(s: Seq<SnapshotView>, group: Seq<char>) -> GroupMetricsView {
    let mine = in_group(s, group);
    GroupMetricsView {
        executed: total(mine, Figure::Executed),
        errors: total(mine, Figure::Errors),
        target_uqps: milli_to_micro(total(mine, Figure::TargetRate)),
        latency: latency::merged(dists(mine, true)),
        warehouse_name: Seq::empty(),
    }
}

/// The phase of a second: that of its first ingest snapshot, else of its first query
/// snapshot.
pub open spec fn phase_of(b: BucketView) -> Seq<char> {
    if b.ingest.len() > 0 {
        b.ingest[0].phase
    } else if b.query.len() > 0 {
        b.query[0].phase
    } else {
        Seq::empty()
    }
}

/// The greatest use of a processor.
pub open spec fn max_cpu(b: BucketView) -> int {
    let a = model::greatest(figures(b.ingest, Figure::Cpu));
    let c = model::greatest(figures(b.query, Figure::Cpu));
    if a > c {
        a
    } else {
        c
    }
}

/// What the workers did in a second, all together.
pub open spec fn aggregate(b: BucketView, lag: u64) -> PointView {
    let groups = group_names(b.query, b.query.len() as int);
    PointView {
        timestamp_s: b.timestamp_s,
        phase: phase_of(b),
        ingest_events_produced: total(b.ingest, Figure::Produced),
        ingest_events_acknowledged: total(b.ingest, Figure::Acknowledged),
        ingest_events_failed: total(b.ingest, Figure::Failed),
        ingest_target_eps: total(b.ingest, Figure::TargetRate),
        ingest_kafka_produce_latency: latency::merged(dists(b.ingest, false)),
        query_executed: total(b.query, Figure::Executed),
        query_errors: total(b.query, Figure::Errors),
        query_target_uqps: milli_to_micro(total(b.query, Figure::TargetRate)),
        query_latency: latency::merged(dists(b.query, true)),
        kafka_consumer_lag: lag,
        ingest_workers_reporting: at_most_u32(b.ingest.len() as int) as u32,
        query_workers_reporting: at_most_u32(b.query.len() as int) as u32,
        concurrent_sessions: at_most_u32(
            model::sum(figures(b.query, Figure::Sessions)),
        ) as u32,
        harness_saturated: max_cpu(b) > SATURATED_PPM,
        max_worker_cpu_ppm: max_cpu(b) as u64,
        groups: groups.map_values(|g: Seq<char>| (g, group_metrics(b.query, g))),
    }
}

fn figure_of(s: &WorkerMetricSnapshot, f: Figure) -> (r: u64)
    ensures
        r == figure(s@, f),
{
    match f {
        Figure::Produced => s.events_produced,
        Figure::Acknowledged => s.events_acknowledged,
        Figure::Failed => s.events_failed,
        Figure::TargetRate => s.target_rate,
        Figure::Executed => s.queries_executed,
        Figure::Errors => s.query_errors,
        Figure::Sessions => s.concurrent_sessions as u64,
        Figure::Cpu => s.cpu_ppm,
    }
}

fn sum_of(s: &Vec<WorkerMetricSnapshot>, f: Figure) -> (r: u128)
    ensures
        r == model::sum(figures(model::vmap(s@), f)),
{
    let ghost all = figures(model::vmap(s@), f);
    let len: usize = s.len();
    let mut sum: u128 = 0;
    let mut i: usize = 0;
    assert(all.take(0) =~= Seq::<int>::empty());
    while i < len
        invariant
            i <= len == s@.len(),
            all == figures(model::vmap(s@), f),
            sum == model::sum(all.take(i as int)),
            sum <= i * 0xffff_ffff_ffff_ffff,
        decreases len - i,
    {
        proof {
            model::sum_take(all, i as int);
            assert(all[i as int] == figure(s@[i as int]@, f));
        }
        sum = sum + figure_of(&s[i], f) as u128;
        i += 1;
    }
    assert(all.take(i as int) =~= all);
    sum
}

fn clamp_u64(n: u128) -> (r: u64)
    ensures
        r == rates::at_most_u64(n as int),
{
    if n > u64::MAX as u128 {
        u64::MAX
    } else {
        n as u64
    }
}

fn clamp_u32(n: u128) -> (r: u32)
    ensures
        r == at_most_u32(n as int),
{
    if n > u32::MAX as u128 {
        u32::MAX
    } else {
        n as u32
    }
}

fn total_of(s: &Vec<WorkerMetricSnapshot>, f: Figure) -> (r: u64)
    ensures
        r == total(model::vmap(s@), f),
{
    clamp_u64(sum_of(s, f))
}

fn to_micro(m: u64) -> (r: u64)
    ensures
        r == milli_to_micro(m),
{
    clamp_u64((m as u128) * 1000)
}

fn max_of(s: &Vec<WorkerMetricSnapshot>, f: Figure) -> (r: u64)
    ensures
        r == model::greatest(figures(model::vmap(s@), f)),
{
    let ghost all = figures(model::vmap(s@), f);
    let mut top: u64 = 0;
    let mut i: usize = 0;
    assert(all.take(0) =~= Seq::<int>::empty());
    while i < s.len()
        invariant
            i <= s@.len(),
            all == figures(model::vmap(s@), f),
            top == model::greatest(all.take(i as int)),
        decreases s@.len() - i,
    {
        proof {
            model::greatest_take(all, i as int);
            assert(all[i as int] == figure(s@[i as int]@, f));
        }
        let x: u64 = figure_of(&s[i], f);
        if x > top {
            top = x;
        }
        i += 1;
    }
    assert(all.take(i as int) =~= all);
    top
}

fn dists_of(s: &Vec<WorkerMetricSnapshot>, of_queries: bool) -> (r: Vec<LatencyDistribution>)
    ensures
        model::vmap(r@) == dists(model::vmap(s@), of_queries),
{
    let ghost all = model::vmap(s@);
    let mut out: Vec<LatencyDistribution> = Vec::new();
    let mut i: usize = 0;
    assert(model::vmap(out@) =~= dists(all.take(0), of_queries));
    while i < s.len()
        invariant
            i <= s@.len(),
            all == model::vmap(s@),
            model::vmap(out@) == dists(all.take(i as int), of_queries),
        decreases s@.len() - i,
    {
        broadcast use model::vmap_push;

        proof {
            assert(all.take(i + 1).drop_last() =~= all.take(i as int));
            assert(all.take(i + 1).last() == s@[i as int]@);
        }
        let d = if of_queries {
            &s[i].query_latency
        } else {
            &s[i].kafka_produce_latency
        };
        match d {
            Some(x) => {
                out.push(x.duplicate());
            },
            None => {},
        }
        i += 1;
    }
    assert(all.take(i as int) =~= all);
    out
}

fn group_names_of(s: &Vec<WorkerMetricSnapshot>) -> (r: Vec<String>)
    ensures
        text::views(r@) == group_names(model::vmap(s@), s@.len() as int),
{
    let ghost all = model::vmap(s@);
    let mut out: Vec<String> = Vec::new();
    let mut i: usize = 0;
    assert(text::views(out@) =~= group_names(all, 0));
    while i < s.len()
        invariant
            i <= s@.len(),
            all == model::vmap(s@),
            text::views(out@) == group_names(all, i as int),
        decreases s@.len() - i,
    {
        broadcast use model::views_push;

        assert(all[i as int] == s@[i as int]@);
        let g = s[i].query_group.as_str();
        if !g.is_empty() && !text::list_has(&out, g) {
            out.push(text::owned(g));
        }
        i += 1;
    }
    out
}

/// What a group's workers did: the sums are taken over all snapshots of the group.
fn group_metrics_of(s: &Vec<WorkerMetricSnapshot>, group: &str) -> (r: QueryGroupMetrics)
    ensures
        r@ == group_metrics(model::vmap(s@), group@),
{
    let ghost all = model::vmap(s@);
    let ghost mine = in_group(all, group@);
    let len: usize = s.len();
    let mut executed: u128 = 0;
    let mut errors: u128 = 0;
    let mut rate: u128 = 0;
    let mut list: Vec<LatencyDistribution> = Vec::new();
    let mut i: usize = 0;
    proof {
        reveal(Seq::filter);
        assert(in_group(all.take(0), group@) =~= Seq::empty());
        assert(figures(in_group(all.take(0), group@), Figure::Executed) =~= Seq::<int>::empty());
        assert(figures(in_group(all.take(0), group@), Figure::Errors) =~= Seq::<int>::empty());
        assert(figures(in_group(all.take(0), group@), Figure::TargetRate) =~= Seq::<int>::empty());
        assert(model::vmap(list@) =~= dists(in_group(all.take(0), group@), true));
    }
    while i < len
        invariant
            i <= len == s@.len(),
            all == model::vmap(s@),
            executed == model::sum(
                figures(in_group(all.take(i as int), group@), Figure::Executed),
            ),
            errors == model::sum(figures(in_group(all.take(i as int), group@), Figure::Errors)),
            rate == model::sum(figures(in_group(all.take(i as int), group@), Figure::TargetRate)),
            model::vmap(list@) == dists(in_group(all.take(i as int), group@), true),
            executed <= i * 0xffff_ffff_ffff_ffff,
            errors <= i * 0xffff_ffff_ffff_ffff,
            rate <= i * 0xffff_ffff_ffff_ffff,
        decreases len - i,
    {
        broadcast use model::vmap_push;

        proof {
            in_group_step(all, group@, i as int);
            assert(all[i as int] == s@[i as int]@);
            let before = in_group(all.take(i as int), group@);
            let x = all[i as int];
            figures_push(before, x, Figure::Executed);
            figures_push(before, x, Figure::Errors);
            figures_push(before, x, Figure::TargetRate);
            assert(before.push(x).drop_last() =~= before);
            assert(before.push(x).last() == x);
        }
        if text::same(s[i].query_group.as_str(), group) {
            executed = executed + s[i].queries_executed as u128;
            errors = errors + s[i].query_errors as u128;
            rate = rate + s[i].target_rate as u128;
            match &s[i].query_latency {
                Some(x) => {
                    list.push(x.duplicate());
                },
                None => {},
            }
        }
        i += 1;
    }
    assert(all.take(i as int) =~= all);
    let r = QueryGroupMetrics {
        executed: clamp_u64(executed),
        errors: clamp_u64(errors),
        target_uqps: to_micro(clamp_u64(rate)),
        latency: latency::merge_latency_distributions(&list),
        warehouse_name: String::new(),
    };
    assert(r@.warehouse_name =~= Seq::empty());
    r
}

proof fn in_group_step(s: Seq<SnapshotView>, group: Seq<char>, i: int)
    requires
        0 <= i < s.len(),
    ensures
        in_group(s.take(i + 1), group) == if s[i].query_group == group {
            in_group(s.take(i), group).push(s[i])
        } else {
            in_group(s.take(i), group)
        },
{
    reveal(Seq::filter);
    assert(s.take(i + 1).drop_last() =~= s.take(i));
    assert(s.take(i + 1).last() == s[i]);
}

proof fn figures_push(s: Seq<SnapshotView>, x: SnapshotView, f: Figure)
    ensures
        model::sum(figures(s.push(x), f)) == model::sum(figures(s, f)) + figure(x, f),
{
    assert(figures(s.push(x), f).drop_last() =~= figures(s, f));
}

/// Adds up what the workers did in a second.
pub fn try_aggregate_bucket(b: &SecondBucket, kafka_lag: u64) -> (r: AggregatedMetricPoint)
    ensures
        r@ == aggregate(b@, kafka_lag),
{
    let phase = if b.ingest_snapshots.len() > 0 {
        assert(b@.ingest[0] == b.ingest_snapshots@[0]@);
        b.ingest_snapshots[0].phase.clone()
    } else if b.query_snapshots.len() > 0 {
        assert(b@.query[0] == b.query_snapshots@[0]@);
        b.query_snapshots[0].phase.clone()
    } else {
        String::new()
    };
    assert(phase@ =~= phase_of(b@));
    let ingest_cpu: u64 = max_of(&b.ingest_snapshots, Figure::Cpu);
    let query_cpu: u64 = max_of(&b.query_snapshots, Figure::Cpu);
    let cpu: u64 = if ingest_cpu > query_cpu {
        ingest_cpu
    } else {
        query_cpu
    };
    let names = group_names_of(&b.query_snapshots);
    let ghost nv = text::views(names@);
    let ghost want = nv.map_values(|g: Seq<char>| (g, group_metrics(b@.query, g)));
    let mut groups: Vec<(String, QueryGroupMetrics)> = Vec::new();
    let mut i: usize = 0;
    assert(model::vmap(groups@) =~= want.take(0));
    while i < names.len()
        invariant
            i <= names@.len(),
            nv == text::views(names@),
            want == nv.map_values(|g: Seq<char>| (g, group_metrics(b@.query, g))),
            model::vmap(groups@) == want.take(i as int),
        decreases names@.len() - i,
    {
        broadcast use model::vmap_push, model::take_push;

        assert(nv[i as int] == names@[i as int]@);
        let entry = (
            names[i].clone(),
            group_metrics_of(&b.query_snapshots, names[i].as_str()),
        );
        assert(entry@ == want[i as int]);
        groups.push(entry);
        i += 1;
    }
    assert(want.take(i as int) =~= want);
    AggregatedMetricPoint {
        timestamp_s: b.timestamp_s,
        phase,
        ingest_events_produced: total_of(&b.ingest_snapshots, Figure::Produced),
        ingest_events_acknowledged: total_of(&b.ingest_snapshots, Figure::Acknowledged),
        ingest_events_failed: total_of(&b.ingest_snapshots, Figure::Failed),
        ingest_target_eps: total_of(&b.ingest_snapshots, Figure::TargetRate),
        ingest_kafka_produce_latency: latency::merge_latency_distributions(
            &dists_of(&b.ingest_snapshots, false),
        ),
        query_executed: total_of(&b.query_snapshots, Figure::Executed),
        query_errors: total_of(&b.query_snapshots, Figure::Errors),
        query_target_uqps: to_micro(total_of(&b.query_snapshots, Figure::TargetRate)),
        query_latency: latency::merge_latency_distributions(&dists_of(&b.query_snapshots, true)),
        kafka_consumer_lag: kafka_lag,
        ingest_workers_reporting: clamp_u32(b.ingest_snapshots.len() as u128),
        query_workers_reporting: clamp_u32(b.query_snapshots.len() as u128),
        concurrent_sessions: clamp_u32(sum_of(&b.query_snapshots, Figure::Sessions)),
        harness_saturated: cpu > SATURATED_PPM,
        max_worker_cpu_ppm: cpu,
        query_group_metrics: groups,
    }
}

// ---------------------------------------------------------------------------
// Query by query
// ---------------------------------------------------------------------------

/// What the first `n` snapshots say of single queries, one after the other.
pub open spec fn all_types(s: Seq<SnapshotView>, n: int) -> Seq<TypeView>
    decreases n,
{
    if n <= 0 {
        Seq::empty()
    } else {
        all_types(s, n - 1) + s[n - 1].by_type
    }
}

/// The queries with latencies, in the order of their first.
pub open spec fn timed_names(t: Seq<TypeView>, n: int) -> Seq<Seq<char>>
    decreases n,
{
    if n <= 0 {
        Seq::empty()
    } else {
        let before = timed_names(t, n - 1);
        if t[n - 1].latency is None || before.contains(t[n - 1].query_name) {
            before
        } else {
            before.push(t[n - 1].query_name)
        }
    }
}

/// The latencies of a query among the first `n` entries.
pub open spec fn query_dists(t: Seq<TypeView>, name: Seq<char>, n: int) -> Seq<DistributionView>
    decreases n,
{
    if n <= 0 {
        Seq::empty()
    } else {
        let before = query_dists(t, name, n - 1);
        if t[n - 1].query_name == name && t[n - 1].latency is Some {
            before.push(t[n - 1].latency->0)
        } else {
            before
        }
    }
}

/// The errors of a query in the first `n` entries.
pub open spec fn query_errors(t: Seq<TypeView>, name: Seq<char>, n: int) -> int
    decreases n,
{
    if n <= 0 {
        0
    } else {
        query_errors(t, name, n - 1) + if t[n - 1].query_name == name {
            t[n - 1].errors as int
        } else {
            0
        }
    }
}

/// The phase of a second for its queries: that of its first query snapshot, else of its
/// first ingest snapshot.
pub open spec fn query_phase_of(b: BucketView) -> Seq<char> {
    if b.query.len() > 0 {
        b.query[0].phase
    } else if b.ingest.len() > 0 {
        b.ingest[0].phase
    } else {
        Seq::empty()
    }
}

/// The point of one query in a second.
pub open spec fn query_point(b: BucketView, name: Seq<char>) -> QueryPointView {
    let t = all_types(b.query, b.query.len() as int);
    let m = latency::merged(query_dists(t, name, t.len() as int));
    QueryPointView {
        timestamp_s: b.timestamp_s,
        phase: query_phase_of(b),
        p95_ns: m.p95,
        count: m.count,
        error_count: rates::at_most_u64(query_errors(t, name, t.len() as int)) as u64,
    }
}

/// The points of all queries in a second.
pub open spec fn query_points(b: BucketView) -> Seq<(Seq<char>, QueryPointView)> {
    let t = all_types(b.query, b.query.len() as int);
    timed_names(t, t.len() as int).map_values(|n: Seq<char>| (n, query_point(b, n)))
}

fn types_of(s: &Vec<WorkerMetricSnapshot>) -> (r: Vec<QueryTypeLatency>)
    ensures
        model::vmap(r@) == all_types(model::vmap(s@), s@.len() as int),
{
    let ghost all = model::vmap(s@);
    let mut out: Vec<QueryTypeLatency> = Vec::new();
    let mut i: usize = 0;
    assert(model::vmap(out@) =~= all_types(all, 0));
    while i < s.len()
        invariant
            i <= s@.len(),
            all == model::vmap(s@),
            model::vmap(out@) == all_types(all, i as int),
        decreases s@.len() - i,
    {
        assert(all[i as int] == s@[i as int]@);
        let list = &s[i].query_latency_by_type;
        let ghost start = model::vmap(out@);
        let ghost part = model::vmap(list@);
        let mut k: usize = 0;
        assert(model::vmap(out@) =~= start + part.take(0));
        while k < list.len()
            invariant
                k <= list@.len(),
                part == model::vmap(list@),
                model::vmap(out@) == start + part.take(k as int),
            decreases list@.len() - k,
        {
            broadcast use model::vmap_push, model::take_push;

            let t = QueryTypeLatency {
                query_name: list[k].query_name.clone(),
                latency: snapshot::copy_opt_dist(&list[k].latency),
                executed: list[k].executed,
                errors: list[k].errors,
            };
            assert(t@ == part[k as int]);
            out.push(t);
            assert(model::vmap(out@) =~= start + part.take(k + 1));
            k += 1;
        }
        assert(part.take(k as int) =~= part);
        i += 1;
    }
    out
}

fn timed_names_of(t: &Vec<QueryTypeLatency>) -> (r: Vec<String>)
    ensures
        text::views(r@) == timed_names(model::vmap(t@), t@.len() as int),
{
    let ghost all = model::vmap(t@);
    let mut out: Vec<String> = Vec::new();
    let mut i: usize = 0;
    assert(text::views(out@) =~= timed_names(all, 0));
    while i < t.len()
        invariant
            i <= t@.len(),
            all == model::vmap(t@),
            text::views(out@) == timed_names(all, i as int),
        decreases t@.len() - i,
    {
        broadcast use model::views_push;

        assert(all[i as int] == t@[i as int]@);
        if t[i].latency.is_some() && !text::list_has(&out, t[i].query_name.as_str()) {
            out.push(t[i].query_name.clone());
        }
        i += 1;
    }
    out
}

fn query_point_of(b: &SecondBucket, t: &Vec<QueryTypeLatency>, phase: &str, name: &str) -> (r:
    PerQueryTimeSeriesPoint)
    requires
        model::vmap(t@) == all_types(b@.query, b@.query.len() as int),
        phase@ == query_phase_of(b@),
    ensures
        r@ == query_point(b@, name@),
{
    let ghost all = model::vmap(t@);
    let len: usize = t.len();
    let mut list: Vec<LatencyDistribution> = Vec::new();
    let mut errors: u128 = 0;
    let mut i: usize = 0;
    assert(model::vmap(list@) =~= query_dists(all, name@, 0));
    while i < len
        invariant
            i <= len == t@.len(),
            all == model::vmap(t@),
            model::vmap(list@) == query_dists(all, name@, i as int),
            errors == query_errors(all, name@, i as int),
            errors <= i * 0xffff_ffff_ffff_ffff,
        decreases len - i,
    {
        broadcast use model::vmap_push;

        assert(all[i as int] == t@[i as int]@);
        if text::same(t[i].query_name.as_str(), name) {
            errors = errors + t[i].errors as u128;
            match &t[i].latency {
                Some(d) => {
                    list.push(d.duplicate());
                },
                None => {},
            }
        }
        i += 1;
    }
    let m = latency::merge_latency_distributions(&list);
    PerQueryTimeSeriesPoint {
        timestamp_s: b.timestamp_s,
        phase: text::owned(phase),
        p95_ns: m.p95,
        count: m.count,
        error_count: clamp_u64(errors),
    }
}

/// The points of all queries in a second.
pub fn build_per_query_timeseries_points(b: &SecondBucket) -> (r: Vec<
    (String, PerQueryTimeSeriesPoint),
>)
    ensures
        model::vmap(r@) == query_points(b@),
{
    let phase = if b.query_snapshots.len() > 0 {
        assert(b@.query[0] == b.query_snapshots@[0]@);
        b.query_snapshots[0].phase.clone()
    } else if b.ingest_snapshots.len() > 0 {
        assert(b@.ingest[0] == b.ingest_snapshots@[0]@);
        b.ingest_snapshots[0].phase.clone()
    } else {
        String::new()
    };
    assert(phase@ =~= query_phase_of(b@));
    let types = types_of(&b.query_snapshots);
    let names = timed_names_of(&types);
    let ghost nv = text::views(names@);
    let ghost want = nv.map_values(|n: Seq<char>| (n, query_point(b@, n)));
    let mut out: Vec<(String, PerQueryTimeSeriesPoint)> = Vec::new();
    let mut i: usize = 0;
    assert(model::vmap(out@) =~= want.take(0));
    while i < names.len()
        invariant
            i <= names@.len(),
            nv == text::views(names@),
            model::vmap(types@) == all_types(b@.query, b@.query.len() as int),
            phase@ == query_phase_of(b@),
            want == nv.map_values(|n: Seq<char>| (n, query_point(b@, n))),
            model::vmap(out@) == want.take(i as int),
        decreases names@.len() - i,
    {
        broadcast use model::vmap_push, model::take_push;

        assert(nv[i as int] == names@[i as int]@);
        let entry = (
            names[i].clone(),
            query_point_of(b, &types, phase.as_str(), names[i].as_str()),
        );
        assert(entry@ == want[i as int]);
        out.push(entry);
        i += 1;
    }
    assert(want.take(i as int) =~= want);
    out
}

/// A saturated second: some worker used more than nine tenths of its processor.
pub proof fn saturation_is_any_worker(b: BucketView, lag: u64)
    ensures
        aggregate(b, lag).harness_saturated <==> (exists|i: int|
            0 <= i < b.ingest.len() && (#[trigger] b.ingest[i]).cpu_ppm > SATURATED_PPM) || (
        exists|i: int| 0 <= i < b.query.len() && (#[trigger] b.query[i]).cpu_ppm > SATURATED_PPM),
{
    let a = figures(b.ingest, Figure::Cpu);
    let c = figures(b.query, Figure::Cpu);
    model::greatest_is_max(a);
    model::greatest_is_max(c);
    assert(forall|i: int| 0 <= i < b.ingest.len() ==> a[i] == (#[trigger] b.ingest[i]).cpu_ppm);
    assert(forall|i: int| 0 <= i < b.query.len() ==> c[i] == (#[trigger] b.query[i]).cpu_ppm);
    if max_cpu(b) > SATURATED_PPM {
        if model::greatest(a) > SATURATED_PPM && a.len() > 0 {
            let k = choose|k: int| 0 <= k < a.len() && a[k] == model::greatest(a);
            assert(b.ingest[k].cpu_ppm > SATURATED_PPM);
        } else {
            assert(model::greatest(c) > SATURATED_PPM);
            let k = choose|k: int| 0 <= k < c.len() && c[k] == model::greatest(c);
            assert(b.query[k].cpu_ppm > SATURATED_PPM);
        }
    }
}

} // verus!
