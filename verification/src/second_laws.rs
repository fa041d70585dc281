//! What the point of a second says of the workers' snapshots.
use vstd::prelude::*;
use vstd::string::*;
use crate::aggregator;
use crate::aggregator::AggregatorView;
use crate::bucket;
use crate::bucket::{BucketView, Figure};
use crate::model;
use crate::percentile_laws;
use crate::snapshot::{SnapshotView, TimeoutView, TypeView};

verus! {

/// A figure summed over snapshots.
pub open spec fn total(s: Seq<SnapshotView>, f: spec_fn(SnapshotView) -> int) -> int
    decreases s.len(),
{
    if s.len() == 0 {
        0
    } else {
        total(s.drop_last(), f) + f(s.last())
    }
}

/// As far as 64 bits reach.
pub open spec fn held(n: int) -> int {
    if n > 0xffff_ffff_ffff_ffff {
        0xffff_ffff_ffff_ffff
    } else {
        n
    }
}

/// As far as 32 bits reach.
pub open spec fn held32(n: int) -> int {
    if n > 0xffff_ffff {
        0xffff_ffff
    } else {
        n
    }
}

proof fn totals_agree(s: Seq<SnapshotView>, m: Figure, f: spec_fn(SnapshotView) -> int)
    requires
        forall|x: SnapshotView| #[trigger] f(x) == bucket::figure(x, m),
    ensures
        model::sum(bucket::figures(s, m)) == total(s, f),
        total(s, f) >= 0,
    decreases s.len(),
{
    let all = bucket::figures(s, m);
    if s.len() > 0 {
        totals_agree(s.drop_last(), m, f);
        assert(all.drop_last() =~= bucket::figures(s.drop_last(), m));
        assert(f(s.last()) == bucket::figure(s.last(), m));
    } else {
        assert(all =~= Seq::<int>::empty());
    }
}

/// The point of a second adds up what its ingest workers did, and counts those that reported.
pub proof fn ingest_adds_up(b: BucketView, lag: u64)
    ensures
        ({
            let p = bucket::aggregate(b, lag);
            &&& p.timestamp_s == b.timestamp_s
            &&& p.kafka_consumer_lag == lag
            &&& p.ingest_events_produced == held(
                total(b.ingest, |s: SnapshotView| s.events_produced as int),
            )
            &&& p.ingest_events_acknowledged == held(
                total(b.ingest, |s: SnapshotView| s.events_acknowledged as int),
            )
            &&& p.ingest_events_failed == held(
                total(b.ingest, |s: SnapshotView| s.events_failed as int),
            )
            &&& p.ingest_target_eps == held(
                total(b.ingest, |s: SnapshotView| s.target_rate as int),
            )
            &&& p.ingest_workers_reporting == held32(b.ingest.len() as int)
        }),
{
    totals_agree(b.ingest, Figure::Produced, |s: SnapshotView| s.events_produced as int);
    totals_agree(b.ingest, Figure::Acknowledged, |s: SnapshotView| s.events_acknowledged as int);
    totals_agree(b.ingest, Figure::Failed, |s: SnapshotView| s.events_failed as int);
    totals_agree(b.ingest, Figure::TargetRate, |s: SnapshotView| s.target_rate as int);
}

/// The point of a second adds up what its query workers did, and counts those that reported;
/// their rates, in thousandths, are told in millionths.
pub proof fn queries_add_up(b: BucketView, lag: u64)
    ensures
        ({
            let p = bucket::aggregate(b, lag);
            &&& p.query_executed == held(
                total(b.query, |s: SnapshotView| s.queries_executed as int),
            )
            &&& p.query_errors == held(total(b.query, |s: SnapshotView| s.query_errors as int))
            &&& p.query_target_uqps == held(
                1000 * held(total(b.query, |s: SnapshotView| s.target_rate as int)),
            )
            &&& p.concurrent_sessions == held32(
                total(b.query, |s: SnapshotView| s.concurrent_sessions as int),
            )
            &&& p.query_workers_reporting == held32(b.query.len() as int)
        }),
{
    totals_agree(b.query, Figure::Executed, |s: SnapshotView| s.queries_executed as int);
    totals_agree(b.query, Figure::Errors, |s: SnapshotView| s.query_errors as int);
    totals_agree(b.query, Figure::TargetRate, |s: SnapshotView| s.target_rate as int);
    totals_agree(b.query, Figure::Sessions, |s: SnapshotView| s.concurrent_sessions as int);
}

/// The use of the processors is the greatest of any worker, and a second is saturated where it
/// is above nine tenths.
pub proof fn the_busiest_worker_counts(b: BucketView, lag: u64)
    ensures
        ({
            let p = bucket::aggregate(b, lag);
            &&& forall|i: int|
                0 <= i < b.ingest.len() ==> (#[trigger] b.ingest[i]).cpu_ppm <= p.max_worker_cpu_ppm
            &&& forall|i: int|
                0 <= i < b.query.len() ==> (#[trigger] b.query[i]).cpu_ppm <= p.max_worker_cpu_ppm
            &&& p.max_worker_cpu_ppm == 0 || (exists|i: int|
                0 <= i < b.ingest.len() && (#[trigger] b.ingest[i]).cpu_ppm
                    == p.max_worker_cpu_ppm) || (exists|i: int|
                0 <= i < b.query.len() && (#[trigger] b.query[i]).cpu_ppm == p.max_worker_cpu_ppm)
            &&& p.harness_saturated <==> p.max_worker_cpu_ppm > 900_000
        }),
{
    let a = bucket::figures(b.ingest, Figure::Cpu);
    let c = bucket::figures(b.query, Figure::Cpu);
    model::greatest_is_max(a);
    model::greatest_is_max(c);
    assert(forall|i: int| 0 <= i < b.ingest.len() ==> a[i] == (#[trigger] b.ingest[i]).cpu_ppm);
    assert(forall|i: int| 0 <= i < b.query.len() ==> c[i] == (#[trigger] b.query[i]).cpu_ppm);
    greatest_fits(a);
    greatest_fits(c);
    if a.len() > 0 {
        let k = choose|k: int| 0 <= k < a.len() && a[k] == model::greatest(a);
        assert(b.ingest[k].cpu_ppm == model::greatest(a));
    }
    if c.len() > 0 {
        let k = choose|k: int| 0 <= k < c.len() && c[k] == model::greatest(c);
        assert(b.query[k].cpu_ppm == model::greatest(c));
    }
}

proof fn greatest_fits(s: Seq<int>)
    requires
        forall|k: int| 0 <= k < s.len() ==> 0 <= #[trigger] s[k] <= u64::MAX,
    ensures
        0 <= model::greatest(s) <= u64::MAX,
{
    model::greatest_is_max(s);
    if s.len() > 0 {
        let k = choose|k: int| 0 <= k < s.len() && s[k] == model::greatest(s);
        assert(0 <= s[k] <= u64::MAX);
    }
}

/// Where all workers agree on the phase, the second is of that phase.
pub proof fn seconds_are_of_their_phase(b: BucketView, lag: u64, phase: Seq<char>)
    requires
        b.ingest.len() + b.query.len() > 0,
        forall|i: int| 0 <= i < b.ingest.len() ==> (#[trigger] b.ingest[i]).phase == phase,
        forall|i: int| 0 <= i < b.query.len() ==> (#[trigger] b.query[i]).phase == phase,
    ensures
        bucket::aggregate(b, lag).phase == phase,
        forall|name: Seq<char>| (#[trigger] bucket::query_point(b, name)).phase == phase,
{
    if b.ingest.len() > 0 {
        assert(b.ingest[0].phase == phase);
    }
    if b.query.len() > 0 {
        assert(b.query[0].phase == phase);
    }
}

// ---------------------------------------------------------------------------
// Latencies
// ---------------------------------------------------------------------------

/// How many latencies of some kind the query distributions of the snapshots stand for.
pub open spec fn query_weight(s: Seq<SnapshotView>, of_kind: spec_fn(u64) -> bool) -> int
    decreases s.len(),
{
    if s.len() == 0 {
        0
    } else {
        query_weight(s.drop_last(), of_kind) + match s.last().query_latency {
            Some(d) => percentile_laws::weight(d.centroids, of_kind),
            None => 0,
        }
    }
}

/// The same for the times to produce events.
pub open spec fn produce_weight(s: Seq<SnapshotView>, of_kind: spec_fn(u64) -> bool) -> int
    decreases s.len(),
{
    if s.len() == 0 {
        0
    } else {
        produce_weight(s.drop_last(), of_kind) + match s.last().kafka_produce_latency {
            Some(d) => percentile_laws::weight(d.centroids, of_kind),
            None => 0,
        }
    }
}

/// So many hundredths of the latencies are no greater than `x`, and fewer are less, if any.
pub open spec fn ranks(
    weight: spec_fn(spec_fn(u64) -> bool) -> int,
    x: u64,
    percent: int,
) -> bool {
    let want = weight(|m: u64| true) * percent / 100;
    let below = weight(|m: u64| m < x);
    weight(|m: u64| m <= x) >= want && (below < want || below == 0)
}

proof fn weights_agree(s: Seq<SnapshotView>, of_kind: spec_fn(u64) -> bool)
    ensures
        percentile_laws::weight_of_all(bucket::dists(s, true), of_kind) == query_weight(s, of_kind),
        percentile_laws::weight_of_all(bucket::dists(s, false), of_kind) == produce_weight(
            s,
            of_kind,
        ),
    decreases s.len(),
{
    if s.len() > 0 {
        weights_agree(s.drop_last(), of_kind);
        if s.last().query_latency is Some {
            let d = bucket::dists(s, true);
            assert(d.drop_last() =~= bucket::dists(s.drop_last(), true));
        }
        if s.last().kafka_produce_latency is Some {
            let d = bucket::dists(s, false);
            assert(d.drop_last() =~= bucket::dists(s.drop_last(), false));
        }
    }
}

/// The percentiles of a second are those of the latencies of all its query workers.
pub proof fn query_percentiles_are_of_all_workers(b: BucketView, lag: u64)
    requires
        query_weight(b.query, |m: u64| true) > 0,
    ensures
        ({
            let l = bucket::aggregate(b, lag).query_latency;
            let w = |of_kind: spec_fn(u64) -> bool| query_weight(b.query, of_kind);
            &&& ranks(w, l.p50, 50)
            &&& ranks(w, l.p95, 95)
            &&& ranks(w, l.p99, 99)
        }),
{
    all_weights_agree(b.query);
    percentile_laws::percentiles_have_their_rank(bucket::dists(b.query, true));
}

proof fn all_weights_agree(s: Seq<SnapshotView>)
    ensures
        ({
            let d = bucket::dists(s, true);
            let e = bucket::dists(s, false);
            &&& percentile_laws::all_of(d) == query_weight(s, |m: u64| true)
            &&& percentile_laws::all_of(e) == produce_weight(s, |m: u64| true)
            &&& forall|x: u64|
                #[trigger] percentile_laws::has_rank(d, x, 50) <==> ranks(
                    |of_kind: spec_fn(u64) -> bool| query_weight(s, of_kind),
                    x,
                    50,
                )
            &&& forall|x: u64|
                #[trigger] percentile_laws::has_rank(d, x, 95) <==> ranks(
                    |of_kind: spec_fn(u64) -> bool| query_weight(s, of_kind),
                    x,
                    95,
                )
            &&& forall|x: u64|
                #[trigger] percentile_laws::has_rank(d, x, 99) <==> ranks(
                    |of_kind: spec_fn(u64) -> bool| query_weight(s, of_kind),
                    x,
                    99,
                )
            &&& forall|x: u64|
                #[trigger] percentile_laws::has_rank(e, x, 50) <==> ranks(
                    |of_kind: spec_fn(u64) -> bool| produce_weight(s, of_kind),
                    x,
                    50,
                )
            &&& forall|x: u64|
                #[trigger] percentile_laws::has_rank(e, x, 95) <==> ranks(
                    |of_kind: spec_fn(u64) -> bool| produce_weight(s, of_kind),
                    x,
                    95,
                )
            &&& forall|x: u64|
                #[trigger] percentile_laws::has_rank(e, x, 99) <==> ranks(
                    |of_kind: spec_fn(u64) -> bool| produce_weight(s, of_kind),
                    x,
                    99,
                )
        }),
{
    let d = bucket::dists(s, true);
    let e = bucket::dists(s, false);
    let w = |of_kind: spec_fn(u64) -> bool| query_weight(s, of_kind);
    let v = |of_kind: spec_fn(u64) -> bool| produce_weight(s, of_kind);
    weights_agree(s, |m: u64| true);
    assert forall|x: u64, percent: int|
        #![trigger percentile_laws::has_rank(d, x, percent)]
        percentile_laws::has_rank(d, x, percent) <==> ranks(w, x, percent) by {
        weights_agree(s, |m: u64| m < x);
        weights_agree(s, |m: u64| m <= x);
    }
    assert forall|x: u64, percent: int|
        #![trigger percentile_laws::has_rank(e, x, percent)]
        percentile_laws::has_rank(e, x, percent) <==> ranks(v, x, percent) by {
        weights_agree(s, |m: u64| m < x);
        weights_agree(s, |m: u64| m <= x);
    }
}

/// The percentiles of the time to produce are those of all ingest workers.
pub proof fn produce_percentiles_are_of_all_workers(b: BucketView, lag: u64)
    requires
        produce_weight(b.ingest, |m: u64| true) > 0,
    ensures
        ({
            let l = bucket::aggregate(b, lag).ingest_kafka_produce_latency;
            let w = |of_kind: spec_fn(u64) -> bool| produce_weight(b.ingest, of_kind);
            &&& ranks(w, l.p50, 50)
            &&& ranks(w, l.p95, 95)
            &&& ranks(w, l.p99, 99)
        }),
{
    all_weights_agree(b.ingest);
    percentile_laws::percentiles_have_their_rank(bucket::dists(b.ingest, false));
}

// ---------------------------------------------------------------------------
// Groups
// ---------------------------------------------------------------------------

proof fn names_are_found(s: Seq<SnapshotView>, n: int)
    requires
        0 <= n <= s.len(),
    ensures
        forall|i: int|
            0 <= i < n && (#[trigger] s[i]).query_group.len() > 0 ==> bucket::group_names(
                s,
                n,
            ).contains(s[i].query_group),
        bucket::group_names(s, n).no_duplicates(),
        forall|k: int|
            0 <= k < bucket::group_names(s, n).len() ==> (#[trigger] bucket::group_names(
                s,
                n,
            )[k]).len() > 0,
    decreases n,
{
    if n > 0 {
        names_are_found(s, n - 1);
        let before = bucket::group_names(s, n - 1);
        let all = bucket::group_names(s, n);
        let g = s[n - 1].query_group;
        if !(g.len() == 0 || before.contains(g)) {
            assert(all[before.len() as int] == g);
            assert forall|i: int| 0 <= i < n && (#[trigger] s[i]).query_group.len() > 0 implies
                all.contains(s[i].query_group) by {
                if i < n - 1 {
                    let k = choose|k: int|
                        0 <= k < before.len() && before[k] == s[i].query_group;
                    assert(all[k] == s[i].query_group);
                }
            }
        }
    }
}

/// A figure summed over the snapshots of a group.
pub open spec fn group_total(
    s: Seq<SnapshotView>,
    group: Seq<char>,
    f: spec_fn(SnapshotView) -> int,
) -> int
    decreases s.len(),
{
    if s.len() == 0 {
        0
    } else {
        group_total(s.drop_last(), group, f) + if s.last().query_group == group {
            f(s.last())
        } else {
            0
        }
    }
}

proof fn group_totals_agree(s: Seq<SnapshotView>, group: Seq<char>, f: spec_fn(SnapshotView) -> int)
    ensures
        total(bucket::in_group(s, group), f) == group_total(s, group, f),
    decreases s.len(),
{
    reveal(Seq::filter);
    if s.len() > 0 {
        group_totals_agree(s.drop_last(), group, f);
        let before = bucket::in_group(s.drop_last(), group);
        let all = bucket::in_group(s, group);
        if s.last().query_group == group {
            assert(all =~= before.push(s.last()));
            assert(all.drop_last() =~= before);
        } else {
            assert(all =~= before);
        }
    } else {
        assert(bucket::in_group(s, group) =~= Seq::empty());
    }
}

/// Every group that a query worker names has one entry in the second, and each entry adds up
/// what the workers of its group did, and no others.
pub proof fn groups_add_up_their_own(b: BucketView, lag: u64)
    ensures
        ({
            let entries = bucket::aggregate(b, lag).groups;
            &&& forall|i: int|
                0 <= i < b.query.len() && (#[trigger] b.query[i]).query_group.len() > 0 ==> exists|
                    k: int,
                |
                    0 <= k < entries.len() && (#[trigger] entries[k]).0 == b.query[i].query_group
            &&& forall|j: int, k: int|
                0 <= j < k < entries.len() ==> (#[trigger] entries[j]).0 != (
                #[trigger] entries[k]).0
            &&& forall|k: int|
                0 <= k < entries.len() ==> (#[trigger] entries[k]).1.executed == held(
                    group_total(
                        b.query,
                        entries[k].0,
                        |s: SnapshotView| s.queries_executed as int,
                    ),
                )
            &&& forall|k: int|
                0 <= k < entries.len() ==> (#[trigger] entries[k]).1.errors == held(
                    group_total(b.query, entries[k].0, |s: SnapshotView| s.query_errors as int),
                )
            &&& forall|k: int|
                0 <= k < entries.len() ==> (#[trigger] entries[k]).1.target_uqps == held(
                    1000 * held(
                        group_total(b.query, entries[k].0, |s: SnapshotView| s.target_rate as int),
                    ),
                )
        }),
{
    let n = b.query.len() as int;
    let names = bucket::group_names(b.query, n);
    let entries = bucket::aggregate(b, lag).groups;
    names_are_found(b.query, n);
    assert forall|i: int| 0 <= i < n && (#[trigger] b.query[i]).query_group.len() > 0 implies exists|
        k: int,
    |
        0 <= k < entries.len() && (#[trigger] entries[k]).0 == b.query[i].query_group by {
        let k = choose|k: int| 0 <= k < names.len() && names[k] == b.query[i].query_group;
        assert(entries[k].0 == b.query[i].query_group);
    }
    let done = |s: SnapshotView| s.queries_executed as int;
    let failed = |s: SnapshotView| s.query_errors as int;
    let aimed = |s: SnapshotView| s.target_rate as int;
    assert forall|k: int| 0 <= k < entries.len() implies ({
        let e = #[trigger] entries[k];
        e.1.executed == held(group_total(b.query, e.0, done)) && e.1.errors == held(
            group_total(b.query, e.0, failed),
        ) && e.1.target_uqps == held(1000 * held(group_total(b.query, e.0, aimed)))
    }) by {
        let g = names[k];
        let mine = bucket::in_group(b.query, g);
        group_totals_agree(b.query, g, done);
        group_totals_agree(b.query, g, failed);
        group_totals_agree(b.query, g, aimed);
        totals_agree(mine, Figure::Executed, done);
        totals_agree(mine, Figure::Errors, failed);
        totals_agree(mine, Figure::TargetRate, aimed);
    }
}

// ---------------------------------------------------------------------------
// Single queries
// ---------------------------------------------------------------------------

/// The errors that snapshots tell of a query.
pub open spec fn errors_told(s: Seq<SnapshotView>, name: Seq<char>) -> int
    decreases s.len(),
{
    if s.len() == 0 {
        0
    } else {
        errors_told(s.drop_last(), name) + errors_in(s.last().by_type, name)
    }
}

pub open spec fn errors_in(t: Seq<TypeView>, name: Seq<char>) -> int
    decreases t.len(),
{
    if t.len() == 0 {
        0
    } else {
        errors_in(t.drop_last(), name) + if t.last().query_name == name {
            t.last().errors as int
        } else {
            0
        }
    }
}

proof fn errors_of_both(a: Seq<TypeView>, b: Seq<TypeView>, name: Seq<char>)
    ensures
        errors_in(a + b, name) == errors_in(a, name) + errors_in(b, name),
    decreases b.len(),
{
    if b.len() > 0 {
        errors_of_both(a, b.drop_last(), name);
        assert((a + b).drop_last() =~= a + b.drop_last());
    } else {
        assert(a + b =~= a);
    }
}

proof fn errors_agree(t: Seq<TypeView>, name: Seq<char>, n: int)
    requires
        0 <= n <= t.len(),
    ensures
        bucket::query_errors(t, name, n) == errors_in(t.take(n), name),
        bucket::query_errors(t, name, n) >= 0,
    decreases n,
{
    if n > 0 {
        errors_agree(t, name, n - 1);
        assert(t.take(n).drop_last() =~= t.take(n - 1));
    }
}

proof fn types_errors(s: Seq<SnapshotView>, name: Seq<char>, n: int)
    requires
        0 <= n <= s.len(),
    ensures
        errors_in(bucket::all_types(s, n), name) == errors_told(s.take(n), name),
    decreases n,
{
    if n > 0 {
        types_errors(s, name, n - 1);
        assert(s.take(n).drop_last() =~= s.take(n - 1));
        errors_of_both(bucket::all_types(s, n - 1), s[n - 1].by_type, name);
    }
}

/// The point of a query in a second counts the errors that all workers tell of it.
pub proof fn errors_of_a_query_add_up(b: BucketView, name: Seq<char>)
    ensures
        bucket::query_point(b, name).error_count == held(errors_told(b.query, name)),
        bucket::query_point(b, name).timestamp_s == b.timestamp_s,
{
    let n = b.query.len() as int;
    let t = bucket::all_types(b.query, n);
    types_errors(b.query, name, n);
    errors_agree(t, name, t.len() as int);
    assert(b.query.take(n) =~= b.query);
    assert(t.take(t.len() as int) =~= t);
}

// ---------------------------------------------------------------------------
// The aggregator
// ---------------------------------------------------------------------------

/// A snapshot belongs to the second in which it was taken.
pub proof fn snapshots_belong_to_their_second(s: SnapshotView)
    ensures
        aggregator::second_of(s) * 1_000_000_000 <= s.timestamp_ns,
        s.timestamp_ns < (aggregator::second_of(s) + 1) * 1_000_000_000,
{
}

/// Snapshots of ingest workers are put with the ingest workers, those of query workers with the
/// query workers, and each only once.
pub proof fn snapshots_go_by_their_mode(b: BucketView, s: SnapshotView)
    ensures
        s.worker_mode == "ingest"@ ==> aggregator::with_snapshot(b, s).ingest == b.ingest.push(s)
            && aggregator::with_snapshot(b, s).query == b.query,
        s.worker_mode == "query"@ || s.worker_mode == "query-session"@
            ==> aggregator::with_snapshot(b, s).query == b.query.push(s)
            && aggregator::with_snapshot(b, s).ingest == b.ingest,
        aggregator::with_snapshot(b, s).timestamp_s == b.timestamp_s,
{
    reveal_strlit("ingest");
    reveal_strlit("query");
    reveal_strlit("query-session");
    assert("ingest"@.len() == 6 && "query"@.len() == 5 && "query-session"@.len() == 13);
}

/// A snapshot counts until one came of a second more than three seconds later.
pub proof fn snapshots_have_three_seconds_of_grace(a: AggregatorView, s: SnapshotView)
    requires
        forall|i: int|
            0 <= i < a.buckets.len() ==> (#[trigger] a.buckets[i]).timestamp_s
                <= aggregator::second_of(s) + 3,
    ensures
        ({
            let b = aggregator::with_snapshot(
                aggregator::bucket_at(a.buckets, aggregator::second_of(s), 0),
                s,
            );
            &&& aggregator::reported(a, s).timeline == aggregator::replace_point(
                a.timeline,
                bucket::aggregate(b, a.kafka_consumer_lag),
                0,
            )
            &&& b.timestamp_s == aggregator::second_of(s)
        }),
{
    bucket_of_its_second(a.buckets, aggregator::second_of(s), 0);
}

proof fn bucket_of_its_second(buckets: Seq<BucketView>, second: u64, i: int)
    requires
        0 <= i,
    ensures
        aggregator::bucket_at(buckets, second, i).timestamp_s == second,
    decreases buckets.len() - i,
{
    if i < buckets.len() {
        bucket_of_its_second(buckets, second, i + 1);
    }
}

/// A snapshot of a second more than three seconds before another that came changes no point.
pub proof fn late_snapshots_change_nothing(a: AggregatorView, s: SnapshotView, i: int)
    requires
        0 <= i < a.buckets.len(),
        a.buckets[i].timestamp_s > aggregator::second_of(s) + 3,
    ensures
        aggregator::reported(a, s).timeline == a.timeline,
        aggregator::reported(a, s).buckets == a.buckets,
        aggregator::reported(a, s).per_query == a.per_query,
{
}

/// All records of queries that ran out of time are kept, in order, and of failed queries a
/// thousand at most, the first that came.
pub proof fn records_are_kept(a: AggregatorView, s: SnapshotView)
    requires
        !aggregator::late(a.buckets, aggregator::second_of(s)),
        a.errors.len() <= 1000,
    ensures
        ({
            let after = aggregator::reported(a, s);
            &&& after.timed_out == a.timed_out + s.timed_out
            &&& after.errors.len() == if a.errors.len() + s.errors.len() > 1000 {
                1000
            } else {
                a.errors.len() + s.errors.len()
            }
            &&& after.errors.take(a.errors.len() as int) == a.errors
            &&& forall|k: int|
                a.errors.len() <= k < after.errors.len() ==> #[trigger] after.errors[k] == s.errors[k
                    - a.errors.len()]
        }),
{
    let after = aggregator::reported(a, s);
    assert(after.errors.take(a.errors.len() as int) =~= a.errors);
}

/// The lags that are known of the streams.
pub open spec fn lag_total(entries: Seq<(Seq<char>, u64)>) -> int
    decreases entries.len(),
{
    if entries.len() == 0 {
        0
    } else {
        lag_total(entries.drop_last()) + entries.last().1
    }
}

proof fn lags_agree(entries: Seq<(Seq<char>, u64)>)
    ensures
        model::sum(aggregator::lags(entries)) == lag_total(entries),
        lag_total(entries) >= 0,
    decreases entries.len(),
{
    let all = aggregator::lags(entries);
    if entries.len() > 0 {
        lags_agree(entries.drop_last());
        assert(all.drop_last() =~= aggregator::lags(entries.drop_last()));
    } else {
        assert(all =~= Seq::<int>::empty());
    }
}

/// The lag of a run is that of all its streams together, each as it was measured last.
pub proof fn the_lag_is_that_of_all_streams(a: AggregatorView, stream: Seq<char>, lag: u64)
    ensures
        ({
            let after = aggregator::lagging(a, stream, lag);
            &&& after.kafka_consumer_lag == held(lag_total(after.per_stream_lag))
            &&& model::find(after.per_stream_lag, stream) == Some(lag)
            &&& forall|other: Seq<char>|
                other != stream ==> #[trigger] model::find(after.per_stream_lag, other)
                    == model::find(a.per_stream_lag, other)
            &&& after.timeline == a.timeline
        }),
{
    let after = aggregator::lagging(a, stream, lag);
    lags_agree(after.per_stream_lag);
    assert forall|other: Seq<char>| other != stream implies #[trigger] model::find(
        after.per_stream_lag,
        other,
    ) == model::find(a.per_stream_lag, other) by {
        model::bind_then_find(a.per_stream_lag, stream, lag, other);
    }
    model::bind_then_find(a.per_stream_lag, stream, lag, stream);
}

/// What is known of a query after a snapshot: its timeouts are counted.
pub proof fn timeouts_are_counted(
    per_query: Seq<(Seq<char>, crate::aggregator::AccumulatorView)>,
    t: Seq<TimeoutView>,
    name: Seq<char>,
    n: int,
)
    requires
        0 <= n <= t.len(),
        aggregator::known(per_query, name).timeout_count + n <= u64::MAX,
    ensures
        ({
            let after = aggregator::known(aggregator::after_timeouts(per_query, t, n), name);
            &&& after.timeout_count == aggregator::known(per_query, name).timeout_count + timeouts_of(
                t.take(n),
                name,
            )
            &&& after.latencies == aggregator::known(per_query, name).latencies
            &&& after.error_count == aggregator::known(per_query, name).error_count
            &&& 0 <= timeouts_of(t.take(n), name) <= n
        }),
    decreases n,
{
    if n > 0 {
        timeouts_are_counted(per_query, t, name, n - 1);
        assert(t.take(n).drop_last() =~= t.take(n - 1));
        let before = aggregator::after_timeouts(per_query, t, n - 1);
        let who = t[n - 1].query_name;
        let a = aggregator::known(before, who);
        let v = crate::aggregator::AccumulatorView {
            timeout_count: aggregator::count_sum(a.timeout_count, 1),
            ..a
        };
        model::bind_then_find(before, who, v, name);
    }
}

/// How many of the records are of a query.
pub open spec fn timeouts_of(t: Seq<TimeoutView>, name: Seq<char>) -> int
    decreases t.len(),
{
    if t.len() == 0 {
        0
    } else {
        timeouts_of(t.drop_last(), name) + if t.last().query_name == name {
            1int
        } else {
            0
        }
    }
}

} // verus!
