//! What a second says of single queries and of groups: their percentiles are those of their own
//! latencies, as all workers tell them, and series of them are written in the order of time.
use vstd::prelude::*;
use vstd::string::*;
use crate::aggregator;
use crate::aggregator::{AccumulatorView, AggregatorView};
use crate::bucket;
use crate::bucket::BucketView;
use crate::deployment_laws::member;
use crate::docs::ToDoc;
use crate::json;
use crate::json::Doc;
use crate::latency::TDigestCentroid;
use crate::metrics::{PerQueryTimeSeriesPoint, QueryPointView};
use crate::model;
use crate::order;
use crate::percentile_laws;
use crate::results;
use crate::second_laws::{held, ranks, timeouts_are_counted, timeouts_of};
use crate::snapshot::{SnapshotView, TypeView};

verus! {

proof fn point_keys()
    ensures
        "timestamp_s"@ != "phase"@,
        "timestamp_s"@ != "p95_ms"@,
        "phase"@ != "p95_ms"@,
        "timestamp_s"@ != "count"@,
        "phase"@ != "count"@,
        "p95_ms"@ != "count"@,
        "timestamp_s"@ != "error_count"@,
        "phase"@ != "error_count"@,
        "p95_ms"@ != "error_count"@,
        "count"@ != "error_count"@,
{
    reveal_strlit("timestamp_s");
    reveal_strlit("phase");
    reveal_strlit("p95_ms");
    reveal_strlit("count");
    reveal_strlit("error_count");
    assert("timestamp_s"@.len() != "phase"@.len());
    assert("timestamp_s"@.len() != "p95_ms"@.len());
    assert("phase"@.len() != "p95_ms"@.len());
    assert("timestamp_s"@.len() != "count"@.len());
    assert("phase"@[0] != "count"@[0]);
    assert("p95_ms"@.len() != "count"@.len());
    assert("timestamp_s"@[0] != "error_count"@[0]);
    assert("phase"@.len() != "error_count"@.len());
    assert("p95_ms"@.len() != "error_count"@.len());
    assert("count"@.len() != "error_count"@.len());
}

// ---------------------------------------------------------------------------
// Single queries
// ---------------------------------------------------------------------------

/// How many latencies of some kind the entries of a query stand for.
pub open spec fn entry_weight(
    t: Seq<TypeView>,
    name: Seq<char>,
    of_kind: spec_fn(u64) -> bool,
) -> int
    decreases t.len(),
{
    if t.len() == 0 {
        0
    } else {
        entry_weight(t.drop_last(), name, of_kind) + if t.last().query_name == name
            && t.last().latency is Some {
            percentile_laws::weight(t.last().latency->0.centroids, of_kind)
        } else {
            0
        }
    }
}

/// How many latencies of some kind all snapshots tell of a query.
pub open spec fn told_weight(
    s: Seq<SnapshotView>,
    name: Seq<char>,
    of_kind: spec_fn(u64) -> bool,
) -> int
    decreases s.len(),
{
    if s.len() == 0 {
        0
    } else {
        told_weight(s.drop_last(), name, of_kind) + entry_weight(s.last().by_type, name, of_kind)
    }
}

proof fn entries_of_both(
    a: Seq<TypeView>,
    b: Seq<TypeView>,
    name: Seq<char>,
    of_kind: spec_fn(u64) -> bool,
)
    ensures
        entry_weight(a + b, name, of_kind) == entry_weight(a, name, of_kind) + entry_weight(
            b,
            name,
            of_kind,
        ),
    decreases b.len(),
{
    if b.len() > 0 {
        entries_of_both(a, b.drop_last(), name, of_kind);
        assert((a + b).drop_last() =~= a + b.drop_last());
    } else {
        assert(a + b =~= a);
    }
}

proof fn entries_of_all(
    s: Seq<SnapshotView>,
    name: Seq<char>,
    n: int,
    of_kind: spec_fn(u64) -> bool,
)
    requires
        0 <= n <= s.len(),
    ensures
        entry_weight(bucket::all_types(s, n), name, of_kind) == told_weight(
            s.take(n),
            name,
            of_kind,
        ),
    decreases n,
{
    if n > 0 {
        entries_of_all(s, name, n - 1, of_kind);
        assert(s.take(n).drop_last() =~= s.take(n - 1));
        entries_of_both(bucket::all_types(s, n - 1), s[n - 1].by_type, name, of_kind);
    }
}

proof fn dists_weigh(t: Seq<TypeView>, name: Seq<char>, n: int, of_kind: spec_fn(u64) -> bool)
    requires
        0 <= n <= t.len(),
    ensures
        percentile_laws::weight_of_all(bucket::query_dists(t, name, n), of_kind) == entry_weight(
            t.take(n),
            name,
            of_kind,
        ),
    decreases n,
{
    if n > 0 {
        dists_weigh(t, name, n - 1, of_kind);
        assert(t.take(n).drop_last() =~= t.take(n - 1));
        let before = bucket::query_dists(t, name, n - 1);
        let all = bucket::query_dists(t, name, n);
        if t[n - 1].query_name == name && t[n - 1].latency is Some {
            assert(all.drop_last() =~= before);
        }
    }
}

proof fn query_weighs(s: Seq<SnapshotView>, name: Seq<char>, of_kind: spec_fn(u64) -> bool)
    ensures
        ({
            let t = bucket::all_types(s, s.len() as int);
            percentile_laws::weight_of_all(bucket::query_dists(t, name, t.len() as int), of_kind)
                == told_weight(s, name, of_kind)
        }),
{
    let t = bucket::all_types(s, s.len() as int);
    dists_weigh(t, name, t.len() as int, of_kind);
    entries_of_all(s, name, s.len() as int, of_kind);
    assert(t.take(t.len() as int) =~= t);
    assert(s.take(s.len() as int) =~= s);
}

/// The point of a query in a second has the 95th percentile of the query's own latencies, over
/// all workers, and counts them; it is of the phase of the first worker that tells of queries.
pub proof fn points_of_queries_have_their_rank(b: BucketView, name: Seq<char>)
    requires
        told_weight(b.query, name, |m: u64| true) > 0,
    ensures
        ({
            let p = bucket::query_point(b, name);
            let w = |of_kind: spec_fn(u64) -> bool| told_weight(b.query, name, of_kind);
            &&& ranks(w, p.p95_ns, 95)
            &&& p.count == held(told_weight(b.query, name, |m: u64| true))
            &&& b.query.len() > 0 ==> p.phase == b.query[0].phase
        }),
{
    let t = bucket::all_types(b.query, b.query.len() as int);
    let d = bucket::query_dists(t, name, t.len() as int);
    let x = bucket::query_point(b, name).p95_ns;
    query_weighs(b.query, name, |m: u64| true);
    query_weighs(b.query, name, |m: u64| m < x);
    query_weighs(b.query, name, |m: u64| m <= x);
    percentile_laws::percentiles_have_their_rank(d);
    percentile_laws::counts_are_of_all(d);
}

proof fn named_once(t: Seq<TypeView>, n: int)
    requires
        0 <= n <= t.len(),
    ensures
        bucket::timed_names(t, n).no_duplicates(),
        forall|i: int|
            0 <= i < n && (#[trigger] t[i]).latency is Some ==> bucket::timed_names(t, n).contains(
                t[i].query_name,
            ),
    decreases n,
{
    if n > 0 {
        named_once(t, n - 1);
        let before = bucket::timed_names(t, n - 1);
        let all = bucket::timed_names(t, n);
        let name = t[n - 1].query_name;
        if !(t[n - 1].latency is None || before.contains(name)) {
            assert(all[before.len() as int] == name);
            assert forall|i: int| 0 <= i < n && (#[trigger] t[i]).latency is Some implies
                all.contains(t[i].query_name) by {
                if i < n - 1 {
                    let k = choose|k: int| 0 <= k < before.len() && before[k] == t[i].query_name;
                    assert(all[k] == t[i].query_name);
                }
            }
        }
    }
}

/// Every query of which some worker tells a latency has one point in the second.
pub proof fn every_timed_query_has_its_point(b: BucketView, i: int)
    requires
        0 <= i < bucket::all_types(b.query, b.query.len() as int).len(),
        bucket::all_types(b.query, b.query.len() as int)[i].latency is Some,
    ensures
        ({
            let points = bucket::query_points(b);
            let name = bucket::all_types(b.query, b.query.len() as int)[i].query_name;
            &&& exists|k: int|
                0 <= k < points.len() && #[trigger] points[k] == (name, bucket::query_point(b, name))
            &&& forall|j: int, k: int|
                0 <= j < k < points.len() ==> (#[trigger] points[j]).0 != (#[trigger] points[k]).0
        }),
{
    let t = bucket::all_types(b.query, b.query.len() as int);
    let names = bucket::timed_names(t, t.len() as int);
    let points = bucket::query_points(b);
    named_once(t, t.len() as int);
    let name = t[i].query_name;
    assert(names.contains(name));
    let k = choose|k: int| 0 <= k < names.len() && names[k] == name;
    assert(points[k] == (name, bucket::query_point(b, name)));
}

/// A point of a query is written with its second, its phase, its percentile in milliseconds,
/// and its counts.
pub proof fn points_of_queries_are_written(p: QueryPointView)
    ensures
        ({
            let d = PerQueryTimeSeriesPoint::doc_of(p);
            &&& member(d, "timestamp_s"@) == Doc::Uint(p.timestamp_s as nat)
            &&& member(d, "phase"@) == Doc::Text(p.phase)
            &&& member(d, "p95_ms"@) == Doc::Quotient { num: p.p95_ns as nat, den: 1_000_000 }
            &&& member(d, "count"@) == Doc::Uint(p.count as nat)
            &&& member(d, "error_count"@) == Doc::Uint(p.error_count as nat)
        }),
{
    broadcast use json::with_then_get;

    point_keys();
}

/// The series of a query is written in the order of time.
pub proof fn series_are_written_in_order(a: AggregatorView, k: int, i: int, j: int)
    requires
        0 <= k < a.series.len(),
        0 <= i < j < a.series[k].1.len(),
    ensures
        results::persisted(a).series[k].1[i].timestamp_s
            <= results::persisted(a).series[k].1[j].timestamp_s,
{
    let s = a.series[k].1;
    order::by_time_ascends::<PerQueryTimeSeriesPoint>(s, s.len() as int);
}

// ---------------------------------------------------------------------------
// What is gathered over a run
// ---------------------------------------------------------------------------

/// How many of the values are of some kind.
pub open spec fn number_of(values: Seq<u64>, of_kind: spec_fn(u64) -> bool) -> int
    decreases values.len(),
{
    if values.len() == 0 {
        0
    } else {
        number_of(values.drop_last(), of_kind) + if of_kind(values.last()) {
            1int
        } else {
            0
        }
    }
}

proof fn numbers_of_both(a: Seq<u64>, b: Seq<u64>, of_kind: spec_fn(u64) -> bool)
    ensures
        number_of(a + b, of_kind) == number_of(a, of_kind) + number_of(b, of_kind),
    decreases b.len(),
{
    if b.len() > 0 {
        numbers_of_both(a, b.drop_last(), of_kind);
        assert((a + b).drop_last() =~= a + b.drop_last());
    } else {
        assert(a + b =~= a);
    }
}

proof fn number_of_same(s: Seq<u64>, x: u64, of_kind: spec_fn(u64) -> bool)
    requires
        forall|i: int| 0 <= i < s.len() ==> #[trigger] s[i] == x,
    ensures
        number_of(s, of_kind) == if of_kind(x) {
            s.len() as int
        } else {
            0
        },
    decreases s.len(),
{
    if s.len() > 0 {
        let rest = s.drop_last();
        assert forall|i: int| 0 <= i < rest.len() implies #[trigger] rest[i] == x by {
            assert(s[i] == x);
        }
        number_of_same(rest, x, of_kind);
        assert(s[s.len() - 1] == x);
    }
}

proof fn expanded_is_as_heavy(c: Seq<TDigestCentroid>, n: int, of_kind: spec_fn(u64) -> bool)
    requires
        0 <= n <= c.len(),
        forall|i: int| 0 <= i < c.len() ==> (#[trigger] c[i]).count >= 1,
    ensures
        number_of(aggregator::expanded(c, n), of_kind) == percentile_laws::weight(
            c.take(n),
            of_kind,
        ),
    decreases n,
{
    if n > 0 {
        expanded_is_as_heavy(c, n - 1, of_kind);
        assert(c.take(n).drop_last() =~= c.take(n - 1));
        assert(c[n - 1].count >= 1);
        let last = aggregator::repeated(c[n - 1]);
        numbers_of_both(aggregator::expanded(c, n - 1), last, of_kind);
        number_of_same(last, c[n - 1].mean_ns, of_kind);
    }
}

/// What a snapshot tells of a query is added to what is known of it: as many latencies of any
/// kind as it stands for, and its errors; of other queries nothing changes.
pub proof fn latencies_of_queries_are_gathered(
    per_query: Seq<(Seq<char>, AccumulatorView)>,
    t: TypeView,
    other: Seq<char>,
    of_kind: spec_fn(u64) -> bool,
)
    requires
        t.latency is Some,
        forall|i: int|
            0 <= i < t.latency->0.centroids.len() ==> (#[trigger] t.latency->0.centroids[i]).count
                >= 1,
        other != t.query_name,
    ensures
        ({
            let after = aggregator::after_type(per_query, t);
            let then_known = aggregator::known(after, t.query_name);
            let before = aggregator::known(per_query, t.query_name);
            &&& number_of(then_known.latencies, of_kind) == number_of(before.latencies, of_kind)
                + percentile_laws::weight(t.latency->0.centroids, of_kind)
            &&& then_known.latencies.take(before.latencies.len() as int) == before.latencies
            &&& then_known.error_count == held(before.error_count + t.errors)
            &&& then_known.timeout_count == before.timeout_count
            &&& aggregator::known(after, other) == aggregator::known(per_query, other)
        }),
{
    let c = t.latency->0.centroids;
    let a = aggregator::known(per_query, t.query_name);
    let more = aggregator::expanded(c, c.len() as int);
    let v = AccumulatorView {
        latencies: a.latencies + more,
        error_count: aggregator::count_sum(a.error_count, t.errors),
        timeout_count: a.timeout_count,
    };
    model::bind_then_find(per_query, t.query_name, v, t.query_name);
    model::bind_then_find(per_query, t.query_name, v, other);
    expanded_is_as_heavy(c, c.len() as int, of_kind);
    assert(c.take(c.len() as int) =~= c);
    numbers_of_both(a.latencies, more, of_kind);
    assert(v.latencies.take(a.latencies.len() as int) =~= a.latencies);
}

/// A series has the newest point of a second in the place of the one before, and a point of a
/// new second behind the others; points of other seconds stay where they are.
pub proof fn series_have_the_newest_points(points: Seq<QueryPointView>, p: QueryPointView, i: int)
    requires
        0 <= i <= points.len(),
    ensures
        ({
            let r = aggregator::replace_query_point(points, p, i);
            &&& r.contains(p)
            &&& forall|j: int|
                0 <= j < points.len() && (#[trigger] points[j]).timestamp_s != p.timestamp_s ==> r[j]
                    == points[j]
            &&& (exists|j: int| i <= j < points.len() && (#[trigger] points[j]).timestamp_s
                == p.timestamp_s) ==> r.len() == points.len()
            &&& (forall|j: int| i <= j < points.len() ==> (#[trigger] points[j]).timestamp_s
                != p.timestamp_s) ==> r == points.push(p)
        }),
    decreases points.len() - i,
{
    let r = aggregator::replace_query_point(points, p, i);
    if i >= points.len() {
        assert(r[points.len() as int] == p);
    } else if points[i].timestamp_s == p.timestamp_s {
        assert(r[i] == p);
    } else {
        series_have_the_newest_points(points, p, i + 1);
    }
}

/// Every distribution that the entries tell is made of centroids that count.
pub open spec fn all_count(t: Seq<TypeView>) -> bool {
    forall|i: int, k: int|
        0 <= i < t.len() && t[i].latency is Some && 0 <= k < t[i].latency->0.centroids.len() ==> (
        #[trigger] t[i].latency->0.centroids[k]).count >= 1
}

proof fn types_are_gathered(
    per_query: Seq<(Seq<char>, AccumulatorView)>,
    t: Seq<TypeView>,
    n: int,
    name: Seq<char>,
    of_kind: spec_fn(u64) -> bool,
)
    requires
        0 <= n <= t.len(),
        all_count(t),
    ensures
        number_of(
            aggregator::known(aggregator::after_types(per_query, t, n), name).latencies,
            of_kind,
        ) == number_of(aggregator::known(per_query, name).latencies, of_kind) + entry_weight(
            t.take(n),
            name,
            of_kind,
        ),
        aggregator::known(aggregator::after_types(per_query, t, n), name).timeout_count
            == aggregator::known(per_query, name).timeout_count,
    decreases n,
{
    if n > 0 {
        types_are_gathered(per_query, t, n - 1, name, of_kind);
        assert(t.take(n).drop_last() =~= t.take(n - 1));
        let before = aggregator::after_types(per_query, t, n - 1);
        let e = t[n - 1];
        if e.latency is Some {
            assert forall|i: int| 0 <= i < e.latency->0.centroids.len() implies (
            #[trigger] e.latency->0.centroids[i]).count >= 1 by {
                assert(t[n - 1].latency->0.centroids[i].count >= 1);
            }
            let other = if name == e.query_name {
                name.push('x')
            } else {
                name
            };
            assert(other.len() != e.query_name.len() || other != e.query_name);
            latencies_of_queries_are_gathered(before, e, other, of_kind);
        }
    }
}

/// A snapshot that is in time adds the latencies that it tells of a query to those that are
/// known of it, and its timeouts to those counted.
pub proof fn reports_are_gathered(
    a: AggregatorView,
    s: SnapshotView,
    name: Seq<char>,
    of_kind: spec_fn(u64) -> bool,
)
    requires
        !aggregator::late(a.buckets, aggregator::second_of(s)),
        all_count(s.by_type),
        aggregator::known(a.per_query, name).timeout_count + s.timed_out.len() <= u64::MAX,
    ensures
        ({
            let after = aggregator::known(aggregator::reported(a, s).per_query, name);
            let before = aggregator::known(a.per_query, name);
            &&& number_of(after.latencies, of_kind) == number_of(before.latencies, of_kind)
                + entry_weight(s.by_type, name, of_kind)
            &&& after.timeout_count == before.timeout_count + timeouts_of(s.timed_out, name)
        }),
{
    let n = s.by_type.len() as int;
    let mid = aggregator::after_types(a.per_query, s.by_type, n);
    types_are_gathered(a.per_query, s.by_type, n, name, of_kind);
    timeouts_are_counted(mid, s.timed_out, name, s.timed_out.len() as int);
    assert(s.by_type.take(n) =~= s.by_type);
    assert(s.timed_out.take(s.timed_out.len() as int) =~= s.timed_out);
}

proof fn new_points_are_found(
    series: Seq<(Seq<char>, Seq<QueryPointView>)>,
    new: Seq<(Seq<char>, QueryPointView)>,
    n: int,
    k: int,
)
    requires
        0 <= k < n <= new.len(),
        forall|i: int, j: int|
            0 <= i < j < new.len() ==> (#[trigger] new[i]).0 != (#[trigger] new[j]).0,
    ensures
        model::find(aggregator::after_points(series, new, n), new[k].0) is Some,
        model::find(aggregator::after_points(series, new, n), new[k].0)->0.contains(new[k].1),
    decreases n,
{
    let before = aggregator::after_points(series, new, n - 1);
    let e = new[n - 1];
    let points = match model::find(before, e.0) {
        Some(p) => p,
        None => Seq::empty(),
    };
    let v = aggregator::replace_query_point(points, e.1, 0);
    series_have_the_newest_points(points, e.1, 0);
    if k < n - 1 {
        new_points_are_found(series, new, n - 1, k);
        assert(new[k].0 != e.0);
    }
    model::bind_then_find(before, e.0, v, new[k].0);
}

/// When a snapshot that is in time has come, the point that its second then has of a query is
/// in the series of the query.
pub proof fn points_are_in_their_series(a: AggregatorView, s: SnapshotView, k: int)
    requires
        !aggregator::late(a.buckets, aggregator::second_of(s)),
        0 <= k < bucket::query_points(
            aggregator::with_snapshot(
                aggregator::bucket_at(a.buckets, aggregator::second_of(s), 0),
                s,
            ),
        ).len(),
    ensures
        ({
            let b = aggregator::with_snapshot(
                aggregator::bucket_at(a.buckets, aggregator::second_of(s), 0),
                s,
            );
            let p = bucket::query_points(b)[k];
            let series = model::find(aggregator::reported(a, s).series, p.0);
            series is Some && series->0.contains(p.1)
        }),
{
    let b = aggregator::with_snapshot(
        aggregator::bucket_at(a.buckets, aggregator::second_of(s), 0),
        s,
    );
    let points = bucket::query_points(b);
    let t = bucket::all_types(b.query, b.query.len() as int);
    named_once(t, t.len() as int);
    new_points_are_found(a.series, points, points.len() as int, k);
}

// ---------------------------------------------------------------------------
// Groups
// ---------------------------------------------------------------------------

/// How many latencies of some kind the workers of a group tell.
pub open spec fn group_weight(
    s: Seq<SnapshotView>,
    group: Seq<char>,
    of_kind: spec_fn(u64) -> bool,
) -> int
    decreases s.len(),
{
    if s.len() == 0 {
        0
    } else {
        group_weight(s.drop_last(), group, of_kind) + if s.last().query_group == group
            && s.last().query_latency is Some {
            percentile_laws::weight(s.last().query_latency->0.centroids, of_kind)
        } else {
            0
        }
    }
}

proof fn group_weighs(s: Seq<SnapshotView>, group: Seq<char>, of_kind: spec_fn(u64) -> bool)
    ensures
        percentile_laws::weight_of_all(
            bucket::dists(bucket::in_group(s, group), true),
            of_kind,
        ) == group_weight(s, group, of_kind),
    decreases s.len(),
{
    reveal(Seq::filter);
    if s.len() > 0 {
        group_weighs(s.drop_last(), group, of_kind);
        let before = bucket::in_group(s.drop_last(), group);
        let all = bucket::in_group(s, group);
        if s.last().query_group == group {
            assert(all =~= before.push(s.last()));
            assert(all.drop_last() =~= before);
            if s.last().query_latency is Some {
                let d = bucket::dists(all, true);
                assert(d.drop_last() =~= bucket::dists(before, true));
            }
        } else {
            assert(all =~= before);
        }
    } else {
        assert(bucket::in_group(s, group) =~= Seq::empty());
    }
}

/// The percentiles of a group are those of the latencies of its own workers.
pub proof fn percentiles_of_groups_are_their_own(s: Seq<SnapshotView>, group: Seq<char>)
    requires
        group_weight(s, group, |m: u64| true) > 0,
    ensures
        ({
            let l = bucket::group_metrics(s, group).latency;
            let w = |of_kind: spec_fn(u64) -> bool| group_weight(s, group, of_kind);
            &&& ranks(w, l.p50, 50)
            &&& ranks(w, l.p95, 95)
            &&& ranks(w, l.p99, 99)
            &&& l.count == held(group_weight(s, group, |m: u64| true))
        }),
{
    let d = bucket::dists(bucket::in_group(s, group), true);
    let l = bucket::group_metrics(s, group).latency;
    group_weighs(s, group, |m: u64| true);
    group_weighs(s, group, |m: u64| m < l.p50);
    group_weighs(s, group, |m: u64| m <= l.p50);
    group_weighs(s, group, |m: u64| m < l.p95);
    group_weighs(s, group, |m: u64| m <= l.p95);
    group_weighs(s, group, |m: u64| m < l.p99);
    group_weighs(s, group, |m: u64| m <= l.p99);
    percentile_laws::percentiles_have_their_rank(d);
    percentile_laws::counts_are_of_all(d);
}

} // verus!
