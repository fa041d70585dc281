//! What a percentile is: so many hundredths of the latencies are no greater.
use vstd::prelude::*;
use crate::latency;
use crate::latency::{DistributionView, TDigestCentroid, SHIFT};
use crate::metrics::PercentileSummary;
use crate::model;
use crate::sorting;

verus! {

/// How many latencies those centroids stand for whose mean is of some kind.
pub open spec fn weight(c: Seq<TDigestCentroid>, of_kind: spec_fn(u64) -> bool) -> int
    decreases c.len(),
{
    if c.len() == 0 {
        0
    } else {
        weight(c.drop_last(), of_kind) + if of_kind(c.last().mean_ns) {
            c.last().count as int
        } else {
            0
        }
    }
}

/// The same for the centroids of many distributions.
pub open spec fn weight_of_all(dists: Seq<DistributionView>, of_kind: spec_fn(u64) -> bool) -> int
    decreases dists.len(),
{
    if dists.len() == 0 {
        0
    } else {
        weight_of_all(dists.drop_last(), of_kind) + weight(dists.last().centroids, of_kind)
    }
}

/// How many latencies the distributions stand for.
pub open spec fn all_of(dists: Seq<DistributionView>) -> int {
    weight_of_all(dists, |m: u64| true)
}

/// A number is the percentile: at least so many hundredths of the latencies, rounded down, are
/// no greater, and fewer than that are less, if any.
pub open spec fn has_rank(dists: Seq<DistributionView>, x: u64, percent: int) -> bool {
    let want = all_of(dists) * percent / 100;
    let below = weight_of_all(dists, |m: u64| m < x);
    &&& weight_of_all(dists, |m: u64| m <= x) >= want
    &&& below < want || below == 0
}

spec fn key_weight(keys: Seq<u128>, of_kind: spec_fn(u64) -> bool) -> int
    decreases keys.len(),
{
    if keys.len() == 0 {
        0
    } else {
        key_weight(keys.drop_last(), of_kind) + if of_kind(latency::key_mean(keys.last()) as u64) {
            latency::key_count(keys.last())
        } else {
            0
        }
    }
}

proof fn key_tells(c: TDigestCentroid)
    ensures
        latency::key_mean(latency::key_of(c)) == c.mean_ns,
        latency::key_count(latency::key_of(c)) == c.count,
{
    let whole = c.mean_ns * SHIFT + c.count;
    assert(whole <= u128::MAX) by (nonlinear_arith)
        requires
            c.mean_ns <= 0xffff_ffff_ffff_ffff,
            c.count <= 0xffff_ffff_ffff_ffff,
            whole == c.mean_ns * SHIFT + c.count,
            SHIFT == 0x1_0000_0000_0000_0000,
    ;
    vstd::arithmetic::div_mod::lemma_fundamental_div_mod_converse(
        whole as int,
        SHIFT as int,
        c.mean_ns as int,
        c.count as int,
    );
}

proof fn weight_of_keys(c: Seq<TDigestCentroid>, of_kind: spec_fn(u64) -> bool)
    ensures
        key_weight(latency::keys_of(c), of_kind) == weight(c, of_kind),
    decreases c.len(),
{
    if c.len() > 0 {
        weight_of_keys(c.drop_last(), of_kind);
        key_tells(c.last());
        assert(latency::keys_of(c).drop_last() =~= latency::keys_of(c.drop_last()));
    }
}

proof fn weight_of_both(a: Seq<u128>, b: Seq<u128>, of_kind: spec_fn(u64) -> bool)
    ensures
        key_weight(a + b, of_kind) == key_weight(a, of_kind) + key_weight(b, of_kind),
    decreases b.len(),
{
    if b.len() == 0 {
        assert(a + b =~= a);
    } else {
        weight_of_both(a, b.drop_last(), of_kind);
        assert((a + b).drop_last() =~= a + b.drop_last());
    }
}

proof fn weight_of_raw(dists: Seq<DistributionView>, n: int, of_kind: spec_fn(u64) -> bool)
    requires
        0 <= n <= dists.len(),
    ensures
        key_weight(latency::all_keys(dists, n), of_kind) == weight_of_all(dists.take(n), of_kind),
    decreases n,
{
    if n > 0 {
        weight_of_raw(dists, n - 1, of_kind);
        assert(dists.take(n).drop_last() =~= dists.take(n - 1));
        weight_of_keys(dists[n - 1].centroids, of_kind);
        weight_of_both(
            latency::all_keys(dists, n - 1),
            latency::keys_of(dists[n - 1].centroids),
            of_kind,
        );
    } else {
        assert(dists.take(0) =~= Seq::empty());
    }
}

proof fn weight_of_inserted(s: Seq<u128>, x: u128, of_kind: spec_fn(u64) -> bool)
    ensures
        key_weight(sorting::inserted(s, x), of_kind) == key_weight(s, of_kind) + if of_kind(
            latency::key_mean(x) as u64,
        ) {
            latency::key_count(x)
        } else {
            0
        },
    decreases s.len(),
{
    let r = sorting::inserted(s, x);
    if s.len() == 0 || s.last() <= x {
        assert(r.drop_last() =~= s);
    } else {
        weight_of_inserted(s.drop_last(), x, of_kind);
        assert(r.drop_last() =~= sorting::inserted(s.drop_last(), x));
    }
}

proof fn weight_of_arranged(s: Seq<u128>, of_kind: spec_fn(u64) -> bool)
    ensures
        key_weight(sorting::arranged(s), of_kind) == key_weight(s, of_kind),
    decreases s.len(),
{
    if s.len() > 0 {
        weight_of_arranged(s.drop_last(), of_kind);
        weight_of_inserted(sorting::arranged(s.drop_last()), s.last(), of_kind);
    }
}

proof fn weight_is_natural(keys: Seq<u128>, of_kind: spec_fn(u64) -> bool)
    ensures
        0 <= key_weight(keys, of_kind),
    decreases keys.len(),
{
    if keys.len() > 0 {
        weight_is_natural(keys.drop_last(), of_kind);
    }
}

proof fn weight_grows(keys: Seq<u128>, i: int, of_kind: spec_fn(u64) -> bool)
    requires
        0 <= i <= keys.len(),
    ensures
        key_weight(keys.take(i), of_kind) <= key_weight(keys, of_kind),
    decreases keys.len() - i,
{
    if i < keys.len() {
        weight_grows(keys, i + 1, of_kind);
        assert(keys.take(i + 1).drop_last() =~= keys.take(i));
    } else {
        assert(keys.take(i) =~= keys);
    }
}

/// Where all of the first are of a kind, all of them count.
proof fn weight_of_kind(keys: Seq<u128>, i: int, of_kind: spec_fn(u64) -> bool)
    requires
        0 <= i <= keys.len(),
        forall|k: int| 0 <= k < i ==> of_kind(latency::key_mean(#[trigger] keys[k]) as u64),
    ensures
        key_weight(keys.take(i), of_kind) == key_weight(keys.take(i), |m: u64| true),
    decreases i,
{
    if i > 0 {
        weight_of_kind(keys, i - 1, of_kind);
        assert(keys.take(i).drop_last() =~= keys.take(i - 1));
        assert(keys.take(i).last() == keys[i - 1]);
    } else {
        assert(keys.take(0) =~= Seq::<u128>::empty());
    }
}

/// Where none behind the first is of a kind, no other counts.
proof fn weight_of_no_more(keys: Seq<u128>, i: int, n: int, of_kind: spec_fn(u64) -> bool)
    requires
        0 <= i <= n <= keys.len(),
        forall|k: int| i <= k < keys.len() ==> !of_kind(latency::key_mean(#[trigger] keys[k]) as u64),
    ensures
        key_weight(keys.take(n), of_kind) == key_weight(keys.take(i), of_kind),
    decreases n - i,
{
    if n > i {
        weight_of_no_more(keys, i, n - 1, of_kind);
        assert(keys.take(n).drop_last() =~= keys.take(n - 1));
        assert(keys.take(n).last() == keys[n - 1]);
    }
}

proof fn fewer_of_kind(keys: Seq<u128>, of_kind: spec_fn(u64) -> bool)
    ensures
        key_weight(keys, of_kind) <= key_weight(keys, |m: u64| true),
    decreases keys.len(),
{
    if keys.len() > 0 {
        fewer_of_kind(keys.drop_last(), of_kind);
    }
}

proof fn means_ascend(keys: Seq<u128>, i: int, j: int)
    requires
        sorting::ascending(keys),
        0 <= i <= j < keys.len(),
    ensures
        0 <= latency::key_mean(keys[i]) <= latency::key_mean(keys[j]) <= u64::MAX,
{
    let a = keys[i];
    let b = keys[j];
    assert(a <= b);
    assert(a as int / SHIFT as int <= b as int / SHIFT as int) by (nonlinear_arith)
        requires
            a <= b,
            SHIFT == 0x1_0000_0000_0000_0000,
    ;
    assert(b as int / SHIFT as int <= 0xffff_ffff_ffff_ffff) by (nonlinear_arith)
        requires
            b <= 0xffff_ffff_ffff_ffff_ffff_ffff_ffff_ffff,
            SHIFT == 0x1_0000_0000_0000_0000,
    ;
}

proof fn reached_has_rank(keys: Seq<u128>, target: int, i: int)
    requires
        sorting::ascending(keys),
        keys.len() > 0,
        0 <= i <= keys.len(),
        target <= key_weight(keys, |m: u64| true),
        i == 0 || key_weight(keys.take(i), |m: u64| true) < target,
    ensures
        ({
            let x = latency::reached(keys, target, key_weight(keys.take(i), |m: u64| true), i);
            &&& 0 <= x <= u64::MAX
            &&& key_weight(keys, |m: u64| m <= x as u64) >= target
            &&& key_weight(keys, |m: u64| m < x as u64) < target || key_weight(
                keys,
                |m: u64| m < x as u64,
            ) == 0
        }),
    decreases keys.len() - i,
{
    let any = |m: u64| true;
    let before = key_weight(keys.take(i), any);
    if i >= keys.len() {
        assert(keys.take(i) =~= keys);
    } else {
        assert(keys.take(i + 1).drop_last() =~= keys.take(i));
        assert(keys.take(i + 1).last() == keys[i]);
        if before + latency::key_count(keys[i]) >= target {
            means_ascend(keys, i, i);
            let x = latency::key_mean(keys[i]) as u64;
            let upto = |m: u64| m <= x;
            let below = |m: u64| m < x;
            assert forall|k: int| 0 <= k < i + 1 implies upto(
                latency::key_mean(#[trigger] keys[k]) as u64,
            ) by {
                means_ascend(keys, k, i);
            }
            weight_of_kind(keys, i + 1, upto);
            weight_grows(keys, i + 1, upto);
            assert forall|k: int| i <= k < keys.len() implies !below(
                latency::key_mean(#[trigger] keys[k]) as u64,
            ) by {
                means_ascend(keys, i, k);
            }
            weight_of_no_more(keys, i, keys.len() as int, below);
            assert(keys.take(keys.len() as int) =~= keys);
            fewer_of_kind(keys.take(i), below);
            weight_is_natural(keys.take(i), below);
            if i == 0 {
                assert(keys.take(0) =~= Seq::<u128>::empty());
            }
        } else {
            reached_has_rank(keys, target, i + 1);
        }
    }
}

proof fn share_is_no_more(total: int, percent: int)
    requires
        0 <= total,
        0 <= percent <= 100,
    ensures
        0 <= total * percent / 100 <= total,
{
    assert(0 <= total * percent <= total * 100) by (nonlinear_arith)
        requires
            0 <= total,
            0 <= percent <= 100,
    ;
}

proof fn sum_is_weight(keys: Seq<u128>)
    ensures
        model::sum(latency::key_counts(keys)) == key_weight(keys, |m: u64| true),
    decreases keys.len(),
{
    if keys.len() > 0 {
        sum_is_weight(keys.drop_last());
        assert(latency::key_counts(keys).drop_last() =~= latency::key_counts(keys.drop_last()));
    }
}

/// Every percentile of merged distributions has its rank: 50, 95 and 99 hundredths of all
/// latencies are no greater than it, and fewer than so many are less.
pub proof fn percentiles_have_their_rank(dists: Seq<DistributionView>)
    requires
        all_of(dists) > 0,
    ensures
        has_rank(dists, latency::merged(dists).p50, 50),
        has_rank(dists, latency::merged(dists).p95, 95),
        has_rank(dists, latency::merged(dists).p99, 99),
{
    let raw = latency::all_keys(dists, dists.len() as int);
    let keys = sorting::arranged(raw);
    sorting::arranged_is_sorted(raw);
    sum_is_weight(keys);
    assert(dists.take(dists.len() as int) =~= dists);
    same_weight(dists, |m: u64| true);
    let total = all_of(dists);
    if keys.len() == 0 {
        assert(raw =~= Seq::<u128>::empty());
    }
    assert(keys.take(0) =~= Seq::<u128>::empty());
    share_is_no_more(total, 50);
    share_is_no_more(total, 95);
    share_is_no_more(total, 99);
    reached_has_rank(keys, total * 50 / 100, 0);
    reached_has_rank(keys, total * 95 / 100, 0);
    reached_has_rank(keys, total * 99 / 100, 0);
    let r = latency::merged(dists);
    same_weight(dists, |m: u64| m <= r.p50);
    same_weight(dists, |m: u64| m < r.p50);
    same_weight(dists, |m: u64| m <= r.p95);
    same_weight(dists, |m: u64| m < r.p95);
    same_weight(dists, |m: u64| m <= r.p99);
    same_weight(dists, |m: u64| m < r.p99);
}

proof fn same_weight(dists: Seq<DistributionView>, of_kind: spec_fn(u64) -> bool)
    ensures
        key_weight(
            sorting::arranged(latency::all_keys(dists, dists.len() as int)),
            of_kind,
        ) == weight_of_all(dists, of_kind),
{
    weight_of_raw(dists, dists.len() as int, of_kind);
    weight_of_arranged(latency::all_keys(dists, dists.len() as int), of_kind);
    assert(dists.take(dists.len() as int) =~= dists);
}

/// The count of merged distributions is how many latencies they stand for, as far as 64 bits
/// reach.
pub proof fn counts_are_of_all(dists: Seq<DistributionView>)
    requires
        all_of(dists) > 0,
    ensures
        all_of(dists) <= 0xffff_ffff_ffff_ffff ==> latency::merged(dists).count == all_of(dists),
        all_of(dists) > 0xffff_ffff_ffff_ffff ==> latency::merged(dists).count
            == 0xffff_ffff_ffff_ffff,
{
    let keys = sorting::arranged(latency::all_keys(dists, dists.len() as int));
    sum_is_weight(keys);
    same_weight(dists, |m: u64| true);
}

/// Distributions that stand for no latency have no percentiles, and no greatest latency.
pub proof fn nothing_has_no_percentile(dists: Seq<DistributionView>)
    requires
        all_of(dists) == 0,
    ensures
        latency::merged(dists) == (PercentileSummary { p50: 0, p95: 0, p99: 0, max: 0, count: 0 }),
{
    same_weight(dists, |m: u64| true);
    sum_is_weight(sorting::arranged(latency::all_keys(dists, dists.len() as int)));
}

// ---------------------------------------------------------------------------
// From values to percentiles
// ---------------------------------------------------------------------------

/// How many of the values are of some kind.
pub open spec fn how_many(values: Seq<u64>, of_kind: spec_fn(u64) -> bool) -> int
    decreases values.len(),
{
    if values.len() == 0 {
        0
    } else {
        how_many(values.drop_last(), of_kind) + if of_kind(values.last()) {
            1int
        } else {
            0
        }
    }
}

spec fn how_many_wide(values: Seq<u128>, of_kind: spec_fn(u64) -> bool) -> int
    decreases values.len(),
{
    if values.len() == 0 {
        0
    } else {
        how_many_wide(values.drop_last(), of_kind) + if of_kind(values.last() as u64) {
            1int
        } else {
            0
        }
    }
}

proof fn widened_keeps(values: Seq<u64>, of_kind: spec_fn(u64) -> bool)
    ensures
        how_many_wide(latency::widened(values), of_kind) == how_many(values, of_kind),
    decreases values.len(),
{
    if values.len() > 0 {
        widened_keeps(values.drop_last(), of_kind);
        assert(latency::widened(values).drop_last() =~= latency::widened(values.drop_last()));
    }
}

proof fn inserted_keeps(s: Seq<u128>, x: u128, of_kind: spec_fn(u64) -> bool)
    ensures
        how_many_wide(sorting::inserted(s, x), of_kind) == how_many_wide(s, of_kind) + if of_kind(
            x as u64,
        ) {
            1int
        } else {
            0
        },
    decreases s.len(),
{
    let r = sorting::inserted(s, x);
    if s.len() == 0 || s.last() <= x {
        assert(r.drop_last() =~= s);
    } else {
        inserted_keeps(s.drop_last(), x, of_kind);
        assert(r.drop_last() =~= sorting::inserted(s.drop_last(), x));
    }
}

proof fn arranged_keeps(s: Seq<u128>, of_kind: spec_fn(u64) -> bool)
    ensures
        how_many_wide(sorting::arranged(s), of_kind) == how_many_wide(s, of_kind),
    decreases s.len(),
{
    if s.len() > 0 {
        arranged_keeps(s.drop_last(), of_kind);
        inserted_keeps(sorting::arranged(s.drop_last()), s.last(), of_kind);
    }
}

proof fn single_centroids(sorted: Seq<u128>, start: int)
    requires
        0 <= start <= sorted.len(),
        forall|i: int| 0 <= i < sorted.len() ==> (#[trigger] sorted[i]) <= u64::MAX,
    ensures
        latency::centroids_from(sorted, 1, start).len() == sorted.len() - start,
        forall|i: int|
            0 <= i < sorted.len() - start ==> (#[trigger] latency::centroids_from(
                sorted,
                1,
                start,
            )[i]) == (TDigestCentroid { mean_ns: sorted[start + i] as u64, count: 1 }),
    decreases sorted.len() - start,
{
    if start < sorted.len() {
        single_centroids(sorted, start + 1);
        let part = sorted.subrange(start, start + 1);
        let nums = latency::numbers(part);
        assert(nums =~= seq![sorted[start] as int]);
        assert(model::sum(nums) == sorted[start]) by {
            assert(nums.drop_last() =~= Seq::<int>::empty());
            assert(model::sum(nums.drop_last()) == 0);
        }
        let x = sorted[start] as int;
        assert((2 * x + 1) / 2 == x);
        let first = latency::centroid_of(part);
        assert(first == (TDigestCentroid { mean_ns: sorted[start] as u64, count: 1 }));
        let rest = latency::centroids_from(sorted, 1, start + 1);
        let all = latency::centroids_from(sorted, 1, start);
        assert(all == seq![first] + rest);
        assert forall|i: int| 0 <= i < sorted.len() - start implies (#[trigger] all[i]) == (
        TDigestCentroid { mean_ns: sorted[start + i] as u64, count: 1 }) by {
            if i > 0 {
                assert(all[i] == rest[i - 1]);
            }
        }
    }
}

proof fn weight_of_singles(
    sorted: Seq<u128>,
    c: Seq<TDigestCentroid>,
    of_kind: spec_fn(u64) -> bool,
)
    requires
        c.len() == sorted.len(),
        forall|i: int|
            0 <= i < c.len() ==> (#[trigger] c[i]) == (TDigestCentroid {
                mean_ns: sorted[i] as u64,
                count: 1,
            }),
    ensures
        weight(c, of_kind) == how_many_wide(sorted, of_kind),
    decreases c.len(),
{
    if c.len() > 0 {
        assert(c.last() == c[c.len() - 1]);
        assert forall|i: int| 0 <= i < c.drop_last().len() implies (#[trigger] c.drop_last()[i]) == (
        TDigestCentroid { mean_ns: sorted.drop_last()[i] as u64, count: 1 }) by {
            assert(c.drop_last()[i] == c[i]);
        }
        weight_of_singles(sorted.drop_last(), c.drop_last(), of_kind);
    }
}

/// Fewer than 200 latencies are condensed without a loss: of any kind of latency the centroids
/// stand for as many as were measured.
pub proof fn few_latencies_are_kept(values: Seq<u64>, of_kind: spec_fn(u64) -> bool)
    requires
        values.len() < 200,
    ensures
        weight(latency::distribution(values).centroids, of_kind) == how_many(values, of_kind),
{
    let wide = latency::widened(values);
    let sorted = sorting::arranged(wide);
    sorting::arranged_is_sorted(wide);
    latency::arranged_bound(wide, u64::MAX as u128);
    widened_keeps(values, of_kind);
    arranged_keeps(wide, of_kind);
    if values.len() > 0 {
        single_centroids(sorted, 0);
        weight_of_singles(sorted, latency::centroids_from(sorted, 1, 0), of_kind);
    }
}

/// The percentiles of one worker's second are those of the latencies that it measured, where
/// these are fewer than 200.
pub proof fn percentiles_of_few_latencies(values: Seq<u64>)
    requires
        0 < values.len() < 200,
    ensures
        ({
            let n = values.len() as int;
            let r = latency::merged(seq![latency::distribution(values)]);
            let right = |x: u64, percent: int|
                how_many(values, |v: u64| v <= x) >= n * percent / 100 && (how_many(
                    values,
                    |v: u64| v < x,
                ) < n * percent / 100 || how_many(values, |v: u64| v < x) == 0);
            right(r.p50, 50) && right(r.p95, 95) && right(r.p99, 99)
        }),
{
    let d = latency::distribution(values);
    let one = seq![d];
    only_one(d, |m: u64| true);
    few_latencies_are_kept(values, |m: u64| true);
    all_are_counted(values);
    percentiles_have_their_rank(one);
    let r = latency::merged(one);
    few_both(values, r.p50);
    few_both(values, r.p95);
    few_both(values, r.p99);
}

proof fn few_both(values: Seq<u64>, x: u64)
    requires
        values.len() < 200,
    ensures
        weight_of_all(seq![latency::distribution(values)], |m: u64| m <= x) == how_many(
            values,
            |v: u64| v <= x,
        ),
        weight_of_all(seq![latency::distribution(values)], |m: u64| m < x) == how_many(
            values,
            |v: u64| v < x,
        ),
{
    let d = latency::distribution(values);
    only_one(d, |m: u64| m <= x);
    only_one(d, |m: u64| m < x);
    few_latencies_are_kept(values, |m: u64| m <= x);
    few_latencies_are_kept(values, |m: u64| m < x);
}

proof fn only_one(d: DistributionView, of_kind: spec_fn(u64) -> bool)
    ensures
        weight_of_all(seq![d], of_kind) == weight(d.centroids, of_kind),
{
    let one = seq![d];
    assert(one.drop_last() =~= Seq::empty());
    assert(weight_of_all(one.drop_last(), of_kind) == 0);
}

proof fn all_are_counted(values: Seq<u64>)
    ensures
        how_many(values, |v: u64| true) == values.len(),
    decreases values.len(),
{
    if values.len() > 0 {
        all_are_counted(values.drop_last());
    }
}

/// A percentile of sorted values is the one whose place is nearest to so many hundredths of the
/// way from the first to the last.
pub proof fn percentiles_of_values_are_near_their_place(sorted: Seq<u128>, percent: int)
    requires
        sorted.len() > 0,
        0 <= percent <= 100,
    ensures
        exists|i: int|
            0 <= i < sorted.len() && #[trigger] sorted[i] == latency::percentile(sorted, percent)
                && -50 < 100 * i - percent * (sorted.len() - 1) <= 50,
{
    let n = sorted.len() as int;
    let i = latency::percentile_index(n, percent);
    assert(0 <= percent * (n - 1) <= 100 * (n - 1)) by (nonlinear_arith)
        requires
            0 <= percent <= 100,
            n >= 1,
    ;
    assert(sorted[i] == latency::percentile(sorted, percent));
}

} // verus!
