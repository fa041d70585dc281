//! What condensing and merging latencies keeps.
use vstd::prelude::*;
use vstd::seq_lib::group_to_multiset_ensures;
use crate::latency;
use crate::latency::{DistributionView, TDigestCentroid, CENTROIDS, SHIFT};
use crate::metrics::PercentileSummary;
use crate::model;
use crate::rates;
use crate::sorting;

verus! {

// ---------------------------------------------------------------------------
// Sums and orders
// ---------------------------------------------------------------------------

proof fn same_order(a: Seq<u128>, b: Seq<u128>)
    requires
        a.to_multiset() == b.to_multiset(),
    ensures
        sorting::arranged(a) == sorting::arranged(b),
{
    sorting::arranged_is_sorted(a);
    sorting::arranged_is_sorted(b);
    sorting::one_order(sorting::arranged(a), sorting::arranged(b));
}

proof fn sum_of_both(a: Seq<int>, b: Seq<int>)
    ensures
        model::sum(a + b) == model::sum(a) + model::sum(b),
    decreases b.len(),
{
    if b.len() == 0 {
        assert(a + b =~= a);
    } else {
        sum_of_both(a, b.drop_last());
        assert((a + b).drop_last() =~= a + b.drop_last());
    }
}

proof fn sum_of_inserted(s: Seq<u128>, x: u128)
    ensures
        model::sum(latency::numbers(sorting::inserted(s, x))) == model::sum(latency::numbers(s))
            + x,
    decreases s.len(),
{
    let r = sorting::inserted(s, x);
    if s.len() == 0 || s.last() <= x {
        assert(latency::numbers(r).drop_last() =~= latency::numbers(s));
    } else {
        sum_of_inserted(s.drop_last(), x);
        assert(latency::numbers(r).drop_last() =~= latency::numbers(
            sorting::inserted(s.drop_last(), x),
        ));
        assert(latency::numbers(s).drop_last() =~= latency::numbers(s.drop_last()));
    }
}

proof fn sum_of_arranged(s: Seq<u128>)
    ensures
        model::sum(latency::numbers(sorting::arranged(s))) == model::sum(latency::numbers(s)),
    decreases s.len(),
{
    if s.len() > 0 {
        sum_of_arranged(s.drop_last());
        sum_of_inserted(sorting::arranged(s.drop_last()), s.last());
        assert(latency::numbers(s).drop_last() =~= latency::numbers(s.drop_last()));
    }
}

proof fn sum_within(s: Seq<u128>, bound: u128)
    requires
        forall|i: int| 0 <= i < s.len() ==> (#[trigger] s[i]) <= bound,
    ensures
        0 <= model::sum(latency::numbers(s)) <= s.len() * bound,
    decreases s.len(),
{
    if s.len() > 0 {
        let front = s.drop_last();
        assert forall|i: int| 0 <= i < front.len() implies (#[trigger] front[i]) <= bound by {
            assert(front[i] == s[i]);
        }
        sum_within(front, bound);
        assert(latency::numbers(s).drop_last() =~= latency::numbers(front));
        assert(s.len() * bound == front.len() * bound + bound) by (nonlinear_arith)
            requires
                s.len() == front.len() + 1,
        ;
    } else {
        assert(0 * bound == 0) by (nonlinear_arith);
    }
}

// ---------------------------------------------------------------------------
// Condensing
// ---------------------------------------------------------------------------

/// What a distribution stands for: the sum of its means, each as often as it counts.
pub open spec fn weighted_sum(c: Seq<TDigestCentroid>) -> int {
    model::sum(c.map_values(|x: TDigestCentroid| x.mean_ns * x.count))
}

/// The sum of latencies.
pub open spec fn sum_of(values: Seq<u64>) -> int {
    model::sum(values.map_values(|v: u64| v as int))
}

proof fn widened_count(values: Seq<u64>, x: u128)
    ensures
        latency::widened(values).to_multiset().count(x) == if x <= u64::MAX {
            values.to_multiset().count(x as u64)
        } else {
            0
        },
    decreases values.len(),
{
    broadcast use group_to_multiset_ensures;

    let wide = latency::widened(values);
    if values.len() == 0 {
        assert(wide =~= Seq::<u128>::empty());
        assert(!wide.contains(x));
        assert(!values.contains(x as u64));
    } else {
        let front = values.drop_last();
        widened_count(front, x);
        assert(front.push(values.last()) =~= values);
        assert(latency::widened(front).push(values.last() as u128) =~= wide);
    }
}

/// The order of the latencies is without effect.
pub proof fn condensing_ignores_order(a: Seq<u64>, b: Seq<u64>)
    requires
        a.to_multiset() == b.to_multiset(),
    ensures
        latency::distribution(a) == latency::distribution(b),
{
    broadcast use group_to_multiset_ensures;

    let x = latency::widened(a);
    let y = latency::widened(b);
    assert forall|k: u128| x.to_multiset().count(k) == y.to_multiset().count(k) by {
        widened_count(a, k);
        widened_count(b, k);
    }
    assert(x.to_multiset() =~= y.to_multiset());
    same_order(x, y);
    assert(a.len() == a.to_multiset().len());
    assert(b.len() == b.to_multiset().len());
}

/// The least and the greatest latency are kept.
pub proof fn condensing_keeps_the_extremes(values: Seq<u64>)
    requires
        values.len() > 0,
    ensures
        values.contains(latency::distribution(values).min_ns),
        values.contains(latency::distribution(values).max_ns),
        forall|i: int|
            0 <= i < values.len() ==> latency::distribution(values).min_ns <= #[trigger] values[i]
                <= latency::distribution(values).max_ns,
{
    broadcast use group_to_multiset_ensures;

    let wide = latency::widened(values);
    let sorted = sorting::arranged(wide);
    sorting::arranged_is_sorted(wide);
    let n = sorted.len() as int;
    assert(sorted.contains(sorted[0]) && sorted.contains(sorted[n - 1]));
    assert(sorted.to_multiset().count(sorted[0]) > 0);
    assert(sorted.to_multiset().count(sorted[n - 1]) > 0);
    assert(wide.contains(sorted[0]) && wide.contains(sorted[n - 1]));
    let low = choose|i: int| 0 <= i < wide.len() && wide[i] == sorted[0];
    let high = choose|i: int| 0 <= i < wide.len() && wide[i] == sorted[n - 1];
    assert(values[low] == latency::distribution(values).min_ns);
    assert(values[high] == latency::distribution(values).max_ns);
    assert forall|i: int| 0 <= i < values.len() implies latency::distribution(values).min_ns
        <= #[trigger] values[i] <= latency::distribution(values).max_ns by {
        assert(wide.contains(wide[i]));
        assert(wide.to_multiset().count(wide[i]) > 0);
        assert(sorted.contains(wide[i]));
        let k = choose|k: int| 0 <= k < sorted.len() && sorted[k] == wide[i];
        assert(sorted[0] <= sorted[k] <= sorted[n - 1]);
    }
}

proof fn number_of_centroids(sorted: Seq<u128>, size: int, start: int)
    requires
        size >= 1,
        0 <= start <= sorted.len(),
    ensures
        latency::centroids_from(sorted, size, start).len() == (sorted.len() - start + size - 1)
            / size,
    decreases sorted.len() - start,
{
    let left = sorted.len() - start;
    if start < sorted.len() {
        if left < size {
            number_of_centroids(sorted, size, sorted.len() as int);
            assert((left + size - 1) / size == 1 && (size - 1) / size == 0) by (nonlinear_arith)
                requires
                    1 <= left < size,
            ;
        } else {
            number_of_centroids(sorted, size, start + size);
            assert((left + size - 1) / size == (left - 1) / size + 1) by (nonlinear_arith)
                requires
                    size >= 1,
                    left >= size,
            ;
        }
    } else {
        assert((size - 1) / size == 0) by (nonlinear_arith)
            requires
                size >= 1,
        ;
    }
}

/// There are fewer than 200 centroids: one for each latency where there are fewer than 200 of
/// them.
pub proof fn condensing_is_short(values: Seq<u64>)
    ensures
        latency::distribution(values).centroids.len() <= 199,
        values.len() < 200 ==> latency::distribution(values).centroids.len() == values.len(),
{
    let n = values.len() as int;
    let sorted = sorting::arranged(latency::widened(values));
    sorting::arranged_is_sorted(latency::widened(values));
    let size = latency::chunk_len(n);
    number_of_centroids(sorted, size, 0);
    if n >= 200 {
        let q = n / (CENTROIDS as int);
        assert((n + q - 1) / q <= 199) by (nonlinear_arith)
            requires
                n <= 100 * q + 99,
                q >= 2,
        ;
    }
}

proof fn mean_is_near(s: Seq<u128>)
    requires
        s.len() > 0,
        s.len() <= u64::MAX,
        forall|i: int| 0 <= i < s.len() ==> (#[trigger] s[i]) <= u64::MAX,
    ensures
        ({
            let c = latency::centroid_of(s);
            let total = model::sum(latency::numbers(s));
            &&& c.count == s.len()
            &&& -(s.len() as int) <= 2 * (c.mean_ns * c.count - total) <= s.len()
        }),
{
    let total = model::sum(latency::numbers(s));
    let len = s.len() as int;
    sum_within(s, u64::MAX as u128);
    let m = latency::rounded_mean(s);
    assert(0 <= m <= 0xffff_ffff_ffff_ffff) by (nonlinear_arith)
        requires
            len >= 1,
            0 <= total <= len * 0xffff_ffff_ffff_ffff,
            m == (2 * total + len) / (2 * len),
    ;
    vstd::arithmetic::div_mod::lemma_fundamental_div_mod(2 * total + len, 2 * len);
    let rest = (2 * total + len) % (2 * len);
    assert(-len <= 2 * (m * len - total) <= len) by (nonlinear_arith)
        requires
            2 * total + len == (2 * len) * m + rest,
            0 <= rest < 2 * len,
    ;
}

proof fn centroids_stand_for(sorted: Seq<u128>, size: int, start: int)
    requires
        size >= 1,
        0 <= start <= sorted.len(),
        sorted.len() <= u64::MAX,
        forall|i: int| 0 <= i < sorted.len() ==> (#[trigger] sorted[i]) <= u64::MAX,
    ensures
        ({
            let c = latency::centroids_from(sorted, size, start);
            let total = model::sum(latency::numbers(sorted.skip(start)));
            &&& forall|k: int| 0 <= k < c.len() ==> (#[trigger] c[k]).count >= 1
            &&& -(sorted.len() - start) <= 2 * (weighted_sum(c) - total) <= sorted.len() - start
        }),
    decreases sorted.len() - start,
{
    let all = latency::centroids_from(sorted, size, start);
    let weigh = |x: TDigestCentroid| x.mean_ns * x.count;
    if start < sorted.len() {
        let end = if sorted.len() - start < size {
            sorted.len() as int
        } else {
            start + size
        };
        centroids_stand_for(sorted, size, end);
        let part = sorted.subrange(start, end);
        let first = latency::centroid_of(part);
        let rest = latency::centroids_from(sorted, size, end);
        mean_is_near(part);
        assert(all.map_values(weigh) =~= seq![first.mean_ns * first.count] + rest.map_values(
            weigh,
        ));
        sum_of_both(seq![first.mean_ns * first.count], rest.map_values(weigh));
        let one = seq![first.mean_ns * first.count];
        assert(one.drop_last() =~= Seq::<int>::empty());
        assert(model::sum(one) == first.mean_ns * first.count) by {
            assert(model::sum(one.drop_last()) == 0);
        }
        assert(latency::numbers(sorted.skip(start)) =~= latency::numbers(part)
            + latency::numbers(sorted.skip(end)));
        sum_of_both(latency::numbers(part), latency::numbers(sorted.skip(end)));
        assert forall|k: int| 0 <= k < all.len() implies (#[trigger] all[k]).count >= 1 by {
            if k > 0 {
                assert(all[k] == rest[k - 1]);
            }
        }
    } else {
        assert(all.map_values(weigh) =~= Seq::<int>::empty());
        assert(latency::numbers(sorted.skip(start)) =~= Seq::<int>::empty());
    }
}

/// No centroid is empty, and together they stand for the sum of the latencies, but for the
/// rounding of the means: at most half a nanosecond for each latency.
pub proof fn condensing_keeps_the_sum(values: Seq<u64>)
    requires
        values.len() <= u64::MAX,
    ensures
        ({
            let c = latency::distribution(values).centroids;
            &&& forall|k: int| 0 <= k < c.len() ==> (#[trigger] c[k]).count >= 1
            &&& -(values.len() as int) <= 2 * (weighted_sum(c) - sum_of(values)) <= values.len()
        }),
{
    let wide = latency::widened(values);
    let sorted = sorting::arranged(wide);
    latency::arranged_bound(wide, u64::MAX as u128);
    sum_of_arranged(wide);
    assert(latency::numbers(wide) =~= values.map_values(|v: u64| v as int));
    if values.len() > 0 {
        centroids_stand_for(sorted, latency::chunk_len(values.len() as int), 0);
        assert(sorted.skip(0) =~= sorted);
    } else {
        let c = latency::distribution(values).centroids;
        assert(c.map_values(|x: TDigestCentroid| x.mean_ns * x.count) =~= Seq::<int>::empty());
        assert(values.map_values(|v: u64| v as int) =~= Seq::<int>::empty());
    }
}

// ---------------------------------------------------------------------------
// Merging
// ---------------------------------------------------------------------------

/// The centroid with that key.
pub open spec fn of_key(key: u128) -> TDigestCentroid {
    TDigestCentroid {
        mean_ns: latency::key_mean(key) as u64,
        count: latency::key_count(key) as u64,
    }
}

proof fn keys_tell(c: TDigestCentroid, key: u128)
    ensures
        of_key(latency::key_of(c)) == c,
        latency::key_of(of_key(key)) == key,
        latency::key_mean(latency::key_of(c)) == c.mean_ns,
        latency::key_count(latency::key_of(c)) == c.count,
{
    let whole = c.mean_ns * SHIFT + c.count;
    assert(whole <= u128::MAX) by (nonlinear_arith)
        requires
            c.mean_ns <= 0xffff_ffff_ffff_ffff,
            c.count <= 0xffff_ffff_ffff_ffff,
            whole == c.mean_ns * SHIFT + c.count,
            SHIFT == 0x1_0000_0000_0000_0000,
    ;
    vstd::arithmetic::div_mod::lemma_fundamental_div_mod_converse(
        whole as int,
        SHIFT as int,
        c.mean_ns as int,
        c.count as int,
    );
    vstd::arithmetic::div_mod::lemma_fundamental_div_mod(key as int, SHIFT as int);
    let q = key as int / SHIFT as int;
    assert(0 <= q <= 0xffff_ffff_ffff_ffff) by (nonlinear_arith)
        requires
            q == key as int / SHIFT as int,
            0 <= key <= 0xffff_ffff_ffff_ffff_ffff_ffff_ffff_ffff,
            SHIFT == 0x1_0000_0000_0000_0000,
    ;
    assert(q * SHIFT == SHIFT * q) by (nonlinear_arith);
}

proof fn keys_count(c: Seq<TDigestCentroid>, key: u128)
    ensures
        latency::keys_of(c).to_multiset().count(key) == c.to_multiset().count(of_key(key)),
    decreases c.len(),
{
    broadcast use group_to_multiset_ensures;

    let keys = latency::keys_of(c);
    if c.len() == 0 {
        assert(keys =~= Seq::<u128>::empty());
        assert(!keys.contains(key));
        assert(!c.contains(of_key(key)));
    } else {
        let front = c.drop_last();
        keys_count(front, key);
        assert(front.push(c.last()) =~= c);
        assert(latency::keys_of(front).push(latency::key_of(c.last())) =~= keys);
        keys_tell(c.last(), key);
    }
}

proof fn same_keys(a: Seq<TDigestCentroid>, b: Seq<TDigestCentroid>)
    requires
        a.to_multiset() == b.to_multiset(),
    ensures
        latency::keys_of(a).to_multiset() == latency::keys_of(b).to_multiset(),
{
    let x = latency::keys_of(a).to_multiset();
    let y = latency::keys_of(b).to_multiset();
    assert forall|k: u128| x.count(k) == y.count(k) by {
        keys_count(a, k);
        keys_count(b, k);
    }
    assert(x =~= y);
}

proof fn same_keys_of_all(a: Seq<DistributionView>, b: Seq<DistributionView>, n: int)
    requires
        0 <= n <= a.len(),
        a.len() == b.len(),
        forall|i: int|
            0 <= i < a.len() ==> (#[trigger] a[i]).centroids.to_multiset()
                == b[i].centroids.to_multiset(),
    ensures
        latency::all_keys(a, n).to_multiset() == latency::all_keys(b, n).to_multiset(),
    decreases n,
{
    if n > 0 {
        same_keys_of_all(a, b, n - 1);
        let x = latency::keys_of(a[n - 1].centroids);
        let y = latency::keys_of(b[n - 1].centroids);
        assert(a[n - 1].centroids.to_multiset() == b[n - 1].centroids.to_multiset());
        same_keys(a[n - 1].centroids, b[n - 1].centroids);
        vstd::seq_lib::lemma_multiset_commutative(latency::all_keys(a, n - 1), x);
        vstd::seq_lib::lemma_multiset_commutative(latency::all_keys(b, n - 1), y);
    }
}

/// The order of the centroids within the distributions is without effect.
pub proof fn merging_ignores_order_of_centroids(
    a: Seq<DistributionView>,
    b: Seq<DistributionView>,
)
    requires
        a.len() == b.len(),
        forall|i: int|
            0 <= i < a.len() ==> (#[trigger] a[i]).centroids.to_multiset()
                == b[i].centroids.to_multiset() && a[i].max_ns == b[i].max_ns,
    ensures
        latency::merged(a) == latency::merged(b),
{
    let n = a.len() as int;
    same_keys_of_all(a, b, n);
    same_order(latency::all_keys(a, n), latency::all_keys(b, n));
    assert(latency::maxima(a) =~= latency::maxima(b)) by {
        assert forall|i: int| 0 <= i < a.len() implies latency::maxima(a)[i] == latency::maxima(
            b,
        )[i] by {
            assert(a[i].max_ns == b[i].max_ns);
        }
    }
}

proof fn keys_without_one(dists: Seq<DistributionView>, j: int, n: int)
    requires
        0 <= j < n <= dists.len(),
    ensures
        latency::all_keys(dists, n).to_multiset() == latency::all_keys(
            dists.remove(j),
            n - 1,
        ).to_multiset().add(latency::keys_of(dists[j].centroids).to_multiset()),
    decreases n,
{
    let rest = dists.remove(j);
    let last = latency::keys_of(dists[n - 1].centroids);
    vstd::seq_lib::lemma_multiset_commutative(latency::all_keys(dists, n - 1), last);
    if j == n - 1 {
        same_front(dists, rest, n - 1);
    } else {
        keys_without_one(dists, j, n - 1);
        assert(rest[n - 2] == dists[n - 1]);
        vstd::seq_lib::lemma_multiset_commutative(latency::all_keys(rest, n - 2), last);
        let part = latency::keys_of(dists[j].centroids).to_multiset();
        let front = latency::all_keys(rest, n - 2).to_multiset();
        assert(front.add(part).add(last.to_multiset()) =~= front.add(last.to_multiset()).add(part));
    }
}

proof fn same_front(a: Seq<DistributionView>, b: Seq<DistributionView>, n: int)
    requires
        0 <= n <= a.len(),
        n <= b.len(),
        forall|i: int| 0 <= i < n ==> a[i] == b[i],
    ensures
        latency::all_keys(a, n) == latency::all_keys(b, n),
    decreases n,
{
    if n > 0 {
        same_front(a, b, n - 1);
    }
}

proof fn same_keys_in_any_order(a: Seq<DistributionView>, b: Seq<DistributionView>)
    requires
        a.to_multiset() == b.to_multiset(),
    ensures
        latency::all_keys(a, a.len() as int).to_multiset() == latency::all_keys(
            b,
            b.len() as int,
        ).to_multiset(),
    decreases a.len(),
{
    broadcast use group_to_multiset_ensures;

    assert(a.len() == a.to_multiset().len());
    assert(b.len() == b.to_multiset().len());
    if a.len() > 0 {
        let last = a.len() - 1;
        assert(a.contains(a[last]));
        assert(a.to_multiset().count(a[last]) > 0);
        assert(b.contains(a[last]));
        let j = choose|j: int| 0 <= j < b.len() && b[j] == a[last];
        same_keys_in_any_order(a.remove(last), b.remove(j));
        keys_without_one(a, last, a.len() as int);
        keys_without_one(b, j, b.len() as int);
    }
}

proof fn greatest_reaches(a: Seq<DistributionView>, b: Seq<DistributionView>)
    requires
        a.to_multiset() == b.to_multiset(),
    ensures
        model::greatest(latency::maxima(a)) <= model::greatest(latency::maxima(b)),
{
    broadcast use group_to_multiset_ensures;

    let x = latency::maxima(a);
    let y = latency::maxima(b);
    model::greatest_is_max(x);
    model::greatest_is_max(y);
    if a.len() > 0 {
        let k = choose|k: int| 0 <= k < x.len() && x[k] == model::greatest(x);
        assert(a.contains(a[k]));
        assert(a.to_multiset().count(a[k]) > 0);
        assert(b.contains(a[k]));
        let m = choose|m: int| 0 <= m < b.len() && b[m] == a[k];
        assert(y[m] == x[k]);
    }
}

/// The order of the distributions is without effect.
pub proof fn merging_ignores_order(a: Seq<DistributionView>, b: Seq<DistributionView>)
    requires
        a.to_multiset() == b.to_multiset(),
    ensures
        latency::merged(a) == latency::merged(b),
{
    same_keys_in_any_order(a, b);
    same_order(latency::all_keys(a, a.len() as int), latency::all_keys(b, b.len() as int));
    greatest_reaches(a, b);
    greatest_reaches(b, a);
}

/// How many latencies the first `n` distributions stand for.
pub open spec fn count_of(dists: Seq<DistributionView>, n: int) -> int
    decreases n,
{
    if n <= 0 {
        0
    } else {
        count_of(dists, n - 1) + model::sum(latency::centroid_counts(dists[n - 1].centroids))
    }
}

/// A number is the mean of one of the centroids.
pub open spec fn is_mean(dists: Seq<DistributionView>, mean: u64) -> bool {
    exists|d: int, c: int|
        #![trigger dists[d].centroids[c]]
        0 <= d < dists.len() && 0 <= c < dists[d].centroids.len() && dists[d].centroids[c].mean_ns
            == mean
}

proof fn counts_together(dists: Seq<DistributionView>, n: int)
    requires
        0 <= n <= dists.len(),
    ensures
        model::sum(latency::key_counts(latency::all_keys(dists, n))) == count_of(dists, n),
    decreases n,
{
    let all = latency::key_counts(latency::all_keys(dists, n));
    if n > 0 {
        counts_together(dists, n - 1);
        let c = dists[n - 1].centroids;
        let part = latency::key_counts(latency::keys_of(c));
        assert(part =~= latency::centroid_counts(c)) by {
            assert forall|i: int| 0 <= i < c.len() implies part[i] == latency::centroid_counts(
                c,
            )[i] by {
                keys_tell(c[i], 0);
            }
        }
        let front = latency::key_counts(latency::all_keys(dists, n - 1));
        assert(all =~= front + part);
        sum_of_both(front, part);
    } else {
        assert(all =~= Seq::<int>::empty());
    }
}

proof fn counts_of_inserted(s: Seq<u128>, x: u128)
    ensures
        model::sum(latency::key_counts(sorting::inserted(s, x))) == model::sum(
            latency::key_counts(s),
        ) + latency::key_count(x),
    decreases s.len(),
{
    let r = sorting::inserted(s, x);
    if s.len() == 0 || s.last() <= x {
        assert(latency::key_counts(r).drop_last() =~= latency::key_counts(s));
    } else {
        counts_of_inserted(s.drop_last(), x);
        assert(latency::key_counts(r).drop_last() =~= latency::key_counts(
            sorting::inserted(s.drop_last(), x),
        ));
        assert(latency::key_counts(s).drop_last() =~= latency::key_counts(s.drop_last()));
    }
}

proof fn counts_of_arranged(s: Seq<u128>)
    ensures
        model::sum(latency::key_counts(sorting::arranged(s))) == model::sum(
            latency::key_counts(s),
        ),
    decreases s.len(),
{
    if s.len() > 0 {
        counts_of_arranged(s.drop_last());
        counts_of_inserted(sorting::arranged(s.drop_last()), s.last());
        assert(latency::key_counts(s).drop_last() =~= latency::key_counts(s.drop_last()));
    }
}

proof fn key_is_of_a_centroid(dists: Seq<DistributionView>, n: int, key: u128)
    requires
        0 <= n <= dists.len(),
        latency::all_keys(dists, n).contains(key),
    ensures
        is_mean(dists, latency::key_mean(key) as u64),
    decreases n,
{
    if n > 0 {
        let front = latency::all_keys(dists, n - 1);
        let c = dists[n - 1].centroids;
        let part = latency::keys_of(c);
        let k = choose|k: int| 0 <= k < (front + part).len() && (front + part)[k] == key;
        if k < front.len() {
            assert(front[k] == key);
            key_is_of_a_centroid(dists, n - 1, key);
        } else {
            let m = k - front.len();
            assert(part[m] == key);
            keys_tell(c[m], key);
            assert(dists[n - 1].centroids[m].mean_ns == latency::key_mean(key));
        }
    }
}

proof fn reached_is_a_mean(keys: Seq<u128>, target: int, before: int, i: int)
    requires
        keys.len() > 0,
        0 <= i,
    ensures
        exists|k: int|
            0 <= k < keys.len() && latency::reached(keys, target, before, i) == latency::key_mean(
                #[trigger] keys[k],
            ),
    decreases keys.len() - i,
{
    if i >= keys.len() {
        assert(latency::reached(keys, target, before, i) == latency::key_mean(
            keys[keys.len() - 1],
        ));
    } else if before + latency::key_count(keys[i]) >= target {
        assert(latency::reached(keys, target, before, i) == latency::key_mean(keys[i]));
    } else {
        reached_is_a_mean(keys, target, before + latency::key_count(keys[i]), i + 1);
    }
}

proof fn percentile_is_a_mean(dists: Seq<DistributionView>, target: int)
    requires
        latency::all_keys(dists, dists.len() as int).len() > 0,
    ensures
        ({
            let keys = sorting::arranged(latency::all_keys(dists, dists.len() as int));
            is_mean(dists, latency::reached(keys, target, 0, 0) as u64)
        }),
{
    broadcast use group_to_multiset_ensures;

    let raw = latency::all_keys(dists, dists.len() as int);
    let keys = sorting::arranged(raw);
    sorting::arranged_is_sorted(raw);
    reached_is_a_mean(keys, target, 0, 0);
    let k = choose|k: int|
        0 <= k < keys.len() && latency::reached(keys, target, 0, 0) == latency::key_mean(
            #[trigger] keys[k],
        );
    assert(keys.contains(keys[k]));
    assert(keys.to_multiset().count(keys[k]) > 0);
    assert(raw.contains(keys[k]));
    key_is_of_a_centroid(dists, dists.len() as int, keys[k]);
}

/// Merging counts all latencies. Where there are none, every figure is 0; else each percentile
/// is the mean of one of the centroids, the percentiles are in order, and the greatest latency
/// is the greatest of the distributions.
pub proof fn merging_is_sound(dists: Seq<DistributionView>)
    ensures
        ({
            let r = latency::merged(dists);
            let total = count_of(dists, dists.len() as int);
            if total == 0 {
                r == PercentileSummary::blank()
            } else {
                &&& r.count == rates::at_most_u64(total)
                &&& is_mean(dists, r.p50)
                &&& is_mean(dists, r.p95)
                &&& is_mean(dists, r.p99)
                &&& r.p50 <= r.p95 <= r.p99
                &&& forall|i: int| 0 <= i < dists.len() ==> (#[trigger] dists[i]).max_ns <= r.max
                &&& exists|i: int| 0 <= i < dists.len() && (#[trigger] dists[i]).max_ns == r.max
            }
        }),
{
    let n = dists.len() as int;
    let raw = latency::all_keys(dists, n);
    counts_together(dists, n);
    counts_of_arranged(raw);
    latency::percentiles_are_ordered(dists);
    let total = count_of(dists, n);
    if total != 0 {
        if raw.len() == 0 {
            assert(latency::key_counts(raw) =~= Seq::<int>::empty());
        }
        model::sum_nonneg(latency::key_counts(raw));
        percentile_is_a_mean(dists, (total * 50) / 100);
        percentile_is_a_mean(dists, (total * 95) / 100);
        percentile_is_a_mean(dists, (total * 99) / 100);
        let tops = latency::maxima(dists);
        model::greatest_is_max(tops);
        if n == 0 {
            assert(raw =~= Seq::<u128>::empty());
        }
        let k = choose|k: int| 0 <= k < tops.len() && tops[k] == model::greatest(tops);
        assert(tops[k] == dists[k].max_ns);
        assert forall|i: int| 0 <= i < dists.len() implies (#[trigger] dists[i]).max_ns
            <= latency::merged(dists).max by {
            assert(tops[i] == dists[i].max_ns);
        }
    }
}

} // verus!
