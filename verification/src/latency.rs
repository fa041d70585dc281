//! Distributions of latencies: how a worker condenses what it measured, how the
//! distributions of many workers are merged, and the percentiles of the whole.
use vstd::prelude::*;
use vstd::seq_lib::group_to_multiset_ensures;
use crate::metrics::PercentileSummary;
use crate::model;
use crate::model::Duplicate;
use crate::rates;
use crate::sorting;

verus! {

/// How many centroids a distribution has at least, where there are values enough.
pub const CENTROIDS: usize = 100;

/// Some latencies close to one another: their mean, and how many they are.
#[derive(Clone, Copy, PartialEq, Eq, Structural, Debug)]
pub struct TDigestCentroid {
    pub mean_ns: u64,
    pub count: u64,
}

/// A condensed distribution of latencies.
pub struct LatencyDistribution {
    pub centroids: Vec<TDigestCentroid>,
    pub count: u64,
    pub min_ns: u64,
    pub max_ns: u64,
}

pub struct DistributionView {
    pub centroids: Seq<TDigestCentroid>,
    pub count: u64,
    pub min_ns: u64,
    pub max_ns: u64,
}

impl View for LatencyDistribution {
    type V = DistributionView;

    open spec fn view(&self) -> DistributionView {
        DistributionView {
            centroids: self.centroids@,
            count: self.count,
            min_ns: self.min_ns,
            max_ns: self.max_ns,
        }
    }
}

impl Duplicate for LatencyDistribution {
    fn duplicate(&self) -> (r: Self) {
        let mut centroids: Vec<TDigestCentroid> = Vec::new();
        let mut i: usize = 0;
        while i < self.centroids.len()
            invariant
                i <= self.centroids@.len(),
                centroids@ == self.centroids@.take(i as int),
            decreases self.centroids@.len() - i,
        {
            centroids.push(self.centroids[i]);
            i += 1;
        }
        assert(centroids@ =~= self.centroids@);
        LatencyDistribution {
            centroids,
            count: self.count,
            min_ns: self.min_ns,
            max_ns: self.max_ns,
        }
    }
}

// ---------------------------------------------------------------------------
// Condensing
// ---------------------------------------------------------------------------

/// The numbers of a list.
pub open spec fn numbers(s: Seq<u128>) -> Seq<int> {
    s.map_values(|x: u128| x as int)
}

/// Values as wide numbers.
pub open spec fn widened(s: Seq<u64>) -> Seq<u128> {
    s.map_values(|x: u64| x as u128)
}

/// The mean of some numbers, rounded to the nearest whole one.
pub open spec fn rounded_mean(s: Seq<u128>) -> int {
    (2 * model::sum(numbers(s)) + s.len()) / (2 * s.len() as int)
}

/// The centroid of some latencies.
pub open spec fn centroid_of(s: Seq<u128>) -> TDigestCentroid {
    TDigestCentroid { mean_ns: rounded_mean(s) as u64, count: s.len() as u64 }
}

/// How many values go into one centroid.
pub open spec fn chunk_len(n: int) -> int {
    if n / (CENTROIDS as int) < 1 {
        1
    } else {
        n / (CENTROIDS as int)
    }
}

/// The centroids of the sorted values from `start` on, `size` values each, the last
/// perhaps fewer.
pub open spec fn centroids_from(sorted: Seq<u128>, size: int, start: int) -> Seq<TDigestCentroid>
    decreases sorted.len() - start,
{
    if size < 1 || start >= sorted.len() || start < 0 {
        Seq::empty()
    } else {
        let end = if sorted.len() - start < size {
            sorted.len() as int
        } else {
            start + size
        };
        seq![centroid_of(sorted.subrange(start, end))] + centroids_from(sorted, size, end)
    }
}

/// The distribution of some latencies.
pub open spec fn distribution(values: Seq<u64>) -> DistributionView {
    let sorted = sorting::arranged(widened(values));
    if values.len() == 0 {
        DistributionView { centroids: Seq::empty(), count: 0, min_ns: 0, max_ns: 0 }
    } else {
        DistributionView {
            centroids: centroids_from(sorted, chunk_len(values.len() as int), 0),
            count: values.len() as u64,
            min_ns: sorted[0] as u64,
            max_ns: sorted.last() as u64,
        }
    }
}

/// Sorting neither adds nor changes a number: a bound on all stays a bound.
pub proof fn arranged_bound(s: Seq<u128>, bound: u128)
    requires
        forall|i: int| 0 <= i < s.len() ==> s[i] <= bound,
    ensures
        forall|i: int| 0 <= i < s.len() ==> (#[trigger] sorting::arranged(s)[i]) <= bound,
        sorting::arranged(s).len() == s.len(),
{
    broadcast use group_to_multiset_ensures;

    sorting::arranged_is_sorted(s);
    let t = sorting::arranged(s);
    assert forall|i: int| 0 <= i < s.len() implies (#[trigger] t[i]) <= bound by {
        assert(t.contains(t[i]));
        assert(t.to_multiset().count(t[i]) > 0);
        assert(s.contains(t[i]));
    }
}

fn widen(values: &Vec<u64>) -> (r: Vec<u128>)
    ensures
        r@ == widened(values@),
{
    let mut out: Vec<u128> = Vec::new();
    let mut i: usize = 0;
    while i < values.len()
        invariant
            i <= values@.len(),
            out@ == widened(values@).take(i as int),
        decreases values@.len() - i,
    {
        out.push(values[i] as u128);
        i += 1;
    }
    assert(out@ =~= widened(values@));
    out
}

/// The values in ascending order.
pub fn sort_latencies(values: &Vec<u64>) -> (r: Vec<u128>)
    ensures
        r@ == sorting::arranged(widened(values@)),
        r@.len() == values@.len(),
        forall|i: int| 0 <= i < r@.len() ==> (#[trigger] r@[i]) <= u64::MAX,
{
    let wide = widen(values);
    let r = sorting::sort(&wide);
    proof {
        arranged_bound(wide@, u64::MAX as u128);
    }
    r
}

proof fn mean_bound(s: Seq<u128>, total: int, len: int)
    requires
        len >= 1,
        0 <= total <= len * 0xffff_ffff_ffff_ffff,
    ensures
        0 <= (2 * total + len) / (2 * len) <= 0xffff_ffff_ffff_ffff,
{
    assert(0 <= (2 * total + len) / (2 * len) <= 0xffff_ffff_ffff_ffff) by (nonlinear_arith)
        requires
            len >= 1,
            0 <= total <= len * 0xffff_ffff_ffff_ffff,
    ;
}

fn condense(sorted: &Vec<u128>, from: usize, to: usize) -> (r: TDigestCentroid)
    requires
        from < to <= sorted@.len(),
        forall|i: int| 0 <= i < sorted@.len() ==> (#[trigger] sorted@[i]) <= u64::MAX,
    ensures
        r == centroid_of(sorted@.subrange(from as int, to as int)),
{
    let ghost part = sorted@.subrange(from as int, to as int);
    let ghost nums = numbers(part);
    let mut total: u128 = 0;
    let mut i: usize = from;
    assert(nums.take(0) =~= Seq::<int>::empty());
    while i < to
        invariant
            from <= i <= to <= sorted@.len(),
            part == sorted@.subrange(from as int, to as int),
            nums == numbers(part),
            forall|k: int| 0 <= k < sorted@.len() ==> (#[trigger] sorted@[k]) <= u64::MAX,
            total == model::sum(nums.take(i - from)),
            total <= (i - from) * 0xffff_ffff_ffff_ffff,
        decreases to - i,
    {
        proof {
            model::sum_take(nums, i - from);
            assert(nums[i - from] == sorted@[i as int]);
        }
        total = total + sorted[i];
        i += 1;
    }
    assert(nums.take(to - from) =~= nums);
    let len: u128 = (to - from) as u128;
    proof {
        mean_bound(part, total as int, len as int);
    }
    // The quotient is taken of the halves, since twice the sum might not fit.
    let q: u128 = total / len;
    let rest: u128 = total % len;
    proof {
        let t = total as int;
        let l = len as int;
        vstd::arithmetic::div_mod::lemma_fundamental_div_mod(t, l);
        let c: int = if 2 * rest >= l {
            1
        } else {
            0
        };
        assert(2 * t + l == (q + c) * (2 * l) + (2 * rest + l - c * (2 * l))) by (nonlinear_arith)
            requires
                t == l * (q as int) + rest as int,
        ;
        assert(0 <= 2 * rest + l - c * (2 * l) < 2 * l) by (nonlinear_arith)
            requires
                0 <= rest < l,
                c == (if 2 * rest >= l { 1int } else { 0int }),
        ;
        vstd::arithmetic::div_mod::lemma_fundamental_div_mod_converse(
            2 * t + l,
            2 * l,
            q + c,
            2 * rest + l - c * (2 * l),
        );
        assert(q + c == rounded_mean(part));
    }
    let mean: u128 = if 2 * rest >= len {
        q + 1
    } else {
        q
    };
    TDigestCentroid { mean_ns: mean as u64, count: (to - from) as u64 }
}

/// Condenses the latencies that were measured.
pub fn latency_distribution_from_values(values: &Vec<u64>) -> (r: LatencyDistribution)
    ensures
        r@ == distribution(values@),
{
    let n: usize = values.len();
    if n == 0 {
        let r = LatencyDistribution { centroids: Vec::new(), count: 0, min_ns: 0, max_ns: 0 };
        assert(r@.centroids =~= Seq::empty());
        return r;
    }
    let sorted = sort_latencies(values);
    let size: usize = if n / CENTROIDS < 1 {
        1
    } else {
        n / CENTROIDS
    };
    let ghost all = centroids_from(sorted@, size as int, 0);
    let mut out: Vec<TDigestCentroid> = Vec::new();
    let mut at: usize = 0;
    assert(out@ + all =~= all);
    while at < n
        invariant
            at <= n == sorted@.len(),
            size >= 1,
            forall|k: int| 0 <= k < sorted@.len() ==> (#[trigger] sorted@[k]) <= u64::MAX,
            all == out@ + centroids_from(sorted@, size as int, at as int),
        decreases n - at,
    {
        let end: usize = if n - at < size {
            n
        } else {
            at + size
        };
        let c = condense(&sorted, at, end);
        proof {
            assert(out@ + (seq![c] + centroids_from(sorted@, size as int, end as int))
                =~= out@.push(c) + centroids_from(sorted@, size as int, end as int));
        }
        out.push(c);
        at = end;
    }
    assert(centroids_from(sorted@, size as int, at as int) =~= Seq::empty());
    assert(out@ =~= all);
    LatencyDistribution {
        centroids: out,
        count: n as u64,
        min_ns: sorted[0] as u64,
        max_ns: sorted[n - 1] as u64,
    }
}

/// How many latencies each centroid stands for.
pub open spec fn centroid_counts(c: Seq<TDigestCentroid>) -> Seq<int> {
    c.map_values(|x: TDigestCentroid| x.count as int)
}

/// Condensing loses none: the centroids stand for as many latencies as there were.
pub proof fn condensing_keeps_the_count(values: Seq<u64>)
    requires
        values.len() <= u64::MAX,
    ensures
        model::sum(centroid_counts(distribution(values).centroids)) == values.len(),
{
    sorting::arranged_is_sorted(widened(values));
    let sorted = sorting::arranged(widened(values));
    if values.len() == 0 {
        assert(centroid_counts(Seq::empty()) =~= Seq::<int>::empty());
    } else {
        centroids_count(sorted, chunk_len(values.len() as int), 0);
    }
}

proof fn centroids_count(sorted: Seq<u128>, size: int, start: int)
    requires
        size >= 1,
        0 <= start <= sorted.len(),
        sorted.len() <= u64::MAX,
    ensures
        model::sum(centroid_counts(centroids_from(sorted, size, start))) == sorted.len() - start,
    decreases sorted.len() - start,
{
    let all = centroids_from(sorted, size, start);
    if start < sorted.len() {
        let end = if sorted.len() - start < size {
            sorted.len() as int
        } else {
            start + size
        };
        centroids_count(sorted, size, end);
        let first = centroid_of(sorted.subrange(start, end));
        let rest = centroids_from(sorted, size, end);
        assert(centroid_counts(all) =~= seq![first.count as int] + centroid_counts(rest));
        sum_of_front(first.count as int, centroid_counts(rest));
    } else {
        assert(centroid_counts(all) =~= Seq::<int>::empty());
    }
}

proof fn sum_of_front(x: int, s: Seq<int>)
    ensures
        model::sum(seq![x] + s) == x + model::sum(s),
    decreases s.len(),
{
    if s.len() == 0 {
        assert((seq![x] + s).drop_last() =~= Seq::<int>::empty());
        assert(model::sum(Seq::<int>::empty()) == 0);
    } else {
        sum_of_front(x, s.drop_last());
        assert((seq![x] + s).drop_last() =~= seq![x] + s.drop_last());
    }
}

// ---------------------------------------------------------------------------
// Merging
// ---------------------------------------------------------------------------

/// Two to the power of 64.
pub const SHIFT: u128 = 0x1_0000_0000_0000_0000;

/// A centroid as one number, by which centroids are ordered: first the mean counts.
pub open spec fn key_of(c: TDigestCentroid) -> u128 {
    (c.mean_ns * SHIFT + c.count) as u128
}

/// The mean of the centroid with that key.
pub open spec fn key_mean(key: u128) -> int {
    key as int / SHIFT as int
}

/// The count of the centroid with that key.
pub open spec fn key_count(key: u128) -> int {
    key as int % SHIFT as int
}

/// The keys of some centroids.
pub open spec fn keys_of(c: Seq<TDigestCentroid>) -> Seq<u128> {
    c.map_values(|x: TDigestCentroid| key_of(x))
}

/// The keys of all centroids of the first `n` distributions.
pub open spec fn all_keys(dists: Seq<DistributionView>, n: int) -> Seq<u128>
    decreases n,
{
    if n <= 0 {
        Seq::empty()
    } else {
        all_keys(dists, n - 1) + keys_of(dists[n - 1].centroids)
    }
}

/// The counts of centroids given by their keys.
pub open spec fn key_counts(keys: Seq<u128>) -> Seq<int> {
    keys.map_values(|k: u128| key_count(k))
}

/// The greatest latency of each distribution.
pub open spec fn maxima(dists: Seq<DistributionView>) -> Seq<int> {
    dists.map_values(|d: DistributionView| d.max_ns as int)
}

/// The mean of the first centroid, from the `i`-th on, with which `target` latencies are
/// reached, `before` having been counted; that of the last where none reaches it.
pub open spec fn reached(keys: Seq<u128>, target: int, before: int, i: int) -> int
    decreases keys.len() - i,
{
    if i >= keys.len() {
        if keys.len() == 0 {
            0
        } else {
            key_mean(keys.last())
        }
    } else if before + key_count(keys[i]) >= target {
        key_mean(keys[i])
    } else {
        reached(keys, target, before + key_count(keys[i]), i + 1)
    }
}

/// The percentiles of many distributions together.
pub open spec fn merged(dists: Seq<DistributionView>) -> PercentileSummary {
    let keys = sorting::arranged(all_keys(dists, dists.len() as int));
    let total = model::sum(key_counts(keys));
    if total == 0 {
        PercentileSummary::blank()
    } else {
        PercentileSummary {
            p50: reached(keys, (total * 50) / 100, 0, 0) as u64,
            p95: reached(keys, (total * 95) / 100, 0, 0) as u64,
            p99: reached(keys, (total * 99) / 100, 0, 0) as u64,
            max: model::greatest(maxima(dists)) as u64,
            count: rates::at_most_u64(total) as u64,
        }
    }
}

fn key(c: TDigestCentroid) -> (r: u128)
    ensures
        r == key_of(c),
{
    (c.mean_ns as u128) * SHIFT + c.count as u128
}

fn share_of(total: u128, percent: u128) -> (r: u128)
    requires
        percent <= 99,
    ensures
        r == (total * percent) / 100,
{
    let a: u128 = total / 100;
    let b: u128 = total % 100;
    assert(b * percent <= 99 * 99) by (nonlinear_arith)
        requires
            b <= 99,
            percent <= 99,
    ;
    assert(a * percent + (b * percent) / 100 == (total * percent) / 100) by (nonlinear_arith)
        requires
            total == 100 * a + b,
            b <= 99,
    ;
    assert(a * percent + (b * percent) / 100 <= total) by (nonlinear_arith)
        requires
            total == 100 * a + b,
            0 <= a,
            0 <= b <= 99,
            percent <= 99,
    ;
    assert(0 <= a * percent <= a * percent + (b * percent) / 100) by (nonlinear_arith)
        requires
            a >= 0,
            b >= 0,
            percent >= 0,
    ;
    a * percent + (b * percent) / 100
}

fn percentile_from_centroids(keys: &Vec<u128>, target: u128) -> (r: u64)
    ensures
        r == reached(keys@, target as int, 0, 0),
{
    let len: usize = keys.len();
    let mut before: u128 = 0;
    let mut i: usize = 0;
    while i < len
        invariant
            i <= len == keys@.len(),
            before <= i * 0xffff_ffff_ffff_ffff,
            reached(keys@, target as int, 0, 0) == reached(
                keys@,
                target as int,
                before as int,
                i as int,
            ),
        decreases len - i,
    {
        let k: u128 = keys[i];
        before = before + k % SHIFT;
        if before >= target {
            return (k / SHIFT) as u64;
        }
        i += 1;
    }
    if len == 0 {
        0
    } else {
        (keys[len - 1] / SHIFT) as u64
    }
}

fn total_count(keys: &Vec<u128>) -> (r: u128)
    ensures
        r == model::sum(key_counts(keys@)),
{
    let ghost all = key_counts(keys@);
    let len: usize = keys.len();
    let mut total: u128 = 0;
    let mut i: usize = 0;
    assert(all.take(0) =~= Seq::<int>::empty());
    while i < len
        invariant
            i <= len == keys@.len(),
            all == key_counts(keys@),
            total == model::sum(all.take(i as int)),
            total <= i * 0xffff_ffff_ffff_ffff,
        decreases len - i,
    {
        proof {
            model::sum_take(all, i as int);
        }
        total = total + keys[i] % SHIFT;
        i += 1;
    }
    assert(all.take(i as int) =~= all);
    total
}

/// The percentiles of many distributions together.
pub fn merge_latency_distributions(dists: &Vec<LatencyDistribution>) -> (r: PercentileSummary)
    ensures
        r == merged(model::vmap(dists@)),
{
    let ghost dv = model::vmap(dists@);
    let ghost tops = maxima(dv);
    let mut keys: Vec<u128> = Vec::new();
    let mut top: u64 = 0;
    let mut d: usize = 0;
    assert(tops.take(0) =~= Seq::<int>::empty());
    while d < dists.len()
        invariant
            d <= dists@.len(),
            dv == model::vmap(dists@),
            tops == maxima(dv),
            keys@ == all_keys(dv, d as int),
            top == model::greatest(tops.take(d as int)),
        decreases dists@.len() - d,
    {
        let dist = &dists[d];
        assert(dv[d as int] == dist@);
        let ghost part = keys_of(dist@.centroids);
        let ghost start = keys@;
        let mut i: usize = 0;
        assert(start + part.take(0) =~= start);
        while i < dist.centroids.len()
            invariant
                i <= dist.centroids@.len(),
                part == keys_of(dist@.centroids),
                keys@ == start + part.take(i as int),
            decreases dist.centroids@.len() - i,
        {
            keys.push(key(dist.centroids[i]));
            proof {
                assert(keys@ =~= start + part.take(i + 1));
            }
            i += 1;
        }
        proof {
            assert(part.take(i as int) =~= part);
            model::greatest_take(tops, d as int);
        }
        if dist.max_ns > top {
            top = dist.max_ns;
        }
        d += 1;
    }
    assert(tops.take(d as int) =~= tops);
    let sorted = sorting::sort(&keys);
    let total: u128 = total_count(&sorted);
    if total == 0 {
        return PercentileSummary::default();
    }
    PercentileSummary {
        p50: percentile_from_centroids(&sorted, share_of(total, 50)),
        p95: percentile_from_centroids(&sorted, share_of(total, 95)),
        p99: percentile_from_centroids(&sorted, share_of(total, 99)),
        max: top,
        count: if total > u64::MAX as u128 {
            u64::MAX
        } else {
            total as u64
        },
    }
}

/// A greater share of the latencies is reached no earlier.
proof fn reached_grows(keys: Seq<u128>, low: int, high: int, before: int, i: int)
    requires
        sorting::ascending(keys),
        low <= high,
        0 <= i <= keys.len(),
    ensures
        reached(keys, low, before, i) <= reached(keys, high, before, i),
        i < keys.len() ==> key_mean(keys[i]) <= reached(keys, low, before, i),
        reached(keys, low, before, i) >= 0,
    decreases keys.len() - i,
{
    if i < keys.len() {
        let now = before + key_count(keys[i]);
        reached_grows(keys, low, high, now, i + 1);
        if i + 1 < keys.len() {
            assert(keys[i] <= keys[i + 1]);
            assert(key_mean(keys[i]) <= key_mean(keys[i + 1])) by (nonlinear_arith)
                requires
                    keys[i] <= keys[i + 1],
                    key_mean(keys[i]) == keys[i] as int / SHIFT as int,
                    key_mean(keys[i + 1]) == keys[i + 1] as int / SHIFT as int,
                    SHIFT == 0x1_0000_0000_0000_0000,
            ;
        }
    }
}

/// The percentiles of a merged distribution are in order: p50, p95, p99.
pub proof fn percentiles_are_ordered(dists: Seq<DistributionView>)
    ensures
        merged(dists).p50 <= merged(dists).p95 <= merged(dists).p99,
{
    let raw = all_keys(dists, dists.len() as int);
    let keys = sorting::arranged(raw);
    sorting::arranged_is_sorted(raw);
    let total = model::sum(key_counts(keys));
    if total != 0 {
        counts_are_natural(keys);
        assert((total * 50) / 100 <= (total * 95) / 100 <= (total * 99) / 100);
        reached_grows(keys, (total * 50) / 100, (total * 95) / 100, 0, 0);
        reached_grows(keys, (total * 95) / 100, (total * 99) / 100, 0, 0);
        reached_fits(keys, (total * 50) / 100, 0, 0);
        reached_fits(keys, (total * 95) / 100, 0, 0);
        reached_fits(keys, (total * 99) / 100, 0, 0);
    }
}

proof fn counts_are_natural(keys: Seq<u128>)
    ensures
        model::sum(key_counts(keys)) >= 0,
{
    model::sum_nonneg(key_counts(keys));
}

proof fn reached_fits(keys: Seq<u128>, target: int, before: int, i: int)
    ensures
        0 <= reached(keys, target, before, i) <= u64::MAX,
    decreases keys.len() - i,
{
    if i < keys.len() {
        reached_fits(keys, target, before + key_count(keys[i]), i + 1);
    }
}

// ---------------------------------------------------------------------------
// Percentiles of values
// ---------------------------------------------------------------------------

/// The place of a percentile among `n` sorted values: that nearest to `percent` hundredths
/// of the way from the first to the last, the greater of two.
pub open spec fn percentile_index(n: int, percent: int) -> int {
    (percent * (n - 1) + 50) / 100
}

/// The percentile of sorted values; 0 where there are none.
pub open spec fn percentile(sorted: Seq<u128>, percent: int) -> int {
    if sorted.len() == 0 {
        0
    } else {
        sorted[percentile_index(sorted.len() as int, percent)] as int
    }
}

/// The percentile of sorted values.
pub fn percentile_of(sorted: &Vec<u128>, percent: u64) -> (r: u64)
    requires
        percent <= 100,
        forall|i: int| 0 <= i < sorted@.len() ==> (#[trigger] sorted@[i]) <= u64::MAX,
    ensures
        r == percentile(sorted@, percent as int),
{
    let n: usize = sorted.len();
    if n == 0 {
        return 0;
    }
    let span: u128 = (n - 1) as u128;
    assert(0 <= percent * span <= 100 * span) by (nonlinear_arith)
        requires
            0 <= percent <= 100,
            span >= 0,
    ;
    let at: u128 = (percent as u128 * span + 50) / 100;
    assert(at <= span);
    sorted[at as usize] as u64
}

} // verus!
