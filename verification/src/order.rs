//! Putting named and timed things in order.
use vstd::prelude::*;
use crate::metrics::{AggregatedMetricPoint, PerQueryTimeSeriesPoint, PointView, QueryPointView};
use crate::model;
use crate::model::Duplicate;
use crate::text;

verus! {

/// The text `a` comes before `b`, or is the same: letter by letter, by code point.
pub open spec fn name_le(a: Seq<char>, b: Seq<char>) -> bool
    decreases a.len(),
{
    if a.len() == 0 {
        true
    } else if b.len() == 0 {
        false
    } else if (a[0] as u32) < (b[0] as u32) {
        true
    } else if (a[0] as u32) > (b[0] as u32) {
        false
    } else {
        name_le(a.skip(1), b.skip(1))
    }
}

/// Of two texts one comes first.
pub proof fn name_le_total(a: Seq<char>, b: Seq<char>)
    ensures
        name_le(a, b) || name_le(b, a),
    decreases a.len(),
{
    if a.len() > 0 && b.len() > 0 && a[0] as u32 == b[0] as u32 {
        name_le_total(a.skip(1), b.skip(1));
    }
}

/// The order of texts is transitive.
pub proof fn name_le_trans(a: Seq<char>, b: Seq<char>, c: Seq<char>)
    requires
        name_le(a, b),
        name_le(b, c),
    ensures
        name_le(a, c),
    decreases a.len(),
{
    if a.len() > 0 && b.len() > 0 && c.len() > 0 && a[0] as u32 == b[0] as u32 && b[0] as u32
        == c[0] as u32 {
        name_le_trans(a.skip(1), b.skip(1), c.skip(1));
    }
}

/// Whether the text `a` comes before `b`, or is the same.
pub fn not_after(a: &str, b: &str) -> (r: bool)
    ensures
        r == name_le(a@, b@),
{
    let x = text::chars_of(a);
    let y = text::chars_of(b);
    let mut i: usize = 0;
    assert(a@.skip(0) =~= a@);
    assert(b@.skip(0) =~= b@);
    while i < x.len() && i < y.len()
        invariant
            x@ == a@,
            y@ == b@,
            i <= x@.len(),
            i <= y@.len(),
            name_le(a@, b@) == name_le(a@.skip(i as int), b@.skip(i as int)),
        decreases x@.len() - i,
    {
        proof {
            assert(a@.skip(i as int)[0] == a@[i as int]);
            assert(b@.skip(i as int)[0] == b@[i as int]);
            assert(a@.skip(i as int).skip(1) =~= a@.skip(i + 1));
            assert(b@.skip(i as int).skip(1) =~= b@.skip(i + 1));
        }
        let p: u32 = x[i] as u32;
        let q: u32 = y[i] as u32;
        if p < q {
            return true;
        }
        if p > q {
            return false;
        }
        i += 1;
    }
    i >= x.len()
}

/// The entries with one more, behind those whose name does not come after it.
pub open spec fn placed<B>(s: Seq<(Seq<char>, B)>, e: (Seq<char>, B)) -> Seq<(Seq<char>, B)>
    decreases s.len(),
{
    if s.len() == 0 || name_le(s.last().0, e.0) {
        s.push(e)
    } else {
        placed(s.drop_last(), e).push(s.last())
    }
}

/// The first `n` entries, in the order of their names.
pub open spec fn by_name<B>(s: Seq<(Seq<char>, B)>, n: int) -> Seq<(Seq<char>, B)>
    decreases n,
{
    if n <= 0 {
        Seq::empty()
    } else {
        placed(by_name(s, n - 1), s[n - 1])
    }
}

/// The names do not go down.
pub open spec fn names_ascend<B>(s: Seq<(Seq<char>, B)>) -> bool {
    forall|i: int, j: int|
        0 <= i < j < s.len() ==> name_le((#[trigger] s[i]).0, (#[trigger] s[j]).0)
}

proof fn placed_ascends<B>(s: Seq<(Seq<char>, B)>, e: (Seq<char>, B))
    requires
        names_ascend(s),
    ensures
        names_ascend(placed(s, e)),
        placed(s, e).len() == s.len() + 1,
        forall|i: int|
            0 <= i < placed(s, e).len() ==> (#[trigger] placed(s, e)[i]) == e || s.contains(
                placed(s, e)[i],
            ),
    decreases s.len(),
{
    let r = placed(s, e);
    if s.len() == 0 {
    } else if name_le(s.last().0, e.0) {
        assert forall|i: int, j: int| 0 <= i < j < r.len() implies name_le(
            (#[trigger] r[i]).0,
            (#[trigger] r[j]).0,
        ) by {
            if j == s.len() {
                if i < s.len() - 1 {
                    assert(name_le(s[i].0, s[s.len() - 1].0));
                    name_le_trans(s[i].0, s.last().0, e.0);
                }
            } else {
                assert(r[i] == s[i] && r[j] == s[j]);
            }
        }
        assert forall|i: int| 0 <= i < r.len() implies (#[trigger] r[i]) == e || s.contains(
            r[i],
        ) by {
            if i < s.len() {
                assert(s[i] == r[i]);
            }
        }
    } else {
        let front = s.drop_last();
        placed_ascends(front, e);
        let inner = placed(front, e);
        name_le_total(s.last().0, e.0);
        assert forall|i: int, j: int| 0 <= i < j < r.len() implies name_le(
            (#[trigger] r[i]).0,
            (#[trigger] r[j]).0,
        ) by {
            if j == inner.len() {
                assert(r[i] == inner[i]);
                if inner[i] != e {
                    let k = choose|k: int| 0 <= k < front.len() && front[k] == inner[i];
                    assert(s[k] == inner[i]);
                    assert(name_le(s[k].0, s[s.len() - 1].0));
                }
            } else {
                assert(r[i] == inner[i] && r[j] == inner[j]);
            }
        }
        assert forall|i: int| 0 <= i < r.len() implies (#[trigger] r[i]) == e || s.contains(
            r[i],
        ) by {
            if i < inner.len() {
                assert(r[i] == inner[i]);
                if inner[i] != e {
                    let k = choose|k: int| 0 <= k < front.len() && front[k] == inner[i];
                    assert(s[k] == r[i]);
                }
            } else {
                assert(s[s.len() - 1] == r[i]);
            }
        }
    }
}

/// Ordering by name orders: the names do not go down, and there are as many entries as
/// before.
pub proof fn by_name_ascends<B>(s: Seq<(Seq<char>, B)>, n: int)
    requires
        0 <= n <= s.len(),
    ensures
        names_ascend(by_name(s, n)),
        by_name(s, n).len() == n,
    decreases n,
{
    if n > 0 {
        by_name_ascends(s, n - 1);
        placed_ascends(by_name(s, n - 1), s[n - 1]);
    }
}

/// Where a list is cut, `placed` puts the new entry.
proof fn placed_at<B>(s: Seq<(Seq<char>, B)>, e: (Seq<char>, B), k: int)
    requires
        0 <= k <= s.len(),
        k == 0 || name_le(s[k - 1].0, e.0),
        forall|j: int| k <= j < s.len() ==> !name_le((#[trigger] s[j]).0, e.0),
    ensures
        placed(s, e) == s.insert(k, e),
    decreases s.len(),
{
    if k == s.len() {
        assert(s.insert(k, e) =~= s.push(e));
    } else {
        let front = s.drop_last();
        assert(!name_le(s[s.len() - 1].0, e.0));
        assert forall|j: int| k <= j < front.len() implies !name_le(
            (#[trigger] front[j]).0,
            e.0,
        ) by {
            assert(front[j] == s[j]);
        }
        placed_at(front, e, k);
        assert(front.insert(k, e).push(s.last()) =~= s.insert(k, e));
    }
}

/// Orders entries by their names; entries of one name keep their order.
pub fn sort_by_name<B: Duplicate>(entries: &Vec<(String, B)>) -> (r: Vec<(String, B)>)
    ensures
        model::vmap(r@) == by_name(model::vmap(entries@), entries@.len() as int),
{
    let ghost all = model::vmap(entries@);
    let mut out: Vec<(String, B)> = Vec::new();
    let mut i: usize = 0;
    assert(model::vmap(out@) =~= by_name(all, 0));
    while i < entries.len()
        invariant
            i <= entries@.len(),
            all == model::vmap(entries@),
            out@.len() == i,
            model::vmap(out@) == by_name(all, i as int),
        decreases entries@.len() - i,
    {
        let ghost before = model::vmap(out@);
        let mut k: usize = out.len();
        while k > 0 && !not_after(out[k - 1].0.as_str(), entries[i].0.as_str())
            invariant
                i < entries@.len(),
                k <= out@.len() == i,
                before == model::vmap(out@),
                forall|j: int|
                    k <= j < before.len() ==> !name_le(
                        (#[trigger] before[j]).0,
                        entries@[i as int].0@,
                    ),
            decreases k,
        {
            assert(before[k - 1] == out@[k - 1]@);
            k -= 1;
        }
        let e = entries[i].duplicate();
        proof {
            assert(all[i as int] == entries@[i as int]@);
            if k > 0 {
                assert(before[k - 1] == out@[k - 1]@);
            }
            placed_at(before, e@, k as int);
        }
        out.insert(k, e);
        assert(model::vmap(out@) =~= before.insert(k as int, e@));
        i += 1;
    }
    out
}

// ---------------------------------------------------------------------------
// By time
// ---------------------------------------------------------------------------

/// Something that belongs to a second.
pub trait Timed: Duplicate {
    spec fn time(v: Self::V) -> u64;

    fn timestamp(&self) -> (r: u64)
        ensures
            r == Self::time(self@),
    ;
}

impl Timed for AggregatedMetricPoint {
    open spec fn time(v: PointView) -> u64 {
        v.timestamp_s
    }

    fn timestamp(&self) -> (r: u64) {
        self.timestamp_s
    }
}

impl Timed for PerQueryTimeSeriesPoint {
    open spec fn time(v: QueryPointView) -> u64 {
        v.timestamp_s
    }

    fn timestamp(&self) -> (r: u64) {
        self.timestamp_s
    }
}

/// The items with one more, behind those that are not later.
pub open spec fn scheduled<T: Timed>(s: Seq<T::V>, x: T::V) -> Seq<T::V>
    decreases s.len(),
{
    if s.len() == 0 || T::time(s.last()) <= T::time(x) {
        s.push(x)
    } else {
        scheduled::<T>(s.drop_last(), x).push(s.last())
    }
}

/// The first `n` items, in the order of their times.
pub open spec fn by_time<T: Timed>(s: Seq<T::V>, n: int) -> Seq<T::V>
    decreases n,
{
    if n <= 0 {
        Seq::empty()
    } else {
        scheduled::<T>(by_time::<T>(s, n - 1), s[n - 1])
    }
}

proof fn scheduled_at<T: Timed>(s: Seq<T::V>, x: T::V, k: int)
    requires
        0 <= k <= s.len(),
        k == 0 || T::time(s[k - 1]) <= T::time(x),
        forall|j: int| k <= j < s.len() ==> T::time(#[trigger] s[j]) > T::time(x),
    ensures
        scheduled::<T>(s, x) == s.insert(k, x),
    decreases s.len(),
{
    if k == s.len() {
        assert(s.insert(k, x) =~= s.push(x));
    } else {
        let front = s.drop_last();
        assert(T::time(s[s.len() - 1]) > T::time(x));
        assert forall|j: int| k <= j < front.len() implies T::time(#[trigger] front[j])
            > T::time(x) by {
            assert(front[j] == s[j]);
        }
        scheduled_at::<T>(front, x, k);
        assert(front.insert(k, x).push(s.last()) =~= s.insert(k, x));
    }
}

/// The times do not go down.
pub open spec fn times_ascend<T: Timed>(s: Seq<T::V>) -> bool {
    forall|i: int, j: int|
        0 <= i < j < s.len() ==> T::time(#[trigger] s[i]) <= T::time(#[trigger] s[j])
}

/// Ordering by time orders: the times do not go down, and there are as many items as
/// before.
pub proof fn by_time_ascends<T: Timed>(s: Seq<T::V>, n: int)
    requires
        0 <= n <= s.len(),
    ensures
        times_ascend::<T>(by_time::<T>(s, n)),
        by_time::<T>(s, n).len() == n,
    decreases n,
{
    if n > 0 {
        by_time_ascends::<T>(s, n - 1);
        scheduled_ascends::<T>(by_time::<T>(s, n - 1), s[n - 1]);
    }
}

proof fn scheduled_ascends<T: Timed>(s: Seq<T::V>, x: T::V)
    requires
        times_ascend::<T>(s),
    ensures
        times_ascend::<T>(scheduled::<T>(s, x)),
        scheduled::<T>(s, x).len() == s.len() + 1,
        forall|i: int|
            0 <= i < scheduled::<T>(s, x).len() ==> (#[trigger] scheduled::<T>(s, x)[i]) == x
                || s.contains(scheduled::<T>(s, x)[i]),
    decreases s.len(),
{
    let r = scheduled::<T>(s, x);
    if s.len() == 0 {
    } else if T::time(s.last()) <= T::time(x) {
        assert forall|i: int| 0 <= i < r.len() implies (#[trigger] r[i]) == x || s.contains(
            r[i],
        ) by {
            if i < s.len() {
                assert(s[i] == r[i]);
            }
        }
        assert forall|i: int, j: int| 0 <= i < j < r.len() implies T::time(#[trigger] r[i])
            <= T::time(#[trigger] r[j]) by {
            if j == s.len() {
                if i < s.len() - 1 {
                    assert(T::time(s[i]) <= T::time(s[s.len() - 1]));
                }
            } else {
                assert(r[i] == s[i] && r[j] == s[j]);
            }
        }
    } else {
        let front = s.drop_last();
        assert forall|i: int, j: int| 0 <= i < j < front.len() implies T::time(#[trigger] front[i])
            <= T::time(#[trigger] front[j]) by {
            assert(front[i] == s[i] && front[j] == s[j]);
        }
        scheduled_ascends::<T>(front, x);
        let inner = scheduled::<T>(front, x);
        assert forall|i: int| 0 <= i < r.len() implies (#[trigger] r[i]) == x || s.contains(
            r[i],
        ) by {
            if i < inner.len() {
                assert(r[i] == inner[i]);
                if inner[i] != x {
                    let k = choose|k: int| 0 <= k < front.len() && front[k] == inner[i];
                    assert(s[k] == r[i]);
                }
            } else {
                assert(s[s.len() - 1] == r[i]);
            }
        }
        assert forall|i: int, j: int| 0 <= i < j < r.len() implies T::time(#[trigger] r[i])
            <= T::time(#[trigger] r[j]) by {
            if j == inner.len() {
                assert(r[i] == inner[i]);
                if inner[i] != x {
                    let k = choose|k: int| 0 <= k < front.len() && front[k] == inner[i];
                    assert(s[k] == inner[i]);
                    assert(T::time(s[k]) <= T::time(s[s.len() - 1]));
                }
            } else {
                assert(r[i] == inner[i] && r[j] == inner[j]);
            }
        }
    }
}

/// Orders items by their times; items of one time keep their order.
pub fn sort_by_time<T: Timed>(items: &Vec<T>) -> (r: Vec<T>)
    ensures
        model::vmap(r@) == by_time::<T>(model::vmap(items@), items@.len() as int),
{
    let ghost all = model::vmap(items@);
    let mut out: Vec<T> = Vec::new();
    let mut i: usize = 0;
    assert(model::vmap(out@) =~= by_time::<T>(all, 0));
    while i < items.len()
        invariant
            i <= items@.len(),
            all == model::vmap(items@),
            out@.len() == i,
            model::vmap(out@) == by_time::<T>(all, i as int),
        decreases items@.len() - i,
    {
        let ghost before = model::vmap(out@);
        let t: u64 = items[i].timestamp();
        let mut k: usize = out.len();
        while k > 0 && out[k - 1].timestamp() > t
            invariant
                i < items@.len(),
                t == T::time(items@[i as int]@),
                k <= out@.len() == i,
                before == model::vmap(out@),
                forall|j: int| k <= j < before.len() ==> T::time(#[trigger] before[j]) > t,
            decreases k,
        {
            assert(before[k - 1] == out@[k - 1]@);
            k -= 1;
        }
        let e = items[i].duplicate();
        proof {
            assert(all[i as int] == items@[i as int]@);
            if k > 0 {
                assert(before[k - 1] == out@[k - 1]@);
            }
            scheduled_at::<T>(before, e@, k as int);
        }
        out.insert(k, e);
        assert(model::vmap(out@) =~= before.insert(k as int, e@));
        i += 1;
    }
    out
}

} // verus!
