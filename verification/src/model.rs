//! What the data types have in common: the list of views that a vector stands for,
//! copies that keep the view, ordered tables searched by name, and sums.
use vstd::prelude::*;
use crate::text;

verus! {

/// The views of the items of a list, in order.
pub open spec fn vmap<T: View>(v: Seq<T>) -> Seq<T::V> {
    v.map_values(|t: T| t@)
}

/// The views of the items of an optional list.
pub open spec fn opt_vmap<T: View>(v: Option<Vec<T>>) -> Option<Seq<T::V>> {
    match v {
        Some(w) => Some(vmap(w@)),
        None => None,
    }
}

/// Appending an item appends its view.
pub broadcast proof fn vmap_push<T: View>(v: Seq<T>, t: T)
    ensures
        #[trigger] vmap(v.push(t)) == vmap(v).push(t@),
{
    assert(vmap(v.push(t)) =~= vmap(v).push(t@));
}

/// Appending a string appends its text.
pub broadcast proof fn views_push(v: Seq<String>, s: String)
    ensures
        #[trigger] text::views(v.push(s)) == text::views(v).push(s@),
{
    assert(text::views(v.push(s)) =~= text::views(v).push(s@));
}

/// A prefix one item longer is the prefix with that item behind it.
pub broadcast proof fn take_push<T>(s: Seq<T>, i: int)
    requires
        0 <= i < s.len(),
    ensures
        #[trigger] s.take(i + 1) == s.take(i).push(s[i]),
{
    assert(s.take(i + 1) =~= s.take(i).push(s[i]));
}

/// A value that can be copied so that the copy stands for the same thing.
pub trait Duplicate: View + Sized {
    fn duplicate(&self) -> (r: Self)
        ensures
            r@ == self@,
    ;
}

impl Duplicate for String {
    fn duplicate(&self) -> (r: Self) {
        self.clone()
    }
}

impl Duplicate for u64 {
    fn duplicate(&self) -> (r: Self) {
        *self
    }
}

impl Duplicate for i64 {
    fn duplicate(&self) -> (r: Self) {
        *self
    }
}

impl<A: Duplicate, B: Duplicate> Duplicate for (A, B) {
    fn duplicate(&self) -> (r: Self) {
        (self.0.duplicate(), self.1.duplicate())
    }
}

/// A copy of a list.
pub fn duplicate_list<T: Duplicate>(v: &Vec<T>) -> (r: Vec<T>)
    ensures
        vmap(r@) == vmap(v@),
        r@.len() == v@.len(),
{
    broadcast use vmap_push, take_push;

    let mut out: Vec<T> = Vec::new();
    let mut i: usize = 0;
    assert(vmap(out@) =~= vmap(v@).take(0));
    while i < v.len()
        invariant
            i <= v@.len(),
            out@.len() == i,
            vmap(out@) == vmap(v@).take(i as int),
        decreases v@.len() - i,
    {
        broadcast use vmap_push, take_push;

        out.push(v[i].duplicate());
        i += 1;
    }
    assert(vmap(v@).take(i as int) =~= vmap(v@));
    out
}

/// A copy of an optional list.
pub fn duplicate_opt_list<T: Duplicate>(v: &Option<Vec<T>>) -> (r: Option<Vec<T>>)
    ensures
        opt_vmap(r) == opt_vmap(*v),
{
    match v {
        Some(w) => Some(duplicate_list(w)),
        None => None,
    }
}

/// What the first entry named `key` is bound to.
pub open spec fn find<B>(entries: Seq<(Seq<char>, B)>, key: Seq<char>) -> Option<B>
    decreases entries.len(),
{
    if entries.len() == 0 {
        None
    } else if entries[0].0 == key {
        Some(entries[0].1)
    } else {
        find(entries.skip(1), key)
    }
}

/// No two entries have the same name.
pub open spec fn distinct_keys<B>(entries: Seq<(Seq<char>, B)>) -> bool {
    forall|i: int, j: int| 0 <= i < j < entries.len() ==> entries[i].0 != entries[j].0
}

/// The entry of a table without repeated names is found under its name.
pub proof fn find_entry<B>(entries: Seq<(Seq<char>, B)>, i: int)
    requires
        0 <= i < entries.len(),
        distinct_keys(entries),
    ensures
        find(entries, entries[i].0) == Some(entries[i].1),
    decreases entries.len(),
{
    if i > 0 {
        let rest = entries.skip(1);
        assert(rest[i - 1] == entries[i]);
        assert forall|a: int, b: int| 0 <= a < b < rest.len() implies rest[a].0 != rest[b].0 by {
            assert(rest[a] == entries[a + 1] && rest[b] == entries[b + 1]);
        }
        find_entry(rest, i - 1);
    }
}

/// Looks a name up in a table.
pub fn find_in<'a, B: View>(entries: &'a Vec<(String, B)>, key: &str) -> (r: Option<&'a B>)
    ensures
        r is Some <==> find(vmap(entries@), key@) is Some,
        r is Some ==> find(vmap(entries@), key@) == Some(r->0@),
{
    let mut i: usize = 0;
    let ghost all = vmap(entries@);
    assert(all.skip(0) =~= all);
    while i < entries.len()
        invariant
            i <= entries@.len(),
            all == vmap(entries@),
            find(all, key@) == find(all.skip(i as int), key@),
        decreases entries@.len() - i,
    {
        proof {
            assert(all.skip(i as int)[0] == all[i as int]);
            assert(all[i as int] == entries@[i as int]@);
            assert(all.skip(i as int).skip(1) =~= all.skip(i + 1));
        }
        if text::same(entries[i].0.as_str(), key) {
            return Some(&entries[i].1);
        }
        i += 1;
    }
    None
}

/// The table with `key` bound to `value`: in place where the name is there, else behind
/// all others.
pub open spec fn bind<B>(entries: Seq<(Seq<char>, B)>, key: Seq<char>, value: B) -> Seq<
    (Seq<char>, B),
>
    decreases entries.len(),
{
    if entries.len() == 0 {
        seq![(key, value)]
    } else if entries[0].0 == key {
        seq![(key, value)] + entries.skip(1)
    } else {
        seq![entries[0]] + bind(entries.skip(1), key, value)
    }
}

/// What was bound is found; every other name keeps what it had.
pub proof fn bind_then_find<B>(
    entries: Seq<(Seq<char>, B)>,
    key: Seq<char>,
    value: B,
    other: Seq<char>,
)
    ensures
        find(bind(entries, key, value), other) == if other == key {
            Some(value)
        } else {
            find(entries, other)
        },
    decreases entries.len(),
{
    let r = bind(entries, key, value);
    if entries.len() == 0 {
        assert(r.skip(1) =~= Seq::<(Seq<char>, B)>::empty());
        assert(find(r.skip(1), other) is None);
    } else if entries[0].0 == key {
        assert(r.skip(1) =~= entries.skip(1));
    } else {
        bind_then_find(entries.skip(1), key, value, other);
        assert(r.skip(1) =~= bind(entries.skip(1), key, value));
        assert(r[0] == entries[0]);
    }
}

/// Binds `key` to `value`: in place where the name is there, else behind all others.
pub fn bind_entry<B: View>(entries: &mut Vec<(String, B)>, key: &str, value: B)
    ensures
        vmap(final(entries)@) == bind(vmap(old(entries)@), key@, value@),
{
    let ghost before = entries@;
    let ghost all = vmap(before);
    let mut i: usize = 0;
    assert(all.skip(0) =~= all);
    assert(all.take(0) + bind(all.skip(0), key@, value@) =~= bind(all, key@, value@));
    while i < entries.len()
        invariant
            i <= entries@.len(),
            entries@ == before,
            before == old(entries)@,
            all == vmap(before),
            all.take(i as int) + bind(all.skip(i as int), key@, value@) == bind(
                all,
                key@,
                value@,
            ),
        decreases entries@.len() - i,
    {
        proof {
            assert(all.skip(i as int)[0] == all[i as int]);
            assert(all[i as int] == entries@[i as int]@);
            assert(all.skip(i as int).skip(1) =~= all.skip(i + 1));
        }
        if text::same(entries[i].0.as_str(), key) {
            entries.set(i, (text::owned(key), value));
            proof {
                assert(bind(all.skip(i as int), key@, value@) == seq![(key@, value@)] + all.skip(
                    i + 1,
                ));
                assert(vmap(entries@) =~= all.take(i as int) + (seq![(key@, value@)] + all.skip(
                    i + 1,
                )));
            }
            return ;
        }
        proof {
            assert(all.take(i as int) + (seq![all[i as int]] + bind(
                all.skip(i + 1),
                key@,
                value@,
            )) =~= all.take(i + 1) + bind(all.skip(i + 1), key@, value@));
        }
        i += 1;
    }
    entries.push((text::owned(key), value));
    proof {
        assert(all.take(i as int) =~= all);
        assert(vmap(entries@) =~= all + seq![(key@, value@)]);
    }
}

/// The place of the first entry of that name.
pub fn position<B: View>(entries: &Vec<(String, B)>, key: &str) -> (r: Option<usize>)
    ensures
        match r {
            Some(i) => i < entries@.len() && is_first(vmap(entries@), key@, i as int),
            None => lacks(vmap(entries@), key@),
        },
{
    let ghost all = vmap(entries@);
    let mut i: usize = 0;
    while i < entries.len()
        invariant
            i <= entries@.len(),
            all == vmap(entries@),
            forall|k: int| 0 <= k < i ==> (#[trigger] all[k]).0 != key@,
        decreases entries@.len() - i,
    {
        assert(all[i as int] == entries@[i as int]@);
        if text::same(entries[i].0.as_str(), key) {
            return Some(i);
        }
        i += 1;
    }
    None
}

/// The `i`-th entry is the first of that name.
pub open spec fn is_first<B>(entries: Seq<(Seq<char>, B)>, key: Seq<char>, i: int) -> bool {
    &&& 0 <= i < entries.len()
    &&& entries[i].0 == key
    &&& forall|k: int| 0 <= k < i ==> (#[trigger] entries[k]).0 != key
}

/// No entry has that name.
pub open spec fn lacks<B>(entries: Seq<(Seq<char>, B)>, key: Seq<char>) -> bool {
    forall|k: int| 0 <= k < entries.len() ==> (#[trigger] entries[k]).0 != key
}

/// Binding a name that is there changes its first entry; finding it gives that entry.
pub proof fn bind_first<B>(entries: Seq<(Seq<char>, B)>, key: Seq<char>, i: int, value: B)
    requires
        is_first(entries, key, i),
    ensures
        bind(entries, key, value) == entries.update(i, (key, value)),
        find(entries, key) == Some(entries[i].1),
    decreases entries.len(),
{
    if i == 0 {
        assert(bind(entries, key, value) =~= entries.update(0, (key, value)));
    } else {
        let rest = entries.skip(1);
        assert(entries[0].0 != key);
        assert forall|k: int| 0 <= k < i - 1 implies (#[trigger] rest[k]).0 != key by {
            assert(rest[k] == entries[k + 1]);
        }
        bind_first(rest, key, i - 1, value);
        assert(bind(entries, key, value) =~= entries.update(i, (key, value)));
    }
}

/// Binding a name that is not there appends an entry; finding it gives nothing.
pub proof fn bind_fresh<B>(entries: Seq<(Seq<char>, B)>, key: Seq<char>, value: B)
    requires
        lacks(entries, key),
    ensures
        bind(entries, key, value) == entries.push((key, value)),
        find(entries, key) is None,
    decreases entries.len(),
{
    if entries.len() == 0 {
        assert(bind(entries, key, value) =~= entries.push((key, value)));
    } else {
        let rest = entries.skip(1);
        assert forall|k: int| 0 <= k < rest.len() implies (#[trigger] rest[k]).0 != key by {
            assert(rest[k] == entries[k + 1]);
        }
        assert(entries[0].0 != key);
        bind_fresh(rest, key, value);
        assert(bind(entries, key, value) =~= entries.push((key, value)));
    }
}

/// The sum of a list.
pub open spec fn sum(s: Seq<int>) -> int
    decreases s.len(),
{
    if s.len() == 0 {
        0
    } else {
        sum(s.drop_last()) + s.last()
    }
}

/// The sum of one item more is the sum and the item.
pub broadcast proof fn sum_take(s: Seq<int>, i: int)
    requires
        0 <= i < s.len(),
    ensures
        #[trigger] sum(s.take(i + 1)) == sum(s.take(i)) + s[i],
{
    assert(s.take(i + 1).drop_last() =~= s.take(i));
}

/// A part of a sum of natural numbers is no more than the whole.
pub proof fn sum_prefix(s: Seq<int>, i: int)
    requires
        0 <= i <= s.len(),
        forall|k: int| 0 <= k < s.len() ==> s[k] >= 0,
    ensures
        0 <= sum(s.take(i)) <= sum(s),
    decreases s.len() - i, i,
{
    if i < s.len() {
        sum_prefix(s, i + 1);
        sum_take(s, i);
        sum_nonneg(s.take(i));
    } else {
        assert(s.take(i) =~= s);
        sum_nonneg(s);
    }
}

/// A sum of natural numbers is one.
pub proof fn sum_nonneg(s: Seq<int>)
    requires
        forall|k: int| 0 <= k < s.len() ==> s[k] >= 0,
    ensures
        sum(s) >= 0,
    decreases s.len(),
{
    if s.len() > 0 {
        sum_nonneg(s.drop_last());
    }
}

/// The greatest item of a list of natural numbers, and 0 for an empty list.
pub open spec fn greatest(s: Seq<int>) -> int
    decreases s.len(),
{
    if s.len() == 0 {
        0
    } else if s.last() > greatest(s.drop_last()) {
        s.last()
    } else {
        greatest(s.drop_last())
    }
}

/// No item exceeds the greatest, and where it is not 0 it is one of them.
pub proof fn greatest_is_max(s: Seq<int>)
    requires
        forall|k: int| 0 <= k < s.len() ==> s[k] >= 0,
    ensures
        greatest(s) >= 0,
        forall|k: int| 0 <= k < s.len() ==> s[k] <= greatest(s),
        s.len() > 0 ==> exists|k: int| 0 <= k < s.len() && s[k] == greatest(s),
    decreases s.len(),
{
    if s.len() > 0 {
        let rest = s.drop_last();
        greatest_is_max(rest);
        assert forall|k: int| 0 <= k < s.len() implies s[k] <= greatest(s) by {
            if k < rest.len() {
                assert(rest[k] == s[k]);
            }
        }
        if s.last() > greatest(rest) {
            assert(s[s.len() - 1] == greatest(s));
        } else if rest.len() > 0 {
            let w = choose|k: int| 0 <= k < rest.len() && rest[k] == greatest(rest);
            assert(s[w] == greatest(s));
        } else {
            assert(s[0] == 0);
            assert(s[0] == greatest(s));
        }
    }
}

/// The greatest of one item more.
pub broadcast proof fn greatest_take(s: Seq<int>, i: int)
    requires
        0 <= i < s.len(),
    ensures
        #[trigger] greatest(s.take(i + 1)) == if s[i] > greatest(s.take(i)) {
            s[i]
        } else {
            greatest(s.take(i))
        },
{
    assert(s.take(i + 1).drop_last() =~= s.take(i));
}

} // verus!
