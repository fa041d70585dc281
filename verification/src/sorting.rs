//! Sorting numbers.
use vstd::prelude::*;
use vstd::multiset::Multiset;
use vstd::seq_lib::group_to_multiset_ensures;

verus! {

/// Each number is at least as great as those before it.
pub open spec fn ascending(s: Seq<u128>) -> bool {
    forall|i: int, j: int| 0 <= i <= j < s.len() ==> s[i] <= s[j]
}

/// An ascending list with one more number at its place.
pub open spec fn inserted(s: Seq<u128>, x: u128) -> Seq<u128>
    decreases s.len(),
{
    if s.len() == 0 || s.last() <= x {
        s.push(x)
    } else {
        inserted(s.drop_last(), x).push(s.last())
    }
}

/// The numbers of a list in ascending order.
pub open spec fn arranged(s: Seq<u128>) -> Seq<u128>
    decreases s.len(),
{
    if s.len() == 0 {
        s
    } else {
        inserted(arranged(s.drop_last()), s.last())
    }
}

proof fn inserted_is_ascending(s: Seq<u128>, x: u128)
    requires
        ascending(s),
    ensures
        ascending(inserted(s, x)),
        inserted(s, x).to_multiset() == s.to_multiset().insert(x),
        inserted(s, x).len() == s.len() + 1,
        inserted(s, x).last() == if s.len() == 0 || s.last() <= x {
            x
        } else {
            s.last()
        },
    decreases s.len(),
{
    broadcast use group_to_multiset_ensures;

    if s.len() == 0 || s.last() <= x {
        assert(ascending(s.push(x)));
    } else {
        let front = s.drop_last();
        assert(ascending(front));
        inserted_is_ascending(front, x);
        let inner = inserted(front, x);
        assert(inner.last() <= s.last());
        assert(ascending(inner.push(s.last())));
        assert(front.push(s.last()) =~= s);
        assert(inner.push(s.last()).to_multiset() =~= s.to_multiset().insert(x));
    }
}

/// Arranging keeps the numbers, each as often as it was there, and puts them in order.
pub proof fn arranged_is_sorted(s: Seq<u128>)
    ensures
        ascending(arranged(s)),
        arranged(s).to_multiset() == s.to_multiset(),
        arranged(s).len() == s.len(),
    decreases s.len(),
{
    broadcast use group_to_multiset_ensures;

    if s.len() > 0 {
        arranged_is_sorted(s.drop_last());
        inserted_is_ascending(arranged(s.drop_last()), s.last());
        assert(s.drop_last().push(s.last()) =~= s);
    }
}

/// There is one way to put given numbers in order.
pub proof fn one_order(a: Seq<u128>, b: Seq<u128>)
    requires
        ascending(a),
        ascending(b),
        a.to_multiset() == b.to_multiset(),
    ensures
        a == b,
    decreases a.len(),
{
    broadcast use group_to_multiset_ensures;

    assert(a.len() == a.to_multiset().len());
    assert(b.len() == b.to_multiset().len());
    if a.len() == 0 {
        assert(a =~= b);
    } else {
        assert(a.contains(a.last())) by {
            assert(a[a.len() - 1] == a.last());
        }
        assert(b.contains(b.last())) by {
            assert(b[b.len() - 1] == b.last());
        }
        assert(a.to_multiset().count(a.last()) > 0);
        assert(b.to_multiset().count(b.last()) > 0);
        assert(b.contains(a.last()));
        assert(a.contains(b.last()));
        let i = choose|i: int| 0 <= i < b.len() && b[i] == a.last();
        let j = choose|j: int| 0 <= j < a.len() && a[j] == b.last();
        assert(a.last() == b.last());
        let fa = a.drop_last();
        let fb = b.drop_last();
        assert(fa.push(a.last()) =~= a);
        assert(fb.push(b.last()) =~= b);
        assert(fa.to_multiset() =~= a.to_multiset().remove(a.last()));
        assert(fb.to_multiset() =~= b.to_multiset().remove(b.last()));
        one_order(fa, fb);
    }
}

fn merge(a: &Vec<u128>, b: &Vec<u128>) -> (r: Vec<u128>)
    requires
        ascending(a@),
        ascending(b@),
    ensures
        ascending(r@),
        r@.to_multiset() == a@.to_multiset().add(b@.to_multiset()),
{
    broadcast use group_to_multiset_ensures;

    let mut out: Vec<u128> = Vec::new();
    let mut i: usize = 0;
    let mut j: usize = 0;
    assert(a@.take(0).to_multiset() =~= Multiset::empty());
    assert(b@.take(0).to_multiset() =~= Multiset::empty());
    assert(out@.to_multiset() =~= a@.take(0).to_multiset().add(b@.take(0).to_multiset()));
    while i < a.len() || j < b.len()
        invariant
            i <= a@.len(),
            j <= b@.len(),
            ascending(a@),
            ascending(b@),
            ascending(out@),
            forall|k: int, m: int| 0 <= k < out@.len() && i <= m < a@.len() ==> out@[k] <= a@[m],
            forall|k: int, m: int| 0 <= k < out@.len() && j <= m < b@.len() ==> out@[k] <= b@[m],
            out@.to_multiset() == a@.take(i as int).to_multiset().add(
                b@.take(j as int).to_multiset(),
            ),
        decreases a@.len() - i + b@.len() - j,
    {
        broadcast use group_to_multiset_ensures;

        if j >= b.len() || (i < a.len() && a[i] <= b[j]) {
            proof {
                assert(a@.take(i + 1) =~= a@.take(i as int).push(a@[i as int]));
            }
            out.push(a[i]);
            i += 1;
            proof {
                assert(out@.to_multiset() =~= a@.take(i as int).to_multiset().add(
                    b@.take(j as int).to_multiset(),
                ));
            }
        } else {
            proof {
                assert(b@.take(j + 1) =~= b@.take(j as int).push(b@[j as int]));
            }
            out.push(b[j]);
            j += 1;
            proof {
                assert(out@.to_multiset() =~= a@.take(i as int).to_multiset().add(
                    b@.take(j as int).to_multiset(),
                ));
            }
        }
    }
    assert(a@.take(i as int) =~= a@);
    assert(b@.take(j as int) =~= b@);
    out
}

fn sort_range(v: &Vec<u128>, from: usize, to: usize) -> (r: Vec<u128>)
    requires
        from <= to <= v@.len(),
    ensures
        ascending(r@),
        r@.to_multiset() == v@.subrange(from as int, to as int).to_multiset(),
    decreases to - from,
{
    if to - from <= 1 {
        let mut out: Vec<u128> = Vec::new();
        if to > from {
            out.push(v[from]);
        }
        assert(out@ =~= v@.subrange(from as int, to as int));
        out
    } else {
        let mid: usize = from + (to - from) / 2;
        let a = sort_range(v, from, mid);
        let b = sort_range(v, mid, to);
        let r = merge(&a, &b);
        proof {
            let x = v@.subrange(from as int, mid as int);
            let y = v@.subrange(mid as int, to as int);
            vstd::seq_lib::lemma_multiset_commutative(x, y);
            assert(x + y =~= v@.subrange(from as int, to as int));
        }
        r
    }
}

/// The numbers in ascending order.
pub fn sort(v: &Vec<u128>) -> (r: Vec<u128>)
    ensures
        r@ == arranged(v@),
        r@.len() == v@.len(),
{
    let r = sort_range(v, 0, v.len());
    proof {
        assert(v@.subrange(0, v@.len() as int) =~= v@);
        arranged_is_sorted(v@);
        one_order(r@, arranged(v@));
    }
    r
}

} // verus!
