//! What taking texts apart, putting them together and sorting them comes to: nothing is lost on
//! the way.
use vstd::prelude::*;
use vstd::seq_lib::group_to_multiset_ensures;
use crate::order;
use crate::text;
use crate::timeline_laws::decimals_denote_the_number;

verus! {

// ---------------------------------------------------------------------------
// White space
// ---------------------------------------------------------------------------

proof fn leading_space_goes(s: Seq<char>) -> (n: int)
    ensures
        0 <= n <= s.len(),
        text::without_leading_space(s) == s.skip(n),
        forall|i: int| 0 <= i < n ==> text::is_space(#[trigger] s[i]),
        n < s.len() ==> !text::is_space(s[n]),
    decreases s.len(),
{
    if s.len() > 0 && text::is_space(s[0]) {
        let rest = s.skip(1);
        let m = leading_space_goes(rest);
        assert(rest.skip(m) =~= s.skip(m + 1));
        assert forall|i: int| 0 <= i < m + 1 implies text::is_space(#[trigger] s[i]) by {
            if i > 0 {
                assert(text::is_space(rest[i - 1]));
            }
        }
        m + 1
    } else {
        assert(s.skip(0) =~= s);
        0
    }
}

proof fn trailing_space_goes(s: Seq<char>) -> (n: int)
    ensures
        0 <= n <= s.len(),
        text::without_trailing_space(s) == s.take(n),
        forall|i: int| n <= i < s.len() ==> text::is_space(#[trigger] s[i]),
        n > 0 ==> !text::is_space(s[n - 1]),
    decreases s.len(),
{
    if s.len() > 0 && text::is_space(s.last()) {
        let rest = s.drop_last();
        let n = trailing_space_goes(rest);
        assert(rest.take(n) =~= s.take(n));
        assert forall|i: int| n <= i < s.len() implies text::is_space(#[trigger] s[i]) by {
            if i < rest.len() {
                assert(text::is_space(rest[i]));
            }
        }
        n
    } else {
        assert(s.take(s.len() as int) =~= s);
        s.len() as int
    }
}

/// Trimming takes the white space at both ends of a text away, and nothing else: what is left
/// stands in the text between two positions, and has none at its ends.
pub proof fn trimming_takes_space_alone(s: Seq<char>) -> (span: (int, int))
    ensures
        0 <= span.0 <= span.1 <= s.len(),
        text::trimmed(s) == s.subrange(span.0, span.1),
        forall|i: int|
            0 <= i < span.0 || span.1 <= i < s.len() ==> text::is_space(#[trigger] s[i]),
        span.0 < span.1 ==> !text::is_space(s[span.0]) && !text::is_space(s[span.1 - 1]),
{
    let a = leading_space_goes(s);
    let rest = s.skip(a);
    let n = trailing_space_goes(rest);
    assert(rest.take(n) =~= s.subrange(a, a + n));
    assert forall|i: int| 0 <= i < a || a + n <= i < s.len() implies text::is_space(
        #[trigger] s[i],
    ) by {
        if a <= i {
            assert(text::is_space(rest[i - a]));
        }
    }
    if n > 0 {
        assert(rest[n - 1] == s[a + n - 1]);
    }
    (a, a + n)
}

// ---------------------------------------------------------------------------
// Pieces
// ---------------------------------------------------------------------------

proof fn joined_from_the_front(first: Seq<char>, rest: Seq<Seq<char>>, sep: Seq<char>)
    requires
        rest.len() > 0,
    ensures
        text::joined(seq![first] + rest, sep) == first + sep + text::joined(rest, sep),
    decreases rest.len(),
{
    let all = seq![first] + rest;
    if rest.len() == 1 {
        assert(all.drop_last() =~= seq![first]);
        assert(text::joined(all.drop_last(), sep) == first);
    } else {
        assert(all.drop_last() =~= seq![first] + rest.drop_last());
        joined_from_the_front(first, rest.drop_last(), sep);
        assert(text::joined(all, sep) =~= first + sep + text::joined(rest, sep));
    }
}

/// The pieces of a text, put together again with what parted them, are the text, and none of
/// them holds what parted them.
pub proof fn pieces_make_up_the_text(s: Seq<char>, sep: Seq<char>)
    requires
        sep.len() > 0,
    ensures
        text::pieces(s, sep).len() > 0,
        text::joined(text::pieces(s, sep), sep) == s,
        forall|k: int|
            0 <= k < text::pieces(s, sep).len() ==> !text::holds(
                #[trigger] text::pieces(s, sep)[k],
                sep,
            ),
    decreases s.len(),
{
    text::first_at_is_least(s, sep, 0);
    let all = text::pieces(s, sep);
    match text::first_at(s, sep, 0) {
        Some(i) => {
            let rest = s.skip(i + sep.len());
            pieces_make_up_the_text(rest, sep);
            let more = text::pieces(rest, sep);
            let first = s.take(i);
            joined_from_the_front(first, more, sep);
            assert(s.subrange(i, i + sep.len()) == sep);
            assert(s =~= first + sep + rest) by {
                assert forall|j: int| 0 <= j < s.len() implies s[j] == (first + sep + rest)[j] by {
                    if i <= j < i + sep.len() {
                        assert(s.subrange(i, i + sep.len())[j - i] == s[j]);
                    }
                }
            }
            assert forall|k: int| 0 <= k < all.len() implies !text::holds(#[trigger] all[k], sep) by {
                if k == 0 {
                    assert(all[0] == first);
                    if text::holds(first, sep) {
                        let j = choose|j: int| text::occurs_at(first, sep, j);
                        assert(s.subrange(j, j + sep.len()) =~= first.subrange(j, j + sep.len()));
                        assert(text::occurs_at(s, sep, j));
                    }
                } else {
                    assert(all[k] == more[k - 1]);
                }
            }
        },
        None => {
            assert(all[0] == s);
        },
    }
}

/// Capitals become small letters, and every other character stays.
pub proof fn lower_case_changes_capitals_alone(s: Seq<char>, i: int)
    requires
        0 <= i < s.len(),
    ensures
        text::ascii_lower(s).len() == s.len(),
        'A' <= s[i] <= 'Z' ==> text::ascii_lower(s)[i] as u32 == s[i] as u32 + 32,
        !('A' <= s[i] <= 'Z') ==> text::ascii_lower(s)[i] == s[i],
{
}

/// Numbers are read as they are written.
pub proof fn numbers_are_read_as_written(n: nat)
    requires
        n <= u64::MAX,
    ensures
        text::unsigned(text::decimal(n)) == Some(n),
        text::unsigned(seq!['+'] + text::decimal(n)) == Some(n),
{
    decimals_denote_the_number(n);
    let s = text::decimal(n);
    assert(text::is_digit(s[0]));
    assert((seq!['+'] + s).skip(1) =~= s);
}

// ---------------------------------------------------------------------------
// Order
// ---------------------------------------------------------------------------

proof fn placing_keeps<B>(s: Seq<(Seq<char>, B)>, e: (Seq<char>, B))
    ensures
        order::placed(s, e).to_multiset() == s.push(e).to_multiset(),
    decreases s.len(),
{
    broadcast use group_to_multiset_ensures;

    if !(s.len() == 0 || order::name_le(s.last().0, e.0)) {
        let front = s.drop_last();
        placing_keeps(front, e);
        assert(front.push(s.last()) =~= s);
        assert(order::placed(s, e) == order::placed(front, e).push(s.last()));
        assert(order::placed(s, e).to_multiset() =~= s.push(e).to_multiset());
    }
}

/// Sorting by name keeps every entry as often as it was there.
pub proof fn sorting_by_name_keeps_all<B>(s: Seq<(Seq<char>, B)>, n: int)
    requires
        0 <= n <= s.len(),
    ensures
        order::by_name(s, n).to_multiset() == s.take(n).to_multiset(),
    decreases n,
{
    broadcast use group_to_multiset_ensures;

    if n > 0 {
        sorting_by_name_keeps_all(s, n - 1);
        placing_keeps(order::by_name(s, n - 1), s[n - 1]);
        assert(s.take(n - 1).push(s[n - 1]) =~= s.take(n));
    } else {
        assert(s.take(0) =~= Seq::<(Seq<char>, B)>::empty());
    }
}

} // verus!
