//! Text as sequences of characters: the operations that the rest of the library
//! builds names, messages and documents with.
use vstd::prelude::*;
use vstd::string::*;

verus! {

/// `String::push`: the character goes behind everything that the string holds.
pub assume_specification[ String::push ](s: &mut String, c: char)
    ensures
        final(s)@ == old(s)@.push(c),
;

// ---------------------------------------------------------------------------
// Meaning
// ---------------------------------------------------------------------------

/// The texts that a list of strings holds.
pub open spec fn views(v: Seq<String>) -> Seq<Seq<char>> {
    v.map_values(|s: String| s@)
}

/// The text that an optional string holds.
pub open spec fn opt_view(s: Option<String>) -> Option<Seq<char>> {
    match s {
        Some(t) => Some(t@),
        None => None,
    }
}

/// `needle` stands in `hay` at position `i`.
pub open spec fn occurs_at(hay: Seq<char>, needle: Seq<char>, i: int) -> bool {
    &&& 0 <= i
    &&& i + needle.len() <= hay.len()
    &&& hay.subrange(i, i + needle.len()) == needle
}

/// The least position from `start` on at which `needle` stands in `hay`.
pub open spec fn first_at(hay: Seq<char>, needle: Seq<char>, start: int) -> Option<int>
    decreases hay.len() - start + 1,
{
    if start + needle.len() > hay.len() {
        None
    } else if occurs_at(hay, needle, start) {
        Some(start)
    } else {
        first_at(hay, needle, start + 1)
    }
}

/// `needle` stands somewhere in `hay`.
pub open spec fn holds(hay: Seq<char>, needle: Seq<char>) -> bool {
    exists|i: int| occurs_at(hay, needle, i)
}

/// `s` begins with `prefix`.
pub open spec fn begins(s: Seq<char>, prefix: Seq<char>) -> bool {
    prefix.len() <= s.len() && s.take(prefix.len() as int) == prefix
}

/// `s` ends with `suffix`.
pub open spec fn ends(s: Seq<char>, suffix: Seq<char>) -> bool {
    suffix.len() <= s.len() && s.skip(s.len() - suffix.len()) == suffix
}

/// The pieces of `s` between the occurrences of `sep`, from left to right.
pub open spec fn pieces(s: Seq<char>, sep: Seq<char>) -> Seq<Seq<char>>
    decreases s.len(),
{
    match first_at(s, sep, 0) {
        Some(i) => if sep.len() > 0 && 0 <= i && i + sep.len() <= s.len() {
            seq![s.take(i)] + pieces(s.skip(i + sep.len()), sep)
        } else {
            seq![s]
        },
        None => seq![s],
    }
}

/// `s` with every occurrence of `from`, taken from left to right, replaced by `to`.
pub open spec fn replaced(s: Seq<char>, from: Seq<char>, to: Seq<char>) -> Seq<char>
    decreases s.len(),
{
    match first_at(s, from, 0) {
        Some(i) => if from.len() > 0 && 0 <= i && i + from.len() <= s.len() {
            s.take(i) + to + replaced(s.skip(i + from.len()), from, to)
        } else {
            s
        },
        None => s,
    }
}

/// The pieces in order, with `sep` between neighbours.
pub open spec fn joined(parts: Seq<Seq<char>>, sep: Seq<char>) -> Seq<char>
    decreases parts.len(),
{
    if parts.len() == 0 {
        Seq::empty()
    } else if parts.len() == 1 {
        parts[0]
    } else {
        joined(parts.drop_last(), sep) + sep + parts.last()
    }
}

/// No host is named. What stands on another host is named by two slashes and the host, with or
/// without a scheme before them; here two slashes never stand together.
pub open spec fn names_no_host(s: Seq<char>) -> bool {
    forall|i: int| 0 <= i < s.len() - 1 && #[trigger] s[i] == '/' ==> s[i + 1] != '/'
}

/// The characters with the Unicode property White_Space.
pub open spec fn is_space(c: char) -> bool {
    let u = c as u32;
    ||| 9 <= u <= 13
    ||| u == 32
    ||| u == 0x85
    ||| u == 0xA0
    ||| u == 0x1680
    ||| 0x2000 <= u <= 0x200A
    ||| u == 0x2028
    ||| u == 0x2029
    ||| u == 0x202F
    ||| u == 0x205F
    ||| u == 0x3000
}

/// `s` without the white space in front.
pub open spec fn without_leading_space(s: Seq<char>) -> Seq<char>
    decreases s.len(),
{
    if s.len() > 0 && is_space(s[0]) {
        without_leading_space(s.skip(1))
    } else {
        s
    }
}

/// `s` without the white space behind.
pub open spec fn without_trailing_space(s: Seq<char>) -> Seq<char>
    decreases s.len(),
{
    if s.len() > 0 && is_space(s.last()) {
        without_trailing_space(s.drop_last())
    } else {
        s
    }
}

/// `s` without the white space at both ends.
pub open spec fn trimmed(s: Seq<char>) -> Seq<char> {
    without_trailing_space(without_leading_space(s))
}

/// The lower-case letter for an ASCII capital; every other character as it is.
pub open spec fn ascii_lower_char(c: char) -> char {
    if 'A' <= c <= 'Z' {
        ((c as u8) + 32) as u8 as char
    } else {
        c
    }
}

/// `s` with its ASCII capitals in lower case.
pub open spec fn ascii_lower(s: Seq<char>) -> Seq<char> {
    s.map_values(|c: char| ascii_lower_char(c))
}

/// The decimal digit of a number below ten.
pub open spec fn digit_char(d: int) -> char {
    if d == 0 {
        '0'
    } else if d == 1 {
        '1'
    } else if d == 2 {
        '2'
    } else if d == 3 {
        '3'
    } else if d == 4 {
        '4'
    } else if d == 5 {
        '5'
    } else if d == 6 {
        '6'
    } else if d == 7 {
        '7'
    } else if d == 8 {
        '8'
    } else {
        '9'
    }
}

/// A natural number in decimal digits, without leading zeros.
pub open spec fn decimal(n: nat) -> Seq<char>
    decreases n,
{
    if n < 10 {
        seq![digit_char(n as int)]
    } else {
        decimal(n / 10).push(digit_char((n % 10) as int))
    }
}

/// An integer in decimal digits, with a minus sign where it is negative.
pub open spec fn signed_decimal(n: int) -> Seq<char> {
    if n < 0 {
        seq!['-'] + decimal((-n) as nat)
    } else {
        decimal(n as nat)
    }
}

/// `s` without the copies of `prefix` that it begins with.
pub open spec fn without_prefixes(s: Seq<char>, prefix: Seq<char>) -> Seq<char>
    decreases s.len(),
{
    if prefix.len() > 0 && begins(s, prefix) {
        without_prefixes(s.skip(prefix.len() as int), prefix)
    } else {
        s
    }
}

/// `s` without the copies of the character that it ends with.
pub open spec fn without_trailing(s: Seq<char>, c: char) -> Seq<char>
    decreases s.len(),
{
    if s.len() > 0 && s.last() == c {
        without_trailing(s.drop_last(), c)
    } else {
        s
    }
}

/// A decimal digit.
pub open spec fn is_digit(c: char) -> bool {
    '0' <= c <= '9'
}

/// The end of the run of digits that starts at `i`.
pub open spec fn digits_end(s: Seq<char>, i: int) -> int
    decreases s.len() - i,
{
    if 0 <= i < s.len() && is_digit(s[i]) {
        digits_end(s, i + 1)
    } else {
        i
    }
}

/// What stands from `i` on is an exponent, or nothing.
pub open spec fn exponent_or_nothing(s: Seq<char>, i: int) -> bool {
    ||| i == s.len()
    ||| {
        &&& i < s.len()
        &&& (s[i] == 'e' || s[i] == 'E')
        &&& {
            let first = if i + 1 < s.len() && (s[i + 1] == '+' || s[i + 1] == '-') {
                i + 2
            } else {
                i + 1
            };
            digits_end(s, first) > first && digits_end(s, first) == s.len()
        }
    }
}

/// What stands from `i` on is a number: digits with or without a point among or beside
/// them, and perhaps an exponent.
pub open spec fn number_from(s: Seq<char>, i: int) -> bool {
    let a = digits_end(s, i);
    if a < s.len() && s[a] == '.' {
        let b = digits_end(s, a + 1);
        (a > i || b > a + 1) && exponent_or_nothing(s, b)
    } else {
        a > i && exponent_or_nothing(s, a)
    }
}

/// The text is one that `f64::from_str` takes.
pub open spec fn is_float_literal(s: Seq<char>) -> bool {
    let start: int = if s.len() > 0 && (s[0] == '+' || s[0] == '-') {
        1
    } else {
        0
    };
    let word = ascii_lower(s.skip(start));
    word == "inf"@ || word == "infinity"@ || word == "nan"@ || number_from(s, start)
}

/// The number that decimal digits denote.
pub open spec fn digits_value(s: Seq<char>) -> nat
    decreases s.len(),
{
    if s.len() == 0 {
        0
    } else {
        digits_value(s.drop_last()) * 10 + (s.last() as u32 - '0' as u32) as nat
    }
}

/// The digits of an unsigned number: `s` without a plus sign in front.
pub open spec fn unsigned_digits(s: Seq<char>) -> Seq<char> {
    if s.len() > 0 && s[0] == '+' {
        s.skip(1)
    } else {
        s
    }
}

/// The number that `u64::from_str` reads: digits, perhaps behind a plus sign, that denote
/// a number of 64 bits.
pub open spec fn unsigned(s: Seq<char>) -> Option<nat> {
    let d = unsigned_digits(s);
    if d.len() > 0 && (forall|i: int| 0 <= i < d.len() ==> is_digit(#[trigger] d[i]))
        && digits_value(d) <= u64::MAX {
        Some(digits_value(d))
    } else {
        None
    }
}

/// The greatest number of units that a decimal number is read to.
pub const MOST_UNITS: u128 = 10_000_000_000_000_000_000_000_000_000_000_000_000;

/// The exponent that stands at `i`, none being zero; one beyond a million counts as a
/// million.
pub open spec fn exponent_at_most(s: Seq<char>, i: int) -> int {
    if i >= s.len() {
        0
    } else {
        let negative = i + 1 < s.len() && s[i + 1] == '-';
        let first = if i + 1 < s.len() && (s[i + 1] == '+' || s[i + 1] == '-') {
            i + 2
        } else {
            i + 1
        };
        let size = if digits_value(s.skip(first)) > 1_000_000 {
            1_000_000
        } else {
            digits_value(s.skip(first)) as int
        };
        if negative {
            -size
        } else {
            size
        }
    }
}

/// The first `n` digits, followed by zeros where there are fewer.
pub open spec fn first_digits(d: Seq<char>, n: int) -> Seq<char> {
    Seq::new(
        if n < 0 {
            0
        } else {
            n as nat
        },
        |i: int|
            if i < d.len() {
                d[i]
            } else {
                '0'
            },
    )
}

/// The digits of the number from `i` on, without its point.
pub open spec fn digits_from(s: Seq<char>, i: int) -> Seq<char> {
    let a = digits_end(s, i);
    let whole = s.subrange(i, a);
    if a < s.len() && s[a] == '.' {
        whole + s.subrange(a + 1, digits_end(s, a + 1))
    } else {
        whole
    }
}

/// How many of those digits stand before the point when the exponent has moved it.
pub open spec fn point_from(s: Seq<char>, i: int) -> int {
    let a = digits_end(s, i);
    let b = if a < s.len() && s[a] == '.' {
        digits_end(s, a + 1)
    } else {
        a
    };
    a - i + exponent_at_most(s, b)
}

/// How many units the number from `i` on amounts to, where a unit stands at the given decimal
/// place; what is less than a unit is dropped, and what is beyond `most` counts as that.
pub open spec fn scaled_from(s: Seq<char>, i: int, places: int, most: nat) -> int {
    let value = digits_value(first_digits(digits_from(s, i), point_from(s, i) + places));
    if value > most {
        most as int
    } else {
        value as int
    }
}

/// How many units of the given decimal place a decimal number amounts to, where the text is
/// one.
pub open spec fn scaled(s: Seq<char>, places: int, most: nat) -> Option<int> {
    let start: int = if s.len() > 0 && (s[0] == '+' || s[0] == '-') {
        1
    } else {
        0
    };
    if number_from(s, start) {
        if s[0] == '-' {
            Some(-scaled_from(s, start, places, most))
        } else {
            Some(scaled_from(s, start, places, most))
        }
    } else {
        None
    }
}

/// The text without the sign before it.
pub open spec fn behind_sign(s: Seq<char>) -> Seq<char> {
    if s.len() > 0 && (s[0] == '+' || s[0] == '-') {
        s.skip(1)
    } else {
        s
    }
}

/// Only digits, and at least one.
pub open spec fn only_digits(d: Seq<char>) -> bool {
    d.len() > 0 && (forall|i: int| 0 <= i < d.len() ==> is_digit(#[trigger] d[i]))
}

/// The number that digits behind a sign denote.
pub open spec fn signed_value(s: Seq<char>) -> int {
    if s.len() > 0 && s[0] == '-' {
        -(digits_value(behind_sign(s)) as int)
    } else {
        digits_value(behind_sign(s)) as int
    }
}

/// The number that `i64::from_str` reads: digits, perhaps behind a sign, that denote a
/// number of 64 bits.
pub open spec fn signed(s: Seq<char>) -> Option<int> {
    if only_digits(behind_sign(s)) && i64::MIN <= signed_value(s) <= i64::MAX {
        Some(signed_value(s))
    } else {
        None
    }
}

// ---------------------------------------------------------------------------
// Operations
// ---------------------------------------------------------------------------

/// The characters of a text.
pub fn chars_of(s: &str) -> (r: Vec<char>)
    ensures
        r@ == s@,
{
    let mut r: Vec<char> = Vec::new();
    for c in it: s.chars()
        invariant
            it.seq() == s@,
            r@ == s@.take(it.index() as int),
    {
        r.push(c);
    }
    r
}

/// The characters from `from` up to `to` as a string.
pub fn string_of(v: &Vec<char>, from: usize, to: usize) -> (r: String)
    requires
        from <= to <= v@.len(),
    ensures
        r@ == v@.subrange(from as int, to as int),
{
    let mut r = String::new();
    let mut i: usize = from;
    while i < to
        invariant
            from <= i <= to <= v@.len(),
            r@ == v@.subrange(from as int, i as int),
        decreases to - i,
    {
        r.push(v[i]);
        i += 1;
    }
    r
}

/// An owned copy.
pub fn owned(s: &str) -> (r: String)
    ensures
        r@ == s@,
{
    s.to_string()
}

/// A copy of an optional string.
pub fn clone_opt(s: &Option<String>) -> (r: Option<String>)
    ensures
        r == *s,
{
    match s {
        Some(t) => Some(t.clone()),
        None => None,
    }
}

/// Whether two texts hold the same characters.
pub fn same(a: &str, b: &str) -> (r: bool)
    ensures
        r == (a@ == b@),
{
    let x = a.to_string();
    let y = b.to_string();
    x == y
}

/// `a` and behind it `b`.
pub fn join2(a: &str, b: &str) -> (r: String)
    ensures
        r@ == a@ + b@,
{
    let mut r = a.to_string();
    r.append(b);
    r
}

/// `a`, `b` and `c`, one behind the other.
pub fn join3(a: &str, b: &str, c: &str) -> (r: String)
    ensures
        r@ == a@ + b@ + c@,
{
    let mut r = a.to_string();
    r.append(b);
    r.append(c);
    r
}

/// Four texts, one behind the other.
pub fn join4(a: &str, b: &str, c: &str, d: &str) -> (r: String)
    ensures
        r@ == a@ + b@ + c@ + d@,
{
    let mut r = a.to_string();
    r.append(b);
    r.append(c);
    r.append(d);
    r
}

/// Five texts, one behind the other.
pub fn join5(a: &str, b: &str, c: &str, d: &str, e: &str) -> (r: String)
    ensures
        r@ == a@ + b@ + c@ + d@ + e@,
{
    let mut r = join4(a, b, c, d);
    r.append(e);
    r
}

fn digit_of(d: u128) -> (c: char)
    requires
        d < 10,
    ensures
        c == digit_char(d as int),
{
    if d == 0 {
        '0'
    } else if d == 1 {
        '1'
    } else if d == 2 {
        '2'
    } else if d == 3 {
        '3'
    } else if d == 4 {
        '4'
    } else if d == 5 {
        '5'
    } else if d == 6 {
        '6'
    } else if d == 7 {
        '7'
    } else if d == 8 {
        '8'
    } else {
        '9'
    }
}

/// A number in decimal digits.
pub fn decimal_of(n: u128) -> (r: String)
    ensures
        r@ == decimal(n as nat),
    decreases n,
{
    if n < 10 {
        let mut r = String::new();
        r.push(digit_of(n));
        assert(r@ =~= seq![digit_char(n as int)]);
        r
    } else {
        let mut r = decimal_of(n / 10);
        r.push(digit_of(n % 10));
        r
    }
}

/// A 64-bit number in decimal digits.
pub fn decimal_u64(n: u64) -> (r: String)
    ensures
        r@ == decimal(n as nat),
{
    decimal_of(n as u128)
}

/// A count in decimal digits.
pub fn decimal_usize(n: usize) -> (r: String)
    ensures
        r@ == decimal(n as nat),
{
    decimal_of(n as u128)
}

/// A signed 64-bit number in decimal digits, with its sign where it is negative.
pub fn decimal_i64(n: i64) -> (r: String)
    ensures
        r@ == signed_decimal(n as int),
{
    if n < 0 {
        let m: i128 = -(n as i128);
        let d = decimal_of(m as u128);
        let mut r = String::new();
        r.push('-');
        assert(r@ =~= seq!['-']);
        r.append(d.as_str());
        r
    } else {
        decimal_of(n as u128)
    }
}

fn matches_at(hay: &Vec<char>, needle: &Vec<char>, i: usize) -> (r: bool)
    requires
        i + needle@.len() <= hay@.len(),
    ensures
        r == occurs_at(hay@, needle@, i as int),
{
    let total: usize = hay.len();
    let mut k: usize = 0;
    while k < needle.len()
        invariant
            i + needle@.len() <= hay@.len() == total,
            k <= needle@.len(),
            forall|m: int| 0 <= m < k ==> hay@[i + m] == needle@[m],
        decreases needle@.len() - k,
    {
        if hay[i + k] != needle[k] {
            proof {
                assert(hay@.subrange(i as int, i + needle@.len())[k as int] != needle@[k as int]);
            }
            return false;
        }
        k += 1;
    }
    assert(hay@.subrange(i as int, i + needle@.len()) =~= needle@);
    true
}

/// The first position from `start` on at which `needle` stands in `hay`.
pub fn find_from(hay: &Vec<char>, needle: &Vec<char>, start: usize) -> (r: Option<usize>)
    requires
        start <= hay@.len(),
    ensures
        match r {
            Some(i) => first_at(hay@, needle@, start as int) == Some(i as int) && occurs_at(
                hay@,
                needle@,
                i as int,
            ) && i >= start,
            None => first_at(hay@, needle@, start as int) is None,
        },
{
    if needle.len() > hay.len() {
        return None;
    }
    let stop: usize = hay.len() - needle.len();
    let mut i: usize = start;
    while i <= stop
        invariant
            start <= i,
            stop + needle@.len() == hay@.len(),
            first_at(hay@, needle@, start as int) == first_at(hay@, needle@, i as int),
        decreases stop + 1 - i,
    {
        if matches_at(hay, needle, i) {
            return Some(i);
        }
        if i == stop {
            assert(first_at(hay@, needle@, i + 1) is None);
            return None;
        }
        i += 1;
    }
    None
}

/// `first_at` finds the least occurrence, and misses none.
pub proof fn first_at_is_least(hay: Seq<char>, needle: Seq<char>, start: int)
    ensures
        match first_at(hay, needle, start) {
            Some(i) => start <= i && (0 <= start ==> occurs_at(hay, needle, i)) && forall|j: int|
                start <= j < i ==> !occurs_at(hay, needle, j),
            None => forall|j: int| start <= j ==> !occurs_at(hay, needle, j),
        },
    decreases hay.len() - start + 1,
{
    if start + needle.len() > hay.len() {
    } else if occurs_at(hay, needle, start) {
    } else {
        first_at_is_least(hay, needle, start + 1);
    }
}

/// Whether `needle` stands somewhere in `hay`.
pub fn contains(hay: &str, needle: &str) -> (r: bool)
    ensures
        r == holds(hay@, needle@),
{
    let h = chars_of(hay);
    let n = chars_of(needle);
    proof {
        first_at_is_least(hay@, needle@, 0);
    }
    match find_from(&h, &n, 0) {
        Some(i) => true,
        None => false,
    }
}

/// Whether `s` begins with `prefix`.
pub fn starts_with(s: &str, prefix: &str) -> (r: bool)
    ensures
        r == begins(s@, prefix@),
{
    let h = chars_of(s);
    let n = chars_of(prefix);
    if n.len() > h.len() {
        return false;
    }
    proof {
        assert(s@.take(prefix@.len() as int) =~= s@.subrange(0, prefix@.len() as int));
    }
    matches_at(&h, &n, 0)
}

/// Whether `s` ends with `suffix`.
pub fn ends_with(s: &str, suffix: &str) -> (r: bool)
    ensures
        r == ends(s@, suffix@),
{
    let h = chars_of(s);
    let n = chars_of(suffix);
    if n.len() > h.len() {
        return false;
    }
    let at: usize = h.len() - n.len();
    proof {
        assert(s@.skip(at as int) =~= s@.subrange(at as int, at + suffix@.len()));
    }
    matches_at(&h, &n, at)
}

/// The pieces of `s` between the occurrences of `sep`.
pub fn split(s: &str, sep: &str) -> (r: Vec<String>)
    requires
        sep@.len() > 0,
    ensures
        views(r@) == pieces(s@, sep@),
        r@.len() > 0,
{
    let h = chars_of(s);
    let n = chars_of(sep);
    let mut out: Vec<String> = Vec::new();
    let mut at: usize = 0;
    assert(s@.skip(0) =~= s@);
    assert(views(out@) + pieces(s@, sep@) =~= pieces(s@, sep@));
    loop
        invariant
            h@ == s@,
            n@ == sep@,
            sep@.len() > 0,
            at <= h@.len(),
            views(out@) + pieces(s@.skip(at as int), sep@) == pieces(s@, sep@),
        decreases h@.len() - at,
    {
        proof {
            first_at_of_skip(s@, sep@, at as int);
        }
        match find_from(&h, &n, at) {
            Some(i) => {
                let ghost before = views(out@);
                let ghost rest = s@.skip(at as int);
                let total: usize = h.len();
                out.push(string_of(&h, at, i));
                proof {
                    assert(views(out@) =~= before.push(s@.subrange(at as int, i as int)));
                    assert(rest.take(i - at) =~= s@.subrange(at as int, i as int));
                    assert(rest.skip(i - at + sep@.len()) =~= s@.skip(i + sep@.len()));
                    assert(before + (seq![rest.take(i - at)] + pieces(
                        s@.skip(i + sep@.len()),
                        sep@,
                    )) =~= views(out@) + pieces(s@.skip(i + sep@.len()), sep@));
                }
                at = i + n.len();
            },
            None => {
                let ghost before = views(out@);
                out.push(string_of(&h, at, h.len()));
                proof {
                    assert(views(out@) =~= before.push(s@.skip(at as int)));
                    assert(views(out@) =~= before + seq![s@.skip(at as int)]);
                }
                return out;
            },
        }
    }
}

/// Looking on from `at` is looking from the start of what is left there.
pub proof fn first_at_of_skip(s: Seq<char>, sep: Seq<char>, at: int)
    requires
        0 <= at <= s.len(),
    ensures
        first_at(s.skip(at), sep, 0) == (match first_at(s, sep, at) {
            Some(i) => Some(i - at),
            None => None,
        }),
{
    first_at_shift(s, sep, at, 0);
}

proof fn first_at_shift(s: Seq<char>, sep: Seq<char>, at: int, k: int)
    requires
        0 <= at <= s.len(),
        0 <= k,
    ensures
        first_at(s.skip(at), sep, k) == (match first_at(s, sep, at + k) {
            Some(i) => Some(i - at),
            None => None,
        }),
    decreases s.len() - at - k + 1,
{
    let rest = s.skip(at);
    if k + sep.len() <= rest.len() {
        assert(rest.subrange(k, k + sep.len()) =~= s.subrange(at + k, at + k + sep.len()));
        if !occurs_at(rest, sep, k) {
            first_at_shift(s, sep, at, k + 1);
        }
    }
}

/// `s` with every occurrence of `from` replaced by `to`.
pub fn replace(s: &str, from: &str, to: &str) -> (r: String)
    requires
        from@.len() > 0,
    ensures
        r@ == replaced(s@, from@, to@),
{
    let h = chars_of(s);
    let n = chars_of(from);
    let mut out = String::new();
    let mut at: usize = 0;
    assert(s@.skip(0) =~= s@);
    assert(out@ + replaced(s@, from@, to@) =~= replaced(s@, from@, to@));
    loop
        invariant
            h@ == s@,
            n@ == from@,
            from@.len() > 0,
            at <= h@.len(),
            out@ + replaced(s@.skip(at as int), from@, to@) == replaced(s@, from@, to@),
        decreases h@.len() - at,
    {
        proof {
            first_at_of_skip(s@, from@, at as int);
        }
        match find_from(&h, &n, at) {
            Some(i) => {
                let ghost before = out@;
                let ghost rest = s@.skip(at as int);
                let total: usize = h.len();
                let part = string_of(&h, at, i);
                out.append(part.as_str());
                out.append(to);
                proof {
                    assert(rest.take(i - at) =~= s@.subrange(at as int, i as int));
                    assert(rest.skip(i - at + from@.len()) =~= s@.skip(i + from@.len()));
                    assert(before + (rest.take(i - at) + to@ + replaced(
                        s@.skip(i + from@.len()),
                        from@,
                        to@,
                    )) =~= out@ + replaced(s@.skip(i + from@.len()), from@, to@));
                }
                at = i + n.len();
            },
            None => {
                let part = string_of(&h, at, h.len());
                proof {
                    assert(part@ =~= s@.skip(at as int));
                }
                out.append(part.as_str());
                return out;
            },
        }
    }
}

/// The strings in order, with `sep` between neighbours.
pub fn join(parts: &Vec<String>, sep: &str) -> (r: String)
    ensures
        r@ == joined(views(parts@), sep@),
{
    let mut out = String::new();
    let mut i: usize = 0;
    while i < parts.len()
        invariant
            i <= parts@.len(),
            out@ == joined(views(parts@).take(i as int), sep@),
        decreases parts@.len() - i,
    {
        let ghost all = views(parts@);
        proof {
            assert(all.take(i + 1).drop_last() =~= all.take(i as int));
            assert(all.take(i + 1).last() == parts@[i as int]@);
        }
        if i > 0 {
            out.append(sep);
        }
        out.append(parts[i].as_str());
        proof {
            if i == 0 {
                assert(out@ =~= parts@[0]@);
            }
        }
        i += 1;
    }
    assert(views(parts@).take(i as int) =~= views(parts@));
    out
}

/// Whether a character is white space.
pub fn space(c: char) -> (r: bool)
    ensures
        r == is_space(c),
{
    let u: u32 = c as u32;
    (9 <= u && u <= 13) || u == 32 || u == 0x85 || u == 0xA0 || u == 0x1680 || (0x2000 <= u && u
        <= 0x200A) || u == 0x2028 || u == 0x2029 || u == 0x202F || u == 0x205F || u == 0x3000
}

/// `s` without the white space at both ends.
pub fn trim(s: &str) -> (r: String)
    ensures
        r@ == trimmed(s@),
{
    let h = chars_of(s);
    let mut from: usize = 0;
    assert(s@.skip(0) =~= s@);
    while from < h.len() && space(h[from])
        invariant
            h@ == s@,
            from <= h@.len(),
            without_leading_space(s@.skip(from as int)) == without_leading_space(s@),
        decreases h@.len() - from,
    {
        proof {
            assert(s@.skip(from as int).skip(1) =~= s@.skip(from + 1));
        }
        from += 1;
    }
    let mut to: usize = h.len();
    let ghost lead = without_leading_space(s@);
    assert(lead == s@.skip(from as int));
    assert(s@.subrange(from as int, to as int) =~= lead);
    while to > from && space(h[to - 1])
        invariant
            h@ == s@,
            from <= to <= h@.len(),
            without_trailing_space(s@.subrange(from as int, to as int)) == without_trailing_space(
                lead,
            ),
        decreases to,
    {
        proof {
            assert(s@.subrange(from as int, to as int).drop_last() =~= s@.subrange(
                from as int,
                to - 1,
            ));
        }
        to -= 1;
    }
    string_of(&h, from, to)
}

/// `s` without the white space behind.
pub fn trim_end(s: &str) -> (r: String)
    ensures
        r@ == without_trailing_space(s@),
{
    let h = chars_of(s);
    let mut to: usize = h.len();
    assert(s@.subrange(0, to as int) =~= s@);
    while to > 0 && space(h[to - 1])
        invariant
            h@ == s@,
            to <= h@.len(),
            without_trailing_space(s@.subrange(0, to as int)) == without_trailing_space(s@),
        decreases to,
    {
        proof {
            assert(s@.subrange(0, to as int).drop_last() =~= s@.subrange(0, to - 1));
        }
        to -= 1;
    }
    string_of(&h, 0, to)
}

fn lower_char(c: char) -> (r: char)
    ensures
        r == ascii_lower_char(c),
{
    if 'A' <= c && c <= 'Z' {
        let b: u8 = c as u8;
        (b + 32) as char
    } else {
        c
    }
}

/// `s` with its ASCII capitals in lower case.
pub fn to_ascii_lower(s: &str) -> (r: String)
    ensures
        r@ == ascii_lower(s@),
{
    let mut out = String::new();
    for c in it: s.chars()
        invariant
            it.seq() == s@,
            out@ == ascii_lower(s@.take(it.index() as int)),
    {
        proof {
            assert(ascii_lower(s@.take(it.index() as int)).push(ascii_lower_char(c))
                =~= ascii_lower(s@.take(it.index() + 1)));
        }
        out.push(lower_char(c));
    }
    assert(s@.take(s@.len() as int) =~= s@);
    out
}

/// A copy of a list of strings.
pub fn clone_strings(v: &Vec<String>) -> (r: Vec<String>)
    ensures
        r@ == v@,
{
    let mut out: Vec<String> = Vec::new();
    let mut i: usize = 0;
    while i < v.len()
        invariant
            i <= v@.len(),
            out@ == v@.take(i as int),
        decreases v@.len() - i,
    {
        out.push(v[i].clone());
        i += 1;
    }
    out
}

/// Whether the list holds a string with the text `s`.
pub fn list_has(v: &Vec<String>, s: &str) -> (r: bool)
    ensures
        r == views(v@).contains(s@),
{
    let mut i: usize = 0;
    while i < v.len()
        invariant
            i <= v@.len(),
            forall|k: int| 0 <= k < i ==> v@[k]@ != s@,
        decreases v@.len() - i,
    {
        if same(v[i].as_str(), s) {
            assert(views(v@)[i as int] == s@);
            return true;
        }
        i += 1;
    }
    assert forall|k: int| 0 <= k < views(v@).len() implies views(v@)[k] != s@ by {}
    false
}

/// `s` without the copies of `prefix` that it begins with.
pub fn strip_prefixes(s: &str, prefix: &str) -> (r: String)
    requires
        prefix@.len() > 0,
    ensures
        r@ == without_prefixes(s@, prefix@),
{
    let h = chars_of(s);
    let n = chars_of(prefix);
    let total: usize = h.len();
    let mut at: usize = 0;
    assert(s@.skip(0) =~= s@);
    while n.len() <= total - at && matches_at(&h, &n, at)
        invariant
            h@ == s@,
            n@ == prefix@,
            n@.len() > 0,
            at <= h@.len() == total,
            without_prefixes(s@.skip(at as int), prefix@) == without_prefixes(s@, prefix@),
        decreases total - at,
    {
        proof {
            let rest = s@.skip(at as int);
            assert(rest.take(prefix@.len() as int) =~= s@.subrange(
                at as int,
                at + prefix@.len(),
            ));
            assert(rest.skip(prefix@.len() as int) =~= s@.skip(at + prefix@.len()));
        }
        at += n.len();
    }
    proof {
        let rest = s@.skip(at as int);
        if begins(rest, prefix@) {
            assert(rest.take(prefix@.len() as int) =~= s@.subrange(
                at as int,
                at + prefix@.len(),
            ));
        }
        assert(s@.subrange(at as int, total as int) =~= rest);
    }
    string_of(&h, at, total)
}

/// `s` without the copies of the character that it ends with.
pub fn strip_trailing(s: &str, c: char) -> (r: String)
    ensures
        r@ == without_trailing(s@, c),
{
    let h = chars_of(s);
    let mut to: usize = h.len();
    assert(s@.subrange(0, to as int) =~= s@);
    while to > 0 && h[to - 1] == c
        invariant
            h@ == s@,
            to <= h@.len(),
            without_trailing(s@.subrange(0, to as int), c) == without_trailing(s@, c),
        decreases to,
    {
        proof {
            assert(s@.subrange(0, to as int).drop_last() =~= s@.subrange(0, to - 1));
        }
        to -= 1;
    }
    string_of(&h, 0, to)
}

fn digit(c: char) -> (r: bool)
    ensures
        r == is_digit(c),
{
    '0' <= c && c <= '9'
}

fn end_of_digits(h: &Vec<char>, i: usize) -> (r: usize)
    requires
        i <= h@.len(),
    ensures
        r == digits_end(h@, i as int),
        i <= r <= h@.len(),
{
    let mut j: usize = i;
    while j < h.len() && digit(h[j])
        invariant
            i <= j <= h@.len(),
            digits_end(h@, i as int) == digits_end(h@, j as int),
        decreases h@.len() - j,
    {
        j += 1;
    }
    j
}

fn exponent_at(h: &Vec<char>, i: usize) -> (r: bool)
    requires
        i <= h@.len(),
    ensures
        r == exponent_or_nothing(h@, i as int),
{
    if i == h.len() {
        return true;
    }
    if h[i] != 'e' && h[i] != 'E' {
        return false;
    }
    let first: usize = if i + 1 < h.len() && (h[i + 1] == '+' || h[i + 1] == '-') {
        i + 2
    } else {
        i + 1
    };
    let last: usize = end_of_digits(h, first);
    last > first && last == h.len()
}

/// Whether the text is one that `f64::from_str` takes.
pub fn float_literal(s: &str) -> (r: bool)
    ensures
        r == is_float_literal(s@),
{
    let h = chars_of(s);
    let start: usize = if h.len() > 0 && (h[0] == '+' || h[0] == '-') {
        1
    } else {
        0
    };
    let tail = string_of(&h, start, h.len());
    assert(tail@ =~= s@.skip(start as int));
    let word = to_ascii_lower(tail.as_str());
    if same(word.as_str(), "inf") || same(word.as_str(), "infinity") || same(word.as_str(), "nan") {
        return true;
    }
    let a: usize = end_of_digits(&h, start);
    if a < h.len() && h[a] == '.' {
        let b: usize = end_of_digits(&h, a + 1);
        (a > start || b > a + 1) && exponent_at(&h, b)
    } else {
        a > start && exponent_at(&h, a)
    }
}

/// The text before and behind the first occurrence of `sep`.
pub fn split_once(s: &str, sep: &str) -> (r: Option<(String, String)>)
    ensures
        match r {
            Some(p) => first_at(s@, sep@, 0) is Some && p.0@ == s@.take(
                first_at(s@, sep@, 0)->0,
            ) && p.1@ == s@.skip(first_at(s@, sep@, 0)->0 + sep@.len()),
            None => first_at(s@, sep@, 0) is None,
        },
{
    let h = chars_of(s);
    let n = chars_of(sep);
    match find_from(&h, &n, 0) {
        Some(i) => {
            let total: usize = h.len();
            let a = string_of(&h, 0, i);
            let b = string_of(&h, i + n.len(), total);
            assert(a@ =~= s@.take(i as int));
            assert(b@ =~= s@.skip(i + sep@.len()));
            Some((a, b))
        },
        None => None,
    }
}

proof fn digits_value_grows(s: Seq<char>, n: int)
    requires
        0 <= n <= s.len(),
    ensures
        digits_value(s.take(n)) <= digits_value(s) || exists|i: int|
            0 <= i < s.len() && !is_digit(#[trigger] s[i]),
    decreases s.len() - n,
{
    if n < s.len() {
        digits_value_grows(s, n + 1);
        assert(s.take(n + 1).drop_last() =~= s.take(n));
        assert(s.take(n + 1).last() == s[n]);
    } else {
        assert(s.take(n) =~= s);
    }
}

/// Reads a number as `u64::from_str` does.
pub fn parse_u64(s: &str) -> (r: Option<u64>)
    ensures
        match r {
            Some(n) => unsigned(s@) == Some(n as nat),
            None => unsigned(s@) is None,
        },
{
    let h = chars_of(s);
    let start: usize = if h.len() > 0 && h[0] == '+' {
        1
    } else {
        0
    };
    let ghost d = unsigned_digits(s@);
    assert(d =~= s@.skip(start as int));
    if start == h.len() {
        return None;
    }
    let mut value: u64 = 0;
    let mut i: usize = start;
    assert(d.take(0) =~= Seq::<char>::empty());
    while i < h.len()
        invariant
            h@ == s@,
            start <= i <= h@.len(),
            d == s@.skip(start as int),
            d == unsigned_digits(s@),
            value == digits_value(d.take(i - start)),
            forall|k: int| 0 <= k < i - start ==> is_digit(#[trigger] d[k]),
        decreases h@.len() - i,
    {
        if !digit(h[i]) {
            assert(!is_digit(d[i - start]));
            return None;
        }
        proof {
            let n = i - start;
            assert(d.take(n + 1).drop_last() =~= d.take(n));
            assert(d.take(n + 1).last() == d[n]);
            digits_value_grows(d, n + 1);
        }
        let c: u32 = h[i] as u32;
        let next: u128 = value as u128 * 10 + (c - 48) as u128;
        if next > u64::MAX as u128 {
            return None;
        }
        value = next as u64;
        i += 1;
    }
    assert(d.take(i - start) =~= d);
    Some(value)
}

proof fn value_grows(d: Seq<char>, k: int, n: int)
    requires
        0 <= k <= n <= d.len(),
        forall|i: int| 0 <= i < d.len() ==> is_digit(#[trigger] d[i]),
    ensures
        digits_value(d.take(k)) <= digits_value(d.take(n)),
    decreases n - k,
{
    if k < n {
        value_grows(d, k, n - 1);
        assert(d.take(n).drop_last() =~= d.take(n - 1));
        assert(d.take(n).last() == d[n - 1]);
    }
}

proof fn zeros_keep_zero(d: Seq<char>, k: int, n: int)
    requires
        0 <= k <= n <= d.len(),
        digits_value(d.take(k)) == 0,
        forall|i: int| k <= i < n ==> d[i] == '0',
    ensures
        digits_value(d.take(n)) == 0,
    decreases n - k,
{
    if k < n {
        zeros_keep_zero(d, k, n - 1);
        assert(d.take(n).drop_last() =~= d.take(n - 1));
        assert(d.take(n).last() == d[n - 1]);
    }
}

/// The value of the first `n` digits, and `most` where it is greater.
fn leading_value(d: &Vec<char>, n: i128, most: u128) -> (r: u128)
    requires
        most <= MOST_UNITS,
        forall|i: int| 0 <= i < d@.len() ==> is_digit(#[trigger] d@[i]),
    ensures
        r == (if digits_value(first_digits(d@, n as int)) > most {
            most as int
        } else {
            digits_value(first_digits(d@, n as int)) as int
        }),
{
    let ghost all = first_digits(d@, n as int);
    let mut v: u128 = 0;
    let mut i: i128 = 0;
    assert(all.take(0) =~= Seq::<char>::empty());
    assert(forall|k: int| 0 <= k < all.len() ==> is_digit(#[trigger] all[k]));
    while i < n
        invariant
            0 <= i,
            n >= 0 ==> i <= n,
            n < 0 ==> i == 0,
            all == first_digits(d@, n as int),
            forall|k: int| 0 <= k < all.len() ==> is_digit(#[trigger] all[k]),
            v == digits_value(all.take(i as int)),
            v <= most <= MOST_UNITS,
        decreases n - i,
    {
        proof {
            assert(all.take(i + 1).drop_last() =~= all.take(i as int));
            assert(all.take(i + 1).last() == all[i as int]);
        }
        if i >= d.len() as i128 && v == 0 {
            proof {
                zeros_keep_zero(all, i as int, all.len() as int);
                assert(all.take(all.len() as int) =~= all);
            }
            return 0;
        }
        let c: char = if i < d.len() as i128 {
            d[i as usize]
        } else {
            '0'
        };
        assert(c == all[i as int]);
        let u: u32 = c as u32;
        let next: u128 = v * 10 + (u - 48) as u128;
        if next > most {
            proof {
                value_grows(all, i + 1, all.len() as int);
                assert(all.take(all.len() as int) =~= all);
            }
            return most;
        }
        v = next;
        i += 1;
    }
    assert(all.take(i as int) =~= all);
    v
}

fn all_digits(h: &Vec<char>, from: usize, to: usize) -> (r: Vec<char>)
    requires
        from <= to <= h@.len(),
    ensures
        r@ == h@.subrange(from as int, to as int),
{
    let mut out: Vec<char> = Vec::new();
    let mut i: usize = from;
    while i < to
        invariant
            from <= i <= to <= h@.len(),
            out@ == h@.subrange(from as int, i as int),
        decreases to - i,
    {
        out.push(h[i]);
        i += 1;
    }
    out
}

proof fn digits_run(s: Seq<char>, i: int)
    requires
        0 <= i <= s.len(),
    ensures
        i <= digits_end(s, i) <= s.len(),
        forall|k: int| i <= k < digits_end(s, i) ==> is_digit(#[trigger] s[k]),
    decreases s.len() - i,
{
    if i < s.len() && is_digit(s[i]) {
        digits_run(s, i + 1);
    }
}

fn exponent_of(h: &Vec<char>, i: usize) -> (r: i64)
    requires
        i <= h@.len(),
        exponent_or_nothing(h@, i as int),
    ensures
        r == exponent_at_most(h@, i as int),
        -1_000_000 <= r <= 1_000_000,
{
    if i >= h.len() {
        return 0;
    }
    let total: usize = h.len();
    let signed = i + 1 < h.len() && (h[i + 1] == '+' || h[i + 1] == '-');
    let negative = i + 1 < h.len() && h[i + 1] == '-';
    let first: usize = if signed {
        i + 2
    } else {
        i + 1
    };
    let ghost rest = h@.skip(first as int);
    proof {
        digits_run(h@, first as int);
        assert forall|k: int| 0 <= k < rest.len() implies is_digit(#[trigger] rest[k]) by {
            assert(rest[k] == h@[first + k]);
        }
        assert(rest.take(0) =~= Seq::<char>::empty());
    }
    let mut size: i64 = 0;
    let mut k: usize = first;
    while k < h.len()
        invariant
            first <= k <= h@.len(),
            rest == h@.skip(first as int),
            forall|m: int| 0 <= m < rest.len() ==> is_digit(#[trigger] rest[m]),
            size == (if digits_value(rest.take(k - first)) > 1_000_000 {
                1_000_000int
            } else {
                digits_value(rest.take(k - first)) as int
            }),
        decreases h@.len() - k,
    {
        proof {
            let n = k - first;
            assert(rest.take(n + 1).drop_last() =~= rest.take(n));
            assert(rest.take(n + 1).last() == rest[n]);
            assert(rest[n] == h@[k as int]);
        }
        let u: u32 = h[k] as u32;
        let next: i64 = size * 10 + (u - 48) as i64;
        size = if next > 1_000_000 {
            1_000_000
        } else {
            next
        };
        k += 1;
    }
    assert(rest.take(k - first) =~= rest);
    if negative {
        -size
    } else {
        size
    }
}

/// The digits of the number that starts there, without its point, and how many of them stand
/// before the point when the exponent has moved it; nothing where there is no number.
pub fn digits_of(h: &Vec<char>, start: usize) -> (r: Option<(Vec<char>, i128)>)
    requires
        start <= h@.len(),
        start <= 1,
    ensures
        match r {
            Some((digits, point)) => {
                &&& number_from(h@, start as int)
                &&& digits@ == digits_from(h@, start as int)
                &&& point == point_from(h@, start as int)
                &&& -1_000_000 <= point <= digits@.len() + 1_000_000
                &&& forall|k: int| 0 <= k < digits@.len() ==> is_digit(#[trigger] digits@[k])
            },
            None => !number_from(h@, start as int),
        },
{
    let total: usize = h.len();
    let a: usize = end_of_digits(h, start);
    let mut digits = all_digits(h, start, a);
    proof {
        digits_run(h@, start as int);
    }
    let mut b: usize = a;
    if a < total && h[a] == '.' {
        b = end_of_digits(h, a + 1);
        proof {
            digits_run(h@, a + 1);
        }
        if a == start && b == a + 1 {
            return None;
        }
        let mut more = all_digits(h, a + 1, b);
        digits.append(&mut more);
    } else if a == start {
        return None;
    }
    if !exponent_at(h, b) {
        return None;
    }
    let e: i64 = exponent_of(h, b);
    let ghost whole = h@.subrange(start as int, a as int);
    proof {
        assert(digits@ =~= digits_from(h@, start as int));
        assert forall|k: int| 0 <= k < digits@.len() implies is_digit(#[trigger] digits@[k]) by {
            if k < whole.len() {
                assert(digits@[k] == h@[start + k]);
            } else {
                assert(digits@[k] == h@[a + 1 + (k - whole.len())]);
            }
        }
    }
    Some((digits, (a - start) as i128 + e as i128))
}

/// The value of digits, and `most` where it is greater.
pub fn value_up_to(d: &Vec<char>, most: u128) -> (r: u128)
    requires
        most <= MOST_UNITS,
        forall|i: int| 0 <= i < d@.len() ==> is_digit(#[trigger] d@[i]),
    ensures
        r == (if digits_value(d@) > most {
            most as int
        } else {
            digits_value(d@) as int
        }),
{
    assert(first_digits(d@, d@.len() as int) =~= d@);
    leading_value(d, d.len() as i128, most)
}

/// How many units of the given decimal place a decimal number amounts to, where the text is
/// one.
pub fn parse_scaled(s: &str, places: u32, most: u128) -> (r: Option<i128>)
    requires
        most <= MOST_UNITS,
    ensures
        match r {
            Some(n) => scaled(s@, places as int, most as nat) == Some(n as int) && -most <= n
                <= most,
            None => scaled(s@, places as int, most as nat) is None,
        },
{
    let h = chars_of(s);
    let start: usize = if h.len() > 0 && (h[0] == '+' || h[0] == '-') {
        1
    } else {
        0
    };
    match digits_of(&h, start) {
        None => None,
        Some((digits, point)) => {
            let value: i128 = leading_value(&digits, point + places as i128, most) as i128;
            if h[0] == '-' {
                Some(-value)
            } else {
                Some(value)
            }
        },
    }
}

/// Reads a number as `i64::from_str` does.
pub fn parse_i64(s: &str) -> (r: Option<i64>)
    ensures
        match r {
            Some(n) => signed(s@) == Some(n as int),
            None => signed(s@) is None,
        },
{
    let h = chars_of(s);
    let start: usize = if h.len() > 0 && (h[0] == '+' || h[0] == '-') {
        1
    } else {
        0
    };
    if start == h.len() {
        return None;
    }
    let negative = h[0] == '-';
    let ghost d = behind_sign(s@);
    assert(d =~= s@.skip(start as int));
    let mut value: u128 = 0;
    let mut i: usize = start;
    assert(d.take(0) =~= Seq::<char>::empty());
    while i < h.len()
        invariant
            h@ == s@,
            start <= i <= h@.len(),
            d == s@.skip(start as int),
            value == digits_value(d.take(i - start)),
            value <= 0x8000_0000_0000_0000,
            forall|k: int| 0 <= k < i - start ==> is_digit(#[trigger] d[k]),
            d == behind_sign(s@),
        decreases h@.len() - i,
    {
        if !digit(h[i]) {
            assert(!is_digit(d[i - start]));
            return None;
        }
        proof {
            let n = i - start;
            assert(d.take(n + 1).drop_last() =~= d.take(n));
            assert(d.take(n + 1).last() == d[n]);
            if only_digits(d) {
                digits_value_grows(d, n + 1);
            }
        }
        let c: u32 = h[i] as u32;
        let next: u128 = value * 10 + (c - 48) as u128;
        if next > 0x8000_0000_0000_0000 {
            return None;
        }
        value = next;
        i += 1;
    }
    assert(d.take(i - start) =~= d);
    let v: i128 = if negative {
        -(value as i128)
    } else {
        value as i128
    };
    if v > i64::MAX as i128 {
        None
    } else {
        Some(v as i64)
    }
}

} // verus!
