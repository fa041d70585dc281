//! Thresholds: decimal numbers of any length, with which quotients are compared exactly.
use vstd::prelude::*;
use vstd::string::*;
use crate::decimal;
use crate::text;

verus! {

/// A threshold: the decimal digits before and behind the point, or a word.
pub enum Threshold {
    Number { negative: bool, whole: Vec<char>, fraction: Vec<char> },
    /// Beyond all numbers.
    Infinite { negative: bool },
    /// No number, to which nothing compares.
    Undefined,
}

pub enum ThresholdView {
    Number { negative: bool, whole: Seq<char>, fraction: Seq<char> },
    Infinite { negative: bool },
    Undefined,
}

impl View for Threshold {
    type V = ThresholdView;

    open spec fn view(&self) -> ThresholdView {
        match self {
            Threshold::Number { negative, whole, fraction } => ThresholdView::Number {
                negative: *negative,
                whole: whole@,
                fraction: fraction@,
            },
            Threshold::Infinite { negative } => ThresholdView::Infinite { negative: *negative },
            Threshold::Undefined => ThresholdView::Undefined,
        }
    }
}

// ---------------------------------------------------------------------------
// Reading
// ---------------------------------------------------------------------------

/// The digits behind the first `n`; where `n` is negative, as many zeros come first.
pub open spec fn last_digits(d: Seq<char>, n: int) -> Seq<char> {
    if n >= d.len() {
        Seq::empty()
    } else if n >= 0 {
        d.skip(n)
    } else {
        Seq::new((-n) as nat, |i: int| '0') + d
    }
}

/// The threshold that a text stands for: a decimal number with or without an exponent, of
/// which one beyond a million counts as a million, or one of the words `inf`, `infinity` and
/// `nan`, whatever their case; all with or without a sign.
pub open spec fn threshold(s: Seq<char>) -> Option<ThresholdView> {
    let start: int = if s.len() > 0 && (s[0] == '+' || s[0] == '-') {
        1
    } else {
        0
    };
    let negative = s.len() > 0 && s[0] == '-';
    let word = text::ascii_lower(s.skip(start));
    if word == "inf"@ || word == "infinity"@ {
        Some(ThresholdView::Infinite { negative })
    } else if word == "nan"@ {
        Some(ThresholdView::Undefined)
    } else if text::number_from(s, start) {
        Some(
            ThresholdView::Number {
                negative,
                whole: text::first_digits(text::digits_from(s, start), text::point_from(s, start)),
                fraction: last_digits(text::digits_from(s, start), text::point_from(s, start)),
            },
        )
    } else {
        None
    }
}

/// The threshold there may be.
pub open spec fn opt_threshold(t: Option<Threshold>) -> Option<ThresholdView> {
    match t {
        Some(x) => Some(x@),
        None => None,
    }
}

fn first_of(d: &Vec<char>, n: i128) -> (r: Vec<char>)
    requires
        n <= d@.len() + 1_000_000,
    ensures
        r@ == text::first_digits(d@, n as int),
{
    let ghost all = text::first_digits(d@, n as int);
    let mut out: Vec<char> = Vec::new();
    let mut i: i128 = 0;
    assert(out@ =~= all.take(0));
    while i < n
        invariant
            0 <= i,
            n >= 0 ==> i <= n,
            n < 0 ==> i == 0,
            all == text::first_digits(d@, n as int),
            out@ == all.take(i as int),
        decreases n - i,
    {
        let c: char = if i < d.len() as i128 {
            d[i as usize]
        } else {
            '0'
        };
        assert(all.take(i + 1) =~= all.take(i as int).push(all[i as int]));
        out.push(c);
        i += 1;
    }
    assert(all.take(i as int) =~= all);
    out
}

fn last_of(d: &Vec<char>, n: i128) -> (r: Vec<char>)
    requires
        n >= -1_000_000,
    ensures
        r@ == last_digits(d@, n as int),
{
    let ghost all = last_digits(d@, n as int);
    let mut out: Vec<char> = Vec::new();
    if n >= d.len() as i128 {
        assert(out@ =~= all);
        return out;
    }
    let mut k: i128 = n;
    while k < 0
        invariant
            n < 0 ==> n <= k <= 0,
            n >= 0 ==> k == n,
            n < d@.len(),
            n < 0 ==> out@ == Seq::new((k - n) as nat, |i: int| '0'),
            n >= 0 ==> out@.len() == 0,
        decreases 0 - k,
    {
        out.push('0');
        k += 1;
        assert(out@ =~= Seq::new((k - n) as nat, |i: int| '0'));
    }
    let from: usize = k as usize;
    let ghost zeros = out@;
    let mut i: usize = from;
    assert(out@ =~= zeros + d@.subrange(from as int, i as int));
    while i < d.len()
        invariant
            from <= i <= d@.len(),
            out@ == zeros + d@.subrange(from as int, i as int),
        decreases d@.len() - i,
    {
        out.push(d[i]);
        i += 1;
        assert(out@ =~= zeros + d@.subrange(from as int, i as int));
    }
    assert(out@ =~= all);
    out
}

/// Reads a threshold.
pub fn parse_threshold(s: &str) -> (r: Option<Threshold>)
    ensures
        opt_threshold(r) == threshold(s@),
        r matches Some(t) ==> t@.wf(),
{
    let h = text::chars_of(s);
    let start: usize = if h.len() > 0 && (h[0] == '+' || h[0] == '-') {
        1
    } else {
        0
    };
    let negative: bool = h.len() > 0 && h[0] == '-';
    let rest = text::string_of(&h, start, h.len());
    assert(rest@ =~= s@.skip(start as int));
    let word = text::to_ascii_lower(rest.as_str());
    if text::same(word.as_str(), "inf") || text::same(word.as_str(), "infinity") {
        return Some(Threshold::Infinite { negative });
    }
    if text::same(word.as_str(), "nan") {
        return Some(Threshold::Undefined);
    }
    match text::digits_of(&h, start) {
        None => None,
        Some((digits, point)) => {
            let whole = first_of(&digits, point);
            let fraction = last_of(&digits, point);
            Some(Threshold::Number { negative, whole, fraction })
        },
    }
}

// ---------------------------------------------------------------------------
// Comparing
// ---------------------------------------------------------------------------

impl ThresholdView {
    /// All that stands for digits are digits.
    pub open spec fn wf(self) -> bool {
        match self {
            ThresholdView::Number { whole, fraction, .. } => {
                &&& forall|i: int| 0 <= i < whole.len() ==> text::is_digit(#[trigger] whole[i])
                &&& forall|i: int|
                    0 <= i < fraction.len() ==> text::is_digit(#[trigger] fraction[i])
            },
            _ => true,
        }
    }
}

/// Less, equal or greater.
#[derive(Clone, Copy, PartialEq, Eq, Structural, Debug)]
pub enum Side {
    Below,
    Equal,
    Above,
}

/// On which side of zero a number lies.
pub open spec fn side_of_zero(x: int) -> Side {
    if x < 0 {
        Side::Below
    } else if x == 0 {
        Side::Equal
    } else {
        Side::Above
    }
}

/// The number that digits before and behind the point stand for, times ten for each digit
/// behind it.
pub open spec fn digits_together(whole: Seq<char>, fraction: Seq<char>) -> int {
    text::digits_value(whole) as int * decimal::pow10(fraction.len()) as int
        + text::digits_value(fraction) as int
}

/// On which side of a threshold a quotient lies; nothing where nothing compares to it.
pub open spec fn side(num: int, den: int, t: ThresholdView) -> Option<Side> {
    match t {
        ThresholdView::Number { negative, whole, fraction } => {
            let limit = if negative {
                -digits_together(whole, fraction)
            } else {
                digits_together(whole, fraction)
            };
            Some(side_of_zero(num * decimal::pow10(fraction.len()) - limit * den))
        },
        ThresholdView::Infinite { negative } => Some(
            if negative {
                Side::Above
            } else {
                Side::Below
            },
        ),
        ThresholdView::Undefined => None,
    }
}

/// Into how many parts one is divided, of which two numbers that count as equal are less than
/// one apart.
pub const EQUAL_PARTS: u128 = 4_503_599_627_370_496;

/// The distance between two numbers.
pub open spec fn distance(a: int, b: int) -> int {
    if a < b {
        b - a
    } else {
        a - b
    }
}

/// A quotient counts as equal to a threshold: they differ by less than `2^-52`. Nothing is
/// equal to what is beyond all numbers.
pub open spec fn near(num: int, den: int, t: ThresholdView) -> bool {
    match t {
        ThresholdView::Number { negative, whole, fraction } => {
            let limit = if negative {
                -digits_together(whole, fraction)
            } else {
                digits_together(whole, fraction)
            };
            let p = decimal::pow10(fraction.len()) as int;
            distance(num * p, limit * den) * EQUAL_PARTS < den * p
        },
        _ => false,
    }
}

proof fn value_by_first_digit(s: Seq<char>)
    requires
        s.len() > 0,
        forall|i: int| 0 <= i < s.len() ==> text::is_digit(#[trigger] s[i]),
    ensures
        text::digits_value(s) == (s[0] as u32 - '0' as u32) * decimal::pow10(
            (s.len() - 1) as nat,
        ) + text::digits_value(s.skip(1)),
        text::digits_value(s) < decimal::pow10(s.len()),
    decreases s.len(),
{
    let front = s.drop_last();
    assert(text::is_digit(s[s.len() - 1]) && text::is_digit(s[0]));
    let first = (s[0] as u32 - '0' as u32) as int;
    let last = (s.last() as u32 - '0' as u32) as int;
    if s.len() == 1 {
        assert(s.skip(1) =~= Seq::<char>::empty());
        assert(front =~= Seq::<char>::empty());
        assert(decimal::pow10(0) == 1 && decimal::pow10(1) == 10) by {
            reveal_with_fuel(decimal::pow10, 2);
        }
        assert(text::digits_value(front) == 0);
        assert(first * 1 == first);
    } else {
        assert forall|i: int| 0 <= i < front.len() implies text::is_digit(#[trigger] front[i]) by {
            assert(front[i] == s[i]);
        }
        value_by_first_digit(front);
        let p = decimal::pow10((s.len() - 2) as nat) as int;
        assert(decimal::pow10((s.len() - 1) as nat) == 10 * p);
        assert(decimal::pow10(s.len()) == 10 * decimal::pow10((s.len() - 1) as nat));
        assert(front[0] == s[0]);
        assert(front.skip(1) =~= s.skip(1).drop_last());
        assert(s.skip(1).last() == s.last());
        let rest = text::digits_value(front.skip(1)) as int;
        assert((first * p + rest) * 10 + last == first * (10 * p) + (rest * 10 + last))
            by (nonlinear_arith);
    }
}

proof fn below_power(s: Seq<char>)
    requires
        forall|i: int| 0 <= i < s.len() ==> text::is_digit(#[trigger] s[i]),
    ensures
        0 <= text::digits_value(s) < decimal::pow10(s.len()),
{
    if s.len() > 0 {
        value_by_first_digit(s);
    }
}

/// One digit of a quotient decides, or the rest of it does.
proof fn digit_decides(r: int, den: int, s: Seq<char>, e: int, left: int)
    requires
        s.len() > 0,
        forall|i: int| 0 <= i < s.len() ==> text::is_digit(#[trigger] s[i]),
        r * 10 == e * den + left,
        0 <= left < den,
    ensures
        ({
            let d = (s[0] as u32 - '0' as u32) as int;
            let now = r * decimal::pow10(s.len()) - text::digits_value(s) * den;
            let next = left * decimal::pow10((s.len() - 1) as nat) - text::digits_value(
                s.skip(1),
            ) * den;
            &&& e < d ==> now < 0
            &&& e > d ==> now > 0
            &&& e == d ==> now == next
        }),
{
    value_by_first_digit(s);
    let d = (s[0] as u32 - '0' as u32) as int;
    let p = decimal::pow10((s.len() - 1) as nat) as int;
    let tail = s.skip(1);
    assert forall|i: int| 0 <= i < tail.len() implies text::is_digit(#[trigger] tail[i]) by {
        assert(tail[i] == s[i + 1]);
    }
    below_power(tail);
    let rest = text::digits_value(tail) as int;
    assert(decimal::pow10(s.len()) == 10 * p);
    let now = r * (10 * p) - (d * p + rest) * den;
    let next = left * p - rest * den;
    assert(now == (e - d) * (p * den) + next) by (nonlinear_arith)
        requires
            now == r * (10 * p) - (d * p + rest) * den,
            next == left * p - rest * den,
            r * 10 == e * den + left,
    ;
    assert(-(p * den) < next < p * den) by (nonlinear_arith)
        requires
            next == left * p - rest * den,
            0 <= left < den,
            0 <= rest < p,
    ;
    let pd = p * den;
    if e < d {
        assert((e - d) * pd <= -pd) by (nonlinear_arith)
            requires
                e - d <= -1,
                pd > 0,
        ;
    } else if e > d {
        assert((e - d) * pd >= pd) by (nonlinear_arith)
            requires
                e - d >= 1,
                pd > 0,
        ;
    } else {
        assert((e - d) * pd == 0) by (nonlinear_arith)
            requires
                e == d,
        ;
    }
}

/// The whole part of a quotient decides, or what is left of it does.
proof fn whole_decides(num: int, den: int, w: int, fraction: Seq<char>, q: int, left: int)
    requires
        num == q * den + left,
        0 <= left < den,
        forall|i: int| 0 <= i < fraction.len() ==> text::is_digit(#[trigger] fraction[i]),
    ensures
        ({
            let p = decimal::pow10(fraction.len()) as int;
            let f = text::digits_value(fraction) as int;
            let now = num * p - (w * p + f) * den;
            let next = left * p - f * den;
            &&& q < w ==> now < 0
            &&& q > w ==> now > 0
            &&& q == w ==> now == next
        }),
{
    below_power(fraction);
    let p = decimal::pow10(fraction.len()) as int;
    let f = text::digits_value(fraction) as int;
    let now = num * p - (w * p + f) * den;
    let next = left * p - f * den;
    let pd = p * den;
    assert(now == (q - w) * pd + next) by (nonlinear_arith)
        requires
            now == num * p - (w * p + f) * den,
            next == left * p - f * den,
            num == q * den + left,
            pd == p * den,
    ;
    assert(-pd < next < pd) by (nonlinear_arith)
        requires
            next == left * p - f * den,
            0 <= left < den,
            0 <= f < p,
            pd == p * den,
    ;
    if q < w {
        assert((q - w) * pd <= -pd) by (nonlinear_arith)
            requires
                q - w <= -1,
                pd > 0,
        ;
    } else if q > w {
        assert((q - w) * pd >= pd) by (nonlinear_arith)
            requires
                q - w >= 1,
                pd > 0,
        ;
    } else {
        assert((q - w) * pd == 0) by (nonlinear_arith)
            requires
                q == w,
        ;
    }
}

/// Compares by long division, digit by digit: `q`, and of `unit` parts of one `a`, and of
/// `den` parts of such a part `b`, with a decimal number.
fn side_of_parts(
    q: u128,
    a: u128,
    b: u128,
    den: u128,
    unit: u128,
    whole: &Vec<char>,
    fraction: &Vec<char>,
) -> (r: Side)
    requires
        q < text::MOST_UNITS,
        b < den < text::MOST_UNITS,
        a < unit <= EQUAL_PARTS,
        forall|i: int| 0 <= i < whole@.len() ==> text::is_digit(#[trigger] whole@[i]),
        forall|i: int| 0 <= i < fraction@.len() ==> text::is_digit(#[trigger] fraction@[i]),
    ensures
        r == side_of_zero(
            (q * (den * unit) + (a * den + b)) * decimal::pow10(fraction@.len())
                - digits_together(whole@, fraction@) * (den * unit),
        ),
{
    let w: u128 = text::value_up_to(whole, text::MOST_UNITS);
    let ghost f = fraction@;
    let ghost full = den * unit;
    let ghost num = q * full + (a * den + b);
    let ghost all = num * decimal::pow10(f.len()) - digits_together(whole@, f) * full;
    proof {
        parts_are_less(a as int, b as int, den as int, unit as int);
        whole_decides(
            num,
            full,
            text::digits_value(whole@) as int,
            f,
            q as int,
            a * den + b,
        );
    }
    if q < w {
        return Side::Below;
    }
    if q > w {
        return Side::Above;
    }
    let mut part: u128 = a;
    let mut left: u128 = b;
    let mut i: usize = 0;
    assert(f.skip(0) =~= f);
    while i < fraction.len()
        invariant
            i <= fraction@.len(),
            f == fraction@,
            forall|k: int| 0 <= k < fraction@.len() ==> text::is_digit(#[trigger] fraction@[k]),
            left < den < text::MOST_UNITS,
            part < unit <= EQUAL_PARTS,
            full == den * unit,
            num == q * full + (a * den + b),
            all == num * decimal::pow10(f.len()) - digits_together(whole@, f) * full,
            all == (part * den + left) * decimal::pow10((f.len() - i) as nat)
                - text::digits_value(f.skip(i as int)) * full,
        decreases fraction@.len() - i,
    {
        let carry: u128 = left * 10 / den;
        let next_left: u128 = left * 10 % den;
        assert(carry < 10) by {
            vstd::arithmetic::div_mod::lemma_fundamental_div_mod(left * 10, den as int);
            assert(carry < 10) by (nonlinear_arith)
                requires
                    left * 10 == den * carry + next_left,
                    0 <= left < den,
                    0 <= next_left,
            ;
        }
        let tens: u128 = part * 10 + carry;
        let e: u128 = tens / unit;
        let next_part: u128 = tens % unit;
        let d: u32 = fraction[i] as u32 - 48;
        proof {
            let s = f.skip(i as int);
            assert forall|k: int| 0 <= k < s.len() implies text::is_digit(#[trigger] s[k]) by {
                assert(s[k] == f[i + k]);
            }
            assert(s[0] == f[i as int]);
            assert(s.skip(1) =~= f.skip(i + 1));
            vstd::arithmetic::div_mod::lemma_fundamental_div_mod(left * 10, den as int);
            vstd::arithmetic::div_mod::lemma_fundamental_div_mod(tens as int, unit as int);
            parts_are_less(next_part as int, next_left as int, den as int, unit as int);
            let r = part * den + left;
            let next = next_part * den + next_left;
            assert(r * 10 == e * full + next) by (nonlinear_arith)
                requires
                    r == part * den + left,
                    next == next_part * den + next_left,
                    full == den * unit,
                    left * 10 == den * carry + next_left,
                    tens == part * 10 + carry,
                    tens == unit * e + next_part,
            ;
            digit_decides(r, full, s, e as int, next);
        }
        if e < d as u128 {
            return Side::Below;
        }
        if e > d as u128 {
            return Side::Above;
        }
        part = next_part;
        left = next_left;
        i += 1;
    }
    proof {
        assert(f.skip(i as int) =~= Seq::<char>::empty());
        assert(decimal::pow10(0) == 1);
        assert(text::digits_value(f.skip(i as int)) == 0);
        let r = part * den + left;
        assert(r * 1 == r && 0 * full == 0) by (nonlinear_arith);
        assert(r >= 0 && (r == 0 <==> (part == 0 && left == 0))) by (nonlinear_arith)
            requires
                r == part * den + left,
                0 <= part,
                0 <= left < den,
        ;
    }
    if part > 0 || left > 0 {
        Side::Above
    } else {
        Side::Equal
    }
}

proof fn parts_are_less(a: int, b: int, den: int, unit: int)
    requires
        0 <= a < unit,
        0 <= b < den,
    ensures
        0 <= a * den + b < den * unit,
        0 < den * unit,
{
    assert(0 <= a * den + b < den * unit) by (nonlinear_arith)
        requires
            0 <= a,
            a + 1 <= unit,
            0 <= b < den,
    ;
}

/// Compares a quotient with a decimal number.
fn side_of_digits(num: u128, den: u128, whole: &Vec<char>, fraction: &Vec<char>) -> (r: Side)
    requires
        num < text::MOST_UNITS,
        0 < den < text::MOST_UNITS,
        forall|i: int| 0 <= i < whole@.len() ==> text::is_digit(#[trigger] whole@[i]),
        forall|i: int| 0 <= i < fraction@.len() ==> text::is_digit(#[trigger] fraction@[i]),
    ensures
        r == side_of_zero(
            num * decimal::pow10(fraction@.len()) - digits_together(whole@, fraction@) * den,
        ),
{
    let q: u128 = num / den;
    let left: u128 = num % den;
    proof {
        whole_is_less(num as int, den as int);
        assert(den * 1 == den && q * den == den * q && 0 * den == 0) by (nonlinear_arith);
    }
    side_of_parts(q, 0, left, den, 1, whole, fraction)
}

proof fn whole_is_less(num: int, den: int)
    requires
        0 <= num,
        0 < den,
    ensures
        num == den * (num / den) + num % den,
        0 <= num % den < den,
        0 <= num / den <= num,
{
    vstd::arithmetic::div_mod::lemma_fundamental_div_mod(num, den);
    let q = num / den;
    let left = num % den;
    assert(0 <= q <= num) by (nonlinear_arith)
        requires
            num == den * q + left,
            den >= 1,
            0 <= left < den,
            num >= 0,
    ;
}

/// Of `EQUAL_PARTS` parts of one, those in `left / den`, and what is left of a part, in parts
/// of `den`.
fn parts_of(left: u128, den: u128) -> (r: (u128, u128))
    requires
        left < den < text::MOST_UNITS,
    ensures
        left * EQUAL_PARTS == r.0 * den + r.1,
        r.0 < EQUAL_PARTS,
        r.1 < den,
{
    let mut unit: u128 = 1;
    let mut a: u128 = 0;
    let mut b: u128 = left;
    assert(left * 1 == 0 * den + left) by (nonlinear_arith);
    let mut i: u32 = 0;
    proof {
        vstd::arithmetic::power2::lemma2_to64();
        vstd::arithmetic::power2::lemma2_to64_rest();
    }
    while i < 52
        invariant
            i <= 52,
            unit == vstd::arithmetic::power2::pow2(i as nat),
            unit <= EQUAL_PARTS,
            vstd::arithmetic::power2::pow2(52) == EQUAL_PARTS,
            a < unit,
            b < den < text::MOST_UNITS,
            left * unit == a * den + b,
        decreases 52 - i,
    {
        let ghost (unit0, a0, b0) = (unit, a, b);
        proof {
            vstd::arithmetic::power2::lemma_pow2_unfold((i + 1) as nat);
            vstd::arithmetic::power2::lemma_pow2_strictly_increases(i as nat, 52);
        }
        unit = unit * 2;
        i += 1;
        proof {
            if i < 52 {
                vstd::arithmetic::power2::lemma_pow2_strictly_increases(i as nat, 52);
            }
        }
        if b * 2 >= den {
            a = a * 2 + 1;
            b = b * 2 - den;
            assert(left * unit == a * den + b) by (nonlinear_arith)
                requires
                    left * unit0 == a0 * den + b0,
                    unit == unit0 * 2,
                    a == a0 * 2 + 1,
                    b == b0 * 2 - den,
            ;
        } else {
            a = a * 2;
            b = b * 2;
            assert(left * unit == a * den + b) by (nonlinear_arith)
                requires
                    left * unit0 == a0 * den + b0,
                    unit == unit0 * 2,
                    a == a0 * 2,
                    b == b0 * 2,
            ;
        }
    }
    (a, b)
}

/// Whether a quotient counts as equal to a decimal number: it does where the number lies
/// between what is one part less and what is one part more.
fn is_near_digits(
    num: u128,
    den: u128,
    negative: bool,
    whole: &Vec<char>,
    fraction: &Vec<char>,
) -> (r: bool)
    requires
        num < text::MOST_UNITS - 1,
        0 < den < text::MOST_UNITS,
        forall|i: int| 0 <= i < whole@.len() ==> text::is_digit(#[trigger] whole@[i]),
        forall|i: int| 0 <= i < fraction@.len() ==> text::is_digit(#[trigger] fraction@[i]),
    ensures
        r == near(
            num as int,
            den as int,
            ThresholdView::Number { negative, whole: whole@, fraction: fraction@ },
        ),
{
    let q: u128 = num / den;
    let left: u128 = num % den;
    proof {
        whole_is_less(num as int, den as int);
    }
    let (a, b) = parts_of(left, den);
    let ghost p = decimal::pow10(fraction@.len()) as int;
    let ghost m = digits_together(whole@, fraction@);
    let ghost full = den * EQUAL_PARTS;
    let ghost parts = q * full + (a * den + b);
    proof {
        below_power(fraction@);
        near_by_parts(num as int, den as int, p, m);
        assert(parts == num * EQUAL_PARTS) by (nonlinear_arith)
            requires
                parts == q * full + (a * den + b),
                full == den * EQUAL_PARTS,
                num == den * q + left,
                left * EQUAL_PARTS == a * den + b,
        ;
        let w = text::digits_value(whole@) as int;
        let f = text::digits_value(fraction@) as int;
        assert(0 <= m) by (nonlinear_arith)
            requires
                m == w * p + f,
                0 <= w,
                0 <= f,
                0 < p,
        ;
    }
    if negative {
        if q > 0 || a > 0 {
            assert(parts >= den) by (nonlinear_arith)
                requires
                    parts == q * full + (a * den + b),
                    full == den * EQUAL_PARTS,
                    q > 0 || a > 0,
                    q >= 0,
                    a >= 0,
                    b >= 0,
                    den > 0,
            ;
            return false;
        }
        assert(0 * full == 0 && 0 * den == 0 && 1 * den == den) by (nonlinear_arith);
        if b == 0 {
            side_of_parts(0, 1, 0, den, EQUAL_PARTS, whole, fraction) == Side::Above
        } else {
            side_of_parts(0, 0, den - b, den, EQUAL_PARTS, whole, fraction) == Side::Above
        }
    } else {
        let more: Side = if a + 1 == EQUAL_PARTS {
            assert((q + 1) * full + (0 * den + b) == parts + den) by (nonlinear_arith)
                requires
                    parts == q * full + (a * den + b),
                    full == den * EQUAL_PARTS,
                    a + 1 == EQUAL_PARTS,
            ;
            side_of_parts(q + 1, 0, b, den, EQUAL_PARTS, whole, fraction)
        } else {
            assert(q * full + ((a + 1) * den + b) == parts + den) by (nonlinear_arith)
                requires
                    parts == q * full + (a * den + b),
            ;
            side_of_parts(q, a + 1, b, den, EQUAL_PARTS, whole, fraction)
        };
        if more != Side::Above {
            return false;
        }
        if q == 0 && a == 0 {
            assert(0 * full == 0 && 0 * den == 0) by (nonlinear_arith);
            return true;
        }
        let less: Side = if a == 0 {
            assert((q - 1) * full + ((EQUAL_PARTS - 1) * den + b) == parts - den)
                by (nonlinear_arith)
                requires
                    parts == q * full + (a * den + b),
                    full == den * EQUAL_PARTS,
                    a == 0,
            ;
            side_of_parts(q - 1, EQUAL_PARTS - 1, b, den, EQUAL_PARTS, whole, fraction)
        } else {
            assert(q * full + ((a - 1) * den + b) == parts - den) by (nonlinear_arith)
                requires
                    parts == q * full + (a * den + b),
            ;
            side_of_parts(q, a - 1, b, den, EQUAL_PARTS, whole, fraction)
        };
        less == Side::Below
    }
}

/// Whether a quotient counts as equal to a threshold.
pub fn is_near(num: u128, den: u128, t: &Threshold) -> (r: bool)
    requires
        num < text::MOST_UNITS - 1,
        0 < den < text::MOST_UNITS,
        t@.wf(),
    ensures
        r == near(num as int, den as int, t@),
{
    match t {
        Threshold::Undefined => false,
        Threshold::Infinite { .. } => false,
        Threshold::Number { negative, whole, fraction } => {
            assert(t@->whole == whole@ && t@->fraction == fraction@);
            is_near_digits(num, den, *negative, whole, fraction)
        },
    }
}

/// Where a decimal number lies against a quotient, one part more and one part less.
proof fn near_by_parts(num: int, den: int, p: int, m: int)
    requires
        num >= 0,
        den > 0,
        p > 0,
    ensures
        ({
            let parts = num * EQUAL_PARTS;
            let full = den * EQUAL_PARTS;
            &&& distance(num * p, m * den) * EQUAL_PARTS < den * p <==> (parts + den) * p - m
                * full > 0 && (parts - den) * p - m * full < 0
            &&& m >= 0 && parts < den ==> (parts - den) * p - m * full < 0
            &&& m >= 0 && parts >= den ==> !(distance(num * p, -m * den) * EQUAL_PARTS < den * p)
            &&& m >= 0 && parts < den ==> (distance(num * p, -m * den) * EQUAL_PARTS < den * p
                <==> (den - parts) * p - m * full > 0)
        }),
{
    let u = EQUAL_PARTS as int;
    let parts = num * u;
    let full = den * u;
    let x = num * p;
    let y = m * den;
    let dp = den * p;
    assert((parts + den) * p - m * full == (x - y) * u + dp && (parts - den) * p - m * full == (x
        - y) * u - dp && (den - parts) * p - m * full == dp - (x + y) * u && -m * den == -y)
        by (nonlinear_arith)
        requires
            parts == num * u,
            full == den * u,
            x == num * p,
            y == m * den,
            dp == den * p,
    ;
    assert(x >= 0) by (nonlinear_arith)
        requires
            x == num * p,
            num >= 0,
            p > 0,
    ;
    if m >= 0 {
        assert(y >= 0) by (nonlinear_arith)
            requires
                y == m * den,
                m >= 0,
                den > 0,
        ;
        assert(m * full >= 0) by (nonlinear_arith)
            requires
                full == den * u,
                m >= 0,
                den > 0,
                u > 0,
        ;
        assert(parts < den ==> (parts - den) * p < 0) by (nonlinear_arith)
            requires
                p > 0,
        ;
        assert(parts >= den ==> x * u >= dp) by (nonlinear_arith)
            requires
                p > 0,
                x == num * p,
                parts == num * u,
                dp == den * p,
        ;
        assert((x + y) * u >= x * u) by (nonlinear_arith)
            requires
                y >= 0,
                u > 0,
        ;
    }
}

fn only_zeros(d: &Vec<char>) -> (r: bool)
    requires
        forall|i: int| 0 <= i < d@.len() ==> text::is_digit(#[trigger] d@[i]),
    ensures
        r == (text::digits_value(d@) == 0),
{
    text::value_up_to(d, 1) == 0
}

/// On which side of a threshold a quotient lies.
pub fn compare(num: u128, den: u128, t: &Threshold) -> (r: Option<Side>)
    requires
        num < text::MOST_UNITS,
        0 < den < text::MOST_UNITS,
        t@.wf(),
    ensures
        r == side(num as int, den as int, t@),
{
    match t {
        Threshold::Undefined => None,
        Threshold::Infinite { negative } => Some(
            if *negative {
                Side::Above
            } else {
                Side::Below
            },
        ),
        Threshold::Number { negative, whole, fraction } => {
            if !*negative {
                return Some(side_of_digits(num, den, whole, fraction));
            }
            let nothing: bool = only_zeros(whole) && only_zeros(fraction);
            proof {
                below_power(fraction@);
                let p = decimal::pow10(fraction@.len()) as int;
                let w = text::digits_value(whole@) as int;
                let f = text::digits_value(fraction@) as int;
                let m = digits_together(whole@, fraction@);
                assert(0 <= m && (m == 0 <==> (w == 0 && f == 0))) by (nonlinear_arith)
                    requires
                        m == w * p + f,
                        0 <= w,
                        0 <= f,
                        0 < p,
                ;
                assert(num * p >= 0 && (num * p == 0 <==> num == 0)) by (nonlinear_arith)
                    requires
                        num >= 0,
                        p > 0,
                ;
                assert(m * den >= 0 && (m * den == 0 <==> m == 0) && (-m) * den == -(m * den))
                    by (nonlinear_arith)
                    requires
                        m >= 0,
                        den > 0,
                ;
            }
            Some(
                if nothing && num == 0 {
                    Side::Equal
                } else {
                    Side::Above
                },
            )
        },
    }
}

} // verus!
