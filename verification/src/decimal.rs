//! Quotients of natural numbers, and how they are written in decimal.
//!
//! Measured quantities are held in whole units (nanoseconds, millionths of a query
//! per second, parts per billion), so that means and ratios are exact quotients.
use vstd::prelude::*;
use vstd::string::*;
use crate::text;

verus! {

/// The greatest denominator that the operations below take.
pub const QUOTIENT_LIMIT: u128 = 100_000_000_000_000_000_000_000_000_000_000_000;

/// The quotient `num / den`.
#[derive(Clone, Copy, PartialEq, Eq, Structural, Debug)]
pub struct Ratio {
    pub num: u128,
    pub den: u128,
}

impl Ratio {
    /// The denominator is not zero.
    pub open spec fn wf(self) -> bool {
        self.den > 0
    }

    /// Zero.
    pub fn zero() -> (r: Ratio)
        ensures
            r == (Ratio { num: 0, den: 1 }),
    {
        Ratio { num: 0, den: 1 }
    }
}

/// Ten to the power of `d`.
pub open spec fn pow10(d: nat) -> nat
    decreases d,
{
    if d == 0 {
        1
    } else {
        10 * pow10((d - 1) as nat)
    }
}

/// The whole number nearest to `num / den`; of two equally near the even one.
pub open spec fn nearest_even(num: nat, den: nat) -> nat {
    let q = num / den;
    let r = num % den;
    if 2 * r < den || (2 * r == den && q % 2 == 0) {
        q
    } else {
        q + 1
    }
}

/// The last `width` decimal digits of `n`, with leading zeros.
pub open spec fn padded(n: nat, width: nat) -> Seq<char>
    decreases width,
{
    if width == 0 {
        Seq::empty()
    } else {
        padded(n / 10, (width - 1) as nat).push(text::digit_char((n % 10) as int))
    }
}

/// `n / 10^digits` written with exactly `digits` decimals.
pub open spec fn point_before(n: nat, digits: nat) -> Seq<char> {
    if digits == 0 {
        text::decimal(n)
    } else {
        text::decimal(n / pow10(digits)) + seq!['.'] + padded(n % pow10(digits), digits)
    }
}

/// `num / den` rounded to `digits` decimals and written with exactly that many.
pub open spec fn fixed(num: nat, den: nat, digits: nat) -> Seq<char> {
    point_before(nearest_even(num * pow10(digits), den), digits)
}

fn digit_of(d: u128) -> (c: char)
    requires
        d < 10,
    ensures
        c == text::digit_char(d as int),
{
    let s = text::decimal_of(d);
    let v = text::chars_of(s.as_str());
    assert(v@ =~= seq![text::digit_char(d as int)]);
    v[0]
}

/// The last `width` decimal digits of `n`.
pub fn padded_of(n: u128, width: u32) -> (r: String)
    ensures
        r@ == padded(n as nat, width as nat),
    decreases width,
{
    if width == 0 {
        String::new()
    } else {
        let mut r = padded_of(n / 10, width - 1);
        r.push(digit_of(n % 10));
        r
    }
}

fn power(digits: u32) -> (r: u128)
    requires
        digits <= 3,
    ensures
        r == pow10(digits as nat),
        r == 1 || r == 10 || r == 100 || r == 1000,
        r == 1 <==> digits == 0,
{
    proof {
        reveal_with_fuel(pow10, 4);
    }
    if digits == 0 {
        1
    } else if digits == 1 {
        10
    } else if digits == 2 {
        100
    } else {
        1000
    }
}

/// Dividing a multiple: the whole part and the rest can be scaled apart.
proof fn scaled_quotient(num: int, den: int, p: int)
    requires
        num >= 0,
        den > 0,
        p >= 1,
    ensures
        (num * p) / den == (num / den) * p + ((num % den) * p) / den,
        (num * p) % den == ((num % den) * p) % den,
        0 <= ((num % den) * p) / den < p,
{
    let q0 = num / den;
    let r0 = num % den;
    vstd::arithmetic::div_mod::lemma_fundamental_div_mod(num, den);
    let y = r0 * p;
    assert(y >= 0) by (nonlinear_arith)
        requires
            y == r0 * p,
            r0 >= 0,
            p >= 1,
    ;
    vstd::arithmetic::div_mod::lemma_fundamental_div_mod(y, den);
    let q1 = y / den;
    let r1 = y % den;
    assert(num * p == (q0 * p + q1) * den + r1) by (nonlinear_arith)
        requires
            num == den * q0 + r0,
            y == r0 * p,
            y == den * q1 + r1,
    ;
    vstd::arithmetic::div_mod::lemma_fundamental_div_mod_converse(
        num * p,
        den,
        q0 * p + q1,
        r1,
    );
    assert(q1 < p) by (nonlinear_arith)
        requires
            y == r0 * p,
            r0 < den,
            y == den * q1 + r1,
            r1 >= 0,
            den > 0,
            p >= 1,
    ;
    assert(q1 >= 0) by (nonlinear_arith)
        requires
            q1 == y / den,
            y >= 0,
            den > 0,
    ;
}

/// Taking a multiple of `p` off leaves the remainder, and lessens the quotient by it.
proof fn split_at_power(q: int, k: int, p: int)
    requires
        q >= 0,
        0 <= k,
        p >= 1,
    ensures
        (q * p + k) / p == q + k / p,
        (q * p + k) % p == k % p,
{
    vstd::arithmetic::div_mod::lemma_fundamental_div_mod(k, p);
    assert(q * p + k == (q + k / p) * p + k % p) by (nonlinear_arith)
        requires
            k == p * (k / p) + k % p,
    ;
    vstd::arithmetic::div_mod::lemma_fundamental_div_mod_converse(
        q * p + k,
        p,
        q + k / p,
        k % p,
    );
}

/// `num / den` rounded to at most three decimals.
pub fn fixed_of(num: u128, den: u128, digits: u32) -> (r: String)
    requires
        0 < den <= QUOTIENT_LIMIT,
        digits <= 3,
    ensures
        r@ == fixed(num as nat, den as nat, digits as nat),
{
    let p: u128 = power(digits);
    let whole: u128 = num / den;
    let rest: u128 = num % den;
    assert(0 <= rest * p <= QUOTIENT_LIMIT * 1000) by (nonlinear_arith)
        requires
            0 <= rest < den <= QUOTIENT_LIMIT,
            1 <= p <= 1000,
    ;
    let scaled: u128 = rest * p;
    let q: u128 = scaled / den;
    let rem: u128 = scaled % den;
    proof {
        scaled_quotient(num as int, den as int, p as int);
        assert(p > 1 ==> p % 2 == 0);
        assert(p > 1 ==> (whole * p + q) % 2 == q % 2) by (nonlinear_arith)
            requires
                p == 1 || p == 10 || p == 100 || p == 1000,
        ;
        assert(p == 1 ==> q == 0);
    }
    let even: bool = if digits == 0 {
        whole % 2 == 0
    } else {
        q % 2 == 0
    };
    let k: u128 = if 2 * rem < den || (2 * rem == den && even) {
        q
    } else {
        q + 1
    };
    proof {
        assert(whole * p + k == nearest_even(num as nat * pow10(digits as nat), den as nat));
        split_at_power(whole as int, k as int, p as int);
        assert(den >= 2 ==> whole <= u128::MAX / 2) by (nonlinear_arith)
            requires
                whole == num / den,
                num <= u128::MAX,
        ;
        assert(den == 1 ==> rest == 0);
        assert(den == 1 ==> scaled == 0) by (nonlinear_arith)
            requires
                den == 1 ==> rest == 0,
                scaled == rest * p,
        ;
        assert(k / p <= 1) by (nonlinear_arith)
            requires
                k <= p,
                p >= 1,
        ;
        assert(k / p >= 0) by (nonlinear_arith)
            requires
                k >= 0,
                p >= 1,
        ;
        assert(k == 0 ==> k / p == 0) by (nonlinear_arith)
            requires
                p >= 1,
        ;
    }
    let ahead: u128 = whole + k / p;
    if digits == 0 {
        assert(k / 1 == k);
        assert(whole * 1 == whole);
        text::decimal_of(ahead)
    } else {
        let mut out = text::decimal_of(ahead);
        out.push('.');
        let tail = padded_of(k % p, digits);
        proof {
            assert(out@ =~= text::decimal(ahead as nat) + seq!['.']);
        }
        out.append(tail.as_str());
        out
    }
}

/// A fixed-point number without trailing zeros, and without the point where no decimal
/// is left: `n / 10^digits` as it is written at its shortest.
pub open spec fn shortest(n: nat, digits: nat) -> Seq<char>
    decreases digits,
{
    if digits == 0 {
        text::decimal(n)
    } else if n % 10 == 0 {
        shortest(n / 10, (digits - 1) as nat)
    } else {
        point_before(n, digits)
    }
}

/// The same with a sign.
pub open spec fn signed_shortest(n: int, digits: nat) -> Seq<char> {
    if n < 0 {
        seq!['-'] + shortest((-n) as nat, digits)
    } else {
        shortest(n as nat, digits)
    }
}

/// The same number with a sign and three decimals, for parts per billion.
pub open spec fn signed_fixed(n: int, den: nat, digits: nat) -> Seq<char> {
    if n < 0 {
        seq!['-'] + fixed((-n) as nat, den, digits)
    } else {
        fixed(n as nat, den, digits)
    }
}

fn power_upto(digits: u32) -> (r: u128)
    requires
        digits <= 9,
    ensures
        r == pow10(digits as nat),
        r >= 1,
        r <= 1_000_000_000,
    decreases digits,
{
    if digits == 0 {
        1
    } else {
        let r = power_upto(digits - 1);
        proof {
            pow10_mono((digits - 1) as nat, 8);
            reveal_with_fuel(pow10, 9);
        }
        10 * r
    }
}

proof fn pow10_mono(a: nat, b: nat)
    requires
        a <= b,
    ensures
        1 <= pow10(a) <= pow10(b),
    decreases b,
{
    if a < b {
        pow10_mono(a, (b - 1) as nat);
    } else if a > 0 {
        pow10_mono((a - 1) as nat, (a - 1) as nat);
    }
}

/// `n / 10^digits` as it is written at its shortest.
pub fn shortest_of(n: u128, digits: u32) -> (r: String)
    requires
        digits <= 9,
    ensures
        r@ == shortest(n as nat, digits as nat),
    decreases digits,
{
    if digits == 0 {
        text::decimal_of(n)
    } else if n % 10 == 0 {
        shortest_of(n / 10, digits - 1)
    } else {
        let p: u128 = power_upto(digits);
        let mut out = text::decimal_of(n / p);
        out.push('.');
        let tail = padded_of(n % p, digits);
        proof {
            assert(out@ =~= text::decimal((n / p) as nat) + seq!['.']);
        }
        out.append(tail.as_str());
        out
    }
}

/// `n / 10^digits`, with its sign, as it is written at its shortest.
pub fn signed_shortest_of(n: i64, digits: u32) -> (r: String)
    requires
        digits <= 9,
    ensures
        r@ == signed_shortest(n as int, digits as nat),
{
    if n < 0 {
        let m: i128 = -(n as i128);
        let d = shortest_of(m as u128, digits);
        let mut r = String::new();
        r.push('-');
        assert(r@ =~= seq!['-']);
        r.append(d.as_str());
        r
    } else {
        shortest_of(n as u128, digits)
    }
}

/// `n / den`, with its sign, rounded to at most three decimals.
pub fn signed_fixed_of(n: i128, den: u128, digits: u32) -> (r: String)
    requires
        0 < den <= QUOTIENT_LIMIT,
        n > i128::MIN,
        digits <= 3,
    ensures
        r@ == signed_fixed(n as int, den as nat, digits as nat),
{
    if n < 0 {
        let m: i128 = -n;
        let d = fixed_of(m as u128, den, digits);
        let mut r = String::new();
        r.push('-');
        assert(r@ =~= seq!['-']);
        r.append(d.as_str());
        r
    } else {
        fixed_of(n as u128, den, digits)
    }
}

proof fn less_by_parts(a: int, b: int, c: int, d: int, p: int, q: int, x: int, y: int)
    requires
        a == b * p + x,
        c == d * q + y,
        0 <= x < b,
        0 <= y < d,
    ensures
        p < q ==> a * d < c * b,
        p > q ==> !(a * d < c * b),
        p == q ==> (a * d < c * b <==> x * d < y * b),
{
    let bd = b * d;
    assert(a * d == p * bd + x * d && c * b == q * bd + y * b) by (nonlinear_arith)
        requires
            a == b * p + x,
            c == d * q + y,
            bd == b * d,
    ;
    assert(0 <= x * d < bd && 0 <= y * b < bd) by (nonlinear_arith)
        requires
            0 <= x < b,
            0 <= y < d,
            bd == b * d,
    ;
    if p < q {
        assert(p * bd + bd <= q * bd) by (nonlinear_arith)
            requires
                p + 1 <= q,
                bd > 0,
        ;
    } else if p > q {
        assert(q * bd + bd <= p * bd) by (nonlinear_arith)
            requires
                q + 1 <= p,
                bd > 0,
        ;
    }
}

/// Whether one quotient is less than another. Where the whole parts are equal, what is left
/// of them is turned over and compared.
pub fn less(a: u128, b: u128, c: u128, d: u128) -> (r: bool)
    requires
        b > 0,
        d > 0,
    ensures
        r == (a * d < c * b),
    decreases b + d,
{
    let p: u128 = a / b;
    let q: u128 = c / d;
    let x: u128 = a % b;
    let y: u128 = c % d;
    proof {
        vstd::arithmetic::div_mod::lemma_fundamental_div_mod(a as int, b as int);
        vstd::arithmetic::div_mod::lemma_fundamental_div_mod(c as int, d as int);
        less_by_parts(
            a as int,
            b as int,
            c as int,
            d as int,
            p as int,
            q as int,
            x as int,
            y as int,
        );
    }
    if p != q {
        p < q
    } else if y == 0 {
        assert(y * b == 0 && x * d >= 0) by (nonlinear_arith)
            requires
                y == 0,
                x >= 0,
                d > 0,
        ;
        false
    } else if x == 0 {
        assert(x * d == 0 && y * b > 0) by (nonlinear_arith)
            requires
                x == 0,
                y > 0,
                b > 0,
        ;
        true
    } else {
        assert(d * x == x * d && b * y == y * b) by (nonlinear_arith);
        less(d, y, b, x)
    }
}

/// Decimals without trailing zeros, of which at least one stays.
pub open spec fn decimals(n: nat, places: nat) -> Seq<char>
    decreases places,
{
    if places <= 1 || n % 10 != 0 {
        padded(n, places)
    } else {
        decimals(n / 10, (places - 1) as nat)
    }
}

/// `num / den` as a decimal number, cut to so many decimals.
pub open spec fn written(num: nat, den: nat, places: nat) -> Seq<char> {
    text::decimal(num / den) + seq!['.'] + decimals(num % den * pow10(places) / den, places)
}

/// Nanoseconds in milliseconds.
pub open spec fn millis(ns: nat) -> Seq<char> {
    if 0 < ns < 10 {
        text::decimal(ns) + "e-6"@
    } else {
        written(ns, 1_000_000, 6)
    }
}

fn decimals_of(n: u128, places: u32) -> (r: String)
    ensures
        r@ == decimals(n as nat, places as nat),
    decreases places,
{
    if places <= 1 || n % 10 != 0 {
        padded_of(n, places)
    } else {
        decimals_of(n / 10, places - 1)
    }
}

/// The next digit of a long division, and what is left.
fn next_digit(left: u128, den: u128) -> (r: (u128, u128))
    requires
        left < den,
    ensures
        left * 10 == r.0 * den + r.1,
        r.0 < 10,
        r.1 < den,
{
    let mut digit: u128 = 0;
    let mut rest: u128 = 0;
    let mut i: u32 = 0;
    while i < 10
        invariant
            i <= 10,
            left < den,
            rest < den,
            digit <= i,
            left * i == digit * den + rest,
        decreases 10 - i,
    {
        let ghost before = digit;
        let ghost had = rest;
        if rest >= den - left {
            rest = rest - (den - left);
            digit = digit + 1;
            assert(left * (i + 1) == digit * den + rest) by (nonlinear_arith)
                requires
                    left * i == before * den + had,
                    digit == before + 1,
                    rest == had - (den - left),
            ;
        } else {
            rest = rest + left;
            assert(left * (i + 1) == digit * den + rest) by (nonlinear_arith)
                requires
                    left * i == before * den + had,
                    digit == before,
                    rest == had + left,
            ;
        }
        i += 1;
    }
    assert(digit < 10) by (nonlinear_arith)
        requires
            left * 10 == digit * den + rest,
            left < den,
            rest >= 0,
    ;
    (digit, rest)
}

/// `num / den` as a decimal number, cut to so many decimals.
pub fn written_of(num: u128, den: u128, places: u32) -> (r: String)
    requires
        den > 0,
        places <= 18,
    ensures
        r@ == written(num as nat, den as nat, places as nat),
{
    let first: u128 = num % den;
    let mut left: u128 = first;
    let mut digits: u128 = 0;
    let mut i: u32 = 0;
    proof {
        assert(first * 1 == 0 * den + first) by (nonlinear_arith);
        pow10_18();
    }
    while i < places
        invariant
            i <= places <= 18,
            left < den,
            first * pow10(i as nat) == digits * den + left,
            digits < pow10(i as nat),
            pow10(18) == 1_000_000_000_000_000_000,
        decreases places - i,
    {
        let ghost had = left;
        let ghost before = digits;
        let ghost p = pow10(i as nat) as int;
        let (digit, rest) = next_digit(left, den);
        proof {
            pow10_mono(i as nat, 18);
            assert(pow10((i + 1) as nat) == 10 * p);
        }
        digits = digits * 10 + digit;
        left = rest;
        assert(first * (10 * p) == digits * den + left) by (nonlinear_arith)
            requires
                first * p == before * den + had,
                had * 10 == digit * den + rest,
                digits == before * 10 + digit,
                left == rest,
        ;
        i += 1;
    }
    proof {
        vstd::arithmetic::div_mod::lemma_fundamental_div_mod_converse(
            first * pow10(places as nat),
            den as int,
            digits as int,
            left as int,
        );
    }
    let mut out = text::decimal_of(num / den);
    out.push('.');
    assert(out@ =~= text::decimal((num / den) as nat) + seq!['.']);
    out.append(decimals_of(digits, places).as_str());
    out
}

proof fn pow10_18()
    ensures
        pow10(18) == 1_000_000_000_000_000_000,
{
    reveal_with_fuel(pow10, 19);
}

/// Nanoseconds in milliseconds.
pub fn millis_of(ns: u64) -> (r: String)
    ensures
        r@ == millis(ns as nat),
{
    if 0 < ns && ns < 10 {
        text::join2(text::decimal_u64(ns).as_str(), "e-6")
    } else {
        written_of(ns as u128, 1_000_000, 6)
    }
}

} // verus!
