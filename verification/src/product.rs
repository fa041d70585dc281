//! Exact products of decimal numbers of any length.
use vstd::prelude::*;
use vstd::string::*;
use crate::decimal;
use crate::text;

verus! {

/// A decimal number: its digits without their point, and how many of them stand before the
/// point; a negative count means that as many zeros come first.
pub struct Figure {
    pub negative: bool,
    pub digits: Vec<char>,
    pub point: i128,
}

pub struct FigureView {
    pub negative: bool,
    pub digits: Seq<char>,
    pub point: int,
}

impl View for Figure {
    type V = FigureView;

    open spec fn view(&self) -> FigureView {
        FigureView { negative: self.negative, digits: self.digits@, point: self.point as int }
    }
}

impl FigureView {
    /// All that stands for digits are digits.
    pub open spec fn wf(self) -> bool {
        &&& forall|i: int| 0 <= i < self.digits.len() ==> text::is_digit(#[trigger] self.digits[i])
        &&& -1_000_000 <= self.point <= self.digits.len() + 1_000_000
    }

    /// The number, times ten for each digit that stands behind the point.
    pub open spec fn size(self) -> int {
        text::digits_value(self.digits) as int
    }

    /// How many times the size is to be multiplied by ten for the number.
    pub open spec fn exponent(self) -> int {
        self.point - self.digits.len()
    }
}

/// The number that a text stands for.
pub open spec fn figure(s: Seq<char>) -> Option<FigureView> {
    let start: int = if s.len() > 0 && (s[0] == '+' || s[0] == '-') {
        1
    } else {
        0
    };
    if text::number_from(s, start) {
        Some(
            FigureView {
                negative: s[0] == '-',
                digits: text::digits_from(s, start),
                point: text::point_from(s, start),
            },
        )
    } else {
        None
    }
}

/// A whole number.
pub open spec fn whole(n: int) -> FigureView {
    let digits = text::decimal(
        if n < 0 {
            -n as nat
        } else {
            n as nat
        },
    );
    FigureView { negative: n < 0, digits, point: digits.len() as int }
}

/// The figure there may be.
pub open spec fn opt_figure(f: Option<Figure>) -> Option<FigureView> {
    match f {
        Some(x) => Some(x@),
        None => None,
    }
}

/// What a number is multiplied by.
pub enum Factor {
    Number(Figure),
    /// Beyond all numbers.
    Infinite { negative: bool },
    /// No number.
    Undefined,
}

pub enum FactorView {
    Number(FigureView),
    Infinite { negative: bool },
    Undefined,
}

impl View for Factor {
    type V = FactorView;

    open spec fn view(&self) -> FactorView {
        match self {
            Factor::Number(f) => FactorView::Number(f@),
            Factor::Infinite { negative } => FactorView::Infinite { negative: *negative },
            Factor::Undefined => FactorView::Undefined,
        }
    }
}

impl FactorView {
    /// A number is well formed.
    pub open spec fn wf(self) -> bool {
        self matches FactorView::Number(f) ==> f.wf()
    }
}

/// What a text stands for: a number, or one of the words `inf`, `infinity` and `nan`, whatever
/// their case; all with or without a sign.
pub open spec fn factor(s: Seq<char>) -> Option<FactorView> {
    let start: int = if s.len() > 0 && (s[0] == '+' || s[0] == '-') {
        1
    } else {
        0
    };
    let word = text::ascii_lower(s.skip(start));
    if word == "inf"@ || word == "infinity"@ {
        Some(FactorView::Infinite { negative: s[0] == '-' })
    } else if word == "nan"@ {
        Some(FactorView::Undefined)
    } else {
        match figure(s) {
            Some(f) => Some(FactorView::Number(f)),
            None => None,
        }
    }
}

/// The factor there may be.
pub open spec fn opt_factor(f: Option<Factor>) -> Option<FactorView> {
    match f {
        Some(x) => Some(x@),
        None => None,
    }
}

/// A number times ten as often as the exponent says, without its fraction.
pub open spec fn shifted(n: int, exponent: int) -> int {
    if exponent >= 0 {
        n * decimal::pow10(exponent as nat)
    } else {
        n / (decimal::pow10((-exponent) as nat) as int)
    }
}

/// The product of two numbers without its fraction, or the nearest number of 64 bits with a
/// sign.
pub open spec fn product(a: FigureView, b: FigureView) -> int {
    let size = shifted(a.size() * b.size(), a.exponent() + b.exponent());
    if a.negative == b.negative {
        if size > i64::MAX {
            i64::MAX as int
        } else {
            size
        }
    } else {
        if size > -i64::MIN {
            i64::MIN as int
        } else {
            -size
        }
    }
}

/// A number times a factor, without its fraction: what is beyond all numbers makes the greatest
/// or the least number of 64 bits of it, and nothing of nothing; what is no number makes
/// nothing.
pub open spec fn multiple(a: FigureView, by: FactorView) -> int {
    match by {
        FactorView::Number(b) => product(a, b),
        FactorView::Infinite { negative } => if a.size() == 0 {
            0
        } else if a.negative == negative {
            i64::MAX as int
        } else {
            i64::MIN as int
        },
        FactorView::Undefined => 0,
    }
}

/// Reads a decimal number.
pub fn parse_figure(s: &str) -> (r: Option<Figure>)
    ensures
        opt_figure(r) == figure(s@),
        r matches Some(f) ==> f@.wf(),
{
    let h = text::chars_of(s);
    let start: usize = if h.len() > 0 && (h[0] == '+' || h[0] == '-') {
        1
    } else {
        0
    };
    match text::digits_of(&h, start) {
        None => None,
        Some((digits, point)) => Some(
            Figure { negative: h.len() > 0 && h[0] == '-', digits, point },
        ),
    }
}

/// Reads a factor.
pub fn parse_factor(s: &str) -> (r: Option<Factor>)
    ensures
        opt_factor(r) == factor(s@),
        r matches Some(f) ==> f@.wf(),
{
    let h = text::chars_of(s);
    let start: usize = if h.len() > 0 && (h[0] == '+' || h[0] == '-') {
        1
    } else {
        0
    };
    let rest = text::string_of(&h, start, h.len());
    assert(rest@ =~= s@.skip(start as int));
    let word = text::to_ascii_lower(rest.as_str());
    proof {
        reveal_strlit("inf");
        reveal_strlit("infinity");
        assert(text::ascii_lower(rest@).len() == rest@.len());
    }
    if text::same(word.as_str(), "inf") || text::same(word.as_str(), "infinity") {
        return Some(Factor::Infinite { negative: h[0] == '-' });
    }
    if text::same(word.as_str(), "nan") {
        return Some(Factor::Undefined);
    }
    match parse_figure(s) {
        Some(f) => Some(Factor::Number(f)),
        None => None,
    }
}

proof fn decimal_has_digits(n: nat)
    ensures
        forall|i: int|
            0 <= i < text::decimal(n).len() ==> text::is_digit(#[trigger] text::decimal(n)[i]),
        text::digits_value(text::decimal(n)) == n,
    decreases n,
{
    let last = text::digit_char((n % 10) as int);
    assert(text::is_digit(last) && last as u32 - '0' as u32 == n % 10);
    if n >= 10 {
        decimal_has_digits(n / 10);
        let front = text::decimal(n / 10);
        assert(text::decimal(n) == front.push(last));
        assert(front.push(last).drop_last() =~= front);
    } else {
        assert(text::decimal(n) =~= seq![last]);
        assert(seq![last].drop_last() =~= Seq::<char>::empty());
        assert(text::digits_value(Seq::<char>::empty()) == 0);
    }
}

/// A whole number as a figure.
pub fn whole_of(n: i128) -> (r: Figure)
    requires
        n > i128::MIN,
    ensures
        r@ == whole(n as int),
        r@.wf(),
        r@.size() == (if n < 0 {
            -n
        } else {
            n as int
        }),
        r@.exponent() == 0,
{
    let size: u128 = if n < 0 {
        (-n) as u128
    } else {
        n as u128
    };
    proof {
        decimal_has_digits(size as nat);
    }
    let digits = text::chars_of(text::decimal_of(size).as_str());
    let point: i128 = digits.len() as i128;
    Figure { negative: n < 0, digits, point }
}

// ---------------------------------------------------------------------------
// Numbers of many digits, the last one first
// ---------------------------------------------------------------------------

/// The number that the digits from the `i`-th on stand for.
spec fn tail(v: Seq<u8>, i: int) -> nat
    decreases v.len() - i,
{
    if i < 0 || i >= v.len() {
        0
    } else {
        v[i] as nat + 10 * tail(v, i + 1)
    }
}

spec fn all_below_ten(v: Seq<u8>) -> bool {
    forall|i: int| 0 <= i < v.len() ==> #[trigger] v[i] < 10
}

proof fn tail_push(v: Seq<u8>, d: u8, i: int)
    requires
        0 <= i <= v.len(),
    ensures
        tail(v.push(d), i) == tail(v, i) + d * decimal::pow10((v.len() - i) as nat),
    decreases v.len() - i,
{
    let w = v.push(d);
    if i < v.len() {
        tail_push(v, d, i + 1);
        let p = decimal::pow10((v.len() - i - 1) as nat) as int;
        assert(decimal::pow10((v.len() - i) as nat) == 10 * p);
        assert(w[i] == v[i]);
        assert(10 * (tail(v, i + 1) + d * p) == 10 * tail(v, i + 1) + d * (10 * p))
            by (nonlinear_arith);
    } else {
        assert(w[i] == d);
        assert(tail(w, i + 1) == 0);
        assert(decimal::pow10(0) == 1);
        assert(d * 1 == d) by (nonlinear_arith);
    }
}

/// The digits from the `k`-th on are the number divided by ten `k` times.
proof fn tail_is_quotient(v: Seq<u8>, k: int)
    requires
        all_below_ten(v),
        0 <= k,
    ensures
        tail(v, k) == tail(v, 0) / decimal::pow10(k as nat),
    decreases k,
{
    let all = tail(v, 0) as int;
    if k == 0 {
        assert(decimal::pow10(0) == 1);
        assert(all / 1 == all);
    } else {
        tail_is_quotient(v, k - 1);
        let p = decimal::pow10((k - 1) as nat) as int;
        assert(decimal::pow10(k as nat) == 10 * p);
        assert(p > 0) by {
            power_is_positive((k - 1) as nat);
        }
        vstd::arithmetic::div_mod::lemma_div_denominator(all, p, 10);
        assert(p * 10 == 10 * p) by (nonlinear_arith);
        assert(all / (10 * p) == (all / p) / 10);
        assert(tail(v, k - 1) == all / p);
        if k - 1 < v.len() {
            assert(v[k - 1] < 10);
        } else {
            assert(tail(v, k - 1) == 0 && tail(v, k) == 0);
        }
        assert(tail(v, k) == tail(v, k - 1) / 10);
    }
}

proof fn power_is_positive(n: nat)
    ensures
        decimal::pow10(n) > 0,
    decreases n,
{
    if n > 0 {
        power_is_positive((n - 1) as nat);
    }
}

/// The digits with the last one first.
fn reversed(d: &Vec<char>) -> (r: Vec<u8>)
    requires
        forall|i: int| 0 <= i < d@.len() ==> text::is_digit(#[trigger] d@[i]),
    ensures
        all_below_ten(r@),
        r@.len() == d@.len(),
        tail(r@, 0) == text::digits_value(d@),
{
    let len: usize = d.len();
    let mut out: Vec<u8> = Vec::new();
    let mut i: usize = len;
    while i > 0
        invariant
            i <= len == d@.len(),
            out@.len() == len - i,
            all_below_ten(out@),
            forall|k: int| 0 <= k < d@.len() ==> text::is_digit(#[trigger] d@[k]),
            forall|k: int|
                0 <= k < out@.len() ==> #[trigger] out@[k] == d@[len - 1 - k] as u32 - '0' as u32,
        decreases i,
    {
        i -= 1;
        assert(text::is_digit(d@[i as int]));
        let c: u32 = d[i] as u32 - 48;
        out.push(c as u8);
    }
    proof {
        assert(d@.take(len as int) =~= d@);
        reversed_value(d@, out@, 0);
    }
    out
}

proof fn reversed_value(d: Seq<char>, v: Seq<u8>, i: int)
    requires
        d.len() == v.len(),
        0 <= i <= d.len(),
        forall|k: int| 0 <= k < d.len() ==> text::is_digit(#[trigger] d[k]),
        forall|k: int|
            0 <= k < v.len() ==> #[trigger] v[k] == d[d.len() - 1 - k] as u32 - '0' as u32,
    ensures
        tail(v, i) == text::digits_value(d.take(d.len() - i)),
    decreases d.len() - i,
{
    let front = d.take(d.len() - i);
    if i < d.len() {
        reversed_value(d, v, i + 1);
        assert(front.drop_last() =~= d.take(d.len() - i - 1));
        assert(front.last() == d[d.len() - 1 - i]);
        assert(v[i] == d[d.len() - 1 - i] as u32 - '0' as u32);
    } else {
        assert(front =~= Seq::<char>::empty());
    }
}

fn digit_at(v: &Vec<u8>, i: usize) -> (r: u8)
    requires
        all_below_ten(v@),
    ensures
        r < 10,
        tail(v@, i as int) == r + 10 * tail(v@, i + 1),
{
    if i < v.len() {
        v[i]
    } else {
        0
    }
}

/// Ten times a number, and a digit times another.
fn next_row(sum: &Vec<u8>, a: &Vec<u8>, d: u8) -> (r: Vec<u8>)
    requires
        all_below_ten(sum@),
        all_below_ten(a@),
        d < 10,
    ensures
        all_below_ten(r@),
        tail(r@, 0) == 10 * tail(sum@, 0) + d * tail(a@, 0),
{
    let mut ten: Vec<u8> = Vec::new();
    ten.push(0);
    let mut i: usize = 0;
    while i < sum.len()
        invariant
            i <= sum@.len(),
            ten@ == seq![0u8] + sum@.take(i as int),
        decreases sum@.len() - i,
    {
        ten.push(sum[i]);
        i += 1;
        assert(ten@ =~= seq![0u8] + sum@.take(i as int));
    }
    let ghost total = 10 * tail(sum@, 0) + d * tail(a@, 0);
    proof {
        assert(ten@ =~= seq![0u8] + sum@);
        assert(all_below_ten(ten@)) by {
            assert forall|k: int| 0 <= k < ten@.len() implies #[trigger] ten@[k] < 10 by {
                if k > 0 {
                    assert(ten@[k] == sum@[k - 1]);
                }
            }
        }
        moved(sum@, ten@, 0);
        assert(tail(ten@, 0) == ten@[0] + 10 * tail(ten@, 1));
        assert(decimal::pow10(0) == 1);
        let rest = tail(ten@, 0) + d * tail(a@, 0);
        assert(1 * rest == rest) by (nonlinear_arith);
    }
    let mut out: Vec<u8> = Vec::new();
    let mut carry: u8 = 0;
    let mut j: usize = 0;
    while j < ten.len() || j < a.len()
        invariant
            all_below_ten(ten@),
            all_below_ten(a@),
            all_below_ten(out@),
            d < 10,
            carry < 10,
            out@.len() == j,
            j <= ten@.len() || j <= a@.len(),
            total == tail(out@, 0) + decimal::pow10(j as nat) * (carry + tail(ten@, j as int) + d
                * tail(a@, j as int)),
        decreases ten@.len() + a@.len() - j,
    {
        let x: u8 = digit_at(&ten, j);
        let y: u8 = digit_at(a, j);
        assert(0 <= d * y <= 81) by (nonlinear_arith)
            requires
                0 <= d <= 9,
                0 <= y <= 9,
        ;
        let here: u8 = x + d * y + carry;
        let digit: u8 = here % 10;
        let next: u8 = here / 10;
        proof {
            let p = decimal::pow10(j as nat) as int;
            let ten_rest = tail(ten@, j + 1) as int;
            let a_rest = tail(a@, j + 1) as int;
            tail_push(out@, digit, 0);
            assert(decimal::pow10((j + 1) as nat) == 10 * p);
            assert(p * (carry + (x + 10 * ten_rest) + d * (y + 10 * a_rest)) == digit * p + (10 * p)
                * (next + ten_rest + d * a_rest)) by (nonlinear_arith)
                requires
                    x + d * y + carry == 10 * next + digit,
            ;
        }
        out.push(digit);
        carry = next;
        j += 1;
    }
    proof {
        tail_push(out@, carry, 0);
        let p = decimal::pow10(j as nat) as int;
        assert(tail(ten@, j as int) == 0 && tail(a@, j as int) == 0);
        assert(d * 0 == 0 && p * (carry + 0 + 0) == carry * p) by (nonlinear_arith);
    }
    out.push(carry);
    out
}

proof fn moved(v: Seq<u8>, w: Seq<u8>, i: int)
    requires
        w == seq![0u8] + v,
        0 <= i <= v.len(),
    ensures
        tail(w, i + 1) == tail(v, i),
    decreases v.len() - i,
{
    if i < v.len() {
        moved(v, w, i + 1);
        assert(w[i + 1] == v[i]);
    }
}

/// The product of two numbers, the last digit first.
fn multiplied(a: &Vec<char>, b: &Vec<char>) -> (r: Vec<u8>)
    requires
        forall|i: int| 0 <= i < a@.len() ==> text::is_digit(#[trigger] a@[i]),
        forall|i: int| 0 <= i < b@.len() ==> text::is_digit(#[trigger] b@[i]),
    ensures
        all_below_ten(r@),
        tail(r@, 0) == text::digits_value(a@) * text::digits_value(b@),
{
    let x = reversed(a);
    let ghost n = text::digits_value(a@);
    let mut out: Vec<u8> = Vec::new();
    let mut i: usize = 0;
    assert(b@.take(0) =~= Seq::<char>::empty());
    assert(n * 0 == 0) by (nonlinear_arith);
    while i < b.len()
        invariant
            i <= b@.len(),
            forall|k: int| 0 <= k < b@.len() ==> text::is_digit(#[trigger] b@[k]),
            all_below_ten(x@),
            all_below_ten(out@),
            tail(x@, 0) == n,
            tail(out@, 0) == n * text::digits_value(b@.take(i as int)),
        decreases b@.len() - i,
    {
        assert(text::is_digit(b@[i as int]));
        let c: u32 = b[i] as u32 - 48;
        let d: u8 = c as u8;
        proof {
            let so_far = text::digits_value(b@.take(i as int)) as int;
            assert(b@.take(i + 1).drop_last() =~= b@.take(i as int));
            assert(b@.take(i + 1).last() == b@[i as int]);
            assert(10 * (n * so_far) + d * n == n * (so_far * 10 + d)) by (nonlinear_arith);
        }
        out = next_row(&out, &x, d);
        i += 1;
    }
    assert(b@.take(i as int) =~= b@);
    out
}

/// A number, and `most` where it is greater.
spec fn up_to(n: int, most: int) -> int {
    if n > most {
        most
    } else {
        n
    }
}

/// What is beyond every number of 64 bits with a sign.
const BEYOND: u128 = 0x1_0000_0000_0000_0000;

/// The number that the digits from the `k`-th on stand for, up to what is beyond.
fn tail_up_to(v: &Vec<u8>, k: usize) -> (r: u128)
    requires
        all_below_ten(v@),
    ensures
        r == up_to(tail(v@, k as int) as int, BEYOND as int),
{
    let mut n: u128 = 0;
    let mut i: usize = v.len();
    while i > k
        invariant
            i <= v@.len(),
            k <= i || i == v@.len(),
            all_below_ten(v@),
            n == up_to(tail(v@, i as int) as int, BEYOND as int),
        decreases i,
    {
        i -= 1;
        assert(v@[i as int] < 10);
        n = n * 10 + v[i] as u128;
        if n > BEYOND {
            n = BEYOND;
        }
    }
    n
}

/// A number up to what is beyond, times ten as often as the exponent says.
fn raised(n: u128, exponent: i128) -> (r: u128)
    requires
        n <= BEYOND,
        0 <= exponent,
    ensures
        forall|m: int|
            up_to(m, BEYOND as int) == n && m >= 0 ==> r == up_to(
                #[trigger] (m * decimal::pow10(exponent as nat)),
                BEYOND as int,
            ),
{
    let mut out: u128 = n;
    let mut left: i128 = exponent;
    let ghost b = BEYOND as int;
    proof {
        assert forall|m: int| up_to(m, b) == n && m >= 0 implies up_to(
            out * decimal::pow10(left as nat),
            b,
        ) == up_to(#[trigger] (m * decimal::pow10(exponent as nat)), b) by {
            power_is_positive(exponent as nat);
            let p = decimal::pow10(exponent as nat) as int;
            if m > b {
                assert(m * p >= m && b * p >= b) by (nonlinear_arith)
                    requires
                        p >= 1,
                        m > b,
                        b > 0,
                ;
            }
        }
    }
    while left > 0 && 0 < out && out < BEYOND
        invariant
            0 <= left <= exponent,
            out <= BEYOND,
            b == BEYOND,
            forall|m: int|
                up_to(m, b) == n && m >= 0 ==> up_to(out * decimal::pow10(left as nat), b) == up_to(
                    #[trigger] (m * decimal::pow10(exponent as nat)),
                    b,
                ),
        decreases left,
    {
        let ghost before = out as int;
        let ghost p = decimal::pow10((left - 1) as nat) as int;
        out = out * 10;
        left -= 1;
        proof {
            power_is_positive(left as nat);
            assert(decimal::pow10((left + 1) as nat) == 10 * p);
            assert(before * (10 * p) == out * p) by (nonlinear_arith)
                requires
                    out == before * 10,
            ;
            if out > b {
                assert(out * p >= out && b * p >= b) by (nonlinear_arith)
                    requires
                        p >= 1,
                        out > b,
                        b > 0,
                ;
            }
        }
        if out > BEYOND {
            out = BEYOND;
        }
    }
    proof {
        power_is_positive(left as nat);
        let p = decimal::pow10(left as nat) as int;
        assert(up_to(out * p, b) == out) by {
            if left == 0 {
                assert(p == 1);
                assert(out * 1 == out) by (nonlinear_arith);
            } else if out == 0 {
                assert(0 * p == 0) by (nonlinear_arith);
            } else {
                assert(b * p >= b) by (nonlinear_arith)
                    requires
                        p >= 1,
                        b > 0,
                ;
            }
        }
    }
    out
}

/// The product of two numbers without its fraction.
pub fn product_of(a: &Figure, b: &Figure) -> (r: i64)
    requires
        a@.wf(),
        b@.wf(),
    ensures
        r == product(a@, b@),
{
    let digits = multiplied(&a.digits, &b.digits);
    let exponent: i128 = (a.point - a.digits.len() as i128) + (b.point - b.digits.len() as i128);
    let ghost n = a@.size() * b@.size();
    assert(n >= 0) by (nonlinear_arith)
        requires
            n == a@.size() * b@.size(),
            a@.size() >= 0,
            b@.size() >= 0,
    ;
    let size: u128 = if exponent >= 0 {
        let all: u128 = tail_up_to(&digits, 0);
        assert(up_to(n, BEYOND as int) == all);
        let r: u128 = raised(all, exponent);
        assert(r == up_to(n * decimal::pow10(exponent as nat), BEYOND as int));
        r
    } else {
        proof {
            tail_is_quotient(digits@, -exponent);
        }
        if -exponent >= digits.len() as i128 {
            assert(tail(digits@, -exponent) == 0);
            0
        } else {
            tail_up_to(&digits, (-exponent) as usize)
        }
    };
    assert(size == up_to(shifted(n, exponent as int), BEYOND as int));
    if a.negative == b.negative {
        if size > i64::MAX as u128 {
            i64::MAX
        } else {
            size as i64
        }
    } else {
        if size > i64::MAX as u128 {
            i64::MIN
        } else {
            -(size as i64)
        }
    }
}

/// A number times a factor, without its fraction.
pub fn multiple_of(a: &Figure, by: &Factor) -> (r: i64)
    requires
        a@.wf(),
        by@.wf(),
    ensures
        r == multiple(a@, by@),
{
    match by {
        Factor::Number(b) => product_of(a, b),
        Factor::Infinite { negative } => if text::value_up_to(&a.digits, 1) == 0 {
            0
        } else if a.negative == *negative {
            i64::MAX
        } else {
            i64::MIN
        },
        Factor::Undefined => 0,
    }
}

// ---------------------------------------------------------------------------
// What holds of products
// ---------------------------------------------------------------------------

/// It does not matter which number comes first.
pub proof fn products_commute(a: FigureView, b: FigureView)
    ensures
        product(a, b) == product(b, a),
{
    assert(a.size() * b.size() == b.size() * a.size()) by (nonlinear_arith);
}

/// A whole number times one is the number, as far as 64 bits reach.
pub proof fn times_one_is_the_number(n: int)
    requires
        i64::MIN <= n <= i64::MAX,
    ensures
        product(whole(n), whole(1)) == n,
{
    decimal_has_digits(
        if n < 0 {
            -n as nat
        } else {
            n as nat
        },
    );
    decimal_has_digits(1);
    let size = whole(n).size();
    assert(size * 1 == size) by (nonlinear_arith);
    assert(decimal::pow10(0) == 1);
}

} // verus!
