//! The generator of events: what a worker's events are follows from the schema, the seed of
//! the run, the worker's index, and whether there is an incident.
use rand::rngs::StdRng;
use vstd::prelude::*;
use vstd::string::*;
use crate::chance;
use crate::chance::{Course, Request};
use crate::events;
use crate::fields;
use crate::fields::{FieldGenerator, GeneratorView, Lines, Spread, Weighted, WeightedView};
use crate::json::{Doc, Json};
use crate::model;
use crate::scenario::{FieldView, Schema, SchemaView};
use crate::seeds;
use crate::session;
use crate::text;

verus! {

/// How many placeholders of a template are filled in at most: more than any template holds, so
/// that only a field that names itself reaches it.
pub const MAX_PLACEHOLDERS: u64 = 0xffff_ffff;

/// How many numbers there are between zero and one.
pub const FRACTIONS: i128 = 0x20_0000_0000_0000;

// ---------------------------------------------------------------------------
// Values
// ---------------------------------------------------------------------------

/// The value that a text stands for: a number where it is one, else the text.
pub open spec fn value_of(t: Seq<char>) -> Doc {
    match text::signed(t) {
        Some(n) => Doc::Int(n),
        None => Doc::Text(t),
    }
}

/// The value that a text stands for.
pub fn enum_value(t: &str) -> (r: Json)
    ensures
        r.doc() == value_of(t@),
{
    match text::parse_i64(t) {
        Some(n) => Json::Int(n),
        None => Json::text(t),
    }
}

/// The name that a pattern gives: with the service and a number filled in.
pub open spec fn named(pattern: Seq<char>, service: Seq<char>, id: u32) -> Seq<char> {
    text::replaced(
        text::replaced(pattern, "{service}"@, service),
        "{pod_id}"@,
        text::decimal(id as nat),
    )
}

/// The name that a pattern gives.
pub fn pattern_text(pattern: &str, service: &str, id: u32) -> (r: String)
    ensures
        r@ == named(pattern@, service@, id),
{
    proof {
        reveal_strlit("{service}");
        reveal_strlit("{pod_id}");
    }
    let with_service = text::replace(pattern, "{service}", service);
    text::replace(with_service.as_str(), "{pod_id}", text::decimal_u64(id as u64).as_str())
}

/// The number that a distribution gives: the mean, and a part of the deviation as great as
/// the word is among all, kept within the bounds and without its fraction. During an incident
/// mean, deviation and bounds are those of the incident.
pub open spec fn spread_value(s: Spread, incident: bool, word: u64) -> int {
    let r = s.range(incident);
    let part = word as int / 2048;
    let value = r.mean * FRACTIONS + r.stddev * part;
    let bounded = if value < r.min * FRACTIONS {
        r.min * FRACTIONS
    } else if value > r.max * FRACTIONS {
        r.max * FRACTIONS
    } else {
        value
    };
    events::held64(events::cut(bounded, 1_000_000_000_000_000_000 * FRACTIONS))
}

/// A number of units, and a part of one more, without its fraction.
proof fn cut_of_parts(whole: int, rest: int)
    requires
        0 <= rest < FRACTIONS,
    ensures
        events::cut(whole * FRACTIONS + rest, 1_000_000_000_000_000_000 * FRACTIONS) == if whole >= 0 {
            whole / 1_000_000_000_000_000_000
        } else if rest == 0 {
            -((-whole) / 1_000_000_000_000_000_000)
        } else {
            -((-whole - 1) / 1_000_000_000_000_000_000)
        },
{
    let f = FRACTIONS as int;
    let value = whole * f + rest;
    if whole >= 0 {
        assert(value >= 0) by (nonlinear_arith)
            requires
                whole >= 0,
                rest >= 0,
                f > 0,
                value == whole * f + rest,
        ;
        parts_of(whole, rest);
    } else if rest == 0 {
        assert(value < 0 && -value == (-whole) * f + 0) by (nonlinear_arith)
            requires
                whole < 0,
                f > 0,
                value == whole * f,
        ;
        parts_of(-whole, 0);
    } else {
        assert(value < 0 && -value == (-whole - 1) * f + (f - rest)) by (nonlinear_arith)
            requires
                whole <= -1,
                0 < rest < f,
                value == whole * f + rest,
        ;
        parts_of(-whole - 1, f - rest);
    }
}

proof fn parts_of(whole: int, rest: int)
    requires
        0 <= whole,
        0 <= rest < FRACTIONS,
    ensures
        (whole * FRACTIONS + rest) / (1_000_000_000_000_000_000 * FRACTIONS) == whole / 1_000_000_000_000_000_000,
{
    let f = FRACTIONS as int;
    let q = whole / 1_000_000_000_000_000_000;
    let m = whole % 1_000_000_000_000_000_000;
    let value = whole * f + rest;
    assert(value == q * (1_000_000_000_000_000_000 * f) + (m * f + rest) && 0 <= m * f + rest < 1_000_000_000_000_000_000 * f)
        by (nonlinear_arith)
        requires
            whole == q * 1_000_000_000_000_000_000 + m,
            0 <= m < 1_000_000_000_000_000_000,
            0 <= rest < f,
            value == whole * f + rest,
    ;
    vstd::arithmetic::div_mod::lemma_fundamental_div_mod_converse(
        value,
        1_000_000_000_000_000_000 * f,
        q,
        m * f + rest,
    );
}

/// A value is compared with a bound by its whole units, and by what is left of it.
proof fn compared_by_parts(whole: int, rest: int, bound: int)
    requires
        0 <= rest < FRACTIONS,
    ensures
        whole * FRACTIONS + rest < bound * FRACTIONS <==> whole < bound,
        whole * FRACTIONS + rest > bound * FRACTIONS <==> whole > bound || (whole == bound && rest
            > 0),
{
    let f = FRACTIONS as int;
    if whole < bound {
        assert(whole * f + rest < bound * f) by (nonlinear_arith)
            requires
                whole + 1 <= bound,
                0 <= rest < f,
        ;
    } else {
        assert(whole * f >= bound * f) by (nonlinear_arith)
            requires
                whole >= bound,
                f > 0,
        ;
        if whole > bound {
            assert(whole * f > bound * f) by (nonlinear_arith)
                requires
                    whole > bound,
                    f > 0,
            ;
        }
    }
}

/// The number that a distribution gives.
pub fn distributed(s: &Spread, incident: bool, word: u64) -> (r: i64)
    requires
        s.wf(),
    ensures
        r == spread_value(*s, incident, word),
{
    let range = s.range_of(incident);
    let part: i128 = (word / 2048) as i128;
    // The deviation in whole units beyond `FRACTIONS`, and what is left.
    let high: i128 = floor_div(range.stddev);
    let low: i128 = range.stddev - high * FRACTIONS;
    proof {
        let f = FRACTIONS as int;
        assert(0 <= low * part < f * f) by (nonlinear_arith)
            requires
                0 <= low < f,
                0 <= part < f,
                f == FRACTIONS,
        ;
        assert(-0x40_0000_0000_0000_0000 * f <= high * part <= 0x40_0000_0000_0000_0000 * f) by (nonlinear_arith)
            requires
                -0x40_0000_0000_0000_0000 <= high <= 0x40_0000_0000_0000_0000,
                0 <= part < f,
        ;
    }
    let more: i128 = low * part;
    let carried: i128 = more / FRACTIONS;
    let rest: i128 = more % FRACTIONS;
    let whole: i128 = range.mean + high * part + carried;
    proof {
        let f = FRACTIONS as int;
        assert(range.mean * f + range.stddev * part == whole * f + rest) by (nonlinear_arith)
            requires
                range.stddev == high * f + low,
                low * part == carried * f + rest,
                whole == range.mean + high * part + carried,
        ;
        compared_by_parts(whole as int, rest as int, range.min as int);
        compared_by_parts(whole as int, rest as int, range.max as int);
        cut_of_parts(whole as int, rest as int);
        cut_of_parts(range.min as int, 0);
        cut_of_parts(range.max as int, 0);
    }
    if whole < range.min {
        events::hold(events::cut_of(range.min, 1_000_000_000_000_000_000))
    } else if whole > range.max || (whole == range.max && rest > 0) {
        events::hold(events::cut_of(range.max, 1_000_000_000_000_000_000))
    } else if whole < 0 && rest > 0 {
        events::hold(events::cut_of(whole + 1, 1_000_000_000_000_000_000))
    } else {
        events::hold(events::cut_of(whole, 1_000_000_000_000_000_000))
    }
}

fn floor_div(n: i128) -> (r: i128)
    requires
        -fields::GREATEST <= n <= fields::GREATEST,
    ensures
        0 <= n - r * FRACTIONS < FRACTIONS,
        -0x40_0000_0000_0000_0000 <= r <= 0x40_0000_0000_0000_0000,
{
    let q: i128 = if n >= 0 {
        n / FRACTIONS
    } else {
        -((FRACTIONS - 1 - n) / FRACTIONS)
    };
    assert(0 <= n - q * FRACTIONS < FRACTIONS && -0x40_0000_0000_0000_0000 <= q <= 0x40_0000_0000_0000_0000)
        by (nonlinear_arith)
        requires
            -fields::GREATEST <= n <= fields::GREATEST,
            fields::GREATEST == 9_223_372_036_854_775_808_000_000_000_000_000_000,
            FRACTIONS == 0x20_0000_0000_0000,
            q == (if n >= 0 {
                n as int / FRACTIONS as int
            } else {
                -((FRACTIONS - 1 - n) / FRACTIONS as int)
            }),
    ;
    q
}

/// A number of a distribution lies between the bounds of the time, those of the incident during
/// one.
pub proof fn distributed_within_bounds(s: Spread, incident: bool, word: u64, low: int, high: int)
    requires
        s.wf(),
        s.range(incident).min == low * 1_000_000_000_000_000_000,
        s.range(incident).max == high * 1_000_000_000_000_000_000,
        i64::MIN <= low,
        high <= i64::MAX,
    ensures
        low <= spread_value(s, incident, word) <= high,
{
    let den = 1_000_000_000_000_000_000 * FRACTIONS as int;
    let r = s.range(incident);
    let value = r.mean * FRACTIONS + r.stddev * (word as int / 2048);
    let bounded = if value < r.min * FRACTIONS {
        r.min * FRACTIONS
    } else if value > r.max * FRACTIONS {
        r.max * FRACTIONS
    } else {
        value
    };
    assert(r.min * FRACTIONS == low * den) by (nonlinear_arith)
        requires
            r.min == low * 1_000_000_000_000_000_000,
            den == 1_000_000_000_000_000_000 * FRACTIONS,
    ;
    assert(r.max * FRACTIONS == high * den) by (nonlinear_arith)
        requires
            r.max == high * 1_000_000_000_000_000_000,
            den == 1_000_000_000_000_000_000 * FRACTIONS,
    ;
    assert(low * den <= high * den) by (nonlinear_arith)
        requires
            low * 1_000_000_000_000_000_000 <= high * 1_000_000_000_000_000_000,
            den > 0,
    ;
    assert(low * den <= bounded <= high * den);
    cut_within(bounded, den, low, high);
}

proof fn cut_within(n: int, den: int, low: int, high: int)
    requires
        den > 0,
        low * den <= n <= high * den,
    ensures
        low <= events::cut(n, den) <= high,
{
    if n >= 0 {
        assert(low <= n / den <= high) by (nonlinear_arith)
            requires
                den > 0,
                n >= 0,
                low * den <= n <= high * den,
        ;
    } else {
        let m = -n;
        assert(-high <= m / den <= -low) by (nonlinear_arith)
            requires
                den > 0,
                m > 0,
                -(high * den) <= m <= -(low * den),
        ;
    }
}

// ---------------------------------------------------------------------------
// Templates
// ---------------------------------------------------------------------------

/// The range that the number of a placeholder comes from, where it has one.
pub open spec fn placeholder_range(name: Seq<char>) -> Option<(u32, u32)> {
    if name == "retry_count"@ {
        Some((1, 4))
    } else if name == "pool_pct"@ {
        Some((80, 98))
    } else if name == "client_id"@ {
        Some((1, 99))
    } else if name == "query_time"@ {
        Some((1, 499))
    } else if name == "line"@ {
        Some((100, 998))
    } else {
        None
    }
}

/// What a placeholder is replaced by, given the number that was drawn for it: a number, a
/// fixed text, the event's field of that name, or the name itself.
pub open spec fn replacement(name: Seq<char>, event: Doc, drawn: u32) -> Seq<char> {
    if placeholder_range(name) is Some {
        if name == "client_id"@ {
            "client-"@ + text::decimal(drawn as nat)
        } else {
            text::decimal(drawn as nat)
        }
    } else if name == "method"@ {
        "processRequest"@
    } else if name == "args_summary"@ {
        "..."@
    } else {
        match events::field(event, name) {
            Some(v) => events::plain(v),
            None => name,
        }
    }
}

/// The number that is drawn for a placeholder, and where the generator is after it.
pub open spec fn drawn_for(name: Seq<char>, c: Course) -> (u32, Course) {
    match placeholder_range(name) {
        Some((low, high)) => (
            chance::between32(c, low, high),
            c.after(Request::Between32(low, high)),
        ),
        None => (0, c),
    }
}

/// The first placeholder of a text: where its braces stand.
pub open spec fn placeholder(t: Seq<char>) -> Option<(int, int)> {
    match text::first_at(t, "{"@, 0) {
        None => None,
        Some(start) => match text::first_at(t, "}"@, start) {
            None => None,
            Some(end) => Some((start, end)),
        },
    }
}

/// The text with its first placeholder replaced.
pub open spec fn with_replaced(t: Seq<char>, at: (int, int), by: Seq<char>) -> Seq<char> {
    t.take(at.0) + by + t.skip(at.1 + 1)
}

/// The text with its placeholders replaced, one after the other and at most `rounds`, and
/// where the generator is after it.
pub open spec fn filled(t: Seq<char>, event: Doc, c: Course, rounds: nat) -> (Seq<char>, Course)
    decreases rounds,
{
    match placeholder(t) {
        None => (t, c),
        Some(at) => if rounds == 0 {
            (t, c)
        } else {
            let name = t.subrange(at.0 + 1, at.1);
            let drawn = drawn_for(name, c);
            filled(
                with_replaced(t, at, replacement(name, event, drawn.0)),
                event,
                drawn.1,
                (rounds - 1) as nat,
            )
        },
    }
}

fn range_for(name: &str) -> (r: Option<(u32, u32)>)
    ensures
        r == placeholder_range(name@),
        match r {
            Some((low, high)) => low <= high,
            None => true,
        },
{
    if text::same(name, "retry_count") {
        Some((1, 4))
    } else if text::same(name, "pool_pct") {
        Some((80, 98))
    } else if text::same(name, "client_id") {
        Some((1, 99))
    } else if text::same(name, "query_time") {
        Some((1, 499))
    } else if text::same(name, "line") {
        Some((100, 998))
    } else {
        None
    }
}

/// What a placeholder is replaced by, given the number that was drawn for it.
pub fn replacement_for(name: &str, event: &Json, drawn: u32) -> (r: String)
    ensures
        r@ == replacement(name@, event.doc(), drawn),
{
    if range_for(name).is_some() {
        let number = text::decimal_u64(drawn as u64);
        if text::same(name, "client_id") {
            text::join2("client-", number.as_str())
        } else {
            number
        }
    } else if text::same(name, "method") {
        text::owned("processRequest")
    } else if text::same(name, "args_summary") {
        text::owned("...")
    } else {
        match events::get_field_value(event, name) {
            Some(v) => events::plain_text(v),
            None => text::owned(name),
        }
    }
}

fn find_placeholder(t: &Vec<char>) -> (r: Option<(usize, usize)>)
    ensures
        match r {
            Some(p) => placeholder(t@) == Some((p.0 as int, p.1 as int)) && p.0 < p.1 < t@.len(),
            None => placeholder(t@) is None,
        },
{
    proof {
        reveal_strlit("{");
        reveal_strlit("}");
    }
    let open = text::chars_of("{");
    let close = text::chars_of("}");
    match text::find_from(t, &open, 0) {
        None => None,
        Some(start) => match text::find_from(t, &close, start) {
            None => None,
            Some(end) => {
                proof {
                    text::first_at_is_least(t@, "{"@, 0);
                    text::first_at_is_least(t@, "}"@, start as int);
                    assert(t@.subrange(start as int, start + 1)[0] == '{');
                    assert(t@.subrange(end as int, end + 1)[0] == '}');
                }
                Some((start, end))
            },
        },
    }
}

/// The template with its placeholders replaced.
pub fn substitute_template(template: &str, event: &Json, rng: &mut StdRng) -> (r: String)
    ensures
        r@ == filled(
            template@,
            event.doc(),
            chance::course(*old(rng)),
            MAX_PLACEHOLDERS as nat,
        ).0,
        chance::course(*final(rng)) == filled(
            template@,
            event.doc(),
            chance::course(*old(rng)),
            MAX_PLACEHOLDERS as nat,
        ).1,
{
    let ghost want = filled(
        template@,
        event.doc(),
        chance::course(*rng),
        MAX_PLACEHOLDERS as nat,
    );
    let mut result = text::owned(template);
    let mut rounds: u64 = MAX_PLACEHOLDERS;
    while rounds > 0
        invariant
            want == filled(
                template@,
                event.doc(),
                chance::course(*old(rng)),
                MAX_PLACEHOLDERS as nat,
            ),
            want == filled(result@, event.doc(), chance::course(*rng), rounds as nat),
        decreases rounds,
    {
        let chars = text::chars_of(result.as_str());
        let total: usize = chars.len();
        match find_placeholder(&chars) {
            None => {
                return result;
            },
            Some((start, end)) => {
                let name = text::string_of(&chars, start + 1, end);
                let drawn: u32 = match range_for(name.as_str()) {
                    Some((low, high)) => chance::draw32(rng, low, high),
                    None => 0,
                };
                let by = replacement_for(name.as_str(), event, drawn);
                let head = text::string_of(&chars, 0, start);
                let tail = text::string_of(&chars, end + 1, total);
                let ghost before = result@;
                result = text::join3(head.as_str(), by.as_str(), tail.as_str());
                proof {
                    assert(head@ =~= before.take(start as int));
                    assert(tail@ =~= before.skip(end + 1));
                }
                rounds = rounds - 1;
            },
        }
    }
    result
}

// ---------------------------------------------------------------------------
// The value of a field
// ---------------------------------------------------------------------------

/// Where a generator is after so many hexadecimal digits.
pub open spec fn course_after_hex(c: Course, digits: nat) -> Course
    decreases digits,
{
    if digits == 0 {
        c
    } else {
        course_after_hex(c, (digits - 1) as nat).after(Request::Between64(0, 15))
    }
}

/// The digits that are drawn.
pub open spec fn drawn_hex(c: Course, digits: nat) -> Seq<u64> {
    Seq::new(digits, |i: int| chance::between64(course_after_hex(c, i as nat), 0, 15))
}

/// One of the choices, and where the generator is after it.
pub open spec fn chosen(w: WeightedView, c: Course) -> (Option<Doc>, Course) {
    (
        Some(value_of(w.values[chance::choice(c, w.weights) as int])),
        c.after(Request::FineChoice { fine: w.weights }),
    )
}

/// One of the texts, all equally likely, and where the generator is after it.
pub open spec fn any_of(values: Seq<Seq<char>>, c: Course) -> (Seq<char>, Course) {
    let last = (values.len() - 1) as u64;
    (values[chance::between64(c, 0, last) as int], c.after(Request::Between64(0, last)))
}

/// The text of a field, or another.
pub open spec fn text_or(event: Doc, name: Seq<char>, other: Seq<char>) -> Seq<char> {
    match events::field_text(event, name) {
        Some(t) => t,
        None => other,
    }
}

/// The value that a generator makes, in an event whose earlier fields are there already, and
/// where the source of chance is after it. There is none where a condition does not hold, or
/// where what it follows from is not there.
pub open spec fn made(g: GeneratorView, incident: bool, event: Doc, now: Seq<char>, c: Course) -> (
    Option<Doc>,
    Course,
) {
    match g {
        GeneratorView::Timestamp => (Some(Doc::Text(now)), c),
        GeneratorView::WeightedEnum { baseline, incident: during } => if incident {
            chosen(during, c)
        } else {
            chosen(baseline, c)
        },
        GeneratorView::StaticWeightedEnum { choices } => chosen(choices, c),
        GeneratorView::StaticEnum { values } => if values.len() == 0 {
            (Some(Doc::Text("unknown"@)), c)
        } else {
            let one = any_of(values, c);
            (Some(Doc::Text(one.0)), one.1)
        },
        GeneratorView::Pattern { pattern, range_min, range_max } => (
            Some(
                Doc::Text(
                    named(
                        pattern,
                        text_or(event, "service"@, "svc"@),
                        chance::between32(c, range_min, range_max),
                    ),
                ),
            ),
            c.after(Request::Between32(range_min, range_max)),
        ),
        GeneratorView::Hex { length } => (
            Some(Doc::Text(session::hex_digits(drawn_hex(c, length as nat)))),
            course_after_hex(c, length as nat),
        ),
        GeneratorView::Distribution { spread } => (
            Some(Doc::Int(spread_value(spread, incident, chance::word(c)))),
            c.after(Request::Word),
        ),
        GeneratorView::Template { templates } => match model::find(
            templates,
            text_or(event, "level"@, "INFO"@),
        ) {
            Some(list) => if list.len() == 0 {
                (Some(Doc::Text("Log message"@)), c)
            } else {
                let one = any_of(list, c);
                let text = filled(one.0, event, one.1, MAX_PLACEHOLDERS as nat);
                (Some(Doc::Text(text.0)), text.1)
            },
            None => (Some(Doc::Text("Log message"@)), c),
        },
        GeneratorView::Conditional { condition_field, condition_values, outcomes } =>
            if condition_values.contains(text_or(event, condition_field, ""@)) {
            match outcomes {
                Some(w) => chosen(w, c),
                None => (Some(Doc::Text("unknown"@)), c),
            }
        } else {
            (None, c)
        },
        GeneratorView::Derived { expression } => match events::evaluated(expression, event) {
            Some(n) => (Some(Doc::Int(n)), c),
            None => (events::field(event, expression), c),
        },
        GeneratorView::Fallback => (Some(Doc::Text("unknown"@)), c),
    }
}

/// A value that the choices allow: one whose weight is not zero.
pub open spec fn allowed(w: WeightedView, v: Doc) -> bool {
    exists|k: int|
        #![trigger w.values[k]]
        0 <= k < w.values.len() && w.weights[k] > 0 && v == value_of(w.values[k])
}

/// A value that a generator may make, whatever chance decides.
pub open spec fn may_be(g: GeneratorView, incident: bool, event: Doc, v: Doc) -> bool {
    match g {
        GeneratorView::WeightedEnum { baseline, incident: during } => if incident {
            allowed(during, v)
        } else {
            allowed(baseline, v)
        },
        GeneratorView::StaticWeightedEnum { choices } => allowed(choices, v),
        GeneratorView::StaticEnum { values } => v is Text && (values.len() > 0
            ==> values.contains(v->Text_0)),
        GeneratorView::Pattern { pattern, range_min, range_max } => exists|id: u32|
            #![trigger named(pattern, text_or(event, "service"@, "svc"@), id)]
            range_min <= id <= range_max && v == Doc::Text(
                named(pattern, text_or(event, "service"@, "svc"@), id),
            ),
        GeneratorView::Hex { length } => v is Text && v->Text_0.len() == length,
        GeneratorView::Distribution { spread } => exists|word: u64|
            #![trigger spread_value(spread, incident, word)]
            v == Doc::Int(spread_value(spread, incident, word)),
        _ => true,
    }
}

fn choose_one(w: &Weighted, rng: &mut StdRng) -> (r: Json)
    requires
        w@.wf(),
    ensures
        allowed(w@, r.doc()),
        Some(r.doc()) == chosen(w@, chance::course(*old(rng))).0,
        chance::course(*final(rng)) == chosen(w@, chance::course(*old(rng))).1,
{
    let at: usize = chance::choose_weighted(rng, &w.weights);
    assert(text::views(w.values@)[at as int] == w.values@[at as int]@);
    enum_value(w.values[at].as_str())
}

fn any_text<'a>(values: &'a Vec<String>, rng: &mut StdRng) -> (r: &'a str)
    requires
        values@.len() > 0,
    ensures
        text::views(values@).contains(r@),
        r@ == any_of(text::views(values@), chance::course(*old(rng))).0,
        chance::course(*final(rng)) == any_of(
            text::views(values@),
            chance::course(*old(rng)),
        ).1,
{
    let at: u64 = chance::draw64(rng, 0, (values.len() - 1) as u64);
    assert(text::views(values@)[at as int] == values@[at as int]@);
    values[at as usize].as_str()
}

fn draw_hex(length: u64, rng: &mut StdRng) -> (r: String)
    ensures
        r@ == session::hex_digits(drawn_hex(chance::course(*old(rng)), length as nat)),
        chance::course(*final(rng)) == course_after_hex(chance::course(*old(rng)), length as nat),
{
    let ghost c = chance::course(*rng);
    let ghost want = drawn_hex(c, length as nat);
    let mut digits: Vec<u64> = Vec::new();
    let mut i: u64 = 0;
    while i < length
        invariant
            i <= length,
            c == chance::course(*old(rng)),
            want == drawn_hex(c, length as nat),
            digits@ == want.take(i as int),
            forall|k: int| 0 <= k < digits@.len() ==> (#[trigger] digits@[k]) < 16,
            chance::course(*rng) == course_after_hex(c, i as nat),
        decreases length - i,
    {
        broadcast use model::take_push;

        digits.push(chance::draw64(rng, 0, 15));
        i += 1;
    }
    assert(want.take(i as int) =~= want);
    session::hex_text(&digits)
}

fn text_in_or<'a>(event: &'a Json, name: &str, other: &'a str) -> (r: &'a str)
    ensures
        r@ == text_or(event.doc(), name@, other@),
{
    match events::get_field_str(event, name) {
        Some(t) => t,
        None => other,
    }
}

fn from_template(templates: &Vec<(String, Lines)>, event: &Json, rng: &mut StdRng) -> (r: Json)
    ensures
        (Some(r.doc()), chance::course(*final(rng))) == made(
            GeneratorView::Template { templates: model::vmap(templates@) },
            false,
            event.doc(),
            Seq::empty(),
            chance::course(*old(rng)),
        ),
{
    let level = text_in_or(event, "level", "INFO");
    match model::find_in(templates, level) {
        Some(list) => {
            if list.lines.len() == 0 {
                Json::text("Log message")
            } else {
                let template = any_text(&list.lines, rng);
                let text = substitute_template(template, event, rng);
                Json::Text(text)
            }
        },
        None => Json::text("Log message"),
    }
}

/// The value that a generator makes.
pub fn generate_field_value(
    g: &FieldGenerator,
    rng: &mut StdRng,
    incident: bool,
    event: &Json,
    now: &str,
) -> (r: Option<Json>)
    requires
        g@.wf(),
    ensures
        match r {
            Some(v) => (Some(v.doc()), chance::course(*final(rng))) == made(
                g@,
                incident,
                event.doc(),
                now@,
                chance::course(*old(rng)),
            ),
            None => (None::<Doc>, chance::course(*final(rng))) == made(
                g@,
                incident,
                event.doc(),
                now@,
                chance::course(*old(rng)),
            ),
        },
        r is Some ==> may_be(g@, incident, event.doc(), r->0.doc()),
{
    match g {
        FieldGenerator::Timestamp => Some(Json::text(now)),
        FieldGenerator::WeightedEnum { baseline, incident: during } => if incident {
            Some(choose_one(during, rng))
        } else {
            Some(choose_one(baseline, rng))
        },
        FieldGenerator::StaticWeightedEnum { choices } => Some(choose_one(choices, rng)),
        FieldGenerator::StaticEnum { values } => if values.len() == 0 {
            Some(Json::text("unknown"))
        } else {
            Some(Json::text(any_text(values, rng)))
        },
        FieldGenerator::Pattern { pattern, range_min, range_max } => {
            let id: u32 = chance::draw32(rng, *range_min, *range_max);
            let service = text_in_or(event, "service", "svc");
            let name = pattern_text(pattern.as_str(), service, id);
            assert(name@ == named(pattern@, text_or(event.doc(), "service"@, "svc"@), id));
            Some(Json::Text(name))
        },
        FieldGenerator::Hex { length } => Some(Json::Text(draw_hex(*length, rng))),
        FieldGenerator::Distribution { spread } => {
            let word: u64 = chance::draw_word(rng);
            Some(Json::Int(distributed(spread, incident, word)))
        },
        FieldGenerator::Template { templates } => Some(from_template(templates, event, rng)),
        FieldGenerator::Conditional { condition_field, condition_values, outcomes } => {
            let value = text_in_or(event, condition_field.as_str(), "");
            if text::list_has(condition_values, value) {
                match outcomes {
                    Some(w) => Some(choose_one(w, rng)),
                    None => Some(Json::text("unknown")),
                }
            } else {
                None
            }
        },
        FieldGenerator::Derived { expression } => match events::evaluate_expression(
            expression.as_str(),
            event,
        ) {
            Some(n) => Some(Json::Int(n)),
            None => match events::get_field_value(event, expression.as_str()) {
                Some(v) => Some(v.copy()),
                None => None,
            },
        },
        FieldGenerator::Fallback => Some(Json::text("unknown")),
    }
}

// ---------------------------------------------------------------------------
// Events
// ---------------------------------------------------------------------------

/// A generator of events: the fields and how each is made, whether there is an incident, and
/// the source of chance.
pub struct DataGenerator {
    names: Vec<String>,
    generators: Vec<FieldGenerator>,
    incident_mode: bool,
    rng: StdRng,
}

pub struct DataGeneratorView {
    pub names: Seq<Seq<char>>,
    pub generators: Seq<GeneratorView>,
    pub incident: bool,
    pub course: Course,
}

impl View for DataGenerator {
    type V = DataGeneratorView;

    closed spec fn view(&self) -> DataGeneratorView {
        DataGeneratorView {
            names: text::views(self.names@),
            generators: model::vmap(self.generators@),
            incident: self.incident_mode,
            course: chance::course(self.rng),
        }
    }
}

/// The first `n` fields have generators.
pub open spec fn generators_upto(f: Seq<FieldView>, n: int) -> Option<Seq<GeneratorView>>
    decreases n,
{
    if n <= 0 {
        Some(Seq::empty())
    } else {
        match (generators_upto(f, n - 1), fields::generator(f[n - 1])) {
            (Some(before), Some(g)) => Some(before.push(g)),
            _ => None,
        }
    }
}

impl DataGeneratorView {
    /// Every field has a generator that can make values.
    pub open spec fn wf(self) -> bool {
        &&& self.names.len() == self.generators.len()
        &&& forall|k: int| 0 <= k < self.generators.len() ==> (#[trigger] self.generators[k]).wf()
    }

    /// The generator of a worker before its first event; none where a field's configuration
    /// leaves nothing to choose from.
    pub open spec fn start(schema: SchemaView, run_seed: u64, worker_index: u32) -> Option<
        DataGeneratorView,
    > {
        match generators_upto(schema.fields, schema.fields.len() as int) {
            Some(generators) => Some(
                DataGeneratorView {
                    names: schema.fields.map_values(|f: FieldView| f.name),
                    generators,
                    incident: false,
                    course: Course::start(
                        seeds::sip13(seeds::worker_seed_bytes(run_seed, worker_index)),
                    ),
                },
            ),
            None => None,
        }
    }

    /// The event when the first `n` fields are made, and where the source of chance is then;
    /// none where a field stands in the way of another.
    pub open spec fn event_upto(self, now: Seq<char>, n: int) -> Option<(Doc, Course)>
        decreases n,
    {
        if n <= 0 {
            Some((Doc::object(), self.course))
        } else {
            match self.event_upto(now, n - 1) {
                None => None,
                Some((event, c)) => {
                    let value = made(self.generators[n - 1], self.incident, event, now, c);
                    match value.0 {
                        None => Some((event, value.1)),
                        Some(v) => match events::placed(
                            event,
                            events::parts(self.names[n - 1]),
                            0,
                            v,
                        ) {
                            Some(next) => Some((next, value.1)),
                            None => None,
                        },
                    }
                },
            }
        }
    }

    /// The next event, and the generator after it.
    pub open spec fn next_event(self, now: Seq<char>) -> Option<(Doc, DataGeneratorView)> {
        match self.event_upto(now, self.names.len() as int) {
            Some((event, course)) => Some((event, DataGeneratorView { course, ..self })),
            None => None,
        }
    }

    /// The next events, one for each time, and the generator after them.
    pub open spec fn next_events(self, nows: Seq<Seq<char>>, n: int) -> Option<
        (Seq<Doc>, DataGeneratorView),
    >
        decreases n,
    {
        if n <= 0 {
            Some((Seq::empty(), self))
        } else {
            match self.next_events(nows, n - 1) {
                None => None,
                Some((before, g)) => match g.next_event(nows[n - 1]) {
                    Some((event, next)) => Some((before.push(event), next)),
                    None => None,
                },
            }
        }
    }
}

proof fn generators_none(f: Seq<FieldView>, n: int, m: int)
    requires
        0 <= n <= m,
        generators_upto(f, n) is None,
    ensures
        generators_upto(f, m) is None,
    decreases m - n,
{
    if n < m {
        generators_none(f, n, m - 1);
    }
}

proof fn events_none(g: DataGeneratorView, now: Seq<char>, n: int, m: int)
    requires
        n <= m,
        g.event_upto(now, n) is None,
    ensures
        g.event_upto(now, m) is None,
    decreases m - n,
{
    if n < m {
        events_none(g, now, n, m - 1);
    }
}

proof fn batch_none(g: DataGeneratorView, nows: Seq<Seq<char>>, n: int, m: int)
    requires
        n <= m,
        g.next_events(nows, n) is None,
    ensures
        g.next_events(nows, m) is None,
    decreases m - n,
{
    if n < m {
        batch_none(g, nows, n, m - 1);
    }
}

impl DataGenerator {
    /// The generator of a worker; none where a field's configuration leaves nothing to
    /// choose from.
    pub fn new(schema: &Schema, run_seed: u64, worker_index: u32) -> (r: Option<DataGenerator>)
        ensures
            match r {
                Some(g) => DataGeneratorView::start(schema@, run_seed, worker_index) == Some(g@)
                    && g@.wf(),
                None => DataGeneratorView::start(schema@, run_seed, worker_index) is None,
            },
    {
        let ghost all = schema@.fields;
        let ghost all_names = all.map_values(|f: FieldView| f.name);
        let mut names: Vec<String> = Vec::new();
        let mut generators: Vec<FieldGenerator> = Vec::new();
        let mut i: usize = 0;
        assert(text::views(names@) =~= all_names.take(0));
        assert(model::vmap(generators@) =~= Seq::<GeneratorView>::empty());
        while i < schema.fields.len()
            invariant
                i <= schema.fields@.len(),
                all == schema@.fields,
                all_names == all.map_values(|f: FieldView| f.name),
                text::views(names@) == all_names.take(i as int),
                names@.len() == i,
                generators@.len() == i,
                generators_upto(all, i as int) == Some(model::vmap(generators@)),
                forall|k: int| 0 <= k < generators@.len() ==> (#[trigger] generators@[k])@.wf(),
            decreases schema.fields@.len() - i,
        {
            broadcast use model::views_push, model::vmap_push, model::take_push;

            assert(all[i as int] == schema.fields@[i as int]@);
            match fields::build_field_generator(&schema.fields[i]) {
                Some(g) => {
                    generators.push(g);
                },
                None => {
                    proof {
                        generators_none(all, i + 1, all.len() as int);
                    }
                    return None;
                },
            }
            names.push(schema.fields[i].name.clone());
            i += 1;
        }
        let rng = chance::seeded(seeds::derive_worker_seed(run_seed, worker_index));
        let r = DataGenerator { names, generators, incident_mode: false, rng };
        proof {
            assert(all_names.take(i as int) =~= all_names);
            assert forall|k: int| 0 <= k < r@.generators.len() implies (
            #[trigger] r@.generators[k]).wf() by {
                assert(r@.generators[k] == generators@[k]@);
            }
        }
        Some(r)
    }

    /// Sets whether there is an incident.
    pub fn set_incident_mode(&mut self, incident: bool)
        ensures
            final(self)@ == (DataGeneratorView { incident, ..old(self)@ }),
    {
        self.incident_mode = incident;
    }

    /// The next event; none where a field stands in the way of another, which is to hold
    /// fields of its own.
    pub fn generate_event(&mut self, now: &str) -> (r: Option<Json>)
        requires
            old(self)@.wf(),
        ensures
            match r {
                Some(event) => old(self)@.next_event(now@) == Some((event.doc(), final(self)@)),
                None => old(self)@.next_event(now@) is None,
            },
            final(self)@.wf(),
    {
        let ghost g = self@;
        let mut event = Json::object();
        let mut i: usize = 0;
        while i < self.names.len()
            invariant
                i <= self.names@.len(),
                g == old(self)@,
                g.wf(),
                self@ == (DataGeneratorView { course: self@.course, ..g }),
                g.event_upto(now@, i as int) == Some((event.doc(), self@.course)),
            decreases self.names@.len() - i,
        {
            proof {
                assert(g.generators[i as int] == self.generators@[i as int]@);
                assert(g.names[i as int] == self.names@[i as int]@);
            }
            let value = generate_field_value(
                &self.generators[i],
                &mut self.rng,
                self.incident_mode,
                &event,
                now,
            );
            match value {
                Some(v) => match events::set_nested_field(event, self.names[i].as_str(), v) {
                    Some(next) => {
                        event = next;
                    },
                    None => {
                        proof {
                            events_none(g, now@, i + 1, g.names.len() as int);
                        }
                        return None;
                    },
                },
                None => {},
            }
            i += 1;
        }
        Some(event)
    }

    /// The next events, one for each time; none where a field stands in the way of another.
    pub fn generate_batch(&mut self, nows: &Vec<String>) -> (r: Option<Vec<Json>>)
        requires
            old(self)@.wf(),
        ensures
            match r {
                Some(batch) => old(self)@.next_events(text::views(nows@), nows@.len() as int)
                    == Some((model::vmap(batch@), final(self)@)),
                None => old(self)@.next_events(text::views(nows@), nows@.len() as int) is None,
            },
            final(self)@.wf(),
    {
        let ghost g = self@;
        let mut out: Vec<Json> = Vec::new();
        let mut i: usize = 0;
        assert(model::vmap(out@) =~= Seq::<Doc>::empty());
        while i < nows.len()
            invariant
                i <= nows@.len(),
                g == old(self)@,
                self@.wf(),
                g.next_events(text::views(nows@), i as int) == Some(
                    (model::vmap(out@), self@),
                ),
            decreases nows@.len() - i,
        {
            broadcast use model::vmap_push;

            assert(text::views(nows@)[i as int] == nows@[i as int]@);
            match self.generate_event(nows[i].as_str()) {
                Some(event) => {
                    out.push(event);
                },
                None => {
                    proof {
                        batch_none(g, text::views(nows@), i + 1, nows@.len() as int);
                    }
                    return None;
                },
            }
            i += 1;
        }
        Some(out)
    }
}

/// What a generator is asked for: an event in the mode of an incident or not, at a time.
pub struct Asked {
    pub incident: bool,
    pub now: Seq<char>,
}

impl DataGeneratorView {
    /// Some field is the time of the event.
    pub open spec fn tells_time(self) -> bool {
        exists|k: int| 0 <= k < self.generators.len() && #[trigger] self.generators[k] is Timestamp
    }

    /// The events that the generator gives to the first `n` that it is asked for, and where it
    /// is then.
    pub open spec fn answers(self, asked: Seq<Asked>, n: int) -> Option<
        (Seq<Doc>, DataGeneratorView),
    >
        decreases n,
    {
        if n <= 0 {
            Some((Seq::empty(), self))
        } else {
            match self.answers(asked, n - 1) {
                None => None,
                Some((before, g)) => match (DataGeneratorView {
                    incident: asked[n - 1].incident,
                    ..g
                }).next_event(asked[n - 1].now) {
                    Some((event, next)) => Some((before.push(event), next)),
                    None => None,
                },
            }
        }
    }
}

proof fn time_is_told_or_not(g: DataGeneratorView, one: Seq<char>, other: Seq<char>, n: int)
    requires
        !g.tells_time(),
        0 <= n <= g.generators.len(),
    ensures
        g.event_upto(one, n) == g.event_upto(other, n),
    decreases n,
{
    if n > 0 {
        time_is_told_or_not(g, one, other, n - 1);
        assert(!(g.generators[n - 1] is Timestamp));
    }
}

proof fn answers_keep_the_fields(g: DataGeneratorView, asked: Seq<Asked>, n: int)
    ensures
        g.answers(asked, n) matches Some((_, h)) ==> h.names == g.names && h.generators
            == g.generators,
    decreases n,
{
    if n > 0 {
        answers_keep_the_fields(g, asked, n - 1);
    }
}

proof fn same_answers(g: DataGeneratorView, one: Seq<Asked>, other: Seq<Asked>, n: int)
    requires
        g.names.len() == g.generators.len(),
        0 <= n <= one.len(),
        one.len() == other.len(),
        forall|i: int| 0 <= i < one.len() ==> (#[trigger] one[i]).incident == other[i].incident,
        g.tells_time() ==> forall|i: int|
            0 <= i < one.len() ==> (#[trigger] one[i]).now == other[i].now,
    ensures
        g.answers(one, n) == g.answers(other, n),
    decreases n,
{
    if n > 0 {
        same_answers(g, one, other, n - 1);
        answers_keep_the_fields(g, one, n - 1);
        assert(one[n - 1].incident == other[n - 1].incident);
        if let Some((_, before)) = g.answers(one, n - 1) {
            let h = DataGeneratorView { incident: one[n - 1].incident, ..before };
            assert(h.tells_time() == g.tells_time());
            if !g.tells_time() {
                time_is_told_or_not(h, one[n - 1].now, other[n - 1].now, h.names.len() as int);
            } else {
                assert(one[n - 1].now == other[n - 1].now);
            }
        }
    }
}

/// Two generators with the same schema, seed and index give the same events, whenever an
/// incident comes and goes; and where no field is the time of the event, whatever the times.
pub proof fn the_same_seed_gives_the_same_events(
    schema: SchemaView,
    run_seed: u64,
    worker_index: u32,
    one: DataGenerator,
    other: DataGenerator,
    asked: Seq<Asked>,
    again: Seq<Asked>,
)
    requires
        DataGeneratorView::start(schema, run_seed, worker_index) == Some(one@),
        DataGeneratorView::start(schema, run_seed, worker_index) == Some(other@),
        asked.len() == again.len(),
        forall|i: int| 0 <= i < asked.len() ==> (#[trigger] asked[i]).incident == again[i].incident,
        one@.tells_time() ==> forall|i: int|
            0 <= i < asked.len() ==> (#[trigger] asked[i]).now == again[i].now,
    ensures
        one@.answers(asked, asked.len() as int) == other@.answers(again, again.len() as int),
{
    generators_have_names(schema.fields, schema.fields.len() as int);
    same_answers(one@, asked, again, asked.len() as int);
}

proof fn generators_have_names(f: Seq<FieldView>, n: int)
    requires
        0 <= n <= f.len(),
    ensures
        generators_upto(f, n) matches Some(g) ==> g.len() == n,
    decreases n,
{
    if n > 0 {
        generators_have_names(f, n - 1);
    }
}

} // verus!
