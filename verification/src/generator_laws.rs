//! What generated events are like: every value that may be drawn is drawn by its own number,
//! templates are filled from the event, and every field stands where it belongs.
use vstd::prelude::*;
use vstd::string::*;
use crate::chance;
use crate::chance::{Course, Request};
use crate::events;
use crate::fields;
use crate::fields::{GeneratorView, Spread, WeightedView};
use crate::generator;
use crate::generator::{DataGeneratorView, FRACTIONS};
use crate::json::Doc;
use crate::model;
use crate::scenario::FieldView;
use crate::text;

verus! {

// ---------------------------------------------------------------------------
// Lists
// ---------------------------------------------------------------------------

/// A field with a list of values has the one whose place is drawn, so that each of them can
/// come up; the source of chance is asked once, for a place of the list.
pub proof fn every_listed_value_can_come_up(
    values: Seq<Seq<char>>,
    k: int,
    incident: bool,
    event: Doc,
    now: Seq<char>,
    c: Course,
)
    requires
        0 <= k < values.len() <= u64::MAX,
        chance::between64(c, 0, (values.len() - 1) as u64) == k,
    ensures
        ({
            let (v, after) = generator::made(
                GeneratorView::StaticEnum { values },
                incident,
                event,
                now,
                c,
            );
            &&& v == Some(Doc::Text(values[k]))
            &&& after.seed == c.seed
            &&& after.asked == c.asked.push(Request::Between64(0, (values.len() - 1) as u64))
        }),
{
}

/// The text has no placeholder.
pub open spec fn is_plain(t: Seq<char>) -> bool {
    forall|i: int| 0 <= i < t.len() ==> #[trigger] t[i] != '{'
}

/// A message is made from the template of the event's level whose place is drawn: each of them
/// can come up, and one without a placeholder is the message as it stands.
pub proof fn every_template_can_come_up(
    templates: Seq<(Seq<char>, Seq<Seq<char>>)>,
    level: Seq<char>,
    list: Seq<Seq<char>>,
    k: int,
    incident: bool,
    event: Doc,
    now: Seq<char>,
    c: Course,
)
    requires
        model::find(templates, level) == Some(list),
        events::field_text(event, "level"@) == Some(level) || (events::field_text(
            event,
            "level"@,
        ) is None && level == "INFO"@),
        0 <= k < list.len() <= u64::MAX,
        chance::between64(c, 0, (list.len() - 1) as u64) == k,
        is_plain(list[k]),
    ensures
        generator::made(GeneratorView::Template { templates }, incident, event, now, c).0 == Some(
            Doc::Text(list[k]),
        ),
{
    plain_is_kept(list[k], event, c.after(Request::Between64(0, (list.len() - 1) as u64)));
}

proof fn no_brace(t: Seq<char>, i: int)
    requires
        is_plain(t),
        0 <= i,
    ensures
        text::first_at(t, "{"@, i) is None,
    decreases t.len() - i + 1,
{
    reveal_strlit("{");
    if i + 1 <= t.len() {
        assert(t[i] != '{');
        if text::occurs_at(t, "{"@, i) {
            assert(t.subrange(i, i + 1)[0] == t[i]);
        }
        no_brace(t, i + 1);
    }
}

proof fn plain_is_kept(t: Seq<char>, event: Doc, c: Course)
    requires
        is_plain(t),
    ensures
        forall|rounds: nat| #[trigger] generator::filled(t, event, c, rounds) == (t, c),
{
    no_brace(t, 0);
}

proof fn first_char(t: Seq<char>, needle: Seq<char>, ch: char, from: int, i: int)
    requires
        needle == seq![ch],
        0 <= from <= i < t.len(),
        t[i] == ch,
        forall|k: int| from <= k < i ==> #[trigger] t[k] != ch,
    ensures
        text::first_at(t, needle, from) == Some(i),
    decreases i - from,
{
    if from < i {
        assert(t[from] != ch);
        if text::occurs_at(t, needle, from) {
            assert(t.subrange(from, from + 1)[0] == t[from]);
        }
        first_char(t, needle, ch, from + 1, i);
    } else {
        assert(t.subrange(i, i + 1) =~= needle);
    }
}

/// The name is none of those whose placeholders have a meaning of their own.
pub open spec fn is_field_name(name: Seq<char>) -> bool {
    &&& name != "retry_count"@
    &&& name != "pool_pct"@
    &&& name != "client_id"@
    &&& name != "query_time"@
    &&& name != "line"@
    &&& name != "method"@
    &&& name != "args_summary"@
    &&& forall|i: int| 0 <= i < name.len() ==> #[trigger] name[i] != '}'
}

/// A placeholder that names a field of the event is replaced by the field's text, and the rest
/// of the template stays; nothing is drawn for it.
pub proof fn fields_fill_their_placeholders(
    before: Seq<char>,
    name: Seq<char>,
    behind: Seq<char>,
    value: Seq<char>,
    event: Doc,
    c: Course,
    rounds: nat,
)
    requires
        is_plain(before),
        is_plain(behind),
        is_plain(value),
        is_field_name(name),
        events::field(event, name) == Some(Doc::Text(value)),
        rounds > 0,
    ensures
        generator::filled(before + seq!['{'] + name + seq!['}'] + behind, event, c, rounds) == (
            before + value + behind,
            c,
        ),
{
    let t = before + seq!['{'] + name + seq!['}'] + behind;
    let a = before.len() as int;
    let b = a + 1 + name.len();
    reveal_strlit("{");
    reveal_strlit("}");
    assert("{"@ =~= seq!['{']);
    assert("}"@ =~= seq!['}']);
    assert forall|k: int| 0 <= k < a implies #[trigger] t[k] != '{' by {
        assert(t[k] == before[k]);
    }
    first_char(t, "{"@, '{', 0, a);
    assert forall|k: int| a <= k < b implies #[trigger] t[k] != '}' by {
        if k > a {
            assert(t[k] == name[k - a - 1]);
        }
    }
    first_char(t, "}"@, '}', a, b);
    assert(t.subrange(a + 1, b) =~= name);
    let next = before + value + behind;
    assert(generator::with_replaced(t, (a, b), value) =~= next);
    assert forall|k: int| 0 <= k < next.len() implies #[trigger] next[k] != '{' by {
        if k < a {
            assert(next[k] == before[k]);
        } else if k < a + value.len() {
            assert(next[k] == value[k - a]);
        } else {
            assert(next[k] == behind[k - a - value.len()]);
        }
    }
    plain_is_kept(next, event, c);
    assert(generator::filled(next, event, c, (rounds - 1) as nat) == (next, c));
}

/// A placeholder that stands for a number is replaced by the number that is drawn for it.
pub proof fn numbers_fill_their_placeholders(event: Doc, drawn: u32)
    ensures
        generator::replacement("retry_count"@, event, drawn) == text::decimal(drawn as nat),
        generator::replacement("pool_pct"@, event, drawn) == text::decimal(drawn as nat),
        generator::replacement("query_time"@, event, drawn) == text::decimal(drawn as nat),
        generator::replacement("line"@, event, drawn) == text::decimal(drawn as nat),
        generator::replacement("client_id"@, event, drawn) == "client-"@ + text::decimal(
            drawn as nat,
        ),
{
    reveal_strlit("retry_count");
    reveal_strlit("pool_pct");
    reveal_strlit("query_time");
    reveal_strlit("line");
    reveal_strlit("client_id");
    assert("client_id"@.len() == 9 && "retry_count"@.len() == 11 && "pool_pct"@.len() == 8
        && "query_time"@.len() == 10 && "line"@.len() == 4);
}

// ---------------------------------------------------------------------------
// Weights
// ---------------------------------------------------------------------------

/// During an incident a field is drawn by the weights of the incident, else by those of the
/// baseline; it has the value at the place that is drawn.
pub proof fn weights_follow_the_incident(
    baseline: WeightedView,
    during: WeightedView,
    k: int,
    j: int,
    event: Doc,
    now: Seq<char>,
    c: Course,
)
    requires
        0 <= k < baseline.values.len(),
        0 <= j < during.values.len(),
        chance::choice(c, baseline.weights) == k,
        chance::choice(c, during.weights) == j,
        text::signed(baseline.values[k]) is None,
        text::signed(during.values[j]) is None,
    ensures
        ({
            let g = GeneratorView::WeightedEnum { baseline, incident: during };
            &&& generator::made(g, false, event, now, c).0 == Some(Doc::Text(baseline.values[k]))
            &&& generator::made(g, true, event, now, c).0 == Some(Doc::Text(during.values[j]))
        }),
{
}

/// A value that reads as a number is one.
pub proof fn numbers_are_numbers(
    values: Seq<Seq<char>>,
    weights: Seq<u128>,
    k: int,
    n: int,
    c: Course,
)
    requires
        0 <= k < values.len(),
        chance::choice(c, weights) == k,
        text::signed(values[k]) == Some(n),
    ensures
        forall|incident: bool, event: Doc, now: Seq<char>|
            (#[trigger] generator::made(
                GeneratorView::StaticWeightedEnum { choices: WeightedView { values, weights } },
                incident,
                event,
                now,
                c,
            )).0 == Some(Doc::Int(n)),
{
}

/// Each member of a table of weights is a value, with its own weight.
pub proof fn tables_give_values_their_weights(d: Doc, k: int, n: nat)
    requires
        d is Object,
        0 <= k < d->Object_0.len(),
        d->Object_0[k].1 == Doc::Uint(n),
        fields::choices(d) is Some,
    ensures
        ({
            let w = fields::choices(d)->0;
            &&& w.values.len() == d->Object_0.len()
            &&& w.weights.len() == d->Object_0.len()
            &&& w.values[k] == d->Object_0[k].0
            &&& w.weights[k] == n * fields::WEIGHT_ONE
        }),
{
    let m = d->Object_0;
    let w = fields::weights(m);
    assert(w[k] == n * fields::WEIGHT_ONE);
    sum_bounds_items(w, k);
}

proof fn sum_bounds_items(w: Seq<int>, k: int)
    requires
        forall|i: int| 0 <= i < w.len() ==> 0 <= #[trigger] w[i],
        0 <= k < w.len(),
    ensures
        w[k] <= model::sum(w),
    decreases w.len(),
{
    if k < w.len() - 1 {
        let front = w.drop_last();
        assert forall|i: int| 0 <= i < front.len() implies 0 <= #[trigger] front[i] by {
            assert(front[i] == w[i]);
        }
        sum_bounds_items(front, k);
        assert(0 <= w[w.len() - 1]);
    } else {
        model::sum_nonneg(w.drop_last());
    }
}

/// The tables `baseline` and `incident` of a field's configuration are those from which it is
/// drawn before and during an incident.
pub proof fn weights_are_those_configured(f: FieldView, before: Doc, during: Doc)
    requires
        f.generator == "weighted_enum"@,
        f.config.get("baseline"@) == Some(before),
        f.config.get("incident"@) == Some(during),
    ensures
        match (fields::choices(before), fields::choices(during)) {
            (Some(a), Some(b)) => fields::generator(f) == Some(
                GeneratorView::WeightedEnum { baseline: a, incident: b },
            ),
            _ => fields::generator(f) is None,
        },
{
    words_differ();
}

proof fn words_differ()
    ensures
        "weighted_enum"@ != "now"@,
        "enum"@ != "now"@,
        "enum"@ != "weighted_enum"@,
        "pattern"@ != "now"@,
        "pattern"@ != "weighted_enum"@,
        "pattern"@ != "enum"@,
        "hex"@ != "now"@,
        "hex"@ != "weighted_enum"@,
        "hex"@ != "enum"@,
        "hex"@ != "pattern"@,
        "distribution"@ != "now"@,
        "distribution"@ != "weighted_enum"@,
        "distribution"@ != "enum"@,
        "distribution"@ != "pattern"@,
        "distribution"@ != "hex"@,
        "template"@ != "now"@,
        "template"@ != "weighted_enum"@,
        "template"@ != "enum"@,
        "template"@ != "pattern"@,
        "template"@ != "hex"@,
        "template"@ != "distribution"@,
{
    reveal_strlit("now");
    reveal_strlit("weighted_enum");
    reveal_strlit("enum");
    reveal_strlit("pattern");
    reveal_strlit("hex");
    reveal_strlit("distribution");
    reveal_strlit("template");
    assert("now"@.len() == 3 && "weighted_enum"@.len() == 13 && "enum"@.len() == 4
        && "pattern"@.len() == 7 && "hex"@.len() == 3 && "distribution"@.len() == 12
        && "template"@.len() == 8);
    assert("now"@[0] != "hex"@[0]);
}

// ---------------------------------------------------------------------------
// Numbers and identifiers
// ---------------------------------------------------------------------------

/// A number of a distribution is the mean and a part of the deviation, as great as the drawn
/// word is among all, without its fraction; those of the incident hold during one.
pub proof fn numbers_lie_above_the_mean(s: Spread, incident: bool, word: u64)
    requires
        ({
            let mean = if incident { s.incident_mean } else { s.baseline_mean };
            let deviation = if incident { s.incident_stddev } else { s.baseline_stddev };
            let low = if incident { s.incident_min } else { s.min };
            let high = if incident { s.incident_max } else { s.max };
            &&& 0 <= mean
            &&& 0 <= deviation
            &&& low <= mean
            &&& mean + deviation <= high
            &&& high <= fields::GREATEST - 1
        }),
    ensures
        ({
            let mean = if incident { s.incident_mean } else { s.baseline_mean };
            let deviation = if incident { s.incident_stddev } else { s.baseline_stddev };
            let drawn = mean * FRACTIONS + deviation * (word as int / 2048);
            let unit = 1_000_000_000_000_000_000 * FRACTIONS;
            let v = generator::spread_value(s, incident, word);
            v * unit <= drawn < (v + 1) * unit
        }),
{
    let mean = if incident { s.incident_mean as int } else { s.baseline_mean as int };
    let deviation = if incident { s.incident_stddev as int } else { s.baseline_stddev as int };
    let low = if incident { s.incident_min as int } else { s.min as int };
    let high = if incident { s.incident_max as int } else { s.max as int };
    let f = FRACTIONS as int;
    let part = word as int / 2048;
    let drawn = mean * f + deviation * part;
    assert(0 <= part < f);
    assert(low * f <= drawn <= high * f && 0 <= drawn) by (nonlinear_arith)
        requires
            drawn == mean * f + deviation * part,
            0 <= part < f,
            0 <= mean,
            0 <= deviation,
            low <= mean,
            mean + deviation <= high,
    ;
    let unit = 1_000_000_000_000_000_000 * f;
    let q = drawn / unit;
    vstd::arithmetic::div_mod::lemma_fundamental_div_mod(drawn, unit);
    assert(q * unit <= drawn < (q + 1) * unit) by (nonlinear_arith)
        requires
            drawn == unit * q + drawn % unit,
            0 <= drawn % unit < unit,
    ;
    assert(drawn < 9_223_372_036_854_775_808 * unit) by (nonlinear_arith)
        requires
            drawn <= high * f,
            high <= 9_223_372_036_854_775_808_000_000_000_000_000_000 - 1,
            unit == 1_000_000_000_000_000_000 * f,
            f > 0,
    ;
    assert(q <= i64::MAX) by (nonlinear_arith)
        requires
            q * unit <= drawn,
            drawn < 9_223_372_036_854_775_808 * unit,
            unit > 0,
    ;
    assert(0 <= q) by (nonlinear_arith)
        requires
            drawn < (q + 1) * unit,
            0 <= drawn,
            unit > 0,
    ;
}

/// An identifier has as many characters as it should, and each is the drawn hexadecimal digit.
pub proof fn identifiers_are_drawn_digits(
    length: u64,
    i: int,
    event: Doc,
    now: Seq<char>,
    c: Course,
)
    requires
        0 <= i < length,
        chance::between64(generator::course_after_hex(c, i as nat), 0, 15) < 16,
    ensures
        generator::made(GeneratorView::Hex { length }, false, event, now, c).0 matches Some(
            Doc::Text(t),
        ) && t.len() == length && t[i] == "0123456789abcdef"@[chance::between64(
            generator::course_after_hex(c, i as nat),
            0,
            15,
        ) as int],
        generator::course_after_hex(c, i as nat).asked.len() == c.asked.len() + i,
{
    reveal_strlit("0123456789abcdef");
    digits_are_asked_for(c, i as nat);
}

proof fn digits_are_asked_for(c: Course, n: nat)
    ensures
        generator::course_after_hex(c, n).asked.len() == c.asked.len() + n,
    decreases n,
{
    if n > 0 {
        digits_are_asked_for(c, (n - 1) as nat);
    }
}

/// A field that depends on another is there exactly where the other has one of the values.
pub proof fn conditions_decide(
    field: Seq<char>,
    values: Seq<Seq<char>>,
    outcomes: Option<WeightedView>,
    incident: bool,
    event: Doc,
    now: Seq<char>,
    c: Course,
)
    requires
        events::field_text(event, field) is Some,
    ensures
        generator::made(
            GeneratorView::Conditional {
                condition_field: field,
                condition_values: values,
                outcomes,
            },
            incident,
            event,
            now,
            c,
        ).0 is Some <==> values.contains(events::field_text(event, field)->0),
{
}

// ---------------------------------------------------------------------------
// Whole events
// ---------------------------------------------------------------------------

/// Every field that was made is in the event, under its name and with its value, where no later
/// field is placed over it.
pub proof fn every_field_is_in_the_event(
    g: DataGeneratorView,
    now: Seq<char>,
    i: int,
    n: int,
    value: Doc,
)
    requires
        0 <= i < n <= g.names.len(),
        g.event_upto(now, n) is Some,
        g.event_upto(now, i) matches Some((event, c)) && generator::made(
            g.generators[i],
            g.incident,
            event,
            now,
            c,
        ).0 == Some(value),
        forall|j: int|
            i < j < n ==> #[trigger] events::parted(
                events::parts(g.names[j]),
                events::parts(g.names[i]),
                0,
            ),
        forall|j: int| 0 <= j < n ==> (#[trigger] events::parts(g.names[j])).len() > 0,
    ensures
        events::field((g.event_upto(now, n)->0).0, g.names[i]) == Some(value),
    decreases n,
{
    let path = events::parts(g.names[i]);
    if n == i + 1 {
        let event = (g.event_upto(now, i)->0).0;
        assert(events::parts(g.names[i]).len() > 0);
        events::what_is_set_is_read(event, path, 0, value);
    } else {
        assert(g.event_upto(now, n - 1) is Some);
        every_field_is_in_the_event(g, now, i, n - 1, value);
        let (event, c) = g.event_upto(now, n - 1)->0;
        let made = generator::made(g.generators[n - 1], g.incident, event, now, c).0;
        if made is Some {
            let other = events::parts(g.names[n - 1]);
            assert(events::parted(other, path, 0));
            events::other_fields_stay(event, other, 0, made->0, path);
        }
    }
}

/// The time of the event is the time at which it was made.
pub proof fn times_are_told(incident: bool, event: Doc, now: Seq<char>, c: Course)
    ensures
        generator::made(GeneratorView::Timestamp, incident, event, now, c) == (
            Some(Doc::Text(now)),
            c,
        ),
{
}

/// A batch has an event for each time, in order, each made where the one before has left the
/// source of chance.
pub proof fn batches_are_events_one_by_one(
    g: DataGeneratorView,
    nows: Seq<Seq<char>>,
    n: int,
    i: int,
)
    requires
        0 <= i < n <= nows.len(),
        g.next_events(nows, n) is Some,
    ensures
        (g.next_events(nows, n)->0).0.len() == n,
        g.next_events(nows, i) is Some,
        (g.next_events(nows, i)->0).1.next_event(nows[i]) matches Some((event, _))
            && (g.next_events(nows, n)->0).0[i] == event,
    decreases n,
{
    batch_length(g, nows, n - 1);
    if i < n - 1 {
        batches_are_events_one_by_one(g, nows, n - 1, i);
    }
}

proof fn batch_length(g: DataGeneratorView, nows: Seq<Seq<char>>, n: int)
    requires
        0 <= n,
    ensures
        g.next_events(nows, n) matches Some((batch, _)) ==> batch.len() == n,
    decreases n,
{
    if n > 0 {
        batch_length(g, nows, n - 1);
    }
}

} // verus!
