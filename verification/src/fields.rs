//! How the values of a field are made, as its configuration says.
use vstd::prelude::*;
use vstd::string::*;
use crate::chance;
use crate::json::{Doc, Json};
use crate::model;
use crate::scenario::{FieldDef, FieldView};
use crate::text;

verus! {

/// The decimal place to which weights and the numbers of distributions are read.
pub const NUMBER_PLACES: u32 = 18;

/// A weight of one, in units of that place.
pub const WEIGHT_ONE: u128 = 1_000_000_000_000_000_000;

/// The greatest number that a distribution works with, in units of that place: one that no
/// 64-bit number with a sign exceeds.
pub const GREATEST: i128 = 9_223_372_036_854_775_808_000_000_000_000_000_000;

/// Values, and how likely each of them is.
pub struct Weighted {
    pub values: Vec<String>,
    /// The weights, in units of the decimal place to which they are read.
    pub weights: Vec<u128>,
}

/// A list of texts.
pub struct Lines {
    pub lines: Vec<String>,
}

/// How numbers are spread, in units of the decimal place to which they are read.
#[derive(Clone, Copy, PartialEq, Eq, Structural, Debug)]
pub struct Spread {
    pub baseline_mean: i128,
    pub baseline_stddev: i128,
    pub incident_mean: i128,
    pub incident_stddev: i128,
    pub min: i128,
    pub max: i128,
    pub incident_min: i128,
    pub incident_max: i128,
}

/// How numbers are spread at a time: mean, deviation and bounds, in the same units.
#[derive(Clone, Copy, PartialEq, Eq, Structural, Debug)]
pub struct Range {
    pub mean: i128,
    pub stddev: i128,
    pub min: i128,
    pub max: i128,
}

/// How the values of a field are made.
pub enum FieldGenerator {
    /// The time.
    Timestamp,
    /// One of some values, with other weights during an incident.
    WeightedEnum { baseline: Weighted, incident: Weighted },
    /// One of some values.
    StaticWeightedEnum { choices: Weighted },
    /// A name made of the event's service and a number.
    Pattern { pattern: String, range_min: u32, range_max: u32 },
    /// Hexadecimal digits.
    Hex { length: u64 },
    /// A number.
    Distribution { spread: Spread },
    /// A text, by the event's level.
    Template { templates: Vec<(String, Lines)> },
    /// One of some values, where another field has one of some values; without any values
    /// of its own, a word for that.
    Conditional { condition_field: String, condition_values: Vec<String>, outcomes: Option<Weighted> },
    /// Something that follows from other fields.
    Derived { expression: String },
    /// One of some values, all equally likely.
    StaticEnum { values: Vec<String> },
    /// A word for what is not known.
    Fallback,
}

pub struct WeightedView {
    pub values: Seq<Seq<char>>,
    pub weights: Seq<u128>,
}

pub enum GeneratorView {
    Timestamp,
    WeightedEnum { baseline: WeightedView, incident: WeightedView },
    StaticWeightedEnum { choices: WeightedView },
    Pattern { pattern: Seq<char>, range_min: u32, range_max: u32 },
    Hex { length: u64 },
    Distribution { spread: Spread },
    Template { templates: Seq<(Seq<char>, Seq<Seq<char>>)> },
    Conditional {
        condition_field: Seq<char>,
        condition_values: Seq<Seq<char>>,
        outcomes: Option<WeightedView>,
    },
    Derived { expression: Seq<char> },
    StaticEnum { values: Seq<Seq<char>> },
    Fallback,
}

impl View for Weighted {
    type V = WeightedView;

    open spec fn view(&self) -> WeightedView {
        WeightedView { values: text::views(self.values@), weights: self.weights@ }
    }
}

impl View for Lines {
    type V = Seq<Seq<char>>;

    open spec fn view(&self) -> Seq<Seq<char>> {
        text::views(self.lines@)
    }
}

/// The choices that optional ones stand for.
pub open spec fn opt_choices(w: Option<Weighted>) -> Option<WeightedView> {
    match w {
        Some(x) => Some(x@),
        None => None,
    }
}

impl View for FieldGenerator {
    type V = GeneratorView;

    open spec fn view(&self) -> GeneratorView {
        match *self {
            FieldGenerator::Timestamp => GeneratorView::Timestamp,
            FieldGenerator::WeightedEnum { baseline, incident } => GeneratorView::WeightedEnum {
                baseline: baseline@,
                incident: incident@,
            },
            FieldGenerator::StaticWeightedEnum { choices } => GeneratorView::StaticWeightedEnum {
                choices: choices@,
            },
            FieldGenerator::Pattern { pattern, range_min, range_max } => GeneratorView::Pattern {
                pattern: pattern@,
                range_min,
                range_max,
            },
            FieldGenerator::Hex { length } => GeneratorView::Hex { length },
            FieldGenerator::Distribution { spread } => GeneratorView::Distribution { spread },
            FieldGenerator::Template { templates } => GeneratorView::Template {
                templates: model::vmap(templates@),
            },
            FieldGenerator::Conditional { condition_field, condition_values, outcomes } =>
                GeneratorView::Conditional {
                condition_field: condition_field@,
                condition_values: text::views(condition_values@),
                outcomes: opt_choices(outcomes),
            },
            FieldGenerator::Derived { expression } => GeneratorView::Derived {
                expression: expression@,
            },
            FieldGenerator::StaticEnum { values } => GeneratorView::StaticEnum {
                values: text::views(values@),
            },
            FieldGenerator::Fallback => GeneratorView::Fallback,
        }
    }
}

impl WeightedView {
    /// There is a weight for each value, and one can be chosen.
    pub open spec fn wf(self) -> bool {
        self.values.len() == self.weights.len() && chance::can_choose_finely(
            self.weights,
        )
    }
}

impl GeneratorView {
    /// Values can be made: there is something to choose from, and no range is empty.
    pub open spec fn wf(self) -> bool {
        match self {
            GeneratorView::WeightedEnum { baseline, incident } => baseline.wf() && incident.wf(),
            GeneratorView::StaticWeightedEnum { choices } => choices.wf(),
            GeneratorView::Pattern { range_min, range_max, .. } => range_min <= range_max,
            GeneratorView::Distribution { spread } => spread.wf(),
            GeneratorView::Conditional { outcomes, .. } => outcomes is Some ==> outcomes->0.wf(),
            _ => true,
        }
    }
}

impl Spread {
    /// How numbers are spread, during an incident or not.
    pub open spec fn range(self, incident: bool) -> Range {
        if incident {
            Range {
                mean: self.incident_mean,
                stddev: self.incident_stddev,
                min: self.incident_min,
                max: self.incident_max,
            }
        } else {
            Range {
                mean: self.baseline_mean,
                stddev: self.baseline_stddev,
                min: self.min,
                max: self.max,
            }
        }
    }

    /// How numbers are spread, during an incident or not.
    pub fn range_of(&self, incident: bool) -> (r: Range)
        ensures
            r == self.range(incident),
    {
        if incident {
            Range {
                mean: self.incident_mean,
                stddev: self.incident_stddev,
                min: self.incident_min,
                max: self.incident_max,
            }
        } else {
            Range {
                mean: self.baseline_mean,
                stddev: self.baseline_stddev,
                min: self.min,
                max: self.max,
            }
        }
    }

    /// No range is empty, and no number is beyond the greatest.
    pub open spec fn wf(self) -> bool {
        self.range(true).wf() && self.range(false).wf()
    }
}

impl Range {
    /// The range is not empty, and no number is beyond the greatest.
    pub open spec fn wf(self) -> bool {
        &&& self.min <= self.max
        &&& -GREATEST <= self.min <= GREATEST
        &&& -GREATEST <= self.max <= GREATEST
        &&& -GREATEST <= self.mean <= GREATEST
        &&& -GREATEST <= self.stddev <= GREATEST
    }
}

// ---------------------------------------------------------------------------
// Numbers and texts of a configuration
// ---------------------------------------------------------------------------

/// The number that a value is, in units of the decimal place to which it is read, where it is
/// one.
pub open spec fn number(d: Doc) -> Option<int> {
    match d {
        Doc::Uint(n) => Some(n as int * 1_000_000_000_000_000_000),
        Doc::Int(n) => Some(n * 1_000_000_000_000_000_000),
        Doc::Number(t) => text::scaled(t, NUMBER_PLACES as int, GREATEST as nat),
        _ => None,
    }
}

/// The number of a member, or another; none is greater than the greatest.
pub open spec fn number_or(d: Doc, key: Seq<char>, other: int) -> int {
    let n = match d.get(key) {
        Some(v) => match number(v) {
            Some(n) => n,
            None => other,
        },
        None => other,
    };
    if n > GREATEST {
        GREATEST as int
    } else if n < -GREATEST {
        -GREATEST as int
    } else {
        n
    }
}

/// The text of a member, or another.
pub open spec fn text_or(d: Doc, key: Seq<char>, other: Seq<char>) -> Seq<char> {
    match d.get(key) {
        Some(v) => match v.as_text() {
            Some(t) => t,
            None => other,
        },
        None => other,
    }
}

/// The natural number of a member, or another.
pub open spec fn uint_or(d: Doc, key: Seq<char>, other: nat) -> nat {
    match d.get(key) {
        Some(v) => match v.as_uint() {
            Some(n) => n,
            None => other,
        },
        None => other,
    }
}

/// A member, or another value.
pub open spec fn member_or(d: Doc, key: Seq<char>, other: Doc) -> Doc {
    match d.get(key) {
        Some(v) => v,
        None => other,
    }
}

/// The texts of an array, without what is none.
pub open spec fn texts_of(d: Doc) -> Seq<Seq<char>> {
    match d {
        Doc::Array(v) => texts_upto(v, v.len() as int),
        _ => Seq::empty(),
    }
}

/// The texts among the first `n` items.
pub open spec fn texts_upto(v: Seq<Doc>, n: int) -> Seq<Seq<char>>
    decreases n,
{
    if n <= 0 {
        Seq::empty()
    } else {
        match v[n - 1].as_text() {
            Some(t) => texts_upto(v, n - 1).push(t),
            None => texts_upto(v, n - 1),
        }
    }
}

fn number_in(d: &Json) -> (r: Option<i128>)
    ensures
        match r {
            Some(n) => number(d.doc()) == Some(n as int),
            None => number(d.doc()) is None,
        },
{
    match d {
        Json::Uint(n) => Some(*n as i128 * 1_000_000_000_000_000_000),
        Json::Int(n) => Some(*n as i128 * 1_000_000_000_000_000_000),
        Json::Number(t) => text::parse_scaled(t.as_str(), NUMBER_PLACES, GREATEST as u128),
        _ => None,
    }
}

fn number_in_or(d: &Json, key: &str, other: i128) -> (r: i128)
    ensures
        r == number_or(d.doc(), key@, other as int),
        -GREATEST <= r <= GREATEST,
{
    let n: i128 = match d.get(key) {
        Some(v) => match number_in(v) {
            Some(n) => n,
            None => other,
        },
        None => other,
    };
    if n > GREATEST {
        GREATEST
    } else if n < -GREATEST {
        -GREATEST
    } else {
        n
    }
}

fn text_in_or(d: &Json, key: &str, other: &str) -> (r: String)
    ensures
        r@ == text_or(d.doc(), key@, other@),
{
    match d.get(key) {
        Some(v) => match v.as_text() {
            Some(t) => text::owned(t),
            None => text::owned(other),
        },
        None => text::owned(other),
    }
}

pub(crate) fn uint_in_or(d: &Json, key: &str, other: u64) -> (r: u64)
    ensures
        r == uint_or(d.doc(), key@, other as nat),
{
    match d.get(key) {
        Some(v) => match v.as_uint() {
            Some(n) => n,
            None => other,
        },
        None => other,
    }
}

fn texts_in(d: &Json) -> (r: Vec<String>)
    ensures
        text::views(r@) == texts_of(d.doc()),
{
    let mut out: Vec<String> = Vec::new();
    assert(text::views(out@) =~= Seq::<Seq<char>>::empty());
    match d {
        Json::Array(v) => {
            proof {
                Json::doc_of_array(*v);
            }
            let ghost all = Seq::new(v@.len(), |i: int| v@[i].doc());
            let mut i: usize = 0;
            while i < v.len()
                invariant
                    i <= v@.len(),
                    all == Seq::new(v@.len(), |i: int| v@[i].doc()),
                    text::views(out@) == texts_upto(all, i as int),
                decreases v@.len() - i,
            {
                broadcast use model::views_push;

                assert(all[i as int] == v@[i as int].doc());
                match v[i].as_text() {
                    Some(t) => {
                        out.push(text::owned(t));
                    },
                    None => {},
                }
                i += 1;
            }
        },
        _ => {},
    }
    out
}

// ---------------------------------------------------------------------------
// Choices
// ---------------------------------------------------------------------------

/// The weight that a value stands for; what is no number stands for one.
pub open spec fn weight(d: Doc) -> int {
    match d {
        Doc::Uint(n) => n * WEIGHT_ONE,
        Doc::Int(n) => n * WEIGHT_ONE,
        Doc::Number(t) => match text::scaled(t, NUMBER_PLACES as int, text::MOST_UNITS as nat) {
            Some(n) => n,
            None => WEIGHT_ONE as int,
        },
        _ => WEIGHT_ONE as int,
    }
}

fn weight_in(d: &Json) -> (r: i128)
    ensures
        r == weight(d.doc()),
{
    let one: i128 = 1_000_000_000_000_000_000;
    match d {
        Json::Uint(n) => *n as i128 * one,
        Json::Int(n) => *n as i128 * one,
        Json::Number(t) => match text::parse_scaled(
            t.as_str(),
            NUMBER_PLACES,
            text::MOST_UNITS,
        ) {
            Some(n) => n,
            None => WEIGHT_ONE as i128,
        },
        _ => WEIGHT_ONE as i128,
    }
}

/// The members of an object.
pub open spec fn members(d: Doc) -> Seq<(Seq<char>, Doc)> {
    match d {
        Doc::Object(m) => m,
        _ => Seq::empty(),
    }
}

/// The weights of members.
pub open spec fn weights(m: Seq<(Seq<char>, Doc)>) -> Seq<int> {
    m.map_values(|e: (Seq<char>, Doc)| weight(e.1))
}

/// One value can be chosen by these weights: none is negative, their sum is not zero, and
/// it fits 128 bits.
pub open spec fn usable(w: Seq<int>) -> bool {
    &&& forall|k: int| 0 <= k < w.len() ==> 0 <= #[trigger] w[k]
    &&& 0 < model::sum(w) <= u128::MAX
}

/// The values that an object names, each with its weight; where it names none, a word for
/// what is not known. Nothing where the weights are not usable.
pub open spec fn choices(d: Doc) -> Option<WeightedView> {
    let m = members(d);
    if m.len() == 0 {
        Some(WeightedView { values: seq!["unknown"@], weights: seq![WEIGHT_ONE] })
    } else if usable(weights(m)) {
        Some(
            WeightedView {
                values: m.map_values(|e: (Seq<char>, Doc)| e.0),
                weights: weights(m).map_values(|w: int| w as u128),
            },
        )
    } else {
        None
    }
}

proof fn choices_are_wf(d: Doc)
    ensures
        choices(d) is Some ==> choices(d)->0.wf(),
{
    let m = members(d);
    if m.len() == 0 {
        let one = seq![WEIGHT_ONE].map_values(|w: u128| w as int);
        assert(one.drop_last() =~= Seq::<int>::empty());
        assert(model::sum(one) == WEIGHT_ONE) by {
            reveal_with_fuel(model::sum, 2);
        }
    } else if usable(weights(m)) {
        let w = weights(m);
        let back = w.map_values(|w: int| w as u128).map_values(|w: u128| w as int);
        assert forall|k: int| 0 <= k < w.len() implies back[k] == w[k] by {
            part_of_sum(w, k);
        }
        assert(back =~= w);
    }
}

proof fn part_of_sum(w: Seq<int>, k: int)
    requires
        0 <= k < w.len(),
        forall|i: int| 0 <= i < w.len() ==> 0 <= #[trigger] w[i],
    ensures
        0 <= w[k] <= model::sum(w),
{
    model::sum_prefix(w, k + 1);
    model::sum_take(w, k);
    model::sum_nonneg(w.take(k));
}

fn names_of(m: &Vec<(String, Json)>) -> (r: Vec<String>)
    ensures
        text::views(r@) == crate::json::members_of(m@).map_values(|e: (Seq<char>, Doc)| e.0),
{
    let ghost all = crate::json::members_of(m@).map_values(|e: (Seq<char>, Doc)| e.0);
    let mut out: Vec<String> = Vec::new();
    let mut i: usize = 0;
    assert(text::views(out@) =~= all.take(0));
    while i < m.len()
        invariant
            i <= m@.len(),
            all == crate::json::members_of(m@).map_values(|e: (Seq<char>, Doc)| e.0),
            text::views(out@) == all.take(i as int),
        decreases m@.len() - i,
    {
        broadcast use model::views_push, model::take_push;

        assert(all[i as int] == m@[i as int].0@);
        out.push(m[i].0.clone());
        i += 1;
    }
    assert(all.take(i as int) =~= all);
    out
}

fn weights_of(m: &Vec<(String, Json)>) -> (r: Option<Vec<u128>>)
    ensures
        match r {
            Some(w) => usable(weights(crate::json::members_of(m@))) && w@ == weights(
                crate::json::members_of(m@),
            ).map_values(|w: int| w as u128),
            None => !usable(weights(crate::json::members_of(m@))),
        },
{
    let ghost all = weights(crate::json::members_of(m@));
    let mut out: Vec<u128> = Vec::new();
    let mut sum: u128 = 0;
    let mut i: usize = 0;
    assert(all.take(0) =~= Seq::<int>::empty());
    while i < m.len()
        invariant
            i <= m@.len(),
            all == weights(crate::json::members_of(m@)),
            out@.len() == i,
            forall|k: int| 0 <= k < i ==> 0 <= #[trigger] all[k] <= u128::MAX,
            forall|k: int| 0 <= k < i ==> #[trigger] out@[k] == all[k] as u128,
            sum == model::sum(all.take(i as int)),
        decreases m@.len() - i,
    {
        let w: i128 = weight_in(&m[i].1);
        proof {
            assert(all[i as int] == w);
            model::sum_take(all, i as int);
            if usable(all) {
                model::sum_prefix(all, i + 1);
            }
        }
        if w < 0 || w as u128 > u128::MAX - sum {
            return None;
        }
        sum = sum + w as u128;
        out.push(w as u128);
        i += 1;
    }
    assert(all.take(i as int) =~= all);
    assert(out@ =~= all.map_values(|w: int| w as u128));
    if sum == 0 {
        None
    } else {
        Some(out)
    }
}

/// The values that an object names, each with its weight.
pub fn extract_weighted_values(d: &Json) -> (r: Option<Weighted>)
    ensures
        opt_choices(r) == choices(d.doc()),
        r is Some ==> r->0@.wf(),
{
    proof {
        choices_are_wf(d.doc());
    }
    match d {
        Json::Object(m) => {
            proof {
                Json::doc_of_object(*m);
            }
            if m.len() > 0 {
                return match weights_of(m) {
                    Some(weights) => Some(Weighted { values: names_of(m), weights }),
                    None => None,
                };
            }
        },
        _ => {},
    }
    let mut values: Vec<String> = Vec::new();
    values.push(text::owned("unknown"));
    let mut weights: Vec<u128> = Vec::new();
    weights.push(WEIGHT_ONE);
    assert(text::views(values@) =~= seq!["unknown"@]);
    assert(weights@ =~= seq![WEIGHT_ONE]);
    Some(Weighted { values, weights })
}

// ---------------------------------------------------------------------------
// Conditions
// ---------------------------------------------------------------------------

/// What stands between the brackets of a list.
pub open spec fn bracketed(s: Seq<char>) -> Seq<char> {
    text::without_trailing(text::without_prefixes(text::trimmed(s), "["@), ']')
}

/// The field and the values of a condition `field in [value, value]`; nothing of what is no
/// such condition.
pub open spec fn condition(c: Seq<char>) -> (Seq<char>, Seq<Seq<char>>) {
    match text::first_at(c, " in "@, 0) {
        None => (Seq::empty(), Seq::empty()),
        Some(at) => (
            text::trimmed(c.take(at)),
            text::pieces(bracketed(c.skip(at + 4)), ","@).map_values(
                |s: Seq<char>| text::trimmed(s),
            ),
        ),
    }
}

fn trim_all(v: &Vec<String>) -> (r: Vec<String>)
    ensures
        text::views(r@) == text::views(v@).map_values(|s: Seq<char>| text::trimmed(s)),
{
    let ghost all = text::views(v@).map_values(|s: Seq<char>| text::trimmed(s));
    let mut out: Vec<String> = Vec::new();
    let mut i: usize = 0;
    assert(text::views(out@) =~= all.take(0));
    while i < v.len()
        invariant
            i <= v@.len(),
            all == text::views(v@).map_values(|s: Seq<char>| text::trimmed(s)),
            text::views(out@) == all.take(i as int),
        decreases v@.len() - i,
    {
        broadcast use model::views_push, model::take_push;

        assert(text::views(v@)[i as int] == v@[i as int]@);
        out.push(text::trim(v[i].as_str()));
        i += 1;
    }
    assert(all.take(i as int) =~= all);
    out
}

/// The field and the values of a condition.
pub fn parse_condition(c: &str) -> (r: (String, Vec<String>))
    ensures
        r.0@ == condition(c@).0,
        text::views(r.1@) == condition(c@).1,
{
    proof {
        reveal_strlit(" in ");
        reveal_strlit("[");
        reveal_strlit(",");
    }
    match text::split_once(c, " in ") {
        None => {
            let none: Vec<String> = Vec::new();
            assert(text::views(none@) =~= Seq::<Seq<char>>::empty());
            let empty = String::new();
            assert(empty@ =~= Seq::<char>::empty());
            (empty, none)
        },
        Some((field, values)) => {
            let trimmed = text::trim(values.as_str());
            let opened = text::strip_prefixes(trimmed.as_str(), "[");
            let list = text::strip_trailing(opened.as_str(), ']');
            let parts = text::split(list.as_str(), ",");
            (text::trim(field.as_str()), trim_all(&parts))
        },
    }
}

// ---------------------------------------------------------------------------
// Generators
// ---------------------------------------------------------------------------

/// The generator of a field with weights, which may differ during an incident.
pub open spec fn weighted_enum(c: Doc) -> Option<GeneratorView> {
    if c.get("baseline"@) is Some || c.get("incident"@) is Some {
        match (choices(member_or(c, "baseline"@, c)), choices(member_or(c, "incident"@, c))) {
            (Some(baseline), Some(incident)) => Some(
                GeneratorView::WeightedEnum { baseline, incident },
            ),
            _ => None,
        }
    } else {
        match c.get("values"@) {
            Some(v) => match choices(v) {
                Some(choices) => Some(GeneratorView::StaticWeightedEnum { choices }),
                None => None,
            },
            None => Some(GeneratorView::Fallback),
        }
    }
}

/// The last 32 bits of a number.
pub open spec fn low32(n: nat) -> u32 {
    (n % 0x1_0000_0000) as u32
}

/// The generator of a field that is named by a pattern.
pub open spec fn pattern(c: Doc) -> Option<GeneratorView> {
    let ids = member_or(c, "pod_id"@, Doc::Null);
    let min = low32(uint_or(ids, "min"@, 1));
    let max = low32(uint_or(ids, "max"@, 20));
    if min <= max {
        Some(
            GeneratorView::Pattern {
                pattern: text_or(c, "pattern"@, "{service}-{id}"@),
                range_min: min,
                range_max: max,
            },
        )
    } else {
        None
    }
}

/// The generator of a field with numbers, which may be spread otherwise during an incident.
/// Bounds that an incident does not give are those of the baseline.
pub open spec fn distribution(c: Doc) -> Option<GeneratorView> {
    let baseline = member_or(c, "baseline"@, c);
    let incident = member_or(c, "incident"@, baseline);
    let spread = Spread {
        baseline_mean: number_or(baseline, "mean"@, 50_000_000_000_000_000_000) as i128,
        baseline_stddev: number_or(baseline, "stddev"@, 30_000_000_000_000_000_000) as i128,
        incident_mean: number_or(incident, "mean"@, 500_000_000_000_000_000_000) as i128,
        incident_stddev: number_or(incident, "stddev"@, 400_000_000_000_000_000_000) as i128,
        min: number_or(baseline, "min"@, 1_000_000_000_000_000_000) as i128,
        max: number_or(baseline, "max"@, 30_000_000_000_000_000_000_000) as i128,
        incident_min: number_or(
            incident,
            "min"@,
            number_or(baseline, "min"@, 1_000_000_000_000_000_000),
        ) as i128,
        incident_max: number_or(
            incident,
            "max"@,
            number_or(baseline, "max"@, 30_000_000_000_000_000_000_000),
        ) as i128,
    };
    if spread.min <= spread.max && spread.incident_min <= spread.incident_max {
        Some(GeneratorView::Distribution { spread })
    } else {
        None
    }
}

/// The templates of the first `n` levels; what is no list is left out.
pub open spec fn templates_upto(m: Seq<(Seq<char>, Doc)>, n: int) -> Seq<
    (Seq<char>, Seq<Seq<char>>),
>
    decreases n,
{
    if n <= 0 {
        Seq::empty()
    } else if m[n - 1].1 is Array {
        model::bind(templates_upto(m, n - 1), m[n - 1].0, texts_of(m[n - 1].1))
    } else {
        templates_upto(m, n - 1)
    }
}

/// The generator of a field that depends on another.
pub open spec fn conditional(c: Doc) -> Option<GeneratorView> {
    let cond = condition(text_or(c, "condition"@, ""@));
    match c.get("values"@) {
        Some(v) => match choices(v) {
            Some(w) => Some(
                GeneratorView::Conditional {
                    condition_field: cond.0,
                    condition_values: cond.1,
                    outcomes: Some(w),
                },
            ),
            None => None,
        },
        None => Some(
            GeneratorView::Conditional {
                condition_field: cond.0,
                condition_values: cond.1,
                outcomes: None,
            },
        ),
    }
}

/// The generator of a field; nothing where its configuration leaves nothing to choose from.
pub open spec fn generator(f: FieldView) -> Option<GeneratorView> {
    let c = f.config;
    if f.generator == "now"@ {
        Some(GeneratorView::Timestamp)
    } else if f.generator == "weighted_enum"@ {
        weighted_enum(c)
    } else if f.generator == "enum"@ {
        Some(GeneratorView::StaticEnum { values: texts_of(member_or(c, "values"@, Doc::Null)) })
    } else if f.generator == "pattern"@ {
        pattern(c)
    } else if f.generator == "hex"@ {
        Some(GeneratorView::Hex { length: uint_or(c, "length"@, 16) as u64 })
    } else if f.generator == "distribution"@ {
        distribution(c)
    } else if f.generator == "template"@ {
        let m = members(member_or(c, "templates"@, Doc::Null));
        Some(GeneratorView::Template { templates: templates_upto(m, m.len() as int) })
    } else if f.generator == "conditional"@ {
        conditional(c)
    } else if f.generator == "derived"@ {
        Some(GeneratorView::Derived { expression: text_or(c, "expression"@, ""@) })
    } else {
        Some(GeneratorView::Fallback)
    }
}

/// The generator that an optional one stands for.
pub open spec fn opt_generator(g: Option<FieldGenerator>) -> Option<GeneratorView> {
    match g {
        Some(x) => Some(x@),
        None => None,
    }
}

fn build_weighted_enum_generator(c: &Json) -> (r: Option<FieldGenerator>)
    ensures
        opt_generator(r) == weighted_enum(c.doc()),
        r is Some ==> r->0@.wf(),
{
    let baseline = c.get("baseline");
    let incident = c.get("incident");
    if baseline.is_some() || incident.is_some() {
        let of_baseline = extract_weighted_values(
            match baseline {
                Some(b) => b,
                None => c,
            },
        );
        let of_incident = extract_weighted_values(
            match incident {
                Some(i) => i,
                None => c,
            },
        );
        match (of_baseline, of_incident) {
            (Some(baseline), Some(incident)) => Some(
                FieldGenerator::WeightedEnum { baseline, incident },
            ),
            _ => None,
        }
    } else {
        match c.get("values") {
            Some(v) => match extract_weighted_values(v) {
                Some(choices) => Some(FieldGenerator::StaticWeightedEnum { choices }),
                None => None,
            },
            None => Some(FieldGenerator::Fallback),
        }
    }
}

fn build_static_enum_generator(c: &Json) -> (r: FieldGenerator)
    ensures
        r@ == (GeneratorView::StaticEnum {
            values: texts_of(member_or(c.doc(), "values"@, Doc::Null)),
        }),
{
    let values = match c.get("values") {
        Some(v) => texts_in(v),
        None => Vec::new(),
    };
    assert(text::views(values@) =~= texts_of(member_or(c.doc(), "values"@, Doc::Null)));
    FieldGenerator::StaticEnum { values }
}

fn build_pattern_generator(c: &Json) -> (r: Option<FieldGenerator>)
    ensures
        opt_generator(r) == pattern(c.doc()),
        r is Some ==> r->0@.wf(),
{
    let none = Json::Null;
    let ids = match c.get("pod_id") {
        Some(v) => v,
        None => &none,
    };
    let min: u32 = (uint_in_or(ids, "min", 1) % 0x1_0000_0000) as u32;
    let max: u32 = (uint_in_or(ids, "max", 20) % 0x1_0000_0000) as u32;
    if min <= max {
        Some(
            FieldGenerator::Pattern {
                pattern: text_in_or(c, "pattern", "{service}-{id}"),
                range_min: min,
                range_max: max,
            },
        )
    } else {
        None
    }
}

fn build_distribution_generator(c: &Json) -> (r: Option<FieldGenerator>)
    ensures
        opt_generator(r) == distribution(c.doc()),
        r is Some ==> r->0@.wf(),
{
    let baseline = match c.get("baseline") {
        Some(b) => b,
        None => c,
    };
    let incident = match c.get("incident") {
        Some(i) => i,
        None => baseline,
    };
    let min: i128 = number_in_or(baseline, "min", 1_000_000_000_000_000_000);
    let max: i128 = number_in_or(baseline, "max", 30_000_000_000_000_000_000_000);
    let spread = Spread {
        baseline_mean: number_in_or(baseline, "mean", 50_000_000_000_000_000_000),
        baseline_stddev: number_in_or(baseline, "stddev", 30_000_000_000_000_000_000),
        incident_mean: number_in_or(incident, "mean", 500_000_000_000_000_000_000),
        incident_stddev: number_in_or(incident, "stddev", 400_000_000_000_000_000_000),
        min,
        max,
        incident_min: number_in_or(incident, "min", min),
        incident_max: number_in_or(incident, "max", max),
    };
    if spread.min <= spread.max && spread.incident_min <= spread.incident_max {
        Some(FieldGenerator::Distribution { spread })
    } else {
        None
    }
}

fn templates_in(m: &Vec<(String, Json)>) -> (r: Vec<(String, Lines)>)
    ensures
        model::vmap(r@) == templates_upto(crate::json::members_of(m@), m@.len() as int),
{
    let ghost all = crate::json::members_of(m@);
    let mut out: Vec<(String, Lines)> = Vec::new();
    let mut i: usize = 0;
    assert(model::vmap(out@) =~= Seq::<(Seq<char>, Seq<Seq<char>>)>::empty());
    while i < m.len()
        invariant
            i <= m@.len(),
            all == crate::json::members_of(m@),
            model::vmap(out@) == templates_upto(all, i as int),
        decreases m@.len() - i,
    {
        assert(all[i as int].1 == m@[i as int].1.doc());
        assert(all[i as int].0 == m@[i as int].0@);
        let is_list = match &m[i].1 {
            Json::Array(_) => true,
            _ => false,
        };
        if is_list {
            let lines = Lines { lines: texts_in(&m[i].1) };
            model::bind_entry(&mut out, m[i].0.as_str(), lines);
        }
        i += 1;
    }
    out
}

fn build_template_generator(c: &Json) -> (r: FieldGenerator)
    ensures
        r@ == ({
            let m = members(member_or(c.doc(), "templates"@, Doc::Null));
            GeneratorView::Template { templates: templates_upto(m, m.len() as int) }
        }),
{
    match c.get("templates") {
        Some(Json::Object(m)) => {
            proof {
                Json::doc_of_object(*m);
            }
            FieldGenerator::Template { templates: templates_in(m) }
        },
        _ => {
            let none: Vec<(String, Lines)> = Vec::new();
            assert(model::vmap(none@) =~= Seq::<(Seq<char>, Seq<Seq<char>>)>::empty());
            FieldGenerator::Template { templates: none }
        },
    }
}

fn build_conditional_generator(c: &Json) -> (r: Option<FieldGenerator>)
    ensures
        opt_generator(r) == conditional(c.doc()),
        r is Some ==> r->0@.wf(),
{
    let text = text_in_or(c, "condition", "");
    let (condition_field, condition_values) = parse_condition(text.as_str());
    match c.get("values") {
        Some(v) => match extract_weighted_values(v) {
            Some(w) => Some(
                FieldGenerator::Conditional {
                    condition_field,
                    condition_values,
                    outcomes: Some(w),
                },
            ),
            None => None,
        },
        None => Some(
            FieldGenerator::Conditional { condition_field, condition_values, outcomes: None },
        ),
    }
}

/// The generator of a field; nothing where its configuration leaves nothing to choose from:
/// a negative weight, no weight but zero, a range whose end comes before its start.
pub fn build_field_generator(f: &FieldDef) -> (r: Option<FieldGenerator>)
    ensures
        opt_generator(r) == generator(f@),
        r is Some ==> r->0@.wf(),
{
    let name = f.generator.as_str();
    let c = &f.config;
    if text::same(name, "now") {
        Some(FieldGenerator::Timestamp)
    } else if text::same(name, "weighted_enum") {
        build_weighted_enum_generator(c)
    } else if text::same(name, "enum") {
        Some(build_static_enum_generator(c))
    } else if text::same(name, "pattern") {
        build_pattern_generator(c)
    } else if text::same(name, "hex") {
        Some(FieldGenerator::Hex { length: uint_in_or(c, "length", 16) })
    } else if text::same(name, "distribution") {
        build_distribution_generator(c)
    } else if text::same(name, "template") {
        Some(build_template_generator(c))
    } else if text::same(name, "conditional") {
        build_conditional_generator(c)
    } else if text::same(name, "derived") {
        Some(FieldGenerator::Derived { expression: text_in_or(c, "expression", "") })
    } else {
        Some(FieldGenerator::Fallback)
    }
}

} // verus!
