//! What the requests to a search platform ask for: which records a query finds, how its
//! aggregations nest, and where it is sent.
use vstd::prelude::*;
use vstd::string::*;
use crate::deployment_laws::{member, nth};
use crate::dsl;
use crate::execution;
use crate::execution::{Outcome, PlanView, SqlTextView};
use crate::json;
use crate::json::Doc;
use crate::mach5::PgView;
use crate::scenario::QueryView;
use crate::text;

verus! {

/// A record of an index, and what a platform makes of it: the texts of its fields, the free
/// texts that it answers to, and what it means for the text of a field to be above a number or
/// to resemble a pattern.
pub struct Record {
    pub fields: Map<Seq<char>, Seq<char>>,
    pub answers_to: spec_fn(Seq<char>) -> bool,
    pub above: spec_fn(Seq<char>, Seq<char>) -> bool,
    pub resembles: spec_fn(Seq<char>, Seq<char>) -> bool,
}

/// The one member of an object.
pub open spec fn only_member(d: Doc) -> Option<(Seq<char>, Doc)> {
    match d {
        Doc::Object(m) => if m.len() == 1 {
            Some(m[0])
        } else {
            None
        },
        _ => None,
    }
}

/// A record is found by a single condition.
pub open spec fn is_found_by(r: Record, q: Doc) -> bool {
    match only_member(q) {
        None => false,
        Some((verb, about)) => if verb == "match_all"@ {
            true
        } else if verb == "term"@ {
            only_member(about) matches Some((f, Doc::Text(v))) && r.fields.contains_pair(f, v)
        } else if verb == "wildcard"@ {
            only_member(about) matches Some((f, Doc::Text(v))) && r.fields.contains_key(f) && (
            r.resembles)(r.fields[f], v)
        } else if verb == "range"@ {
            only_member(about) matches Some((f, bound)) && r.fields.contains_key(f) && (
            only_member(bound) matches Some((g, Doc::Number(n))) && g == "gt"@ && (r.above)(
                r.fields[f],
                n,
            ))
        } else if verb == "query_string"@ {
            only_member(about) matches Some((k, Doc::Text(t))) && k == "query"@ && (r.answers_to)(t)
        } else {
            false
        },
    }
}

/// A record is found by a query: by its one condition, or by all that must hold.
pub open spec fn is_found(r: Record, q: Doc) -> bool {
    match only_member(q) {
        Some((verb, about)) => if verb == "bool"@ {
            only_member(about) matches Some((k, Doc::Array(all))) && k == "must"@ && forall|i: int|
                0 <= i < all.len() ==> is_found_by(r, #[trigger] all[i])
        } else {
            is_found_by(r, q)
        },
        None => false,
    }
}

proof fn verbs_differ()
    ensures
        "match_all"@ != "term"@,
        "match_all"@ != "wildcard"@,
        "term"@ != "wildcard"@,
        "match_all"@ != "range"@,
        "term"@ != "range"@,
        "wildcard"@ != "range"@,
        "match_all"@ != "query_string"@,
        "term"@ != "query_string"@,
        "wildcard"@ != "query_string"@,
        "range"@ != "query_string"@,
        "match_all"@ != "bool"@,
        "term"@ != "bool"@,
        "wildcard"@ != "bool"@,
        "range"@ != "bool"@,
        "query_string"@ != "bool"@,
        "query"@ != "sort"@,
        "query"@ != "size"@,
        "sort"@ != "size"@,
        "size"@ != "aggs"@,
        "query"@ != "aggs"@,
        "terms"@ != "aggs"@,
        "field"@ != "terms"@,
        "agg_result"@ != "aggs"@,
{
    reveal_strlit("match_all");
    reveal_strlit("term");
    reveal_strlit("wildcard");
    reveal_strlit("range");
    reveal_strlit("query_string");
    reveal_strlit("bool");
    reveal_strlit("query");
    reveal_strlit("sort");
    reveal_strlit("size");
    reveal_strlit("aggs");
    reveal_strlit("terms");
    reveal_strlit("field");
    reveal_strlit("agg_result");
    assert("match_all"@.len() != "term"@.len());
    assert("match_all"@.len() != "wildcard"@.len());
    assert("term"@.len() != "wildcard"@.len());
    assert("match_all"@.len() != "range"@.len());
    assert("term"@.len() != "range"@.len());
    assert("wildcard"@.len() != "range"@.len());
    assert("match_all"@.len() != "query_string"@.len());
    assert("term"@.len() != "query_string"@.len());
    assert("wildcard"@.len() != "query_string"@.len());
    assert("range"@.len() != "query_string"@.len());
    assert("match_all"@.len() != "bool"@.len());
    assert("term"@[0] != "bool"@[0]);
    assert("wildcard"@.len() != "bool"@.len());
    assert("range"@.len() != "bool"@.len());
    assert("query_string"@.len() != "bool"@.len());
    assert("query"@.len() != "sort"@.len());
    assert("query"@.len() != "size"@.len());
    assert("sort"@[1] != "size"@[1]);
    assert("size"@[0] != "aggs"@[0]);
    assert("query"@.len() != "aggs"@.len());
    assert("terms"@.len() != "aggs"@.len());
    assert("field"@[0] != "terms"@[0]);
    assert("agg_result"@.len() != "aggs"@.len());
}

/// The text neither begins nor ends with white space.
pub open spec fn is_tight(s: Seq<char>) -> bool {
    s.len() > 0 && !text::is_space(s[0]) && !text::is_space(s.last())
}

/// The character does not stand in the text.
pub open spec fn lacks(s: Seq<char>, c: char) -> bool {
    forall|i: int| 0 <= i < s.len() ==> #[trigger] s[i] != c
}

pub(crate) proof fn tight_stays(s: Seq<char>)
    requires
        is_tight(s),
    ensures
        text::trimmed(s) == s,
{
}

pub(crate) proof fn lacking_is_not_held(s: Seq<char>, needle: Seq<char>, c: char)
    requires
        lacks(s, c),
        needle.contains(c),
    ensures
        !text::holds(s, needle),
        forall|i: int| 0 <= i ==> #[trigger] text::first_at(s, needle, i) is None,
{
    if text::holds(s, needle) {
        let i = choose|i: int| text::occurs_at(s, needle, i);
        let k = choose|k: int| 0 <= k < needle.len() && needle[k] == c;
        assert(s.subrange(i, i + needle.len())[k] == s[i + k]);
    }
    assert forall|i: int| 0 <= i implies #[trigger] text::first_at(s, needle, i) is None by {
        text::first_at_is_least(s, needle, i);
    }
}

pub(crate) proof fn first_of(a: Seq<char>, needle: Seq<char>, b: Seq<char>, i: int)
    requires
        needle.len() > 0,
        lacks(a, needle[0]),
        0 <= i <= a.len(),
    ensures
        text::first_at(a + needle + b, needle, i) == Some(a.len() as int),
    decreases a.len() - i,
{
    let s = a + needle + b;
    if i < a.len() {
        if text::occurs_at(s, needle, i) {
            assert(s.subrange(i, i + needle.len())[0] == s[i]);
            assert(s[i] == a[i]);
        }
        first_of(a, needle, b, i + 1);
    } else {
        assert(s.subrange(i, i + needle.len()) =~= needle);
    }
}

// ---------------------------------------------------------------------------
// Conditions
// ---------------------------------------------------------------------------

proof fn one_member(key: Seq<char>, value: Doc)
    ensures
        only_member(Doc::object().with(key, value)) == Some((key, value)),
{
}

/// The clause `field:value` finds the records that have the value in the field, and no others.
pub proof fn a_value_is_found_in_its_field(field: Seq<char>, value: Seq<char>, r: Record)
    requires
        lacks(field, ':'),
        lacks(value, '*'),
        value.len() > 0 ==> value[0] != '>',
    ensures
        is_found_by(r, dsl::clause_doc(field + ":"@ + value)) <==> r.fields.contains_pair(
            field,
            value,
        ),
{
    clause_parts(field, value);
    verbs_differ();
    reveal_strlit("*");
    assert("*"@.contains('*')) by {
        assert("*"@[0] == '*');
    }
    lacking_is_not_held(value, "*"@, '*');
    reveal_strlit(">");
    if text::begins(value, ">"@) {
        assert(value.take(1)[0] == value[0]);
    }
    one_member(field, Doc::Text(value));
    one_member("term"@, Doc::object().with(field, Doc::Text(value)));
}

proof fn clause_parts(field: Seq<char>, value: Seq<char>)
    requires
        lacks(field, ':'),
    ensures
        text::first_at(field + ":"@ + value, ":"@, 0) == Some(field.len() as int),
        (field + ":"@ + value).take(field.len() as int) == field,
        (field + ":"@ + value).skip((field.len() + ":"@.len()) as int) == value,
{
    reveal_strlit(":");
    first_of(field, ":"@, value, 0);
    let s = field + ":"@ + value;
    assert(s.take(field.len() as int) =~= field);
    assert(s.skip((field.len() + ":"@.len()) as int) =~= value);
}

/// The clause `field:>number` finds the records whose field is above the number.
pub proof fn a_range_is_above_its_number(field: Seq<char>, num: Seq<char>, r: Record)
    requires
        lacks(field, ':'),
        text::is_float_literal(num),
        num.len() > 0,
        num[0] != '>',
    ensures
        is_found_by(r, dsl::clause_doc(field + ":"@ + (">"@ + num))) <==> r.fields.contains_key(
            field,
        ) && (r.above)(r.fields[field], num),
{
    let value = ">"@ + num;
    clause_parts(field, value);
    verbs_differ();
    reveal_strlit(">");
    assert(value.take(1) =~= ">"@);
    assert(value.skip(1) =~= num);
    if text::begins(num, ">"@) {
        assert(num.take(1)[0] == num[0]);
    }
    assert(text::without_prefixes(num, ">"@) == num);
    assert(text::without_prefixes(value, ">"@) == num);
    let bound = Doc::object().with("gt"@, Doc::Number(num));
    one_member("gt"@, Doc::Number(num));
    one_member(field, bound);
    one_member("range"@, Doc::object().with(field, bound));
}

/// The clause `field:pattern`, with a star in it, finds the records whose field resembles the
/// pattern.
pub proof fn a_pattern_is_resembled(field: Seq<char>, pattern: Seq<char>, i: int, r: Record)
    requires
        lacks(field, ':'),
        0 <= i < pattern.len(),
        pattern[i] == '*',
        pattern[0] != '>',
    ensures
        is_found_by(r, dsl::clause_doc(field + ":"@ + pattern)) <==> r.fields.contains_key(field)
            && (r.resembles)(r.fields[field], pattern),
{
    clause_parts(field, pattern);
    verbs_differ();
    reveal_strlit(">");
    reveal_strlit("*");
    if text::begins(pattern, ">"@) {
        assert(pattern.take(1)[0] == pattern[0]);
    }
    assert(pattern.subrange(i, i + 1) =~= "*"@);
    assert(text::occurs_at(pattern, "*"@, i));
    one_member(field, Doc::Text(pattern));
    one_member("wildcard"@, Doc::object().with(field, Doc::Text(pattern)));
}

/// A clause that names no field is free text.
pub proof fn free_text_is_answered_to(words: Seq<char>, r: Record)
    requires
        lacks(words, ':'),
    ensures
        is_found_by(r, dsl::clause_doc(words)) <==> (r.answers_to)(words),
{
    verbs_differ();
    reveal_strlit(":");
    assert(":"@.contains(':')) by {
        assert(":"@[0] == ':');
    }
    lacking_is_not_held(words, ":"@, ':');
    assert(text::first_at(words, ":"@, 0) is None);
    one_member("query"@, Doc::Text(words));
    one_member("query_string"@, Doc::object().with("query"@, Doc::Text(words)));
}

proof fn clauses_in_order(pieces: Seq<Seq<char>>, n: int)
    requires
        0 <= n <= pieces.len(),
    ensures
        dsl::clauses_doc(pieces, n) matches Doc::Array(v) && v.len() == n && forall|i: int|
            0 <= i < n ==> #[trigger] v[i] == dsl::clause_doc(text::trimmed(pieces[i])),
    decreases n,
{
    if n > 0 {
        clauses_in_order(pieces, n - 1);
    }
}

/// A search with `AND` finds the records that every one of its clauses finds; one without it
/// those that its clause finds.
pub proof fn every_clause_must_hold(template: Seq<char>, query: QueryView, r: Record)
    ensures
        ({
            let asked = member(dsl::search_doc(template, query), "query"@);
            if text::holds(template, " AND "@) {
                is_found(r, asked) <==> forall|i: int|
                    0 <= i < text::pieces(template, " AND "@).len() ==> is_found_by(
                        r,
                        dsl::clause_doc(
                            text::trimmed(#[trigger] text::pieces(template, " AND "@)[i]),
                        ),
                    )
            } else {
                is_found(r, asked) <==> is_found_by(
                    r,
                    dsl::clause_doc(text::trimmed(template)),
                )
            }
        }),
{
    broadcast use json::with_then_get;

    verbs_differ();
    search_members(template, query);
    let pieces = text::pieces(template, " AND "@);
    let n = pieces.len() as int;
    clauses_in_order(pieces, n);
    let all = dsl::clauses_doc(pieces, n);
    one_member("must"@, all);
    one_member("bool"@, Doc::object().with("must"@, all));
    if text::holds(template, " AND "@) {
        let v = all->Array_0;
        if is_found(r, member(dsl::search_doc(template, query), "query"@)) {
            assert forall|i: int| 0 <= i < n implies is_found_by(
                r,
                dsl::clause_doc(text::trimmed(#[trigger] pieces[i])),
            ) by {
                assert(is_found_by(r, v[i]));
            }
        }
    } else {
        single_clause(text::trimmed(template), r);
    }
}

proof fn single_clause(clause: Seq<char>, r: Record)
    ensures
        is_found(r, dsl::clause_doc(clause)) == is_found_by(r, dsl::clause_doc(clause)),
{
    verbs_differ();
    let d = dsl::clause_doc(clause);
    assert(only_member(d) matches Some((verb, _)) && verb != "bool"@);
}

proof fn search_members(template: Seq<char>, query: QueryView)
    ensures
        ({
            let d = dsl::search_doc(template, query);
            &&& d is Object
            &&& member(d, "query"@) == dsl::condition_doc(template)
            &&& query.limit matches Some(n) ==> member(d, "size"@) == Doc::Uint(n as nat)
            &&& query.limit is None ==> d.get("size"@) is None
            &&& query.sort is None ==> d.get("sort"@) is None
        }),
{
    broadcast use json::with_then_get;

    verbs_differ();
}

/// A search asks for as many records as the query's limit, and is sorted as the query says:
/// `field:order`.
pub proof fn limits_and_orders_are_asked_for(
    template: Seq<char>,
    query: QueryView,
    field: Seq<char>,
    direction: Seq<char>,
)
    requires
        lacks(field, ':'),
        lacks(direction, ':'),
        query.sort == Some(field + ":"@ + direction),
    ensures
        ({
            let d = dsl::search_doc(template, query);
            &&& query.limit matches Some(n) ==> member(d, "size"@) == Doc::Uint(n as nat)
            &&& query.limit is None ==> d.get("size"@) is None
            &&& member(nth(member(d, "sort"@), 0), field) == Doc::Text(direction)
        }),
{
    broadcast use json::with_then_get;

    verbs_differ();
    search_members(template, query);
    clause_parts(field, direction);
    reveal_strlit(":");
    assert(":"@ =~= seq![':']);
    two_pieces(field, ":"@, direction, ':');
    let sort = field + ":"@ + direction;
    assert(text::pieces(sort, ":"@) == seq![field, direction]);
}

pub(crate) proof fn two_pieces(a: Seq<char>, sep: Seq<char>, b: Seq<char>, c: char)
    requires
        sep == seq![c],
        lacks(a, c),
        lacks(b, c),
    ensures
        text::pieces(a + sep + b, sep) == seq![a, b],
{
    let s = a + sep + b;
    first_of(a, sep, b, 0);
    assert(sep.contains(c)) by {
        assert(sep[0] == c);
    }
    lacking_is_not_held(b, sep, c);
    assert(text::first_at(b, sep, 0) is None);
    assert(s.take(a.len() as int) =~= a);
    assert(s.skip((a.len() + 1) as int) =~= b);
    assert(text::pieces(b, sep) == seq![b]);
    assert(seq![a] + seq![b] =~= seq![a, b]);
}

// ---------------------------------------------------------------------------
// Aggregation requests
// ---------------------------------------------------------------------------

/// A line of a template that says what is counted.
pub open spec fn is_filter(line: Seq<char>) -> bool {
    text::begins(text::trimmed(line), "filter:"@)
}

proof fn prefix_goes(rest: Seq<char>)
    requires
        is_tight(rest),
    ensures
        is_filter("filter: "@ + rest),
        text::trimmed(
            text::without_prefixes(text::trimmed("filter: "@ + rest), "filter:"@),
        ) == rest,
{
    let line = "filter: "@ + rest;
    reveal_strlit("filter: ");
    reveal_strlit("filter:");
    reveal_strlit(" ");
    assert(line.last() == rest.last());
    tight_stays(line);
    assert(line.take(7) =~= "filter:"@);
    let behind = line.skip(7);
    assert(behind =~= " "@ + rest);
    if text::begins(behind, "filter:"@) {
        assert(behind.take(7)[0] == ' ');
    }
    assert(text::without_prefixes(line, "filter:"@) == text::without_prefixes(behind, "filter:"@));
    assert(text::without_prefixes(behind, "filter:"@) == behind);
    assert(behind.skip(1) =~= rest);
    assert(text::is_space(' '));
    assert(text::without_leading_space(behind) == text::without_leading_space(rest));
    tight_stays(rest);
}

/// What the request asks of the records after its first `n` lines: what its last filter says.
proof fn last_filter_counts(lines: Seq<Seq<char>>, i: int, n: int, rest: Seq<char>)
    requires
        0 <= i < n <= lines.len(),
        is_tight(rest),
        lines[i] == "filter: "@ + rest,
        forall|j: int| i < j < n ==> !is_filter(#[trigger] lines[j]),
    ensures
        json::lookup(dsl::after_lines(lines, n), "query"@) == Some(
            if rest == "*"@ {
                Doc::object().with("match_all"@, Doc::object())
            } else {
                dsl::clause_doc(rest)
            },
        ),
    decreases n,
{
    verbs_differ();
    if n == i + 1 {
        prefix_goes(rest);
        let what = if rest == "*"@ {
            Doc::object().with("match_all"@, Doc::object())
        } else {
            dsl::clause_doc(rest)
        };
        json::put_then_lookup(dsl::after_lines(lines, i), "query"@, what);
    } else {
        last_filter_counts(lines, i, n - 1, rest);
        assert(!is_filter(lines[n - 1]));
        let before = dsl::after_lines(lines, n - 1);
        let line = text::trimmed(lines[n - 1]);
        let agg = text::trimmed(text::without_prefixes(line, "aggregate:"@));
        json::put_keeps_others(before, "aggs"@, dsl::aggregation_doc(agg), "query"@);
    }
}

/// An aggregation with the filter `*` counts every record.
pub proof fn a_star_counts_every_record(template: Seq<char>, i: int, r: Record)
    requires
        0 <= i < text::pieces(template, "\n"@).len(),
        text::pieces(template, "\n"@)[i] == "filter: *"@,
        forall|j: int|
            i < j < text::pieces(template, "\n"@).len() ==> !is_filter(
                #[trigger] text::pieces(template, "\n"@)[j],
            ),
    ensures
        is_found(r, member(dsl::aggregation_request_doc(template), "query"@)),
{
    let lines = text::pieces(template, "\n"@);
    reveal_strlit("filter: *");
    reveal_strlit("filter: ");
    reveal_strlit("*");
    assert("filter: *"@ =~= "filter: "@ + "*"@);
    last_filter_counts(lines, i, lines.len() as int, "*"@);
    verbs_differ();
    one_member("match_all"@, Doc::object());
}

/// An aggregation with another filter counts the records that the filter's clause finds.
pub proof fn a_filter_counts_what_it_finds(template: Seq<char>, i: int, rest: Seq<char>, r: Record)
    requires
        0 <= i < text::pieces(template, "\n"@).len(),
        is_tight(rest),
        rest != "*"@,
        text::pieces(template, "\n"@)[i] == "filter: "@ + rest,
        forall|j: int|
            i < j < text::pieces(template, "\n"@).len() ==> !is_filter(
                #[trigger] text::pieces(template, "\n"@)[j],
            ),
    ensures
        is_found(r, member(dsl::aggregation_request_doc(template), "query"@)) <==> is_found_by(
            r,
            dsl::clause_doc(rest),
        ),
{
    let lines = text::pieces(template, "\n"@);
    last_filter_counts(lines, i, lines.len() as int, rest);
    single_clause(rest, r);
}

proof fn size_stays(lines: Seq<Seq<char>>, n: int)
    requires
        0 <= n <= lines.len(),
    ensures
        json::lookup(dsl::after_lines(lines, n), "size"@) == Some(Doc::Uint(0)),
    decreases n,
{
    verbs_differ();
    if n > 0 {
        size_stays(lines, n - 1);
        let before = dsl::after_lines(lines, n - 1);
        let line = text::trimmed(lines[n - 1]);
        let filter = text::trimmed(text::without_prefixes(line, "filter:"@));
        let what = if filter == "*"@ {
            Doc::object().with("match_all"@, Doc::object())
        } else {
            dsl::clause_doc(filter)
        };
        json::put_keeps_others(before, "query"@, what, "size"@);
        let agg = text::trimmed(text::without_prefixes(line, "aggregate:"@));
        json::put_keeps_others(before, "aggs"@, dsl::aggregation_doc(agg), "size"@);
    }
}

/// An aggregation asks for no records of its own.
pub proof fn aggregations_ask_for_no_records(template: Seq<char>)
    ensures
        member(dsl::aggregation_request_doc(template), "size"@) == Doc::Uint(0),
{
    let lines = text::pieces(template, "\n"@);
    size_stays(lines, lines.len() as int);
}

/// The words `terms(field)`.
pub open spec fn terms_of(field: Seq<char>) -> Seq<char> {
    "terms("@ + field + ")"@
}

/// A field that can be named.
pub open spec fn is_name(field: Seq<char>) -> bool {
    is_tight(field) && lacks(field, '(') && lacks(field, ')')
}

proof fn terms_name_their_field(field: Seq<char>)
    requires
        is_name(field),
    ensures
        is_tight(terms_of(field)),
        text::begins(terms_of(field), "terms("@),
        dsl::terms_field(terms_of(field)) == field,
{
    let s = terms_of(field);
    reveal_strlit("terms(");
    reveal_strlit(")");
    assert(s.take(6) =~= "terms("@);
    let behind = s.skip(6);
    assert(behind =~= field + ")"@);
    if text::begins(behind, "terms("@) {
        assert(behind.take(6)[5] == behind[5]);
        assert("terms("@[5] == '(');
        if 5 < field.len() {
            assert(behind[5] == field[5]);
        }
    }
    assert(text::without_prefixes(s, "terms("@) == text::without_prefixes(behind, "terms("@));
    assert(text::without_prefixes(behind, "terms("@) == behind);
    assert(behind.drop_last() =~= field);
    assert(field[field.len() - 1] == field.last());
    assert(text::without_trailing(behind, ')') == text::without_trailing(field, ')'));
    assert(text::without_trailing(field, ')') == field);
    tight_stays(field);
    assert(s.last() == ')');
}

/// The aggregation that is nested so deep in another.
pub open spec fn inner(d: Doc, depth: nat) -> Doc
    decreases depth,
{
    if depth == 0 {
        d
    } else {
        inner(member(member(d, "agg_result"@), "aggs"@), (depth - 1) as nat)
    }
}

/// `terms(a) > terms(b) > ..` counts by `a`, within each by `b`, and so on: the aggregation at
/// each depth is by the field at that place.
pub proof fn aggregations_nest_in_order(
    parts: Seq<Seq<char>>,
    names: Seq<Seq<char>>,
    i: int,
    k: int,
)
    requires
        parts.len() == names.len(),
        0 <= i <= k < parts.len(),
        forall|j: int| 0 <= j < parts.len() ==> is_name(#[trigger] names[j]),
        forall|j: int|
            0 <= j < parts.len() ==> text::trimmed(#[trigger] parts[j]) == terms_of(names[j]),
    ensures
        member(
            member(
                member(inner(dsl::nested_agg_doc(parts, i), (k - i) as nat), "agg_result"@),
                "terms"@,
            ),
            "field"@,
        ) == Doc::Text(names[k]),
    decreases k - i,
{
    broadcast use json::with_then_get;

    verbs_differ();
    assert(is_name(names[i]));
    assert(text::trimmed(parts[i]) == terms_of(names[i]));
    terms_name_their_field(names[i]);
    if i < k {
        aggregations_nest_in_order(parts, names, i + 1, k);
        let sub = dsl::nested_agg_doc(parts, i + 1);
        let d = dsl::nested_agg_doc(parts, i);
        assert(member(member(d, "agg_result"@), "aggs"@) == sub);
    }
}

// ---------------------------------------------------------------------------
// Sending
// ---------------------------------------------------------------------------

/// A variable's place in a template is taken by its value, and nothing else changes.
pub proof fn variables_take_their_places(
    before: Seq<char>,
    name: Seq<char>,
    value: Seq<char>,
    behind: Seq<char>,
)
    requires
        lacks(before, '{'),
        lacks(behind, '{'),
    ensures
        dsl::substituted(before + ("{{"@ + name + "}}"@) + behind, seq![(name, value)], 1) == before
            + value + behind,
{
    let hole = "{{"@ + name + "}}"@;
    let s = before + hole + behind;
    reveal_strlit("{{");
    reveal_strlit("}}");
    assert(hole[0] == '{');
    first_of(before, hole, behind, 0);
    assert(hole.contains('{')) by {
        assert(hole[0] == '{');
    }
    lacking_is_not_held(behind, hole, '{');
    assert(text::first_at(behind, hole, 0) is None);
    assert(s.take(before.len() as int) =~= before);
    assert(s.skip((before.len() + hole.len()) as int) =~= behind);
    assert(text::replaced(behind, hole, value) == behind);
    assert(dsl::substituted(s, seq![(name, value)], 0) == s);
    assert(text::replaced(s, hole, value) =~= before + value + behind);
}

/// A query that is no SQL goes to its index at the endpoint, and has a second at least.
pub proof fn searches_go_to_their_index(
    pg: Option<PgView>,
    q: QueryView,
    index: Seq<char>,
    endpoint: Seq<char>,
    variables: Seq<(Seq<char>, Seq<char>)>,
)
    requires
        q.query_type != "sql"@,
    ensures
        execution::plan(pg, q, index, endpoint, variables) matches Ok(
            PlanView::Search { url, body, timeout_ms },
        ) && url == endpoint + "/"@ + index + "/_search"@ && timeout_ms >= 1000 && timeout_ms
            >= q.timeout_ms && (timeout_ms == q.timeout_ms || timeout_ms == 1000) && body
            == dsl::query_body_doc(q, variables),
{
}

/// An SQL statement is that of the query: the one given, else the file's, else the template;
/// it has the time that the query gives it.
pub proof fn statements_are_those_of_the_query(
    pg: PgView,
    q: QueryView,
    index: Seq<char>,
    endpoint: Seq<char>,
    variables: Seq<(Seq<char>, Seq<char>)>,
)
    requires
        q.query_type == "sql"@,
    ensures
        execution::plan(Some(pg), q, index, endpoint, variables) matches Ok(
            PlanView::Sql { sql, timeout_ms, .. },
        ) && (q.sql is Some && q.sql->0.len() > 0 ==> sql == SqlTextView::Given(q.sql->0)) && (q.sql
            is None && q.sql_file is None ==> sql == SqlTextView::Given(q.template)) && (q.sql
            is None && q.sql_file is Some ==> sql is File) && (q.timeout_ms > 0 ==> timeout_ms
            == q.timeout_ms) && timeout_ms > 0,
        execution::plan(None, q, index, endpoint, variables) is Err,
{
}

/// What a platform says that it found is what is recorded, and how long it took.
pub proof fn hits_are_recorded(body: json::Json, n: nat, duration_ns: u64)
    requires
        n <= u64::MAX,
        member(member(member(body.doc(), "hits"@), "total"@), "value"@) == Doc::Uint(n),
    ensures
        ({
            let r = execution::recorded(Outcome::Found(body), duration_ns);
            &&& r.hit_count == n
            &&& r.duration_ns == duration_ns
            &&& r.error is None
            &&& !r.timed_out
        }),
{
}

/// A query that fails is recorded with its error, and one that runs out of time as such; no
/// records count as found.
pub proof fn failures_are_recorded(
    message: String,
    status: String,
    body: String,
    late: bool,
    duration_ns: u64,
)
    ensures
        ({
            let sql = execution::recorded(Outcome::SqlError(message), duration_ns);
            let slow = execution::recorded(Outcome::SqlTimeout, duration_ns);
            let refused = execution::recorded(Outcome::Refused { status, body }, duration_ns);
            let lost = execution::recorded(
                Outcome::Unanswered { message, timed_out: late },
                duration_ns,
            );
            &&& sql.error == Some(message@) && !sql.timed_out && sql.hit_count == 0
            &&& slow.timed_out && slow.error is None && slow.hit_count == 0
            &&& refused.error == Some("HTTP "@ + status@ + ": "@ + body@) && !refused.timed_out
                && refused.hit_count == 0
            &&& lost.error == Some("Request failed: "@ + message@) && lost.timed_out == late
                && lost.hit_count == 0
        }),
{
}

/// The rows of a statement are counted.
pub proof fn rows_are_recorded(n: u64, duration_ns: u64)
    ensures
        ({
            let r = execution::recorded(Outcome::Rows(n), duration_ns);
            &&& r.hit_count == n
            &&& r.row_count == Some(n)
            &&& r.duration_ns == duration_ns
            &&& r.error is None
            &&& !r.timed_out
        }),
{
}

} // verus!
