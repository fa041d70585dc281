//! The translation of a scenario's queries into OpenSearch request bodies, and of its
//! fields into index mappings.
use vstd::prelude::*;
use vstd::string::*;
use crate::json;
use crate::json::{Doc, Json};
use crate::model;
use crate::scenario::{FieldDef, FieldType, FieldView, QueryDef, QueryView};
use crate::text;

verus! {

// ---------------------------------------------------------------------------
// Variables
// ---------------------------------------------------------------------------

/// The place that a variable has in a template.
pub open spec fn placeholder(name: Seq<char>) -> Seq<char> {
    "{{"@ + name + "}}"@
}

/// The template with the first `n` variables put in their places, one after the other.
pub open spec fn substituted(
    template: Seq<char>,
    variables: Seq<(Seq<char>, Seq<char>)>,
    n: int,
) -> Seq<char>
    decreases n,
{
    if n <= 0 {
        template
    } else {
        text::replaced(
            substituted(template, variables, n - 1),
            placeholder(variables[n - 1].0),
            variables[n - 1].1,
        )
    }
}

/// The template with its variables put in their places.
pub fn substitute_variables(template: &str, variables: &Vec<(String, String)>) -> (r: String)
    ensures
        r@ == substituted(template@, model::vmap(variables@), variables@.len() as int),
{
    let mut out = text::owned(template);
    let mut i: usize = 0;
    while i < variables.len()
        invariant
            i <= variables@.len(),
            out@ == substituted(template@, model::vmap(variables@), i as int),
        decreases variables@.len() - i,
    {
        let place = text::join3("{{", variables[i].0.as_str(), "}}");
        proof {
            reveal_strlit("{{");
            assert(model::vmap(variables@)[i as int] == variables@[i as int]@);
        }
        out = text::replace(out.as_str(), place.as_str(), variables[i].1.as_str());
        i += 1;
    }
    out
}

// ---------------------------------------------------------------------------
// Search
// ---------------------------------------------------------------------------

/// The number that a range starts behind: what the text denotes, zero where it is no
/// number.
pub open spec fn bound_doc(num: Seq<char>) -> Doc {
    if text::is_float_literal(num) {
        Doc::Number(num)
    } else {
        Doc::Number("0.0"@)
    }
}

/// One clause: `field:>number`, `field:*pattern*`, `field:value`, or free text.
pub open spec fn clause_doc(clause: Seq<char>) -> Doc {
    match text::first_at(clause, ":"@, 0) {
        Some(i) => {
            let field = clause.take(i);
            let value = clause.skip(i + ":"@.len());
            if text::begins(value, ">"@) {
                Doc::object().with(
                    "range"@,
                    Doc::object().with(
                        field,
                        Doc::object().with(
                            "gt"@,
                            bound_doc(text::without_prefixes(value, ">"@)),
                        ),
                    ),
                )
            } else if text::holds(value, "*"@) {
                Doc::object().with("wildcard"@, Doc::object().with(field, Doc::Text(value)))
            } else {
                Doc::object().with("term"@, Doc::object().with(field, Doc::Text(value)))
            }
        },
        None => Doc::object().with(
            "query_string"@,
            Doc::object().with("query"@, Doc::Text(clause)),
        ),
    }
}

/// The clauses of the first `n` pieces.
pub open spec fn clauses_doc(pieces: Seq<Seq<char>>, n: int) -> Doc
    decreases n,
{
    if n <= 0 {
        Doc::array()
    } else {
        clauses_doc(pieces, n - 1).item(clause_doc(text::trimmed(pieces[n - 1])))
    }
}

/// What is searched for: one clause, or several that must all hold.
pub open spec fn condition_doc(template: Seq<char>) -> Doc {
    if text::holds(template, " AND "@) {
        let pieces = text::pieces(template, " AND "@);
        Doc::object().with(
            "bool"@,
            Doc::object().with("must"@, clauses_doc(pieces, pieces.len() as int)),
        )
    } else {
        clause_doc(text::trimmed(template))
    }
}

/// A search request.
pub open spec fn search_doc(template: Seq<char>, query: QueryView) -> Doc {
    let body = Doc::object().with("query"@, condition_doc(template));
    let sorted = match query.sort {
        Some(sort) => {
            let parts = text::pieces(sort, ":"@);
            if parts.len() == 2 {
                body.with(
                    "sort"@,
                    Doc::array().item(Doc::object().with(parts[0], Doc::Text(parts[1]))),
                )
            } else {
                body
            }
        },
        None => body,
    };
    match query.limit {
        Some(limit) => sorted.with("size"@, Doc::Uint(limit as nat)),
        None => sorted,
    }
}

/// Parses one clause of a search.
pub fn parse_query_clause(clause: &str) -> (r: Json)
    ensures
        r.doc() == clause_doc(clause@),
{
    proof {
        reveal_strlit(">");
    }
    match text::split_once(clause, ":") {
        Some((field, value)) => {
            if text::starts_with(value.as_str(), ">") {
                let num = text::strip_prefixes(value.as_str(), ">");
                let bound = if text::float_literal(num.as_str()) {
                    Json::Number(num)
                } else {
                    Json::Number(text::owned("0.0"))
                };
                Json::object().with(
                    "range",
                    Json::object().with(field.as_str(), Json::object().with("gt", bound)),
                )
            } else if text::contains(value.as_str(), "*") {
                Json::object().with(
                    "wildcard",
                    Json::object().with(field.as_str(), Json::text(value.as_str())),
                )
            } else {
                Json::object().with(
                    "term",
                    Json::object().with(field.as_str(), Json::text(value.as_str())),
                )
            }
        },
        None => Json::object().with(
            "query_string",
            Json::object().with("query", Json::text(clause)),
        ),
    }
}

fn condition(template: &str) -> (r: Json)
    ensures
        r.doc() == condition_doc(template@),
{
    proof {
        reveal_strlit(" AND ");
    }
    if text::contains(template, " AND ") {
        let pieces = text::split(template, " AND ");
        let ghost all = text::views(pieces@);
        let mut must = Json::array();
        let mut i: usize = 0;
        while i < pieces.len()
            invariant
                i <= pieces@.len(),
                all == text::views(pieces@),
                must.doc() == clauses_doc(all, i as int),
            decreases pieces@.len() - i,
        {
            let piece = text::trim(pieces[i].as_str());
            assert(all[i as int] == pieces@[i as int]@);
            must = must.item(parse_query_clause(piece.as_str()));
            i += 1;
        }
        Json::object().with("bool", Json::object().with("must", must))
    } else {
        let piece = text::trim(template);
        parse_query_clause(piece.as_str())
    }
}

/// Builds a search request.
pub fn build_search_query(template: &str, query: &QueryDef) -> (r: Json)
    ensures
        r.doc() == search_doc(template@, query@),
{
    proof {
        reveal_strlit(":");
    }
    let mut body = Json::object().with("query", condition(template));
    match &query.sort {
        Some(sort) => {
            let parts = text::split(sort.as_str(), ":");
            proof {
                assert(text::views(parts@).len() == parts@.len());
            }
            if parts.len() == 2 {
                assert(text::views(parts@)[0] == parts@[0]@);
                assert(text::views(parts@)[1] == parts@[1]@);
                let by = Json::object().with(parts[0].as_str(), Json::text(parts[1].as_str()));
                body = body.with("sort", Json::array().item(by));
            }
        },
        None => {},
    }
    match query.limit {
        Some(limit) => body.with("size", Json::uint(limit as u64)),
        None => body,
    }
}

// ---------------------------------------------------------------------------
// Aggregation
// ---------------------------------------------------------------------------

/// The field that `terms(field)` names.
pub open spec fn terms_field(expr: Seq<char>) -> Seq<char> {
    text::trimmed(text::without_trailing(text::without_prefixes(expr, "terms("@), ')'))
}

/// The arguments of `date_histogram(..)`.
pub open spec fn histogram_args(expr: Seq<char>) -> Seq<Seq<char>> {
    text::pieces(
        text::without_trailing(text::without_prefixes(expr, "date_histogram("@), ')'),
        ","@,
    )
}

/// The interval that the arguments from the `i`-th on give; a minute where none does.
pub open spec fn interval_from(args: Seq<Seq<char>>, i: int) -> Seq<char>
    decreases args.len() - i,
{
    if i >= args.len() {
        "1m"@
    } else if text::begins(text::trimmed(args[i]), "interval="@) {
        text::without_prefixes(text::trimmed(args[i]), "interval="@)
    } else {
        interval_from(args, i + 1)
    }
}

/// The histogram that `date_histogram(..)` asks for.
pub open spec fn histogram_doc(expr: Seq<char>) -> Doc {
    let args = histogram_args(expr);
    Doc::object().with("field"@, Doc::Text(text::trimmed(args[0]))).with(
        "fixed_interval"@,
        Doc::Text(interval_from(args, 0)),
    )
}

/// One aggregation without another inside.
pub open spec fn single_agg_doc(expr: Seq<char>) -> Doc {
    if text::begins(expr, "terms("@) {
        Doc::object().with(
            "agg_result"@,
            Doc::object().with(
                "terms"@,
                Doc::object().with("field"@, Doc::Text(terms_field(expr))),
            ),
        )
    } else if text::begins(expr, "date_histogram("@) {
        Doc::object().with(
            "agg_result"@,
            Doc::object().with("date_histogram"@, histogram_doc(expr)),
        )
    } else {
        Doc::object().with(
            "agg_result"@,
            Doc::object().with("terms"@, Doc::object().with("field"@, Doc::Text(expr))),
        )
    }
}

/// The aggregation that the parts from the `i`-th on ask for, each inside the one before.
pub open spec fn nested_agg_doc(parts: Seq<Seq<char>>, i: int) -> Doc
    decreases parts.len() - i,
{
    let expr = text::trimmed(parts[i]);
    if i + 1 >= parts.len() {
        single_agg_doc(expr)
    } else {
        let sub = nested_agg_doc(parts, i + 1);
        if text::begins(expr, "terms("@) {
            Doc::object().with(
                "agg_result"@,
                Doc::object().with(
                    "terms"@,
                    Doc::object().with("field"@, Doc::Text(terms_field(expr))),
                ).with("aggs"@, sub),
            )
        } else if text::begins(expr, "date_histogram("@) {
            Doc::object().with(
                "timeline"@,
                Doc::object().with("date_histogram"@, histogram_doc(expr)).with("aggs"@, sub),
            )
        } else {
            sub
        }
    }
}

/// The aggregation that an expression asks for: `outer > inner`, or one alone.
pub open spec fn aggregation_doc(expr: Seq<char>) -> Doc {
    nested_agg_doc(text::pieces(expr, " > "@), 0)
}

/// The members of a request after one line of its template.
pub open spec fn after_line(members: Seq<(Seq<char>, Doc)>, raw: Seq<char>) -> Seq<
    (Seq<char>, Doc),
> {
    let line = text::trimmed(raw);
    if text::begins(line, "filter:"@) {
        let filter = text::trimmed(text::without_prefixes(line, "filter:"@));
        json::put(
            members,
            "query"@,
            if filter == "*"@ {
                Doc::object().with("match_all"@, Doc::object())
            } else {
                clause_doc(filter)
            },
        )
    } else if text::begins(line, "aggregate:"@) {
        let agg = text::trimmed(text::without_prefixes(line, "aggregate:"@));
        json::put(members, "aggs"@, aggregation_doc(agg))
    } else {
        members
    }
}

/// The members of a request after the first `n` lines of its template.
pub open spec fn after_lines(lines: Seq<Seq<char>>, n: int) -> Seq<(Seq<char>, Doc)>
    decreases n,
{
    if n <= 0 {
        seq![("size"@, Doc::Uint(0))]
    } else {
        after_line(after_lines(lines, n - 1), lines[n - 1])
    }
}

/// An aggregation request.
pub open spec fn aggregation_request_doc(template: Seq<char>) -> Doc {
    let lines = text::pieces(template, "\n"@);
    Doc::Object(after_lines(lines, lines.len() as int))
}

fn terms_field_of(expr: &str) -> (r: String)
    ensures
        r@ == terms_field(expr@),
{
    proof {
        reveal_strlit("terms(");
    }
    let a = text::strip_prefixes(expr, "terms(");
    let b = text::strip_trailing(a.as_str(), ')');
    text::trim(b.as_str())
}

fn interval_of(args: &Vec<String>) -> (r: String)
    ensures
        r@ == interval_from(text::views(args@), 0),
{
    proof {
        reveal_strlit("interval=");
    }
    let ghost all = text::views(args@);
    let mut i: usize = 0;
    while i < args.len()
        invariant
            i <= args@.len(),
            all == text::views(args@),
            "interval="@.len() > 0,
            interval_from(all, 0) == interval_from(all, i as int),
        decreases args@.len() - i,
    {
        let arg = text::trim(args[i].as_str());
        assert(all[i as int] == args@[i as int]@);
        if text::starts_with(arg.as_str(), "interval=") {
            return text::strip_prefixes(arg.as_str(), "interval=");
        }
        i += 1;
    }
    text::owned("1m")
}

fn histogram(expr: &str) -> (r: Json)
    ensures
        r.doc() == histogram_doc(expr@),
{
    proof {
        reveal_strlit("date_histogram(");
        reveal_strlit(",");
    }
    let a = text::strip_prefixes(expr, "date_histogram(");
    let inner = text::strip_trailing(a.as_str(), ')');
    let args = text::split(inner.as_str(), ",");
    assert(text::views(args@)[0] == args@[0]@);
    let field = text::trim(args[0].as_str());
    let interval = interval_of(&args);
    Json::object().with("field", Json::text(field.as_str())).with(
        "fixed_interval",
        Json::text(interval.as_str()),
    )
}

/// Parses one aggregation without another inside.
pub fn parse_single_agg(expr: &str) -> (r: Json)
    ensures
        r.doc() == single_agg_doc(expr@),
{
    if text::starts_with(expr, "terms(") {
        let field = terms_field_of(expr);
        Json::object().with(
            "agg_result",
            Json::object().with(
                "terms",
                Json::object().with("field", Json::text(field.as_str())),
            ),
        )
    } else if text::starts_with(expr, "date_histogram(") {
        Json::object().with("agg_result", Json::object().with("date_histogram", histogram(expr)))
    } else {
        Json::object().with(
            "agg_result",
            Json::object().with("terms", Json::object().with("field", Json::text(expr))),
        )
    }
}

/// Parses the aggregations from the `i`-th part on, each inside the one before.
pub fn parse_single_agg_with_sub(parts: &Vec<String>, i: usize) -> (r: Json)
    requires
        i < parts@.len(),
    ensures
        r.doc() == nested_agg_doc(text::views(parts@), i as int),
    decreases parts@.len() - i,
{
    assert(text::views(parts@)[i as int] == parts@[i as int]@);
    let expr = text::trim(parts[i].as_str());
    if i >= parts.len() - 1 {
        return parse_single_agg(expr.as_str());
    }
    let sub = parse_single_agg_with_sub(parts, i + 1);
    if text::starts_with(expr.as_str(), "terms(") {
        let field = terms_field_of(expr.as_str());
        Json::object().with(
            "agg_result",
            Json::object().with(
                "terms",
                Json::object().with("field", Json::text(field.as_str())),
            ).with("aggs", sub),
        )
    } else if text::starts_with(expr.as_str(), "date_histogram(") {
        Json::object().with(
            "timeline",
            Json::object().with("date_histogram", histogram(expr.as_str())).with("aggs", sub),
        )
    } else {
        sub
    }
}

/// Parses an aggregation expression.
pub fn parse_aggregation(expr: &str) -> (r: Json)
    ensures
        r.doc() == aggregation_doc(expr@),
{
    proof {
        reveal_strlit(" > ");
    }
    let parts = text::split(expr, " > ");
    parse_single_agg_with_sub(&parts, 0)
}

/// Builds an aggregation request.
pub fn build_aggregation_query(template: &str) -> (r: Json)
    ensures
        r.doc() == aggregation_request_doc(template@),
{
    proof {
        reveal_strlit("\n");
        reveal_strlit("filter:");
        reveal_strlit("aggregate:");
    }
    let lines = text::split(template, "\n");
    let ghost all = text::views(lines@);
    let mut members: Vec<(String, Json)> = Vec::new();
    members.push((text::owned("size"), Json::Uint(0)));
    assert(json::members_of(members@) =~= seq![("size"@, Doc::Uint(0))]);
    let mut i: usize = 0;
    while i < lines.len()
        invariant
            i <= lines@.len(),
            all == text::views(lines@),
            "filter:"@.len() > 0,
            "aggregate:"@.len() > 0,
            json::members_of(members@) == after_lines(all, i as int),
        decreases lines@.len() - i,
    {
        assert(all[i as int] == lines@[i as int]@);
        let line = text::trim(lines[i].as_str());
        if text::starts_with(line.as_str(), "filter:") {
            let raw = text::strip_prefixes(line.as_str(), "filter:");
            let filter = text::trim(raw.as_str());
            let query = if text::same(filter.as_str(), "*") {
                Json::object().with("match_all", Json::object())
            } else {
                parse_query_clause(filter.as_str())
            };
            json::put_member(&mut members, "query", query);
        } else if text::starts_with(line.as_str(), "aggregate:") {
            let raw = text::strip_prefixes(line.as_str(), "aggregate:");
            let agg = text::trim(raw.as_str());
            json::put_member(&mut members, "aggs", parse_aggregation(agg.as_str()));
        }
        i += 1;
    }
    proof {
        Json::doc_of_object(members);
    }
    Json::Object(members)
}

/// The body of the request for a query.
pub open spec fn query_body_doc(query: QueryView, variables: Seq<(Seq<char>, Seq<char>)>) -> Doc {
    let template = substituted(query.template, variables, variables.len() as int);
    if query.query_type == "search"@ {
        search_doc(template, query)
    } else if query.query_type == "aggregation"@ {
        aggregation_request_doc(template)
    } else {
        Doc::object().with(
            "query"@,
            Doc::object().with(
                "query_string"@,
                Doc::object().with("query"@, Doc::Text(template)),
            ),
        )
    }
}

/// Translates a query into the body of its request.
pub fn build_query_body(query: &QueryDef, variables: &Vec<(String, String)>) -> (r: Json)
    ensures
        r.doc() == query_body_doc(query@, model::vmap(variables@)),
{
    let template = substitute_variables(query.template.as_str(), variables);
    if text::same(query.query_type.as_str(), "search") {
        build_search_query(template.as_str(), query)
    } else if text::same(query.query_type.as_str(), "aggregation") {
        build_aggregation_query(template.as_str())
    } else {
        Json::object().with(
            "query",
            Json::object().with(
                "query_string",
                Json::object().with("query", Json::text(template.as_str())),
            ),
        )
    }
}

// ---------------------------------------------------------------------------
// Mappings
// ---------------------------------------------------------------------------

/// The mapping of one field.
pub open spec fn leaf_doc(field_type: FieldType) -> Doc {
    Doc::object().with("type"@, Doc::Text(field_type.mapping_type()))
}

/// The mapping of an object that has no fields yet.
pub open spec fn empty_object_doc() -> Doc {
    Doc::object().with("properties"@, Doc::object())
}

/// The properties with one more field, at the place that its path names. A field that
/// stands where the path needs an object keeps that place, and the new field is dropped.
pub open spec fn nested(
    props: Seq<(Seq<char>, Doc)>,
    path: Seq<Seq<char>>,
    i: int,
    leaf: Doc,
) -> Seq<(Seq<char>, Doc)>
    decreases path.len() - i, 0int,
{
    if i >= path.len() {
        props
    } else if i + 1 == path.len() {
        json::put(props, path[i], leaf)
    } else {
        let entry = match json::lookup(props, path[i]) {
            Some(d) => d,
            None => empty_object_doc(),
        };
        json::put(props, path[i], within(entry, path, i + 1, leaf))
    }
}

/// The mapping of an object with one more field inside.
pub open spec fn within(entry: Doc, path: Seq<Seq<char>>, i: int, leaf: Doc) -> Doc
    decreases path.len() - i, 1int,
{
    match entry {
        Doc::Object(members) => match json::lookup(members, "properties"@) {
            Some(Doc::Object(inner)) => Doc::Object(
                json::put(members, "properties"@, Doc::Object(nested(inner, path, i, leaf))),
            ),
            _ => entry,
        },
        _ => entry,
    }
}

/// The properties of the first `n` fields.
pub open spec fn properties(fields: Seq<FieldView>, n: int) -> Seq<(Seq<char>, Doc)>
    decreases n,
{
    if n <= 0 {
        Seq::empty()
    } else {
        let f = fields[n - 1];
        nested(
            properties(fields, n - 1),
            text::pieces(f.name, "."@),
            0,
            leaf_doc(f.field_type),
        )
    }
}

/// The mappings of an index with these fields.
pub open spec fn mappings_doc(fields: Seq<FieldView>) -> Doc {
    Doc::object().with("properties"@, Doc::Object(properties(fields, fields.len() as int)))
}

fn leaf(field_type: FieldType) -> (r: Json)
    ensures
        r.doc() == leaf_doc(field_type),
{
    Json::object().with("type", Json::text(field_type.to_mapping_type()))
}

fn insert_within(entry: Json, path: &Vec<String>, i: usize, field_type: FieldType) -> (r: Json)
    requires
        i < path@.len(),
    ensures
        r.doc() == within(entry.doc(), text::views(path@), i as int, leaf_doc(field_type)),
    decreases path@.len() - i, 1int,
{
    let inner: Option<Vec<(String, Json)>> = match entry.get("properties") {
        Some(p) => match p.copy() {
            Json::Object(m) => {
                proof {
                    Json::doc_of_object(m);
                }
                Some(m)
            },
            _ => None,
        },
        None => None,
    };
    match (entry, inner) {
        (Json::Object(members), Some(inner)) => {
            let mut members = members;
            let mut inner = inner;
            proof {
                Json::doc_of_object(members);
            }
            insert_nested_mapping(&mut inner, path, i, field_type);
            proof {
                Json::doc_of_object(inner);
            }
            json::put_member(&mut members, "properties", Json::Object(inner));
            proof {
                Json::doc_of_object(members);
            }
            Json::Object(members)
        },
        (entry, _) => entry,
    }
}

/// Puts a field's mapping at the place that the path from its `i`-th part on names.
pub fn insert_nested_mapping(
    props: &mut Vec<(String, Json)>,
    path: &Vec<String>,
    i: usize,
    field_type: FieldType,
)
    requires
        i < path@.len(),
    ensures
        json::members_of(final(props)@) == nested(
            json::members_of(old(props)@),
            text::views(path@),
            i as int,
            leaf_doc(field_type),
        ),
    decreases path@.len() - i, 0int,
{
    assert(text::views(path@)[i as int] == path@[i as int]@);
    if i == path.len() - 1 {
        json::put_member(props, path[i].as_str(), leaf(field_type));
        return ;
    }
    let entry = match json::find_member(props, path[i].as_str()) {
        Some(e) => e.copy(),
        None => Json::object().with("properties", Json::object()),
    };
    let filled = insert_within(entry, path, i + 1, field_type);
    json::put_member(props, path[i].as_str(), filled);
}

/// The index mappings for the fields of a schema. A name with dots is a field of nested
/// objects.
pub fn build_mappings(fields: &Vec<FieldDef>) -> (r: Json)
    ensures
        r.doc() == mappings_doc(model::vmap(fields@)),
{
    proof {
        reveal_strlit(".");
    }
    let ghost all = model::vmap(fields@);
    let mut props: Vec<(String, Json)> = Vec::new();
    assert(json::members_of(props@) =~= properties(all, 0));
    let mut i: usize = 0;
    while i < fields.len()
        invariant
            i <= fields@.len(),
            all == model::vmap(fields@),
            "."@.len() > 0,
            json::members_of(props@) == properties(all, i as int),
        decreases fields@.len() - i,
    {
        assert(all[i as int] == fields@[i as int]@);
        let path = text::split(fields[i].name.as_str(), ".");
        insert_nested_mapping(&mut props, &path, 0, fields[i].field_type);
        i += 1;
    }
    proof {
        Json::doc_of_object(props);
    }
    Json::object().with("properties", Json::Object(props))
}

/// The mapping that stands at a path of nested objects.
pub open spec fn mapping_at(props: Seq<(Seq<char>, Doc)>, path: Seq<Seq<char>>, i: int) -> Option<
    Doc,
>
    decreases path.len() - i,
{
    if i >= path.len() {
        None
    } else if i + 1 == path.len() {
        json::lookup(props, path[i])
    } else {
        match json::lookup(props, path[i]) {
            Some(Doc::Object(members)) => match json::lookup(members, "properties"@) {
                Some(Doc::Object(inner)) => mapping_at(inner, path, i + 1),
                _ => None,
            },
            _ => None,
        }
    }
}

/// On the way along a path every part that is taken is an object with properties.
pub open spec fn path_is_open(props: Seq<(Seq<char>, Doc)>, path: Seq<Seq<char>>, i: int) -> bool
    decreases path.len() - i,
{
    if i + 1 >= path.len() {
        true
    } else {
        match json::lookup(props, path[i]) {
            None => true,
            Some(Doc::Object(members)) => match json::lookup(members, "properties"@) {
                Some(Doc::Object(inner)) => path_is_open(inner, path, i + 1),
                _ => false,
            },
            _ => false,
        }
    }
}

/// A field whose path no other field blocks is found at its path, with its own type.
pub proof fn field_is_mapped(
    props: Seq<(Seq<char>, Doc)>,
    path: Seq<Seq<char>>,
    i: int,
    field_type: FieldType,
)
    requires
        0 <= i < path.len(),
        path_is_open(props, path, i),
    ensures
        mapping_at(nested(props, path, i, leaf_doc(field_type)), path, i) == Some(
            leaf_doc(field_type),
        ),
    decreases path.len() - i,
{
    let leaf = leaf_doc(field_type);
    if i + 1 == path.len() {
        json::put_then_lookup(props, path[i], leaf);
    } else {
        let entry = match json::lookup(props, path[i]) {
            Some(d) => d,
            None => empty_object_doc(),
        };
        let fresh = seq![("properties"@, Doc::object())];
        assert(empty_object_doc() == Doc::Object(fresh)) by {
            assert(Seq::<(Seq<char>, Doc)>::empty().push(("properties"@, Doc::object()))
                =~= fresh);
        }
        assert(json::lookup(fresh, "properties"@) == Some(Doc::object()));
        let members = entry->Object_0;
        let inner = json::lookup(members, "properties"@)->0->Object_0;
        if json::lookup(props, path[i]) is None {
            assert(inner =~= Seq::<(Seq<char>, Doc)>::empty());
            empty_is_open(path, i + 1);
        }
        field_is_mapped(inner, path, i + 1, field_type);
        let filled = within(entry, path, i + 1, leaf);
        json::put_then_lookup(
            members,
            "properties"@,
            Doc::Object(nested(inner, path, i + 1, leaf)),
        );
        json::put_then_lookup(props, path[i], filled);
    }
}

proof fn empty_is_open(path: Seq<Seq<char>>, i: int)
    ensures
        path_is_open(Seq::<(Seq<char>, Doc)>::empty(), path, i),
{
}

} // verus!
