//! What a scenario and its configuration come to: which scenarios are accepted, how the fields
//! of events are made, what is asked of the platform, and what the resources of a run say of
//! themselves.
use vstd::prelude::*;
use vstd::string::*;
use crate::configmaps;
use crate::crd::ResourceSpec;
use crate::deployment_laws::member;
use crate::docs;
use crate::dsl;
use crate::execution;
use crate::execution::SqlTextView;
use crate::fields;
use crate::fields::GeneratorView;
use crate::json;
use crate::json::Doc;
use crate::mach5::PgView;
use crate::model;
use crate::query_laws::{first_of, is_tight, lacks, tight_stays, two_pieces};
use crate::resources;
use crate::resources::IdentityView;
use crate::scenario::{FieldView, QueryView, ScenarioView};
use crate::seeds;
use crate::text;
use crate::wellformed;

verus! {

proof fn map_keys()
    ensures
        "name"@ != "namespace"@,
        "name"@ != "ownerReferences"@,
        "namespace"@ != "ownerReferences"@,
        "name"@ != "labels"@,
        "namespace"@ != "labels"@,
        "ownerReferences"@ != "labels"@,
        "app.kubernetes.io/name"@ != "app.kubernetes.io/instance"@,
        "app.kubernetes.io/name"@ != "app.kubernetes.io/component"@,
        "app.kubernetes.io/instance"@ != "app.kubernetes.io/component"@,
        "app.kubernetes.io/name"@ != "app.kubernetes.io/managed-by"@,
        "app.kubernetes.io/instance"@ != "app.kubernetes.io/managed-by"@,
        "app.kubernetes.io/component"@ != "app.kubernetes.io/managed-by"@,
{
    reveal_strlit("name");
    reveal_strlit("namespace");
    reveal_strlit("ownerReferences");
    reveal_strlit("labels");
    reveal_strlit("app.kubernetes.io/name");
    reveal_strlit("app.kubernetes.io/instance");
    reveal_strlit("app.kubernetes.io/component");
    reveal_strlit("app.kubernetes.io/managed-by");
    assert("name"@.len() != "namespace"@.len());
    assert("name"@.len() != "ownerReferences"@.len());
    assert("namespace"@.len() != "ownerReferences"@.len());
    assert("name"@.len() != "labels"@.len());
    assert("namespace"@.len() != "labels"@.len());
    assert("ownerReferences"@.len() != "labels"@.len());
    assert("app.kubernetes.io/name"@.len() != "app.kubernetes.io/instance"@.len());
    assert("app.kubernetes.io/name"@.len() != "app.kubernetes.io/component"@.len());
    assert("app.kubernetes.io/instance"@.len() != "app.kubernetes.io/component"@.len());
    assert("app.kubernetes.io/name"@.len() != "app.kubernetes.io/managed-by"@.len());
    assert("app.kubernetes.io/instance"@.len() != "app.kubernetes.io/managed-by"@.len());
    assert("app.kubernetes.io/component"@.len() != "app.kubernetes.io/managed-by"@.len());
}

proof fn kinds_of_fields()
    ensures
        "now"@ != "weighted_enum"@,
        "now"@ != "enum"@,
        "weighted_enum"@ != "enum"@,
        "now"@ != "pattern"@,
        "weighted_enum"@ != "pattern"@,
        "enum"@ != "pattern"@,
        "now"@ != "hex"@,
        "weighted_enum"@ != "hex"@,
        "enum"@ != "hex"@,
        "pattern"@ != "hex"@,
        "now"@ != "distribution"@,
        "weighted_enum"@ != "distribution"@,
        "enum"@ != "distribution"@,
        "pattern"@ != "distribution"@,
        "hex"@ != "distribution"@,
        "now"@ != "template"@,
        "weighted_enum"@ != "template"@,
        "enum"@ != "template"@,
        "pattern"@ != "template"@,
        "hex"@ != "template"@,
        "distribution"@ != "template"@,
        "now"@ != "conditional"@,
        "weighted_enum"@ != "conditional"@,
        "enum"@ != "conditional"@,
        "pattern"@ != "conditional"@,
        "hex"@ != "conditional"@,
        "distribution"@ != "conditional"@,
        "template"@ != "conditional"@,
        "now"@ != "derived"@,
        "weighted_enum"@ != "derived"@,
        "enum"@ != "derived"@,
        "pattern"@ != "derived"@,
        "hex"@ != "derived"@,
        "distribution"@ != "derived"@,
        "template"@ != "derived"@,
        "conditional"@ != "derived"@,
{
    reveal_strlit("now");
    reveal_strlit("weighted_enum");
    reveal_strlit("enum");
    reveal_strlit("pattern");
    reveal_strlit("hex");
    reveal_strlit("distribution");
    reveal_strlit("template");
    reveal_strlit("conditional");
    reveal_strlit("derived");
    assert("now"@.len() != "weighted_enum"@.len());
    assert("now"@.len() != "enum"@.len());
    assert("weighted_enum"@.len() != "enum"@.len());
    assert("now"@.len() != "pattern"@.len());
    assert("weighted_enum"@.len() != "pattern"@.len());
    assert("enum"@.len() != "pattern"@.len());
    assert("now"@[0] != "hex"@[0]);
    assert("weighted_enum"@.len() != "hex"@.len());
    assert("enum"@.len() != "hex"@.len());
    assert("pattern"@.len() != "hex"@.len());
    assert("now"@.len() != "distribution"@.len());
    assert("weighted_enum"@.len() != "distribution"@.len());
    assert("enum"@.len() != "distribution"@.len());
    assert("pattern"@.len() != "distribution"@.len());
    assert("hex"@.len() != "distribution"@.len());
    assert("now"@.len() != "template"@.len());
    assert("weighted_enum"@.len() != "template"@.len());
    assert("enum"@.len() != "template"@.len());
    assert("pattern"@.len() != "template"@.len());
    assert("hex"@.len() != "template"@.len());
    assert("distribution"@.len() != "template"@.len());
    assert("now"@.len() != "conditional"@.len());
    assert("weighted_enum"@.len() != "conditional"@.len());
    assert("enum"@.len() != "conditional"@.len());
    assert("pattern"@.len() != "conditional"@.len());
    assert("hex"@.len() != "conditional"@.len());
    assert("distribution"@.len() != "conditional"@.len());
    assert("template"@.len() != "conditional"@.len());
    assert("now"@.len() != "derived"@.len());
    assert("weighted_enum"@.len() != "derived"@.len());
    assert("enum"@.len() != "derived"@.len());
    assert("pattern"@[0] != "derived"@[0]);
    assert("hex"@.len() != "derived"@.len());
    assert("distribution"@.len() != "derived"@.len());
    assert("template"@.len() != "derived"@.len());
    assert("conditional"@.len() != "derived"@.len());
}

proof fn histogram_keys()
    ensures
        "field"@ != "fixed_interval"@,
        "date_histogram"@ != "aggs"@,
        "terms"@ != "aggs"@,
{
    reveal_strlit("field");
    reveal_strlit("fixed_interval");
    reveal_strlit("date_histogram");
    reveal_strlit("aggs");
    reveal_strlit("terms");
    assert("field"@.len() != "fixed_interval"@.len());
    assert("date_histogram"@.len() != "aggs"@.len());
    assert("terms"@.len() != "aggs"@.len());
}

proof fn owner_keys()
    ensures
        "apiVersion"@ != "kind"@,
        "apiVersion"@ != "name"@,
        "kind"@ != "name"@,
        "apiVersion"@ != "uid"@,
        "kind"@ != "uid"@,
        "name"@ != "uid"@,
        "apiVersion"@ != "controller"@,
        "kind"@ != "controller"@,
        "name"@ != "controller"@,
        "uid"@ != "controller"@,
        "apiVersion"@ != "blockOwnerDeletion"@,
        "kind"@ != "blockOwnerDeletion"@,
        "name"@ != "blockOwnerDeletion"@,
        "uid"@ != "blockOwnerDeletion"@,
        "controller"@ != "blockOwnerDeletion"@,
        "requests"@ != "limits"@,
        "cpu"@ != "memory"@,
{
    reveal_strlit("apiVersion");
    reveal_strlit("kind");
    reveal_strlit("name");
    reveal_strlit("uid");
    reveal_strlit("controller");
    reveal_strlit("blockOwnerDeletion");
    reveal_strlit("requests");
    reveal_strlit("limits");
    reveal_strlit("cpu");
    reveal_strlit("memory");
    assert("apiVersion"@.len() != "kind"@.len());
    assert("apiVersion"@.len() != "name"@.len());
    assert("kind"@[0] != "name"@[0]);
    assert("apiVersion"@.len() != "uid"@.len());
    assert("kind"@.len() != "uid"@.len());
    assert("name"@.len() != "uid"@.len());
    assert("apiVersion"@[0] != "controller"@[0]);
    assert("kind"@.len() != "controller"@.len());
    assert("name"@.len() != "controller"@.len());
    assert("uid"@.len() != "controller"@.len());
    assert("apiVersion"@.len() != "blockOwnerDeletion"@.len());
    assert("kind"@.len() != "blockOwnerDeletion"@.len());
    assert("name"@.len() != "blockOwnerDeletion"@.len());
    assert("uid"@.len() != "blockOwnerDeletion"@.len());
    assert("controller"@.len() != "blockOwnerDeletion"@.len());
    assert("requests"@.len() != "limits"@.len());
    assert("cpu"@.len() != "memory"@.len());
}

// ---------------------------------------------------------------------------
// Scenarios
// ---------------------------------------------------------------------------

/// The sum of the first `n` weights, in billionths.
pub open spec fn weight_upto(queries: Seq<QueryView>, n: int) -> int
    decreases n,
{
    if n <= 0 {
        0
    } else {
        weight_upto(queries, n - 1) + (if queries[n - 1].weight_ppb is Some {
            queries[n - 1].weight_ppb->0 as int
        } else {
            0
        })
    }
}

proof fn weights_add_up(queries: Seq<QueryView>, n: int)
    requires
        0 <= n <= queries.len(),
    ensures
        model::sum(crate::validation::query_weights(queries).take(n)) == weight_upto(queries, n),
    decreases n,
{
    let all = crate::validation::query_weights(queries);
    if n > 0 {
        weights_add_up(queries, n - 1);
        model::sum_take(all, n - 1);
        assert(all[n - 1] == (match queries[n - 1].weight_ppb {
            Some(w) => w as int,
            None => 0,
        }));
    } else {
        assert(all.take(0) =~= Seq::<int>::empty());
    }
}

/// A scenario that is accepted has phases of half a minute at least. One that ingests events has
/// the six phases of an incident in their order, only asks what some stream writes, and has
/// workers and the time of its events in every stream. Weights of queries make up one, to a
/// hundredth.
pub proof fn accepted_scenarios_can_be_run(s: ScenarioView, i: int, k: int)
    requires
        s.complaints().len() == 0,
    ensures
        s.phases.len() > 0,
        0 <= i < s.phases.len() ==> s.phases[i].duration_seconds >= 30,
        s.stream_list().len() > 0 ==> s.phases.len() == 6 && s.phases[0].name == "baseline"@
            && s.phases[1].name == "incident_trigger"@ && s.phases[2].name == "ingestion_surge"@
            && s.phases[3].name == "overlap"@ && s.phases[4].name == "recovery"@
            && s.phases[5].name == "post_incident"@,
        0 <= i < s.stream_list().len() ==> ({
            let stream = s.stream_list()[i];
            &&& stream.ingest_replicas >= 1
            &&& exists|j: int|
                0 <= j < stream.schema.fields.len() && (#[trigger] stream.schema.fields[j]).name
                    == stream.schema.timestamp_field
            &&& 0 <= k < s.phases.len() ==> model::find(stream.ingest, s.phases[k].name) is Some
            &&& 0 <= k < s.stream_list().len() && k != i ==> s.stream_list()[k].name != stream.name
                && s.stream_list()[k].schema.index_name != stream.schema.index_name
        }),
        s.stream_list().len() > 0 && 0 <= i < s.queries.len() ==> exists|j: int|
            0 <= j < s.stream_list().len() && (#[trigger] s.stream_list()[j]).schema.index_name
                == s.queries[i].index,
        0 <= i < s.queries.len() && s.queries[i].weight_ppb is Some ==> 990_000_000 <= weight_upto(
            s.queries,
            s.queries.len() as int,
        ) <= 1_010_000_000,
{
    wellformed::accepted_when_well_formed(s);
    if s.stream_list().len() > 0 {
        let names = crate::validation::phase_names(s.phases);
        let standard = crate::validation::standard_phases();
        assert(names == standard);
        assert(names.len() == 6);
        assert(names[0] == s.phases[0].name && names[1] == s.phases[1].name && names[2]
            == s.phases[2].name && names[3] == s.phases[3].name && names[4] == s.phases[4].name
            && names[5] == s.phases[5].name);
    }
    if 0 <= i < s.stream_list().len() {
        let streams = s.streams->0;
        assert(wellformed::stream_is_fine(streams[i], s.phases));
        if 0 <= k < streams.len() && k < i {
            assert(streams[k].name != streams[i].name);
        }
        if 0 <= k < streams.len() && i < k {
            assert(streams[i].name != streams[k].name);
        }
        if 0 <= k < s.phases.len() {
            assert(model::find(streams[i].ingest, s.phases[k].name) is Some);
        }
    }
    if s.stream_list().len() > 0 && 0 <= i < s.queries.len() {
        assert(wellformed::is_written(s.stream_list(), s.queries[i].index));
    }
    if 0 <= i < s.queries.len() && s.queries[i].weight_ppb is Some {
        let all = crate::validation::query_weights(s.queries);
        assert(crate::validation::some_weight(s.queries));
        weights_add_up(s.queries, s.queries.len() as int);
        assert(all.take(s.queries.len() as int) =~= all);
    }
}

// ---------------------------------------------------------------------------
// Fields
// ---------------------------------------------------------------------------

proof fn texts_are_kept(v: Seq<Doc>, values: Seq<Seq<char>>, n: int)
    requires
        0 <= n <= v.len(),
        v.len() == values.len(),
        forall|i: int| 0 <= i < v.len() ==> #[trigger] v[i] == Doc::Text(values[i]),
    ensures
        fields::texts_upto(v, n) == values.take(n),
    decreases n,
{
    if n > 0 {
        texts_are_kept(v, values, n - 1);
        assert(v[n - 1] == Doc::Text(values[n - 1]));
        assert(values.take(n - 1).push(values[n - 1]) =~= values.take(n));
    } else {
        assert(values.take(0) =~= Seq::<Seq<char>>::empty());
    }
}

/// A field of listed values is drawn from all values of the list, in its order.
pub proof fn lists_are_those_configured(f: FieldView, v: Seq<Doc>, values: Seq<Seq<char>>)
    requires
        f.generator == "enum"@,
        f.config.get("values"@) == Some(Doc::Array(v)),
        v.len() == values.len(),
        forall|i: int| 0 <= i < v.len() ==> #[trigger] v[i] == Doc::Text(values[i]),
    ensures
        fields::generator(f) == Some(GeneratorView::StaticEnum { values }),
{
    kinds_of_fields();
    texts_are_kept(v, values, v.len() as int);
    assert(values.take(v.len() as int) =~= values);
}

/// A field of weighted values that do not change has the weights of its table.
pub proof fn fixed_weights_are_those_configured(f: FieldView, table: Doc)
    requires
        f.generator == "weighted_enum"@,
        f.config.get("baseline"@) is None,
        f.config.get("incident"@) is None,
        f.config.get("values"@) == Some(table),
        fields::choices(table) is Some,
    ensures
        fields::generator(f) == Some(
            GeneratorView::StaticWeightedEnum { choices: fields::choices(table)->0 },
        ),
{
    kinds_of_fields();
}

/// Weights and numbers are read in units of the eighteenth decimal place.
pub proof fn numbers_are_read_finely(n: nat, m: int)
    ensures
        fields::weight(Doc::Uint(n)) == n * 1_000_000_000_000_000_000,
        fields::weight(Doc::Int(m)) == m * 1_000_000_000_000_000_000,
        fields::weight(Doc::Null) == 1_000_000_000_000_000_000,
        fields::number(Doc::Uint(n)) == Some(n as int * 1_000_000_000_000_000_000),
        fields::number(Doc::Int(m)) == Some(m * 1_000_000_000_000_000_000),
{
}

/// A field that is named by a pattern has the pattern and the numbers that are configured; else
/// its service's name and a number from one to twenty.
pub proof fn patterns_are_those_configured(f: FieldView, p: Seq<char>, ids: Doc, min: u32, max: u32)
    requires
        f.generator == "pattern"@,
    ensures
        f.config.get("pattern"@) == Some(Doc::Text(p)) && f.config.get("pod_id"@) == Some(ids)
            && ids.get("min"@) == Some(Doc::Uint(min as nat)) && ids.get("max"@) == Some(
            Doc::Uint(max as nat),
        ) ==> (min <= max ==> fields::generator(f) == Some(
            GeneratorView::Pattern { pattern: p, range_min: min, range_max: max },
        )) && (min > max ==> fields::generator(f) is None),
        f.config.get("pattern"@) is None && f.config.get("pod_id"@) is None ==> fields::generator(f)
            == Some(
            GeneratorView::Pattern { pattern: "{service}-{id}"@, range_min: 1, range_max: 20 },
        ),
{
    kinds_of_fields();
}

/// A hexadecimal field is as long as is configured, and of sixteen digits where nothing is.
pub proof fn lengths_are_those_configured(f: FieldView, n: u64)
    requires
        f.generator == "hex"@,
    ensures
        f.config.get("length"@) == Some(Doc::Uint(n as nat)) ==> fields::generator(f) == Some(
            GeneratorView::Hex { length: n },
        ),
        f.config.get("length"@) is None ==> fields::generator(f) == Some(
            GeneratorView::Hex { length: 16 },
        ),
{
    kinds_of_fields();
}

/// The spread of a field's numbers is the one configured for the baseline, and for incidents
/// the one configured for those; where only one is, it holds always.
pub proof fn spreads_are_those_configured(
    f: FieldView,
    before: Doc,
    during: Doc,
    a: (u32, u32, u32, u32),
    b: (u32, u32, u32, u32),
)
    requires
        f.generator == "distribution"@,
        f.config.get("baseline"@) == Some(before),
        f.config.get("incident"@) == Some(during),
        before.get("mean"@) == Some(Doc::Uint(a.0 as nat)),
        before.get("stddev"@) == Some(Doc::Uint(a.1 as nat)),
        before.get("min"@) == Some(Doc::Uint(a.2 as nat)),
        before.get("max"@) == Some(Doc::Uint(a.3 as nat)),
        during.get("mean"@) == Some(Doc::Uint(b.0 as nat)),
        during.get("stddev"@) == Some(Doc::Uint(b.1 as nat)),
        during.get("min"@) == Some(Doc::Uint(b.2 as nat)) && during.get("max"@) == Some(
            Doc::Uint(b.3 as nat),
        ) || during.get("min"@) is None && during.get("max"@) is None && b.2 == a.2 && b.3 == a.3,
        a.2 <= a.3,
        b.2 <= b.3,
    ensures
        ({
            let g = fields::generator(f);
            let s = g->0->spread;
            &&& g is Some && g->0 is Distribution
            &&& s.range(false).mean == a.0 * 1_000_000_000_000_000_000
            &&& s.range(false).stddev == a.1 * 1_000_000_000_000_000_000
            &&& s.range(false).min == a.2 * 1_000_000_000_000_000_000
            &&& s.range(false).max == a.3 * 1_000_000_000_000_000_000
            &&& s.range(true).mean == b.0 * 1_000_000_000_000_000_000
            &&& s.range(true).stddev == b.1 * 1_000_000_000_000_000_000
            &&& s.range(true).min == b.2 * 1_000_000_000_000_000_000
            &&& s.range(true).max == b.3 * 1_000_000_000_000_000_000
        }),
{
    kinds_of_fields();
}

proof fn templates_are_found(m: Seq<(Seq<char>, Doc)>, n: int, k: int)
    requires
        0 <= k < n <= m.len(),
        m[k].1 is Array,
        forall|j: int| k < j < n ==> (#[trigger] m[j]).0 != m[k].0,
    ensures
        model::find(fields::templates_upto(m, n), m[k].0) == Some(fields::texts_of(m[k].1)),
    decreases n,
{
    if n - 1 > k {
        templates_are_found(m, n - 1, k);
        assert(m[n - 1].0 != m[k].0);
    }
    if m[n - 1].1 is Array {
        model::bind_then_find(
            fields::templates_upto(m, n - 1),
            m[n - 1].0,
            fields::texts_of(m[n - 1].1),
            m[k].0,
        );
    }
}

/// A field of templates has, for each level, the templates of its list.
pub proof fn templates_are_those_configured(
    f: FieldView,
    m: Seq<(Seq<char>, Doc)>,
    k: int,
    v: Seq<Doc>,
    values: Seq<Seq<char>>,
)
    requires
        f.generator == "template"@,
        f.config.get("templates"@) == Some(Doc::Object(m)),
        0 <= k < m.len(),
        m[k].1 == Doc::Array(v),
        v.len() == values.len(),
        forall|i: int| 0 <= i < v.len() ==> #[trigger] v[i] == Doc::Text(values[i]),
        forall|j: int| k < j < m.len() ==> (#[trigger] m[j]).0 != m[k].0,
    ensures
        fields::generator(f) matches Some(GeneratorView::Template { templates }) && model::find(
            templates,
            m[k].0,
        ) == Some(values),
{
    kinds_of_fields();
    texts_are_kept(v, values, v.len() as int);
    assert(values.take(v.len() as int) =~= values);
    templates_are_found(m, m.len() as int, k);
}

/// A condition `field in [one, other]` is of that field and of these values.
pub proof fn conditions_are_read(field: Seq<char>, one: Seq<char>, other: Seq<char>)
    requires
        is_tight(field) && lacks(field, ' '),
        is_tight(one) && lacks(one, ',') && lacks(one, '[') && lacks(one, ']'),
        is_tight(other) && lacks(other, ',') && lacks(other, '[') && lacks(other, ']'),
    ensures
        fields::condition(field + " in "@ + ("["@ + one + ","@ + other + "]"@)) == (
            field,
            seq![one, other],
        ),
{
    reveal_strlit(" in ");
    reveal_strlit("[");
    reveal_strlit("]");
    reveal_strlit(",");
    let list = "["@ + one + ","@ + other + "]"@;
    let c = field + " in "@ + list;
    first_of(field, " in "@, list, 0);
    assert(c.take(field.len() as int) =~= field);
    assert(c.skip((field.len() + 4) as int) =~= list);
    tight_stays(field);
    tight_stays(one);
    tight_stays(other);
    let inside = one + ","@ + other;
    let behind = inside + "]"@;
    assert(list.take(1) =~= "["@);
    assert(list.skip(1) =~= behind);
    assert(is_tight(list));
    tight_stays(list);
    assert(behind[0] == one[0]);
    if text::begins(behind, "["@) {
        assert(behind.take(1)[0] == behind[0]);
    }
    assert(text::without_prefixes(behind, "["@) == behind);
    assert(text::without_prefixes(list, "["@) == behind);
    assert(behind.drop_last() =~= inside);
    assert(inside.last() == other.last());
    assert(other[other.len() - 1] != ']');
    assert(text::without_trailing(inside, ']') == inside);
    assert(text::without_trailing(behind, ']') == inside);
    assert(","@ =~= seq![',']);
    two_pieces(one, ","@, other, ',');
    assert(seq![one, other].map_values(|s: Seq<char>| text::trimmed(s)) =~= seq![one, other]);
}

/// A field that depends on another has the condition and the values that are configured.
pub proof fn conditions_are_those_configured(f: FieldView, condition: Seq<char>, table: Doc)
    requires
        f.generator == "conditional"@,
        f.config.get("condition"@) == Some(Doc::Text(condition)),
        f.config.get("values"@) == Some(table),
        fields::choices(table) is Some,
    ensures
        fields::generator(f) == Some(
            GeneratorView::Conditional {
                condition_field: fields::condition(condition).0,
                condition_values: fields::condition(condition).1,
                outcomes: fields::choices(table),
            },
        ),
{
    kinds_of_fields();
}

/// The other kinds of fields: the time, what follows from other fields, and what is not known.
pub proof fn other_fields_are_known_by_name(f: FieldView, expression: Seq<char>)
    ensures
        f.generator == "now"@ ==> fields::generator(f) == Some(GeneratorView::Timestamp),
        f.generator == "derived"@ && f.config.get("expression"@) == Some(Doc::Text(expression))
            ==> fields::generator(f) == Some(GeneratorView::Derived { expression }),
{
    kinds_of_fields();
}

// ---------------------------------------------------------------------------
// Requests
// ---------------------------------------------------------------------------

/// The words `date_histogram(field, interval=length)`.
pub open spec fn histogram_of(field: Seq<char>, length: Seq<char>) -> Seq<char> {
    "date_histogram("@ + (field + ","@ + (" interval="@ + length)) + ")"@
}

/// A name that says no more than itself.
pub open spec fn is_word(s: Seq<char>) -> bool {
    is_tight(s) && lacks(s, ',') && lacks(s, '(') && lacks(s, ')') && lacks(s, '=')
}

proof fn histogram_is_read(field: Seq<char>, length: Seq<char>)
    requires
        is_word(field),
        is_word(length),
    ensures
        is_tight(histogram_of(field, length)),
        text::begins(histogram_of(field, length), "date_histogram("@),
        !text::begins(histogram_of(field, length), "terms("@),
        dsl::histogram_args(histogram_of(field, length)) == seq![field, " interval="@ + length],
        dsl::interval_from(seq![field, " interval="@ + length], 0) == length,
{
    reveal_strlit("date_histogram(");
    reveal_strlit("terms(");
    reveal_strlit(",");
    reveal_strlit(")");
    reveal_strlit(" interval=");
    reveal_strlit("interval=");
    let second = " interval="@ + length;
    let inside = field + ","@ + second;
    let s = histogram_of(field, length);
    let head = "date_histogram("@;
    assert(s.take(15) =~= head);
    if text::begins(s, "terms("@) {
        assert(s.take(6)[0] == s[0]);
    }
    let behind = s.skip(15);
    assert(behind =~= inside + ")"@);
    assert(lacks(second, '(') && lacks(second, ',') && lacks(second, ')'));
    if text::begins(behind, head) {
        assert(behind.take(15)[14] == behind[14]);
        assert(head[14] == '(');
        if 14 < field.len() {
            assert(behind[14] == field[14]);
        } else if 14 < inside.len() && 14 > field.len() {
            assert(behind[14] == second[14 - field.len() - 1]);
        }
    }
    assert(text::without_prefixes(behind, head) == behind);
    assert(text::without_prefixes(s, head) == behind);
    assert(behind.drop_last() =~= inside);
    assert(inside.last() == length.last());
    assert(length[length.len() - 1] != ')');
    assert(text::without_trailing(inside, ')') == inside);
    assert(text::without_trailing(behind, ')') == inside);
    assert(","@ =~= seq![',']);
    two_pieces(field, ","@, second, ',');
    let args = seq![field, second];
    tight_stays(field);
    if text::begins(field, "interval="@) {
        assert(field.take(9)[8] == field[8]);
    }
    let named = "interval="@ + length;
    assert(second.skip(1) =~= named);
    assert(text::is_space(second[0]));
    assert(is_tight(named));
    tight_stays(named);
    assert(text::trimmed(second) == text::trimmed(named));
    assert(named.take(9) =~= "interval="@);
    assert(named.skip(9) =~= length);
    if text::begins(length, "interval="@) {
        assert(length.take(9)[8] == length[8]);
    }
    assert(text::without_prefixes(length, "interval="@) == length);
    assert(text::without_prefixes(named, "interval="@) == length);
    assert(args[0] == field && args[1] == second);
    assert(dsl::interval_from(args, 0) == dsl::interval_from(args, 1));
}

/// `date_histogram(field, interval=length)` counts by that time, in spans of that length.
pub proof fn histograms_are_by_their_field(field: Seq<char>, length: Seq<char>)
    requires
        is_word(field),
        is_word(length),
    ensures
        ({
            let d = member(
                member(dsl::single_agg_doc(histogram_of(field, length)), "agg_result"@),
                "date_histogram"@,
            );
            &&& member(d, "field"@) == Doc::Text(field)
            &&& member(d, "fixed_interval"@) == Doc::Text(length)
        }),
{
    broadcast use json::with_then_get;

    histogram_keys();
    histogram_is_read(field, length);
    tight_stays(field);
}

/// Within a histogram the aggregation that follows is made for every span.
pub proof fn histograms_hold_what_follows(
    parts: Seq<Seq<char>>,
    i: int,
    field: Seq<char>,
    length: Seq<char>,
)
    requires
        0 <= i < parts.len() - 1,
        is_word(field),
        is_word(length),
        text::trimmed(parts[i]) == histogram_of(field, length),
    ensures
        ({
            let d = member(dsl::nested_agg_doc(parts, i), "timeline"@);
            &&& member(member(d, "date_histogram"@), "field"@) == Doc::Text(field)
            &&& member(member(d, "date_histogram"@), "fixed_interval"@) == Doc::Text(length)
            &&& member(d, "aggs"@) == dsl::nested_agg_doc(parts, i + 1)
        }),
{
    broadcast use json::with_then_get;

    histogram_keys();
    histogram_is_read(field, length);
    tight_stays(field);
}

/// A field alone counts by its values.
pub proof fn fields_alone_count_by_their_values(field: Seq<char>)
    requires
        lacks(field, '('),
    ensures
        member(
            member(member(dsl::single_agg_doc(field), "agg_result"@), "terms"@),
            "field"@,
        ) == Doc::Text(field),
{
    broadcast use json::with_then_get;

    histogram_keys();
    reveal_strlit("terms(");
    reveal_strlit("date_histogram(");
    if text::begins(field, "terms("@) {
        assert(field.take(6)[5] == field[5]);
    }
    if text::begins(field, "date_histogram("@) {
        assert(field.take(15)[14] == field[14]);
    }
}

/// What a query becomes goes by its type: a search, an aggregation, or free text.
pub proof fn requests_go_by_the_type_of_the_query(
    q: QueryView,
    variables: Seq<(Seq<char>, Seq<char>)>,
)
    ensures
        ({
            let template = dsl::substituted(q.template, variables, variables.len() as int);
            let d = dsl::query_body_doc(q, variables);
            &&& q.query_type == "search"@ ==> d == dsl::search_doc(template, q)
            &&& q.query_type == "aggregation"@ ==> d == dsl::aggregation_request_doc(template)
            &&& q.query_type != "search"@ && q.query_type != "aggregation"@ ==> member(
                member(member(d, "query"@), "query_string"@),
                "query"@,
            ) == Doc::Text(template)
        }),
{
    broadcast use json::with_then_get;

    reveal_strlit("search");
    reveal_strlit("aggregation");
    assert("search"@.len() != "aggregation"@.len());
}

/// A connection is opened with what is configured of the gateway, in the warehouse where one
/// is.
pub proof fn connections_are_as_configured(pg: PgView)
    ensures
        text::begins(
            execution::connection_text(pg),
            "host="@ + pg.host + " port="@ + text::decimal(pg.port as nat) + " user="@ + pg.user
                + " password="@ + pg.password + " dbname="@ + pg.dbname,
        ),
        pg.warehouse.len() == 0 ==> text::ends(
            execution::connection_text(pg),
            " dbname="@ + pg.dbname,
        ),
        pg.warehouse.len() > 0 ==> text::ends(
            execution::connection_text(pg),
            " options='-c warehouse="@ + pg.warehouse + "'"@,
        ),
{
    let t = execution::connection_text(pg);
    let front = "host="@ + pg.host + " port="@ + text::decimal(pg.port as nat) + " user="@
        + pg.user + " password="@ + pg.password;
    let base = front + " dbname="@ + pg.dbname;
    assert(t.take(base.len() as int) =~= base);
    if pg.warehouse.len() == 0 {
        let x = " dbname="@ + pg.dbname;
        assert(base =~= front + x);
        assert(t.skip(t.len() - x.len()) =~= x);
    } else {
        let x = " options='-c warehouse="@ + pg.warehouse + "'"@;
        assert(t =~= base + x);
        assert(t.skip(t.len() - x.len()) =~= x);
    }
}

proof fn one_for_one(s: Seq<char>, from: char, to: char)
    ensures
        ({
            let r = text::replaced(s, seq![from], seq![to]);
            &&& r.len() == s.len()
            &&& forall|i: int|
                0 <= i < s.len() ==> #[trigger] r[i] == (if s[i] == from {
                    to
                } else {
                    s[i]
                })
        }),
    decreases s.len(),
{
    let a = seq![from];
    text::first_at_is_least(s, a, 0);
    assert forall|j: int| 0 <= j < s.len() && s[j] == from implies text::occurs_at(s, a, j) by {
        assert(s.subrange(j, j + 1) =~= a);
    }
    match text::first_at(s, a, 0) {
        Some(i) => {
            assert(s.subrange(i, i + 1)[0] == s[i]);
            let rest = s.skip(i + 1);
            one_for_one(rest, from, to);
            let r = text::replaced(s, a, seq![to]);
            assert(r == s.take(i) + seq![to] + text::replaced(rest, a, seq![to]));
            assert forall|j: int| 0 <= j < s.len() implies #[trigger] r[j] == (if s[j] == from {
                to
            } else {
                s[j]
            }) by {
                if j < i {
                    assert(!text::occurs_at(s, a, j));
                } else if j > i {
                    assert(rest[j - i - 1] == s[j]);
                }
            }
        },
        None => {},
    }
}

/// A file of statements is found where it is put: the entry under which it is kept is the name
/// by which it is looked for, which has an underscore for every slash of its path.
pub proof fn statements_are_found_where_they_are_put(path: Seq<char>)
    requires
        lacks(path, '\\'),
    ensures
        execution::mounted_file(path) == "/queries"@ + "/"@ + configmaps::sql_key(path),
        configmaps::sql_key(path).len() == path.len(),
        forall|i: int|
            0 <= i < path.len() ==> #[trigger] configmaps::sql_key(path)[i] == (if path[i] == '/' {
                '_'
            } else {
                path[i]
            }),
{
    reveal_strlit("/queries/");
    reveal_strlit("/queries");
    reveal_strlit("/");
    reveal_strlit("_");
    reveal_strlit("\\");
    assert("/"@ =~= seq!['/']);
    assert("_"@ =~= seq!['_']);
    assert("\\"@ =~= seq!['\\']);
    assert("/queries"@ + "/"@ =~= "/queries/"@);
    one_for_one(path, '/', '_');
    let once = text::replaced(path, "/"@, "_"@);
    one_for_one(once, '\\', '_');
    assert(configmaps::sql_key(path) =~= once);
}

/// The statement of a file is looked for where the file is put. One without a time of its own
/// has ten seconds, and the statements of a category share a connection.
pub proof fn statements_have_their_place_and_time(q: QueryView)
    ensures
        (q.sql is None || q.sql->0.len() == 0) && q.sql_file is Some ==> execution::sql_text(q)
            == SqlTextView::File(execution::mounted_file(q.sql_file->0)),
        q.timeout_ms == 0 ==> execution::sql_timeout(q) == 10_000,
        q.timeout_ms > 0 ==> execution::sql_timeout(q) == q.timeout_ms,
        q.category is Some ==> execution::client_key(q) == q.category->0,
        q.category is None ==> execution::client_key(q) == q.name,
{
}

proof fn files_are_found(files: Seq<(Seq<char>, Seq<char>)>, n: int, k: int)
    requires
        0 <= k < n <= files.len(),
        forall|j: int|
            k < j < n ==> configmaps::sql_key((#[trigger] files[j]).0) != configmaps::sql_key(
                files[k].0,
            ),
    ensures
        model::find(
            configmaps::sql_entries(files, n),
            configmaps::sql_key(files[k].0),
        ) == Some(files[k].1),
    decreases n,
{
    if n - 1 > k {
        files_are_found(files, n - 1, k);
        assert(configmaps::sql_key(files[n - 1].0) != configmaps::sql_key(files[k].0));
    }
    model::bind_then_find(
        configmaps::sql_entries(files, n - 1),
        configmaps::sql_key(files[n - 1].0),
        files[n - 1].1,
        configmaps::sql_key(files[k].0),
    );
}

/// Every file of statements is kept, under its entry, as it is.
pub proof fn files_of_statements_are_kept(files: Seq<(Seq<char>, Seq<char>)>, k: int)
    requires
        0 <= k < files.len(),
        forall|j: int|
            k < j < files.len() ==> configmaps::sql_key((#[trigger] files[j]).0)
                != configmaps::sql_key(files[k].0),
    ensures
        model::find(
            configmaps::sql_entries(files, files.len() as int),
            configmaps::sql_key(files[k].0),
        ) == Some(files[k].1),
{
    files_are_found(files, files.len() as int, k);
}

/// A group whose warehouse has an endpoint asks there; one whose has none asks at the first.
pub proof fn groups_ask_at_their_warehouse(
    endpoints: Seq<(Seq<char>, Seq<char>)>,
    name: Seq<char>,
)
    ensures
        model::find(endpoints, name) is Some ==> configmaps::warehouse_endpoint(endpoints, name)
            == model::find(endpoints, name)->0,
        model::find(endpoints, name) is None && endpoints.len() > 0
            ==> configmaps::warehouse_endpoint(endpoints, name) == endpoints[0].1,
        endpoints.len() == 0 ==> configmaps::warehouse_endpoint(endpoints, name).len() == 0,
{
    if endpoints.len() == 0 {
        assert(model::find(endpoints, name) is None);
    }
}

/// What all workers of a run are told: the run's name and seed, the brokers, the target, where
/// the controller and the aggregator of the run are, the session, and the time that queries
/// have.
pub proof fn workers_share_what_they_are_told(
    run_name: Seq<char>,
    run_seed: u64,
    s: ScenarioView,
    adapter: Seq<char>,
    target_config: Doc,
    kafka: Seq<char>,
    run: IdentityView,
)
    ensures
        ({
            let c = configmaps::common(
                run_name,
                run_seed,
                s,
                adapter,
                target_config,
                kafka,
                run,
            );
            let namespace = if run.namespace is Some {
                run.namespace->0
            } else {
                "default"@
            };
            &&& c.run_name == run_name && c.run_seed == run_seed && c.kafka == kafka
            &&& c.adapter == adapter && c.target_config == target_config
            &&& c.phase_controller == configmaps::phase_controller_addr(run_name, namespace)
            &&& c.aggregator == configmaps::aggregator_addr(run_name, namespace)
            &&& c.session == docs::opt_session_doc(configmaps::effective_session(s))
            &&& c.default_timeout_ms == s.default_timeout_ms
        }),
{
}

// ---------------------------------------------------------------------------
// Resources
// ---------------------------------------------------------------------------

/// What belongs to a run names it as its owner, by its kind, its name and its identifier, so
/// that it goes with the run.
pub proof fn resources_name_their_owner(run: IdentityView)
    ensures
        ({
            let d = resources::owner_doc(run);
            &&& member(d, "apiVersion"@) == Doc::Text("incidentbench.io/v1alpha1"@)
            &&& member(d, "kind"@) == Doc::Text("IncidentBenchRun"@)
            &&& member(d, "name"@) == Doc::Text(run.name)
            &&& member(d, "uid"@) == Doc::Text(run.uid)
            &&& member(d, "controller"@) == Doc::Bool(true)
            &&& member(d, "blockOwnerDeletion"@) == Doc::Bool(true)
        }),
{
    broadcast use json::with_then_get;

    owner_keys();
}

/// A ConfigMap of a run has its name, is where the run is, belongs to the run, and is labelled
/// with the run and its part of it.
pub proof fn config_maps_belong_to_the_run(
    name: Seq<char>,
    run_name: Seq<char>,
    component: Seq<char>,
    run: IdentityView,
)
    ensures
        ({
            let d = resources::configmap_metadata_doc(name, run_name, component, run);
            let labels = member(d, "labels"@);
            &&& member(d, "name"@) == Doc::Text(name)
            &&& run.namespace is Some ==> member(d, "namespace"@) == Doc::Text(run.namespace->0)
            &&& member(d, "ownerReferences"@) == Doc::array().item(resources::owner_doc(run))
            &&& member(labels, "app.kubernetes.io/name"@) == Doc::Text("incidentbench"@)
            &&& member(labels, "app.kubernetes.io/instance"@) == Doc::Text(run_name)
            &&& member(labels, "app.kubernetes.io/component"@) == Doc::Text(component)
        }),
{
    broadcast use json::with_then_get;

    map_keys();
}

/// Workers get the resources that are asked for, and a modest share where nothing is.
pub proof fn resources_are_those_asked_for(r: ResourceSpec)
    ensures
        ({
            let d = resources::resources_doc(Some(r));
            &&& member(d, "requests"@) == resources::amounts_doc(model::opt_vmap(r.requests))
            &&& member(d, "limits"@) == resources::amounts_doc(model::opt_vmap(r.limits))
        }),
        ({
            let d = resources::resources_doc(None);
            &&& member(member(d, "requests"@), "cpu"@) == Doc::Text("100m"@)
            &&& member(member(d, "requests"@), "memory"@) == Doc::Text("128Mi"@)
            &&& member(member(d, "limits"@), "cpu"@) == Doc::Text("2"@)
            &&& member(member(d, "limits"@), "memory"@) == Doc::Text("2Gi"@)
        }),
{
    broadcast use json::with_then_get;

    owner_keys();
}

// ---------------------------------------------------------------------------
// Seeds and fingerprints
// ---------------------------------------------------------------------------

proof fn bytes_len(n: nat, count: nat)
    ensures
        seeds::low_bytes(n, count).len() == count,
    decreases count,
{
    if count > 0 {
        bytes_len(n / 256, (count - 1) as nat);
    }
}

/// The seeds of a worker's queries and of its sessions are made of different bytes, and so are
/// those of two runs. There are ten thousand indexes of workers.
pub proof fn seeds_differ_by_run_and_use(run: u64, other: u64, name: Seq<char>)
    ensures
        seeds::query_seed_bytes(run, name, 42) != seeds::query_seed_bytes(run, name, 99),
        seeds::QUERY_SALT == 42,
        seeds::SESSION_SALT == 99,
        seeds::WORKER_INDEXES == 10_000,
        seeds::query_seed_bytes(run, name, 42).len() == 16 + seeds::text_bytes(name).len(),
        run % 256 != other % 256 ==> seeds::query_seed_bytes(run, name, 42)
            != seeds::query_seed_bytes(other, name, 42),
{
    let a = seeds::query_seed_bytes(run, name, 42);
    let b = seeds::query_seed_bytes(run, name, 99);
    bytes_len(run as nat, 8);
    bytes_len(other as nat, 8);
    bytes_len(42, 8);
    bytes_len(99, 8);
    assert(seeds::low_bytes(42, 8)[0] == 42u8);
    assert(seeds::low_bytes(99, 8)[0] == 99u8);
    let at = 8 + seeds::text_bytes(name).len() as int;
    assert(a[at] == 42u8);
    assert(b[at] == 99u8);
    let c = seeds::query_seed_bytes(other, name, 42);
    assert(a[0] == (run % 256) as u8);
    assert(c[0] == (other % 256) as u8);
}

/// A fingerprint has two digits for every byte, which denote it.
pub proof fn fingerprints_have_two_digits_a_byte(bytes: Seq<u8>, i: int)
    requires
        0 <= i < bytes.len(),
    ensures
        seeds::hex(bytes).len() == 2 * bytes.len(),
        seeds::hex(bytes)[2 * i] == "0123456789abcdef"@[bytes[i] as int / 16],
        seeds::hex(bytes)[2 * i + 1] == "0123456789abcdef"@[bytes[i] as int % 16],
    decreases bytes.len(),
{
    reveal_strlit("0123456789abcdef");
    hex_len(bytes.drop_last());
    if i < bytes.len() - 1 {
        fingerprints_have_two_digits_a_byte(bytes.drop_last(), i);
    }
}

proof fn hex_len(bytes: Seq<u8>)
    ensures
        seeds::hex(bytes).len() == 2 * bytes.len(),
    decreases bytes.len(),
{
    if bytes.len() > 0 {
        hex_len(bytes.drop_last());
    }
}

} // verus!
