//! When a scenario is well formed: every complaint about one that is not, in order.
use vstd::prelude::*;
use vstd::string::*;
use crate::decimal;
use crate::model;
use crate::scenario::{
    DataStream, GroupView, PhaseDef, PhaseView, QueryDef, QueryGroup, QueryView, Scenario,
    ScenarioView, Schema, SchemaView, StreamView, MIN_PHASE_SECONDS, ONE_PPB, WEIGHT_TOLERANCE_PPB,
};
use crate::text;

verus! {

/// How `{:?}` writes a text: between quotes, with escapes.
pub uninterp spec fn quoted(s: Seq<char>) -> Seq<char>;

/// The `Debug` form of a `str`. Its rules of escaping follow tables of the Unicode
/// standard; the result is named and depends on the text alone.
#[verifier::external_body]
fn quote(s: &str) -> (r: String)
    ensures
        r@ == quoted(s@),
{
    format!("{:?}", s)
}

/// The texts, each in quotes, separated by commas.
pub open spec fn quoted_items(names: Seq<Seq<char>>) -> Seq<char> {
    text::joined(names.map_values(|n: Seq<char>| quoted(n)), ", "@)
}

pub fn quote_items(names: &Vec<String>) -> (r: String)
    ensures
        r@ == quoted_items(text::views(names@)),
{
    broadcast use model::views_push, model::take_push;

    let mut out: Vec<String> = Vec::new();
    let mut i: usize = 0;
    let ghost all = text::views(names@).map_values(|n: Seq<char>| quoted(n));
    assert(text::views(out@) =~= all.take(0));
    while i < names.len()
        invariant
            i <= names@.len(),
            all == text::views(names@).map_values(|n: Seq<char>| quoted(n)),
            text::views(out@) == all.take(i as int),
        decreases names@.len() - i,
    {
        broadcast use model::views_push, model::take_push;

        out.push(quote(names[i].as_str()));
        i += 1;
    }
    assert(all.take(i as int) =~= all);
    text::join(&out, ", ")
}

/// The phases of a standard incident, in order.
pub open spec fn standard_phases() -> Seq<Seq<char>> {
    seq![
        "baseline"@,
        "incident_trigger"@,
        "ingestion_surge"@,
        "overlap"@,
        "recovery"@,
        "post_incident"@,
    ]
}

fn standard_phase_names() -> (r: Vec<String>)
    ensures
        text::views(r@) == standard_phases(),
{
    let r = vec![
        text::owned("baseline"),
        text::owned("incident_trigger"),
        text::owned("ingestion_surge"),
        text::owned("overlap"),
        text::owned("recovery"),
        text::owned("post_incident"),
    ];
    assert(text::views(r@) =~= standard_phases());
    r
}

fn same_list(a: &Vec<String>, b: &Vec<String>) -> (r: bool)
    ensures
        r == (text::views(a@) == text::views(b@)),
{
    if a.len() != b.len() {
        assert(text::views(a@).len() != text::views(b@).len());
        return false;
    }
    let mut i: usize = 0;
    while i < a.len()
        invariant
            i <= a@.len() == b@.len(),
            forall|k: int| 0 <= k < i ==> (#[trigger] a@[k])@ == b@[k]@,
        decreases a@.len() - i,
    {
        if !text::same(a[i].as_str(), b[i].as_str()) {
            assert(text::views(a@)[i as int] != text::views(b@)[i as int]);
            return false;
        }
        i += 1;
    }
    assert(text::views(a@) =~= text::views(b@));
    true
}

/// The names of the phases.
pub open spec fn phase_names(phases: Seq<PhaseView>) -> Seq<Seq<char>> {
    phases.map_values(|p: PhaseView| p.name)
}

fn names_of_phases(phases: &Vec<PhaseDef>) -> (r: Vec<String>)
    ensures
        text::views(r@) == phase_names(model::vmap(phases@)),
{
    broadcast use model::views_push, model::take_push;

    let mut out: Vec<String> = Vec::new();
    let mut i: usize = 0;
    let ghost all = phase_names(model::vmap(phases@));
    assert(text::views(out@) =~= all.take(0));
    while i < phases.len()
        invariant
            i <= phases@.len(),
            all == phase_names(model::vmap(phases@)),
            text::views(out@) == all.take(i as int),
        decreases phases@.len() - i,
    {
        broadcast use model::views_push, model::take_push;

        out.push(phases[i].name.clone());
        i += 1;
    }
    assert(all.take(i as int) =~= all);
    out
}

/// The texts without repetitions, each at its first place.
pub open spec fn distinct(s: Seq<Seq<char>>) -> Seq<Seq<char>>
    decreases s.len(),
{
    if s.len() == 0 {
        s
    } else {
        let before = distinct(s.drop_last());
        if before.contains(s.last()) {
            before
        } else {
            before.push(s.last())
        }
    }
}

/// The indexes that the streams write to.
pub open spec fn index_names(streams: Seq<StreamView>) -> Seq<Seq<char>> {
    streams.map_values(|s: StreamView| s.schema.index_name)
}

fn distinct_indexes(streams: &Vec<DataStream>) -> (r: Vec<String>)
    ensures
        text::views(r@) == distinct(index_names(model::vmap(streams@))),
{
    broadcast use model::views_push;

    let mut out: Vec<String> = Vec::new();
    let mut i: usize = 0;
    let ghost all = index_names(model::vmap(streams@));
    assert(text::views(out@) =~= distinct(all.take(0)));
    while i < streams.len()
        invariant
            i <= streams@.len(),
            all == index_names(model::vmap(streams@)),
            text::views(out@) == distinct(all.take(i as int)),
        decreases streams@.len() - i,
    {
        broadcast use model::views_push;

        proof {
            assert(all.take(i + 1).drop_last() =~= all.take(i as int));
            assert(all.take(i + 1).last() == streams@[i as int].schema.index_name@);
        }
        if !text::list_has(&out, streams[i].schema.index_name.as_str()) {
            out.push(streams[i].schema.index_name.clone());
        }
        i += 1;
    }
    assert(all.take(i as int) =~= all);
    out
}

/// Nothing is lost by dropping repetitions.
pub proof fn distinct_keeps_all(s: Seq<Seq<char>>, x: Seq<char>)
    ensures
        distinct(s).contains(x) <==> s.contains(x),
    decreases s.len(),
{
    if s.len() > 0 {
        let front = s.drop_last();
        distinct_keeps_all(front, x);
        let d = distinct(front);
        if s.contains(x) {
            let k = choose|k: int| 0 <= k < s.len() && s[k] == x;
            if k < front.len() {
                assert(front[k] == x);
            }
            if !d.contains(s.last()) {
                assert(d.push(s.last()).last() == s.last());
                if d.contains(x) {
                    let m = choose|m: int| 0 <= m < d.len() && d[m] == x;
                    assert(d.push(s.last())[m] == x);
                }
            }
        }
        if distinct(s).contains(x) {
            if d.contains(x) {
                let m = choose|m: int| 0 <= m < front.len() && front[m] == x;
                assert(s[m] == x);
            } else {
                assert(x == s.last());
                assert(s[s.len() - 1] == x);
            }
        }
    }
}

/// The complaints, with one more where something is wrong.
pub open spec fn complain(acc: Seq<Seq<char>>, wrong: bool, message: Seq<char>) -> Seq<Seq<char>> {
    if wrong {
        acc.push(message)
    } else {
        acc
    }
}

/// An earlier stream has the same name.
pub open spec fn name_repeats(streams: Seq<StreamView>, i: int) -> bool {
    exists|j: int| 0 <= j < i && (#[trigger] streams[j]).name == streams[i].name
}

/// An earlier stream writes to the same index.
pub open spec fn index_repeats(streams: Seq<StreamView>, i: int) -> bool {
    exists|j: int|
        0 <= j < i && (#[trigger] streams[j]).schema.index_name == streams[i].schema.index_name
}

/// The field that holds the time of an event is among the fields.
pub open spec fn has_timestamp(schema: SchemaView) -> bool {
    exists|k: int|
        0 <= k < schema.fields.len() && (#[trigger] schema.fields[k]).name == schema.timestamp_field
}

/// A complaint for each of the first `n` phases for which the stream says nothing.
pub open spec fn missing_phases(
    acc: Seq<Seq<char>>,
    stream: StreamView,
    phases: Seq<PhaseView>,
    n: int,
) -> Seq<Seq<char>>
    decreases n,
{
    if n <= 0 {
        acc
    } else {
        complain(
            missing_phases(acc, stream, phases, n - 1),
            model::find(stream.ingest, phases[n - 1].name) is None,
            "Stream '"@ + stream.name + "': missing ingest config for phase '"@ + phases[n
                - 1].name + "'"@,
        )
    }
}

/// The complaints about one stream.
pub open spec fn stream_complaints(
    acc: Seq<Seq<char>>,
    streams: Seq<StreamView>,
    i: int,
    phases: Seq<PhaseView>,
) -> Seq<Seq<char>> {
    let s = streams[i];
    let a = complain(
        acc,
        name_repeats(streams, i),
        "Duplicate data stream name: '"@ + s.name + "'"@,
    );
    let b = complain(
        a,
        index_repeats(streams, i),
        "Duplicate index_name: '"@ + s.schema.index_name + "'"@,
    );
    let c = complain(
        b,
        s.schema.fields.len() == 0,
        "Stream '"@ + s.name + "': schema must have at least one field"@,
    );
    let d = complain(
        c,
        !has_timestamp(s.schema),
        "Stream '"@ + s.name + "': timestamp field '"@ + s.schema.timestamp_field
            + "' not found in schema fields"@,
    );
    let e = complain(
        d,
        s.ingest_replicas == 0,
        "Stream '"@ + s.name + "': ingest_replicas must be >= 1"@,
    );
    missing_phases(e, s, phases, phases.len() as int)
}

/// The complaints about the first `n` streams.
pub open spec fn streams_complaints(
    acc: Seq<Seq<char>>,
    streams: Seq<StreamView>,
    phases: Seq<PhaseView>,
    n: int,
) -> Seq<Seq<char>>
    decreases n,
{
    if n <= 0 {
        acc
    } else {
        stream_complaints(streams_complaints(acc, streams, phases, n - 1), streams, n - 1, phases)
    }
}

/// A complaint for each of the first `n` phases that is too short.
pub open spec fn short_phases(acc: Seq<Seq<char>>, phases: Seq<PhaseView>, n: int) -> Seq<Seq<char>>
    decreases n,
{
    if n <= 0 {
        acc
    } else {
        let p = phases[n - 1];
        complain(
            short_phases(acc, phases, n - 1),
            p.duration_seconds < MIN_PHASE_SECONDS,
            "Phase '"@ + p.name + "' duration must be at least 30 seconds, got "@
                + text::decimal(p.duration_seconds as nat),
        )
    }
}

/// A complaint for each of the first `n` queries to an index that no stream writes to.
pub open spec fn lost_queries(
    acc: Seq<Seq<char>>,
    queries: Seq<QueryView>,
    indexes: Seq<Seq<char>>,
    n: int,
) -> Seq<Seq<char>>
    decreases n,
{
    if n <= 0 {
        acc
    } else {
        let q = queries[n - 1];
        complain(
            lost_queries(acc, queries, indexes, n - 1),
            !indexes.contains(q.index),
            "Query '"@ + q.name + "' references unknown index '"@ + q.index
                + "'. Valid indexes: {"@ + quoted_items(indexes) + "}"@,
        )
    }
}

/// Weights by name, as numbers.
pub open spec fn weights(entries: Seq<(Seq<char>, i64)>) -> Seq<int> {
    entries.map_values(|e: (Seq<char>, i64)| e.1 as int)
}

/// The weights of the groups.
pub open spec fn group_weights(groups: Seq<GroupView>) -> Seq<int> {
    groups.map_values(|g: GroupView| g.weight_ppb as int)
}

/// The weights that the queries have of themselves; one of which nothing is said has none.
pub open spec fn query_weights(queries: Seq<QueryView>) -> Seq<int> {
    queries.map_values(
        |q: QueryView|
            match q.weight_ppb {
                Some(w) => w as int,
                None => 0,
            },
    )
}

/// Some query has a weight of itself.
pub open spec fn some_weight(queries: Seq<QueryView>) -> bool {
    exists|k: int| 0 <= k < queries.len() && (#[trigger] queries[k]).weight_ppb is Some
}

/// A sum of weights that is too far from one.
pub open spec fn off_one(total: int) -> bool {
    total - ONE_PPB > WEIGHT_TOLERANCE_PPB || ONE_PPB - total > WEIGHT_TOLERANCE_PPB
}

/// The sum of weights with three decimals.
pub open spec fn weight_text(total: int) -> Seq<char> {
    decimal::signed_fixed(total, ONE_PPB as nat, 3)
}

/// A query of that name exists.
pub open spec fn query_named(queries: Seq<QueryView>, name: Seq<char>) -> bool {
    exists|k: int| 0 <= k < queries.len() && (#[trigger] queries[k]).name == name
}

/// A complaint for each of the first `n` weights for a query that does not exist.
pub open spec fn unknown_overrides(
    acc: Seq<Seq<char>>,
    group: Seq<char>,
    overrides: Seq<(Seq<char>, i64)>,
    queries: Seq<QueryView>,
    n: int,
) -> Seq<Seq<char>>
    decreases n,
{
    if n <= 0 {
        acc
    } else {
        complain(
            unknown_overrides(acc, group, overrides, queries, n - 1),
            !query_named(queries, overrides[n - 1].0),
            "Query group '"@ + group + "' mix_override references unknown query '"@ + overrides[n
                - 1].0 + "'"@,
        )
    }
}

/// An earlier group has the same name.
pub open spec fn group_repeats(groups: Seq<GroupView>, i: int) -> bool {
    exists|j: int| 0 <= j < i && (#[trigger] groups[j]).name == groups[i].name
}

/// The complaints about one group.
pub open spec fn group_complaints(
    acc: Seq<Seq<char>>,
    groups: Seq<GroupView>,
    i: int,
    queries: Seq<QueryView>,
) -> Seq<Seq<char>> {
    let g = groups[i];
    let a = complain(
        acc,
        group_repeats(groups, i),
        "Duplicate query group name: '"@ + g.name + "'"@,
    );
    let b = complain(
        a,
        g.weight_ppb <= 0,
        "Query group '"@ + g.name + "' weight must be positive, got "@ + decimal::signed_shortest(
            g.weight_ppb as int,
            9,
        ),
    );
    match g.mix_override {
        None => b,
        Some(overrides) => complain(
            unknown_overrides(b, g.name, overrides, queries, overrides.len() as int),
            off_one(model::sum(weights(overrides))),
            "Query group '"@ + g.name + "' mix_override weights must sum to 1.0, got "@
                + weight_text(model::sum(weights(overrides))),
        ),
    }
}

/// The complaints about the first `n` groups.
pub open spec fn groups_complaints(
    acc: Seq<Seq<char>>,
    groups: Seq<GroupView>,
    queries: Seq<QueryView>,
    n: int,
) -> Seq<Seq<char>>
    decreases n,
{
    if n <= 0 {
        acc
    } else {
        group_complaints(groups_complaints(acc, groups, queries, n - 1), groups, n - 1, queries)
    }
}

impl ScenarioView {
    /// Events are ingested: there are streams.
    pub open spec fn has_ingest(self) -> bool {
        self.streams is Some && self.streams->0.len() > 0
    }

    /// The streams, none where nothing is said.
    pub open spec fn stream_list(self) -> Seq<StreamView> {
        match self.streams {
            Some(s) => s,
            None => Seq::empty(),
        }
    }

    /// Every complaint about the scenario, in order.
    pub open spec fn complaints(self) -> Seq<Seq<char>> {
        let none = Seq::<Seq<char>>::empty();
        let a = match self.streams {
            Some(streams) => streams_complaints(
                complain(
                    none,
                    streams.len() == 0,
                    "data_streams must have at least one stream if specified"@,
                ),
                streams,
                self.phases,
                streams.len() as int,
            ),
            None => none,
        };
        let b = complain(
            a,
            self.phases.len() == 0,
            "Timeline must have at least one phase"@,
        );
        let c = complain(
            b,
            self.has_ingest() && phase_names(self.phases) != standard_phases(),
            "Timeline must have exactly these phases in order: ["@ + quoted_items(
                standard_phases(),
            ) + "], got: ["@ + quoted_items(phase_names(self.phases)) + "]"@,
        );
        let d = short_phases(c, self.phases, self.phases.len() as int);
        let e = if self.has_ingest() {
            lost_queries(
                d,
                self.queries,
                distinct(index_names(self.stream_list())),
                self.queries.len() as int,
            )
        } else {
            d
        };
        let w = complain(
            e,
            some_weight(self.queries) && off_one(model::sum(query_weights(self.queries))),
            "Query weights must sum to 1.0, got "@ + weight_text(
                model::sum(query_weights(self.queries)),
            ),
        );
        match self.groups {
            Some(groups) => {
                let f = complain(
                    w,
                    groups.len() == 0,
                    "query_groups must have at least one group if specified"@,
                );
                let g = complain(
                    f,
                    off_one(model::sum(group_weights(groups))),
                    "Query group weights must sum to 1.0, got "@ + weight_text(
                        model::sum(group_weights(groups)),
                    ),
                );
                groups_complaints(g, groups, self.queries, groups.len() as int)
            },
            None => w,
        }
    }
}

fn stream_name_repeats(streams: &Vec<DataStream>, i: usize) -> (r: bool)
    requires
        i < streams@.len(),
    ensures
        r == name_repeats(model::vmap(streams@), i as int),
{
    let ghost all = model::vmap(streams@);
    let mut j: usize = 0;
    while j < i
        invariant
            j <= i < streams@.len(),
            all == model::vmap(streams@),
            forall|k: int| 0 <= k < j ==> (#[trigger] all[k]).name != all[i as int].name,
        decreases i - j,
    {
        if text::same(streams[j].name.as_str(), streams[i].name.as_str()) {
            assert(all[j as int].name == all[i as int].name);
            return true;
        }
        assert(all[j as int].name == streams@[j as int].name@);
        j += 1;
    }
    false
}

fn stream_index_repeats(streams: &Vec<DataStream>, i: usize) -> (r: bool)
    requires
        i < streams@.len(),
    ensures
        r == index_repeats(model::vmap(streams@), i as int),
{
    let ghost all = model::vmap(streams@);
    let mut j: usize = 0;
    while j < i
        invariant
            j <= i < streams@.len(),
            all == model::vmap(streams@),
            forall|k: int|
                0 <= k < j ==> (#[trigger] all[k]).schema.index_name
                    != all[i as int].schema.index_name,
        decreases i - j,
    {
        if text::same(
            streams[j].schema.index_name.as_str(),
            streams[i].schema.index_name.as_str(),
        ) {
            assert(all[j as int].schema.index_name == all[i as int].schema.index_name);
            return true;
        }
        assert(all[j as int].schema.index_name == streams@[j as int].schema.index_name@);
        j += 1;
    }
    false
}

fn schema_has_timestamp(schema: &Schema) -> (r: bool)
    ensures
        r == has_timestamp(schema@),
{
    let mut k: usize = 0;
    while k < schema.fields.len()
        invariant
            k <= schema.fields@.len(),
            forall|m: int|
                0 <= m < k ==> (#[trigger] schema@.fields[m]).name != schema@.timestamp_field,
        decreases schema.fields@.len() - k,
    {
        assert(schema@.fields[k as int].name == schema.fields@[k as int].name@);
        if text::same(schema.fields[k].name.as_str(), schema.timestamp_field.as_str()) {
            return true;
        }
        k += 1;
    }
    false
}

fn check_stream(
    errors: &mut Vec<String>,
    streams: &Vec<DataStream>,
    i: usize,
    phases: &Vec<PhaseDef>,
)
    requires
        i < streams@.len(),
    ensures
        text::views(final(errors)@) == stream_complaints(
            text::views(old(errors)@),
            model::vmap(streams@),
            i as int,
            model::vmap(phases@),
        ),
{
    broadcast use model::views_push;

    let ghost acc = text::views(errors@);
    let stream = &streams[i];
    let name = stream.name.as_str();
    assert(model::vmap(streams@)[i as int] == stream@);
    if stream_name_repeats(streams, i) {
        errors.push(text::join3("Duplicate data stream name: '", name, "'"));
    }
    if stream_index_repeats(streams, i) {
        errors.push(
            text::join3("Duplicate index_name: '", stream.schema.index_name.as_str(), "'"),
        );
    }
    if stream.schema.fields.len() == 0 {
        errors.push(text::join3("Stream '", name, "': schema must have at least one field"));
    }
    if !schema_has_timestamp(&stream.schema) {
        errors.push(
            text::join5(
                "Stream '",
                name,
                "': timestamp field '",
                stream.schema.timestamp_field.as_str(),
                "' not found in schema fields",
            ),
        );
    }
    if stream.ingest_replicas == 0 {
        errors.push(text::join3("Stream '", name, "': ingest_replicas must be >= 1"));
    }
    let ghost e = text::views(errors@);
    let mut n: usize = 0;
    while n < phases.len()
        invariant
            n <= phases@.len(),
            name@ == stream@.name,
            text::views(errors@) == missing_phases(e, stream@, model::vmap(phases@), n as int),
        decreases phases@.len() - n,
    {
        broadcast use model::views_push;

        assert(model::vmap(phases@)[n as int].name == phases@[n as int].name@);
        if model::find_in(&stream.ingest, phases[n].name.as_str()).is_none() {
            errors.push(
                text::join5(
                    "Stream '",
                    name,
                    "': missing ingest config for phase '",
                    phases[n].name.as_str(),
                    "'",
                ),
            );
        }
        n += 1;
    }
}

fn sum_weights(entries: &Vec<(String, i64)>) -> (r: i128)
    ensures
        r == model::sum(weights(model::vmap(entries@))),
        r > i128::MIN,
{
    let ghost all = weights(model::vmap(entries@));
    let len: usize = entries.len();
    let mut total: i128 = 0;
    let mut i: usize = 0;
    assert(all.take(0) =~= Seq::<int>::empty());
    while i < len
        invariant
            i <= len == entries@.len(),
            all == weights(model::vmap(entries@)),
            total == model::sum(all.take(i as int)),
            -(i * 0x8000_0000_0000_0000) <= total <= i * 0x8000_0000_0000_0000,
        decreases len - i,
    {
        proof {
            model::sum_take(all, i as int);
            assert(all[i as int] == entries@[i as int].1);
        }
        total = total + entries[i].1 as i128;
        i += 1;
    }
    assert(all.take(i as int) =~= all);
    total
}

fn sum_group_weights(groups: &Vec<QueryGroup>) -> (r: i128)
    ensures
        r == model::sum(group_weights(model::vmap(groups@))),
        r > i128::MIN,
{
    let ghost all = group_weights(model::vmap(groups@));
    let len: usize = groups.len();
    let mut total: i128 = 0;
    let mut i: usize = 0;
    assert(all.take(0) =~= Seq::<int>::empty());
    while i < len
        invariant
            i <= len == groups@.len(),
            all == group_weights(model::vmap(groups@)),
            total == model::sum(all.take(i as int)),
            -(i * 0x8000_0000_0000_0000) <= total <= i * 0x8000_0000_0000_0000,
        decreases len - i,
    {
        proof {
            model::sum_take(all, i as int);
            assert(all[i as int] == groups@[i as int].weight_ppb);
        }
        total = total + groups[i].weight_ppb as i128;
        i += 1;
    }
    assert(all.take(i as int) =~= all);
    total
}

/// Whether some query has a weight of itself, and the sum of those weights.
fn sum_query_weights(queries: &Vec<QueryDef>) -> (r: (bool, i128))
    ensures
        r.0 == some_weight(model::vmap(queries@)),
        r.1 == model::sum(query_weights(model::vmap(queries@))),
        r.1 > i128::MIN,
{
    let ghost qv = model::vmap(queries@);
    let ghost all = query_weights(qv);
    let len: usize = queries.len();
    let mut some: bool = false;
    let mut total: i128 = 0;
    let mut i: usize = 0;
    assert(all.take(0) =~= Seq::<int>::empty());
    while i < len
        invariant
            i <= len == queries@.len(),
            qv == model::vmap(queries@),
            all == query_weights(qv),
            some == exists|k: int| 0 <= k < i && (#[trigger] qv[k]).weight_ppb is Some,
            total == model::sum(all.take(i as int)),
            -(i * 0x8000_0000_0000_0000) <= total <= i * 0x8000_0000_0000_0000,
        decreases len - i,
    {
        assert(qv[i as int] == queries@[i as int]@);
        proof {
            model::sum_take(all, i as int);
        }
        match queries[i].weight_ppb {
            Some(w) => {
                assert(qv[i as int].weight_ppb is Some);
                some = true;
                total = total + w as i128;
            },
            None => {},
        }
        i += 1;
    }
    assert(all.take(i as int) =~= all);
    (some, total)
}

fn is_off_one(total: i128) -> (r: bool)
    requires
        total > i128::MIN,
    ensures
        r == off_one(total as int),
{
    total > ONE_PPB as i128 + WEIGHT_TOLERANCE_PPB as i128 || total < ONE_PPB as i128
        - WEIGHT_TOLERANCE_PPB as i128
}

fn has_query_named(queries: &Vec<QueryDef>, name: &str) -> (r: bool)
    ensures
        r == query_named(model::vmap(queries@), name@),
{
    let ghost all = model::vmap(queries@);
    let mut k: usize = 0;
    while k < queries.len()
        invariant
            k <= queries@.len(),
            all == model::vmap(queries@),
            forall|m: int| 0 <= m < k ==> (#[trigger] all[m]).name != name@,
        decreases queries@.len() - k,
    {
        assert(all[k as int].name == queries@[k as int].name@);
        if text::same(queries[k].name.as_str(), name) {
            return true;
        }
        k += 1;
    }
    false
}

fn group_name_repeats(groups: &Vec<QueryGroup>, i: usize) -> (r: bool)
    requires
        i < groups@.len(),
    ensures
        r == group_repeats(model::vmap(groups@), i as int),
{
    let ghost all = model::vmap(groups@);
    let mut j: usize = 0;
    while j < i
        invariant
            j <= i < groups@.len(),
            all == model::vmap(groups@),
            forall|k: int| 0 <= k < j ==> (#[trigger] all[k]).name != all[i as int].name,
        decreases i - j,
    {
        if text::same(groups[j].name.as_str(), groups[i].name.as_str()) {
            assert(all[j as int].name == all[i as int].name);
            return true;
        }
        assert(all[j as int].name == groups@[j as int].name@);
        j += 1;
    }
    false
}

fn check_group(
    errors: &mut Vec<String>,
    groups: &Vec<QueryGroup>,
    i: usize,
    queries: &Vec<QueryDef>,
)
    requires
        i < groups@.len(),
    ensures
        text::views(final(errors)@) == group_complaints(
            text::views(old(errors)@),
            model::vmap(groups@),
            i as int,
            model::vmap(queries@),
        ),
{
    broadcast use model::views_push;

    let group = &groups[i];
    let name = group.name.as_str();
    assert(model::vmap(groups@)[i as int] == group@);
    if group_name_repeats(groups, i) {
        errors.push(text::join3("Duplicate query group name: '", name, "'"));
    }
    if group.weight_ppb <= 0 {
        let w = decimal::signed_shortest_of(group.weight_ppb, 9);
        errors.push(
            text::join4("Query group '", name, "' weight must be positive, got ", w.as_str()),
        );
    }
    match &group.mix_override {
        None => {},
        Some(overrides) => {
            let ghost b = text::views(errors@);
            let mut n: usize = 0;
            while n < overrides.len()
                invariant
                    n <= overrides@.len(),
                    text::views(errors@) == unknown_overrides(
                        b,
                        name@,
                        model::vmap(overrides@),
                        model::vmap(queries@),
                        n as int,
                    ),
                decreases overrides@.len() - n,
            {
                broadcast use model::views_push;

                assert(model::vmap(overrides@)[n as int].0 == overrides@[n as int].0@);
                if !has_query_named(queries, overrides[n].0.as_str()) {
                    errors.push(
                        text::join5(
                            "Query group '",
                            name,
                            "' mix_override references unknown query '",
                            overrides[n].0.as_str(),
                            "'",
                        ),
                    );
                }
                n += 1;
            }
            let total: i128 = sum_weights(overrides);
            if is_off_one(total) {
                let w = decimal::signed_fixed_of(total, ONE_PPB as u128, 3);
                errors.push(
                    text::join4(
                        "Query group '",
                        name,
                        "' mix_override weights must sum to 1.0, got ",
                        w.as_str(),
                    ),
                );
            }
        },
    }
}

impl Scenario {
    /// Whether events are ingested: whether there are streams.
    pub fn has_ingest(&self) -> (r: bool)
        ensures
            r == self@.has_ingest(),
    {
        match &self.data_streams {
            Some(s) => s.len() > 0,
            None => false,
        }
    }

    /// Every complaint about the scenario, in order; none where it is well formed.
    pub fn validate(&self) -> (r: Vec<String>)
        ensures
            text::views(r@) == self@.complaints(),
    {
        broadcast use model::views_push;

        let mut errors: Vec<String> = Vec::new();
        let ghost none = Seq::<Seq<char>>::empty();
        assert(text::views(errors@) =~= none);
        if let Some(streams) = &self.data_streams {
            if streams.len() == 0 {
                errors.push(
                    text::owned("data_streams must have at least one stream if specified"),
                );
            }
            let ghost start = text::views(errors@);
            let mut i: usize = 0;
            while i < streams.len()
                invariant
                    i <= streams@.len(),
                    text::views(errors@) == streams_complaints(
                        start,
                        model::vmap(streams@),
                        model::vmap(self.timeline.phases@),
                        i as int,
                    ),
                decreases streams@.len() - i,
            {
                check_stream(&mut errors, streams, i, &self.timeline.phases);
                i += 1;
            }
        }
        if self.timeline.phases.len() == 0 {
            errors.push(text::owned("Timeline must have at least one phase"));
        }
        if self.has_ingest() {
            let actual = names_of_phases(&self.timeline.phases);
            let expected = standard_phase_names();
            if !same_list(&actual, &expected) {
                let want = quote_items(&expected);
                let got = quote_items(&actual);
                errors.push(
                    text::join5(
                        "Timeline must have exactly these phases in order: [",
                        want.as_str(),
                        "], got: [",
                        got.as_str(),
                        "]",
                    ),
                );
            }
        }
        let ghost c = text::views(errors@);
        let mut n: usize = 0;
        while n < self.timeline.phases.len()
            invariant
                n <= self.timeline.phases@.len(),
                text::views(errors@) == short_phases(
                    c,
                    model::vmap(self.timeline.phases@),
                    n as int,
                ),
            decreases self.timeline.phases@.len() - n,
        {
            broadcast use model::views_push;

            let phase = &self.timeline.phases[n];
            assert(model::vmap(self.timeline.phases@)[n as int] == phase@);
            if phase.duration_seconds < MIN_PHASE_SECONDS {
                let d = text::decimal_u64(phase.duration_seconds);
                errors.push(
                    text::join4(
                        "Phase '",
                        phase.name.as_str(),
                        "' duration must be at least 30 seconds, got ",
                        d.as_str(),
                    ),
                );
            }
            n += 1;
        }
        if let Some(streams) = &self.data_streams {
            if streams.len() > 0 {
                let ghost d = text::views(errors@);
                let indexes = distinct_indexes(streams);
                let ghost known = text::views(indexes@);
                let mut k: usize = 0;
                while k < self.query_mix.queries.len()
                    invariant
                        k <= self.query_mix.queries@.len(),
                        known == text::views(indexes@),
                        text::views(errors@) == lost_queries(
                            d,
                            model::vmap(self.query_mix.queries@),
                            known,
                            k as int,
                        ),
                    decreases self.query_mix.queries@.len() - k,
                {
                    broadcast use model::views_push;

                    let query = &self.query_mix.queries[k];
                    assert(model::vmap(self.query_mix.queries@)[k as int] == query@);
                    if !text::list_has(&indexes, query.index.as_str()) {
                        let list = quote_items(&indexes);
                        let front = text::join5(
                            "Query '",
                            query.name.as_str(),
                            "' references unknown index '",
                            query.index.as_str(),
                            "'. Valid indexes: {",
                        );
                        errors.push(text::join3(front.as_str(), list.as_str(), "}"));
                    }
                    k += 1;
                }
            }
        }
        let (some, total) = sum_query_weights(&self.query_mix.queries);
        if some && is_off_one(total) {
            let w = decimal::signed_fixed_of(total, ONE_PPB as u128, 3);
            errors.push(text::join2("Query weights must sum to 1.0, got ", w.as_str()));
        }
        if let Some(groups) = &self.query_groups {
            if groups.len() == 0 {
                errors.push(
                    text::owned("query_groups must have at least one group if specified"),
                );
            }
            let total: i128 = sum_group_weights(groups);
            if is_off_one(total) {
                let w = decimal::signed_fixed_of(total, ONE_PPB as u128, 3);
                errors.push(text::join2("Query group weights must sum to 1.0, got ", w.as_str()));
            }
            let ghost g = text::views(errors@);
            let mut i: usize = 0;
            while i < groups.len()
                invariant
                    i <= groups@.len(),
                    text::views(errors@) == groups_complaints(
                        g,
                        model::vmap(groups@),
                        model::vmap(self.query_mix.queries@),
                        i as int,
                    ),
                decreases groups@.len() - i,
            {
                check_group(&mut errors, groups, i, &self.query_mix.queries);
                i += 1;
            }
        }
        errors
    }
}

} // verus!
