//! The JSON form of the parts of a scenario that workers are configured with.
use vstd::prelude::*;
use crate::decimal;
use crate::json::{Doc, Json};
use crate::model;
use crate::scenario::{
    CategoryView, FieldDef, FieldType, FieldView, IterationMode, QueryCategory, QueryDef, QueryMix,
    QuerySession, QueryView, RateTableView, RateView, Schema, SchemaView, SessionView, VariableDef,
    WorkerPhaseRate, WorkerRateTable,
};
use crate::text;

verus! {

/// A value with a JSON form.
pub trait ToDoc: View + Sized {
    /// The document that stands for a value.
    spec fn doc_of(v: Self::V) -> Doc;

    /// The value in JSON.
    fn to_json(&self) -> (r: Json)
        ensures
            r.doc() == Self::doc_of(self@),
    ;
}

/// The document of a list.
pub open spec fn list_doc<T: ToDoc>(v: Seq<T::V>) -> Doc {
    Doc::Array(v.map_values(|x: T::V| T::doc_of(x)))
}

/// A list in JSON.
pub fn list_json<T: ToDoc>(v: &Vec<T>) -> (r: Json)
    ensures
        r.doc() == list_doc::<T>(model::vmap(v@)),
{
    let mut out: Vec<Json> = Vec::new();
    let mut i: usize = 0;
    while i < v.len()
        invariant
            i <= v@.len(),
            out@.len() == i,
            forall|k: int| 0 <= k < i ==> (#[trigger] out@[k]).doc() == T::doc_of(v@[k]@),
        decreases v@.len() - i,
    {
        out.push(v[i].to_json());
        i += 1;
    }
    proof {
        Json::doc_of_array(out);
        assert(Seq::new(out@.len(), |i: int| out@[i].doc()) =~= model::vmap(v@).map_values(
            |x: T::V| T::doc_of(x),
        ));
    }
    Json::Array(out)
}

/// The document of a table.
pub open spec fn table_doc<T: ToDoc>(entries: Seq<(Seq<char>, T::V)>) -> Doc {
    Doc::Object(entries.map_values(|e: (Seq<char>, T::V)| (e.0, T::doc_of(e.1))))
}

/// A table in JSON.
pub fn table_json<T: ToDoc>(entries: &Vec<(String, T)>) -> (r: Json)
    ensures
        r.doc() == table_doc::<T>(model::vmap(entries@)),
{
    let mut out: Vec<(String, Json)> = Vec::new();
    let mut i: usize = 0;
    while i < entries.len()
        invariant
            i <= entries@.len(),
            out@.len() == i,
            forall|k: int|
                0 <= k < i ==> (#[trigger] out@[k]).0@ == entries@[k].0@ && out@[k].1.doc()
                    == T::doc_of(entries@[k].1@),
        decreases entries@.len() - i,
    {
        out.push((entries[i].0.clone(), entries[i].1.to_json()));
        i += 1;
    }
    proof {
        Json::doc_of_object(out);
        let want = model::vmap(entries@).map_values(
            |e: (Seq<char>, T::V)| (e.0, T::doc_of(e.1)),
        );
        assert(crate::json::members_of(out@) =~= want);
    }
    Json::Object(out)
}

impl ToDoc for String {
    open spec fn doc_of(v: Seq<char>) -> Doc {
        Doc::Text(v)
    }

    fn to_json(&self) -> (r: Json) {
        Json::Text(self.clone())
    }
}

/// The document of an optional text.
pub open spec fn opt_text_doc(v: Option<Seq<char>>) -> Doc {
    match v {
        Some(t) => Doc::Text(t),
        None => Doc::Null,
    }
}

/// The document of an optional number.
pub open spec fn opt_uint_doc(v: Option<u32>) -> Doc {
    match v {
        Some(n) => Doc::Uint(n as nat),
        None => Doc::Null,
    }
}

fn opt_uint_json(v: Option<u32>) -> (r: Json)
    ensures
        r.doc() == opt_uint_doc(v),
{
    match v {
        Some(n) => Json::Uint(n as u64),
        None => Json::Null,
    }
}

impl FieldType {
    /// The name of the type in a scenario.
    pub open spec fn type_label(self) -> Seq<char> {
        match self {
            FieldType::Timestamp => "timestamp"@,
            FieldType::Keyword => "keyword"@,
            FieldType::Text => "text"@,
            FieldType::Int => "int"@,
            FieldType::Long => "long"@,
            FieldType::Float => "float"@,
            FieldType::Ip => "ip"@,
        }
    }

    /// The name of the type in a scenario.
    pub fn name(self) -> (r: &'static str)
        ensures
            r@ == self.type_label(),
    {
        match self {
            FieldType::Timestamp => "timestamp",
            FieldType::Keyword => "keyword",
            FieldType::Text => "text",
            FieldType::Int => "int",
            FieldType::Long => "long",
            FieldType::Float => "float",
            FieldType::Ip => "ip",
        }
    }
}

impl IterationMode {
    /// The name of the order in a scenario.
    pub open spec fn mode_name(self) -> Seq<char> {
        match self {
            IterationMode::Sequential => "sequential"@,
            IterationMode::WeightedRandom => "weighted_random"@,
        }
    }

    /// The name of the order in a scenario.
    pub fn name(self) -> (r: &'static str)
        ensures
            r@ == self.mode_name(),
    {
        match self {
            IterationMode::Sequential => "sequential",
            IterationMode::WeightedRandom => "weighted_random",
        }
    }
}

impl ToDoc for FieldDef {
    open spec fn doc_of(v: FieldView) -> Doc {
        Doc::object().with("name"@, Doc::Text(v.name)).with(
            "type"@,
            Doc::Text(v.field_type.type_label()),
        ).with("generator"@, Doc::Text(v.generator)).with("config"@, v.config)
    }

    fn to_json(&self) -> (r: Json) {
        Json::object().with("name", Json::text(self.name.as_str())).with(
            "type",
            Json::text(self.field_type.name()),
        ).with("generator", Json::text(self.generator.as_str())).with(
            "config",
            self.config.copy(),
        )
    }
}

impl ToDoc for Schema {
    open spec fn doc_of(v: SchemaView) -> Doc {
        Doc::object().with("index_name"@, Doc::Text(v.index_name)).with(
            "timestamp_field"@,
            Doc::Text(v.timestamp_field),
        ).with("fields"@, list_doc::<FieldDef>(v.fields))
    }

    fn to_json(&self) -> (r: Json) {
        Json::object().with("index_name", Json::text(self.index_name.as_str())).with(
            "timestamp_field",
            Json::text(self.timestamp_field.as_str()),
        ).with("fields", list_json(&self.fields))
    }
}

impl ToDoc for VariableDef {
    open spec fn doc_of(v: Seq<char>) -> Doc {
        Doc::object().with("source"@, Doc::Text(v))
    }

    fn to_json(&self) -> (r: Json) {
        Json::object().with("source", Json::text(self.source.as_str()))
    }
}

/// A weight, for a document.
pub open spec fn weight_doc(ppb: i64) -> Doc {
    Doc::Number(decimal::signed_shortest(ppb as int, 9))
}

/// The weight there may be, for a document.
pub open spec fn opt_weight_doc(ppb: Option<i64>) -> Doc {
    match ppb {
        Some(w) => weight_doc(w),
        None => Doc::Null,
    }
}

fn opt_weight_json(ppb: Option<i64>) -> (r: Json)
    ensures
        r.doc() == opt_weight_doc(ppb),
{
    match ppb {
        Some(w) => Json::Number(decimal::signed_shortest_of(w, 9)),
        None => Json::Null,
    }
}

impl ToDoc for QueryDef {
    open spec fn doc_of(v: QueryView) -> Doc {
        Doc::object().with("name"@, Doc::Text(v.name)).with("type"@, Doc::Text(v.query_type)).with(
            "weight"@,
            opt_weight_doc(v.weight_ppb),
        ).with(
            "template"@,
            Doc::Text(v.template),
        ).with("index"@, Doc::Text(v.index)).with("sort"@, opt_text_doc(v.sort)).with(
            "limit"@,
            opt_uint_doc(v.limit),
        ).with("timeout_ms"@, Doc::Uint(v.timeout_ms as nat)).with("sql"@, opt_text_doc(v.sql)).with(
            "sql_file"@,
            opt_text_doc(v.sql_file),
        ).with("category"@, opt_text_doc(v.category)).with(
            "description"@,
            Doc::Text(v.description),
        ).with("variables"@, table_doc::<VariableDef>(v.variables))
    }

    fn to_json(&self) -> (r: Json) {
        Json::object().with("name", Json::text(self.name.as_str())).with(
            "type",
            Json::text(self.query_type.as_str()),
        ).with("weight", opt_weight_json(self.weight_ppb)).with(
            "template",
            Json::text(self.template.as_str()),
        ).with(
            "index",
            Json::text(self.index.as_str()),
        ).with("sort", Json::opt_text(&self.sort)).with("limit", opt_uint_json(self.limit)).with(
            "timeout_ms",
            Json::uint(self.timeout_ms),
        ).with("sql", Json::opt_text(&self.sql)).with(
            "sql_file",
            Json::opt_text(&self.sql_file),
        ).with("category", Json::opt_text(&self.category)).with(
            "description",
            Json::text(self.description.as_str()),
        ).with("variables", table_json(&self.variables))
    }
}

impl ToDoc for QueryMix {
    open spec fn doc_of(v: Seq<QueryView>) -> Doc {
        Doc::object().with("queries"@, list_doc::<QueryDef>(v))
    }

    fn to_json(&self) -> (r: Json) {
        Json::object().with("queries", list_json(&self.queries))
    }
}

impl ToDoc for QueryCategory {
    open spec fn doc_of(v: CategoryView) -> Doc {
        Doc::object().with("name"@, Doc::Text(v.name)).with(
            "queries"@,
            list_doc::<QueryDef>(v.queries),
        ).with("iteration"@, Doc::Text(v.iteration.mode_name())).with(
            "parallelism"@,
            Doc::Uint(v.parallelism as nat),
        )
    }

    fn to_json(&self) -> (r: Json) {
        Json::object().with("name", Json::text(self.name.as_str())).with(
            "queries",
            list_json(&self.queries),
        ).with("iteration", Json::text(self.iteration.name())).with(
            "parallelism",
            Json::Uint(self.parallelism as u64),
        )
    }
}

impl ToDoc for QuerySession {
    open spec fn doc_of(v: SessionView) -> Doc {
        Doc::object().with("categories"@, list_doc::<QueryCategory>(v.categories)).with(
            "think_time_ms"@,
            Doc::Uint(v.think_time_ms as nat),
        )
    }

    fn to_json(&self) -> (r: Json) {
        Json::object().with("categories", list_json(&self.categories)).with(
            "think_time_ms",
            Json::uint(self.think_time_ms),
        )
    }
}

/// The document of an optional session.
pub open spec fn opt_session_doc(v: Option<SessionView>) -> Doc {
    match v {
        Some(s) => QuerySession::doc_of(s),
        None => Doc::Null,
    }
}

impl ToDoc for WorkerPhaseRate {
    open spec fn doc_of(v: RateView) -> Doc {
        Doc::object().with("phase_name"@, Doc::Text(v.phase_name)).with(
            "duration_seconds"@,
            Doc::Uint(v.duration_seconds as nat),
        ).with("ingest_eps"@, Doc::Uint(v.ingest_eps)).with("query_mqps"@, Doc::Uint(v.query_mqps))
    }

    fn to_json(&self) -> (r: Json) {
        Json::object().with("phase_name", Json::text(self.phase_name.as_str())).with(
            "duration_seconds",
            Json::uint(self.duration_seconds),
        ).with("ingest_eps", Json::uint(self.ingest_eps)).with(
            "query_mqps",
            Json::uint(self.query_mqps),
        )
    }
}

impl ToDoc for WorkerRateTable {
    open spec fn doc_of(v: RateTableView) -> Doc {
        Doc::object().with("worker_index"@, Doc::Uint(v.worker_index as nat)).with(
            "total_workers"@,
            Doc::Uint(v.total_workers),
        ).with("phases"@, list_doc::<WorkerPhaseRate>(v.phases))
    }

    fn to_json(&self) -> (r: Json) {
        Json::object().with("worker_index", Json::uint(self.worker_index as u64)).with(
            "total_workers",
            Json::uint(self.total_workers as u64),
        ).with("phases", list_json(&self.phases))
    }
}

} // verus!
