//! The scenario: what a benchmark run simulates, when it is well formed, and what each
//! worker has to do in each phase.
//!
//! Rates of queries are held in millionths of a millionth of a query per second, so that scaling
//! one that is given in millionths loses nothing; weights in parts per
//! billion, scale factors in parts per million.
use vstd::prelude::*;
use vstd::string::*;
use crate::json::{Doc, Json};
use crate::model;
use crate::model::Duplicate;
use crate::text;

verus! {

/// Parts per billion that make one.
pub const ONE_PPB: i64 = 1_000_000_000;

/// How far a sum of weights may be from one, in parts per billion.
pub const WEIGHT_TOLERANCE_PPB: i64 = 10_000_000;

/// Parts per million that make one.
pub const ONE_PPM: u64 = 1_000_000;

/// The least duration of a phase, in seconds.
pub const MIN_PHASE_SECONDS: u64 = 30;

// ---------------------------------------------------------------------------
// Types
// ---------------------------------------------------------------------------

/// A complete incident simulation.
pub struct Scenario {
    pub scenario: ScenarioMeta,
    pub data_streams: Option<Vec<DataStream>>,
    pub query_mix: QueryMix,
    pub query_groups: Option<Vec<QueryGroup>>,
    pub timeline: Timeline,
    pub valid_run_criteria: ValidRunCriteria,
    pub report: ReportConfig,
    pub default_timeout_ms: u64,
    pub query_session: Option<QuerySession>,
}

/// What the scenario is called.
pub struct ScenarioMeta {
    pub name: String,
    pub version: String,
    pub display_name: String,
    pub description: String,
    pub domain: String,
}

/// One stream of generated events, which goes to one index.
pub struct DataStream {
    pub name: String,
    pub schema: Schema,
    pub data_generator: DataGeneratorConfig,
    pub kafka_partitions: Option<u32>,
    pub ingest_replicas: u32,
    /// What is ingested in each phase, by the phase's name.
    pub ingest: Vec<(String, StreamPhaseIngest)>,
}

/// What a stream ingests in one phase.
#[derive(Clone, Copy, PartialEq, Eq, Structural, Debug)]
pub struct StreamPhaseIngest {
    pub target_eps: u64,
    pub batch_size: u32,
}

/// The fields of a stream's events.
pub struct Schema {
    pub index_name: String,
    pub timestamp_field: String,
    pub fields: Vec<FieldDef>,
}

/// One field, and how its values are made.
pub struct FieldDef {
    pub name: String,
    pub field_type: FieldType,
    pub generator: String,
    pub config: Json,
}

/// The type of a field.
#[derive(Clone, Copy, PartialEq, Eq, Structural, Debug)]
pub enum FieldType {
    Timestamp,
    Keyword,
    Text,
    Int,
    Long,
    Float,
    Ip,
}

/// How a stream's events are generated.
pub struct DataGeneratorConfig {
    pub generator_type: String,
    pub config: Json,
}

/// In which order a session goes through the queries of a category.
#[derive(Clone, Copy, PartialEq, Eq, Structural, Debug)]
pub enum IterationMode {
    /// One after the other, and from the start again.
    Sequential,
    /// Each time any one of them.
    WeightedRandom,
}

/// A simulated user session: the categories of a page that loads them side by side.
pub struct QuerySession {
    pub categories: Vec<QueryCategory>,
    pub think_time_ms: u64,
}

/// One part of a page.
pub struct QueryCategory {
    pub name: String,
    pub queries: Vec<QueryDef>,
    pub iteration: IterationMode,
    pub parallelism: usize,
}

/// The queries of the scenario.
pub struct QueryMix {
    pub queries: Vec<QueryDef>,
}

/// A group of analysts: its share of all queries, and the queries it keeps to.
pub struct QueryGroup {
    pub name: String,
    /// The share of all queries, in parts per billion.
    pub weight_ppb: i64,
    /// Weights by query name, in parts per billion; queries not named get none.
    pub mix_override: Option<Vec<(String, i64)>>,
}

/// One query.
pub struct QueryDef {
    pub name: String,
    pub query_type: String,
    /// Which part of the queries it is, in parts per billion, where that is said.
    pub weight_ppb: Option<i64>,
    pub template: String,
    pub index: String,
    pub sort: Option<String>,
    pub limit: Option<u32>,
    pub timeout_ms: u64,
    pub sql: Option<String>,
    pub sql_file: Option<String>,
    pub category: Option<String>,
    pub description: String,
    pub variables: Vec<(String, VariableDef)>,
}

/// Where the value of a template variable comes from.
pub struct VariableDef {
    pub source: String,
}

/// The phases in order.
pub struct Timeline {
    pub phases: Vec<PhaseDef>,
}

/// One phase.
pub struct PhaseDef {
    pub name: String,
    pub display_name: String,
    pub duration_seconds: u64,
    pub query: QueryConfig,
    pub description: String,
}

/// A rate of events and the size of the batches that they are sent in.
#[derive(Clone, Copy, PartialEq, Eq, Structural, Debug)]
pub struct IngestConfig {
    pub target_eps: u64,
    pub batch_size: u32,
}

/// The queries of one phase.
pub struct QueryConfig {
    /// The target rate, in millionths of a millionth of a query per second.
    pub target_pqps: u128,
    /// Weights by query name, in parts per billion.
    pub mix_override: Option<Vec<(String, i64)>>,
}

/// The conditions under which the results of a run may be used.
pub struct ValidRunCriteria {
    pub rules: Vec<ValidRunRule>,
}

/// One such condition.
pub struct ValidRunRule {
    pub name: String,
    pub condition: String,
    pub message: String,
}

/// How the report is titled, and what it stresses.
pub struct ReportConfig {
    pub title: Option<String>,
    pub emphasis: Vec<String>,
}

/// What one worker has to do, phase by phase.
pub struct WorkerRateTable {
    pub worker_index: u32,
    pub total_workers: u32,
    pub phases: Vec<WorkerPhaseRate>,
}

/// What one worker has to do in one phase.
pub struct WorkerPhaseRate {
    pub phase_name: String,
    pub duration_seconds: u64,
    /// Events per second, for ingest workers.
    pub ingest_eps: u64,
    /// Thousandths of a query per second, for query workers.
    pub query_mqps: u64,
}

// ---------------------------------------------------------------------------
// What the types stand for
// ---------------------------------------------------------------------------

pub struct MetaView {
    pub name: Seq<char>,
    pub version: Seq<char>,
    pub display_name: Seq<char>,
    pub description: Seq<char>,
    pub domain: Seq<char>,
}

pub struct FieldView {
    pub name: Seq<char>,
    pub field_type: FieldType,
    pub generator: Seq<char>,
    pub config: Doc,
}

pub struct SchemaView {
    pub index_name: Seq<char>,
    pub timestamp_field: Seq<char>,
    pub fields: Seq<FieldView>,
}

pub struct StreamView {
    pub name: Seq<char>,
    pub schema: SchemaView,
    pub generator_type: Seq<char>,
    pub generator_config: Doc,
    pub kafka_partitions: Option<u32>,
    pub ingest_replicas: u32,
    pub ingest: Seq<(Seq<char>, StreamPhaseIngest)>,
}

pub struct QueryView {
    pub name: Seq<char>,
    pub query_type: Seq<char>,
    pub weight_ppb: Option<i64>,
    pub template: Seq<char>,
    pub index: Seq<char>,
    pub sort: Option<Seq<char>>,
    pub limit: Option<u32>,
    pub timeout_ms: u64,
    pub sql: Option<Seq<char>>,
    pub sql_file: Option<Seq<char>>,
    pub category: Option<Seq<char>>,
    pub description: Seq<char>,
    pub variables: Seq<(Seq<char>, Seq<char>)>,
}

pub struct CategoryView {
    pub name: Seq<char>,
    pub queries: Seq<QueryView>,
    pub iteration: IterationMode,
    pub parallelism: usize,
}

pub struct SessionView {
    pub categories: Seq<CategoryView>,
    pub think_time_ms: u64,
}

pub struct GroupView {
    pub name: Seq<char>,
    pub weight_ppb: i64,
    pub mix_override: Option<Seq<(Seq<char>, i64)>>,
}

pub struct PhaseView {
    pub name: Seq<char>,
    pub display_name: Seq<char>,
    pub duration_seconds: u64,
    pub target_pqps: u128,
    pub mix_override: Option<Seq<(Seq<char>, i64)>>,
    pub description: Seq<char>,
}

pub struct RuleView {
    pub name: Seq<char>,
    pub condition: Seq<char>,
    pub message: Seq<char>,
}

pub struct ScenarioView {
    pub meta: MetaView,
    pub streams: Option<Seq<StreamView>>,
    pub queries: Seq<QueryView>,
    pub groups: Option<Seq<GroupView>>,
    pub phases: Seq<PhaseView>,
    pub rules: Seq<RuleView>,
    pub title: Option<Seq<char>>,
    pub emphasis: Seq<Seq<char>>,
    pub default_timeout_ms: u64,
    pub session: Option<SessionView>,
}

pub struct RateView {
    pub phase_name: Seq<char>,
    pub duration_seconds: u64,
    pub ingest_eps: nat,
    pub query_mqps: nat,
}

pub struct RateTableView {
    pub worker_index: u32,
    pub total_workers: nat,
    pub phases: Seq<RateView>,
}

impl View for ScenarioMeta {
    type V = MetaView;

    open spec fn view(&self) -> MetaView {
        MetaView {
            name: self.name@,
            version: self.version@,
            display_name: self.display_name@,
            description: self.description@,
            domain: self.domain@,
        }
    }
}

impl View for StreamPhaseIngest {
    type V = StreamPhaseIngest;

    open spec fn view(&self) -> StreamPhaseIngest {
        *self
    }
}

impl View for FieldDef {
    type V = FieldView;

    open spec fn view(&self) -> FieldView {
        FieldView {
            name: self.name@,
            field_type: self.field_type,
            generator: self.generator@,
            config: self.config.doc(),
        }
    }
}

impl View for Schema {
    type V = SchemaView;

    open spec fn view(&self) -> SchemaView {
        SchemaView {
            index_name: self.index_name@,
            timestamp_field: self.timestamp_field@,
            fields: model::vmap(self.fields@),
        }
    }
}

impl View for DataStream {
    type V = StreamView;

    open spec fn view(&self) -> StreamView {
        StreamView {
            name: self.name@,
            schema: self.schema@,
            generator_type: self.data_generator.generator_type@,
            generator_config: self.data_generator.config.doc(),
            kafka_partitions: self.kafka_partitions,
            ingest_replicas: self.ingest_replicas,
            ingest: model::vmap(self.ingest@),
        }
    }
}

impl View for VariableDef {
    type V = Seq<char>;

    open spec fn view(&self) -> Seq<char> {
        self.source@
    }
}

impl View for QueryDef {
    type V = QueryView;

    open spec fn view(&self) -> QueryView {
        QueryView {
            name: self.name@,
            query_type: self.query_type@,
            weight_ppb: self.weight_ppb,
            template: self.template@,
            index: self.index@,
            sort: text::opt_view(self.sort),
            limit: self.limit,
            timeout_ms: self.timeout_ms,
            sql: text::opt_view(self.sql),
            sql_file: text::opt_view(self.sql_file),
            category: text::opt_view(self.category),
            description: self.description@,
            variables: model::vmap(self.variables@),
        }
    }
}

impl View for QueryCategory {
    type V = CategoryView;

    open spec fn view(&self) -> CategoryView {
        CategoryView {
            name: self.name@,
            queries: model::vmap(self.queries@),
            iteration: self.iteration,
            parallelism: self.parallelism,
        }
    }
}

impl View for QuerySession {
    type V = SessionView;

    open spec fn view(&self) -> SessionView {
        SessionView {
            categories: model::vmap(self.categories@),
            think_time_ms: self.think_time_ms,
        }
    }
}

impl View for QueryMix {
    type V = Seq<QueryView>;

    open spec fn view(&self) -> Seq<QueryView> {
        model::vmap(self.queries@)
    }
}

impl View for QueryGroup {
    type V = GroupView;

    open spec fn view(&self) -> GroupView {
        GroupView {
            name: self.name@,
            weight_ppb: self.weight_ppb,
            mix_override: model::opt_vmap(self.mix_override),
        }
    }
}

impl View for PhaseDef {
    type V = PhaseView;

    open spec fn view(&self) -> PhaseView {
        PhaseView {
            name: self.name@,
            display_name: self.display_name@,
            duration_seconds: self.duration_seconds,
            target_pqps: self.query.target_pqps,
            mix_override: model::opt_vmap(self.query.mix_override),
            description: self.description@,
        }
    }
}

impl View for ValidRunRule {
    type V = RuleView;

    open spec fn view(&self) -> RuleView {
        RuleView { name: self.name@, condition: self.condition@, message: self.message@ }
    }
}

impl View for Scenario {
    type V = ScenarioView;

    open spec fn view(&self) -> ScenarioView {
        ScenarioView {
            meta: self.scenario@,
            streams: model::opt_vmap(self.data_streams),
            queries: self.query_mix@,
            groups: model::opt_vmap(self.query_groups),
            phases: model::vmap(self.timeline.phases@),
            rules: model::vmap(self.valid_run_criteria.rules@),
            title: text::opt_view(self.report.title),
            emphasis: text::views(self.report.emphasis@),
            default_timeout_ms: self.default_timeout_ms,
            session: match self.query_session {
                Some(s) => Some(s@),
                None => None,
            },
        }
    }
}

impl View for WorkerPhaseRate {
    type V = RateView;

    open spec fn view(&self) -> RateView {
        RateView {
            phase_name: self.phase_name@,
            duration_seconds: self.duration_seconds,
            ingest_eps: self.ingest_eps as nat,
            query_mqps: self.query_mqps as nat,
        }
    }
}

impl View for WorkerRateTable {
    type V = RateTableView;

    open spec fn view(&self) -> RateTableView {
        RateTableView {
            worker_index: self.worker_index,
            total_workers: self.total_workers as nat,
            phases: model::vmap(self.phases@),
        }
    }
}

// ---------------------------------------------------------------------------
// Copies
// ---------------------------------------------------------------------------

impl Duplicate for ScenarioMeta {
    fn duplicate(&self) -> (r: Self) {
        ScenarioMeta {
            name: self.name.clone(),
            version: self.version.clone(),
            display_name: self.display_name.clone(),
            description: self.description.clone(),
            domain: self.domain.clone(),
        }
    }
}

impl Duplicate for StreamPhaseIngest {
    fn duplicate(&self) -> (r: Self) {
        *self
    }
}

impl Duplicate for FieldDef {
    fn duplicate(&self) -> (r: Self) {
        FieldDef {
            name: self.name.clone(),
            field_type: self.field_type,
            generator: self.generator.clone(),
            config: self.config.copy(),
        }
    }
}

impl Duplicate for Schema {
    fn duplicate(&self) -> (r: Self) {
        Schema {
            index_name: self.index_name.clone(),
            timestamp_field: self.timestamp_field.clone(),
            fields: model::duplicate_list(&self.fields),
        }
    }
}

impl Duplicate for DataStream {
    fn duplicate(&self) -> (r: Self) {
        DataStream {
            name: self.name.clone(),
            schema: self.schema.duplicate(),
            data_generator: DataGeneratorConfig {
                generator_type: self.data_generator.generator_type.clone(),
                config: self.data_generator.config.copy(),
            },
            kafka_partitions: self.kafka_partitions,
            ingest_replicas: self.ingest_replicas,
            ingest: model::duplicate_list(&self.ingest),
        }
    }
}

impl Duplicate for VariableDef {
    fn duplicate(&self) -> (r: Self) {
        VariableDef { source: self.source.clone() }
    }
}

impl Duplicate for QueryDef {
    fn duplicate(&self) -> (r: Self) {
        QueryDef {
            name: self.name.clone(),
            query_type: self.query_type.clone(),
            weight_ppb: self.weight_ppb,
            template: self.template.clone(),
            index: self.index.clone(),
            sort: text::clone_opt(&self.sort),
            limit: self.limit,
            timeout_ms: self.timeout_ms,
            sql: text::clone_opt(&self.sql),
            sql_file: text::clone_opt(&self.sql_file),
            category: text::clone_opt(&self.category),
            description: self.description.clone(),
            variables: model::duplicate_list(&self.variables),
        }
    }
}

impl Duplicate for QueryCategory {
    fn duplicate(&self) -> (r: Self) {
        QueryCategory {
            name: self.name.clone(),
            queries: model::duplicate_list(&self.queries),
            iteration: self.iteration,
            parallelism: self.parallelism,
        }
    }
}

impl Duplicate for QuerySession {
    fn duplicate(&self) -> (r: Self) {
        QuerySession {
            categories: model::duplicate_list(&self.categories),
            think_time_ms: self.think_time_ms,
        }
    }
}

impl Duplicate for QueryMix {
    fn duplicate(&self) -> (r: Self) {
        QueryMix { queries: model::duplicate_list(&self.queries) }
    }
}

impl Duplicate for QueryGroup {
    fn duplicate(&self) -> (r: Self) {
        QueryGroup {
            name: self.name.clone(),
            weight_ppb: self.weight_ppb,
            mix_override: model::duplicate_opt_list(&self.mix_override),
        }
    }
}

impl Duplicate for PhaseDef {
    fn duplicate(&self) -> (r: Self) {
        PhaseDef {
            name: self.name.clone(),
            display_name: self.display_name.clone(),
            duration_seconds: self.duration_seconds,
            query: QueryConfig {
                target_pqps: self.query.target_pqps,
                mix_override: model::duplicate_opt_list(&self.query.mix_override),
            },
            description: self.description.clone(),
        }
    }
}

impl Duplicate for ValidRunRule {
    fn duplicate(&self) -> (r: Self) {
        ValidRunRule {
            name: self.name.clone(),
            condition: self.condition.clone(),
            message: self.message.clone(),
        }
    }
}

impl Duplicate for Scenario {
    fn duplicate(&self) -> (r: Self) {
        let emphasis = text::clone_strings(&self.report.emphasis);
        Scenario {
            scenario: self.scenario.duplicate(),
            data_streams: model::duplicate_opt_list(&self.data_streams),
            query_mix: self.query_mix.duplicate(),
            query_groups: model::duplicate_opt_list(&self.query_groups),
            timeline: Timeline { phases: model::duplicate_list(&self.timeline.phases) },
            valid_run_criteria: ValidRunCriteria {
                rules: model::duplicate_list(&self.valid_run_criteria.rules),
            },
            report: ReportConfig { title: text::clone_opt(&self.report.title), emphasis },
            default_timeout_ms: self.default_timeout_ms,
            query_session: match &self.query_session {
                Some(s) => Some(s.duplicate()),
                None => None,
            },
        }
    }
}

// ---------------------------------------------------------------------------
// Defaults
// ---------------------------------------------------------------------------

/// How many queries of a category run side by side where nothing is said.
pub fn default_parallelism() -> (r: usize)
    ensures
        r == 1,
{
    1
}

/// The time a query has where nothing is said, in milliseconds.
pub fn default_timeout_ms() -> (r: u64)
    ensures
        r == 10_000,
{
    10_000
}

/// The size of a batch where nothing is said.
pub fn default_batch_size() -> (r: u32)
    ensures
        r == 500,
{
    500
}

impl Default for QueryConfig {
    /// No queries, and the scenario's own mix.
    fn default() -> (r: Self)
        ensures
            r.target_pqps == 0,
            r.mix_override is None,
    {
        QueryConfig { target_pqps: 0, mix_override: None }
    }
}

impl Default for ValidRunCriteria {
    fn default() -> (r: Self)
        ensures
            r.rules@.len() == 0,
    {
        ValidRunCriteria { rules: Vec::new() }
    }
}

impl Default for ReportConfig {
    fn default() -> (r: Self)
        ensures
            r.title is None,
            r.emphasis@.len() == 0,
    {
        ReportConfig { title: None, emphasis: Vec::new() }
    }
}

impl Default for IterationMode {
    fn default() -> (r: Self)
        ensures
            r == IterationMode::Sequential,
    {
        IterationMode::Sequential
    }
}

impl FieldType {
    /// The mapping type of an index that holds such a field.
    pub open spec fn mapping_type(self) -> Seq<char> {
        match self {
            FieldType::Timestamp => "date"@,
            FieldType::Keyword => "keyword"@,
            FieldType::Text => "text"@,
            FieldType::Int => "integer"@,
            FieldType::Long => "long"@,
            FieldType::Float => "float"@,
            FieldType::Ip => "ip"@,
        }
    }

    /// The mapping type of an index that holds such a field.
    pub fn to_mapping_type(self) -> (r: &'static str)
        ensures
            r@ == self.mapping_type(),
    {
        match self {
            FieldType::Timestamp => "date",
            FieldType::Keyword => "keyword",
            FieldType::Text => "text",
            FieldType::Int => "integer",
            FieldType::Long => "long",
            FieldType::Float => "float",
            FieldType::Ip => "ip",
        }
    }
}

} // verus!
