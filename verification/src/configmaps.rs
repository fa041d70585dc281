//! The ConfigMaps that tell each part of a run what to do.
use std::collections::BTreeMap;
use vstd::prelude::*;
use vstd::string::*;
use crate::crd::{QueryGroupSpec, WorkerSpec};
use crate::docs;
use crate::docs::ToDoc;
use crate::json::{Doc, Json};
use crate::mix;
use crate::mix::PhaseMix;
use crate::model;
use crate::model::Duplicate;
use crate::rates;
use crate::resources;
use crate::resources::{IdentityView, RunIdentity};
use crate::scenario::{
    CategoryView, DataStream, IterationMode, PhaseDef, PhaseView, QueryCategory, QueryDef,
    QueryGroup, QueryMix, QuerySession, QueryView, Scenario, ScenarioView, Schema, SessionView,
    StreamView, WorkerRateTable, ONE_PPB,
};
use crate::seeds;
use crate::text;
use crate::validation;

verus! {

/// What an entry of a ConfigMap holds.
pub enum Body {
    /// The scenario itself, in YAML.
    Scenario,
    /// A document, in YAML.
    Yaml(Json),
    /// A document, in JSON.
    Json(Json),
    /// A text.
    Plain(String),
}

pub enum BodyView {
    Scenario,
    Yaml(Doc),
    Json(Doc),
    Plain(Seq<char>),
}

impl View for Body {
    type V = BodyView;

    open spec fn view(&self) -> BodyView {
        match self {
            Body::Scenario => BodyView::Scenario,
            Body::Yaml(j) => BodyView::Yaml(j.doc()),
            Body::Json(j) => BodyView::Json(j.doc()),
            Body::Plain(t) => BodyView::Plain(t@),
        }
    }
}

/// A ConfigMap: its name, what it says of itself, and its entries.
pub struct ConfigMap {
    pub name: String,
    pub metadata: Json,
    pub data: Vec<(String, Body)>,
}

pub struct ConfigMapView {
    pub name: Seq<char>,
    pub metadata: Doc,
    pub data: Seq<(Seq<char>, BodyView)>,
}

impl View for ConfigMap {
    type V = ConfigMapView;

    open spec fn view(&self) -> ConfigMapView {
        ConfigMapView {
            name: self.name@,
            metadata: self.metadata.doc(),
            data: model::vmap(self.data@),
        }
    }
}

/// A ConfigMap with one entry.
pub open spec fn config_map(
    name: Seq<char>,
    run_name: Seq<char>,
    component: Seq<char>,
    run: IdentityView,
    key: Seq<char>,
    body: BodyView,
) -> ConfigMapView {
    ConfigMapView {
        name,
        metadata: resources::configmap_metadata_doc(name, run_name, component, run),
        data: seq![(key, body)],
    }
}

fn config_map_of(
    name: String,
    run_name: &str,
    component: &str,
    run: &RunIdentity,
    key: &str,
    body: Body,
) -> (r: ConfigMap)
    ensures
        r@ == config_map(name@, run_name@, component@, run@, key@, body@),
{
    let metadata = resources::configmap_metadata(name.as_str(), run_name, component, run);
    let mut data: Vec<(String, Body)> = Vec::new();
    data.push((text::owned(key), body));
    assert(model::vmap(data@) =~= seq![(key@, body@)]);
    ConfigMap { name, metadata, data }
}

// ---------------------------------------------------------------------------
// What preparing the target gave
// ---------------------------------------------------------------------------

/// What preparing the target gave, for the steps that follow.
pub open spec fn prepare_result_map(
    run_name: Seq<char>,
    consumer_groups: Seq<(Seq<char>, Seq<char>)>,
    query_endpoints: Seq<(Seq<char>, Seq<char>)>,
    run: IdentityView,
) -> ConfigMapView {
    let name = resources::part_name(run_name, "prepare"@);
    let both = seq![
        ("consumer_groups"@, BodyView::Json(docs::table_doc::<String>(consumer_groups))),
        ("query_endpoints"@, BodyView::Json(docs::table_doc::<String>(query_endpoints))),
    ];
    ConfigMapView {
        name,
        metadata: resources::configmap_metadata_doc(name, run_name, "prepare"@, run),
        data: if query_endpoints.len() > 0 {
            both.push(("query_endpoint"@, BodyView::Plain(query_endpoints[0].1)))
        } else {
            both
        },
    }
}

/// Keeps what preparing the target gave: the consumer groups, the endpoints, and the
/// first endpoint once more.
pub fn build_prepare_result_configmap(
    run_name: &str,
    consumer_groups: &Vec<(String, String)>,
    query_endpoints: &Vec<(String, String)>,
    run: &RunIdentity,
) -> (r: ConfigMap)
    ensures
        r@ == prepare_result_map(
            run_name@,
            model::vmap(consumer_groups@),
            model::vmap(query_endpoints@),
            run@,
        ),
{
    let name = resources::part_name_of(run_name, "prepare");
    let metadata = resources::configmap_metadata(name.as_str(), run_name, "prepare", run);
    let mut data: Vec<(String, Body)> = Vec::new();
    data.push((text::owned("consumer_groups"), Body::Json(docs::table_json(consumer_groups))));
    data.push((text::owned("query_endpoints"), Body::Json(docs::table_json(query_endpoints))));
    if query_endpoints.len() > 0 {
        data.push((text::owned("query_endpoint"), Body::Plain(query_endpoints[0].1.clone())));
    }
    let r = ConfigMap { name, metadata, data };
    assert(r@.data =~= prepare_result_map(
        run_name@,
        model::vmap(consumer_groups@),
        model::vmap(query_endpoints@),
        run@,
    ).data);
    r
}

/// The entries that `serde_json::from_str` reads from a JSON object whose values are texts.
pub uninterp spec fn string_map(t: Seq<char>) -> Option<Seq<(Seq<char>, Seq<char>)>>;

/// The entries of a JSON object whose values are texts; nothing where the text is no such
/// object.
///
/// Calls `serde_json::from_str` for a `BTreeMap`. The entries follow from the text, in the
/// order of their names.
#[verifier::external_body]
fn read_string_map(t: &str) -> (r: Option<Vec<(String, String)>>)
    ensures
        match r {
            Some(v) => string_map(t@) == Some(model::vmap(v@)),
            None => string_map(t@) is None,
        },
{
    match serde_json::from_str::<BTreeMap<String, String>>(t) {
        Ok(m) => Some(m.into_iter().collect()),
        Err(_) => None,
    }
}

/// The table that an entry of a ConfigMap holds; an empty one where there is no such entry,
/// or it is no table.
pub open spec fn table_of(data: Seq<(Seq<char>, Seq<char>)>, key: Seq<char>) -> Seq<
    (Seq<char>, Seq<char>),
> {
    match model::find(data, key) {
        Some(t) => match string_map(t) {
            Some(m) => m,
            None => Seq::empty(),
        },
        None => Seq::empty(),
    }
}

/// One of the tables that preparing the target gave, from the entries of the ConfigMap.
pub fn prepared_table(data: &Vec<(String, String)>, key: &str) -> (r: Vec<(String, String)>)
    ensures
        model::vmap(r@) == table_of(model::vmap(data@), key@),
{
    let none: Vec<(String, String)> = Vec::new();
    assert(model::vmap(none@) =~= Seq::<(Seq<char>, Seq<char>)>::empty());
    match model::find_in(data, key) {
        Some(t) => match read_string_map(t.as_str()) {
            Some(m) => m,
            None => none,
        },
        None => none,
    }
}

// ---------------------------------------------------------------------------
// SQL files
// ---------------------------------------------------------------------------

/// A file of that name holds SQL: `.sql` follows on something.
pub open spec fn names_sql(name: Seq<char>) -> bool {
    text::ends(name, ".sql"@) && name.len() > 4
}

/// Whether a file of that name holds SQL.
pub fn is_sql_file(name: &str) -> (r: bool)
    ensures
        r == names_sql(name@),
{
    proof {
        reveal_strlit(".sql");
        if text::ends(name@, ".sql"@) && name@.len() == 4 {
            assert(name@ =~= ".sql"@);
        }
    }
    text::ends_with(name, ".sql") && !text::same(name, ".sql")
}

/// The entry that holds an SQL file: its path below the directory, with the separators
/// made underscores.
pub open spec fn sql_key(relative: Seq<char>) -> Seq<char> {
    text::replaced(text::replaced(relative, "/"@, "_"@), "\\"@, "_"@)
}

/// The entries of the first `n` files, by path; the later of two with one entry counts.
pub open spec fn sql_entries(files: Seq<(Seq<char>, Seq<char>)>, n: int) -> Seq<
    (Seq<char>, Seq<char>),
>
    decreases n,
{
    if n <= 0 {
        Seq::empty()
    } else {
        model::bind(sql_entries(files, n - 1), sql_key(files[n - 1].0), files[n - 1].1)
    }
}

/// The SQL files of a directory: the ConfigMap that holds them, none where there are none.
pub open spec fn sql_files_map(
    run_name: Seq<char>,
    files: Seq<(Seq<char>, Seq<char>)>,
    run: IdentityView,
) -> Option<ConfigMapView> {
    let entries = sql_entries(files, files.len() as int);
    let name = resources::part_name(run_name, "sql-files"@);
    if entries.len() == 0 {
        None
    } else {
        Some(
            ConfigMapView {
                name,
                metadata: resources::configmap_metadata_doc(name, run_name, "sql-files"@, run),
                data: entries.map_values(
                    |e: (Seq<char>, Seq<char>)| (e.0, BodyView::Plain(e.1)),
                ),
            },
        )
    }
}

/// Puts the SQL files of a directory, given by their paths below it and their contents,
/// into a ConfigMap.
pub fn build_sql_files_configmap(
    run_name: &str,
    files: &Vec<(String, String)>,
    run: &RunIdentity,
) -> (r: Option<ConfigMap>)
    ensures
        match r {
            Some(c) => sql_files_map(run_name@, model::vmap(files@), run@) == Some(c@),
            None => sql_files_map(run_name@, model::vmap(files@), run@) is None,
        },
{
    proof {
        reveal_strlit("/");
        reveal_strlit("\\");
    }
    let ghost fv = model::vmap(files@);
    let mut entries: Vec<(String, String)> = Vec::new();
    let mut i: usize = 0;
    assert(model::vmap(entries@) =~= sql_entries(fv, 0));
    while i < files.len()
        invariant
            i <= files@.len(),
            fv == model::vmap(files@),
            "/"@.len() > 0,
            "\\"@.len() > 0,
            model::vmap(entries@) == sql_entries(fv, i as int),
        decreases files@.len() - i,
    {
        assert(fv[i as int] == files@[i as int]@);
        let once = text::replace(files[i].0.as_str(), "/", "_");
        let key = text::replace(once.as_str(), "\\", "_");
        model::bind_entry(&mut entries, key.as_str(), files[i].1.clone());
        i += 1;
    }
    if entries.len() == 0 {
        assert(model::vmap(entries@).len() == 0);
        return None;
    }
    assert(model::vmap(entries@).len() > 0);
    let name = resources::part_name_of(run_name, "sql-files");
    let metadata = resources::configmap_metadata(name.as_str(), run_name, "sql-files", run);
    let ghost ev = model::vmap(entries@);
    let ghost all = ev.map_values(|e: (Seq<char>, Seq<char>)| (e.0, BodyView::Plain(e.1)));
    let mut data: Vec<(String, Body)> = Vec::new();
    let mut k: usize = 0;
    assert(model::vmap(data@) =~= all.take(0));
    while k < entries.len()
        invariant
            k <= entries@.len(),
            ev == model::vmap(entries@),
            all == ev.map_values(|e: (Seq<char>, Seq<char>)| (e.0, BodyView::Plain(e.1))),
            model::vmap(data@) == all.take(k as int),
        decreases entries@.len() - k,
    {
        broadcast use model::vmap_push, model::take_push;

        assert(ev[k as int] == entries@[k as int]@);
        data.push((entries[k].0.clone(), Body::Plain(entries[k].1.clone())));
        k += 1;
    }
    assert(all.take(k as int) =~= all);
    Some(ConfigMap { name, metadata, data })
}

// ---------------------------------------------------------------------------
// Sessions
// ---------------------------------------------------------------------------

/// The category of a query, `default` where it has none.
pub open spec fn category_of(q: QueryView) -> Seq<char> {
    match q.category {
        Some(c) => c,
        None => "default"@,
    }
}

/// The categories of the queries, in the order of their first query.
pub open spec fn categories_of(queries: Seq<QueryView>) -> Seq<Seq<char>> {
    validation::distinct(queries.map_values(|q: QueryView| category_of(q)))
}

/// The queries of a category, in their order.
pub open spec fn queries_in(queries: Seq<QueryView>, category: Seq<char>) -> Seq<QueryView> {
    queries.filter(|q: QueryView| category_of(q) == category)
}

/// The category of a session that holds the queries of that name.
pub open spec fn category_view(queries: Seq<QueryView>, name: Seq<char>) -> CategoryView {
    CategoryView {
        name,
        queries: queries_in(queries, name),
        iteration: IterationMode::Sequential,
        parallelism: 1,
    }
}

/// The session that the categories of the queries make up.
pub open spec fn grouped_session(queries: Seq<QueryView>) -> SessionView {
    SessionView {
        categories: categories_of(queries).map_values(
            |c: Seq<char>| category_view(queries, c),
        ),
        think_time_ms: 0,
    }
}

/// The session that workers run: the one given; else, where every query has a category,
/// that of the categories; else none.
pub open spec fn effective_session(s: ScenarioView) -> Option<SessionView> {
    if s.session is Some {
        s.session
    } else if s.session_mode() {
        Some(grouped_session(s.queries))
    } else {
        None
    }
}

fn category_text(q: &QueryDef) -> (r: &str)
    ensures
        r@ == category_of(q@),
{
    match &q.category {
        Some(c) => c.as_str(),
        None => "default",
    }
}

fn category_names(queries: &Vec<QueryDef>) -> (r: Vec<String>)
    ensures
        text::views(r@) == categories_of(model::vmap(queries@)),
{
    let ghost all = model::vmap(queries@).map_values(|q: QueryView| category_of(q));
    let mut out: Vec<String> = Vec::new();
    let mut i: usize = 0;
    assert(text::views(out@) =~= validation::distinct(all.take(0)));
    while i < queries.len()
        invariant
            i <= queries@.len(),
            all == model::vmap(queries@).map_values(|q: QueryView| category_of(q)),
            text::views(out@) == validation::distinct(all.take(i as int)),
        decreases queries@.len() - i,
    {
        broadcast use model::views_push;

        let name = category_text(&queries[i]);
        proof {
            assert(all.take(i + 1).drop_last() =~= all.take(i as int));
            assert(all.take(i + 1).last() == name@);
        }
        if !text::list_has(&out, name) {
            out.push(text::owned(name));
        }
        i += 1;
    }
    assert(all.take(i as int) =~= all);
    out
}

fn queries_of_category(queries: &Vec<QueryDef>, category: &str) -> (r: Vec<QueryDef>)
    ensures
        model::vmap(r@) == queries_in(model::vmap(queries@), category@),
{
    let ghost all = model::vmap(queries@);
    let mut out: Vec<QueryDef> = Vec::new();
    let mut i: usize = 0;
    proof {
        reveal(Seq::filter);
        assert(model::vmap(out@) =~= queries_in(all.take(0), category@));
    }
    while i < queries.len()
        invariant
            i <= queries@.len(),
            all == model::vmap(queries@),
            model::vmap(out@) == queries_in(all.take(i as int), category@),
        decreases queries@.len() - i,
    {
        broadcast use model::vmap_push;

        proof {
            reveal(Seq::filter);
            assert(all.take(i + 1).drop_last() =~= all.take(i as int));
            assert(all.take(i + 1).last() == queries@[i as int]@);
        }
        if text::same(category_text(&queries[i]), category) {
            out.push(queries[i].duplicate());
        }
        i += 1;
    }
    assert(all.take(i as int) =~= all);
    out
}

/// The session that the workers of a scenario run.
pub fn derive_query_session(scenario: &Scenario) -> (r: Option<QuerySession>)
    ensures
        match r {
            Some(s) => effective_session(scenario@) == Some(s@),
            None => effective_session(scenario@) is None,
        },
{
    match &scenario.query_session {
        Some(s) => return Some(s.duplicate()),
        None => {},
    }
    if !scenario.is_session_mode() {
        return None;
    }
    let queries = &scenario.query_mix.queries;
    let names = category_names(queries);
    let ghost nv = text::views(names@);
    let ghost qv = model::vmap(queries@);
    let ghost all = nv.map_values(|c: Seq<char>| category_view(qv, c));
    let mut categories: Vec<QueryCategory> = Vec::new();
    let mut i: usize = 0;
    assert(model::vmap(categories@) =~= all.take(0));
    while i < names.len()
        invariant
            i <= names@.len(),
            nv == text::views(names@),
            qv == model::vmap(queries@),
            all == nv.map_values(|c: Seq<char>| category_view(qv, c)),
            model::vmap(categories@) == all.take(i as int),
        decreases names@.len() - i,
    {
        broadcast use model::vmap_push, model::take_push;

        assert(nv[i as int] == names@[i as int]@);
        let c = QueryCategory {
            name: names[i].clone(),
            queries: queries_of_category(queries, names[i].as_str()),
            iteration: IterationMode::Sequential,
            parallelism: 1,
        };
        assert(c@ == all[i as int]);
        categories.push(c);
        i += 1;
    }
    assert(all.take(i as int) =~= all);
    Some(QuerySession { categories, think_time_ms: 0 })
}

/// Grouping loses no query: each is in the category that it names, and in no other.
pub proof fn every_query_has_its_category(queries: Seq<QueryView>, i: int)
    requires
        0 <= i < queries.len(),
    ensures
        categories_of(queries).contains(category_of(queries[i])),
        queries_in(queries, category_of(queries[i])).contains(queries[i]),
        forall|c: Seq<char>|
            queries_in(queries, c).contains(queries[i]) ==> c == category_of(queries[i]),
{
    let names = queries.map_values(|q: QueryView| category_of(q));
    let mine = category_of(queries[i]);
    assert(names[i] == mine);
    validation::distinct_keeps_all(names, mine);
    let pred = |q: QueryView| category_of(q) == mine;
    assert(queries.filter(pred).contains(queries[i])) by {
        filter_keeps(queries, pred, i);
    }
    assert forall|c: Seq<char>| queries_in(queries, c).contains(queries[i]) implies c == mine by {
        broadcast use vstd::seq_lib::group_filter_ensures;

        let f = queries_in(queries, c);
        let k = choose|k: int| 0 <= k < f.len() && f[k] == queries[i];
        assert(category_of(f[k]) == c);
    }
}

proof fn filter_keeps(queries: Seq<QueryView>, pred: spec_fn(QueryView) -> bool, i: int)
    requires
        0 <= i < queries.len(),
        pred(queries[i]),
    ensures
        queries.filter(pred).contains(queries[i]),
    decreases queries.len(),
{
    reveal(Seq::filter);
    let front = queries.drop_last();
    if i == queries.len() - 1 {
        let f = front.filter(pred).push(queries[i]);
        assert(f[f.len() - 1] == queries[i]);
    } else {
        filter_keeps(front, pred, i);
        let before = front.filter(pred);
        let k = choose|k: int| 0 <= k < before.len() && before[k] == queries[i];
        assert(queries.filter(pred)[k] == queries[i]);
    }
}

// ---------------------------------------------------------------------------
// Workers
// ---------------------------------------------------------------------------

/// The workers of each group.
pub open spec fn group_replicas(groups: Seq<QueryGroupSpec>) -> Seq<int> {
    groups.map_values(|g: QueryGroupSpec| g.replicas as int)
}

/// How many query workers there are: those of the groups where there are groups, else
/// those asked for.
pub open spec fn query_workers(workers: WorkerSpec) -> int {
    match workers.query_groups {
        Some(groups) => model::sum(group_replicas(groups@)),
        None => workers.query.replicas as int,
    }
}

/// How many query workers there are.
pub fn total_query_workers(workers: &WorkerSpec) -> (r: u32)
    requires
        query_workers(*workers) <= u32::MAX,
    ensures
        r == query_workers(*workers),
{
    match &workers.query_groups {
        None => workers.query.replicas,
        Some(groups) => {
            let ghost all = group_replicas(groups@);
            let mut total: u32 = 0;
            let mut i: usize = 0;
            assert(all.take(0) =~= Seq::<int>::empty());
            while i < groups.len()
                invariant
                    i <= groups@.len(),
                    all == group_replicas(groups@),
                    model::sum(all) <= u32::MAX,
                    total == model::sum(all.take(i as int)),
                decreases groups@.len() - i,
            {
                proof {
                    model::sum_take(all, i as int);
                    model::sum_prefix(all, i + 1);
                    assert(all[i as int] == groups@[i as int].replicas);
                }
                total = total + groups[i].replicas;
                i += 1;
            }
            assert(all.take(i as int) =~= all);
            total
        },
    }
}

/// Where the phase controller of a run is reached.
pub open spec fn phase_controller_addr(run_name: Seq<char>, namespace: Seq<char>) -> Seq<char> {
    run_name + "-phase-controller."@ + namespace + ".svc:50051"@
}

/// Where the aggregator of a run is reached.
pub open spec fn aggregator_addr(run_name: Seq<char>, namespace: Seq<char>) -> Seq<char> {
    run_name + "-aggregator."@ + namespace + ".svc:50052"@
}

/// Where the phase controller of a run is reached.
pub fn phase_controller_addr_of(run_name: &str, namespace: &str) -> (r: String)
    ensures
        r@ == phase_controller_addr(run_name@, namespace@),
{
    text::join4(run_name, "-phase-controller.", namespace, ".svc:50051")
}

/// Where the aggregator of a run is reached.
pub fn aggregator_addr_of(run_name: &str, namespace: &str) -> (r: String)
    ensures
        r@ == aggregator_addr(run_name@, namespace@),
{
    text::join4(run_name, "-aggregator.", namespace, ".svc:50052")
}

/// What every worker of a run is told.
pub struct Common {
    pub run_name: String,
    pub run_seed: u64,
    pub kafka: String,
    pub phase_controller: String,
    pub aggregator: String,
    pub adapter: String,
    pub target_config: Json,
    pub session: Json,
    pub default_timeout_ms: u64,
}

pub struct CommonView {
    pub run_name: Seq<char>,
    pub run_seed: u64,
    pub kafka: Seq<char>,
    pub phase_controller: Seq<char>,
    pub aggregator: Seq<char>,
    pub adapter: Seq<char>,
    pub target_config: Doc,
    pub session: Doc,
    pub default_timeout_ms: u64,
}

impl View for Common {
    type V = CommonView;

    open spec fn view(&self) -> CommonView {
        CommonView {
            run_name: self.run_name@,
            run_seed: self.run_seed,
            kafka: self.kafka@,
            phase_controller: self.phase_controller@,
            aggregator: self.aggregator@,
            adapter: self.adapter@,
            target_config: self.target_config.doc(),
            session: self.session.doc(),
            default_timeout_ms: self.default_timeout_ms,
        }
    }
}

/// A phase as the phase controller sees it. Ingest workers keep to their own rates.
pub open spec fn controller_phase_doc(p: PhaseView, workers: int) -> Doc {
    Doc::object()
        .with("name"@, Doc::Text(p.name))
        .with("duration_seconds"@, Doc::Uint(p.duration_seconds as nat))
        .with("per_worker_ingest_eps"@, Doc::Uint(0))
        .with(
            "per_worker_query_mqps"@,
            Doc::Uint(
                (rates::part_mqps(p.target_pqps as int, ONE_PPB as int) / rates::sharers(workers)) as nat,
            ),
        )
}

fn controller_phase(p: &PhaseDef, workers: u32) -> (r: Json)
    ensures
        r.doc() == controller_phase_doc(p@, workers as int),
{
    let sharing: u64 = if workers < 1 {
        1
    } else {
        workers as u64
    };
    let mqps: u64 = rates::part_of_rate(p.query.target_pqps, ONE_PPB);
    Json::object()
        .with("name", Json::text(p.name.as_str()))
        .with("duration_seconds", Json::Uint(p.duration_seconds))
        .with("per_worker_ingest_eps", Json::Uint(0))
        .with("per_worker_query_mqps", Json::Uint(mqps / sharing))
}

/// The phases as the phase controller sees them.
pub open spec fn controller_phases_doc(items: Seq<PhaseView>, workers: int) -> Doc {
    Doc::Array(items.map_values(|x: PhaseView| controller_phase_doc(x, workers)))
}

fn controller_phases(items: &Vec<PhaseDef>, workers: u32) -> (r: Json)
    ensures
        r.doc() == controller_phases_doc(model::vmap(items@), workers as int),
{
    let mut out: Vec<Json> = Vec::new();
    let mut i: usize = 0;
    while i < items.len()
        invariant
            i <= items@.len(),
            out@.len() == i,
            forall|k: int| 0 <= k < i ==> (#[trigger] out@[k]).doc() == controller_phase_doc(items@[k]@, workers as int),
        decreases items@.len() - i,
    {
        out.push(controller_phase(&items[i], workers));
        i += 1;
    }
    proof {
        Json::doc_of_array(out);
        let want = model::vmap(items@).map_values(|x: PhaseView| controller_phase_doc(x, workers as int));
        assert(Seq::new(out@.len(), |i: int| out@[i].doc()) =~= want);
    }
    Json::Array(out)
}

/// What the phase controller is told.
pub open spec fn phase_controller_doc(phases: Seq<PhaseView>, ingest: int, query: int) -> Doc {
    Doc::object()
        .with("expected_ingest_workers"@, Doc::Uint(ingest as nat))
        .with("expected_query_workers"@, Doc::Uint(query as nat))
        .with("phases"@, controller_phases_doc(phases, query))
}

fn phase_controller_config(phases: &Vec<PhaseDef>, ingest: u32, query: u32) -> (r: Json)
    ensures
        r.doc() == phase_controller_doc(model::vmap(phases@), ingest as int, query as int),
{
    Json::object()
        .with("expected_ingest_workers", Json::Uint(ingest as u64))
        .with("expected_query_workers", Json::Uint(query as u64))
        .with("phases", controller_phases(phases, query))
}

/// The consumer group of a stream: the one that was prepared, else the index's own.
pub open spec fn group_of_stream(s: StreamView, groups: Seq<(Seq<char>, Seq<char>)>) -> Seq<char> {
    match model::find(groups, s.name) {
        Some(g) => g,
        None => s.schema.index_name + "-cg"@,
    }
}

/// A stream as the aggregator sees it.
pub open spec fn aggregator_stream_doc(s: StreamView, groups: Seq<(Seq<char>, Seq<char>)>) -> Doc {
    Doc::object()
        .with("name"@, Doc::Text(s.name))
        .with("kafka_topic"@, Doc::Text(s.schema.index_name))
        .with("consumer_group"@, Doc::Text(group_of_stream(s, groups)))
}

fn aggregator_stream(s: &DataStream, groups: &Vec<(String, String)>) -> (r: Json)
    ensures
        r.doc() == aggregator_stream_doc(s@, model::vmap(groups@)),
{
    let group = match model::find_in(groups, s.name.as_str()) {
        Some(g) => g.clone(),
        None => text::join2(s.schema.index_name.as_str(), "-cg"),
    };
    Json::object()
        .with("name", Json::text(s.name.as_str()))
        .with("kafka_topic", Json::text(s.schema.index_name.as_str()))
        .with("consumer_group", Json::text(group.as_str()))
}

/// The streams as the aggregator sees them.
pub open spec fn aggregator_streams_doc(items: Seq<StreamView>, groups: Seq<(Seq<char>, Seq<char>)>) -> Doc {
    Doc::Array(items.map_values(|x: StreamView| aggregator_stream_doc(x, groups)))
}

fn aggregator_streams(items: &Vec<DataStream>, groups: &Vec<(String, String)>) -> (r: Json)
    ensures
        r.doc() == aggregator_streams_doc(model::vmap(items@), model::vmap(groups@)),
{
    let mut out: Vec<Json> = Vec::new();
    let mut i: usize = 0;
    while i < items.len()
        invariant
            i <= items@.len(),
            out@.len() == i,
            forall|k: int| 0 <= k < i ==> (#[trigger] out@[k]).doc() == aggregator_stream_doc(items@[k]@, model::vmap(groups@)),
        decreases items@.len() - i,
    {
        out.push(aggregator_stream(&items[i], groups));
        i += 1;
    }
    proof {
        Json::doc_of_array(out);
        let want = model::vmap(items@).map_values(|x: StreamView| aggregator_stream_doc(x, model::vmap(groups@)));
        assert(Seq::new(out@.len(), |i: int| out@[i].doc()) =~= want);
    }
    Json::Array(out)
}

/// What the aggregator is told.
pub open spec fn aggregator_doc(kafka: Seq<char>, streams: Seq<StreamView>, groups: Seq<(Seq<char>, Seq<char>)>) -> Doc {
    Doc::object()
        .with("kafka_bootstrap_servers"@, Doc::Text(kafka))
        .with("streams"@, aggregator_streams_doc(streams, groups))
        .with("results_path"@, Doc::Text("/results"@))
}

fn aggregator_config(kafka: &str, streams: &Vec<DataStream>, groups: &Vec<(String, String)>) -> (r: Json)
    ensures
        r.doc() == aggregator_doc(kafka@, model::vmap(streams@), model::vmap(groups@)),
{
    Json::object()
        .with("kafka_bootstrap_servers", Json::text(kafka))
        .with("streams", aggregator_streams(streams, groups))
        .with("results_path", Json::text("/results"))
}

/// What a stream's ingest workers are told.
pub open spec fn ingest_doc(c: CommonView, s: StreamView, phases: Seq<PhaseView>) -> Doc {
    Doc::object()
        .with("worker_index"@, Doc::Uint(0))
        .with("run_seed"@, Doc::Uint(c.run_seed as nat))
        .with("schema"@, Schema::doc_of(s.schema))
        .with("rate_table"@, WorkerRateTable::doc_of(rates::ingest_table(phases, s, 0)))
        .with("kafka_bootstrap_servers"@, Doc::Text(c.kafka))
        .with("kafka_topic"@, Doc::Text(s.schema.index_name))
        .with("phase_controller_addr"@, Doc::Text(c.phase_controller))
        .with("aggregator_addr"@, Doc::Text(c.aggregator))
}

fn ingest_config(c: &Common, s: &DataStream, scenario: &Scenario) -> (r: Json)
    ensures
        r.doc() == ingest_doc(c@, s@, scenario@.phases),
{
    let table = scenario.compute_ingest_rate_table(s, 0);
    Json::object()
        .with("worker_index", Json::Uint(0))
        .with("run_seed", Json::Uint(c.run_seed))
        .with("schema", s.schema.to_json())
        .with("rate_table", table.to_json())
        .with("kafka_bootstrap_servers", Json::text(c.kafka.as_str()))
        .with("kafka_topic", Json::text(s.schema.index_name.as_str()))
        .with("phase_controller_addr", Json::text(c.phase_controller.as_str()))
        .with("aggregator_addr", Json::text(c.aggregator.as_str()))
}

/// What query workers are told.
pub open spec fn query_doc(c: CommonView, mix: Seq<QueryView>, own: Option<Seq<(Seq<char>, i64)>>, phases: Seq<PhaseView>, part: int, workers: int, endpoint: Seq<char>, group: Seq<char>) -> Doc {
    Doc::object()
        .with("worker_index"@, Doc::Uint(0))
        .with("run_seed"@, Doc::Uint(c.run_seed as nat))
        .with("query_mix"@, QueryMix::doc_of(mix))
        .with("phase_mixes"@, docs::list_doc::<PhaseMix>(mix::mixes(own, phases)))
        .with(
            "rate_table"@,
            WorkerRateTable::doc_of(rates::query_table(phases, part, workers, 0)),
        )
        .with("query_endpoint"@, Doc::Text(endpoint))
        .with("query_group"@, Doc::Text(group))
        .with("target_adapter"@, Doc::Text(c.adapter))
        .with("target_config"@, c.target_config)
        .with("phase_controller_addr"@, Doc::Text(c.phase_controller))
        .with("aggregator_addr"@, Doc::Text(c.aggregator))
        .with("query_session"@, c.session)
        .with("default_timeout_ms"@, Doc::Uint(c.default_timeout_ms as nat))
}

fn query_config(c: &Common, mix: &QueryMix, own: &Option<Vec<(String, i64)>>, scenario: &Scenario, part: i64, workers: u32, endpoint: &str, group: &str) -> (r: Json)
    ensures
        r.doc() == query_doc(c@, mix@, model::opt_vmap(*own), scenario@.phases, part as int, workers as int, endpoint@, group@),
{
    let table = scenario.compute_group_rate_table(part, workers, 0);
    let mixes = mix::resolve_mixes(own, &scenario.timeline.phases);
    Json::object()
        .with("worker_index", Json::Uint(0))
        .with("run_seed", Json::Uint(c.run_seed))
        .with("query_mix", mix.to_json())
        .with("phase_mixes", docs::list_json(&mixes))
        .with("rate_table", table.to_json())
        .with("query_endpoint", Json::text(endpoint))
        .with("query_group", Json::text(group))
        .with("target_adapter", Json::text(c.adapter.as_str()))
        .with("target_config", c.target_config.copy())
        .with("phase_controller_addr", Json::text(c.phase_controller.as_str()))
        .with("aggregator_addr", Json::text(c.aggregator.as_str()))
        .with("query_session", c.session.copy())
        .with("default_timeout_ms", Json::Uint(c.default_timeout_ms))
}

/// The group of that name, from the `i`-th group of the scenario on.
pub open spec fn group_named(
    groups: Seq<crate::scenario::GroupView>,
    name: Seq<char>,
    i: int,
) -> Option<crate::scenario::GroupView>
    decreases groups.len() - i,
{
    if i >= groups.len() {
        None
    } else if groups[i].name == name {
        Some(groups[i])
    } else {
        group_named(groups, name, i + 1)
    }
}

/// The scenario's group of that name.
pub open spec fn scenario_group(s: ScenarioView, name: Seq<char>) -> Option<
    crate::scenario::GroupView,
> {
    match s.groups {
        Some(groups) => group_named(groups, name, 0),
        None => None,
    }
}

fn find_group_in<'a>(groups: &'a Vec<QueryGroup>, name: &str) -> (r: Option<&'a QueryGroup>)
    ensures
        match r {
            Some(g) => group_named(model::vmap(groups@), name@, 0) == Some(g@),
            None => group_named(model::vmap(groups@), name@, 0) is None,
        },
{
    let ghost all = model::vmap(groups@);
    let mut i: usize = 0;
    while i < groups.len()
        invariant
            i <= groups@.len(),
            all == model::vmap(groups@),
            group_named(all, name@, 0) == group_named(all, name@, i as int),
        decreases groups@.len() - i,
    {
        assert(all[i as int] == groups@[i as int]@);
        if text::same(groups[i].name.as_str(), name) {
            return Some(&groups[i]);
        }
        i += 1;
    }
    None
}

fn find_group<'a>(scenario: &'a Scenario, name: &str) -> (r: Option<&'a QueryGroup>)
    ensures
        match r {
            Some(g) => scenario_group(scenario@, name@) == Some(g@),
            None => scenario_group(scenario@, name@) is None,
        },
{
    match &scenario.query_groups {
        None => None,
        Some(groups) => find_group_in(groups, name),
    }
}

/// The first endpoint, empty where there is none.
pub open spec fn first_endpoint(endpoints: Seq<(Seq<char>, Seq<char>)>) -> Seq<char> {
    if endpoints.len() > 0 {
        endpoints[0].1
    } else {
        Seq::empty()
    }
}

/// The endpoint of a warehouse, the first one where it has none.
pub open spec fn warehouse_endpoint(
    endpoints: Seq<(Seq<char>, Seq<char>)>,
    warehouse: Seq<char>,
) -> Seq<char> {
    match model::find(endpoints, warehouse) {
        Some(e) => e,
        None => first_endpoint(endpoints),
    }
}

/// What a group's query workers are told: the group's queries and weights, its part of the rate shared
/// among its workers, and its warehouse's endpoint. A group that the scenario does not know
/// has all queries and the whole rate.
pub open spec fn group_doc(
    c: CommonView,
    s: ScenarioView,
    g: QueryGroupSpec,
    endpoints: Seq<(Seq<char>, Seq<char>)>,
) -> Doc {
    let known = scenario_group(s, g.name@);
    query_doc(
        c,
        match known {
            Some(k) => rates::group_queries(s.queries, k),
            None => s.queries,
        },
        match known {
            Some(k) => k.mix_override,
            None => None,
        },
        s.phases,
        match known {
            Some(k) => k.weight_ppb as int,
            None => ONE_PPB as int,
        },
        g.replicas as int,
        warehouse_endpoint(endpoints, g.warehouse.name@),
        g.name@,
    )
}

fn group_config(
    c: &Common,
    scenario: &Scenario,
    g: &QueryGroupSpec,
    endpoints: &Vec<(String, String)>,
    first: &str,
) -> (r: Json)
    requires
        first@ == first_endpoint(model::vmap(endpoints@)),
    ensures
        r.doc() == group_doc(c@, scenario@, *g, model::vmap(endpoints@)),
{
    let known = find_group(scenario, g.name.as_str());
    let mix = match known {
        Some(k) => scenario.resolve_group_query_mix(k),
        None => scenario.query_mix.duplicate(),
    };
    let part: i64 = match known {
        Some(k) => k.weight_ppb,
        None => ONE_PPB,
    };
    let endpoint = match model::find_in(endpoints, g.warehouse.name.as_str()) {
        Some(e) => e.as_str(),
        None => first,
    };
    let own = match known {
        Some(k) => model::duplicate_opt_list(&k.mix_override),
        None => None,
    };
    query_config(c, &mix, &own, scenario, part, g.replicas, endpoint, g.name.as_str())
}

/// What every worker of a run is told.
pub open spec fn common(
    run_name: Seq<char>,
    run_seed: u64,
    s: ScenarioView,
    adapter: Seq<char>,
    target_config: Doc,
    kafka: Seq<char>,
    run: IdentityView,
) -> CommonView {
    CommonView {
        run_name,
        run_seed,
        kafka,
        phase_controller: phase_controller_addr(run_name, run.namespace_or_default()),
        aggregator: aggregator_addr(run_name, run.namespace_or_default()),
        adapter,
        target_config,
        session: docs::opt_session_doc(effective_session(s)),
        default_timeout_ms: s.default_timeout_ms,
    }
}

/// The ConfigMap of a stream's ingest workers.
pub open spec fn ingest_map(
    c: CommonView,
    s: StreamView,
    phases: Seq<PhaseView>,
    run: IdentityView,
) -> ConfigMapView {
    config_map(
        resources::sub_part_name(c.run_name, "ingest"@, s.name),
        c.run_name,
        "ingest"@,
        run,
        "ingest.yaml"@,
        BodyView::Yaml(ingest_doc(c, s, phases)),
    )
}

/// The ConfigMap of a group's query workers.
pub open spec fn group_map(
    c: CommonView,
    s: ScenarioView,
    g: QueryGroupSpec,
    endpoints: Seq<(Seq<char>, Seq<char>)>,
    run: IdentityView,
) -> ConfigMapView {
    config_map(
        resources::sub_part_name(c.run_name, "query"@, g.name@),
        c.run_name,
        "query"@,
        run,
        "query-"@ + g.name@ + ".yaml"@,
        BodyView::Yaml(group_doc(c, s, g, endpoints)),
    )
}

/// The ConfigMaps of a run: that of the scenario, the phase controller, the aggregator,
/// each stream's ingest workers, the query workers, and each group's query workers.
pub open spec fn worker_maps(
    c: CommonView,
    s: ScenarioView,
    workers: WorkerSpec,
    consumer_groups: Seq<(Seq<char>, Seq<char>)>,
    endpoints: Seq<(Seq<char>, Seq<char>)>,
    run: IdentityView,
) -> Seq<ConfigMapView> {
    let front = seq![
        config_map(
            resources::part_name(c.run_name, "scenario"@),
            c.run_name,
            "scenario"@,
            run,
            "scenario.yaml"@,
            BodyView::Scenario,
        ),
        config_map(
            resources::part_name(c.run_name, "phase-controller"@),
            c.run_name,
            "phase-controller"@,
            run,
            "phase-controller.yaml"@,
            BodyView::Yaml(
                phase_controller_doc(s.phases, s.total_replicas(), query_workers(workers)),
            ),
        ),
        config_map(
            resources::part_name(c.run_name, "aggregator"@),
            c.run_name,
            "aggregator"@,
            run,
            "aggregator.yaml"@,
            BodyView::Yaml(aggregator_doc(c.kafka, s.stream_list(), consumer_groups)),
        ),
    ];
    let ingest = s.stream_list().map_values(|x: StreamView| ingest_map(c, x, s.phases, run));
    let query = config_map(
        resources::part_name(c.run_name, "query"@),
        c.run_name,
        "query"@,
        run,
        "query.yaml"@,
        BodyView::Yaml(
            query_doc(
                c,
                s.queries,
                None,
                s.phases,
                ONE_PPB as int,
                query_workers(workers),
                first_endpoint(endpoints),
                ""@,
            ),
        ),
    );
    let all = (front + ingest).push(query);
    match workers.query_groups {
        Some(groups) => all + groups@.map_values(
            |g: QueryGroupSpec| group_map(c, s, g, endpoints, run),
        ),
        None => all,
    }
}

/// The ConfigMaps of a run. Its seed follows from its name.
pub fn build_worker_configmaps(
    run_name: &str,
    scenario: &Scenario,
    workers: &WorkerSpec,
    adapter: &str,
    target_config: &Json,
    run: &RunIdentity,
    consumer_groups: &Vec<(String, String)>,
    query_endpoints: &Vec<(String, String)>,
    kafka_bootstrap_servers: &str,
) -> (r: Vec<ConfigMap>)
    requires
        scenario@.total_replicas() <= u32::MAX,
        query_workers(*workers) <= u32::MAX,
    ensures
        model::vmap(r@) == worker_maps(
            common(
                run_name@,
                seeds::default_hash(run_name@),
                scenario@,
                adapter@,
                target_config.doc(),
                kafka_bootstrap_servers@,
                run@,
            ),
            scenario@,
            *workers,
            model::vmap(consumer_groups@),
            model::vmap(query_endpoints@),
            run@,
        ),
{
    configmaps_for_seed(
        run_name,
        seeds::run_seed(run_name),
        scenario,
        workers,
        adapter,
        target_config,
        run,
        consumer_groups,
        query_endpoints,
        kafka_bootstrap_servers,
    )
}

/// The ConfigMaps of a run whose seed is `run_seed`.
pub fn configmaps_for_seed(
    run_name: &str,
    run_seed: u64,
    scenario: &Scenario,
    workers: &WorkerSpec,
    adapter: &str,
    target_config: &Json,
    run: &RunIdentity,
    consumer_groups: &Vec<(String, String)>,
    query_endpoints: &Vec<(String, String)>,
    kafka_bootstrap_servers: &str,
) -> (r: Vec<ConfigMap>)
    requires
        scenario@.total_replicas() <= u32::MAX,
        query_workers(*workers) <= u32::MAX,
    ensures
        model::vmap(r@) == worker_maps(
            common(
                run_name@,
                run_seed,
                scenario@,
                adapter@,
                target_config.doc(),
                kafka_bootstrap_servers@,
                run@,
            ),
            scenario@,
            *workers,
            model::vmap(consumer_groups@),
            model::vmap(query_endpoints@),
            run@,
        ),
{
    let session = match derive_query_session(scenario) {
        Some(s) => s.to_json(),
        None => Json::Null,
    };
    let ns = run.namespace_or_default();
    let c = Common {
        run_name: text::owned(run_name),
        run_seed,
        kafka: text::owned(kafka_bootstrap_servers),
        phase_controller: phase_controller_addr_of(run_name, ns),
        aggregator: aggregator_addr_of(run_name, ns),
        adapter: text::owned(adapter),
        target_config: target_config.copy(),
        session,
        default_timeout_ms: scenario.default_timeout_ms,
    };
    let ghost cv = c@;
    let ghost ev = model::vmap(query_endpoints@);
    let ghost gv = model::vmap(consumer_groups@);
    let ghost want = worker_maps(cv, scenario@, *workers, gv, ev, run@);
    let total_ingest: u32 = scenario.total_ingest_replicas();
    let total_query: u32 = total_query_workers(workers);
    let mut out: Vec<ConfigMap> = Vec::new();
    out.push(
        config_map_of(
            resources::part_name_of(run_name, "scenario"),
            run_name,
            "scenario",
            run,
            "scenario.yaml",
            Body::Scenario,
        ),
    );
    let pc = phase_controller_config(&scenario.timeline.phases, total_ingest, total_query);
    out.push(
        config_map_of(
            resources::part_name_of(run_name, "phase-controller"),
            run_name,
            "phase-controller",
            run,
            "phase-controller.yaml",
            Body::Yaml(pc),
        ),
    );
    let none: Vec<DataStream> = Vec::new();
    assert(model::vmap(none@) =~= Seq::empty());
    let streams = match &scenario.data_streams {
        Some(s) => s,
        None => &none,
    };
    assert(model::vmap(streams@) == scenario@.stream_list());
    let agg = aggregator_config(kafka_bootstrap_servers, streams, consumer_groups);
    out.push(
        config_map_of(
            resources::part_name_of(run_name, "aggregator"),
            run_name,
            "aggregator",
            run,
            "aggregator.yaml",
            Body::Yaml(agg),
        ),
    );
    let ghost front = model::vmap(out@);
    let ghost ingest = scenario@.stream_list().map_values(
        |x: StreamView| ingest_map(cv, x, scenario@.phases, run@),
    );
    let mut i: usize = 0;
    assert(model::vmap(out@) =~= front + ingest.take(0));
    while i < streams.len()
        invariant
            i <= streams@.len(),
            cv == c@,
            cv.run_name == run_name@,
            model::vmap(streams@) == scenario@.stream_list(),
            ingest == scenario@.stream_list().map_values(
                |x: StreamView| ingest_map(cv, x, scenario@.phases, run@),
            ),
            model::vmap(out@) == front + ingest.take(i as int),
        decreases streams@.len() - i,
    {
        broadcast use model::vmap_push, model::take_push;

        assert(scenario@.stream_list()[i as int] == streams@[i as int]@);
        let doc = ingest_config(&c, &streams[i], scenario);
        let cm = config_map_of(
            resources::sub_part_name_of(run_name, "ingest", streams[i].name.as_str()),
            run_name,
            "ingest",
            run,
            "ingest.yaml",
            Body::Yaml(doc),
        );
        assert(cm@ == ingest[i as int]);
        out.push(cm);
        assert(model::vmap(out@) =~= front + ingest.take(i + 1));
        i += 1;
    }
    assert(ingest.take(i as int) =~= ingest);
    let first = if query_endpoints.len() > 0 {
        query_endpoints[0].1.clone()
    } else {
        String::new()
    };
    assert(first@ =~= first_endpoint(ev));
    let doc = query_config(
        &c,
        &scenario.query_mix,
        &None,
        scenario,
        ONE_PPB,
        total_query,
        first.as_str(),
        "",
    );
    let cm = config_map_of(
        resources::part_name_of(run_name, "query"),
        run_name,
        "query",
        run,
        "query.yaml",
        Body::Yaml(doc),
    );
    proof {
        model::vmap_push(out@, cm);
    }
    out.push(cm);
    match &workers.query_groups {
        None => {},
        Some(groups) => {
            let ghost all = model::vmap(out@);
            let ghost maps = groups@.map_values(
                |g: QueryGroupSpec| group_map(cv, scenario@, g, ev, run@),
            );
            let mut k: usize = 0;
            assert(model::vmap(out@) =~= all + maps.take(0));
            while k < groups.len()
                invariant
                    k <= groups@.len(),
                    cv == c@,
                    cv.run_name == run_name@,
                    ev == model::vmap(query_endpoints@),
                    first@ == first_endpoint(ev),
                    maps == groups@.map_values(
                        |g: QueryGroupSpec| group_map(cv, scenario@, g, ev, run@),
                    ),
                    model::vmap(out@) == all + maps.take(k as int),
                decreases groups@.len() - k,
            {
                broadcast use model::vmap_push, model::take_push;

                let doc = group_config(&c, scenario, &groups[k], query_endpoints, first.as_str());
                let cm = config_map_of(
                    resources::sub_part_name_of(run_name, "query", groups[k].name.as_str()),
                    run_name,
                    "query",
                    run,
                    text::join3("query-", groups[k].name.as_str(), ".yaml").as_str(),
                    Body::Yaml(doc),
                );
                assert(cm@ == maps[k as int]);
                out.push(cm);
                assert(model::vmap(out@) =~= all + maps.take(k + 1));
                k += 1;
            }
            assert(maps.take(k as int) =~= maps);
        },
    }
    proof {
        let made = model::vmap(out@);
        assert(front =~= seq![front[0], front[1], front[2]]);
        assert(made =~= want);
    }
    out
}

} // verus!
