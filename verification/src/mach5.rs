//! The adapter for the Mach5 platform: what it is told, which requests set a benchmark up
//! and take it down again, and what its replies mean.
use vstd::prelude::*;
use vstd::string::*;
use crate::adapter;
use crate::adapter::{
    DataStreamConfig, PrepareResult, PrepareView, StreamConfigView, WarehouseConfig, WarehouseView,
};
use crate::dsl;
use crate::json::{Doc, Json};
use crate::model;
use crate::text;

verus! {

/// How the PostgreSQL gateway is reached.
pub struct PgConfig {
    pub host: String,
    pub port: u16,
    pub user: String,
    pub password: String,
    pub dbname: String,
    /// The warehouse that queries run in; none where it is empty.
    pub warehouse: String,
}

/// The adapter for the Mach5 platform.
pub struct Mach5Adapter {
    pub endpoint: String,
    pub namespace: String,
    pub connection_name: String,
    pub pg_config: Option<PgConfig>,
}

pub struct PgView {
    pub host: Seq<char>,
    pub port: u16,
    pub user: Seq<char>,
    pub password: Seq<char>,
    pub dbname: Seq<char>,
    pub warehouse: Seq<char>,
}

pub struct AdapterView {
    pub endpoint: Seq<char>,
    pub namespace: Seq<char>,
    pub connection_name: Seq<char>,
    pub pg: Option<PgView>,
}

impl View for PgConfig {
    type V = PgView;

    open spec fn view(&self) -> PgView {
        PgView {
            host: self.host@,
            port: self.port,
            user: self.user@,
            password: self.password@,
            dbname: self.dbname@,
            warehouse: self.warehouse@,
        }
    }
}

impl View for Mach5Adapter {
    type V = AdapterView;

    open spec fn view(&self) -> AdapterView {
        AdapterView {
            endpoint: self.endpoint@,
            namespace: self.namespace@,
            connection_name: self.connection_name@,
            pg: match self.pg_config {
                Some(p) => Some(p@),
                None => None,
            },
        }
    }
}

// ---------------------------------------------------------------------------
// Configuration
// ---------------------------------------------------------------------------

/// The text that a member is.
pub open spec fn text_member(config: Doc, key: Seq<char>) -> Option<Seq<char>> {
    match config.get(key) {
        Some(v) => v.as_text(),
        None => None,
    }
}

/// The number that a member is.
pub open spec fn uint_member(config: Doc, key: Seq<char>) -> Option<nat> {
    match config.get(key) {
        Some(v) => v.as_uint(),
        None => None,
    }
}

/// The gateway, where host, user, password and database are all given.
pub open spec fn configured_pg(config: Doc) -> Option<PgView> {
    match (
        text_member(config, "pg_host"@),
        text_member(config, "pg_user"@),
        text_member(config, "pg_password"@),
        text_member(config, "pg_dbname"@),
    ) {
        (Some(host), Some(user), Some(password), Some(dbname)) => Some(
            PgView {
                host,
                port: match uint_member(config, "pg_port"@) {
                    Some(p) => (p % 0x1_0000) as u16,
                    None => 5432,
                },
                user,
                password,
                dbname,
                warehouse: match config.get("warehouse"@) {
                    Some(w) => match text_member(w, "name"@) {
                        Some(n) => n,
                        None => Seq::empty(),
                    },
                    None => Seq::empty(),
                },
            },
        ),
        _ => None,
    }
}

/// The adapter that a configuration describes.
pub open spec fn configured(config: Doc) -> Result<AdapterView, Seq<char>> {
    match text_member(config, "endpoint"@) {
        None => Err("Mach5 adapter requires 'endpoint' in config"@),
        Some(endpoint) => Ok(
            AdapterView {
                endpoint: text::without_trailing(endpoint, '/'),
                namespace: match text_member(config, "namespace"@) {
                    Some(n) => n,
                    None => "default"@,
                },
                connection_name: "incidentbench-kafka-conn"@,
                pg: configured_pg(config),
            },
        ),
    }
}

/// The text that a member is.
pub fn text_of<'a>(config: &'a Json, key: &str) -> (r: Option<&'a str>)
    ensures
        r is Some <==> text_member(config.doc(), key@) is Some,
        r is Some ==> text_member(config.doc(), key@) == Some(r->0@),
{
    match config.get(key) {
        Some(v) => v.as_text(),
        None => None,
    }
}

/// The number that a member is.
pub fn uint_of(config: &Json, key: &str) -> (r: Option<u64>)
    ensures
        r is Some <==> uint_member(config.doc(), key@) is Some,
        r is Some ==> uint_member(config.doc(), key@) == Some(r->0 as nat),
{
    match config.get(key) {
        Some(v) => v.as_uint(),
        None => None,
    }
}

fn pg_from(config: &Json) -> (r: Option<PgConfig>)
    ensures
        match r {
            Some(p) => configured_pg(config.doc()) == Some(p@),
            None => configured_pg(config.doc()) is None,
        },
{
    let port: u16 = match uint_of(config, "pg_port") {
        Some(p) => (p % 0x1_0000) as u16,
        None => 5432,
    };
    let warehouse = match config.get("warehouse") {
        Some(w) => match text_of(w, "name") {
            Some(n) => text::owned(n),
            None => String::new(),
        },
        None => String::new(),
    };
    match (
        text_of(config, "pg_host"),
        text_of(config, "pg_user"),
        text_of(config, "pg_password"),
        text_of(config, "pg_dbname"),
    ) {
        (Some(host), Some(user), Some(password), Some(dbname)) => Some(
            PgConfig {
                host: text::owned(host),
                port,
                user: text::owned(user),
                password: text::owned(password),
                dbname: text::owned(dbname),
                warehouse,
            },
        ),
        _ => None,
    }
}

/// The adapter of that name.
pub fn create_adapter(name: &str, config: &Json) -> (r: Result<Mach5Adapter, String>)
    ensures
        match r {
            Ok(a) => name@ == "mach5"@ && configured(config.doc()) == Ok::<
                AdapterView,
                Seq<char>,
            >(a@),
            Err(e) => if name@ == "mach5"@ {
                configured(config.doc()) == Err::<AdapterView, Seq<char>>(e@)
            } else {
                e@ == "Unknown adapter: "@ + name@
            },
        },
{
    if text::same(name, "mach5") {
        Mach5Adapter::new(config)
    } else {
        Err(text::join2("Unknown adapter: ", name))
    }
}

// ---------------------------------------------------------------------------
// Addresses
// ---------------------------------------------------------------------------

impl AdapterView {
    /// The root of the platform's interface.
    pub open spec fn api_base(self) -> Seq<char> {
        self.endpoint + "/apis"@
    }

    /// The address of the namespace.
    pub open spec fn namespace_url(self) -> Seq<char> {
        self.api_base() + "/namespaces/"@ + self.namespace
    }

    pub open spec fn connection_url(self) -> Seq<char> {
        self.namespace_url() + "/connections/"@ + self.connection_name
    }

    pub open spec fn index_url(self, index: Seq<char>) -> Seq<char> {
        self.namespace_url() + "/indexes/"@ + index
    }

    pub open spec fn pipeline_url(self, index: Seq<char>) -> Seq<char> {
        self.namespace_url() + "/ingest_pipelines/"@ + pipeline_name(index)
    }

    pub open spec fn warehouse_url(self, name: Seq<char>) -> Seq<char> {
        self.namespace_url() + "/warehouses/"@ + name
    }

    /// Where a warehouse takes queries.
    pub open spec fn query_url(self, warehouse: Seq<char>) -> Seq<char> {
        self.endpoint + "/namespaces/"@ + self.namespace + "/warehouses/"@ + warehouse + "/query"@
    }
}

/// The ingest pipeline of an index.
pub open spec fn pipeline_name(index: Seq<char>) -> Seq<char> {
    index + "-pipeline"@
}

/// The consumer group that fills an index.
pub open spec fn consumer_group(index: Seq<char>) -> Seq<char> {
    index + "-cg"@
}

impl Mach5Adapter {
    /// The adapter that a configuration describes.
    pub fn new(config: &Json) -> (r: Result<Mach5Adapter, String>)
        ensures
            match r {
                Ok(a) => configured(config.doc()) == Ok::<AdapterView, Seq<char>>(a@),
                Err(e) => configured(config.doc()) == Err::<AdapterView, Seq<char>>(e@),
            },
    {
        match text_of(config, "endpoint") {
            None => Err(text::owned("Mach5 adapter requires 'endpoint' in config")),
            Some(endpoint) => {
                let namespace = match text_of(config, "namespace") {
                    Some(n) => text::owned(n),
                    None => text::owned("default"),
                };
                Ok(
                    Mach5Adapter {
                        endpoint: text::strip_trailing(endpoint, '/'),
                        namespace,
                        connection_name: text::owned("incidentbench-kafka-conn"),
                        pg_config: pg_from(config),
                    },
                )
            },
        }
    }

    /// The adapter's name.
    pub fn name(&self) -> (r: &'static str)
        ensures
            r@ == "mach5"@,
    {
        "mach5"
    }

    /// The root of the platform's interface.
    pub fn api_base(&self) -> (r: String)
        ensures
            r@ == self@.api_base(),
    {
        text::join2(self.endpoint.as_str(), "/apis")
    }

    pub fn namespace_url(&self) -> (r: String)
        ensures
            r@ == self@.namespace_url(),
    {
        let base = self.api_base();
        text::join3(base.as_str(), "/namespaces/", self.namespace.as_str())
    }

    pub fn connection_url(&self) -> (r: String)
        ensures
            r@ == self@.connection_url(),
    {
        let ns = self.namespace_url();
        text::join3(ns.as_str(), "/connections/", self.connection_name.as_str())
    }

    pub fn index_url(&self, index: &str) -> (r: String)
        ensures
            r@ == self@.index_url(index@),
    {
        let ns = self.namespace_url();
        text::join3(ns.as_str(), "/indexes/", index)
    }

    pub fn pipeline_url(&self, index: &str) -> (r: String)
        ensures
            r@ == self@.pipeline_url(index@),
    {
        let ns = self.namespace_url();
        let name = text::join2(index, "-pipeline");
        text::join3(ns.as_str(), "/ingest_pipelines/", name.as_str())
    }

    pub fn warehouse_url(&self, name: &str) -> (r: String)
        ensures
            r@ == self@.warehouse_url(name@),
    {
        let ns = self.namespace_url();
        text::join3(ns.as_str(), "/warehouses/", name)
    }

    fn query_url(&self, warehouse: &str) -> (r: String)
        ensures
            r@ == self@.query_url(warehouse@),
    {
        let front = text::join4(
            self.endpoint.as_str(),
            "/namespaces/",
            self.namespace.as_str(),
            "/warehouses/",
        );
        text::join3(front.as_str(), warehouse, "/query")
    }
}

// ---------------------------------------------------------------------------
// Preparing
// ---------------------------------------------------------------------------

/// A request that creates something.
pub struct Request {
    /// What is created, for messages.
    pub what: String,
    pub url: String,
    pub body: Json,
}

pub struct RequestView {
    pub what: Seq<char>,
    pub url: Seq<char>,
    pub body: Doc,
}

impl View for Request {
    type V = RequestView;

    open spec fn view(&self) -> RequestView {
        RequestView { what: self.what@, url: self.url@, body: self.body.doc() }
    }
}

/// A reply: its code, the code as it is written in messages, and the text that came.
pub struct Reply {
    pub code: u16,
    pub status: String,
    pub body: String,
}

pub struct ReplyView {
    pub code: u16,
    pub status: Seq<char>,
    pub body: Seq<char>,
}

impl View for Reply {
    type V = ReplyView;

    open spec fn view(&self) -> ReplyView {
        ReplyView { code: self.code, status: self.status@, body: self.body@ }
    }
}

impl ReplyView {
    pub open spec fn success(self) -> bool {
        200 <= self.code < 300
    }

    /// What was to be created is there: it was created, or was there before.
    pub open spec fn created(self) -> bool {
        self.success() || self.code == 409 || text::holds(self.body, "AlreadyExists"@)
            || text::holds(self.body, "already exists"@)
    }

    /// What was to be deleted is gone: it was deleted, or was not there.
    pub open spec fn deleted(self) -> bool {
        self.success() || self.code == 404
    }
}

/// What is said of a request that failed.
pub open spec fn failure(request: RequestView, reply: ReplyView) -> Seq<char> {
    "Failed to create "@ + request.what + " ("@ + reply.status + "): "@ + reply.body
}

/// The first failure among the replies to a batch, from the `i`-th on.
pub open spec fn first_failure(
    batch: Seq<RequestView>,
    replies: Seq<ReplyView>,
    i: int,
) -> Option<Seq<char>>
    decreases batch.len() - i,
{
    if i >= batch.len() || i >= replies.len() {
        None
    } else if !replies[i].created() {
        Some(failure(batch[i], replies[i]))
    } else {
        first_failure(batch, replies, i + 1)
    }
}

impl Reply {
    /// Whether what was to be created is there.
    pub fn created(&self) -> (r: bool)
        ensures
            r == self@.created(),
    {
        (200 <= self.code && self.code < 300) || self.code == 409 || text::contains(
            self.body.as_str(),
            "AlreadyExists",
        ) || text::contains(self.body.as_str(), "already exists")
    }

    /// Whether what was to be deleted is gone.
    pub fn deleted(&self) -> (r: bool)
        ensures
            r == self@.deleted(),
    {
        (200 <= self.code && self.code < 300) || self.code == 404
    }
}

/// The body that creates an index.
pub open spec fn index_body(fields: Seq<crate::scenario::FieldView>) -> Doc {
    Doc::object().with(
        "settings"@,
        Doc::object().with(
            "index"@,
            Doc::object().with("number_of_shards"@, Doc::Uint(1)).with(
                "number_of_replicas"@,
                Doc::Uint(0),
            ),
        ),
    ).with("mappings"@, dsl::mappings_doc(fields)).with("aliases"@, Doc::object())
}

/// The body that creates an ingest pipeline.
pub open spec fn pipeline_body(a: AdapterView, s: StreamConfigView) -> Doc {
    Doc::object().with("index"@, Doc::Text(s.schema.index_name)).with(
        "source_config"@,
        Doc::object().with(
            "connection"@,
            Doc::object().with("namespace"@, Doc::Text(a.namespace)).with(
                "name"@,
                Doc::Text(a.connection_name),
            ),
        ).with(
            "config"@,
            Doc::object().with("type"@, Doc::Text("kafka"@)).with(
                "topic"@,
                Doc::Text(s.kafka_topic),
            ).with("group_id"@, Doc::Text(consumer_group(s.schema.index_name))).with(
                "data_format"@,
                Doc::Text("json"@),
            ),
        ),
    ).with("op_mode"@, Doc::Text("appendorupsert"@)).with("enabled"@, Doc::Bool(true)).with(
        "poll_frequency_secs"@,
        Doc::Uint(5),
    ).with("max_ingest_workflows_limit"@, Doc::Uint(4))
}

/// An amount of memory.
pub open spec fn memory(bytes: Seq<char>) -> Doc {
    Doc::object().with("memory"@, Doc::Text(bytes))
}

/// The body that creates a warehouse.
pub open spec fn warehouse_body(w: WarehouseView) -> Doc {
    Doc::object().with(
        "resource"@,
        Doc::object().with("num_mediators"@, Doc::Uint(w.num_mediators as nat)).with(
            "num_os"@,
            Doc::Uint(w.num_os as nat),
        ).with("num_replica"@, Doc::Uint(0)).with("os"@, memory("2147483648"@)).with(
            "md"@,
            memory("2147483648"@),
        ).with("mdx"@, memory("2147483648"@)).with("ir"@, memory("1073741824"@)).with(
            "osd"@,
            memory("1073741824"@),
        ).with("osd_enabled"@, Doc::Bool(true)).with("immutable"@, Doc::Bool(false)).with(
            "segment_cache_capacity"@,
            Doc::Uint(1073741824),
        ).with("local_parallelism"@, Doc::Uint(4)).with(
            "cache_warming_enabled"@,
            Doc::Bool(false),
        ).with("cache_warming_query_history"@, Doc::Uint(100)).with(
            "os_processors"@,
            Doc::Uint(2),
        ).with("index_access_memory_limit"@, Doc::Uint(536870912)).with(
            "read_cache_size_limit"@,
            Doc::Uint(268435456),
        ).with(
            "inactive_mode"@,
            Doc::object().with("type"@, Doc::Text("Manual"@)).with(
                "idle_timeout_seconds"@,
                Doc::Uint(300),
            ),
        ),
    ).with("enabled"@, Doc::Bool(true)).with("memory_policy"@, Doc::Text("budgeted"@))
}

pub open spec fn namespace_request(a: AdapterView) -> RequestView {
    RequestView {
        what: "Mach5 namespace '"@ + a.namespace + "'"@,
        url: a.namespace_url(),
        body: Doc::object(),
    }
}

pub open spec fn connection_request(a: AdapterView, bootstrap: Seq<char>) -> RequestView {
    RequestView {
        what: "Kafka connection"@,
        url: a.connection_url(),
        body: Doc::object().with(
            "kafka"@,
            Doc::object().with("bootstrap_servers"@, Doc::Text(bootstrap)),
        ),
    }
}

pub open spec fn index_request(a: AdapterView, s: StreamConfigView) -> RequestView {
    RequestView {
        what: "index '"@ + s.schema.index_name + "'"@,
        url: a.index_url(s.schema.index_name),
        body: index_body(s.schema.fields),
    }
}

pub open spec fn pipeline_request(a: AdapterView, s: StreamConfigView) -> RequestView {
    RequestView {
        what: "ingest pipeline '"@ + pipeline_name(s.schema.index_name) + "'"@,
        url: a.pipeline_url(s.schema.index_name),
        body: pipeline_body(a, s),
    }
}

pub open spec fn warehouse_request(a: AdapterView, w: WarehouseView) -> RequestView {
    RequestView {
        what: "warehouse '"@ + w.name + "'"@,
        url: a.warehouse_url(w.name),
        body: warehouse_body(w),
    }
}

pub open spec fn index_requests(a: AdapterView, streams: Seq<StreamConfigView>) -> Seq<
    RequestView,
> {
    streams.map_values(|s: StreamConfigView| index_request(a, s))
}

pub open spec fn pipeline_requests(a: AdapterView, streams: Seq<StreamConfigView>) -> Seq<
    RequestView,
> {
    streams.map_values(|s: StreamConfigView| pipeline_request(a, s))
}

pub open spec fn warehouse_requests(a: AdapterView, warehouses: Seq<WarehouseView>) -> Seq<
    RequestView,
> {
    adapter::unique(warehouses).map_values(|w: WarehouseView| warehouse_request(a, w))
}

/// The batches of requests that set a benchmark up. The requests of a batch may run side
/// by side; each batch waits for the one before: first the namespace, then, where there
/// are streams, the connection, the indexes and the pipelines, and last the warehouses.
pub open spec fn batches(
    a: AdapterView,
    streams: Seq<StreamConfigView>,
    bootstrap: Seq<char>,
    warehouses: Seq<WarehouseView>,
) -> Seq<Seq<RequestView>> {
    if streams.len() == 0 {
        seq![seq![namespace_request(a)], warehouse_requests(a, warehouses)]
    } else {
        seq![
            seq![namespace_request(a)],
            seq![connection_request(a, bootstrap)],
            index_requests(a, streams),
            pipeline_requests(a, streams),
            warehouse_requests(a, warehouses),
        ]
    }
}

/// The consumer groups of the first `n` streams, by the stream's name.
pub open spec fn groups_upto(streams: Seq<StreamConfigView>, n: int) -> Seq<(Seq<char>, Seq<char>)>
    decreases n,
{
    if n <= 0 {
        Seq::empty()
    } else {
        model::bind(
            groups_upto(streams, n - 1),
            streams[n - 1].name,
            consumer_group(streams[n - 1].schema.index_name),
        )
    }
}

/// Where each warehouse takes queries.
pub open spec fn endpoints(a: AdapterView, warehouses: Seq<WarehouseView>) -> Seq<
    (Seq<char>, Seq<char>),
> {
    adapter::unique(warehouses).map_values(|w: WarehouseView| (w.name, a.query_url(w.name)))
}

/// What a finished preparation gives.
pub open spec fn prepared(
    a: AdapterView,
    streams: Seq<StreamConfigView>,
    warehouses: Seq<WarehouseView>,
) -> PrepareView {
    PrepareView {
        consumer_groups: groups_upto(streams, streams.len() as int),
        query_endpoints: endpoints(a, warehouses),
    }
}

/// A preparation under way: the batches of requests, the warehouses to wait for, what it
/// will give, and how far it has come.
pub struct Preparation {
    pub batches: Vec<Vec<Request>>,
    /// The addresses at which the warehouses tell whether they are ready.
    pub polls: Vec<String>,
    pub result: PrepareResult,
    /// How many batches were accepted.
    pub done: usize,
    /// How many warehouses were ready.
    pub ready: usize,
}

pub struct PreparationView {
    pub batches: Seq<Seq<RequestView>>,
    pub polls: Seq<Seq<char>>,
    pub result: PrepareView,
    pub done: nat,
    pub ready: nat,
}

impl View for Preparation {
    type V = PreparationView;

    open spec fn view(&self) -> PreparationView {
        PreparationView {
            batches: self.batches@.map_values(|b: Vec<Request>| model::vmap(b@)),
            polls: text::views(self.polls@),
            result: self.result@,
            done: self.done as nat,
            ready: self.ready as nat,
        }
    }
}

/// What a preparation needs next.
#[derive(Clone, Copy, PartialEq, Eq, Structural, Debug)]
pub enum PrepareStep {
    /// Send the requests of this batch.
    Put(usize),
    /// Ask this warehouse whether it is ready.
    Poll(usize),
    /// Nothing: everything is there, and every warehouse is ready.
    Done,
}

impl PreparationView {
    pub open spec fn step(self) -> PrepareStep {
        if self.done < self.batches.len() {
            PrepareStep::Put(self.done as usize)
        } else if self.ready < self.polls.len() {
            PrepareStep::Poll(self.ready as usize)
        } else {
            PrepareStep::Done
        }
    }

    /// The preparation with one more batch accepted.
    pub open spec fn accepted(self) -> PreparationView {
        PreparationView { done: self.done + 1, ..self }
    }

    /// The preparation with one more warehouse ready.
    pub open spec fn with_ready(self) -> PreparationView {
        PreparationView { ready: self.ready + 1, ..self }
    }
}

/// The preparation of a benchmark, before its first step.
pub open spec fn begun(
    a: AdapterView,
    streams: Seq<StreamConfigView>,
    bootstrap: Seq<char>,
    warehouses: Seq<WarehouseView>,
) -> PreparationView {
    PreparationView {
        batches: batches(a, streams, bootstrap, warehouses),
        polls: adapter::unique(warehouses).map_values(|w: WarehouseView| a.warehouse_url(w.name)),
        result: prepared(a, streams, warehouses),
        done: 0,
        ready: 0,
    }
}

/// What a warehouse says of itself shows that it is ready: it has an identifier, and is
/// enabled or says that it runs.
pub open spec fn warehouse_ready(body: Doc) -> bool {
    let id = text_member(body, "id"@);
    let status = text_member(body, "status"@);
    let enabled = body.get("enabled"@) == Some(Doc::Bool(true));
    (enabled || status == Some("ready"@) || status == Some("Running"@) || status == Some(
        "running"@,
    )) && id is Some && id->0.len() > 0
}

fn memory_json(bytes: &str) -> (r: Json)
    ensures
        r.doc() == memory(bytes@),
{
    Json::object().with("memory", Json::text(bytes))
}

impl Mach5Adapter {
    fn namespace_put(&self) -> (r: Request)
        ensures
            r@ == namespace_request(self@),
    {
        Request {
            what: text::join3("Mach5 namespace '", self.namespace.as_str(), "'"),
            url: self.namespace_url(),
            body: Json::object(),
        }
    }

    fn connection_put(&self, bootstrap: &str) -> (r: Request)
        ensures
            r@ == connection_request(self@, bootstrap@),
    {
        Request {
            what: text::owned("Kafka connection"),
            url: self.connection_url(),
            body: Json::object().with(
                "kafka",
                Json::object().with("bootstrap_servers", Json::text(bootstrap)),
            ),
        }
    }

    fn index_put(&self, s: &DataStreamConfig) -> (r: Request)
        ensures
            r@ == index_request(self@, s@),
    {
        let index = s.schema.index_name.as_str();
        Request {
            what: text::join3("index '", index, "'"),
            url: self.index_url(index),
            body: Json::object().with(
                "settings",
                Json::object().with(
                    "index",
                    Json::object().with("number_of_shards", Json::Uint(1)).with(
                        "number_of_replicas",
                        Json::Uint(0),
                    ),
                ),
            ).with("mappings", dsl::build_mappings(&s.schema.fields)).with(
                "aliases",
                Json::object(),
            ),
        }
    }

    fn pipeline_put(&self, s: &DataStreamConfig) -> (r: Request)
        ensures
            r@ == pipeline_request(self@, s@),
    {
        let index = s.schema.index_name.as_str();
        let pipeline = text::join2(index, "-pipeline");
        let group = text::join2(index, "-cg");
        Request {
            what: text::join3("ingest pipeline '", pipeline.as_str(), "'"),
            url: self.pipeline_url(index),
            body: Json::object().with("index", Json::text(index)).with(
                "source_config",
                Json::object().with(
                    "connection",
                    Json::object().with("namespace", Json::text(self.namespace.as_str())).with(
                        "name",
                        Json::text(self.connection_name.as_str()),
                    ),
                ).with(
                    "config",
                    Json::object().with("type", Json::text("kafka")).with(
                        "topic",
                        Json::text(s.kafka_topic.as_str()),
                    ).with("group_id", Json::text(group.as_str())).with(
                        "data_format",
                        Json::text("json"),
                    ),
                ),
            ).with("op_mode", Json::text("appendorupsert")).with("enabled", Json::Bool(true)).with(
                "poll_frequency_secs",
                Json::Uint(5),
            ).with("max_ingest_workflows_limit", Json::Uint(4)),
        }
    }

    fn warehouse_put(&self, w: &WarehouseConfig) -> (r: Request)
        ensures
            r@ == warehouse_request(self@, w@),
    {
        Request {
            what: text::join3("warehouse '", w.name.as_str(), "'"),
            url: self.warehouse_url(w.name.as_str()),
            body: Json::object().with(
                "resource",
                Json::object().with("num_mediators", Json::Uint(w.num_mediators as u64)).with(
                    "num_os",
                    Json::Uint(w.num_os as u64),
                ).with("num_replica", Json::Uint(0)).with("os", memory_json("2147483648")).with(
                    "md",
                    memory_json("2147483648"),
                ).with("mdx", memory_json("2147483648")).with("ir", memory_json("1073741824")).with(
                    "osd",
                    memory_json("1073741824"),
                ).with("osd_enabled", Json::Bool(true)).with("immutable", Json::Bool(false)).with(
                    "segment_cache_capacity",
                    Json::Uint(1073741824),
                ).with("local_parallelism", Json::Uint(4)).with(
                    "cache_warming_enabled",
                    Json::Bool(false),
                ).with("cache_warming_query_history", Json::Uint(100)).with(
                    "os_processors",
                    Json::Uint(2),
                ).with("index_access_memory_limit", Json::Uint(536870912)).with(
                    "read_cache_size_limit",
                    Json::Uint(268435456),
                ).with(
                    "inactive_mode",
                    Json::object().with("type", Json::text("Manual")).with(
                        "idle_timeout_seconds",
                        Json::Uint(300),
                    ),
                ),
            ).with("enabled", Json::Bool(true)).with("memory_policy", Json::text("budgeted")),
        }
    }

    fn index_puts(&self, streams: &Vec<DataStreamConfig>) -> (r: Vec<Request>)
        ensures
            model::vmap(r@) == index_requests(self@, model::vmap(streams@)),
    {
        let ghost all = index_requests(self@, model::vmap(streams@));
        let mut out: Vec<Request> = Vec::new();
        let mut i: usize = 0;
        assert(model::vmap(out@) =~= all.take(0));
        while i < streams.len()
            invariant
                i <= streams@.len(),
                all == index_requests(self@, model::vmap(streams@)),
                model::vmap(out@) == all.take(i as int),
            decreases streams@.len() - i,
        {
            broadcast use model::vmap_push, model::take_push;

            assert(all[i as int] == index_request(self@, streams@[i as int]@));
            out.push(self.index_put(&streams[i]));
            i += 1;
        }
        assert(all.take(i as int) =~= all);
        out
    }

    fn pipeline_puts(&self, streams: &Vec<DataStreamConfig>) -> (r: Vec<Request>)
        ensures
            model::vmap(r@) == pipeline_requests(self@, model::vmap(streams@)),
    {
        let ghost all = pipeline_requests(self@, model::vmap(streams@));
        let mut out: Vec<Request> = Vec::new();
        let mut i: usize = 0;
        assert(model::vmap(out@) =~= all.take(0));
        while i < streams.len()
            invariant
                i <= streams@.len(),
                all == pipeline_requests(self@, model::vmap(streams@)),
                model::vmap(out@) == all.take(i as int),
            decreases streams@.len() - i,
        {
            broadcast use model::vmap_push, model::take_push;

            assert(all[i as int] == pipeline_request(self@, streams@[i as int]@));
            out.push(self.pipeline_put(&streams[i]));
            i += 1;
        }
        assert(all.take(i as int) =~= all);
        out
    }

    /// Begins the preparation of a benchmark.
    pub fn prepare(
        &self,
        streams: &Vec<DataStreamConfig>,
        kafka_bootstrap_servers: &str,
        warehouses: &Vec<WarehouseConfig>,
    ) -> (r: Preparation)
        ensures
            r@ == begun(
                self@,
                model::vmap(streams@),
                kafka_bootstrap_servers@,
                model::vmap(warehouses@),
            ),
    {
        let ghost sv = model::vmap(streams@);
        let ghost wv = model::vmap(warehouses@);
        // The consumer groups.
        let mut groups: Vec<(String, String)> = Vec::new();
        let mut i: usize = 0;
        assert(model::vmap(groups@) =~= groups_upto(sv, 0));
        while i < streams.len()
            invariant
                i <= streams@.len(),
                sv == model::vmap(streams@),
                model::vmap(groups@) == groups_upto(sv, i as int),
            decreases streams@.len() - i,
        {
            let group = text::join2(streams[i].schema.index_name.as_str(), "-cg");
            assert(sv[i as int] == streams@[i as int]@);
            model::bind_entry(&mut groups, streams[i].name.as_str(), group);
            i += 1;
        }
        // The warehouses, their addresses and their endpoints.
        let unique = adapter::unique_warehouses(warehouses);
        let ghost uv = adapter::unique(wv);
        let ghost puts_v = warehouse_requests(self@, wv);
        let ghost ends_v = endpoints(self@, wv);
        let ghost polls_v = uv.map_values(|w: WarehouseView| self@.warehouse_url(w.name));
        let mut puts: Vec<Request> = Vec::new();
        let mut ends: Vec<(String, String)> = Vec::new();
        let mut polls: Vec<String> = Vec::new();
        let mut k: usize = 0;
        assert(model::vmap(puts@) =~= puts_v.take(0));
        assert(model::vmap(ends@) =~= ends_v.take(0));
        assert(text::views(polls@) =~= polls_v.take(0));
        while k < unique.len()
            invariant
                k <= unique@.len(),
                uv == model::vmap(unique@),
                puts_v == uv.map_values(|w: WarehouseView| warehouse_request(self@, w)),
                ends_v == uv.map_values(
                    |w: WarehouseView| (w.name, self@.query_url(w.name)),
                ),
                polls_v == uv.map_values(|w: WarehouseView| self@.warehouse_url(w.name)),
                model::vmap(puts@) == puts_v.take(k as int),
                model::vmap(ends@) == ends_v.take(k as int),
                text::views(polls@) == polls_v.take(k as int),
            decreases unique@.len() - k,
        {
            broadcast use model::vmap_push, model::views_push, model::take_push;

            let w = &unique[k];
            assert(uv[k as int] == w@);
            puts.push(self.warehouse_put(w));
            ends.push((w.name.clone(), self.query_url(w.name.as_str())));
            polls.push(self.warehouse_url(w.name.as_str()));
            k += 1;
        }
        assert(puts_v.take(k as int) =~= puts_v);
        assert(ends_v.take(k as int) =~= ends_v);
        assert(polls_v.take(k as int) =~= polls_v);
        // The batches.
        let mut all: Vec<Vec<Request>> = Vec::new();
        let first: Vec<Request> = vec![self.namespace_put()];
        assert(model::vmap(first@) =~= seq![namespace_request(self@)]);
        all.push(first);
        if streams.len() > 0 {
            let second: Vec<Request> = vec![self.connection_put(kafka_bootstrap_servers)];
            assert(model::vmap(second@) =~= seq![
                connection_request(self@, kafka_bootstrap_servers@),
            ]);
            all.push(second);
            all.push(self.index_puts(streams));
            all.push(self.pipeline_puts(streams));
        }
        all.push(puts);
        let r = Preparation {
            batches: all,
            polls,
            result: PrepareResult { consumer_groups: groups, query_endpoints: ends },
            done: 0,
            ready: 0,
        };
        assert(r@.batches =~= batches(self@, sv, kafka_bootstrap_servers@, wv));
        r
    }
}

impl Preparation {
    /// What the preparation needs next.
    pub fn step(&self) -> (r: PrepareStep)
        ensures
            r == self@.step(),
    {
        if self.done < self.batches.len() {
            PrepareStep::Put(self.done)
        } else if self.ready < self.polls.len() {
            PrepareStep::Poll(self.ready)
        } else {
            PrepareStep::Done
        }
    }

    /// Takes the replies to a batch, in the order of its requests. One that was refused
    /// ends the preparation with what is said of it; else the preparation goes on.
    pub fn after_puts(&mut self, replies: &Vec<Reply>) -> (r: Result<(), String>)
        requires
            old(self)@.step() is Put,
            replies@.len() == old(self)@.batches[old(self)@.done as int].len(),
        ensures
            match first_failure(
                old(self)@.batches[old(self)@.done as int],
                model::vmap(replies@),
                0,
            ) {
                Some(message) => r is Err && r->Err_0@ == message && final(self)@ == old(self)@,
                None => r is Ok && final(self)@ == old(self)@.accepted(),
            },
    {
        let ghost bv = self@.batches[self@.done as int];
        let ghost rv = model::vmap(replies@);
        let batch = &self.batches[self.done];
        assert(bv == model::vmap(batch@));
        let mut i: usize = 0;
        while i < batch.len()
            invariant
                i <= batch@.len() == replies@.len(),
                bv == model::vmap(batch@),
                rv == model::vmap(replies@),
                *self == *old(self),
                bv == old(self)@.batches[old(self)@.done as int],
                first_failure(bv, rv, 0) == first_failure(bv, rv, i as int),
            decreases batch@.len() - i,
        {
            assert(bv[i as int] == batch@[i as int]@);
            assert(rv[i as int] == replies@[i as int]@);
            if !replies[i].created() {
                let front = text::join5(
                    "Failed to create ",
                    batch[i].what.as_str(),
                    " (",
                    replies[i].status.as_str(),
                    "): ",
                );
                return Err(text::join2(front.as_str(), replies[i].body.as_str()));
            }
            i += 1;
        }
        let total: usize = self.batches.len();
        self.done = self.done + 1;
        Ok(())
    }

    /// Takes what a warehouse says of itself, nothing where it could not be asked. Where
    /// it is ready the preparation goes on, else it has to be asked again.
    pub fn after_poll(&mut self, body: Option<&Json>) -> (r: bool)
        requires
            old(self)@.step() is Poll,
        ensures
            r == (body is Some && warehouse_ready(body->0.doc())),
            final(self)@ == if r {
                old(self)@.with_ready()
            } else {
                old(self)@
            },
    {
        let ready = match body {
            None => false,
            Some(body) => {
                let has_id = match text_of(body, "id") {
                    Some(id) => !text::same(id, ""),
                    None => false,
                };
                proof {
                    reveal_strlit("");
                    let id = text_member(body.doc(), "id"@);
                    if id is Some && id->0.len() == 0 {
                        assert(id->0 =~= ""@);
                    }
                }
                let enabled = match body.get("enabled") {
                    Some(Json::Bool(b)) => *b,
                    _ => false,
                };
                let runs = match text_of(body, "status") {
                    Some(s) => text::same(s, "ready") || text::same(s, "Running") || text::same(
                        s,
                        "running",
                    ),
                    None => false,
                };
                (enabled || runs) && has_id
            },
        };
        if ready {
            let total: usize = self.polls.len();
            self.ready = self.ready + 1;
        }
        ready
    }
}

} // verus!
