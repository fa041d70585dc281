//! What the target platform is asked for: that everything a benchmark needs is made once, in
//! an order in which it can be used, that every stream reaches its index, and that nothing is
//! taken away too early.
use vstd::prelude::*;
use vstd::string::*;
use crate::adapter;
use crate::adapter::{StreamConfigView, WarehouseView};
use crate::crd::WorkerSpec;
use crate::deployment_laws::member;
use crate::dsl;
use crate::json;
use crate::json::Doc;
use crate::mach5;
use crate::mach5::{AdapterView, ReplyView, RequestView};
use crate::model;
use crate::plan;
use crate::resources;
use crate::resources::IdentityView;
use crate::scenario::{FieldType, ScenarioView, StreamView};
use crate::teardown;
use crate::text;

verus! {

// ---------------------------------------------------------------------------
// Keys
// ---------------------------------------------------------------------------

proof fn pipeline_keys()
    ensures
        "index"@ != "source_config"@,
        "index"@ != "op_mode"@,
        "source_config"@ != "op_mode"@,
        "index"@ != "enabled"@,
        "source_config"@ != "enabled"@,
        "op_mode"@ != "enabled"@,
        "index"@ != "poll_frequency_secs"@,
        "source_config"@ != "poll_frequency_secs"@,
        "op_mode"@ != "poll_frequency_secs"@,
        "enabled"@ != "poll_frequency_secs"@,
        "index"@ != "max_ingest_workflows_limit"@,
        "source_config"@ != "max_ingest_workflows_limit"@,
        "op_mode"@ != "max_ingest_workflows_limit"@,
        "enabled"@ != "max_ingest_workflows_limit"@,
        "poll_frequency_secs"@ != "max_ingest_workflows_limit"@,
        "connection"@ != "config"@,
        "namespace"@ != "name"@,
        "type"@ != "topic"@,
        "type"@ != "group_id"@,
        "topic"@ != "group_id"@,
        "type"@ != "data_format"@,
        "topic"@ != "data_format"@,
        "group_id"@ != "data_format"@,
{
    reveal_strlit("index");
    reveal_strlit("source_config");
    reveal_strlit("op_mode");
    reveal_strlit("enabled");
    reveal_strlit("poll_frequency_secs");
    reveal_strlit("max_ingest_workflows_limit");
    reveal_strlit("connection");
    reveal_strlit("config");
    reveal_strlit("namespace");
    reveal_strlit("name");
    reveal_strlit("type");
    reveal_strlit("topic");
    reveal_strlit("group_id");
    reveal_strlit("data_format");
    assert("index"@.len() != "source_config"@.len());
    assert("index"@.len() != "op_mode"@.len());
    assert("source_config"@.len() != "op_mode"@.len());
    assert("index"@.len() != "enabled"@.len());
    assert("source_config"@.len() != "enabled"@.len());
    assert("op_mode"@[0] != "enabled"@[0]);
    assert("index"@.len() != "poll_frequency_secs"@.len());
    assert("source_config"@.len() != "poll_frequency_secs"@.len());
    assert("op_mode"@.len() != "poll_frequency_secs"@.len());
    assert("enabled"@.len() != "poll_frequency_secs"@.len());
    assert("index"@.len() != "max_ingest_workflows_limit"@.len());
    assert("source_config"@.len() != "max_ingest_workflows_limit"@.len());
    assert("op_mode"@.len() != "max_ingest_workflows_limit"@.len());
    assert("enabled"@.len() != "max_ingest_workflows_limit"@.len());
    assert("poll_frequency_secs"@.len() != "max_ingest_workflows_limit"@.len());
    assert("connection"@.len() != "config"@.len());
    assert("namespace"@.len() != "name"@.len());
    assert("type"@.len() != "topic"@.len());
    assert("type"@.len() != "group_id"@.len());
    assert("topic"@.len() != "group_id"@.len());
    assert("type"@.len() != "data_format"@.len());
    assert("topic"@.len() != "data_format"@.len());
    assert("group_id"@.len() != "data_format"@.len());
}

proof fn index_keys()
    ensures
        "settings"@ != "mappings"@,
        "settings"@ != "aliases"@,
        "mappings"@ != "aliases"@,
        "number_of_shards"@ != "number_of_replicas"@,
{
    reveal_strlit("settings");
    reveal_strlit("mappings");
    reveal_strlit("aliases");
    reveal_strlit("number_of_shards");
    reveal_strlit("number_of_replicas");
    assert("settings"@[0] != "mappings"@[0]);
    assert("settings"@.len() != "aliases"@.len());
    assert("mappings"@.len() != "aliases"@.len());
    assert("number_of_shards"@.len() != "number_of_replicas"@.len());
}

proof fn warehouse_keys()
    ensures
        "resource"@ != "enabled"@,
        "resource"@ != "memory_policy"@,
        "enabled"@ != "memory_policy"@,
        "num_mediators"@ != "num_os"@,
        "num_mediators"@ != "num_replica"@,
        "num_mediators"@ != "os"@,
        "num_mediators"@ != "md"@,
        "num_mediators"@ != "mdx"@,
        "num_mediators"@ != "ir"@,
        "num_mediators"@ != "osd"@,
        "num_mediators"@ != "osd_enabled"@,
        "num_mediators"@ != "immutable"@,
        "num_mediators"@ != "segment_cache_capacity"@,
        "num_mediators"@ != "local_parallelism"@,
        "num_mediators"@ != "cache_warming_enabled"@,
        "num_mediators"@ != "cache_warming_query_history"@,
        "num_mediators"@ != "os_processors"@,
        "num_mediators"@ != "index_access_memory_limit"@,
        "num_mediators"@ != "read_cache_size_limit"@,
        "num_mediators"@ != "inactive_mode"@,
        "num_os"@ != "num_replica"@,
        "num_os"@ != "os"@,
        "num_os"@ != "md"@,
        "num_os"@ != "mdx"@,
        "num_os"@ != "ir"@,
        "num_os"@ != "osd"@,
        "num_os"@ != "osd_enabled"@,
        "num_os"@ != "immutable"@,
        "num_os"@ != "segment_cache_capacity"@,
        "num_os"@ != "local_parallelism"@,
        "num_os"@ != "cache_warming_enabled"@,
        "num_os"@ != "cache_warming_query_history"@,
        "num_os"@ != "os_processors"@,
        "num_os"@ != "index_access_memory_limit"@,
        "num_os"@ != "read_cache_size_limit"@,
        "num_os"@ != "inactive_mode"@,
{
    reveal_strlit("resource");
    reveal_strlit("enabled");
    reveal_strlit("memory_policy");
    reveal_strlit("num_mediators");
    reveal_strlit("num_os");
    reveal_strlit("num_replica");
    reveal_strlit("os");
    reveal_strlit("md");
    reveal_strlit("mdx");
    reveal_strlit("ir");
    reveal_strlit("osd");
    reveal_strlit("osd_enabled");
    reveal_strlit("immutable");
    reveal_strlit("segment_cache_capacity");
    reveal_strlit("local_parallelism");
    reveal_strlit("cache_warming_enabled");
    reveal_strlit("cache_warming_query_history");
    reveal_strlit("os_processors");
    reveal_strlit("index_access_memory_limit");
    reveal_strlit("read_cache_size_limit");
    reveal_strlit("inactive_mode");
    assert("resource"@.len() != "enabled"@.len());
    assert("resource"@.len() != "memory_policy"@.len());
    assert("enabled"@.len() != "memory_policy"@.len());
    assert("num_mediators"@.len() != "num_os"@.len());
    assert("num_mediators"@.len() != "num_replica"@.len());
    assert("num_mediators"@.len() != "os"@.len());
    assert("num_mediators"@.len() != "md"@.len());
    assert("num_mediators"@.len() != "mdx"@.len());
    assert("num_mediators"@.len() != "ir"@.len());
    assert("num_mediators"@.len() != "osd"@.len());
    assert("num_mediators"@.len() != "osd_enabled"@.len());
    assert("num_mediators"@.len() != "immutable"@.len());
    assert("num_mediators"@.len() != "segment_cache_capacity"@.len());
    assert("num_mediators"@.len() != "local_parallelism"@.len());
    assert("num_mediators"@.len() != "cache_warming_enabled"@.len());
    assert("num_mediators"@.len() != "cache_warming_query_history"@.len());
    assert("num_mediators"@[0] != "os_processors"@[0]);
    assert("num_mediators"@.len() != "index_access_memory_limit"@.len());
    assert("num_mediators"@.len() != "read_cache_size_limit"@.len());
    assert("num_mediators"@[0] != "inactive_mode"@[0]);
    assert("num_os"@.len() != "num_replica"@.len());
    assert("num_os"@.len() != "os"@.len());
    assert("num_os"@.len() != "md"@.len());
    assert("num_os"@.len() != "mdx"@.len());
    assert("num_os"@.len() != "ir"@.len());
    assert("num_os"@.len() != "osd"@.len());
    assert("num_os"@.len() != "osd_enabled"@.len());
    assert("num_os"@.len() != "immutable"@.len());
    assert("num_os"@.len() != "segment_cache_capacity"@.len());
    assert("num_os"@.len() != "local_parallelism"@.len());
    assert("num_os"@.len() != "cache_warming_enabled"@.len());
    assert("num_os"@.len() != "cache_warming_query_history"@.len());
    assert("num_os"@.len() != "os_processors"@.len());
    assert("num_os"@.len() != "index_access_memory_limit"@.len());
    assert("num_os"@.len() != "read_cache_size_limit"@.len());
    assert("num_os"@.len() != "inactive_mode"@.len());
}

// ---------------------------------------------------------------------------
// Making
// ---------------------------------------------------------------------------

/// Everything is addressed within the adapter's namespace of the platform's interface, and
/// queries go to the warehouse of their name.
pub proof fn addresses_lie_in_the_namespace(a: AdapterView, name: Seq<char>)
    ensures
        a.namespace_url() == a.endpoint + "/apis/namespaces/"@ + a.namespace,
        a.connection_url() == a.endpoint + "/apis/namespaces/"@ + a.namespace + "/connections/"@
            + a.connection_name,
        a.index_url(name) == a.endpoint + "/apis/namespaces/"@ + a.namespace + "/indexes/"@ + name,
        a.pipeline_url(name) == a.endpoint + "/apis/namespaces/"@ + a.namespace
            + "/ingest_pipelines/"@ + name + "-pipeline"@,
        a.warehouse_url(name) == a.endpoint + "/apis/namespaces/"@ + a.namespace
            + "/warehouses/"@ + name,
        a.query_url(name) == a.endpoint + "/namespaces/"@ + a.namespace + "/warehouses/"@ + name
            + "/query"@,
{
    reveal_strlit("/apis");
    reveal_strlit("/namespaces/");
    reveal_strlit("/apis/namespaces/");
    assert("/apis"@ + "/namespaces/"@ =~= "/apis/namespaces/"@);
    assert(a.namespace_url() =~= a.endpoint + "/apis/namespaces/"@ + a.namespace);
    assert(a.pipeline_url(name) =~= a.endpoint + "/apis/namespaces/"@ + a.namespace
        + "/ingest_pipelines/"@ + name + "-pipeline"@);
}

/// What a stream's events go through: the pipeline reads the topic that the workers write, by
/// way of the connection that is made for it, as the consumer group whose lag is watched, and
/// fills the index that is made for the stream. It is on from the start.
pub proof fn every_stream_reaches_its_index(
    a: AdapterView,
    streams: Seq<StreamView>,
    bootstrap: Seq<char>,
    warehouses: Seq<WarehouseView>,
    i: int,
)
    requires
        0 <= i < streams.len(),
        forall|j: int, k: int|
            0 <= j < k < streams.len() ==> (#[trigger] streams[j]).name != (
            #[trigger] streams[k]).name,
    ensures
        ({
            let s = streams[i];
            let configs = streams.map_values(|x: StreamView| adapter::stream_config(x));
            let made = mach5::batches(a, configs, bootstrap, warehouses);
            let index = made[2][i];
            let pipeline = made[3][i];
            let source = member(pipeline.body, "source_config"@);
            let kafka = member(source, "config"@);
            &&& made.len() == 5 && made[2].len() == streams.len() && made[3].len()
                == streams.len()
            &&& made[0] == seq![made[0][0]] && made[0][0].url == a.namespace_url()
            &&& made[1] == seq![made[1][0]] && made[1][0].url == a.connection_url()
            &&& member(member(made[1][0].body, "kafka"@), "bootstrap_servers"@) == Doc::Text(
                bootstrap,
            )
            &&& index.url == a.index_url(s.schema.index_name)
            &&& pipeline.url == a.pipeline_url(s.schema.index_name)
            &&& member(pipeline.body, "index"@) == Doc::Text(s.schema.index_name)
            &&& member(pipeline.body, "enabled"@) == Doc::Bool(true)
            &&& member(pipeline.body, "op_mode"@) == Doc::Text("appendorupsert"@)
            &&& member(member(source, "connection"@), "namespace"@) == Doc::Text(a.namespace)
            &&& member(member(source, "connection"@), "name"@) == Doc::Text(a.connection_name)
            &&& member(kafka, "type"@) == Doc::Text("kafka"@)
            &&& member(kafka, "data_format"@) == Doc::Text("json"@)
            &&& member(kafka, "topic"@) == Doc::Text(plan::topics(streams)[i])
            &&& member(kafka, "topic"@) == Doc::Text(s.schema.index_name)
            &&& member(kafka, "group_id"@) == Doc::Text(
                model::find(
                    mach5::prepared(a, configs, warehouses).consumer_groups,
                    s.name,
                )->0,
            )
            &&& model::find(mach5::prepared(a, configs, warehouses).consumer_groups, s.name) == Some(
                s.schema.index_name + "-cg"@,
            )
        }),
{
    broadcast use json::with_then_get;

    pipeline_keys();
    let configs = streams.map_values(|x: StreamView| adapter::stream_config(x));
    assert forall|j: int| 0 <= j < configs.len() implies #[trigger] configs[j]
        == adapter::stream_config(streams[j]) by {}
    groups_are_found(configs, configs.len() as int, i);
    let made = mach5::batches(a, configs, bootstrap, warehouses);
    assert(made[0] =~= seq![made[0][0]]);
    assert(made[1] =~= seq![made[1][0]]);
}

proof fn groups_are_found(streams: Seq<StreamConfigView>, n: int, i: int)
    requires
        0 <= i < n <= streams.len(),
        forall|j: int, k: int|
            0 <= j < k < streams.len() ==> (#[trigger] streams[j]).name != (
            #[trigger] streams[k]).name,
    ensures
        model::find(mach5::groups_upto(streams, n), streams[i].name) == Some(
            streams[i].schema.index_name + "-cg"@,
        ),
    decreases n,
{
    let before = mach5::groups_upto(streams, n - 1);
    let s = streams[n - 1];
    if i < n - 1 {
        groups_are_found(streams, n - 1, i);
        assert(streams[i].name != s.name);
    }
    model::bind_then_find(
        before,
        s.name,
        mach5::consumer_group(s.schema.index_name),
        streams[i].name,
    );
}

/// An index is made without copies, in one part, with the mappings of the stream's fields.
pub proof fn indexes_hold_their_fields(a: AdapterView, s: StreamConfigView)
    ensures
        ({
            let body = mach5::index_request(a, s).body;
            let settings = member(member(body, "settings"@), "index"@);
            &&& member(settings, "number_of_shards"@) == Doc::Uint(1)
            &&& member(settings, "number_of_replicas"@) == Doc::Uint(0)
            &&& member(body, "mappings"@) == dsl::mappings_doc(s.schema.fields)
        }),
{
    broadcast use json::with_then_get;

    index_keys();
}

/// The platform's name of each type of field.
pub proof fn fields_have_their_types(t: FieldType)
    ensures
        member(dsl::leaf_doc(t), "type"@) == Doc::Text(
            match t {
                FieldType::Timestamp => "date"@,
                FieldType::Keyword => "keyword"@,
                FieldType::Text => "text"@,
                FieldType::Int => "integer"@,
                FieldType::Long => "long"@,
                FieldType::Float => "float"@,
                FieldType::Ip => "ip"@,
            },
        ),
{
    broadcast use json::with_then_get;

}

proof fn first_is_kept(w: Seq<WarehouseView>, n: int, i: int) -> (k: int)
    requires
        0 <= i < n <= w.len(),
        forall|j: int| 0 <= j < i ==> (#[trigger] w[j]).name != w[i].name,
    ensures
        0 <= k < adapter::unique_upto(w, n).len(),
        adapter::unique_upto(w, n)[k] == w[i],
    decreases n,
{
    if i == n - 1 {
        assert(!adapter::warehouse_repeats(w, n - 1));
        adapter::unique_upto(w, n).len() - 1
    } else {
        first_is_kept(w, n - 1, i)
    }
}

proof fn kept_are_first(w: Seq<WarehouseView>, n: int, k: int) -> (i: int)
    requires
        0 <= n <= w.len(),
        0 <= k < adapter::unique_upto(w, n).len(),
    ensures
        0 <= i < n,
        adapter::unique_upto(w, n)[k] == w[i],
        forall|j: int| 0 <= j < i ==> (#[trigger] w[j]).name != w[i].name,
    decreases n,
{
    if adapter::warehouse_repeats(w, n - 1) {
        kept_are_first(w, n - 1, k)
    } else if k == adapter::unique_upto(w, n - 1).len() {
        n - 1
    } else {
        kept_are_first(w, n - 1, k)
    }
}

proof fn kept_are_apart(w: Seq<WarehouseView>, n: int, j: int, k: int)
    requires
        0 <= n <= w.len(),
        0 <= j < k < adapter::unique_upto(w, n).len(),
    ensures
        adapter::unique_upto(w, n)[j].name != adapter::unique_upto(w, n)[k].name,
    decreases n,
{
    if adapter::warehouse_repeats(w, n - 1) {
        kept_are_apart(w, n - 1, j, k);
    } else if k < adapter::unique_upto(w, n - 1).len() {
        kept_are_apart(w, n - 1, j, k);
    } else {
        let i = kept_are_first(w, n - 1, j);
        assert(w[i].name != w[n - 1].name);
    }
}

/// Every warehouse that is asked for is made, with the nodes that the first of its name asks
/// for, is on, is waited for, and takes queries at its own address.
pub proof fn every_warehouse_is_made(
    a: AdapterView,
    streams: Seq<StreamConfigView>,
    bootstrap: Seq<char>,
    w: Seq<WarehouseView>,
    i: int,
) -> (k: int)
    requires
        0 <= i < w.len(),
        forall|j: int| 0 <= j < i ==> (#[trigger] w[j]).name != w[i].name,
    ensures
        ({
            let begun = mach5::begun(a, streams, bootstrap, w);
            let made = begun.batches.last();
            let resource = member(made[k].body, "resource"@);
            &&& 0 <= k < made.len() && made.len() == begun.polls.len()
            &&& made[k].url == a.warehouse_url(w[i].name) && begun.polls[k] == made[k].url
            &&& member(resource, "num_mediators"@) == Doc::Uint(w[i].num_mediators as nat)
            &&& member(resource, "num_os"@) == Doc::Uint(w[i].num_os as nat)
            &&& member(made[k].body, "enabled"@) == Doc::Bool(true)
            &&& begun.result.query_endpoints[k] == (w[i].name, a.query_url(w[i].name))
            &&& begun.result.query_endpoints.len() == made.len()
            &&& begun.done == 0 && begun.ready == 0
        }),
{
    broadcast use json::with_then_get;

    warehouse_keys();
    first_is_kept(w, w.len() as int, i)
}

/// No warehouse is made twice, and none that was not asked for.
pub proof fn warehouses_are_made_once(
    a: AdapterView,
    streams: Seq<StreamConfigView>,
    bootstrap: Seq<char>,
    w: Seq<WarehouseView>,
    j: int,
    k: int,
)
    requires
        0 <= j < k < mach5::batches(a, streams, bootstrap, w).last().len(),
    ensures
        mach5::endpoints(a, w)[j].0 != mach5::endpoints(a, w)[k].0,
        exists|i: int| 0 <= i < w.len() && (#[trigger] w[i]).name == mach5::endpoints(a, w)[k].0,
{
    kept_are_apart(w, w.len() as int, j, k);
    let i = kept_are_first(w, w.len() as int, k);
    assert(w[i].name == mach5::endpoints(a, w)[k].0);
}

/// A preparation without streams makes the namespace and the warehouses alone.
pub proof fn without_streams_there_is_no_connection(
    a: AdapterView,
    bootstrap: Seq<char>,
    w: Seq<WarehouseView>,
)
    ensures
        mach5::batches(a, Seq::empty(), bootstrap, w).len() == 2,
        mach5::batches(a, Seq::empty(), bootstrap, w)[0].len() == 1,
        mach5::batches(a, Seq::empty(), bootstrap, w)[0][0].url == a.namespace_url(),
{
}

/// All batches are sent, in order, before the first warehouse is asked, and a preparation is
/// done exactly when the last warehouse was ready.
pub proof fn warehouses_are_asked_when_all_is_made(p: mach5::PreparationView)
    requires
        p.done <= p.batches.len() <= usize::MAX,
        p.ready <= p.polls.len() <= usize::MAX,
    ensures
        p.step() is Done <==> p.done == p.batches.len() && p.ready == p.polls.len(),
        p.step() is Poll ==> p.done == p.batches.len() && p.step()->Poll_0 == p.ready,
        p.step() is Put <==> p.done < p.batches.len(),
        p.step() is Put ==> p.step()->Put_0 == p.done,
        p.accepted().done == p.done + 1 && p.accepted().ready == p.ready,
        p.with_ready().ready == p.ready + 1 && p.with_ready().done == p.done,
{
}

/// What was made, or was there already, counts as made, by whichever sign the platform gives;
/// no other reply does. What is gone counts as deleted.
pub proof fn what_is_there_is_made(reply: ReplyView)
    ensures
        200 <= reply.code <= 299 ==> reply.created() && reply.deleted(),
        reply.code == 409 ==> reply.created() && !reply.deleted(),
        reply.code == 404 ==> reply.deleted(),
        text::holds(reply.body, "AlreadyExists"@) ==> reply.created(),
        text::holds(reply.body, "already exists"@) ==> reply.created(),
        reply.created() && !(200 <= reply.code <= 299) && reply.code != 409 ==> text::holds(
            reply.body,
            "AlreadyExists"@,
        ) || text::holds(reply.body, "already exists"@),
        reply.deleted() && reply.code != 404 ==> 200 <= reply.code <= 299,
{
}

/// A batch is accepted exactly when every request of it was; otherwise what is said is of the
/// first that was not, with the reply's status and text.
pub proof fn one_failure_stops_a_batch(batch: Seq<RequestView>, replies: Seq<ReplyView>, i: int)
    requires
        0 <= i <= batch.len(),
        batch.len() == replies.len(),
    ensures
        mach5::first_failure(batch, replies, i) is None <==> (forall|k: int|
            i <= k < replies.len() ==> (#[trigger] replies[k]).created()),
        forall|k: int|
            i <= k < replies.len() && !(#[trigger] replies[k]).created() && (forall|j: int|
                i <= j < k ==> (#[trigger] replies[j]).created()) ==> mach5::first_failure(
                batch,
                replies,
                i,
            ) == Some(
                "Failed to create "@ + batch[k].what + " ("@ + replies[k].status + "): "@
                    + replies[k].body,
            ),
    decreases batch.len() - i,
{
    if i < batch.len() {
        one_failure_stops_a_batch(batch, replies, i + 1);
    }
}

/// A warehouse is ready where it has an identifier and is on or says that it runs, and only
/// there: one without an identifier is not, and one that is neither on nor runs is not.
pub proof fn ready_warehouses_have_a_name_and_run(body: Doc, id: Seq<char>)
    requires
        member(body, "id"@) == Doc::Text(id),
    ensures
        id.len() == 0 ==> !mach5::warehouse_ready(body),
        id.len() > 0 && member(body, "enabled"@) == Doc::Bool(true) ==> mach5::warehouse_ready(body),
        id.len() > 0 && (member(body, "status"@) == Doc::Text("ready"@) || member(body, "status"@)
            == Doc::Text("Running"@) || member(body, "status"@) == Doc::Text("running"@))
            ==> mach5::warehouse_ready(body),
        member(body, "enabled"@) != Doc::Bool(true) && member(body, "status"@) == Doc::Null
            ==> !mach5::warehouse_ready(body),
{
}

// ---------------------------------------------------------------------------
// Configuration
// ---------------------------------------------------------------------------

proof fn trailing_goes(s: Seq<char>, c: char)
    ensures
        ({
            let r = text::without_trailing(s, c);
            &&& r.len() == 0 || r.last() != c
            &&& r.len() <= s.len() && r == s.take(r.len() as int)
            &&& forall|i: int| r.len() <= i < s.len() ==> s[i] == c
        }),
    decreases s.len(),
{
    if s.len() > 0 && s.last() == c {
        trailing_goes(s.drop_last(), c);
        let r = text::without_trailing(s, c);
        assert(r =~= s.take(r.len() as int));
        assert forall|i: int| r.len() <= i < s.len() implies s[i] == c by {
            if i < s.len() - 1 {
                assert(s.drop_last()[i] == c);
            }
        }
    } else {
        assert(s =~= s.take(s.len() as int));
    }
}

/// An adapter is made of a configuration exactly when it has an endpoint. The endpoint loses
/// the slashes at its end and nothing else, and the namespace is the one that is named, or the
/// platform's own.
pub proof fn adapters_need_an_endpoint(config: Doc, endpoint: Seq<char>)
    ensures
        mach5::configured(config) is Ok <==> member(config, "endpoint"@) is Text,
        member(config, "endpoint"@) == Doc::Text(endpoint) ==> ({
            let a = mach5::configured(config)->Ok_0;
            &&& a.endpoint.len() <= endpoint.len() && a.endpoint == endpoint.take(
                a.endpoint.len() as int,
            )
            &&& a.endpoint.len() == 0 || a.endpoint.last() != '/'
            &&& forall|i: int| a.endpoint.len() <= i < endpoint.len() ==> endpoint[i] == '/'
            &&& member(config, "namespace"@) is Text ==> member(config, "namespace"@) == Doc::Text(
                a.namespace,
            )
            &&& !(member(config, "namespace"@) is Text) ==> a.namespace == "default"@
        }),
{
    if member(config, "endpoint"@) == Doc::Text(endpoint) {
        trailing_goes(endpoint, '/');
    }
}

/// The gateway is configured exactly when its host, user, password and database are, each as
/// it is given, at the port that is given or the usual one.
pub proof fn gateways_are_as_configured(config: Doc, port: u16)
    ensures
        ({
            let given = |key: Seq<char>| member(config, key) is Text;
            mach5::configured_pg(config) is Some <==> given("pg_host"@) && given("pg_user"@)
                && given("pg_password"@) && given("pg_dbname"@)
        }),
        mach5::configured_pg(config) is Some ==> ({
            let pg = mach5::configured_pg(config)->0;
            &&& member(config, "pg_host"@) == Doc::Text(pg.host)
            &&& member(config, "pg_user"@) == Doc::Text(pg.user)
            &&& member(config, "pg_password"@) == Doc::Text(pg.password)
            &&& member(config, "pg_dbname"@) == Doc::Text(pg.dbname)
            &&& member(config, "pg_port"@) == Doc::Null ==> pg.port == 5432
            &&& member(config, "pg_port"@) == Doc::Uint(port as nat) ==> pg.port == port
            &&& member(member(config, "warehouse"@), "name"@) is Text ==> member(
                member(config, "warehouse"@),
                "name"@,
            ) == Doc::Text(pg.warehouse)
        }),
{
}

// ---------------------------------------------------------------------------
// Taking down
// ---------------------------------------------------------------------------

/// A pipeline is deleted before the index that it fills and the connection that it reads, and
/// outside the namespace that is there without the benchmark, the namespace goes last.
pub proof fn pipelines_go_before_their_index(
    a: AdapterView,
    streams: Seq<StreamConfigView>,
    warehouses: Seq<WarehouseView>,
    i: int,
)
    requires
        0 <= i < streams.len(),
    ensures
        ({
            let gone = teardown::deletions(a, streams, warehouses);
            let index = streams[i].schema.index_name;
            &&& gone.len() >= 2
            &&& gone[0].contains(a.pipeline_url(index))
            &&& gone[1].contains(a.index_url(index))
            &&& gone[1].contains(a.connection_url())
            &&& a.namespace != "default"@ ==> gone.len() == 3 && gone[2] == seq![a.namespace_url()]
            &&& a.namespace == "default"@ ==> gone.len() == 2 && gone[0].len() == streams.len()
                && gone[1].len() == streams.len() + 1
        }),
{
    let gone = teardown::deletions(a, streams, warehouses);
    let index = streams[i].schema.index_name;
    assert(gone[0][i] == a.pipeline_url(index));
    assert(gone[1][i] == a.index_url(index));
    assert(gone[1][streams.len() as int] == a.connection_url());
}

/// The health of every deployment of a run is looked at.
pub proof fn every_deployment_is_watched(
    run_name: Seq<char>,
    s: ScenarioView,
    workers: WorkerSpec,
    image: Seq<char>,
    run: IdentityView,
    sql: Option<Seq<char>>,
    i: int,
)
    requires
        0 <= i < plan::deployments(run_name, s, workers, image, run, sql).len(),
    ensures
        plan::watched(run_name, s.stream_list(), workers).contains(
            plan::deployments(run_name, s, workers, image, run, sql)[i].0,
        ),
{
    let all = plan::deployments(run_name, s, workers, image, run, sql);
    let parts = seq!["phase-controller"@, "aggregator"@, "query"@];
    let named = plan::part_names(run_name, parts);
    let groups = plan::group_parts(run_name, plan::group_list(workers));
    let streams = plan::stream_parts(run_name, s.stream_list());
    let watched = plan::watched(run_name, s.stream_list(), workers);
    let n = s.stream_list().len();
    assert(named.len() == 3 && parts[0] == "phase-controller"@ && parts[1] == "aggregator"@
        && parts[2] == "query"@);
    if i == 0 {
        assert(watched[1] == named[1]);
    } else if i == 1 {
        assert(watched[0] == named[0]);
    } else if i < 2 + n {
        assert(watched[3 + groups.len() + (i - 2)] == streams[i - 2]);
    } else if workers.query_groups is Some {
        assert(watched[3 + (i - 2 - n)] == groups[i - 2 - n]);
    } else {
        assert(watched[2] == named[2]);
    }
}

/// When the timeline is over every deployment of a run is scaled to nothing but the
/// aggregator, which goes on until the results are fetched.
pub proof fn all_but_the_aggregator_are_scaled_down(
    run_name: Seq<char>,
    s: ScenarioView,
    workers: WorkerSpec,
    image: Seq<char>,
    run: IdentityView,
    sql: Option<Seq<char>>,
    i: int,
)
    requires
        0 <= i < plan::deployments(run_name, s, workers, image, run, sql).len(),
    ensures
        plan::deployments(run_name, s, workers, image, run, sql)[0].0 == run_name + "-aggregator"@,
        plan::scaled_down(run_name, s.stream_list(), workers).contains(
            plan::deployments(run_name, s, workers, image, run, sql)[i].0,
        ) <==> i != 0,
{
    let all = plan::deployments(run_name, s, workers, image, run, sql);
    let parts = seq!["query"@, "phase-controller"@];
    let named = plan::part_names(run_name, parts);
    let groups = plan::group_parts(run_name, plan::group_list(workers));
    let streams = plan::stream_parts(run_name, s.stream_list());
    let down = plan::scaled_down(run_name, s.stream_list(), workers);
    let n = s.stream_list().len();
    reveal_strlit("-");
    reveal_strlit("aggregator");
    reveal_strlit("-aggregator");
    reveal_strlit("query");
    reveal_strlit("ingest");
    reveal_strlit("phase-controller");
    assert(all[0].0 =~= run_name + "-aggregator"@);
    assert(named.len() == 2 && parts[0] == "query"@ && parts[1] == "phase-controller"@);
    if i == 0 {
        let at = run_name.len() as int + 1;
        assert forall|k: int| 0 <= k < down.len() implies down[k] != all[0].0 by {
            assert(all[0].0[at] == 'a');
            if k < 2 {
                assert(down[k] == named[k]);
                assert(down[k] == resources::part_name(run_name, parts[k]));
                assert(down[k][at] == parts[k][0]);
            } else if k < 2 + n {
                assert(down[k] == streams[k - 2]);
                assert(down[k][at] == 'i');
            } else {
                assert(down[k] == groups[k - 2 - n]);
                assert(down[k][at] == 'q');
            }
        }
    } else if i == 1 {
        assert(down[1] == named[1]);
    } else if i < 2 + n {
        assert(down[2 + (i - 2)] == streams[i - 2]);
    } else if workers.query_groups is Some {
        assert(down[2 + n + (i - 2 - n)] == groups[i - 2 - n]);
    } else {
        assert(down[0] == named[0]);
    }
}

} // verus!
