//! What the harness and a target platform tell each other.
use vstd::prelude::*;
use crate::json::Json;
use crate::model;
use crate::model::Duplicate;
use crate::scenario::{DataStream, Schema, SchemaView, StreamView};
use crate::text;

verus! {

/// A warehouse: the nodes that a group's queries run on.
pub struct WarehouseConfig {
    pub name: String,
    pub num_mediators: u32,
    pub num_os: u32,
}

/// One data stream, as the target platform has to take it in.
pub struct DataStreamConfig {
    pub name: String,
    pub schema: Schema,
    /// The topic that the stream's events come in, which has the index's name.
    pub kafka_topic: String,
}

/// What preparing the target platform gave.
pub struct PrepareResult {
    /// The consumer group that reads each stream, by the stream's name.
    pub consumer_groups: Vec<(String, String)>,
    /// The address that takes each warehouse's queries, by the warehouse's name.
    pub query_endpoints: Vec<(String, String)>,
}

/// What became of one query.
pub struct QueryResult {
    pub hit_count: u64,
    pub row_count: Option<u64>,
    pub error: Option<String>,
    pub duration_ns: u64,
    pub timed_out: bool,
}

/// Which adapter is used, and what it is told.
pub struct TargetConfig {
    pub adapter: String,
    pub config: Json,
}

pub struct WarehouseView {
    pub name: Seq<char>,
    pub num_mediators: u32,
    pub num_os: u32,
}

pub struct StreamConfigView {
    pub name: Seq<char>,
    pub schema: SchemaView,
    pub kafka_topic: Seq<char>,
}

pub struct PrepareView {
    pub consumer_groups: Seq<(Seq<char>, Seq<char>)>,
    pub query_endpoints: Seq<(Seq<char>, Seq<char>)>,
}

pub struct QueryResultView {
    pub hit_count: u64,
    pub row_count: Option<u64>,
    pub error: Option<Seq<char>>,
    pub duration_ns: u64,
    pub timed_out: bool,
}

impl View for WarehouseConfig {
    type V = WarehouseView;

    open spec fn view(&self) -> WarehouseView {
        WarehouseView {
            name: self.name@,
            num_mediators: self.num_mediators,
            num_os: self.num_os,
        }
    }
}

impl View for DataStreamConfig {
    type V = StreamConfigView;

    open spec fn view(&self) -> StreamConfigView {
        StreamConfigView {
            name: self.name@,
            schema: self.schema@,
            kafka_topic: self.kafka_topic@,
        }
    }
}

impl View for PrepareResult {
    type V = PrepareView;

    open spec fn view(&self) -> PrepareView {
        PrepareView {
            consumer_groups: model::vmap(self.consumer_groups@),
            query_endpoints: model::vmap(self.query_endpoints@),
        }
    }
}

impl View for QueryResult {
    type V = QueryResultView;

    open spec fn view(&self) -> QueryResultView {
        QueryResultView {
            hit_count: self.hit_count,
            row_count: self.row_count,
            error: text::opt_view(self.error),
            duration_ns: self.duration_ns,
            timed_out: self.timed_out,
        }
    }
}

impl QueryResultView {
    /// A query that found nothing, took no time and met no error.
    pub open spec fn blank() -> QueryResultView {
        QueryResultView {
            hit_count: 0,
            row_count: None,
            error: None,
            duration_ns: 0,
            timed_out: false,
        }
    }
}

impl Default for QueryResult {
    fn default() -> (r: Self)
        ensures
            r@ == QueryResultView::blank(),
    {
        QueryResult {
            hit_count: 0,
            row_count: None,
            error: None,
            duration_ns: 0,
            timed_out: false,
        }
    }
}

impl Duplicate for WarehouseConfig {
    fn duplicate(&self) -> (r: Self) {
        WarehouseConfig {
            name: self.name.clone(),
            num_mediators: self.num_mediators,
            num_os: self.num_os,
        }
    }
}

/// A stream as the target platform has to take it in.
pub open spec fn stream_config(s: StreamView) -> StreamConfigView {
    StreamConfigView { name: s.name, schema: s.schema, kafka_topic: s.schema.index_name }
}

/// The streams as the target platform has to take them in.
pub fn stream_configs(streams: &Option<Vec<DataStream>>) -> (r: Vec<DataStreamConfig>)
    ensures
        model::vmap(r@) == (match model::opt_vmap(*streams) {
            Some(s) => s.map_values(|x: StreamView| stream_config(x)),
            None => Seq::empty(),
        }),
{
    let mut out: Vec<DataStreamConfig> = Vec::new();
    match streams {
        None => {
            assert(model::vmap(out@) =~= Seq::empty());
        },
        Some(streams) => {
            let ghost all = model::vmap(streams@).map_values(|x: StreamView| stream_config(x));
            let mut i: usize = 0;
            assert(model::vmap(out@) =~= all.take(0));
            while i < streams.len()
                invariant
                    i <= streams@.len(),
                    all == model::vmap(streams@).map_values(|x: StreamView| stream_config(x)),
                    model::vmap(out@) == all.take(i as int),
                decreases streams@.len() - i,
            {
                broadcast use model::vmap_push, model::take_push;

                let c = DataStreamConfig {
                    name: streams[i].name.clone(),
                    schema: streams[i].schema.duplicate(),
                    kafka_topic: streams[i].schema.index_name.clone(),
                };
                assert(c@ == all[i as int]);
                out.push(c);
                i += 1;
            }
            assert(all.take(i as int) =~= all);
        },
    }
    out
}

/// An earlier warehouse has the same name.
pub open spec fn warehouse_repeats(w: Seq<WarehouseView>, i: int) -> bool {
    exists|j: int| 0 <= j < i && (#[trigger] w[j]).name == w[i].name
}

/// The first `n` warehouses without those whose name came before.
pub open spec fn unique_upto(w: Seq<WarehouseView>, n: int) -> Seq<WarehouseView>
    decreases n,
{
    if n <= 0 {
        Seq::empty()
    } else if warehouse_repeats(w, n - 1) {
        unique_upto(w, n - 1)
    } else {
        unique_upto(w, n - 1).push(w[n - 1])
    }
}

/// The warehouses, each name once: the first of a name counts.
pub open spec fn unique(w: Seq<WarehouseView>) -> Seq<WarehouseView> {
    unique_upto(w, w.len() as int)
}

fn warehouse_seen(w: &Vec<WarehouseConfig>, i: usize) -> (r: bool)
    requires
        i < w@.len(),
    ensures
        r == warehouse_repeats(model::vmap(w@), i as int),
{
    let ghost all = model::vmap(w@);
    let mut j: usize = 0;
    while j < i
        invariant
            j <= i < w@.len(),
            all == model::vmap(w@),
            forall|k: int| 0 <= k < j ==> (#[trigger] all[k]).name != all[i as int].name,
        decreases i - j,
    {
        if text::same(w[j].name.as_str(), w[i].name.as_str()) {
            assert(all[j as int].name == all[i as int].name);
            return true;
        }
        assert(all[j as int].name == w@[j as int].name@);
        j += 1;
    }
    false
}

/// The warehouses, each name once.
pub fn unique_warehouses(w: &Vec<WarehouseConfig>) -> (r: Vec<WarehouseConfig>)
    ensures
        model::vmap(r@) == unique(model::vmap(w@)),
{
    let ghost all = model::vmap(w@);
    let mut out: Vec<WarehouseConfig> = Vec::new();
    let mut i: usize = 0;
    assert(model::vmap(out@) =~= unique_upto(all, 0));
    while i < w.len()
        invariant
            i <= w@.len(),
            all == model::vmap(w@),
            model::vmap(out@) == unique_upto(all, i as int),
        decreases w@.len() - i,
    {
        broadcast use model::vmap_push;

        assert(all[i as int] == w@[i as int]@);
        if !warehouse_seen(w, i) {
            out.push(w[i].duplicate());
        }
        i += 1;
    }
    out
}

/// A warehouse of that name is in the list.
pub open spec fn has_warehouse(w: Seq<WarehouseView>, name: Seq<char>) -> bool {
    exists|k: int| 0 <= k < w.len() && (#[trigger] w[k]).name == name
}

/// No name is lost and none is invented: the unique warehouses have the names that the
/// list has.
pub proof fn unique_keeps_names(w: Seq<WarehouseView>, n: int, name: Seq<char>)
    requires
        0 <= n <= w.len(),
    ensures
        has_warehouse(unique_upto(w, n), name) <==> has_warehouse(w.take(n), name),
    decreases n,
{
    if n > 0 {
        let before = unique_upto(w, n - 1);
        let last = w[n - 1];
        unique_keeps_names(w, n - 1, name);
        unique_keeps_names(w, n - 1, last.name);
        if has_warehouse(w.take(n - 1), name) {
            let k = choose|k: int| 0 <= k < w.take(n - 1).len() && (#[trigger] w.take(n - 1)[k]).name
                == name;
            assert(w.take(n)[k].name == name);
        }
        assert(warehouse_repeats(w, n - 1) ==> has_warehouse(w.take(n - 1), last.name)) by {
            if warehouse_repeats(w, n - 1) {
                let j = choose|j: int| 0 <= j < n - 1 && (#[trigger] w[j]).name == last.name;
                assert(w.take(n - 1)[j].name == last.name);
            }
        }
        assert(w.take(n)[n - 1] == last);
        if has_warehouse(w.take(n), name) {
            let k = choose|k: int| 0 <= k < w.take(n).len() && (#[trigger] w.take(n)[k]).name == name;
            if k < n - 1 {
                assert(w.take(n - 1)[k].name == name);
            }
        }
        if !warehouse_repeats(w, n - 1) {
            let now = before.push(last);
            assert(now[before.len() as int] == last);
            if has_warehouse(before, name) {
                let k = choose|k: int| 0 <= k < before.len() && (#[trigger] before[k]).name == name;
                assert(now[k].name == name);
            }
            if has_warehouse(now, name) && name != last.name {
                let k = choose|k: int| 0 <= k < now.len() && (#[trigger] now[k]).name == name;
                assert(before[k].name == name);
            }
        }
    }
}

/// No name is there twice.
pub proof fn unique_has_no_repeats(w: Seq<WarehouseView>, n: int)
    requires
        0 <= n <= w.len(),
    ensures
        forall|k: int| 0 <= k < unique_upto(w, n).len() ==> !warehouse_repeats(unique_upto(w, n), k),
    decreases n,
{
    if n > 0 {
        unique_has_no_repeats(w, n - 1);
        let before = unique_upto(w, n - 1);
        let now = unique_upto(w, n);
        if !warehouse_repeats(w, n - 1) {
            unique_keeps_names(w, n - 1, w[n - 1].name);
            assert forall|k: int| 0 <= k < now.len() implies !warehouse_repeats(now, k) by {
                if warehouse_repeats(now, k) {
                    let j = choose|j: int| 0 <= j < k && (#[trigger] now[j]).name == now[k].name;
                    assert(before[j] == now[j]);
                    if k < before.len() {
                        assert(before[k] == now[k]);
                        assert(warehouse_repeats(before, k));
                    } else {
                        assert(has_warehouse(before, w[n - 1].name));
                        let m = choose|m: int|
                            0 <= m < w.take(n - 1).len() && (#[trigger] w.take(n - 1)[m]).name
                                == w[n - 1].name;
                        assert(w[m].name == w[n - 1].name);
                    }
                }
            }
        }
    }
}

} // verus!
