//! Taking a benchmark down: the requests that delete what preparing it created.
use vstd::prelude::*;
use crate::adapter;
use crate::adapter::{DataStreamConfig, StreamConfigView, WarehouseConfig, WarehouseView};
use crate::mach5;
use crate::mach5::{AdapterView, Mach5Adapter};
use crate::model;
use crate::text;

verus! {

/// The namespace that is there without the benchmark: it and its warehouses are spared.
pub open spec fn protected_namespace(namespace: Seq<char>) -> bool {
    namespace == "default"@
}

pub open spec fn pipeline_deletes(a: AdapterView, streams: Seq<StreamConfigView>) -> Seq<Seq<char>> {
    streams.map_values(|s: StreamConfigView| a.pipeline_url(s.schema.index_name))
}

pub open spec fn index_deletes(a: AdapterView, streams: Seq<StreamConfigView>) -> Seq<Seq<char>> {
    streams.map_values(|s: StreamConfigView| a.index_url(s.schema.index_name))
}

pub open spec fn warehouse_deletes(a: AdapterView, warehouses: Seq<WarehouseView>) -> Seq<
    Seq<char>,
> {
    adapter::unique(warehouses).map_values(|w: WarehouseView| a.warehouse_url(w.name))
}

/// The addresses that are deleted, in batches: first pipelines and warehouses, then
/// indexes and the connection, last the namespace. The deletions of a batch may run side
/// by side.
pub open spec fn deletions(
    a: AdapterView,
    streams: Seq<StreamConfigView>,
    warehouses: Seq<WarehouseView>,
) -> Seq<Seq<Seq<char>>> {
    let second = index_deletes(a, streams).push(a.connection_url());
    if protected_namespace(a.namespace) {
        seq![pipeline_deletes(a, streams), second]
    } else {
        seq![
            pipeline_deletes(a, streams) + warehouse_deletes(a, warehouses),
            second,
            seq![a.namespace_url()],
        ]
    }
}

/// Some batch deletes the address.
pub open spec fn is_deleted(batches: Seq<Seq<Seq<char>>>, url: Seq<char>) -> bool {
    exists|b: int| 0 <= b < batches.len() && (#[trigger] batches[b]).contains(url)
}

/// The addresses of a list of batches.
pub open spec fn batch_views(batches: Seq<Vec<String>>) -> Seq<Seq<Seq<char>>> {
    batches.map_values(|b: Vec<String>| text::views(b@))
}

impl Mach5Adapter {
    /// The addresses to delete, in batches that follow one another.
    pub fn cleanup(
        &self,
        streams: &Vec<DataStreamConfig>,
        warehouses: &Vec<WarehouseConfig>,
    ) -> (r: Vec<Vec<String>>)
        ensures
            batch_views(r@) == deletions(self@, model::vmap(streams@), model::vmap(warehouses@)),
    {
        let ghost sv = model::vmap(streams@);
        let ghost wv = model::vmap(warehouses@);
        let ghost pipes = pipeline_deletes(self@, sv);
        let ghost idx = index_deletes(self@, sv);
        let mut first: Vec<String> = Vec::new();
        let mut second: Vec<String> = Vec::new();
        let mut i: usize = 0;
        assert(text::views(first@) =~= pipes.take(0));
        assert(text::views(second@) =~= idx.take(0));
        while i < streams.len()
            invariant
                i <= streams@.len(),
                sv == model::vmap(streams@),
                pipes == pipeline_deletes(self@, sv),
                idx == index_deletes(self@, sv),
                text::views(first@) == pipes.take(i as int),
                text::views(second@) == idx.take(i as int),
            decreases streams@.len() - i,
        {
            broadcast use model::views_push, model::take_push;

            assert(sv[i as int] == streams@[i as int]@);
            first.push(self.pipeline_url(streams[i].schema.index_name.as_str()));
            second.push(self.index_url(streams[i].schema.index_name.as_str()));
            i += 1;
        }
        assert(pipes.take(i as int) =~= pipes);
        assert(idx.take(i as int) =~= idx);
        let connection = self.connection_url();
        proof {
            model::views_push(second@, connection);
        }
        second.push(connection);
        let mut out: Vec<Vec<String>> = Vec::new();
        if text::same(self.namespace.as_str(), "default") {
            out.push(first);
            out.push(second);
            assert(batch_views(out@) =~= deletions(self@, sv, wv));
            return out;
        }
        let unique = adapter::unique_warehouses(warehouses);
        let ghost uv = model::vmap(unique@);
        let ghost whs = warehouse_deletes(self@, wv);
        let mut k: usize = 0;
        assert(text::views(first@) =~= pipes + whs.take(0));
        while k < unique.len()
            invariant
                k <= unique@.len(),
                uv == model::vmap(unique@),
                whs == uv.map_values(|w: WarehouseView| self@.warehouse_url(w.name)),
                text::views(first@) == pipes + whs.take(k as int),
            decreases unique@.len() - k,
        {
            broadcast use model::views_push, model::take_push;

            assert(uv[k as int] == unique@[k as int]@);
            let ghost before = text::views(first@);
            first.push(self.warehouse_url(unique[k].name.as_str()));
            assert(text::views(first@) =~= pipes + whs.take(k + 1));
            k += 1;
        }
        assert(whs.take(k as int) =~= whs);
        out.push(first);
        out.push(second);
        let mut last: Vec<String> = Vec::new();
        last.push(self.namespace_url());
        assert(text::views(last@) =~= seq![self@.namespace_url()]);
        out.push(last);
        assert(batch_views(out@) =~= deletions(self@, sv, wv));
        out
    }
}

/// Nothing is left behind: outside the protected namespace, everything that preparing a
/// benchmark creates is deleted when it is taken down.
pub proof fn cleanup_undoes_prepare(
    a: AdapterView,
    streams: Seq<StreamConfigView>,
    bootstrap: Seq<char>,
    warehouses: Seq<WarehouseView>,
    b: int,
    i: int,
)
    requires
        !protected_namespace(a.namespace),
        0 <= b < mach5::batches(a, streams, bootstrap, warehouses).len(),
        0 <= i < mach5::batches(a, streams, bootstrap, warehouses)[b].len(),
    ensures
        is_deleted(
            deletions(a, streams, warehouses),
            mach5::batches(a, streams, bootstrap, warehouses)[b][i].url,
        ),
{
    let made = mach5::batches(a, streams, bootstrap, warehouses);
    let gone = deletions(a, streams, warehouses);
    let url = made[b][i].url;
    let pipes = pipeline_deletes(a, streams);
    let whs = warehouse_deletes(a, warehouses);
    let idx = index_deletes(a, streams);
    if b == 0 {
        assert(gone[2][0] == url);
        assert(gone[2].contains(url));
    } else if b == made.len() - 1 {
        assert(whs[i] == url);
        assert(gone[0][pipes.len() + i] == url);
        assert(gone[0].contains(url));
    } else if b == 1 {
        assert(gone[1][idx.len() as int] == url);
        assert(gone[1].contains(url));
    } else if b == 2 {
        assert(idx[i] == url);
        assert(gone[1][i] == url);
        assert(gone[1].contains(url));
    } else {
        assert(pipes[i] == url);
        assert(gone[0][i] == url);
        assert(gone[0].contains(url));
    }
}

/// In the protected namespace the connection, the indexes and the pipelines are deleted,
/// and neither the namespace itself nor any warehouse is.
pub proof fn cleanup_spares_default(
    a: AdapterView,
    streams: Seq<StreamConfigView>,
    warehouses: Seq<WarehouseView>,
)
    requires
        protected_namespace(a.namespace),
    ensures
        deletions(a, streams, warehouses) == seq![
            pipeline_deletes(a, streams),
            index_deletes(a, streams).push(a.connection_url()),
        ],
{
}

} // verus!
