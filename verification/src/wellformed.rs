//! What a scenario must be to be accepted.
use vstd::prelude::*;
use crate::decimal;
use crate::model;
use crate::scenario::{
    GroupView, PhaseView, QueryView, ScenarioView, StreamView, MIN_PHASE_SECONDS,
};
use crate::validation;

verus! {

/// A stream that has a schema with its time in it, workers, and a rate for every phase.
pub open spec fn stream_is_fine(s: StreamView, phases: Seq<PhaseView>) -> bool {
    &&& s.schema.fields.len() > 0
    &&& validation::has_timestamp(s.schema)
    &&& s.ingest_replicas > 0
    &&& forall|k: int|
        0 <= k < phases.len() ==> model::find(s.ingest, (#[trigger] phases[k]).name) is Some
}

/// No two streams have the same name or write to the same index, and each is fine.
pub open spec fn streams_are_fine(streams: Seq<StreamView>, phases: Seq<PhaseView>) -> bool {
    &&& forall|i: int, j: int|
        0 <= i < j < streams.len() ==> (#[trigger] streams[i]).name != (#[trigger] streams[j]).name
            && streams[i].schema.index_name != streams[j].schema.index_name
    &&& forall|i: int| 0 <= i < streams.len() ==> stream_is_fine(#[trigger] streams[i], phases)
}

/// A group with a weight, whose own weights are those of queries that exist, and add up to one.
pub open spec fn group_is_fine(g: GroupView, queries: Seq<QueryView>) -> bool {
    &&& g.weight_ppb > 0
    &&& match g.mix_override {
        Some(o) => {
            &&& forall|k: int|
                0 <= k < o.len() ==> validation::query_named(queries, (#[trigger] o[k]).0)
            &&& !validation::off_one(model::sum(validation::weights(o)))
        },
        None => true,
    }
}

/// No two groups have the same name, each is fine, and their weights add up to one.
pub open spec fn groups_are_fine(groups: Seq<GroupView>, queries: Seq<QueryView>) -> bool {
    &&& forall|i: int, j: int|
        0 <= i < j < groups.len() ==> (#[trigger] groups[i]).name != (#[trigger] groups[j]).name
    &&& forall|i: int| 0 <= i < groups.len() ==> group_is_fine(#[trigger] groups[i], queries)
    &&& !validation::off_one(model::sum(validation::group_weights(groups)))
}

/// Some stream writes to the index.
pub open spec fn is_written(streams: Seq<StreamView>, index: Seq<char>) -> bool {
    exists|k: int| 0 <= k < streams.len() && (#[trigger] streams[k]).schema.index_name == index
}

/// What a scenario must be: streams and groups, where there are any, are fine; phases last
/// long enough; and where events are ingested, the phases are those of an incident, and every
/// query goes to an index that a stream writes to. Where queries have weights, these add up to
/// one.
pub open spec fn well_formed(s: ScenarioView) -> bool {
    &&& s.streams matches Some(streams) ==> streams.len() > 0 && streams_are_fine(
        streams,
        s.phases,
    )
    &&& s.phases.len() > 0
    &&& forall|k: int|
        0 <= k < s.phases.len() ==> (#[trigger] s.phases[k]).duration_seconds >= MIN_PHASE_SECONDS
    &&& s.has_ingest() ==> {
        &&& validation::phase_names(s.phases) == validation::standard_phases()
        &&& forall|k: int|
            0 <= k < s.queries.len() ==> is_written(
                s.stream_list(),
                (#[trigger] s.queries[k]).index,
            )
    }
    &&& validation::some_weight(s.queries) ==> !validation::off_one(
        model::sum(validation::query_weights(s.queries)),
    )
    &&& s.groups matches Some(groups) ==> groups.len() > 0 && groups_are_fine(groups, s.queries)
}

proof fn about_phases_of_a_stream(
    acc: Seq<Seq<char>>,
    stream: StreamView,
    phases: Seq<PhaseView>,
    n: int,
)
    requires
        0 <= n <= phases.len(),
    ensures
        validation::missing_phases(acc, stream, phases, n).len() >= acc.len(),
        validation::missing_phases(acc, stream, phases, n).len() == acc.len() <==> forall|k: int|
            0 <= k < n ==> model::find(stream.ingest, (#[trigger] phases[k]).name) is Some,
    decreases n,
{
    if n > 0 {
        about_phases_of_a_stream(acc, stream, phases, n - 1);
    }
}

proof fn about_streams(
    acc: Seq<Seq<char>>,
    streams: Seq<StreamView>,
    phases: Seq<PhaseView>,
    n: int,
)
    requires
        0 <= n <= streams.len(),
    ensures
        validation::streams_complaints(acc, streams, phases, n).len() >= acc.len(),
        validation::streams_complaints(acc, streams, phases, n).len() == acc.len() <==> (forall|
            i: int,
        |
            0 <= i < n ==> stream_is_fine(#[trigger] streams[i], phases)
                && !validation::name_repeats(streams, i) && !validation::index_repeats(
                streams,
                i,
            )),
    decreases n,
{
    if n > 0 {
        let i = n - 1;
        let before = validation::streams_complaints(acc, streams, phases, i);
        about_streams(acc, streams, phases, i);
        let s = streams[i];
        let a = validation::complain(
            before,
            validation::name_repeats(streams, i),
            "Duplicate data stream name: '"@ + s.name + "'"@,
        );
        let b = validation::complain(
            a,
            validation::index_repeats(streams, i),
            "Duplicate index_name: '"@ + s.schema.index_name + "'"@,
        );
        let c = validation::complain(
            b,
            s.schema.fields.len() == 0,
            "Stream '"@ + s.name + "': schema must have at least one field"@,
        );
        let d = validation::complain(
            c,
            !validation::has_timestamp(s.schema),
            "Stream '"@ + s.name + "': timestamp field '"@ + s.schema.timestamp_field
                + "' not found in schema fields"@,
        );
        let e = validation::complain(
            d,
            s.ingest_replicas == 0,
            "Stream '"@ + s.name + "': ingest_replicas must be >= 1"@,
        );
        about_phases_of_a_stream(e, s, phases, phases.len() as int);
    }
}

proof fn about_durations(acc: Seq<Seq<char>>, phases: Seq<PhaseView>, n: int)
    requires
        0 <= n <= phases.len(),
    ensures
        validation::short_phases(acc, phases, n).len() >= acc.len(),
        validation::short_phases(acc, phases, n).len() == acc.len() <==> forall|k: int|
            0 <= k < n ==> (#[trigger] phases[k]).duration_seconds >= MIN_PHASE_SECONDS,
    decreases n,
{
    if n > 0 {
        about_durations(acc, phases, n - 1);
    }
}

proof fn about_queries(
    acc: Seq<Seq<char>>,
    queries: Seq<QueryView>,
    streams: Seq<StreamView>,
    n: int,
)
    requires
        0 <= n <= queries.len(),
    ensures
        ({
            let indexes = validation::distinct(validation::index_names(streams));
            let r = validation::lost_queries(acc, queries, indexes, n);
            &&& r.len() >= acc.len()
            &&& r.len() == acc.len() <==> forall|k: int|
                0 <= k < n ==> is_written(streams, (#[trigger] queries[k]).index)
        }),
    decreases n,
{
    if n > 0 {
        about_queries(acc, queries, streams, n - 1);
        let names = validation::index_names(streams);
        let index = queries[n - 1].index;
        validation::distinct_keeps_all(names, index);
        if names.contains(index) {
            let k = choose|k: int| 0 <= k < names.len() && names[k] == index;
            assert(streams[k].schema.index_name == index);
        }
        if is_written(streams, index) {
            let k = choose|k: int|
                0 <= k < streams.len() && (#[trigger] streams[k]).schema.index_name == index;
            assert(names[k] == index);
        }
    }
}

proof fn about_overrides(
    acc: Seq<Seq<char>>,
    group: Seq<char>,
    overrides: Seq<(Seq<char>, i64)>,
    queries: Seq<QueryView>,
    n: int,
)
    requires
        0 <= n <= overrides.len(),
    ensures
        validation::unknown_overrides(acc, group, overrides, queries, n).len() >= acc.len(),
        validation::unknown_overrides(acc, group, overrides, queries, n).len() == acc.len()
            <==> forall|k: int|
            0 <= k < n ==> validation::query_named(queries, (#[trigger] overrides[k]).0),
    decreases n,
{
    if n > 0 {
        about_overrides(acc, group, overrides, queries, n - 1);
    }
}

proof fn about_groups(
    acc: Seq<Seq<char>>,
    groups: Seq<GroupView>,
    queries: Seq<QueryView>,
    n: int,
)
    requires
        0 <= n <= groups.len(),
    ensures
        validation::groups_complaints(acc, groups, queries, n).len() >= acc.len(),
        validation::groups_complaints(acc, groups, queries, n).len() == acc.len() <==> (forall|
            i: int,
        |
            0 <= i < n ==> group_is_fine(#[trigger] groups[i], queries)
                && !validation::group_repeats(groups, i)),
    decreases n,
{
    if n > 0 {
        let i = n - 1;
        let before = validation::groups_complaints(acc, groups, queries, i);
        about_groups(acc, groups, queries, i);
        let g = groups[i];
        let a = validation::complain(
            before,
            validation::group_repeats(groups, i),
            "Duplicate query group name: '"@ + g.name + "'"@,
        );
        let b = validation::complain(
            a,
            g.weight_ppb <= 0,
            "Query group '"@ + g.name + "' weight must be positive, got "@
                + decimal::signed_shortest(g.weight_ppb as int, 9),
        );
        if g.mix_override is Some {
            let o = g.mix_override->0;
            about_overrides(b, g.name, o, queries, o.len() as int);
        }
    }
}

/// A scenario is accepted, with no complaint, exactly when it is well formed.
pub proof fn accepted_when_well_formed(s: ScenarioView)
    ensures
        s.complaints().len() == 0 <==> well_formed(s),
{
    let none = Seq::<Seq<char>>::empty();
    let a = match s.streams {
        Some(streams) => validation::streams_complaints(
            validation::complain(
                none,
                streams.len() == 0,
                "data_streams must have at least one stream if specified"@,
            ),
            streams,
            s.phases,
            streams.len() as int,
        ),
        None => none,
    };
    if s.streams is Some {
        let streams = s.streams->0;
        let start = validation::complain(
            none,
            streams.len() == 0,
            "data_streams must have at least one stream if specified"@,
        );
        about_streams(start, streams, s.phases, streams.len() as int);
        names_apart(streams, s.phases);
    }
    let b = validation::complain(a, s.phases.len() == 0, "Timeline must have at least one phase"@);
    let c = validation::complain(
        b,
        s.has_ingest() && validation::phase_names(s.phases) != validation::standard_phases(),
        "Timeline must have exactly these phases in order: ["@ + validation::quoted_items(
            validation::standard_phases(),
        ) + "], got: ["@ + validation::quoted_items(validation::phase_names(s.phases)) + "]"@,
    );
    about_durations(c, s.phases, s.phases.len() as int);
    let d = validation::short_phases(c, s.phases, s.phases.len() as int);
    about_queries(d, s.queries, s.stream_list(), s.queries.len() as int);
    let e = if s.has_ingest() {
        validation::lost_queries(
            d,
            s.queries,
            validation::distinct(validation::index_names(s.stream_list())),
            s.queries.len() as int,
        )
    } else {
        d
    };
    let given = model::sum(validation::query_weights(s.queries));
    let w = validation::complain(
        e,
        validation::some_weight(s.queries) && validation::off_one(given),
        "Query weights must sum to 1.0, got "@ + validation::weight_text(given),
    );
    if s.groups is Some {
        let groups = s.groups->0;
        let f = validation::complain(
            w,
            groups.len() == 0,
            "query_groups must have at least one group if specified"@,
        );
        let total = model::sum(validation::group_weights(groups));
        let g = validation::complain(
            f,
            validation::off_one(total),
            "Query group weights must sum to 1.0, got "@ + validation::weight_text(total),
        );
        about_groups(g, groups, s.queries, groups.len() as int);
        group_names_apart(groups, s.queries);
    }
}

proof fn names_apart(streams: Seq<StreamView>, phases: Seq<PhaseView>)
    ensures
        streams_are_fine(streams, phases) <==> (forall|i: int|
            0 <= i < streams.len() ==> stream_is_fine(#[trigger] streams[i], phases)
                && !validation::name_repeats(streams, i) && !validation::index_repeats(
                streams,
                i,
            )),
{
    if forall|i: int|
        0 <= i < streams.len() ==> stream_is_fine(#[trigger] streams[i], phases)
            && !validation::name_repeats(streams, i) && !validation::index_repeats(streams, i) {
        assert forall|i: int, j: int| 0 <= i < j < streams.len() implies (
        #[trigger] streams[i]).name != (#[trigger] streams[j]).name
            && streams[i].schema.index_name != streams[j].schema.index_name by {
            assert(!validation::name_repeats(streams, j));
            assert(!validation::index_repeats(streams, j));
        }
    }
}

proof fn group_names_apart(groups: Seq<GroupView>, queries: Seq<QueryView>)
    ensures
        groups_are_fine(groups, queries) <==> (!validation::off_one(
            model::sum(validation::group_weights(groups)),
        ) && forall|i: int|
            0 <= i < groups.len() ==> group_is_fine(#[trigger] groups[i], queries)
                && !validation::group_repeats(groups, i)),
{
    if forall|i: int|
        0 <= i < groups.len() ==> group_is_fine(#[trigger] groups[i], queries)
            && !validation::group_repeats(groups, i) {
        assert forall|i: int, j: int| 0 <= i < j < groups.len() implies (#[trigger] groups[i]).name
            != (#[trigger] groups[j]).name by {
            assert(!validation::group_repeats(groups, j));
        }
    }
}

} // verus!
