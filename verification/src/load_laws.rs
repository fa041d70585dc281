//! How the load of a scenario is shared: all workers together do what the scenario asks for.
use vstd::prelude::*;
use crate::model;
use crate::rates;
use crate::scenario::{GroupView, PhaseView, QueryView, ScenarioView, StreamView};
use crate::validity_laws::aimed_eps;

verus! {

/// What the first `n` ingest workers of a stream do in a phase together.
pub open spec fn done_by(phases: Seq<PhaseView>, s: StreamView, i: int, n: nat) -> int
    decreases n,
{
    if n == 0 {
        0
    } else {
        done_by(phases, s, i, (n - 1) as nat) + rates::ingest_table(
            phases,
            s,
            (n - 1) as u32,
        ).phases[i].ingest_eps
    }
}

/// What the first `n` of some query workers do in a phase together.
pub open spec fn asked_by(phases: Seq<PhaseView>, part: int, workers: int, i: int, n: nat) -> int
    decreases n,
{
    if n == 0 {
        0
    } else {
        asked_by(phases, part, workers, i, (n - 1) as nat) + rates::query_table(
            phases,
            part,
            workers,
            (n - 1) as u32,
        ).phases[i].query_mqps
    }
}

proof fn shares_sum(total: int, workers: int, n: int)
    requires
        workers >= 1,
        total >= 0,
        0 <= n <= workers,
    ensures
        0 <= rates::share(total, workers, n),
        n < workers ==> model::sum(rates::shares(total, workers, n + 1)) == model::sum(
            rates::shares(total, workers, n),
        ) + rates::share(total, workers, n),
{
    rates::share_bounds(total, workers, n);
    if n < workers {
        let all = rates::shares(total, workers, n + 1);
        assert(all.drop_last() =~= rates::shares(total, workers, n));
    }
}

proof fn done_is_shared(phases: Seq<PhaseView>, s: StreamView, i: int, n: nat)
    requires
        0 <= i < phases.len(),
        n <= s.ingest_replicas,
        s.ingest_replicas > 0,
    ensures
        done_by(phases, s, i, n) == model::sum(
            rates::shares(
                rates::phase_eps(s, phases[i].name) as int,
                s.ingest_replicas as int,
                n as int,
            ),
        ),
    decreases n,
{
    let total = rates::phase_eps(s, phases[i].name) as int;
    if n > 0 {
        done_is_shared(phases, s, i, (n - 1) as nat);
        shares_sum(total, s.ingest_replicas as int, n - 1);
    } else {
        assert(rates::shares(total, s.ingest_replicas as int, 0) =~= Seq::<int>::empty());
    }
}

/// The ingest workers of a stream together do what the stream aims at, in every phase; each
/// knows the phases by name and duration, and asks no queries.
pub proof fn ingest_workers_do_what_is_aimed_at(
    phases: Seq<PhaseView>,
    s: StreamView,
    i: int,
    w: u32,
)
    requires
        0 <= i < phases.len(),
        s.ingest_replicas > 0,
        w < s.ingest_replicas,
    ensures
        done_by(phases, s, i, s.ingest_replicas as nat) == match model::find(
            s.ingest,
            phases[i].name,
        ) {
            Some(e) => e.target_eps as int,
            None => 0,
        },
        ({
            let t = rates::ingest_table(phases, s, w);
            &&& t.worker_index == w
            &&& t.total_workers == s.ingest_replicas
            &&& t.phases.len() == phases.len()
            &&& t.phases[i].phase_name == phases[i].name
            &&& t.phases[i].duration_seconds == phases[i].duration_seconds
            &&& t.phases[i].query_mqps == 0
        }),
{
    let total = rates::phase_eps(s, phases[i].name) as int;
    done_is_shared(phases, s, i, s.ingest_replicas as nat);
    rates::shares_add_up(total, s.ingest_replicas as int);
}

/// No ingest worker does less than another by more than what cannot be shared evenly.
pub proof fn ingest_is_shared_evenly(phases: Seq<PhaseView>, s: StreamView, i: int, v: u32, w: u32)
    requires
        0 <= i < phases.len(),
        v < s.ingest_replicas,
        w < s.ingest_replicas,
    ensures
        rates::ingest_table(phases, s, v).phases[i].ingest_eps <= rates::ingest_table(
            phases,
            s,
            w,
        ).phases[i].ingest_eps + s.ingest_replicas,
{
    let total = rates::phase_eps(s, phases[i].name) as int;
    rates::share_bounds(total, s.ingest_replicas as int, v as int);
    rates::share_bounds(total, s.ingest_replicas as int, w as int);
}

proof fn asked_is_shared(phases: Seq<PhaseView>, part: int, workers: int, i: int, n: nat)
    requires
        0 <= i < phases.len(),
        1 <= workers <= u32::MAX,
        n <= workers,
    ensures
        asked_by(phases, part, workers, i, n) == model::sum(
            rates::shares(
                rates::part_mqps(phases[i].target_pqps as int, part),
                workers,
                n as int,
            ),
        ),
        rates::part_mqps(phases[i].target_pqps as int, part) >= 0,
    decreases n,
{
    let total = rates::part_mqps(phases[i].target_pqps as int, part);
    let product = phases[i].target_pqps * part;
    if part > 0 {
        assert(product >= 0) by (nonlinear_arith)
            requires
                product == phases[i].target_pqps * part,
                part > 0,
        ;
    }
    if n > 0 {
        asked_is_shared(phases, part, workers, i, (n - 1) as nat);
        shares_sum(total, workers, n - 1);
    } else {
        assert(rates::shares(total, workers, 0) =~= Seq::<int>::empty());
    }
}

/// The query workers that share a part of the scenario's rate together ask that part of it, in
/// whole thousandths of a query per second, in every phase.
pub proof fn query_workers_ask_what_is_aimed_at(
    phases: Seq<PhaseView>,
    part: int,
    workers: int,
    i: int,
    w: u32,
)
    requires
        0 <= i < phases.len(),
        1 <= workers <= u32::MAX,
        w < workers,
        part > 0,
        phases[i].target_pqps * part < 0x1_0000_0000_0000_0000 * 1_000_000_000_000_000_000,
    ensures
        ({
            let all = asked_by(phases, part, workers, i, workers as nat);
            all * 1_000_000_000_000_000_000 <= phases[i].target_pqps * part < (all + 1)
                * 1_000_000_000_000_000_000
        }),
        ({
            let t = rates::query_table(phases, part, workers, w);
            &&& t.worker_index == w
            &&& t.total_workers == workers
            &&& t.phases.len() == phases.len()
            &&& t.phases[i].phase_name == phases[i].name
            &&& t.phases[i].duration_seconds == phases[i].duration_seconds
            &&& t.phases[i].ingest_eps == 0
        }),
{
    let product = phases[i].target_pqps * part;
    assert(product >= 0) by (nonlinear_arith)
        requires
            product == phases[i].target_pqps * part,
            part > 0,
    ;
    asked_is_shared(phases, part, workers, i, workers as nat);
    rates::shares_add_up(rates::part_mqps(phases[i].target_pqps as int, part), workers);
    let q = product / 1_000_000_000 / 1_000_000_000;
    assert(q * 1_000_000_000_000_000_000 <= product < (q + 1) * 1_000_000_000_000_000_000);
    assert(q <= u64::MAX);
}

// ---------------------------------------------------------------------------
// Scaling
// ---------------------------------------------------------------------------

/// Scaled durations and ingest rates are the nearest whole numbers to what they are scaled to,
/// and no phase is shorter than a second.
pub proof fn scaling_rounds_to_the_nearest(
    s: ScenarioView,
    duration_ppm: u64,
    rate_ppm: u64,
    i: int,
)
    requires
        0 <= i < s.phases.len(),
        s.phases[i].duration_seconds * duration_ppm < 0xffff_ffff_ffff_ffff * 1_000_000,
    ensures
        ({
            let p = s.phases[i];
            let t = s.scaled(duration_ppm as int, rate_ppm as int).phases[i];
            let d = t.duration_seconds as int;
            &&& d >= 1
            &&& d > 1 ==> -1_000_000 <= 2 * (d * 1_000_000 - p.duration_seconds * duration_ppm)
                <= 1_000_000
            &&& d == 1 ==> 2 * p.duration_seconds * duration_ppm <= 3_000_000
            &&& p.target_pqps * rate_ppm <= u128::MAX ==> t.target_pqps * 1_000_000 <= p.target_pqps
                * rate_ppm < (t.target_pqps + 1) * 1_000_000
        }),
{
    let p = s.phases[i];
    let a = p.duration_seconds * duration_ppm;
    assert(a >= 0) by (nonlinear_arith)
        requires
            a == p.duration_seconds * duration_ppm,
    ;
    let b = p.target_pqps * rate_ppm;
    assert(b >= 0) by (nonlinear_arith)
        requires
            b == p.target_pqps * rate_ppm,
    ;
    assert(2 * p.duration_seconds * duration_ppm == 2 * a) by (nonlinear_arith)
        requires
            a == p.duration_seconds * duration_ppm,
    ;
}

/// What a stream ingests is scaled to the nearest whole number of events per second.
pub proof fn scaling_rounds_what_is_ingested(
    s: StreamView,
    duration_ppm: u64,
    rate_ppm: u64,
    k: int,
    all: ScenarioView,
    i: int,
)
    requires
        0 <= i < all.stream_list().len(),
        s == all.stream_list()[i],
        0 <= k < s.ingest.len(),
        s.ingest[k].1.target_eps * rate_ppm < 0xffff_ffff_ffff_ffff * 1_000_000,
    ensures
        ({
            let t = all.scaled(duration_ppm as int, rate_ppm as int).stream_list()[i];
            let e = t.ingest[k].1.target_eps as int;
            &&& t.ingest.len() == s.ingest.len()
            &&& t.ingest[k].0 == s.ingest[k].0
            &&& t.ingest[k].1.batch_size == s.ingest[k].1.batch_size
            &&& -1_000_000 <= 2 * (e * 1_000_000 - s.ingest[k].1.target_eps * rate_ppm)
                <= 1_000_000
        }),
{
    let a = s.ingest[k].1.target_eps * rate_ppm;
    assert(a >= 0) by (nonlinear_arith)
        requires
            a == s.ingest[k].1.target_eps * rate_ppm,
    ;
}

// ---------------------------------------------------------------------------
// Totals
// ---------------------------------------------------------------------------

/// How long the phases take together.
pub open spec fn length(phases: Seq<PhaseView>) -> int
    decreases phases.len(),
{
    if phases.len() == 0 {
        0
    } else {
        length(phases.drop_last()) + phases.last().duration_seconds
    }
}

/// The events that all streams aim at over all phases: in each phase their rates for its
/// duration.
pub open spec fn events_over(streams: Seq<StreamView>, phases: Seq<PhaseView>) -> int
    decreases phases.len(),
{
    if phases.len() == 0 {
        0
    } else {
        events_over(streams, phases.drop_last()) + aimed_eps(streams, phases.last().name)
            * phases.last().duration_seconds
    }
}

proof fn lengths_agree(phases: Seq<PhaseView>)
    ensures
        model::sum(rates::durations(phases)) == length(phases),
    decreases phases.len(),
{
    let all = rates::durations(phases);
    if phases.len() > 0 {
        lengths_agree(phases.drop_last());
        assert(all.drop_last() =~= rates::durations(phases.drop_last()));
    } else {
        assert(all =~= Seq::<int>::empty());
    }
}

spec fn one_stream(s: StreamView, phases: Seq<PhaseView>) -> int {
    model::sum(rates::stream_events(s, phases))
}

proof fn stream_goes_on(s: StreamView, phases: Seq<PhaseView>)
    requires
        phases.len() > 0,
    ensures
        one_stream(s, phases) == one_stream(s, phases.drop_last()) + rates::phase_eps(
            s,
            phases.last().name,
        ) * phases.last().duration_seconds,
{
    let all = rates::stream_events(s, phases);
    assert(all.drop_last() =~= rates::stream_events(s, phases.drop_last()));
}

proof fn streams_go_on(streams: Seq<StreamView>, phases: Seq<PhaseView>)
    requires
        phases.len() > 0,
    ensures
        model::sum(rates::events_by_stream(streams, phases)) == model::sum(
            rates::events_by_stream(streams, phases.drop_last()),
        ) + aimed_eps(streams, phases.last().name) * phases.last().duration_seconds,
    decreases streams.len(),
{
    let all = rates::events_by_stream(streams, phases);
    let before = rates::events_by_stream(streams, phases.drop_last());
    let d = phases.last().duration_seconds as int;
    if streams.len() > 0 {
        let front = streams.drop_last();
        streams_go_on(front, phases);
        assert(all.drop_last() =~= rates::events_by_stream(front, phases));
        assert(before.drop_last() =~= rates::events_by_stream(front, phases.drop_last()));
        stream_goes_on(streams.last(), phases);
        let x = aimed_eps(front, phases.last().name);
        let y = rates::phase_eps(streams.last(), phases.last().name) as int;
        assert((x + y) * d == x * d + y * d) by (nonlinear_arith);
    } else {
        assert(all =~= Seq::<int>::empty());
        assert(before =~= Seq::<int>::empty());
        assert(0 * d == 0) by (nonlinear_arith);
    }
}

proof fn events_agree(streams: Seq<StreamView>, phases: Seq<PhaseView>)
    ensures
        model::sum(rates::events_by_stream(streams, phases)) == events_over(streams, phases),
    decreases phases.len(),
{
    if phases.len() > 0 {
        events_agree(streams, phases.drop_last());
        streams_go_on(streams, phases);
    } else {
        nothing_is_ingested(streams, phases);
    }
}

proof fn nothing_is_ingested(streams: Seq<StreamView>, phases: Seq<PhaseView>)
    requires
        phases.len() == 0,
    ensures
        model::sum(rates::events_by_stream(streams, phases)) == 0,
    decreases streams.len(),
{
    let all = rates::events_by_stream(streams, phases);
    if streams.len() > 0 {
        nothing_is_ingested(streams.drop_last(), phases);
        assert(all.drop_last() =~= rates::events_by_stream(streams.drop_last(), phases));
        assert(rates::stream_events(streams.last(), phases) =~= Seq::<int>::empty());
    } else {
        assert(all =~= Seq::<int>::empty());
    }
}

/// A run takes as long as its phases, and is to ingest in each what its streams aim at for as
/// long as it takes.
pub proof fn runs_are_as_long_as_their_phases(s: ScenarioView)
    ensures
        s.total_duration() == length(s.phases),
        s.total_events() == events_over(s.stream_list(), s.phases),
{
    lengths_agree(s.phases);
    events_agree(s.stream_list(), s.phases);
}

/// A group keeps to the queries that its own mix names, and without one to all.
pub proof fn groups_keep_to_their_queries(queries: Seq<QueryView>, g: GroupView, q: QueryView)
    ensures
        g.mix_override is None ==> rates::group_queries(queries, g) == queries,
        g.mix_override matches Some(mix) ==> (rates::group_queries(queries, g).contains(q)
            <==> queries.contains(q) && model::find(mix, q.name) is Some),
{
    if let Some(mix) = g.mix_override {
        let named = |x: QueryView| model::find(mix, x.name) is Some;
        kept_are_named(queries, named, q);
    }
}

proof fn kept_are_named(s: Seq<QueryView>, f: spec_fn(QueryView) -> bool, q: QueryView)
    ensures
        s.filter(f).contains(q) <==> s.contains(q) && f(q),
    decreases s.len(),
{
    reveal(Seq::filter);
    if s.len() > 0 {
        let front = s.drop_last();
        kept_are_named(front, f, q);
        let before = front.filter(f);
        let all = s.filter(f);
        assert(s.contains(q) <==> front.contains(q) || s.last() == q) by {
            if s.contains(q) {
                let k = choose|k: int| 0 <= k < s.len() && s[k] == q;
                if k < front.len() {
                    assert(front[k] == q);
                }
            }
            if front.contains(q) {
                let k = choose|k: int| 0 <= k < front.len() && front[k] == q;
                assert(s[k] == q);
            }
            assert(s[s.len() - 1] == s.last());
        }
        if f(s.last()) {
            assert(all == before.push(s.last()));
            assert(all.contains(q) <==> before.contains(q) || s.last() == q) by {
                if all.contains(q) {
                    let k = choose|k: int| 0 <= k < all.len() && all[k] == q;
                    if k < before.len() {
                        assert(before[k] == q);
                    }
                }
                if before.contains(q) {
                    let k = choose|k: int| 0 <= k < before.len() && before[k] == q;
                    assert(all[k] == q);
                }
                assert(all[before.len() as int] == s.last());
            }
        }
    }
}

} // verus!
