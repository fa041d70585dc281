//! What a run amounts to, how it is scaled, and how its rates are shared out among
//! workers.
use vstd::prelude::*;
use crate::model;
use crate::model::Duplicate;
use crate::scenario::{
    DataStream, GroupView, PhaseDef, PhaseView, QueryConfig, QueryDef, QueryGroup, QueryMix,
    QueryView, RateTableView, RateView, Scenario, ScenarioView, StreamPhaseIngest, StreamView,
    Timeline, WorkerPhaseRate, WorkerRateTable, ONE_PPB, ONE_PPM,
};

verus! {

// ---------------------------------------------------------------------------
// Totals
// ---------------------------------------------------------------------------

/// The events per second that a stream is to ingest in a phase; none where it says
/// nothing of that phase.
pub open spec fn phase_eps(stream: StreamView, phase: Seq<char>) -> nat {
    match model::find(stream.ingest, phase) {
        Some(i) => i.target_eps as nat,
        None => 0,
    }
}

/// The durations of the phases.
pub open spec fn durations(phases: Seq<PhaseView>) -> Seq<int> {
    phases.map_values(|p: PhaseView| p.duration_seconds as int)
}

/// What a stream ingests in each phase.
pub open spec fn stream_events(stream: StreamView, phases: Seq<PhaseView>) -> Seq<int> {
    phases.map_values(|p: PhaseView| phase_eps(stream, p.name) * p.duration_seconds)
}

/// What each stream ingests over all phases.
pub open spec fn events_by_stream(streams: Seq<StreamView>, phases: Seq<PhaseView>) -> Seq<int> {
    streams.map_values(|s: StreamView| model::sum(stream_events(s, phases)))
}

/// The workers of each stream.
pub open spec fn replicas_by_stream(streams: Seq<StreamView>) -> Seq<int> {
    streams.map_values(|s: StreamView| s.ingest_replicas as int)
}

/// The events per second of all streams in a phase.
pub open spec fn eps_by_stream(streams: Seq<StreamView>, phase: Seq<char>) -> Seq<int> {
    streams.map_values(|s: StreamView| phase_eps(s, phase) as int)
}

impl ScenarioView {
    /// How long the run takes, in seconds.
    pub open spec fn total_duration(self) -> int {
        model::sum(durations(self.phases))
    }

    /// How many events the run ingests at its target rates.
    pub open spec fn total_events(self) -> int {
        model::sum(events_by_stream(self.stream_list(), self.phases))
    }

    /// How many ingest workers there are.
    pub open spec fn total_replicas(self) -> int {
        model::sum(replicas_by_stream(self.stream_list()))
    }

    /// The events per second of all streams in a phase.
    pub open spec fn total_phase_eps(self, phase: Seq<char>) -> int {
        model::sum(eps_by_stream(self.stream_list(), phase))
    }

    /// The workers run sessions: one is given, or every query belongs to a category.
    pub open spec fn session_mode(self) -> bool {
        self.session is Some || (self.queries.len() > 0 && forall|k: int|
            0 <= k < self.queries.len() ==> (#[trigger] self.queries[k]).category is Some)
    }
}

/// What a stream is to ingest in a phase.
pub fn stream_phase_eps(stream: &DataStream, phase: &str) -> (r: u64)
    ensures
        r == phase_eps(stream@, phase@),
{
    match model::find_in(&stream.ingest, phase) {
        Some(i) => i.target_eps,
        None => 0,
    }
}

proof fn events_nonneg(stream: StreamView, phases: Seq<PhaseView>)
    ensures
        forall|k: int| 0 <= k < phases.len() ==> (#[trigger] stream_events(stream, phases)[k]) >= 0,
        model::sum(stream_events(stream, phases)) >= 0,
{
    let all = stream_events(stream, phases);
    assert forall|k: int| 0 <= k < phases.len() implies (#[trigger] all[k]) >= 0 by {
        assert(phase_eps(stream, phases[k].name) * phases[k].duration_seconds >= 0)
            by (nonlinear_arith)
            requires
                phase_eps(stream, phases[k].name) >= 0,
                phases[k].duration_seconds >= 0,
        ;
    }
    model::sum_nonneg(all);
}

fn events_of_stream(stream: &DataStream, phases: &Vec<PhaseDef>) -> (r: u64)
    requires
        model::sum(stream_events(stream@, model::vmap(phases@))) <= u64::MAX,
    ensures
        r == model::sum(stream_events(stream@, model::vmap(phases@))),
{
    let ghost all = stream_events(stream@, model::vmap(phases@));
    proof {
        events_nonneg(stream@, model::vmap(phases@));
    }
    let mut total: u64 = 0;
    let mut i: usize = 0;
    assert(all.take(0) =~= Seq::<int>::empty());
    while i < phases.len()
        invariant
            i <= phases@.len(),
            all == stream_events(stream@, model::vmap(phases@)),
            model::sum(all) <= u64::MAX,
            forall|k: int| 0 <= k < all.len() ==> (#[trigger] all[k]) >= 0,
            total == model::sum(all.take(i as int)),
        decreases phases@.len() - i,
    {
        let eps: u64 = stream_phase_eps(stream, phases[i].name.as_str());
        proof {
            model::sum_take(all, i as int);
            model::sum_prefix(all, i + 1);
            model::sum_prefix(all, i as int);
            assert(all[i as int] == eps * phases@[i as int].duration_seconds);
        }
        total = total + eps * phases[i].duration_seconds;
        i += 1;
    }
    assert(all.take(i as int) =~= all);
    total
}

impl Scenario {
    /// Whether the workers run sessions instead of keeping to a rate.
    pub fn is_session_mode(&self) -> (r: bool)
        ensures
            r == self@.session_mode(),
    {
        if self.query_session.is_some() {
            return true;
        }
        let queries = &self.query_mix.queries;
        let mut i: usize = 0;
        while i < queries.len()
            invariant
                i <= queries@.len(),
                self.query_session is None,
                self@.queries == model::vmap(queries@),
                forall|k: int| 0 <= k < i ==> (#[trigger] self@.queries[k]).category is Some,
            decreases queries@.len() - i,
        {
            assert(self@.queries[i as int] == queries@[i as int]@);
            if queries[i].category.is_none() {
                return false;
            }
            i += 1;
        }
        queries.len() > 0
    }

    /// How long the run takes, in seconds.
    pub fn total_duration_seconds(&self) -> (r: u64)
        requires
            self@.total_duration() <= u64::MAX,
        ensures
            r == self@.total_duration(),
    {
        let phases = &self.timeline.phases;
        let ghost all = durations(model::vmap(phases@));
        let mut total: u64 = 0;
        let mut i: usize = 0;
        assert(all.take(0) =~= Seq::<int>::empty());
        while i < phases.len()
            invariant
                i <= phases@.len(),
                all == durations(model::vmap(phases@)),
                model::sum(all) <= u64::MAX,
                total == model::sum(all.take(i as int)),
            decreases phases@.len() - i,
        {
            proof {
                model::sum_take(all, i as int);
                model::sum_prefix(all, i + 1);
                assert(all[i as int] == phases@[i as int].duration_seconds);
            }
            total = total + phases[i].duration_seconds;
            i += 1;
        }
        assert(all.take(i as int) =~= all);
        total
    }

    /// How many events the run ingests at its target rates.
    pub fn total_events_at_target(&self) -> (r: u64)
        requires
            self@.total_events() <= u64::MAX,
        ensures
            r == self@.total_events(),
    {
        match &self.data_streams {
            None => {
                assert(events_by_stream(self@.stream_list(), self@.phases) =~= Seq::<int>::empty());
                0
            },
            Some(streams) => {
                let phases = &self.timeline.phases;
                let ghost all = events_by_stream(model::vmap(streams@), model::vmap(phases@));
                let mut total: u64 = 0;
                let mut i: usize = 0;
                assert(all.take(0) =~= Seq::<int>::empty());
                proof {
                    assert forall|k: int| 0 <= k < all.len() implies (#[trigger] all[k]) >= 0 by {
                        events_nonneg(model::vmap(streams@)[k], model::vmap(phases@));
                    }
                }
                while i < streams.len()
                    invariant
                        i <= streams@.len(),
                        all == events_by_stream(model::vmap(streams@), model::vmap(phases@)),
                        model::sum(all) <= u64::MAX,
                        forall|k: int| 0 <= k < all.len() ==> (#[trigger] all[k]) >= 0,
                        total == model::sum(all.take(i as int)),
                    decreases streams@.len() - i,
                {
                    proof {
                        model::sum_take(all, i as int);
                        model::sum_prefix(all, i + 1);
                        model::sum_prefix(all, i as int);
                        assert(all[i as int] == model::sum(
                            stream_events(streams@[i as int]@, model::vmap(phases@)),
                        ));
                    }
                    total = total + events_of_stream(&streams[i], phases);
                    i += 1;
                }
                assert(all.take(i as int) =~= all);
                total
            },
        }
    }

    /// How many ingest workers there are.
    pub fn total_ingest_replicas(&self) -> (r: u32)
        requires
            self@.total_replicas() <= u32::MAX,
        ensures
            r == self@.total_replicas(),
    {
        match &self.data_streams {
            None => {
                assert(replicas_by_stream(self@.stream_list()) =~= Seq::<int>::empty());
                0
            },
            Some(streams) => {
                let ghost all = replicas_by_stream(model::vmap(streams@));
                let mut total: u32 = 0;
                let mut i: usize = 0;
                assert(all.take(0) =~= Seq::<int>::empty());
                while i < streams.len()
                    invariant
                        i <= streams@.len(),
                        all == replicas_by_stream(model::vmap(streams@)),
                        model::sum(all) <= u32::MAX,
                        total == model::sum(all.take(i as int)),
                    decreases streams@.len() - i,
                {
                    proof {
                        model::sum_take(all, i as int);
                        model::sum_prefix(all, i + 1);
                        assert(all[i as int] == streams@[i as int].ingest_replicas);
                    }
                    total = total + streams[i].ingest_replicas;
                    i += 1;
                }
                assert(all.take(i as int) =~= all);
                total
            },
        }
    }

    /// The events per second of all streams in a phase.
    pub fn phase_target_eps(&self, phase: &str) -> (r: u128)
        ensures
            r == self@.total_phase_eps(phase@),
    {
        match &self.data_streams {
            None => {
                assert(eps_by_stream(self@.stream_list(), phase@) =~= Seq::<int>::empty());
                0
            },
            Some(streams) => {
                let ghost all = eps_by_stream(model::vmap(streams@), phase@);
                let len: usize = streams.len();
                let mut total: u128 = 0;
                let mut i: usize = 0;
                assert(all.take(0) =~= Seq::<int>::empty());
                while i < len
                    invariant
                        i <= len == streams@.len(),
                        all == eps_by_stream(model::vmap(streams@), phase@),
                        total == model::sum(all.take(i as int)),
                        total <= i * 0xffff_ffff_ffff_ffff,
                    decreases len - i,
                {
                    proof {
                        model::sum_take(all, i as int);
                        assert(all[i as int] == phase_eps(streams@[i as int]@, phase@));
                    }
                    total = total + stream_phase_eps(&streams[i], phase) as u128;
                    i += 1;
                }
                assert(all.take(i as int) =~= all);
                total
            },
        }
    }
}

// ---------------------------------------------------------------------------
// Scaling
// ---------------------------------------------------------------------------

/// A number, or the greatest 64-bit number where it is greater.
pub open spec fn at_most_u64(n: int) -> int {
    if n > u64::MAX {
        u64::MAX as int
    } else {
        n
    }
}

/// `n` times `ppm` parts per million, rounded to the nearest whole number.
pub open spec fn scaled_count(n: int, ppm: int) -> int {
    at_most_u64((n * ppm + ONE_PPM / 2) / ONE_PPM as int)
}

/// A scaled duration: at least one second.
pub open spec fn scaled_duration(n: int, ppm: int) -> int {
    if scaled_count(n, ppm) < 1 {
        1
    } else {
        scaled_count(n, ppm)
    }
}

/// A number, or the greatest 128-bit number where it is greater.
pub open spec fn at_most_u128(n: int) -> int {
    if n > u128::MAX {
        u128::MAX as int
    } else {
        n
    }
}

/// A scaled rate of queries; what is under a unit is dropped.
pub open spec fn scaled_rate(n: int, ppm: int) -> int {
    at_most_u128((n * ppm) / ONE_PPM as int)
}

/// A phase with its duration and rate scaled.
pub open spec fn scaled_phase(p: PhaseView, duration_ppm: int, rate_ppm: int) -> PhaseView {
    PhaseView {
        duration_seconds: scaled_duration(p.duration_seconds as int, duration_ppm) as u64,
        target_pqps: scaled_rate(p.target_pqps as int, rate_ppm) as u128,
        ..p
    }
}

/// What is ingested in a phase, scaled.
pub open spec fn scaled_ingest(e: (Seq<char>, StreamPhaseIngest), rate_ppm: int) -> (
    Seq<char>,
    StreamPhaseIngest,
) {
    (
        e.0,
        StreamPhaseIngest {
            target_eps: scaled_count(e.1.target_eps as int, rate_ppm) as u64,
            batch_size: e.1.batch_size,
        },
    )
}

/// A stream with its rates scaled.
pub open spec fn scaled_stream(s: StreamView, rate_ppm: int) -> StreamView {
    StreamView {
        ingest: s.ingest.map_values(
            |e: (Seq<char>, StreamPhaseIngest)| scaled_ingest(e, rate_ppm),
        ),
        ..s
    }
}

impl ScenarioView {
    /// The scenario with its durations and its rates scaled, and nothing else changed.
    pub open spec fn scaled(self, duration_ppm: int, rate_ppm: int) -> ScenarioView {
        ScenarioView {
            phases: self.phases.map_values(
                |p: PhaseView| scaled_phase(p, duration_ppm, rate_ppm),
            ),
            streams: match self.streams {
                Some(s) => Some(s.map_values(|x: StreamView| scaled_stream(x, rate_ppm))),
                None => None,
            },
            ..self
        }
    }
}

fn scale_count(n: u64, ppm: u64) -> (r: u64)
    ensures
        r == scaled_count(n as int, ppm as int),
{
    assert(0 <= n * ppm <= 0xffff_ffff_ffff_ffff * 0xffff_ffff_ffff_ffff) by (nonlinear_arith)
        requires
            0 <= n <= 0xffff_ffff_ffff_ffff,
            0 <= ppm <= 0xffff_ffff_ffff_ffff,
    ;
    let p: u128 = (n as u128) * (ppm as u128);
    let q: u128 = (p + 500_000) / 1_000_000;
    if q > u64::MAX as u128 {
        u64::MAX
    } else {
        q as u64
    }
}

/// A product over a divisor, taken apart: `n` is so many times the divisor, and a rest.
proof fn product_by_parts(n: int, by: int, den: int)
    requires
        den > 0,
        by >= 0,
    ensures
        (n * by) / den == (n / den) * by + ((n % den) * by) / den,
{
    let q = n / den;
    let r = n % den;
    vstd::arithmetic::div_mod::lemma_fundamental_div_mod(n, den);
    let a = r * by;
    vstd::arithmetic::div_mod::lemma_fundamental_div_mod(a, den);
    vstd::arithmetic::div_mod::lemma_mod_bound(a, den);
    let e = a / den;
    let f = a % den;
    assert(n * by == (q * by + e) * den + f) by (nonlinear_arith)
        requires
            n == den * q + r,
            a == r * by,
            a == den * e + f,
    ;
    vstd::arithmetic::div_mod::lemma_fundamental_div_mod_converse(n * by, den, q * by + e, f);
}

fn scale_rate(n: u128, ppm: u64) -> (r: u128)
    ensures
        r == scaled_rate(n as int, ppm as int),
{
    let q: u128 = n / 1_000_000;
    let rest: u128 = n % 1_000_000;
    proof {
        product_by_parts(n as int, ppm as int, 1_000_000);
        assert(0 <= rest * ppm <= 1_000_000 * 0xffff_ffff_ffff_ffff) by (nonlinear_arith)
            requires
                0 <= rest <= 1_000_000,
                0 <= ppm <= 0xffff_ffff_ffff_ffff,
        ;
    }
    let small: u128 = (rest * ppm as u128) / 1_000_000;
    match times(q, ppm as u128) {
        Some(large) => if large > u128::MAX - small {
            u128::MAX
        } else {
            large + small
        },
        None => u128::MAX,
    }
}

/// A product, where it fits.
fn times(a: u128, b: u128) -> (r: Option<u128>)
    ensures
        match r {
            Some(p) => p == a * b,
            None => a * b > u128::MAX,
        },
{
    if b == 0 {
        assert(a * 0 == 0) by (nonlinear_arith);
        return Some(0);
    }
    let most: u128 = u128::MAX / b;
    proof {
        let m = u128::MAX as int;
        vstd::arithmetic::div_mod::lemma_fundamental_div_mod(m, b as int);
        let rest = m % (b as int);
        if a <= most {
            assert(0 <= a * b <= m) by (nonlinear_arith)
                requires
                    0 <= a <= most,
                    m == b * most + rest,
                    rest >= 0,
                    b > 0,
            ;
        } else {
            assert(a * b > m) by (nonlinear_arith)
                requires
                    a >= most + 1,
                    m == b * most + rest,
                    rest < b,
                    b > 0,
            ;
        }
    }
    if a > most {
        None
    } else {
        Some(a * b)
    }
}

fn scale_phases(phases: &Vec<PhaseDef>, duration_ppm: u64, rate_ppm: u64) -> (r: Vec<PhaseDef>)
    ensures
        model::vmap(r@) == model::vmap(phases@).map_values(
            |p: PhaseView| scaled_phase(p, duration_ppm as int, rate_ppm as int),
        ),
{
    broadcast use model::vmap_push, model::take_push;

    let ghost all = model::vmap(phases@).map_values(
        |p: PhaseView| scaled_phase(p, duration_ppm as int, rate_ppm as int),
    );
    let mut out: Vec<PhaseDef> = Vec::new();
    let mut i: usize = 0;
    assert(model::vmap(out@) =~= all.take(0));
    while i < phases.len()
        invariant
            i <= phases@.len(),
            all == model::vmap(phases@).map_values(
                |p: PhaseView| scaled_phase(p, duration_ppm as int, rate_ppm as int),
            ),
            model::vmap(out@) == all.take(i as int),
        decreases phases@.len() - i,
    {
        broadcast use model::vmap_push, model::take_push;

        let p = &phases[i];
        let d: u64 = scale_count(p.duration_seconds, duration_ppm);
        let copy = PhaseDef {
            name: p.name.clone(),
            display_name: p.display_name.clone(),
            duration_seconds: if d < 1 {
                1
            } else {
                d
            },
            query: QueryConfig {
                target_pqps: scale_rate(p.query.target_pqps, rate_ppm),
                mix_override: model::duplicate_opt_list(&p.query.mix_override),
            },
            description: p.description.clone(),
        };
        assert(copy@ == all[i as int]);
        out.push(copy);
        i += 1;
    }
    assert(all.take(i as int) =~= all);
    out
}

fn scale_entries(entries: &Vec<(String, StreamPhaseIngest)>, rate_ppm: u64) -> (r: Vec<
    (String, StreamPhaseIngest),
>)
    ensures
        model::vmap(r@) == model::vmap(entries@).map_values(
            |e: (Seq<char>, StreamPhaseIngest)| scaled_ingest(e, rate_ppm as int),
        ),
{
    broadcast use model::vmap_push, model::take_push;

    let ghost all = model::vmap(entries@).map_values(
        |e: (Seq<char>, StreamPhaseIngest)| scaled_ingest(e, rate_ppm as int),
    );
    let mut out: Vec<(String, StreamPhaseIngest)> = Vec::new();
    let mut i: usize = 0;
    assert(model::vmap(out@) =~= all.take(0));
    while i < entries.len()
        invariant
            i <= entries@.len(),
            all == model::vmap(entries@).map_values(
                |e: (Seq<char>, StreamPhaseIngest)| scaled_ingest(e, rate_ppm as int),
            ),
            model::vmap(out@) == all.take(i as int),
        decreases entries@.len() - i,
    {
        broadcast use model::vmap_push, model::take_push;

        let e = &entries[i];
        let copy = (
            e.0.clone(),
            StreamPhaseIngest {
                target_eps: scale_count(e.1.target_eps, rate_ppm),
                batch_size: e.1.batch_size,
            },
        );
        assert(copy@ == all[i as int]);
        out.push(copy);
        i += 1;
    }
    assert(all.take(i as int) =~= all);
    out
}

fn scale_streams(streams: &Vec<DataStream>, rate_ppm: u64) -> (r: Vec<DataStream>)
    ensures
        model::vmap(r@) == model::vmap(streams@).map_values(
            |x: StreamView| scaled_stream(x, rate_ppm as int),
        ),
{
    broadcast use model::vmap_push, model::take_push;

    let ghost all = model::vmap(streams@).map_values(
        |x: StreamView| scaled_stream(x, rate_ppm as int),
    );
    let mut out: Vec<DataStream> = Vec::new();
    let mut i: usize = 0;
    assert(model::vmap(out@) =~= all.take(0));
    while i < streams.len()
        invariant
            i <= streams@.len(),
            all == model::vmap(streams@).map_values(
                |x: StreamView| scaled_stream(x, rate_ppm as int),
            ),
            model::vmap(out@) == all.take(i as int),
        decreases streams@.len() - i,
    {
        broadcast use model::vmap_push, model::take_push;

        let mut copy = streams[i].duplicate();
        copy.ingest = scale_entries(&streams[i].ingest, rate_ppm);
        assert(copy@ == all[i as int]);
        out.push(copy);
        i += 1;
    }
    assert(all.take(i as int) =~= all);
    out
}

impl Scenario {
    /// The scenario with its durations and rates scaled. Both factors are in parts per
    /// million; a scaled phase lasts at least one second.
    pub fn with_scaling(&self, duration_ppm: u64, rate_ppm: u64) -> (r: Scenario)
        ensures
            r@ == self@.scaled(duration_ppm as int, rate_ppm as int),
    {
        let mut copy = self.duplicate();
        copy.timeline = Timeline {
            phases: scale_phases(&self.timeline.phases, duration_ppm, rate_ppm),
        };
        copy.data_streams = match &self.data_streams {
            Some(s) => Some(scale_streams(s, rate_ppm)),
            None => None,
        };
        copy
    }
}

/// Scaling changes magnitudes only: the phases keep their names and their order, the
/// streams their names, schemas and workers, and the queries, groups and rules stay.
pub proof fn scaling_keeps_the_shape(s: ScenarioView, duration_ppm: int, rate_ppm: int)
    ensures
        ({
            let t = s.scaled(duration_ppm, rate_ppm);
            &&& t.phases.len() == s.phases.len()
            &&& forall|i: int|
                0 <= i < s.phases.len() ==> (#[trigger] t.phases[i]).name == s.phases[i].name
                    && t.phases[i].display_name == s.phases[i].display_name
                    && t.phases[i].duration_seconds >= 1
            &&& t.has_ingest() == s.has_ingest()
            &&& t.stream_list().len() == s.stream_list().len()
            &&& forall|i: int|
                0 <= i < s.stream_list().len() ==> (#[trigger] t.stream_list()[i]).name
                    == s.stream_list()[i].name && t.stream_list()[i].schema
                    == s.stream_list()[i].schema && t.stream_list()[i].ingest_replicas
                    == s.stream_list()[i].ingest_replicas
            &&& t.queries == s.queries
            &&& t.groups == s.groups
            &&& t.rules == s.rules
            &&& t.session == s.session
        }),
{
}

/// Scaling by one changes nothing, where every phase lasts a second or more.
pub proof fn scaling_by_one(s: ScenarioView)
    requires
        forall|i: int| 0 <= i < s.phases.len() ==> (#[trigger] s.phases[i]).duration_seconds >= 1,
    ensures
        s.scaled(ONE_PPM as int, ONE_PPM as int) == s,
{
    let one = ONE_PPM as int;
    let t = s.scaled(one, one);
    assert forall|i: int| 0 <= i < s.phases.len() implies #[trigger] t.phases[i] == s.phases[i] by {
        let p = s.phases[i];
        assert(scaled_duration(p.duration_seconds as int, one) == p.duration_seconds);
        assert(scaled_rate(p.target_pqps as int, one) == p.target_pqps);
    }
    assert(t.phases =~= s.phases);
    if s.streams is Some {
        let a = s.streams->0;
        let b = t.streams->0;
        assert forall|i: int| 0 <= i < a.len() implies #[trigger] b[i] == a[i] by {
            assert forall|k: int| 0 <= k < a[i].ingest.len() implies #[trigger] b[i].ingest[k]
                == a[i].ingest[k] by {
                assert(scaled_count(a[i].ingest[k].1.target_eps as int, one)
                    == a[i].ingest[k].1.target_eps);
            }
            assert(b[i].ingest =~= a[i].ingest);
        }
        assert(b =~= a);
    }
}

/// Scaling a rate that is given in millionths of a query per second loses nothing.
pub proof fn scaling_rates_is_exact(uqps: int, ppm: int)
    requires
        0 <= uqps <= u64::MAX,
        0 <= ppm <= u64::MAX,
    ensures
        scaled_rate(uqps * 1_000_000, ppm) == uqps * ppm,
{
    product_by_parts(uqps * 1_000_000, ppm, 1_000_000);
    assert(0 <= uqps * ppm <= 0xffff_ffff_ffff_ffff * 0xffff_ffff_ffff_ffff) by (nonlinear_arith)
        requires
            0 <= uqps <= 0xffff_ffff_ffff_ffff,
            0 <= ppm <= 0xffff_ffff_ffff_ffff,
    ;
    assert((uqps * 1_000_000) / 1_000_000 == uqps && (uqps * 1_000_000) % 1_000_000 == 0);
    assert(0 * ppm == 0) by (nonlinear_arith);
}

// ---------------------------------------------------------------------------
// Shares
// ---------------------------------------------------------------------------

/// How many workers share a rate: one where none is given.
pub open spec fn sharers(workers: int) -> int {
    if workers < 1 {
        1
    } else {
        workers
    }
}

/// The part of a total that one worker takes on: an equal share, and for the last worker
/// also what is left over.
pub open spec fn share(total: int, workers: int, index: int) -> int {
    total / workers + if index == workers - 1 {
        total % workers
    } else {
        0
    }
}

/// The shares of the first `n` workers.
pub open spec fn shares(total: int, workers: int, n: int) -> Seq<int> {
    Seq::new(n as nat, |i: int| share(total, workers, i))
}

/// The shares of all workers add up to the total: nothing is lost, nothing done twice.
pub proof fn shares_add_up(total: int, workers: int)
    requires
        workers >= 1,
        total >= 0,
    ensures
        model::sum(shares(total, workers, workers)) == total,
{
    equal_shares(total, workers, workers - 1);
    let all = shares(total, workers, workers);
    assert(all.drop_last() =~= shares(total, workers, workers - 1));
    assert(all.last() == total / workers + total % workers);
    vstd::arithmetic::div_mod::lemma_fundamental_div_mod(total, workers);
    assert((workers - 1) * (total / workers) + (total / workers + total % workers) == total)
        by (nonlinear_arith)
        requires
            total == workers * (total / workers) + total % workers,
    ;
}

proof fn equal_shares(total: int, workers: int, n: int)
    requires
        workers >= 1,
        0 <= n <= workers - 1,
    ensures
        model::sum(shares(total, workers, n)) == n * (total / workers),
    decreases n,
{
    if n > 0 {
        equal_shares(total, workers, n - 1);
        let all = shares(total, workers, n);
        assert(all.drop_last() =~= shares(total, workers, n - 1));
        assert(all.last() == total / workers);
        assert(n * (total / workers) == (n - 1) * (total / workers) + total / workers)
            by (nonlinear_arith);
    } else {
        assert(shares(total, workers, 0) =~= Seq::<int>::empty());
        assert(0 * (total / workers) == 0) by (nonlinear_arith);
    }
}

/// A share is no more than the total.
pub proof fn share_bounds(total: int, workers: int, index: int)
    requires
        workers >= 1,
        total >= 0,
    ensures
        0 <= share(total, workers, index) <= total,
{
    vstd::arithmetic::div_mod::lemma_fundamental_div_mod(total, workers);
    assert(total / workers >= 0 && total / workers + total % workers <= total)
        by (nonlinear_arith)
        requires
            total == workers * (total / workers) + total % workers,
            workers >= 1,
            total >= 0,
            0 <= total % workers,
            total / workers >= 0 || total < 0,
    ;
}

fn share_of(total: u64, workers: u32, index: u32) -> (r: u64)
    requires
        workers >= 1,
    ensures
        r == share(total as int, workers as int, index as int),
{
    proof {
        share_bounds(total as int, workers as int, index as int);
    }
    let each: u64 = total / (workers as u64);
    if index == workers - 1 {
        each + total % (workers as u64)
    } else {
        each
    }
}

/// The rates of an ingest worker.
pub open spec fn ingest_table(
    phases: Seq<PhaseView>,
    stream: StreamView,
    index: u32,
) -> RateTableView {
    let workers = sharers(stream.ingest_replicas as int);
    RateTableView {
        worker_index: index,
        total_workers: workers as nat,
        phases: phases.map_values(
            |p: PhaseView|
                RateView {
                    phase_name: p.name,
                    duration_seconds: p.duration_seconds,
                    ingest_eps: share(
                        phase_eps(stream, p.name) as int,
                        workers,
                        index as int,
                    ) as nat,
                    query_mqps: 0,
                },
        ),
    }
}

/// What `part` parts per billion of a rate come to, in thousandths of a query per second.
pub open spec fn part_mqps(pqps: int, part: int) -> int {
    if part <= 0 {
        0
    } else {
        at_most_u64((pqps * part) / ONE_PPB as int / 1_000_000_000)
    }
}

/// The rates of a query worker among those that share `part` parts per billion of the
/// scenario's rate.
pub open spec fn query_table(
    phases: Seq<PhaseView>,
    part: int,
    workers: int,
    index: u32,
) -> RateTableView {
    RateTableView {
        worker_index: index,
        total_workers: sharers(workers) as nat,
        phases: phases.map_values(
            |p: PhaseView|
                RateView {
                    phase_name: p.name,
                    duration_seconds: p.duration_seconds,
                    ingest_eps: 0,
                    query_mqps: share(
                        part_mqps(p.target_pqps as int, part),
                        sharers(workers),
                        index as int,
                    ) as nat,
                },
        ),
    }
}

/// All parts of a rate are the rate, in thousandths.
pub proof fn whole_part(pqps: int)
    requires
        0 <= pqps,
    ensures
        part_mqps(pqps, ONE_PPB as int) == at_most_u64(pqps / 1_000_000_000),
{
    assert((pqps * 1_000_000_000) / 1_000_000_000 == pqps);
}

pub(crate) fn part_of_rate(pqps: u128, part: i64) -> (r: u64)
    ensures
        r == part_mqps(pqps as int, part as int),
{
    if part <= 0 {
        return 0;
    }
    let q: u128 = pqps / 1_000_000_000;
    let rest: u128 = pqps % 1_000_000_000;
    proof {
        product_by_parts(pqps as int, part as int, 1_000_000_000);
        assert(0 <= rest * part <= 1_000_000_000 * 0xffff_ffff_ffff_ffff) by (nonlinear_arith)
            requires
                0 <= rest <= 1_000_000_000,
                0 <= part <= 0xffff_ffff_ffff_ffff,
        ;
    }
    let small: u128 = (rest * part as u128) / 1_000_000_000;
    let whole: u128 = match times(q, part as u128) {
        Some(large) => if large > u128::MAX - small {
            u128::MAX
        } else {
            large + small
        },
        None => u128::MAX,
    };
    let r: u128 = whole / 1_000_000_000;
    if r > u64::MAX as u128 {
        u64::MAX
    } else {
        r as u64
    }
}

impl Scenario {
    /// The rates of one of a stream's ingest workers, phase by phase.
    pub fn compute_ingest_rate_table(&self, stream: &DataStream, worker_index: u32) -> (r:
        WorkerRateTable)
        ensures
            r@ == ingest_table(self@.phases, stream@, worker_index),
    {
        broadcast use model::vmap_push, model::take_push;

        let workers: u32 = if stream.ingest_replicas < 1 {
            1
        } else {
            stream.ingest_replicas
        };
        let phases = &self.timeline.phases;
        let ghost all = ingest_table(self@.phases, stream@, worker_index).phases;
        let mut out: Vec<WorkerPhaseRate> = Vec::new();
        let mut i: usize = 0;
        assert(model::vmap(out@) =~= all.take(0));
        while i < phases.len()
            invariant
                i <= phases@.len(),
                workers == sharers(stream@.ingest_replicas as int),
                all == ingest_table(model::vmap(phases@), stream@, worker_index).phases,
                model::vmap(out@) == all.take(i as int),
            decreases phases@.len() - i,
        {
            broadcast use model::vmap_push, model::take_push;

            let total: u64 = stream_phase_eps(stream, phases[i].name.as_str());
            let row = WorkerPhaseRate {
                phase_name: phases[i].name.clone(),
                duration_seconds: phases[i].duration_seconds,
                ingest_eps: share_of(total, workers, worker_index),
                query_mqps: 0,
            };
            assert(row@ == all[i as int]);
            out.push(row);
            i += 1;
        }
        assert(all.take(i as int) =~= all);
        WorkerRateTable { worker_index, total_workers: workers, phases: out }
    }

    /// The rates of one of the query workers, phase by phase.
    pub fn compute_query_rate_table(&self, query_workers: u32, worker_index: u32) -> (r:
        WorkerRateTable)
        ensures
            r@ == query_table(
                self@.phases,
                ONE_PPB as int,
                query_workers as int,
                worker_index,
            ),
    {
        self.compute_group_rate_table(ONE_PPB, query_workers, worker_index)
    }

    /// The rates of one of a group's query workers: the group has `weight_ppb` parts per
    /// billion of all queries.
    pub fn compute_group_rate_table(
        &self,
        weight_ppb: i64,
        query_workers: u32,
        worker_index: u32,
    ) -> (r: WorkerRateTable)
        ensures
            r@ == query_table(
                self@.phases,
                weight_ppb as int,
                query_workers as int,
                worker_index,
            ),
    {
        broadcast use model::vmap_push, model::take_push;

        let workers: u32 = if query_workers < 1 {
            1
        } else {
            query_workers
        };
        let phases = &self.timeline.phases;
        let ghost all = query_table(
            self@.phases,
            weight_ppb as int,
            query_workers as int,
            worker_index,
        ).phases;
        let mut out: Vec<WorkerPhaseRate> = Vec::new();
        let mut i: usize = 0;
        assert(model::vmap(out@) =~= all.take(0));
        while i < phases.len()
            invariant
                i <= phases@.len(),
                workers == sharers(query_workers as int),
                all == query_table(
                    model::vmap(phases@),
                    weight_ppb as int,
                    query_workers as int,
                    worker_index,
                ).phases,
                model::vmap(out@) == all.take(i as int),
            decreases phases@.len() - i,
        {
            broadcast use model::vmap_push, model::take_push;

            let total: u64 = part_of_rate(phases[i].query.target_pqps, weight_ppb);
            let row = WorkerPhaseRate {
                phase_name: phases[i].name.clone(),
                duration_seconds: phases[i].duration_seconds,
                ingest_eps: 0,
                query_mqps: share_of(total, workers, worker_index),
            };
            assert(row@ == all[i as int]);
            out.push(row);
            i += 1;
        }
        assert(all.take(i as int) =~= all);
        WorkerRateTable { worker_index, total_workers: workers, phases: out }
    }

    /// The queries that a group keeps to: those its weights name, or all.
    pub fn resolve_group_query_mix(&self, group: &QueryGroup) -> (r: QueryMix)
        ensures
            r@ == group_queries(self@.queries, group@),
    {
        match &group.mix_override {
            None => self.query_mix.duplicate(),
            Some(overrides) => {
                broadcast use model::vmap_push;

                let queries = &self.query_mix.queries;
                let ghost all = model::vmap(queries@);
                let ghost keep = |q: QueryView|
                    model::find(model::vmap(overrides@), q.name) is Some;
                let mut out: Vec<QueryDef> = Vec::new();
                let mut i: usize = 0;
                assert(model::vmap(out@) =~= all.take(0).filter(keep));
                while i < queries.len()
                    invariant
                        i <= queries@.len(),
                        all == model::vmap(queries@),
                        keep == (|q: QueryView|
                            model::find(model::vmap(overrides@), q.name) is Some),
                        model::vmap(out@) == all.take(i as int).filter(keep),
                    decreases queries@.len() - i,
                {
                    broadcast use model::vmap_push;

                    proof {
                        reveal(Seq::filter);
                        assert(all.take(i + 1).drop_last() =~= all.take(i as int));
                        assert(all.take(i + 1).last() == queries@[i as int]@);
                    }
                    if model::find_in(overrides, queries[i].name.as_str()).is_some() {
                        out.push(queries[i].duplicate());
                    }
                    i += 1;
                }
                assert(all.take(i as int) =~= all);
                QueryMix { queries: out }
            },
        }
    }
}

/// The queries that a group keeps to.
pub open spec fn group_queries(queries: Seq<QueryView>, group: GroupView) -> Seq<QueryView> {
    match group.mix_override {
        None => queries,
        Some(overrides) => queries.filter(
            |q: QueryView| model::find(overrides, q.name) is Some,
        ),
    }
}

} // verus!
