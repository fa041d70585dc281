//! The phase controller: it knows the workers, starts the timeline when all are there, and
//! leads them through the phases together.
use vstd::prelude::*;
use vstd::string::*;
use crate::model;
use crate::rates;
use crate::text;

verus! {

/// How long before a transition the workers are asked to prepare, in milliseconds.
pub const PREPARE_LEAD_MS: u64 = 100;

/// How long the controller waits for the workers to be prepared, in milliseconds.
pub const PREPARE_TIMEOUT_MS: u64 = 2000;

/// How far ahead the moment of a transition lies, in nanoseconds.
pub const TRANSITION_LEAD_NS: i64 = 50_000_000;

/// What the phase controller is told.
pub struct PhaseControllerConfig {
    pub phases: Vec<PhaseSpec>,
    pub expected_ingest_workers: u32,
    pub expected_query_workers: u32,
    pub worker_connect_timeout_s: u64,
    pub checkpoint_path: Option<String>,
}

/// One phase, with the rates of a single worker.
pub struct PhaseSpec {
    pub name: String,
    pub duration_seconds: u64,
    pub per_worker_ingest_eps: u64,
    pub per_worker_query_mqps: u64,
}

pub struct PhaseSpecView {
    pub name: Seq<char>,
    pub duration_seconds: u64,
    pub per_worker_ingest_eps: u64,
    pub per_worker_query_mqps: u64,
}

impl View for PhaseSpec {
    type V = PhaseSpecView;

    open spec fn view(&self) -> PhaseSpecView {
        PhaseSpecView {
            name: self.name@,
            duration_seconds: self.duration_seconds,
            per_worker_ingest_eps: self.per_worker_ingest_eps,
            per_worker_query_mqps: self.per_worker_query_mqps,
        }
    }
}

/// How long the controller waits for workers where nothing is said, in seconds.
pub fn default_worker_timeout() -> (r: u64)
    ensures
        r == 300,
{
    300
}

/// All that the phase controller knows.
pub struct PhaseControllerService {
    pub phases: Vec<PhaseSpec>,
    pub expected_ingest_workers: u32,
    pub expected_query_workers: u32,
    /// The workers that are there, by name, with their modes.
    pub workers: Vec<(String, String)>,
    pub ready_ingest: u32,
    pub ready_query: u32,
    pub current_phase_index: usize,
    pub started: bool,
    pub timeline_complete: bool,
    /// The workers that have said that they are prepared for the coming transition.
    pub prepared: Vec<String>,
}

pub struct ControllerView {
    pub phases: Seq<PhaseSpecView>,
    pub expected_ingest_workers: u32,
    pub expected_query_workers: u32,
    pub workers: Seq<(Seq<char>, Seq<char>)>,
    pub ready_ingest: u32,
    pub ready_query: u32,
    pub current_phase_index: nat,
    pub started: bool,
    pub timeline_complete: bool,
    pub prepared: Seq<Seq<char>>,
}

impl View for PhaseControllerService {
    type V = ControllerView;

    open spec fn view(&self) -> ControllerView {
        ControllerView {
            phases: model::vmap(self.phases@),
            expected_ingest_workers: self.expected_ingest_workers,
            expected_query_workers: self.expected_query_workers,
            workers: model::vmap(self.workers@),
            ready_ingest: self.ready_ingest,
            ready_query: self.ready_query,
            current_phase_index: self.current_phase_index as nat,
            started: self.started,
            timeline_complete: self.timeline_complete,
            prepared: text::views(self.prepared@),
        }
    }
}

/// One more, as far as there is room.
pub open spec fn one_more(n: u32) -> u32 {
    if n == u32::MAX {
        n
    } else {
        (n + 1) as u32
    }
}

/// One less, as far as there is one.
pub open spec fn one_less(n: u32) -> u32 {
    if n == 0 {
        n
    } else {
        (n - 1) as u32
    }
}

/// The table without the first entry of that name.
pub open spec fn without(entries: Seq<(Seq<char>, Seq<char>)>, key: Seq<char>) -> Seq<
    (Seq<char>, Seq<char>),
>
    decreases entries.len(),
{
    if entries.len() == 0 {
        entries
    } else if entries[0].0 == key {
        entries.skip(1)
    } else {
        seq![entries[0]] + without(entries.skip(1), key)
    }
}

impl ControllerView {
    /// That phase is being left: it stands before the one that comes.
    pub open spec fn leaves(self, phase: Seq<char>) -> bool {
        0 < self.current_phase_index <= self.phases.len() && phase
            == self.phases[self.current_phase_index - 1].name
    }

    /// The worker's answer, for the phase that it leaves.
    pub open spec fn with_answer(self, id: Seq<char>, phase: Seq<char>) -> ControllerView {
        if self.leaves(phase) {
            ControllerView { prepared: self.prepared.push(id), ..self }
        } else {
            self
        }
    }

    /// Every worker that is there has answered.
    pub open spec fn all_prepared(self) -> bool {
        forall|k: int|
            0 <= k < self.workers.len() ==> self.prepared.contains((#[trigger] self.workers[k]).0)
    }

    /// The transition goes on after so long.
    pub open spec fn goes_on(self, waited_ms: u64) -> bool {
        waited_ms >= PREPARE_TIMEOUT_MS || (waited_ms >= PREPARE_LEAD_MS && self.all_prepared())
    }

    /// As many workers are ready as are expected.
    pub open spec fn all_ready(self) -> bool {
        self.ready_ingest >= self.expected_ingest_workers && self.ready_query
            >= self.expected_query_workers
    }

    /// The worker is there and ready.
    pub open spec fn with_worker(self, id: Seq<char>, mode: Seq<char>) -> ControllerView {
        ControllerView {
            workers: model::bind(self.workers, id, mode),
            ready_ingest: if mode == "ingest"@ {
                one_more(self.ready_ingest)
            } else {
                self.ready_ingest
            },
            ready_query: if mode == "query"@ {
                one_more(self.ready_query)
            } else {
                self.ready_query
            },
            ..self
        }
    }

    /// The worker is gone without having said that it was done.
    pub open spec fn without_worker(self, id: Seq<char>) -> ControllerView {
        match model::find(self.workers, id) {
            None => self,
            Some(mode) => ControllerView {
                workers: without(self.workers, id),
                ready_ingest: if mode == "ingest"@ {
                    one_less(self.ready_ingest)
                } else {
                    self.ready_ingest
                },
                ready_query: if mode == "query"@ {
                    one_less(self.ready_query)
                } else {
                    self.ready_query
                },
                ..self
            },
        }
    }
}

fn remove_worker(workers: &mut Vec<(String, String)>, id: &str) -> (r: Option<String>)
    ensures
        match r {
            Some(mode) => model::find(model::vmap(old(workers)@), id@) == Some(mode@),
            None => model::find(model::vmap(old(workers)@), id@) is None,
        },
        model::vmap(final(workers)@) == without(model::vmap(old(workers)@), id@),
{
    let ghost all = model::vmap(workers@);
    match model::position(workers, id) {
        Some(i) => {
            proof {
                model::bind_first(all, id@, i as int, all[i as int].1);
                without_first(all, id@, i as int);
                assert(all[i as int] == workers@[i as int]@);
            }
            let e = workers.remove(i);
            assert(model::vmap(workers@) =~= all.remove(i as int));
            Some(e.1)
        },
        None => {
            proof {
                model::bind_fresh(all, id@, ""@);
                without_none(all, id@);
            }
            None
        },
    }
}

proof fn without_first(entries: Seq<(Seq<char>, Seq<char>)>, key: Seq<char>, i: int)
    requires
        model::is_first(entries, key, i),
    ensures
        without(entries, key) == entries.remove(i),
    decreases entries.len(),
{
    if i == 0 {
        assert(entries.skip(1) =~= entries.remove(0));
    } else {
        let rest = entries.skip(1);
        assert(entries[0].0 != key);
        assert forall|k: int| 0 <= k < i - 1 implies (#[trigger] rest[k]).0 != key by {
            assert(rest[k] == entries[k + 1]);
        }
        without_first(rest, key, i - 1);
        assert(seq![entries[0]] + rest.remove(i - 1) =~= entries.remove(i));
    }
}

proof fn without_none(entries: Seq<(Seq<char>, Seq<char>)>, key: Seq<char>)
    requires
        model::lacks(entries, key),
    ensures
        without(entries, key) == entries,
    decreases entries.len(),
{
    if entries.len() > 0 {
        let rest = entries.skip(1);
        assert forall|k: int| 0 <= k < rest.len() implies (#[trigger] rest[k]).0 != key by {
            assert(rest[k] == entries[k + 1]);
        }
        assert(entries[0].0 != key);
        without_none(rest, key);
        assert(seq![entries[0]] + rest =~= entries);
    }
}

// ---------------------------------------------------------------------------
// The timeline
// ---------------------------------------------------------------------------

/// What is done for one phase.
pub struct PhasePlan {
    pub index: usize,
    /// The phase before, empty for the first.
    pub from_phase: String,
    pub to_phase: String,
    /// Whether the workers are asked to prepare first.
    pub prepare: bool,
    pub ingest_rate: u64,
    pub query_rate: u64,
    pub duration_seconds: u64,
}

pub struct PlanView {
    pub index: int,
    pub from_phase: Seq<char>,
    pub to_phase: Seq<char>,
    pub prepare: bool,
    pub ingest_rate: u64,
    pub query_rate: u64,
    pub duration_seconds: u64,
}

impl View for PhasePlan {
    type V = PlanView;

    open spec fn view(&self) -> PlanView {
        PlanView {
            index: self.index as int,
            from_phase: self.from_phase@,
            to_phase: self.to_phase@,
            prepare: self.prepare,
            ingest_rate: self.ingest_rate,
            query_rate: self.query_rate,
            duration_seconds: self.duration_seconds,
        }
    }
}

/// What is done for the `i`-th phase. Before every phase but the first the workers are
/// asked to prepare.
pub open spec fn phase_plan(phases: Seq<PhaseSpecView>, i: int) -> PlanView {
    PlanView {
        index: i,
        from_phase: if i > 0 {
            phases[i - 1].name
        } else {
            Seq::empty()
        },
        to_phase: phases[i].name,
        prepare: i > 0,
        ingest_rate: phases[i].per_worker_ingest_eps,
        query_rate: phases[i].per_worker_query_mqps,
        duration_seconds: phases[i].duration_seconds,
    }
}

/// The phases that are still to be run, in order, where those before `resume` are done.
pub open spec fn timeline(phases: Seq<PhaseSpecView>, resume: int) -> Seq<PlanView> {
    if resume >= phases.len() {
        Seq::empty()
    } else {
        Seq::new((phases.len() - resume) as nat, |k: int| phase_plan(phases, resume + k))
    }
}

/// The rate that a worker of that mode is given.
pub open spec fn rate_for(p: PlanView, mode: Seq<char>) -> u64 {
    if mode == "ingest"@ {
        p.ingest_rate
    } else if mode == "query"@ {
        p.query_rate
    } else {
        0
    }
}

/// The phase at which a run goes on after a restart: the one that was noted, or the first.
pub open spec fn resume_at(checkpoint: Option<Seq<char>>) -> nat {
    match checkpoint {
        Some(t) => match text::unsigned(text::trimmed(t)) {
            Some(n) => if n <= usize::MAX {
                n
            } else {
                0
            },
            None => 0,
        },
        None => 0,
    }
}

/// The phase at which a run goes on after a restart.
pub fn resume_phase(checkpoint: &Option<String>) -> (r: usize)
    ensures
        r == resume_at(text::opt_view(*checkpoint)),
{
    match checkpoint {
        Some(t) => {
            let clean = text::trim(t.as_str());
            match text::parse_u64(clean.as_str()) {
                Some(n) => if n <= usize::MAX as u64 {
                    n as usize
                } else {
                    0
                },
                None => 0,
            }
        },
        None => 0,
    }
}

/// What is noted while a phase runs.
pub fn checkpoint_text(index: usize) -> (r: String)
    ensures
        r@ == text::decimal(index as nat),
{
    text::decimal_usize(index)
}

impl PhasePlan {
    /// The rate that a worker of that mode is given.
    pub fn rate_for(&self, mode: &str) -> (r: u64)
        ensures
            r == rate_for(self@, mode@),
    {
        if text::same(mode, "ingest") {
            self.ingest_rate
        } else if text::same(mode, "query") {
            self.query_rate
        } else {
            0
        }
    }
}

/// How far a run is, for those who ask.
pub struct StatusResponse {
    pub state: &'static str,
    pub current_phase: String,
    pub phase_elapsed_seconds: u64,
    pub total_elapsed_seconds: u64,
    pub total_duration_seconds: u64,
    pub connected_ingest_workers: u32,
    pub connected_query_workers: u32,
    pub timeline_complete: bool,
}

/// The durations of the phases.
pub open spec fn phase_durations(phases: Seq<PhaseSpecView>) -> Seq<int> {
    phases.map_values(|p: PhaseSpecView| p.duration_seconds as int)
}

/// The phase that is going on.
pub open spec fn current_phase(c: ControllerView) -> Seq<char> {
    if c.current_phase_index < c.phases.len() {
        c.phases[c.current_phase_index as int].name
    } else {
        "complete"@
    }
}

/// What a run is doing.
pub open spec fn state_name(c: ControllerView) -> Seq<char> {
    if c.timeline_complete {
        "complete"@
    } else if c.started {
        "running"@
    } else {
        "waiting"@
    }
}

impl PhaseControllerService {
    /// The phase controller before any worker is there.
    pub fn new(config: PhaseControllerConfig) -> (r: Self)
        ensures
            r@ == (ControllerView {
                phases: model::vmap(config.phases@),
                expected_ingest_workers: config.expected_ingest_workers,
                expected_query_workers: config.expected_query_workers,
                workers: Seq::empty(),
                ready_ingest: 0,
                ready_query: 0,
                current_phase_index: 0,
                started: false,
                timeline_complete: false,
                prepared: Seq::empty(),
            }),
    {
        let r = PhaseControllerService {
            phases: config.phases,
            expected_ingest_workers: config.expected_ingest_workers,
            expected_query_workers: config.expected_query_workers,
            workers: Vec::new(),
            ready_ingest: 0,
            ready_query: 0,
            current_phase_index: 0,
            started: false,
            timeline_complete: false,
            prepared: Vec::new(),
        };
        assert(r@.workers =~= Seq::empty());
        assert(r@.prepared =~= Seq::empty());
        r
    }

    /// A worker says that it is ready. Gives whether the timeline can start.
    pub fn worker_ready(&mut self, id: &str, mode: &str) -> (r: bool)
        ensures
            final(self)@ == old(self)@.with_worker(id@, mode@),
            r == final(self)@.all_ready(),
    {
        model::bind_entry(&mut self.workers, id, text::owned(mode));
        if text::same(mode, "ingest") {
            if self.ready_ingest < u32::MAX {
                self.ready_ingest = self.ready_ingest + 1;
            }
        } else if text::same(mode, "query") {
            if self.ready_query < u32::MAX {
                self.ready_query = self.ready_query + 1;
            }
        }
        proof {
            reveal_strlit("ingest");
            reveal_strlit("query");
            assert("ingest"@.len() != "query"@.len());
        }
        self.ready_ingest >= self.expected_ingest_workers && self.ready_query
            >= self.expected_query_workers
    }

    /// A worker says that it is prepared to leave a phase. It counts where that is the phase
    /// that is being left.
    pub fn worker_prepared(&mut self, id: &str, phase: &str)
        ensures
            final(self)@ == old(self)@.with_answer(id@, phase@),
    {
        broadcast use model::views_push;

        let at: usize = self.current_phase_index;
        if 0 < at && at <= self.phases.len() {
            assert(self@.phases[at - 1] == self.phases@[at - 1]@);
            if text::same(phase, self.phases[at - 1].name.as_str()) {
                self.prepared.push(text::owned(id));
            }
        }
    }

    /// A worker says that it is done. It is no longer led.
    pub fn worker_done(&mut self, id: &str)
        ensures
            final(self)@ == (ControllerView {
                workers: without(old(self)@.workers, id@),
                ..old(self)@
            }),
    {
        let _ = remove_worker(&mut self.workers, id);
    }

    /// The connection to a worker is gone. Gives whether the worker was still there.
    pub fn worker_disconnected(&mut self, id: &str) -> (r: bool)
        ensures
            final(self)@ == if id@.len() == 0 {
                old(self)@
            } else {
                old(self)@.without_worker(id@)
            },
            r == (id@.len() > 0 && model::find(old(self)@.workers, id@) is Some),
    {
        if id.is_empty() {
            return false;
        }
        proof {
            reveal_strlit("ingest");
            reveal_strlit("query");
            assert("ingest"@.len() != "query"@.len());
        }
        let ghost before = self@.workers;
        match remove_worker(&mut self.workers, id) {
            None => {
                proof {
                    lacks_when_not_found(before, id@);
                    without_none(before, id@);
                }
                false
            },
            Some(mode) => {
                if text::same(mode.as_str(), "ingest") {
                    if self.ready_ingest > 0 {
                        self.ready_ingest = self.ready_ingest - 1;
                    }
                } else if text::same(mode.as_str(), "query") {
                    if self.ready_query > 0 {
                        self.ready_query = self.ready_query - 1;
                    }
                }
                true
            },
        }
    }

    /// The timeline starts.
    pub fn start(&mut self)
        ensures
            final(self)@ == (ControllerView { started: true, ..old(self)@ }),
    {
        self.started = true;
    }

    /// A phase comes: nobody is prepared for it yet.
    pub fn enter_phase(&mut self, index: usize)
        ensures
            final(self)@ == (ControllerView {
                current_phase_index: index as nat,
                prepared: Seq::empty(),
                ..old(self)@
            }),
    {
        self.current_phase_index = index;
        self.prepared = Vec::new();
        assert(self@.prepared =~= Seq::empty());
    }

    fn has_answered(&self, id: &str) -> (r: bool)
        ensures
            r == self@.prepared.contains(id@),
    {
        let ghost all = self@.prepared;
        let mut i: usize = 0;
        while i < self.prepared.len()
            invariant
                i <= self.prepared@.len(),
                all == text::views(self.prepared@),
                forall|k: int| 0 <= k < i ==> #[trigger] all[k] != id@,
            decreases self.prepared@.len() - i,
        {
            assert(all[i as int] == self.prepared@[i as int]@);
            if text::same(self.prepared[i].as_str(), id) {
                return true;
            }
            i += 1;
        }
        false
    }

    /// Whether every worker that is there has said that it is prepared for the transition.
    pub fn all_prepared(&self) -> (r: bool)
        ensures
            r == self@.all_prepared(),
    {
        let ghost all = self@.workers;
        let mut i: usize = 0;
        while i < self.workers.len()
            invariant
                i <= self.workers@.len(),
                all == model::vmap(self.workers@),
                forall|k: int|
                    0 <= k < i ==> self@.prepared.contains((#[trigger] all[k]).0),
            decreases self.workers@.len() - i,
        {
            assert(all[i as int] == self.workers@[i as int]@);
            if !self.has_answered(self.workers[i].0.as_str()) {
                assert(!self@.prepared.contains(self@.workers[i as int].0));
                return false;
            }
            i += 1;
        }
        true
    }

    /// Whether the transition goes on: after its lead time all workers are prepared, or they
    /// have had their time.
    pub fn goes_on(&self, waited_ms: u64) -> (r: bool)
        ensures
            r == self@.goes_on(waited_ms),
    {
        waited_ms >= PREPARE_TIMEOUT_MS || (waited_ms >= PREPARE_LEAD_MS && self.all_prepared())
    }

    /// The timeline is over.
    pub fn finish(&mut self)
        ensures
            final(self)@ == (ControllerView { timeline_complete: true, ..old(self)@ }),
    {
        self.timeline_complete = true;
    }

    /// The phases that are still to be run, in order, where those before `resume` are done.
    pub fn plan_timeline(&self, resume: usize) -> (r: Vec<PhasePlan>)
        ensures
            model::vmap(r@) == timeline(self@.phases, resume as int),
    {
        let ghost pv = self@.phases;
        let ghost want = timeline(pv, resume as int);
        let mut out: Vec<PhasePlan> = Vec::new();
        let mut i: usize = resume;
        assert(model::vmap(out@) =~= want.take(0));
        while i < self.phases.len()
            invariant
                resume <= i,
                resume < self.phases@.len() ==> i <= self.phases@.len(),
                resume >= self.phases@.len() ==> i == resume,
                pv == model::vmap(self.phases@),
                want == timeline(pv, resume as int),
                model::vmap(out@) == want.take(i - resume),
            decreases self.phases@.len() - i,
        {
            broadcast use model::vmap_push, model::take_push;

            let p = &self.phases[i];
            assert(pv[i as int] == p@);
            if i > 0 {
                assert(pv[i - 1] == self.phases@[i - 1]@);
            }
            let from_phase = if i > 0 {
                self.phases[i - 1].name.clone()
            } else {
                String::new()
            };
            let plan = PhasePlan {
                index: i,
                from_phase,
                to_phase: p.name.clone(),
                prepare: i > 0,
                ingest_rate: p.per_worker_ingest_eps,
                query_rate: p.per_worker_query_mqps,
                duration_seconds: p.duration_seconds,
            };
            assert(plan@.from_phase =~= phase_plan(pv, i as int).from_phase);
            assert(plan@ == want[i - resume]);
            out.push(plan);
            i += 1;
        }
        assert(want.take(i - resume) =~= want);
        out
    }

    /// How far the run is, given how long it and its phase have been going on.
    pub fn get_status(&self, total_elapsed: Option<u64>, phase_elapsed: Option<u64>) -> (r:
        StatusResponse)
        ensures
            r.state@ == state_name(self@),
            r.current_phase@ == current_phase(self@),
            r.phase_elapsed_seconds == (match phase_elapsed {
                Some(s) => s,
                None => 0,
            }),
            r.total_elapsed_seconds == (match total_elapsed {
                Some(s) => s,
                None => 0,
            }),
            r.total_duration_seconds == rates::at_most_u64(
                model::sum(phase_durations(self@.phases)),
            ),
            r.connected_ingest_workers == self.ready_ingest,
            r.connected_query_workers == self.ready_query,
            r.timeline_complete == self.timeline_complete,
    {
        let ghost all = phase_durations(self@.phases);
        let len: usize = self.phases.len();
        let mut total: u128 = 0;
        let mut i: usize = 0;
        assert(all.take(0) =~= Seq::<int>::empty());
        while i < len
            invariant
                i <= len == self.phases@.len(),
                all == phase_durations(self@.phases),
                total == model::sum(all.take(i as int)),
                total <= i * 0xffff_ffff_ffff_ffff,
            decreases len - i,
        {
            proof {
                model::sum_take(all, i as int);
                assert(all[i as int] == self.phases@[i as int].duration_seconds);
            }
            total = total + self.phases[i].duration_seconds as u128;
            i += 1;
        }
        assert(all.take(i as int) =~= all);
        let current = if self.current_phase_index < self.phases.len() {
            self.phases[self.current_phase_index].name.clone()
        } else {
            text::owned("complete")
        };
        StatusResponse {
            state: if self.timeline_complete {
                "complete"
            } else if self.started {
                "running"
            } else {
                "waiting"
            },
            current_phase: current,
            phase_elapsed_seconds: match phase_elapsed {
                Some(s) => s,
                None => 0,
            },
            total_elapsed_seconds: match total_elapsed {
                Some(s) => s,
                None => 0,
            },
            total_duration_seconds: if total > u64::MAX as u128 {
                u64::MAX
            } else {
                total as u64
            },
            connected_ingest_workers: self.ready_ingest,
            connected_query_workers: self.ready_query,
            timeline_complete: self.timeline_complete,
        }
    }

    /// What is said when not all workers came in time.
    pub fn timeout_message(&self, timeout_s: u64) -> (r: String)
        ensures
            r@ == timeout_text(self@, timeout_s as nat),
    {
        let mut m = text::join5(
            "Timed out waiting for workers after ",
            text::decimal_u64(timeout_s).as_str(),
            "s. Connected: ",
            text::decimal_u64(self.ready_ingest as u64).as_str(),
            " ingest (expected ",
        );
        m.append(text::decimal_u64(self.expected_ingest_workers as u64).as_str());
        m.append("), ");
        m.append(text::decimal_u64(self.ready_query as u64).as_str());
        m.append(" query (expected ");
        m.append(text::decimal_u64(self.expected_query_workers as u64).as_str());
        m.append(")");
        m
    }
}

/// What is said when not all workers came in time.
pub open spec fn timeout_text(c: ControllerView, timeout_s: nat) -> Seq<char> {
    "Timed out waiting for workers after "@ + text::decimal(timeout_s) + "s. Connected: "@
        + text::decimal(c.ready_ingest as nat) + " ingest (expected "@ + text::decimal(
        c.expected_ingest_workers as nat,
    ) + "), "@ + text::decimal(c.ready_query as nat) + " query (expected "@ + text::decimal(
        c.expected_query_workers as nat,
    ) + ")"@
}

/// The moment of a transition, a little ahead of now.
pub fn transition_time(now_ns: i64) -> (r: i64)
    requires
        now_ns <= i64::MAX - TRANSITION_LEAD_NS,
    ensures
        r == now_ns + TRANSITION_LEAD_NS,
{
    now_ns + TRANSITION_LEAD_NS
}

proof fn lacks_when_not_found(entries: Seq<(Seq<char>, Seq<char>)>, key: Seq<char>)
    requires
        model::find(entries, key) is None,
    ensures
        model::lacks(entries, key),
    decreases entries.len(),
{
    if entries.len() > 0 {
        let rest = entries.skip(1);
        lacks_when_not_found(rest, key);
        assert forall|k: int| 0 <= k < entries.len() implies (#[trigger] entries[k]).0 != key by {
            if k > 0 {
                assert(rest[k - 1] == entries[k]);
            }
        }
    }
}

/// A worker that comes and goes leaves no trace: who is there, and how many are ready, is
/// as before.
pub proof fn coming_and_going(c: ControllerView, id: Seq<char>, mode: Seq<char>)
    requires
        model::lacks(c.workers, id),
        c.ready_ingest < u32::MAX,
        c.ready_query < u32::MAX,
    ensures
        c.with_worker(id, mode).without_worker(id) == c,
{
    let there = c.with_worker(id, mode);
    model::bind_fresh(c.workers, id, mode);
    let n = c.workers.len() as int;
    assert(model::is_first(there.workers, id, n)) by {
        assert forall|k: int| 0 <= k < n implies (#[trigger] there.workers[k]).0 != id by {
            assert(there.workers[k] == c.workers[k]);
        }
    }
    model::bind_first(there.workers, id, n, mode);
    without_first(there.workers, id, n);
    assert(there.workers.remove(n) =~= c.workers);
}

/// A transition waits for every worker: as long as one that is there has not answered, no
/// answer of another, and no other's leaving, lets it go on before the time is over.
pub proof fn transitions_wait_for_everyone(
    c: ControllerView,
    id: Seq<char>,
    mode: Seq<char>,
    other: Seq<char>,
    phase: Seq<char>,
    waited_ms: u64,
)
    requires
        model::find(c.workers, id) == Some(mode),
        !c.prepared.contains(id),
        id != other,
        waited_ms < PREPARE_TIMEOUT_MS,
    ensures
        !c.goes_on(waited_ms),
        !c.with_answer(other, phase).goes_on(waited_ms),
        !c.without_worker(other).goes_on(waited_ms),
        !c.with_answer(other, phase).without_worker(other).goes_on(waited_ms),
{
    let answered = c.with_answer(other, phase);
    if answered.prepared.contains(id) {
        let k = choose|k: int| 0 <= k < answered.prepared.len() && answered.prepared[k] == id;
        assert(c.prepared[k] == id);
    }
    without_keeps_others(c.workers, other, id);
    one_is_missing(c, id);
    one_is_missing(answered, id);
    one_is_missing(c.without_worker(other), id);
    one_is_missing(answered.without_worker(other), id);
}

proof fn one_is_missing(c: ControllerView, id: Seq<char>)
    requires
        model::find(c.workers, id) is Some,
        !c.prepared.contains(id),
    ensures
        !c.all_prepared(),
{
    found_is_there(c.workers, id);
    let k = choose|k: int| 0 <= k < c.workers.len() && (#[trigger] c.workers[k]).0 == id;
    assert(!c.prepared.contains(c.workers[k].0));
}

proof fn found_is_there(entries: Seq<(Seq<char>, Seq<char>)>, key: Seq<char>)
    requires
        model::find(entries, key) is Some,
    ensures
        exists|k: int| 0 <= k < entries.len() && (#[trigger] entries[k]).0 == key,
    decreases entries.len(),
{
    if entries[0].0 != key {
        let rest = entries.skip(1);
        found_is_there(rest, key);
        let k = choose|k: int| 0 <= k < rest.len() && (#[trigger] rest[k]).0 == key;
        assert(entries[k + 1].0 == key);
    } else {
        assert(entries[0].0 == key);
    }
}

proof fn without_keeps_others(
    entries: Seq<(Seq<char>, Seq<char>)>,
    key: Seq<char>,
    other: Seq<char>,
)
    requires
        key != other,
    ensures
        model::find(without(entries, key), other) == model::find(entries, other),
    decreases entries.len(),
{
    if entries.len() > 0 && entries[0].0 != key {
        let rest = entries.skip(1);
        without_keeps_others(rest, key, other);
        let r = without(entries, key);
        assert(r.skip(1) =~= without(rest, key));
        assert(r[0] == entries[0]);
    }
}

/// A run that goes on after a restart runs what is left of the whole timeline: its phases
/// from the noted one on, in the same order and with the same rates.
pub proof fn resuming_runs_the_rest(phases: Seq<PhaseSpecView>, resume: int)
    requires
        0 <= resume <= phases.len(),
    ensures
        timeline(phases, resume) == timeline(phases, 0).skip(resume),
        timeline(phases, 0).len() == phases.len(),
{
    assert(timeline(phases, resume) =~= timeline(phases, 0).skip(resume));
}

} // verus!
