//! How the phase controller conducts a run: phase by phase it notes where it is, asks the
//! workers to prepare, waits for them, announces the transition and lets the phase run. The
//! controller does one thing at a time and tells what came of it.
use vstd::prelude::*;
use crate::model;
use crate::phase_controller;
use crate::phase_controller::{
    ControllerView, PhaseControllerService, PhasePlan, PhaseSpecView, PlanView, TRANSITION_LEAD_NS,
};
use crate::scenario::RateView;
use crate::session;

verus! {

/// What the conductor is waiting for.
#[derive(Clone, Copy, PartialEq, Eq, Structural)]
pub enum Stage {
    /// The start of the run.
    Starting,
    /// That the phase is noted.
    Noting,
    /// The workers.
    Preparing,
    /// The time of day.
    Timing,
    /// That the transition is announced.
    Announcing,
    /// The end of the phase.
    Running,
    /// That the workers know that the run is complete.
    Ending,
    /// Nothing: the run is over.
    Done,
}

/// What has happened.
pub enum ConductorEvent {
    /// What was to be done is done.
    Done,
    /// So many milliseconds have passed since the workers were asked to prepare.
    Waited(u64),
    /// The time of day, in nanoseconds since the start of 1970.
    Moment(i64),
}

/// What a worker is told of a transition.
pub struct Announcement {
    pub worker_id: String,
    pub from_phase: String,
    pub to_phase: String,
    pub transition_time_ns: i64,
    pub new_target_rate: i64,
}

pub struct AnnouncementView {
    pub worker_id: Seq<char>,
    pub from_phase: Seq<char>,
    pub to_phase: Seq<char>,
    pub transition_time_ns: int,
    pub new_target_rate: int,
}

impl View for Announcement {
    type V = AnnouncementView;

    open spec fn view(&self) -> AnnouncementView {
        AnnouncementView {
            worker_id: self.worker_id@,
            from_phase: self.from_phase@,
            to_phase: self.to_phase@,
            transition_time_ns: self.transition_time_ns as int,
            new_target_rate: self.new_target_rate as int,
        }
    }
}

/// What is done next.
pub enum ConductorAction {
    /// Note that the phase of that number has begun.
    Note(usize),
    /// Ask all workers to prepare, and wait a little.
    Prepare { from_phase: String, to_phase: String },
    /// Wait a little longer.
    Wait,
    /// Look at the clock.
    Look,
    /// Announce the transition, to each worker its own.
    Announce(Vec<Announcement>),
    /// Let the phase run for so many seconds.
    Run(u64),
    /// Tell all workers that the run is complete, and take the note away.
    Complete,
    /// Stop.
    Finish,
}

pub enum ConductorActionView {
    Note(int),
    Prepare { from_phase: Seq<char>, to_phase: Seq<char> },
    Wait,
    Look,
    Announce(Seq<AnnouncementView>),
    Run(u64),
    Complete,
    Finish,
}

impl View for ConductorAction {
    type V = ConductorActionView;

    open spec fn view(&self) -> ConductorActionView {
        match self {
            ConductorAction::Note(i) => ConductorActionView::Note(*i as int),
            ConductorAction::Prepare { from_phase, to_phase } => ConductorActionView::Prepare {
                from_phase: from_phase@,
                to_phase: to_phase@,
            },
            ConductorAction::Wait => ConductorActionView::Wait,
            ConductorAction::Look => ConductorActionView::Look,
            ConductorAction::Announce(all) => ConductorActionView::Announce(model::vmap(all@)),
            ConductorAction::Run(seconds) => ConductorActionView::Run(*seconds),
            ConductorAction::Complete => ConductorActionView::Complete,
            ConductorAction::Finish => ConductorActionView::Finish,
        }
    }
}

/// A run under way: the phases that are to be run, and how many of them have been.
pub struct Conductor {
    pub stage: Stage,
    pub timeline: Vec<PhasePlan>,
    pub next: usize,
}

pub struct ConductorView {
    pub stage: Stage,
    pub timeline: Seq<PlanView>,
    pub next: int,
}

impl View for Conductor {
    type V = ConductorView;

    open spec fn view(&self) -> ConductorView {
        ConductorView {
            stage: self.stage,
            timeline: model::vmap(self.timeline@),
            next: self.next as int,
        }
    }
}

impl ConductorView {
    /// There is a phase wherever one is under way.
    pub open spec fn wf(self) -> bool {
        &&& 0 <= self.next <= self.timeline.len()
        &&& match self.stage {
            Stage::Starting => self.next == 0,
            Stage::Ending => self.next == self.timeline.len(),
            Stage::Done => self.next == self.timeline.len(),
            _ => self.next < self.timeline.len(),
        }
    }

    /// The phase that is under way.
    pub open spec fn plan(self) -> PlanView {
        self.timeline[self.next]
    }

    /// How many phases have been announced.
    pub open spec fn announced(self) -> int {
        if self.stage == Stage::Announcing || self.stage == Stage::Running {
            self.next + 1
        } else {
            self.next
        }
    }
}

/// A run before its first phase.
pub open spec fn begun(timeline: Seq<PlanView>) -> ConductorView {
    ConductorView { stage: Stage::Starting, timeline, next: 0 }
}

/// The event is one that the conductor waits for.
pub open spec fn expected(v: ConductorView, event: ConductorEvent) -> bool {
    match event {
        ConductorEvent::Done => v.stage != Stage::Preparing && v.stage != Stage::Timing && v.stage
            != Stage::Done,
        ConductorEvent::Waited(_) => v.stage == Stage::Preparing,
        ConductorEvent::Moment(now_ns) => v.stage == Stage::Timing && now_ns <= i64::MAX
            - TRANSITION_LEAD_NS,
    }
}

/// The number with a sign that the bits of a number stand for.
pub open spec fn signed_bits(n: u64) -> int {
    if n > i64::MAX {
        n - 0x1_0000_0000_0000_0000
    } else {
        n as int
    }
}

fn signed_bits_of(n: u64) -> (r: i64)
    ensures
        r == signed_bits(n),
{
    if n > i64::MAX as u64 {
        -1 - (u64::MAX - n) as i64
    } else {
        n as i64
    }
}

/// What a worker is told of a transition at that time.
pub open spec fn announcement(
    worker: (Seq<char>, Seq<char>),
    plan: PlanView,
    at: int,
) -> AnnouncementView {
    AnnouncementView {
        worker_id: worker.0,
        from_phase: plan.from_phase,
        to_phase: plan.to_phase,
        transition_time_ns: at,
        new_target_rate: signed_bits(phase_controller::rate_for(plan, worker.1)),
    }
}

/// What the workers are told of a transition at that time.
pub open spec fn announcements(
    workers: Seq<(Seq<char>, Seq<char>)>,
    plan: PlanView,
    at: int,
) -> Seq<AnnouncementView> {
    workers.map_values(|w: (Seq<char>, Seq<char>)| announcement(w, plan, at))
}

/// The conductor before the `next`-th phase, what the controller knows, and what is done: the
/// phase is noted, or the run is complete.
pub open spec fn advancing(v: ConductorView, c: ControllerView, next: int) -> (
    ConductorView,
    ControllerView,
    ConductorActionView,
) {
    if next < v.timeline.len() {
        (
            ConductorView { stage: Stage::Noting, next, ..v },
            c,
            ConductorActionView::Note(v.timeline[next].index),
        )
    } else {
        (
            ConductorView { stage: Stage::Ending, next, ..v },
            ControllerView { timeline_complete: true, ..c },
            ConductorActionView::Complete,
        )
    }
}

/// The conductor when an event has happened, what the controller knows then, and what is done
/// next.
pub open spec fn stepped(v: ConductorView, c: ControllerView, event: ConductorEvent) -> (
    ConductorView,
    ControllerView,
    ConductorActionView,
) {
    match event {
        ConductorEvent::Done => match v.stage {
            Stage::Starting => advancing(v, c, 0),
            Stage::Noting => {
                let entered = ControllerView {
                    current_phase_index: v.plan().index as nat,
                    prepared: Seq::empty(),
                    ..c
                };
                if v.plan().prepare {
                    (
                        ConductorView { stage: Stage::Preparing, ..v },
                        entered,
                        ConductorActionView::Prepare {
                            from_phase: v.plan().from_phase,
                            to_phase: v.plan().to_phase,
                        },
                    )
                } else {
                    (
                        ConductorView { stage: Stage::Timing, ..v },
                        entered,
                        ConductorActionView::Look,
                    )
                }
            },
            Stage::Announcing => (
                ConductorView { stage: Stage::Running, ..v },
                c,
                ConductorActionView::Run(v.plan().duration_seconds),
            ),
            Stage::Running => advancing(v, c, v.next + 1),
            _ => (ConductorView { stage: Stage::Done, ..v }, c, ConductorActionView::Finish),
        },
        ConductorEvent::Waited(ms) => if c.goes_on(ms) {
            (ConductorView { stage: Stage::Timing, ..v }, c, ConductorActionView::Look)
        } else {
            (v, c, ConductorActionView::Wait)
        },
        ConductorEvent::Moment(now_ns) => (
            ConductorView { stage: Stage::Announcing, ..v },
            c,
            ConductorActionView::Announce(
                announcements(c.workers, v.plan(), now_ns + TRANSITION_LEAD_NS),
            ),
        ),
    }
}

fn announce(workers: &Vec<(String, String)>, plan: &PhasePlan, at: i64) -> (r: Vec<Announcement>)
    ensures
        model::vmap(r@) == announcements(model::vmap(workers@), plan@, at as int),
{
    let ghost want = announcements(model::vmap(workers@), plan@, at as int);
    let mut out: Vec<Announcement> = Vec::new();
    let mut i: usize = 0;
    assert(model::vmap(out@) =~= want.take(0));
    while i < workers.len()
        invariant
            i <= workers@.len(),
            want == announcements(model::vmap(workers@), plan@, at as int),
            model::vmap(out@) == want.take(i as int),
        decreases workers@.len() - i,
    {
        broadcast use model::vmap_push, model::take_push;

        let w = &workers[i];
        assert(model::vmap(workers@)[i as int] == w@);
        let told = Announcement {
            worker_id: w.0.clone(),
            from_phase: plan.from_phase.clone(),
            to_phase: plan.to_phase.clone(),
            transition_time_ns: at,
            new_target_rate: signed_bits_of(plan.rate_for(w.1.as_str())),
        };
        assert(told@ == want[i as int]);
        out.push(told);
        i += 1;
    }
    assert(want.take(i as int) =~= want);
    out
}

impl Conductor {
    /// A run before its first phase.
    pub fn new(timeline: Vec<PhasePlan>) -> (r: Conductor)
        ensures
            r@ == begun(model::vmap(timeline@)),
            r@.wf(),
    {
        Conductor { stage: Stage::Starting, timeline, next: 0 }
    }

    fn advance(&mut self, service: &mut PhaseControllerService, next: usize) -> (r: ConductorAction)
        requires
            next <= old(self)@.timeline.len(),
        ensures
            (final(self)@, final(service)@, r@) == advancing(
                old(self)@,
                old(service)@,
                next as int,
            ),
            final(self)@.wf(),
    {
        self.next = next;
        if next < self.timeline.len() {
            self.stage = Stage::Noting;
            assert(self@.timeline[next as int] == self.timeline@[next as int]@);
            ConductorAction::Note(self.timeline[next].index)
        } else {
            self.stage = Stage::Ending;
            service.finish();
            ConductorAction::Complete
        }
    }

    /// Takes in what has happened, and tells what is done next.
    pub fn step(&mut self, service: &mut PhaseControllerService, event: ConductorEvent) -> (r:
        ConductorAction)
        requires
            old(self)@.wf(),
            expected(old(self)@, event),
        ensures
            (final(self)@, final(service)@, r@) == stepped(old(self)@, old(service)@, event),
            final(self)@.wf(),
    {
        match event {
            ConductorEvent::Done => match self.stage {
                Stage::Starting => self.advance(service, 0),
                Stage::Noting => {
                    let plan = &self.timeline[self.next];
                    assert(self@.plan() == plan@);
                    service.enter_phase(plan.index);
                    if plan.prepare {
                        let from_phase = plan.from_phase.clone();
                        let to_phase = plan.to_phase.clone();
                        self.stage = Stage::Preparing;
                        ConductorAction::Prepare { from_phase, to_phase }
                    } else {
                        self.stage = Stage::Timing;
                        ConductorAction::Look
                    }
                },
                Stage::Announcing => {
                    assert(self@.plan() == self.timeline@[self.next as int]@);
                    self.stage = Stage::Running;
                    ConductorAction::Run(self.timeline[self.next].duration_seconds)
                },
                Stage::Running => {
                    let count: usize = self.timeline.len();
                    assert(self.next < count);
                    let next: usize = self.next + 1;
                    self.advance(service, next)
                },
                _ => {
                    self.stage = Stage::Done;
                    ConductorAction::Finish
                },
            },
            ConductorEvent::Waited(ms) => if service.goes_on(ms) {
                self.stage = Stage::Timing;
                ConductorAction::Look
            } else {
                ConductorAction::Wait
            },
            ConductorEvent::Moment(now_ns) => {
                let plan = &self.timeline[self.next];
                assert(self@.plan() == plan@);
                let at: i64 = phase_controller::transition_time(now_ns);
                let told = announce(&service.workers, plan, at);
                self.stage = Stage::Announcing;
                ConductorAction::Announce(told)
            },
        }
    }
}

// ---------------------------------------------------------------------------
// A whole run
// ---------------------------------------------------------------------------

/// The conductor after the first `n` events, where the controller knows `known[i]` when the
/// `i`-th happens: between two steps workers come, answer and go.
pub open spec fn run_of(
    v: ConductorView,
    known: Seq<ControllerView>,
    events: Seq<ConductorEvent>,
    n: int,
) -> ConductorView
    decreases n,
{
    if n <= 0 {
        v
    } else {
        stepped(run_of(v, known, events, n - 1), known[n - 1], events[n - 1]).0
    }
}

/// What is done after the `i`-th event.
pub open spec fn act_of(
    v: ConductorView,
    known: Seq<ControllerView>,
    events: Seq<ConductorEvent>,
    i: int,
) -> ConductorActionView {
    stepped(run_of(v, known, events, i), known[i], events[i]).2
}

/// The events are those that the conductor waits for, one after the other.
pub open spec fn all_expected(
    v: ConductorView,
    known: Seq<ControllerView>,
    events: Seq<ConductorEvent>,
) -> bool {
    &&& known.len() == events.len()
    &&& forall|i: int|
        0 <= i < events.len() ==> expected(run_of(v, known, events, i), #[trigger] events[i])
}

/// The phases that the first `n` steps have announced.
pub open spec fn announced_by(
    v: ConductorView,
    known: Seq<ControllerView>,
    events: Seq<ConductorEvent>,
    n: int,
) -> Seq<PlanView>
    decreases n,
{
    if n <= 0 {
        Seq::empty()
    } else {
        let before = announced_by(v, known, events, n - 1);
        if act_of(v, known, events, n - 1) is Announce {
            before.push(run_of(v, known, events, n - 1).plan())
        } else {
            before
        }
    }
}

/// A step announces the phase that comes, and no step but an announcement does.
pub proof fn steps_keep_order(v: ConductorView, c: ControllerView, event: ConductorEvent)
    requires
        v.wf(),
        expected(v, event),
    ensures
        ({
            let (after, _, action) = stepped(v, c, event);
            &&& after.wf()
            &&& after.timeline == v.timeline
            &&& after.announced() == v.announced() + if action is Announce {
                1int
            } else {
                0
            }
            &&& action is Announce ==> v.announced() == v.next < v.timeline.len()
        }),
{
}

/// Every phase is announced once and in the order of the timeline: after any number of steps
/// those that have been announced are the first ones.
pub proof fn phases_come_in_order(
    timeline: Seq<PlanView>,
    known: Seq<ControllerView>,
    events: Seq<ConductorEvent>,
    n: int,
)
    requires
        all_expected(begun(timeline), known, events),
        0 <= n <= events.len(),
    ensures
        ({
            let v = run_of(begun(timeline), known, events, n);
            &&& v.wf()
            &&& v.timeline == timeline
            &&& 0 <= v.announced() <= timeline.len()
            &&& announced_by(begun(timeline), known, events, n) == timeline.take(v.announced())
        }),
    decreases n,
{
    let start = begun(timeline);
    if n > 0 {
        phases_come_in_order(timeline, known, events, n - 1);
        let v = run_of(start, known, events, n - 1);
        assert(expected(v, events[n - 1]));
        let c = known[n - 1];
        let event = events[n - 1];
        steps_keep_order(v, c, event);
        let after = stepped(v, c, event).0;
        assert(run_of(start, known, events, n) == after);
        let action = stepped(v, c, event).2;
        assert(act_of(start, known, events, n - 1) == action);
        let before = announced_by(start, known, events, n - 1);
        assert(announced_by(start, known, events, n) == if action is Announce {
            before.push(v.plan())
        } else {
            before
        });
        if action is Announce {
            assert(timeline.take(v.next).push(timeline[v.next]) =~= timeline.take(v.next + 1));
        }
    } else {
        assert(timeline.take(0) =~= Seq::empty());
    }
}

/// The workers are told that the run is complete only when every phase has been announced.
pub proof fn complete_runs_are_whole(
    timeline: Seq<PlanView>,
    known: Seq<ControllerView>,
    events: Seq<ConductorEvent>,
    i: int,
)
    requires
        all_expected(begun(timeline), known, events),
        0 <= i < events.len(),
        act_of(begun(timeline), known, events, i) is Complete,
    ensures
        announced_by(begun(timeline), known, events, i + 1) == timeline,
{
    phases_come_in_order(timeline, known, events, i);
    phases_come_in_order(timeline, known, events, i + 1);
    assert(expected(run_of(begun(timeline), known, events, i), events[i]));
    assert(timeline.take(timeline.len() as int) =~= timeline);
}

/// A transition is announced only when the workers were asked and either all of them were
/// prepared or they had had their time: before a phase for which they prepare, the step
/// before the announcement looked at the controller and saw that it goes on.
pub proof fn transitions_wait_for_the_workers(
    timeline: Seq<PlanView>,
    known: Seq<ControllerView>,
    events: Seq<ConductorEvent>,
    i: int,
)
    requires
        all_expected(begun(timeline), known, events),
        0 <= i < events.len(),
        act_of(begun(timeline), known, events, i) is Announce,
    ensures
        ({
            let plan = run_of(begun(timeline), known, events, i).plan();
            &&& 0 < i
            &&& act_of(begun(timeline), known, events, i - 1) is Look
            &&& plan.prepare ==> (events[i - 1] matches ConductorEvent::Waited(ms)
                && known[i - 1].goes_on(ms))
        }),
{
    let start = begun(timeline);
    let v = run_of(start, known, events, i);
    assert(expected(v, events[i]));
    assert(v.stage == Stage::Timing);
    let before = run_of(start, known, events, i - 1);
    assert(expected(before, events[i - 1]));
    phases_come_in_order(timeline, known, events, i - 1);
}

/// What is noted is the phase that comes: a run that goes on after a restart where the note
/// was written runs that phase and all that follow, and none that was over.
pub proof fn notes_tell_where_to_go_on(
    phases: Seq<PhaseSpecView>,
    resume: int,
    known: Seq<ControllerView>,
    events: Seq<ConductorEvent>,
    i: int,
)
    requires
        0 <= resume <= phases.len(),
        all_expected(begun(phase_controller::timeline(phases, resume)), known, events),
        0 <= i < events.len(),
        act_of(
            begun(phase_controller::timeline(phases, resume)),
            known,
            events,
            i,
        ) is Note,
    ensures
        ({
            let timeline = phase_controller::timeline(phases, resume);
            let note = act_of(begun(timeline), known, events, i)->Note_0;
            let done = announced_by(begun(timeline), known, events, i);
            &&& 0 <= note < phases.len()
            &&& done + phase_controller::timeline(phases, note) == timeline
        }),
{
    let timeline = phase_controller::timeline(phases, resume);
    phases_come_in_order(timeline, known, events, i);
    phases_come_in_order(timeline, known, events, i + 1);
    let v = run_of(begun(timeline), known, events, i);
    assert(expected(v, events[i]));
    let note = act_of(begun(timeline), known, events, i)->Note_0;
    let done = announced_by(begun(timeline), known, events, i);
    assert(done + phase_controller::timeline(phases, note) =~= timeline);
}

/// A rate that is announced arrives as it was.
pub proof fn announced_rates_arrive(
    worker: (Seq<char>, Seq<char>),
    plan: PlanView,
    at: int,
    rates: Seq<RateView>,
    phase: Seq<char>,
)
    ensures
        ({
            let told = announcement(worker, plan, at).new_target_rate;
            &&& i64::MIN <= told <= i64::MAX
            &&& session::query_rate(Seq::empty(), rates, phase, told as i64)
                == phase_controller::rate_for(plan, worker.1)
        }),
{
}

} // verus!
