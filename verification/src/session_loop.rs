//! The loop of a worker that runs sessions. It goes from step to step: what has happened
//! decides what is done next. Once a second the worker reports; between reports it listens to
//! the phase controller, and asks the queries of its categories round by round.
use rand_chacha::ChaCha8Rng;
use vstd::prelude::*;
use crate::adapter::QueryResult;
use crate::barrier;
use crate::barrier::PhaseEvent;
use crate::chance;
use crate::chance::Course;
use crate::failures::WorkerIdentity;
use crate::model;
use crate::scenario::{QuerySession, RateView, SessionView};
use crate::session;
use crate::session::{
    Assignment, AssignmentView, Load, QueryWorkerConfig, SessionCategory, SessionCategoryView,
    SessionWork, WorkView,
};
use crate::snapshot::{SnapshotView, WorkerMetricSnapshot};
use crate::tally;
use crate::tally::{Tally, TallyView};

verus! {

/// How long a worker counts before it reports, in nanoseconds.
pub const REPORT_NS: u64 = 1_000_000_000;

/// What a session waits for.
#[derive(Clone, Copy, PartialEq, Eq, Structural, Debug)]
pub enum Stage {
    /// How long ago the last report was.
    Timing,
    /// The load, for a report.
    Sampling,
    /// The controller.
    Listening,
    /// The moment of a transition.
    Holding,
    /// The answers to its queries.
    Asking,
    /// The end of its pause.
    Resting,
    /// The load, for the last report.
    Finishing,
    /// Nothing: the run is over.
    Done,
}

/// What has happened.
pub enum SessionEvent {
    /// The last report was so many nanoseconds ago.
    Elapsed(u64),
    /// The load was read.
    Sampled(Load),
    /// The controller said something, was silent, or is gone; and the time.
    Heard { said: Option<Option<PhaseEvent>>, now_ns: i64 },
    /// The moment of the transition has come; and the time.
    Held { now_ns: i64 },
    /// What came of the queries, in the order in which they stand in `asked`.
    Answered(Vec<Result<QueryResult, String>>),
    /// The pause is over.
    Rested,
}

/// What is done next.
pub enum SessionAction {
    /// See how long ago the last report was.
    Measure,
    /// Read the load.
    Sample,
    /// Hand in the snapshot, count the time from here, and listen to the controller.
    Report(WorkerMetricSnapshot),
    /// Listen to the controller.
    Listen,
    /// Pause for so many nanoseconds, until the moment of a transition.
    Hold(u64),
    /// Ask the queries in `asked`, all at once.
    Ask,
    /// Pause for so many milliseconds.
    Rest(u64),
    /// Hand in the snapshot, if there is one, and stop.
    Finish(Option<WorkerMetricSnapshot>),
}

pub enum SessionActionView {
    Measure,
    Sample,
    Report(SnapshotView),
    Listen,
    Hold(u64),
    Ask,
    Rest(u64),
    Finish(Option<SnapshotView>),
}

impl View for SessionAction {
    type V = SessionActionView;

    open spec fn view(&self) -> SessionActionView {
        match self {
            SessionAction::Measure => SessionActionView::Measure,
            SessionAction::Sample => SessionActionView::Sample,
            SessionAction::Report(s) => SessionActionView::Report(s@),
            SessionAction::Listen => SessionActionView::Listen,
            SessionAction::Hold(ns) => SessionActionView::Hold(*ns),
            SessionAction::Ask => SessionActionView::Ask,
            SessionAction::Rest(ms) => SessionActionView::Rest(*ms),
            SessionAction::Finish(Some(s)) => SessionActionView::Finish(Some(s@)),
            SessionAction::Finish(None) => SessionActionView::Finish(None),
        }
    }
}

/// A worker that runs sessions.
pub struct SessionLoop {
    pub stage: Stage,
    pub now: Assignment,
    /// What the worker works on from the moment of the transition on for which it holds.
    pub coming: Option<Assignment>,
    pub tally: Tally,
    pub categories: Vec<SessionCategory>,
    /// The queries that were asked last, and when.
    pub asked: Vec<SessionWork>,
    pub asked_at_ms: i64,
    pub rng: ChaCha8Rng,
}

pub struct SessionLoopView {
    pub stage: Stage,
    pub now: AssignmentView,
    pub coming: Option<AssignmentView>,
    pub tally: TallyView,
    pub categories: Seq<SessionCategoryView>,
    pub asked: Seq<WorkView>,
    pub asked_at_ms: i64,
    pub course: Course,
}

impl View for SessionLoop {
    type V = SessionLoopView;

    open spec fn view(&self) -> SessionLoopView {
        SessionLoopView {
            stage: self.stage,
            now: self.now@,
            coming: session::opt_assignment(self.coming),
            tally: self.tally@,
            categories: model::vmap(self.categories@),
            asked: model::vmap(self.asked@),
            asked_at_ms: self.asked_at_ms,
            course: chance::query_course(self.rng),
        }
    }
}

/// What can happen at a stage: only what the worker waits for.
pub open spec fn expected(v: SessionLoopView, event: SessionEvent) -> bool {
    match event {
        SessionEvent::Elapsed(_) => v.stage == Stage::Timing,
        SessionEvent::Sampled(_) => v.stage == Stage::Sampling || v.stage == Stage::Finishing,
        SessionEvent::Heard { .. } => v.stage == Stage::Listening,
        SessionEvent::Held { .. } => v.stage == Stage::Holding && v.coming is Some,
        SessionEvent::Answered(results) => v.stage == Stage::Asking && results@.len()
            == v.asked.len(),
        SessionEvent::Rested => v.stage == Stage::Resting,
    }
}

/// What is counted after the first `n` answers.
pub open spec fn answered(
    t: TallyView,
    asked: Seq<WorkView>,
    asked_at_ms: i64,
    worker: WorkerIdentity,
    phase: Seq<char>,
    results: Seq<Result<QueryResult, String>>,
    n: int,
) -> TallyView
    decreases n,
{
    if n <= 0 {
        t
    } else {
        tally::after_session_query(
            answered(t, asked, asked_at_ms, worker, phase, results, n - 1),
            asked[n - 1].query.name,
            asked[n - 1].category,
            asked[n - 1].timeout_ms,
            worker,
            phase,
            asked_at_ms,
            tally::outcome(results[n - 1]),
        )
    }
}

/// A time in nanoseconds since the start of 1970 in whole milliseconds; none where it is before.
pub open spec fn millis(ns: i64) -> i64 {
    if ns < 0 {
        0
    } else {
        (ns as int / 1_000_000) as i64
    }
}

/// The worker when it has asked its next round.
pub open spec fn asking(v: SessionLoopView, default_timeout_ms: u64, now_ns: i64) -> SessionLoopView {
    let n = v.categories.len() as int;
    SessionLoopView {
        stage: Stage::Asking,
        asked: session::round_work(v.categories, v.course, default_timeout_ms, n),
        asked_at_ms: millis(now_ns),
        categories: v.categories.map_values(|cat: SessionCategoryView| cat.advanced()),
        course: session::course_after_categories(v.categories, v.course, n),
        ..v
    }
}

/// How many queries a session asks at once.
pub open spec fn sessions_at_once(session: SessionView) -> u32 {
    if model::sum(session::parallelisms(session)) > u32::MAX {
        u32::MAX
    } else {
        model::sum(session::parallelisms(session)) as u32
    }
}

/// The worker after something has happened, and what it does next.
pub open spec fn stepped(
    v: SessionLoopView,
    group: Seq<char>,
    rates: Seq<RateView>,
    default_timeout_ms: u64,
    session: SessionView,
    worker: WorkerIdentity,
    event: SessionEvent,
) -> (SessionLoopView, SessionActionView) {
    match event {
        SessionEvent::Elapsed(ns) => if ns >= REPORT_NS {
            (SessionLoopView { stage: Stage::Sampling, ..v }, SessionActionView::Sample)
        } else {
            (SessionLoopView { stage: Stage::Listening, ..v }, SessionActionView::Listen)
        },
        SessionEvent::Sampled(load) => if v.stage == Stage::Sampling {
            (
                SessionLoopView { stage: Stage::Listening, tally: TallyView::nothing(), ..v },
                SessionActionView::Report(
                    session::session_report(v.tally, worker, v.now.phase, load, 1),
                ),
            )
        } else if v.tally.counted_something() {
            (
                SessionLoopView { stage: Stage::Done, tally: TallyView::nothing(), ..v },
                SessionActionView::Finish(
                    Some(
                        session::session_report(
                            v.tally,
                            worker,
                            v.now.phase,
                            load,
                            sessions_at_once(session),
                        ),
                    ),
                ),
            )
        } else {
            (SessionLoopView { stage: Stage::Done, ..v }, SessionActionView::Finish(None))
        },
        SessionEvent::Heard { said, now_ns } => match said {
            None => (asking(v, default_timeout_ms, now_ns), SessionActionView::Ask),
            Some(e) => match session::followed(group, rates, v.now, e) {
                Some(now) => if barrier::hold_before(e, now_ns) > 0 {
                    (
                        SessionLoopView { stage: Stage::Holding, coming: Some(now), ..v },
                        SessionActionView::Hold(barrier::hold_before(e, now_ns) as u64),
                    )
                } else {
                    (
                        asking(
                            SessionLoopView { now, coming: None, ..v },
                            default_timeout_ms,
                            now_ns,
                        ),
                        SessionActionView::Ask,
                    )
                },
                None => (
                    SessionLoopView { stage: Stage::Finishing, ..v },
                    SessionActionView::Sample,
                ),
            },
        },
        SessionEvent::Held { now_ns } => (
            asking(
                SessionLoopView { now: v.coming->0, coming: None, ..v },
                default_timeout_ms,
                now_ns,
            ),
            SessionActionView::Ask,
        ),
        SessionEvent::Answered(results) => {
            let counted = SessionLoopView {
                tally: answered(
                    v.tally,
                    v.asked,
                    v.asked_at_ms,
                    worker,
                    v.now.phase,
                    results@,
                    results@.len() as int,
                ),
                ..v
            };
            if session.think_time_ms > 0 {
                (
                    SessionLoopView { stage: Stage::Resting, ..counted },
                    SessionActionView::Rest(session.think_time_ms),
                )
            } else {
                (SessionLoopView { stage: Stage::Timing, ..counted }, SessionActionView::Measure)
            }
        },
        SessionEvent::Rested => (
            SessionLoopView { stage: Stage::Timing, ..v },
            SessionActionView::Measure,
        ),
    }
}

/// The worker at the start of its first phase.
pub open spec fn begun(now: AssignmentView, session: SessionView, course: Course) -> SessionLoopView {
    SessionLoopView {
        stage: Stage::Timing,
        now,
        coming: None,
        tally: TallyView::nothing(),
        categories: session::first_categories(session),
        asked: Seq::empty(),
        asked_at_ms: 0,
        course,
    }
}

impl SessionLoop {
    /// A worker at the start of its first phase.
    pub fn new(now: Assignment, session: &QuerySession, rng: ChaCha8Rng) -> (r: SessionLoop)
        ensures
            r@ == begun(now@, session@, chance::query_course(rng)),
    {
        let r = SessionLoop {
            stage: Stage::Timing,
            now,
            coming: None,
            tally: Tally::new(),
            categories: session::session_categories(session),
            asked: Vec::new(),
            asked_at_ms: 0,
            rng,
        };
        assert(r@.asked =~= Seq::<WorkView>::empty());
        r
    }

    fn ask(&mut self, default_timeout_ms: u64, now_ns: i64)
        requires
            session::can_go_on(old(self)@.categories),
        ensures
            final(self)@ == asking(old(self)@, default_timeout_ms, now_ns),
            session::can_go_on(final(self)@.categories),
    {
        self.asked = session::next_round(&mut self.categories, &mut self.rng, default_timeout_ms);
        self.asked_at_ms = if now_ns < 0 {
            0
        } else {
            now_ns / 1_000_000
        };
        self.stage = Stage::Asking;
    }

    fn count(&mut self, worker: &WorkerIdentity, results: &Vec<Result<QueryResult, String>>)
        requires
            results@.len() == old(self)@.asked.len(),
        ensures
            final(self)@ == (SessionLoopView {
                tally: answered(
                    old(self)@.tally,
                    old(self)@.asked,
                    old(self)@.asked_at_ms,
                    *worker,
                    old(self)@.now.phase,
                    results@,
                    results@.len() as int,
                ),
                ..old(self)@
            }),
    {
        let ghost v = self@;
        let mut i: usize = 0;
        while i < results.len()
            invariant
                i <= results@.len(),
                v == old(self)@,
                results@.len() == v.asked.len(),
                self@ == (SessionLoopView {
                    tally: answered(
                        v.tally,
                        v.asked,
                        v.asked_at_ms,
                        *worker,
                        v.now.phase,
                        results@,
                        i as int,
                    ),
                    ..v
                }),
            decreases results@.len() - i,
        {
            let work = &self.asked[i];
            assert(v.asked[i as int] == work@);
            self.tally.record_session_query(
                work.query.name.as_str(),
                work.category.as_str(),
                work.timeout_ms,
                worker,
                self.now.phase.as_str(),
                self.asked_at_ms,
                &results[i],
            );
            i += 1;
        }
    }

    /// Takes in what has happened, and tells what is done next.
    pub fn step(
        &mut self,
        config: &QueryWorkerConfig,
        session: &QuerySession,
        worker: &WorkerIdentity,
        event: SessionEvent,
    ) -> (r: SessionAction)
        requires
            session::can_go_on(old(self)@.categories),
            expected(old(self)@, event),
        ensures
            (final(self)@, r@) == stepped(
                old(self)@,
                config.query_group@,
                config.rate_table@.phases,
                config.default_timeout_ms,
                session@,
                *worker,
                event,
            ),
            session::can_go_on(final(self)@.categories),
    {
        match event {
            SessionEvent::Elapsed(ns) => if ns >= REPORT_NS {
                self.stage = Stage::Sampling;
                SessionAction::Sample
            } else {
                self.stage = Stage::Listening;
                SessionAction::Listen
            },
            SessionEvent::Sampled(load) => if self.stage == Stage::Sampling {
                self.stage = Stage::Listening;
                SessionAction::Report(
                    session::take_session_snapshot(
                        &mut self.tally,
                        worker,
                        self.now.phase.as_str(),
                        load,
                        1,
                    ),
                )
            } else {
                self.stage = Stage::Done;
                SessionAction::Finish(
                    session::last_session_snapshot(
                        &mut self.tally,
                        worker,
                        self.now.phase.as_str(),
                        load,
                        session,
                    ),
                )
            },
            SessionEvent::Heard { said, now_ns } => match said {
                None => {
                    self.ask(config.default_timeout_ms, now_ns);
                    SessionAction::Ask
                },
                Some(e) => match session::follow(config, &self.now, &e) {
                    Some(now) => {
                        let wait: u64 = barrier::hold_of(&e, now_ns);
                        if wait > 0 {
                            self.coming = Some(now);
                            self.stage = Stage::Holding;
                            SessionAction::Hold(wait)
                        } else {
                            self.now = now;
                            self.coming = None;
                            self.ask(config.default_timeout_ms, now_ns);
                            SessionAction::Ask
                        }
                    },
                    None => {
                        self.stage = Stage::Finishing;
                        SessionAction::Sample
                    },
                },
            },
            SessionEvent::Held { now_ns } => {
                match self.coming.take() {
                    Some(now) => {
                        self.now = now;
                    },
                    None => {},
                }
                self.ask(config.default_timeout_ms, now_ns);
                SessionAction::Ask
            },
            SessionEvent::Answered(results) => {
                self.count(worker, &results);
                if session.think_time_ms > 0 {
                    self.stage = Stage::Resting;
                    SessionAction::Rest(session.think_time_ms)
                } else {
                    self.stage = Stage::Timing;
                    SessionAction::Measure
                }
            },
            SessionEvent::Rested => {
                self.stage = Stage::Timing;
                SessionAction::Measure
            },
        }
    }
}

// ---------------------------------------------------------------------------
// What holds from step to step
// ---------------------------------------------------------------------------

/// How many queries a step reports.
pub open spec fn reported(action: SessionActionView) -> int {
    match action {
        SessionActionView::Report(s) => s.queries_executed as int,
        SessionActionView::Finish(Some(s)) => s.queries_executed as int,
        _ => 0,
    }
}

/// How many answers an event brings.
pub open spec fn answers(event: SessionEvent) -> int {
    match event {
        SessionEvent::Answered(results) => results@.len() as int,
        _ => 0,
    }
}

proof fn answers_are_counted(
    t: TallyView,
    asked: Seq<WorkView>,
    asked_at_ms: i64,
    worker: WorkerIdentity,
    phase: Seq<char>,
    results: Seq<Result<QueryResult, String>>,
    n: int,
)
    requires
        0 <= n,
        t.executed + n <= u64::MAX,
    ensures
        answered(t, asked, asked_at_ms, worker, phase, results, n).executed == t.executed + n,
    decreases n,
{
    if n > 0 {
        answers_are_counted(t, asked, asked_at_ms, worker, phase, results, n - 1);
    }
}

/// No answer is lost: what was counted before a step, and the answers that it brings, are
/// counted after it or reported by it.
pub proof fn no_answer_is_lost(
    v: SessionLoopView,
    group: Seq<char>,
    rates: Seq<RateView>,
    default_timeout_ms: u64,
    session: SessionView,
    worker: WorkerIdentity,
    event: SessionEvent,
)
    requires
        expected(v, event),
        v.tally.executed + answers(event) <= u64::MAX,
    ensures
        ({
            let (after, action) = stepped(
                v,
                group,
                rates,
                default_timeout_ms,
                session,
                worker,
                event,
            );
            after.tally.executed + reported(action) == v.tally.executed + answers(event)
        }),
{
    if let SessionEvent::Answered(results) = event {
        answers_are_counted(
            v.tally,
            v.asked,
            v.asked_at_ms,
            worker,
            v.now.phase,
            results@,
            results@.len() as int,
        );
    }
}

/// A session that is done has reported all that it has counted.
pub proof fn nothing_is_left_at_the_end(
    v: SessionLoopView,
    group: Seq<char>,
    rates: Seq<RateView>,
    default_timeout_ms: u64,
    session: SessionView,
    worker: WorkerIdentity,
    event: SessionEvent,
)
    requires
        expected(v, event),
        stepped(v, group, rates, default_timeout_ms, session, worker, event).0.stage
            == Stage::Done,
    ensures
        !stepped(
            v,
            group,
            rates,
            default_timeout_ms,
            session,
            worker,
            event,
        ).0.tally.counted_something(),
{
}

/// What is done next brings what the worker then waits for, until it is done.
pub proof fn actions_fit_the_stage(
    v: SessionLoopView,
    group: Seq<char>,
    rates: Seq<RateView>,
    default_timeout_ms: u64,
    session: SessionView,
    worker: WorkerIdentity,
    event: SessionEvent,
)
    requires
        expected(v, event),
    ensures
        ({
            let (after, action) = stepped(
                v,
                group,
                rates,
                default_timeout_ms,
                session,
                worker,
                event,
            );
            match action {
                SessionActionView::Measure => after.stage == Stage::Timing,
                SessionActionView::Sample => after.stage == Stage::Sampling || after.stage
                    == Stage::Finishing,
                SessionActionView::Report(_) => after.stage == Stage::Listening,
                SessionActionView::Listen => after.stage == Stage::Listening,
                SessionActionView::Hold(_) => after.stage == Stage::Holding && after.coming is Some,
                SessionActionView::Ask => after.stage == Stage::Asking,
                SessionActionView::Rest(_) => after.stage == Stage::Resting,
                SessionActionView::Finish(_) => after.stage == Stage::Done,
            }
        }),
{
}

/// A phase begins at its moment: until then the worker stays in its phase and holds, and when
/// the moment has come it is in the new phase.
pub proof fn phases_begin_at_their_moment(
    v: SessionLoopView,
    group: Seq<char>,
    rates: Seq<RateView>,
    default_timeout_ms: u64,
    session: SessionView,
    worker: WorkerIdentity,
    transition: PhaseEvent,
    now_ns: i64,
    then_ns: i64,
)
    requires
        v.stage == Stage::Listening,
        transition is Transition,
    ensures
        ({
            let heard = SessionEvent::Heard { said: Some(Some(transition)), now_ns };
            let held = SessionEvent::Held { now_ns: then_ns };
            let (after, action) = stepped(
                v,
                group,
                rates,
                default_timeout_ms,
                session,
                worker,
                heard,
            );
            let moment = transition->transition_time_ns;
            if moment > now_ns {
                let (then, next) = stepped(
                    after,
                    group,
                    rates,
                    default_timeout_ms,
                    session,
                    worker,
                    held,
                );
                &&& after.now == v.now
                &&& action == SessionActionView::Hold((moment - now_ns) as u64)
                &&& expected(after, held)
                &&& then.now.phase == transition->Transition_to_phase@
                &&& next is Ask
            } else {
                after.now.phase == transition->Transition_to_phase@ && action is Ask
            }
        }),
{
}

/// An answer ran out of time.
pub open spec fn ran_out(result: Result<QueryResult, String>) -> bool {
    result is Ok && result->Ok_0.timed_out
}

/// How many of the first `n` answers ran out of time.
pub open spec fn run_out(results: Seq<Result<QueryResult, String>>, n: int) -> int
    decreases n,
{
    if n <= 0 {
        0
    } else if ran_out(results[n - 1]) {
        run_out(results, n - 1) + 1
    } else {
        run_out(results, n - 1)
    }
}

/// How many answers that ran out of time an event brings.
pub open spec fn timeouts_in(event: SessionEvent) -> int {
    match event {
        SessionEvent::Answered(results) => run_out(results@, results@.len() as int),
        _ => 0,
    }
}

/// How many records of queries that ran out of time a step reports.
pub open spec fn timeouts_reported(action: SessionActionView) -> int {
    match action {
        SessionActionView::Report(s) => s.timed_out.len() as int,
        SessionActionView::Finish(Some(s)) => s.timed_out.len() as int,
        _ => 0,
    }
}

proof fn timeouts_are_counted(
    t: TallyView,
    asked: Seq<WorkView>,
    asked_at_ms: i64,
    worker: WorkerIdentity,
    phase: Seq<char>,
    results: Seq<Result<QueryResult, String>>,
    n: int,
)
    requires
        0 <= n,
    ensures
        answered(t, asked, asked_at_ms, worker, phase, results, n).timeouts.len()
            == t.timeouts.len() + run_out(results, n),
    decreases n,
{
    if n > 0 {
        timeouts_are_counted(t, asked, asked_at_ms, worker, phase, results, n - 1);
    }
}

/// No timeout is lost: the records before a step, and the answers that ran out of time that it
/// brings, are kept after it or reported by it.
pub proof fn no_timeout_is_lost(
    v: SessionLoopView,
    group: Seq<char>,
    rates: Seq<RateView>,
    default_timeout_ms: u64,
    session: SessionView,
    worker: WorkerIdentity,
    event: SessionEvent,
)
    requires
        expected(v, event),
    ensures
        ({
            let (after, action) = stepped(
                v,
                group,
                rates,
                default_timeout_ms,
                session,
                worker,
                event,
            );
            after.tally.timeouts.len() + timeouts_reported(action) == v.tally.timeouts.len()
                + timeouts_in(event)
        }),
{
    if let SessionEvent::Answered(results) = event {
        timeouts_are_counted(
            v.tally,
            v.asked,
            v.asked_at_ms,
            worker,
            v.now.phase,
            results@,
            results@.len() as int,
        );
    }
}

/// The worker after the first `n` events, and how many records of queries that ran out of time
/// it has reported by then.
pub open spec fn session_after(
    v: SessionLoopView,
    group: Seq<char>,
    rates: Seq<RateView>,
    default_timeout_ms: u64,
    session: SessionView,
    worker: WorkerIdentity,
    events: Seq<SessionEvent>,
    n: int,
) -> (SessionLoopView, int)
    decreases n,
{
    if n <= 0 {
        (v, 0)
    } else {
        let before = session_after(
            v,
            group,
            rates,
            default_timeout_ms,
            session,
            worker,
            events,
            n - 1,
        );
        let step = stepped(
            before.0,
            group,
            rates,
            default_timeout_ms,
            session,
            worker,
            events[n - 1],
        );
        (step.0, before.1 + timeouts_reported(step.1))
    }
}

/// The events are those that the worker waits for, one after the other.
pub open spec fn all_expected(
    v: SessionLoopView,
    group: Seq<char>,
    rates: Seq<RateView>,
    default_timeout_ms: u64,
    session: SessionView,
    worker: WorkerIdentity,
    events: Seq<SessionEvent>,
) -> bool {
    forall|i: int|
        0 <= i < events.len() ==> expected(
            session_after(v, group, rates, default_timeout_ms, session, worker, events, i).0,
            #[trigger] events[i],
        )
}

/// How many answers that ran out of time the first `n` events bring.
pub open spec fn all_timeouts(events: Seq<SessionEvent>, n: int) -> int
    decreases n,
{
    if n <= 0 {
        0
    } else {
        all_timeouts(events, n - 1) + timeouts_in(events[n - 1])
    }
}

/// Over a whole session, from its start until it is done, as many records are reported of
/// queries that ran out of time as answers did.
pub proof fn every_timeout_is_reported(
    now: AssignmentView,
    course: Course,
    group: Seq<char>,
    rates: Seq<RateView>,
    default_timeout_ms: u64,
    session: SessionView,
    worker: WorkerIdentity,
    events: Seq<SessionEvent>,
)
    requires
        all_expected(
            begun(now, session, course),
            group,
            rates,
            default_timeout_ms,
            session,
            worker,
            events,
        ),
        session_after(
            begun(now, session, course),
            group,
            rates,
            default_timeout_ms,
            session,
            worker,
            events,
            events.len() as int,
        ).0.stage == Stage::Done,
    ensures
        session_after(
            begun(now, session, course),
            group,
            rates,
            default_timeout_ms,
            session,
            worker,
            events,
            events.len() as int,
        ).1 == all_timeouts(events, events.len() as int),
{
    let v = begun(now, session, course);
    let n = events.len() as int;
    timeouts_so_far(v, group, rates, default_timeout_ms, session, worker, events, n);
    if n > 0 {
        let before = session_after(
            v,
            group,
            rates,
            default_timeout_ms,
            session,
            worker,
            events,
            n - 1,
        ).0;
        assert(expected(before, events[n - 1]));
        nothing_is_left_at_the_end(
            before,
            group,
            rates,
            default_timeout_ms,
            session,
            worker,
            events[n - 1],
        );
    }
}

proof fn timeouts_so_far(
    v: SessionLoopView,
    group: Seq<char>,
    rates: Seq<RateView>,
    default_timeout_ms: u64,
    session: SessionView,
    worker: WorkerIdentity,
    events: Seq<SessionEvent>,
    n: int,
)
    requires
        0 <= n <= events.len(),
        all_expected(v, group, rates, default_timeout_ms, session, worker, events),
    ensures
        ({
            let after = session_after(
                v,
                group,
                rates,
                default_timeout_ms,
                session,
                worker,
                events,
                n,
            );
            after.0.tally.timeouts.len() + after.1 == v.tally.timeouts.len() + all_timeouts(
                events,
                n,
            )
        }),
    decreases n,
{
    if n > 0 {
        timeouts_so_far(v, group, rates, default_timeout_ms, session, worker, events, n - 1);
        let before = session_after(
            v,
            group,
            rates,
            default_timeout_ms,
            session,
            worker,
            events,
            n - 1,
        ).0;
        assert(expected(before, events[n - 1]));
        no_timeout_is_lost(
            before,
            group,
            rates,
            default_timeout_ms,
            session,
            worker,
            events[n - 1],
        );
    }
}

} // verus!
