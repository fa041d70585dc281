//! The loop of a query worker that keeps a rate. It goes from step to step: what has happened
//! decides what is done next. Once a second the worker reports; between reports it listens to
//! the phase controller, waits for a token, and asks one query.
use rand_chacha::ChaCha8Rng;
use vstd::prelude::*;
use crate::adapter::QueryResult;
use crate::barrier;
use crate::barrier::PhaseEvent;
use crate::chance;
use crate::chance::{Course, Request};
use crate::failures::WorkerIdentity;
use crate::mix;
use crate::mix::PhaseMixView;
use crate::model;
use crate::ratelimit;
use crate::ratelimit::{Acquire, TokenBucketRateLimiter};
use crate::scenario::{QueryView, RateView};
use crate::session;
use crate::session::{Assignment, AssignmentView, Load, QueryWorkerConfig};
use crate::session_loop::REPORT_NS;
use crate::snapshot::{SnapshotView, WorkerMetricSnapshot};
use crate::tally;
use crate::tally::{Tally, TallyView};

verus! {

/// What a worker waits for.
#[derive(Clone, Copy, PartialEq, Eq, Structural, Debug)]
pub enum Stage {
    /// How long ago the last report was.
    Timing,
    /// The load, for a report.
    Sampling,
    /// The controller.
    Listening,
    /// The moment of a transition.
    Holding,
    /// How long ago its bucket was filled.
    Drawing,
    /// The end of a second without a rate.
    Idling,
    /// The time at which there is a token.
    Waiting,
    /// The answer to its query.
    Asking,
    /// The load, for the last report.
    Finishing,
    /// Nothing: the run is over.
    Done,
}

/// What has happened.
pub enum RateEvent {
    /// The last report was so many nanoseconds ago.
    Elapsed(u64),
    /// The load was read.
    Sampled(Load),
    /// The controller said something, was silent, or is gone; and the time.
    Heard { said: Option<Option<PhaseEvent>>, now_ns: i64 },
    /// The moment of the transition has come.
    Held,
    /// The bucket was filled so many nanoseconds ago: the first time, or after a pause.
    Refilled(u64),
    /// The second without a rate is over.
    Idled,
    /// What came of the query, at what time, and after how many nanoseconds.
    Answered { timestamp_ms: i64, elapsed_ns: u64, result: Result<QueryResult, String> },
}

/// What is done next.
pub enum RateAction {
    /// See how long ago the last report was.
    Measure,
    /// Read the load.
    Sample,
    /// Hand in the snapshot, count the time from here, and listen to the controller.
    Report(WorkerMetricSnapshot),
    /// Listen to the controller.
    Listen,
    /// Pause for so many nanoseconds, until the moment of a transition.
    Hold(u64),
    /// See how long ago the bucket was filled.
    Draw,
    /// Pause for a second.
    Idle,
    /// Pause for so many nanoseconds, and see how long ago the bucket was filled.
    Wait(u128),
    /// Ask the query at that place, with `variables`, and give it so many milliseconds.
    Ask { query: usize, timeout_ms: u64 },
    /// Hand in the snapshot, if there is one, and stop.
    Finish(Option<WorkerMetricSnapshot>),
}

pub enum RateActionView {
    Measure,
    Sample,
    Report(SnapshotView),
    Listen,
    Hold(u64),
    Draw,
    Idle,
    Wait(u128),
    Ask { query: usize, timeout_ms: u64 },
    Finish(Option<SnapshotView>),
}

impl View for RateAction {
    type V = RateActionView;

    open spec fn view(&self) -> RateActionView {
        match self {
            RateAction::Measure => RateActionView::Measure,
            RateAction::Sample => RateActionView::Sample,
            RateAction::Report(s) => RateActionView::Report(s@),
            RateAction::Listen => RateActionView::Listen,
            RateAction::Hold(ns) => RateActionView::Hold(*ns),
            RateAction::Draw => RateActionView::Draw,
            RateAction::Idle => RateActionView::Idle,
            RateAction::Wait(ns) => RateActionView::Wait(*ns),
            RateAction::Ask { query, timeout_ms } => RateActionView::Ask {
                query: *query,
                timeout_ms: *timeout_ms,
            },
            RateAction::Finish(Some(s)) => RateActionView::Finish(Some(s@)),
            RateAction::Finish(None) => RateActionView::Finish(None),
        }
    }
}

/// A query worker that keeps a rate.
pub struct RateLoop {
    pub stage: Stage,
    pub now: Assignment,
    /// What the worker works on from the moment of the transition on for which it holds.
    pub coming: Option<Assignment>,
    pub tally: Tally,
    pub bucket: TokenBucketRateLimiter,
    /// The query that was asked last, and the values of its variables.
    pub query: usize,
    pub variables: Vec<(String, String)>,
    pub rng: ChaCha8Rng,
}

pub struct RateLoopView {
    pub stage: Stage,
    pub now: AssignmentView,
    pub coming: Option<AssignmentView>,
    pub tally: TallyView,
    pub bucket: TokenBucketRateLimiter,
    pub query: usize,
    pub variables: Seq<(Seq<char>, Seq<char>)>,
    pub course: Course,
}

impl View for RateLoop {
    type V = RateLoopView;

    open spec fn view(&self) -> RateLoopView {
        RateLoopView {
            stage: self.stage,
            now: self.now@,
            coming: session::opt_assignment(self.coming),
            tally: self.tally@,
            bucket: self.bucket,
            query: self.query,
            variables: model::vmap(self.variables@),
            course: chance::query_course(self.rng),
        }
    }
}

impl RateLoopView {
    /// The bucket is in order, and the query that was asked is one of the worker's.
    pub open spec fn wf(self, queries: Seq<QueryView>) -> bool {
        self.bucket.wf() && self.query < queries.len()
    }
}

/// What can happen at a stage: only what the worker waits for.
pub open spec fn expected(v: RateLoopView, event: RateEvent) -> bool {
    match event {
        RateEvent::Elapsed(_) => v.stage == Stage::Timing,
        RateEvent::Sampled(_) => v.stage == Stage::Sampling || v.stage == Stage::Finishing,
        RateEvent::Heard { .. } => v.stage == Stage::Listening,
        RateEvent::Held => v.stage == Stage::Holding && v.coming is Some,
        RateEvent::Refilled(_) => v.stage == Stage::Drawing || v.stage == Stage::Waiting,
        RateEvent::Idled => v.stage == Stage::Idling,
        RateEvent::Answered { .. } => v.stage == Stage::Asking,
    }
}

/// The worker when it has chosen its next query, by the weights of the phase, and that query.
pub open spec fn asking(
    v: RateLoopView,
    queries: Seq<QueryView>,
    mixes: Seq<PhaseMixView>,
) -> (RateLoopView, RateActionView) {
    let weights = mix::query_weights(queries, mixes, v.now.phase);
    let query = chance::query_choice(v.course, weights);
    let course = v.course.after(Request::Choice { weights });
    let vars = queries[query as int].variables;
    let values = session::variable_values(vars, course, vars.len() as int);
    (
        RateLoopView {
            stage: Stage::Asking,
            query,
            variables: values.0,
            course: values.1,
            ..v
        },
        RateActionView::Ask { query, timeout_ms: tally::worker_limit(queries[query as int]) },
    )
}

/// The units in a bucket that was filled so long ago.
pub open spec fn units(b: TokenBucketRateLimiter, elapsed_ns: u64) -> int {
    ratelimit::refilled(b.tokens as int, b.rate as int, b.max_tokens as int, elapsed_ns as int)
}

/// The worker when it wants a token, and what it does: it takes the one that is there, and
/// waits for one that is not.
pub open spec fn drawing(
    v: RateLoopView,
    queries: Seq<QueryView>,
    mixes: Seq<PhaseMixView>,
    elapsed_ns: u64,
) -> (RateLoopView, RateActionView) {
    let there = units(v.bucket, elapsed_ns);
    if there >= ratelimit::ONE_TOKEN {
        let bucket = TokenBucketRateLimiter {
            tokens: (there - ratelimit::ONE_TOKEN) as i128,
            missed_ops: 0,
            ..v.bucket
        };
        asking(RateLoopView { bucket, ..v }, queries, mixes)
    } else {
        let bucket = TokenBucketRateLimiter { tokens: there as i128, ..v.bucket };
        if v.bucket.rate == 0 {
            (RateLoopView { stage: Stage::Idling, bucket, ..v }, RateActionView::Idle)
        } else {
            (
                RateLoopView { stage: Stage::Waiting, bucket, ..v },
                RateActionView::Wait(
                    ratelimit::time_to_token(there, v.bucket.rate as int) as u128,
                ),
            )
        }
    }
}

/// The bucket when its rate has changed.
pub open spec fn at_rate(b: TokenBucketRateLimiter, rate: u64) -> TokenBucketRateLimiter {
    TokenBucketRateLimiter { rate, max_tokens: ratelimit::burst(rate as int) as i128, ..b }
}

/// The worker in a phase, with its rate, and what it does.
pub open spec fn entering(v: RateLoopView, now: AssignmentView) -> (RateLoopView, RateActionView) {
    (
        RateLoopView {
            stage: Stage::Drawing,
            now,
            coming: None,
            bucket: at_rate(v.bucket, now.rate as u64),
            ..v
        },
        RateActionView::Draw,
    )
}

/// The worker after something has happened, and what it does next.
pub open spec fn stepped(
    v: RateLoopView,
    group: Seq<char>,
    rates: Seq<RateView>,
    queries: Seq<QueryView>,
    mixes: Seq<PhaseMixView>,
    worker: WorkerIdentity,
    event: RateEvent,
) -> (RateLoopView, RateActionView) {
    match event {
        RateEvent::Elapsed(ns) => if ns >= REPORT_NS {
            (RateLoopView { stage: Stage::Sampling, ..v }, RateActionView::Sample)
        } else {
            (RateLoopView { stage: Stage::Listening, ..v }, RateActionView::Listen)
        },
        RateEvent::Sampled(load) => if v.stage == Stage::Sampling {
            (
                RateLoopView { stage: Stage::Listening, tally: TallyView::nothing(), ..v },
                RateActionView::Report(session::rate_report(v.tally, worker, v.now, load)),
            )
        } else if v.tally.counted_something() {
            (
                RateLoopView { stage: Stage::Done, tally: TallyView::nothing(), ..v },
                RateActionView::Finish(
                    Some(session::rate_report(v.tally, worker, v.now, load)),
                ),
            )
        } else {
            (RateLoopView { stage: Stage::Done, ..v }, RateActionView::Finish(None))
        },
        RateEvent::Heard { said, now_ns } => match said {
            None => (RateLoopView { stage: Stage::Drawing, ..v }, RateActionView::Draw),
            Some(e) => match session::followed(group, rates, v.now, e) {
                Some(now) => if barrier::hold_before(e, now_ns) > 0 {
                    (
                        RateLoopView { stage: Stage::Holding, coming: Some(now), ..v },
                        RateActionView::Hold(barrier::hold_before(e, now_ns) as u64),
                    )
                } else {
                    entering(v, now)
                },
                None => (
                    RateLoopView { stage: Stage::Finishing, ..v },
                    RateActionView::Sample,
                ),
            },
        },
        RateEvent::Held => entering(v, v.coming->0),
        RateEvent::Refilled(ns) => drawing(v, queries, mixes, ns),
        RateEvent::Idled => {
            let bucket = TokenBucketRateLimiter {
                missed_ops: ratelimit::one_more_missed(v.bucket.missed_ops),
                ..v.bucket
            };
            (RateLoopView { stage: Stage::Timing, bucket, ..v }, RateActionView::Measure)
        },
        RateEvent::Answered { timestamp_ms, elapsed_ns, result } => (
            RateLoopView {
                stage: Stage::Timing,
                tally: tally::after_query(
                    v.tally,
                    queries[v.query as int],
                    worker,
                    v.now.phase,
                    timestamp_ms,
                    elapsed_ns,
                    tally::outcome(result),
                ),
                ..v
            },
            RateActionView::Measure,
        ),
    }
}

/// The worker at the start of its first phase, with a full bucket.
pub open spec fn begun(now: AssignmentView, course: Course) -> RateLoopView {
    let max = ratelimit::burst(now.rate as int) as i128;
    RateLoopView {
        stage: Stage::Timing,
        now,
        coming: None,
        tally: TallyView::nothing(),
        bucket: TokenBucketRateLimiter {
            rate: now.rate as u64,
            tokens: max,
            max_tokens: max,
            missed_ops: 0,
        },
        query: 0,
        variables: Seq::empty(),
        course,
    }
}

/// The weight of a query in the phase of an assignment.
pub open spec fn weight(config: &QueryWorkerConfig, now: AssignmentView, query: usize) -> u64 {
    mix::query_weights(config.query_mix@, model::vmap(config.phase_mixes@), now.phase)[query as int]
}

impl RateLoop {
    /// A worker at the start of its first phase.
    pub fn new(now: Assignment, rng: ChaCha8Rng) -> (r: RateLoop)
        ensures
            r@ == begun(now@, chance::query_course(rng)),
            r.bucket.wf(),
    {
        let bucket = TokenBucketRateLimiter::new(now.rate);
        let r = RateLoop {
            stage: Stage::Timing,
            now,
            coming: None,
            tally: Tally::new(),
            bucket,
            query: 0,
            variables: Vec::new(),
            rng,
        };
        assert(r@.variables =~= Seq::<(Seq<char>, Seq<char>)>::empty());
        r
    }

    fn enter(&mut self, now: Assignment) -> (r: RateAction)
        requires
            old(self).bucket.wf(),
        ensures
            (final(self)@, r@) == entering(old(self)@, now@),
            final(self).bucket.wf(),
    {
        self.bucket.set_rate(now.rate);
        self.now = now;
        self.coming = None;
        self.stage = Stage::Drawing;
        RateAction::Draw
    }

    fn ask(&mut self, config: &QueryWorkerConfig) -> (r: RateAction)
        requires
            old(self).bucket.wf(),
            config.query_mix@.len() > 0,
        ensures
            (final(self)@, r@) == asking(
                old(self)@,
                config.query_mix@,
                model::vmap(config.phase_mixes@),
            ),
            final(self)@.wf(config.query_mix@),
            r matches RateAction::Ask { query, .. } ==> weight(config, old(self)@.now, query) > 0,
    {
        let weights = mix::weights_for(
            &config.query_mix.queries,
            &config.phase_mixes,
            self.now.phase.as_str(),
        );
        let at: usize = session::choose_query(&weights, &mut self.rng);
        let query = &config.query_mix.queries[at];
        assert(config.query_mix@[at as int] == query@);
        self.variables = session::generate_query_variables(query, &mut self.rng);
        self.query = at;
        self.stage = Stage::Asking;
        RateAction::Ask { query: at, timeout_ms: tally::worker_timeout_ms(query) }
    }

    /// Takes in what has happened, and tells what is done next. A query without weight in the
    /// phase is never asked.
    pub fn step(
        &mut self,
        config: &QueryWorkerConfig,
        worker: &WorkerIdentity,
        event: RateEvent,
    ) -> (r: RateAction)
        requires
            old(self)@.wf(config.query_mix@),
            expected(old(self)@, event),
        ensures
            (final(self)@, r@) == stepped(
                old(self)@,
                config.query_group@,
                config.rate_table@.phases,
                config.query_mix@,
                model::vmap(config.phase_mixes@),
                *worker,
                event,
            ),
            final(self)@.wf(config.query_mix@),
            r matches RateAction::Ask { query, .. } ==> weight(config, final(self)@.now, query)
                > 0,
    {
        match event {
            RateEvent::Elapsed(ns) => if ns >= REPORT_NS {
                self.stage = Stage::Sampling;
                RateAction::Sample
            } else {
                self.stage = Stage::Listening;
                RateAction::Listen
            },
            RateEvent::Sampled(load) => if self.stage == Stage::Sampling {
                self.stage = Stage::Listening;
                RateAction::Report(
                    session::take_rate_snapshot(&mut self.tally, worker, &self.now, load),
                )
            } else {
                self.stage = Stage::Done;
                if self.tally.counted_something() {
                    let last = session::take_rate_snapshot(
                        &mut self.tally,
                        worker,
                        &self.now,
                        load,
                    );
                    RateAction::Finish(Some(last))
                } else {
                    RateAction::Finish(None)
                }
            },
            RateEvent::Heard { said, now_ns } => match said {
                None => {
                    self.stage = Stage::Drawing;
                    RateAction::Draw
                },
                Some(e) => match session::follow(config, &self.now, &e) {
                    Some(now) => {
                        let wait: u64 = barrier::hold_of(&e, now_ns);
                        if wait > 0 {
                            self.coming = Some(now);
                            self.stage = Stage::Holding;
                            RateAction::Hold(wait)
                        } else {
                            self.enter(now)
                        }
                    },
                    None => {
                        self.stage = Stage::Finishing;
                        RateAction::Sample
                    },
                },
            },
            RateEvent::Held => match self.coming.take() {
                Some(now) => self.enter(now),
                None => RateAction::Draw,
            },
            RateEvent::Refilled(ns) => match self.bucket.acquire(ns) {
                Acquire::Granted { .. } => self.ask(config),
                Acquire::Idle => {
                    self.stage = Stage::Idling;
                    RateAction::Idle
                },
                Acquire::Wait { wait_ns } => {
                    self.stage = Stage::Waiting;
                    RateAction::Wait(wait_ns)
                },
            },
            RateEvent::Idled => {
                self.bucket.after_idle();
                self.stage = Stage::Timing;
                RateAction::Measure
            },
            RateEvent::Answered { timestamp_ms, elapsed_ns, result } => {
                let query = &config.query_mix.queries[self.query];
                assert(config.query_mix@[self.query as int] == query@);
                self.tally.record_query(
                    query,
                    worker,
                    self.now.phase.as_str(),
                    timestamp_ms,
                    elapsed_ns,
                    &result,
                );
                self.stage = Stage::Timing;
                RateAction::Measure
            },
        }
    }
}

// ---------------------------------------------------------------------------
// What holds from step to step
// ---------------------------------------------------------------------------

/// No answer is lost: what was counted before a step, and the answer
/// that it brings, are counted after it or reported by it.
pub proof fn no_answer_is_lost(
    v: RateLoopView,
    group: Seq<char>,
    rates: Seq<RateView>,
    queries: Seq<QueryView>,
    mixes: Seq<PhaseMixView>,
    worker: WorkerIdentity,
    event: RateEvent,
)
    requires
        expected(v, event),
        v.tally.executed < u64::MAX,
    ensures
        ({
            let (after, action) = stepped(v, group, rates, queries, mixes, worker, event);
            let reported = match action {
                RateActionView::Report(s) => s.queries_executed as int,
                RateActionView::Finish(Some(s)) => s.queries_executed as int,
                _ => 0,
            };
            let answers: int = if event is Answered {
                1
            } else {
                0
            };
            after.tally.executed + reported == v.tally.executed + answers
        }),
{
}

/// A worker that is done has reported all that it has counted.
pub proof fn nothing_is_left_at_the_end(
    v: RateLoopView,
    group: Seq<char>,
    rates: Seq<RateView>,
    queries: Seq<QueryView>,
    mixes: Seq<PhaseMixView>,
    worker: WorkerIdentity,
    event: RateEvent,
)
    requires
        expected(v, event),
        stepped(v, group, rates, queries, mixes, worker, event).0.stage == Stage::Done,
    ensures
        !stepped(
            v,
            group,
            rates,
            queries,
            mixes,
            worker,
            event,
        ).0.tally.counted_something(),
{
}

/// A phase begins at its moment: until then the worker stays in its phase and holds, and when
/// the moment has come it is in the new phase.
pub proof fn phases_begin_at_their_moment(
    v: RateLoopView,
    group: Seq<char>,
    rates: Seq<RateView>,
    queries: Seq<QueryView>,
    mixes: Seq<PhaseMixView>,
    worker: WorkerIdentity,
    transition: PhaseEvent,
    now_ns: i64,
)
    requires
        v.stage == Stage::Listening,
        transition is Transition,
    ensures
        ({
            let heard = RateEvent::Heard { said: Some(Some(transition)), now_ns };
            let (after, action) = stepped(v, group, rates, queries, mixes, worker, heard);
            let moment = transition->transition_time_ns;
            if moment > now_ns {
                let (then, next) = stepped(
                    after,
                    group,
                    rates,
                    queries,
                    mixes,
                    worker,
                    RateEvent::Held,
                );
                &&& after.now == v.now
                &&& action == RateActionView::Hold((moment - now_ns) as u64)
                &&& expected(after, RateEvent::Held)
                &&& then.now.phase == transition->Transition_to_phase@
                &&& next is Draw
            } else {
                after.now.phase == transition->Transition_to_phase@ && action is Draw
            }
        }),
{
}

/// No query is asked without a token taken: the worker asks only when it has looked at its
/// bucket and found a token, and then the units in it fall by those of a token.
pub proof fn a_query_costs_a_token(
    v: RateLoopView,
    group: Seq<char>,
    rates: Seq<RateView>,
    queries: Seq<QueryView>,
    mixes: Seq<PhaseMixView>,
    worker: WorkerIdentity,
    event: RateEvent,
)
    requires
        v.bucket.wf(),
        expected(v, event),
        stepped(v, group, rates, queries, mixes, worker, event).1 is Ask,
    ensures
        ({
            let after = stepped(v, group, rates, queries, mixes, worker, event).0;
            match event {
                RateEvent::Refilled(ns) => {
                    &&& units(v.bucket, ns) >= ratelimit::ONE_TOKEN
                    &&& after.bucket.tokens == units(v.bucket, ns) - ratelimit::ONE_TOKEN
                },
                _ => false,
            }
        }),
{
}

/// At a rate of zero, with less than a token in the bucket, nothing is asked: the worker
/// idles, however often it looks.
pub proof fn no_rate_no_query(
    v: RateLoopView,
    group: Seq<char>,
    rates: Seq<RateView>,
    queries: Seq<QueryView>,
    mixes: Seq<PhaseMixView>,
    worker: WorkerIdentity,
    elapsed_ns: u64,
)
    requires
        v.bucket.wf(),
        v.bucket.rate == 0,
        v.bucket.tokens < ratelimit::ONE_TOKEN,
        v.stage == Stage::Drawing,
    ensures
        ({
            let (after, action) = stepped(
                v,
                group,
                rates,
                queries,
                mixes,
                worker,
                RateEvent::Refilled(elapsed_ns),
            );
            let (again, next) = stepped(after, group, rates, queries, mixes, worker, RateEvent::Idled);
            &&& action is Idle
            &&& next is Measure
            &&& again.bucket.tokens == v.bucket.tokens
            &&& again.bucket.rate == 0
        }),
{
    assert(elapsed_ns * 0 == 0) by (nonlinear_arith);
}

/// What is done next brings what the worker then waits for, until it is done.
pub proof fn actions_fit_the_stage(
    v: RateLoopView,
    group: Seq<char>,
    rates: Seq<RateView>,
    queries: Seq<QueryView>,
    mixes: Seq<PhaseMixView>,
    worker: WorkerIdentity,
    event: RateEvent,
)
    requires
        expected(v, event),
    ensures
        ({
            let (after, action) = stepped(v, group, rates, queries, mixes, worker, event);
            match action {
                RateActionView::Measure => after.stage == Stage::Timing,
                RateActionView::Sample => after.stage == Stage::Sampling || after.stage
                    == Stage::Finishing,
                RateActionView::Report(_) => after.stage == Stage::Listening,
                RateActionView::Listen => after.stage == Stage::Listening,
                RateActionView::Hold(_) => after.stage == Stage::Holding && after.coming is Some,
                RateActionView::Draw => after.stage == Stage::Drawing,
                RateActionView::Idle => after.stage == Stage::Idling,
                RateActionView::Wait(_) => after.stage == Stage::Waiting,
                RateActionView::Ask { .. } => after.stage == Stage::Asking,
                RateActionView::Finish(_) => after.stage == Stage::Done,
            }
        }),
{
}

} // verus!
