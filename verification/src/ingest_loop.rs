//! The loop of an ingest worker. It goes from step to step: what has happened decides what is
//! done next. Once a second the worker reports; between reports it listens to the phase
//! controller, waits for a token, and generates one event, which it sends until it is
//! acknowledged or has failed too often.
use vstd::prelude::*;
use vstd::string::*;
use crate::barrier;
use crate::barrier::PhaseEvent;
use crate::failures::WorkerIdentity;
use crate::generator::{DataGenerator, DataGeneratorView};
use crate::ingest;
use crate::ingest::{IngestTally, IngestTallyView};
use crate::json::{Doc, Json};
use crate::rate_loop;
use crate::ratelimit;
use crate::ratelimit::{Acquire, TokenBucketRateLimiter};
use crate::rates;
use crate::scenario::{RateView, WorkerRateTable};
use crate::session;
use crate::session::{Assignment, AssignmentView, Load};
use crate::session_loop::REPORT_NS;
use crate::snapshot::{SnapshotView, WorkerMetricSnapshot};

verus! {

/// What a worker waits for.
#[derive(Clone, Copy, PartialEq, Eq, Structural, Debug)]
pub enum Stage {
    /// How long ago the last report was.
    Timing,
    /// The load, for a report.
    Sampling,
    /// The controller.
    Listening,
    /// The moment of a transition.
    Holding,
    /// How long ago its bucket was filled.
    Drawing,
    /// The end of a second without a rate.
    Idling,
    /// The time at which there is a token.
    Waiting,
    /// The time of the next event.
    Stamping,
    /// What came of sending the event.
    Sending,
    /// The end of the pause before it sends the event again.
    Pausing,
    /// The load, for the last report.
    Finishing,
    /// Nothing: the run is over, or no event can be made.
    Done,
}

/// What has happened.
pub enum IngestEvent {
    /// The last report was so many nanoseconds ago.
    Elapsed(u64),
    /// The load was read.
    Sampled(Load),
    /// The controller said something, was silent, or is gone; and the time.
    Heard { said: Option<Option<PhaseEvent>>, now_ns: i64 },
    /// The moment of the transition has come.
    Held,
    /// The bucket was filled so many nanoseconds ago: the first time, or after a pause.
    Refilled(u64),
    /// The second without a rate is over.
    Idled,
    /// The time, as events have it.
    Stamped(String),
    /// The event was acknowledged or not, so many nanoseconds after it was first sent.
    Sent { acknowledged: bool, elapsed_ns: u64 },
    /// The pause is over.
    Paused,
}

/// What is done next.
pub enum IngestAction {
    /// See how long ago the last report was.
    Measure,
    /// Read the load.
    Sample,
    /// Hand in the snapshot, count the time from here, and listen to the controller.
    Report(WorkerMetricSnapshot),
    /// Listen to the controller.
    Listen,
    /// Pause for so many nanoseconds, until the moment of a transition.
    Hold(u64),
    /// See how long ago the bucket was filled.
    Draw,
    /// Pause for a second.
    Idle,
    /// Pause for so many nanoseconds, and see how long ago the bucket was filled.
    Wait(u128),
    /// See what time it is.
    Stamp,
    /// Send this event, and remember it and the time.
    Send(Json),
    /// Pause for so many milliseconds.
    Pause(u64),
    /// Send the same event again.
    Resend,
    /// Give up: a field of the event stands in the way of another.
    Fail,
    /// Hand in the snapshot, if there is one, and stop.
    Finish(Option<WorkerMetricSnapshot>),
}

pub enum IngestActionView {
    Measure,
    Sample,
    Report(SnapshotView),
    Listen,
    Hold(u64),
    Draw,
    Idle,
    Wait(u128),
    Stamp,
    Send(Doc),
    Pause(u64),
    Resend,
    Fail,
    Finish(Option<SnapshotView>),
}

impl View for IngestAction {
    type V = IngestActionView;

    open spec fn view(&self) -> IngestActionView {
        match self {
            IngestAction::Measure => IngestActionView::Measure,
            IngestAction::Sample => IngestActionView::Sample,
            IngestAction::Report(s) => IngestActionView::Report(s@),
            IngestAction::Listen => IngestActionView::Listen,
            IngestAction::Hold(ns) => IngestActionView::Hold(*ns),
            IngestAction::Draw => IngestActionView::Draw,
            IngestAction::Idle => IngestActionView::Idle,
            IngestAction::Wait(ns) => IngestActionView::Wait(*ns),
            IngestAction::Stamp => IngestActionView::Stamp,
            IngestAction::Send(e) => IngestActionView::Send(e.doc()),
            IngestAction::Pause(ms) => IngestActionView::Pause(*ms),
            IngestAction::Resend => IngestActionView::Resend,
            IngestAction::Fail => IngestActionView::Fail,
            IngestAction::Finish(Some(s)) => IngestActionView::Finish(Some(s@)),
            IngestAction::Finish(None) => IngestActionView::Finish(None),
        }
    }
}

/// An ingest worker.
pub struct IngestLoop {
    pub stage: Stage,
    pub now: Assignment,
    /// What the worker works on from the moment of the transition on for which it holds.
    pub coming: Option<Assignment>,
    pub tally: IngestTally,
    pub bucket: TokenBucketRateLimiter,
    pub generator: DataGenerator,
    /// How often sending the event has failed.
    pub failures: u32,
}

pub struct IngestLoopView {
    pub stage: Stage,
    pub now: AssignmentView,
    pub coming: Option<AssignmentView>,
    pub tally: IngestTallyView,
    pub bucket: TokenBucketRateLimiter,
    pub generator: DataGeneratorView,
    pub failures: u32,
}

impl View for IngestLoop {
    type V = IngestLoopView;

    open spec fn view(&self) -> IngestLoopView {
        IngestLoopView {
            stage: self.stage,
            now: self.now@,
            coming: session::opt_assignment(self.coming),
            tally: self.tally@,
            bucket: self.bucket,
            generator: self.generator@,
            failures: self.failures,
        }
    }
}

impl IngestLoopView {
    /// The bucket and the generator are in order, and the event can be sent once more.
    pub open spec fn wf(self) -> bool {
        &&& self.bucket.wf()
        &&& self.generator.wf()
        &&& self.failures < ingest::SEND_ATTEMPTS
    }
}

/// What can happen at a stage: only what the worker waits for.
pub open spec fn expected(v: IngestLoopView, event: IngestEvent) -> bool {
    match event {
        IngestEvent::Elapsed(_) => v.stage == Stage::Timing,
        IngestEvent::Sampled(_) => v.stage == Stage::Sampling || v.stage == Stage::Finishing,
        IngestEvent::Heard { .. } => v.stage == Stage::Listening,
        IngestEvent::Held => v.stage == Stage::Holding && v.coming is Some,
        IngestEvent::Refilled(_) => v.stage == Stage::Drawing || v.stage == Stage::Waiting,
        IngestEvent::Idled => v.stage == Stage::Idling,
        IngestEvent::Stamped(_) => v.stage == Stage::Stamping,
        IngestEvent::Sent { .. } => v.stage == Stage::Sending,
        IngestEvent::Paused => v.stage == Stage::Pausing,
    }
}

/// Events per second as the rate of a bucket.
pub open spec fn bucket_rate(eps: nat) -> u64 {
    rates::at_most_u64(eps as int * 1000) as u64
}

/// The worker in a phase: with its rate, and with the data of an incident where it is one; and
/// what it does.
pub open spec fn entering(v: IngestLoopView, now: AssignmentView) -> (
    IngestLoopView,
    IngestActionView,
) {
    (
        IngestLoopView {
            stage: Stage::Drawing,
            now,
            coming: None,
            bucket: rate_loop::at_rate(v.bucket, bucket_rate(now.rate)),
            generator: DataGeneratorView {
                incident: ingest::is_incident(now.phase),
                ..v.generator
            },
            ..v
        },
        IngestActionView::Draw,
    )
}

/// The worker when it wants a token, and what it does: it takes the one that is there, and
/// waits for one that is not.
pub open spec fn drawing(v: IngestLoopView, elapsed_ns: u64) -> (IngestLoopView, IngestActionView) {
    let there = rate_loop::units(v.bucket, elapsed_ns);
    if there >= ratelimit::ONE_TOKEN {
        let bucket = TokenBucketRateLimiter {
            tokens: (there - ratelimit::ONE_TOKEN) as i128,
            missed_ops: 0,
            ..v.bucket
        };
        (IngestLoopView { stage: Stage::Stamping, bucket, ..v }, IngestActionView::Stamp)
    } else {
        let bucket = TokenBucketRateLimiter { tokens: there as i128, ..v.bucket };
        if v.bucket.rate == 0 {
            (IngestLoopView { stage: Stage::Idling, bucket, ..v }, IngestActionView::Idle)
        } else {
            (
                IngestLoopView { stage: Stage::Waiting, bucket, ..v },
                IngestActionView::Wait(
                    ratelimit::time_to_token(there, v.bucket.rate as int) as u128,
                ),
            )
        }
    }
}

/// The worker after something has happened, and what it does next.
pub open spec fn stepped(
    v: IngestLoopView,
    rates: Seq<RateView>,
    worker: WorkerIdentity,
    event: IngestEvent,
) -> (IngestLoopView, IngestActionView) {
    match event {
        IngestEvent::Elapsed(ns) => if ns >= REPORT_NS {
            (IngestLoopView { stage: Stage::Sampling, ..v }, IngestActionView::Sample)
        } else {
            (IngestLoopView { stage: Stage::Listening, ..v }, IngestActionView::Listen)
        },
        IngestEvent::Sampled(load) => if v.stage == Stage::Sampling {
            (
                IngestLoopView { stage: Stage::Listening, tally: IngestTallyView::nothing(), ..v },
                IngestActionView::Report(ingest::ingest_report(v.tally, worker, v.now, load)),
            )
        } else if v.tally.counted_something() {
            (
                IngestLoopView { stage: Stage::Done, tally: IngestTallyView::nothing(), ..v },
                IngestActionView::Finish(
                    Some(ingest::ingest_report(v.tally, worker, v.now, load)),
                ),
            )
        } else {
            (IngestLoopView { stage: Stage::Done, ..v }, IngestActionView::Finish(None))
        },
        IngestEvent::Heard { said, now_ns } => match said {
            None => (IngestLoopView { stage: Stage::Drawing, ..v }, IngestActionView::Draw),
            Some(e) => match ingest::followed(rates, v.now, e) {
                Some(now) => if barrier::hold_before(e, now_ns) > 0 {
                    (
                        IngestLoopView { stage: Stage::Holding, coming: Some(now), ..v },
                        IngestActionView::Hold(barrier::hold_before(e, now_ns) as u64),
                    )
                } else {
                    entering(v, now)
                },
                None => (
                    IngestLoopView { stage: Stage::Finishing, ..v },
                    IngestActionView::Sample,
                ),
            },
        },
        IngestEvent::Held => entering(v, v.coming->0),
        IngestEvent::Refilled(ns) => drawing(v, ns),
        IngestEvent::Idled => {
            let bucket = TokenBucketRateLimiter {
                missed_ops: ratelimit::one_more_missed(v.bucket.missed_ops),
                ..v.bucket
            };
            (IngestLoopView { stage: Stage::Timing, bucket, ..v }, IngestActionView::Measure)
        },
        IngestEvent::Stamped(stamp) => match v.generator.next_event(stamp@) {
            Some((event, generator)) => (
                IngestLoopView { stage: Stage::Sending, generator, failures: 0, ..v },
                IngestActionView::Send(event),
            ),
            None => (
                IngestLoopView { stage: Stage::Done, generator: v.generator, failures: 0, ..v },
                IngestActionView::Fail,
            ),
        },
        IngestEvent::Sent { acknowledged, elapsed_ns } => if !acknowledged && v.failures + 1
            < ingest::SEND_ATTEMPTS {
            (
                IngestLoopView {
                    stage: Stage::Pausing,
                    failures: (v.failures + 1) as u32,
                    ..v
                },
                IngestActionView::Pause((ingest::RETRY_STEP_MS * (v.failures + 1)) as u64),
            )
        } else {
            (
                IngestLoopView {
                    stage: Stage::Timing,
                    tally: v.tally.sent(acknowledged, elapsed_ns),
                    ..v
                },
                IngestActionView::Measure,
            )
        },
        IngestEvent::Paused => (
            IngestLoopView { stage: Stage::Sending, ..v },
            IngestActionView::Resend,
        ),
    }
}

/// The worker at the start of its first phase, with a full bucket.
pub open spec fn begun(now: AssignmentView, generator: DataGeneratorView) -> IngestLoopView {
    let rate = bucket_rate(now.rate);
    let max = ratelimit::burst(rate as int) as i128;
    IngestLoopView {
        stage: Stage::Timing,
        now,
        coming: None,
        tally: IngestTallyView::nothing(),
        bucket: TokenBucketRateLimiter { rate, tokens: max, max_tokens: max, missed_ops: 0 },
        generator: DataGeneratorView { incident: ingest::is_incident(now.phase), ..generator },
        failures: 0,
    }
}

fn bucket_rate_of(eps: u64) -> (r: u64)
    ensures
        r == bucket_rate(eps as nat),
{
    let rate: u128 = eps as u128 * 1000;
    if rate > u64::MAX as u128 {
        u64::MAX
    } else {
        rate as u64
    }
}

impl IngestLoop {
    /// A worker at the start of its first phase.
    pub fn new(now: Assignment, generator: DataGenerator) -> (r: IngestLoop)
        requires
            generator@.wf(),
        ensures
            r@ == begun(now@, generator@),
            r@.wf(),
    {
        let mut generator = generator;
        generator.set_incident_mode(ingest::is_incident_phase(now.phase.as_str()));
        let bucket = TokenBucketRateLimiter::new(bucket_rate_of(now.rate));
        IngestLoop {
            stage: Stage::Timing,
            now,
            coming: None,
            tally: IngestTally::new(),
            bucket,
            generator,
            failures: 0,
        }
    }

    fn enter(&mut self, now: Assignment) -> (r: IngestAction)
        requires
            old(self)@.wf(),
        ensures
            (final(self)@, r@) == entering(old(self)@, now@),
            final(self)@.wf(),
    {
        self.bucket.set_rate(bucket_rate_of(now.rate));
        self.generator.set_incident_mode(ingest::is_incident_phase(now.phase.as_str()));
        self.now = now;
        self.coming = None;
        self.stage = Stage::Drawing;
        IngestAction::Draw
    }

    /// Takes in what has happened, and tells what is done next. Where no event can be made, the
    /// generator has drawn part of what the event takes.
    pub fn step(&mut self, table: &WorkerRateTable, worker: &WorkerIdentity, event: IngestEvent) -> (r:
        IngestAction)
        requires
            old(self)@.wf(),
            expected(old(self)@, event),
        ensures
            r@ == stepped(old(self)@, table@.phases, *worker, event).1,
            !(r is Fail) ==> final(self)@ == stepped(
                old(self)@,
                table@.phases,
                *worker,
                event,
            ).0,
            r is Fail ==> final(self)@ == (IngestLoopView {
                generator: final(self)@.generator,
                ..stepped(old(self)@, table@.phases, *worker, event).0
            }),
            final(self)@.wf(),
    {
        match event {
            IngestEvent::Elapsed(ns) => if ns >= REPORT_NS {
                self.stage = Stage::Sampling;
                IngestAction::Sample
            } else {
                self.stage = Stage::Listening;
                IngestAction::Listen
            },
            IngestEvent::Sampled(load) => if self.stage == Stage::Sampling {
                self.stage = Stage::Listening;
                IngestAction::Report(self.tally.take_snapshot(worker, &self.now, load))
            } else {
                self.stage = Stage::Done;
                if self.tally.counted_something() {
                    IngestAction::Finish(Some(self.tally.take_snapshot(worker, &self.now, load)))
                } else {
                    IngestAction::Finish(None)
                }
            },
            IngestEvent::Heard { said, now_ns } => match said {
                None => {
                    self.stage = Stage::Drawing;
                    IngestAction::Draw
                },
                Some(e) => match ingest::follow(table, &self.now, &e) {
                    Some(now) => {
                        let wait: u64 = barrier::hold_of(&e, now_ns);
                        if wait > 0 {
                            self.coming = Some(now);
                            self.stage = Stage::Holding;
                            IngestAction::Hold(wait)
                        } else {
                            self.enter(now)
                        }
                    },
                    None => {
                        self.stage = Stage::Finishing;
                        IngestAction::Sample
                    },
                },
            },
            IngestEvent::Held => match self.coming.take() {
                Some(now) => self.enter(now),
                None => IngestAction::Draw,
            },
            IngestEvent::Refilled(ns) => match self.bucket.acquire(ns) {
                Acquire::Granted { .. } => {
                    self.stage = Stage::Stamping;
                    IngestAction::Stamp
                },
                Acquire::Idle => {
                    self.stage = Stage::Idling;
                    IngestAction::Idle
                },
                Acquire::Wait { wait_ns } => {
                    self.stage = Stage::Waiting;
                    IngestAction::Wait(wait_ns)
                },
            },
            IngestEvent::Idled => {
                self.bucket.after_idle();
                self.stage = Stage::Timing;
                IngestAction::Measure
            },
            IngestEvent::Stamped(stamp) => {
                self.failures = 0;
                match self.generator.generate_event(stamp.as_str()) {
                    Some(event) => {
                        self.stage = Stage::Sending;
                        IngestAction::Send(event)
                    },
                    None => {
                        self.stage = Stage::Done;
                        IngestAction::Fail
                    },
                }
            },
            IngestEvent::Sent { acknowledged, elapsed_ns } => {
                if !acknowledged {
                    match ingest::retry_after(self.failures + 1) {
                        Some(ms) => {
                            self.failures = self.failures + 1;
                            self.stage = Stage::Pausing;
                            return IngestAction::Pause(ms);
                        },
                        None => {},
                    }
                }
                self.tally.record(acknowledged, elapsed_ns);
                self.stage = Stage::Timing;
                IngestAction::Measure
            },
            IngestEvent::Paused => {
                self.stage = Stage::Sending;
                IngestAction::Resend
            },
        }
    }
}

// ---------------------------------------------------------------------------
// What holds from step to step
// ---------------------------------------------------------------------------

/// No event is lost: what was counted before a step, and the event
/// whose sending it ends, are counted after it or reported by it.
pub proof fn no_event_is_lost(
    v: IngestLoopView,
    rates: Seq<RateView>,
    worker: WorkerIdentity,
    event: IngestEvent,
)
    requires
        expected(v, event),
        v.tally.produced < u64::MAX,
    ensures
        ({
            let (after, action) = stepped(v, rates, worker, event);
            let reported = match action {
                IngestActionView::Report(s) => s.events_produced as int,
                IngestActionView::Finish(Some(s)) => s.events_produced as int,
                _ => 0,
            };
            let ended: int = if event is Sent && after.stage == Stage::Timing {
                1
            } else {
                0
            };
            after.tally.produced + reported == v.tally.produced + ended
        }),
{
}

/// A worker whose run is over has reported all that it has counted.
pub proof fn nothing_is_left_at_the_end(
    v: IngestLoopView,
    rates: Seq<RateView>,
    worker: WorkerIdentity,
    event: IngestEvent,
)
    requires
        expected(v, event),
        stepped(v, rates, worker, event).1 is Finish,
    ensures
        stepped(v, rates, worker, event).0.stage == Stage::Done,
        !stepped(v, rates, worker, event).0.tally.counted_something(),
{
}

/// A phase begins at its moment: until then the worker stays in its phase and holds, and when
/// the moment has come it is in the new phase.
pub proof fn phases_begin_at_their_moment(
    v: IngestLoopView,
    rates: Seq<RateView>,
    worker: WorkerIdentity,
    transition: PhaseEvent,
    now_ns: i64,
)
    requires
        v.stage == Stage::Listening,
        transition is Transition,
    ensures
        ({
            let heard = IngestEvent::Heard { said: Some(Some(transition)), now_ns };
            let (after, action) = stepped(v, rates, worker, heard);
            let moment = transition->transition_time_ns;
            if moment > now_ns {
                let (then, next) = stepped(after, rates, worker, IngestEvent::Held);
                &&& after.now == v.now
                &&& action == IngestActionView::Hold((moment - now_ns) as u64)
                &&& expected(after, IngestEvent::Held)
                &&& then.now.phase == transition->Transition_to_phase@
                &&& next is Draw
            } else {
                after.now.phase == transition->Transition_to_phase@ && action is Draw
            }
        }),
{
}

/// No event is made, and so none is sent, without a token taken: the worker asks for the time
/// of an event only when it has looked at its bucket and found a token, and then the units in
/// it fall by those of a token. A new event is sent only at that time, and later attempts send
/// the same one.
pub proof fn an_event_costs_a_token(
    v: IngestLoopView,
    rates: Seq<RateView>,
    worker: WorkerIdentity,
    event: IngestEvent,
)
    requires
        v.wf(),
        expected(v, event),
    ensures
        ({
            let (after, action) = stepped(v, rates, worker, event);
            &&& action is Send ==> v.stage == Stage::Stamping
            &&& after.stage == Stage::Stamping ==> match event {
                IngestEvent::Refilled(ns) => {
                    &&& rate_loop::units(v.bucket, ns) >= ratelimit::ONE_TOKEN
                    &&& after.bucket.tokens == rate_loop::units(v.bucket, ns)
                        - ratelimit::ONE_TOKEN
                },
                _ => false,
            }
        }),
{
}

/// An event that fails is sent again until it has been sent three times: it counts as failed
/// exactly when the third attempt fails.
pub proof fn three_attempts(
    v: IngestLoopView,
    rates: Seq<RateView>,
    worker: WorkerIdentity,
    elapsed_ns: u64,
)
    requires
        v.wf(),
        v.stage == Stage::Sending,
    ensures
        ({
            let event = IngestEvent::Sent { acknowledged: false, elapsed_ns };
            let (after, action) = stepped(v, rates, worker, event);
            if v.failures == 2 {
                action is Measure && after.tally == v.tally.sent(false, elapsed_ns)
            } else {
                action == IngestActionView::Pause((50 * (v.failures + 1)) as u64) && after.tally
                    == v.tally && after.failures == v.failures + 1
            }
        }),
{
}

/// What is done next brings what the worker then waits for, until it is done.
pub proof fn actions_fit_the_stage(
    v: IngestLoopView,
    rates: Seq<RateView>,
    worker: WorkerIdentity,
    event: IngestEvent,
)
    requires
        expected(v, event),
    ensures
        ({
            let (after, action) = stepped(v, rates, worker, event);
            match action {
                IngestActionView::Measure => after.stage == Stage::Timing,
                IngestActionView::Sample => after.stage == Stage::Sampling || after.stage
                    == Stage::Finishing,
                IngestActionView::Report(_) => after.stage == Stage::Listening,
                IngestActionView::Listen => after.stage == Stage::Listening,
                IngestActionView::Hold(_) => after.stage == Stage::Holding && after.coming is Some,
                IngestActionView::Draw => after.stage == Stage::Drawing,
                IngestActionView::Idle => after.stage == Stage::Idling,
                IngestActionView::Wait(_) => after.stage == Stage::Waiting,
                IngestActionView::Stamp => after.stage == Stage::Stamping,
                IngestActionView::Send(_) => after.stage == Stage::Sending,
                IngestActionView::Pause(_) => after.stage == Stage::Pausing,
                IngestActionView::Resend => after.stage == Stage::Sending,
                IngestActionView::Fail => after.stage == Stage::Done,
                IngestActionView::Finish(_) => after.stage == Stage::Done,
            }
        }),
{
}

} // verus!
