//! A worker's side of the phases: what it does with each message of the phase controller,
//! when a transition takes effect, and how often it tries to connect.
use vstd::prelude::*;
use vstd::string::*;
use crate::text;

verus! {

/// How often a connection is tried.
pub const MAX_RETRIES: u32 = 30;

/// The longest time between two tries, in seconds.
pub const MAX_BACKOFF_SECONDS: u64 = 10;

/// What a worker learns from the phase controller.
pub enum PhaseEvent {
    /// A transition is coming.
    PrepareTransition { from_phase: String, to_phase: String },
    /// A transition at the given moment.
    Transition {
        from_phase: String,
        to_phase: String,
        transition_time_ns: i64,
        new_target_rate: i64,
    },
    /// The run is over.
    RunComplete,
}

/// What a worker tells the phase controller.
pub enum WorkerPayload {
    Ready,
    PrepareAck { phase: String },
    Done,
}

/// Who a worker is.
pub struct BarrierClient {
    pub worker_id: String,
    pub worker_mode: String,
    pub worker_index: i32,
}

/// A message of a worker to the phase controller.
pub struct WorkerMessage {
    pub worker_id: String,
    pub worker_mode: String,
    pub worker_index: i32,
    pub payload: WorkerPayload,
}

impl BarrierClient {
    /// The message is this worker's.
    pub open spec fn signs(self, m: WorkerMessage) -> bool {
        m.worker_id@ == self.worker_id@ && m.worker_mode@ == self.worker_mode@ && m.worker_index
            == self.worker_index
    }

    fn message(&self, payload: WorkerPayload) -> (r: WorkerMessage)
        ensures
            self.signs(r),
            r.payload == payload,
    {
        WorkerMessage {
            worker_id: self.worker_id.clone(),
            worker_mode: self.worker_mode.clone(),
            worker_index: self.worker_index,
            payload,
        }
    }

    /// The message by which the worker joins.
    pub fn ready(&self) -> (r: WorkerMessage)
        ensures
            self.signs(r),
            r.payload is Ready,
    {
        self.message(WorkerPayload::Ready)
    }

    /// The message by which the worker leaves.
    pub fn done(&self) -> (r: WorkerMessage)
        ensures
            self.signs(r),
            r.payload is Done,
    {
        self.message(WorkerPayload::Done)
    }

    /// What the worker answers to an event: it acknowledges a coming transition by the
    /// phase that it leaves, and answers nothing else.
    pub fn answer(&self, event: &PhaseEvent) -> (r: Option<WorkerMessage>)
        ensures
            match *event {
                PhaseEvent::PrepareTransition { from_phase, .. } => r is Some && self.signs(
                    r->0,
                ) && r->0.payload is PrepareAck && r->0.payload->phase@ == from_phase@,
                _ => r is None,
            },
    {
        match event {
            PhaseEvent::PrepareTransition { from_phase, .. } => Some(
                self.message(WorkerPayload::PrepareAck { phase: from_phase.clone() }),
            ),
            _ => None,
        }
    }
}

/// What a worker that waits for its next phase does after an event.
pub enum WaitStep {
    /// Wait for the next event.
    Again,
    /// Wait this long, then work in this phase at this rate.
    Enter { wait_ns: u64, phase: String, rate: i64 },
    /// Stop.
    Stop,
}

/// The time until a moment, nothing where it is past.
pub open spec fn time_until(moment: int, now: int) -> int {
    if moment > now {
        moment - now
    } else {
        0
    }
}

/// How long a worker holds an event back: a transition until its moment, nothing else at all.
pub open spec fn hold_before(event: Option<PhaseEvent>, now_ns: i64) -> int {
    match event {
        Some(PhaseEvent::Transition { transition_time_ns, .. }) => time_until(
            transition_time_ns as int,
            now_ns as int,
        ),
        _ => 0,
    }
}

/// How long a worker holds an event back.
pub fn hold_of(event: &Option<PhaseEvent>, now_ns: i64) -> (r: u64)
    ensures
        r == hold_before(*event, now_ns),
{
    match event {
        Some(PhaseEvent::Transition { transition_time_ns, .. }) => {
            let wait: i128 = *transition_time_ns as i128 - now_ns as i128;
            if wait > 0 {
                wait as u64
            } else {
                0
            }
        },
        _ => 0,
    }
}

/// What a worker that waits for its next phase does after an event; none means that the
/// controller is gone.
pub fn wait_for_transition(event: &Option<PhaseEvent>, now_ns: i64) -> (r: WaitStep)
    ensures
        match *event {
            None => r is Stop,
            Some(PhaseEvent::RunComplete) => r is Stop,
            Some(PhaseEvent::PrepareTransition { .. }) => r is Again,
            Some(
                PhaseEvent::Transition { to_phase, transition_time_ns, new_target_rate, .. },
            ) => r matches WaitStep::Enter { wait_ns, phase, rate } && wait_ns == time_until(
                transition_time_ns as int,
                now_ns as int,
            ) && phase@ == to_phase@ && rate == new_target_rate,
        },
{
    match event {
        None => WaitStep::Stop,
        Some(PhaseEvent::RunComplete) => WaitStep::Stop,
        Some(PhaseEvent::PrepareTransition { .. }) => WaitStep::Again,
        Some(PhaseEvent::Transition { to_phase, transition_time_ns, new_target_rate, .. }) => {
            let wait: i128 = *transition_time_ns as i128 - now_ns as i128;
            WaitStep::Enter {
                wait_ns: if wait > 0 {
                    wait as u64
                } else {
                    0
                },
                phase: to_phase.clone(),
                rate: *new_target_rate,
            }
        },
    }
}

// ---------------------------------------------------------------------------
// Trying again
// ---------------------------------------------------------------------------

/// The tries to connect: how many have failed, and how long to wait after the next that
/// fails.
#[derive(Clone, Copy, PartialEq, Eq, Structural, Debug)]
pub struct Retries {
    pub failed: u32,
    pub backoff_s: u64,
}

/// The time to wait after the `n`-th failure: a second at first, twice as long each time,
/// and ten seconds at most.
pub open spec fn backoff_after(n: int) -> int
    decreases n,
{
    if n <= 1 {
        1
    } else if backoff_after(n - 1) * 2 > MAX_BACKOFF_SECONDS {
        MAX_BACKOFF_SECONDS as int
    } else {
        backoff_after(n - 1) * 2
    }
}

impl Retries {
    /// No more tries than there may be have failed, and the next wait is the one due.
    pub open spec fn wf(self) -> bool {
        self.failed < MAX_RETRIES && self.backoff_s == backoff_after(self.failed + 1)
    }

    /// Before the first try.
    pub fn new() -> (r: Retries)
        ensures
            r.wf(),
            r.failed == 0,
    {
        Retries { failed: 0, backoff_s: 1 }
    }

    /// A try has failed. Gives how many seconds to wait before the next, or nothing where
    /// it was the last.
    pub fn after_failure(&mut self) -> (r: Option<u64>)
        requires
            old(self).wf(),
        ensures
            match r {
                Some(s) => old(self).failed + 1 < MAX_RETRIES && s == backoff_after(
                    old(self).failed + 1,
                ) && final(self).wf() && final(self).failed == old(self).failed + 1,
                None => old(self).failed + 1 == MAX_RETRIES && *final(self) == *old(self),
            },
    {
        if self.failed + 1 == MAX_RETRIES {
            return None;
        }
        let wait: u64 = self.backoff_s;
        proof {
            backoff_is_bounded(self.failed + 1);
        }
        self.failed = self.failed + 1;
        self.backoff_s = if wait * 2 > MAX_BACKOFF_SECONDS {
            MAX_BACKOFF_SECONDS
        } else {
            wait * 2
        };
        Some(wait)
    }
}

/// The waits grow, and never beyond ten seconds.
pub proof fn backoff_is_bounded(n: int)
    requires
        n >= 1,
    ensures
        1 <= backoff_after(n) <= MAX_BACKOFF_SECONDS,
        backoff_after(n) <= backoff_after(n + 1),
    decreases n,
{
    if n > 1 {
        backoff_is_bounded(n - 1);
    }
}

/// What is said when the phase controller could not be reached.
pub fn controller_unreachable(error: &str) -> (r: String)
    ensures
        r@ == "Failed to connect to PhaseController after "@ + text::decimal(MAX_RETRIES as nat)
            + " attempts: "@ + error@,
{
    text::join4(
        "Failed to connect to PhaseController after ",
        text::decimal_u64(MAX_RETRIES as u64).as_str(),
        " attempts: ",
        error,
    )
}

/// What is said when the aggregator could not be reached.
pub fn aggregator_unreachable(error: &str) -> (r: String)
    ensures
        r@ == "Failed to connect to aggregator after "@ + text::decimal(MAX_RETRIES as nat)
            + " retries: "@ + error@,
{
    text::join4(
        "Failed to connect to aggregator after ",
        text::decimal_u64(MAX_RETRIES as u64).as_str(),
        " retries: ",
        error,
    )
}

/// What is said when the aggregator did not take the snapshots.
pub fn streaming_failed(error: &str) -> (r: String)
    ensures
        r@ == "Metrics streaming failed after "@ + text::decimal(MAX_RETRIES as nat)
            + " retries: "@ + error@,
{
    text::join4(
        "Metrics streaming failed after ",
        text::decimal_u64(MAX_RETRIES as u64).as_str(),
        " retries: ",
        error,
    )
}

} // verus!
