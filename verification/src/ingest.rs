//! The ingest worker: at which rate it works in a phase, whether its data are those of an
//! incident, how often it sends an event again, and what it reports.
use vstd::prelude::*;
use vstd::string::*;
use crate::barrier::PhaseEvent;
use crate::failures::WorkerIdentity;
use crate::latency;
use crate::rates;
use crate::scenario::{RateView, Schema, WorkerRateTable};
use crate::session;
use crate::session::{Assignment, AssignmentView, Load};
use crate::snapshot::{SnapshotView, WorkerMetricSnapshot};
use crate::tally;
use crate::text;

verus! {

/// How often an event is sent before it counts as failed.
pub const SEND_ATTEMPTS: u32 = 3;

/// How much longer a worker sleeps after each attempt, in milliseconds.
pub const RETRY_STEP_MS: u64 = 50;

/// What an ingest worker is told.
pub struct IngestWorkerConfig {
    pub worker_index: u32,
    pub run_seed: u64,
    pub schema: Schema,
    pub rate_table: WorkerRateTable,
    pub kafka_bootstrap_servers: String,
    pub kafka_topic: String,
    pub phase_controller_addr: String,
    pub aggregator_addr: String,
}

/// The phases in which the data are those of an incident.
pub open spec fn is_incident(phase: Seq<char>) -> bool {
    phase == "incident_trigger"@ || phase == "ingestion_surge"@ || phase == "overlap"@
}

/// Whether the data of a phase are those of an incident.
pub fn is_incident_phase(phase: &str) -> (r: bool)
    ensures
        r == is_incident(phase@),
{
    text::same(phase, "incident_trigger") || text::same(phase, "ingestion_surge") || text::same(
        phase,
        "overlap",
    )
}

/// The rate of an ingest worker in a phase: the one of its own table, and none where the
/// table lacks the phase.
pub open spec fn ingest_rate(rates: Seq<RateView>, phase: Seq<char>) -> nat {
    match session::entry_for(rates, phase) {
        Some(e) => e.ingest_eps,
        None => 0,
    }
}

/// The rate of an ingest worker in a phase.
pub fn ingest_rate_in(table: &WorkerRateTable, phase: &str) -> (r: u64)
    ensures
        r == ingest_rate(table@.phases, phase@),
{
    match session::find_entry(table, phase) {
        Some(e) => e.ingest_eps,
        None => 0,
    }
}

/// What an ingest worker works on after an event; nothing where the run is over or the
/// controller is gone.
pub open spec fn followed(rates: Seq<RateView>, now: AssignmentView, event: Option<PhaseEvent>) -> Option<
    AssignmentView,
> {
    match event {
        None => None,
        Some(PhaseEvent::RunComplete) => None,
        Some(PhaseEvent::PrepareTransition { .. }) => Some(now),
        Some(PhaseEvent::Transition { to_phase, .. }) => Some(
            AssignmentView { phase: to_phase@, rate: ingest_rate(rates, to_phase@) },
        ),
    }
}

/// What an ingest worker works on after an event.
pub fn follow(table: &WorkerRateTable, now: &Assignment, event: &Option<PhaseEvent>) -> (r: Option<
    Assignment,
>)
    ensures
        match r {
            Some(a) => followed(table@.phases, now@, *event) == Some(a@),
            None => followed(table@.phases, now@, *event) is None,
        },
{
    match event {
        None => None,
        Some(PhaseEvent::RunComplete) => None,
        Some(PhaseEvent::PrepareTransition { .. }) => Some(
            Assignment { phase: now.phase.clone(), rate: now.rate },
        ),
        Some(PhaseEvent::Transition { to_phase, .. }) => Some(
            Assignment {
                phase: to_phase.clone(),
                rate: ingest_rate_in(table, to_phase.as_str()),
            },
        ),
    }
}

/// How long a worker sleeps, in milliseconds, before it sends an event again that has been
/// sent `failed` times; nothing where it gives up.
pub fn retry_after(failed: u32) -> (r: Option<u64>)
    requires
        1 <= failed,
    ensures
        match r {
            Some(ms) => failed < SEND_ATTEMPTS && ms == RETRY_STEP_MS * failed,
            None => failed >= SEND_ATTEMPTS,
        },
{
    if failed < SEND_ATTEMPTS {
        Some(RETRY_STEP_MS * failed as u64)
    } else {
        None
    }
}

/// What an ingest worker has counted since its last snapshot.
pub struct IngestTally {
    pub produced: u64,
    pub acknowledged: u64,
    pub failed: u64,
    /// How long each event took that was acknowledged.
    pub latencies: Vec<u64>,
}

pub struct IngestTallyView {
    pub produced: u64,
    pub acknowledged: u64,
    pub failed: u64,
    pub latencies: Seq<u64>,
}

impl View for IngestTally {
    type V = IngestTallyView;

    open spec fn view(&self) -> IngestTallyView {
        IngestTallyView {
            produced: self.produced,
            acknowledged: self.acknowledged,
            failed: self.failed,
            latencies: self.latencies@,
        }
    }
}

impl IngestTallyView {
    /// Nothing counted.
    pub open spec fn nothing() -> IngestTallyView {
        IngestTallyView { produced: 0, acknowledged: 0, failed: 0, latencies: Seq::empty() }
    }

    /// One more event: acknowledged after that time, or failed.
    pub open spec fn sent(self, acknowledged: bool, duration_ns: u64) -> IngestTallyView {
        if acknowledged {
            IngestTallyView {
                produced: tally::one_more(self.produced),
                acknowledged: tally::one_more(self.acknowledged),
                latencies: self.latencies.push(duration_ns),
                ..self
            }
        } else {
            IngestTallyView {
                produced: tally::one_more(self.produced),
                failed: tally::one_more(self.failed),
                ..self
            }
        }
    }

    /// There is something to report.
    pub open spec fn counted_something(self) -> bool {
        self.produced > 0 || self.acknowledged > 0 || self.failed > 0 || self.latencies.len() > 0
    }

    /// Every event was acknowledged or failed, as long as the counters do not reach their
    /// end.
    pub open spec fn consistent(self) -> bool {
        self.produced == self.acknowledged + self.failed || self.produced == u64::MAX
    }
}

/// Every event that was produced was acknowledged or failed.
pub proof fn events_are_accounted_for(t: IngestTallyView, acknowledged: bool, duration_ns: u64)
    requires
        t.consistent(),
    ensures
        IngestTallyView::nothing().consistent(),
        t.sent(acknowledged, duration_ns).consistent(),
{
}

/// The snapshot of an ingest worker.
pub open spec fn ingest_report(
    t: IngestTallyView,
    worker: WorkerIdentity,
    a: AssignmentView,
    load: Load,
) -> SnapshotView {
    SnapshotView {
        worker_id: worker.worker_id@,
        worker_mode: "ingest"@,
        worker_index: worker.worker_index,
        timestamp_ns: load.timestamp_ns,
        phase: a.phase,
        events_produced: t.produced,
        events_acknowledged: t.acknowledged,
        events_failed: t.failed,
        kafka_produce_latency: Some(latency::distribution(t.latencies)),
        queries_executed: 0,
        query_errors: 0,
        query_latency: None,
        by_type: Seq::empty(),
        query_group: Seq::empty(),
        cpu_ppm: load.cpu_ppm,
        memory_bytes: load.memory_bytes,
        target_rate: a.rate as u64,
        concurrent_sessions: 0,
        timed_out: Seq::empty(),
        errors: Seq::empty(),
    }
}

fn add_one(n: u64) -> (r: u64)
    ensures
        r == tally::one_more(n),
{
    if n == u64::MAX {
        n
    } else {
        n + 1
    }
}

impl IngestTally {
    /// Nothing counted.
    pub fn new() -> (r: IngestTally)
        ensures
            r@ == IngestTallyView::nothing(),
    {
        let r = IngestTally { produced: 0, acknowledged: 0, failed: 0, latencies: Vec::new() };
        assert(r@.latencies =~= Seq::<u64>::empty());
        r
    }

    /// Counts an event.
    pub fn record(&mut self, acknowledged: bool, duration_ns: u64)
        ensures
            final(self)@ == old(self)@.sent(acknowledged, duration_ns),
    {
        self.produced = add_one(self.produced);
        if acknowledged {
            self.acknowledged = add_one(self.acknowledged);
            self.latencies.push(duration_ns);
        } else {
            self.failed = add_one(self.failed);
        }
    }

    /// Whether there is something to report.
    pub fn counted_something(&self) -> (r: bool)
        ensures
            r == self@.counted_something(),
    {
        self.produced > 0 || self.acknowledged > 0 || self.failed > 0 || self.latencies.len() > 0
    }

    /// The snapshot of what was counted; it counts from nothing again.
    pub fn take_snapshot(&mut self, worker: &WorkerIdentity, now: &Assignment, load: Load) -> (r:
        WorkerMetricSnapshot)
        ensures
            r@ == ingest_report(old(self)@, *worker, now@, load),
            final(self)@ == IngestTallyView::nothing(),
    {
        let r = WorkerMetricSnapshot {
            worker_id: worker.worker_id.clone(),
            worker_mode: text::owned("ingest"),
            worker_index: worker.worker_index,
            timestamp_ns: load.timestamp_ns,
            phase: now.phase.clone(),
            events_produced: self.produced,
            events_acknowledged: self.acknowledged,
            events_failed: self.failed,
            kafka_produce_latency: Some(
                latency::latency_distribution_from_values(&self.latencies),
            ),
            queries_executed: 0,
            query_errors: 0,
            query_latency: None,
            query_latency_by_type: Vec::new(),
            query_group: String::new(),
            cpu_ppm: load.cpu_ppm,
            memory_bytes: load.memory_bytes,
            target_rate: now.rate,
            concurrent_sessions: 0,
            timed_out_queries: Vec::new(),
            query_error_records: Vec::new(),
        };
        proof {
            let want = ingest_report(self@, *worker, now@, load);
            assert(r@.by_type =~= want.by_type);
            assert(r@.query_group =~= want.query_group);
            assert(r@.timed_out =~= want.timed_out);
            assert(r@.errors =~= want.errors);
        }
        let fresh = IngestTally::new();
        self.produced = fresh.produced;
        self.acknowledged = fresh.acknowledged;
        self.failed = fresh.failed;
        self.latencies = fresh.latencies;
        r
    }
}

} // verus!
