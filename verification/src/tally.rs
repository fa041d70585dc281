//! What a query worker counts in one second: every answer and failure goes into a tally,
//! and once a second the tally becomes a snapshot and starts again from nothing.
use vstd::prelude::*;
use vstd::string::*;
use crate::adapter::{QueryResult, QueryResultView};
use crate::failures;
use crate::failures::WorkerIdentity;
use crate::latency;
use crate::model;
use crate::rates;
use crate::scenario::{QueryDef, QueryView};
use crate::snapshot::{
    ErrorView, QueryErrorRecord, QueryTypeLatency, SnapshotView, TimedOutQueryRecord, TimeoutView,
    TypeView, WorkerMetricSnapshot,
};
use crate::text;

verus! {

/// The least time that a worker gives a query, in milliseconds.
pub const MIN_WORKER_TIMEOUT_MS: u64 = 5000;

/// What a worker has counted since its last snapshot.
pub struct Tally {
    pub executed: u64,
    pub errors: u64,
    /// All latencies, as they came.
    pub latencies: Vec<u64>,
    /// Latencies by the query's name; queries stand in the order of their first latency.
    pub latencies_by_query: Vec<(String, Vec<u64>)>,
    pub executed_by_query: Vec<(String, u64)>,
    pub errors_by_query: Vec<(String, u64)>,
    pub timeouts: Vec<TimedOutQueryRecord>,
    pub error_records: Vec<QueryErrorRecord>,
}

pub struct TallyView {
    pub executed: u64,
    pub errors: u64,
    pub latencies: Seq<u64>,
    pub latencies_by_query: Seq<(Seq<char>, Seq<u64>)>,
    pub executed_by_query: Seq<(Seq<char>, u64)>,
    pub errors_by_query: Seq<(Seq<char>, u64)>,
    pub timeouts: Seq<TimeoutView>,
    pub error_records: Seq<ErrorView>,
}

impl View for Tally {
    type V = TallyView;

    open spec fn view(&self) -> TallyView {
        TallyView {
            executed: self.executed,
            errors: self.errors,
            latencies: self.latencies@,
            latencies_by_query: model::vmap(self.latencies_by_query@),
            executed_by_query: model::vmap(self.executed_by_query@),
            errors_by_query: model::vmap(self.errors_by_query@),
            timeouts: model::vmap(self.timeouts@),
            error_records: model::vmap(self.error_records@),
        }
    }
}

/// A count and one more; the greatest count stays.
pub open spec fn one_more(n: u64) -> u64 {
    rates::at_most_u64(n + 1) as u64
}

/// The count under a name; nothing counted is zero.
pub open spec fn count_of(table: Seq<(Seq<char>, u64)>, name: Seq<char>) -> u64 {
    match model::find(table, name) {
        Some(n) => n,
        None => 0,
    }
}

/// The table with one more under that name.
pub open spec fn counted(table: Seq<(Seq<char>, u64)>, name: Seq<char>) -> Seq<(Seq<char>, u64)> {
    model::bind(table, name, one_more(count_of(table, name)))
}

/// The values under a name.
pub open spec fn values_of(table: Seq<(Seq<char>, Seq<u64>)>, name: Seq<char>) -> Seq<u64> {
    match model::find(table, name) {
        Some(v) => v,
        None => Seq::empty(),
    }
}

/// The table with one more value under that name.
pub open spec fn noted(table: Seq<(Seq<char>, Seq<u64>)>, name: Seq<char>, value: u64) -> Seq<
    (Seq<char>, Seq<u64>),
> {
    model::bind(table, name, values_of(table, name).push(value))
}

impl TallyView {
    /// Nothing counted.
    pub open spec fn nothing() -> TallyView {
        TallyView {
            executed: 0,
            errors: 0,
            latencies: Seq::empty(),
            latencies_by_query: Seq::empty(),
            executed_by_query: Seq::empty(),
            errors_by_query: Seq::empty(),
            timeouts: Seq::empty(),
            error_records: Seq::empty(),
        }
    }

    /// One more execution of the query.
    pub open spec fn executing(self, name: Seq<char>) -> TallyView {
        TallyView {
            executed: one_more(self.executed),
            executed_by_query: counted(self.executed_by_query, name),
            ..self
        }
    }

    /// One more latency of the query.
    pub open spec fn timing(self, name: Seq<char>, duration_ns: u64) -> TallyView {
        TallyView {
            latencies: self.latencies.push(duration_ns),
            latencies_by_query: noted(self.latencies_by_query, name, duration_ns),
            ..self
        }
    }

    /// One more error of the query, with its record.
    pub open spec fn failing(self, name: Seq<char>, record: ErrorView) -> TallyView {
        TallyView {
            errors: one_more(self.errors),
            errors_by_query: counted(self.errors_by_query, name),
            error_records: self.error_records.push(record),
            ..self
        }
    }

    /// One more query that ran out of time.
    pub open spec fn timing_out(self, record: TimeoutView) -> TallyView {
        TallyView { timeouts: self.timeouts.push(record), ..self }
    }
}

/// What came of a query: an answer, or a message that tells why there is none.
pub open spec fn outcome(result: Result<QueryResult, String>) -> Result<
    QueryResultView,
    Seq<char>,
> {
    match result {
        Ok(q) => Ok(q@),
        Err(m) => Err(m@),
    }
}

/// The text, or another where there is none.
pub open spec fn text_or(t: Option<Seq<char>>, other: Seq<char>) -> Seq<char> {
    match t {
        Some(x) => x,
        None => other,
    }
}

/// What a worker that keeps a rate counts for a query.
///
/// An answer counts as executed with its latency, and as an error where it carries one. A
/// failure counts as executed and as an error, and gives no latency.
pub open spec fn after_query(
    t: TallyView,
    query: QueryView,
    worker: WorkerIdentity,
    phase: Seq<char>,
    timestamp_ms: i64,
    elapsed_ns: u64,
    result: Result<QueryResultView, Seq<char>>,
) -> TallyView {
    let category = text_or(query.category, ""@);
    match result {
        Ok(answer) => {
            let u = t.executing(query.name).timing(query.name, answer.duration_ns);
            match answer.error {
                Some(message) => u.failing(
                    query.name,
                    failures::error_record(
                        query.name,
                        category,
                        phase,
                        worker,
                        timestamp_ms,
                        answer.duration_ns,
                        answer.timed_out,
                        message,
                    ),
                ),
                None => u,
            }
        },
        Err(message) => t.executing(query.name).failing(
            query.name,
            failures::error_record(
                query.name,
                category,
                phase,
                worker,
                timestamp_ms,
                elapsed_ns,
                failures::tells_timeout(message),
                message,
            ),
        ),
    }
}

/// What a session counts for a query of a category.
///
/// An answer counts as executed with its latency. One that ran out of time counts as an
/// error and is recorded as timed out as well; one with an error counts as an error. A
/// failure counts as executed and as an error, and gives no latency.
pub open spec fn after_session_query(
    t: TallyView,
    query_name: Seq<char>,
    category: Seq<char>,
    timeout_ms: u64,
    worker: WorkerIdentity,
    phase: Seq<char>,
    now_ms: i64,
    result: Result<QueryResultView, Seq<char>>,
) -> TallyView {
    let t = t.executing(query_name);
    match result {
        Ok(answer) => {
            let u = t.timing(query_name, answer.duration_ns);
            if answer.timed_out {
                u.timing_out(
                    TimeoutView {
                        query_name,
                        category,
                        phase,
                        timestamp_ms: now_ms,
                        duration_ns: answer.duration_ns,
                        timeout_ms,
                    },
                ).failing(
                    query_name,
                    failures::error_record(
                        query_name,
                        category,
                        phase,
                        worker,
                        now_ms,
                        answer.duration_ns,
                        true,
                        text_or(answer.error, "query timed out"@),
                    ),
                )
            } else {
                match answer.error {
                    Some(message) => u.failing(
                        query_name,
                        failures::error_record(
                            query_name,
                            category,
                            phase,
                            worker,
                            now_ms,
                            answer.duration_ns,
                            false,
                            message,
                        ),
                    ),
                    None => u,
                }
            }
        },
        Err(message) => t.failing(
            query_name,
            failures::error_record(
                query_name,
                category,
                phase,
                worker,
                now_ms,
                0,
                failures::tells_timeout(message),
                message,
            ),
        ),
    }
}

/// What a snapshot says of each query that has latencies.
pub open spec fn type_entry(t: TallyView, e: (Seq<char>, Seq<u64>)) -> TypeView {
    TypeView {
        query_name: e.0,
        latency: Some(latency::distribution(e.1)),
        executed: count_of(t.executed_by_query, e.0),
        errors: count_of(t.errors_by_query, e.0),
    }
}

/// The part of a snapshot that is about single queries.
pub open spec fn by_type(t: TallyView) -> Seq<TypeView> {
    t.latencies_by_query.map_values(|e: (Seq<char>, Seq<u64>)| type_entry(t, e))
}

/// The circumstances of a snapshot.
pub struct Circumstances {
    /// `query` or `query-session`.
    pub worker_mode: String,
    pub phase: String,
    pub timestamp_ns: u64,
    pub cpu_ppm: u64,
    pub memory_bytes: u64,
    pub target_rate: u64,
    pub concurrent_sessions: u32,
}

/// The snapshot that a tally becomes.
pub open spec fn snapshot_of(t: TallyView, worker: WorkerIdentity, c: Circumstances) -> SnapshotView {
    SnapshotView {
        worker_id: worker.worker_id@,
        worker_mode: c.worker_mode@,
        worker_index: worker.worker_index,
        timestamp_ns: c.timestamp_ns,
        phase: c.phase@,
        events_produced: 0,
        events_acknowledged: 0,
        events_failed: 0,
        kafka_produce_latency: None,
        queries_executed: t.executed,
        query_errors: t.errors,
        query_latency: Some(latency::distribution(t.latencies)),
        by_type: by_type(t),
        query_group: worker.query_group@,
        cpu_ppm: c.cpu_ppm,
        memory_bytes: c.memory_bytes,
        target_rate: c.target_rate,
        concurrent_sessions: c.concurrent_sessions,
        timed_out: t.timeouts,
        errors: t.error_records,
    }
}

// ---------------------------------------------------------------------------
// Counting
// ---------------------------------------------------------------------------

fn add_one(n: u64) -> (r: u64)
    ensures
        r == one_more(n),
{
    if n == u64::MAX {
        n
    } else {
        n + 1
    }
}

fn count_in(table: &Vec<(String, u64)>, name: &str) -> (r: u64)
    ensures
        r == count_of(model::vmap(table@), name@),
{
    match model::find_in(table, name) {
        Some(n) => *n,
        None => 0,
    }
}

fn count(table: &mut Vec<(String, u64)>, name: &str)
    ensures
        model::vmap(final(table)@) == counted(model::vmap(old(table)@), name@),
{
    let n: u64 = count_in(table, name);
    model::bind_entry(table, name, add_one(n));
}

fn note(table: &mut Vec<(String, Vec<u64>)>, name: &str, value: u64)
    ensures
        model::vmap(final(table)@) == noted(model::vmap(old(table)@), name@, value),
{
    let ghost all = model::vmap(table@);
    match model::position(table, name) {
        Some(i) => {
            proof {
                model::bind_first(all, name@, i as int, values_of(all, name@).push(value));
                assert(all[i as int] == table@[i as int]@);
            }
            table[i].1.push(value);
            assert(model::vmap(table@) =~= all.update(
                i as int,
                (name@, values_of(all, name@).push(value)),
            ));
        },
        None => {
            proof {
                model::bind_fresh(all, name@, values_of(all, name@).push(value));
            }
            let mut values: Vec<u64> = Vec::new();
            values.push(value);
            assert(values@ =~= Seq::<u64>::empty().push(value));
            table.push((text::owned(name), values));
            assert(model::vmap(table@) =~= all.push((name@, values_of(all, name@).push(value))));
        },
    }
}

fn text_in<'a>(t: &'a Option<String>, other: &'a str) -> (r: &'a str)
    ensures
        r@ == text_or(text::opt_view(*t), other@),
{
    match t {
        Some(x) => x.as_str(),
        None => other,
    }
}

impl Tally {
    /// Nothing counted.
    pub fn new() -> (r: Tally)
        ensures
            r@ == TallyView::nothing(),
    {
        let r = Tally {
            executed: 0,
            errors: 0,
            latencies: Vec::new(),
            latencies_by_query: Vec::new(),
            executed_by_query: Vec::new(),
            errors_by_query: Vec::new(),
            timeouts: Vec::new(),
            error_records: Vec::new(),
        };
        proof {
            assert(r@.latencies =~= Seq::<u64>::empty());
            assert(r@.latencies_by_query =~= Seq::<(Seq<char>, Seq<u64>)>::empty());
            assert(r@.executed_by_query =~= Seq::<(Seq<char>, u64)>::empty());
            assert(r@.errors_by_query =~= Seq::<(Seq<char>, u64)>::empty());
            assert(r@.timeouts =~= Seq::<TimeoutView>::empty());
            assert(r@.error_records =~= Seq::<ErrorView>::empty());
        }
        r
    }

    fn execute(&mut self, name: &str)
        ensures
            final(self)@ == old(self)@.executing(name@),
    {
        self.executed = add_one(self.executed);
        count(&mut self.executed_by_query, name);
    }

    fn time(&mut self, name: &str, duration_ns: u64)
        ensures
            final(self)@ == old(self)@.timing(name@, duration_ns),
    {
        self.latencies.push(duration_ns);
        note(&mut self.latencies_by_query, name, duration_ns);
    }

    fn fail(&mut self, name: &str, record: QueryErrorRecord)
        ensures
            final(self)@ == old(self)@.failing(name@, record@),
    {
        broadcast use model::vmap_push;

        self.errors = add_one(self.errors);
        count(&mut self.errors_by_query, name);
        self.error_records.push(record);
    }

    fn run_out(&mut self, record: TimedOutQueryRecord)
        ensures
            final(self)@ == old(self)@.timing_out(record@),
    {
        broadcast use model::vmap_push;

        self.timeouts.push(record);
    }

    /// Counts a query of a worker that keeps a rate.
    pub fn record_query(
        &mut self,
        query: &QueryDef,
        worker: &WorkerIdentity,
        phase: &str,
        timestamp_ms: i64,
        elapsed_ns: u64,
        result: &Result<QueryResult, String>,
    )
        ensures
            final(self)@ == after_query(
                old(self)@,
                query@,
                *worker,
                phase@,
                timestamp_ms,
                elapsed_ns,
                outcome(*result),
            ),
    {
        let name = query.name.as_str();
        let category = text_in(&query.category, "");
        self.execute(name);
        match result {
            Ok(answer) => {
                self.time(name, answer.duration_ns);
                match &answer.error {
                    Some(message) => {
                        let record = failures::query_error_record_parts(
                            name,
                            category,
                            phase,
                            worker,
                            timestamp_ms,
                            answer.duration_ns,
                            answer.timed_out,
                            message.as_str(),
                        );
                        self.fail(name, record);
                    },
                    None => {},
                }
            },
            Err(message) => {
                let record = failures::query_error_record_parts(
                    name,
                    category,
                    phase,
                    worker,
                    timestamp_ms,
                    elapsed_ns,
                    failures::is_timeout_error(message.as_str()),
                    message.as_str(),
                );
                self.fail(name, record);
            },
        }
    }

    /// Counts a query of a session.
    pub fn record_session_query(
        &mut self,
        query_name: &str,
        category: &str,
        timeout_ms: u64,
        worker: &WorkerIdentity,
        phase: &str,
        now_ms: i64,
        result: &Result<QueryResult, String>,
    )
        ensures
            final(self)@ == after_session_query(
                old(self)@,
                query_name@,
                category@,
                timeout_ms,
                *worker,
                phase@,
                now_ms,
                outcome(*result),
            ),
    {
        self.execute(query_name);
        match result {
            Ok(answer) => {
                self.time(query_name, answer.duration_ns);
                if answer.timed_out {
                    self.run_out(
                        TimedOutQueryRecord {
                            query_name: text::owned(query_name),
                            category: text::owned(category),
                            phase: text::owned(phase),
                            timestamp_ms: now_ms,
                            duration_ns: answer.duration_ns,
                            timeout_ms,
                        },
                    );
                    let record = failures::query_error_record_parts(
                        query_name,
                        category,
                        phase,
                        worker,
                        now_ms,
                        answer.duration_ns,
                        true,
                        text_in(&answer.error, "query timed out"),
                    );
                    self.fail(query_name, record);
                } else {
                    match &answer.error {
                        Some(message) => {
                            let record = failures::query_error_record_parts(
                                query_name,
                                category,
                                phase,
                                worker,
                                now_ms,
                                answer.duration_ns,
                                false,
                                message.as_str(),
                            );
                            self.fail(query_name, record);
                        },
                        None => {},
                    }
                }
            },
            Err(message) => {
                let record = failures::query_error_record_parts(
                    query_name,
                    category,
                    phase,
                    worker,
                    now_ms,
                    0,
                    failures::is_timeout_error(message.as_str()),
                    message.as_str(),
                );
                self.fail(query_name, record);
            },
        }
    }

    fn types(&self) -> (r: Vec<QueryTypeLatency>)
        ensures
            model::vmap(r@) == by_type(self@),
    {
        let ghost all = by_type(self@);
        let mut out: Vec<QueryTypeLatency> = Vec::new();
        let mut i: usize = 0;
        assert(model::vmap(out@) =~= all.take(0));
        while i < self.latencies_by_query.len()
            invariant
                i <= self.latencies_by_query@.len(),
                all == by_type(self@),
                model::vmap(out@) == all.take(i as int),
            decreases self.latencies_by_query@.len() - i,
        {
            broadcast use model::vmap_push, model::take_push;

            let entry = &self.latencies_by_query[i];
            let item = QueryTypeLatency {
                query_name: entry.0.clone(),
                latency: Some(latency::latency_distribution_from_values(&entry.1)),
                executed: count_in(&self.executed_by_query, entry.0.as_str()),
                errors: count_in(&self.errors_by_query, entry.0.as_str()),
            };
            assert(self@.latencies_by_query[i as int] == entry@);
            assert(item@ == all[i as int]);
            out.push(item);
            i += 1;
        }
        assert(all.take(i as int) =~= all);
        out
    }

    /// Makes the snapshot of what was counted, and starts again from nothing.
    pub fn take_snapshot(&mut self, worker: &WorkerIdentity, c: &Circumstances) -> (r:
        WorkerMetricSnapshot)
        ensures
            r@ == snapshot_of(old(self)@, *worker, *c),
            final(self)@ == TallyView::nothing(),
    {
        let types = self.types();
        let mut done = Tally::new();
        std::mem::swap(self, &mut done);
        WorkerMetricSnapshot {
            worker_id: worker.worker_id.clone(),
            worker_mode: c.worker_mode.clone(),
            worker_index: worker.worker_index,
            timestamp_ns: c.timestamp_ns,
            phase: c.phase.clone(),
            events_produced: 0,
            events_acknowledged: 0,
            events_failed: 0,
            kafka_produce_latency: None,
            queries_executed: done.executed,
            query_errors: done.errors,
            query_latency: Some(latency::latency_distribution_from_values(&done.latencies)),
            query_latency_by_type: types,
            query_group: worker.query_group.clone(),
            cpu_ppm: c.cpu_ppm,
            memory_bytes: c.memory_bytes,
            target_rate: c.target_rate,
            concurrent_sessions: c.concurrent_sessions,
            timed_out_queries: done.timeouts,
            query_error_records: done.error_records,
        }
    }

    /// Whether there is something to report.
    pub fn counted_something(&self) -> (r: bool)
        ensures
            r == self@.counted_something(),
    {
        self.executed > 0 || self.errors > 0 || self.latencies_by_query.len() > 0
            || self.timeouts.len() > 0
    }
}

impl TallyView {
    /// There is something to report.
    pub open spec fn counted_something(self) -> bool {
        self.executed > 0 || self.errors > 0 || self.latencies_by_query.len() > 0
            || self.timeouts.len() > 0
    }
}

// ---------------------------------------------------------------------------
// Time limits
// ---------------------------------------------------------------------------

/// The time that a worker that keeps a rate gives a query: its own limit, and five seconds
/// at least.
pub open spec fn worker_limit(query: QueryView) -> u64 {
    if query.timeout_ms > MIN_WORKER_TIMEOUT_MS {
        query.timeout_ms
    } else {
        MIN_WORKER_TIMEOUT_MS
    }
}

/// The time that a worker that keeps a rate gives a query.
pub fn worker_timeout_ms(query: &QueryDef) -> (r: u64)
    ensures
        r == worker_limit(query@),
{
    if query.timeout_ms > MIN_WORKER_TIMEOUT_MS {
        query.timeout_ms
    } else {
        MIN_WORKER_TIMEOUT_MS
    }
}

/// What is said of a query that a worker gave up on.
pub fn timed_out_message(query: &QueryDef) -> (r: String)
    ensures
        r@ == "Query timed out after "@ + text::decimal(worker_limit(query@) as nat) + "ms"@,
{
    text::join3(
        "Query timed out after ",
        text::decimal_u64(worker_timeout_ms(query)).as_str(),
        "ms",
    )
}

/// The time limit of a query of a session: its own, and the session's where it has none.
pub open spec fn session_limit(query: QueryView, default_timeout_ms: u64) -> u64 {
    if query.timeout_ms > 0 {
        query.timeout_ms
    } else {
        default_timeout_ms
    }
}

/// The time limit of a query of a session.
pub fn session_timeout_ms(query: &QueryDef, default_timeout_ms: u64) -> (r: u64)
    ensures
        r == session_limit(query@, default_timeout_ms),
{
    if query.timeout_ms > 0 {
        query.timeout_ms
    } else {
        default_timeout_ms
    }
}

// ---------------------------------------------------------------------------
// What always holds of a tally
// ---------------------------------------------------------------------------

/// Every error is an execution, every execution is in the tally, and every record stands
/// for an error; as long as the counters do not reach their end.
pub open spec fn consistent(t: TallyView) -> bool {
    &&& t.errors <= t.executed
    &&& t.errors == t.error_records.len() || t.errors == u64::MAX
    &&& t.latencies.len() <= t.executed || t.executed == u64::MAX
    &&& t.timeouts.len() <= t.error_records.len()
    &&& t.latencies.len() == 0 <==> t.latencies_by_query.len() == 0
}

proof fn binding_is_not_empty<B>(entries: Seq<(Seq<char>, B)>, key: Seq<char>, value: B)
    ensures
        model::bind(entries, key, value).len() > 0,
{
}

/// An empty tally is consistent, and counting a query keeps a tally so.
pub proof fn counting_is_consistent(
    t: TallyView,
    query: QueryView,
    worker: WorkerIdentity,
    phase: Seq<char>,
    timestamp_ms: i64,
    elapsed_ns: u64,
    category: Seq<char>,
    timeout_ms: u64,
    result: Result<QueryResultView, Seq<char>>,
)
    requires
        consistent(t),
    ensures
        consistent(TallyView::nothing()),
        consistent(after_query(t, query, worker, phase, timestamp_ms, elapsed_ns, result)),
        consistent(
            after_session_query(
                t,
                query.name,
                category,
                timeout_ms,
                worker,
                phase,
                timestamp_ms,
                result,
            ),
        ),
{
    if result is Ok {
        let d = result->Ok_0.duration_ns;
        binding_is_not_empty(
            t.latencies_by_query,
            query.name,
            values_of(t.latencies_by_query, query.name).push(d),
        );
    }
}

/// A session that has executed nothing has nothing to report.
pub proof fn an_idle_session_reports_nothing(t: TallyView)
    requires
        consistent(t),
        t.executed == 0,
    ensures
        !t.counted_something(),
{
}

} // verus!
