//! What workers count, report and keep to, told from what happens to them.
use vstd::prelude::*;
use vstd::string::*;
use crate::adapter::QueryResultView;
use crate::barrier::PhaseEvent;
use crate::chance;
use crate::chance::Course;
use crate::failures;
use crate::failures::WorkerIdentity;
use crate::ingest;
use crate::ingest::IngestTallyView;
use crate::ingest_loop;
use crate::latency;
use crate::model;
use crate::percentile_laws;
use crate::ratelimit;
use crate::scenario::{QueryView, RateView};
use crate::session;
use crate::session::{AssignmentView, Load, SessionCategoryView};
use crate::tally;
use crate::tally::TallyView;
use crate::text;

verus! {

// ---------------------------------------------------------------------------
// Counting queries
// ---------------------------------------------------------------------------

/// The count under a name; nothing counted is zero.
pub open spec fn count(table: Seq<(Seq<char>, u64)>, name: Seq<char>) -> int {
    match model::find(table, name) {
        Some(n) => n as int,
        None => 0,
    }
}

/// The latencies under a name.
pub open spec fn times(table: Seq<(Seq<char>, Seq<u64>)>, name: Seq<char>) -> Seq<u64> {
    match model::find(table, name) {
        Some(v) => v,
        None => Seq::empty(),
    }
}

/// The counters have room for one more.
pub open spec fn has_room(t: TallyView, name: Seq<char>) -> bool {
    &&& t.executed < u64::MAX
    &&& t.errors < u64::MAX
    &&& count(t.executed_by_query, name) < u64::MAX
    &&& count(t.errors_by_query, name) < u64::MAX
}

/// One query was counted: once as executed, once as an error where it failed, and with its
/// latency where it was answered; of other queries nothing changes.
pub open spec fn counts_once(
    before: TallyView,
    after: TallyView,
    name: Seq<char>,
    failed: bool,
    time: Option<u64>,
) -> bool {
    &&& after.executed == before.executed + 1
    &&& count(after.executed_by_query, name) == count(before.executed_by_query, name) + 1
    &&& after.errors == before.errors + if failed {
        1int
    } else {
        0
    }
    &&& count(after.errors_by_query, name) == count(before.errors_by_query, name) + if failed {
        1int
    } else {
        0
    }
    &&& after.error_records.len() == before.error_records.len() + if failed {
        1int
    } else {
        0
    }
    &&& match time {
        Some(ns) => after.latencies == before.latencies.push(ns) && times(
            after.latencies_by_query,
            name,
        ) == times(before.latencies_by_query, name).push(ns),
        None => after.latencies == before.latencies && after.latencies_by_query
            == before.latencies_by_query,
    }
    &&& forall|other: Seq<char>|
        other != name ==> count(after.executed_by_query, other) == count(
            before.executed_by_query,
            other,
        ) && #[trigger] count(after.errors_by_query, other) == count(before.errors_by_query, other)
            && times(after.latencies_by_query, other) == times(before.latencies_by_query, other)
}

proof fn tables_follow(t: TallyView, name: Seq<char>, ns: u64)
    requires
        has_room(t, name),
    ensures
        count(tally::counted(t.executed_by_query, name), name) == count(t.executed_by_query, name)
            + 1,
        count(tally::counted(t.errors_by_query, name), name) == count(t.errors_by_query, name) + 1,
        times(tally::noted(t.latencies_by_query, name, ns), name) == times(
            t.latencies_by_query,
            name,
        ).push(ns),
        forall|other: Seq<char>|
            other != name ==> #[trigger] count(tally::counted(t.executed_by_query, name), other)
                == count(t.executed_by_query, other),
        forall|other: Seq<char>|
            other != name ==> #[trigger] count(tally::counted(t.errors_by_query, name), other)
                == count(t.errors_by_query, other),
        forall|other: Seq<char>|
            other != name ==> #[trigger] times(tally::noted(t.latencies_by_query, name, ns), other)
                == times(t.latencies_by_query, other),
{
    let a = tally::one_more(tally::count_of(t.executed_by_query, name));
    let b = tally::one_more(tally::count_of(t.errors_by_query, name));
    let c = tally::values_of(t.latencies_by_query, name).push(ns);
    assert forall|other: Seq<char>|
        #![trigger model::find(tally::counted(t.executed_by_query, name), other)]
        true implies model::find(tally::counted(t.executed_by_query, name), other) == if other
        == name {
        Some(a)
    } else {
        model::find(t.executed_by_query, other)
    } by {
        model::bind_then_find(t.executed_by_query, name, a, other);
    }
    assert forall|other: Seq<char>|
        #![trigger model::find(tally::counted(t.errors_by_query, name), other)]
        true implies model::find(tally::counted(t.errors_by_query, name), other) == if other
        == name {
        Some(b)
    } else {
        model::find(t.errors_by_query, other)
    } by {
        model::bind_then_find(t.errors_by_query, name, b, other);
    }
    assert forall|other: Seq<char>|
        #![trigger model::find(tally::noted(t.latencies_by_query, name, ns), other)]
        true implies model::find(tally::noted(t.latencies_by_query, name, ns), other) == if other
        == name {
        Some(c)
    } else {
        model::find(t.latencies_by_query, other)
    } by {
        model::bind_then_find(t.latencies_by_query, name, c, other);
    }
}

/// A worker that keeps a rate counts every query once: as an error where it failed or its
/// answer tells one, and with the time of the answer where there is one.
pub proof fn queries_are_counted_once(
    t: TallyView,
    query: QueryView,
    worker: WorkerIdentity,
    phase: Seq<char>,
    timestamp_ms: i64,
    elapsed_ns: u64,
    result: Result<QueryResultView, Seq<char>>,
)
    requires
        has_room(t, query.name),
    ensures
        ({
            let after = tally::after_query(
                t,
                query,
                worker,
                phase,
                timestamp_ms,
                elapsed_ns,
                result,
            );
            &&& counts_once(
                t,
                after,
                query.name,
                result is Err || result->Ok_0.error is Some,
                match result {
                    Ok(answer) => Some(answer.duration_ns),
                    Err(_) => None,
                },
            )
            &&& after.timeouts == t.timeouts
        }),
{
    let ns = match result {
        Ok(answer) => answer.duration_ns,
        Err(_) => 0,
    };
    tables_follow(t, query.name, ns);
}

/// A session counts every query once: as an error where it failed, ran out of time or tells
/// one; and it records those that ran out of time, with the time that they had.
pub proof fn session_queries_are_counted_once(
    t: TallyView,
    name: Seq<char>,
    category: Seq<char>,
    timeout_ms: u64,
    worker: WorkerIdentity,
    phase: Seq<char>,
    now_ms: i64,
    result: Result<QueryResultView, Seq<char>>,
)
    requires
        has_room(t, name),
    ensures
        ({
            let after = tally::after_session_query(
                t,
                name,
                category,
                timeout_ms,
                worker,
                phase,
                now_ms,
                result,
            );
            let late = result is Ok && result->Ok_0.timed_out;
            &&& counts_once(
                t,
                after,
                name,
                result is Err || late || result->Ok_0.error is Some,
                match result {
                    Ok(answer) => Some(answer.duration_ns),
                    Err(_) => None,
                },
            )
            &&& after.timeouts.len() == t.timeouts.len() + if late {
                1int
            } else {
                0
            }
            &&& late ==> ({
                let r = after.timeouts.last();
                r.query_name == name && r.category == category && r.phase == phase && r.timestamp_ms
                    == now_ms && r.timeout_ms == timeout_ms && r.duration_ns
                    == result->Ok_0.duration_ns
            })
        }),
{
    let ns = match result {
        Ok(answer) => answer.duration_ns,
        Err(_) => 0,
    };
    tables_follow(t, name, ns);
}

/// The record of a failed query names the query, its phase, its worker and when it failed.
pub proof fn records_tell_what_failed(
    name: Seq<char>,
    category: Seq<char>,
    phase: Seq<char>,
    worker: WorkerIdentity,
    timestamp_ms: i64,
    duration_ns: u64,
    timed_out: bool,
    message: Seq<char>,
)
    ensures
        ({
            let r = failures::error_record(
                name,
                category,
                phase,
                worker,
                timestamp_ms,
                duration_ns,
                timed_out,
                message,
            );
            &&& r.query_name == name
            &&& r.category == category
            &&& r.phase == phase
            &&& r.worker_id == worker.worker_id@
            &&& r.worker_index == worker.worker_index
            &&& r.timestamp_ms == timestamp_ms
            &&& r.duration_ns == duration_ns
            &&& r.timed_out == timed_out
            &&& failures::byte_len(message) <= 1024 ==> r.message == message
            &&& timed_out ==> r.error_class == "timeout"@
        }),
{
}

/// The class of an error is that of the first of these that its message speaks of: time
/// limits, cancellation, resources, the query's text, the connection, the target itself.
pub proof fn errors_are_classed_by_what_they_speak_of(message: Seq<char>)
    ensures
        ({
            let m = text::ascii_lower(message);
            let time = text::holds(m, "timed out"@) || text::holds(m, "timeout"@) || text::holds(
                m,
                "deadline"@,
            );
            let cancel = text::holds(m, "cancel"@);
            let resource = text::holds(m, "resource"@) || text::holds(m, "oom"@) || text::holds(
                m,
                "memory"@,
            ) || text::holds(m, "exhaust"@) || text::holds(m, "enhance_your_calm"@);
            let sql = text::holds(m, "sql"@) || text::holds(m, "code="@) || text::holds(m, "syntax"@)
                || text::holds(m, "parse"@) || text::holds(m, "relation"@) || text::holds(
                m,
                "column"@,
            );
            let link = text::holds(m, "connect"@) || text::holds(m, "transport"@) || text::holds(
                m,
                "broken pipe"@,
            );
            let class = failures::error_class(message, false);
            &&& failures::error_class(message, true) == "timeout"@
            &&& time ==> class == "timeout"@
            &&& !time && cancel ==> class == "cancelled"@
            &&& !time && !cancel && resource ==> class == "resource"@
            &&& !time && !cancel && !resource && sql ==> class == "sql"@
            &&& !time && !cancel && !resource && !sql && !text::holds(m, "sqlstate"@) && link
                ==> class == "connection"@
        }),
{
}

// ---------------------------------------------------------------------------
// Reports
// ---------------------------------------------------------------------------

/// A report tells who it is from, when and in which phase it was taken, what was counted, and
/// how busy the worker is.
pub proof fn reports_tell_what_was_counted(
    t: TallyView,
    worker: WorkerIdentity,
    a: AssignmentView,
    load: Load,
    sessions: u32,
)
    requires
        a.rate <= u64::MAX,
        t.latencies.len() <= u64::MAX,
    ensures
        ({
            let r = session::rate_report(t, worker, a, load);
            let s = session::session_report(t, worker, a.phase, load, sessions);
            &&& r.worker_mode == "query"@ && s.worker_mode == "query-session"@
            &&& r.target_rate == a.rate && s.concurrent_sessions == sessions
            &&& r.phase == a.phase && s.phase == a.phase
            &&& r.worker_id == worker.worker_id@ && s.worker_id == worker.worker_id@
            &&& r.query_group == worker.query_group@ && s.query_group == worker.query_group@
            &&& r.timestamp_ns == load.timestamp_ns && s.timestamp_ns == load.timestamp_ns
            &&& r.cpu_ppm == load.cpu_ppm && s.cpu_ppm == load.cpu_ppm
            &&& r.memory_bytes == load.memory_bytes && s.memory_bytes == load.memory_bytes
            &&& r.queries_executed == t.executed && s.queries_executed == t.executed
            &&& r.query_errors == t.errors && s.query_errors == t.errors
            &&& r.timed_out == t.timeouts && s.timed_out == t.timeouts
            &&& r.errors == t.error_records && s.errors == t.error_records
            &&& r.query_latency matches Some(d) && percentile_laws::weight(
                d.centroids,
                |m: u64| true,
            ) == t.latencies.len()
            &&& s.query_latency == r.query_latency
            &&& r.events_produced == 0 && s.events_produced == 0
        }),
{
    all_latencies_weigh(t.latencies);
}

proof fn all_latencies_weigh(values: Seq<u64>)
    requires
        values.len() <= u64::MAX,
    ensures
        percentile_laws::weight(latency::distribution(values).centroids, |m: u64| true)
            == values.len(),
{
    latency::condensing_keeps_the_count(values);
    weight_is_count(latency::distribution(values).centroids);
}

proof fn weight_is_count(c: Seq<latency::TDigestCentroid>)
    ensures
        model::sum(latency::centroid_counts(c)) == percentile_laws::weight(c, |m: u64| true),
    decreases c.len(),
{
    let all = latency::centroid_counts(c);
    if c.len() > 0 {
        weight_is_count(c.drop_last());
        assert(all.drop_last() =~= latency::centroid_counts(c.drop_last()));
    } else {
        assert(all =~= Seq::<int>::empty());
    }
}

/// What a report says of single queries: each that has latencies, with all of them, and how
/// often it was executed and failed.
pub proof fn reports_tell_of_single_queries(t: TallyView, k: int)
    requires
        0 <= k < t.latencies_by_query.len(),
        t.latencies_by_query[k].1.len() <= u64::MAX,
    ensures
        ({
            let all = tally::by_type(t);
            let e = t.latencies_by_query[k];
            &&& all.len() == t.latencies_by_query.len()
            &&& all[k].query_name == e.0
            &&& all[k].executed == count(t.executed_by_query, e.0)
            &&& all[k].errors == count(t.errors_by_query, e.0)
            &&& all[k].latency matches Some(d) && percentile_laws::weight(
                d.centroids,
                |m: u64| true,
            ) == e.1.len()
        }),
{
    all_latencies_weigh(t.latencies_by_query[k].1);
}

/// An ingest worker counts every event once, as acknowledged with its time or as failed, and
/// its report tells so.
pub proof fn events_are_counted_and_told(
    t: IngestTallyView,
    acknowledged: bool,
    ns: u64,
    worker: WorkerIdentity,
    a: AssignmentView,
    load: Load,
)
    requires
        t.produced < u64::MAX,
        t.acknowledged < u64::MAX,
        t.failed < u64::MAX,
        a.rate <= u64::MAX,
        t.latencies.len() < u64::MAX,
    ensures
        ({
            let after = t.sent(acknowledged, ns);
            let r = ingest::ingest_report(after, worker, a, load);
            &&& r.events_produced == t.produced + 1
            &&& r.events_acknowledged == t.acknowledged + if acknowledged {
                1int
            } else {
                0
            }
            &&& r.events_failed == t.failed + if acknowledged {
                0int
            } else {
                1
            }
            &&& r.kafka_produce_latency matches Some(d) && percentile_laws::weight(
                d.centroids,
                |m: u64| true,
            ) == t.latencies.len() + if acknowledged {
                1int
            } else {
                0
            }
            &&& r.worker_mode == "ingest"@
            &&& r.worker_id == worker.worker_id@
            &&& r.phase == a.phase
            &&& r.target_rate == a.rate
            &&& r.timestamp_ns == load.timestamp_ns
            &&& r.cpu_ppm == load.cpu_ppm
            &&& r.queries_executed == 0
        }),
{
    all_latencies_weigh(t.sent(acknowledged, ns).latencies);
}

// ---------------------------------------------------------------------------
// Phases
// ---------------------------------------------------------------------------

proof fn first_entry(rates: Seq<RateView>, phase: Seq<char>, k: int)
    requires
        0 <= k < rates.len(),
        rates[k].phase_name == phase,
        forall|j: int| 0 <= j < k ==> (#[trigger] rates[j]).phase_name != phase,
    ensures
        session::entry_for(rates, phase) == Some(rates[k]),
    decreases k,
{
    if k > 0 {
        assert(rates[0].phase_name != phase);
        let rest = rates.skip(1);
        assert forall|j: int| 0 <= j < k - 1 implies (#[trigger] rest[j]).phase_name != phase by {
            assert(rest[j] == rates[j + 1]);
        }
        first_entry(rest, phase, k - 1);
    }
}

/// A transition brings a worker into the phase that it names: an ingest worker with the rate
/// of its own table, a query worker with the rate that was announced, or that of its table
/// where it belongs to a group.
pub proof fn workers_follow_transitions(
    rates: Seq<RateView>,
    group: Seq<char>,
    now: AssignmentView,
    from: String,
    to: String,
    at: i64,
    rate: i64,
    k: int,
)
    requires
        0 <= k < rates.len(),
        rates[k].phase_name == to@,
        forall|j: int| 0 <= j < k ==> (#[trigger] rates[j]).phase_name != to@,
        rate >= 0,
    ensures
        ({
            let event = Some(
                PhaseEvent::Transition {
                    from_phase: from,
                    to_phase: to,
                    transition_time_ns: at,
                    new_target_rate: rate,
                },
            );
            &&& ingest::followed(rates, now, event) == Some(
                AssignmentView { phase: to@, rate: rates[k].ingest_eps },
            )
            &&& session::followed(group, rates, now, event) == Some(
                AssignmentView {
                    phase: to@,
                    rate: if group.len() == 0 {
                        rate as nat
                    } else {
                        rates[k].query_mqps
                    },
                },
            )
        }),
{
    first_entry(rates, to@, k);
}

/// Being asked to prepare changes nothing yet; the end of the run, or of the controller, ends
/// the work.
pub proof fn workers_work_until_the_end(
    rates: Seq<RateView>,
    group: Seq<char>,
    now: AssignmentView,
    from: String,
    to: String,
)
    ensures
        ({
            let ask = Some(PhaseEvent::PrepareTransition { from_phase: from, to_phase: to });
            ingest::followed(rates, now, ask) == Some(now) && session::followed(
                group,
                rates,
                now,
                ask,
            ) == Some(now)
        }),
        ingest::followed(rates, now, Some(PhaseEvent::RunComplete)) is None,
        ingest::followed(rates, now, None) is None,
        session::followed(group, rates, now, Some(PhaseEvent::RunComplete)) is None,
        session::followed(group, rates, now, None) is None,
{
}

/// The data are those of an incident from its trigger to the overlap, and of normal operation
/// in the other phases.
pub proof fn incidents_last_from_trigger_to_overlap()
    ensures
        ingest::is_incident("incident_trigger"@),
        ingest::is_incident("ingestion_surge"@),
        ingest::is_incident("overlap"@),
        !ingest::is_incident("baseline"@),
        !ingest::is_incident("recovery"@),
        !ingest::is_incident("post_incident"@),
{
    reveal_strlit("incident_trigger");
    reveal_strlit("ingestion_surge");
    reveal_strlit("overlap");
    reveal_strlit("baseline");
    reveal_strlit("recovery");
    reveal_strlit("post_incident");
    assert("incident_trigger"@.len() == 16 && "ingestion_surge"@.len() == 15 && "overlap"@.len()
        == 7 && "baseline"@.len() == 8 && "recovery"@.len() == 8 && "post_incident"@.len() == 13);
}

// ---------------------------------------------------------------------------
// Rates
// ---------------------------------------------------------------------------

/// The time that operations have taken.
pub open spec fn time_of(times: Seq<int>) -> int
    decreases times.len(),
{
    if times.len() == 0 {
        0
    } else {
        time_of(times.drop_last()) + times.last()
    }
}

/// Over any stretch of time a worker does no more operations than its rate, in thousandths per
/// second, allows for it, but for those for which it had saved tokens.
pub proof fn operations_keep_to_the_rate(tokens: int, rate: int, times: Seq<int>)
    requires
        ratelimit::after_grants(tokens, rate, times) >= 0,
    ensures
        times.len() * 1_000_000_000_000 <= tokens + rate * time_of(times),
{
    ratelimit::grants_keep_to_the_rate(tokens, rate, times);
    times_agree(times);
}

proof fn times_agree(times: Seq<int>)
    ensures
        model::sum(times) == time_of(times),
    decreases times.len(),
{
    if times.len() > 0 {
        times_agree(times.drop_last());
    }
}

/// A second brings an empty bucket the operations of a second, and a bucket holds those of a
/// second at most, or one.
pub proof fn a_second_brings_the_rate(rate: int)
    requires
        rate >= 1000,
    ensures
        ratelimit::refilled(0, rate, ratelimit::burst(rate), 1_000_000_000) * 1000 == rate
            * 1_000_000_000_000,
        ratelimit::burst(rate) * 1000 == rate * 1_000_000_000_000,
{
    assert(1_000_000_000 * rate == rate * 1_000_000_000);
}

/// A bucket of a low rate holds one operation.
pub proof fn slow_buckets_hold_one(rate: int)
    requires
        0 <= rate <= 1000,
    ensures
        ratelimit::burst(rate) == 1_000_000_000_000,
{
}

/// A worker waits no longer than it takes until there is a token.
pub proof fn waits_are_no_longer_than_needed(tokens: int, rate: int)
    requires
        rate > 0,
        0 <= tokens < 1_000_000_000_000,
    ensures
        ({
            let w = ratelimit::time_to_token(tokens, rate);
            tokens + w * rate >= 1_000_000_000_000 && tokens + (w - 1) * rate < 1_000_000_000_000
        }),
{
    let lacking = 1_000_000_000_000 - tokens;
    let w = ratelimit::time_to_token(tokens, rate);
    assert(w * rate >= lacking && (w - 1) * rate < lacking) by (nonlinear_arith)
        requires
            rate > 0,
            w == (lacking + rate - 1) / rate,
            lacking > 0,
    ;
}

/// An ingest worker's rate is in events per second, of which the bucket counts thousandths.
pub proof fn events_per_second_fill_the_bucket(rate: nat)
    requires
        rate * 1000 <= u64::MAX,
    ensures
        ingest_loop::bucket_rate(rate) == rate * 1000,
{
}

/// A query has its own time limit, where that is more than five seconds.
pub proof fn queries_have_five_seconds_at_least(q: QueryView, otherwise: u64)
    ensures
        tally::worker_limit(q) >= 5000,
        tally::worker_limit(q) >= q.timeout_ms,
        tally::worker_limit(q) == q.timeout_ms || tally::worker_limit(q) == 5000,
        q.timeout_ms > 0 ==> tally::session_limit(q, otherwise) == q.timeout_ms,
        q.timeout_ms == 0 ==> tally::session_limit(q, otherwise) == otherwise,
{
}

// ---------------------------------------------------------------------------
// Sessions
// ---------------------------------------------------------------------------

/// The queries that the first `n` categories ask side by side.
pub open spec fn side_by_side(cats: Seq<SessionCategoryView>, n: int) -> int
    decreases n,
{
    if n <= 0 {
        0
    } else {
        side_by_side(cats, n - 1) + cats[n - 1].parallelism
    }
}

/// A round of a session has as many queries of every category as it asks side by side, each
/// under the name of its category, out of its queries, and with its time limit.
pub proof fn rounds_ask_every_category(
    cats: Seq<SessionCategoryView>,
    c: Course,
    default_timeout_ms: u64,
    n: int,
    k: int,
    i: int,
)
    requires
        0 <= k < n <= cats.len(),
        cats[k].iteration is Sequential,
        0 <= i < cats[k].parallelism,
        cats[k].queries.len() > 0,
    ensures
        ({
            let work = session::round_work(cats, c, default_timeout_ms, n);
            let w = work[side_by_side(cats, k) + i];
            let q = cats[k].queries[(cats[k].cursor + i) % cats[k].queries.len() as int];
            &&& work.len() == side_by_side(cats, n)
            &&& 0 <= side_by_side(cats, k) + i < work.len()
            &&& w.category == cats[k].name
            &&& w.query == q
            &&& w.timeout_ms == if q.timeout_ms > 0 {
                q.timeout_ms
            } else {
                default_timeout_ms
            }
        }),
    decreases n,
{
    round_length(cats, c, default_timeout_ms, n);
    round_length(cats, c, default_timeout_ms, n - 1);
    round_length(cats, c, default_timeout_ms, k);
    if k < n - 1 {
        rounds_ask_every_category(cats, c, default_timeout_ms, n - 1, k, i);
    }
}

proof fn round_length(cats: Seq<SessionCategoryView>, c: Course, default_timeout_ms: u64, n: int)
    requires
        0 <= n <= cats.len(),
    ensures
        session::round_work(cats, c, default_timeout_ms, n).len() == side_by_side(cats, n),
        0 <= side_by_side(cats, n),
    decreases n,
{
    if n > 0 {
        round_length(cats, c, default_timeout_ms, n - 1);
    }
}

/// A category goes on behind the queries that it asked.
pub proof fn categories_go_on_where_they_stopped(cat: SessionCategoryView)
    requires
        cat.iteration is Sequential,
        cat.cursor < cat.queries.len(),
        cat.parallelism <= cat.queries.len(),
    ensures
        ({
            let next = cat.cursor + cat.parallelism;
            let after = cat.advanced();
            &&& after.queries == cat.queries
            &&& after.cursor == if next < cat.queries.len() {
                next as int
            } else {
                next - cat.queries.len()
            }
        }),
{
    let n = cat.queries.len() as int;
    let next = (cat.cursor + cat.parallelism) as int;
    if next >= n {
        vstd::arithmetic::div_mod::lemma_mod_multiples_vanish(1, next - n, n);
        assert(n * 1 + (next - n) == next) by (nonlinear_arith);
        if next - n < n {
            vstd::arithmetic::div_mod::lemma_small_mod((next - n) as nat, n as nat);
        }
    } else {
        vstd::arithmetic::div_mod::lemma_small_mod(next as nat, n as nat);
    }
}

/// A variable that stands for something ingested is an identifier of 32 hexadecimal digits; any
/// other has a name of its own.
pub proof fn variables_are_identifiers_or_names(
    name: Seq<char>,
    source: Seq<char>,
    c: Course,
    i: int,
)
    requires
        0 <= i < 32,
        chance::query_between64(session::course_after_digits(c, i as nat), 0, 15) < 16,
    ensures
        source == "recently_ingested"@ ==> session::variable_value(name, source, c).0.len() == 32
            && session::variable_value(name, source, c).0[i]
            == "0123456789abcdef"@[chance::query_between64(
            session::course_after_digits(c, i as nat),
            0,
            15,
        ) as int],
        source != "recently_ingested"@ ==> session::variable_value(name, source, c).0 == "var_"@
            + name,
{
    reveal_strlit("0123456789abcdef");
}

/// Every variable of a query has a value.
pub proof fn every_variable_has_a_value(
    vars: Seq<(Seq<char>, Seq<char>)>,
    c: Course,
    n: int,
    i: int,
)
    requires
        0 <= i < n <= vars.len(),
    ensures
        model::find(session::variable_values(vars, c, n).0, vars[i].0) is Some,
    decreases n,
{
    let before = session::variable_values(vars, c, n - 1);
    let value = session::variable_value(vars[n - 1].0, vars[n - 1].1, before.1);
    model::bind_then_find(before.0, vars[n - 1].0, value.0, vars[i].0);
    if i < n - 1 {
        every_variable_has_a_value(vars, c, n - 1, i);
    }
}

} // verus!
