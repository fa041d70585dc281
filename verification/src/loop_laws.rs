//! How workers spend their time: they report every second, send an event three times at most,
//! keep their phase's rate, and begin every session at its first query.
use vstd::prelude::*;
use vstd::string::*;
use crate::adapter::QueryResultView;
use crate::aggregator;
use crate::aggregator::{AggState, AggregatorView};
use crate::chance;
use crate::chance::Course;
use crate::configmaps;
use crate::configmaps::BodyView;
use crate::deployment_laws::member;
use crate::docs;
use crate::failures;
use crate::failures::WorkerIdentity;
use crate::generator::DataGeneratorView;
use crate::groups;
use crate::ingest;
use crate::ingest::IngestTallyView;
use crate::ingest_loop;
use crate::ingest_loop::{IngestActionView, IngestEvent, IngestLoopView};
use crate::json;
use crate::json::Doc;
use crate::json_report;
use crate::lifecycle;
use crate::lifecycle::WorkerCounts;
use crate::metrics::{PointView, Scorecard};
use crate::mix;
use crate::mix::PhaseMixView;
use crate::model;
use crate::page_laws::parts_stand_in_the_whole;
use crate::rate_loop;
use crate::rate_loop::{RateActionView, RateEvent, RateLoopView};
use crate::ratelimit;
use crate::resources::IdentityView;
use crate::results;
use crate::scenario::{QueryView, RateView, ScenarioView, SessionView, StreamView};
use crate::session;
use crate::session::{AssignmentView, Load};
use crate::session_loop;
use crate::session_loop::{SessionActionView, SessionEvent, SessionLoopView};
use crate::tally;
use crate::tally::TallyView;
use crate::text;
use crate::validation;
use crate::validity_laws::{first_is_named, is_first_named};

verus! {

proof fn count_keys()
    ensures
        "phase"@ != "workers"@,
        "phase"@ != "conditions"@,
        "workers"@ != "conditions"@,
        "ingest_desired"@ != "ingest_ready"@,
        "ingest_desired"@ != "query_desired"@,
        "ingest_ready"@ != "query_desired"@,
        "ingest_desired"@ != "query_ready"@,
        "ingest_ready"@ != "query_ready"@,
        "query_desired"@ != "query_ready"@,
        "phase_name"@ != "weights"@,
{
    reveal_strlit("phase");
    reveal_strlit("workers");
    reveal_strlit("conditions");
    reveal_strlit("ingest_desired");
    reveal_strlit("ingest_ready");
    reveal_strlit("query_desired");
    reveal_strlit("query_ready");
    reveal_strlit("phase_name");
    reveal_strlit("weights");
    assert("phase"@.len() != "workers"@.len());
    assert("phase"@.len() != "conditions"@.len());
    assert("workers"@.len() != "conditions"@.len());
    assert("ingest_desired"@.len() != "ingest_ready"@.len());
    assert("ingest_desired"@.len() != "query_desired"@.len());
    assert("ingest_ready"@.len() != "query_desired"@.len());
    assert("ingest_desired"@.len() != "query_ready"@.len());
    assert("ingest_ready"@.len() != "query_ready"@.len());
    assert("query_desired"@.len() != "query_ready"@.len());
    assert("phase_name"@.len() != "weights"@.len());
}

// ---------------------------------------------------------------------------
// Ingest workers
// ---------------------------------------------------------------------------

/// An ingest worker reports once a second has passed, and not before; a report holds all that
/// was counted since the last, and counting begins anew.
pub proof fn ingest_workers_report_every_second(
    v: IngestLoopView,
    rates: Seq<RateView>,
    worker: WorkerIdentity,
    ns: u64,
    load: Load,
)
    ensures
        ns < 1_000_000_000 ==> ingest_loop::stepped(v, rates, worker, IngestEvent::Elapsed(ns)).1
            is Listen,
        ns >= 1_000_000_000 ==> ingest_loop::stepped(v, rates, worker, IngestEvent::Elapsed(ns)).1
            is Sample && ingest_loop::stepped(
            v,
            rates,
            worker,
            IngestEvent::Elapsed(ns),
        ).0.stage == ingest_loop::Stage::Sampling,
        v.stage == ingest_loop::Stage::Sampling ==> ({
            let r = ingest_loop::stepped(v, rates, worker, IngestEvent::Sampled(load));
            &&& r.1 is Report && r.1->Report_0.events_produced == v.tally.produced
            &&& r.1->Report_0.events_acknowledged == v.tally.acknowledged
            &&& r.1->Report_0.events_failed == v.tally.failed
            &&& r.0.tally.produced == 0 && r.0.tally.acknowledged == 0 && r.0.tally.failed == 0
                && r.0.tally.latencies.len() == 0
        }),
{
}

/// An event that is not acknowledged is sent again after fifty milliseconds, and once more
/// after a hundred; then it has failed. One that is acknowledged is counted at once.
pub proof fn events_are_sent_three_times_at_most(
    v: IngestLoopView,
    rates: Seq<RateView>,
    worker: WorkerIdentity,
    ns: u64,
)
    ensures
        ({
            let lost = ingest_loop::stepped(
                v,
                rates,
                worker,
                IngestEvent::Sent { acknowledged: false, elapsed_ns: ns },
            );
            &&& v.failures == 0 ==> lost.1 == IngestActionView::Pause(50) && lost.0.failures == 1
                && lost.0.tally == v.tally
            &&& v.failures == 1 ==> lost.1 == IngestActionView::Pause(100) && lost.0.failures == 2
                && lost.0.tally == v.tally
            &&& v.failures == 2 ==> lost.1 is Measure && lost.0.tally == v.tally.sent(false, ns)
        }),
        ({
            let arrived = ingest_loop::stepped(
                v,
                rates,
                worker,
                IngestEvent::Sent { acknowledged: true, elapsed_ns: ns },
            );
            arrived.1 is Measure && arrived.0.tally == v.tally.sent(true, ns)
        }),
        ingest_loop::stepped(v, rates, worker, IngestEvent::Paused).1 is Resend,
{
}

/// In a phase an ingest worker keeps the phase's rate of events, and makes the events of an
/// incident where the phase is one.
pub proof fn ingest_workers_enter_their_phase(
    v: IngestLoopView,
    rates: Seq<RateView>,
    worker: WorkerIdentity,
)
    requires
        v.coming is Some,
        v.coming->0.rate * 1000 <= u64::MAX,
    ensures
        ({
            let r = ingest_loop::stepped(v, rates, worker, IngestEvent::Held).0;
            &&& r.now == v.coming->0 && r.coming is None
            &&& r.bucket.rate == v.coming->0.rate * 1000
            &&& r.bucket.tokens == v.bucket.tokens
            &&& r.generator.incident == ingest::is_incident(v.coming->0.phase)
            &&& r.tally == v.tally
        }),
{
}

/// The last report of an ingest worker is made where there is something left to tell.
pub proof fn the_last_events_are_told(
    v: IngestLoopView,
    rates: Seq<RateView>,
    worker: WorkerIdentity,
    load: Load,
)
    requires
        v.stage == ingest_loop::Stage::Finishing,
    ensures
        ({
            let r = ingest_loop::stepped(v, rates, worker, IngestEvent::Sampled(load)).1;
            &&& r is Finish
            &&& v.tally.produced > 0 ==> r->Finish_0 is Some
                && r->Finish_0->0.events_produced == v.tally.produced
            &&& v.tally == IngestTallyView::nothing() ==> r->Finish_0 is None
        }),
{
}

// ---------------------------------------------------------------------------
// Query workers
// ---------------------------------------------------------------------------

/// A query worker reports once a second has passed, and not before; what a report holds is no
/// longer counted.
pub proof fn query_workers_report_every_second(
    v: RateLoopView,
    group: Seq<char>,
    rates: Seq<RateView>,
    queries: Seq<QueryView>,
    mixes: Seq<PhaseMixView>,
    worker: WorkerIdentity,
    ns: u64,
    load: Load,
)
    ensures
        ({
            let r = rate_loop::stepped(
                v,
                group,
                rates,
                queries,
                mixes,
                worker,
                RateEvent::Elapsed(ns),
            ).1;
            (ns < 1_000_000_000 ==> r is Listen) && (ns >= 1_000_000_000 ==> r is Sample)
        }),
        v.stage == rate_loop::Stage::Sampling ==> ({
            let r = rate_loop::stepped(
                v,
                group,
                rates,
                queries,
                mixes,
                worker,
                RateEvent::Sampled(load),
            );
            &&& r.1 is Report && r.1->Report_0.queries_executed == v.tally.executed
            &&& r.1->Report_0.query_errors == v.tally.errors
            &&& r.0.tally.executed == 0 && r.0.tally.errors == 0 && r.0.tally.latencies.len() == 0
                && r.0.tally.timeouts.len() == 0 && r.0.tally.error_records.len() == 0
        }),
{
}

/// A query worker that has a token asks the query that is drawn by the weights of the phase,
/// with values for its variables, gives it the query's time, and has one token less.
pub proof fn query_workers_ask_by_the_weights_of_the_phase(
    v: RateLoopView,
    group: Seq<char>,
    rates: Seq<RateView>,
    queries: Seq<QueryView>,
    mixes: Seq<PhaseMixView>,
    worker: WorkerIdentity,
)
    requires
        v.bucket.tokens >= 1_000_000_000_000,
        v.bucket.tokens <= v.bucket.max_tokens,
    ensures
        ({
            let r = rate_loop::stepped(
                v,
                group,
                rates,
                queries,
                mixes,
                worker,
                RateEvent::Refilled(0),
            );
            let drawn = chance::query_choice(
                v.course,
                mix::query_weights(queries, mixes, v.now.phase),
            );
            &&& r.1 == RateActionView::Ask {
                query: drawn,
                timeout_ms: tally::worker_limit(queries[drawn as int]),
            }
            &&& r.0.query == drawn
            &&& r.0.bucket.tokens == v.bucket.tokens - 1_000_000_000_000
            &&& r.0.tally == v.tally
        }),
{
}

/// In a phase a query worker keeps the phase's rate.
pub proof fn query_workers_enter_their_phase(
    v: RateLoopView,
    group: Seq<char>,
    rates: Seq<RateView>,
    queries: Seq<QueryView>,
    mixes: Seq<PhaseMixView>,
    worker: WorkerIdentity,
)
    requires
        v.coming is Some,
        v.coming->0.rate <= u64::MAX,
    ensures
        ({
            let r = rate_loop::stepped(
                v,
                group,
                rates,
                queries,
                mixes,
                worker,
                RateEvent::Held,
            ).0;
            &&& r.now == v.coming->0 && r.coming is None
            &&& r.bucket.rate == v.coming->0.rate
            &&& r.bucket.tokens == v.bucket.tokens
            &&& r.tally == v.tally
        }),
{
}

/// A worker without a rate looks again after a second.
pub proof fn workers_without_a_rate_wait_a_second()
    ensures
        ratelimit::IDLE_NS == 1_000_000_000,
{
}

// ---------------------------------------------------------------------------
// Sessions
// ---------------------------------------------------------------------------

/// A session begins with the first query of every category, and keeps the categories' queries,
/// order and parallelism.
pub proof fn sessions_begin_at_the_first_query(s: SessionView, i: int)
    requires
        0 <= i < s.categories.len(),
    ensures
        ({
            let all = session::first_categories(s);
            &&& all.len() == s.categories.len()
            &&& all[i].cursor == 0
            &&& all[i].name == s.categories[i].name
            &&& all[i].queries == s.categories[i].queries
            &&& all[i].iteration == s.categories[i].iteration
            &&& all[i].parallelism == s.categories[i].parallelism
        }),
{
}

/// A worker that runs sessions reports once a second has passed, and pauses after a round for
/// as long as the session says.
pub proof fn sessions_pause_and_report(
    v: SessionLoopView,
    group: Seq<char>,
    rates: Seq<RateView>,
    default_timeout_ms: u64,
    s: SessionView,
    worker: WorkerIdentity,
    ns: u64,
    load: Load,
    answers: Vec<Result<crate::adapter::QueryResult, String>>,
)
    ensures
        ({
            let r = session_loop::stepped(
                v,
                group,
                rates,
                default_timeout_ms,
                s,
                worker,
                SessionEvent::Elapsed(ns),
            ).1;
            (ns < 1_000_000_000 ==> r is Listen) && (ns >= 1_000_000_000 ==> r is Sample)
        }),
        ({
            let r = session_loop::stepped(
                v,
                group,
                rates,
                default_timeout_ms,
                s,
                worker,
                SessionEvent::Answered(answers),
            ).1;
            (s.think_time_ms > 0 ==> r == SessionActionView::Rest(s.think_time_ms)) && (
            s.think_time_ms == 0 ==> r is Measure)
        }),
        v.stage == session_loop::Stage::Sampling ==> ({
            let r = session_loop::stepped(
                v,
                group,
                rates,
                default_timeout_ms,
                s,
                worker,
                SessionEvent::Sampled(load),
            );
            &&& r.1 is Report && r.1->Report_0.queries_executed == v.tally.executed
            &&& r.1->Report_0.concurrent_sessions == 1
            &&& r.0.tally == TallyView::nothing()
        }),
{
}

/// The moment at which queries were asked is kept in whole milliseconds.
pub proof fn moments_are_in_milliseconds(ns: i64)
    ensures
        ns >= 0 ==> session_loop::millis(ns) * 1_000_000 <= ns < (session_loop::millis(ns) + 1)
            * 1_000_000,
        ns < 0 ==> session_loop::millis(ns) == 0,
{
}

/// Workers begin in their first phase with nothing counted and a full bucket of the phase's
/// rate; a session worker with every category at its first query.
pub proof fn workers_begin_with_nothing_counted(
    now: AssignmentView,
    generator: DataGeneratorView,
    s: SessionView,
    course: Course,
)
    requires
        now.rate * 1000 <= u64::MAX,
    ensures
        ({
            let w = ingest_loop::begun(now, generator);
            &&& w.stage == ingest_loop::Stage::Timing && w.now == now && w.coming is None
            &&& w.tally == IngestTallyView::nothing() && w.failures == 0
            &&& w.bucket.rate == now.rate * 1000 && w.bucket.tokens == w.bucket.max_tokens
            &&& w.bucket.missed_ops == 0
            &&& w.generator.incident == ingest::is_incident(now.phase)
        }),
        ({
            let w = rate_loop::begun(now, course);
            &&& w.stage == rate_loop::Stage::Timing && w.now == now && w.coming is None
            &&& w.tally == TallyView::nothing()
            &&& w.bucket.rate == now.rate && w.bucket.tokens == w.bucket.max_tokens
            &&& w.bucket.missed_ops == 0 && w.course == course
        }),
        ({
            let w = session_loop::begun(now, s, course);
            &&& w.stage == session_loop::Stage::Timing && w.now == now && w.coming is None
            &&& w.tally == TallyView::nothing() && w.asked.len() == 0
            &&& w.categories == session::first_categories(s) && w.course == course
        }),
{
}

/// The mix of a phase is told by the phase's name, with its weights where it has some.
pub proof fn mixes_are_told(m: PhaseMixView)
    ensures
        ({
            let d = <mix::PhaseMix as docs::ToDoc>::doc_of(m);
            &&& member(d, "phase_name"@) == Doc::Text(m.phase_name)
            &&& m.weights is Some ==> member(d, "weights"@) == mix::weights_doc(m.weights->0)
            &&& m.weights is None ==> member(d, "weights"@) == Doc::Null
        }),
{
    broadcast use json::with_then_get;

    count_keys();
}

/// A query that fails is recorded once: by its name, category and phase, with the worker, when
/// it was asked, how long it took, and whether it ran out of time. One that is answered without
/// an error is not.
pub proof fn failed_queries_are_recorded(
    t: TallyView,
    q: QueryView,
    worker: WorkerIdentity,
    phase: Seq<char>,
    timestamp_ms: i64,
    elapsed_ns: u64,
    result: Result<QueryResultView, Seq<char>>,
)
    ensures
        ({
            let after = tally::after_query(
                t,
                q,
                worker,
                phase,
                timestamp_ms,
                elapsed_ns,
                result,
            ).error_records;
            let failed = result is Err || result->Ok_0.error is Some;
            let r = after.last();
            &&& !failed ==> after == t.error_records
            &&& failed ==> after == t.error_records.push(r)
            &&& failed ==> r.query_name == q.name && r.phase == phase && r.worker_id
                == worker.worker_id@ && r.timestamp_ms == timestamp_ms
            &&& failed && q.category is Some ==> r.category == q.category->0
            &&& result is Err ==> r.duration_ns == elapsed_ns && r.message == failures::shortened(
                result->Err_0,
            )
            &&& result is Ok && failed ==> r.duration_ns == result->Ok_0.duration_ns && r.timed_out
                == result->Ok_0.timed_out && r.message == failures::shortened(
                result->Ok_0.error->0,
            )
        }),
{
}

/// A session records a query that fails, tells an error or runs out of time once, in the same
/// way.
pub proof fn failed_session_queries_are_recorded(
    t: TallyView,
    name: Seq<char>,
    category: Seq<char>,
    timeout_ms: u64,
    worker: WorkerIdentity,
    phase: Seq<char>,
    now_ms: i64,
    result: Result<QueryResultView, Seq<char>>,
)
    ensures
        ({
            let after = tally::after_session_query(
                t,
                name,
                category,
                timeout_ms,
                worker,
                phase,
                now_ms,
                result,
            ).error_records;
            let failed = result is Err || result->Ok_0.timed_out || result->Ok_0.error is Some;
            let r = after.last();
            &&& !failed ==> after == t.error_records
            &&& failed ==> after == t.error_records.push(r)
            &&& failed ==> r.query_name == name && r.category == category && r.phase == phase
                && r.worker_id == worker.worker_id@ && r.timestamp_ms == now_ms
            &&& result is Ok && failed ==> r.duration_ns == result->Ok_0.duration_ns && r.timed_out
                == result->Ok_0.timed_out
            &&& result is Err ==> r.duration_ns == 0 && r.message == failures::shortened(
                result->Err_0,
            )
            &&& result is Ok && result->Ok_0.error is Some ==> r.message == failures::shortened(
                result->Ok_0.error->0,
            )
            &&& result is Ok && failed && result->Ok_0.error is None ==> r.message
                == failures::shortened("query timed out"@)
        }),
{
}

// ---------------------------------------------------------------------------
// What is kept and told of a run
// ---------------------------------------------------------------------------

/// At the start the aggregator knows of no worker, no snapshot and no lag.
pub proof fn nothing_is_known_at_the_start(results_path: Seq<char>)
    ensures
        ({
            let a = aggregator::started(results_path);
            &&& a.connected_workers == 0 && !a.had_workers && a.total_snapshots == 0
            &&& a.kafka_consumer_lag == 0 && a.per_stream_lag.len() == 0
            &&& a.buckets.len() == 0 && a.timeline.len() == 0
            &&& a.timed_out.len() == 0 && a.errors.len() == 0 && a.per_query.len() == 0
            &&& !results::can_answer(a)
            &&& a.results_path == results_path
        }),
{
}

/// The groups of a report are told by name, in order, each over the time that the baseline and
/// the overlap of the scenario take.
pub proof fn groups_are_told_over_their_phases(
    points: Seq<PointView>,
    s: ScenarioView,
    i: int,
    a: int,
    b: int,
)
    requires
        0 <= i < groups::all_figures(points).len(),
        is_first_named(s.phases, "baseline"@, a),
        is_first_named(s.phases, "overlap"@, b),
    ensures
        ({
            let d = json_report::groups_doc(points, s);
            let g = groups::all_figures(points)[i];
            &&& d is Object && d->Object_0.len() == groups::all_figures(points).len()
            &&& d->Object_0[i].0 == g.0
            &&& d->Object_0[i].1 == json_report::group_doc(
                g.1,
                s.phases[a].duration_seconds,
                s.phases[b].duration_seconds,
            )
        }),
{
    first_is_named(s.phases, "baseline"@, a);
    first_is_named(s.phases, "overlap"@, b);
}

/// What is said of a run as it goes on: what was tried out, what was prepared, and how many
/// workers were deployed.
pub proof fn steps_of_a_run_are_said(
    s: ScenarioView,
    streams: Seq<StreamView>,
    consumers: Seq<(Seq<char>, Seq<char>)>,
    endpoints: Seq<(Seq<char>, Seq<char>)>,
    ingest: nat,
    n: nat,
    query: nat,
    i: int,
)
    ensures
        lifecycle::dry_run_message(s) == "Dry-run: scenario '"@ + s.meta.display_name
            + "' validated successfully. "@ + text::decimal(s.stream_list().len())
            + " data streams, "@ + text::decimal(s.phases.len()) + " phases, total duration: "@
            + text::decimal(s.total_duration() as nat) + "s"@,
        lifecycle::deployed_message(ingest, n, query) == text::decimal(ingest)
            + " ingest workers (across "@ + text::decimal(n) + " streams), "@ + text::decimal(query)
            + " query workers deployed"@,
        lifecycle::prepared_message(streams, consumers, endpoints) == "Streams ["@
            + validation::quoted_items(streams.map_values(|x: StreamView| x.name))
            + "] created. Consumer groups: "@ + lifecycle::summary(consumers) + ". Warehouses: "@
            + lifecycle::summary(endpoints),
        0 <= i < consumers.len() ==> text::holds(
            lifecycle::summary(consumers),
            consumers[i].0 + "="@ + consumers[i].1,
        ),
{
    if 0 <= i < consumers.len() {
        parts_stand_in_the_whole(lifecycle::assignments(consumers), ", "@, i);
    }
}

/// Results can be asked for once the aggregation is complete, or as soon as a worker has
/// reported something; before that there are none.
pub proof fn results_need_a_report(a: AggregatorView)
    ensures
        a.state == AggState::Complete ==> results::can_answer(a),
        a.had_workers && a.total_snapshots > 0 ==> results::can_answer(a),
        a.state != AggState::Complete && !a.had_workers ==> !results::can_answer(a),
        a.state != AggState::Complete && a.total_snapshots == 0 ==> !results::can_answer(a),
{
}

/// The status of a run that has begun tells how many workers of either kind it wants, and how
/// many are ready.
pub proof fn running_runs_tell_of_their_workers(
    c: WorkerCounts,
    message: Seq<char>,
    now: Seq<char>,
)
    ensures
        ({
            let w = member(member(lifecycle::running_doc(c, message, now), "status"@), "workers"@);
            &&& member(w, "ingest_desired"@) == Doc::Uint(c.ingest_desired as nat)
            &&& member(w, "ingest_ready"@) == Doc::Uint(c.ingest_ready as nat)
            &&& member(w, "query_desired"@) == Doc::Uint(c.query_desired as nat)
            &&& member(w, "query_ready"@) == Doc::Uint(c.query_ready as nat)
            &&& member(
                member(lifecycle::running_doc(c, message, now), "status"@),
                "phase"@,
            ) == Doc::Text("Running"@)
        }),
{
    broadcast use json::with_then_get;

    count_keys();
}

/// A run of which no results came is told so, with what may be the matter, and with no figures.
pub proof fn missing_results_are_told()
    ensures
        lifecycle::aggregated(None).patch == lifecycle::results_doc(
            false,
            seq!["No metrics data collected from workers"@],
            seq!["Aggregation timed out or workers failed to report metrics"@],
            false,
            Scorecard::blank(),
        ),
{
}

/// A run is looked at every five seconds, and half a minute after something went wrong.
pub proof fn runs_are_looked_at_often()
    ensures
        lifecycle::REQUEUE_SECONDS == 5,
        lifecycle::ERROR_REQUEUE_SECONDS == 30,
{
}

/// What preparing a run gave is kept under the names by which it is looked for: the consumer
/// groups, the endpoints, and the first endpoint where there is one.
pub proof fn what_was_prepared_is_kept(
    run_name: Seq<char>,
    consumer_groups: Seq<(Seq<char>, Seq<char>)>,
    endpoints: Seq<(Seq<char>, Seq<char>)>,
    run: IdentityView,
)
    ensures
        ({
            let m = configmaps::prepare_result_map(run_name, consumer_groups, endpoints, run);
            &&& m.name == run_name + "-prepare"@
            &&& m.data[0] == (
                "consumer_groups"@,
                BodyView::Json(docs::table_doc::<String>(consumer_groups)),
            )
            &&& m.data[1] == (
                "query_endpoints"@,
                BodyView::Json(docs::table_doc::<String>(endpoints)),
            )
            &&& endpoints.len() > 0 ==> m.data.len() == 3 && m.data[2] == (
                "query_endpoint"@,
                BodyView::Plain(endpoints[0].1),
            )
            &&& endpoints.len() == 0 ==> m.data.len() == 2
        }),
{
    reveal_strlit("-");
    reveal_strlit("prepare");
    reveal_strlit("-prepare");
    assert(run_name + "-"@ + "prepare"@ =~= run_name + "-prepare"@);
}

proof fn some_file_is_kept(files: Seq<(Seq<char>, Seq<char>)>, n: int)
    requires
        0 < n <= files.len(),
    ensures
        configmaps::sql_entries(files, n).len() > 0,
{
    let before = configmaps::sql_entries(files, n - 1);
    let key = configmaps::sql_key(files[n - 1].0);
    model::bind_then_find(before, key, files[n - 1].1, key);
    let all = configmaps::sql_entries(files, n);
    assert(model::find(all, key) is Some);
}

/// Files of statements are kept exactly where there are any.
pub proof fn statements_are_kept_where_there_are_any(
    run_name: Seq<char>,
    files: Seq<(Seq<char>, Seq<char>)>,
    run: IdentityView,
)
    ensures
        configmaps::sql_files_map(run_name, files, run) is Some <==> files.len() > 0,
        files.len() > 0 ==> configmaps::sql_files_map(run_name, files, run)->0.name == run_name
            + "-sql-files"@,
{
    if files.len() > 0 {
        some_file_is_kept(files, files.len() as int);
    }
    reveal_strlit("-");
    reveal_strlit("sql-files");
    reveal_strlit("-sql-files");
    assert(run_name + "-"@ + "sql-files"@ =~= run_name + "-sql-files"@);
}

/// A query belongs to the category that it names, and to a common one where it names none;
/// sessions of categories have no pauses.
pub proof fn queries_belong_to_their_category(q: QueryView, queries: Seq<QueryView>)
    ensures
        q.category is Some ==> configmaps::category_of(q) == q.category->0,
        q.category is None ==> configmaps::category_of(q) == "default"@,
        configmaps::grouped_session(queries).think_time_ms == 0,
{
}

} // verus!
