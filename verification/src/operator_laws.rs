//! How a run goes from phase to phase, and what its status says.
use vstd::prelude::*;
use vstd::string::*;
use crate::crd::{Condition, LifecyclePhase, RunResults};
use crate::deployment_laws::{member, nth};
use crate::json;
use crate::json::Doc;
use crate::lifecycle;
use crate::lifecycle::{
    ChangeView, DeploymentState, LiveFigures, PrepareOutcome, Task, TimelineStatus,
};
use crate::model;
use crate::report_laws;
use crate::scenario::{ScenarioView, StreamView};
use crate::text;
use crate::wellformed;

verus! {

proof fn status_keys()
    ensures
        "phase"@ != "completion_time"@,
        "phase"@ != "conditions"@,
        "completion_time"@ != "conditions"@,
        "phase"@ != "runId"@,
        "phase"@ != "startTime"@,
        "runId"@ != "startTime"@,
        "runId"@ != "conditions"@,
        "startTime"@ != "conditions"@,
        "phase"@ != "workers"@,
        "workers"@ != "conditions"@,
        "phase"@ != "results"@,
        "type"@ != "status"@,
        "type"@ != "message"@,
        "status"@ != "message"@,
        "type"@ != "lastTransitionTime"@,
        "status"@ != "lastTransitionTime"@,
        "message"@ != "lastTransitionTime"@,
        "current_benchmark_phase"@ != "progress"@,
        "phase"@ != "current_benchmark_phase"@,
        "phase"@ != "progress"@,
{
    reveal_strlit("phase");
    reveal_strlit("completion_time");
    reveal_strlit("conditions");
    reveal_strlit("runId");
    reveal_strlit("startTime");
    reveal_strlit("workers");
    reveal_strlit("results");
    reveal_strlit("type");
    reveal_strlit("status");
    reveal_strlit("message");
    reveal_strlit("lastTransitionTime");
    reveal_strlit("current_benchmark_phase");
    reveal_strlit("progress");
    assert("phase"@.len() != "completion_time"@.len());
    assert("phase"@.len() != "conditions"@.len());
    assert("completion_time"@.len() != "conditions"@.len());
    assert("phase"@[0] != "runId"@[0]);
    assert("phase"@.len() != "startTime"@.len());
    assert("runId"@.len() != "startTime"@.len());
    assert("runId"@.len() != "conditions"@.len());
    assert("startTime"@.len() != "conditions"@.len());
    assert("phase"@.len() != "workers"@.len());
    assert("workers"@.len() != "conditions"@.len());
    assert("phase"@.len() != "results"@.len());
    assert("type"@.len() != "status"@.len());
    assert("type"@.len() != "message"@.len());
    assert("status"@.len() != "message"@.len());
    assert("type"@.len() != "lastTransitionTime"@.len());
    assert("status"@.len() != "lastTransitionTime"@.len());
    assert("message"@.len() != "lastTransitionTime"@.len());
    assert("current_benchmark_phase"@.len() != "progress"@.len());
    assert("phase"@.len() != "current_benchmark_phase"@.len());
    assert("phase"@.len() != "progress"@.len());
}

proof fn progress_keys()
    ensures
        "elapsed_seconds"@ != "total_seconds"@,
        "elapsed_seconds"@ != "achieved_ingest_eps"@,
        "total_seconds"@ != "achieved_ingest_eps"@,
        "elapsed_seconds"@ != "achieved_query_qps"@,
        "total_seconds"@ != "achieved_query_qps"@,
        "achieved_ingest_eps"@ != "achieved_query_qps"@,
        "elapsed_seconds"@ != "kafka_consumer_lag"@,
        "total_seconds"@ != "kafka_consumer_lag"@,
        "achieved_ingest_eps"@ != "kafka_consumer_lag"@,
        "achieved_query_qps"@ != "kafka_consumer_lag"@,
        "elapsed_seconds"@ != "target_ingest_eps"@,
        "total_seconds"@ != "target_ingest_eps"@,
        "achieved_ingest_eps"@ != "target_ingest_eps"@,
        "achieved_query_qps"@ != "target_ingest_eps"@,
        "kafka_consumer_lag"@ != "target_ingest_eps"@,
        "elapsed_seconds"@ != "target_query_qps"@,
        "total_seconds"@ != "target_query_qps"@,
        "achieved_ingest_eps"@ != "target_query_qps"@,
        "achieved_query_qps"@ != "target_query_qps"@,
        "kafka_consumer_lag"@ != "target_query_qps"@,
        "target_ingest_eps"@ != "target_query_qps"@,
{
    reveal_strlit("elapsed_seconds");
    reveal_strlit("total_seconds");
    reveal_strlit("achieved_ingest_eps");
    reveal_strlit("achieved_query_qps");
    reveal_strlit("kafka_consumer_lag");
    reveal_strlit("target_ingest_eps");
    reveal_strlit("target_query_qps");
    assert("elapsed_seconds"@.len() != "total_seconds"@.len());
    assert("elapsed_seconds"@.len() != "achieved_ingest_eps"@.len());
    assert("total_seconds"@.len() != "achieved_ingest_eps"@.len());
    assert("elapsed_seconds"@.len() != "achieved_query_qps"@.len());
    assert("total_seconds"@.len() != "achieved_query_qps"@.len());
    assert("achieved_ingest_eps"@.len() != "achieved_query_qps"@.len());
    assert("elapsed_seconds"@.len() != "kafka_consumer_lag"@.len());
    assert("total_seconds"@.len() != "kafka_consumer_lag"@.len());
    assert("achieved_ingest_eps"@.len() != "kafka_consumer_lag"@.len());
    assert("achieved_query_qps"@[0] != "kafka_consumer_lag"@[0]);
    assert("elapsed_seconds"@.len() != "target_ingest_eps"@.len());
    assert("total_seconds"@.len() != "target_ingest_eps"@.len());
    assert("achieved_ingest_eps"@.len() != "target_ingest_eps"@.len());
    assert("achieved_query_qps"@.len() != "target_ingest_eps"@.len());
    assert("kafka_consumer_lag"@.len() != "target_ingest_eps"@.len());
    assert("elapsed_seconds"@.len() != "target_query_qps"@.len());
    assert("total_seconds"@.len() != "target_query_qps"@.len());
    assert("achieved_ingest_eps"@.len() != "target_query_qps"@.len());
    assert("achieved_query_qps"@.len() != "target_query_qps"@.len());
    assert("kafka_consumer_lag"@.len() != "target_query_qps"@.len());
    assert("target_ingest_eps"@.len() != "target_query_qps"@.len());
}

proof fn result_keys()
    ensures
        "valid"@ != "validity_violations"@,
        "valid"@ != "warnings"@,
        "validity_violations"@ != "warnings"@,
        "valid"@ != "harness_saturated"@,
        "validity_violations"@ != "harness_saturated"@,
        "warnings"@ != "harness_saturated"@,
        "valid"@ != "scorecard"@,
        "validity_violations"@ != "scorecard"@,
        "warnings"@ != "scorecard"@,
        "harness_saturated"@ != "scorecard"@,
{
    reveal_strlit("valid");
    reveal_strlit("validity_violations");
    reveal_strlit("warnings");
    reveal_strlit("harness_saturated");
    reveal_strlit("scorecard");
    assert("valid"@.len() != "validity_violations"@.len());
    assert("valid"@.len() != "warnings"@.len());
    assert("validity_violations"@.len() != "warnings"@.len());
    assert("valid"@.len() != "harness_saturated"@.len());
    assert("validity_violations"@.len() != "harness_saturated"@.len());
    assert("warnings"@.len() != "harness_saturated"@.len());
    assert("valid"@.len() != "scorecard"@.len());
    assert("validity_violations"@.len() != "scorecard"@.len());
    assert("warnings"@.len() != "scorecard"@.len());
    assert("harness_saturated"@.len() != "scorecard"@.len());
}

/// The name of a phase in a status.
pub open spec fn phase_name(p: LifecyclePhase) -> Seq<char> {
    match p {
        LifecyclePhase::Pending => "Pending"@,
        LifecyclePhase::Preparing => "Preparing"@,
        LifecyclePhase::Initializing => "Initializing"@,
        LifecyclePhase::Running => "Running"@,
        LifecyclePhase::Aggregating => "Aggregating"@,
        LifecyclePhase::Reporting => "Reporting"@,
        LifecyclePhase::Completed => "Completed"@,
        LifecyclePhase::Failed => "Failed"@,
    }
}

/// The status that a patch sets.
pub open spec fn status(c: ChangeView) -> Doc {
    member(c.patch, "status"@)
}

/// A change says in its patch to which phase it goes; one that stays says nothing of it.
pub open spec fn says_its_phase(c: ChangeView) -> bool {
    match c.phase {
        Some(p) => member(status(c), "phase"@) == Doc::Text(phase_name(p)),
        None => status(c).get("phase"@) is None,
    }
}

/// The first condition that a change sets holds, and is of a kind with a message.
pub open spec fn sets_condition(
    c: ChangeView,
    i: int,
    kind: Seq<char>,
    message: Seq<char>,
) -> bool {
    let d = nth(member(status(c), "conditions"@), i);
    &&& member(d, "type"@) == Doc::Text(kind)
    &&& member(d, "status"@) == Doc::Text("True"@)
    &&& member(d, "message"@) == Doc::Text(message)
}

/// A run that fails says so, and why.
pub proof fn failures_say_why(message: Seq<char>, now: Seq<char>)
    ensures
        ({
            let c = lifecycle::failure(message, now);
            &&& c.phase == Some(LifecyclePhase::Failed)
            &&& says_its_phase(c)
            &&& sets_condition(c, 0, "Failed"@, message)
        }),
{
    broadcast use json::with_then_get;

    status_keys();
}

/// A pending run goes on exactly where its scenario is there and well formed; one that is only
/// tried out is then over and has nothing to clean up, and a faulty one fails with all that is
/// wrong.
pub proof fn pending_runs_need_a_good_scenario(
    resolved: Result<ScenarioView, Seq<char>>,
    dry_run: bool,
    run_id: Seq<char>,
    now: Seq<char>,
)
    ensures
        ({
            let c = lifecycle::pending(resolved, dry_run, run_id, now);
            let good = resolved is Ok && wellformed::well_formed(resolved->Ok_0);
            &&& says_its_phase(c)
            &&& c.phase == Some(
                if !good {
                    LifecyclePhase::Failed
                } else if dry_run {
                    LifecyclePhase::Completed
                } else {
                    LifecyclePhase::Preparing
                },
            )
            &&& good && !dry_run ==> member(status(c), "runId"@) == Doc::Text(run_id)
            &&& good && dry_run ==> ({
                let d = nth(member(status(c), "conditions"@), 1);
                member(d, "type"@) == Doc::Text("Cleaned"@) && member(d, "status"@) == Doc::Text(
                    "True"@,
                )
            })
            &&& resolved matches Err(e) ==> sets_condition(
                c,
                0,
                "Failed"@,
                "Failed to resolve scenario: "@ + e,
            )
            &&& resolved matches Ok(s) ==> (s.complaints().len() > 0 ==> sets_condition(
                c,
                0,
                "Failed"@,
                "Scenario validation failed: "@ + text::joined(s.complaints(), "; "@),
            ))
        }),
{
    broadcast use json::with_then_get;

    status_keys();
    if let Ok(s) = resolved {
        wellformed::accepted_when_well_formed(s);
    }
}

/// A run whose target was prepared goes on, and fails where anything of it failed.
pub proof fn prepared_runs_go_on(outcome: PrepareOutcome, streams: Seq<StreamView>, now: Seq<char>)
    ensures
        ({
            let c = lifecycle::preparing(outcome, streams, now);
            &&& says_its_phase(c)
            &&& c.phase == Some(
                if outcome is Prepared {
                    LifecyclePhase::Initializing
                } else {
                    LifecyclePhase::Failed
                },
            )
        }),
{
    broadcast use json::with_then_get;

    status_keys();
}

/// A running run fails with its workers; it goes on exactly when its timeline is over; and
/// until then it tells the phase, the time that has passed, and what is done and aimed at.
pub proof fn running_runs_tell_how_they_do(
    health: Result<(), Seq<char>>,
    timeline: Option<TimelineStatus>,
    figures: Option<LiveFigures>,
    now: Seq<char>,
)
    ensures
        ({
            let change = lifecycle::running(health, timeline, figures, now);
            &&& health is Err ==> change is Some && change->0.phase == Some(LifecyclePhase::Failed)
                && says_its_phase(change->0)
            &&& health is Ok && timeline is None ==> change is None
            &&& health is Ok && timeline is Some && timeline->0.timeline_complete
                ==> change is Some && change->0.phase == Some(LifecyclePhase::Aggregating)
                && says_its_phase(change->0)
            &&& health is Ok && timeline is Some && !timeline->0.timeline_complete
                ==> change is Some && change->0.phase is None && says_its_phase(change->0) && member(
                status(change->0),
                "current_benchmark_phase"@,
            ) == Doc::Text(timeline->0.current_phase@) && ({
                let p = member(status(change->0), "progress"@);
                &&& member(p, "elapsed_seconds"@) == Doc::Int(
                    timeline->0.total_elapsed_seconds as int,
                )
                &&& member(p, "total_seconds"@) == Doc::Int(
                    timeline->0.total_duration_seconds as int,
                )
                &&& figures matches Some(f) ==> member(p, "achieved_ingest_eps"@) == Doc::Int(
                    f.ingest_events_produced as int,
                ) && member(p, "achieved_query_qps"@) == Doc::Int(f.query_executed as int)
                    && member(p, "kafka_consumer_lag"@) == Doc::Int(f.kafka_consumer_lag as int)
                    && member(p, "target_ingest_eps"@) == Doc::Int(f.ingest_target_eps as int)
                    && report_laws::is_value(
                    member(p, "target_query_qps"@),
                    f.query_target_uqps as int,
                    1_000_000,
                )
                &&& figures is None ==> member(p, "achieved_ingest_eps"@) == Doc::Int(0)
            })
        }),
{
    broadcast use json::with_then_get;

    status_keys();
    progress_keys();
}

/// A deployment is beyond hope exactly where it wants pods, has none, and no longer gets any.
pub proof fn hopeless_deployments_have_no_pods(d: DeploymentState)
    ensures
        lifecycle::has_stalled(d) <==> d.replicas != 0 && d.available == 0 && d.unavailable > 0
            && exists|i: int|
            0 <= i < d.conditions@.len() && (#[trigger] d.conditions@[i]).0@ == "Progressing"@
                && d.conditions@[i].1@ == "False"@,
{
    let v = model::vmap(d.conditions@);
    if v.contains(("Progressing"@, "False"@)) {
        let i = choose|i: int| 0 <= i < v.len() && v[i] == ("Progressing"@, "False"@);
        assert(d.conditions@[i]@ == v[i]);
    }
    if exists|i: int|
        0 <= i < d.conditions@.len() && (#[trigger] d.conditions@[i]).0@ == "Progressing"@
            && d.conditions@[i].1@ == "False"@ {
        let i = choose|i: int|
            0 <= i < d.conditions@.len() && (#[trigger] d.conditions@[i]).0@ == "Progressing"@
                && d.conditions@[i].1@ == "False"@;
        assert(v[i] == ("Progressing"@, "False"@));
    }
}

/// Results are fetched when the aggregator is done, or two minutes after the timeline.
pub proof fn results_are_fetched_in_two_minutes(state: Seq<char>, seconds: int)
    ensures
        lifecycle::time_to_fetch(state, seconds) <==> state == "complete"@ || seconds > 120,
{
}

/// The results of a run are told in its status as they came; without results the run may not
/// be used.
pub proof fn results_are_told(results: Option<RunResults>)
    ensures
        ({
            let c = lifecycle::aggregated(results);
            let d = member(status(c), "results"@);
            &&& c.phase == Some(LifecyclePhase::Reporting)
            &&& says_its_phase(c)
            &&& results matches Some(r) ==> member(d, "valid"@) == Doc::Bool(r.valid) && member(
                d,
                "harness_saturated"@,
            ) == Doc::Bool(r.harness_saturated) && (r.scorecard matches Some(card) ==> member(
                d,
                "scorecard"@,
            ) == lifecycle::scorecard_doc(card)) && (member(d, "validity_violations"@) matches Doc::Array(
                v,
            ) && v.len() == r.validity_violations@.len() && forall|i: int|
                0 <= i < v.len() ==> #[trigger] v[i] == Doc::Text(r.validity_violations@[i]@))
            &&& results is None ==> member(d, "valid"@) == Doc::Bool(false)
        }),
{
    broadcast use json::with_then_get;

    status_keys();
    result_keys();
}

/// A run is over when its report is written, or the reporter has failed three times.
pub proof fn runs_end_with_their_report(succeeded: int, failed: int, now: Seq<char>)
    ensures
        lifecycle::reporting(succeeded, failed, now) is Some <==> succeeded > 0 || failed >= 3,
        lifecycle::reporting(succeeded, failed, now) matches Some(c) ==> c.phase == Some(
            LifecyclePhase::Completed,
        ) && says_its_phase(c) && member(status(c), "completion_time"@) == Doc::Text(now),
{
    broadcast use json::with_then_get;

    status_keys();
}

/// A completed run is cleaned up once, a failed one is kept, one that is deleted is cleaned up
/// in any phase, and every other is worked on.
pub proof fn completed_runs_are_cleaned_up(phase: LifecyclePhase, cleaned: bool, deleting: bool)
    ensures
        cleaned && (deleting || phase == LifecyclePhase::Completed) ==> lifecycle::task(
            phase,
            cleaned,
            deleting,
        ) == Task::Rest,
        !cleaned && (deleting || phase == LifecyclePhase::Completed) ==> lifecycle::task(
            phase,
            cleaned,
            deleting,
        ) == Task::CleanUp,
        !deleting && phase == LifecyclePhase::Failed ==> lifecycle::task(phase, cleaned, deleting)
            == Task::Rest,
        !deleting && phase != LifecyclePhase::Failed && phase != LifecyclePhase::Completed
            ==> lifecycle::task(phase, cleaned, deleting) == Task::Advance(phase),
{
}

/// Being cleaned up is said by the condition that is looked for.
pub proof fn cleaning_up_is_noted(now: Seq<char>)
    ensures
        ({
            let d = nth(member(member(lifecycle::cleaned_doc(now), "status"@), "conditions"@), 0);
            member(d, "type"@) == Doc::Text("Cleaned"@) && member(d, "status"@) == Doc::Text(
                "True"@,
            )
        }),
        forall|conditions: Seq<Condition>|
            #[trigger] lifecycle::is_cleaned(conditions) <==> exists|i: int|
                0 <= i < conditions.len() && (#[trigger] conditions[i]).condition_type@
                    == "Cleaned"@ && conditions[i].status@ == "True"@,
{
    broadcast use json::with_then_get;

    status_keys();
}

/// The topic of a stream is that of its index, with as many partitions as it asks for, or as
/// it has workers.
pub proof fn topics_have_their_partitions(s: StreamView)
    ensures
        lifecycle::topic(s).0 == s.schema.index_name,
        s.kafka_partitions matches Some(p) ==> lifecycle::topic(s).1 == p,
        s.kafka_partitions is None ==> lifecycle::topic(s).1 == s.ingest_replicas,
{
}

/// A run is pending, prepares, initializes, runs, aggregates, reports and is complete, in this
/// order; it may fail from each of these phases but the last, and only a trial goes from the
/// first to the last.
pub proof fn phases_follow_in_order(from: LifecyclePhase, to: LifecyclePhase)
    ensures
        from == LifecyclePhase::Pending && lifecycle::follows(from, to) ==> to
            == LifecyclePhase::Preparing || to == LifecyclePhase::Failed || to
            == LifecyclePhase::Completed,
        from == LifecyclePhase::Preparing && lifecycle::follows(from, to) ==> to
            == LifecyclePhase::Initializing || to == LifecyclePhase::Failed,
        from == LifecyclePhase::Initializing && lifecycle::follows(from, to) ==> to
            == LifecyclePhase::Running || to == LifecyclePhase::Failed,
        from == LifecyclePhase::Running && lifecycle::follows(from, to) ==> to
            == LifecyclePhase::Aggregating || to == LifecyclePhase::Failed,
        from == LifecyclePhase::Aggregating && lifecycle::follows(from, to) ==> to
            == LifecyclePhase::Reporting || to == LifecyclePhase::Failed,
        from == LifecyclePhase::Reporting && lifecycle::follows(from, to) ==> to
            == LifecyclePhase::Completed || to == LifecyclePhase::Failed,
        from == LifecyclePhase::Completed || from == LifecyclePhase::Failed ==> !lifecycle::follows(
            from,
            to,
        ),
{
}

} // verus!
