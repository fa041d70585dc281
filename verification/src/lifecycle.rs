//! The life of a run: what the operator does in each phase, what it writes into the run's
//! status, and which phase follows.
use vstd::prelude::*;
use vstd::string::*;
use crate::adapter;
use crate::adapter::{WarehouseConfig, WarehouseView};
use crate::clock;
use crate::clock::Instant;
use crate::configmaps;
use crate::crd::{
    Condition, IncidentBenchRunSpec, LifecyclePhase, QueryGroupSpec, RunResults, WorkerSpec,
};
use crate::decimal::Ratio;
use crate::docs;
use crate::json;
use crate::json::{Doc, Json};
use crate::mach5;
use crate::metrics::Scorecard;
use crate::model;
use crate::rates;
use crate::scenario::{DataStream, Scenario, ScenarioView, StreamView};
use crate::text;
use crate::validation;

verus! {

/// How long the operator waits before it looks at a run again, in seconds.
pub const REQUEUE_SECONDS: u64 = 5;

/// How long it waits after an error, in seconds.
pub const ERROR_REQUEUE_SECONDS: u64 = 30;

/// How long the aggregator may take to finish after the timeline, in seconds.
pub const AGGREGATION_GRACE_SECONDS: i64 = 120;

/// How often the reporter may fail.
pub const REPORTER_FAILURES: i32 = 3;

// ---------------------------------------------------------------------------
// Phases
// ---------------------------------------------------------------------------

/// The phase that regularly follows.
pub open spec fn next_phase(p: LifecyclePhase) -> Option<LifecyclePhase> {
    match p {
        LifecyclePhase::Pending => Some(LifecyclePhase::Preparing),
        LifecyclePhase::Preparing => Some(LifecyclePhase::Initializing),
        LifecyclePhase::Initializing => Some(LifecyclePhase::Running),
        LifecyclePhase::Running => Some(LifecyclePhase::Aggregating),
        LifecyclePhase::Aggregating => Some(LifecyclePhase::Reporting),
        LifecyclePhase::Reporting => Some(LifecyclePhase::Completed),
        LifecyclePhase::Completed => None,
        LifecyclePhase::Failed => None,
    }
}

/// A run has come to its end.
pub open spec fn is_final(p: LifecyclePhase) -> bool {
    p == LifecyclePhase::Completed || p == LifecyclePhase::Failed
}

/// A run may go from one phase to the other: to the next one, to failure, or, where it is
/// only tried out, from the start to the end.
pub open spec fn follows(from: LifecyclePhase, to: LifecyclePhase) -> bool {
    &&& !is_final(from)
    &&& {
        ||| next_phase(from) == Some(to)
        ||| to == LifecyclePhase::Failed
        ||| from == LifecyclePhase::Pending && to == LifecyclePhase::Completed
    }
}

/// The place of a phase in the course of a run.
pub open spec fn rank(p: LifecyclePhase) -> int {
    match p {
        LifecyclePhase::Pending => 0,
        LifecyclePhase::Preparing => 1,
        LifecyclePhase::Initializing => 2,
        LifecyclePhase::Running => 3,
        LifecyclePhase::Aggregating => 4,
        LifecyclePhase::Reporting => 5,
        LifecyclePhase::Completed => 6,
        LifecyclePhase::Failed => 7,
    }
}

/// A run never goes back: each phase that follows is further on, and after the end none
/// follows.
pub proof fn runs_only_go_forward(from: LifecyclePhase, to: LifecyclePhase)
    ensures
        follows(from, to) ==> rank(from) < rank(to),
        is_final(from) ==> !follows(from, to),
        next_phase(from) is Some <==> !is_final(from),
{
}

/// What the operator does with a run.
#[derive(Clone, Copy, PartialEq, Eq, Structural, Debug)]
pub enum Task {
    /// Work on the phase that the run is in.
    Advance(LifecyclePhase),
    /// Take the run's resources down.
    CleanUp,
    /// Nothing, until the run changes.
    Rest,
}

/// What the operator does with a run in that phase. The resources of a completed run are
/// taken down, once; those of a failed one are kept for study. A run that is being deleted
/// is taken down whatever its phase.
pub open spec fn task(phase: LifecyclePhase, cleaned: bool, deleting: bool) -> Task {
    if deleting || phase == LifecyclePhase::Completed {
        if cleaned {
            Task::Rest
        } else {
            Task::CleanUp
        }
    } else if phase == LifecyclePhase::Failed {
        Task::Rest
    } else {
        Task::Advance(phase)
    }
}

/// One of the conditions says that the run's resources were taken down.
pub open spec fn is_cleaned(conditions: Seq<Condition>) -> bool {
    exists|i: int|
        0 <= i < conditions.len() && (#[trigger] conditions[i]).condition_type@ == "Cleaned"@
            && conditions[i].status@ == "True"@
}

/// Whether the run's resources were taken down.
pub fn already_cleaned(conditions: &Vec<Condition>) -> (r: bool)
    ensures
        r == is_cleaned(conditions@),
{
    let mut i: usize = 0;
    while i < conditions.len()
        invariant
            i <= conditions@.len(),
            forall|k: int|
                0 <= k < i ==> !((#[trigger] conditions@[k]).condition_type@ == "Cleaned"@
                    && conditions@[k].status@ == "True"@),
        decreases conditions@.len() - i,
    {
        if text::same(conditions[i].condition_type.as_str(), "Cleaned") && text::same(
            conditions[i].status.as_str(),
            "True",
        ) {
            return true;
        }
        i += 1;
    }
    false
}

/// Decides what to do with a run: its phase, the conditions it has, and whether it is
/// being deleted.
pub fn reconcile(phase: LifecyclePhase, conditions: &Vec<Condition>, deleting: bool) -> (r: Task)
    ensures
        r == task(phase, is_cleaned(conditions@), deleting),
{
    if deleting || phase == LifecyclePhase::Completed {
        if already_cleaned(conditions) {
            Task::Rest
        } else {
            Task::CleanUp
        }
    } else if phase == LifecyclePhase::Failed {
        Task::Rest
    } else {
        Task::Advance(phase)
    }
}

/// A change of a run's status: the phase that the run goes to, where it leaves its own,
/// and the patch that says so.
pub struct StatusChange {
    pub phase: Option<LifecyclePhase>,
    pub patch: Json,
}

pub struct ChangeView {
    pub phase: Option<LifecyclePhase>,
    pub patch: Doc,
}

impl View for StatusChange {
    type V = ChangeView;

    open spec fn view(&self) -> ChangeView {
        ChangeView { phase: self.phase, patch: self.patch.doc() }
    }
}

/// A condition that holds.
pub open spec fn condition_doc(kind: Seq<char>, message: Seq<char>, now: Seq<char>) -> Doc {
    Doc::object()
        .with("type"@, Doc::Text(kind))
        .with("status"@, Doc::Text("True"@))
        .with("message"@, Doc::Text(message))
        .with("lastTransitionTime"@, Doc::Text(now))
}

/// A condition that holds.
fn condition(kind: &str, message: &str, now: &str) -> (r: Json)
    ensures
        r.doc() == condition_doc(kind@, message@, now@),
{
    Json::object()
        .with("type", Json::text(kind))
        .with("status", Json::text("True"))
        .with("message", Json::text(message))
        .with("lastTransitionTime", Json::text(now))
}

/// The status of a run that failed.
pub open spec fn failed_doc(message: Seq<char>, now: Seq<char>) -> Doc {
    Doc::object()
        .with(
            "status"@,
            Doc::object()
                .with("phase"@, Doc::Text("Failed"@))
                .with(
                    "conditions"@,
                    Doc::array()
                        .item(condition_doc("Failed"@, message, now)),
                ),
        )
}

/// The status of a run that failed.
fn failed_patch(message: &str, now: &str) -> (r: Json)
    ensures
        r.doc() == failed_doc(message@, now@),
{
    Json::object()
        .with(
            "status",
            Json::object()
                .with("phase", Json::text("Failed"))
                .with(
                    "conditions",
                    Json::array()
                        .item(condition("Failed", message, now)),
                ),
        )
}

/// A run that fails with a message.
pub open spec fn failure(message: Seq<char>, now: Seq<char>) -> ChangeView {
    ChangeView { phase: Some(LifecyclePhase::Failed), patch: failed_doc(message, now) }
}

/// Ends a run with a message.
pub fn update_phase_failed(message: &str, now: &str) -> (r: StatusChange)
    ensures
        r@ == failure(message@, now@),
{
    StatusChange { phase: Some(LifecyclePhase::Failed), patch: failed_patch(message, now) }
}

// ---------------------------------------------------------------------------
// Pending
// ---------------------------------------------------------------------------

/// Where a run's scenario is.
pub enum ScenarioSource {
    /// In the run itself.
    Inline,
    /// In an entry of a ConfigMap.
    ConfigMap { name: String, key: String },
}

/// Where a run's scenario is, or why it has none.
pub fn resolve_scenario(spec: &IncidentBenchRunSpec) -> (r: Result<ScenarioSource, String>)
    ensures
        match r {
            Ok(ScenarioSource::Inline) => spec.scenario is Some,
            Ok(ScenarioSource::ConfigMap { name, key }) => spec.scenario is None
                && spec.scenario_ref is Some && name@ == spec.scenario_ref->0.config_map.name@
                && key@ == spec.scenario_ref->0.config_map.key@,
            Err(e) => spec.scenario is None && spec.scenario_ref is None && e@
                == "Either scenario or scenarioRef must be specified"@,
        },
{
    if spec.scenario.is_some() {
        return Ok(ScenarioSource::Inline);
    }
    match &spec.scenario_ref {
        Some(r) => Ok(
            ScenarioSource::ConfigMap {
                name: r.config_map.name.clone(),
                key: r.config_map.key.clone(),
            },
        ),
        None => Err(text::owned("Either scenario or scenarioRef must be specified")),
    }
}

/// What is said of a scenario that was only tried out.
pub open spec fn dry_run_message(s: ScenarioView) -> Seq<char> {
    "Dry-run: scenario '"@ + s.meta.display_name + "' validated successfully. "@ + text::decimal(
        s.stream_list().len(),
    ) + " data streams, "@ + text::decimal(s.phases.len()) + " phases, total duration: "@
        + text::decimal(s.total_duration() as nat) + "s"@
}

/// The status of a run that was only tried out.
pub open spec fn dry_run_doc(message: Seq<char>, now: Seq<char>) -> Doc {
    Doc::object()
        .with(
            "status"@,
            Doc::object()
                .with("phase"@, Doc::Text("Completed"@))
                .with("completion_time"@, Doc::Text(now))
                .with(
                    "conditions"@,
                    Doc::array()
                        .item(condition_doc("DryRun"@, message, now))
                        .item(condition_doc("Cleaned"@, "Dry-run: no resources to clean up"@, now)),
                ),
        )
}

/// The status of a run that was only tried out.
fn dry_run_patch(message: &str, now: &str) -> (r: Json)
    ensures
        r.doc() == dry_run_doc(message@, now@),
{
    Json::object()
        .with(
            "status",
            Json::object()
                .with("phase", Json::text("Completed"))
                .with("completion_time", Json::text(now))
                .with(
                    "conditions",
                    Json::array()
                        .item(condition("DryRun", message, now))
                        .item(condition("Cleaned", "Dry-run: no resources to clean up", now)),
                ),
        )
}

/// The status of a run whose scenario is in order.
pub open spec fn validated_doc(run_id: Seq<char>, now: Seq<char>) -> Doc {
    Doc::object()
        .with(
            "status"@,
            Doc::object()
                .with("phase"@, Doc::Text("Preparing"@))
                .with("runId"@, Doc::Text(run_id))
                .with("startTime"@, Doc::Text(now))
                .with(
                    "conditions"@,
                    Doc::array()
                        .item(condition_doc("Validated"@, "Scenario validated successfully"@, now)),
                ),
        )
}

/// The status of a run whose scenario is in order.
fn validated_patch(run_id: &str, now: &str) -> (r: Json)
    ensures
        r.doc() == validated_doc(run_id@, now@),
{
    Json::object()
        .with(
            "status",
            Json::object()
                .with("phase", Json::text("Preparing"))
                .with("runId", Json::text(run_id))
                .with("startTime", Json::text(now))
                .with(
                    "conditions",
                    Json::array()
                        .item(condition("Validated", "Scenario validated successfully", now)),
                ),
        )
}

/// The patch by which a run is not deleted before its resources are.
pub open spec fn finalizer_doc() -> Doc {
    Doc::object()
        .with(
            "metadata"@,
            Doc::object()
                .with(
                    "finalizers"@,
                    Doc::array()
                        .item(Doc::Text("incidentbench.io/cleanup"@)),
                ),
        )
}

/// The patch by which a run is not deleted before its resources are.
pub fn finalizer_patch() -> (r: Json)
    ensures
        r.doc() == finalizer_doc(),
{
    Json::object()
        .with(
            "metadata",
            Json::object()
                .with(
                    "finalizers",
                    Json::array()
                        .item(Json::text("incidentbench.io/cleanup")),
                ),
        )
}

/// The patch by which a run may be deleted.
pub open spec fn no_finalizer_doc() -> Doc {
    Doc::object()
        .with(
            "metadata"@,
            Doc::object()
                .with("finalizers"@, Doc::Null),
        )
}

/// The patch by which a run may be deleted.
pub fn no_finalizer_patch() -> (r: Json)
    ensures
        r.doc() == no_finalizer_doc(),
{
    Json::object()
        .with(
            "metadata",
            Json::object()
                .with("finalizers", Json::Null),
        )
}

/// What becomes of a pending run.
pub open spec fn pending(
    resolved: Result<ScenarioView, Seq<char>>,
    dry_run: bool,
    run_id: Seq<char>,
    now: Seq<char>,
) -> ChangeView {
    match resolved {
        Err(e) => failure("Failed to resolve scenario: "@ + e, now),
        Ok(s) => {
            if s.complaints().len() > 0 {
                failure(
                    "Scenario validation failed: "@ + text::joined(s.complaints(), "; "@),
                    now,
                )
            } else if dry_run {
                ChangeView {
                    phase: Some(LifecyclePhase::Completed),
                    patch: dry_run_doc(dry_run_message(s), now),
                }
            } else {
                ChangeView {
                    phase: Some(LifecyclePhase::Preparing),
                    patch: validated_doc(run_id, now),
                }
            }
        },
    }
}

/// Checks the scenario of a pending run, and lets the run begin, end as a trial, or fail.
pub fn handle_pending(
    resolved: &Result<Scenario, String>,
    dry_run: bool,
    run_id: &str,
    now: &str,
) -> (r: StatusChange)
    requires
        resolved is Ok ==> resolved->Ok_0@.total_duration() <= u64::MAX,
    ensures
        r@ == pending(
            match *resolved {
                Ok(s) => Ok(s@),
                Err(e) => Err(e@),
            },
            dry_run,
            run_id@,
            now@,
        ),
        follows(LifecyclePhase::Pending, r.phase->0),
{
    match resolved {
        Err(e) => {
            let message = text::join2("Failed to resolve scenario: ", e.as_str());
            update_phase_failed(message.as_str(), now)
        },
        Ok(s) => {
            let errors = s.validate();
            assert(text::views(errors@).len() == errors@.len());
            if errors.len() > 0 {
                let list = text::join(&errors, "; ");
                let message = text::join2("Scenario validation failed: ", list.as_str());
                update_phase_failed(message.as_str(), now)
            } else if dry_run {
                let streams: usize = match &s.data_streams {
                    Some(d) => d.len(),
                    None => 0,
                };
                let mut message = text::join5(
                    "Dry-run: scenario '",
                    s.scenario.display_name.as_str(),
                    "' validated successfully. ",
                    text::decimal_usize(streams).as_str(),
                    " data streams, ",
                );
                message.append(text::decimal_usize(s.timeline.phases.len()).as_str());
                message.append(" phases, total duration: ");
                message.append(text::decimal_u64(s.total_duration_seconds()).as_str());
                message.append("s");
                StatusChange {
                    phase: Some(LifecyclePhase::Completed),
                    patch: dry_run_patch(message.as_str(), now),
                }
            } else {
                StatusChange {
                    phase: Some(LifecyclePhase::Preparing),
                    patch: validated_patch(run_id, now),
                }
            }
        },
    }
}

/// Whether a run already waits for its resources to be deleted.
pub fn has_finalizer(finalizers: &Option<Vec<String>>) -> (r: bool)
    ensures
        r == (*finalizers is Some && text::views((*finalizers)->0@).contains(
            "incidentbench.io/cleanup"@,
        )),
{
    match finalizers {
        Some(f) => text::list_has(f, "incidentbench.io/cleanup"),
        None => false,
    }
}

// ---------------------------------------------------------------------------
// Preparing
// ---------------------------------------------------------------------------

/// Where Kafka is reached.
pub open spec fn bootstrap(servers: Option<Seq<char>>) -> Seq<char> {
    match servers {
        Some(s) => s,
        None => "kafka-bootstrap:9092"@,
    }
}

/// Where Kafka is reached.
pub fn kafka_bootstrap(servers: &Option<String>) -> (r: &str)
    ensures
        r@ == bootstrap(text::opt_view(*servers)),
{
    match servers {
        Some(s) => s.as_str(),
        None => "kafka-bootstrap:9092",
    }
}

/// The topic of a stream and its partitions: as many as the stream has workers where
/// nothing is said.
pub open spec fn topic(s: StreamView) -> (Seq<char>, u32) {
    (
        s.schema.index_name,
        match s.kafka_partitions {
            Some(p) => p,
            None => s.ingest_replicas,
        },
    )
}

/// The topics of the streams, with their partitions.
pub fn kafka_topics(streams: &Option<Vec<DataStream>>) -> (r: Vec<(String, u32)>)
    ensures
        model::vmap(r@) == (match model::opt_vmap(*streams) {
            Some(s) => s.map_values(|x: StreamView| topic(x)),
            None => Seq::empty(),
        }),
{
    let mut out: Vec<(String, u32)> = Vec::new();
    match streams {
        None => {
            assert(model::vmap(out@) =~= Seq::empty());
        },
        Some(streams) => {
            let ghost all = model::vmap(streams@).map_values(|x: StreamView| topic(x));
            let mut i: usize = 0;
            assert(model::vmap(out@) =~= all.take(0));
            while i < streams.len()
                invariant
                    i <= streams@.len(),
                    all == model::vmap(streams@).map_values(|x: StreamView| topic(x)),
                    model::vmap(out@) == all.take(i as int),
                decreases streams@.len() - i,
            {
                broadcast use model::vmap_push, model::take_push;

                let partitions: u32 = match streams[i].kafka_partitions {
                    Some(p) => p,
                    None => streams[i].ingest_replicas,
                };
                let t = (streams[i].schema.index_name.clone(), partitions);
                assert(t@ == all[i as int]);
                out.push(t);
                i += 1;
            }
            assert(all.take(i as int) =~= all);
        },
    }
    out
}

/// The entries of a table, as `name=value`.
pub open spec fn assignments(entries: Seq<(Seq<char>, Seq<char>)>) -> Seq<Seq<char>> {
    entries.map_values(|e: (Seq<char>, Seq<char>)| e.0 + "="@ + e.1)
}

/// The entries of a table in one line.
pub open spec fn summary(entries: Seq<(Seq<char>, Seq<char>)>) -> Seq<char> {
    text::joined(assignments(entries), ", "@)
}

fn summary_of(entries: &Vec<(String, String)>) -> (r: String)
    ensures
        r@ == summary(model::vmap(entries@)),
{
    let ghost all = assignments(model::vmap(entries@));
    let mut out: Vec<String> = Vec::new();
    let mut i: usize = 0;
    assert(text::views(out@) =~= all.take(0));
    while i < entries.len()
        invariant
            i <= entries@.len(),
            all == assignments(model::vmap(entries@)),
            text::views(out@) == all.take(i as int),
        decreases entries@.len() - i,
    {
        broadcast use model::views_push, model::take_push;

        assert(model::vmap(entries@)[i as int] == entries@[i as int]@);
        out.push(text::join3(entries[i].0.as_str(), "=", entries[i].1.as_str()));
        i += 1;
    }
    assert(all.take(i as int) =~= all);
    text::join(&out, ", ")
}

/// The names of the streams.
pub open spec fn stream_names(streams: Seq<StreamView>) -> Seq<Seq<char>> {
    streams.map_values(|s: StreamView| s.name)
}

/// What is said of a run whose target is prepared.
pub open spec fn prepared_message(
    streams: Seq<StreamView>,
    groups: Seq<(Seq<char>, Seq<char>)>,
    endpoints: Seq<(Seq<char>, Seq<char>)>,
) -> Seq<char> {
    "Streams ["@ + validation::quoted_items(stream_names(streams)) + "] created. Consumer groups: "@
        + summary(groups) + ". Warehouses: "@ + summary(endpoints)
}

/// The status of a run whose target is prepared.
pub open spec fn prepared_doc(message: Seq<char>, now: Seq<char>) -> Doc {
    Doc::object()
        .with(
            "status"@,
            Doc::object()
                .with("phase"@, Doc::Text("Initializing"@))
                .with(
                    "conditions"@,
                    Doc::array()
                        .item(condition_doc("Prepared"@, message, now)),
                ),
        )
}

/// The status of a run whose target is prepared.
fn prepared_patch(message: &str, now: &str) -> (r: Json)
    ensures
        r.doc() == prepared_doc(message@, now@),
{
    Json::object()
        .with(
            "status",
            Json::object()
                .with("phase", Json::text("Initializing"))
                .with(
                    "conditions",
                    Json::array()
                        .item(condition("Prepared", message, now)),
                ),
        )
}

/// How preparing a run ended.
pub enum PrepareOutcome {
    /// A topic could not be created.
    TopicFailed { topic: String, error: String },
    /// There is no such adapter, or it was told too little.
    NoAdapter(String),
    /// The target could not be prepared.
    AdapterFailed(String),
    /// All is there.
    Prepared(adapter::PrepareResult),
}

/// What becomes of a run when preparing it has ended.
pub open spec fn preparing(
    outcome: PrepareOutcome,
    streams: Seq<StreamView>,
    now: Seq<char>,
) -> ChangeView {
    match outcome {
        PrepareOutcome::TopicFailed { topic, error } => failure(
            "Failed to create Kafka topic '"@ + topic@ + "': "@ + error@,
            now,
        ),
        PrepareOutcome::NoAdapter(e) => failure("Failed to create adapter: "@ + e@, now),
        PrepareOutcome::AdapterFailed(e) => failure("Adapter prepare failed: "@ + e@, now),
        PrepareOutcome::Prepared(r) => ChangeView {
            phase: Some(LifecyclePhase::Initializing),
            patch: prepared_doc(
                prepared_message(streams, r@.consumer_groups, r@.query_endpoints),
                now,
            ),
        },
    }
}

fn names_of_streams(streams: &Vec<DataStream>) -> (r: Vec<String>)
    ensures
        text::views(r@) == stream_names(model::vmap(streams@)),
{
    let ghost all = stream_names(model::vmap(streams@));
    let mut out: Vec<String> = Vec::new();
    let mut i: usize = 0;
    assert(text::views(out@) =~= all.take(0));
    while i < streams.len()
        invariant
            i <= streams@.len(),
            all == stream_names(model::vmap(streams@)),
            text::views(out@) == all.take(i as int),
        decreases streams@.len() - i,
    {
        broadcast use model::views_push, model::take_push;

        assert(model::vmap(streams@)[i as int] == streams@[i as int]@);
        out.push(streams[i].name.clone());
        i += 1;
    }
    assert(all.take(i as int) =~= all);
    out
}

/// Lets a run go on when its target is prepared, or fail.
pub fn handle_preparing(outcome: &PrepareOutcome, scenario: &Scenario, now: &str) -> (r:
    StatusChange)
    ensures
        r@ == preparing(*outcome, scenario@.stream_list(), now@),
        follows(LifecyclePhase::Preparing, r.phase->0),
{
    match outcome {
        PrepareOutcome::TopicFailed { topic, error } => {
            let m = text::join4(
                "Failed to create Kafka topic '",
                topic.as_str(),
                "': ",
                error.as_str(),
            );
            update_phase_failed(m.as_str(), now)
        },
        PrepareOutcome::NoAdapter(e) => {
            let m = text::join2("Failed to create adapter: ", e.as_str());
            update_phase_failed(m.as_str(), now)
        },
        PrepareOutcome::AdapterFailed(e) => {
            let m = text::join2("Adapter prepare failed: ", e.as_str());
            update_phase_failed(m.as_str(), now)
        },
        PrepareOutcome::Prepared(p) => {
            let none: Vec<DataStream> = Vec::new();
            assert(model::vmap(none@) =~= Seq::empty());
            let streams = match &scenario.data_streams {
                Some(s) => s,
                None => &none,
            };
            let names = names_of_streams(streams);
            let list = validation::quote_items(&names);
            let groups = summary_of(&p.consumer_groups);
            let ends = summary_of(&p.query_endpoints);
            let mut m = text::join5(
                "Streams [",
                list.as_str(),
                "] created. Consumer groups: ",
                groups.as_str(),
                ". Warehouses: ",
            );
            m.append(ends.as_str());
            StatusChange {
                phase: Some(LifecyclePhase::Initializing),
                patch: prepared_patch(m.as_str(), now),
            }
        },
    }
}

/// The warehouses that the groups name, or the one that the target's configuration names.
pub open spec fn warehouses(workers: WorkerSpec, target_config: Doc) -> Seq<WarehouseView> {
    match workers.query_groups {
        Some(groups) => adapter::unique(
            groups@.map_values(|g: QueryGroupSpec| g.warehouse@),
        ),
        None => seq![single_warehouse(target_config.get("warehouse"@))],
    }
}

/// The warehouse that the target's configuration names: what it leaves out is taken from
/// the defaults.
pub open spec fn single_warehouse(config: Option<Doc>) -> WarehouseView {
    let config = match config {
        Some(c) => c,
        None => Doc::Null,
    };
    WarehouseView {
        name: match mach5::text_member(config, "name"@) {
            Some(n) => n,
            None => "incidentbench-wh"@,
        },
        num_mediators: match mach5::uint_member(config, "numMediators"@) {
            Some(n) => (n % 0x1_0000_0000) as u32,
            None => 1,
        },
        num_os: match mach5::uint_member(config, "numOs"@) {
            Some(n) => (n % 0x1_0000_0000) as u32,
            None => 2,
        },
    }
}

/// The warehouses that a run needs, each once.
pub fn build_warehouse_configs(workers: &WorkerSpec, target_config: &Json) -> (r: Vec<
    WarehouseConfig,
>)
    ensures
        model::vmap(r@) == warehouses(*workers, target_config.doc()),
{
    match &workers.query_groups {
        Some(groups) => {
            let ghost all = groups@.map_values(|g: QueryGroupSpec| g.warehouse@);
            let mut list: Vec<WarehouseConfig> = Vec::new();
            let mut i: usize = 0;
            assert(model::vmap(list@) =~= all.take(0));
            while i < groups.len()
                invariant
                    i <= groups@.len(),
                    all == groups@.map_values(|g: QueryGroupSpec| g.warehouse@),
                    model::vmap(list@) == all.take(i as int),
                decreases groups@.len() - i,
            {
                broadcast use model::vmap_push, model::take_push;

                let w = &groups[i].warehouse;
                let c = WarehouseConfig {
                    name: w.name.clone(),
                    num_mediators: w.num_mediators,
                    num_os: w.num_os,
                };
                assert(c@ == all[i as int]);
                list.push(c);
                i += 1;
            }
            assert(all.take(i as int) =~= all);
            adapter::unique_warehouses(&list)
        },
        None => {
            let null = Json::Null;
            let config = match target_config.get("warehouse") {
                Some(c) => c,
                None => &null,
            };
            let name = match mach5::text_of(config, "name") {
                Some(n) => text::owned(n),
                None => text::owned("incidentbench-wh"),
            };
            let num_mediators: u32 = match mach5::uint_of(config, "numMediators") {
                Some(n) => (n % 0x1_0000_0000) as u32,
                None => 1,
            };
            let num_os: u32 = match mach5::uint_of(config, "numOs") {
                Some(n) => (n % 0x1_0000_0000) as u32,
                None => 2,
            };
            let mut out: Vec<WarehouseConfig> = Vec::new();
            out.push(WarehouseConfig { name, num_mediators, num_os });
            assert(model::vmap(out@) =~= warehouses(*workers, target_config.doc()));
            out
        },
    }
}

// ---------------------------------------------------------------------------
// Initializing
// ---------------------------------------------------------------------------

/// What is said of a run whose workers are deployed.
pub open spec fn deployed_message(ingest: nat, streams: nat, query: nat) -> Seq<char> {
    text::decimal(ingest) + " ingest workers (across "@ + text::decimal(streams) + " streams), "@
        + text::decimal(query) + " query workers deployed"@
}

/// How many workers a run wants, and how many of them have reported ready.
#[derive(Clone, Copy, PartialEq, Eq, Structural, Debug)]
pub struct WorkerCounts {
    pub ingest_desired: u32,
    pub ingest_ready: u32,
    pub query_desired: u32,
    pub query_ready: u32,
}

impl WorkerCounts {
    /// No worker is missing.
    pub open spec fn complete(self) -> bool {
        self.ingest_ready >= self.ingest_desired && self.query_ready >= self.query_desired
    }
}

/// The status of a run whose workers are ready.
pub open spec fn running_doc(c: WorkerCounts, message: Seq<char>, now: Seq<char>) -> Doc {
    Doc::object()
        .with(
            "status"@,
            Doc::object()
                .with("phase"@, Doc::Text("Running"@))
                .with(
                    "workers"@,
                    Doc::object()
                        .with("ingest_desired"@, Doc::Uint(c.ingest_desired as nat))
                        .with("ingest_ready"@, Doc::Uint(c.ingest_ready as nat))
                        .with("query_desired"@, Doc::Uint(c.query_desired as nat))
                        .with("query_ready"@, Doc::Uint(c.query_ready as nat)),
                )
                .with(
                    "conditions"@,
                    Doc::array()
                        .item(condition_doc("WorkersReady"@, message, now)),
                ),
        )
}

/// The status of a run whose workers are ready.
fn running_patch(c: WorkerCounts, message: &str, now: &str) -> (r: Json)
    ensures
        r.doc() == running_doc(c, message@, now@),
{
    Json::object()
        .with(
            "status",
            Json::object()
                .with("phase", Json::text("Running"))
                .with(
                    "workers",
                    Json::object()
                        .with("ingest_desired", Json::Uint(c.ingest_desired as u64))
                        .with("ingest_ready", Json::Uint(c.ingest_ready as u64))
                        .with("query_desired", Json::Uint(c.query_desired as u64))
                        .with("query_ready", Json::Uint(c.query_ready as u64)),
                )
                .with(
                    "conditions",
                    Json::array()
                        .item(condition("WorkersReady", message, now)),
                ),
        )
}

/// The workers that a run wants, and those that have reported ready.
pub open spec fn worker_counts(
    s: ScenarioView,
    workers: WorkerSpec,
    ingest_ready: u32,
    query_ready: u32,
) -> WorkerCounts {
    WorkerCounts {
        ingest_desired: s.total_replicas() as u32,
        ingest_ready,
        query_desired: configmaps::query_workers(workers) as u32,
        query_ready,
    }
}

/// What becomes of a run whose workers are deployed: it goes on when all of them have
/// reported ready, and stays as it is until then.
pub open spec fn initialized(
    s: ScenarioView,
    workers: WorkerSpec,
    ingest_ready: u32,
    query_ready: u32,
    now: Seq<char>,
) -> Option<ChangeView> {
    let c = worker_counts(s, workers, ingest_ready, query_ready);
    if c.complete() {
        Some(
            ChangeView {
                phase: Some(LifecyclePhase::Running),
                patch: running_doc(
                    c,
                    deployed_message(
                        c.ingest_desired as nat,
                        s.stream_list().len(),
                        c.query_desired as nat,
                    ),
                    now,
                ),
            },
        )
    } else {
        None
    }
}

/// Lets a run go on when all of its workers have reported ready.
pub fn handle_initializing(
    scenario: &Scenario,
    workers: &WorkerSpec,
    ingest_ready: u32,
    query_ready: u32,
    now: &str,
) -> (r: Option<StatusChange>)
    requires
        scenario@.total_replicas() <= u32::MAX,
        configmaps::query_workers(*workers) <= u32::MAX,
    ensures
        match r {
            Some(c) => initialized(scenario@, *workers, ingest_ready, query_ready, now@) == Some(
                c@,
            ) && follows(LifecyclePhase::Initializing, c.phase->0),
            None => initialized(scenario@, *workers, ingest_ready, query_ready, now@) is None,
        },
{
    let ingest: u32 = scenario.total_ingest_replicas();
    let query: u32 = configmaps::total_query_workers(workers);
    if ingest_ready < ingest || query_ready < query {
        return None;
    }
    let streams: usize = match &scenario.data_streams {
        Some(s) => s.len(),
        None => 0,
    };
    let mut m = text::join5(
        text::decimal_u64(ingest as u64).as_str(),
        " ingest workers (across ",
        text::decimal_usize(streams).as_str(),
        " streams), ",
        text::decimal_u64(query as u64).as_str(),
    );
    m.append(" query workers deployed");
    let counts = WorkerCounts {
        ingest_desired: ingest,
        ingest_ready,
        query_desired: query,
        query_ready,
    };
    Some(
        StatusChange {
            phase: Some(LifecyclePhase::Running),
            patch: running_patch(counts, m.as_str(), now),
        },
    )
}

/// A run goes on exactly when no worker is missing, and then says how many are ready.
pub proof fn runs_wait_for_their_workers(
    s: ScenarioView,
    workers: WorkerSpec,
    ingest_ready: u32,
    query_ready: u32,
    now: Seq<char>,
)
    requires
        s.total_replicas() <= u32::MAX,
        configmaps::query_workers(workers) <= u32::MAX,
    ensures
        initialized(s, workers, ingest_ready, query_ready, now) is Some <==> ingest_ready
            >= s.total_replicas() && query_ready >= configmaps::query_workers(workers),
        initialized(s, workers, ingest_ready, query_ready, now) matches Some(c) ==> c.phase == Some(
            LifecyclePhase::Running,
        ) && reported_ready(c.patch) == Some((ingest_ready as nat, query_ready as nat)),
{
    broadcast use json::with_then_get;

    model::sum_nonneg(rates::replicas_by_stream(s.stream_list()));
    if workers.query_groups is Some {
        model::sum_nonneg(configmaps::group_replicas(workers.query_groups->0@));
    }
    reveal_strlit("status");
    reveal_strlit("phase");
    reveal_strlit("workers");
    reveal_strlit("ingest_desired");
    reveal_strlit("ingest_ready");
    reveal_strlit("query_desired");
    reveal_strlit("query_ready");
    assert("phase"@.len() == 5 && "workers"@.len() == 7);
    assert("ingest_desired"@.len() == 14 && "ingest_ready"@.len() == 12);
    assert("query_desired"@.len() == 13 && "query_ready"@.len() == 11);
}

/// How many ingest workers and query workers a status says are ready.
pub open spec fn reported_ready(patch: Doc) -> Option<(nat, nat)> {
    match patch.get("status"@) {
        Some(s) => match s.get("workers"@) {
            Some(w) => match (w.get("ingest_ready"@), w.get("query_ready"@)) {
                (Some(Doc::Uint(i)), Some(Doc::Uint(q))) => Some((i, q)),
                _ => None,
            },
            None => None,
        },
        None => None,
    }
}

// ---------------------------------------------------------------------------
// Running
// ---------------------------------------------------------------------------

/// What a deployment says of itself: how many replicas it has, how many of them are
/// available and how many not, and its conditions by kind, each with its status.
pub struct DeploymentState {
    pub replicas: i32,
    pub available: i32,
    pub unavailable: i32,
    pub conditions: Vec<(String, String)>,
}

/// A condition says that the deployment does not progress.
pub open spec fn not_progressing(conditions: Seq<(Seq<char>, Seq<char>)>) -> bool {
    conditions.contains(("Progressing"@, "False"@))
}

/// A deployment is beyond hope: it has replicas, none is available, and it has stopped
/// progressing.
pub open spec fn has_stalled(d: DeploymentState) -> bool {
    d.replicas != 0 && d.available == 0 && d.unavailable > 0 && not_progressing(
        model::vmap(d.conditions@),
    )
}

fn says_stuck(conditions: &Vec<(String, String)>) -> (r: bool)
    ensures
        r == not_progressing(model::vmap(conditions@)),
{
    let ghost all = model::vmap(conditions@);
    let mut i: usize = 0;
    while i < conditions.len()
        invariant
            i <= conditions@.len(),
            all == model::vmap(conditions@),
            forall|k: int| 0 <= k < i ==> #[trigger] all[k] != ("Progressing"@, "False"@),
        decreases conditions@.len() - i,
    {
        assert(all[i as int] == conditions@[i as int]@);
        if text::same(conditions[i].0.as_str(), "Progressing") && text::same(
            conditions[i].1.as_str(),
            "False",
        ) {
            return true;
        }
        i += 1;
    }
    false
}

/// What is said of a deployment beyond hope.
pub open spec fn stalled_message(name: Seq<char>, unavailable: int) -> Seq<char> {
    "Deployment '"@ + name + "' has stalled: "@ + text::signed_decimal(unavailable)
        + " unavailable, 0 available"@
}

/// Whether a deployment is healthy. One of which nothing is known counts as healthy.
pub fn check_deployment_health(name: &str, state: &Option<DeploymentState>) -> (r: Result<
    (),
    String,
>)
    ensures
        match r {
            Ok(_) => *state is None || !has_stalled(state->0),
            Err(e) => *state is Some && has_stalled(state->0) && e@ == stalled_message(
                name@,
                state->0.unavailable as int,
            ),
        },
{
    match state {
        None => Ok(()),
        Some(d) => {
            if d.replicas != 0 && d.available == 0 && d.unavailable > 0 && says_stuck(
                &d.conditions,
            ) {
                let n = text::decimal_i64(d.unavailable as i64);
                Err(
                    text::join5(
                        "Deployment '",
                        name,
                        "' has stalled: ",
                        n.as_str(),
                        " unavailable, 0 available",
                    ),
                )
            } else {
                Ok(())
            }
        },
    }
}

/// How far the timeline is, as the phase controller says.
pub struct TimelineStatus {
    pub current_phase: String,
    pub total_elapsed_seconds: i64,
    pub total_duration_seconds: i64,
    pub timeline_complete: bool,
}

/// What the workers are doing, as the aggregator says.
#[derive(Clone, Copy, PartialEq, Eq, Structural, Debug)]
pub struct LiveFigures {
    pub ingest_events_produced: i64,
    pub query_executed: i64,
    pub ingest_target_eps: i64,
    pub query_target_uqps: u64,
    pub kafka_consumer_lag: i64,
}

impl LiveFigures {
    /// No figures.
    pub open spec fn blank() -> LiveFigures {
        LiveFigures {
            ingest_events_produced: 0,
            query_executed: 0,
            ingest_target_eps: 0,
            query_target_uqps: 0,
            kafka_consumer_lag: 0,
        }
    }
}

/// A rate of queries, for a document.
pub open spec fn qps_doc(uqps: u64) -> Doc {
    Doc::Quotient { num: uqps as nat, den: 1_000_000 }
}

/// How a run is doing.
pub open spec fn progress_doc(t: TimelineStatus, f: LiveFigures) -> Doc {
    Doc::object()
        .with(
            "status"@,
            Doc::object()
                .with("current_benchmark_phase"@, Doc::Text(t.current_phase@))
                .with(
                    "progress"@,
                    Doc::object()
                        .with("elapsed_seconds"@, Doc::Int(t.total_elapsed_seconds as int))
                        .with("total_seconds"@, Doc::Int(t.total_duration_seconds as int))
                        .with("achieved_ingest_eps"@, Doc::Int(f.ingest_events_produced as int))
                        .with("achieved_query_qps"@, Doc::Int(f.query_executed as int))
                        .with("kafka_consumer_lag"@, Doc::Int(f.kafka_consumer_lag as int))
                        .with("target_ingest_eps"@, Doc::Int(f.ingest_target_eps as int))
                        .with("target_query_qps"@, qps_doc(f.query_target_uqps)),
                ),
        )
}

/// How a run is doing.
fn progress_patch(t: &TimelineStatus, f: LiveFigures) -> (r: Json)
    ensures
        r.doc() == progress_doc(*t, f),
{
    Json::object()
        .with(
            "status",
            Json::object()
                .with("current_benchmark_phase", Json::text(t.current_phase.as_str()))
                .with(
                    "progress",
                    Json::object()
                        .with("elapsed_seconds", Json::Int(t.total_elapsed_seconds))
                        .with("total_seconds", Json::Int(t.total_duration_seconds))
                        .with("achieved_ingest_eps", Json::Int(f.ingest_events_produced))
                        .with("achieved_query_qps", Json::Int(f.query_executed))
                        .with("kafka_consumer_lag", Json::Int(f.kafka_consumer_lag))
                        .with("target_ingest_eps", Json::Int(f.ingest_target_eps))
                        .with(
                            "target_query_qps",
                            Json::Quotient { num: f.query_target_uqps as u128, den: 1_000_000 },
                        ),
                ),
        )
}

/// The status of a run whose timeline is over.
pub open spec fn aggregating_doc() -> Doc {
    Doc::object()
        .with(
            "status"@,
            Doc::object()
                .with("phase"@, Doc::Text("Aggregating"@)),
        )
}

/// The status of a run whose timeline is over.
fn aggregating_patch() -> (r: Json)
    ensures
        r.doc() == aggregating_doc(),
{
    Json::object()
        .with(
            "status",
            Json::object()
                .with("phase", Json::text("Aggregating")),
        )
}

/// The note from when on the results are gathered.
pub open spec fn aggregating_since_doc(now: Seq<char>) -> Doc {
    Doc::object()
        .with(
            "metadata"@,
            Doc::object()
                .with(
                    "annotations"@,
                    Doc::object()
                        .with("incidentbench.io/aggregating-since"@, Doc::Text(now)),
                ),
        )
}

/// The note from when on the results are gathered.
pub fn aggregating_since_patch(now: &str) -> (r: Json)
    ensures
        r.doc() == aggregating_since_doc(now@),
{
    Json::object()
        .with(
            "metadata",
            Json::object()
                .with(
                    "annotations",
                    Json::object()
                        .with("incidentbench.io/aggregating-since", Json::text(now)),
                ),
        )
}

/// What becomes of a running run: it fails with its workers, goes on when its timeline is
/// over, and else says how it is doing. Where the phase controller cannot be asked, nothing
/// changes.
pub open spec fn running(
    health: Result<(), Seq<char>>,
    timeline: Option<TimelineStatus>,
    figures: Option<LiveFigures>,
    now: Seq<char>,
) -> Option<ChangeView> {
    match health {
        Err(e) => Some(failure(e, now)),
        Ok(_) => match timeline {
            None => None,
            Some(t) => if t.timeline_complete {
                Some(
                    ChangeView {
                        phase: Some(LifecyclePhase::Aggregating),
                        patch: aggregating_doc(),
                    },
                )
            } else {
                Some(
                    ChangeView {
                        phase: None,
                        patch: progress_doc(
                            t,
                            match figures {
                                Some(f) => f,
                                None => LiveFigures::blank(),
                            },
                        ),
                    },
                )
            },
        },
    }
}

/// Decides what becomes of a running run.
pub fn handle_running(
    health: &Result<(), String>,
    timeline: &Option<TimelineStatus>,
    figures: Option<LiveFigures>,
    now: &str,
) -> (r: Option<StatusChange>)
    ensures
        ({
            let want = running(
                match *health {
                    Ok(_) => Ok(()),
                    Err(e) => Err(e@),
                },
                *timeline,
                figures,
                now@,
            );
            match r {
                Some(c) => want == Some(c@) && (c.phase is Some ==> follows(
                    LifecyclePhase::Running,
                    c.phase->0,
                )),
                None => want is None,
            }
        }),
{
    match health {
        Err(e) => Some(update_phase_failed(e.as_str(), now)),
        Ok(_) => match timeline {
            None => None,
            Some(t) => if t.timeline_complete {
                Some(
                    StatusChange {
                        phase: Some(LifecyclePhase::Aggregating),
                        patch: aggregating_patch(),
                    },
                )
            } else {
                let f = match figures {
                    Some(f) => f,
                    None => LiveFigures {
                        ingest_events_produced: 0,
                        query_executed: 0,
                        ingest_target_eps: 0,
                        query_target_uqps: 0,
                        kafka_consumer_lag: 0,
                    },
                };
                Some(StatusChange { phase: None, patch: progress_patch(t, f) })
            },
        },
    }
}

// ---------------------------------------------------------------------------
// Aggregating
// ---------------------------------------------------------------------------

/// The results are to be fetched: the aggregator is done, or has had its time.
pub open spec fn time_to_fetch(state: Seq<char>, aggregating_seconds: int) -> bool {
    state == "complete"@ || aggregating_seconds > AGGREGATION_GRACE_SECONDS
}

/// Whether the results are to be fetched.
pub fn should_fetch_results(state: &str, aggregating_seconds: i64) -> (r: bool)
    ensures
        r == time_to_fetch(state@, aggregating_seconds as int),
{
    text::same(state, "complete") || aggregating_seconds > AGGREGATION_GRACE_SECONDS
}

/// Whether the results are to be fetched now, by the time since which the run aggregates.
pub fn results_are_due(state: &str, since: &Option<String>, now: Instant) -> (r: bool)
    ensures
        r == time_to_fetch(state@, clock::elapsed(clock::text_of(*since), now)),
{
    should_fetch_results(state, clock::seconds_since(since, now))
}

/// No run aggregates for ever: once the time is over, the results are fetched, whatever the
/// aggregator says.
pub proof fn aggregating_ends(state: Seq<char>, since: Seq<char>, then: Instant, now: Instant)
    requires
        clock::instant_of(since) == Some(then),
        now.total() - then.total() >= (AGGREGATION_GRACE_SECONDS + 1) * 1_000_000_000,
    ensures
        time_to_fetch(state, clock::elapsed(Some(since), now)),
{
}

/// A quotient, for a document.
pub open spec fn ratio_doc(r: Ratio) -> Doc {
    Doc::Quotient { num: r.num as nat, den: r.den as nat }
}

/// A quotient of nanoseconds in milliseconds, for a document.
pub open spec fn ms_doc(r: Ratio) -> Doc {
    Doc::Quotient { num: r.num as nat, den: r.den as nat * 1_000_000 }
}

/// A quotient, for a document.
pub fn ratio_json(r: Ratio) -> (j: Json)
    ensures
        j.doc() == ratio_doc(r),
{
    Json::Quotient { num: r.num, den: r.den }
}

/// A quotient of nanoseconds in milliseconds, for a document.
pub fn ms_json(r: Ratio) -> (j: Json)
    requires
        r.den <= u64::MAX,
    ensures
        j.doc() == ms_doc(r),
{
    Json::Quotient { num: r.num, den: r.den * 1_000_000 }
}

impl Scorecard {
    /// The means were taken over no more points than a number of 64 bits counts.
    pub open spec fn wf(self) -> bool {
        self.baseline_p99_ns.den <= u64::MAX && self.overlap_p99_ns.den <= u64::MAX
    }
}

/// A scorecard.
pub open spec fn scorecard_doc(s: Scorecard) -> Doc {
    Doc::object()
        .with("baseline_p99_ms"@, ms_doc(s.baseline_p99_ns))
        .with("overlap_p99_ms"@, ms_doc(s.overlap_p99_ns))
        .with("p99_degradation_ratio"@, ratio_doc(s.p99_degradation_ratio))
        .with("query_error_rate_overlap"@, ratio_doc(s.query_error_rate_overlap))
        .with("peak_backlog"@, Doc::Uint(s.peak_backlog as nat))
        .with("backlog_drain_time_s"@, Doc::Uint(s.backlog_drain_time_s as nat))
        .with("recovery_time_s"@, Doc::Uint(s.recovery_time_s as nat))
}

/// A scorecard.
pub fn scorecard_json(s: &Scorecard) -> (r: Json)
    requires
        s.wf(),
    ensures
        r.doc() == scorecard_doc(*s),
{
    Json::object()
        .with("baseline_p99_ms", ms_json(s.baseline_p99_ns))
        .with("overlap_p99_ms", ms_json(s.overlap_p99_ns))
        .with("p99_degradation_ratio", ratio_json(s.p99_degradation_ratio))
        .with("query_error_rate_overlap", ratio_json(s.query_error_rate_overlap))
        .with("peak_backlog", Json::Uint(s.peak_backlog))
        .with("backlog_drain_time_s", Json::Uint(s.backlog_drain_time_s))
        .with("recovery_time_s", Json::Uint(s.recovery_time_s))
}

impl Scorecard {
    /// The scorecard of a run without measurements.
    pub open spec fn blank() -> Scorecard {
        Scorecard {
            baseline_p99_ns: Ratio { num: 0, den: 1 },
            overlap_p99_ns: Ratio { num: 0, den: 1 },
            p99_degradation_ratio: Ratio { num: 0, den: 1 },
            query_error_rate_overlap: Ratio { num: 0, den: 1 },
            peak_backlog: 0,
            backlog_drain_time_s: 0,
            recovery_time_s: 0,
        }
    }

    fn blank_of() -> (r: Scorecard)
        ensures
            r == Scorecard::blank(),
    {
        Scorecard {
            baseline_p99_ns: Ratio::zero(),
            overlap_p99_ns: Ratio::zero(),
            p99_degradation_ratio: Ratio::zero(),
            query_error_rate_overlap: Ratio::zero(),
            peak_backlog: 0,
            backlog_drain_time_s: 0,
            recovery_time_s: 0,
        }
    }
}

/// The status of a run with its results.
pub open spec fn results_doc(valid: bool, violations: Seq<Seq<char>>, warnings: Seq<Seq<char>>, saturated: bool, scorecard: Scorecard) -> Doc {
    Doc::object()
        .with(
            "status"@,
            Doc::object()
                .with("phase"@, Doc::Text("Reporting"@))
                .with(
                    "results"@,
                    Doc::object()
                        .with("valid"@, Doc::Bool(valid))
                        .with("validity_violations"@, docs::list_doc::<String>(violations))
                        .with("warnings"@, docs::list_doc::<String>(warnings))
                        .with("harness_saturated"@, Doc::Bool(saturated))
                        .with("scorecard"@, scorecard_doc(scorecard)),
                ),
        )
}

/// The status of a run with its results.
fn results_patch(valid: bool, violations: &Vec<String>, warnings: &Vec<String>, saturated: bool, scorecard: &Scorecard) -> (r: Json)
    requires
        scorecard.wf(),
    ensures
        r.doc() == results_doc(valid, model::vmap(violations@), model::vmap(warnings@), saturated, *scorecard),
{
    Json::object()
        .with(
            "status",
            Json::object()
                .with("phase", Json::text("Reporting"))
                .with(
                    "results",
                    Json::object()
                        .with("valid", Json::Bool(valid))
                        .with("validity_violations", docs::list_json(violations))
                        .with("warnings", docs::list_json(warnings))
                        .with("harness_saturated", Json::Bool(saturated))
                        .with("scorecard", scorecard_json(scorecard)),
                ),
        )
}

/// The scorecard of results, a blank one where they have none.
pub open spec fn scorecard_of(r: RunResults) -> Scorecard {
    match r.scorecard {
        Some(s) => s,
        None => Scorecard::blank(),
    }
}

/// What becomes of a run whose results were asked for: they are kept, or it is noted that
/// there are none.
pub open spec fn aggregated(results: Option<RunResults>) -> ChangeView {
    ChangeView {
        phase: Some(LifecyclePhase::Reporting),
        patch: match results {
            Some(r) => results_doc(
                r.valid,
                model::vmap(r.validity_violations@),
                model::vmap(r.warnings@),
                r.harness_saturated,
                scorecard_of(r),
            ),
            None => results_doc(
                false,
                seq!["No metrics data collected from workers"@],
                seq!["Aggregation timed out or workers failed to report metrics"@],
                false,
                Scorecard::blank(),
            ),
        },
    }
}

/// Keeps the results of a run.
pub fn handle_aggregating(results: &Option<RunResults>) -> (r: StatusChange)
    requires
        results is Some ==> scorecard_of(results->0).wf(),
    ensures
        r@ == aggregated(*results),
        follows(LifecyclePhase::Aggregating, r.phase->0),
{
    let patch = match results {
        Some(r) => {
            let card = match &r.scorecard {
                Some(s) => *s,
                None => Scorecard::blank_of(),
            };
            results_patch(
                r.valid,
                &r.validity_violations,
                &r.warnings,
                r.harness_saturated,
                &card,
            )
        },
        None => {
            let violations = vec![text::owned("No metrics data collected from workers")];
            let warnings = vec![
                text::owned("Aggregation timed out or workers failed to report metrics"),
            ];
            assert(model::vmap(violations@) =~= seq!["No metrics data collected from workers"@]);
            assert(model::vmap(warnings@) =~= seq![
                "Aggregation timed out or workers failed to report metrics"@,
            ]);
            results_patch(false, &violations, &warnings, false, &Scorecard::blank_of())
        },
    };
    StatusChange { phase: Some(LifecyclePhase::Reporting), patch }
}

// ---------------------------------------------------------------------------
// Reporting
// ---------------------------------------------------------------------------

/// The status of a run that is over.
pub open spec fn completed_doc(message: Seq<char>, now: Seq<char>) -> Doc {
    Doc::object()
        .with(
            "status"@,
            Doc::object()
                .with("phase"@, Doc::Text("Completed"@))
                .with("completion_time"@, Doc::Text(now))
                .with(
                    "conditions"@,
                    Doc::array()
                        .item(condition_doc("RunComplete"@, message, now)),
                ),
        )
}

/// The status of a run that is over.
fn completed_patch(message: &str, now: &str) -> (r: Json)
    ensures
        r.doc() == completed_doc(message@, now@),
{
    Json::object()
        .with(
            "status",
            Json::object()
                .with("phase", Json::text("Completed"))
                .with("completion_time", Json::text(now))
                .with(
                    "conditions",
                    Json::array()
                        .item(condition("RunComplete", message, now)),
                ),
        )
}

/// What becomes of a run while its report is written: it is over when the reporter has
/// succeeded, or has failed too often.
pub open spec fn reporting(succeeded: int, failed: int, now: Seq<char>) -> Option<ChangeView> {
    if succeeded > 0 {
        Some(
            ChangeView {
                phase: Some(LifecyclePhase::Completed),
                patch: completed_doc(
                    "Reporter job finished \u{2014} report.html, run.json, timeseries.csv written to results PVC"@,
                    now,
                ),
            },
        )
    } else if failed >= REPORTER_FAILURES {
        Some(
            ChangeView {
                phase: Some(LifecyclePhase::Completed),
                patch: completed_doc(
                    "Reporter job failed \u{2014} raw metrics in PVC, re-run with: incidentbench report regenerate"@,
                    now,
                ),
            },
        )
    } else {
        None
    }
}

/// Decides whether a run is over, by how often its reporter succeeded and failed.
pub fn handle_reporting(succeeded: i32, failed: i32, now: &str) -> (r: Option<StatusChange>)
    ensures
        match r {
            Some(c) => reporting(succeeded as int, failed as int, now@) == Some(c@) && follows(
                LifecyclePhase::Reporting,
                c.phase->0,
            ),
            None => reporting(succeeded as int, failed as int, now@) is None,
        },
{
    if succeeded > 0 {
        Some(
            StatusChange {
                phase: Some(LifecyclePhase::Completed),
                patch: completed_patch(
                    "Reporter job finished \u{2014} report.html, run.json, timeseries.csv written to results PVC",
                    now,
                ),
            },
        )
    } else if failed >= REPORTER_FAILURES {
        Some(
            StatusChange {
                phase: Some(LifecyclePhase::Completed),
                patch: completed_patch(
                    "Reporter job failed \u{2014} raw metrics in PVC, re-run with: incidentbench report regenerate",
                    now,
                ),
            },
        )
    } else {
        None
    }
}

/// The status of a run whose resources were taken down.
pub open spec fn cleaned_doc(now: Seq<char>) -> Doc {
    Doc::object()
        .with(
            "status"@,
            Doc::object()
                .with(
                    "conditions"@,
                    Doc::array()
                        .item(condition_doc("Cleaned"@, "All resources cleaned up"@, now)),
                ),
        )
}

/// The status of a run whose resources were taken down.
pub fn cleaned_patch(now: &str) -> (r: Json)
    ensures
        r.doc() == cleaned_doc(now@),
{
    Json::object()
        .with(
            "status",
            Json::object()
                .with(
                    "conditions",
                    Json::array()
                        .item(condition("Cleaned", "All resources cleaned up", now)),
                ),
        )
}

} // verus!
