//! The benchmark run as a Kubernetes resource: what is asked for, and what has become of
//! it.
use vstd::prelude::*;
use crate::adapter::WarehouseView;
use crate::json::Json;
use crate::metrics::Scorecard;
use crate::model;
use crate::scenario::{Scenario, ONE_PPM};
use crate::text;

verus! {

/// A benchmark run as it is asked for.
pub struct IncidentBenchRunSpec {
    pub scenario: Option<Scenario>,
    pub scenario_ref: Option<ScenarioRef>,
    pub target: TargetSpec,
    pub kafka: KafkaSpec,
    pub scaling: ScalingSpec,
    pub workers: WorkerSpec,
    pub results: ResultsSpec,
    pub images: Option<ImageSpec>,
    /// Where the SQL files of the queries are.
    pub sql_dir: Option<String>,
    pub dry_run: bool,
}

/// A scenario that is kept elsewhere.
pub struct ScenarioRef {
    pub config_map: ConfigMapRef,
}

/// An entry of a ConfigMap.
pub struct ConfigMapRef {
    pub name: String,
    pub key: String,
}

/// The platform under test.
pub struct TargetSpec {
    pub adapter: String,
    pub config: Json,
}

/// The Kafka cluster that events go through.
pub struct KafkaSpec {
    pub bootstrap_servers: Option<String>,
    pub managed: bool,
    pub managed_config: Option<ManagedKafkaConfig>,
}

/// A Kafka cluster of the benchmark's own.
pub struct ManagedKafkaConfig {
    pub replicas: u32,
    pub storage: String,
}

/// Factors for all durations and all rates, in parts per million.
#[derive(Clone, Copy, PartialEq, Eq, Structural, Debug)]
pub struct ScalingSpec {
    pub duration_scale_ppm: u64,
    pub rate_scale_ppm: u64,
}

/// The workers of a run.
pub struct WorkerSpec {
    pub ingest: WorkerReplicaSpec,
    /// Not used where there are query groups.
    pub query: WorkerReplicaSpec,
    pub query_groups: Option<Vec<QueryGroupSpec>>,
}

/// Which warehouse serves a group of the scenario, and how many workers it has.
pub struct QueryGroupSpec {
    pub name: String,
    pub warehouse: WarehouseSpec,
    pub replicas: u32,
    pub resources: Option<ResourceSpec>,
}

/// A warehouse. Groups that name the same one share it.
pub struct WarehouseSpec {
    pub name: String,
    pub num_mediators: u32,
    pub num_os: u32,
}

/// How many workers there are, and what each needs.
pub struct WorkerReplicaSpec {
    pub replicas: u32,
    pub resources: Option<ResourceSpec>,
}

/// Amounts of resources by name.
pub struct ResourceSpec {
    pub requests: Option<Vec<(String, String)>>,
    pub limits: Option<Vec<(String, String)>>,
}

/// Where the results go.
pub struct ResultsSpec {
    pub storage: ResultsStorageSpec,
}

/// The kind of place that the results go to.
pub struct ResultsStorageSpec {
    pub storage_type: String,
    pub pvc: Option<PvcSpec>,
    pub s3: Option<S3Spec>,
}

/// A persistent volume claim.
pub struct PvcSpec {
    pub claim_name: String,
    pub sub_path: String,
}

/// A bucket.
pub struct S3Spec {
    pub bucket: String,
    pub prefix: String,
    pub endpoint: Option<String>,
    pub region: Option<String>,
}

/// Images to use in place of the released ones.
pub struct ImageSpec {
    pub operator: Option<String>,
    pub worker: Option<String>,
    pub reporter: Option<String>,
}

/// What has become of a run.
pub struct IncidentBenchRunStatus {
    pub phase: LifecyclePhase,
    pub conditions: Vec<Condition>,
    pub current_benchmark_phase: Option<String>,
    pub current_benchmark_phase_index: Option<u32>,
    pub workers: Option<WorkerStatus>,
    pub run_id: Option<String>,
    pub start_time: Option<String>,
    pub completion_time: Option<String>,
    pub progress: Option<ProgressStatus>,
    pub results: Option<RunResults>,
}

/// How far a run has come.
#[derive(Clone, Copy, PartialEq, Eq, Structural, Debug)]
pub enum LifecyclePhase {
    Pending,
    Preparing,
    Initializing,
    Running,
    Aggregating,
    Reporting,
    Completed,
    Failed,
}

/// Something that holds of a run, and since when.
pub struct Condition {
    pub condition_type: String,
    pub status: String,
    pub message: Option<String>,
    pub last_transition_time: Option<String>,
}

/// How many workers there should be and are.
#[derive(Clone, Copy, PartialEq, Eq, Structural, Debug)]
pub struct WorkerStatus {
    pub ingest_desired: u32,
    pub ingest_ready: u32,
    pub query_desired: u32,
    pub query_ready: u32,
}

/// How a run is doing.
#[derive(Clone, Copy, PartialEq, Eq, Structural, Debug)]
pub struct ProgressStatus {
    pub elapsed_seconds: u64,
    pub total_seconds: u64,
    pub achieved_ingest_eps: u64,
    pub target_ingest_eps: u64,
    pub achieved_query_uqps: u64,
    pub target_query_uqps: u64,
    pub kafka_consumer_lag: u64,
}

/// The results of a run.
pub struct RunResults {
    pub valid: bool,
    pub validity_violations: Vec<String>,
    pub warnings: Vec<String>,
    pub harness_saturated: bool,
    pub scorecard: Option<Scorecard>,
}

pub struct GroupSpecView {
    pub name: Seq<char>,
    pub warehouse: WarehouseView,
    pub replicas: u32,
    pub requests: Option<Option<Seq<(Seq<char>, Seq<char>)>>>,
    pub limits: Option<Option<Seq<(Seq<char>, Seq<char>)>>>,
}

impl View for WarehouseSpec {
    type V = WarehouseView;

    open spec fn view(&self) -> WarehouseView {
        WarehouseView {
            name: self.name@,
            num_mediators: self.num_mediators,
            num_os: self.num_os,
        }
    }
}

impl View for QueryGroupSpec {
    type V = GroupSpecView;

    open spec fn view(&self) -> GroupSpecView {
        GroupSpecView {
            name: self.name@,
            warehouse: self.warehouse@,
            replicas: self.replicas,
            requests: match self.resources {
                Some(r) => Some(model::opt_vmap(r.requests)),
                None => None,
            },
            limits: match self.resources {
                Some(r) => Some(model::opt_vmap(r.limits)),
                None => None,
            },
        }
    }
}

// ---------------------------------------------------------------------------
// Defaults
// ---------------------------------------------------------------------------

/// The entry of a ConfigMap that holds a scenario where none is named.
pub fn default_scenario_key() -> (r: String)
    ensures
        r@ == "scenario.yaml"@,
{
    text::owned("scenario.yaml")
}

pub fn default_kafka_replicas() -> (r: u32)
    ensures
        r == 3,
{
    3
}

pub fn default_kafka_storage() -> (r: String)
    ensures
        r@ == "10Gi"@,
{
    text::owned("10Gi")
}

pub fn default_query_group_replicas() -> (r: u32)
    ensures
        r == 4,
{
    4
}

pub fn default_num_mediators() -> (r: u32)
    ensures
        r == 1,
{
    1
}

pub fn default_num_os() -> (r: u32)
    ensures
        r == 2,
{
    2
}

pub fn default_ingest_replicas() -> (r: u32)
    ensures
        r == 10,
{
    10
}

pub fn default_storage_type() -> (r: String)
    ensures
        r@ == "pvc"@,
{
    text::owned("pvc")
}

pub fn default_sub_path() -> (r: String)
    ensures
        r@ == "runs/"@,
{
    text::owned("runs/")
}

/// The factor that changes nothing.
pub fn default_scale() -> (r: u64)
    ensures
        r == ONE_PPM,
{
    ONE_PPM
}

impl Default for ScalingSpec {
    fn default() -> (r: Self)
        ensures
            r == (ScalingSpec { duration_scale_ppm: ONE_PPM, rate_scale_ppm: ONE_PPM }),
    {
        ScalingSpec { duration_scale_ppm: ONE_PPM, rate_scale_ppm: ONE_PPM }
    }
}

impl WorkerReplicaSpec {
    /// The ingest workers where nothing is said.
    pub fn default_ingest() -> (r: Self)
        ensures
            r.replicas == 10,
            r.resources is None,
    {
        WorkerReplicaSpec { replicas: 10, resources: None }
    }

    /// The query workers where nothing is said.
    pub fn default_query() -> (r: Self)
        ensures
            r.replicas == 4,
            r.resources is None,
    {
        WorkerReplicaSpec { replicas: 4, resources: None }
    }
}

impl Default for WorkerReplicaSpec {
    fn default() -> (r: Self)
        ensures
            r.replicas == 10,
            r.resources is None,
    {
        WorkerReplicaSpec { replicas: default_ingest_replicas(), resources: None }
    }
}

impl Default for WorkerSpec {
    fn default() -> (r: Self)
        ensures
            r.ingest.replicas == 10,
            r.ingest.resources is None,
            r.query.replicas == 4,
            r.query.resources is None,
            r.query_groups is None,
    {
        WorkerSpec {
            ingest: WorkerReplicaSpec::default_ingest(),
            query: WorkerReplicaSpec::default_query(),
            query_groups: None,
        }
    }
}

impl Default for ResultsStorageSpec {
    fn default() -> (r: Self)
        ensures
            r.storage_type@ == "pvc"@,
            r.pvc is None,
            r.s3 is None,
    {
        ResultsStorageSpec { storage_type: default_storage_type(), pvc: None, s3: None }
    }
}

impl Default for ResultsSpec {
    fn default() -> (r: Self)
        ensures
            r.storage.storage_type@ == "pvc"@,
            r.storage.pvc is None,
            r.storage.s3 is None,
    {
        ResultsSpec { storage: ResultsStorageSpec::default() }
    }
}

impl Default for LifecyclePhase {
    fn default() -> (r: Self)
        ensures
            r == LifecyclePhase::Pending,
    {
        LifecyclePhase::Pending
    }
}

impl LifecyclePhase {
    /// The phase's name.
    pub open spec fn label(self) -> Seq<char> {
        match self {
            LifecyclePhase::Pending => "Pending"@,
            LifecyclePhase::Preparing => "Preparing"@,
            LifecyclePhase::Initializing => "Initializing"@,
            LifecyclePhase::Running => "Running"@,
            LifecyclePhase::Aggregating => "Aggregating"@,
            LifecyclePhase::Reporting => "Reporting"@,
            LifecyclePhase::Completed => "Completed"@,
            LifecyclePhase::Failed => "Failed"@,
        }
    }

    /// The phase's name.
    pub fn name(self) -> (r: &'static str)
        ensures
            r@ == self.label(),
    {
        match self {
            LifecyclePhase::Pending => "Pending",
            LifecyclePhase::Preparing => "Preparing",
            LifecyclePhase::Initializing => "Initializing",
            LifecyclePhase::Running => "Running",
            LifecyclePhase::Aggregating => "Aggregating",
            LifecyclePhase::Reporting => "Reporting",
            LifecyclePhase::Completed => "Completed",
            LifecyclePhase::Failed => "Failed",
        }
    }
}

} // verus!
