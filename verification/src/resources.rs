//! The Kubernetes resources of a run: what they are named and what they say.
use vstd::prelude::*;
use vstd::string::*;
use crate::crd::{ImageSpec, QueryGroupSpec, ResourceSpec};
use crate::docs;
use crate::json::{Doc, Json};
use crate::model;
use crate::scenario::{DataStream, StreamView};
use crate::text;

verus! {

/// A run's own resource: what its child resources refer to.
pub struct RunIdentity {
    pub name: String,
    pub namespace: Option<String>,
    pub uid: String,
}

pub struct IdentityView {
    pub name: Seq<char>,
    pub namespace: Option<Seq<char>>,
    pub uid: Seq<char>,
}

impl View for RunIdentity {
    type V = IdentityView;

    open spec fn view(&self) -> IdentityView {
        IdentityView {
            name: self.name@,
            namespace: text::opt_view(self.namespace),
            uid: self.uid@,
        }
    }
}

impl IdentityView {
    /// The namespace, and `default` where none is given.
    pub open spec fn namespace_or_default(self) -> Seq<char> {
        match self.namespace {
            Some(n) => n,
            None => "default"@,
        }
    }
}

impl RunIdentity {
    /// The namespace, and `default` where none is given.
    pub fn namespace_or_default(&self) -> (r: &str)
        ensures
            r@ == self@.namespace_or_default(),
    {
        match &self.namespace {
            Some(n) => n.as_str(),
            None => "default",
        }
    }
}

/// The name of one of a run's resources.
pub open spec fn part_name(run_name: Seq<char>, part: Seq<char>) -> Seq<char> {
    run_name + "-"@ + part
}

/// The name of a resource of one of a run's streams or groups.
pub open spec fn sub_part_name(run_name: Seq<char>, part: Seq<char>, sub: Seq<char>) -> Seq<char> {
    run_name + "-"@ + part + "-"@ + sub
}

/// The name of one of a run's resources.
pub fn part_name_of(run_name: &str, part: &str) -> (r: String)
    ensures
        r@ == part_name(run_name@, part@),
{
    text::join3(run_name, "-", part)
}

/// The name of a resource of one of a run's streams or groups.
pub fn sub_part_name_of(run_name: &str, part: &str, sub: &str) -> (r: String)
    ensures
        r@ == sub_part_name(run_name@, part@, sub@),
{
    text::join5(run_name, "-", part, "-", sub)
}

/// The image that workers run.
pub open spec fn worker_image(images: Option<ImageSpec>) -> Seq<char> {
    match images {
        Some(i) => match i.worker {
            Some(w) => w@,
            None => "ghcr.io/mach5-io/incidentbench-worker:v0.1.0"@,
        },
        None => "ghcr.io/mach5-io/incidentbench-worker:v0.1.0"@,
    }
}

/// The image that the reporter runs.
pub open spec fn reporter_image(images: Option<ImageSpec>) -> Seq<char> {
    match images {
        Some(i) => match i.reporter {
            Some(w) => w@,
            None => "ghcr.io/mach5-io/incidentbench-reporter:v0.1.0"@,
        },
        None => "ghcr.io/mach5-io/incidentbench-reporter:v0.1.0"@,
    }
}

fn worker_image_of(images: &Option<ImageSpec>) -> (r: &str)
    ensures
        r@ == worker_image(*images),
{
    match images {
        Some(i) => match &i.worker {
            Some(w) => w.as_str(),
            None => "ghcr.io/mach5-io/incidentbench-worker:v0.1.0",
        },
        None => "ghcr.io/mach5-io/incidentbench-worker:v0.1.0",
    }
}

fn reporter_image_of(images: &Option<ImageSpec>) -> (r: &str)
    ensures
        r@ == reporter_image(*images),
{
    match images {
        Some(i) => match &i.reporter {
            Some(w) => w.as_str(),
            None => "ghcr.io/mach5-io/incidentbench-reporter:v0.1.0",
        },
        None => "ghcr.io/mach5-io/incidentbench-reporter:v0.1.0",
    }
}

/// Amounts of resources by name.
pub open spec fn amounts_doc(v: Option<Seq<(Seq<char>, Seq<char>)>>) -> Doc {
    match v {
        Some(m) => docs::table_doc::<String>(m),
        None => Doc::Null,
    }
}

fn amounts_json(v: &Option<Vec<(String, String)>>) -> (r: Json)
    ensures
        r.doc() == amounts_doc(model::opt_vmap(*v)),
{
    match v {
        Some(m) => docs::table_json(m),
        None => Json::Null,
    }
}

/// What a worker needs and may use where nothing is said.
pub open spec fn default_resources_doc() -> Doc {
    Doc::object()
        .with(
            "requests"@,
            Doc::object()
                .with("cpu"@, Doc::Text("100m"@))
                .with("memory"@, Doc::Text("128Mi"@)),
        )
        .with(
            "limits"@,
            Doc::object()
                .with("cpu"@, Doc::Text("2"@))
                .with("memory"@, Doc::Text("2Gi"@)),
        )
}

/// What a worker needs and may use where nothing is said.
pub fn default_worker_resources() -> (r: Json)
    ensures
        r.doc() == default_resources_doc(),
{
    Json::object()
        .with(
            "requests",
            Json::object()
                .with("cpu", Json::text("100m"))
                .with("memory", Json::text("128Mi")),
        )
        .with(
            "limits",
            Json::object()
                .with("cpu", Json::text("2"))
                .with("memory", Json::text("2Gi")),
        )
}

/// What a worker needs and may use.
pub open spec fn resources_doc(resources: Option<ResourceSpec>) -> Doc {
    match resources {
        Some(r) => Doc::object().with("requests"@, amounts_doc(model::opt_vmap(r.requests))).with(
            "limits"@,
            amounts_doc(model::opt_vmap(r.limits)),
        ),
        None => default_resources_doc(),
    }
}

/// What a worker needs and may use.
pub fn resolve_resources(resources: &Option<ResourceSpec>) -> (r: Json)
    ensures
        r.doc() == resources_doc(*resources),
{
    match resources {
        Some(r) => Json::object().with("requests", amounts_json(&r.requests)).with(
            "limits",
            amounts_json(&r.limits),
        ),
        None => default_worker_resources(),
    }
}

/// The reference by which a child resource goes with its run.
pub open spec fn owner_doc(run: IdentityView) -> Doc {
    Doc::object()
        .with("apiVersion"@, Doc::Text("incidentbench.io/v1alpha1"@))
        .with("kind"@, Doc::Text("IncidentBenchRun"@))
        .with("name"@, Doc::Text(run.name))
        .with("uid"@, Doc::Text(run.uid))
        .with("controller"@, Doc::Bool(true))
        .with("blockOwnerDeletion"@, Doc::Bool(true))
}

/// The reference by which a child resource goes with its run.
pub fn owner_reference(run: &RunIdentity) -> (r: Json)
    ensures
        r.doc() == owner_doc(run@),
{
    Json::object()
        .with("apiVersion", Json::text("incidentbench.io/v1alpha1"))
        .with("kind", Json::text("IncidentBenchRun"))
        .with("name", Json::text(run.name.as_str()))
        .with("uid", Json::text(run.uid.as_str()))
        .with("controller", Json::Bool(true))
        .with("blockOwnerDeletion", Json::Bool(true))
}

/// The labels of a run's resources.
pub open spec fn labels_doc(run_name: Seq<char>, component: Seq<char>) -> Doc {
    Doc::object()
        .with("app.kubernetes.io/name"@, Doc::Text("incidentbench"@))
        .with("app.kubernetes.io/instance"@, Doc::Text(run_name))
        .with("app.kubernetes.io/component"@, Doc::Text(component))
        .with("app.kubernetes.io/managed-by"@, Doc::Text("incidentbench-operator"@))
}

/// The labels of a run's resources.
pub fn standard_labels(run_name: &str, component: &str) -> (r: Json)
    ensures
        r.doc() == labels_doc(run_name@, component@),
{
    Json::object()
        .with("app.kubernetes.io/name", Json::text("incidentbench"))
        .with("app.kubernetes.io/instance", Json::text(run_name))
        .with("app.kubernetes.io/component", Json::text(component))
        .with("app.kubernetes.io/managed-by", Json::text("incidentbench-operator"))
}

/// What a run's ConfigMap says of itself.
pub open spec fn configmap_metadata_doc(name: Seq<char>, run_name: Seq<char>, component: Seq<char>, run: IdentityView) -> Doc {
    Doc::object()
        .with("name"@, Doc::Text(name))
        .with("namespace"@, docs::opt_text_doc(run.namespace))
        .with(
            "ownerReferences"@,
            Doc::array()
                .item(owner_doc(run)),
        )
        .with("labels"@, labels_doc(run_name, component))
}

/// What a run's ConfigMap says of itself.
pub fn configmap_metadata(name: &str, run_name: &str, component: &str, run: &RunIdentity) -> (r: Json)
    ensures
        r.doc() == configmap_metadata_doc(name@, run_name@, component@, run@),
{
    Json::object()
        .with("name", Json::text(name))
        .with("namespace", Json::opt_text(&run.namespace))
        .with(
            "ownerReferences",
            Json::array()
                .item(owner_reference(run)),
        )
        .with("labels", standard_labels(run_name, component))
}

/// The claim for the volume that keeps the results. It belongs to no run, so that it outlives it.
pub open spec fn results_pvc_doc(run_name: Seq<char>, run: IdentityView) -> Doc {
    Doc::object()
        .with("apiVersion"@, Doc::Text("v1"@))
        .with("kind"@, Doc::Text("PersistentVolumeClaim"@))
        .with(
            "metadata"@,
            Doc::object()
                .with("name"@, Doc::Text(part_name(run_name, "results"@)))
                .with("namespace"@, docs::opt_text_doc(run.namespace))
                .with("labels"@, labels_doc(run_name, "results"@)),
        )
        .with(
            "spec"@,
            Doc::object()
                .with(
                    "accessModes"@,
                    Doc::array()
                        .item(Doc::Text("ReadWriteOnce"@)),
                )
                .with(
                    "resources"@,
                    Doc::object()
                        .with(
                            "requests"@,
                            Doc::object()
                                .with("storage"@, Doc::Text("1Gi"@)),
                        ),
                ),
        )
}

/// The claim for the volume that keeps the results. It belongs to no run, so that it outlives it.
pub fn build_results_pvc(run_name: &str, run: &RunIdentity) -> (r: Json)
    ensures
        r.doc() == results_pvc_doc(run_name@, run@),
{
    Json::object()
        .with("apiVersion", Json::text("v1"))
        .with("kind", Json::text("PersistentVolumeClaim"))
        .with(
            "metadata",
            Json::object()
                .with("name", Json::Text(part_name_of(run_name, "results")))
                .with("namespace", Json::opt_text(&run.namespace))
                .with("labels", standard_labels(run_name, "results")),
        )
        .with(
            "spec",
            Json::object()
                .with(
                    "accessModes",
                    Json::array()
                        .item(Json::text("ReadWriteOnce")),
                )
                .with(
                    "resources",
                    Json::object()
                        .with(
                            "requests",
                            Json::object()
                                .with("storage", Json::text("1Gi")),
                        ),
                ),
        )
}

/// The address of the phase controller.
pub open spec fn phase_controller_service_doc(run_name: Seq<char>, run: IdentityView) -> Doc {
    Doc::object()
        .with("apiVersion"@, Doc::Text("v1"@))
        .with("kind"@, Doc::Text("Service"@))
        .with(
            "metadata"@,
            Doc::object()
                .with("name"@, Doc::Text(part_name(run_name, "phase-controller"@)))
                .with("namespace"@, docs::opt_text_doc(run.namespace))
                .with(
                    "ownerReferences"@,
                    Doc::array()
                        .item(owner_doc(run)),
                )
                .with("labels"@, labels_doc(run_name, "phase-controller"@)),
        )
        .with(
            "spec"@,
            Doc::object()
                .with(
                    "selector"@,
                    Doc::object()
                        .with("app.kubernetes.io/instance"@, Doc::Text(run_name))
                        .with("app.kubernetes.io/component"@, Doc::Text("phase-controller"@)),
                )
                .with(
                    "ports"@,
                    Doc::array()
                        .item(
                            Doc::object()
                                .with("name"@, Doc::Text("grpc"@))
                                .with("port"@, Doc::Uint(50051))
                                .with("targetPort"@, Doc::Uint(50051)),
                        ),
                ),
        )
}

/// The address of the phase controller.
pub fn build_phase_controller_service(run_name: &str, run: &RunIdentity) -> (r: Json)
    ensures
        r.doc() == phase_controller_service_doc(run_name@, run@),
{
    Json::object()
        .with("apiVersion", Json::text("v1"))
        .with("kind", Json::text("Service"))
        .with(
            "metadata",
            Json::object()
                .with("name", Json::Text(part_name_of(run_name, "phase-controller")))
                .with("namespace", Json::opt_text(&run.namespace))
                .with(
                    "ownerReferences",
                    Json::array()
                        .item(owner_reference(run)),
                )
                .with("labels", standard_labels(run_name, "phase-controller")),
        )
        .with(
            "spec",
            Json::object()
                .with(
                    "selector",
                    Json::object()
                        .with("app.kubernetes.io/instance", Json::text(run_name))
                        .with("app.kubernetes.io/component", Json::text("phase-controller")),
                )
                .with(
                    "ports",
                    Json::array()
                        .item(
                            Json::object()
                                .with("name", Json::text("grpc"))
                                .with("port", Json::Uint(50051))
                                .with("targetPort", Json::Uint(50051)),
                        ),
                ),
        )
}

/// The address of the aggregator.
pub open spec fn aggregator_service_doc(run_name: Seq<char>, run: IdentityView) -> Doc {
    Doc::object()
        .with("apiVersion"@, Doc::Text("v1"@))
        .with("kind"@, Doc::Text("Service"@))
        .with(
            "metadata"@,
            Doc::object()
                .with("name"@, Doc::Text(part_name(run_name, "aggregator"@)))
                .with("namespace"@, docs::opt_text_doc(run.namespace))
                .with(
                    "ownerReferences"@,
                    Doc::array()
                        .item(owner_doc(run)),
                )
                .with("labels"@, labels_doc(run_name, "aggregator"@)),
        )
        .with(
            "spec"@,
            Doc::object()
                .with(
                    "selector"@,
                    Doc::object()
                        .with("app.kubernetes.io/instance"@, Doc::Text(run_name))
                        .with("app.kubernetes.io/component"@, Doc::Text("aggregator"@)),
                )
                .with(
                    "ports"@,
                    Doc::array()
                        .item(
                            Doc::object()
                                .with("name"@, Doc::Text("grpc"@))
                                .with("port"@, Doc::Uint(50052))
                                .with("targetPort"@, Doc::Uint(50052)),
                        ),
                ),
        )
}

/// The address of the aggregator.
pub fn build_aggregator_service(run_name: &str, run: &RunIdentity) -> (r: Json)
    ensures
        r.doc() == aggregator_service_doc(run_name@, run@),
{
    Json::object()
        .with("apiVersion", Json::text("v1"))
        .with("kind", Json::text("Service"))
        .with(
            "metadata",
            Json::object()
                .with("name", Json::Text(part_name_of(run_name, "aggregator")))
                .with("namespace", Json::opt_text(&run.namespace))
                .with(
                    "ownerReferences",
                    Json::array()
                        .item(owner_reference(run)),
                )
                .with("labels", standard_labels(run_name, "aggregator")),
        )
        .with(
            "spec",
            Json::object()
                .with(
                    "selector",
                    Json::object()
                        .with("app.kubernetes.io/instance", Json::text(run_name))
                        .with("app.kubernetes.io/component", Json::text("aggregator")),
                )
                .with(
                    "ports",
                    Json::array()
                        .item(
                            Json::object()
                                .with("name", Json::text("grpc"))
                                .with("port", Json::Uint(50052))
                                .with("targetPort", Json::Uint(50052)),
                        ),
                ),
        )
}

/// When a container counts as alive.
pub open spec fn liveness_doc() -> Doc {
    Doc::object()
        .with(
            "httpGet"@,
            Doc::object()
                .with("path"@, Doc::Text("/healthz"@))
                .with("port"@, Doc::Uint(8080)),
        )
        .with("initialDelaySeconds"@, Doc::Uint(5))
        .with("periodSeconds"@, Doc::Uint(10))
}

/// When a container counts as alive.
fn liveness_probe() -> (r: Json)
    ensures
        r.doc() == liveness_doc(),
{
    Json::object()
        .with(
            "httpGet",
            Json::object()
                .with("path", Json::text("/healthz"))
                .with("port", Json::Uint(8080)),
        )
        .with("initialDelaySeconds", Json::Uint(5))
        .with("periodSeconds", Json::Uint(10))
}

/// When a container counts as ready.
pub open spec fn readiness_doc() -> Doc {
    Doc::object()
        .with(
            "httpGet"@,
            Doc::object()
                .with("path"@, Doc::Text("/healthz"@))
                .with("port"@, Doc::Uint(8080)),
        )
        .with("initialDelaySeconds"@, Doc::Uint(3))
        .with("periodSeconds"@, Doc::Uint(5))
}

/// When a container counts as ready.
fn readiness_probe() -> (r: Json)
    ensures
        r.doc() == readiness_doc(),
{
    Json::object()
        .with(
            "httpGet",
            Json::object()
                .with("path", Json::text("/healthz"))
                .with("port", Json::Uint(8080)),
        )
        .with("initialDelaySeconds", Json::Uint(3))
        .with("periodSeconds", Json::Uint(5))
}

/// The port that answers whether a container is healthy.
pub open spec fn health_port_doc() -> Doc {
    Doc::object()
        .with("containerPort"@, Doc::Uint(8080))
        .with("name"@, Doc::Text("health"@))
}

/// The port that answers whether a container is healthy.
fn health_port() -> (r: Json)
    ensures
        r.doc() == health_port_doc(),
{
    Json::object()
        .with("containerPort", Json::Uint(8080))
        .with("name", Json::text("health"))
}

/// The pod's own name, for the container.
pub open spec fn pod_name_env_doc() -> Doc {
    Doc::array()
        .item(
            Doc::object()
                .with("name"@, Doc::Text("POD_NAME"@))
                .with(
                    "valueFrom"@,
                    Doc::object()
                        .with(
                            "fieldRef"@,
                            Doc::object()
                                .with("fieldPath"@, Doc::Text("metadata.name"@)),
                        ),
                ),
        )
}

/// The pod's own name, for the container.
fn pod_name_env() -> (r: Json)
    ensures
        r.doc() == pod_name_env_doc(),
{
    Json::array()
        .item(
            Json::object()
                .with("name", Json::text("POD_NAME"))
                .with(
                    "valueFrom",
                    Json::object()
                        .with(
                            "fieldRef",
                            Json::object()
                                .with("fieldPath", Json::text("metadata.name")),
                        ),
                ),
        )
}

/// A volume in a container.
pub open spec fn mount_doc(name: Seq<char>, path: Seq<char>) -> Doc {
    Doc::object()
        .with("name"@, Doc::Text(name))
        .with("mountPath"@, Doc::Text(path))
}

/// A volume in a container.
fn mount(name: &str, path: &str) -> (r: Json)
    ensures
        r.doc() == mount_doc(name@, path@),
{
    Json::object()
        .with("name", Json::text(name))
        .with("mountPath", Json::text(path))
}

/// A volume that holds a ConfigMap.
pub open spec fn config_volume_doc(name: Seq<char>, config: Seq<char>) -> Doc {
    Doc::object()
        .with("name"@, Doc::Text(name))
        .with(
            "configMap"@,
            Doc::object()
                .with("name"@, Doc::Text(config)),
        )
}

/// A volume that holds a ConfigMap.
fn config_volume(name: &str, config: &str) -> (r: Json)
    ensures
        r.doc() == config_volume_doc(name@, config@),
{
    Json::object()
        .with("name", Json::text(name))
        .with(
            "configMap",
            Json::object()
                .with("name", Json::text(config)),
        )
}

/// The volume that keeps the results.
pub open spec fn results_volume_doc(run_name: Seq<char>) -> Doc {
    Doc::object()
        .with("name"@, Doc::Text("results"@))
        .with(
            "persistentVolumeClaim"@,
            Doc::object()
                .with("claimName"@, Doc::Text(part_name(run_name, "results"@))),
        )
}

/// The volume that keeps the results.
fn results_volume(run_name: &str) -> (r: Json)
    ensures
        r.doc() == results_volume_doc(run_name@),
{
    Json::object()
        .with("name", Json::text("results"))
        .with(
            "persistentVolumeClaim",
            Json::object()
                .with("claimName", Json::Text(part_name_of(run_name, "results"))),
        )
}

/// The aggregator.
pub open spec fn aggregator_deployment_doc(run_name: Seq<char>, image: Seq<char>, run: IdentityView) -> Doc {
    Doc::object()
        .with("apiVersion"@, Doc::Text("apps/v1"@))
        .with("kind"@, Doc::Text("Deployment"@))
        .with(
            "metadata"@,
            Doc::object()
                .with("name"@, Doc::Text(part_name(run_name, "aggregator"@)))
                .with("namespace"@, docs::opt_text_doc(run.namespace))
                .with(
                    "ownerReferences"@,
                    Doc::array()
                        .item(owner_doc(run)),
                )
                .with("labels"@, labels_doc(run_name, "aggregator"@)),
        )
        .with(
            "spec"@,
            Doc::object()
                .with("replicas"@, Doc::Uint(1))
                .with(
                    "selector"@,
                    Doc::object()
                        .with(
                            "matchLabels"@,
                            Doc::object()
                                .with("app.kubernetes.io/instance"@, Doc::Text(run_name))
                                .with("app.kubernetes.io/component"@, Doc::Text("aggregator"@)),
                        ),
                )
                .with(
                    "template"@,
                    Doc::object()
                        .with(
                            "metadata"@,
                            Doc::object()
                                .with("labels"@, labels_doc(run_name, "aggregator"@)),
                        )
                        .with(
                            "spec"@,
                            Doc::object()
                                .with(
                                    "containers"@,
                                    Doc::array()
                                        .item(
                                            Doc::object()
                                                .with("name"@, Doc::Text("aggregator"@))
                                                .with("image"@, Doc::Text(image))
                                                .with("imagePullPolicy"@, Doc::Text("IfNotPresent"@))
                                                .with(
                                                    "command"@,
                                                    Doc::array()
                                                        .item(Doc::Text("incidentbench-worker"@))
                                                        .item(Doc::Text("aggregator"@))
                                                        .item(Doc::Text("--config"@))
                                                        .item(Doc::Text("/config/aggregator.yaml"@)),
                                                )
                                                .with(
                                                    "ports"@,
                                                    Doc::array()
                                                        .item(
                                                            Doc::object()
                                                                .with("containerPort"@, Doc::Uint(50052)),
                                                        )
                                                        .item(health_port_doc()),
                                                )
                                                .with("livenessProbe"@, liveness_doc())
                                                .with("readinessProbe"@, readiness_doc())
                                                .with(
                                                    "volumeMounts"@,
                                                    Doc::array()
                                                        .item(mount_doc("config"@, "/config"@))
                                                        .item(mount_doc("results"@, "/results"@))
                                                        .item(mount_doc("scenario"@, "/scenario"@)),
                                                ),
                                        ),
                                )
                                .with(
                                    "initContainers"@,
                                    Doc::array()
                                        .item(
                                            Doc::object()
                                                .with("name"@, Doc::Text("copy-scenario"@))
                                                .with("image"@, Doc::Text("busybox:1.36"@))
                                                .with("imagePullPolicy"@, Doc::Text("IfNotPresent"@))
                                                .with(
                                                    "command"@,
                                                    Doc::array()
                                                        .item(Doc::Text("sh"@))
                                                        .item(Doc::Text("-c"@))
                                                        .item(Doc::Text("cp /scenario/scenario.yaml /results/scenario.yaml"@)),
                                                )
                                                .with(
                                                    "volumeMounts"@,
                                                    Doc::array()
                                                        .item(mount_doc("scenario"@, "/scenario"@))
                                                        .item(mount_doc("results"@, "/results"@)),
                                                ),
                                        ),
                                )
                                .with(
                                    "volumes"@,
                                    Doc::array()
                                        .item(config_volume_doc("config"@, part_name(run_name, "aggregator"@)))
                                        .item(results_volume_doc(run_name))
                                        .item(config_volume_doc("scenario"@, part_name(run_name, "scenario"@))),
                                ),
                        ),
                ),
        )
}

/// The aggregator.
pub fn build_aggregator_deployment(run_name: &str, images: &Option<ImageSpec>, run: &RunIdentity) -> (r: Json)
    ensures
        r.doc() == aggregator_deployment_doc(run_name@, worker_image(*images), run@),
{
    let image = worker_image_of(images);
    Json::object()
        .with("apiVersion", Json::text("apps/v1"))
        .with("kind", Json::text("Deployment"))
        .with(
            "metadata",
            Json::object()
                .with("name", Json::Text(part_name_of(run_name, "aggregator")))
                .with("namespace", Json::opt_text(&run.namespace))
                .with(
                    "ownerReferences",
                    Json::array()
                        .item(owner_reference(run)),
                )
                .with("labels", standard_labels(run_name, "aggregator")),
        )
        .with(
            "spec",
            Json::object()
                .with("replicas", Json::Uint(1))
                .with(
                    "selector",
                    Json::object()
                        .with(
                            "matchLabels",
                            Json::object()
                                .with("app.kubernetes.io/instance", Json::text(run_name))
                                .with("app.kubernetes.io/component", Json::text("aggregator")),
                        ),
                )
                .with(
                    "template",
                    Json::object()
                        .with(
                            "metadata",
                            Json::object()
                                .with("labels", standard_labels(run_name, "aggregator")),
                        )
                        .with(
                            "spec",
                            Json::object()
                                .with(
                                    "containers",
                                    Json::array()
                                        .item(
                                            Json::object()
                                                .with("name", Json::text("aggregator"))
                                                .with("image", Json::text(image))
                                                .with("imagePullPolicy", Json::text("IfNotPresent"))
                                                .with(
                                                    "command",
                                                    Json::array()
                                                        .item(Json::text("incidentbench-worker"))
                                                        .item(Json::text("aggregator"))
                                                        .item(Json::text("--config"))
                                                        .item(Json::text("/config/aggregator.yaml")),
                                                )
                                                .with(
                                                    "ports",
                                                    Json::array()
                                                        .item(
                                                            Json::object()
                                                                .with("containerPort", Json::Uint(50052)),
                                                        )
                                                        .item(health_port()),
                                                )
                                                .with("livenessProbe", liveness_probe())
                                                .with("readinessProbe", readiness_probe())
                                                .with(
                                                    "volumeMounts",
                                                    Json::array()
                                                        .item(mount("config", "/config"))
                                                        .item(mount("results", "/results"))
                                                        .item(mount("scenario", "/scenario")),
                                                ),
                                        ),
                                )
                                .with(
                                    "initContainers",
                                    Json::array()
                                        .item(
                                            Json::object()
                                                .with("name", Json::text("copy-scenario"))
                                                .with("image", Json::text("busybox:1.36"))
                                                .with("imagePullPolicy", Json::text("IfNotPresent"))
                                                .with(
                                                    "command",
                                                    Json::array()
                                                        .item(Json::text("sh"))
                                                        .item(Json::text("-c"))
                                                        .item(Json::text("cp /scenario/scenario.yaml /results/scenario.yaml")),
                                                )
                                                .with(
                                                    "volumeMounts",
                                                    Json::array()
                                                        .item(mount("scenario", "/scenario"))
                                                        .item(mount("results", "/results")),
                                                ),
                                        ),
                                )
                                .with(
                                    "volumes",
                                    Json::array()
                                        .item(config_volume("config", part_name_of(run_name, "aggregator").as_str()))
                                        .item(results_volume(run_name))
                                        .item(config_volume("scenario", part_name_of(run_name, "scenario").as_str())),
                                ),
                        ),
                ),
        )
}

/// The phase controller.
pub open spec fn phase_controller_deployment_doc(run_name: Seq<char>, image: Seq<char>, run: IdentityView) -> Doc {
    Doc::object()
        .with("apiVersion"@, Doc::Text("apps/v1"@))
        .with("kind"@, Doc::Text("Deployment"@))
        .with(
            "metadata"@,
            Doc::object()
                .with("name"@, Doc::Text(part_name(run_name, "phase-controller"@)))
                .with("namespace"@, docs::opt_text_doc(run.namespace))
                .with(
                    "ownerReferences"@,
                    Doc::array()
                        .item(owner_doc(run)),
                )
                .with("labels"@, labels_doc(run_name, "phase-controller"@)),
        )
        .with(
            "spec"@,
            Doc::object()
                .with("replicas"@, Doc::Uint(1))
                .with(
                    "selector"@,
                    Doc::object()
                        .with(
                            "matchLabels"@,
                            Doc::object()
                                .with("app.kubernetes.io/instance"@, Doc::Text(run_name))
                                .with("app.kubernetes.io/component"@, Doc::Text("phase-controller"@)),
                        ),
                )
                .with(
                    "template"@,
                    Doc::object()
                        .with(
                            "metadata"@,
                            Doc::object()
                                .with("labels"@, labels_doc(run_name, "phase-controller"@)),
                        )
                        .with(
                            "spec"@,
                            Doc::object()
                                .with(
                                    "containers"@,
                                    Doc::array()
                                        .item(
                                            Doc::object()
                                                .with("name"@, Doc::Text("phase-controller"@))
                                                .with("image"@, Doc::Text(image))
                                                .with("imagePullPolicy"@, Doc::Text("IfNotPresent"@))
                                                .with(
                                                    "command"@,
                                                    Doc::array()
                                                        .item(Doc::Text("incidentbench-worker"@))
                                                        .item(Doc::Text("phase-controller"@))
                                                        .item(Doc::Text("--config"@))
                                                        .item(Doc::Text("/config/phase-controller.yaml"@)),
                                                )
                                                .with(
                                                    "ports"@,
                                                    Doc::array()
                                                        .item(
                                                            Doc::object()
                                                                .with("containerPort"@, Doc::Uint(50051)),
                                                        )
                                                        .item(health_port_doc()),
                                                )
                                                .with("livenessProbe"@, liveness_doc())
                                                .with("readinessProbe"@, readiness_doc())
                                                .with(
                                                    "volumeMounts"@,
                                                    Doc::array()
                                                        .item(mount_doc("config"@, "/config"@)),
                                                ),
                                        ),
                                )
                                .with(
                                    "volumes"@,
                                    Doc::array()
                                        .item(config_volume_doc("config"@, part_name(run_name, "phase-controller"@))),
                                ),
                        ),
                ),
        )
}

/// The phase controller.
pub fn build_phase_controller_deployment(run_name: &str, images: &Option<ImageSpec>, run: &RunIdentity) -> (r: Json)
    ensures
        r.doc() == phase_controller_deployment_doc(run_name@, worker_image(*images), run@),
{
    let image = worker_image_of(images);
    Json::object()
        .with("apiVersion", Json::text("apps/v1"))
        .with("kind", Json::text("Deployment"))
        .with(
            "metadata",
            Json::object()
                .with("name", Json::Text(part_name_of(run_name, "phase-controller")))
                .with("namespace", Json::opt_text(&run.namespace))
                .with(
                    "ownerReferences",
                    Json::array()
                        .item(owner_reference(run)),
                )
                .with("labels", standard_labels(run_name, "phase-controller")),
        )
        .with(
            "spec",
            Json::object()
                .with("replicas", Json::Uint(1))
                .with(
                    "selector",
                    Json::object()
                        .with(
                            "matchLabels",
                            Json::object()
                                .with("app.kubernetes.io/instance", Json::text(run_name))
                                .with("app.kubernetes.io/component", Json::text("phase-controller")),
                        ),
                )
                .with(
                    "template",
                    Json::object()
                        .with(
                            "metadata",
                            Json::object()
                                .with("labels", standard_labels(run_name, "phase-controller")),
                        )
                        .with(
                            "spec",
                            Json::object()
                                .with(
                                    "containers",
                                    Json::array()
                                        .item(
                                            Json::object()
                                                .with("name", Json::text("phase-controller"))
                                                .with("image", Json::text(image))
                                                .with("imagePullPolicy", Json::text("IfNotPresent"))
                                                .with(
                                                    "command",
                                                    Json::array()
                                                        .item(Json::text("incidentbench-worker"))
                                                        .item(Json::text("phase-controller"))
                                                        .item(Json::text("--config"))
                                                        .item(Json::text("/config/phase-controller.yaml")),
                                                )
                                                .with(
                                                    "ports",
                                                    Json::array()
                                                        .item(
                                                            Json::object()
                                                                .with("containerPort", Json::Uint(50051)),
                                                        )
                                                        .item(health_port()),
                                                )
                                                .with("livenessProbe", liveness_probe())
                                                .with("readinessProbe", readiness_probe())
                                                .with(
                                                    "volumeMounts",
                                                    Json::array()
                                                        .item(mount("config", "/config")),
                                                ),
                                        ),
                                )
                                .with(
                                    "volumes",
                                    Json::array()
                                        .item(config_volume("config", part_name_of(run_name, "phase-controller").as_str())),
                                ),
                        ),
                ),
        )
}

/// The ingest workers of one stream.
pub open spec fn ingest_deployment_doc(run_name: Seq<char>, stream: Seq<char>, replicas: u32, image: Seq<char>, resources: Doc, run: IdentityView) -> Doc {
    Doc::object()
        .with("apiVersion"@, Doc::Text("apps/v1"@))
        .with("kind"@, Doc::Text("Deployment"@))
        .with(
            "metadata"@,
            Doc::object()
                .with("name"@, Doc::Text(sub_part_name(run_name, "ingest"@, stream)))
                .with("namespace"@, docs::opt_text_doc(run.namespace))
                .with(
                    "ownerReferences"@,
                    Doc::array()
                        .item(owner_doc(run)),
                )
                .with(
                    "labels"@,
                    labels_doc(run_name, "ingest-worker"@)
                        .with("incidentbench.io/data-stream"@, Doc::Text(stream)),
                ),
        )
        .with(
            "spec"@,
            Doc::object()
                .with("replicas"@, Doc::Uint(replicas as nat))
                .with(
                    "selector"@,
                    Doc::object()
                        .with(
                            "matchLabels"@,
                            Doc::object()
                                .with("app.kubernetes.io/instance"@, Doc::Text(run_name))
                                .with("app.kubernetes.io/component"@, Doc::Text("ingest-worker"@))
                                .with("incidentbench.io/data-stream"@, Doc::Text(stream)),
                        ),
                )
                .with(
                    "template"@,
                    Doc::object()
                        .with(
                            "metadata"@,
                            Doc::object()
                                .with(
                                    "labels"@,
                                    labels_doc(run_name, "ingest-worker"@)
                                        .with("incidentbench.io/data-stream"@, Doc::Text(stream)),
                                ),
                        )
                        .with(
                            "spec"@,
                            Doc::object()
                                .with(
                                    "containers"@,
                                    Doc::array()
                                        .item(
                                            Doc::object()
                                                .with("name"@, Doc::Text("ingest-worker"@))
                                                .with("image"@, Doc::Text(image))
                                                .with("imagePullPolicy"@, Doc::Text("IfNotPresent"@))
                                                .with(
                                                    "command"@,
                                                    Doc::array()
                                                        .item(Doc::Text("incidentbench-worker"@))
                                                        .item(Doc::Text("ingest"@))
                                                        .item(Doc::Text("--config"@))
                                                        .item(Doc::Text("/config/ingest.yaml"@)),
                                                )
                                                .with("env"@, pod_name_env_doc())
                                                .with(
                                                    "ports"@,
                                                    Doc::array()
                                                        .item(health_port_doc()),
                                                )
                                                .with("livenessProbe"@, liveness_doc())
                                                .with("readinessProbe"@, readiness_doc())
                                                .with(
                                                    "volumeMounts"@,
                                                    Doc::array()
                                                        .item(mount_doc("config"@, "/config"@)),
                                                )
                                                .with("resources"@, resources),
                                        ),
                                )
                                .with(
                                    "volumes"@,
                                    Doc::array()
                                        .item(config_volume_doc("config"@, sub_part_name(run_name, "ingest"@, stream))),
                                ),
                        ),
                ),
        )
}

/// The ingest workers of one stream.
fn ingest_deployment(run_name: &str, stream: &str, replicas: u32, image: &str, resources: Json, run: &RunIdentity) -> (r: Json)
    ensures
        r.doc() == ingest_deployment_doc(run_name@, stream@, replicas, image@, resources.doc(), run@),
{
    Json::object()
        .with("apiVersion", Json::text("apps/v1"))
        .with("kind", Json::text("Deployment"))
        .with(
            "metadata",
            Json::object()
                .with("name", Json::Text(sub_part_name_of(run_name, "ingest", stream)))
                .with("namespace", Json::opt_text(&run.namespace))
                .with(
                    "ownerReferences",
                    Json::array()
                        .item(owner_reference(run)),
                )
                .with(
                    "labels",
                    standard_labels(run_name, "ingest-worker")
                        .with("incidentbench.io/data-stream", Json::text(stream)),
                ),
        )
        .with(
            "spec",
            Json::object()
                .with("replicas", Json::Uint(replicas as u64))
                .with(
                    "selector",
                    Json::object()
                        .with(
                            "matchLabels",
                            Json::object()
                                .with("app.kubernetes.io/instance", Json::text(run_name))
                                .with("app.kubernetes.io/component", Json::text("ingest-worker"))
                                .with("incidentbench.io/data-stream", Json::text(stream)),
                        ),
                )
                .with(
                    "template",
                    Json::object()
                        .with(
                            "metadata",
                            Json::object()
                                .with(
                                    "labels",
                                    standard_labels(run_name, "ingest-worker")
                                        .with("incidentbench.io/data-stream", Json::text(stream)),
                                ),
                        )
                        .with(
                            "spec",
                            Json::object()
                                .with(
                                    "containers",
                                    Json::array()
                                        .item(
                                            Json::object()
                                                .with("name", Json::text("ingest-worker"))
                                                .with("image", Json::text(image))
                                                .with("imagePullPolicy", Json::text("IfNotPresent"))
                                                .with(
                                                    "command",
                                                    Json::array()
                                                        .item(Json::text("incidentbench-worker"))
                                                        .item(Json::text("ingest"))
                                                        .item(Json::text("--config"))
                                                        .item(Json::text("/config/ingest.yaml")),
                                                )
                                                .with("env", pod_name_env())
                                                .with(
                                                    "ports",
                                                    Json::array()
                                                        .item(health_port()),
                                                )
                                                .with("livenessProbe", liveness_probe())
                                                .with("readinessProbe", readiness_probe())
                                                .with(
                                                    "volumeMounts",
                                                    Json::array()
                                                        .item(mount("config", "/config")),
                                                )
                                                .with("resources", resources),
                                        ),
                                )
                                .with(
                                    "volumes",
                                    Json::array()
                                        .item(
                                            config_volume("config", sub_part_name_of(run_name, "ingest", stream).as_str()),
                                        ),
                                ),
                        ),
                ),
        )
}

/// The ingest workers of the streams, one deployment for each.
pub open spec fn ingest_deployments(
    run_name: Seq<char>,
    streams: Seq<StreamView>,
    image: Seq<char>,
    resources: Doc,
    run: IdentityView,
) -> Seq<Doc> {
    streams.map_values(
        |s: StreamView|
            ingest_deployment_doc(run_name, s.name, s.ingest_replicas, image, resources, run),
    )
}

/// The documents of a list.
pub open spec fn doc_list(v: Seq<Json>) -> Seq<Doc> {
    v.map_values(|j: Json| j.doc())
}

/// Appending a value appends its document.
pub broadcast proof fn doc_list_push(v: Seq<Json>, j: Json)
    ensures
        #[trigger] doc_list(v.push(j)) == doc_list(v).push(j.doc()),
{
    assert(doc_list(v.push(j)) =~= doc_list(v).push(j.doc()));
}

/// The ingest workers of the streams, one deployment for each.
pub fn build_ingest_stream_deployments(
    run_name: &str,
    streams: &Vec<DataStream>,
    images: &Option<ImageSpec>,
    resources: &Option<ResourceSpec>,
    run: &RunIdentity,
) -> (r: Vec<Json>)
    ensures
        doc_list(r@) == ingest_deployments(
            run_name@,
            model::vmap(streams@),
            worker_image(*images),
            resources_doc(*resources),
            run@,
        ),
{
    let image = worker_image_of(images);
    let ghost all = ingest_deployments(
        run_name@,
        model::vmap(streams@),
        image@,
        resources_doc(*resources),
        run@,
    );
    let mut out: Vec<Json> = Vec::new();
    let mut i: usize = 0;
    assert(doc_list(out@) =~= all.take(0));
    while i < streams.len()
        invariant
            i <= streams@.len(),
            all == ingest_deployments(
                run_name@,
                model::vmap(streams@),
                image@,
                resources_doc(*resources),
                run@,
            ),
            doc_list(out@) == all.take(i as int),
        decreases streams@.len() - i,
    {
        broadcast use doc_list_push, model::take_push;

        assert(model::vmap(streams@)[i as int] == streams@[i as int]@);
        out.push(
            ingest_deployment(
                run_name,
                streams[i].name.as_str(),
                streams[i].ingest_replicas,
                image,
                resolve_resources(resources),
                run,
            ),
        );
        i += 1;
    }
    assert(all.take(i as int) =~= all);
    out
}

/// The volumes in a query worker: its configuration, and the SQL files where there are any.
pub open spec fn query_mounts_doc(with_sql: bool) -> Doc {
    let config = Doc::array().item(mount_doc("config"@, "/config"@));
    if with_sql {
        config.item(mount_doc("sql-files"@, "/queries"@))
    } else {
        config
    }
}

/// The volumes of a query worker.
pub open spec fn query_volumes_doc(config: Seq<char>, sql: Option<Seq<char>>) -> Doc {
    let volumes = Doc::array().item(config_volume_doc("config"@, config));
    match sql {
        Some(cm) => volumes.item(config_volume_doc("sql-files"@, cm)),
        None => volumes,
    }
}

fn query_mounts(with_sql: bool) -> (r: Json)
    ensures
        r.doc() == query_mounts_doc(with_sql),
{
    let config = Json::array().item(mount("config", "/config"));
    if with_sql {
        config.item(mount("sql-files", "/queries"))
    } else {
        config
    }
}

fn query_volumes(config: &str, sql: &Option<String>) -> (r: Json)
    ensures
        r.doc() == query_volumes_doc(config@, text::opt_view(*sql)),
{
    let volumes = Json::array().item(config_volume("config", config));
    match sql {
        Some(cm) => volumes.item(config_volume("sql-files", cm.as_str())),
        None => volumes,
    }
}

/// The query workers.
pub open spec fn query_deployment_doc(run_name: Seq<char>, replicas: u32, image: Seq<char>, resources: Doc, run: IdentityView, sql: Option<Seq<char>>) -> Doc {
    Doc::object()
        .with("apiVersion"@, Doc::Text("apps/v1"@))
        .with("kind"@, Doc::Text("Deployment"@))
        .with(
            "metadata"@,
            Doc::object()
                .with("name"@, Doc::Text(part_name(run_name, "query"@)))
                .with("namespace"@, docs::opt_text_doc(run.namespace))
                .with(
                    "ownerReferences"@,
                    Doc::array()
                        .item(owner_doc(run)),
                )
                .with("labels"@, labels_doc(run_name, "query-worker"@)),
        )
        .with(
            "spec"@,
            Doc::object()
                .with("replicas"@, Doc::Uint(replicas as nat))
                .with(
                    "selector"@,
                    Doc::object()
                        .with(
                            "matchLabels"@,
                            Doc::object()
                                .with("app.kubernetes.io/instance"@, Doc::Text(run_name))
                                .with("app.kubernetes.io/component"@, Doc::Text("query-worker"@)),
                        ),
                )
                .with(
                    "template"@,
                    Doc::object()
                        .with(
                            "metadata"@,
                            Doc::object()
                                .with("labels"@, labels_doc(run_name, "query-worker"@)),
                        )
                        .with(
                            "spec"@,
                            Doc::object()
                                .with(
                                    "containers"@,
                                    Doc::array()
                                        .item(
                                            Doc::object()
                                                .with("name"@, Doc::Text("query-worker"@))
                                                .with("image"@, Doc::Text(image))
                                                .with("imagePullPolicy"@, Doc::Text("IfNotPresent"@))
                                                .with(
                                                    "command"@,
                                                    Doc::array()
                                                        .item(Doc::Text("incidentbench-worker"@))
                                                        .item(Doc::Text("query"@))
                                                        .item(Doc::Text("--config"@))
                                                        .item(Doc::Text("/config/query.yaml"@)),
                                                )
                                                .with("env"@, pod_name_env_doc())
                                                .with(
                                                    "ports"@,
                                                    Doc::array()
                                                        .item(health_port_doc()),
                                                )
                                                .with("livenessProbe"@, liveness_doc())
                                                .with("readinessProbe"@, readiness_doc())
                                                .with("volumeMounts"@, query_mounts_doc(sql is Some))
                                                .with("resources"@, resources),
                                        ),
                                )
                                .with("volumes"@, query_volumes_doc(part_name(run_name, "query"@), sql)),
                        ),
                ),
        )
}

/// The query workers.
fn query_deployment(run_name: &str, replicas: u32, image: &str, resources: Json, run: &RunIdentity, sql: &Option<String>) -> (r: Json)
    ensures
        r.doc() == query_deployment_doc(run_name@, replicas, image@, resources.doc(), run@, text::opt_view(*sql)),
{
    Json::object()
        .with("apiVersion", Json::text("apps/v1"))
        .with("kind", Json::text("Deployment"))
        .with(
            "metadata",
            Json::object()
                .with("name", Json::Text(part_name_of(run_name, "query")))
                .with("namespace", Json::opt_text(&run.namespace))
                .with(
                    "ownerReferences",
                    Json::array()
                        .item(owner_reference(run)),
                )
                .with("labels", standard_labels(run_name, "query-worker")),
        )
        .with(
            "spec",
            Json::object()
                .with("replicas", Json::Uint(replicas as u64))
                .with(
                    "selector",
                    Json::object()
                        .with(
                            "matchLabels",
                            Json::object()
                                .with("app.kubernetes.io/instance", Json::text(run_name))
                                .with("app.kubernetes.io/component", Json::text("query-worker")),
                        ),
                )
                .with(
                    "template",
                    Json::object()
                        .with(
                            "metadata",
                            Json::object()
                                .with("labels", standard_labels(run_name, "query-worker")),
                        )
                        .with(
                            "spec",
                            Json::object()
                                .with(
                                    "containers",
                                    Json::array()
                                        .item(
                                            Json::object()
                                                .with("name", Json::text("query-worker"))
                                                .with("image", Json::text(image))
                                                .with("imagePullPolicy", Json::text("IfNotPresent"))
                                                .with(
                                                    "command",
                                                    Json::array()
                                                        .item(Json::text("incidentbench-worker"))
                                                        .item(Json::text("query"))
                                                        .item(Json::text("--config"))
                                                        .item(Json::text("/config/query.yaml")),
                                                )
                                                .with("env", pod_name_env())
                                                .with(
                                                    "ports",
                                                    Json::array()
                                                        .item(health_port()),
                                                )
                                                .with("livenessProbe", liveness_probe())
                                                .with("readinessProbe", readiness_probe())
                                                .with("volumeMounts", query_mounts(sql.is_some()))
                                                .with("resources", resources),
                                        ),
                                )
                                .with("volumes", query_volumes(part_name_of(run_name, "query").as_str(), sql)),
                        ),
                ),
        )
}

/// The query workers of a run without groups. `sql` names the ConfigMap that holds the
/// SQL files, where there is one.
pub fn build_query_worker_deployment(
    run_name: &str,
    replicas: u32,
    images: &Option<ImageSpec>,
    resources: &Option<ResourceSpec>,
    run: &RunIdentity,
    sql: &Option<String>,
) -> (r: Json)
    ensures
        r.doc() == query_deployment_doc(
            run_name@,
            replicas,
            worker_image(*images),
            resources_doc(*resources),
            run@,
            text::opt_view(*sql),
        ),
{
    query_deployment(
        run_name,
        replicas,
        worker_image_of(images),
        resolve_resources(resources),
        run,
        sql,
    )
}

/// The query workers of one group.
pub open spec fn group_deployment_doc(run_name: Seq<char>, group: Seq<char>, replicas: u32, image: Seq<char>, resources: Doc, run: IdentityView, sql: Option<Seq<char>>) -> Doc {
    Doc::object()
        .with("apiVersion"@, Doc::Text("apps/v1"@))
        .with("kind"@, Doc::Text("Deployment"@))
        .with(
            "metadata"@,
            Doc::object()
                .with("name"@, Doc::Text(sub_part_name(run_name, "query"@, group)))
                .with("namespace"@, docs::opt_text_doc(run.namespace))
                .with(
                    "ownerReferences"@,
                    Doc::array()
                        .item(owner_doc(run)),
                )
                .with(
                    "labels"@,
                    labels_doc(run_name, "query-worker"@)
                        .with("incidentbench.io/query-group"@, Doc::Text(group)),
                ),
        )
        .with(
            "spec"@,
            Doc::object()
                .with("replicas"@, Doc::Uint(replicas as nat))
                .with(
                    "selector"@,
                    Doc::object()
                        .with(
                            "matchLabels"@,
                            Doc::object()
                                .with("app.kubernetes.io/instance"@, Doc::Text(run_name))
                                .with("app.kubernetes.io/component"@, Doc::Text("query-worker"@))
                                .with("incidentbench.io/query-group"@, Doc::Text(group)),
                        ),
                )
                .with(
                    "template"@,
                    Doc::object()
                        .with(
                            "metadata"@,
                            Doc::object()
                                .with(
                                    "labels"@,
                                    labels_doc(run_name, "query-worker"@)
                                        .with("incidentbench.io/query-group"@, Doc::Text(group)),
                                ),
                        )
                        .with(
                            "spec"@,
                            Doc::object()
                                .with(
                                    "containers"@,
                                    Doc::array()
                                        .item(
                                            Doc::object()
                                                .with("name"@, Doc::Text("query-worker"@))
                                                .with("image"@, Doc::Text(image))
                                                .with("imagePullPolicy"@, Doc::Text("IfNotPresent"@))
                                                .with(
                                                    "command"@,
                                                    Doc::array()
                                                        .item(Doc::Text("incidentbench-worker"@))
                                                        .item(Doc::Text("query"@))
                                                        .item(Doc::Text("--config"@))
                                                        .item(Doc::Text("/config/query-"@ + group + ".yaml"@)),
                                                )
                                                .with("env"@, pod_name_env_doc())
                                                .with(
                                                    "ports"@,
                                                    Doc::array()
                                                        .item(health_port_doc()),
                                                )
                                                .with("livenessProbe"@, liveness_doc())
                                                .with("readinessProbe"@, readiness_doc())
                                                .with("volumeMounts"@, query_mounts_doc(sql is Some))
                                                .with("resources"@, resources),
                                        ),
                                )
                                .with("volumes"@, query_volumes_doc(sub_part_name(run_name, "query"@, group), sql)),
                        ),
                ),
        )
}

/// The query workers of one group.
fn group_deployment(run_name: &str, group: &str, replicas: u32, image: &str, resources: Json, run: &RunIdentity, sql: &Option<String>) -> (r: Json)
    ensures
        r.doc() == group_deployment_doc(run_name@, group@, replicas, image@, resources.doc(), run@, text::opt_view(*sql)),
{
    Json::object()
        .with("apiVersion", Json::text("apps/v1"))
        .with("kind", Json::text("Deployment"))
        .with(
            "metadata",
            Json::object()
                .with("name", Json::Text(sub_part_name_of(run_name, "query", group)))
                .with("namespace", Json::opt_text(&run.namespace))
                .with(
                    "ownerReferences",
                    Json::array()
                        .item(owner_reference(run)),
                )
                .with(
                    "labels",
                    standard_labels(run_name, "query-worker")
                        .with("incidentbench.io/query-group", Json::text(group)),
                ),
        )
        .with(
            "spec",
            Json::object()
                .with("replicas", Json::Uint(replicas as u64))
                .with(
                    "selector",
                    Json::object()
                        .with(
                            "matchLabels",
                            Json::object()
                                .with("app.kubernetes.io/instance", Json::text(run_name))
                                .with("app.kubernetes.io/component", Json::text("query-worker"))
                                .with("incidentbench.io/query-group", Json::text(group)),
                        ),
                )
                .with(
                    "template",
                    Json::object()
                        .with(
                            "metadata",
                            Json::object()
                                .with(
                                    "labels",
                                    standard_labels(run_name, "query-worker")
                                        .with("incidentbench.io/query-group", Json::text(group)),
                                ),
                        )
                        .with(
                            "spec",
                            Json::object()
                                .with(
                                    "containers",
                                    Json::array()
                                        .item(
                                            Json::object()
                                                .with("name", Json::text("query-worker"))
                                                .with("image", Json::text(image))
                                                .with("imagePullPolicy", Json::text("IfNotPresent"))
                                                .with(
                                                    "command",
                                                    Json::array()
                                                        .item(Json::text("incidentbench-worker"))
                                                        .item(Json::text("query"))
                                                        .item(Json::text("--config"))
                                                        .item(Json::Text(text::join3("/config/query-", group, ".yaml"))),
                                                )
                                                .with("env", pod_name_env())
                                                .with(
                                                    "ports",
                                                    Json::array()
                                                        .item(health_port()),
                                                )
                                                .with("livenessProbe", liveness_probe())
                                                .with("readinessProbe", readiness_probe())
                                                .with("volumeMounts", query_mounts(sql.is_some()))
                                                .with("resources", resources),
                                        ),
                                )
                                .with(
                                    "volumes",
                                    query_volumes(sub_part_name_of(run_name, "query", group).as_str(), sql),
                                ),
                        ),
                ),
        )
}

/// The query workers of the groups, one deployment for each.
pub open spec fn group_deployments(
    run_name: Seq<char>,
    groups: Seq<QueryGroupSpec>,
    image: Seq<char>,
    run: IdentityView,
    sql: Option<Seq<char>>,
) -> Seq<Doc> {
    groups.map_values(
        |g: QueryGroupSpec|
            group_deployment_doc(
                run_name,
                g.name@,
                g.replicas,
                image,
                resources_doc(g.resources),
                run,
                sql,
            ),
    )
}

/// The query workers of the groups, one deployment for each.
pub fn build_query_worker_group_deployments(
    run_name: &str,
    query_groups: &Vec<QueryGroupSpec>,
    images: &Option<ImageSpec>,
    run: &RunIdentity,
    sql: &Option<String>,
) -> (r: Vec<Json>)
    ensures
        doc_list(r@) == group_deployments(
            run_name@,
            query_groups@,
            worker_image(*images),
            run@,
            text::opt_view(*sql),
        ),
{
    let image = worker_image_of(images);
    let ghost all = group_deployments(
        run_name@,
        query_groups@,
        image@,
        run@,
        text::opt_view(*sql),
    );
    let mut out: Vec<Json> = Vec::new();
    let mut i: usize = 0;
    assert(doc_list(out@) =~= all.take(0));
    while i < query_groups.len()
        invariant
            i <= query_groups@.len(),
            all == group_deployments(
                run_name@,
                query_groups@,
                image@,
                run@,
                text::opt_view(*sql),
            ),
            doc_list(out@) == all.take(i as int),
        decreases query_groups@.len() - i,
    {
        broadcast use doc_list_push, model::take_push;

        let g = &query_groups[i];
        out.push(
            group_deployment(
                run_name,
                g.name.as_str(),
                g.replicas,
                image,
                resolve_resources(&g.resources),
                run,
                sql,
            ),
        );
        i += 1;
    }
    assert(all.take(i as int) =~= all);
    out
}

/// The job that writes the report.
pub open spec fn reporter_job_doc(run_name: Seq<char>, image: Seq<char>, run: IdentityView) -> Doc {
    Doc::object()
        .with("apiVersion"@, Doc::Text("batch/v1"@))
        .with("kind"@, Doc::Text("Job"@))
        .with(
            "metadata"@,
            Doc::object()
                .with("name"@, Doc::Text(part_name(run_name, "reporter"@)))
                .with("namespace"@, docs::opt_text_doc(run.namespace))
                .with(
                    "ownerReferences"@,
                    Doc::array()
                        .item(owner_doc(run)),
                )
                .with("labels"@, labels_doc(run_name, "reporter"@)),
        )
        .with(
            "spec"@,
            Doc::object()
                .with("backoffLimit"@, Doc::Uint(2))
                .with("ttlSecondsAfterFinished"@, Doc::Uint(600))
                .with(
                    "template"@,
                    Doc::object()
                        .with(
                            "metadata"@,
                            Doc::object()
                                .with("labels"@, labels_doc(run_name, "reporter"@)),
                        )
                        .with(
                            "spec"@,
                            Doc::object()
                                .with("restartPolicy"@, Doc::Text("OnFailure"@))
                                .with(
                                    "containers"@,
                                    Doc::array()
                                        .item(
                                            Doc::object()
                                                .with("name"@, Doc::Text("reporter"@))
                                                .with("image"@, Doc::Text(image))
                                                .with("imagePullPolicy"@, Doc::Text("IfNotPresent"@))
                                                .with(
                                                    "command"@,
                                                    Doc::array()
                                                        .item(Doc::Text("incidentbench-reporter"@))
                                                        .item(Doc::Text("--input"@))
                                                        .item(Doc::Text("/results"@))
                                                        .item(Doc::Text("--output"@))
                                                        .item(Doc::Text("/results"@)),
                                                )
                                                .with(
                                                    "volumeMounts"@,
                                                    Doc::array()
                                                        .item(mount_doc("results"@, "/results"@)),
                                                ),
                                        ),
                                )
                                .with(
                                    "volumes"@,
                                    Doc::array()
                                        .item(results_volume_doc(run_name)),
                                ),
                        ),
                ),
        )
}

/// The job that writes the report.
pub fn build_reporter_job(run_name: &str, images: &Option<ImageSpec>, run: &RunIdentity) -> (r: Json)
    ensures
        r.doc() == reporter_job_doc(run_name@, reporter_image(*images), run@),
{
    let image = reporter_image_of(images);
    Json::object()
        .with("apiVersion", Json::text("batch/v1"))
        .with("kind", Json::text("Job"))
        .with(
            "metadata",
            Json::object()
                .with("name", Json::Text(part_name_of(run_name, "reporter")))
                .with("namespace", Json::opt_text(&run.namespace))
                .with(
                    "ownerReferences",
                    Json::array()
                        .item(owner_reference(run)),
                )
                .with("labels", standard_labels(run_name, "reporter")),
        )
        .with(
            "spec",
            Json::object()
                .with("backoffLimit", Json::Uint(2))
                .with("ttlSecondsAfterFinished", Json::Uint(600))
                .with(
                    "template",
                    Json::object()
                        .with(
                            "metadata",
                            Json::object()
                                .with("labels", standard_labels(run_name, "reporter")),
                        )
                        .with(
                            "spec",
                            Json::object()
                                .with("restartPolicy", Json::text("OnFailure"))
                                .with(
                                    "containers",
                                    Json::array()
                                        .item(
                                            Json::object()
                                                .with("name", Json::text("reporter"))
                                                .with("image", Json::text(image))
                                                .with("imagePullPolicy", Json::text("IfNotPresent"))
                                                .with(
                                                    "command",
                                                    Json::array()
                                                        .item(Json::text("incidentbench-reporter"))
                                                        .item(Json::text("--input"))
                                                        .item(Json::text("/results"))
                                                        .item(Json::text("--output"))
                                                        .item(Json::text("/results")),
                                                )
                                                .with(
                                                    "volumeMounts",
                                                    Json::array()
                                                        .item(mount("results", "/results")),
                                                ),
                                        ),
                                )
                                .with(
                                    "volumes",
                                    Json::array()
                                        .item(results_volume(run_name)),
                                ),
                        ),
                ),
        )
}

} // verus!
