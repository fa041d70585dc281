//! What the resources of a run do for it: as many workers are started as are waited for, every
//! container finds its configuration, and every service reaches its pods.
use vstd::prelude::*;
use vstd::string::*;
use crate::configmaps;
use crate::configmaps::{BodyView, CommonView, ConfigMapView};
use crate::crd::{QueryGroupSpec, WorkerSpec};
use crate::json;
use crate::json::Doc;
use crate::lifecycle;
use crate::model;
use crate::plan;
use crate::rates;
use crate::resources;
use crate::resources::IdentityView;
use crate::scenario::{ScenarioView, StreamView};
use crate::text;

verus! {

// ---------------------------------------------------------------------------
// Looking into resources
// ---------------------------------------------------------------------------

/// A member of an object, nothing where there is none.
pub open spec fn member(d: Doc, key: Seq<char>) -> Doc {
    match d.get(key) {
        Some(x) => x,
        None => Doc::Null,
    }
}

/// An item of an array, nothing where there is none.
pub open spec fn nth(d: Doc, i: int) -> Doc {
    match d {
        Doc::Array(v) => if 0 <= i < v.len() {
            v[i]
        } else {
            Doc::Null
        },
        _ => Doc::Null,
    }
}

/// The name of a resource.
pub open spec fn name_of(d: Doc) -> Doc {
    member(member(d, "metadata"@), "name"@)
}

/// How many pods a deployment has.
pub open spec fn replicas(d: Doc) -> Doc {
    member(member(d, "spec"@), "replicas"@)
}

/// The same as a number.
pub open spec fn pods_of(d: Doc) -> int {
    match replicas(d) {
        Doc::Uint(n) => n as int,
        _ => 0,
    }
}

/// How many pods some deployments have together.
pub open spec fn pods_of_all(d: Seq<Doc>) -> int
    decreases d.len(),
{
    if d.len() == 0 {
        0
    } else {
        pods_of_all(d.drop_last()) + pods_of(d.last())
    }
}

/// What a deployment's or a job's pods are made from.
pub open spec fn pod(d: Doc) -> Doc {
    member(member(d, "spec"@), "template"@)
}

pub open spec fn pod_labels(d: Doc) -> Doc {
    member(member(pod(d), "metadata"@), "labels"@)
}

pub open spec fn container(d: Doc) -> Doc {
    nth(member(member(pod(d), "spec"@), "containers"@), 0)
}

/// A volume of the pods.
pub open spec fn volume(d: Doc, i: int) -> Doc {
    nth(member(member(pod(d), "spec"@), "volumes"@), i)
}

/// A volume in the container.
pub open spec fn mounted(d: Doc, i: int) -> Doc {
    nth(member(container(d), "volumeMounts"@), i)
}

/// A word of the container's command.
pub open spec fn word(d: Doc, i: int) -> Doc {
    nth(member(container(d), "command"@), i)
}

/// Everything that a selector asks for stands in the labels.
pub open spec fn selects(selector: Doc, labels: Doc) -> bool {
    &&& selector is Object
    &&& forall|k: Seq<char>|
        (#[trigger] selector.get(k)) is Some ==> labels.get(k) == selector.get(k)
}

/// A deployment of a worker: its name, how many pods it has, their image, what they run, and
/// that it counts as its own those pods that it makes.
pub open spec fn deploys(
    d: Doc,
    name: Seq<char>,
    n: int,
    image: Seq<char>,
    role: Seq<char>,
) -> bool {
    &&& member(d, "kind"@) == Doc::Text("Deployment"@)
    &&& name_of(d) == Doc::Text(name)
    &&& replicas(d) == Doc::Uint(n as nat)
    &&& member(container(d), "image"@) == Doc::Text(image)
    &&& word(d, 0) == Doc::Text("incidentbench-worker"@)
    &&& word(d, 1) == Doc::Text(role)
    &&& word(d, 2) == Doc::Text("--config"@)
    &&& selects(member(member(member(d, "spec"@), "selector"@), "matchLabels"@), pod_labels(d))
}

/// The container finds the one entry of the ConfigMap where its command looks for it.
pub open spec fn configured_by(d: Doc, map: ConfigMapView) -> bool {
    &&& member(mounted(d, 0), "name"@) == member(volume(d, 0), "name"@)
    &&& member(member(volume(d, 0), "configMap"@), "name"@) == Doc::Text(map.name)
    &&& map.data.len() == 1
    &&& member(mounted(d, 0), "mountPath"@) matches Doc::Text(dir) && word(d, 3) == Doc::Text(
        dir + "/"@ + map.data[0].0,
    )
}

/// The container is asked whether it lives and is ready on the port that it keeps for that.
pub open spec fn is_probed(d: Doc, i: int) -> bool {
    let health = nth(member(container(d), "ports"@), i);
    let alive = member(member(container(d), "livenessProbe"@), "httpGet"@);
    let ready = member(member(container(d), "readinessProbe"@), "httpGet"@);
    &&& member(health, "name"@) == Doc::Text("health"@)
    &&& member(alive, "port"@) == member(health, "containerPort"@)
    &&& member(ready, "port"@) == member(health, "containerPort"@)
    &&& member(alive, "path"@) == Doc::Text("/healthz"@)
    &&& member(ready, "path"@) == Doc::Text("/healthz"@)
}

proof fn resource_keys()
    ensures
        "apiVersion"@ != "kind"@,
        "apiVersion"@ != "metadata"@,
        "kind"@ != "metadata"@,
        "apiVersion"@ != "spec"@,
        "kind"@ != "spec"@,
        "metadata"@ != "spec"@,
        "name"@ != "namespace"@,
        "name"@ != "ownerReferences"@,
        "namespace"@ != "ownerReferences"@,
        "name"@ != "labels"@,
        "namespace"@ != "labels"@,
        "ownerReferences"@ != "labels"@,
        "replicas"@ != "selector"@,
        "replicas"@ != "template"@,
        "selector"@ != "template"@,
        "backoffLimit"@ != "ttlSecondsAfterFinished"@,
        "backoffLimit"@ != "template"@,
        "ttlSecondsAfterFinished"@ != "template"@,
{
    reveal_strlit("apiVersion");
    reveal_strlit("kind");
    reveal_strlit("metadata");
    reveal_strlit("spec");
    reveal_strlit("name");
    reveal_strlit("namespace");
    reveal_strlit("ownerReferences");
    reveal_strlit("labels");
    reveal_strlit("replicas");
    reveal_strlit("selector");
    reveal_strlit("template");
    reveal_strlit("backoffLimit");
    reveal_strlit("ttlSecondsAfterFinished");
    assert("apiVersion"@.len() != "kind"@.len());
    assert("apiVersion"@.len() != "metadata"@.len());
    assert("kind"@.len() != "metadata"@.len());
    assert("apiVersion"@.len() != "spec"@.len());
    assert("kind"@[0] != "spec"@[0]);
    assert("metadata"@.len() != "spec"@.len());
    assert("name"@.len() != "namespace"@.len());
    assert("name"@.len() != "ownerReferences"@.len());
    assert("namespace"@.len() != "ownerReferences"@.len());
    assert("name"@.len() != "labels"@.len());
    assert("namespace"@.len() != "labels"@.len());
    assert("ownerReferences"@.len() != "labels"@.len());
    assert("replicas"@[0] != "selector"@[0]);
    assert("replicas"@[0] != "template"@[0]);
    assert("selector"@[0] != "template"@[0]);
    assert("backoffLimit"@.len() != "ttlSecondsAfterFinished"@.len());
    assert("backoffLimit"@.len() != "template"@.len());
    assert("ttlSecondsAfterFinished"@.len() != "template"@.len());
}

proof fn pod_keys()
    ensures
        "containers"@ != "initContainers"@,
        "containers"@ != "volumes"@,
        "initContainers"@ != "volumes"@,
        "restartPolicy"@ != "containers"@,
        "restartPolicy"@ != "volumes"@,
        "name"@ != "image"@,
        "name"@ != "imagePullPolicy"@,
        "image"@ != "imagePullPolicy"@,
        "name"@ != "command"@,
        "image"@ != "command"@,
        "imagePullPolicy"@ != "command"@,
        "name"@ != "env"@,
        "image"@ != "env"@,
        "imagePullPolicy"@ != "env"@,
        "command"@ != "env"@,
        "name"@ != "ports"@,
        "image"@ != "ports"@,
        "imagePullPolicy"@ != "ports"@,
        "command"@ != "ports"@,
        "env"@ != "ports"@,
        "name"@ != "livenessProbe"@,
        "image"@ != "livenessProbe"@,
        "imagePullPolicy"@ != "livenessProbe"@,
        "command"@ != "livenessProbe"@,
        "env"@ != "livenessProbe"@,
        "ports"@ != "livenessProbe"@,
        "name"@ != "readinessProbe"@,
        "image"@ != "readinessProbe"@,
        "imagePullPolicy"@ != "readinessProbe"@,
        "command"@ != "readinessProbe"@,
        "env"@ != "readinessProbe"@,
        "ports"@ != "readinessProbe"@,
        "livenessProbe"@ != "readinessProbe"@,
        "name"@ != "volumeMounts"@,
        "image"@ != "volumeMounts"@,
        "imagePullPolicy"@ != "volumeMounts"@,
        "command"@ != "volumeMounts"@,
        "env"@ != "volumeMounts"@,
        "ports"@ != "volumeMounts"@,
        "livenessProbe"@ != "volumeMounts"@,
        "readinessProbe"@ != "volumeMounts"@,
        "name"@ != "resources"@,
        "image"@ != "resources"@,
        "imagePullPolicy"@ != "resources"@,
        "command"@ != "resources"@,
        "env"@ != "resources"@,
        "ports"@ != "resources"@,
        "livenessProbe"@ != "resources"@,
        "readinessProbe"@ != "resources"@,
        "volumeMounts"@ != "resources"@,
{
    reveal_strlit("containers");
    reveal_strlit("initContainers");
    reveal_strlit("volumes");
    reveal_strlit("restartPolicy");
    reveal_strlit("name");
    reveal_strlit("image");
    reveal_strlit("imagePullPolicy");
    reveal_strlit("command");
    reveal_strlit("env");
    reveal_strlit("ports");
    reveal_strlit("livenessProbe");
    reveal_strlit("readinessProbe");
    reveal_strlit("volumeMounts");
    reveal_strlit("resources");
    assert("containers"@.len() != "initContainers"@.len());
    assert("containers"@.len() != "volumes"@.len());
    assert("initContainers"@.len() != "volumes"@.len());
    assert("restartPolicy"@.len() != "containers"@.len());
    assert("restartPolicy"@.len() != "volumes"@.len());
    assert("name"@.len() != "image"@.len());
    assert("name"@.len() != "imagePullPolicy"@.len());
    assert("image"@.len() != "imagePullPolicy"@.len());
    assert("name"@.len() != "command"@.len());
    assert("image"@.len() != "command"@.len());
    assert("imagePullPolicy"@.len() != "command"@.len());
    assert("name"@.len() != "env"@.len());
    assert("image"@.len() != "env"@.len());
    assert("imagePullPolicy"@.len() != "env"@.len());
    assert("command"@.len() != "env"@.len());
    assert("name"@.len() != "ports"@.len());
    assert("image"@[0] != "ports"@[0]);
    assert("imagePullPolicy"@.len() != "ports"@.len());
    assert("command"@.len() != "ports"@.len());
    assert("env"@.len() != "ports"@.len());
    assert("name"@.len() != "livenessProbe"@.len());
    assert("image"@.len() != "livenessProbe"@.len());
    assert("imagePullPolicy"@.len() != "livenessProbe"@.len());
    assert("command"@.len() != "livenessProbe"@.len());
    assert("env"@.len() != "livenessProbe"@.len());
    assert("ports"@.len() != "livenessProbe"@.len());
    assert("name"@.len() != "readinessProbe"@.len());
    assert("image"@.len() != "readinessProbe"@.len());
    assert("imagePullPolicy"@.len() != "readinessProbe"@.len());
    assert("command"@.len() != "readinessProbe"@.len());
    assert("env"@.len() != "readinessProbe"@.len());
    assert("ports"@.len() != "readinessProbe"@.len());
    assert("livenessProbe"@.len() != "readinessProbe"@.len());
    assert("name"@.len() != "volumeMounts"@.len());
    assert("image"@.len() != "volumeMounts"@.len());
    assert("imagePullPolicy"@.len() != "volumeMounts"@.len());
    assert("command"@.len() != "volumeMounts"@.len());
    assert("env"@.len() != "volumeMounts"@.len());
    assert("ports"@.len() != "volumeMounts"@.len());
    assert("livenessProbe"@.len() != "volumeMounts"@.len());
    assert("readinessProbe"@.len() != "volumeMounts"@.len());
    assert("name"@.len() != "resources"@.len());
    assert("image"@.len() != "resources"@.len());
    assert("imagePullPolicy"@.len() != "resources"@.len());
    assert("command"@.len() != "resources"@.len());
    assert("env"@.len() != "resources"@.len());
    assert("ports"@.len() != "resources"@.len());
    assert("livenessProbe"@.len() != "resources"@.len());
    assert("readinessProbe"@.len() != "resources"@.len());
    assert("volumeMounts"@.len() != "resources"@.len());
}

proof fn label_keys()
    ensures
        "app.kubernetes.io/name"@ != "app.kubernetes.io/instance"@,
        "app.kubernetes.io/name"@ != "app.kubernetes.io/component"@,
        "app.kubernetes.io/instance"@ != "app.kubernetes.io/component"@,
        "app.kubernetes.io/name"@ != "app.kubernetes.io/managed-by"@,
        "app.kubernetes.io/instance"@ != "app.kubernetes.io/managed-by"@,
        "app.kubernetes.io/component"@ != "app.kubernetes.io/managed-by"@,
        "app.kubernetes.io/name"@ != "incidentbench.io/data-stream"@,
        "app.kubernetes.io/instance"@ != "incidentbench.io/data-stream"@,
        "app.kubernetes.io/component"@ != "incidentbench.io/data-stream"@,
        "app.kubernetes.io/managed-by"@ != "incidentbench.io/data-stream"@,
        "app.kubernetes.io/name"@ != "incidentbench.io/query-group"@,
        "app.kubernetes.io/instance"@ != "incidentbench.io/query-group"@,
        "app.kubernetes.io/component"@ != "incidentbench.io/query-group"@,
        "app.kubernetes.io/managed-by"@ != "incidentbench.io/query-group"@,
{
    reveal_strlit("app.kubernetes.io/name");
    reveal_strlit("app.kubernetes.io/instance");
    reveal_strlit("app.kubernetes.io/component");
    reveal_strlit("app.kubernetes.io/managed-by");
    reveal_strlit("incidentbench.io/data-stream");
    reveal_strlit("incidentbench.io/query-group");
    assert("app.kubernetes.io/name"@.len() != "app.kubernetes.io/instance"@.len());
    assert("app.kubernetes.io/name"@.len() != "app.kubernetes.io/component"@.len());
    assert("app.kubernetes.io/instance"@.len() != "app.kubernetes.io/component"@.len());
    assert("app.kubernetes.io/name"@.len() != "app.kubernetes.io/managed-by"@.len());
    assert("app.kubernetes.io/instance"@.len() != "app.kubernetes.io/managed-by"@.len());
    assert("app.kubernetes.io/component"@.len() != "app.kubernetes.io/managed-by"@.len());
    assert("app.kubernetes.io/name"@.len() != "incidentbench.io/data-stream"@.len());
    assert("app.kubernetes.io/instance"@.len() != "incidentbench.io/data-stream"@.len());
    assert("app.kubernetes.io/component"@.len() != "incidentbench.io/data-stream"@.len());
    assert("app.kubernetes.io/managed-by"@[0] != "incidentbench.io/data-stream"@[0]);
    assert("app.kubernetes.io/name"@.len() != "incidentbench.io/query-group"@.len());
    assert("app.kubernetes.io/instance"@.len() != "incidentbench.io/query-group"@.len());
    assert("app.kubernetes.io/component"@.len() != "incidentbench.io/query-group"@.len());
    assert("app.kubernetes.io/managed-by"@[0] != "incidentbench.io/query-group"@[0]);
}

proof fn small_keys()
    ensures
        "selector"@ != "ports"@,
        "name"@ != "port"@,
        "name"@ != "targetPort"@,
        "port"@ != "targetPort"@,
        "containerPort"@ != "name"@,
        "path"@ != "port"@,
        "name"@ != "configMap"@,
        "name"@ != "persistentVolumeClaim"@,
        "name"@ != "mountPath"@,
{
    reveal_strlit("selector");
    reveal_strlit("ports");
    reveal_strlit("name");
    reveal_strlit("port");
    reveal_strlit("targetPort");
    reveal_strlit("containerPort");
    reveal_strlit("path");
    reveal_strlit("configMap");
    reveal_strlit("persistentVolumeClaim");
    reveal_strlit("mountPath");
    assert("selector"@.len() != "ports"@.len());
    assert("name"@[0] != "port"@[0]);
    assert("name"@.len() != "targetPort"@.len());
    assert("port"@.len() != "targetPort"@.len());
    assert("containerPort"@.len() != "name"@.len());
    assert("path"@[1] != "port"@[1]);
    assert("name"@.len() != "configMap"@.len());
    assert("name"@.len() != "persistentVolumeClaim"@.len());
    assert("name"@.len() != "mountPath"@.len());
}

proof fn paths()
    ensures
        "/config/ingest.yaml"@ == "/config"@ + "/"@ + "ingest.yaml"@,
        "/config/query.yaml"@ == "/config"@ + "/"@ + "query.yaml"@,
        "/config/aggregator.yaml"@ == "/config"@ + "/"@ + "aggregator.yaml"@,
        "/config/phase-controller.yaml"@ == "/config"@ + "/"@ + "phase-controller.yaml"@,
        "/config/query-"@ == "/config"@ + "/"@ + "query-"@,
{
    reveal_strlit("/config/ingest.yaml");
    reveal_strlit("/config/query.yaml");
    reveal_strlit("/config/aggregator.yaml");
    reveal_strlit("/config/phase-controller.yaml");
    reveal_strlit("/config/query-");
    reveal_strlit("/config");
    reveal_strlit("/");
    reveal_strlit("ingest.yaml");
    reveal_strlit("query.yaml");
    reveal_strlit("aggregator.yaml");
    reveal_strlit("phase-controller.yaml");
    reveal_strlit("query-");
    assert("/config/ingest.yaml"@ =~= "/config"@ + "/"@ + "ingest.yaml"@);
    assert("/config/query.yaml"@ =~= "/config"@ + "/"@ + "query.yaml"@);
    assert("/config/aggregator.yaml"@ =~= "/config"@ + "/"@ + "aggregator.yaml"@);
    assert("/config/phase-controller.yaml"@ =~= "/config"@ + "/"@ + "phase-controller.yaml"@);
    assert("/config/query-"@ =~= "/config"@ + "/"@ + "query-"@);
}

// ---------------------------------------------------------------------------
// Ingest workers
// ---------------------------------------------------------------------------

proof fn ingest_deployment_is_right(
    c: CommonView,
    s: StreamView,
    s_phases: Seq<crate::scenario::PhaseView>,
    image: Seq<char>,
    needs: Doc,
    run: IdentityView,
)
    ensures
        ({
            let d = resources::ingest_deployment_doc(
                c.run_name,
                s.name,
                s.ingest_replicas,
                image,
                needs,
                run,
            );
            &&& deploys(
                d,
                c.run_name + "-ingest-"@ + s.name,
                s.ingest_replicas as int,
                image,
                "ingest"@,
            )
            &&& configured_by(d, configmaps::ingest_map(c, s, s_phases, run))
            &&& is_probed(d, 0)
            &&& member(container(d), "resources"@) == needs
            &&& member(pod_labels(d), "incidentbench.io/data-stream"@) == Doc::Text(s.name)
        }),
{
    broadcast use json::with_then_get;

    resource_keys();
    pod_keys();
    label_keys();
    small_keys();
    paths();
    names_of_parts(c.run_name, s.name);
}

proof fn names_of_parts(run_name: Seq<char>, sub: Seq<char>)
    ensures
        resources::sub_part_name(run_name, "ingest"@, sub) == run_name + "-ingest-"@ + sub,
        resources::sub_part_name(run_name, "query"@, sub) == run_name + "-query-"@ + sub,
        resources::part_name(run_name, "query"@) == run_name + "-query"@,
        resources::part_name(run_name, "aggregator"@) == run_name + "-aggregator"@,
        resources::part_name(run_name, "phase-controller"@) == run_name + "-phase-controller"@,
        resources::part_name(run_name, "results"@) == run_name + "-results"@,
        resources::part_name(run_name, "reporter"@) == run_name + "-reporter"@,
{
    reveal_strlit("-");
    reveal_strlit("ingest");
    reveal_strlit("-ingest-");
    reveal_strlit("query");
    reveal_strlit("-query-");
    reveal_strlit("-query");
    reveal_strlit("aggregator");
    reveal_strlit("-aggregator");
    reveal_strlit("phase-controller");
    reveal_strlit("-phase-controller");
    reveal_strlit("results");
    reveal_strlit("-results");
    reveal_strlit("reporter");
    reveal_strlit("-reporter");
    assert(resources::sub_part_name(run_name, "ingest"@, sub) =~= run_name + "-ingest-"@ + sub);
    assert(resources::sub_part_name(run_name, "query"@, sub) =~= run_name + "-query-"@ + sub);
    assert(resources::part_name(run_name, "query"@) =~= run_name + "-query"@);
    assert(resources::part_name(run_name, "aggregator"@) =~= run_name + "-aggregator"@);
    assert(resources::part_name(run_name, "phase-controller"@) =~= run_name
        + "-phase-controller"@);
    assert(resources::part_name(run_name, "results"@) =~= run_name + "-results"@);
    assert(resources::part_name(run_name, "reporter"@) =~= run_name + "-reporter"@);
}

/// Every stream has its ingest workers: as many as it asks for, with its own configuration.
pub proof fn every_stream_has_its_workers(
    c: CommonView,
    s: ScenarioView,
    image: Seq<char>,
    needs: Doc,
    run: IdentityView,
    i: int,
)
    requires
        0 <= i < s.stream_list().len(),
    ensures
        ({
            let all = resources::ingest_deployments(
                c.run_name,
                s.stream_list(),
                image,
                needs,
                run,
            );
            let stream = s.stream_list()[i];
            let map = configmaps::ingest_map(c, stream, s.phases, run);
            &&& all.len() == s.stream_list().len()
            &&& deploys(
                all[i],
                c.run_name + "-ingest-"@ + stream.name,
                stream.ingest_replicas as int,
                image,
                "ingest"@,
            )
            &&& configured_by(all[i], map)
            &&& is_probed(all[i], 0)
            &&& member(container(all[i]), "resources"@) == needs
            &&& member(pod_labels(all[i]), "incidentbench.io/data-stream"@) == Doc::Text(
                stream.name,
            )
        }),
{
    ingest_deployment_is_right(c, s.stream_list()[i], s.phases, image, needs, run);
}

// ---------------------------------------------------------------------------
// Query workers
// ---------------------------------------------------------------------------

/// The SQL files are where the query workers look for them, where there are any.
pub open spec fn has_sql(d: Doc, sql: Option<Seq<char>>) -> bool {
    match sql {
        Some(map) => {
            &&& member(mounted(d, 1), "name"@) == member(volume(d, 1), "name"@)
            &&& member(mounted(d, 1), "mountPath"@) == Doc::Text("/queries"@)
            &&& member(member(volume(d, 1), "configMap"@), "name"@) == Doc::Text(map)
        },
        None => mounted(d, 1) == Doc::Null && volume(d, 1) == Doc::Null,
    }
}

/// Query workers without groups: as many as are asked for, with their configuration.
pub proof fn query_workers_are_as_asked_for(
    run_name: Seq<char>,
    replicas: u32,
    image: Seq<char>,
    needs: Doc,
    run: IdentityView,
    sql: Option<Seq<char>>,
    component: Seq<char>,
    body: BodyView,
)
    ensures
        ({
            let d = resources::query_deployment_doc(run_name, replicas, image, needs, run, sql);
            let map = configmaps::config_map(
                run_name + "-query"@,
                run_name,
                component,
                run,
                "query.yaml"@,
                body,
            );
            &&& deploys(d, run_name + "-query"@, replicas as int, image, "query"@)
            &&& configured_by(d, map)
            &&& has_sql(d, sql)
            &&& is_probed(d, 0)
            &&& member(container(d), "resources"@) == needs
        }),
{
    broadcast use json::with_then_get;

    resource_keys();
    pod_keys();
    label_keys();
    small_keys();
    paths();
    names_of_parts(run_name, Seq::empty());
}

proof fn group_deployment_is_right(
    c: CommonView,
    s: ScenarioView,
    g: QueryGroupSpec,
    endpoints: Seq<(Seq<char>, Seq<char>)>,
    image: Seq<char>,
    needs: Doc,
    run: IdentityView,
    sql: Option<Seq<char>>,
)
    ensures
        ({
            let d = resources::group_deployment_doc(
                c.run_name,
                g.name@,
                g.replicas,
                image,
                needs,
                run,
                sql,
            );
            &&& deploys(d, c.run_name + "-query-"@ + g.name@, g.replicas as int, image, "query"@)
            &&& configured_by(d, configmaps::group_map(c, s, g, endpoints, run))
            &&& has_sql(d, sql)
            &&& is_probed(d, 0)
            &&& member(container(d), "resources"@) == needs
            &&& member(pod_labels(d), "incidentbench.io/query-group"@) == Doc::Text(g.name@)
        }),
{
    broadcast use json::with_then_get;

    resource_keys();
    pod_keys();
    label_keys();
    small_keys();
    paths();
    names_of_parts(c.run_name, g.name@);
    assert("/config/query-"@ + g.name@ + ".yaml"@ =~= "/config"@ + "/"@ + ("query-"@ + g.name@
        + ".yaml"@));
}

/// Every group has its query workers: as many as it asks for, with its own configuration.
pub proof fn every_group_has_its_workers(
    c: CommonView,
    s: ScenarioView,
    groups: Seq<QueryGroupSpec>,
    endpoints: Seq<(Seq<char>, Seq<char>)>,
    image: Seq<char>,
    run: IdentityView,
    sql: Option<Seq<char>>,
    i: int,
)
    requires
        0 <= i < groups.len(),
    ensures
        ({
            let all = resources::group_deployments(c.run_name, groups, image, run, sql);
            let g = groups[i];
            &&& all.len() == groups.len()
            &&& deploys(
                all[i],
                c.run_name + "-query-"@ + g.name@,
                g.replicas as int,
                image,
                "query"@,
            )
            &&& configured_by(all[i], configmaps::group_map(c, s, g, endpoints, run))
            &&& has_sql(all[i], sql)
            &&& is_probed(all[i], 0)
            &&& member(pod_labels(all[i]), "incidentbench.io/query-group"@) == Doc::Text(g.name@)
        }),
{
    group_deployment_is_right(
        c,
        s,
        groups[i],
        endpoints,
        image,
        resources::resources_doc(groups[i].resources),
        run,
        sql,
    );
}

// ---------------------------------------------------------------------------
// As many as are waited for
// ---------------------------------------------------------------------------

/// The ingest workers that all streams ask for.
pub open spec fn asked_for(streams: Seq<StreamView>) -> int
    decreases streams.len(),
{
    if streams.len() == 0 {
        0
    } else {
        asked_for(streams.drop_last()) + streams.last().ingest_replicas
    }
}

/// The query workers that all groups ask for.
pub open spec fn asked_for_by_groups(groups: Seq<QueryGroupSpec>) -> int
    decreases groups.len(),
{
    if groups.len() == 0 {
        0
    } else {
        asked_for_by_groups(groups.drop_last()) + groups.last().replicas
    }
}

proof fn replicas_add_up(streams: Seq<StreamView>)
    ensures
        model::sum(rates::replicas_by_stream(streams)) == asked_for(streams),
        asked_for(streams) >= 0,
    decreases streams.len(),
{
    let all = rates::replicas_by_stream(streams);
    if streams.len() > 0 {
        replicas_add_up(streams.drop_last());
        assert(all.drop_last() =~= rates::replicas_by_stream(streams.drop_last()));
    } else {
        assert(all =~= Seq::<int>::empty());
    }
}

proof fn group_replicas_add_up(groups: Seq<QueryGroupSpec>)
    ensures
        model::sum(configmaps::group_replicas(groups)) == asked_for_by_groups(groups),
        asked_for_by_groups(groups) >= 0,
    decreases groups.len(),
{
    let all = configmaps::group_replicas(groups);
    if groups.len() > 0 {
        group_replicas_add_up(groups.drop_last());
        assert(all.drop_last() =~= configmaps::group_replicas(groups.drop_last()));
    } else {
        assert(all =~= Seq::<int>::empty());
    }
}

proof fn ingest_pods_add_up(
    c: CommonView,
    streams: Seq<StreamView>,
    image: Seq<char>,
    needs: Doc,
    run: IdentityView,
)
    ensures
        pods_of_all(resources::ingest_deployments(c.run_name, streams, image, needs, run))
            == asked_for(streams),
    decreases streams.len(),
{
    let all = resources::ingest_deployments(c.run_name, streams, image, needs, run);
    if streams.len() > 0 {
        let front = streams.drop_last();
        ingest_pods_add_up(c, front, image, needs, run);
        assert(all.drop_last() =~= resources::ingest_deployments(
            c.run_name,
            front,
            image,
            needs,
            run,
        ));
        ingest_deployment_is_right(c, streams.last(), Seq::empty(), image, needs, run);
    } else {
        assert(all =~= Seq::<Doc>::empty());
    }
}

proof fn group_pods_add_up(
    c: CommonView,
    s: ScenarioView,
    groups: Seq<QueryGroupSpec>,
    image: Seq<char>,
    run: IdentityView,
    sql: Option<Seq<char>>,
)
    ensures
        pods_of_all(resources::group_deployments(c.run_name, groups, image, run, sql))
            == asked_for_by_groups(groups),
    decreases groups.len(),
{
    let all = resources::group_deployments(c.run_name, groups, image, run, sql);
    if groups.len() > 0 {
        let front = groups.drop_last();
        group_pods_add_up(c, s, front, image, run, sql);
        assert(all.drop_last() =~= resources::group_deployments(
            c.run_name,
            front,
            image,
            run,
            sql,
        ));
        group_deployment_is_right(
            c,
            s,
            groups.last(),
            Seq::empty(),
            image,
            resources::resources_doc(groups.last().resources),
            run,
            sql,
        );
    } else {
        assert(all =~= Seq::<Doc>::empty());
    }
}

/// As many ingest workers are started as the streams ask for; the phase controller is told to
/// expect that many, and the run begins only when that many are ready.
pub proof fn no_ingest_worker_is_waited_for_in_vain(
    c: CommonView,
    s: ScenarioView,
    workers: WorkerSpec,
    image: Seq<char>,
    needs: Doc,
    run: IdentityView,
    ingest_ready: u32,
    query_ready: u32,
    now: Seq<char>,
)
    requires
        asked_for(s.stream_list()) <= u32::MAX,
        configmaps::query_workers(workers) <= u32::MAX,
    ensures
        ({
            let started = pods_of_all(
                resources::ingest_deployments(c.run_name, s.stream_list(), image, needs, run),
            );
            let told = configmaps::phase_controller_doc(
                s.phases,
                s.total_replicas(),
                configmaps::query_workers(workers),
            );
            &&& started == asked_for(s.stream_list())
            &&& member(told, "expected_ingest_workers"@) == Doc::Uint(started as nat)
            &&& ingest_ready < started ==> lifecycle::initialized(
                s,
                workers,
                ingest_ready,
                query_ready,
                now,
            ) is None
        }),
{
    broadcast use json::with_then_get;

    replicas_add_up(s.stream_list());
    ingest_pods_add_up(c, s.stream_list(), image, needs, run);
    lifecycle::runs_wait_for_their_workers(s, workers, ingest_ready, query_ready, now);
}

/// As many query workers are started as are asked for, by the groups where there are groups;
/// the phase controller is told to expect that many, and the run begins only when that many
/// are ready.
pub proof fn no_query_worker_is_waited_for_in_vain(
    c: CommonView,
    s: ScenarioView,
    workers: WorkerSpec,
    image: Seq<char>,
    run: IdentityView,
    sql: Option<Seq<char>>,
    ingest_ready: u32,
    query_ready: u32,
    now: Seq<char>,
)
    requires
        s.total_replicas() <= u32::MAX,
        workers.query_groups matches Some(groups) ==> asked_for_by_groups(groups@) <= u32::MAX,
    ensures
        ({
            let all = plan::query_deployments(c.run_name, workers, image, run, sql);
            let started = pods_of_all(all.map_values(|e: (Seq<char>, Doc)| e.1));
            let told = configmaps::phase_controller_doc(
                s.phases,
                s.total_replicas(),
                configmaps::query_workers(workers),
            );
            &&& started == match workers.query_groups {
                Some(groups) => asked_for_by_groups(groups@),
                None => workers.query.replicas as int,
            }
            &&& member(told, "expected_query_workers"@) == Doc::Uint(started as nat)
            &&& query_ready < started ==> lifecycle::initialized(
                s,
                workers,
                ingest_ready,
                query_ready,
                now,
            ) is None
        }),
{
    broadcast use json::with_then_get;

    reveal_strlit("expected_ingest_workers");
    reveal_strlit("expected_query_workers");
    assert("expected_ingest_workers"@.len() != "expected_query_workers"@.len());
    let all = plan::query_deployments(c.run_name, workers, image, run, sql);
    let docs = all.map_values(|e: (Seq<char>, Doc)| e.1);
    match workers.query_groups {
        Some(groups) => {
            assert(docs =~= resources::group_deployments(c.run_name, groups@, image, run, sql));
            group_pods_add_up(c, s, groups@, image, run, sql);
            group_replicas_add_up(groups@);
        },
        None => {
            query_workers_are_as_asked_for(
                c.run_name,
                workers.query.replicas,
                image,
                resources::resources_doc(workers.query.resources),
                run,
                sql,
                "query"@,
                BodyView::Scenario,
            );
            assert(docs.drop_last() =~= Seq::<Doc>::empty());
            assert(pods_of_all(docs.drop_last()) == 0);
        },
    }
    model::sum_nonneg(rates::replicas_by_stream(s.stream_list()));
    lifecycle::runs_wait_for_their_workers(s, workers, ingest_ready, query_ready, now);
}

// ---------------------------------------------------------------------------
// Aggregator and phase controller
// ---------------------------------------------------------------------------

/// A service leads to the pods of a deployment, on the port on which their container listens.
pub open spec fn reaches(service: Doc, d: Doc, port: nat) -> bool {
    let door = nth(member(member(service, "spec"@), "ports"@), 0);
    &&& member(service, "kind"@) == Doc::Text("Service"@)
    &&& selects(member(member(service, "spec"@), "selector"@), pod_labels(d))
    &&& member(member(member(service, "spec"@), "selector"@), "app.kubernetes.io/component"@)
        is Text
    &&& member(door, "port"@) == Doc::Uint(port)
    &&& member(door, "targetPort"@) == member(
        nth(member(container(d), "ports"@), 0),
        "containerPort"@,
    )
}

/// The aggregator of a run is one pod with its configuration, and its service reaches it under
/// the address that the workers are told.
pub proof fn the_aggregator_is_reached(
    run_name: Seq<char>,
    image: Seq<char>,
    run: IdentityView,
    component: Seq<char>,
    body: BodyView,
)
    ensures
        ({
            let d = resources::aggregator_deployment_doc(run_name, image, run);
            let service = resources::aggregator_service_doc(run_name, run);
            let map = configmaps::config_map(
                run_name + "-aggregator"@,
                run_name,
                component,
                run,
                "aggregator.yaml"@,
                body,
            );
            &&& deploys(d, run_name + "-aggregator"@, 1, image, "aggregator"@)
            &&& configured_by(d, map)
            &&& is_probed(d, 1)
            &&& reaches(service, d, 50052)
            &&& name_of(service) == Doc::Text(run_name + "-aggregator"@)
            &&& configmaps::aggregator_addr(run_name, run.namespace_or_default()) == run_name
                + "-aggregator"@ + "."@ + run.namespace_or_default() + ".svc:"@ + text::decimal(
                50052,
            )
        }),
{
    broadcast use json::with_then_get;

    resource_keys();
    pod_keys();
    label_keys();
    small_keys();
    paths();
    names_of_parts(run_name, Seq::empty());
    ports_in_decimal();
    let ns = run.namespace_or_default();
    reveal_strlit("-aggregator.");
    reveal_strlit("-aggregator");
    reveal_strlit(".");
    reveal_strlit(".svc:");
    reveal_strlit(".svc:50052");
    reveal_strlit("50052");
    assert(configmaps::aggregator_addr(run_name, ns) =~= run_name + "-aggregator"@ + "."@ + ns
        + ".svc:"@ + "50052"@);
}

proof fn ports_in_decimal()
    ensures
        text::decimal(50051) == "50051"@,
        text::decimal(50052) == "50052"@,
{
    reveal_strlit("50051");
    reveal_strlit("50052");
    reveal_with_fuel(text::decimal, 6);
    assert(text::decimal(50051) =~= "50051"@);
    assert(text::decimal(50052) =~= "50052"@);
}

/// The phase controller of a run is one pod with its configuration, and its service reaches it
/// under the address that the workers are told.
pub proof fn the_phase_controller_is_reached(
    run_name: Seq<char>,
    image: Seq<char>,
    run: IdentityView,
    component: Seq<char>,
    body: BodyView,
)
    ensures
        ({
            let d = resources::phase_controller_deployment_doc(run_name, image, run);
            let service = resources::phase_controller_service_doc(run_name, run);
            let map = configmaps::config_map(
                run_name + "-phase-controller"@,
                run_name,
                component,
                run,
                "phase-controller.yaml"@,
                body,
            );
            &&& deploys(d, run_name + "-phase-controller"@, 1, image, "phase-controller"@)
            &&& configured_by(d, map)
            &&& is_probed(d, 1)
            &&& reaches(service, d, 50051)
            &&& name_of(service) == Doc::Text(run_name + "-phase-controller"@)
            &&& configmaps::phase_controller_addr(run_name, run.namespace_or_default()) == run_name
                + "-phase-controller"@ + "."@ + run.namespace_or_default() + ".svc:"@
                + text::decimal(50051)
        }),
{
    broadcast use json::with_then_get;

    resource_keys();
    pod_keys();
    label_keys();
    small_keys();
    paths();
    names_of_parts(run_name, Seq::empty());
    ports_in_decimal();
    let ns = run.namespace_or_default();
    reveal_strlit("-phase-controller.");
    reveal_strlit("-phase-controller");
    reveal_strlit(".");
    reveal_strlit(".svc:");
    reveal_strlit(".svc:50051");
    reveal_strlit("50051");
    assert(configmaps::phase_controller_addr(run_name, ns) =~= run_name + "-phase-controller"@
        + "."@ + ns + ".svc:"@ + "50051"@);
}

/// The aggregator and the reporter share the volume that is claimed for the results, the
/// reporter reads and writes where it is mounted, and the claim outlives the run: nothing owns
/// it.
pub proof fn results_are_shared(
    run_name: Seq<char>,
    image: Seq<char>,
    reporter: Seq<char>,
    run: IdentityView,
)
    ensures
        ({
            let claim = resources::results_pvc_doc(run_name, run);
            let d = resources::aggregator_deployment_doc(run_name, image, run);
            let job = resources::reporter_job_doc(run_name, reporter, run);
            &&& name_of(claim) == Doc::Text(run_name + "-results"@)
            &&& member(claim, "metadata"@).get("ownerReferences"@) is None
            &&& member(member(volume(d, 1), "persistentVolumeClaim"@), "claimName"@) == name_of(
                claim,
            )
            &&& member(mounted(d, 1), "name"@) == member(volume(d, 1), "name"@)
            &&& member(mounted(d, 1), "mountPath"@) == Doc::Text("/results"@)
            &&& member(job, "kind"@) == Doc::Text("Job"@)
            &&& name_of(job) == Doc::Text(run_name + "-reporter"@)
            &&& member(container(job), "image"@) == Doc::Text(reporter)
            &&& member(member(volume(job, 0), "persistentVolumeClaim"@), "claimName"@) == name_of(
                claim,
            )
            &&& member(mounted(job, 0), "name"@) == member(volume(job, 0), "name"@)
            &&& word(job, 0) == Doc::Text("incidentbench-reporter"@)
            &&& word(job, 1) == Doc::Text("--input"@)
            &&& word(job, 2) == member(mounted(job, 0), "mountPath"@)
            &&& word(job, 3) == Doc::Text("--output"@)
            &&& word(job, 4) == member(mounted(job, 0), "mountPath"@)
        }),
{
    broadcast use json::with_then_get;

    resource_keys();
    pod_keys();
    label_keys();
    small_keys();
    names_of_parts(run_name, Seq::empty());
}

} // verus!
