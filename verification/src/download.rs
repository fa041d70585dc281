//! Fetching the report of a run: the pod that reads the results, the files that are copied,
//! and what is said.
use vstd::prelude::*;
use vstd::string::*;
use crate::crd::LifecyclePhase;
use crate::json::{Doc, Json};
use crate::model;
use crate::text;

verus! {

/// What fetching a report takes.
pub struct Download {
    pub claim_name: String,
    pub pod_name: String,
    /// The pod that mounts the results.
    pub manifest: Json,
    /// From where to where each file is copied, and its name.
    pub copies: Vec<Copying>,
}

/// A file that is copied.
pub struct Copying {
    pub file: String,
    pub from: String,
    pub to: String,
}

pub struct CopyingView {
    pub file: Seq<char>,
    pub from: Seq<char>,
    pub to: Seq<char>,
}

impl View for Copying {
    type V = CopyingView;

    open spec fn view(&self) -> CopyingView {
        CopyingView { file: self.file@, from: self.from@, to: self.to@ }
    }
}

/// The files of a report.
pub open spec fn files() -> Seq<Seq<char>> {
    seq![
        "report.html"@,
        "run.json"@,
        "timeseries.csv"@,
        "timed_out_queries.json"@,
        "per_query_latency.json"@,
        "per_query_timeseries.json"@,
        "per_category_latency.json"@,
    ]
}

/// The files that are written anew from the raw measurements.
pub open spec fn regenerated_files() -> Seq<Seq<char>> {
    seq![
        "report.html"@,
        "run.json"@,
        "timed_out_queries.json"@,
        "per_query_latency.json"@,
        "per_query_timeseries.json"@,
        "per_category_latency.json"@,
    ]
}

/// The pod that mounts the results.
pub open spec fn pod_doc(pod: Seq<char>, claim: Seq<char>, namespace: Seq<char>) -> Doc {
    Doc::object().with("apiVersion"@, Doc::Text("v1"@)).with("kind"@, Doc::Text("Pod"@)).with(
        "metadata"@,
        Doc::object().with("name"@, Doc::Text(pod)).with("namespace"@, Doc::Text(namespace)),
    ).with(
        "spec"@,
        Doc::object().with("restartPolicy"@, Doc::Text("Never"@)).with(
            "containers"@,
            Doc::array().item(
                Doc::object().with("name"@, Doc::Text("report-reader"@)).with(
                    "image"@,
                    Doc::Text("busybox:1.36"@),
                ).with(
                    "command"@,
                    Doc::array().item(Doc::Text("sleep"@)).item(Doc::Text("120"@)),
                ).with(
                    "volumeMounts"@,
                    Doc::array().item(
                        Doc::object().with("name"@, Doc::Text("results"@)).with(
                            "mountPath"@,
                            Doc::Text("/results"@),
                        ),
                    ),
                ),
            ),
        ).with(
            "volumes"@,
            Doc::array().item(
                Doc::object().with("name"@, Doc::Text("results"@)).with(
                    "persistentVolumeClaim"@,
                    Doc::object().with("claimName"@, Doc::Text(claim)),
                ),
            ),
        ),
    )
}

/// How a file is copied.
pub open spec fn copying(
    file: Seq<char>,
    pod: Seq<char>,
    namespace: Seq<char>,
    output: Seq<char>,
) -> CopyingView {
    CopyingView {
        file,
        from: namespace + "/"@ + pod + ":/results/"@ + file,
        to: output + "/"@ + file,
    }
}

fn pod_json(pod: &str, claim: &str, namespace: &str) -> (r: Json)
    ensures
        r.doc() == pod_doc(pod@, claim@, namespace@),
{
    Json::object().with("apiVersion", Json::text("v1")).with("kind", Json::text("Pod")).with(
        "metadata",
        Json::object().with("name", Json::text(pod)).with("namespace", Json::text(namespace)),
    ).with(
        "spec",
        Json::object().with("restartPolicy", Json::text("Never")).with(
            "containers",
            Json::array().item(
                Json::object().with("name", Json::text("report-reader")).with(
                    "image",
                    Json::text("busybox:1.36"),
                ).with(
                    "command",
                    Json::array().item(Json::text("sleep")).item(Json::text("120")),
                ).with(
                    "volumeMounts",
                    Json::array().item(
                        Json::object().with("name", Json::text("results")).with(
                            "mountPath",
                            Json::text("/results"),
                        ),
                    ),
                ),
            ),
        ).with(
            "volumes",
            Json::array().item(
                Json::object().with("name", Json::text("results")).with(
                    "persistentVolumeClaim",
                    Json::object().with("claimName", Json::text(claim)),
                ),
            ),
        ),
    )
}

fn file_names() -> (r: Vec<String>)
    ensures
        text::views(r@) == files(),
{
    let mut out: Vec<String> = Vec::new();
    out.push(text::owned("report.html"));
    out.push(text::owned("run.json"));
    out.push(text::owned("timeseries.csv"));
    out.push(text::owned("timed_out_queries.json"));
    out.push(text::owned("per_query_latency.json"));
    out.push(text::owned("per_query_timeseries.json"));
    out.push(text::owned("per_category_latency.json"));
    assert(text::views(out@) =~= files());
    out
}

/// What fetching the report of a run takes; only a completed run has one.
pub fn plan_download(run_name: &str, namespace: &str, output: &str, phase: LifecyclePhase) -> (r:
    Result<Download, String>)
    ensures
        match r {
            Ok(d) => {
                &&& phase is Completed
                &&& d.claim_name@ == run_name@ + "-results"@
                &&& d.pod_name@ == run_name@ + "-report-dl"@
                &&& d.manifest.doc() == pod_doc(d.pod_name@, d.claim_name@, namespace@)
                &&& model::vmap(d.copies@) == files().map_values(
                    |f: Seq<char>| copying(f, run_name@ + "-report-dl"@, namespace@, output@),
                )
            },
            Err(m) => !(phase is Completed) && m@ == "Run is not Completed yet (current phase: "@
                + phase.label() + ")"@,
        },
{
    match phase {
        LifecyclePhase::Completed => {},
        _ => {
            return Err(
                text::join3("Run is not Completed yet (current phase: ", phase.name(), ")"),
            );
        },
    }
    let claim_name = text::join2(run_name, "-results");
    let pod_name = text::join2(run_name, "-report-dl");
    let manifest = pod_json(pod_name.as_str(), claim_name.as_str(), namespace);
    let names = file_names();
    let ghost pod = run_name@ + "-report-dl"@;
    let ghost all = files().map_values(|f: Seq<char>| copying(f, pod, namespace@, output@));
    let mut copies: Vec<Copying> = Vec::new();
    let mut i: usize = 0;
    assert(model::vmap(copies@) =~= all.take(0));
    while i < names.len()
        invariant
            i <= names@.len(),
            text::views(names@) == files(),
            pod_name@ == pod,
            all == files().map_values(|f: Seq<char>| copying(f, pod, namespace@, output@)),
            model::vmap(copies@) == all.take(i as int),
        decreases names@.len() - i,
    {
        broadcast use model::vmap_push, model::take_push;

        assert(text::views(names@)[i as int] == names@[i as int]@);
        let file = names[i].as_str();
        let item = Copying {
            file: text::owned(file),
            from: text::join5(namespace, "/", pod_name.as_str(), ":/results/", file),
            to: text::join3(output, "/", file),
        };
        assert(item@ == all[i as int]);
        copies.push(item);
        i += 1;
    }
    assert(all.take(i as int) =~= all);
    Ok(Download { claim_name, pod_name, manifest, copies })
}

/// What is said of a file that could not be copied.
pub fn missing_file(file: &str) -> (r: String)
    ensures
        r@ == "  Warning: "@ + file@ + " not found in PVC (reporter may have failed)"@,
{
    text::join3("  Warning: ", file, " not found in PVC (reporter may have failed)")
}

/// What is said when the files have been written anew.
pub fn regenerated_lines(output: &str) -> (r: Vec<String>)
    ensures
        text::views(r@) == seq!["Reports regenerated successfully."@]
            + regenerated_files().map_values(|f: Seq<char>| "  "@ + output@ + "/"@ + f),
{
    let ghost all = regenerated_files().map_values(|f: Seq<char>| "  "@ + output@ + "/"@ + f);
    let mut out: Vec<String> = Vec::new();
    out.push(text::owned("Reports regenerated successfully."));
    out.push(text::join4("  ", output, "/", "report.html"));
    out.push(text::join4("  ", output, "/", "run.json"));
    out.push(text::join4("  ", output, "/", "timed_out_queries.json"));
    out.push(text::join4("  ", output, "/", "per_query_latency.json"));
    out.push(text::join4("  ", output, "/", "per_query_timeseries.json"));
    out.push(text::join4("  ", output, "/", "per_category_latency.json"));
    assert(text::views(out@) =~= seq!["Reports regenerated successfully."@] + all);
    out
}

} // verus!
