//! What is said of a run: every line tells the figure that it names, the resource that starts
//! a run asks for what was asked for, and a report is fetched from where it was put.
use vstd::prelude::*;
use vstd::string::*;
use crate::configmaps;
use crate::console;
use crate::console::RunRequest;
use crate::crd::{Condition, ImageSpec, IncidentBenchRunStatus, LifecyclePhase, RunResults};
use crate::decimal;
use crate::deployment_laws::{member, nth};
use crate::download;
use crate::html_report;
use crate::json;
use crate::json::Doc;
use crate::lifecycle;
use crate::live;
use crate::metrics::PointView;
use crate::model;
use crate::page_laws::{stands_at_the_end, stands_before};
use crate::resources;
use crate::scenario::{PhaseView, ScenarioView, SessionView};
use crate::text;

verus! {

proof fn run_keys()
    ensures
        "apiVersion"@ != "kind"@,
        "apiVersion"@ != "metadata"@,
        "kind"@ != "metadata"@,
        "apiVersion"@ != "spec"@,
        "kind"@ != "spec"@,
        "metadata"@ != "spec"@,
        "name"@ != "namespace"@,
        "scenario"@ != "target"@,
        "scenario"@ != "kafka"@,
        "target"@ != "kafka"@,
        "scenario"@ != "scaling"@,
        "target"@ != "scaling"@,
        "kafka"@ != "scaling"@,
        "scenario"@ != "workers"@,
        "target"@ != "workers"@,
        "kafka"@ != "workers"@,
        "scaling"@ != "workers"@,
        "scenario"@ != "dryRun"@,
        "target"@ != "dryRun"@,
        "kafka"@ != "dryRun"@,
        "scaling"@ != "dryRun"@,
        "workers"@ != "dryRun"@,
        "adapter"@ != "config"@,
        "durationScale"@ != "rateScale"@,
        "ingest"@ != "query"@,
{
    reveal_strlit("apiVersion");
    reveal_strlit("kind");
    reveal_strlit("metadata");
    reveal_strlit("spec");
    reveal_strlit("name");
    reveal_strlit("namespace");
    reveal_strlit("scenario");
    reveal_strlit("target");
    reveal_strlit("kafka");
    reveal_strlit("scaling");
    reveal_strlit("workers");
    reveal_strlit("dryRun");
    reveal_strlit("adapter");
    reveal_strlit("config");
    reveal_strlit("durationScale");
    reveal_strlit("rateScale");
    reveal_strlit("ingest");
    reveal_strlit("query");
    assert("apiVersion"@.len() != "kind"@.len());
    assert("apiVersion"@.len() != "metadata"@.len());
    assert("kind"@.len() != "metadata"@.len());
    assert("apiVersion"@.len() != "spec"@.len());
    assert("kind"@[0] != "spec"@[0]);
    assert("metadata"@.len() != "spec"@.len());
    assert("name"@.len() != "namespace"@.len());
    assert("scenario"@.len() != "target"@.len());
    assert("scenario"@.len() != "kafka"@.len());
    assert("target"@.len() != "kafka"@.len());
    assert("scenario"@.len() != "scaling"@.len());
    assert("target"@.len() != "scaling"@.len());
    assert("kafka"@.len() != "scaling"@.len());
    assert("scenario"@.len() != "workers"@.len());
    assert("target"@.len() != "workers"@.len());
    assert("kafka"@.len() != "workers"@.len());
    assert("scaling"@[0] != "workers"@[0]);
    assert("scenario"@.len() != "dryRun"@.len());
    assert("target"@[0] != "dryRun"@[0]);
    assert("kafka"@.len() != "dryRun"@.len());
    assert("scaling"@.len() != "dryRun"@.len());
    assert("workers"@.len() != "dryRun"@.len());
    assert("adapter"@.len() != "config"@.len());
    assert("durationScale"@.len() != "rateScale"@.len());
    assert("ingest"@.len() != "query"@.len());
}

proof fn live_keys()
    ensures
        "phase"@ != "ingest_eps"@,
        "phase"@ != "ingest_target_eps"@,
        "ingest_eps"@ != "ingest_target_eps"@,
        "phase"@ != "query_qps"@,
        "ingest_eps"@ != "query_qps"@,
        "ingest_target_eps"@ != "query_qps"@,
        "phase"@ != "query_target_qps"@,
        "ingest_eps"@ != "query_target_qps"@,
        "ingest_target_eps"@ != "query_target_qps"@,
        "query_qps"@ != "query_target_qps"@,
        "phase"@ != "query_p50"@,
        "ingest_eps"@ != "query_p50"@,
        "ingest_target_eps"@ != "query_p50"@,
        "query_qps"@ != "query_p50"@,
        "query_target_qps"@ != "query_p50"@,
        "phase"@ != "query_p95"@,
        "ingest_eps"@ != "query_p95"@,
        "ingest_target_eps"@ != "query_p95"@,
        "query_qps"@ != "query_p95"@,
        "query_target_qps"@ != "query_p95"@,
        "query_p50"@ != "query_p95"@,
        "phase"@ != "query_p99"@,
        "ingest_eps"@ != "query_p99"@,
        "ingest_target_eps"@ != "query_p99"@,
        "query_qps"@ != "query_p99"@,
        "query_target_qps"@ != "query_p99"@,
        "query_p50"@ != "query_p99"@,
        "query_p95"@ != "query_p99"@,
        "phase"@ != "kafka_consumer_lag"@,
        "ingest_eps"@ != "kafka_consumer_lag"@,
        "ingest_target_eps"@ != "kafka_consumer_lag"@,
        "query_qps"@ != "kafka_consumer_lag"@,
        "query_target_qps"@ != "kafka_consumer_lag"@,
        "query_p50"@ != "kafka_consumer_lag"@,
        "query_p95"@ != "kafka_consumer_lag"@,
        "query_p99"@ != "kafka_consumer_lag"@,
        "phase"@ != "query_errors"@,
        "ingest_eps"@ != "query_errors"@,
        "ingest_target_eps"@ != "query_errors"@,
        "query_qps"@ != "query_errors"@,
        "query_target_qps"@ != "query_errors"@,
        "query_p50"@ != "query_errors"@,
        "query_p95"@ != "query_errors"@,
        "query_p99"@ != "query_errors"@,
        "kafka_consumer_lag"@ != "query_errors"@,
{
    reveal_strlit("phase");
    reveal_strlit("ingest_eps");
    reveal_strlit("ingest_target_eps");
    reveal_strlit("query_qps");
    reveal_strlit("query_target_qps");
    reveal_strlit("query_p50");
    reveal_strlit("query_p95");
    reveal_strlit("query_p99");
    reveal_strlit("kafka_consumer_lag");
    reveal_strlit("query_errors");
    assert("phase"@.len() != "ingest_eps"@.len());
    assert("phase"@.len() != "ingest_target_eps"@.len());
    assert("ingest_eps"@.len() != "ingest_target_eps"@.len());
    assert("phase"@.len() != "query_qps"@.len());
    assert("ingest_eps"@.len() != "query_qps"@.len());
    assert("ingest_target_eps"@.len() != "query_qps"@.len());
    assert("phase"@.len() != "query_target_qps"@.len());
    assert("ingest_eps"@.len() != "query_target_qps"@.len());
    assert("ingest_target_eps"@.len() != "query_target_qps"@.len());
    assert("query_qps"@.len() != "query_target_qps"@.len());
    assert("phase"@.len() != "query_p50"@.len());
    assert("ingest_eps"@.len() != "query_p50"@.len());
    assert("ingest_target_eps"@.len() != "query_p50"@.len());
    assert("query_qps"@[6] != "query_p50"@[6]);
    assert("query_target_qps"@.len() != "query_p50"@.len());
    assert("phase"@.len() != "query_p95"@.len());
    assert("ingest_eps"@.len() != "query_p95"@.len());
    assert("ingest_target_eps"@.len() != "query_p95"@.len());
    assert("query_qps"@[6] != "query_p95"@[6]);
    assert("query_target_qps"@.len() != "query_p95"@.len());
    assert("query_p50"@[7] != "query_p95"@[7]);
    assert("phase"@.len() != "query_p99"@.len());
    assert("ingest_eps"@.len() != "query_p99"@.len());
    assert("ingest_target_eps"@.len() != "query_p99"@.len());
    assert("query_qps"@[6] != "query_p99"@[6]);
    assert("query_target_qps"@.len() != "query_p99"@.len());
    assert("query_p50"@[7] != "query_p99"@[7]);
    assert("query_p95"@[8] != "query_p99"@[8]);
    assert("phase"@.len() != "kafka_consumer_lag"@.len());
    assert("ingest_eps"@.len() != "kafka_consumer_lag"@.len());
    assert("ingest_target_eps"@.len() != "kafka_consumer_lag"@.len());
    assert("query_qps"@.len() != "kafka_consumer_lag"@.len());
    assert("query_target_qps"@.len() != "kafka_consumer_lag"@.len());
    assert("query_p50"@.len() != "kafka_consumer_lag"@.len());
    assert("query_p95"@.len() != "kafka_consumer_lag"@.len());
    assert("query_p99"@.len() != "kafka_consumer_lag"@.len());
    assert("phase"@.len() != "query_errors"@.len());
    assert("ingest_eps"@.len() != "query_errors"@.len());
    assert("ingest_target_eps"@.len() != "query_errors"@.len());
    assert("query_qps"@.len() != "query_errors"@.len());
    assert("query_target_qps"@.len() != "query_errors"@.len());
    assert("query_p50"@.len() != "query_errors"@.len());
    assert("query_p95"@.len() != "query_errors"@.len());
    assert("query_p99"@.len() != "query_errors"@.len());
    assert("kafka_consumer_lag"@.len() != "query_errors"@.len());
}

proof fn card_keys()
    ensures
        "Ingest EPS"@ != "Query QPS"@,
        "Ingest EPS"@ != "Query p99"@,
        "Query QPS"@ != "Query p99"@,
        "Ingest EPS"@ != "Kafka Lag"@,
        "Query QPS"@ != "Kafka Lag"@,
        "Query p99"@ != "Kafka Lag"@,
        "Ingest EPS"@ != "Query p50"@,
        "Query QPS"@ != "Query p50"@,
        "Query p99"@ != "Query p50"@,
        "Kafka Lag"@ != "Query p50"@,
        "Ingest EPS"@ != "Query p95"@,
        "Query QPS"@ != "Query p95"@,
        "Query p99"@ != "Query p95"@,
        "Kafka Lag"@ != "Query p95"@,
        "Query p50"@ != "Query p95"@,
        "Ingest EPS"@ != "Errors"@,
        "Query QPS"@ != "Errors"@,
        "Query p99"@ != "Errors"@,
        "Kafka Lag"@ != "Errors"@,
        "Query p50"@ != "Errors"@,
        "Query p95"@ != "Errors"@,
        "Ingest EPS"@ != "Workers"@,
        "Query QPS"@ != "Workers"@,
        "Query p99"@ != "Workers"@,
        "Kafka Lag"@ != "Workers"@,
        "Query p50"@ != "Workers"@,
        "Query p95"@ != "Workers"@,
        "Errors"@ != "Workers"@,
{
    reveal_strlit("Ingest EPS");
    reveal_strlit("Query QPS");
    reveal_strlit("Query p99");
    reveal_strlit("Kafka Lag");
    reveal_strlit("Query p50");
    reveal_strlit("Query p95");
    reveal_strlit("Errors");
    reveal_strlit("Workers");
    assert("Ingest EPS"@.len() != "Query QPS"@.len());
    assert("Ingest EPS"@.len() != "Query p99"@.len());
    assert("Query QPS"@[6] != "Query p99"@[6]);
    assert("Ingest EPS"@.len() != "Kafka Lag"@.len());
    assert("Query QPS"@[0] != "Kafka Lag"@[0]);
    assert("Query p99"@[0] != "Kafka Lag"@[0]);
    assert("Ingest EPS"@.len() != "Query p50"@.len());
    assert("Query QPS"@[6] != "Query p50"@[6]);
    assert("Query p99"@[7] != "Query p50"@[7]);
    assert("Kafka Lag"@[0] != "Query p50"@[0]);
    assert("Ingest EPS"@.len() != "Query p95"@.len());
    assert("Query QPS"@[6] != "Query p95"@[6]);
    assert("Query p99"@[8] != "Query p95"@[8]);
    assert("Kafka Lag"@[0] != "Query p95"@[0]);
    assert("Query p50"@[7] != "Query p95"@[7]);
    assert("Ingest EPS"@.len() != "Errors"@.len());
    assert("Query QPS"@.len() != "Errors"@.len());
    assert("Query p99"@.len() != "Errors"@.len());
    assert("Kafka Lag"@.len() != "Errors"@.len());
    assert("Query p50"@.len() != "Errors"@.len());
    assert("Query p95"@.len() != "Errors"@.len());
    assert("Ingest EPS"@.len() != "Workers"@.len());
    assert("Query QPS"@.len() != "Workers"@.len());
    assert("Query p99"@.len() != "Workers"@.len());
    assert("Kafka Lag"@.len() != "Workers"@.len());
    assert("Query p50"@.len() != "Workers"@.len());
    assert("Query p95"@.len() != "Workers"@.len());
    assert("Errors"@.len() != "Workers"@.len());
}

proof fn pod_keys()
    ensures
        "apiVersion"@ != "kind"@,
        "apiVersion"@ != "metadata"@,
        "kind"@ != "metadata"@,
        "apiVersion"@ != "spec"@,
        "kind"@ != "spec"@,
        "metadata"@ != "spec"@,
        "name"@ != "namespace"@,
        "restartPolicy"@ != "containers"@,
        "restartPolicy"@ != "volumes"@,
        "containers"@ != "volumes"@,
        "name"@ != "image"@,
        "name"@ != "command"@,
        "image"@ != "command"@,
        "name"@ != "volumeMounts"@,
        "image"@ != "volumeMounts"@,
        "command"@ != "volumeMounts"@,
        "name"@ != "mountPath"@,
        "name"@ != "persistentVolumeClaim"@,
{
    reveal_strlit("apiVersion");
    reveal_strlit("kind");
    reveal_strlit("metadata");
    reveal_strlit("spec");
    reveal_strlit("name");
    reveal_strlit("namespace");
    reveal_strlit("restartPolicy");
    reveal_strlit("containers");
    reveal_strlit("volumes");
    reveal_strlit("image");
    reveal_strlit("command");
    reveal_strlit("volumeMounts");
    reveal_strlit("mountPath");
    reveal_strlit("persistentVolumeClaim");
    assert("apiVersion"@.len() != "kind"@.len());
    assert("apiVersion"@.len() != "metadata"@.len());
    assert("kind"@.len() != "metadata"@.len());
    assert("apiVersion"@.len() != "spec"@.len());
    assert("kind"@[0] != "spec"@[0]);
    assert("metadata"@.len() != "spec"@.len());
    assert("name"@.len() != "namespace"@.len());
    assert("restartPolicy"@.len() != "containers"@.len());
    assert("restartPolicy"@.len() != "volumes"@.len());
    assert("containers"@.len() != "volumes"@.len());
    assert("name"@.len() != "image"@.len());
    assert("name"@.len() != "command"@.len());
    assert("image"@.len() != "command"@.len());
    assert("name"@.len() != "volumeMounts"@.len());
    assert("image"@.len() != "volumeMounts"@.len());
    assert("command"@.len() != "volumeMounts"@.len());
    assert("name"@.len() != "mountPath"@.len());
    assert("name"@.len() != "persistentVolumeClaim"@.len());
}

// ---------------------------------------------------------------------------
// Starting a run
// ---------------------------------------------------------------------------

/// The resource that starts a run asks for what was asked for: the scenario, the target and
/// its configuration, the brokers, the factors, and the workers of either kind. It is not a
/// dry run.
pub proof fn runs_are_started_as_asked_for(
    name: Seq<char>,
    scenario: Doc,
    r: RunRequest,
    config: Doc,
)
    ensures
        ({
            let d = console::run_resource_doc(name, scenario, r, config);
            let spec = member(d, "spec"@);
            let target = member(spec, "target"@);
            let scaling = member(spec, "scaling"@);
            let workers = member(spec, "workers"@);
            &&& member(d, "apiVersion"@) == Doc::Text("incidentbench.io/v1alpha1"@)
            &&& member(d, "kind"@) == Doc::Text("IncidentBenchRun"@)
            &&& member(member(d, "metadata"@), "name"@) == Doc::Text(name)
            &&& member(member(d, "metadata"@), "namespace"@) == Doc::Text("incidentbench"@)
            &&& member(spec, "scenario"@) == scenario
            &&& member(target, "adapter"@) == Doc::Text(r.target@)
            &&& member(target, "config"@) == config
            &&& member(member(spec, "kafka"@), "bootstrapServers"@) == Doc::Text(r.kafka_bootstrap@)
            &&& member(scaling, "durationScale"@) == Doc::Quotient {
                num: r.duration_scale_ppm as nat,
                den: 1_000_000,
            }
            &&& member(scaling, "rateScale"@) == Doc::Quotient {
                num: r.rate_scale_ppm as nat,
                den: 1_000_000,
            }
            &&& member(member(workers, "ingest"@), "replicas"@) == Doc::Uint(
                r.replicas_ingest as nat,
            )
            &&& member(member(workers, "query"@), "replicas"@) == Doc::Uint(
                r.replicas_query as nat,
            )
            &&& member(spec, "dryRun"@) == Doc::Bool(false)
        }),
{
    broadcast use json::with_then_get;

    run_keys();
}

proof fn hyphened_keeps(s: Seq<char>)
    requires
        forall|i: int| 0 <= i < s.len() ==> is_plain(#[trigger] s[i]),
    ensures
        console::hyphened(s) == s,
{
    assert forall|i: int| 0 <= i < s.len() implies console::hyphened(s)[i] == s[i] by {
        assert(is_plain(s[i]));
    }
    assert(console::hyphened(s) =~= s);
}

/// A small letter or a digit.
pub open spec fn is_plain(c: char) -> bool {
    ('a' <= c <= 'z') || ('0' <= c <= '9')
}

/// In the name of a run small letters and digits stay as they are, and what may not stand in
/// the name of a resource becomes a hyphen; at the ends it goes.
pub proof fn names_of_runs_are_those_of_scenarios(a: Seq<char>, c: char, b: Seq<char>)
    requires
        a.len() > 0 && forall|i: int| 0 <= i < a.len() ==> is_plain(#[trigger] a[i]),
        b.len() > 0 && forall|i: int| 0 <= i < b.len() ==> is_plain(#[trigger] b[i]),
        !is_plain(c) && !('A' <= c <= 'Z') && c != '.',
    ensures
        console::sanitized(a) == a,
        console::sanitized(a + seq![c] + b) == a + seq!['-'] + b,
        console::sanitized(seq![c] + a) == a,
        console::sanitized(a + seq![c]) == a,
{
    hyphened_keeps(a);
    hyphened_keeps(b);
    let h = |s: Seq<char>| console::hyphened(s);
    assert(is_plain(a[0]) && is_plain(a[a.len() - 1]) && is_plain(b[b.len() - 1]));
    assert(h(a + seq![c] + b) =~= h(a) + seq!['-'] + h(b));
    assert(h(seq![c] + a) =~= seq!['-'] + h(a));
    assert(h(a + seq![c]) =~= h(a) + seq!['-']);
    let inner = a + seq!['-'] + b;
    assert(inner[0] == a[0] && inner.last() == b.last());
    let front = seq!['-'] + a;
    assert(front.skip(1) =~= a);
    assert(console::without_leading_joints(front) == console::without_leading_joints(a));
    let back = a + seq!['-'];
    assert(back[0] == a[0]);
    assert(back.drop_last() =~= a);
    assert(console::without_trailing_joints(back) == console::without_trailing_joints(a));
}

/// The plan of a run has a line for every stream, which tells its name, its index and its
/// workers, and a line for every phase, which tells its name, how long it takes, and what is
/// to be ingested and asked in a second of it.
pub proof fn plans_tell_of_streams_and_phases(s: ScenarioView, r: RunRequest, i: int)
    ensures
        ({
            let lines = console::plan(s, r);
            let streams = s.stream_list();
            let n = streams.len();
            &&& lines.len() == 13 + n + 2 + s.phases.len()
            &&& 0 <= i < n ==> lines[13 + i] == "  "@ + streams[i].name + " (index: "@
                + streams[i].schema.index_name + ", replicas: "@ + text::decimal(
                streams[i].ingest_replicas as nat,
            ) + ")"@
            &&& 0 <= i < s.phases.len() ==> ({
                let p = s.phases[i];
                let line = lines[15 + n + i];
                &&& text::begins(line, "  "@ + p.display_name)
                &&& text::holds(line, text::decimal(p.duration_seconds as nat) + "s  "@)
                &&& text::holds(line, text::decimal(s.total_phase_eps(p.name) as nat) + " EPS  "@)
                &&& text::ends(
                    line,
                    decimal::fixed(p.target_pqps as nat, 1_000_000_000_000, 1) + " QPS"@,
                )
            })
        }),
{
    let lines = console::plan(s, r);
    let streams = s.stream_list();
    let n = streams.len() as int;
    assert(console::plan_head(s, r).len() == 13);
    if 0 <= i < n {
        assert(lines[13 + i] == console::stream_line(streams[i]));
    }
    if 0 <= i < s.phases.len() {
        assert(lines[15 + n + i] == console::phase_line(s.phases[i], s));
        phases_have_their_line(s, s.phases[i]);
    }
}

proof fn phases_have_their_line(s: ScenarioView, p: PhaseView)
    ensures
        ({
            let line = console::phase_line(p, s);
            &&& text::begins(line, "  "@ + p.display_name)
            &&& text::holds(line, text::decimal(p.duration_seconds as nat) + "s  "@)
            &&& text::holds(line, text::decimal(s.total_phase_eps(p.name) as nat) + " EPS  "@)
            &&& text::ends(
                line,
                decimal::fixed(p.target_pqps as nat, 1_000_000_000_000, 1) + " QPS"@,
            )
        }),
{
    let seconds = text::decimal(p.duration_seconds as nat);
    let events = text::decimal(s.total_phase_eps(p.name) as nat);
    let rate = decimal::fixed(p.target_pqps as nat, 1_000_000_000_000, 1);
    let name = console::to_left(p.display_name, 20);
    let wide_seconds = console::to_right(seconds, 4);
    let wide_events = console::to_right(events, 7);
    let wide_rate = console::to_right(rate, 5);
    right_ends(seconds, 4);
    right_ends(events, 7);
    right_ends(rate, 5);
    let a = "  "@ + name;
    let b = a + " "@;
    let c = b + wide_seconds;
    let d = c + "s  "@;
    let e = d + wide_events;
    let f = e + " EPS  "@;
    let g = f + wide_rate;
    let start = "  "@ + p.display_name;
    assert(a.take(start.len() as int) =~= start);
    begins_still(a, " "@, start);
    begins_still(b, wide_seconds, start);
    begins_still(c, "s  "@, start);
    begins_still(d, wide_events, start);
    begins_still(e, " EPS  "@, start);
    begins_still(f, wide_rate, start);
    begins_still(g, " QPS"@, start);
    let x = seconds + "s  "@;
    stands_at_the_end(b, wide_seconds, seconds, "s  "@);
    stands_before(d, wide_events, x);
    stands_before(e, " EPS  "@, x);
    stands_before(f, wide_rate, x);
    stands_before(g, " QPS"@, x);
    let y = events + " EPS  "@;
    stands_at_the_end(d, wide_events, events, " EPS  "@);
    stands_before(f, wide_rate, y);
    stands_before(g, " QPS"@, y);
    ends_with_both(f, wide_rate, rate, " QPS"@);
}

proof fn right_ends(t: Seq<char>, width: int)
    ensures
        text::ends(console::to_right(t, width), t),
{
    let r = console::to_right(t, width);
    assert(r.skip(r.len() - t.len()) =~= t);
}

proof fn begins_still(t: Seq<char>, more: Seq<char>, start: Seq<char>)
    requires
        text::begins(t, start),
    ensures
        text::begins(t + more, start),
{
    assert((t + more).take(start.len() as int) =~= t.take(start.len() as int));
}

proof fn ends_with_both(before: Seq<char>, card: Seq<char>, label: Seq<char>, value: Seq<char>)
    requires
        text::ends(card, label),
    ensures
        text::ends(before + card + value, label + value),
{
    let t = before + card + value;
    let n = (label + value).len();
    assert(t.skip(t.len() - n) =~= label + value) by {
        assert forall|i: int| 0 <= i < label.len() implies t[t.len() - n + i] == label[i] by {
            assert(card.skip(card.len() - label.len())[i] == label[i]);
        }
    }
}

/// The head of a plan tells what the run is started with, how long it takes, and how many
/// events it has.
pub proof fn plans_tell_what_runs_are_started_with(s: ScenarioView, r: RunRequest)
    ensures
        ({
            let lines = console::plan(s, r);
            &&& lines[2] == "Scenario:        "@ + s.meta.name + " v"@ + s.meta.version
            &&& lines[3] == "Target:          "@ + r.target@
            &&& lines[4] == "Kafka:           "@ + r.kafka_bootstrap@
            &&& lines[5] == "Duration Scale:  "@ + decimal::shortest(r.duration_scale_ppm as nat, 6)
                + "x"@
            &&& lines[6] == "Rate Scale:      "@ + decimal::shortest(r.rate_scale_ppm as nat, 6)
                + "x"@
            &&& lines[7] == "Ingest Workers:  "@ + text::decimal(r.replicas_ingest as nat)
            &&& lines[8] == "Query Workers:   "@ + text::decimal(r.replicas_query as nat)
            &&& lines[9] == "Total Duration:  "@ + text::decimal(s.total_duration() as nat)
                + "s ("@ + decimal::fixed(s.total_duration() as nat, 60, 1) + " min)"@
            &&& lines[10] == "Total Events:    "@ + ("~"@ + decimal::fixed(
                s.total_events() as nat,
                1_000_000,
                1,
            ) + "M"@)
        }),
{
}

// ---------------------------------------------------------------------------
// How a run is doing
// ---------------------------------------------------------------------------

spec fn goes_on(a: Seq<Seq<char>>, b: Seq<Seq<char>>) -> bool {
    a.len() <= b.len() && forall|i: int| 0 <= i < a.len() ==> b[i] == a[i]
}

proof fn results_go_on(out: Seq<Seq<char>>, r: RunResults)
    ensures
        goes_on(out, console::results_lines(out, r)),
{
}

proof fn conditions_go_on(out: Seq<Seq<char>>, c: Seq<Condition>)
    ensures
        goes_on(out, console::condition_lines(out, c)),
{
}

/// The lines before the workers.
spec fn opening(
    name: Seq<char>,
    namespace: Seq<char>,
    s: IncidentBenchRunStatus,
) -> Seq<Seq<char>> {
    let head = Seq::<Seq<char>>::empty().push("Name:      "@ + name).push(
        "Namespace: "@ + namespace,
    );
    let a = head.push("Phase:     "@ + s.phase.label());
    let b = console::if_any(a, "Run ID:    "@, text::opt_view(s.run_id));
    let c = console::if_any(b, "Started:   "@, text::opt_view(s.start_time));
    console::if_any(c, "Benchmark Phase: "@, text::opt_view(s.current_benchmark_phase))
}

/// The lines before the results.
spec fn middle(name: Seq<char>, namespace: Seq<char>, s: IncidentBenchRunStatus) -> Seq<Seq<char>> {
    let d = opening(name, namespace, s);
    let e = match s.workers {
        Some(w) => d.push(console::workers_line(w)),
        None => d,
    };
    match s.progress {
        Some(p) => console::progress_lines(e, p),
        None => e,
    }
}

proof fn the_rest_goes_on(name: Seq<char>, namespace: Seq<char>, s: IncidentBenchRunStatus)
    ensures
        goes_on(
            opening(name, namespace, s),
            console::status_text(name, namespace, Some(s)),
        ),
        goes_on(
            middle(name, namespace, s),
            console::status_text(name, namespace, Some(s)),
        ),
        s.results is Some ==> goes_on(
            console::results_lines(middle(name, namespace, s), s.results->0),
            console::status_text(name, namespace, Some(s)),
        ),
{
    let f = middle(name, namespace, s);
    let g = match s.results {
        Some(r) => console::results_lines(f, r),
        None => f,
    };
    if s.results is Some {
        results_go_on(f, s.results->0);
    }
    conditions_go_on(g, s.conditions@);
}

proof fn listed(lines: Seq<Seq<char>>, later: Seq<Seq<char>>, i: int)
    requires
        goes_on(lines, later),
        0 <= i < lines.len(),
    ensures
        later.contains(lines[i]),
{
    assert(later[i] == lines[i]);
}

/// What is said of a run begins with its name, its namespace and its phase, and has a line for
/// all else that is known of it: its identifier, since when it runs, which phase of the
/// timeline goes on, and how many workers of either kind are there of how many.
pub proof fn what_is_known_of_a_run_is_said(
    name: Seq<char>,
    namespace: Seq<char>,
    s: IncidentBenchRunStatus,
)
    ensures
        ({
            let lines = console::status_text(name, namespace, Some(s));
            &&& lines[0] == "Name:      "@ + name && lines[1] == "Namespace: "@ + namespace
            &&& lines[2] == "Phase:     "@ + s.phase.label()
            &&& s.run_id is Some ==> lines.contains("Run ID:    "@ + s.run_id->0@)
            &&& s.start_time is Some ==> lines.contains("Started:   "@ + s.start_time->0@)
            &&& s.current_benchmark_phase is Some ==> lines.contains(
                "Benchmark Phase: "@ + s.current_benchmark_phase->0@,
            )
            &&& s.workers is Some ==> lines.contains(
                "Workers:   ingest "@ + text::decimal(s.workers->0.ingest_ready as nat) + "/"@
                    + text::decimal(s.workers->0.ingest_desired as nat) + ", query "@
                    + text::decimal(s.workers->0.query_ready as nat) + "/"@ + text::decimal(
                    s.workers->0.query_desired as nat,
                ),
            )
        }),
        console::status_text(name, namespace, None).last()
            == "Phase:     Pending (no status yet)"@,
{
    the_rest_goes_on(name, namespace, s);
    let lines = console::status_text(name, namespace, Some(s));
    let d = opening(name, namespace, s);
    assert(lines[0] == d[0] && lines[1] == d[1] && lines[2] == d[2]);
    if s.run_id is Some {
        listed(d, lines, 3);
    }
    if s.start_time is Some {
        listed(d, lines, if s.run_id is Some {
            4
        } else {
            3
        });
    }
    if s.current_benchmark_phase is Some {
        listed(d, lines, d.len() - 1);
    }
    if s.workers is Some {
        let f = middle(name, namespace, s);
        assert(f[d.len() as int] == console::workers_line(s.workers->0));
        listed(f, lines, d.len() as int);
    }
}

/// The progress of a run is said as it is: how many seconds of how many, how many per cent
/// that is, what is ingested and asked of what is aimed at, and what is not consumed yet.
pub proof fn progress_is_said(
    name: Seq<char>,
    namespace: Seq<char>,
    s: IncidentBenchRunStatus,
)
    requires
        s.progress is Some,
    ensures
        ({
            let p = s.progress->0;
            let lines = console::status_text(name, namespace, Some(s));
            let rate = |uqps: u64| decimal::fixed(uqps as nat, 1_000_000, 1);
            &&& p.total_seconds > 0 ==> lines.contains(
                "Progress:  "@ + text::decimal(p.elapsed_seconds as nat) + "/"@ + text::decimal(
                    p.total_seconds as nat,
                ) + "s ("@ + decimal::fixed(
                    p.elapsed_seconds as nat * 100,
                    p.total_seconds as nat,
                    0,
                ) + "%)"@,
            )
            &&& lines.contains(
                "Ingest:    "@ + text::decimal(p.achieved_ingest_eps as nat) + " / "@
                    + text::decimal(p.target_ingest_eps as nat) + " EPS"@,
            )
            &&& lines.contains(
                "Query:     "@ + rate(p.achieved_query_uqps) + " / "@ + rate(p.target_query_uqps)
                    + " QPS"@,
            )
            &&& lines.contains("Kafka Lag: "@ + text::decimal(p.kafka_consumer_lag as nat))
        }),
{
    the_rest_goes_on(name, namespace, s);
    let lines = console::status_text(name, namespace, Some(s));
    let f = middle(name, namespace, s);
    let n = f.len() as int;
    listed(f, lines, n - 4);
    listed(f, lines, n - 3);
    listed(f, lines, n - 2);
    listed(f, lines, n - 1);
}

/// The results of a run are said as they are: whether it may be used, everything that speaks
/// against it, and the figures of its scorecard, each under its own name.
pub proof fn results_are_said(
    name: Seq<char>,
    namespace: Seq<char>,
    s: IncidentBenchRunStatus,
    i: int,
)
    requires
        s.results is Some,
    ensures
        ({
            let r = s.results->0;
            let lines = console::status_text(name, namespace, Some(s));
            &&& r.valid ==> lines.contains("Valid:     YES"@)
            &&& !r.valid ==> lines.contains("Valid:     NO"@)
            &&& 0 <= i < r.validity_violations@.len() ==> lines.contains(
                "  - "@ + r.validity_violations@[i]@,
            )
            &&& r.scorecard is Some ==> ({
                let c = r.scorecard->0;
                &&& lines.contains(
                    "  Baseline p99:     "@ + html_report::ms_text(c.baseline_p99_ns) + " ms"@,
                )
                &&& lines.contains(
                    "  Overlap p99:      "@ + html_report::ms_text(c.overlap_p99_ns) + " ms"@,
                )
                &&& lines.contains(
                    "  Degradation:      "@ + html_report::ratio_text(c.p99_degradation_ratio)
                        + "x"@,
                )
                &&& lines.contains(
                    "  Error Rate:       "@ + html_report::percent_text(c.query_error_rate_overlap)
                        + "%"@,
                )
                &&& lines.contains("  Peak Backlog:     "@ + text::decimal(c.peak_backlog as nat))
                &&& lines.contains(
                    "  Drain Time:       "@ + html_report::seconds_text(c.backlog_drain_time_s)
                        + "s"@,
                )
                &&& lines.contains(
                    "  Recovery Time:    "@ + html_report::seconds_text(c.recovery_time_s) + "s"@,
                )
            })
        }),
{
    the_rest_goes_on(name, namespace, s);
    let lines = console::status_text(name, namespace, Some(s));
    let r = s.results->0;
    let f = middle(name, namespace, s);
    let g = console::results_lines(f, r);
    let n = f.len() as int;
    reveal_strlit("Valid:     ");
    reveal_strlit("YES");
    reveal_strlit("NO");
    reveal_strlit("Valid:     YES");
    reveal_strlit("Valid:     NO");
    assert("Valid:     "@ + "YES"@ =~= "Valid:     YES"@);
    assert("Valid:     "@ + "NO"@ =~= "Valid:     NO"@);
    listed(g, lines, n + 1);
    if 0 <= i < r.validity_violations@.len() {
        assert(g[n + 3 + i] == "  - "@ + text::views(r.validity_violations@)[i]);
        listed(g, lines, n + 3 + i);
    }
    if r.scorecard is Some {
        let m = g.len() as int;
        listed(g, lines, m - 7);
        listed(g, lines, m - 6);
        listed(g, lines, m - 5);
        listed(g, lines, m - 4);
        listed(g, lines, m - 3);
        listed(g, lines, m - 2);
        listed(g, lines, m - 1);
    }
}

/// The conditions of a run come last, each with its status and, where there is one, its
/// message.
pub proof fn conditions_are_said(
    name: Seq<char>,
    namespace: Seq<char>,
    s: IncidentBenchRunStatus,
    i: int,
)
    requires
        0 <= i < s.conditions@.len(),
    ensures
        ({
            let c = s.conditions@[i];
            let lines = console::status_text(name, namespace, Some(s));
            let line = lines[lines.len() - s.conditions@.len() + i];
            &&& c.message is None ==> line == "  "@ + c.condition_type@ + " = "@ + c.status@
            &&& c.message is Some ==> line == "  "@ + c.condition_type@ + " = "@ + c.status@ + (
            " ("@ + c.message->0@ + ")"@)
        }),
{
    let c = s.conditions@[i];
    let lines = console::status_text(name, namespace, Some(s));
    let line = lines[lines.len() - s.conditions@.len() + i];
    assert(line == console::condition_line(c));
    if c.message is None {
        let t = "  "@ + c.condition_type@ + " = "@ + c.status@;
        assert(t + Seq::<char>::empty() =~= t);
    }
}

/// An age is told in whole hours, below an hour in whole minutes, and below a minute in
/// seconds.
pub proof fn ages_are_told_in_their_greatest_unit(seconds: int, n: nat)
    ensures
        n >= 1 && n * 3600 <= seconds < (n + 1) * 3600 ==> console::age(seconds) == text::decimal(n)
            + "h"@,
        1 <= n < 60 && n * 60 <= seconds < (n + 1) * 60 ==> console::age(seconds) == text::decimal(
            n,
        ) + "m"@,
        0 <= seconds < 60 ==> console::age(seconds) == text::decimal(seconds as nat) + "s"@,
{
    if n >= 1 && n * 3600 <= seconds < (n + 1) * 3600 {
        assert(seconds / 3600 == n);
    }
    if 1 <= n < 60 && n * 60 <= seconds < (n + 1) * 60 {
        assert(seconds / 60 == n);
    }
}

/// A scenario that is in order is described by what it holds; one that is not, by all that is
/// wrong with it.
pub proof fn scenarios_are_described(s: ScenarioView, errors: Seq<Seq<char>>, i: int)
    ensures
        ({
            let lines = console::praise(s);
            let n = s.stream_list().len();
            &&& lines[0] == "Scenario '"@ + s.meta.name + "' is valid."@
            &&& lines[2] == "  Version:    "@ + s.meta.version
            &&& lines[3] == "  Domain:     "@ + s.meta.domain
            &&& lines[4] == "  Streams:    "@ + text::decimal(n)
            &&& 0 <= i < n ==> lines[5 + i] == "    "@ + s.stream_list()[i].name + " -> index '"@
                + s.stream_list()[i].schema.index_name + "' ("@ + text::decimal(
                s.stream_list()[i].schema.fields.len(),
            ) + " fields)"@
            &&& lines[5int + n] == "  Queries:    "@ + text::decimal(s.queries.len())
            &&& lines[6int + n] == "  Phases:     "@ + text::decimal(s.phases.len())
            &&& lines[7int + n] == "  Duration:   "@ + text::decimal(s.total_duration() as nat) + "s"@
            &&& lines.len() == 9 + n
        }),
        ({
            let lines = console::blame(s.meta.name, errors);
            &&& lines.len() == errors.len() + 1
            &&& lines[0] == "Scenario '"@ + s.meta.name + "' has "@ + text::decimal(errors.len())
                + " validation error(s):"@
            &&& 0 <= i < errors.len() ==> lines[i + 1] == "  - "@ + errors[i]
        }),
{
}

// ---------------------------------------------------------------------------
// Watching a run
// ---------------------------------------------------------------------------

/// A second that is watched as a document tells its figures under their names.
pub proof fn seconds_are_told_as_documents(p: PointView)
    ensures
        ({
            let d = live::snapshot_doc(p);
            let ms = |n: u64| Doc::Quotient { num: n as nat, den: 1_000_000 };
            &&& member(d, "phase"@) == Doc::Text(p.phase)
            &&& member(d, "ingest_eps"@) == Doc::Uint(p.ingest_events_produced as nat)
            &&& member(d, "ingest_target_eps"@) == Doc::Uint(p.ingest_target_eps as nat)
            &&& member(d, "query_qps"@) == Doc::Uint(p.query_executed as nat)
            &&& member(d, "query_target_qps"@) == ms(p.query_target_uqps)
            &&& member(d, "query_p50"@) == ms(p.query_latency.p50)
            &&& member(d, "query_p95"@) == ms(p.query_latency.p95)
            &&& member(d, "query_p99"@) == ms(p.query_latency.p99)
            &&& member(d, "kafka_consumer_lag"@) == Doc::Uint(p.kafka_consumer_lag as nat)
            &&& member(d, "query_errors"@) == Doc::Uint(p.query_errors as nat)
        }),
{
    broadcast use json::with_then_get;

    live_keys();
}

/// A row of the table that is watched: what a second was, in the order of the columns' heads,
/// the name to the left and the figures to the right of their columns.
pub proof fn seconds_are_told_in_rows(p: PointView)
    ensures
        ({
            let right = |t: Seq<char>, width: int| console::spaces(width - t.len()) + t;
            let tenths = |n: u64| decimal::fixed(n as nat, 1_000_000, 1);
            live::snapshot_row(p) == (p.phase + console::spaces(12 - p.phase.len())) + " "@ + right(
                text::decimal(p.ingest_events_produced as nat),
                10,
            ) + " "@ + right(text::decimal(p.ingest_target_eps as nat), 10) + " "@ + right(
                text::decimal(p.query_executed as nat),
                8,
            ) + " "@ + right(tenths(p.query_target_uqps), 8) + " "@ + right(
                tenths(p.query_latency.p50),
                8,
            ) + " "@ + right(tenths(p.query_latency.p99), 8) + " "@ + right(
                text::decimal(p.kafka_consumer_lag as nat),
                12,
            ) + " "@ + right(text::decimal(p.query_errors as nat), 6)
        }),
        forall|n: int, i: int|
            0 <= i < n ==> console::spaces(n).len() == n && #[trigger] console::spaces(n)[i] == ' ',
        forall|n: int| n <= 0 ==> #[trigger] console::spaces(n).len() == 0,
{
}

/// The screen shows every figure on the card of its name, and the seconds of the last minute
/// of the five that are remembered.
pub proof fn the_screen_shows_the_last_second(p: PointView, history: Seq<PointView>, i: int)
    ensures
        ({
            let card = |title: Seq<char>| model::find(live::cards(p), title);
            let ms = |n: u64| decimal::fixed(n as nat, 1_000_000, 1) + " ms"@;
            &&& card("Ingest EPS"@) == Some(text::decimal(p.ingest_events_produced as nat))
            &&& card("Query QPS"@) == Some(text::decimal(p.query_executed as nat))
            &&& card("Query p99"@) == Some(ms(p.query_latency.p99))
            &&& card("Kafka Lag"@) == Some(text::decimal(p.kafka_consumer_lag as nat))
            &&& card("Query p50"@) == Some(ms(p.query_latency.p50))
            &&& card("Query p95"@) == Some(ms(p.query_latency.p95))
            &&& card("Errors"@) == Some(text::decimal(p.query_errors as nat))
            &&& card("Workers"@) == Some(
                "I:"@ + text::decimal(p.ingest_workers_reporting as nat) + " Q:"@ + text::decimal(
                    p.query_workers_reporting as nat,
                ),
            )
        }),
        live::HISTORY_SECONDS == 300,
        live::drawn(history).len() == (if history.len() > 60 {
            60
        } else {
            history.len()
        }),
        0 <= i < live::drawn(history).len() ==> live::drawn(history)[i]
            == history[history.len() - live::drawn(history).len() + i].ingest_events_produced,
{
    card_keys();
    let all = live::cards(p);
    assert forall|k: int| 0 <= k < all.len() implies (forall|j: int|
        0 <= j < k ==> (#[trigger] all[j]).0 != (#[trigger] all[k]).0) by {}
    model::find_entry(all, 0);
    model::find_entry(all, 1);
    model::find_entry(all, 2);
    model::find_entry(all, 3);
    model::find_entry(all, 4);
    model::find_entry(all, 5);
    model::find_entry(all, 6);
    model::find_entry(all, 7);
}

/// The line at the head of the screen tells the phase, what was ingested and asked of what was
/// aimed at, and what is not consumed yet.
pub proof fn the_screen_has_its_head(p: PointView)
    ensures
        live::status_line(p) == "Phase: "@ + p.phase + "  |  Ingest: "@ + text::decimal(
            p.ingest_events_produced as nat,
        ) + " / "@ + text::decimal(p.ingest_target_eps as nat) + " EPS  |  Query: "@
            + decimal::fixed(p.query_executed as nat, 1, 1) + " / "@ + decimal::fixed(
            p.query_target_uqps as nat,
            1_000_000,
            1,
        ) + " QPS  |  Kafka Lag: "@ + text::decimal(p.kafka_consumer_lag as nat),
{
}

// ---------------------------------------------------------------------------
// Fetching a report
// ---------------------------------------------------------------------------

/// A file of a report is copied, under its own name, from where the pod that reads it mounts
/// the volume of the results.
pub proof fn files_are_copied_from_the_volume(
    file: Seq<char>,
    pod: Seq<char>,
    claim: Seq<char>,
    namespace: Seq<char>,
    output: Seq<char>,
)
    ensures
        ({
            let d = download::pod_doc(pod, claim, namespace);
            let spec = member(d, "spec"@);
            let mount = nth(member(nth(member(spec, "containers"@), 0), "volumeMounts"@), 0);
            let volume = nth(member(spec, "volumes"@), 0);
            let path = member(mount, "mountPath"@);
            &&& member(d, "kind"@) == Doc::Text("Pod"@)
            &&& member(member(d, "metadata"@), "name"@) == Doc::Text(pod)
            &&& member(member(d, "metadata"@), "namespace"@) == Doc::Text(namespace)
            &&& member(mount, "name"@) == member(volume, "name"@) && member(mount, "name"@) is Text
            &&& member(member(volume, "persistentVolumeClaim"@), "claimName"@) == Doc::Text(claim)
            &&& path is Text
            &&& download::copying(file, pod, namespace, output).from == namespace + "/"@ + pod
                + ":"@ + path->Text_0 + "/"@ + file
            &&& download::copying(file, pod, namespace, output).to == output + "/"@ + file
            &&& member(spec, "restartPolicy"@) == Doc::Text("Never"@)
        }),
{
    broadcast use json::with_then_get;

    pod_keys();
    reveal_strlit(":");
    reveal_strlit("/");
    reveal_strlit("/results");
    reveal_strlit(":/results/");
    assert(":"@ + "/results"@ + "/"@ =~= ":/results/"@);
    assert(download::copying(file, pod, namespace, output).from =~= namespace + "/"@ + pod + ":"@
        + "/results"@ + "/"@ + file);
}

/// All files of a report are fetched, and those that come from the raw measurements alone are
/// written anew.
pub proof fn reports_are_of_these_files()
    ensures
        download::files() == seq![
            "report.html"@,
            "run.json"@,
            "timeseries.csv"@,
            "timed_out_queries.json"@,
            "per_query_latency.json"@,
            "per_query_timeseries.json"@,
            "per_category_latency.json"@,
        ],
        download::regenerated_files() == download::files().remove(2),
{
    assert(download::regenerated_files() =~= download::files().remove(2));
}

// ---------------------------------------------------------------------------
// What belongs to a run
// ---------------------------------------------------------------------------

/// Workers and the reporter run the image that is asked for, and their own where none is.
pub proof fn images_are_those_asked_for(images: Option<ImageSpec>)
    ensures
        images is Some && images->0.worker is Some ==> resources::worker_image(images)
            == images->0.worker->0@,
        images is Some && images->0.reporter is Some ==> resources::reporter_image(images)
            == images->0.reporter->0@,
        images is None || images->0.worker is None ==> resources::worker_image(images)
            == "ghcr.io/mach5-io/incidentbench-worker:v0.1.0"@,
        images is None || images->0.reporter is None ==> resources::reporter_image(images)
            == "ghcr.io/mach5-io/incidentbench-reporter:v0.1.0"@,
{
}

/// A run is held back from its deletion by one mark, which is set and then taken away.
pub proof fn runs_are_held_until_they_are_cleaned_up(now: Seq<char>)
    ensures
        member(member(lifecycle::finalizer_doc(), "metadata"@), "finalizers"@) == Doc::array().item(
            Doc::Text("incidentbench.io/cleanup"@),
        ),
        lifecycle::no_finalizer_doc().get("metadata"@) is Some,
        lifecycle::no_finalizer_doc().get("metadata"@)->0.get("finalizers"@) == Some(Doc::Null),
        member(
            member(member(lifecycle::aggregating_since_doc(now), "metadata"@), "annotations"@),
            "incidentbench.io/aggregating-since"@,
        ) == Doc::Text(now),
{
    broadcast use json::with_then_get;

}

/// What is said of a deployment beyond hope tells which, and how many pods it lacks.
pub proof fn stalled_deployments_are_named(name: Seq<char>, unavailable: nat)
    ensures
        lifecycle::stalled_message(name, unavailable as int) == "Deployment '"@ + name
            + "' has stalled: "@ + text::decimal(unavailable) + " unavailable, 0 available"@,
{
}

/// Workers run the session that is given. Where none is, they run one of all categories if
/// every query has one, and none if some query has none.
pub proof fn sessions_are_given_or_of_all_categories(s: ScenarioView, session: SessionView)
    ensures
        s.session == Some(session) ==> configmaps::effective_session(s) == Some(session),
        s.session is None && s.queries.len() > 0 && (forall|k: int|
            0 <= k < s.queries.len() ==> (#[trigger] s.queries[k]).category is Some)
            ==> configmaps::effective_session(s) == Some(configmaps::grouped_session(s.queries)),
        s.session is None && (exists|k: int|
            0 <= k < s.queries.len() && (#[trigger] s.queries[k]).category is None)
            ==> configmaps::effective_session(s) is None,
        s.session is None && s.queries.len() == 0 ==> configmaps::effective_session(s) is None,
{
}

/// A file holds statements exactly when its name ends so and has a stem.
pub proof fn statements_are_in_files_of_their_name(stem: Seq<char>)
    ensures
        configmaps::names_sql(stem + ".sql"@) <==> stem.len() > 0,
{
    reveal_strlit(".sql");
    let name = stem + ".sql"@;
    assert(name.skip(name.len() - 4) =~= ".sql"@);
}

/// The phases of a run are told by their names.
pub proof fn phases_are_told_by_name(p: LifecyclePhase)
    ensures
        p.label() == (match p {
            LifecyclePhase::Pending => "Pending"@,
            LifecyclePhase::Preparing => "Preparing"@,
            LifecyclePhase::Initializing => "Initializing"@,
            LifecyclePhase::Running => "Running"@,
            LifecyclePhase::Aggregating => "Aggregating"@,
            LifecyclePhase::Reporting => "Reporting"@,
            LifecyclePhase::Completed => "Completed"@,
            LifecyclePhase::Failed => "Failed"@,
        }),
{
}

} // verus!
