//! The report of a run as a JSON document.
use vstd::prelude::*;
use vstd::string::*;
use vstd::utf8::encode_utf8;
use crate::categories;
use crate::criteria;
use crate::docs;
use crate::docs::ToDoc;
use crate::groups;
use crate::groups::{GroupFigures, GroupFiguresView};
use crate::json::{Doc, Json};
use crate::lifecycle;
use crate::metrics;
use crate::metrics::{
    AggregatedMetricPoint, DerivedMetrics, Measure, PerQueryTimeSeries, PerQueryTimeSeriesPoint,
    PointView, QueryPointView, Scorecard, TimeSeries, MAX_POINTS,
};
use crate::model;
use crate::rates;
use crate::results;
use crate::scenario::{PhaseDef, PhaseView, Scenario, ScenarioView, StreamView};
use crate::seeds;
use crate::text;

verus! {

/// What a report needs besides the measurements: the version of the harness, the time, and
/// the text of the scenario.
pub struct ReportContext {
    pub version: String,
    pub timestamp: String,
    pub config_text: String,
}

/// The tables that a report repeats.
pub struct ReportTables {
    pub timed_out_queries: Vec<Json>,
    pub per_category_latency: Vec<Json>,
    pub per_query_latency: Vec<Json>,
    pub per_query_timeseries: Vec<PerQueryTimeSeries>,
}

// ---------------------------------------------------------------------------
// Numbers
// ---------------------------------------------------------------------------

/// A sum, for a document; the greatest number of 64 bits where it is greater.
pub open spec fn total_doc(n: int) -> Doc {
    Doc::Uint(rates::at_most_u64(n) as nat)
}

/// A rate, for a document.
pub open spec fn rate_doc(n: int, seconds: u64) -> Doc {
    lifecycle::ratio_doc(metrics::quotient(n, seconds as int))
}

/// The rate of queries that a phase aims at, for a document.
pub open spec fn target_doc(pqps: u128) -> Doc {
    Doc::Quotient { num: pqps as nat, den: 1_000_000_000_000 }
}

fn total_json(n: u128) -> (r: Json)
    ensures
        r.doc() == total_doc(n as int),
{
    if n > u64::MAX as u128 {
        Json::Uint(u64::MAX)
    } else {
        Json::Uint(n as u64)
    }
}

fn rate_json(n: u128, seconds: u64) -> (r: Json)
    ensures
        r.doc() == rate_doc(n as int, seconds),
{
    lifecycle::ratio_json(metrics::ratio_of(n, seconds as u128))
}

// ---------------------------------------------------------------------------
// Phases
// ---------------------------------------------------------------------------

/// What a phase ingested.
pub open spec fn phase_ingest_doc(p: PhaseView, points: Seq<PointView>, s: ScenarioView) -> Doc {
    let produced = metrics::phase_total(points, p.name, Measure::Produced);
    Doc::object().with("target_eps"@, total_doc(s.total_phase_eps(p.name))).with(
        "achieved_avg_eps"@,
        rate_doc(produced, p.duration_seconds),
    ).with("total_events"@, total_doc(produced))
}

/// What became of a phase's queries. Of the errors, those that ran out of time are told
/// apart.
pub open spec fn phase_query_doc(p: PhaseView, points: Seq<PointView>, timed_out: Seq<Doc>) -> Doc {
    let executed = metrics::phase_total(points, p.name, Measure::Executed);
    let errors = metrics::phase_total(points, p.name, Measure::Errors);
    let timeouts = rates::at_most_u64(
        categories::saying(timed_out, "phase"@, p.name, timed_out.len() as int) as int,
    );
    Doc::object().with("target_qps"@, target_doc(p.target_pqps)).with(
        "achieved_avg_qps"@,
        rate_doc(executed, p.duration_seconds),
    ).with(
        "concurrent_sessions"@,
        Doc::Uint(metrics::phase_peak(points, p.name, Measure::Sessions) as nat),
    ).with("total_queries"@, total_doc(executed)).with("total_errors"@, total_doc(errors)).with(
        "total_non_timeout_errors"@,
        total_doc(
            if errors > timeouts {
                errors - timeouts
            } else {
                0
            },
        ),
    ).with("total_timeouts"@, Doc::Uint(timeouts as nat)).with(
        "error_rate"@,
        lifecycle::ratio_doc(metrics::quotient(errors, executed)),
    ).with(
        "latency_p50_ms"@,
        lifecycle::ms_doc(metrics::phase_mean(points, p.name, Measure::P50)),
    ).with(
        "latency_p95_ms"@,
        lifecycle::ms_doc(metrics::phase_mean(points, p.name, Measure::P95)),
    ).with(
        "latency_p99_ms"@,
        lifecycle::ms_doc(metrics::phase_mean(points, p.name, Measure::P99)),
    )
}

/// The summary of a phase.
pub open spec fn phase_doc(
    p: PhaseView,
    points: Seq<PointView>,
    s: ScenarioView,
    timed_out: Seq<Doc>,
) -> Doc {
    Doc::object().with("name"@, Doc::Text(p.name)).with(
        "display_name"@,
        Doc::Text(p.display_name),
    ).with("duration_s"@, Doc::Uint(p.duration_seconds as nat)).with(
        "ingest"@,
        phase_ingest_doc(p, points, s),
    ).with("query"@, phase_query_doc(p, points, timed_out)).with(
        "kafka_peak_consumer_lag"@,
        Doc::Uint(metrics::phase_peak(points, p.name, Measure::Lag) as nat),
    )
}

fn phase_ingest_json(p: &PhaseDef, points: &Vec<AggregatedMetricPoint>, s: &Scenario) -> (r: Json)
    ensures
        r.doc() == phase_ingest_doc(p@, model::vmap(points@), s@),
{
    let produced: u128 = metrics::phase_sum(points, p.name.as_str(), Measure::Produced);
    Json::object().with("target_eps", total_json(s.phase_target_eps(p.name.as_str()))).with(
        "achieved_avg_eps",
        rate_json(produced, p.duration_seconds),
    ).with("total_events", total_json(produced))
}

fn phase_query_json(p: &PhaseDef, points: &Vec<AggregatedMetricPoint>, timed_out: &Vec<Json>) -> (r:
    Json)
    requires
        points@.len() <= MAX_POINTS,
    ensures
        r.doc() == phase_query_doc(p@, model::vmap(points@), model::vmap(timed_out@)),
{
    let name = p.name.as_str();
    let executed: u128 = metrics::phase_sum(points, name, Measure::Executed);
    let errors: u128 = metrics::phase_sum(points, name, Measure::Errors);
    let timeouts: u64 = categories::count_saying(timed_out, "phase", name);
    let others: u128 = if errors > timeouts as u128 {
        errors - timeouts as u128
    } else {
        0
    };
    Json::object().with(
        "target_qps",
        Json::Quotient { num: p.query.target_pqps, den: 1_000_000_000_000 },
    ).with("achieved_avg_qps", rate_json(executed, p.duration_seconds)).with(
        "concurrent_sessions",
        Json::Uint(metrics::phase_max(points, name, Measure::Sessions)),
    ).with("total_queries", total_json(executed)).with("total_errors", total_json(errors)).with(
        "total_non_timeout_errors",
        total_json(others),
    ).with("total_timeouts", Json::Uint(timeouts)).with(
        "error_rate",
        lifecycle::ratio_json(metrics::ratio_of(errors, executed)),
    ).with(
        "latency_p50_ms",
        lifecycle::ms_json(metrics::mean_of(points, name, Measure::P50)),
    ).with(
        "latency_p95_ms",
        lifecycle::ms_json(metrics::mean_of(points, name, Measure::P95)),
    ).with(
        "latency_p99_ms",
        lifecycle::ms_json(metrics::mean_of(points, name, Measure::P99)),
    )
}

fn phase_json(
    p: &PhaseDef,
    points: &Vec<AggregatedMetricPoint>,
    s: &Scenario,
    timed_out: &Vec<Json>,
) -> (r: Json)
    requires
        points@.len() <= MAX_POINTS,
    ensures
        r.doc() == phase_doc(p@, model::vmap(points@), s@, model::vmap(timed_out@)),
{
    Json::object().with("name", Json::text(p.name.as_str())).with(
        "display_name",
        Json::text(p.display_name.as_str()),
    ).with("duration_s", Json::Uint(p.duration_seconds)).with(
        "ingest",
        phase_ingest_json(p, points, s),
    ).with("query", phase_query_json(p, points, timed_out)).with(
        "kafka_peak_consumer_lag",
        Json::Uint(metrics::phase_max(points, p.name.as_str(), Measure::Lag)),
    )
}

/// The summaries of all phases.
pub open spec fn phases_doc(points: Seq<PointView>, s: ScenarioView, timed_out: Seq<Doc>) -> Doc {
    Doc::Array(s.phases.map_values(|p: PhaseView| phase_doc(p, points, s, timed_out)))
}

fn array_json(v: Vec<Json>) -> (r: Json)
    ensures
        r.doc() == Doc::Array(model::vmap(v@)),
{
    proof {
        Json::doc_of_array(v);
        assert(Seq::new(v@.len(), |i: int| v@[i].doc()) =~= model::vmap(v@));
    }
    Json::Array(v)
}

fn copies(v: &Vec<Json>) -> (r: Json)
    ensures
        r.doc() == Doc::Array(model::vmap(v@)),
{
    let ghost all = model::vmap(v@);
    let mut out: Vec<Json> = Vec::new();
    let mut i: usize = 0;
    assert(model::vmap(out@) =~= all.take(0));
    while i < v.len()
        invariant
            i <= v@.len(),
            all == model::vmap(v@),
            model::vmap(out@) == all.take(i as int),
        decreases v@.len() - i,
    {
        broadcast use model::vmap_push, model::take_push;

        out.push(v[i].copy());
        i += 1;
    }
    assert(all.take(i as int) =~= all);
    array_json(out)
}

fn phases_json(points: &Vec<AggregatedMetricPoint>, s: &Scenario, timed_out: &Vec<Json>) -> (r:
    Json)
    requires
        points@.len() <= MAX_POINTS,
    ensures
        r.doc() == phases_doc(model::vmap(points@), s@, model::vmap(timed_out@)),
{
    let ghost pv = model::vmap(points@);
    let ghost tv = model::vmap(timed_out@);
    let ghost all = s@.phases.map_values(|p: PhaseView| phase_doc(p, pv, s@, tv));
    let phases = &s.timeline.phases;
    let mut out: Vec<Json> = Vec::new();
    let mut i: usize = 0;
    assert(model::vmap(out@) =~= all.take(0));
    while i < phases.len()
        invariant
            i <= phases@.len(),
            points@.len() <= MAX_POINTS,
            *phases == s.timeline.phases,
            pv == model::vmap(points@),
            tv == model::vmap(timed_out@),
            all == s@.phases.map_values(|p: PhaseView| phase_doc(p, pv, s@, tv)),
            model::vmap(out@) == all.take(i as int),
        decreases phases@.len() - i,
    {
        broadcast use model::vmap_push, model::take_push;

        assert(s@.phases[i as int] == phases@[i as int]@);
        out.push(phase_json(&phases[i], points, s, timed_out));
        i += 1;
    }
    assert(all.take(i as int) =~= all);
    array_json(out)
}

// ---------------------------------------------------------------------------
// Groups
// ---------------------------------------------------------------------------

/// How a group fared.
pub open spec fn group_doc(f: GroupFiguresView, baseline_s: u64, overlap_s: u64) -> Doc {
    Doc::object().with("warehouse"@, Doc::Text(f.warehouse)).with(
        "baseline_p99_ms"@,
        lifecycle::ms_doc(f.baseline.mean_p99()),
    ).with("overlap_p99_ms"@, lifecycle::ms_doc(f.overlap.mean_p99())).with(
        "p99_degradation_ratio"@,
        lifecycle::ratio_doc(f.degradation()),
    ).with("baseline_avg_qps"@, lifecycle::ratio_doc(f.baseline.rate_over(baseline_s))).with(
        "overlap_avg_qps"@,
        lifecycle::ratio_doc(f.overlap.rate_over(overlap_s)),
    ).with("overlap_error_rate"@, lifecycle::ratio_doc(f.overlap.error_rate()))
}

/// How the groups fared, by their names; nothing where there are none.
pub open spec fn groups_doc(points: Seq<PointView>, s: ScenarioView) -> Doc {
    let all = groups::all_figures(points);
    if all.len() == 0 {
        Doc::Null
    } else {
        Doc::Object(
            all.map_values(
                |e: (Seq<char>, GroupFiguresView)|
                    (
                        e.0,
                        group_doc(
                            e.1,
                            criteria::seconds_of(s.phases, "baseline"@),
                            criteria::seconds_of(s.phases, "overlap"@),
                        ),
                    ),
            ),
        )
    }
}

fn group_json(f: &GroupFigures, baseline_s: u64, overlap_s: u64) -> (r: Json)
    requires
        f@.baseline.wf(),
        f@.overlap.wf(),
    ensures
        r.doc() == group_doc(f@, baseline_s, overlap_s),
{
    Json::object().with("warehouse", Json::text(f.warehouse.as_str())).with(
        "baseline_p99_ms",
        lifecycle::ms_json(f.baseline.p99_mean()),
    ).with("overlap_p99_ms", lifecycle::ms_json(f.overlap.p99_mean())).with(
        "p99_degradation_ratio",
        lifecycle::ratio_json(f.degradation_ratio()),
    ).with("baseline_avg_qps", lifecycle::ratio_json(f.baseline.queries_over(baseline_s))).with(
        "overlap_avg_qps",
        lifecycle::ratio_json(f.overlap.queries_over(overlap_s)),
    ).with("overlap_error_rate", lifecycle::ratio_json(f.overlap.failed_share()))
}

fn phase_seconds(s: &Scenario, name: &str) -> (r: u64)
    ensures
        r == criteria::seconds_of(s@.phases, name@),
{
    match criteria::find_phase(&s.timeline.phases, name) {
        Some(p) => p.duration_seconds,
        None => 0,
    }
}

/// How the groups fared, by their names; nothing where there are none.
pub fn build_query_group_comparison(timeseries: &TimeSeries, s: &Scenario) -> (r: Json)
    requires
        timeseries.points@.len() <= MAX_POINTS,
    ensures
        r.doc() == groups_doc(timeseries@, s@),
{
    let list = groups::compare_groups(&timeseries.points);
    if list.len() == 0 {
        return Json::Null;
    }
    let baseline_s: u64 = phase_seconds(s, "baseline");
    let overlap_s: u64 = phase_seconds(s, "overlap");
    let ghost all = groups::all_figures(timeseries@);
    let ghost want = all.map_values(
        |e: (Seq<char>, GroupFiguresView)| (e.0, group_doc(e.1, baseline_s, overlap_s)),
    );
    let mut members: Vec<(String, Json)> = Vec::new();
    let mut i: usize = 0;
    while i < list.len()
        invariant
            i <= list@.len(),
            all == model::vmap(list@),
            groups::figures_wf(all),
            want == all.map_values(
                |e: (Seq<char>, GroupFiguresView)| (e.0, group_doc(e.1, baseline_s, overlap_s)),
            ),
            members@.len() == i,
            forall|k: int|
                0 <= k < i ==> (#[trigger] members@[k]).0@ == want[k].0 && members@[k].1.doc()
                    == want[k].1,
        decreases list@.len() - i,
    {
        assert(all[i as int] == list@[i as int]@);
        members.push((list[i].0.clone(), group_json(&list[i].1, baseline_s, overlap_s)));
        i += 1;
    }
    proof {
        Json::doc_of_object(members);
        assert(crate::json::members_of(members@) =~= want);
    }
    Json::Object(members)
}

// ---------------------------------------------------------------------------
// The report
// ---------------------------------------------------------------------------

/// What is derived from a run's points, for a document.
pub open spec fn derived_doc(d: DerivedMetrics) -> Doc {
    Doc::object().with("query_baseline_p50"@, lifecycle::ms_doc(d.query_baseline_p50)).with(
        "query_baseline_p99"@,
        lifecycle::ms_doc(d.query_baseline_p99),
    ).with("query_overlap_p50"@, lifecycle::ms_doc(d.query_overlap_p50)).with(
        "query_overlap_p99"@,
        lifecycle::ms_doc(d.query_overlap_p99),
    ).with("query_p99_ratio"@, lifecycle::ratio_doc(d.query_p99_ratio)).with(
        "query_error_rate_overlap"@,
        lifecycle::ratio_doc(d.query_error_rate_overlap),
    ).with("query_throughput_ratio"@, lifecycle::ratio_doc(d.query_throughput_ratio)).with(
        "ingest_baseline_eps"@,
        lifecycle::ratio_doc(d.ingest_baseline_eps),
    ).with("ingest_peak_eps"@, Doc::Uint(d.ingest_peak_eps as nat)).with(
        "ingest_throughput_ratio"@,
        lifecycle::ratio_doc(d.ingest_throughput_ratio),
    ).with("ingest_peak_backlog"@, Doc::Uint(d.ingest_peak_backlog as nat)).with(
        "ingest_backlog_drain_time_s"@,
        Doc::Uint(d.ingest_backlog_drain_time_s as nat),
    ).with("recovery_time_to_baseline_s"@, Doc::Uint(d.recovery_time_to_baseline_s as nat))
}

fn derived_json(d: &DerivedMetrics) -> (r: Json)
    requires
        d.wf(),
    ensures
        r.doc() == derived_doc(*d),
{
    Json::object().with("query_baseline_p50", lifecycle::ms_json(d.query_baseline_p50)).with(
        "query_baseline_p99",
        lifecycle::ms_json(d.query_baseline_p99),
    ).with("query_overlap_p50", lifecycle::ms_json(d.query_overlap_p50)).with(
        "query_overlap_p99",
        lifecycle::ms_json(d.query_overlap_p99),
    ).with("query_p99_ratio", lifecycle::ratio_json(d.query_p99_ratio)).with(
        "query_error_rate_overlap",
        lifecycle::ratio_json(d.query_error_rate_overlap),
    ).with("query_throughput_ratio", lifecycle::ratio_json(d.query_throughput_ratio)).with(
        "ingest_baseline_eps",
        lifecycle::ratio_json(d.ingest_baseline_eps),
    ).with("ingest_peak_eps", Json::Uint(d.ingest_peak_eps)).with(
        "ingest_throughput_ratio",
        lifecycle::ratio_json(d.ingest_throughput_ratio),
    ).with("ingest_peak_backlog", Json::Uint(d.ingest_peak_backlog)).with(
        "ingest_backlog_drain_time_s",
        Json::Uint(d.ingest_backlog_drain_time_s),
    ).with("recovery_time_to_baseline_s", Json::Uint(d.recovery_time_to_baseline_s))
}

impl ToDoc for PerQueryTimeSeriesPoint {
    open spec fn doc_of(v: QueryPointView) -> Doc {
        Doc::object().with("timestamp_s"@, Doc::Uint(v.timestamp_s as nat)).with(
            "phase"@,
            Doc::Text(v.phase),
        ).with("p95_ms"@, categories::ms(v.p95_ns as nat)).with("count"@, Doc::Uint(v.count as nat)).with(
            "error_count"@,
            Doc::Uint(v.error_count as nat),
        )
    }

    fn to_json(&self) -> (r: Json) {
        Json::object().with("timestamp_s", Json::Uint(self.timestamp_s)).with(
            "phase",
            Json::text(self.phase.as_str()),
        ).with("p95_ms", Json::Quotient { num: self.p95_ns as u128, den: 1_000_000 }).with(
            "count",
            Json::Uint(self.count),
        ).with("error_count", Json::Uint(self.error_count))
    }
}

impl ToDoc for PerQueryTimeSeries {
    open spec fn doc_of(v: (Seq<char>, Seq<QueryPointView>)) -> Doc {
        Doc::object().with("query_name"@, Doc::Text(v.0)).with(
            "points"@,
            docs::list_doc::<PerQueryTimeSeriesPoint>(v.1),
        )
    }

    fn to_json(&self) -> (r: Json) {
        Json::object().with("query_name", Json::text(self.query_name.as_str())).with(
            "points",
            docs::list_json(&self.points),
        )
    }
}

/// The indexes that the streams go to.
pub open spec fn topics(s: ScenarioView) -> Seq<Seq<char>> {
    s.stream_list().map_values(|d: StreamView| d.schema.index_name)
}

fn topics_of(s: &Scenario) -> (r: Vec<String>)
    ensures
        model::vmap(r@) == topics(s@),
{
    let ghost want = topics(s@);
    let mut out: Vec<String> = Vec::new();
    assert(model::vmap(out@) =~= want.take(0));
    match &s.data_streams {
        None => {
            assert(want =~= Seq::<Seq<char>>::empty());
        },
        Some(streams) => {
            let mut i: usize = 0;
            while i < streams.len()
                invariant
                    i <= streams@.len(),
                    want == model::vmap(streams@).map_values(
                        |d: StreamView| d.schema.index_name,
                    ),
                    model::vmap(out@) == want.take(i as int),
                decreases streams@.len() - i,
            {
                broadcast use model::vmap_push, model::take_push;

                assert(model::vmap(streams@)[i as int] == streams@[i as int]@);
                out.push(streams[i].schema.index_name.clone());
                i += 1;
            }
            assert(want.take(i as int) =~= want);
        },
    }
    out
}

/// The scenario of a run.
pub open spec fn scenario_doc(s: ScenarioView) -> Doc {
    Doc::object().with("name"@, Doc::Text(s.meta.name)).with(
        "version"@,
        Doc::Text(s.meta.version),
    ).with("display_name"@, Doc::Text(s.meta.display_name)).with(
        "description"@,
        Doc::Text(s.meta.description),
    ).with("domain"@, Doc::Text(s.meta.domain))
}

/// The harness of a run.
pub open spec fn harness_doc(s: ScenarioView) -> Doc {
    Doc::object().with(
        "workers"@,
        Doc::object().with("ingest_replicas"@, Doc::Uint(10)).with("query_replicas"@, Doc::Uint(4)),
    ).with(
        "kafka"@,
        Doc::object().with("bootstrap_servers"@, Doc::Text(""@)).with(
            "topics"@,
            docs::list_doc::<String>(topics(s)),
        ).with("partitions"@, Doc::Uint(10)),
    ).with(
        "scaling"@,
        Doc::object().with("rate_scale"@, Doc::Uint(1)).with("duration_scale"@, Doc::Uint(1)),
    )
}

/// Whether a run may be used, and why not.
pub open spec fn run_doc(points: Seq<PointView>, s: ScenarioView, timestamp: Seq<char>) -> Doc {
    Doc::object().with("id"@, Doc::Text(""@)).with("timestamp"@, Doc::Text(timestamp)).with(
        "valid"@,
        Doc::Bool(criteria::violations(points, s).len() == 0),
    ).with("validity_violations"@, docs::list_doc::<String>(criteria::violations(points, s))).with(
        "warnings"@,
        docs::list_doc::<String>(criteria::warnings(points, s)),
    ).with("harness_saturated"@, Doc::Bool(results::sustained_in(points))).with(
        "saturated_workers"@,
        Doc::array(),
    )
}

/// The report of a run.
pub open spec fn report_doc(
    s: ScenarioView,
    points: Seq<PointView>,
    resolution_s: u32,
    d: DerivedMetrics,
    card: Scorecard,
    c: ReportContext,
    t: ReportTables,
) -> Doc {
    Doc::object().with("incidentbench_version"@, Doc::Text(c.version@)).with(
        "scenario"@,
        scenario_doc(s),
    ).with(
        "target"@,
        Doc::object().with("adapter"@, Doc::Text("mach5"@)).with(
            "config_hash"@,
            Doc::Text(seeds::hex(seeds::sha256(encode_utf8(c.config_text@)))),
        ),
    ).with("harness"@, harness_doc(s)).with("run"@, run_doc(points, s, c.timestamp@)).with(
        "scorecard"@,
        lifecycle::scorecard_doc(card),
    ).with("derived_metrics"@, derived_doc(d)).with(
        "phases"@,
        phases_doc(points, s, model::vmap(t.timed_out_queries@)),
    ).with(
        "timeseries"@,
        Doc::object().with("resolution_s"@, Doc::Uint(resolution_s as nat)).with(
            "point_count"@,
            Doc::Uint(points.len()),
        ),
    ).with("query_groups"@, groups_doc(points, s)).with(
        "timed_out_queries"@,
        Doc::Array(model::vmap(t.timed_out_queries@)),
    ).with("per_category_latency"@, Doc::Array(model::vmap(t.per_category_latency@))).with(
        "per_query_latency"@,
        Doc::Array(model::vmap(t.per_query_latency@)),
    ).with(
        "per_query_timeseries"@,
        docs::list_doc::<PerQueryTimeSeries>(model::vmap(t.per_query_timeseries@)),
    )
}

fn scenario_json(s: &Scenario) -> (r: Json)
    ensures
        r.doc() == scenario_doc(s@),
{
    Json::object().with("name", Json::text(s.scenario.name.as_str())).with(
        "version",
        Json::text(s.scenario.version.as_str()),
    ).with("display_name", Json::text(s.scenario.display_name.as_str())).with(
        "description",
        Json::text(s.scenario.description.as_str()),
    ).with("domain", Json::text(s.scenario.domain.as_str()))
}

fn harness_json(s: &Scenario) -> (r: Json)
    ensures
        r.doc() == harness_doc(s@),
{
    Json::object().with(
        "workers",
        Json::object().with("ingest_replicas", Json::Uint(10)).with(
            "query_replicas",
            Json::Uint(4),
        ),
    ).with(
        "kafka",
        Json::object().with("bootstrap_servers", Json::text("")).with(
            "topics",
            docs::list_json(&topics_of(s)),
        ).with("partitions", Json::Uint(10)),
    ).with(
        "scaling",
        Json::object().with("rate_scale", Json::Uint(1)).with("duration_scale", Json::Uint(1)),
    )
}

proof fn views_are_vmap(v: Seq<String>)
    ensures
        text::views(v) == model::vmap(v),
{
    assert(text::views(v) =~= model::vmap(v));
}

fn run_json(timeseries: &TimeSeries, s: &Scenario, timestamp: &str) -> (r: Json)
    requires
        timeseries.points@.len() <= MAX_POINTS,
        s@.total_phase_eps("baseline"@) <= u64::MAX,
    ensures
        r.doc() == run_doc(timeseries@, s@, timestamp@),
{
    let (valid, against, aside) = criteria::evaluate_validity(timeseries, s);
    proof {
        views_are_vmap(against@);
        views_are_vmap(aside@);
    }
    Json::object().with("id", Json::text("")).with("timestamp", Json::text(timestamp)).with(
        "valid",
        Json::Bool(valid),
    ).with("validity_violations", docs::list_json(&against)).with(
        "warnings",
        docs::list_json(&aside),
    ).with("harness_saturated", Json::Bool(results::saturated(&timeseries.points))).with(
        "saturated_workers",
        Json::array(),
    )
}

/// The report of a run.
pub fn generate(
    s: &Scenario,
    timeseries: &TimeSeries,
    derived: &DerivedMetrics,
    card: &Scorecard,
    context: &ReportContext,
    tables: &ReportTables,
) -> (r: Json)
    requires
        timeseries.points@.len() <= MAX_POINTS,
        s@.total_phase_eps("baseline"@) <= u64::MAX,
        derived.wf(),
        card.wf(),
    ensures
        r.doc() == report_doc(
            s@,
            timeseries@,
            timeseries.resolution_s,
            *derived,
            *card,
            *context,
            *tables,
        ),
{
    let hash = seeds::compute_config_hash(context.config_text.as_str());
    Json::object().with("incidentbench_version", Json::text(context.version.as_str())).with(
        "scenario",
        scenario_json(s),
    ).with(
        "target",
        Json::object().with("adapter", Json::text("mach5")).with("config_hash", Json::Text(hash)),
    ).with("harness", harness_json(s)).with(
        "run",
        run_json(timeseries, s, context.timestamp.as_str()),
    ).with("scorecard", lifecycle::scorecard_json(card)).with(
        "derived_metrics",
        derived_json(derived),
    ).with("phases", phases_json(&timeseries.points, s, &tables.timed_out_queries)).with(
        "timeseries",
        Json::object().with("resolution_s", Json::Uint(timeseries.resolution_s as u64)).with(
            "point_count",
            Json::Uint(timeseries.points.len() as u64),
        ),
    ).with("query_groups", build_query_group_comparison(timeseries, s)).with(
        "timed_out_queries",
        copies(&tables.timed_out_queries),
    ).with("per_category_latency", copies(&tables.per_category_latency)).with(
        "per_query_latency",
        copies(&tables.per_query_latency),
    ).with("per_query_timeseries", docs::list_json(&tables.per_query_timeseries))
}

} // verus!
