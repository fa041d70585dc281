//! The report of a run as a page.
use vstd::prelude::*;
use vstd::string::*;
use crate::criteria;
use crate::decimal;
use crate::decimal::Ratio;
use crate::events;
use crate::groups;
use crate::groups::{GroupFigures, GroupFiguresView};
use crate::html_laws;
use crate::metrics;
use crate::metrics::{AggregatedMetricPoint, Measure, PointView, Scorecard, TimeSeries, MAX_POINTS};
use crate::model;
use crate::scenario::{PhaseDef, PhaseView, Scenario, ScenarioView};
use crate::text;

verus! {

// ---------------------------------------------------------------------------
// The fixed parts of the page
// ---------------------------------------------------------------------------

/// The page up to its title.
pub const TITLE: &'static str = r#"<!DOCTYPE html>
<html lang="en">
<head>
<meta charset="UTF-8">
<meta name="viewport" content="width=device-width, initial-scale=1.0">
<title>IncidentBench Report — "#;

/// From the title to the style: what draws the charts.
pub const DRAWING: &'static str = r#"</title>
<script>
class Chart {
  constructor(canvas, config) {
    this.canvas = canvas;
    this.config = config;
    this.draw();
    window.addEventListener('resize', () => this.draw());
  }
  draw() {
    const { labels, datasets } = this.config.data;
    const width = this.canvas.parentElement.clientWidth - 32, height = 300;
    const left = 70, right = 10, top = 30, bottom = 30;
    this.canvas.width = width;
    this.canvas.height = height;
    const g = this.canvas.getContext('2d');
    const peak = datasets.reduce((m, d) => d.data.reduce((n, v) => Math.max(n, v), m), 1);
    const x = i => left + (width - left - right) * i / Math.max(1, labels.length - 1);
    const y = v => height - bottom - (height - top - bottom) * v / peak;
    g.font = '11px sans-serif';
    g.fillStyle = '#999';
    g.strokeStyle = '#333';
    for (let k = 0; k <= 4; k++) {
      const v = peak * k / 4;
      g.fillText(peak < 10 ? v.toFixed(1) : Math.round(v), 5, y(v) + 4);
      g.beginPath();
      g.moveTo(left, y(v));
      g.lineTo(width - right, y(v));
      g.stroke();
    }
    const step = Math.max(1, Math.ceil(labels.length / 10));
    for (let i = 0; i < labels.length; i += step) g.fillText(labels[i], x(i), height - 10);
    g.strokeStyle = '#666';
    for (const [second, phase] of phaseBoundaries) {
      const at = x(labels.indexOf(second));
      g.beginPath();
      g.moveTo(at, top);
      g.lineTo(at, height - bottom);
      g.stroke();
      g.fillText(phase, at + 3, top + 10);
    }
    datasets.forEach((d, n) => {
      g.strokeStyle = d.borderColor;
      g.lineWidth = d.borderWidth;
      g.setLineDash(d.borderDash || []);
      g.beginPath();
      d.data.forEach((v, i) => i ? g.lineTo(x(i), y(v)) : g.moveTo(x(i), y(v)));
      g.stroke();
      g.setLineDash([]);
      if (d.fill) {
        g.lineTo(x(d.data.length - 1), y(0));
        g.lineTo(x(0), y(0));
        g.fillStyle = d.backgroundColor;
        g.fill();
      }
      g.fillStyle = d.borderColor;
      g.fillText(d.label, left + 120 * n, 15);
      g.fillStyle = '#999';
    });
  }
}
</script>
"#;

/// From the style to the name of the scenario.
pub const STYLE: &'static str = r#"<style>
  :root {
    --bg: #0a0a0a; --fg: #e0e0e0; --accent: #4fc3f7; --danger: #ef5350;
    --success: #66bb6a; --warning: #ffa726; --card-bg: #1a1a1a;
    --border: #333;
  }
  * { margin: 0; padding: 0; box-sizing: border-box; }
  body { font-family: 'Inter', system-ui, sans-serif; background: var(--bg); color: var(--fg); padding: 2rem; line-height: 1.6; }
  h1 { color: var(--accent); margin-bottom: 0.5rem; font-size: 1.8rem; }
  h2 { color: var(--accent); margin: 2rem 0 1rem; font-size: 1.3rem; border-bottom: 1px solid var(--border); padding-bottom: 0.5rem; }
  .header { display: flex; justify-content: space-between; align-items: center; margin-bottom: 2rem; }
  .badge { padding: 0.25rem 0.75rem; border-radius: 4px; font-weight: 600; font-size: 0.85rem; }
  .badge.valid { background: var(--success); color: #000; }
  .badge.invalid { background: var(--danger); color: #fff; }
  .scorecard { display: grid; grid-template-columns: repeat(auto-fit, minmax(200px, 1fr)); gap: 1rem; margin: 1rem 0; }
  .metric-card { background: var(--card-bg); border: 1px solid var(--border); border-radius: 8px; padding: 1.25rem; }
  .metric-card .label { color: #999; font-size: 0.8rem; text-transform: uppercase; letter-spacing: 0.05em; }
  .metric-card .value { font-size: 2rem; font-weight: 700; margin: 0.25rem 0; }
  .metric-card .unit { color: #666; font-size: 0.85rem; }
  .chart-container { background: var(--card-bg); border: 1px solid var(--border); border-radius: 8px; padding: 1rem; margin: 1rem 0; }
  table { width: 100%; border-collapse: collapse; margin: 1rem 0; }
  th, td { padding: 0.75rem 1rem; text-align: left; border-bottom: 1px solid var(--border); }
  th { color: #999; font-weight: 600; font-size: 0.85rem; text-transform: uppercase; }
  .meta { color: #666; font-size: 0.85rem; }
  canvas { max-height: 300px; }
</style>
</head>
<body>
<div class="header">
  <div>
    <h1>IncidentBench Report</h1>
    <div class="meta">"#;

/// From the time to the badge.
pub const BADGE: &'static str = r#"</div>
  </div>
  <span class="badge "#;

/// From the badge to the first card.
pub const BASELINE_CARD: &'static str = r#"</span>
</div>

<h2>Scorecard</h2>
<div class="scorecard">
  <div class="metric-card">
    <div class="label">Baseline p99</div>
    <div class="value">"#;

/// From one card to the next.
pub const OVERLAP_CARD: &'static str = r#"</div>
    <div class="unit">ms</div>
  </div>
  <div class="metric-card">
    <div class="label">Overlap p99</div>
    <div class="value">"#;

/// From one card to the next.
pub const DEGRADATION_CARD: &'static str = r#"</div>
    <div class="unit">ms</div>
  </div>
  <div class="metric-card">
    <div class="label">Degradation Ratio</div>
    <div class="value">"#;

/// From one card to the next.
pub const ERROR_CARD: &'static str = r#"x</div>
    <div class="unit">overlap / baseline</div>
  </div>
  <div class="metric-card">
    <div class="label">Query Error Rate</div>
    <div class="value">"#;

/// From one card to the next.
pub const BACKLOG_CARD: &'static str = r#"%</div>
    <div class="unit">during overlap</div>
  </div>
  <div class="metric-card">
    <div class="label">Peak Backlog</div>
    <div class="value">"#;

/// From one card to the next.
pub const DRAIN_CARD: &'static str = r#"</div>
    <div class="unit">events (Kafka lag)</div>
  </div>
  <div class="metric-card">
    <div class="label">Backlog Drain</div>
    <div class="value">"#;

/// From one card to the next.
pub const RECOVERY_CARD: &'static str = r#"</div>
    <div class="unit">seconds</div>
  </div>
  <div class="metric-card">
    <div class="label">Recovery Time</div>
    <div class="value">"#;

/// From the last card to the groups.
pub const CHARTS: &'static str = r#"</div>
    <div class="unit">seconds to baseline</div>
  </div>
</div>

<h2>Ingestion Timeline</h2>
<div class="chart-container"><canvas id="ingestChart"></canvas></div>

<h2>Query Latency Timeline</h2>
<div class="chart-container"><canvas id="latencyChart"></canvas></div>

<h2>Kafka Consumer Lag</h2>
<div class="chart-container"><canvas id="lagChart"></canvas></div>

"#;

/// From the groups to the phases.
pub const PHASE_TABLE: &'static str = r#"

<h2>Phase Summary</h2>
<table>
  <tr><th>Phase</th><th>Duration</th><th>Ingest EPS</th><th>Query QPS</th><th>p99 Latency</th><th>Kafka Lag</th></tr>
  "#;

/// From the phases to the version.
pub const METADATA: &'static str = r#"
</table>

<h2>Run Metadata</h2>
<table>
  <tr><td>Harness Version</td><td>"#;

/// From one row to the next.
pub const SCENARIO_ROW: &'static str = r#"</td></tr>
  <tr><td>Scenario</td><td>"#;

/// From one row to the next.
pub const DOMAIN_ROW: &'static str = r#"</td></tr>
  <tr><td>Domain</td><td>"#;

/// From one row to the next.
pub const DURATION_ROW: &'static str = r#"</td></tr>
  <tr><td>Total Duration</td><td>"#;

/// From one row to the next.
pub const EVENTS_ROW: &'static str = r#"s</td></tr>
  <tr><td>Total Events</td><td>"#;

/// From the last row to the times.
pub const LABELS: &'static str = r#"</td></tr>
</table>

<script>
const labels = "#;

/// From the times to the phases.
pub const PHASES: &'static str = r#";
const phases = "#;

/// From the phases to their boundaries.
pub const BOUNDARIES: &'static str = r#";
const phaseBoundaries = "#;

/// From the boundaries to the events.
pub const INGEST_CHART: &'static str = r#";

function phaseColors(phases) {
  const colorMap = {
    'baseline': 'rgba(102,187,106,0.1)',
    'incident_trigger': 'rgba(255,167,38,0.1)',
    'ingestion_surge': 'rgba(239,83,80,0.15)',
    'overlap': 'rgba(239,83,80,0.25)',
    'recovery': 'rgba(255,167,38,0.1)',
    'post_incident': 'rgba(102,187,106,0.1)',
  };
  return phases.map(p => colorMap[p] || 'rgba(0,0,0,0)');
}

new Chart(document.getElementById('ingestChart'), {
  type: 'line',
  data: {
    labels: labels,
    datasets: [
      { label: 'Achieved EPS', data: "#;

/// From the events to their target.
pub const TARGET_LINE: &'static str = r#", borderColor: '#4fc3f7', borderWidth: 1.5, pointRadius: 0, fill: false },
      { label: 'Target EPS', data: "#;

/// From the target to the high latencies.
pub const LATENCY_CHART: &'static str = r#", borderColor: '#666', borderWidth: 1, borderDash: [5,5], pointRadius: 0, fill: false },
    ]
  },
  options: { responsive: true, scales: { y: { beginAtZero: true, ticks: { color: '#999' } }, x: { ticks: { color: '#999', maxTicksLimit: 10 } } }, plugins: { legend: { labels: { color: '#ccc' } } } }
});

new Chart(document.getElementById('latencyChart'), {
  type: 'line',
  data: {
    labels: labels,
    datasets: [
      { label: 'p99', data: "#;

/// From the high latencies to the medians.
pub const MEDIAN_LINE: &'static str = r#", borderColor: '#ef5350', borderWidth: 1.5, pointRadius: 0, fill: false },
      { label: 'p50', data: "#;

/// From the medians to the lag.
pub const LAG_CHART: &'static str = r#", borderColor: '#66bb6a', borderWidth: 1.5, pointRadius: 0, fill: false },
    ]
  },
  options: { responsive: true, scales: { y: { beginAtZero: true, title: { display: true, text: 'ms', color: '#999' }, ticks: { color: '#999' } }, x: { ticks: { color: '#999', maxTicksLimit: 10 } } }, plugins: { legend: { labels: { color: '#ccc' } } } }
});

new Chart(document.getElementById('lagChart'), {
  type: 'line',
  data: {
    labels: labels,
    datasets: [
      { label: 'Consumer Lag', data: "#;

/// What is behind the lag.
pub const PAGE_END: &'static str = r#", borderColor: '#ffa726', borderWidth: 1.5, pointRadius: 0, fill: true, backgroundColor: 'rgba(255,167,38,0.1)' },
    ]
  },
  options: { responsive: true, scales: { y: { beginAtZero: true, ticks: { color: '#999' } }, x: { ticks: { color: '#999', maxTicksLimit: 10 } } }, plugins: { legend: { labels: { color: '#ccc' } } } }
});
</script>
</body>
</html>"#;

/// The head of the table of the groups.
pub const GROUP_TABLE: &'static str = r#"<h2>Query Group Comparison</h2>
<table>
  <tr><th>Group</th><th>Warehouse</th><th>Baseline p99</th><th>Overlap p99</th><th>Degradation</th><th>Baseline QPS</th><th>Overlap QPS</th><th>Error Rate</th></tr>
  "#;

/// The page up to the scenario's name, that name as a title, and the head of the page.
pub open spec fn head(s: ScenarioView, timestamp: Seq<char>, valid: bool) -> Seq<char> {
    TITLE@ + s.meta.name + DRAWING@ + STYLE@ + s.meta.display_name + " v"@ + s.meta.version + " &mdash; "@
        + timestamp + BADGE@ + (if valid {
        "valid"@
    } else {
        "invalid"@
    }) + "\">"@ + (if valid {
        "VALID"@
    } else {
        "INVALID"@
    })
}

fn head_of(s: &Scenario, timestamp: &str, valid: bool) -> (r: String)
    ensures
        r@ == head(s@, timestamp@, valid),
{
    let mut out = text::owned(TITLE);
    out.append(s.scenario.name.as_str());
    out.append(DRAWING);
    out.append(STYLE);
    out.append(s.scenario.display_name.as_str());
    out.append(" v");
    out.append(s.scenario.version.as_str());
    out.append(" &mdash; ");
    out.append(timestamp);
    out.append(BADGE);
    if valid {
        out.append("valid");
    } else {
        out.append("invalid");
    }
    out.append("\">");
    if valid {
        out.append("VALID");
    } else {
        out.append("INVALID");
    }
    out
}

// ---------------------------------------------------------------------------
// The scorecard
// ---------------------------------------------------------------------------

impl Scorecard {
    /// The figures are those of a series of no more points than it may have.
    pub open spec fn printable(self) -> bool {
        &&& metrics::bounded(self.baseline_p99_ns)
        &&& metrics::bounded(self.overlap_p99_ns)
        &&& metrics::bounded(self.p99_degradation_ratio)
        &&& metrics::bounded(self.query_error_rate_overlap)
        &&& self.baseline_p99_ns.den <= MAX_POINTS
        &&& self.overlap_p99_ns.den <= MAX_POINTS
    }
}

/// A quotient of nanoseconds in milliseconds, with one decimal.
pub open spec fn ms_text(r: Ratio) -> Seq<char> {
    decimal::fixed(r.num as nat, r.den as nat * 1_000_000, 1)
}

/// A quotient with one decimal.
pub open spec fn ratio_text(r: Ratio) -> Seq<char> {
    decimal::fixed(r.num as nat, r.den as nat, 1)
}

/// A quotient in per cent, with one decimal.
pub open spec fn percent_text(r: Ratio) -> Seq<char> {
    decimal::fixed(r.num as nat * 100, r.den as nat, 1)
}

/// A number of seconds with one decimal.
pub open spec fn seconds_text(n: u64) -> Seq<char> {
    decimal::fixed(n as nat, 1, 1)
}

pub(crate) fn ms_text_of(r: Ratio) -> (t: String)
    requires
        0 < r.den <= MAX_POINTS,
    ensures
        t@ == ms_text(r),
{
    decimal::fixed_of(r.num, r.den * 1_000_000, 1)
}

pub(crate) fn ratio_text_of(r: Ratio) -> (t: String)
    requires
        metrics::bounded(r),
    ensures
        t@ == ratio_text(r),
{
    decimal::fixed_of(r.num, r.den, 1)
}

pub(crate) fn percent_text_of(r: Ratio) -> (t: String)
    requires
        metrics::bounded(r),
    ensures
        t@ == percent_text(r),
{
    decimal::fixed_of(r.num * 100, r.den, 1)
}

/// The cards of the scorecard.
pub open spec fn cards(c: Scorecard) -> Seq<char> {
    BASELINE_CARD@ + ms_text(c.baseline_p99_ns) + OVERLAP_CARD@ + ms_text(c.overlap_p99_ns)
        + DEGRADATION_CARD@ + ratio_text(c.p99_degradation_ratio) + ERROR_CARD@ + percent_text(
        c.query_error_rate_overlap,
    ) + BACKLOG_CARD@ + text::decimal(c.peak_backlog as nat) + DRAIN_CARD@ + seconds_text(
        c.backlog_drain_time_s,
    ) + RECOVERY_CARD@ + seconds_text(c.recovery_time_s) + CHARTS@
}

fn cards_of(c: &Scorecard) -> (r: String)
    requires
        c.printable(),
    ensures
        r@ == cards(*c),
{
    let mut out = text::owned(BASELINE_CARD);
    out.append(ms_text_of(c.baseline_p99_ns).as_str());
    out.append(OVERLAP_CARD);
    out.append(ms_text_of(c.overlap_p99_ns).as_str());
    out.append(DEGRADATION_CARD);
    out.append(ratio_text_of(c.p99_degradation_ratio).as_str());
    out.append(ERROR_CARD);
    out.append(percent_text_of(c.query_error_rate_overlap).as_str());
    out.append(BACKLOG_CARD);
    out.append(text::decimal_u64(c.peak_backlog).as_str());
    out.append(DRAIN_CARD);
    out.append(decimal::fixed_of(c.backlog_drain_time_s as u128, 1, 1).as_str());
    out.append(RECOVERY_CARD);
    out.append(decimal::fixed_of(c.recovery_time_s as u128, 1, 1).as_str());
    out.append(CHARTS);
    out
}

// ---------------------------------------------------------------------------
// Groups
// ---------------------------------------------------------------------------

/// The row of a group.
pub open spec fn group_row(name: Seq<char>, f: GroupFiguresView) -> Seq<char> {
    "<tr><td>"@ + name + "</td><td>"@ + f.warehouse + "</td><td>"@ + ms_text(
        f.baseline.mean_p99(),
    ) + "</td><td>"@ + ms_text(f.overlap.mean_p99()) + "</td><td>"@ + ratio_text(f.degradation())
        + "x</td><td>"@ + ratio_text(f.baseline.rate_over(f.baseline.seconds)) + "</td><td>"@
        + ratio_text(f.overlap.rate_over(f.overlap.seconds)) + "</td><td>"@ + percent_text(
        f.overlap.error_rate(),
    ) + "%</td></tr>\n  "@
}

/// The rows of the first `n` groups.
pub open spec fn group_rows(all: Seq<(Seq<char>, GroupFiguresView)>, n: int) -> Seq<char>
    decreases n,
{
    if n <= 0 {
        Seq::empty()
    } else {
        group_rows(all, n - 1) + group_row(all[n - 1].0, all[n - 1].1)
    }
}

/// The part of the page that compares the groups; nothing where there are none.
pub open spec fn group_section(points: Seq<PointView>) -> Seq<char> {
    let all = groups::all_figures(points);
    if all.len() == 0 {
        Seq::empty()
    } else {
        GROUP_TABLE@ + text::without_trailing_space(group_rows(all, all.len() as int))
            + "\n</table>"@
    }
}

fn group_row_of(name: &str, f: &GroupFigures) -> (r: String)
    requires
        f@.baseline.wf(),
        f@.overlap.wf(),
    ensures
        r@ == group_row(name@, f@),
{
    let mut out = text::owned("<tr><td>");
    out.append(name);
    out.append("</td><td>");
    out.append(f.warehouse.as_str());
    out.append("</td><td>");
    out.append(ms_text_of(f.baseline.p99_mean()).as_str());
    out.append("</td><td>");
    out.append(ms_text_of(f.overlap.p99_mean()).as_str());
    out.append("</td><td>");
    out.append(ratio_text_of(f.degradation_ratio()).as_str());
    out.append("x</td><td>");
    out.append(ratio_text_of(f.baseline.queries_over(f.baseline.seconds)).as_str());
    out.append("</td><td>");
    out.append(ratio_text_of(f.overlap.queries_over(f.overlap.seconds)).as_str());
    out.append("</td><td>");
    out.append(percent_text_of(f.overlap.failed_share()).as_str());
    out.append("%</td></tr>\n  ");
    out
}

/// The part of the page that compares the groups.
pub fn generate_query_group_section(timeseries: &TimeSeries) -> (r: String)
    requires
        timeseries.points@.len() <= MAX_POINTS,
    ensures
        r@ == group_section(timeseries@),
{
    let list = groups::compare_groups(&timeseries.points);
    if list.len() == 0 {
        let none = String::new();
        assert(none@ =~= Seq::<char>::empty());
        return none;
    }
    let ghost all = groups::all_figures(timeseries@);
    let mut rows = String::new();
    let mut i: usize = 0;
    assert(rows@ =~= Seq::<char>::empty());
    while i < list.len()
        invariant
            i <= list@.len(),
            all == model::vmap(list@),
            groups::figures_wf(all),
            rows@ == group_rows(all, i as int),
        decreases list@.len() - i,
    {
        assert(all[i as int] == list@[i as int]@);
        let row = group_row_of(list[i].0.as_str(), &list[i].1);
        rows.append(row.as_str());
        i += 1;
    }
    let trimmed = text::trim_end(rows.as_str());
    text::join3(GROUP_TABLE, trimmed.as_str(), "\n</table>")
}

// ---------------------------------------------------------------------------
// Phases
// ---------------------------------------------------------------------------

/// The mean of a figure over the seconds of a phase, rounded to so many decimals.
pub open spec fn mean_text(points: Seq<PointView>, phase: Seq<char>, m: Measure, digits: nat) -> Seq<
    char,
> {
    let mean = metrics::phase_mean(points, phase, m);
    decimal::fixed(mean.num as nat, mean.den as nat, digits)
}

/// The rate of queries that a phase aims at, with one decimal.
pub open spec fn rate_text(p: PhaseView) -> Seq<char> {
    decimal::fixed(p.target_pqps as nat, 1_000_000_000_000, 1)
}

/// The row of a phase.
pub open spec fn phase_row(p: PhaseView, points: Seq<PointView>, s: ScenarioView) -> Seq<char> {
    "<tr><td>"@ + p.display_name + "</td><td>"@ + text::decimal(p.duration_seconds as nat)
        + "s</td><td>"@ + mean_text(points, p.name, Measure::Produced, 0) + " / "@ + text::decimal(
        s.total_phase_eps(p.name) as nat,
    ) + "</td><td>"@ + mean_text(points, p.name, Measure::Executed, 1) + " / "@ + rate_text(p)
        + "</td><td>"@ + ms_text(metrics::phase_mean(points, p.name, Measure::P99)) + "ms</td><td>"@
        + text::decimal(metrics::phase_peak(points, p.name, Measure::Lag) as nat) + "</td></tr>"@
}

/// The rows of all phases.
pub open spec fn phase_rows(points: Seq<PointView>, s: ScenarioView) -> Seq<Seq<char>> {
    s.phases.map_values(|p: PhaseView| phase_row(p, points, s))
}

fn mean_text_of(points: &Vec<AggregatedMetricPoint>, phase: &str, m: Measure, digits: u32) -> (r:
    String)
    requires
        points@.len() <= MAX_POINTS,
        digits <= 3,
    ensures
        r@ == mean_text(model::vmap(points@), phase@, m, digits as nat),
{
    let mean = metrics::mean_of(points, phase, m);
    decimal::fixed_of(mean.num, mean.den, digits)
}

fn phase_row_of(p: &PhaseDef, points: &Vec<AggregatedMetricPoint>, s: &Scenario) -> (r: String)
    requires
        points@.len() <= MAX_POINTS,
    ensures
        r@ == phase_row(p@, model::vmap(points@), s@),
{
    let name = p.name.as_str();
    let mut out = text::owned("<tr><td>");
    out.append(p.display_name.as_str());
    out.append("</td><td>");
    out.append(text::decimal_u64(p.duration_seconds).as_str());
    out.append("s</td><td>");
    out.append(mean_text_of(points, name, Measure::Produced, 0).as_str());
    out.append(" / ");
    out.append(text::decimal_of(s.phase_target_eps(name)).as_str());
    out.append("</td><td>");
    out.append(mean_text_of(points, name, Measure::Executed, 1).as_str());
    out.append(" / ");
    out.append(decimal::fixed_of(p.query.target_pqps, 1_000_000_000_000, 1).as_str());
    out.append("</td><td>");
    out.append(ms_text_of(metrics::mean_of(points, name, Measure::P99)).as_str());
    out.append("ms</td><td>");
    out.append(text::decimal_u64(metrics::phase_max(points, name, Measure::Lag)).as_str());
    out.append("</td></tr>");
    out
}

/// The rows of all phases, each on a line.
pub fn generate_phase_rows(s: &Scenario, timeseries: &TimeSeries) -> (r: String)
    requires
        timeseries.points@.len() <= MAX_POINTS,
    ensures
        r@ == text::joined(phase_rows(timeseries@, s@), "\n  "@),
{
    let points = &timeseries.points;
    let ghost all = phase_rows(timeseries@, s@);
    let phases = &s.timeline.phases;
    let mut rows: Vec<String> = Vec::new();
    let mut i: usize = 0;
    assert(text::views(rows@) =~= all.take(0));
    while i < phases.len()
        invariant
            i <= phases@.len(),
            points@.len() <= MAX_POINTS,
            *phases == s.timeline.phases,
            model::vmap(points@) == timeseries@,
            all == phase_rows(timeseries@, s@),
            text::views(rows@) == all.take(i as int),
        decreases phases@.len() - i,
    {
        broadcast use model::views_push, model::take_push;

        assert(s@.phases[i as int] == phases@[i as int]@);
        rows.push(phase_row_of(&phases[i], points, s));
        i += 1;
    }
    assert(all.take(i as int) =~= all);
    text::join(&rows, "\n  ")
}

// ---------------------------------------------------------------------------
// Charts
// ---------------------------------------------------------------------------

/// A series of a chart.
#[derive(Clone, Copy, PartialEq, Eq, Structural, Debug)]
pub enum Series {
    Time,
    Phase,
    Produced,
    Target,
    P99,
    P50,
    Lag,
}

/// What a series has at a point, in JSON; latencies are in milliseconds.
pub open spec fn series_value(p: PointView, s: Series) -> Seq<char> {
    match s {
        Series::Time => text::decimal(p.timestamp_s as nat),
        Series::Phase => events::quoted(p.phase),
        Series::Produced => text::decimal(p.ingest_events_produced as nat),
        Series::Target => text::decimal(p.ingest_target_eps as nat),
        Series::P99 => decimal::millis(p.query_latency.p99 as nat),
        Series::P50 => decimal::millis(p.query_latency.p50 as nat),
        Series::Lag => text::decimal(p.kafka_consumer_lag as nat),
    }
}

/// What a series has at the points.
pub open spec fn series_values(points: Seq<PointView>, s: Series) -> Seq<Seq<char>> {
    points.map_values(|p: PointView| series_value(p, s))
}

/// A list in JSON.
pub open spec fn list_text(items: Seq<Seq<char>>) -> Seq<char> {
    "["@ + text::joined(items, ","@) + "]"@
}

/// A series in JSON.
pub open spec fn series_text(points: Seq<PointView>, s: Series) -> Seq<char> {
    list_text(series_values(points, s))
}

/// A phase starts at the `i`-th point: the point before it is of another.
pub open spec fn starts_phase(points: Seq<PointView>, i: int) -> bool {
    points[i].phase != (if i == 0 {
        ""@
    } else {
        points[i - 1].phase
    })
}

/// The start of a phase: when, and which.
pub open spec fn boundary(p: PointView) -> Seq<char> {
    "["@ + text::decimal(p.timestamp_s as nat) + ","@ + events::quoted(p.phase) + "]"@
}

/// The times at which the phases of the first `n` points start, each with the phase.
pub open spec fn boundaries(points: Seq<PointView>, n: int) -> Seq<Seq<char>>
    decreases n,
{
    if n <= 0 {
        Seq::empty()
    } else if starts_phase(points, n - 1) {
        boundaries(points, n - 1).push(boundary(points[n - 1]))
    } else {
        boundaries(points, n - 1)
    }
}

/// No phase of the points names a host.
pub open spec fn plain_phases(points: Seq<PointView>) -> bool {
    forall|i: int| 0 <= i < points.len() ==> text::names_no_host((#[trigger] points[i]).phase)
}

/// None of the texts names a host, nor begins or ends with a slash.
pub open spec fn all_whole(items: Seq<Seq<char>>) -> bool {
    forall|i: int| 0 <= i < items.len() ==> html_laws::whole(#[trigger] items[i])
}

fn value_of(p: &AggregatedMetricPoint, s: Series) -> (r: String)
    ensures
        r@ == series_value(p@, s),
        text::names_no_host(p@.phase) ==> html_laws::whole(r@),
{
    proof {
        html_laws::numbers_are_whole(p@, s);
    }
    match s {
        Series::Time => text::decimal_u64(p.timestamp_s),
        Series::Phase => events::quote(p.phase.as_str()),
        Series::Produced => text::decimal_u64(p.ingest_events_produced),
        Series::Target => text::decimal_u64(p.ingest_target_eps),
        Series::P99 => decimal::millis_of(p.query_latency.p99),
        Series::P50 => decimal::millis_of(p.query_latency.p50),
        Series::Lag => text::decimal_u64(p.kafka_consumer_lag),
    }
}

fn list_of(items: &Vec<String>) -> (r: String)
    ensures
        r@ == list_text(text::views(items@)),
{
    text::join3("[", text::join(items, ",").as_str(), "]")
}

fn series_of(points: &Vec<AggregatedMetricPoint>, s: Series) -> (r: String)
    ensures
        r@ == series_text(model::vmap(points@), s),
        plain_phases(model::vmap(points@)) ==> html_laws::whole(r@),
{
    let ghost pv = model::vmap(points@);
    let ghost all = series_values(pv, s);
    let mut out: Vec<String> = Vec::new();
    let mut i: usize = 0;
    assert(text::views(out@) =~= all.take(0));
    while i < points.len()
        invariant
            i <= points@.len(),
            pv == model::vmap(points@),
            all == series_values(pv, s),
            text::views(out@) == all.take(i as int),
            plain_phases(pv) ==> all_whole(all.take(i as int)),
        decreases points@.len() - i,
    {
        broadcast use model::views_push, model::take_push;

        assert(pv[i as int] == points@[i as int]@);
        let value = value_of(&points[i], s);
        assert(value@ == all[i as int]);
        assert(plain_phases(pv) ==> all_whole(all.take(i + 1))) by {
            assert(all.take(i + 1) =~= all.take(i as int).push(value@));
        }
        out.push(value);
        i += 1;
    }
    assert(all.take(i as int) =~= all);
    proof {
        if plain_phases(pv) {
            html_laws::list_is_whole(all);
        }
    }
    list_of(&out)
}

fn boundaries_of(points: &Vec<AggregatedMetricPoint>) -> (r: String)
    ensures
        r@ == list_text(boundaries(model::vmap(points@), points@.len() as int)),
        plain_phases(model::vmap(points@)) ==> html_laws::whole(r@),
{
    let ghost all = model::vmap(points@);
    let mut out: Vec<String> = Vec::new();
    let mut i: usize = 0;
    assert(text::views(out@) =~= Seq::<Seq<char>>::empty());
    while i < points.len()
        invariant
            i <= points@.len(),
            all == model::vmap(points@),
            text::views(out@) == boundaries(all, i as int),
            plain_phases(all) ==> all_whole(boundaries(all, i as int)),
        decreases points@.len() - i,
    {
        broadcast use model::views_push;

        let ghost before_these = boundaries(all, i as int);
        assert(all[i as int] == points@[i as int]@);
        if i > 0 {
            assert(all[i - 1] == points@[i - 1]@);
        }
        let before = if i == 0 {
            ""
        } else {
            points[i - 1].phase.as_str()
        };
        if !text::same(points[i].phase.as_str(), before) {
            let name = events::quote(points[i].phase.as_str());
            let start = text::join5(
                "[",
                text::decimal_u64(points[i].timestamp_s).as_str(),
                ",",
                name.as_str(),
                "]",
            );
            proof {
                assert(boundaries(all, i + 1) == before_these.push(start@));
                if plain_phases(all) {
                    assert(text::names_no_host(all[i as int].phase));
                    html_laws::boundary_is_whole(all[i as int]);
                }
            }
            out.push(start);
        }
        i += 1;
    }
    proof {
        if plain_phases(all) {
            html_laws::list_is_whole(boundaries(all, points@.len() as int));
        }
    }
    list_of(&out)
}

// ---------------------------------------------------------------------------
// The page
// ---------------------------------------------------------------------------

/// The table of the phases and that of the run.
pub open spec fn tables(points: Seq<PointView>, s: ScenarioView, version: Seq<char>) -> Seq<char> {
    PHASE_TABLE@ + text::joined(phase_rows(points, s), "\n  "@) + METADATA@ + version
        + SCENARIO_ROW@ + s.meta.name + " v"@ + s.meta.version + DOMAIN_ROW@ + s.meta.domain
        + DURATION_ROW@ + text::decimal(s.total_duration() as nat)
        + EVENTS_ROW@ + text::decimal(s.total_events() as nat)
}

/// The script that draws the charts, and the end of the page.
pub open spec fn script(points: Seq<PointView>) -> Seq<char> {
    LABELS@ + series_text(points, Series::Time) + PHASES@ + series_text(points, Series::Phase)
        + BOUNDARIES@ + list_text(boundaries(points, points.len() as int))
        + INGEST_CHART@ + series_text(points, Series::Produced) + TARGET_LINE@ + series_text(
        points,
        Series::Target,
    ) + LATENCY_CHART@ + series_text(points, Series::P99) + MEDIAN_LINE@ + series_text(
        points,
        Series::P50,
    ) + LAG_CHART@ + series_text(points, Series::Lag) + PAGE_END@
}

/// The page.
pub open spec fn page(
    s: ScenarioView,
    points: Seq<PointView>,
    card: Scorecard,
    version: Seq<char>,
    timestamp: Seq<char>,
) -> Seq<char> {
    head(s, timestamp, criteria::violations(points, s).len() == 0) + cards(card) + group_section(
        points,
    ) + tables(points, s, version) + script(points)
}

fn tables_of(timeseries: &TimeSeries, s: &Scenario, version: &str) -> (r: String)
    requires
        timeseries.points@.len() <= MAX_POINTS,
        s@.total_duration() <= u64::MAX,
        s@.total_events() <= u64::MAX,
    ensures
        r@ == tables(timeseries@, s@, version@),
{
    let mut out = text::owned(PHASE_TABLE);
    out.append(generate_phase_rows(s, timeseries).as_str());
    out.append(METADATA);
    out.append(version);
    out.append(SCENARIO_ROW);
    out.append(s.scenario.name.as_str());
    out.append(" v");
    out.append(s.scenario.version.as_str());
    out.append(DOMAIN_ROW);
    out.append(s.scenario.domain.as_str());
    out.append(DURATION_ROW);
    out.append(text::decimal_u64(s.total_duration_seconds()).as_str());
    out.append(EVENTS_ROW);
    out.append(text::decimal_u64(s.total_events_at_target()).as_str());
    out
}

fn script_of(points: &Vec<AggregatedMetricPoint>) -> (r: String)
    ensures
        r@ == script(model::vmap(points@)),
        plain_phases(model::vmap(points@)) ==> html_laws::whole_charts(model::vmap(points@)),
{
    let mut out = text::owned(LABELS);
    out.append(series_of(points, Series::Time).as_str());
    out.append(PHASES);
    out.append(series_of(points, Series::Phase).as_str());
    out.append(BOUNDARIES);
    out.append(boundaries_of(points).as_str());
    out.append(INGEST_CHART);
    out.append(series_of(points, Series::Produced).as_str());
    out.append(TARGET_LINE);
    out.append(series_of(points, Series::Target).as_str());
    out.append(LATENCY_CHART);
    out.append(series_of(points, Series::P99).as_str());
    out.append(MEDIAN_LINE);
    out.append(series_of(points, Series::P50).as_str());
    out.append(LAG_CHART);
    out.append(series_of(points, Series::Lag).as_str());
    out.append(PAGE_END);
    out
}

/// The page. It is complete in itself: where no name in it names a host, it names none.
pub fn generate(
    s: &Scenario,
    timeseries: &TimeSeries,
    card: &Scorecard,
    version: &str,
    timestamp: &str,
) -> (r: String)
    requires
        timeseries.points@.len() <= MAX_POINTS,
        s@.total_phase_eps("baseline"@) <= u64::MAX,
        s@.total_duration() <= u64::MAX,
        s@.total_events() <= u64::MAX,
        card.printable(),
    ensures
        r@ == page(s@, timeseries@, *card, version@, timestamp@),
        html_laws::plain_names(s@, timeseries@, version@, timestamp@)
            ==> text::names_no_host(r@),
{
    let (valid, _, _) = criteria::evaluate_validity(timeseries, s);
    let mut out = head_of(s, timestamp, valid);
    out.append(cards_of(card).as_str());
    out.append(generate_query_group_section(timeseries).as_str());
    out.append(tables_of(timeseries, s, version).as_str());
    out.append(script_of(&timeseries.points).as_str());
    proof {
        if html_laws::plain_names(s@, timeseries@, version@, timestamp@) {
            html_laws::the_page_names_no_host(s@, timeseries@, *card, version@, timestamp@);
        }
    }
    out
}

// ---------------------------------------------------------------------------
// The series as a table
// ---------------------------------------------------------------------------

/// The names of the columns.
pub const CSV_HEADER: &'static str = "timestamp_s,phase,ingest_events_produced,ingest_events_acked,ingest_events_failed,ingest_target_eps,query_executed,query_errors,query_target_qps,query_latency_p50,query_latency_p95,query_latency_p99,kafka_consumer_lag\n";

/// The row of a point.
pub open spec fn csv_row(p: PointView) -> Seq<char> {
    text::decimal(p.timestamp_s as nat) + ","@ + p.phase + ","@ + text::decimal(
        p.ingest_events_produced as nat,
    ) + ","@ + text::decimal(p.ingest_events_acknowledged as nat) + ","@ + text::decimal(
        p.ingest_events_failed as nat,
    ) + ","@ + text::decimal(p.ingest_target_eps as nat) + ","@ + text::decimal(
        p.query_executed as nat,
    ) + ","@ + text::decimal(p.query_errors as nat) + ","@ + decimal::fixed(
        p.query_target_uqps as nat,
        1_000_000,
        1,
    ) + ","@ + decimal::fixed(p.query_latency.p50 as nat, 1_000_000, 2) + ","@ + decimal::fixed(
        p.query_latency.p95 as nat,
        1_000_000,
        2,
    ) + ","@ + decimal::fixed(p.query_latency.p99 as nat, 1_000_000, 2) + ","@ + text::decimal(
        p.kafka_consumer_lag as nat,
    ) + "\n"@
}

/// The header and the rows of the first `n` points.
pub open spec fn csv(points: Seq<PointView>, n: int) -> Seq<char>
    decreases n,
{
    if n <= 0 {
        CSV_HEADER@
    } else {
        csv(points, n - 1) + csv_row(points[n - 1])
    }
}

fn csv_row_of(p: &AggregatedMetricPoint) -> (r: String)
    ensures
        r@ == csv_row(p@),
{
    let mut out = text::decimal_u64(p.timestamp_s);
    out.append(",");
    out.append(p.phase.as_str());
    out.append(",");
    out.append(text::decimal_u64(p.ingest_events_produced).as_str());
    out.append(",");
    out.append(text::decimal_u64(p.ingest_events_acknowledged).as_str());
    out.append(",");
    out.append(text::decimal_u64(p.ingest_events_failed).as_str());
    out.append(",");
    out.append(text::decimal_u64(p.ingest_target_eps).as_str());
    out.append(",");
    out.append(text::decimal_u64(p.query_executed).as_str());
    out.append(",");
    out.append(text::decimal_u64(p.query_errors).as_str());
    out.append(",");
    out.append(decimal::fixed_of(p.query_target_uqps as u128, 1_000_000, 1).as_str());
    out.append(",");
    out.append(decimal::fixed_of(p.query_latency.p50 as u128, 1_000_000, 2).as_str());
    out.append(",");
    out.append(decimal::fixed_of(p.query_latency.p95 as u128, 1_000_000, 2).as_str());
    out.append(",");
    out.append(decimal::fixed_of(p.query_latency.p99 as u128, 1_000_000, 2).as_str());
    out.append(",");
    out.append(text::decimal_u64(p.kafka_consumer_lag).as_str());
    out.append("\n");
    out
}

/// The series as a table of comma-separated values.
pub fn generate_csv(timeseries: &TimeSeries) -> (r: String)
    ensures
        r@ == csv(timeseries@, timeseries@.len() as int),
{
    let points = &timeseries.points;
    let ghost all = timeseries@;
    let mut out = text::owned(CSV_HEADER);
    let mut i: usize = 0;
    while i < points.len()
        invariant
            i <= points@.len(),
            all == model::vmap(points@),
            out@ == csv(all, i as int),
        decreases points@.len() - i,
    {
        assert(all[i as int] == points@[i as int]@);
        let row = csv_row_of(&points[i]);
        out.append(row.as_str());
        i += 1;
    }
    out
}

} // verus!
