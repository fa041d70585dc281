//! The page loads nothing from elsewhere: as long as no name in it does, it names no host.
use vstd::prelude::*;
use vstd::string::*;
use crate::criteria;
use crate::decimal;
use crate::events;
use crate::groups;
use crate::groups::GroupFiguresView;
use crate::html_report;
use crate::html_report::Series;
use crate::metrics;
use crate::metrics::{Measure, PointView, Scorecard};
use crate::scenario::{PhaseView, ScenarioView};
use crate::text;
use crate::text::names_no_host;

verus! {

/// No name that stands in the page names a host.
pub open spec fn plain_names(
    s: ScenarioView,
    points: Seq<PointView>,
    version: Seq<char>,
    timestamp: Seq<char>,
) -> bool {
    let figures = groups::all_figures(points);
    &&& names_no_host(s.meta.name)
    &&& names_no_host(s.meta.display_name)
    &&& names_no_host(s.meta.version)
    &&& names_no_host(s.meta.domain)
    &&& names_no_host(version)
    &&& names_no_host(timestamp)
    &&& forall|i: int|
        0 <= i < s.phases.len() ==> names_no_host((#[trigger] s.phases[i]).display_name)
    &&& forall|i: int| 0 <= i < points.len() ==> names_no_host((#[trigger] points[i]).phase)
    &&& forall|i: int|
        0 <= i < figures.len() ==> names_no_host((#[trigger] figures[i]).0) && names_no_host(
            figures[i].1.warehouse,
        )
}

// ---------------------------------------------------------------------------
// Putting texts together
// ---------------------------------------------------------------------------

/// A text that names no host, and neither begins nor ends with a slash.
pub open spec fn whole(s: Seq<char>) -> bool {
    &&& names_no_host(s)
    &&& s.len() > 0 ==> s[0] != '/' && s.last() != '/'
}

/// A text without any slash.
pub open spec fn slashless(s: Seq<char>) -> bool {
    forall|i: int| 0 <= i < s.len() ==> #[trigger] s[i] != '/'
}

proof fn both(a: Seq<char>, b: Seq<char>)
    requires
        whole(a),
        whole(b),
    ensures
        whole(a + b),
{
    let r = a + b;
    assert forall|i: int| 0 <= i < r.len() - 1 && #[trigger] r[i] == '/' implies r[i + 1] != '/' by {
        if i < a.len() {
            assert(r[i] == a[i]);
        } else {
            assert(r[i] == b[i - a.len()]);
        }
        if i + 1 < a.len() {
            assert(r[i + 1] == a[i + 1]);
        } else {
            assert(r[i + 1] == b[i + 1 - a.len()]);
        }
    }
    if r.len() > 0 {
        if b.len() > 0 {
            assert(r.last() == b.last());
        } else {
            assert(r =~= a);
        }
        if a.len() > 0 {
            assert(r[0] == a[0]);
        } else {
            assert(r =~= b);
        }
    }
}

/// A text between two parts.
proof fn between(a: Seq<char>, t: Seq<char>, b: Seq<char>)
    requires
        whole(a),
        a.len() > 0,
        names_no_host(t),
        whole(b),
        b.len() > 0,
    ensures
        whole(a + t + b),
        (a + t + b).len() > 0,
{
    let r = a + t + b;
    let n = a.len() as int;
    let m = n + t.len();
    assert forall|i: int| 0 <= i < r.len() - 1 && #[trigger] r[i] == '/' implies r[i + 1] != '/' by {
        if i < n {
            assert(r[i] == a[i]);
        } else if i < m {
            assert(r[i] == t[i - n]);
        } else {
            assert(r[i] == b[i - m]);
        }
        if i + 1 < n {
            assert(r[i + 1] == a[i + 1]);
        } else if i + 1 < m {
            assert(r[i + 1] == t[i + 1 - n]);
        } else {
            assert(r[i + 1] == b[i + 1 - m]);
        }
    }
    assert(r[0] == a[0]);
    assert(r.last() == b.last());
}

proof fn without_slash(s: Seq<char>)
    requires
        slashless(s),
    ensures
        whole(s),
        names_no_host(s),
{
}

proof fn pushed(s: Seq<char>, c: char)
    requires
        slashless(s),
        c != '/',
    ensures
        slashless(s.push(c)),
{
    let r = s.push(c);
    assert forall|i: int| 0 <= i < r.len() implies #[trigger] r[i] != '/' by {
        if i < s.len() {
            assert(r[i] == s[i]);
        }
    }
}

proof fn after(a: Seq<char>, b: Seq<char>)
    requires
        slashless(a),
        slashless(b),
    ensures
        slashless(a + b),
{
    let r = a + b;
    assert forall|i: int| 0 <= i < r.len() implies #[trigger] r[i] != '/' by {
        if i < a.len() {
            assert(r[i] == a[i]);
        } else {
            assert(r[i] == b[i - a.len()]);
        }
    }
}

// ---------------------------------------------------------------------------
// Numbers
// ---------------------------------------------------------------------------

proof fn decimal_has_no_slash(n: nat)
    ensures
        slashless(text::decimal(n)),
    decreases n,
{
    if n >= 10 {
        decimal_has_no_slash(n / 10);
        pushed(text::decimal(n / 10), text::digit_char((n % 10) as int));
    }
}

proof fn padded_has_no_slash(n: nat, width: nat)
    ensures
        slashless(decimal::padded(n, width)),
    decreases width,
{
    if width > 0 {
        padded_has_no_slash(n / 10, (width - 1) as nat);
        pushed(
            decimal::padded(n / 10, (width - 1) as nat),
            text::digit_char((n % 10) as int),
        );
    }
}

proof fn point_before_has_no_slash(n: nat, digits: nat)
    ensures
        slashless(decimal::point_before(n, digits)),
{
    decimal_has_no_slash(n);
    if digits > 0 {
        let p = decimal::pow10(digits);
        decimal_has_no_slash(n / p);
        padded_has_no_slash(n % p, digits);
        after(text::decimal(n / p), seq!['.']);
        after(text::decimal(n / p) + seq!['.'], decimal::padded(n % p, digits));
    }
}

proof fn fixed_has_no_slash(num: nat, den: nat, digits: nat)
    ensures
        names_no_host(decimal::fixed(num, den, digits)),
{
    point_before_has_no_slash(
        decimal::nearest_even(num * decimal::pow10(digits), den),
        digits,
    );
}

proof fn decimals_have_no_slash(n: nat, places: nat)
    ensures
        slashless(decimal::decimals(n, places)),
    decreases places,
{
    padded_has_no_slash(n, places);
    if places > 1 && n % 10 == 0 {
        decimals_have_no_slash(n / 10, (places - 1) as nat);
    }
}

proof fn millis_has_no_slash(ns: nat)
    ensures
        slashless(decimal::millis(ns)),
{
    let million: nat = 1_000_000;
    let part = ns % million * decimal::pow10(6) / million;
    reveal_strlit("e-6");
    decimal_has_no_slash(ns);
    after(text::decimal(ns), "e-6"@);
    decimal_has_no_slash(ns / million);
    decimals_have_no_slash(part, 6);
    after(text::decimal(ns / million), seq!['.']);
    after(text::decimal(ns / million) + seq!['.'], decimal::decimals(part, 6));
}

// ---------------------------------------------------------------------------
// The fixed parts
// ---------------------------------------------------------------------------

proof fn title_is_whole()
    ensures
        whole(html_report::TITLE@),
        html_report::TITLE@.len() > 0,
{
    reveal_strlit(
        r#"<!DOCTYPE html>
<html lang="en">
<head>
<meta charset="UTF-8">
<meta name="viewport" content="width=device-width, initial-scale=1.0">
<title>IncidentBench Report — "#,
    );
}

proof fn drawing_is_whole()
    ensures
        whole(html_report::DRAWING@),
        html_report::DRAWING@.len() > 0,
{
    reveal_strlit(
        r#"</title>
<script>
class Chart {
  constructor(canvas, config) {
    this.canvas = canvas;
    this.config = config;
    this.draw();
    window.addEventListener('resize', () => this.draw());
  }
  draw() {
    const { labels, datasets } = this.config.data;
    const width = this.canvas.parentElement.clientWidth - 32, height = 300;
    const left = 70, right = 10, top = 30, bottom = 30;
    this.canvas.width = width;
    this.canvas.height = height;
    const g = this.canvas.getContext('2d');
    const peak = datasets.reduce((m, d) => d.data.reduce((n, v) => Math.max(n, v), m), 1);
    const x = i => left + (width - left - right) * i / Math.max(1, labels.length - 1);
    const y = v => height - bottom - (height - top - bottom) * v / peak;
    g.font = '11px sans-serif';
    g.fillStyle = '#999';
    g.strokeStyle = '#333';
    for (let k = 0; k <= 4; k++) {
      const v = peak * k / 4;
      g.fillText(peak < 10 ? v.toFixed(1) : Math.round(v), 5, y(v) + 4);
      g.beginPath();
      g.moveTo(left, y(v));
      g.lineTo(width - right, y(v));
      g.stroke();
    }
    const step = Math.max(1, Math.ceil(labels.length / 10));
    for (let i = 0; i < labels.length; i += step) g.fillText(labels[i], x(i), height - 10);
    g.strokeStyle = '#666';
    for (const [second, phase] of phaseBoundaries) {
      const at = x(labels.indexOf(second));
      g.beginPath();
      g.moveTo(at, top);
      g.lineTo(at, height - bottom);
      g.stroke();
      g.fillText(phase, at + 3, top + 10);
    }
    datasets.forEach((d, n) => {
      g.strokeStyle = d.borderColor;
      g.lineWidth = d.borderWidth;
      g.setLineDash(d.borderDash || []);
      g.beginPath();
      d.data.forEach((v, i) => i ? g.lineTo(x(i), y(v)) : g.moveTo(x(i), y(v)));
      g.stroke();
      g.setLineDash([]);
      if (d.fill) {
        g.lineTo(x(d.data.length - 1), y(0));
        g.lineTo(x(0), y(0));
        g.fillStyle = d.backgroundColor;
        g.fill();
      }
      g.fillStyle = d.borderColor;
      g.fillText(d.label, left + 120 * n, 15);
      g.fillStyle = '#999';
    });
  }
}
</script>
"#,
    );
}

proof fn style_is_whole()
    ensures
        whole(html_report::STYLE@),
        html_report::STYLE@.len() > 0,
{
    reveal_strlit(
        r#"<style>
  :root {
    --bg: #0a0a0a; --fg: #e0e0e0; --accent: #4fc3f7; --danger: #ef5350;
    --success: #66bb6a; --warning: #ffa726; --card-bg: #1a1a1a;
    --border: #333;
  }
  * { margin: 0; padding: 0; box-sizing: border-box; }
  body { font-family: 'Inter', system-ui, sans-serif; background: var(--bg); color: var(--fg); padding: 2rem; line-height: 1.6; }
  h1 { color: var(--accent); margin-bottom: 0.5rem; font-size: 1.8rem; }
  h2 { color: var(--accent); margin: 2rem 0 1rem; font-size: 1.3rem; border-bottom: 1px solid var(--border); padding-bottom: 0.5rem; }
  .header { display: flex; justify-content: space-between; align-items: center; margin-bottom: 2rem; }
  .badge { padding: 0.25rem 0.75rem; border-radius: 4px; font-weight: 600; font-size: 0.85rem; }
  .badge.valid { background: var(--success); color: #000; }
  .badge.invalid { background: var(--danger); color: #fff; }
  .scorecard { display: grid; grid-template-columns: repeat(auto-fit, minmax(200px, 1fr)); gap: 1rem; margin: 1rem 0; }
  .metric-card { background: var(--card-bg); border: 1px solid var(--border); border-radius: 8px; padding: 1.25rem; }
  .metric-card .label { color: #999; font-size: 0.8rem; text-transform: uppercase; letter-spacing: 0.05em; }
  .metric-card .value { font-size: 2rem; font-weight: 700; margin: 0.25rem 0; }
  .metric-card .unit { color: #666; font-size: 0.85rem; }
  .chart-container { background: var(--card-bg); border: 1px solid var(--border); border-radius: 8px; padding: 1rem; margin: 1rem 0; }
  table { width: 100%; border-collapse: collapse; margin: 1rem 0; }
  th, td { padding: 0.75rem 1rem; text-align: left; border-bottom: 1px solid var(--border); }
  th { color: #999; font-weight: 600; font-size: 0.85rem; text-transform: uppercase; }
  .meta { color: #666; font-size: 0.85rem; }
  canvas { max-height: 300px; }
</style>
</head>
<body>
<div class="header">
  <div>
    <h1>IncidentBench Report</h1>
    <div class="meta">"#,
    );
}

proof fn badge_is_whole()
    ensures
        whole(html_report::BADGE@),
        html_report::BADGE@.len() > 0,
{
    reveal_strlit(
        r#"</div>
  </div>
  <span class="badge "#,
    );
}

proof fn baseline_card_is_whole()
    ensures
        whole(html_report::BASELINE_CARD@),
        html_report::BASELINE_CARD@.len() > 0,
{
    reveal_strlit(
        r#"</span>
</div>

<h2>Scorecard</h2>
<div class="scorecard">
  <div class="metric-card">
    <div class="label">Baseline p99</div>
    <div class="value">"#,
    );
}

proof fn overlap_card_is_whole()
    ensures
        whole(html_report::OVERLAP_CARD@),
        html_report::OVERLAP_CARD@.len() > 0,
{
    reveal_strlit(
        r#"</div>
    <div class="unit">ms</div>
  </div>
  <div class="metric-card">
    <div class="label">Overlap p99</div>
    <div class="value">"#,
    );
}

proof fn degradation_card_is_whole()
    ensures
        whole(html_report::DEGRADATION_CARD@),
        html_report::DEGRADATION_CARD@.len() > 0,
{
    reveal_strlit(
        r#"</div>
    <div class="unit">ms</div>
  </div>
  <div class="metric-card">
    <div class="label">Degradation Ratio</div>
    <div class="value">"#,
    );
}

proof fn error_card_is_whole()
    ensures
        whole(html_report::ERROR_CARD@),
        html_report::ERROR_CARD@.len() > 0,
{
    reveal_strlit(
        r#"x</div>
    <div class="unit">overlap / baseline</div>
  </div>
  <div class="metric-card">
    <div class="label">Query Error Rate</div>
    <div class="value">"#,
    );
}

proof fn backlog_card_is_whole()
    ensures
        whole(html_report::BACKLOG_CARD@),
        html_report::BACKLOG_CARD@.len() > 0,
{
    reveal_strlit(
        r#"%</div>
    <div class="unit">during overlap</div>
  </div>
  <div class="metric-card">
    <div class="label">Peak Backlog</div>
    <div class="value">"#,
    );
}

proof fn drain_card_is_whole()
    ensures
        whole(html_report::DRAIN_CARD@),
        html_report::DRAIN_CARD@.len() > 0,
{
    reveal_strlit(
        r#"</div>
    <div class="unit">events (Kafka lag)</div>
  </div>
  <div class="metric-card">
    <div class="label">Backlog Drain</div>
    <div class="value">"#,
    );
}

proof fn recovery_card_is_whole()
    ensures
        whole(html_report::RECOVERY_CARD@),
        html_report::RECOVERY_CARD@.len() > 0,
{
    reveal_strlit(
        r#"</div>
    <div class="unit">seconds</div>
  </div>
  <div class="metric-card">
    <div class="label">Recovery Time</div>
    <div class="value">"#,
    );
}

proof fn charts_is_whole()
    ensures
        whole(html_report::CHARTS@),
        html_report::CHARTS@.len() > 0,
{
    reveal_strlit(
        r#"</div>
    <div class="unit">seconds to baseline</div>
  </div>
</div>

<h2>Ingestion Timeline</h2>
<div class="chart-container"><canvas id="ingestChart"></canvas></div>

<h2>Query Latency Timeline</h2>
<div class="chart-container"><canvas id="latencyChart"></canvas></div>

<h2>Kafka Consumer Lag</h2>
<div class="chart-container"><canvas id="lagChart"></canvas></div>

"#,
    );
}

proof fn phase_table_is_whole()
    ensures
        whole(html_report::PHASE_TABLE@),
        html_report::PHASE_TABLE@.len() > 0,
{
    reveal_strlit(
        r#"

<h2>Phase Summary</h2>
<table>
  <tr><th>Phase</th><th>Duration</th><th>Ingest EPS</th><th>Query QPS</th><th>p99 Latency</th><th>Kafka Lag</th></tr>
  "#,
    );
}

proof fn metadata_is_whole()
    ensures
        whole(html_report::METADATA@),
        html_report::METADATA@.len() > 0,
{
    reveal_strlit(
        r#"
</table>

<h2>Run Metadata</h2>
<table>
  <tr><td>Harness Version</td><td>"#,
    );
}

proof fn scenario_row_is_whole()
    ensures
        whole(html_report::SCENARIO_ROW@),
        html_report::SCENARIO_ROW@.len() > 0,
{
    reveal_strlit(
        r#"</td></tr>
  <tr><td>Scenario</td><td>"#,
    );
}

proof fn domain_row_is_whole()
    ensures
        whole(html_report::DOMAIN_ROW@),
        html_report::DOMAIN_ROW@.len() > 0,
{
    reveal_strlit(
        r#"</td></tr>
  <tr><td>Domain</td><td>"#,
    );
}

proof fn duration_row_is_whole()
    ensures
        whole(html_report::DURATION_ROW@),
        html_report::DURATION_ROW@.len() > 0,
{
    reveal_strlit(
        r#"</td></tr>
  <tr><td>Total Duration</td><td>"#,
    );
}

proof fn events_row_is_whole()
    ensures
        whole(html_report::EVENTS_ROW@),
        html_report::EVENTS_ROW@.len() > 0,
{
    reveal_strlit(
        r#"s</td></tr>
  <tr><td>Total Events</td><td>"#,
    );
}

proof fn labels_is_whole()
    ensures
        whole(html_report::LABELS@),
        html_report::LABELS@.len() > 0,
{
    reveal_strlit(
        r#"</td></tr>
</table>

<script>
const labels = "#,
    );
}

proof fn phases_is_whole()
    ensures
        whole(html_report::PHASES@),
        html_report::PHASES@.len() > 0,
{
    reveal_strlit(
        r#";
const phases = "#,
    );
}

proof fn boundaries_is_whole()
    ensures
        whole(html_report::BOUNDARIES@),
        html_report::BOUNDARIES@.len() > 0,
{
    reveal_strlit(
        r#";
const phaseBoundaries = "#,
    );
}

proof fn ingest_chart_is_whole()
    ensures
        whole(html_report::INGEST_CHART@),
        html_report::INGEST_CHART@.len() > 0,
{
    reveal_strlit(
        r#";

function phaseColors(phases) {
  const colorMap = {
    'baseline': 'rgba(102,187,106,0.1)',
    'incident_trigger': 'rgba(255,167,38,0.1)',
    'ingestion_surge': 'rgba(239,83,80,0.15)',
    'overlap': 'rgba(239,83,80,0.25)',
    'recovery': 'rgba(255,167,38,0.1)',
    'post_incident': 'rgba(102,187,106,0.1)',
  };
  return phases.map(p => colorMap[p] || 'rgba(0,0,0,0)');
}

new Chart(document.getElementById('ingestChart'), {
  type: 'line',
  data: {
    labels: labels,
    datasets: [
      { label: 'Achieved EPS', data: "#,
    );
}

proof fn target_line_is_whole()
    ensures
        whole(html_report::TARGET_LINE@),
        html_report::TARGET_LINE@.len() > 0,
{
    reveal_strlit(
        r#", borderColor: '#4fc3f7', borderWidth: 1.5, pointRadius: 0, fill: false },
      { label: 'Target EPS', data: "#,
    );
}

proof fn latency_chart_is_whole()
    ensures
        whole(html_report::LATENCY_CHART@),
        html_report::LATENCY_CHART@.len() > 0,
{
    reveal_strlit(
        r#", borderColor: '#666', borderWidth: 1, borderDash: [5,5], pointRadius: 0, fill: false },
    ]
  },
  options: { responsive: true, scales: { y: { beginAtZero: true, ticks: { color: '#999' } }, x: { ticks: { color: '#999', maxTicksLimit: 10 } } }, plugins: { legend: { labels: { color: '#ccc' } } } }
});

new Chart(document.getElementById('latencyChart'), {
  type: 'line',
  data: {
    labels: labels,
    datasets: [
      { label: 'p99', data: "#,
    );
}

proof fn median_line_is_whole()
    ensures
        whole(html_report::MEDIAN_LINE@),
        html_report::MEDIAN_LINE@.len() > 0,
{
    reveal_strlit(
        r#", borderColor: '#ef5350', borderWidth: 1.5, pointRadius: 0, fill: false },
      { label: 'p50', data: "#,
    );
}

proof fn lag_chart_is_whole()
    ensures
        whole(html_report::LAG_CHART@),
        html_report::LAG_CHART@.len() > 0,
{
    reveal_strlit(
        r#", borderColor: '#66bb6a', borderWidth: 1.5, pointRadius: 0, fill: false },
    ]
  },
  options: { responsive: true, scales: { y: { beginAtZero: true, title: { display: true, text: 'ms', color: '#999' }, ticks: { color: '#999' } }, x: { ticks: { color: '#999', maxTicksLimit: 10 } } }, plugins: { legend: { labels: { color: '#ccc' } } } }
});

new Chart(document.getElementById('lagChart'), {
  type: 'line',
  data: {
    labels: labels,
    datasets: [
      { label: 'Consumer Lag', data: "#,
    );
}

proof fn page_end_is_whole()
    ensures
        whole(html_report::PAGE_END@),
        html_report::PAGE_END@.len() > 0,
{
    reveal_strlit(
        r#", borderColor: '#ffa726', borderWidth: 1.5, pointRadius: 0, fill: true, backgroundColor: 'rgba(255,167,38,0.1)' },
    ]
  },
  options: { responsive: true, scales: { y: { beginAtZero: true, ticks: { color: '#999' } }, x: { ticks: { color: '#999', maxTicksLimit: 10 } } }, plugins: { legend: { labels: { color: '#ccc' } } } }
});
</script>
</body>
</html>"#,
    );
}

proof fn group_table_is_whole()
    ensures
        whole(html_report::GROUP_TABLE@),
        html_report::GROUP_TABLE@.len() > 0,
{
    reveal_strlit(
        r#"<h2>Query Group Comparison</h2>
<table>
  <tr><th>Group</th><th>Warehouse</th><th>Baseline p99</th><th>Overlap p99</th><th>Degradation</th><th>Baseline QPS</th><th>Overlap QPS</th><th>Error Rate</th></tr>
  "#,
    );
}

proof fn marks_are_whole()
    ensures
        whole("<tr><td>"@) && "<tr><td>"@.len() > 0,
        whole("</td><td>"@) && "</td><td>"@.len() > 0,
        whole("x</td><td>"@) && "x</td><td>"@.len() > 0,
        whole("%</td></tr>\n  "@) && "%</td></tr>\n  "@.len() > 0,
        whole("\n</table>"@) && "\n</table>"@.len() > 0,
        whole("s</td><td>"@) && "s</td><td>"@.len() > 0,
        whole(" / "@) && " / "@.len() > 0,
        whole("ms</td><td>"@) && "ms</td><td>"@.len() > 0,
        whole("</td></tr>"@) && "</td></tr>"@.len() > 0,
        whole("\n  "@) && "\n  "@.len() > 0,
        whole(" v"@) && " v"@.len() > 0,
        whole(" &mdash; "@) && " &mdash; "@.len() > 0,
        whole("valid"@) && "valid"@.len() > 0,
        whole("invalid"@) && "invalid"@.len() > 0,
        whole("\">"@) && "\">"@.len() > 0,
        whole("VALID"@) && "VALID"@.len() > 0,
        whole("INVALID"@) && "INVALID"@.len() > 0,
{
    reveal_strlit("<tr><td>");
    reveal_strlit("</td><td>");
    reveal_strlit("x</td><td>");
    reveal_strlit("%</td></tr>\n  ");
    reveal_strlit("\n</table>");
    reveal_strlit("s</td><td>");
    reveal_strlit(" / ");
    reveal_strlit("ms</td><td>");
    reveal_strlit("</td></tr>");
    reveal_strlit("\n  ");
    reveal_strlit(" v");
    reveal_strlit(" &mdash; ");
    reveal_strlit("valid");
    reveal_strlit("invalid");
    reveal_strlit("\">");
    reveal_strlit("VALID");
    reveal_strlit("INVALID");
}

// ---------------------------------------------------------------------------
// The sections
// ---------------------------------------------------------------------------

proof fn head_is_whole(s: ScenarioView, timestamp: Seq<char>, valid: bool)
    requires
        names_no_host(s.meta.name),
        names_no_host(s.meta.display_name),
        names_no_host(s.meta.version),
        names_no_host(timestamp),
    ensures
        whole(html_report::head(s, timestamp, valid)),
{
    title_is_whole();
    drawing_is_whole();
    style_is_whole();
    badge_is_whole();
    marks_are_whole();
    let a = html_report::TITLE@ + s.meta.name + html_report::DRAWING@;
    between(html_report::TITLE@, s.meta.name, html_report::DRAWING@);
    both(a, html_report::STYLE@);
    let b = a + html_report::STYLE@;
    between(b, s.meta.display_name, " v"@);
    let c = b + s.meta.display_name + " v"@;
    between(c, s.meta.version, " &mdash; "@);
    let d = c + s.meta.version + " &mdash; "@;
    between(d, timestamp, html_report::BADGE@);
    let e = d + timestamp + html_report::BADGE@;
    let mark = if valid {
        "valid"@
    } else {
        "invalid"@
    };
    between(e, mark, "\">"@);
    both(
        e + mark + "\">"@,
        if valid {
            "VALID"@
        } else {
            "INVALID"@
        },
    );
}

proof fn cards_are_whole(c: Scorecard)
    ensures
        whole(html_report::cards(c)),
{
    baseline_card_is_whole();
    overlap_card_is_whole();
    degradation_card_is_whole();
    error_card_is_whole();
    backlog_card_is_whole();
    drain_card_is_whole();
    recovery_card_is_whole();
    charts_is_whole();
    let t1 = html_report::ms_text(c.baseline_p99_ns);
    let t2 = html_report::ms_text(c.overlap_p99_ns);
    let t3 = html_report::ratio_text(c.p99_degradation_ratio);
    let t4 = html_report::percent_text(c.query_error_rate_overlap);
    let t5 = text::decimal(c.peak_backlog as nat);
    let t6 = html_report::seconds_text(c.backlog_drain_time_s);
    let t7 = html_report::seconds_text(c.recovery_time_s);
    let b = c.baseline_p99_ns;
    let o = c.overlap_p99_ns;
    let r = c.p99_degradation_ratio;
    let e = c.query_error_rate_overlap;
    fixed_has_no_slash(b.num as nat, b.den as nat * 1_000_000, 1);
    fixed_has_no_slash(o.num as nat, o.den as nat * 1_000_000, 1);
    fixed_has_no_slash(r.num as nat, r.den as nat, 1);
    fixed_has_no_slash(e.num as nat * 100, e.den as nat, 1);
    decimal_has_no_slash(c.peak_backlog as nat);
    without_slash(t5);
    fixed_has_no_slash(c.backlog_drain_time_s as nat, 1, 1);
    fixed_has_no_slash(c.recovery_time_s as nat, 1, 1);
    let a1 = html_report::BASELINE_CARD@ + t1 + html_report::OVERLAP_CARD@;
    between(html_report::BASELINE_CARD@, t1, html_report::OVERLAP_CARD@);
    between(a1, t2, html_report::DEGRADATION_CARD@);
    let a2 = a1 + t2 + html_report::DEGRADATION_CARD@;
    between(a2, t3, html_report::ERROR_CARD@);
    let a3 = a2 + t3 + html_report::ERROR_CARD@;
    between(a3, t4, html_report::BACKLOG_CARD@);
    let a4 = a3 + t4 + html_report::BACKLOG_CARD@;
    between(a4, t5, html_report::DRAIN_CARD@);
    let a5 = a4 + t5 + html_report::DRAIN_CARD@;
    between(a5, t6, html_report::RECOVERY_CARD@);
    let a6 = a5 + t6 + html_report::RECOVERY_CARD@;
    between(a6, t7, html_report::CHARTS@);
}

proof fn group_row_is_whole(name: Seq<char>, f: GroupFiguresView)
    requires
        names_no_host(name),
        names_no_host(f.warehouse),
    ensures
        whole(html_report::group_row(name, f)),
{
    marks_are_whole();
    let td = "</td><td>"@;
    let p1 = f.baseline.mean_p99();
    let p2 = f.overlap.mean_p99();
    let p3 = f.degradation();
    let p4 = f.baseline.rate_over(f.baseline.seconds);
    let p5 = f.overlap.rate_over(f.overlap.seconds);
    let p6 = f.overlap.error_rate();
    fixed_has_no_slash(p1.num as nat, p1.den as nat * 1_000_000, 1);
    fixed_has_no_slash(p2.num as nat, p2.den as nat * 1_000_000, 1);
    fixed_has_no_slash(p3.num as nat, p3.den as nat, 1);
    fixed_has_no_slash(p4.num as nat, p4.den as nat, 1);
    fixed_has_no_slash(p5.num as nat, p5.den as nat, 1);
    fixed_has_no_slash(p6.num as nat * 100, p6.den as nat, 1);
    let a1 = "<tr><td>"@ + name + td;
    between("<tr><td>"@, name, td);
    between(a1, f.warehouse, td);
    let a2 = a1 + f.warehouse + td;
    between(a2, html_report::ms_text(p1), td);
    let a3 = a2 + html_report::ms_text(p1) + td;
    between(a3, html_report::ms_text(p2), td);
    let a4 = a3 + html_report::ms_text(p2) + td;
    between(a4, html_report::ratio_text(p3), "x</td><td>"@);
    let a5 = a4 + html_report::ratio_text(p3) + "x</td><td>"@;
    between(a5, html_report::ratio_text(p4), td);
    let a6 = a5 + html_report::ratio_text(p4) + td;
    between(a6, html_report::ratio_text(p5), td);
    let a7 = a6 + html_report::ratio_text(p5) + td;
    between(a7, html_report::percent_text(p6), "%</td></tr>\n  "@);
}

proof fn group_rows_are_whole(all: Seq<(Seq<char>, GroupFiguresView)>, n: int)
    requires
        0 <= n <= all.len(),
        forall|i: int|
            0 <= i < all.len() ==> names_no_host((#[trigger] all[i]).0) && names_no_host(
                all[i].1.warehouse,
            ),
    ensures
        whole(html_report::group_rows(all, n)),
    decreases n,
{
    if n > 0 {
        group_rows_are_whole(all, n - 1);
        assert(names_no_host(all[n - 1].0));
        group_row_is_whole(all[n - 1].0, all[n - 1].1);
        both(
            html_report::group_rows(all, n - 1),
            html_report::group_row(all[n - 1].0, all[n - 1].1),
        );
    }
}

proof fn trimming_names_no_host(s: Seq<char>)
    requires
        names_no_host(s),
    ensures
        names_no_host(text::without_trailing_space(s)),
    decreases s.len(),
{
    if s.len() > 0 && text::is_space(s.last()) {
        let front = s.drop_last();
        assert forall|i: int| 0 <= i < front.len() - 1 && #[trigger] front[i] == '/' implies front[i
            + 1] != '/' by {
            assert(front[i] == s[i]);
            assert(front[i + 1] == s[i + 1]);
        }
        trimming_names_no_host(front);
    }
}

proof fn groups_are_whole(points: Seq<PointView>)
    requires
        ({
            let all = groups::all_figures(points);
            forall|i: int|
                0 <= i < all.len() ==> names_no_host((#[trigger] all[i]).0) && names_no_host(
                    all[i].1.warehouse,
                )
        }),
    ensures
        whole(html_report::group_section(points)),
{
    let all = groups::all_figures(points);
    if all.len() > 0 {
        group_table_is_whole();
        marks_are_whole();
        let rows = html_report::group_rows(all, all.len() as int);
        group_rows_are_whole(all, all.len() as int);
        trimming_names_no_host(rows);
        between(
            html_report::GROUP_TABLE@,
            text::without_trailing_space(rows),
            "\n</table>"@,
        );
    }
}

proof fn phase_row_is_whole(p: PhaseView, points: Seq<PointView>, s: ScenarioView)
    requires
        names_no_host(p.display_name),
    ensures
        whole(html_report::phase_row(p, points, s)),
{
    marks_are_whole();
    let td = "</td><td>"@;
    let seconds = text::decimal(p.duration_seconds as nat);
    let m1 = metrics::phase_mean(points, p.name, Measure::Produced);
    let m2 = metrics::phase_mean(points, p.name, Measure::Executed);
    let m3 = metrics::phase_mean(points, p.name, Measure::P99);
    let t1 = html_report::mean_text(points, p.name, Measure::Produced, 0);
    let t2 = text::decimal(s.total_phase_eps(p.name) as nat);
    let t3 = html_report::mean_text(points, p.name, Measure::Executed, 1);
    let t4 = html_report::rate_text(p);
    let t5 = html_report::ms_text(m3);
    let t6 = text::decimal(metrics::phase_peak(points, p.name, Measure::Lag) as nat);
    decimal_has_no_slash(p.duration_seconds as nat);
    without_slash(seconds);
    fixed_has_no_slash(m1.num as nat, m1.den as nat, 0);
    decimal_has_no_slash(s.total_phase_eps(p.name) as nat);
    without_slash(t2);
    fixed_has_no_slash(m2.num as nat, m2.den as nat, 1);
    rate_has_no_slash(p);
    fixed_has_no_slash(m3.num as nat, m3.den as nat * 1_000_000, 1);
    decimal_has_no_slash(metrics::phase_peak(points, p.name, Measure::Lag) as nat);
    without_slash(t6);
    let a1 = "<tr><td>"@ + p.display_name + td;
    between("<tr><td>"@, p.display_name, td);
    between(a1, seconds, "s</td><td>"@);
    let a2 = a1 + seconds + "s</td><td>"@;
    between(a2, t1, " / "@);
    let a3 = a2 + t1 + " / "@;
    between(a3, t2, td);
    let a4 = a3 + t2 + td;
    between(a4, t3, " / "@);
    let a5 = a4 + t3 + " / "@;
    between(a5, t4, td);
    let a6 = a5 + t4 + td;
    between(a6, t5, "ms</td><td>"@);
    let a7 = a6 + t5 + "ms</td><td>"@;
    between(a7, t6, "</td></tr>"@);
}

proof fn rate_has_no_slash(p: PhaseView)
    ensures
        names_no_host(html_report::rate_text(p)),
{
    fixed_has_no_slash(p.target_pqps as nat, 1_000_000_000_000, 1);
}

proof fn joined_is_whole(parts: Seq<Seq<char>>, sep: Seq<char>)
    requires
        whole(sep),
        forall|i: int| 0 <= i < parts.len() ==> whole(#[trigger] parts[i]),
    ensures
        whole(text::joined(parts, sep)),
    decreases parts.len(),
{
    if parts.len() > 1 {
        let front = parts.drop_last();
        assert forall|i: int| 0 <= i < front.len() implies whole(#[trigger] front[i]) by {
            assert(front[i] == parts[i]);
        }
        joined_is_whole(front, sep);
        both(text::joined(front, sep), sep);
        assert(whole(parts[parts.len() - 1]));
        both(text::joined(front, sep) + sep, parts.last());
    }
}

proof fn tables_are_whole(points: Seq<PointView>, s: ScenarioView, version: Seq<char>)
    requires
        names_no_host(s.meta.name),
        names_no_host(s.meta.version),
        names_no_host(s.meta.domain),
        names_no_host(version),
        forall|i: int|
            0 <= i < s.phases.len() ==> names_no_host((#[trigger] s.phases[i]).display_name),
    ensures
        whole(html_report::tables(points, s, version)),
{
    phase_table_is_whole();
    metadata_is_whole();
    scenario_row_is_whole();
    domain_row_is_whole();
    duration_row_is_whole();
    events_row_is_whole();
    marks_are_whole();
    let rows = html_report::phase_rows(points, s);
    assert forall|i: int| 0 <= i < rows.len() implies whole(#[trigger] rows[i]) by {
        assert(names_no_host(s.phases[i].display_name));
        phase_row_is_whole(s.phases[i], points, s);
    }
    joined_is_whole(rows, "\n  "@);
    let t = text::joined(rows, "\n  "@);
    let seconds = text::decimal(s.total_duration() as nat);
    let many = text::decimal(s.total_events() as nat);
    decimal_has_no_slash(s.total_duration() as nat);
    without_slash(seconds);
    decimal_has_no_slash(s.total_events() as nat);
    without_slash(many);
    let a1 = html_report::PHASE_TABLE@ + t + html_report::METADATA@;
    between(html_report::PHASE_TABLE@, t, html_report::METADATA@);
    between(a1, version, html_report::SCENARIO_ROW@);
    let a2 = a1 + version + html_report::SCENARIO_ROW@;
    between(a2, s.meta.name, " v"@);
    let a3 = a2 + s.meta.name + " v"@;
    between(a3, s.meta.version, html_report::DOMAIN_ROW@);
    let a4 = a3 + s.meta.version + html_report::DOMAIN_ROW@;
    between(a4, s.meta.domain, html_report::DURATION_ROW@);
    let a5 = a4 + s.meta.domain + html_report::DURATION_ROW@;
    between(a5, seconds, html_report::EVENTS_ROW@);
    both(a5 + seconds + html_report::EVENTS_ROW@, many);
}

// ---------------------------------------------------------------------------
// The series
// ---------------------------------------------------------------------------

pub(crate) proof fn numbers_are_whole(p: PointView, series: Series)
    ensures
        series == Series::Phase || whole(html_report::series_value(p, series)),
{
    let n = match series {
        Series::Time => p.timestamp_s as nat,
        Series::Phase => 0,
        Series::Produced => p.ingest_events_produced as nat,
        Series::Target => p.ingest_target_eps as nat,
        Series::P99 => p.query_latency.p99 as nat,
        Series::P50 => p.query_latency.p50 as nat,
        Series::Lag => p.kafka_consumer_lag as nat,
    };
    decimal_has_no_slash(n);
    without_slash(text::decimal(n));
    millis_has_no_slash(n);
    without_slash(decimal::millis(n));
}

pub(crate) proof fn list_is_whole(items: Seq<Seq<char>>)
    requires
        html_report::all_whole(items),
    ensures
        whole(html_report::list_text(items)),
{
    reveal_strlit("[");
    reveal_strlit("]");
    reveal_strlit(",");
    joined_is_whole(items, ","@);
    between("["@, text::joined(items, ","@), "]"@);
}

pub(crate) proof fn boundary_is_whole(p: PointView)
    requires
        whole(events::quoted(p.phase)),
    ensures
        whole(html_report::boundary(p)),
{
    reveal_strlit("[");
    reveal_strlit("]");
    reveal_strlit(",");
    let t = text::decimal(p.timestamp_s as nat);
    decimal_has_no_slash(p.timestamp_s as nat);
    between("["@, t, ","@);
    between("["@ + t + ","@, events::quoted(p.phase), "]"@);
}

/// The charts with the names of the phases name no host.
pub(crate) open spec fn whole_charts(points: Seq<PointView>) -> bool {
    &&& whole(html_report::series_text(points, Series::Phase))
    &&& whole(
        html_report::list_text(html_report::boundaries(points, points.len() as int)),
    )
}

proof fn series_is_whole(points: Seq<PointView>, series: Series)
    requires
        series != Series::Phase,
    ensures
        whole(html_report::series_text(points, series)),
{
    let v = html_report::series_values(points, series);
    assert forall|i: int| 0 <= i < v.len() implies whole(#[trigger] v[i]) by {
        numbers_are_whole(points[i], series);
    }
    list_is_whole(v);
}

proof fn script_is_whole(points: Seq<PointView>)
    requires
        whole_charts(points),
    ensures
        whole(html_report::script(points)),
{
    labels_is_whole();
    phases_is_whole();
    boundaries_is_whole();
    ingest_chart_is_whole();
    target_line_is_whole();
    latency_chart_is_whole();
    median_line_is_whole();
    lag_chart_is_whole();
    page_end_is_whole();
    let t1 = html_report::series_text(points, Series::Time);
    let t2 = html_report::series_text(points, Series::Phase);
    let t3 = html_report::list_text(html_report::boundaries(points, points.len() as int));
    let t4 = html_report::series_text(points, Series::Produced);
    let t5 = html_report::series_text(points, Series::Target);
    let t6 = html_report::series_text(points, Series::P99);
    let t7 = html_report::series_text(points, Series::P50);
    let t8 = html_report::series_text(points, Series::Lag);
    series_is_whole(points, Series::Time);
    series_is_whole(points, Series::Produced);
    series_is_whole(points, Series::Target);
    series_is_whole(points, Series::P99);
    series_is_whole(points, Series::P50);
    series_is_whole(points, Series::Lag);
    let a1 = html_report::LABELS@ + t1 + html_report::PHASES@;
    between(html_report::LABELS@, t1, html_report::PHASES@);
    between(a1, t2, html_report::BOUNDARIES@);
    let a2 = a1 + t2 + html_report::BOUNDARIES@;
    between(a2, t3, html_report::INGEST_CHART@);
    let a3 = a2 + t3 + html_report::INGEST_CHART@;
    between(a3, t4, html_report::TARGET_LINE@);
    let a4 = a3 + t4 + html_report::TARGET_LINE@;
    between(a4, t5, html_report::LATENCY_CHART@);
    let a5 = a4 + t5 + html_report::LATENCY_CHART@;
    between(a5, t6, html_report::MEDIAN_LINE@);
    let a6 = a5 + t6 + html_report::MEDIAN_LINE@;
    between(a6, t7, html_report::LAG_CHART@);
    let a7 = a6 + t7 + html_report::LAG_CHART@;
    between(a7, t8, html_report::PAGE_END@);
}

/// The page is complete in itself: where no name in it names a host, the page names none, and
/// so loads no script, style sheet or other resource from elsewhere.
pub(crate) proof fn the_page_names_no_host(
    s: ScenarioView,
    points: Seq<PointView>,
    card: Scorecard,
    version: Seq<char>,
    timestamp: Seq<char>,
)
    requires
        plain_names(s, points, version, timestamp),
        whole_charts(points),
    ensures
        names_no_host(html_report::page(s, points, card, version, timestamp)),
{
    let valid = criteria::violations(points, s).len() == 0;
    let a = html_report::head(s, timestamp, valid);
    let b = html_report::cards(card);
    let c = html_report::group_section(points);
    let d = html_report::tables(points, s, version);
    let e = html_report::script(points);
    head_is_whole(s, timestamp, valid);
    cards_are_whole(card);
    groups_are_whole(points);
    tables_are_whole(points, s, version);
    script_is_whole(points);
    both(a, b);
    both(a + b, c);
    both(a + b + c, d);
    both(a + b + c + d, e);
}

} // verus!
