//! What the page and the table of a report show: every figure under its own label, every
//! series on its own line, and every second in its own row.
use vstd::prelude::*;
use vstd::string::*;
use crate::criteria;
use crate::decimal;
use crate::decimal::Ratio;
use crate::events;
use crate::groups;
use crate::groups::GroupFiguresView;
use crate::html_report;
use crate::html_report::Series;
use crate::metrics;
use crate::metrics::{Measure, PointView, Scorecard};
use crate::scenario::ScenarioView;
use crate::text;
use crate::timeline_laws::fixed_numbers_are_nearest;

verus! {

// ---------------------------------------------------------------------------
// Where texts stand
// ---------------------------------------------------------------------------

pub(crate) proof fn stands_at_the_end(
    before: Seq<char>,
    card: Seq<char>,
    label: Seq<char>,
    value: Seq<char>,
)
    requires
        text::ends(card, label),
    ensures
        text::holds(before + card + value, label + value),
{
    let t = before + card + value;
    let at = before.len() + card.len() - label.len();
    assert(t.subrange(at, at + (label + value).len()) =~= label + value) by {
        assert forall|i: int| 0 <= i < label.len() implies t[at + i] == label[i] by {
            assert(card.skip(card.len() - label.len())[i] == label[i]);
        }
    }
    assert(text::occurs_at(t, label + value, at));
}

pub(crate) proof fn stands_before(t: Seq<char>, more: Seq<char>, x: Seq<char>)
    requires
        text::holds(t, x),
    ensures
        text::holds(t + more, x),
{
    let i = choose|i: int| text::occurs_at(t, x, i);
    assert((t + more).subrange(i, i + x.len()) =~= t.subrange(i, i + x.len()));
    assert(text::occurs_at(t + more, x, i));
}

pub(crate) proof fn stands_behind(before: Seq<char>, t: Seq<char>, x: Seq<char>)
    requires
        text::holds(t, x),
    ensures
        text::holds(before + t, x),
{
    let i = choose|i: int| text::occurs_at(t, x, i);
    let at = before.len() + i;
    assert((before + t).subrange(at, at + x.len()) =~= t.subrange(i, i + x.len()));
    assert(text::occurs_at(before + t, x, at));
}

pub(crate) proof fn stands_in_itself(t: Seq<char>)
    ensures
        text::holds(t, t),
{
    assert(t.subrange(0, t.len() as int) =~= t);
    assert(text::occurs_at(t, t, 0));
}

proof fn baseline_card_ends()
    ensures
        text::ends(html_report::BASELINE_CARD@, r#"Baseline p99</div>
    <div class="value">"#@),
{
    reveal_strlit(
        r#"</span>
</div>

<h2>Scorecard</h2>
<div class="scorecard">
  <div class="metric-card">
    <div class="label">Baseline p99</div>
    <div class="value">"#,
    );
    reveal_strlit(
        r#"Baseline p99</div>
    <div class="value">"#,
    );
    let card = html_report::BASELINE_CARD@;
    let label = r#"Baseline p99</div>
    <div class="value">"#@;
    assert(card.skip(card.len() - label.len()) =~= label);
}

proof fn overlap_card_ends()
    ensures
        text::ends(html_report::OVERLAP_CARD@, r#"Overlap p99</div>
    <div class="value">"#@),
{
    reveal_strlit(
        r#"</div>
    <div class="unit">ms</div>
  </div>
  <div class="metric-card">
    <div class="label">Overlap p99</div>
    <div class="value">"#,
    );
    reveal_strlit(
        r#"Overlap p99</div>
    <div class="value">"#,
    );
    let card = html_report::OVERLAP_CARD@;
    let label = r#"Overlap p99</div>
    <div class="value">"#@;
    assert(card.skip(card.len() - label.len()) =~= label);
}

proof fn degradation_card_ends()
    ensures
        text::ends(html_report::DEGRADATION_CARD@, r#"Degradation Ratio</div>
    <div class="value">"#@),
{
    reveal_strlit(
        r#"</div>
    <div class="unit">ms</div>
  </div>
  <div class="metric-card">
    <div class="label">Degradation Ratio</div>
    <div class="value">"#,
    );
    reveal_strlit(
        r#"Degradation Ratio</div>
    <div class="value">"#,
    );
    let card = html_report::DEGRADATION_CARD@;
    let label = r#"Degradation Ratio</div>
    <div class="value">"#@;
    assert(card.skip(card.len() - label.len()) =~= label);
}

proof fn error_card_ends()
    ensures
        text::ends(html_report::ERROR_CARD@, r#"Query Error Rate</div>
    <div class="value">"#@),
{
    reveal_strlit(
        r#"x</div>
    <div class="unit">overlap / baseline</div>
  </div>
  <div class="metric-card">
    <div class="label">Query Error Rate</div>
    <div class="value">"#,
    );
    reveal_strlit(
        r#"Query Error Rate</div>
    <div class="value">"#,
    );
    let card = html_report::ERROR_CARD@;
    let label = r#"Query Error Rate</div>
    <div class="value">"#@;
    assert(card.skip(card.len() - label.len()) =~= label);
}

proof fn backlog_card_ends()
    ensures
        text::ends(html_report::BACKLOG_CARD@, r#"Peak Backlog</div>
    <div class="value">"#@),
{
    reveal_strlit(
        r#"%</div>
    <div class="unit">during overlap</div>
  </div>
  <div class="metric-card">
    <div class="label">Peak Backlog</div>
    <div class="value">"#,
    );
    reveal_strlit(
        r#"Peak Backlog</div>
    <div class="value">"#,
    );
    let card = html_report::BACKLOG_CARD@;
    let label = r#"Peak Backlog</div>
    <div class="value">"#@;
    assert(card.skip(card.len() - label.len()) =~= label);
}

proof fn drain_card_ends()
    ensures
        text::ends(html_report::DRAIN_CARD@, r#"Backlog Drain</div>
    <div class="value">"#@),
{
    reveal_strlit(
        r#"</div>
    <div class="unit">events (Kafka lag)</div>
  </div>
  <div class="metric-card">
    <div class="label">Backlog Drain</div>
    <div class="value">"#,
    );
    reveal_strlit(
        r#"Backlog Drain</div>
    <div class="value">"#,
    );
    let card = html_report::DRAIN_CARD@;
    let label = r#"Backlog Drain</div>
    <div class="value">"#@;
    assert(card.skip(card.len() - label.len()) =~= label);
}

proof fn recovery_card_ends()
    ensures
        text::ends(html_report::RECOVERY_CARD@, r#"Recovery Time</div>
    <div class="value">"#@),
{
    reveal_strlit(
        r#"</div>
    <div class="unit">seconds</div>
  </div>
  <div class="metric-card">
    <div class="label">Recovery Time</div>
    <div class="value">"#,
    );
    reveal_strlit(
        r#"Recovery Time</div>
    <div class="value">"#,
    );
    let card = html_report::RECOVERY_CARD@;
    let label = r#"Recovery Time</div>
    <div class="value">"#@;
    assert(card.skip(card.len() - label.len()) =~= label);
}

proof fn metadata_ends()
    ensures
        text::ends(html_report::METADATA@, "<td>Harness Version</td><td>"@),
{
    reveal_strlit(
        r#"
</table>

<h2>Run Metadata</h2>
<table>
  <tr><td>Harness Version</td><td>"#,
    );
    reveal_strlit(
        "<td>Harness Version</td><td>",
    );
    let card = html_report::METADATA@;
    let label = "<td>Harness Version</td><td>"@;
    assert(card.skip(card.len() - label.len()) =~= label);
}

proof fn scenario_row_ends()
    ensures
        text::ends(html_report::SCENARIO_ROW@, "<td>Scenario</td><td>"@),
{
    reveal_strlit(
        r#"</td></tr>
  <tr><td>Scenario</td><td>"#,
    );
    reveal_strlit(
        "<td>Scenario</td><td>",
    );
    let card = html_report::SCENARIO_ROW@;
    let label = "<td>Scenario</td><td>"@;
    assert(card.skip(card.len() - label.len()) =~= label);
}

proof fn domain_row_ends()
    ensures
        text::ends(html_report::DOMAIN_ROW@, "<td>Domain</td><td>"@),
{
    reveal_strlit(
        r#"</td></tr>
  <tr><td>Domain</td><td>"#,
    );
    reveal_strlit(
        "<td>Domain</td><td>",
    );
    let card = html_report::DOMAIN_ROW@;
    let label = "<td>Domain</td><td>"@;
    assert(card.skip(card.len() - label.len()) =~= label);
}

proof fn duration_row_ends()
    ensures
        text::ends(html_report::DURATION_ROW@, "<td>Total Duration</td><td>"@),
{
    reveal_strlit(
        r#"</td></tr>
  <tr><td>Total Duration</td><td>"#,
    );
    reveal_strlit(
        "<td>Total Duration</td><td>",
    );
    let card = html_report::DURATION_ROW@;
    let label = "<td>Total Duration</td><td>"@;
    assert(card.skip(card.len() - label.len()) =~= label);
}

proof fn events_row_ends()
    ensures
        text::ends(html_report::EVENTS_ROW@, "<td>Total Events</td><td>"@),
{
    reveal_strlit(
        r#"s</td></tr>
  <tr><td>Total Events</td><td>"#,
    );
    reveal_strlit(
        "<td>Total Events</td><td>",
    );
    let card = html_report::EVENTS_ROW@;
    let label = "<td>Total Events</td><td>"@;
    assert(card.skip(card.len() - label.len()) =~= label);
}

proof fn labels_ends()
    ensures
        text::ends(html_report::LABELS@, "const labels = "@),
{
    reveal_strlit(
        r#"</td></tr>
</table>

<script>
const labels = "#,
    );
    reveal_strlit(
        "const labels = ",
    );
    let card = html_report::LABELS@;
    let label = "const labels = "@;
    assert(card.skip(card.len() - label.len()) =~= label);
}

proof fn phases_ends()
    ensures
        text::ends(html_report::PHASES@, "const phases = "@),
{
    reveal_strlit(
        r#";
const phases = "#,
    );
    reveal_strlit(
        "const phases = ",
    );
    let card = html_report::PHASES@;
    let label = "const phases = "@;
    assert(card.skip(card.len() - label.len()) =~= label);
}

proof fn boundaries_ends()
    ensures
        text::ends(html_report::BOUNDARIES@, "const phaseBoundaries = "@),
{
    reveal_strlit(
        r#";
const phaseBoundaries = "#,
    );
    reveal_strlit(
        "const phaseBoundaries = ",
    );
    let card = html_report::BOUNDARIES@;
    let label = "const phaseBoundaries = "@;
    assert(card.skip(card.len() - label.len()) =~= label);
}

proof fn ingest_chart_ends()
    ensures
        text::ends(html_report::INGEST_CHART@, "{ label: 'Achieved EPS', data: "@),
{
    reveal_strlit(
        r#";

function phaseColors(phases) {
  const colorMap = {
    'baseline': 'rgba(102,187,106,0.1)',
    'incident_trigger': 'rgba(255,167,38,0.1)',
    'ingestion_surge': 'rgba(239,83,80,0.15)',
    'overlap': 'rgba(239,83,80,0.25)',
    'recovery': 'rgba(255,167,38,0.1)',
    'post_incident': 'rgba(102,187,106,0.1)',
  };
  return phases.map(p => colorMap[p] || 'rgba(0,0,0,0)');
}

new Chart(document.getElementById('ingestChart'), {
  type: 'line',
  data: {
    labels: labels,
    datasets: [
      { label: 'Achieved EPS', data: "#,
    );
    reveal_strlit(
        "{ label: 'Achieved EPS', data: ",
    );
    let card = html_report::INGEST_CHART@;
    let label = "{ label: 'Achieved EPS', data: "@;
    assert(card.skip(card.len() - label.len()) =~= label);
}

proof fn target_line_ends()
    ensures
        text::ends(html_report::TARGET_LINE@, "{ label: 'Target EPS', data: "@),
{
    reveal_strlit(
        r#", borderColor: '#4fc3f7', borderWidth: 1.5, pointRadius: 0, fill: false },
      { label: 'Target EPS', data: "#,
    );
    reveal_strlit(
        "{ label: 'Target EPS', data: ",
    );
    let card = html_report::TARGET_LINE@;
    let label = "{ label: 'Target EPS', data: "@;
    assert(card.skip(card.len() - label.len()) =~= label);
}

proof fn latency_chart_ends()
    ensures
        text::ends(html_report::LATENCY_CHART@, "{ label: 'p99', data: "@),
{
    reveal_strlit(
        r#", borderColor: '#666', borderWidth: 1, borderDash: [5,5], pointRadius: 0, fill: false },
    ]
  },
  options: { responsive: true, scales: { y: { beginAtZero: true, ticks: { color: '#999' } }, x: { ticks: { color: '#999', maxTicksLimit: 10 } } }, plugins: { legend: { labels: { color: '#ccc' } } } }
});

new Chart(document.getElementById('latencyChart'), {
  type: 'line',
  data: {
    labels: labels,
    datasets: [
      { label: 'p99', data: "#,
    );
    reveal_strlit(
        "{ label: 'p99', data: ",
    );
    let card = html_report::LATENCY_CHART@;
    let label = "{ label: 'p99', data: "@;
    assert(card.skip(card.len() - label.len()) =~= label);
}

proof fn median_line_ends()
    ensures
        text::ends(html_report::MEDIAN_LINE@, "{ label: 'p50', data: "@),
{
    reveal_strlit(
        r#", borderColor: '#ef5350', borderWidth: 1.5, pointRadius: 0, fill: false },
      { label: 'p50', data: "#,
    );
    reveal_strlit(
        "{ label: 'p50', data: ",
    );
    let card = html_report::MEDIAN_LINE@;
    let label = "{ label: 'p50', data: "@;
    assert(card.skip(card.len() - label.len()) =~= label);
}

proof fn lag_chart_ends()
    ensures
        text::ends(html_report::LAG_CHART@, "{ label: 'Consumer Lag', data: "@),
{
    reveal_strlit(
        r#", borderColor: '#66bb6a', borderWidth: 1.5, pointRadius: 0, fill: false },
    ]
  },
  options: { responsive: true, scales: { y: { beginAtZero: true, title: { display: true, text: 'ms', color: '#999' }, ticks: { color: '#999' } }, x: { ticks: { color: '#999', maxTicksLimit: 10 } } }, plugins: { legend: { labels: { color: '#ccc' } } } }
});

new Chart(document.getElementById('lagChart'), {
  type: 'line',
  data: {
    labels: labels,
    datasets: [
      { label: 'Consumer Lag', data: "#,
    );
    reveal_strlit(
        "{ label: 'Consumer Lag', data: ",
    );
    let card = html_report::LAG_CHART@;
    let label = "{ label: 'Consumer Lag', data: "@;
    assert(card.skip(card.len() - label.len()) =~= label);
}

proof fn badge_ends()
    ensures
        text::ends(html_report::BADGE@, r#"<span class="badge "#@),
{
    reveal_strlit(
        r#"</div>
  </div>
  <span class="badge "#,
    );
    reveal_strlit(
        r#"<span class="badge "#,
    );
    let card = html_report::BADGE@;
    let label = r#"<span class="badge "#@;
    assert(card.skip(card.len() - label.len()) =~= label);
}

// ---------------------------------------------------------------------------
// Figures
// ---------------------------------------------------------------------------

/// The tenths that a text with one decimal denotes.
pub open spec fn tenths_in(t: Seq<char>) -> nat {
    text::digits_value(t.take(t.len() - 2)) * 10 + text::digits_value(t.skip(t.len() - 1))
}

proof fn tenths_are_near(num: nat, den: nat)
    requires
        den > 0,
    ensures
        ({
            let n = tenths_in(decimal::fixed(num, den, 1));
            -den <= 2 * (num * 10 - n * den) <= den
        }),
{
    fixed_numbers_are_nearest(num, den, 1);
    assert(crate::timeline_laws::tens(1) == 10) by {
        reveal_with_fuel(crate::timeline_laws::tens, 2);
    }
}

/// Latencies are shown in milliseconds, fractions in per cent, and both to the nearest tenth.
pub proof fn figures_are_shown_in_their_units(r: Ratio, seconds: u64)
    requires
        r.den > 0,
    ensures
        ({
            let ms = tenths_in(html_report::ms_text(r));
            let ns_per_tenth = r.den * 1_000_000;
            -ns_per_tenth <= 2 * (r.num * 10 - ms * ns_per_tenth) <= ns_per_tenth
        }),
        ({
            let ratio = tenths_in(html_report::ratio_text(r));
            -r.den <= 2 * (r.num * 10 - ratio * r.den) <= r.den
        }),
        ({
            let percent = tenths_in(html_report::percent_text(r));
            -r.den <= 2 * (r.num * 1000 - percent * r.den) <= r.den
        }),
        tenths_in(html_report::seconds_text(seconds)) == seconds * 10,
{
    let million = r.den as nat * 1_000_000;
    tenths_are_near(r.num as nat, million);
    tenths_are_near(r.num as nat, r.den as nat);
    tenths_are_near(r.num as nat * 100, r.den as nat);
    tenths_are_near(seconds as nat, 1);
}

// ---------------------------------------------------------------------------
// The page
// ---------------------------------------------------------------------------

/// Every card of the page shows the figure that its label names.
pub proof fn every_card_shows_its_figure(c: Scorecard)
    ensures
        text::holds(
            html_report::cards(c),
            r#"Baseline p99</div>
    <div class="value">"#@ + html_report::ms_text(c.baseline_p99_ns),
        ),
        text::holds(
            html_report::cards(c),
            r#"Overlap p99</div>
    <div class="value">"#@ + html_report::ms_text(c.overlap_p99_ns),
        ),
        text::holds(
            html_report::cards(c),
            r#"Degradation Ratio</div>
    <div class="value">"#@ + html_report::ratio_text(c.p99_degradation_ratio),
        ),
        text::holds(
            html_report::cards(c),
            r#"Query Error Rate</div>
    <div class="value">"#@ + html_report::percent_text(c.query_error_rate_overlap),
        ),
        text::holds(
            html_report::cards(c),
            r#"Peak Backlog</div>
    <div class="value">"#@ + text::decimal(c.peak_backlog as nat),
        ),
        text::holds(
            html_report::cards(c),
            r#"Backlog Drain</div>
    <div class="value">"#@ + html_report::seconds_text(c.backlog_drain_time_s),
        ),
        text::holds(
            html_report::cards(c),
            r#"Recovery Time</div>
    <div class="value">"#@ + html_report::seconds_text(c.recovery_time_s),
        ),
{
    let s0 = html_report::BASELINE_CARD@;
    let s1 = html_report::ms_text(c.baseline_p99_ns);
    let s2 = html_report::OVERLAP_CARD@;
    let s3 = html_report::ms_text(c.overlap_p99_ns);
    let s4 = html_report::DEGRADATION_CARD@;
    let s5 = html_report::ratio_text(c.p99_degradation_ratio);
    let s6 = html_report::ERROR_CARD@;
    let s7 = html_report::percent_text(c.query_error_rate_overlap);
    let s8 = html_report::BACKLOG_CARD@;
    let s9 = text::decimal(c.peak_backlog as nat);
    let s10 = html_report::DRAIN_CARD@;
    let s11 = html_report::seconds_text(c.backlog_drain_time_s);
    let s12 = html_report::RECOVERY_CARD@;
    let s13 = html_report::seconds_text(c.recovery_time_s);
    let s14 = html_report::CHARTS@;
    let t0 = s0;
    let t1 = t0 + s1;
    let t2 = t1 + s2;
    let t3 = t2 + s3;
    let t4 = t3 + s4;
    let t5 = t4 + s5;
    let t6 = t5 + s6;
    let t7 = t6 + s7;
    let t8 = t7 + s8;
    let t9 = t8 + s9;
    let t10 = t9 + s10;
    let t11 = t10 + s11;
    let t12 = t11 + s12;
    let t13 = t12 + s13;
    let t14 = t13 + s14;
    let label = r#"Baseline p99</div>
    <div class="value">"#@;
    let x = label + s1;
    baseline_card_ends();
    assert(Seq::<char>::empty() + t0 =~= t0);
    stands_at_the_end(Seq::empty(), s0, label, s1);
    stands_before(t1, s2, x);
    stands_before(t2, s3, x);
    stands_before(t3, s4, x);
    stands_before(t4, s5, x);
    stands_before(t5, s6, x);
    stands_before(t6, s7, x);
    stands_before(t7, s8, x);
    stands_before(t8, s9, x);
    stands_before(t9, s10, x);
    stands_before(t10, s11, x);
    stands_before(t11, s12, x);
    stands_before(t12, s13, x);
    stands_before(t13, s14, x);
    let label = r#"Overlap p99</div>
    <div class="value">"#@;
    let x = label + s3;
    overlap_card_ends();
    stands_at_the_end(t1, s2, label, s3);
    stands_before(t3, s4, x);
    stands_before(t4, s5, x);
    stands_before(t5, s6, x);
    stands_before(t6, s7, x);
    stands_before(t7, s8, x);
    stands_before(t8, s9, x);
    stands_before(t9, s10, x);
    stands_before(t10, s11, x);
    stands_before(t11, s12, x);
    stands_before(t12, s13, x);
    stands_before(t13, s14, x);
    let label = r#"Degradation Ratio</div>
    <div class="value">"#@;
    let x = label + s5;
    degradation_card_ends();
    stands_at_the_end(t3, s4, label, s5);
    stands_before(t5, s6, x);
    stands_before(t6, s7, x);
    stands_before(t7, s8, x);
    stands_before(t8, s9, x);
    stands_before(t9, s10, x);
    stands_before(t10, s11, x);
    stands_before(t11, s12, x);
    stands_before(t12, s13, x);
    stands_before(t13, s14, x);
    let label = r#"Query Error Rate</div>
    <div class="value">"#@;
    let x = label + s7;
    error_card_ends();
    stands_at_the_end(t5, s6, label, s7);
    stands_before(t7, s8, x);
    stands_before(t8, s9, x);
    stands_before(t9, s10, x);
    stands_before(t10, s11, x);
    stands_before(t11, s12, x);
    stands_before(t12, s13, x);
    stands_before(t13, s14, x);
    let label = r#"Peak Backlog</div>
    <div class="value">"#@;
    let x = label + s9;
    backlog_card_ends();
    stands_at_the_end(t7, s8, label, s9);
    stands_before(t9, s10, x);
    stands_before(t10, s11, x);
    stands_before(t11, s12, x);
    stands_before(t12, s13, x);
    stands_before(t13, s14, x);
    let label = r#"Backlog Drain</div>
    <div class="value">"#@;
    let x = label + s11;
    drain_card_ends();
    stands_at_the_end(t9, s10, label, s11);
    stands_before(t11, s12, x);
    stands_before(t12, s13, x);
    stands_before(t13, s14, x);
    let label = r#"Recovery Time</div>
    <div class="value">"#@;
    let x = label + s13;
    recovery_card_ends();
    stands_at_the_end(t11, s12, label, s13);
    stands_before(t13, s14, x);
}

/// The badge says that the run is valid exactly when nothing speaks against it.
pub proof fn the_badge_says_whether_the_run_is_valid(
    s: ScenarioView,
    points: Seq<PointView>,
    card: Scorecard,
    version: Seq<char>,
    timestamp: Seq<char>,
)
    ensures
        criteria::violations(points, s).len() == 0 ==> text::holds(
            html_report::page(s, points, card, version, timestamp),
            "<span class=\"badge valid\">VALID"@,
        ),
        criteria::violations(points, s).len() > 0 ==> text::holds(
            html_report::page(s, points, card, version, timestamp),
            "<span class=\"badge invalid\">INVALID"@,
        ),
{
    let valid = criteria::violations(points, s).len() == 0;
    let head = html_report::head(s, timestamp, valid);
    let class = if valid {
        "valid"@
    } else {
        "invalid"@
    };
    let word = if valid {
        "VALID"@
    } else {
        "INVALID"@
    };
    let before = html_report::TITLE@ + s.meta.name + html_report::DRAWING@ + html_report::STYLE@
        + s.meta.display_name + " v"@ + s.meta.version + " &mdash; "@ + timestamp;
    let rest = class + "\">"@ + word;
    badge_ends();
    stands_at_the_end(before, html_report::BADGE@, r#"<span class="badge "#@, rest);
    assert(head =~= before + html_report::BADGE@ + rest);
    reveal_strlit(r#"<span class="badge "#);
    reveal_strlit("\">");
    if valid {
        reveal_strlit("valid");
        reveal_strlit("VALID");
        reveal_strlit("<span class=\"badge valid\">VALID");
        assert(r#"<span class="badge "#@ + rest =~= "<span class=\"badge valid\">VALID"@);
    } else {
        reveal_strlit("invalid");
        reveal_strlit("INVALID");
        reveal_strlit("<span class=\"badge invalid\">INVALID");
        assert(r#"<span class="badge "#@ + rest =~= "<span class=\"badge invalid\">INVALID"@);
    }
    let x = r#"<span class="badge "#@ + rest;
    let a = head + html_report::cards(card);
    let b = a + html_report::group_section(points);
    let c = b + html_report::tables(points, s, version);
    stands_before(head, html_report::cards(card), x);
    stands_before(a, html_report::group_section(points), x);
    stands_before(b, html_report::tables(points, s, version), x);
    stands_before(c, html_report::script(points), x);
}

/// The page says which run it is of: the version, the scenario, its domain, how long it takes,
/// and how many events it has.
pub proof fn the_run_is_described(points: Seq<PointView>, s: ScenarioView, version: Seq<char>)
    ensures
        text::holds(
            html_report::tables(points, s, version),
            "<td>Harness Version</td><td>"@ + version,
        ),
        text::holds(
            html_report::tables(points, s, version),
            "<td>Scenario</td><td>"@ + s.meta.name,
        ),
        text::holds(
            html_report::tables(points, s, version),
            "<td>Domain</td><td>"@ + s.meta.domain,
        ),
        text::holds(
            html_report::tables(points, s, version),
            "<td>Total Duration</td><td>"@ + text::decimal(s.total_duration() as nat),
        ),
        text::holds(
            html_report::tables(points, s, version),
            "<td>Total Events</td><td>"@ + text::decimal(s.total_events() as nat),
        ),
{
    let s0 = html_report::PHASE_TABLE@;
    let s1 = text::joined(html_report::phase_rows(points, s), "\n  "@);
    let s2 = html_report::METADATA@;
    let s3 = version;
    let s4 = html_report::SCENARIO_ROW@;
    let s5 = s.meta.name;
    let s6 = " v"@;
    let s7 = s.meta.version;
    let s8 = html_report::DOMAIN_ROW@;
    let s9 = s.meta.domain;
    let s10 = html_report::DURATION_ROW@;
    let s11 = text::decimal(s.total_duration() as nat);
    let s12 = html_report::EVENTS_ROW@;
    let s13 = text::decimal(s.total_events() as nat);
    let t0 = s0;
    let t1 = t0 + s1;
    let t2 = t1 + s2;
    let t3 = t2 + s3;
    let t4 = t3 + s4;
    let t5 = t4 + s5;
    let t6 = t5 + s6;
    let t7 = t6 + s7;
    let t8 = t7 + s8;
    let t9 = t8 + s9;
    let t10 = t9 + s10;
    let t11 = t10 + s11;
    let t12 = t11 + s12;
    let t13 = t12 + s13;
    let label = "<td>Harness Version</td><td>"@;
    let x = label + s3;
    metadata_ends();
    stands_at_the_end(t1, s2, label, s3);
    stands_before(t3, s4, x);
    stands_before(t4, s5, x);
    stands_before(t5, s6, x);
    stands_before(t6, s7, x);
    stands_before(t7, s8, x);
    stands_before(t8, s9, x);
    stands_before(t9, s10, x);
    stands_before(t10, s11, x);
    stands_before(t11, s12, x);
    stands_before(t12, s13, x);
    let label = "<td>Scenario</td><td>"@;
    let x = label + s5;
    scenario_row_ends();
    stands_at_the_end(t3, s4, label, s5);
    stands_before(t5, s6, x);
    stands_before(t6, s7, x);
    stands_before(t7, s8, x);
    stands_before(t8, s9, x);
    stands_before(t9, s10, x);
    stands_before(t10, s11, x);
    stands_before(t11, s12, x);
    stands_before(t12, s13, x);
    let label = "<td>Domain</td><td>"@;
    let x = label + s9;
    domain_row_ends();
    stands_at_the_end(t7, s8, label, s9);
    stands_before(t9, s10, x);
    stands_before(t10, s11, x);
    stands_before(t11, s12, x);
    stands_before(t12, s13, x);
    let label = "<td>Total Duration</td><td>"@;
    let x = label + s11;
    duration_row_ends();
    stands_at_the_end(t9, s10, label, s11);
    stands_before(t11, s12, x);
    stands_before(t12, s13, x);
    let label = "<td>Total Events</td><td>"@;
    let x = label + s13;
    events_row_ends();
    stands_at_the_end(t11, s12, label, s13);
}

/// Every line of the charts draws the series that its label names.
pub proof fn every_line_draws_its_series(points: Seq<PointView>)
    ensures
        text::holds(
            html_report::script(points),
            "const labels = "@ + html_report::series_text(points, Series::Time),
        ),
        text::holds(
            html_report::script(points),
            "const phases = "@ + html_report::series_text(points, Series::Phase),
        ),
        text::holds(
            html_report::script(points),
            "const phaseBoundaries = "@ + html_report::list_text(
                html_report::boundaries(points, points.len() as int),
            ),
        ),
        text::holds(
            html_report::script(points),
            "{ label: 'Achieved EPS', data: "@ + html_report::series_text(points, Series::Produced),
        ),
        text::holds(
            html_report::script(points),
            "{ label: 'Target EPS', data: "@ + html_report::series_text(points, Series::Target),
        ),
        text::holds(
            html_report::script(points),
            "{ label: 'p99', data: "@ + html_report::series_text(points, Series::P99),
        ),
        text::holds(
            html_report::script(points),
            "{ label: 'p50', data: "@ + html_report::series_text(points, Series::P50),
        ),
        text::holds(
            html_report::script(points),
            "{ label: 'Consumer Lag', data: "@ + html_report::series_text(points, Series::Lag),
        ),
{
    let s0 = html_report::LABELS@;
    let s1 = html_report::series_text(points, Series::Time);
    let s2 = html_report::PHASES@;
    let s3 = html_report::series_text(points, Series::Phase);
    let s4 = html_report::BOUNDARIES@;
    let s5 = html_report::list_text(html_report::boundaries(points, points.len() as int));
    let s6 = html_report::INGEST_CHART@;
    let s7 = html_report::series_text(points, Series::Produced);
    let s8 = html_report::TARGET_LINE@;
    let s9 = html_report::series_text(points, Series::Target);
    let s10 = html_report::LATENCY_CHART@;
    let s11 = html_report::series_text(points, Series::P99);
    let s12 = html_report::MEDIAN_LINE@;
    let s13 = html_report::series_text(points, Series::P50);
    let s14 = html_report::LAG_CHART@;
    let s15 = html_report::series_text(points, Series::Lag);
    let s16 = html_report::PAGE_END@;
    let t0 = s0;
    let t1 = t0 + s1;
    let t2 = t1 + s2;
    let t3 = t2 + s3;
    let t4 = t3 + s4;
    let t5 = t4 + s5;
    let t6 = t5 + s6;
    let t7 = t6 + s7;
    let t8 = t7 + s8;
    let t9 = t8 + s9;
    let t10 = t9 + s10;
    let t11 = t10 + s11;
    let t12 = t11 + s12;
    let t13 = t12 + s13;
    let t14 = t13 + s14;
    let t15 = t14 + s15;
    let t16 = t15 + s16;
    let label = "const labels = "@;
    let x = label + s1;
    labels_ends();
    assert(Seq::<char>::empty() + t0 =~= t0);
    stands_at_the_end(Seq::empty(), s0, label, s1);
    stands_before(t1, s2, x);
    stands_before(t2, s3, x);
    stands_before(t3, s4, x);
    stands_before(t4, s5, x);
    stands_before(t5, s6, x);
    stands_before(t6, s7, x);
    stands_before(t7, s8, x);
    stands_before(t8, s9, x);
    stands_before(t9, s10, x);
    stands_before(t10, s11, x);
    stands_before(t11, s12, x);
    stands_before(t12, s13, x);
    stands_before(t13, s14, x);
    stands_before(t14, s15, x);
    stands_before(t15, s16, x);
    let label = "const phases = "@;
    let x = label + s3;
    phases_ends();
    stands_at_the_end(t1, s2, label, s3);
    stands_before(t3, s4, x);
    stands_before(t4, s5, x);
    stands_before(t5, s6, x);
    stands_before(t6, s7, x);
    stands_before(t7, s8, x);
    stands_before(t8, s9, x);
    stands_before(t9, s10, x);
    stands_before(t10, s11, x);
    stands_before(t11, s12, x);
    stands_before(t12, s13, x);
    stands_before(t13, s14, x);
    stands_before(t14, s15, x);
    stands_before(t15, s16, x);
    let label = "const phaseBoundaries = "@;
    let x = label + s5;
    boundaries_ends();
    stands_at_the_end(t3, s4, label, s5);
    stands_before(t5, s6, x);
    stands_before(t6, s7, x);
    stands_before(t7, s8, x);
    stands_before(t8, s9, x);
    stands_before(t9, s10, x);
    stands_before(t10, s11, x);
    stands_before(t11, s12, x);
    stands_before(t12, s13, x);
    stands_before(t13, s14, x);
    stands_before(t14, s15, x);
    stands_before(t15, s16, x);
    let label = "{ label: 'Achieved EPS', data: "@;
    let x = label + s7;
    ingest_chart_ends();
    stands_at_the_end(t5, s6, label, s7);
    stands_before(t7, s8, x);
    stands_before(t8, s9, x);
    stands_before(t9, s10, x);
    stands_before(t10, s11, x);
    stands_before(t11, s12, x);
    stands_before(t12, s13, x);
    stands_before(t13, s14, x);
    stands_before(t14, s15, x);
    stands_before(t15, s16, x);
    let label = "{ label: 'Target EPS', data: "@;
    let x = label + s9;
    target_line_ends();
    stands_at_the_end(t7, s8, label, s9);
    stands_before(t9, s10, x);
    stands_before(t10, s11, x);
    stands_before(t11, s12, x);
    stands_before(t12, s13, x);
    stands_before(t13, s14, x);
    stands_before(t14, s15, x);
    stands_before(t15, s16, x);
    let label = "{ label: 'p99', data: "@;
    let x = label + s11;
    latency_chart_ends();
    stands_at_the_end(t9, s10, label, s11);
    stands_before(t11, s12, x);
    stands_before(t12, s13, x);
    stands_before(t13, s14, x);
    stands_before(t14, s15, x);
    stands_before(t15, s16, x);
    let label = "{ label: 'p50', data: "@;
    let x = label + s13;
    median_line_ends();
    stands_at_the_end(t11, s12, label, s13);
    stands_before(t13, s14, x);
    stands_before(t14, s15, x);
    stands_before(t15, s16, x);
    let label = "{ label: 'Consumer Lag', data: "@;
    let x = label + s15;
    lag_chart_ends();
    stands_at_the_end(t13, s14, label, s15);
    stands_before(t15, s16, x);
}

/// The page holds its cards, its tables and its charts.
pub proof fn the_page_holds_its_parts(
    s: ScenarioView,
    points: Seq<PointView>,
    card: Scorecard,
    version: Seq<char>,
    timestamp: Seq<char>,
)
    ensures
        ({
            let page = html_report::page(s, points, card, version, timestamp);
            &&& text::holds(page, html_report::cards(card))
            &&& text::holds(page, html_report::group_section(points))
            &&& text::holds(page, html_report::tables(points, s, version))
            &&& text::holds(page, html_report::script(points))
        }),
{
    let head = html_report::head(s, timestamp, criteria::violations(points, s).len() == 0);
    let a = head + html_report::cards(card);
    let b = a + html_report::group_section(points);
    let c = b + html_report::tables(points, s, version);
    let script = html_report::script(points);
    stands_in_itself(html_report::cards(card));
    stands_behind(head, html_report::cards(card), html_report::cards(card));
    stands_before(a, html_report::group_section(points), html_report::cards(card));
    stands_before(b, html_report::tables(points, s, version), html_report::cards(card));
    stands_before(c, script, html_report::cards(card));
    stands_in_itself(html_report::group_section(points));
    stands_behind(a, html_report::group_section(points), html_report::group_section(points));
    stands_before(b, html_report::tables(points, s, version), html_report::group_section(points));
    stands_before(c, script, html_report::group_section(points));
    stands_in_itself(html_report::tables(points, s, version));
    stands_behind(
        b,
        html_report::tables(points, s, version),
        html_report::tables(points, s, version),
    );
    stands_before(c, script, html_report::tables(points, s, version));
    stands_in_itself(script);
    stands_behind(c, script, script);
}

// ---------------------------------------------------------------------------
// Lists and rows
// ---------------------------------------------------------------------------

pub(crate) proof fn parts_stand_in_the_whole(parts: Seq<Seq<char>>, sep: Seq<char>, i: int)
    requires
        0 <= i < parts.len(),
    ensures
        text::holds(text::joined(parts, sep), parts[i]),
    decreases parts.len(),
{
    if parts.len() == 1 {
        stands_in_itself(parts[0]);
    } else {
        let rest = text::joined(parts.drop_last(), sep);
        if i == parts.len() - 1 {
            stands_in_itself(parts[i]);
            stands_behind(rest + sep, parts[i], parts[i]);
        } else {
            parts_stand_in_the_whole(parts.drop_last(), sep, i);
            stands_before(rest, sep, parts[i]);
            stands_before(rest + sep, parts.last(), parts[i]);
        }
    }
}

/// A series has a value for every second, in order: the figure of that second that it is named
/// after.
pub proof fn series_are_of_their_figure(points: Seq<PointView>, i: int)
    requires
        0 <= i < points.len(),
    ensures
        ({
            let values = |s: Series| html_report::series_values(points, s);
            &&& values(Series::Time).len() == points.len()
            &&& values(Series::Time)[i] == text::decimal(points[i].timestamp_s as nat)
            &&& values(Series::Phase)[i] == events::quoted(points[i].phase)
            &&& values(Series::Produced)[i] == text::decimal(
                points[i].ingest_events_produced as nat,
            )
            &&& values(Series::Target)[i] == text::decimal(points[i].ingest_target_eps as nat)
            &&& values(Series::P99)[i] == decimal::millis(points[i].query_latency.p99 as nat)
            &&& values(Series::P50)[i] == decimal::millis(points[i].query_latency.p50 as nat)
            &&& values(Series::Lag)[i] == text::decimal(points[i].kafka_consumer_lag as nat)
        }),
{
}

proof fn boundary_is_listed(points: Seq<PointView>, n: int, i: int)
    requires
        0 <= i < n <= points.len(),
        html_report::starts_phase(points, i),
    ensures
        html_report::boundaries(points, n).contains(html_report::boundary(points[i])),
    decreases n,
{
    let all = html_report::boundaries(points, n);
    if i == n - 1 {
        assert(all.last() == html_report::boundary(points[i]));
    } else {
        boundary_is_listed(points, n - 1, i);
        let before = html_report::boundaries(points, n - 1);
        let k = choose|k: int|
            0 <= k < before.len() && before[k] == html_report::boundary(points[i]);
        assert(all[k] == html_report::boundary(points[i]));
    }
}

/// The charts mark the second in which a phase begins.
pub proof fn beginnings_of_phases_are_marked(points: Seq<PointView>, i: int)
    requires
        0 < i < points.len(),
        points[i].phase != points[i - 1].phase,
    ensures
        html_report::boundaries(points, points.len() as int).contains(
            "["@ + text::decimal(points[i].timestamp_s as nat) + ","@ + events::quoted(
                points[i].phase,
            ) + "]"@,
        ),
{
    boundary_is_listed(points, points.len() as int, i);
}

/// The table of the phases has a row for every phase: what it is called, how long it is, what
/// was ingested and asked in a second of it on average and what was aimed at, the mean of its
/// high latencies, and the greatest lag.
pub proof fn phases_have_their_rows(
    points: Seq<PointView>,
    s: ScenarioView,
    version: Seq<char>,
    i: int,
)
    requires
        0 <= i < s.phases.len(),
    ensures
        ({
            let p = s.phases[i];
            let mean = |m: Measure| metrics::phase_mean(points, p.name, m);
            text::holds(
                html_report::tables(points, s, version),
                "<tr><td>"@ + p.display_name + "</td><td>"@ + text::decimal(
                    p.duration_seconds as nat,
                ) + "s</td><td>"@ + decimal::fixed(
                    mean(Measure::Produced).num as nat,
                    mean(Measure::Produced).den as nat,
                    0,
                ) + " / "@ + text::decimal(s.total_phase_eps(p.name) as nat) + "</td><td>"@
                    + decimal::fixed(
                    mean(Measure::Executed).num as nat,
                    mean(Measure::Executed).den as nat,
                    1,
                ) + " / "@ + decimal::fixed(p.target_pqps as nat, 1_000_000_000_000, 1)
                    + "</td><td>"@ + html_report::ms_text(mean(Measure::P99)) + "ms</td><td>"@
                    + text::decimal(metrics::phase_peak(points, p.name, Measure::Lag) as nat)
                    + "</td></tr>"@,
            )
        }),
{
    let rows = html_report::phase_rows(points, s);
    let x = rows[i];
    let all = text::joined(rows, "\n  "@);
    parts_stand_in_the_whole(rows, "\n  "@, i);
    let t1 = html_report::PHASE_TABLE@ + all;
    stands_behind(html_report::PHASE_TABLE@, all, x);
    let t2 = t1 + html_report::METADATA@;
    let t3 = t2 + version;
    let t4 = t3 + html_report::SCENARIO_ROW@;
    let t5 = t4 + s.meta.name;
    let t6 = t5 + " v"@;
    let t7 = t6 + s.meta.version;
    let t8 = t7 + html_report::DOMAIN_ROW@;
    let t9 = t8 + s.meta.domain;
    let t10 = t9 + html_report::DURATION_ROW@;
    let t11 = t10 + text::decimal(s.total_duration() as nat);
    let t12 = t11 + html_report::EVENTS_ROW@;
    stands_before(t1, html_report::METADATA@, x);
    stands_before(t2, version, x);
    stands_before(t3, html_report::SCENARIO_ROW@, x);
    stands_before(t4, s.meta.name, x);
    stands_before(t5, " v"@, x);
    stands_before(t6, s.meta.version, x);
    stands_before(t7, html_report::DOMAIN_ROW@, x);
    stands_before(t8, s.meta.domain, x);
    stands_before(t9, html_report::DURATION_ROW@, x);
    stands_before(t10, text::decimal(s.total_duration() as nat), x);
    stands_before(t11, html_report::EVENTS_ROW@, x);
    stands_before(t12, text::decimal(s.total_events() as nat), x);
}

proof fn group_row_stands(all: Seq<(Seq<char>, GroupFiguresView)>, n: int, i: int)
    requires
        0 <= i < n <= all.len(),
    ensures
        text::holds(html_report::group_rows(all, n), html_report::group_row(all[i].0, all[i].1)),
    decreases n,
{
    let x = html_report::group_row(all[i].0, all[i].1);
    if i == n - 1 {
        stands_in_itself(x);
        stands_behind(html_report::group_rows(all, n - 1), x, x);
    } else {
        group_row_stands(all, n - 1, i);
        stands_before(
            html_report::group_rows(all, n - 1),
            html_report::group_row(all[n - 1].0, all[n - 1].1),
            x,
        );
    }
}

/// Groups are compared by a row for each: its warehouse, its latencies in both phases and by
/// how much they differ, its rates in both, and its errors.
pub proof fn groups_have_their_rows(all: Seq<(Seq<char>, GroupFiguresView)>, i: int)
    requires
        0 <= i < all.len(),
    ensures
        ({
            let f = all[i].1;
            text::holds(
                html_report::group_rows(all, all.len() as int),
                "<tr><td>"@ + all[i].0 + "</td><td>"@ + f.warehouse + "</td><td>"@
                    + html_report::ms_text(f.baseline.mean_p99()) + "</td><td>"@
                    + html_report::ms_text(f.overlap.mean_p99()) + "</td><td>"@
                    + html_report::ratio_text(f.degradation()) + "x</td><td>"@
                    + html_report::ratio_text(f.baseline.rate_over(f.baseline.seconds))
                    + "</td><td>"@ + html_report::ratio_text(
                    f.overlap.rate_over(f.overlap.seconds),
                ) + "</td><td>"@ + html_report::percent_text(f.overlap.error_rate())
                    + "%</td></tr>\n  "@,
            )
        }),
{
    group_row_stands(all, all.len() as int, i);
}

/// The page compares the groups exactly where there are any.
pub proof fn groups_are_compared_where_there_are_any(points: Seq<PointView>)
    ensures
        groups::all_figures(points).len() == 0 ==> html_report::group_section(points).len() == 0,
        groups::all_figures(points).len() > 0 ==> text::begins(
            html_report::group_section(points),
            html_report::GROUP_TABLE@,
        ),
{
    if groups::all_figures(points).len() > 0 {
        let t = html_report::group_section(points);
        assert(t.take(html_report::GROUP_TABLE@.len() as int) =~= html_report::GROUP_TABLE@);
    }
}

// ---------------------------------------------------------------------------
// The table of seconds
// ---------------------------------------------------------------------------

/// The table names its columns, and has a row for every second, in order, with what the
/// columns are named after.
pub proof fn every_second_has_its_row(points: Seq<PointView>, n: int)
    requires
        0 <= n < points.len(),
    ensures
        html_report::csv(points, 0) == "timestamp_s,phase,ingest_events_produced,ingest_events_acked,ingest_events_failed,ingest_target_eps,query_executed,query_errors,query_target_qps,query_latency_p50,query_latency_p95,query_latency_p99,kafka_consumer_lag\n"@,
        ({
            let p = points[n];
            let millions = |x: u64, digits: nat| decimal::fixed(x as nat, 1_000_000, digits);
            html_report::csv(points, n + 1) == html_report::csv(points, n) + (text::decimal(
                p.timestamp_s as nat,
            ) + ","@ + p.phase + ","@ + text::decimal(p.ingest_events_produced as nat) + ","@
                + text::decimal(p.ingest_events_acknowledged as nat) + ","@ + text::decimal(
                p.ingest_events_failed as nat,
            ) + ","@ + text::decimal(p.ingest_target_eps as nat) + ","@ + text::decimal(
                p.query_executed as nat,
            ) + ","@ + text::decimal(p.query_errors as nat) + ","@ + millions(
                p.query_target_uqps,
                1,
            ) + ","@ + millions(p.query_latency.p50, 2) + ","@ + millions(p.query_latency.p95, 2)
                + ","@ + millions(p.query_latency.p99, 2) + ","@ + text::decimal(
                p.kafka_consumer_lag as nat,
            ) + "\n"@)
        }),
{
}

} // verus!
