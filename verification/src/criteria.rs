//! When the results of a run may be used: the checks that every run has to pass, and those
//! that its scenario adds.
use vstd::prelude::*;
use vstd::string::*;
use crate::decimal;
use crate::decimal::Ratio;
use crate::metrics;
use crate::metrics::{
    AggregatedMetricPoint, DerivedMetrics, Measure, PointView, TimeSeries, MAX_POINTS,
};
use crate::model;
use crate::proc_metrics;
use crate::results;
use crate::scenario::{
    PhaseDef, PhaseView, RuleView, Scenario, ScenarioView, ValidRunRule,
};
use crate::sorting;
use crate::text;
use crate::threshold;
use crate::threshold::{Side, Threshold, ThresholdView};

verus! {

// ---------------------------------------------------------------------------
// Rules of a scenario
// ---------------------------------------------------------------------------

/// A quotient of nanoseconds in milliseconds.
pub open spec fn of_time(r: Ratio) -> (int, int) {
    (r.num as int, r.den * 1_000_000)
}

/// A quotient.
pub open spec fn of_ratio(r: Ratio) -> (int, int) {
    (r.num as int, r.den as int)
}

/// A count.
pub open spec fn of_count(n: int) -> (int, int) {
    (n, 1)
}

/// The derived figure that a rule names, as a quotient; latencies are in milliseconds.
pub open spec fn figure(name: Seq<char>, d: DerivedMetrics) -> Option<(int, int)> {
    if name == "query_error_rate_overlap"@ || name == "query.error_rate_overlap"@ {
        Some(of_ratio(d.query_error_rate_overlap))
    } else if name == "query_p99_ratio"@ || name == "p99_degradation_ratio"@ || name
        == "query.p99_ratio"@ {
        Some(of_ratio(d.query_p99_ratio))
    } else if name == "ingest_peak_backlog"@ || name == "peak_backlog"@ || name
        == "ingest.peak_backlog"@ {
        Some(of_count(d.ingest_peak_backlog as int))
    } else if name == "ingest_backlog_drain_time_s"@ || name == "backlog_drain_time_s"@ || name
        == "ingest.backlog_drain_time_s"@ {
        Some(of_count(d.ingest_backlog_drain_time_s as int))
    } else if name == "recovery_time_to_baseline_s"@ || name == "recovery_time_s"@ || name
        == "recovery.time_to_baseline_s"@ {
        Some(of_count(d.recovery_time_to_baseline_s as int))
    } else if name == "query_baseline_p99"@ || name == "baseline_p99_ms"@ || name
        == "query.baseline_p99"@ {
        Some(of_time(d.query_baseline_p99))
    } else if name == "query_overlap_p99"@ || name == "overlap_p99_ms"@ || name
        == "query.overlap_p99"@ {
        Some(of_time(d.query_overlap_p99))
    } else if name == "query_throughput_ratio"@ || name == "query.throughput_ratio"@ {
        Some(of_ratio(d.query_throughput_ratio))
    } else if name == "ingest_throughput_ratio"@ || name == "ingest.throughput_ratio"@ {
        Some(of_ratio(d.ingest_throughput_ratio))
    } else if name == "query.baseline_p50"@ {
        Some(of_time(d.query_baseline_p50))
    } else if name == "query.overlap_p50"@ {
        Some(of_time(d.query_overlap_p50))
    } else if name == "query.total_executed"@ {
        Some(of_count(d.query_total_executed as int))
    } else if name == "ingest.baseline_eps"@ {
        Some(of_ratio(d.ingest_baseline_eps))
    } else if name == "ingest.peak_eps"@ {
        Some(of_count(d.ingest_peak_eps as int))
    } else {
        None
    }
}

/// What a comparison of a quotient with a threshold says; nothing where the operator is not
/// known. Two numbers count as equal that are less than `2^-52` apart. Two are equal that lie closer together than `2^-52`. What is no number meets no
/// comparison.
pub open spec fn compares(
    actual: (int, int),
    operator: Seq<char>,
    limit: ThresholdView,
) -> Option<bool> {
    let side = threshold::side(actual.0, actual.1, limit);
    if operator == "<"@ {
        Some(side == Some(Side::Below))
    } else if operator == "<="@ {
        Some(side == Some(Side::Below) || side == Some(Side::Equal))
    } else if operator == ">"@ {
        Some(side == Some(Side::Above))
    } else if operator == ">="@ {
        Some(side == Some(Side::Above) || side == Some(Side::Equal))
    } else if operator == "=="@ {
        Some(threshold::near(actual.0, actual.1, limit))
    } else {
        None
    }
}

/// The run does not meet a condition `figure operator number`. What cannot be read as one is
/// passed over.
pub open spec fn fails(condition: Seq<char>, d: DerivedMetrics) -> bool {
    let parts = proc_metrics::words(condition);
    if parts.len() != 3 {
        false
    } else {
        match (threshold::threshold(parts[2]), figure(parts[0], d)) {
            (Some(limit), Some(actual)) => compares(actual, parts[1], limit) == Some(false),
            _ => false,
        }
    }
}

fn time_of(r: Ratio) -> (q: (u128, u128))
    requires
        metrics::bounded(r),
        r.den <= MAX_POINTS,
    ensures
        (q.0 as int, q.1 as int) == of_time(r),
        fit(q),
{
    (r.num, r.den * 1_000_000)
}

fn ratio_of(r: Ratio) -> (q: (u128, u128))
    requires
        metrics::bounded(r),
    ensures
        (q.0 as int, q.1 as int) == of_ratio(r),
        fit(q),
{
    (r.num, r.den)
}

fn count_of(n: u128) -> (q: (u128, u128))
    requires
        n <= metrics::GREATEST_NUMERATOR,
    ensures
        (q.0 as int, q.1 as int) == of_count(n as int),
        fit(q),
{
    (n, 1)
}

/// A quotient that can be compared.
pub open spec fn fit(q: (u128, u128)) -> bool {
    q.0 < text::MOST_UNITS - 1 && 0 < q.1 < text::MOST_UNITS
}

/// A pair of machine numbers as a quotient.
pub open spec fn as_figure(q: Option<(u128, u128)>) -> Option<(int, int)> {
    match q {
        Some((num, den)) => Some((num as int, den as int)),
        None => None,
    }
}

fn figure_of(name: &str, d: &DerivedMetrics) -> (r: Option<(u128, u128)>)
    requires
        d.wf(),
    ensures
        as_figure(r) == figure(name@, *d),
        r matches Some(q) ==> fit(q),
{
    if text::same(name, "query_error_rate_overlap") || text::same(
        name,
        "query.error_rate_overlap",
    ) {
        Some(ratio_of(d.query_error_rate_overlap))
    } else if text::same(name, "query_p99_ratio") || text::same(name, "p99_degradation_ratio")
        || text::same(name, "query.p99_ratio") {
        Some(ratio_of(d.query_p99_ratio))
    } else if text::same(name, "ingest_peak_backlog") || text::same(name, "peak_backlog")
        || text::same(name, "ingest.peak_backlog") {
        Some(count_of(d.ingest_peak_backlog as u128))
    } else if text::same(name, "ingest_backlog_drain_time_s") || text::same(
        name,
        "backlog_drain_time_s",
    ) || text::same(name, "ingest.backlog_drain_time_s") {
        Some(count_of(d.ingest_backlog_drain_time_s as u128))
    } else if text::same(name, "recovery_time_to_baseline_s") || text::same(
        name,
        "recovery_time_s",
    ) || text::same(name, "recovery.time_to_baseline_s") {
        Some(count_of(d.recovery_time_to_baseline_s as u128))
    } else if text::same(name, "query_baseline_p99") || text::same(name, "baseline_p99_ms")
        || text::same(name, "query.baseline_p99") {
        Some(time_of(d.query_baseline_p99))
    } else if text::same(name, "query_overlap_p99") || text::same(name, "overlap_p99_ms")
        || text::same(name, "query.overlap_p99") {
        Some(time_of(d.query_overlap_p99))
    } else if text::same(name, "query_throughput_ratio") || text::same(
        name,
        "query.throughput_ratio",
    ) {
        Some(ratio_of(d.query_throughput_ratio))
    } else if text::same(name, "ingest_throughput_ratio") || text::same(
        name,
        "ingest.throughput_ratio",
    ) {
        Some(ratio_of(d.ingest_throughput_ratio))
    } else if text::same(name, "query.baseline_p50") {
        Some(time_of(d.query_baseline_p50))
    } else if text::same(name, "query.overlap_p50") {
        Some(time_of(d.query_overlap_p50))
    } else if text::same(name, "query.total_executed") {
        Some(count_of(d.query_total_executed))
    } else if text::same(name, "ingest.baseline_eps") {
        Some(ratio_of(d.ingest_baseline_eps))
    } else if text::same(name, "ingest.peak_eps") {
        Some(count_of(d.ingest_peak_eps as u128))
    } else {
        None
    }
}

proof fn whole_part_decides(num: int, den: int, t: int)
    requires
        den > 0,
    ensures
        num < t * den <==> num / den < t,
        num == t * den <==> (num / den == t && num % den == 0),
{
    let q = num / den;
    let r = num % den;
    vstd::arithmetic::div_mod::lemma_fundamental_div_mod(num, den);
    vstd::arithmetic::div_mod::lemma_mod_bound(num, den);
    assert(num == den * q + r);
    assert(num < t * den <==> q < t) by (nonlinear_arith)
        requires
            num == den * q + r,
            0 <= r < den,
    ;
    assert(num == t * den <==> (q == t && r == 0)) by (nonlinear_arith)
        requires
            num == den * q + r,
            0 <= r < den,
    ;
}

fn compare(actual: (u128, u128), operator: &str, limit: &Threshold) -> (r: Option<bool>)
    requires
        fit(actual),
        limit@.wf(),
    ensures
        r == compares((actual.0 as int, actual.1 as int), operator@, limit@),
{
    let side = threshold::compare(actual.0, actual.1, limit);
    let below: bool = side == Some(Side::Below);
    let equal: bool = side == Some(Side::Equal);
    let above: bool = side == Some(Side::Above);
    if text::same(operator, "<") {
        Some(below)
    } else if text::same(operator, "<=") {
        Some(below || equal)
    } else if text::same(operator, ">") {
        Some(above)
    } else if text::same(operator, ">=") {
        Some(above || equal)
    } else if text::same(operator, "==") {
        Some(threshold::is_near(actual.0, actual.1, limit))
    } else {
        None
    }
}

/// Whether the run does not meet a condition `figure operator number`.
pub fn evaluate_criteria_rule(condition: &str, d: &DerivedMetrics) -> (r: bool)
    requires
        d.wf(),
    ensures
        r == fails(condition@, *d),
{
    let parts = proc_metrics::split_whitespace(condition);
    if parts.len() != 3 {
        return false;
    }
    assert(text::views(parts@)[0] == parts@[0]@);
    assert(text::views(parts@)[1] == parts@[1]@);
    assert(text::views(parts@)[2] == parts@[2]@);
    match (threshold::parse_threshold(parts[2].as_str()), figure_of(parts[0].as_str(), d)) {
        (Some(limit), Some(actual)) => match compare(actual, parts[1].as_str(), &limit) {
            Some(met) => !met,
            None => false,
        },
        _ => false,
    }
}

/// What is said of a rule that a run breaks.
pub open spec fn complaint(rule: RuleView) -> Seq<char> {
    if rule.message.len() == 0 {
        "Criteria '"@ + rule.name + "' violated: "@ + rule.condition
    } else {
        rule.name + ": "@ + rule.message
    }
}

/// What is said of those of the first `n` rules that a run breaks.
pub open spec fn rule_violations(rules: Seq<RuleView>, d: DerivedMetrics, n: int) -> Seq<Seq<char>>
    decreases n,
{
    if n <= 0 {
        Seq::empty()
    } else if fails(rules[n - 1].condition, d) {
        rule_violations(rules, d, n - 1).push(complaint(rules[n - 1]))
    } else {
        rule_violations(rules, d, n - 1)
    }
}

fn complaint_of(rule: &ValidRunRule) -> (r: String)
    ensures
        r@ == complaint(rule@),
{
    proof {
        reveal_strlit("");
        if rule.message@.len() == 0 {
            assert(rule.message@ =~= ""@);
        }
    }
    if text::same(rule.message.as_str(), "") {
        text::join4(
            "Criteria '",
            rule.name.as_str(),
            "' violated: ",
            rule.condition.as_str(),
        )
    } else {
        text::join3(rule.name.as_str(), ": ", rule.message.as_str())
    }
}

// ---------------------------------------------------------------------------
// Checks of every run
// ---------------------------------------------------------------------------

/// The 99th percentiles of the seconds of the baseline.
pub open spec fn baseline_latencies(points: Seq<PointView>) -> Seq<u128> {
    metrics::in_phase(points, "baseline"@).map_values(|p: PointView| p.query_latency.p99 as u128)
}

/// The median of a list; of two in the middle the greater.
pub open spec fn median(s: Seq<u128>) -> u128 {
    sorting::arranged(s)[s.len() as int / 2]
}

/// The greatest of a list.
pub open spec fn greatest(s: Seq<u128>) -> u128 {
    sorting::arranged(s).last()
}

/// The latency of the baseline went beyond twice its median.
pub open spec fn unstable(points: Seq<PointView>) -> bool {
    let s = baseline_latencies(points);
    s.len() > 0 && median(s) > 0 && greatest(s) > median(s) * 2
}

/// What is said of an unstable baseline.
pub open spec fn instability(points: Seq<PointView>) -> Seq<Seq<char>> {
    let s = baseline_latencies(points);
    if unstable(points) {
        seq![
            "Baseline p99 unstable: max "@ + decimal::fixed(greatest(s) as nat, 1_000_000, 1)
                + "ms > 2x median "@ + decimal::fixed(median(s) as nat, 1_000_000, 1) + "ms"@,
        ]
    } else {
        Seq::empty()
    }
}

/// The first phase of that name.
pub open spec fn phase_named(phases: Seq<PhaseView>, name: Seq<char>) -> Option<PhaseView>
    decreases phases.len(),
{
    if phases.len() == 0 {
        None
    } else if phases[0].name == name {
        Some(phases[0])
    } else {
        phase_named(phases.skip(1), name)
    }
}

/// How long the first phase of that name takes; a phase that is not there takes no time.
pub open spec fn seconds_of(phases: Seq<PhaseView>, name: Seq<char>) -> u64 {
    match phase_named(phases, name) {
        Some(p) => p.duration_seconds,
        None => 0,
    }
}

/// The baseline ingested less than nine tenths of what it should have.
pub open spec fn starved(points: Seq<PointView>, s: ScenarioView) -> bool {
    let produced = metrics::phase_total(points, "baseline"@, Measure::Produced);
    let seconds = seconds_of(s.phases, "baseline"@);
    let target = s.total_phase_eps("baseline"@);
    &&& metrics::in_phase(points, "baseline"@).len() > 0
    &&& target > 0
    &&& seconds == 0 || produced * 10 < target * 9 * seconds
}

/// A rate, and zero where there is no time, rounded to so many decimals.
pub open spec fn rate_text(count: int, seconds: u64, digits: nat) -> Seq<char> {
    if seconds == 0 {
        decimal::fixed(0, 1, digits)
    } else {
        decimal::fixed(count as nat, seconds as nat, digits)
    }
}

/// What is said of a baseline that ingested too little.
pub open spec fn starvation(points: Seq<PointView>, s: ScenarioView) -> Seq<Seq<char>> {
    if starved(points, s) {
        seq![
            "Baseline ingest EPS "@ + rate_text(
                metrics::phase_total(points, "baseline"@, Measure::Produced),
                seconds_of(s.phases, "baseline"@),
                0,
            ) + " < 90% of target "@ + text::decimal(s.total_phase_eps("baseline"@) as nat),
        ]
    } else {
        Seq::empty()
    }
}

/// The baseline executed less than nine tenths of the queries that it should have, by the mean
/// of its seconds.
pub open spec fn query_starved(points: Seq<PointView>, s: ScenarioView) -> bool {
    let executed = metrics::phase_total(points, "baseline"@, Measure::Executed);
    let seconds = metrics::in_phase(points, "baseline"@).len();
    &&& seconds > 0
    &&& match phase_named(s.phases, "baseline"@) {
        None => false,
        Some(p) => executed * 10_000_000_000_000 < p.target_pqps * (9 * seconds),
    }
}

/// What is said of a baseline that executed too few queries.
pub open spec fn query_starvation(points: Seq<PointView>, s: ScenarioView) -> Seq<Seq<char>> {
    if query_starved(points, s) {
        seq![
            "Baseline QPS "@ + decimal::fixed(
                metrics::phase_total(points, "baseline"@, Measure::Executed) as nat,
                metrics::in_phase(points, "baseline"@).len(),
                1,
            ) + " < 90% of target "@ + decimal::fixed(
                phase_named(s.phases, "baseline"@)->0.target_pqps as nat,
                1_000_000_000_000,
                1,
            ),
        ]
    } else {
        Seq::empty()
    }
}

/// A phase ingested less than half of what it should have, by the mean of its seconds.
pub open spec fn underfed(points: Seq<PointView>, s: ScenarioView, phase: Seq<char>) -> bool {
    let produced = metrics::phase_total(points, phase, Measure::Produced);
    let seconds = metrics::in_phase(points, phase).len();
    seconds > 0 && produced * 2 < s.total_phase_eps(phase) * seconds
}

/// What is said of a phase that ingested too little.
pub open spec fn underfeeding(
    points: Seq<PointView>,
    s: ScenarioView,
    phase: Seq<char>,
    title: Seq<char>,
) -> Seq<Seq<char>> {
    if underfed(points, s, phase) {
        seq![
            title + " ingest EPS "@ + decimal::fixed(
                metrics::phase_total(points, phase, Measure::Produced) as nat,
                metrics::in_phase(points, phase).len(),
                0,
            ) + " < 50% of target "@ + text::decimal(s.total_phase_eps(phase) as nat),
        ]
    } else {
        Seq::empty()
    }
}

/// More than a tenth of the queries of a phase failed.
pub open spec fn error_prone(points: Seq<PointView>, phase: Seq<char>) -> bool {
    metrics::phase_total(points, phase, Measure::Errors) * 10 > metrics::phase_total(
        points,
        phase,
        Measure::Executed,
    )
}

/// What is said of a phase in which too many queries failed.
pub open spec fn error_note(points: Seq<PointView>, phase: Seq<char>) -> Seq<char> {
    "Phase '"@ + phase + "' query errors "@ + text::decimal(
        metrics::phase_total(points, phase, Measure::Errors) as nat,
    ) + " > 10% of "@ + text::decimal(
        metrics::phase_total(points, phase, Measure::Executed) as nat,
    )
}

/// What is said of those of the first `n` phases in which too many queries failed.
pub open spec fn error_notes(points: Seq<PointView>, phases: Seq<PhaseView>, n: int) -> Seq<
    Seq<char>,
>
    decreases n,
{
    if n <= 0 {
        Seq::empty()
    } else if error_prone(points, phases[n - 1].name) {
        error_notes(points, phases, n - 1).push(error_note(points, phases[n - 1].name))
    } else {
        error_notes(points, phases, n - 1)
    }
}

/// The overlap executed less than half the queries that it should have.
pub open spec fn slow(points: Seq<PointView>, s: ScenarioView) -> bool {
    let executed = metrics::phase_total(points, "overlap"@, Measure::Executed);
    &&& metrics::in_phase(points, "overlap"@).len() > 0
    &&& match phase_named(s.phases, "overlap"@) {
        None => false,
        Some(p) => if p.duration_seconds == 0 {
            p.target_pqps > 0
        } else {
            executed * 2_000_000_000_000 < p.target_pqps * p.duration_seconds
        },
    }
}

/// What is said of an overlap that executed too few queries.
pub open spec fn slowness(points: Seq<PointView>, s: ScenarioView) -> Seq<Seq<char>> {
    if slow(points, s) {
        let p = phase_named(s.phases, "overlap"@)->0;
        seq![
            "Overlap QPS "@ + rate_text(
                metrics::phase_total(points, "overlap"@, Measure::Executed),
                p.duration_seconds,
                1,
            ) + " < 50% of target "@ + decimal::fixed(
                p.target_pqps as nat,
                1_000_000_000_000,
                1,
            ),
        ]
    } else {
        Seq::empty()
    }
}

/// What is said of a harness that was at its limit.
pub open spec fn saturation(points: Seq<PointView>) -> Seq<Seq<char>> {
    if results::sustained_in(points) {
        seq!["Harness saturation detected"@]
    } else {
        Seq::empty()
    }
}

/// What makes the results of a run unusable.
pub open spec fn violations(points: Seq<PointView>, s: ScenarioView) -> Seq<Seq<char>> {
    instability(points) + starvation(points, s) + query_starvation(points, s) + rule_violations(
        s.rules,
        metrics::derived(points),
        s.rules.len() as int,
    )
}

/// What should be kept in mind with the results of a run.
pub open spec fn warnings(points: Seq<PointView>, s: ScenarioView) -> Seq<Seq<char>> {
    slowness(points, s) + saturation(points) + underfeeding(
        points,
        s,
        "ingestion_surge"@,
        "Surge"@,
    ) + underfeeding(points, s, "overlap"@, "Overlap"@) + error_notes(
        points,
        s.phases,
        s.phases.len() as int,
    )
}

/// The first phase of that name.
pub fn find_phase<'a>(phases: &'a Vec<PhaseDef>, name: &str) -> (r: Option<&'a PhaseDef>)
    ensures
        match r {
            Some(p) => phase_named(model::vmap(phases@), name@) == Some(p@),
            None => phase_named(model::vmap(phases@), name@) is None,
        },
{
    let ghost all = model::vmap(phases@);
    let mut i: usize = 0;
    assert(all.skip(0) =~= all);
    while i < phases.len()
        invariant
            i <= phases@.len(),
            all == model::vmap(phases@),
            phase_named(all, name@) == phase_named(all.skip(i as int), name@),
        decreases phases@.len() - i,
    {
        proof {
            assert(all[i as int] == phases@[i as int]@);
            assert(all.skip(i as int)[0] == all[i as int]);
            assert(all.skip(i as int).skip(1) =~= all.skip(i + 1));
        }
        if text::same(phases[i].name.as_str(), name) {
            return Some(&phases[i]);
        }
        i += 1;
    }
    None
}

fn latencies_of_baseline(points: &Vec<AggregatedMetricPoint>) -> (r: Vec<u128>)
    ensures
        r@ == baseline_latencies(model::vmap(points@)),
        r@.len() <= points@.len(),
{
    let ghost all = model::vmap(points@);
    let mut out: Vec<u128> = Vec::new();
    let mut i: usize = 0;
    proof {
        reveal(Seq::filter);
        assert(baseline_latencies(all.take(0)) =~= Seq::<u128>::empty());
    }
    while i < points.len()
        invariant
            i <= points@.len(),
            all == model::vmap(points@),
            out@ == baseline_latencies(all.take(i as int)),
            out@.len() <= i,
        decreases points@.len() - i,
    {
        let ghost before = metrics::in_phase(all.take(i as int), "baseline"@);
        proof {
            metrics::in_phase_step(all, "baseline"@, i as int);
            assert(all[i as int] == points@[i as int]@);
        }
        if text::same(points[i].phase.as_str(), "baseline") {
            out.push(points[i].query_latency.p99 as u128);
            assert(out@ =~= before.push(all[i as int]).map_values(
                |p: PointView| p.query_latency.p99 as u128,
            ));
        }
        i += 1;
    }
    assert(all.take(i as int) =~= all);
    out
}

proof fn arranged_keeps(s: Seq<u128>)
    ensures
        sorting::arranged(s).len() == s.len(),
        forall|k: int| 0 <= k < s.len() ==> s.contains(#[trigger] sorting::arranged(s)[k]),
{
    sorting::arranged_is_sorted(s);
    let a = sorting::arranged(s);
    broadcast use vstd::seq_lib::group_to_multiset_ensures;

    assert(a.to_multiset().len() == s.to_multiset().len());
    assert forall|k: int| 0 <= k < s.len() implies s.contains(#[trigger] a[k]) by {
        assert(a.contains(a[k]));
        assert(a.to_multiset().count(a[k]) > 0);
    }
}

fn check_stability(points: &Vec<AggregatedMetricPoint>) -> (r: Option<String>)
    ensures
        match r {
            Some(t) => instability(model::vmap(points@)) == seq![t@],
            None => instability(model::vmap(points@)) == Seq::<Seq<char>>::empty(),
        },
{
    let values = latencies_of_baseline(points);
    if values.len() == 0 {
        return None;
    }
    let sorted = sorting::sort(&values);
    proof {
        arranged_keeps(values@);
        assert(values@.contains(sorted@[values@.len() as int / 2]));
        assert(values@.contains(sorted@[values@.len() - 1]));
    }
    let middle: u128 = sorted[values.len() / 2];
    let most: u128 = sorted[values.len() - 1];
    assert(middle <= 0xffff_ffff_ffff_ffff);
    if middle > 0 && most > middle * 2 {
        Some(
            text::join5(
                "Baseline p99 unstable: max ",
                decimal::fixed_of(most, 1_000_000, 1).as_str(),
                "ms > 2x median ",
                decimal::fixed_of(middle, 1_000_000, 1).as_str(),
                "ms",
            ),
        )
    } else {
        None
    }
}

fn rate_text_of(count: u128, seconds: u64, digits: u32) -> (r: String)
    requires
        digits <= 3,
    ensures
        r@ == rate_text(count as int, seconds, digits as nat),
{
    if seconds == 0 {
        decimal::fixed_of(0, 1, digits)
    } else {
        decimal::fixed_of(count, seconds as u128, digits)
    }
}

fn check_ingest(points: &Vec<AggregatedMetricPoint>, scenario: &Scenario) -> (r: Option<String>)
    requires
        points@.len() <= MAX_POINTS,
        scenario@.total_phase_eps("baseline"@) <= u64::MAX,
    ensures
        match r {
            Some(t) => starvation(model::vmap(points@), scenario@) == seq![t@],
            None => starvation(model::vmap(points@), scenario@) == Seq::<Seq<char>>::empty(),
        },
{
    let there: usize = metrics::phase_len(points, "baseline");
    let target: u128 = scenario.phase_target_eps("baseline");
    if there == 0 || target == 0 {
        return None;
    }
    let seconds: u64 = match find_phase(&scenario.timeline.phases, "baseline") {
        Some(p) => p.duration_seconds,
        None => 0,
    };
    let produced: u128 = metrics::phase_sum(points, "baseline", Measure::Produced);
    assert(produced <= MAX_POINTS * 0xffff_ffff_ffff_ffff) by (nonlinear_arith)
        requires
            produced <= points@.len() * 0xffff_ffff_ffff_ffff,
            points@.len() <= MAX_POINTS,
    ;
    let below: bool = seconds == 0 || (produced * 10) / (target * 9) < seconds as u128;
    proof {
        whole_part_decides(produced * 10, target * 9, seconds as int);
        assert(seconds * (target * 9) == target * 9 * seconds) by (nonlinear_arith);
    }
    if below {
        Some(
            text::join4(
                "Baseline ingest EPS ",
                rate_text_of(produced, seconds, 0).as_str(),
                " < 90% of target ",
                text::decimal_of(target).as_str(),
            ),
        )
    } else {
        None
    }
}

fn check_queries(points: &Vec<AggregatedMetricPoint>, scenario: &Scenario) -> (r: Option<String>)
    requires
        points@.len() <= MAX_POINTS,
    ensures
        match r {
            Some(t) => slowness(model::vmap(points@), scenario@) == seq![t@],
            None => slowness(model::vmap(points@), scenario@) == Seq::<Seq<char>>::empty(),
        },
{
    let there: usize = metrics::phase_len(points, "overlap");
    if there == 0 {
        return None;
    }
    match find_phase(&scenario.timeline.phases, "overlap") {
        None => None,
        Some(p) => {
            let executed: u128 = metrics::phase_sum(points, "overlap", Measure::Executed);
            let seconds: u64 = p.duration_seconds;
            let target: u128 = p.query.target_pqps;
            proof {
                assert(executed <= MAX_POINTS * 0xffff_ffff_ffff_ffff) by (nonlinear_arith)
                    requires
                        executed <= points@.len() * 0xffff_ffff_ffff_ffff,
                        points@.len() <= MAX_POINTS,
                ;
            }
            let below: bool = if seconds == 0 {
                target > 0
            } else {
                decimal::less(executed, seconds as u128, target, 2_000_000_000_000)
            };
            if below {
                Some(
                    text::join4(
                        "Overlap QPS ",
                        rate_text_of(executed, seconds, 1).as_str(),
                        " < 50% of target ",
                        decimal::fixed_of(target, 1_000_000_000_000, 1).as_str(),
                    ),
                )
            } else {
                None
            }
        },
    }
}

fn check_baseline_queries(points: &Vec<AggregatedMetricPoint>, scenario: &Scenario) -> (r: Option<
    String,
>)
    requires
        points@.len() <= MAX_POINTS,
    ensures
        match r {
            Some(t) => query_starvation(model::vmap(points@), scenario@) == seq![t@],
            None => query_starvation(model::vmap(points@), scenario@) == Seq::<Seq<char>>::empty(),
        },
{
    let seconds: usize = metrics::phase_len(points, "baseline");
    if seconds == 0 {
        return None;
    }
    match find_phase(&scenario.timeline.phases, "baseline") {
        None => None,
        Some(p) => {
            let executed: u128 = metrics::phase_sum(points, "baseline", Measure::Executed);
            let target: u128 = p.query.target_pqps;
            proof {
                assert(executed <= MAX_POINTS * 0xffff_ffff_ffff_ffff) by (nonlinear_arith)
                    requires
                        executed <= points@.len() * 0xffff_ffff_ffff_ffff,
                        points@.len() <= MAX_POINTS,
                ;
            }
            if decimal::less(executed, 9 * seconds as u128, target, 10_000_000_000_000) {
                Some(
                    text::join4(
                        "Baseline QPS ",
                        decimal::fixed_of(executed, seconds as u128, 1).as_str(),
                        " < 90% of target ",
                        decimal::fixed_of(target, 1_000_000_000_000, 1).as_str(),
                    ),
                )
            } else {
                None
            }
        },
    }
}

fn check_feeding(
    points: &Vec<AggregatedMetricPoint>,
    scenario: &Scenario,
    phase: &str,
    title: &str,
) -> (r: Option<String>)
    requires
        points@.len() <= MAX_POINTS,
    ensures
        match r {
            Some(t) => underfeeding(model::vmap(points@), scenario@, phase@, title@) == seq![t@],
            None => underfeeding(model::vmap(points@), scenario@, phase@, title@) == Seq::<
                Seq<char>,
            >::empty(),
        },
{
    let seconds: usize = metrics::phase_len(points, phase);
    if seconds == 0 {
        return None;
    }
    let produced: u128 = metrics::phase_sum(points, phase, Measure::Produced);
    let target: u128 = scenario.phase_target_eps(phase);
    proof {
        assert(produced <= MAX_POINTS * 0xffff_ffff_ffff_ffff) by (nonlinear_arith)
            requires
                produced <= points@.len() * 0xffff_ffff_ffff_ffff,
                points@.len() <= MAX_POINTS,
        ;
        whole_part_decides(produced * 2, seconds as int, target as int);
    }
    if (produced * 2) / (seconds as u128) < target {
        let mut m = text::join3(
            title,
            " ingest EPS ",
            decimal::fixed_of(produced, seconds as u128, 0).as_str(),
        );
        m.append(" < 50% of target ");
        m.append(text::decimal_of(target).as_str());
        Some(m)
    } else {
        None
    }
}

fn check_errors(points: &Vec<AggregatedMetricPoint>, phase: &str) -> (r: Option<String>)
    requires
        points@.len() <= MAX_POINTS,
    ensures
        match r {
            Some(t) => error_prone(model::vmap(points@), phase@) && t@ == error_note(
                model::vmap(points@),
                phase@,
            ),
            None => !error_prone(model::vmap(points@), phase@),
        },
{
    let executed: u128 = metrics::phase_sum(points, phase, Measure::Executed);
    let errors: u128 = metrics::phase_sum(points, phase, Measure::Errors);
    assert(errors <= MAX_POINTS * 0xffff_ffff_ffff_ffff) by (nonlinear_arith)
        requires
            errors <= points@.len() * 0xffff_ffff_ffff_ffff,
            points@.len() <= MAX_POINTS,
    ;
    if errors * 10 > executed {
        let mut m = text::join4(
            "Phase '",
            phase,
            "' query errors ",
            text::decimal_of(errors).as_str(),
        );
        m.append(" > 10% of ");
        m.append(text::decimal_of(executed).as_str());
        Some(m)
    } else {
        None
    }
}

fn note_errors(aside: &mut Vec<String>, points: &Vec<AggregatedMetricPoint>, scenario: &Scenario)
    requires
        points@.len() <= MAX_POINTS,
    ensures
        text::views(final(aside)@) == text::views(old(aside)@) + error_notes(
            model::vmap(points@),
            scenario@.phases,
            scenario@.phases.len() as int,
        ),
{
    let ghost pv = model::vmap(points@);
    let ghost before = text::views(aside@);
    let phases = &scenario.timeline.phases;
    let mut i: usize = 0;
    assert(before + error_notes(pv, scenario@.phases, 0) =~= before);
    while i < phases.len()
        invariant
            i <= phases@.len(),
            points@.len() <= MAX_POINTS,
            *phases == scenario.timeline.phases,
            pv == model::vmap(points@),
            text::views(aside@) == before + error_notes(pv, scenario@.phases, i as int),
        decreases phases@.len() - i,
    {
        broadcast use model::views_push;

        assert(scenario@.phases[i as int] == phases@[i as int]@);
        let ghost sofar = error_notes(pv, scenario@.phases, i as int);
        match check_errors(points, phases[i].name.as_str()) {
            Some(t) => {
                assert((before + sofar).push(t@) =~= before + sofar.push(t@));
                aside.push(t);
            },
            None => {},
        }
        i += 1;
    }
}

/// Whether the results of a run may be used, what speaks against it, and what should be
/// kept in mind. They may be used if and only if nothing speaks against it.
pub fn evaluate_validity(timeseries: &TimeSeries, scenario: &Scenario) -> (r: (
    bool,
    Vec<String>,
    Vec<String>,
))
    requires
        timeseries.points@.len() <= MAX_POINTS,
        scenario@.total_phase_eps("baseline"@) <= u64::MAX,
    ensures
        text::views(r.1@) == violations(timeseries@, scenario@),
        text::views(r.2@) == warnings(timeseries@, scenario@),
        r.0 <==> violations(timeseries@, scenario@).len() == 0,
{
    broadcast use model::views_push;

    let points = &timeseries.points;
    let ghost all = timeseries@;
    let ghost sv = scenario@;
    let mut against: Vec<String> = Vec::new();
    let mut aside: Vec<String> = Vec::new();
    assert(text::views(against@) =~= Seq::<Seq<char>>::empty());
    assert(text::views(aside@) =~= Seq::<Seq<char>>::empty());
    match check_stability(points) {
        Some(t) => {
            against.push(t);
        },
        None => {},
    }
    assert(text::views(against@) =~= instability(all));
    match check_ingest(points, scenario) {
        Some(t) => {
            against.push(t);
        },
        None => {},
    }
    assert(text::views(against@) =~= instability(all) + starvation(all, sv));
    match check_baseline_queries(points, scenario) {
        Some(t) => {
            against.push(t);
        },
        None => {},
    }
    assert(text::views(against@) =~= instability(all) + starvation(all, sv) + query_starvation(
        all,
        sv,
    ));
    match check_queries(points, scenario) {
        Some(t) => {
            aside.push(t);
        },
        None => {},
    }
    assert(text::views(aside@) =~= slowness(all, sv));
    if results::saturated(points) {
        aside.push(text::owned("Harness saturation detected"));
    }
    assert(text::views(aside@) =~= slowness(all, sv) + saturation(all));
    match check_feeding(points, scenario, "ingestion_surge", "Surge") {
        Some(t) => {
            aside.push(t);
        },
        None => {},
    }
    assert(text::views(aside@) =~= slowness(all, sv) + saturation(all) + underfeeding(
        all,
        sv,
        "ingestion_surge"@,
        "Surge"@,
    ));
    match check_feeding(points, scenario, "overlap", "Overlap") {
        Some(t) => {
            aside.push(t);
        },
        None => {},
    }
    assert(text::views(aside@) =~= slowness(all, sv) + saturation(all) + underfeeding(
        all,
        sv,
        "ingestion_surge"@,
        "Surge"@,
    ) + underfeeding(all, sv, "overlap"@, "Overlap"@));
    note_errors(&mut aside, points, scenario);
    assert(text::views(aside@) =~= warnings(all, sv));
    let derived = metrics::compute_derived(timeseries);
    let rules = &scenario.valid_run_criteria.rules;
    let ghost before = text::views(against@);
    let mut i: usize = 0;
    assert(text::views(against@) =~= before + rule_violations(sv.rules, derived, 0));
    while i < rules.len()
        invariant
            i <= rules@.len(),
            sv == scenario@,
            *rules == scenario.valid_run_criteria.rules,
            derived.wf(),
            text::views(against@) == before + rule_violations(sv.rules, derived, i as int),
        decreases rules@.len() - i,
    {
        broadcast use model::views_push;

        assert(sv.rules[i as int] == rules@[i as int]@);
        let ghost sofar = rule_violations(sv.rules, derived, i as int);
        if evaluate_criteria_rule(rules[i].condition.as_str(), &derived) {
            against.push(complaint_of(&rules[i]));
            assert((before + sofar).push(complaint(sv.rules[i as int])) =~= before + sofar.push(
                complaint(sv.rules[i as int]),
            ));
        }
        i += 1;
    }
    let valid: bool = against.len() == 0;
    (valid, against, aside)
}

/// A run that may be used keeps its baseline stable, ingests and queries what it should, and
/// meets every rule of its scenario.
pub proof fn a_valid_run_meets_every_rule(points: Seq<PointView>, s: ScenarioView, i: int)
    requires
        violations(points, s).len() == 0,
        0 <= i < s.rules.len(),
    ensures
        !unstable(points),
        !starved(points, s),
        !query_starved(points, s),
        !fails(s.rules[i].condition, metrics::derived(points)),
{
    if fails(s.rules[i].condition, metrics::derived(points)) {
        broken_rules_are_told(s.rules, metrics::derived(points), i, s.rules.len() as int);
    }
}

proof fn broken_rules_are_told(rules: Seq<RuleView>, d: DerivedMetrics, i: int, n: int)
    requires
        0 <= i < n <= rules.len(),
        fails(rules[i].condition, d),
    ensures
        rule_violations(rules, d, n).len() > 0,
    decreases n - i,
{
    if i < n - 1 {
        broken_rules_are_told(rules, d, i, n - 1);
    }
}

} // verus!
