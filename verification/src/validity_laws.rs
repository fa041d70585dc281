//! When the results of a run may be used, told from its points and its scenario.
use vstd::prelude::*;
use vstd::string::*;
use crate::criteria;
use crate::decimal;
use crate::metrics;
use crate::metrics::{DerivedMetrics, Measure, PointView, MAX_POINTS};
use crate::model;
use crate::proc_metrics;
use crate::results;
use crate::scenario::{PhaseView, RuleView, ScenarioView, StreamView};
use crate::scorecard_laws::{seconds, total};
use crate::sorting;
use crate::text;
use crate::threshold;
use crate::threshold::ThresholdView;

verus! {

// ---------------------------------------------------------------------------
// What should have been done
// ---------------------------------------------------------------------------

/// The events per second that the streams aim at in a phase.
pub open spec fn aimed_eps(streams: Seq<StreamView>, phase: Seq<char>) -> int
    decreases streams.len(),
{
    if streams.len() == 0 {
        0
    } else {
        aimed_eps(streams.drop_last(), phase) + match model::find(streams.last().ingest, phase) {
            Some(i) => i.target_eps as int,
            None => 0,
        }
    }
}

/// A phase is the first of its name.
pub open spec fn is_first_named(phases: Seq<PhaseView>, name: Seq<char>, k: int) -> bool {
    &&& 0 <= k < phases.len()
    &&& phases[k].name == name
    &&& forall|j: int| 0 <= j < k ==> (#[trigger] phases[j]).name != name
}

pub(crate) proof fn aims_agree(streams: Seq<StreamView>, phase: Seq<char>)
    ensures
        model::sum(crate::rates::eps_by_stream(streams, phase)) == aimed_eps(streams, phase),
        aimed_eps(streams, phase) >= 0,
    decreases streams.len(),
{
    let all = crate::rates::eps_by_stream(streams, phase);
    if streams.len() > 0 {
        aims_agree(streams.drop_last(), phase);
        assert(all.drop_last() =~= crate::rates::eps_by_stream(streams.drop_last(), phase));
    } else {
        assert(all =~= Seq::<int>::empty());
    }
}

pub(crate) proof fn first_is_named(phases: Seq<PhaseView>, name: Seq<char>, k: int)
    requires
        is_first_named(phases, name, k),
    ensures
        criteria::phase_named(phases, name) == Some(phases[k]),
    decreases k,
{
    if k > 0 {
        assert(phases[0].name != name);
        let rest = phases.skip(1);
        assert forall|j: int| 0 <= j < k - 1 implies (#[trigger] rest[j]).name != name by {
            assert(rest[j] == phases[j + 1]);
        }
        first_is_named(rest, name, k - 1);
    }
}

pub(crate) proof fn phase_facts(points: Seq<PointView>, phase: Seq<char>)
    requires
        points.len() <= MAX_POINTS,
    ensures
        metrics::in_phase(points, phase).len() == seconds(points, phase),
        metrics::phase_total(points, phase, Measure::Produced) == total(
            points,
            phase,
            |p: PointView| p.ingest_events_produced as int,
        ),
        metrics::phase_total(points, phase, Measure::Executed) == total(
            points,
            phase,
            |p: PointView| p.query_executed as int,
        ),
        metrics::phase_total(points, phase, Measure::Errors) == total(
            points,
            phase,
            |p: PointView| p.query_errors as int,
        ),
{
    crate::scorecard_laws::lengths_agree(points, phase);
    crate::scorecard_laws::totals_agree(
        points,
        phase,
        Measure::Produced,
        |p: PointView| p.ingest_events_produced as int,
    );
    crate::scorecard_laws::totals_agree(
        points,
        phase,
        Measure::Executed,
        |p: PointView| p.query_executed as int,
    );
    crate::scorecard_laws::totals_agree(
        points,
        phase,
        Measure::Errors,
        |p: PointView| p.query_errors as int,
    );
}

/// The baseline ingested nine tenths of what its streams aim at over its duration, or aims at
/// nothing.
pub open spec fn baseline_was_fed(points: Seq<PointView>, s: ScenarioView, k: int) -> bool {
    let aim = aimed_eps(s.stream_list(), "baseline"@);
    aim == 0 || (s.phases[k].duration_seconds > 0 && 10 * total(
        points,
        "baseline"@,
        |p: PointView| p.ingest_events_produced as int,
    ) >= 9 * (aim * s.phases[k].duration_seconds))
}

/// The baseline executed nine tenths of the queries that it aims at, by the mean of its
/// seconds.
pub open spec fn baseline_was_queried(points: Seq<PointView>, s: ScenarioView, k: int) -> bool {
    10_000_000_000_000 * total(points, "baseline"@, |p: PointView| p.query_executed as int) >= 9
        * (s.phases[k].target_pqps * seconds(points, "baseline"@))
}

/// The 99th percentiles of the baseline are stable: their greatest is at most twice a number
/// that half of them reach or exceed, and more than half do not exceed.
pub open spec fn baseline_was_stable(points: Seq<PointView>, middle: u128) -> bool {
    middle > 0 ==> forall|i: int|
        0 <= i < points.len() && (#[trigger] points[i]).phase == "baseline"@
            ==> points[i].query_latency.p99 <= 2 * middle
}

/// How many latencies of the baseline are less than a number.
pub open spec fn slower_than(points: Seq<PointView>, x: u128) -> int {
    total(
        points,
        "baseline"@,
        |p: PointView| if p.query_latency.p99 > x {
            1int
        } else {
            0
        },
    )
}

/// How many latencies of the baseline are greater than a number.
pub open spec fn faster_than(points: Seq<PointView>, x: u128) -> int {
    total(
        points,
        "baseline"@,
        |p: PointView| if p.query_latency.p99 < x {
            1int
        } else {
            0
        },
    )
}

/// A number is the median of the baseline's latencies: at most half of them are less, and fewer
/// than half are greater.
pub open spec fn is_median(points: Seq<PointView>, x: u128) -> bool {
    &&& 2 * faster_than(points, x) <= seconds(points, "baseline"@)
    &&& 2 * slower_than(points, x) < seconds(points, "baseline"@)
}

spec fn count_of(s: Seq<u128>, of_kind: spec_fn(u128) -> bool) -> int
    decreases s.len(),
{
    if s.len() == 0 {
        0
    } else {
        count_of(s.drop_last(), of_kind) + if of_kind(s.last()) {
            1int
        } else {
            0
        }
    }
}

proof fn inserted_counts(s: Seq<u128>, x: u128, of_kind: spec_fn(u128) -> bool)
    ensures
        count_of(sorting::inserted(s, x), of_kind) == count_of(s, of_kind) + if of_kind(x) {
            1int
        } else {
            0
        },
    decreases s.len(),
{
    let r = sorting::inserted(s, x);
    if s.len() == 0 || s.last() <= x {
        assert(r.drop_last() =~= s);
    } else {
        inserted_counts(s.drop_last(), x, of_kind);
        assert(r.drop_last() =~= sorting::inserted(s.drop_last(), x));
    }
}

proof fn arranged_counts(s: Seq<u128>, of_kind: spec_fn(u128) -> bool)
    ensures
        count_of(sorting::arranged(s), of_kind) == count_of(s, of_kind),
    decreases s.len(),
{
    if s.len() > 0 {
        arranged_counts(s.drop_last(), of_kind);
        inserted_counts(sorting::arranged(s.drop_last()), s.last(), of_kind);
    }
}

proof fn count_at_most(s: Seq<u128>, of_kind: spec_fn(u128) -> bool, from: int, to: int)
    requires
        0 <= from <= to <= s.len(),
        forall|k: int| 0 <= k < s.len() && !(from <= k < to) ==> !of_kind(#[trigger] s[k]),
    ensures
        0 <= count_of(s, of_kind) <= to - from,
    decreases s.len(),
{
    if s.len() > 0 {
        let front = s.drop_last();
        let n = s.len() - 1;
        let t = if to > n {
            n
        } else {
            to
        };
        let f = if from > n {
            n
        } else {
            from
        };
        assert forall|k: int| 0 <= k < front.len() && !(f <= k < t) implies !of_kind(
            #[trigger] front[k],
        ) by {
            assert(front[k] == s[k]);
        }
        count_at_most(front, of_kind, f, t);
        assert(s[n] == s.last());
    }
}

proof fn baseline_counts(
    points: Seq<PointView>,
    of_kind: spec_fn(u128) -> bool,
    f: spec_fn(PointView) -> int,
)
    requires
        forall|p: PointView|
            #[trigger] f(p) == if of_kind(p.query_latency.p99 as u128) {
                1int
            } else {
                0
            },
    ensures
        count_of(criteria::baseline_latencies(points), of_kind) == total(points, "baseline"@, f),
    decreases points.len(),
{
    reveal(Seq::filter);
    let all = criteria::baseline_latencies(points);
    if points.len() > 0 {
        let n = points.len() - 1;
        let front = points.drop_last();
        baseline_counts(front, of_kind, f);
        metrics::in_phase_step(points, "baseline"@, n);
        assert(points.take(n) =~= front);
        assert(points.take(n + 1) =~= points);
        assert(f(points.last()) == if of_kind(points.last().query_latency.p99 as u128) {
            1int
        } else {
            0
        });
        let before = criteria::baseline_latencies(front);
        if points.last().phase == "baseline"@ {
            assert(all =~= before.push(points.last().query_latency.p99 as u128));
            assert(all.drop_last() =~= before);
        } else {
            assert(all =~= before);
        }
    } else {
        assert(metrics::in_phase(points, "baseline"@) =~= Seq::empty());
        assert(all =~= Seq::<u128>::empty());
    }
}

proof fn baseline_members(points: Seq<PointView>, i: int)
    requires
        0 <= i < points.len(),
        points[i].phase == "baseline"@,
    ensures
        criteria::baseline_latencies(points).contains(points[i].query_latency.p99 as u128),
    decreases points.len(),
{
    reveal(Seq::filter);
    let n = points.len() - 1;
    let front = points.drop_last();
    metrics::in_phase_step(points, "baseline"@, n);
    assert(points.take(n) =~= front);
    assert(points.take(n + 1) =~= points);
    let all = criteria::baseline_latencies(points);
    let before = criteria::baseline_latencies(front);
    if i < n {
        assert(front[i] == points[i]);
        baseline_members(front, i);
        let k = choose|k: int|
            0 <= k < before.len() && before[k] == points[i].query_latency.p99 as u128;
        assert(all[k] == before[k]);
    } else {
        assert(all[all.len() - 1] == points[i].query_latency.p99);
    }
}

proof fn baseline_origins(points: Seq<PointView>, x: u128)
    requires
        criteria::baseline_latencies(points).contains(x),
    ensures
        exists|i: int|
            0 <= i < points.len() && (#[trigger] points[i]).phase == "baseline"@
                && points[i].query_latency.p99 == x,
    decreases points.len(),
{
    reveal(Seq::filter);
    let all = criteria::baseline_latencies(points);
    if points.len() == 0 {
        assert(metrics::in_phase(points, "baseline"@) =~= Seq::empty());
        assert(all =~= Seq::<u128>::empty());
    } else {
        let n = points.len() - 1;
        let front = points.drop_last();
        metrics::in_phase_step(points, "baseline"@, n);
        assert(points.take(n) =~= front);
        assert(points.take(n + 1) =~= points);
        let before = criteria::baseline_latencies(front);
        let k = choose|k: int| 0 <= k < all.len() && all[k] == x;
        if k < before.len() {
            assert(before[k] == x);
            baseline_origins(front, x);
            let i = choose|i: int|
                0 <= i < front.len() && (#[trigger] front[i]).phase == "baseline"@
                    && front[i].query_latency.p99 == x;
            assert(points[i] == front[i]);
        } else {
            assert(points[n].query_latency.p99 == x);
        }
    }
}

/// The latency of the baseline counts as unstable exactly where some second lies beyond twice
/// the median of its seconds.
pub proof fn stability_is_measured_by_the_median(points: Seq<PointView>)
    requires
        points.len() <= MAX_POINTS,
        seconds(points, "baseline"@) > 0,
    ensures
        exists|m: u128| #[trigger]
            is_median(points, m) && (criteria::unstable(points) <==> !baseline_was_stable(
                points,
                m,
            )),
{
    broadcast use vstd::seq_lib::group_to_multiset_ensures;

    crate::scorecard_laws::lengths_agree(points, "baseline"@);
    let s = criteria::baseline_latencies(points);
    let a = sorting::arranged(s);
    sorting::arranged_is_sorted(s);
    let n = s.len() as int;
    let m = a[n / 2];
    let less = |x: u128| x < m;
    let more = |x: u128| x > m;
    arranged_counts(s, less);
    arranged_counts(s, more);
    assert forall|k: int| 0 <= k < n && !(0 <= k < n / 2) implies !less(#[trigger] a[k]) by {
        assert(a[n / 2] <= a[k]);
    }
    count_at_most(a, less, 0, n / 2);
    assert forall|k: int| 0 <= k < n && !(n / 2 + 1 <= k < n) implies !more(#[trigger] a[k]) by {
        assert(a[k] <= a[n / 2]);
    }
    count_at_most(a, more, n / 2 + 1, n);
    baseline_counts(
        points,
        less,
        |p: PointView| if p.query_latency.p99 < m {
            1int
        } else {
            0
        },
    );
    baseline_counts(
        points,
        more,
        |p: PointView| if p.query_latency.p99 > m {
            1int
        } else {
            0
        },
    );
    assert(is_median(points, m));
    let top = a[n - 1];
    assert(a.last() == top);
    if criteria::unstable(points) {
        assert(a.contains(top));
        assert(a.to_multiset().count(top) > 0);
        assert(s.contains(top));
        baseline_origins(points, top);
    } else if m > 0 {
        assert forall|i: int|
            0 <= i < points.len() && (#[trigger] points[i]).phase == "baseline"@ implies
            points[i].query_latency.p99 <= 2 * m by {
            baseline_members(points, i);
            let x = points[i].query_latency.p99 as u128;
            assert(s.to_multiset().count(x) > 0);
            assert(a.contains(x));
            let k = choose|k: int| 0 <= k < a.len() && a[k] == x;
            assert(a[k] <= a[n - 1]);
        }
    }
}

/// A run whose baseline was measured may be used exactly where its baseline is stable, was fed
/// and was queried, and no rule of its scenario fails.
pub proof fn runs_may_be_used_when_nothing_speaks_against_it(
    points: Seq<PointView>,
    s: ScenarioView,
    k: int,
)
    requires
        points.len() <= MAX_POINTS,
        seconds(points, "baseline"@) > 0,
        is_first_named(s.phases, "baseline"@, k),
    ensures
        criteria::violations(points, s).len() == 0 <==> !criteria::unstable(points)
            && baseline_was_fed(points, s, k) && baseline_was_queried(points, s, k) && forall|i: int|
            0 <= i < s.rules.len() ==> !criteria::fails(
                (#[trigger] s.rules[i]).condition,
                metrics::derived(points),
            ),
{
    phase_facts(points, "baseline"@);
    first_is_named(s.phases, "baseline"@, k);
    aims_agree(s.stream_list(), "baseline"@);
    no_rule_fails(s.rules, metrics::derived(points), s.rules.len() as int);
    let made = total(points, "baseline"@, |p: PointView| p.ingest_events_produced as int);
    let aim = aimed_eps(s.stream_list(), "baseline"@);
    let d = s.phases[k].duration_seconds as int;
    assert(aim * 9 * d == 9 * (aim * d)) by (nonlinear_arith);
    let n = seconds(points, "baseline"@);
    let t = s.phases[k].target_pqps as int;
    assert(t * (9 * n) == 9 * (t * n)) by (nonlinear_arith);
    assert(criteria::starved(points, s) <==> !baseline_was_fed(points, s, k));
    assert(criteria::query_starved(points, s) <==> !baseline_was_queried(points, s, k));
}

proof fn no_rule_fails(rules: Seq<RuleView>, d: DerivedMetrics, n: int)
    requires
        0 <= n <= rules.len(),
    ensures
        criteria::rule_violations(rules, d, n).len() == 0 <==> forall|i: int|
            0 <= i < n ==> !criteria::fails((#[trigger] rules[i]).condition, d),
    decreases n,
{
    if n > 0 {
        no_rule_fails(rules, d, n - 1);
    }
}

// ---------------------------------------------------------------------------
// What should be kept in mind
// ---------------------------------------------------------------------------

/// A phase ingested half of what its streams aim at, by the mean of its seconds.
pub open spec fn was_fed(points: Seq<PointView>, s: ScenarioView, phase: Seq<char>) -> bool {
    2 * total(points, phase, |p: PointView| p.ingest_events_produced as int) >= aimed_eps(
        s.stream_list(),
        phase,
    ) * seconds(points, phase)
}

/// At most a tenth of the queries of a phase failed.
pub open spec fn seldom_failed(points: Seq<PointView>, phase: Seq<char>) -> bool {
    10 * total(points, phase, |p: PointView| p.query_errors as int) <= total(
        points,
        phase,
        |p: PointView| p.query_executed as int,
    )
}

/// In a second some worker was at its limit.
pub open spec fn was_busy(points: Seq<PointView>, second: int) -> bool {
    exists|i: int|
        0 <= i < points.len() && (#[trigger] points[i]).timestamp_s == second
            && points[i].harness_saturated
}

/// In each of ten seconds in a row some worker was at its limit.
pub open spec fn was_busy_for_ten(points: Seq<PointView>, second: int) -> bool {
    forall|j: int| second <= j < second + 10 ==> #[trigger] was_busy(points, j)
}

/// The harness counts as saturated exactly where for ten seconds in a row some worker was at
/// its limit.
pub proof fn ten_busy_seconds_saturate(points: Seq<PointView>)
    ensures
        results::sustained_in(points) <==> exists|second: int| #[trigger]
            was_busy_for_ten(points, second),
{
    if results::sustained_in(points) {
        let t = choose|t: int| #[trigger] results::saturated_for(points, t, 10);
        assert forall|j: int| t <= j < t + 10 implies #[trigger] was_busy(points, j) by {
            assert(results::saturated_at(points, t + (j - t)));
        }
        assert(was_busy_for_ten(points, t));
    }
    if exists|second: int| #[trigger] was_busy_for_ten(points, second) {
        let t = choose|t: int| #[trigger] was_busy_for_ten(points, t);
        assert forall|k: int| 0 <= k < 10 implies results::saturated_at(
            points,
            #[trigger] (t + k),
        ) by {
            assert(was_busy(points, t + k));
        }
        assert(results::saturated_for(points, t, 10));
    }
}

/// There is something to keep in mind exactly where the overlap executed less than half its
/// queries, the surge or the overlap ingested less than half its events, or more than a tenth
/// of a phase's queries failed, or workers were at their limit.
pub proof fn weak_runs_are_warned_of(points: Seq<PointView>, s: ScenarioView, k: int)
    requires
        points.len() <= MAX_POINTS,
        is_first_named(s.phases, "overlap"@, k),
        s.phases[k].duration_seconds > 0,
        seconds(points, "overlap"@) > 0,
        seconds(points, "ingestion_surge"@) > 0,
    ensures
        criteria::warnings(points, s).len() == 0 <==> {
            &&& 2_000_000_000_000 * total(
                points,
                "overlap"@,
                |p: PointView| p.query_executed as int,
            ) >= s.phases[k].target_pqps * s.phases[k].duration_seconds
            &&& !exists|second: int| #[trigger] was_busy_for_ten(points, second)
            &&& was_fed(points, s, "ingestion_surge"@)
            &&& was_fed(points, s, "overlap"@)
            &&& forall|i: int|
                0 <= i < s.phases.len() ==> seldom_failed(points, (#[trigger] s.phases[i]).name)
        },
{
    phase_facts(points, "overlap"@);
    phase_facts(points, "ingestion_surge"@);
    first_is_named(s.phases, "overlap"@, k);
    aims_agree(s.stream_list(), "overlap"@);
    aims_agree(s.stream_list(), "ingestion_surge"@);
    notes_tell(points, s.phases, s.phases.len() as int);
    ten_busy_seconds_saturate(points);
    assert(criteria::underfed(points, s, "overlap"@) <==> !was_fed(points, s, "overlap"@));
    assert(criteria::underfed(points, s, "ingestion_surge"@) <==> !was_fed(
        points,
        s,
        "ingestion_surge"@,
    ));
}

proof fn notes_tell(points: Seq<PointView>, phases: Seq<PhaseView>, n: int)
    requires
        points.len() <= MAX_POINTS,
        0 <= n <= phases.len(),
    ensures
        criteria::error_notes(points, phases, n).len() == 0 <==> forall|i: int|
            0 <= i < n ==> seldom_failed(points, (#[trigger] phases[i]).name),
    decreases n,
{
    if n > 0 {
        notes_tell(points, phases, n - 1);
        phase_facts(points, phases[n - 1].name);
    }
}

// ---------------------------------------------------------------------------
// Rules
// ---------------------------------------------------------------------------

proof fn digits_go_on(t: Seq<char>, i: int)
    requires
        0 <= i <= t.len(),
        forall|k: int| 0 <= k < t.len() ==> text::is_digit(#[trigger] t[k]),
    ensures
        text::digits_end(t, i) == t.len(),
    decreases t.len() - i,
{
    if i < t.len() {
        assert(text::is_digit(t[i]));
        digits_go_on(t, i + 1);
    }
}

proof fn decimal_digits(n: nat)
    ensures
        forall|i: int|
            0 <= i < text::decimal(n).len() ==> text::is_digit(#[trigger] text::decimal(n)[i]),
        text::digits_value(text::decimal(n)) == n,
        text::decimal(n).len() > 0,
    decreases n,
{
    let last = text::digit_char((n % 10) as int);
    assert(text::is_digit(last) && last as u32 - '0' as u32 == n % 10);
    if n >= 10 {
        decimal_digits(n / 10);
        let front = text::decimal(n / 10);
        assert(front.push(last).drop_last() =~= front);
    } else {
        assert(text::decimal(n) =~= seq![last]);
        assert(seq![last].drop_last() =~= Seq::<char>::empty());
        assert(text::digits_value(Seq::<char>::empty()) == 0);
    }
}

proof fn whole_threshold(n: nat)
    ensures
        threshold::threshold(text::decimal(n)) == Some(
            ThresholdView::Number {
                negative: false,
                whole: text::decimal(n),
                fraction: Seq::empty(),
            },
        ),
        threshold::digits_together(text::decimal(n), Seq::empty()) == n,
{
    let t = text::decimal(n);
    decimal_digits(n);
    digits_go_on(t, 0);
    assert(text::is_digit(t[0]));
    let word = text::ascii_lower(t.skip(0));
    assert(t.skip(0) =~= t);
    assert(word[0] == t[0]);
    reveal_strlit("inf");
    reveal_strlit("infinity");
    reveal_strlit("nan");
    assert(word != "inf"@) by {
        assert("inf"@[0] == 'i');
    }
    assert(word != "infinity"@) by {
        assert("infinity"@[0] == 'i');
    }
    assert(word != "nan"@) by {
        assert("nan"@[0] == 'n');
    }
    assert(t.subrange(0, t.len() as int) =~= t);
    assert(text::first_digits(t, t.len() as int) =~= t);
    assert(threshold::last_digits(t, t.len() as int) =~= Seq::<char>::empty());
    assert(decimal::pow10(0) == 1);
    assert(n * 1 == n) by (nonlinear_arith);
}

/// A rule `figure operator number` is broken exactly where the figure does not stand to the
/// number as the operator says.
pub proof fn rules_say_how_figures_stand(
    condition: Seq<char>,
    name: Seq<char>,
    operator: Seq<char>,
    n: nat,
    d: DerivedMetrics,
    num: int,
    den: int,
)
    requires
        proc_metrics::words(condition) == seq![name, operator, text::decimal(n)],
        criteria::figure(name, d) == Some((num, den)),
        den > 0,
    ensures
        operator == "<"@ ==> (criteria::fails(condition, d) <==> !(num < n * den)),
        operator == "<="@ ==> (criteria::fails(condition, d) <==> !(num <= n * den)),
        operator == ">"@ ==> (criteria::fails(condition, d) <==> !(num > n * den)),
        operator == ">="@ ==> (criteria::fails(condition, d) <==> !(num >= n * den)),
        operator == "=="@ && num == n * den ==> !criteria::fails(condition, d),
        operator == "=="@ && (num >= n * den + den || num <= n * den - den) ==> criteria::fails(
            condition,
            d,
        ),
{
    whole_threshold(n);
    operators_differ();
    assert(decimal::pow10(0) == 1);
    assert(num * 1 == num && den * 1 == den) by (nonlinear_arith);
    let gap = threshold::distance(num, n * den);
    if operator == "=="@ {
        if num == n * den {
            assert(0 * threshold::EQUAL_PARTS == 0) by (nonlinear_arith);
        } else if gap >= den {
            assert(gap * threshold::EQUAL_PARTS >= den) by (nonlinear_arith)
                requires
                    gap >= den,
                    den > 0,
                    threshold::EQUAL_PARTS >= 1,
            ;
        }
    }
}

proof fn operators_differ()
    ensures
        "<"@ != "<="@,
        "<"@ != ">"@,
        "<="@ != ">"@,
        "<"@ != ">="@,
        "<="@ != ">="@,
        ">"@ != ">="@,
        "<"@ != "=="@,
        "<="@ != "=="@,
        ">"@ != "=="@,
        ">="@ != "=="@,
{
    reveal_strlit("<");
    reveal_strlit("<=");
    reveal_strlit(">");
    reveal_strlit(">=");
    reveal_strlit("==");
    assert("<"@.len() != "<="@.len());
    assert("<"@[0] != ">"@[0]);
    assert("<="@.len() != ">"@.len());
    assert("<"@.len() != ">="@.len());
    assert("<="@[0] != ">="@[0]);
    assert(">"@.len() != ">="@.len());
    assert("<"@.len() != "=="@.len());
    assert("<="@[0] != "=="@[0]);
    assert(">"@.len() != "=="@.len());
    assert(">="@[0] != "=="@[0]);
}

/// A figure has a value: it is the quotient `num / den`.
pub open spec fn has_value(name: Seq<char>, d: DerivedMetrics, num: int, den: int) -> bool {
    criteria::figure(name, d) matches Some((a, b)) && b > 0 && a * den == b * num
}

/// The figures that rules name are those of the run; latencies are in milliseconds.
pub proof fn rules_name_the_figures_of_the_run(d: DerivedMetrics)
    requires
        d.wf(),
    ensures
        has_value(
            "query_error_rate_overlap"@,
            d,
            d.query_error_rate_overlap.num as int,
            d.query_error_rate_overlap.den as int,
        ),
        has_value(
            "query.error_rate_overlap"@,
            d,
            d.query_error_rate_overlap.num as int,
            d.query_error_rate_overlap.den as int,
        ),
        has_value(
            "query_p99_ratio"@,
            d,
            d.query_p99_ratio.num as int,
            d.query_p99_ratio.den as int,
        ),
        has_value(
            "p99_degradation_ratio"@,
            d,
            d.query_p99_ratio.num as int,
            d.query_p99_ratio.den as int,
        ),
        has_value(
            "query.p99_ratio"@,
            d,
            d.query_p99_ratio.num as int,
            d.query_p99_ratio.den as int,
        ),
        has_value("ingest_peak_backlog"@, d, d.ingest_peak_backlog as int, 1),
        has_value("peak_backlog"@, d, d.ingest_peak_backlog as int, 1),
        has_value("ingest.peak_backlog"@, d, d.ingest_peak_backlog as int, 1),
        has_value("ingest_backlog_drain_time_s"@, d, d.ingest_backlog_drain_time_s as int, 1),
        has_value("backlog_drain_time_s"@, d, d.ingest_backlog_drain_time_s as int, 1),
        has_value("ingest.backlog_drain_time_s"@, d, d.ingest_backlog_drain_time_s as int, 1),
        has_value("recovery_time_to_baseline_s"@, d, d.recovery_time_to_baseline_s as int, 1),
        has_value("recovery_time_s"@, d, d.recovery_time_to_baseline_s as int, 1),
        has_value("recovery.time_to_baseline_s"@, d, d.recovery_time_to_baseline_s as int, 1),
        has_value(
            "query_baseline_p99"@,
            d,
            d.query_baseline_p99.num as int,
            d.query_baseline_p99.den * 1_000_000,
        ),
        has_value(
            "baseline_p99_ms"@,
            d,
            d.query_baseline_p99.num as int,
            d.query_baseline_p99.den * 1_000_000,
        ),
        has_value(
            "query.baseline_p99"@,
            d,
            d.query_baseline_p99.num as int,
            d.query_baseline_p99.den * 1_000_000,
        ),
        has_value(
            "query_overlap_p99"@,
            d,
            d.query_overlap_p99.num as int,
            d.query_overlap_p99.den * 1_000_000,
        ),
        has_value(
            "overlap_p99_ms"@,
            d,
            d.query_overlap_p99.num as int,
            d.query_overlap_p99.den * 1_000_000,
        ),
        has_value(
            "query.overlap_p99"@,
            d,
            d.query_overlap_p99.num as int,
            d.query_overlap_p99.den * 1_000_000,
        ),
        has_value(
            "query_throughput_ratio"@,
            d,
            d.query_throughput_ratio.num as int,
            d.query_throughput_ratio.den as int,
        ),
        has_value(
            "query.throughput_ratio"@,
            d,
            d.query_throughput_ratio.num as int,
            d.query_throughput_ratio.den as int,
        ),
        has_value(
            "ingest_throughput_ratio"@,
            d,
            d.ingest_throughput_ratio.num as int,
            d.ingest_throughput_ratio.den as int,
        ),
        has_value(
            "ingest.throughput_ratio"@,
            d,
            d.ingest_throughput_ratio.num as int,
            d.ingest_throughput_ratio.den as int,
        ),
        has_value(
            "query.baseline_p50"@,
            d,
            d.query_baseline_p50.num as int,
            d.query_baseline_p50.den * 1_000_000,
        ),
        has_value(
            "query.overlap_p50"@,
            d,
            d.query_overlap_p50.num as int,
            d.query_overlap_p50.den * 1_000_000,
        ),
        has_value("query.total_executed"@, d, d.query_total_executed as int, 1),
        has_value(
            "ingest.baseline_eps"@,
            d,
            d.ingest_baseline_eps.num as int,
            d.ingest_baseline_eps.den as int,
        ),
        has_value("ingest.peak_eps"@, d, d.ingest_peak_eps as int, 1),
{
    names_differ();
    let r = d.query_error_rate_overlap;
    assert forall|a: int, b: int| #![trigger a * b] a * b == b * a by {
        assert(a * b == b * a) by (nonlinear_arith);
    }
}

proof fn names_differ_a()
    ensures
        "query_error_rate_overlap"@ != "query_p99_ratio"@,
        "query.error_rate_overlap"@ != "query_p99_ratio"@,
        "query_error_rate_overlap"@ != "p99_degradation_ratio"@,
        "query.error_rate_overlap"@ != "p99_degradation_ratio"@,
        "query_error_rate_overlap"@ != "query.p99_ratio"@,
        "query.error_rate_overlap"@ != "query.p99_ratio"@,
        "query_error_rate_overlap"@ != "ingest_peak_backlog"@,
        "query.error_rate_overlap"@ != "ingest_peak_backlog"@,
        "query_p99_ratio"@ != "ingest_peak_backlog"@,
        "p99_degradation_ratio"@ != "ingest_peak_backlog"@,
        "query.p99_ratio"@ != "ingest_peak_backlog"@,
        "query_error_rate_overlap"@ != "peak_backlog"@,
        "query.error_rate_overlap"@ != "peak_backlog"@,
        "query_p99_ratio"@ != "peak_backlog"@,
        "p99_degradation_ratio"@ != "peak_backlog"@,
        "query.p99_ratio"@ != "peak_backlog"@,
        "query_error_rate_overlap"@ != "ingest.peak_backlog"@,
        "query.error_rate_overlap"@ != "ingest.peak_backlog"@,
        "query_p99_ratio"@ != "ingest.peak_backlog"@,
        "p99_degradation_ratio"@ != "ingest.peak_backlog"@,
        "query.p99_ratio"@ != "ingest.peak_backlog"@,
        "query_error_rate_overlap"@ != "ingest_backlog_drain_time_s"@,
        "query.error_rate_overlap"@ != "ingest_backlog_drain_time_s"@,
        "query_p99_ratio"@ != "ingest_backlog_drain_time_s"@,
        "p99_degradation_ratio"@ != "ingest_backlog_drain_time_s"@,
        "query.p99_ratio"@ != "ingest_backlog_drain_time_s"@,
        "ingest_peak_backlog"@ != "ingest_backlog_drain_time_s"@,
        "peak_backlog"@ != "ingest_backlog_drain_time_s"@,
        "ingest.peak_backlog"@ != "ingest_backlog_drain_time_s"@,
        "query_error_rate_overlap"@ != "backlog_drain_time_s"@,
        "query.error_rate_overlap"@ != "backlog_drain_time_s"@,
        "query_p99_ratio"@ != "backlog_drain_time_s"@,
        "p99_degradation_ratio"@ != "backlog_drain_time_s"@,
        "query.p99_ratio"@ != "backlog_drain_time_s"@,
        "ingest_peak_backlog"@ != "backlog_drain_time_s"@,
        "peak_backlog"@ != "backlog_drain_time_s"@,
        "ingest.peak_backlog"@ != "backlog_drain_time_s"@,
        "query_error_rate_overlap"@ != "ingest.backlog_drain_time_s"@,
        "query.error_rate_overlap"@ != "ingest.backlog_drain_time_s"@,
        "query_p99_ratio"@ != "ingest.backlog_drain_time_s"@,
        "p99_degradation_ratio"@ != "ingest.backlog_drain_time_s"@,
        "query.p99_ratio"@ != "ingest.backlog_drain_time_s"@,
        "ingest_peak_backlog"@ != "ingest.backlog_drain_time_s"@,
        "peak_backlog"@ != "ingest.backlog_drain_time_s"@,
        "ingest.peak_backlog"@ != "ingest.backlog_drain_time_s"@,
        "query_error_rate_overlap"@ != "recovery_time_to_baseline_s"@,
        "query.error_rate_overlap"@ != "recovery_time_to_baseline_s"@,
        "query_p99_ratio"@ != "recovery_time_to_baseline_s"@,
        "p99_degradation_ratio"@ != "recovery_time_to_baseline_s"@,
        "query.p99_ratio"@ != "recovery_time_to_baseline_s"@,
        "ingest_peak_backlog"@ != "recovery_time_to_baseline_s"@,
        "peak_backlog"@ != "recovery_time_to_baseline_s"@,
        "ingest.peak_backlog"@ != "recovery_time_to_baseline_s"@,
        "ingest_backlog_drain_time_s"@ != "recovery_time_to_baseline_s"@,
        "backlog_drain_time_s"@ != "recovery_time_to_baseline_s"@,
        "ingest.backlog_drain_time_s"@ != "recovery_time_to_baseline_s"@,
        "query_error_rate_overlap"@ != "recovery_time_s"@,
        "query.error_rate_overlap"@ != "recovery_time_s"@,
        "query_p99_ratio"@ != "recovery_time_s"@,
        "p99_degradation_ratio"@ != "recovery_time_s"@,
{
    reveal_strlit("query_error_rate_overlap");
    reveal_strlit("query_p99_ratio");
    reveal_strlit("query.error_rate_overlap");
    reveal_strlit("p99_degradation_ratio");
    reveal_strlit("query.p99_ratio");
    reveal_strlit("ingest_peak_backlog");
    reveal_strlit("peak_backlog");
    reveal_strlit("ingest.peak_backlog");
    reveal_strlit("ingest_backlog_drain_time_s");
    reveal_strlit("backlog_drain_time_s");
    reveal_strlit("ingest.backlog_drain_time_s");
    reveal_strlit("recovery_time_to_baseline_s");
    reveal_strlit("recovery_time_s");
    assert("query_error_rate_overlap"@.len() != "query_p99_ratio"@.len());
    assert("query.error_rate_overlap"@.len() != "query_p99_ratio"@.len());
    assert("query_error_rate_overlap"@.len() != "p99_degradation_ratio"@.len());
    assert("query.error_rate_overlap"@.len() != "p99_degradation_ratio"@.len());
    assert("query_error_rate_overlap"@.len() != "query.p99_ratio"@.len());
    assert("query.error_rate_overlap"@.len() != "query.p99_ratio"@.len());
    assert("query_error_rate_overlap"@.len() != "ingest_peak_backlog"@.len());
    assert("query.error_rate_overlap"@.len() != "ingest_peak_backlog"@.len());
    assert("query_p99_ratio"@.len() != "ingest_peak_backlog"@.len());
    assert("p99_degradation_ratio"@.len() != "ingest_peak_backlog"@.len());
    assert("query.p99_ratio"@.len() != "ingest_peak_backlog"@.len());
    assert("query_error_rate_overlap"@.len() != "peak_backlog"@.len());
    assert("query.error_rate_overlap"@.len() != "peak_backlog"@.len());
    assert("query_p99_ratio"@.len() != "peak_backlog"@.len());
    assert("p99_degradation_ratio"@.len() != "peak_backlog"@.len());
    assert("query.p99_ratio"@.len() != "peak_backlog"@.len());
    assert("query_error_rate_overlap"@.len() != "ingest.peak_backlog"@.len());
    assert("query.error_rate_overlap"@.len() != "ingest.peak_backlog"@.len());
    assert("query_p99_ratio"@.len() != "ingest.peak_backlog"@.len());
    assert("p99_degradation_ratio"@.len() != "ingest.peak_backlog"@.len());
    assert("query.p99_ratio"@.len() != "ingest.peak_backlog"@.len());
    assert("query_error_rate_overlap"@.len() != "ingest_backlog_drain_time_s"@.len());
    assert("query.error_rate_overlap"@.len() != "ingest_backlog_drain_time_s"@.len());
    assert("query_p99_ratio"@.len() != "ingest_backlog_drain_time_s"@.len());
    assert("p99_degradation_ratio"@.len() != "ingest_backlog_drain_time_s"@.len());
    assert("query.p99_ratio"@.len() != "ingest_backlog_drain_time_s"@.len());
    assert("ingest_peak_backlog"@.len() != "ingest_backlog_drain_time_s"@.len());
    assert("peak_backlog"@.len() != "ingest_backlog_drain_time_s"@.len());
    assert("ingest.peak_backlog"@.len() != "ingest_backlog_drain_time_s"@.len());
    assert("query_error_rate_overlap"@.len() != "backlog_drain_time_s"@.len());
    assert("query.error_rate_overlap"@.len() != "backlog_drain_time_s"@.len());
    assert("query_p99_ratio"@.len() != "backlog_drain_time_s"@.len());
    assert("p99_degradation_ratio"@.len() != "backlog_drain_time_s"@.len());
    assert("query.p99_ratio"@.len() != "backlog_drain_time_s"@.len());
    assert("ingest_peak_backlog"@.len() != "backlog_drain_time_s"@.len());
    assert("peak_backlog"@.len() != "backlog_drain_time_s"@.len());
    assert("ingest.peak_backlog"@.len() != "backlog_drain_time_s"@.len());
    assert("query_error_rate_overlap"@.len() != "ingest.backlog_drain_time_s"@.len());
    assert("query.error_rate_overlap"@.len() != "ingest.backlog_drain_time_s"@.len());
    assert("query_p99_ratio"@.len() != "ingest.backlog_drain_time_s"@.len());
    assert("p99_degradation_ratio"@.len() != "ingest.backlog_drain_time_s"@.len());
    assert("query.p99_ratio"@.len() != "ingest.backlog_drain_time_s"@.len());
    assert("ingest_peak_backlog"@.len() != "ingest.backlog_drain_time_s"@.len());
    assert("peak_backlog"@.len() != "ingest.backlog_drain_time_s"@.len());
    assert("ingest.peak_backlog"@.len() != "ingest.backlog_drain_time_s"@.len());
    assert("query_error_rate_overlap"@.len() != "recovery_time_to_baseline_s"@.len());
    assert("query.error_rate_overlap"@.len() != "recovery_time_to_baseline_s"@.len());
    assert("query_p99_ratio"@.len() != "recovery_time_to_baseline_s"@.len());
    assert("p99_degradation_ratio"@.len() != "recovery_time_to_baseline_s"@.len());
    assert("query.p99_ratio"@.len() != "recovery_time_to_baseline_s"@.len());
    assert("ingest_peak_backlog"@.len() != "recovery_time_to_baseline_s"@.len());
    assert("peak_backlog"@.len() != "recovery_time_to_baseline_s"@.len());
    assert("ingest.peak_backlog"@.len() != "recovery_time_to_baseline_s"@.len());
    assert("ingest_backlog_drain_time_s"@[0] != "recovery_time_to_baseline_s"@[0]);
    assert("backlog_drain_time_s"@.len() != "recovery_time_to_baseline_s"@.len());
    assert("ingest.backlog_drain_time_s"@[0] != "recovery_time_to_baseline_s"@[0]);
    assert("query_error_rate_overlap"@.len() != "recovery_time_s"@.len());
    assert("query.error_rate_overlap"@.len() != "recovery_time_s"@.len());
    assert("query_p99_ratio"@[0] != "recovery_time_s"@[0]);
    assert("p99_degradation_ratio"@.len() != "recovery_time_s"@.len());
}

proof fn names_differ_b()
    ensures
        "query.p99_ratio"@ != "recovery_time_s"@,
        "ingest_peak_backlog"@ != "recovery_time_s"@,
        "peak_backlog"@ != "recovery_time_s"@,
        "ingest.peak_backlog"@ != "recovery_time_s"@,
        "ingest_backlog_drain_time_s"@ != "recovery_time_s"@,
        "backlog_drain_time_s"@ != "recovery_time_s"@,
        "ingest.backlog_drain_time_s"@ != "recovery_time_s"@,
        "query_error_rate_overlap"@ != "recovery.time_to_baseline_s"@,
        "query.error_rate_overlap"@ != "recovery.time_to_baseline_s"@,
        "query_p99_ratio"@ != "recovery.time_to_baseline_s"@,
        "p99_degradation_ratio"@ != "recovery.time_to_baseline_s"@,
        "query.p99_ratio"@ != "recovery.time_to_baseline_s"@,
        "ingest_peak_backlog"@ != "recovery.time_to_baseline_s"@,
        "peak_backlog"@ != "recovery.time_to_baseline_s"@,
        "ingest.peak_backlog"@ != "recovery.time_to_baseline_s"@,
        "ingest_backlog_drain_time_s"@ != "recovery.time_to_baseline_s"@,
        "backlog_drain_time_s"@ != "recovery.time_to_baseline_s"@,
        "ingest.backlog_drain_time_s"@ != "recovery.time_to_baseline_s"@,
        "query_error_rate_overlap"@ != "query_baseline_p99"@,
        "query.error_rate_overlap"@ != "query_baseline_p99"@,
        "query_p99_ratio"@ != "query_baseline_p99"@,
        "p99_degradation_ratio"@ != "query_baseline_p99"@,
        "query.p99_ratio"@ != "query_baseline_p99"@,
        "ingest_peak_backlog"@ != "query_baseline_p99"@,
        "peak_backlog"@ != "query_baseline_p99"@,
        "ingest.peak_backlog"@ != "query_baseline_p99"@,
        "ingest_backlog_drain_time_s"@ != "query_baseline_p99"@,
        "backlog_drain_time_s"@ != "query_baseline_p99"@,
        "ingest.backlog_drain_time_s"@ != "query_baseline_p99"@,
        "recovery_time_to_baseline_s"@ != "query_baseline_p99"@,
        "recovery_time_s"@ != "query_baseline_p99"@,
        "recovery.time_to_baseline_s"@ != "query_baseline_p99"@,
        "query_error_rate_overlap"@ != "baseline_p99_ms"@,
        "query.error_rate_overlap"@ != "baseline_p99_ms"@,
        "query_p99_ratio"@ != "baseline_p99_ms"@,
        "p99_degradation_ratio"@ != "baseline_p99_ms"@,
        "query.p99_ratio"@ != "baseline_p99_ms"@,
        "ingest_peak_backlog"@ != "baseline_p99_ms"@,
        "peak_backlog"@ != "baseline_p99_ms"@,
        "ingest.peak_backlog"@ != "baseline_p99_ms"@,
        "ingest_backlog_drain_time_s"@ != "baseline_p99_ms"@,
        "backlog_drain_time_s"@ != "baseline_p99_ms"@,
        "ingest.backlog_drain_time_s"@ != "baseline_p99_ms"@,
        "recovery_time_to_baseline_s"@ != "baseline_p99_ms"@,
        "recovery_time_s"@ != "baseline_p99_ms"@,
        "recovery.time_to_baseline_s"@ != "baseline_p99_ms"@,
        "query_error_rate_overlap"@ != "query.baseline_p99"@,
        "query.error_rate_overlap"@ != "query.baseline_p99"@,
        "query_p99_ratio"@ != "query.baseline_p99"@,
        "p99_degradation_ratio"@ != "query.baseline_p99"@,
        "query.p99_ratio"@ != "query.baseline_p99"@,
        "ingest_peak_backlog"@ != "query.baseline_p99"@,
        "peak_backlog"@ != "query.baseline_p99"@,
        "ingest.peak_backlog"@ != "query.baseline_p99"@,
        "ingest_backlog_drain_time_s"@ != "query.baseline_p99"@,
        "backlog_drain_time_s"@ != "query.baseline_p99"@,
        "ingest.backlog_drain_time_s"@ != "query.baseline_p99"@,
        "recovery_time_to_baseline_s"@ != "query.baseline_p99"@,
        "recovery_time_s"@ != "query.baseline_p99"@,
        "recovery.time_to_baseline_s"@ != "query.baseline_p99"@,
{
    reveal_strlit("query.p99_ratio");
    reveal_strlit("recovery_time_s");
    reveal_strlit("ingest_peak_backlog");
    reveal_strlit("peak_backlog");
    reveal_strlit("ingest.peak_backlog");
    reveal_strlit("ingest_backlog_drain_time_s");
    reveal_strlit("backlog_drain_time_s");
    reveal_strlit("ingest.backlog_drain_time_s");
    reveal_strlit("query_error_rate_overlap");
    reveal_strlit("recovery.time_to_baseline_s");
    reveal_strlit("query.error_rate_overlap");
    reveal_strlit("query_p99_ratio");
    reveal_strlit("p99_degradation_ratio");
    reveal_strlit("query_baseline_p99");
    reveal_strlit("recovery_time_to_baseline_s");
    reveal_strlit("baseline_p99_ms");
    reveal_strlit("query.baseline_p99");
    assert("query.p99_ratio"@[0] != "recovery_time_s"@[0]);
    assert("ingest_peak_backlog"@.len() != "recovery_time_s"@.len());
    assert("peak_backlog"@.len() != "recovery_time_s"@.len());
    assert("ingest.peak_backlog"@.len() != "recovery_time_s"@.len());
    assert("ingest_backlog_drain_time_s"@.len() != "recovery_time_s"@.len());
    assert("backlog_drain_time_s"@.len() != "recovery_time_s"@.len());
    assert("ingest.backlog_drain_time_s"@.len() != "recovery_time_s"@.len());
    assert("query_error_rate_overlap"@.len() != "recovery.time_to_baseline_s"@.len());
    assert("query.error_rate_overlap"@.len() != "recovery.time_to_baseline_s"@.len());
    assert("query_p99_ratio"@.len() != "recovery.time_to_baseline_s"@.len());
    assert("p99_degradation_ratio"@.len() != "recovery.time_to_baseline_s"@.len());
    assert("query.p99_ratio"@.len() != "recovery.time_to_baseline_s"@.len());
    assert("ingest_peak_backlog"@.len() != "recovery.time_to_baseline_s"@.len());
    assert("peak_backlog"@.len() != "recovery.time_to_baseline_s"@.len());
    assert("ingest.peak_backlog"@.len() != "recovery.time_to_baseline_s"@.len());
    assert("ingest_backlog_drain_time_s"@[0] != "recovery.time_to_baseline_s"@[0]);
    assert("backlog_drain_time_s"@.len() != "recovery.time_to_baseline_s"@.len());
    assert("ingest.backlog_drain_time_s"@[0] != "recovery.time_to_baseline_s"@[0]);
    assert("query_error_rate_overlap"@.len() != "query_baseline_p99"@.len());
    assert("query.error_rate_overlap"@.len() != "query_baseline_p99"@.len());
    assert("query_p99_ratio"@.len() != "query_baseline_p99"@.len());
    assert("p99_degradation_ratio"@.len() != "query_baseline_p99"@.len());
    assert("query.p99_ratio"@.len() != "query_baseline_p99"@.len());
    assert("ingest_peak_backlog"@.len() != "query_baseline_p99"@.len());
    assert("peak_backlog"@.len() != "query_baseline_p99"@.len());
    assert("ingest.peak_backlog"@.len() != "query_baseline_p99"@.len());
    assert("ingest_backlog_drain_time_s"@.len() != "query_baseline_p99"@.len());
    assert("backlog_drain_time_s"@.len() != "query_baseline_p99"@.len());
    assert("ingest.backlog_drain_time_s"@.len() != "query_baseline_p99"@.len());
    assert("recovery_time_to_baseline_s"@.len() != "query_baseline_p99"@.len());
    assert("recovery_time_s"@.len() != "query_baseline_p99"@.len());
    assert("recovery.time_to_baseline_s"@.len() != "query_baseline_p99"@.len());
    assert("query_error_rate_overlap"@.len() != "baseline_p99_ms"@.len());
    assert("query.error_rate_overlap"@.len() != "baseline_p99_ms"@.len());
    assert("query_p99_ratio"@[0] != "baseline_p99_ms"@[0]);
    assert("p99_degradation_ratio"@.len() != "baseline_p99_ms"@.len());
    assert("query.p99_ratio"@[0] != "baseline_p99_ms"@[0]);
    assert("ingest_peak_backlog"@.len() != "baseline_p99_ms"@.len());
    assert("peak_backlog"@.len() != "baseline_p99_ms"@.len());
    assert("ingest.peak_backlog"@.len() != "baseline_p99_ms"@.len());
    assert("ingest_backlog_drain_time_s"@.len() != "baseline_p99_ms"@.len());
    assert("backlog_drain_time_s"@.len() != "baseline_p99_ms"@.len());
    assert("ingest.backlog_drain_time_s"@.len() != "baseline_p99_ms"@.len());
    assert("recovery_time_to_baseline_s"@.len() != "baseline_p99_ms"@.len());
    assert("recovery_time_s"@[0] != "baseline_p99_ms"@[0]);
    assert("recovery.time_to_baseline_s"@.len() != "baseline_p99_ms"@.len());
    assert("query_error_rate_overlap"@.len() != "query.baseline_p99"@.len());
    assert("query.error_rate_overlap"@.len() != "query.baseline_p99"@.len());
    assert("query_p99_ratio"@.len() != "query.baseline_p99"@.len());
    assert("p99_degradation_ratio"@.len() != "query.baseline_p99"@.len());
    assert("query.p99_ratio"@.len() != "query.baseline_p99"@.len());
    assert("ingest_peak_backlog"@.len() != "query.baseline_p99"@.len());
    assert("peak_backlog"@.len() != "query.baseline_p99"@.len());
    assert("ingest.peak_backlog"@.len() != "query.baseline_p99"@.len());
    assert("ingest_backlog_drain_time_s"@.len() != "query.baseline_p99"@.len());
    assert("backlog_drain_time_s"@.len() != "query.baseline_p99"@.len());
    assert("ingest.backlog_drain_time_s"@.len() != "query.baseline_p99"@.len());
    assert("recovery_time_to_baseline_s"@.len() != "query.baseline_p99"@.len());
    assert("recovery_time_s"@.len() != "query.baseline_p99"@.len());
    assert("recovery.time_to_baseline_s"@.len() != "query.baseline_p99"@.len());
}

proof fn names_differ_c()
    ensures
        "query_error_rate_overlap"@ != "query_overlap_p99"@,
        "query.error_rate_overlap"@ != "query_overlap_p99"@,
        "query_p99_ratio"@ != "query_overlap_p99"@,
        "p99_degradation_ratio"@ != "query_overlap_p99"@,
        "query.p99_ratio"@ != "query_overlap_p99"@,
        "ingest_peak_backlog"@ != "query_overlap_p99"@,
        "peak_backlog"@ != "query_overlap_p99"@,
        "ingest.peak_backlog"@ != "query_overlap_p99"@,
        "ingest_backlog_drain_time_s"@ != "query_overlap_p99"@,
        "backlog_drain_time_s"@ != "query_overlap_p99"@,
        "ingest.backlog_drain_time_s"@ != "query_overlap_p99"@,
        "recovery_time_to_baseline_s"@ != "query_overlap_p99"@,
        "recovery_time_s"@ != "query_overlap_p99"@,
        "recovery.time_to_baseline_s"@ != "query_overlap_p99"@,
        "query_baseline_p99"@ != "query_overlap_p99"@,
        "baseline_p99_ms"@ != "query_overlap_p99"@,
        "query.baseline_p99"@ != "query_overlap_p99"@,
        "query_error_rate_overlap"@ != "overlap_p99_ms"@,
        "query.error_rate_overlap"@ != "overlap_p99_ms"@,
        "query_p99_ratio"@ != "overlap_p99_ms"@,
        "p99_degradation_ratio"@ != "overlap_p99_ms"@,
        "query.p99_ratio"@ != "overlap_p99_ms"@,
        "ingest_peak_backlog"@ != "overlap_p99_ms"@,
        "peak_backlog"@ != "overlap_p99_ms"@,
        "ingest.peak_backlog"@ != "overlap_p99_ms"@,
        "ingest_backlog_drain_time_s"@ != "overlap_p99_ms"@,
        "backlog_drain_time_s"@ != "overlap_p99_ms"@,
        "ingest.backlog_drain_time_s"@ != "overlap_p99_ms"@,
        "recovery_time_to_baseline_s"@ != "overlap_p99_ms"@,
        "recovery_time_s"@ != "overlap_p99_ms"@,
        "recovery.time_to_baseline_s"@ != "overlap_p99_ms"@,
        "query_baseline_p99"@ != "overlap_p99_ms"@,
        "baseline_p99_ms"@ != "overlap_p99_ms"@,
        "query.baseline_p99"@ != "overlap_p99_ms"@,
        "query_error_rate_overlap"@ != "query.overlap_p99"@,
        "query.error_rate_overlap"@ != "query.overlap_p99"@,
        "query_p99_ratio"@ != "query.overlap_p99"@,
        "p99_degradation_ratio"@ != "query.overlap_p99"@,
        "query.p99_ratio"@ != "query.overlap_p99"@,
        "ingest_peak_backlog"@ != "query.overlap_p99"@,
        "peak_backlog"@ != "query.overlap_p99"@,
        "ingest.peak_backlog"@ != "query.overlap_p99"@,
        "ingest_backlog_drain_time_s"@ != "query.overlap_p99"@,
        "backlog_drain_time_s"@ != "query.overlap_p99"@,
        "ingest.backlog_drain_time_s"@ != "query.overlap_p99"@,
        "recovery_time_to_baseline_s"@ != "query.overlap_p99"@,
        "recovery_time_s"@ != "query.overlap_p99"@,
        "recovery.time_to_baseline_s"@ != "query.overlap_p99"@,
        "query_baseline_p99"@ != "query.overlap_p99"@,
        "baseline_p99_ms"@ != "query.overlap_p99"@,
        "query.baseline_p99"@ != "query.overlap_p99"@,
        "query_error_rate_overlap"@ != "query_throughput_ratio"@,
        "query.error_rate_overlap"@ != "query_throughput_ratio"@,
        "query_p99_ratio"@ != "query_throughput_ratio"@,
        "p99_degradation_ratio"@ != "query_throughput_ratio"@,
        "query.p99_ratio"@ != "query_throughput_ratio"@,
        "ingest_peak_backlog"@ != "query_throughput_ratio"@,
        "peak_backlog"@ != "query_throughput_ratio"@,
        "ingest.peak_backlog"@ != "query_throughput_ratio"@,
        "ingest_backlog_drain_time_s"@ != "query_throughput_ratio"@,
{
    reveal_strlit("query_error_rate_overlap");
    reveal_strlit("query_overlap_p99");
    reveal_strlit("query.error_rate_overlap");
    reveal_strlit("query_p99_ratio");
    reveal_strlit("p99_degradation_ratio");
    reveal_strlit("query.p99_ratio");
    reveal_strlit("ingest_peak_backlog");
    reveal_strlit("peak_backlog");
    reveal_strlit("ingest.peak_backlog");
    reveal_strlit("ingest_backlog_drain_time_s");
    reveal_strlit("backlog_drain_time_s");
    reveal_strlit("ingest.backlog_drain_time_s");
    reveal_strlit("recovery_time_to_baseline_s");
    reveal_strlit("recovery_time_s");
    reveal_strlit("recovery.time_to_baseline_s");
    reveal_strlit("query_baseline_p99");
    reveal_strlit("baseline_p99_ms");
    reveal_strlit("query.baseline_p99");
    reveal_strlit("overlap_p99_ms");
    reveal_strlit("query.overlap_p99");
    reveal_strlit("query_throughput_ratio");
    assert("query_error_rate_overlap"@.len() != "query_overlap_p99"@.len());
    assert("query.error_rate_overlap"@.len() != "query_overlap_p99"@.len());
    assert("query_p99_ratio"@.len() != "query_overlap_p99"@.len());
    assert("p99_degradation_ratio"@.len() != "query_overlap_p99"@.len());
    assert("query.p99_ratio"@.len() != "query_overlap_p99"@.len());
    assert("ingest_peak_backlog"@.len() != "query_overlap_p99"@.len());
    assert("peak_backlog"@.len() != "query_overlap_p99"@.len());
    assert("ingest.peak_backlog"@.len() != "query_overlap_p99"@.len());
    assert("ingest_backlog_drain_time_s"@.len() != "query_overlap_p99"@.len());
    assert("backlog_drain_time_s"@.len() != "query_overlap_p99"@.len());
    assert("ingest.backlog_drain_time_s"@.len() != "query_overlap_p99"@.len());
    assert("recovery_time_to_baseline_s"@.len() != "query_overlap_p99"@.len());
    assert("recovery_time_s"@.len() != "query_overlap_p99"@.len());
    assert("recovery.time_to_baseline_s"@.len() != "query_overlap_p99"@.len());
    assert("query_baseline_p99"@.len() != "query_overlap_p99"@.len());
    assert("baseline_p99_ms"@.len() != "query_overlap_p99"@.len());
    assert("query.baseline_p99"@.len() != "query_overlap_p99"@.len());
    assert("query_error_rate_overlap"@.len() != "overlap_p99_ms"@.len());
    assert("query.error_rate_overlap"@.len() != "overlap_p99_ms"@.len());
    assert("query_p99_ratio"@.len() != "overlap_p99_ms"@.len());
    assert("p99_degradation_ratio"@.len() != "overlap_p99_ms"@.len());
    assert("query.p99_ratio"@.len() != "overlap_p99_ms"@.len());
    assert("ingest_peak_backlog"@.len() != "overlap_p99_ms"@.len());
    assert("peak_backlog"@.len() != "overlap_p99_ms"@.len());
    assert("ingest.peak_backlog"@.len() != "overlap_p99_ms"@.len());
    assert("ingest_backlog_drain_time_s"@.len() != "overlap_p99_ms"@.len());
    assert("backlog_drain_time_s"@.len() != "overlap_p99_ms"@.len());
    assert("ingest.backlog_drain_time_s"@.len() != "overlap_p99_ms"@.len());
    assert("recovery_time_to_baseline_s"@.len() != "overlap_p99_ms"@.len());
    assert("recovery_time_s"@.len() != "overlap_p99_ms"@.len());
    assert("recovery.time_to_baseline_s"@.len() != "overlap_p99_ms"@.len());
    assert("query_baseline_p99"@.len() != "overlap_p99_ms"@.len());
    assert("baseline_p99_ms"@.len() != "overlap_p99_ms"@.len());
    assert("query.baseline_p99"@.len() != "overlap_p99_ms"@.len());
    assert("query_error_rate_overlap"@.len() != "query.overlap_p99"@.len());
    assert("query.error_rate_overlap"@.len() != "query.overlap_p99"@.len());
    assert("query_p99_ratio"@.len() != "query.overlap_p99"@.len());
    assert("p99_degradation_ratio"@.len() != "query.overlap_p99"@.len());
    assert("query.p99_ratio"@.len() != "query.overlap_p99"@.len());
    assert("ingest_peak_backlog"@.len() != "query.overlap_p99"@.len());
    assert("peak_backlog"@.len() != "query.overlap_p99"@.len());
    assert("ingest.peak_backlog"@.len() != "query.overlap_p99"@.len());
    assert("ingest_backlog_drain_time_s"@.len() != "query.overlap_p99"@.len());
    assert("backlog_drain_time_s"@.len() != "query.overlap_p99"@.len());
    assert("ingest.backlog_drain_time_s"@.len() != "query.overlap_p99"@.len());
    assert("recovery_time_to_baseline_s"@.len() != "query.overlap_p99"@.len());
    assert("recovery_time_s"@.len() != "query.overlap_p99"@.len());
    assert("recovery.time_to_baseline_s"@.len() != "query.overlap_p99"@.len());
    assert("query_baseline_p99"@.len() != "query.overlap_p99"@.len());
    assert("baseline_p99_ms"@.len() != "query.overlap_p99"@.len());
    assert("query.baseline_p99"@.len() != "query.overlap_p99"@.len());
    assert("query_error_rate_overlap"@.len() != "query_throughput_ratio"@.len());
    assert("query.error_rate_overlap"@.len() != "query_throughput_ratio"@.len());
    assert("query_p99_ratio"@.len() != "query_throughput_ratio"@.len());
    assert("p99_degradation_ratio"@.len() != "query_throughput_ratio"@.len());
    assert("query.p99_ratio"@.len() != "query_throughput_ratio"@.len());
    assert("ingest_peak_backlog"@.len() != "query_throughput_ratio"@.len());
    assert("peak_backlog"@.len() != "query_throughput_ratio"@.len());
    assert("ingest.peak_backlog"@.len() != "query_throughput_ratio"@.len());
    assert("ingest_backlog_drain_time_s"@.len() != "query_throughput_ratio"@.len());
}

proof fn names_differ_d()
    ensures
        "backlog_drain_time_s"@ != "query_throughput_ratio"@,
        "ingest.backlog_drain_time_s"@ != "query_throughput_ratio"@,
        "recovery_time_to_baseline_s"@ != "query_throughput_ratio"@,
        "recovery_time_s"@ != "query_throughput_ratio"@,
        "recovery.time_to_baseline_s"@ != "query_throughput_ratio"@,
        "query_baseline_p99"@ != "query_throughput_ratio"@,
        "baseline_p99_ms"@ != "query_throughput_ratio"@,
        "query.baseline_p99"@ != "query_throughput_ratio"@,
        "query_overlap_p99"@ != "query_throughput_ratio"@,
        "overlap_p99_ms"@ != "query_throughput_ratio"@,
        "query.overlap_p99"@ != "query_throughput_ratio"@,
        "query_error_rate_overlap"@ != "query.throughput_ratio"@,
        "query.error_rate_overlap"@ != "query.throughput_ratio"@,
        "query_p99_ratio"@ != "query.throughput_ratio"@,
        "p99_degradation_ratio"@ != "query.throughput_ratio"@,
        "query.p99_ratio"@ != "query.throughput_ratio"@,
        "ingest_peak_backlog"@ != "query.throughput_ratio"@,
        "peak_backlog"@ != "query.throughput_ratio"@,
        "ingest.peak_backlog"@ != "query.throughput_ratio"@,
        "ingest_backlog_drain_time_s"@ != "query.throughput_ratio"@,
        "backlog_drain_time_s"@ != "query.throughput_ratio"@,
        "ingest.backlog_drain_time_s"@ != "query.throughput_ratio"@,
        "recovery_time_to_baseline_s"@ != "query.throughput_ratio"@,
        "recovery_time_s"@ != "query.throughput_ratio"@,
        "recovery.time_to_baseline_s"@ != "query.throughput_ratio"@,
        "query_baseline_p99"@ != "query.throughput_ratio"@,
        "baseline_p99_ms"@ != "query.throughput_ratio"@,
        "query.baseline_p99"@ != "query.throughput_ratio"@,
        "query_overlap_p99"@ != "query.throughput_ratio"@,
        "overlap_p99_ms"@ != "query.throughput_ratio"@,
        "query.overlap_p99"@ != "query.throughput_ratio"@,
        "query_error_rate_overlap"@ != "ingest_throughput_ratio"@,
        "query.error_rate_overlap"@ != "ingest_throughput_ratio"@,
        "query_p99_ratio"@ != "ingest_throughput_ratio"@,
        "p99_degradation_ratio"@ != "ingest_throughput_ratio"@,
        "query.p99_ratio"@ != "ingest_throughput_ratio"@,
        "ingest_peak_backlog"@ != "ingest_throughput_ratio"@,
        "peak_backlog"@ != "ingest_throughput_ratio"@,
        "ingest.peak_backlog"@ != "ingest_throughput_ratio"@,
        "ingest_backlog_drain_time_s"@ != "ingest_throughput_ratio"@,
        "backlog_drain_time_s"@ != "ingest_throughput_ratio"@,
        "ingest.backlog_drain_time_s"@ != "ingest_throughput_ratio"@,
        "recovery_time_to_baseline_s"@ != "ingest_throughput_ratio"@,
        "recovery_time_s"@ != "ingest_throughput_ratio"@,
        "recovery.time_to_baseline_s"@ != "ingest_throughput_ratio"@,
        "query_baseline_p99"@ != "ingest_throughput_ratio"@,
        "baseline_p99_ms"@ != "ingest_throughput_ratio"@,
        "query.baseline_p99"@ != "ingest_throughput_ratio"@,
        "query_overlap_p99"@ != "ingest_throughput_ratio"@,
        "overlap_p99_ms"@ != "ingest_throughput_ratio"@,
        "query.overlap_p99"@ != "ingest_throughput_ratio"@,
        "query_throughput_ratio"@ != "ingest_throughput_ratio"@,
        "query.throughput_ratio"@ != "ingest_throughput_ratio"@,
        "query_error_rate_overlap"@ != "ingest.throughput_ratio"@,
        "query.error_rate_overlap"@ != "ingest.throughput_ratio"@,
        "query_p99_ratio"@ != "ingest.throughput_ratio"@,
        "p99_degradation_ratio"@ != "ingest.throughput_ratio"@,
        "query.p99_ratio"@ != "ingest.throughput_ratio"@,
        "ingest_peak_backlog"@ != "ingest.throughput_ratio"@,
        "peak_backlog"@ != "ingest.throughput_ratio"@,
{
    reveal_strlit("backlog_drain_time_s");
    reveal_strlit("query_throughput_ratio");
    reveal_strlit("ingest.backlog_drain_time_s");
    reveal_strlit("recovery_time_to_baseline_s");
    reveal_strlit("recovery_time_s");
    reveal_strlit("recovery.time_to_baseline_s");
    reveal_strlit("query_baseline_p99");
    reveal_strlit("baseline_p99_ms");
    reveal_strlit("query.baseline_p99");
    reveal_strlit("query_overlap_p99");
    reveal_strlit("overlap_p99_ms");
    reveal_strlit("query.overlap_p99");
    reveal_strlit("query_error_rate_overlap");
    reveal_strlit("query.throughput_ratio");
    reveal_strlit("query.error_rate_overlap");
    reveal_strlit("query_p99_ratio");
    reveal_strlit("p99_degradation_ratio");
    reveal_strlit("query.p99_ratio");
    reveal_strlit("ingest_peak_backlog");
    reveal_strlit("peak_backlog");
    reveal_strlit("ingest.peak_backlog");
    reveal_strlit("ingest_backlog_drain_time_s");
    reveal_strlit("ingest_throughput_ratio");
    reveal_strlit("ingest.throughput_ratio");
    assert("backlog_drain_time_s"@.len() != "query_throughput_ratio"@.len());
    assert("ingest.backlog_drain_time_s"@.len() != "query_throughput_ratio"@.len());
    assert("recovery_time_to_baseline_s"@.len() != "query_throughput_ratio"@.len());
    assert("recovery_time_s"@.len() != "query_throughput_ratio"@.len());
    assert("recovery.time_to_baseline_s"@.len() != "query_throughput_ratio"@.len());
    assert("query_baseline_p99"@.len() != "query_throughput_ratio"@.len());
    assert("baseline_p99_ms"@.len() != "query_throughput_ratio"@.len());
    assert("query.baseline_p99"@.len() != "query_throughput_ratio"@.len());
    assert("query_overlap_p99"@.len() != "query_throughput_ratio"@.len());
    assert("overlap_p99_ms"@.len() != "query_throughput_ratio"@.len());
    assert("query.overlap_p99"@.len() != "query_throughput_ratio"@.len());
    assert("query_error_rate_overlap"@.len() != "query.throughput_ratio"@.len());
    assert("query.error_rate_overlap"@.len() != "query.throughput_ratio"@.len());
    assert("query_p99_ratio"@.len() != "query.throughput_ratio"@.len());
    assert("p99_degradation_ratio"@.len() != "query.throughput_ratio"@.len());
    assert("query.p99_ratio"@.len() != "query.throughput_ratio"@.len());
    assert("ingest_peak_backlog"@.len() != "query.throughput_ratio"@.len());
    assert("peak_backlog"@.len() != "query.throughput_ratio"@.len());
    assert("ingest.peak_backlog"@.len() != "query.throughput_ratio"@.len());
    assert("ingest_backlog_drain_time_s"@.len() != "query.throughput_ratio"@.len());
    assert("backlog_drain_time_s"@.len() != "query.throughput_ratio"@.len());
    assert("ingest.backlog_drain_time_s"@.len() != "query.throughput_ratio"@.len());
    assert("recovery_time_to_baseline_s"@.len() != "query.throughput_ratio"@.len());
    assert("recovery_time_s"@.len() != "query.throughput_ratio"@.len());
    assert("recovery.time_to_baseline_s"@.len() != "query.throughput_ratio"@.len());
    assert("query_baseline_p99"@.len() != "query.throughput_ratio"@.len());
    assert("baseline_p99_ms"@.len() != "query.throughput_ratio"@.len());
    assert("query.baseline_p99"@.len() != "query.throughput_ratio"@.len());
    assert("query_overlap_p99"@.len() != "query.throughput_ratio"@.len());
    assert("overlap_p99_ms"@.len() != "query.throughput_ratio"@.len());
    assert("query.overlap_p99"@.len() != "query.throughput_ratio"@.len());
    assert("query_error_rate_overlap"@.len() != "ingest_throughput_ratio"@.len());
    assert("query.error_rate_overlap"@.len() != "ingest_throughput_ratio"@.len());
    assert("query_p99_ratio"@.len() != "ingest_throughput_ratio"@.len());
    assert("p99_degradation_ratio"@.len() != "ingest_throughput_ratio"@.len());
    assert("query.p99_ratio"@.len() != "ingest_throughput_ratio"@.len());
    assert("ingest_peak_backlog"@.len() != "ingest_throughput_ratio"@.len());
    assert("peak_backlog"@.len() != "ingest_throughput_ratio"@.len());
    assert("ingest.peak_backlog"@.len() != "ingest_throughput_ratio"@.len());
    assert("ingest_backlog_drain_time_s"@.len() != "ingest_throughput_ratio"@.len());
    assert("backlog_drain_time_s"@.len() != "ingest_throughput_ratio"@.len());
    assert("ingest.backlog_drain_time_s"@.len() != "ingest_throughput_ratio"@.len());
    assert("recovery_time_to_baseline_s"@.len() != "ingest_throughput_ratio"@.len());
    assert("recovery_time_s"@.len() != "ingest_throughput_ratio"@.len());
    assert("recovery.time_to_baseline_s"@.len() != "ingest_throughput_ratio"@.len());
    assert("query_baseline_p99"@.len() != "ingest_throughput_ratio"@.len());
    assert("baseline_p99_ms"@.len() != "ingest_throughput_ratio"@.len());
    assert("query.baseline_p99"@.len() != "ingest_throughput_ratio"@.len());
    assert("query_overlap_p99"@.len() != "ingest_throughput_ratio"@.len());
    assert("overlap_p99_ms"@.len() != "ingest_throughput_ratio"@.len());
    assert("query.overlap_p99"@.len() != "ingest_throughput_ratio"@.len());
    assert("query_throughput_ratio"@.len() != "ingest_throughput_ratio"@.len());
    assert("query.throughput_ratio"@.len() != "ingest_throughput_ratio"@.len());
    assert("query_error_rate_overlap"@.len() != "ingest.throughput_ratio"@.len());
    assert("query.error_rate_overlap"@.len() != "ingest.throughput_ratio"@.len());
    assert("query_p99_ratio"@.len() != "ingest.throughput_ratio"@.len());
    assert("p99_degradation_ratio"@.len() != "ingest.throughput_ratio"@.len());
    assert("query.p99_ratio"@.len() != "ingest.throughput_ratio"@.len());
    assert("ingest_peak_backlog"@.len() != "ingest.throughput_ratio"@.len());
    assert("peak_backlog"@.len() != "ingest.throughput_ratio"@.len());
}

proof fn names_differ_e()
    ensures
        "ingest.peak_backlog"@ != "ingest.throughput_ratio"@,
        "ingest_backlog_drain_time_s"@ != "ingest.throughput_ratio"@,
        "backlog_drain_time_s"@ != "ingest.throughput_ratio"@,
        "ingest.backlog_drain_time_s"@ != "ingest.throughput_ratio"@,
        "recovery_time_to_baseline_s"@ != "ingest.throughput_ratio"@,
        "recovery_time_s"@ != "ingest.throughput_ratio"@,
        "recovery.time_to_baseline_s"@ != "ingest.throughput_ratio"@,
        "query_baseline_p99"@ != "ingest.throughput_ratio"@,
        "baseline_p99_ms"@ != "ingest.throughput_ratio"@,
        "query.baseline_p99"@ != "ingest.throughput_ratio"@,
        "query_overlap_p99"@ != "ingest.throughput_ratio"@,
        "overlap_p99_ms"@ != "ingest.throughput_ratio"@,
        "query.overlap_p99"@ != "ingest.throughput_ratio"@,
        "query_throughput_ratio"@ != "ingest.throughput_ratio"@,
        "query.throughput_ratio"@ != "ingest.throughput_ratio"@,
        "query_error_rate_overlap"@ != "query.baseline_p50"@,
        "query.error_rate_overlap"@ != "query.baseline_p50"@,
        "query_p99_ratio"@ != "query.baseline_p50"@,
        "p99_degradation_ratio"@ != "query.baseline_p50"@,
        "query.p99_ratio"@ != "query.baseline_p50"@,
        "ingest_peak_backlog"@ != "query.baseline_p50"@,
        "peak_backlog"@ != "query.baseline_p50"@,
        "ingest.peak_backlog"@ != "query.baseline_p50"@,
        "ingest_backlog_drain_time_s"@ != "query.baseline_p50"@,
        "backlog_drain_time_s"@ != "query.baseline_p50"@,
        "ingest.backlog_drain_time_s"@ != "query.baseline_p50"@,
        "recovery_time_to_baseline_s"@ != "query.baseline_p50"@,
        "recovery_time_s"@ != "query.baseline_p50"@,
        "recovery.time_to_baseline_s"@ != "query.baseline_p50"@,
        "query_baseline_p99"@ != "query.baseline_p50"@,
        "baseline_p99_ms"@ != "query.baseline_p50"@,
        "query.baseline_p99"@ != "query.baseline_p50"@,
        "query_overlap_p99"@ != "query.baseline_p50"@,
        "overlap_p99_ms"@ != "query.baseline_p50"@,
        "query.overlap_p99"@ != "query.baseline_p50"@,
        "query_throughput_ratio"@ != "query.baseline_p50"@,
        "query.throughput_ratio"@ != "query.baseline_p50"@,
        "ingest_throughput_ratio"@ != "query.baseline_p50"@,
        "ingest.throughput_ratio"@ != "query.baseline_p50"@,
        "query_error_rate_overlap"@ != "query.overlap_p50"@,
        "query.error_rate_overlap"@ != "query.overlap_p50"@,
        "query_p99_ratio"@ != "query.overlap_p50"@,
        "p99_degradation_ratio"@ != "query.overlap_p50"@,
        "query.p99_ratio"@ != "query.overlap_p50"@,
        "ingest_peak_backlog"@ != "query.overlap_p50"@,
        "peak_backlog"@ != "query.overlap_p50"@,
        "ingest.peak_backlog"@ != "query.overlap_p50"@,
        "ingest_backlog_drain_time_s"@ != "query.overlap_p50"@,
        "backlog_drain_time_s"@ != "query.overlap_p50"@,
        "ingest.backlog_drain_time_s"@ != "query.overlap_p50"@,
        "recovery_time_to_baseline_s"@ != "query.overlap_p50"@,
        "recovery_time_s"@ != "query.overlap_p50"@,
        "recovery.time_to_baseline_s"@ != "query.overlap_p50"@,
        "query_baseline_p99"@ != "query.overlap_p50"@,
        "baseline_p99_ms"@ != "query.overlap_p50"@,
        "query.baseline_p99"@ != "query.overlap_p50"@,
        "query_overlap_p99"@ != "query.overlap_p50"@,
        "overlap_p99_ms"@ != "query.overlap_p50"@,
        "query.overlap_p99"@ != "query.overlap_p50"@,
        "query_throughput_ratio"@ != "query.overlap_p50"@,
{
    reveal_strlit("ingest.peak_backlog");
    reveal_strlit("ingest.throughput_ratio");
    reveal_strlit("ingest_backlog_drain_time_s");
    reveal_strlit("backlog_drain_time_s");
    reveal_strlit("ingest.backlog_drain_time_s");
    reveal_strlit("recovery_time_to_baseline_s");
    reveal_strlit("recovery_time_s");
    reveal_strlit("recovery.time_to_baseline_s");
    reveal_strlit("query_baseline_p99");
    reveal_strlit("baseline_p99_ms");
    reveal_strlit("query.baseline_p99");
    reveal_strlit("query_overlap_p99");
    reveal_strlit("overlap_p99_ms");
    reveal_strlit("query.overlap_p99");
    reveal_strlit("query_throughput_ratio");
    reveal_strlit("query.throughput_ratio");
    reveal_strlit("query_error_rate_overlap");
    reveal_strlit("query.baseline_p50");
    reveal_strlit("query.error_rate_overlap");
    reveal_strlit("query_p99_ratio");
    reveal_strlit("p99_degradation_ratio");
    reveal_strlit("query.p99_ratio");
    reveal_strlit("ingest_peak_backlog");
    reveal_strlit("peak_backlog");
    reveal_strlit("ingest_throughput_ratio");
    reveal_strlit("query.overlap_p50");
    assert("ingest.peak_backlog"@.len() != "ingest.throughput_ratio"@.len());
    assert("ingest_backlog_drain_time_s"@.len() != "ingest.throughput_ratio"@.len());
    assert("backlog_drain_time_s"@.len() != "ingest.throughput_ratio"@.len());
    assert("ingest.backlog_drain_time_s"@.len() != "ingest.throughput_ratio"@.len());
    assert("recovery_time_to_baseline_s"@.len() != "ingest.throughput_ratio"@.len());
    assert("recovery_time_s"@.len() != "ingest.throughput_ratio"@.len());
    assert("recovery.time_to_baseline_s"@.len() != "ingest.throughput_ratio"@.len());
    assert("query_baseline_p99"@.len() != "ingest.throughput_ratio"@.len());
    assert("baseline_p99_ms"@.len() != "ingest.throughput_ratio"@.len());
    assert("query.baseline_p99"@.len() != "ingest.throughput_ratio"@.len());
    assert("query_overlap_p99"@.len() != "ingest.throughput_ratio"@.len());
    assert("overlap_p99_ms"@.len() != "ingest.throughput_ratio"@.len());
    assert("query.overlap_p99"@.len() != "ingest.throughput_ratio"@.len());
    assert("query_throughput_ratio"@.len() != "ingest.throughput_ratio"@.len());
    assert("query.throughput_ratio"@.len() != "ingest.throughput_ratio"@.len());
    assert("query_error_rate_overlap"@.len() != "query.baseline_p50"@.len());
    assert("query.error_rate_overlap"@.len() != "query.baseline_p50"@.len());
    assert("query_p99_ratio"@.len() != "query.baseline_p50"@.len());
    assert("p99_degradation_ratio"@.len() != "query.baseline_p50"@.len());
    assert("query.p99_ratio"@.len() != "query.baseline_p50"@.len());
    assert("ingest_peak_backlog"@.len() != "query.baseline_p50"@.len());
    assert("peak_backlog"@.len() != "query.baseline_p50"@.len());
    assert("ingest.peak_backlog"@.len() != "query.baseline_p50"@.len());
    assert("ingest_backlog_drain_time_s"@.len() != "query.baseline_p50"@.len());
    assert("backlog_drain_time_s"@.len() != "query.baseline_p50"@.len());
    assert("ingest.backlog_drain_time_s"@.len() != "query.baseline_p50"@.len());
    assert("recovery_time_to_baseline_s"@.len() != "query.baseline_p50"@.len());
    assert("recovery_time_s"@.len() != "query.baseline_p50"@.len());
    assert("recovery.time_to_baseline_s"@.len() != "query.baseline_p50"@.len());
    assert("query_baseline_p99"@[5] != "query.baseline_p50"@[5]);
    assert("baseline_p99_ms"@.len() != "query.baseline_p50"@.len());
    assert("query.baseline_p99"@[16] != "query.baseline_p50"@[16]);
    assert("query_overlap_p99"@.len() != "query.baseline_p50"@.len());
    assert("overlap_p99_ms"@.len() != "query.baseline_p50"@.len());
    assert("query.overlap_p99"@.len() != "query.baseline_p50"@.len());
    assert("query_throughput_ratio"@.len() != "query.baseline_p50"@.len());
    assert("query.throughput_ratio"@.len() != "query.baseline_p50"@.len());
    assert("ingest_throughput_ratio"@.len() != "query.baseline_p50"@.len());
    assert("ingest.throughput_ratio"@.len() != "query.baseline_p50"@.len());
    assert("query_error_rate_overlap"@.len() != "query.overlap_p50"@.len());
    assert("query.error_rate_overlap"@.len() != "query.overlap_p50"@.len());
    assert("query_p99_ratio"@.len() != "query.overlap_p50"@.len());
    assert("p99_degradation_ratio"@.len() != "query.overlap_p50"@.len());
    assert("query.p99_ratio"@.len() != "query.overlap_p50"@.len());
    assert("ingest_peak_backlog"@.len() != "query.overlap_p50"@.len());
    assert("peak_backlog"@.len() != "query.overlap_p50"@.len());
    assert("ingest.peak_backlog"@.len() != "query.overlap_p50"@.len());
    assert("ingest_backlog_drain_time_s"@.len() != "query.overlap_p50"@.len());
    assert("backlog_drain_time_s"@.len() != "query.overlap_p50"@.len());
    assert("ingest.backlog_drain_time_s"@.len() != "query.overlap_p50"@.len());
    assert("recovery_time_to_baseline_s"@.len() != "query.overlap_p50"@.len());
    assert("recovery_time_s"@.len() != "query.overlap_p50"@.len());
    assert("recovery.time_to_baseline_s"@.len() != "query.overlap_p50"@.len());
    assert("query_baseline_p99"@.len() != "query.overlap_p50"@.len());
    assert("baseline_p99_ms"@.len() != "query.overlap_p50"@.len());
    assert("query.baseline_p99"@.len() != "query.overlap_p50"@.len());
    assert("query_overlap_p99"@[5] != "query.overlap_p50"@[5]);
    assert("overlap_p99_ms"@.len() != "query.overlap_p50"@.len());
    assert("query.overlap_p99"@[15] != "query.overlap_p50"@[15]);
    assert("query_throughput_ratio"@.len() != "query.overlap_p50"@.len());
}

proof fn names_differ_f()
    ensures
        "query.throughput_ratio"@ != "query.overlap_p50"@,
        "ingest_throughput_ratio"@ != "query.overlap_p50"@,
        "ingest.throughput_ratio"@ != "query.overlap_p50"@,
        "query.baseline_p50"@ != "query.overlap_p50"@,
        "query_error_rate_overlap"@ != "query.total_executed"@,
        "query.error_rate_overlap"@ != "query.total_executed"@,
        "query_p99_ratio"@ != "query.total_executed"@,
        "p99_degradation_ratio"@ != "query.total_executed"@,
        "query.p99_ratio"@ != "query.total_executed"@,
        "ingest_peak_backlog"@ != "query.total_executed"@,
        "peak_backlog"@ != "query.total_executed"@,
        "ingest.peak_backlog"@ != "query.total_executed"@,
        "ingest_backlog_drain_time_s"@ != "query.total_executed"@,
        "backlog_drain_time_s"@ != "query.total_executed"@,
        "ingest.backlog_drain_time_s"@ != "query.total_executed"@,
        "recovery_time_to_baseline_s"@ != "query.total_executed"@,
        "recovery_time_s"@ != "query.total_executed"@,
        "recovery.time_to_baseline_s"@ != "query.total_executed"@,
        "query_baseline_p99"@ != "query.total_executed"@,
        "baseline_p99_ms"@ != "query.total_executed"@,
        "query.baseline_p99"@ != "query.total_executed"@,
        "query_overlap_p99"@ != "query.total_executed"@,
        "overlap_p99_ms"@ != "query.total_executed"@,
        "query.overlap_p99"@ != "query.total_executed"@,
        "query_throughput_ratio"@ != "query.total_executed"@,
        "query.throughput_ratio"@ != "query.total_executed"@,
        "ingest_throughput_ratio"@ != "query.total_executed"@,
        "ingest.throughput_ratio"@ != "query.total_executed"@,
        "query.baseline_p50"@ != "query.total_executed"@,
        "query.overlap_p50"@ != "query.total_executed"@,
        "query_error_rate_overlap"@ != "ingest.baseline_eps"@,
        "query.error_rate_overlap"@ != "ingest.baseline_eps"@,
        "query_p99_ratio"@ != "ingest.baseline_eps"@,
        "p99_degradation_ratio"@ != "ingest.baseline_eps"@,
        "query.p99_ratio"@ != "ingest.baseline_eps"@,
        "ingest_peak_backlog"@ != "ingest.baseline_eps"@,
        "peak_backlog"@ != "ingest.baseline_eps"@,
        "ingest.peak_backlog"@ != "ingest.baseline_eps"@,
        "ingest_backlog_drain_time_s"@ != "ingest.baseline_eps"@,
        "backlog_drain_time_s"@ != "ingest.baseline_eps"@,
        "ingest.backlog_drain_time_s"@ != "ingest.baseline_eps"@,
        "recovery_time_to_baseline_s"@ != "ingest.baseline_eps"@,
        "recovery_time_s"@ != "ingest.baseline_eps"@,
        "recovery.time_to_baseline_s"@ != "ingest.baseline_eps"@,
        "query_baseline_p99"@ != "ingest.baseline_eps"@,
        "baseline_p99_ms"@ != "ingest.baseline_eps"@,
        "query.baseline_p99"@ != "ingest.baseline_eps"@,
        "query_overlap_p99"@ != "ingest.baseline_eps"@,
        "overlap_p99_ms"@ != "ingest.baseline_eps"@,
        "query.overlap_p99"@ != "ingest.baseline_eps"@,
        "query_throughput_ratio"@ != "ingest.baseline_eps"@,
        "query.throughput_ratio"@ != "ingest.baseline_eps"@,
        "ingest_throughput_ratio"@ != "ingest.baseline_eps"@,
        "ingest.throughput_ratio"@ != "ingest.baseline_eps"@,
        "query.baseline_p50"@ != "ingest.baseline_eps"@,
        "query.overlap_p50"@ != "ingest.baseline_eps"@,
        "query.total_executed"@ != "ingest.baseline_eps"@,
        "query_error_rate_overlap"@ != "ingest.peak_eps"@,
        "query.error_rate_overlap"@ != "ingest.peak_eps"@,
        "query_p99_ratio"@ != "ingest.peak_eps"@,
{
    reveal_strlit("query.throughput_ratio");
    reveal_strlit("query.overlap_p50");
    reveal_strlit("ingest_throughput_ratio");
    reveal_strlit("ingest.throughput_ratio");
    reveal_strlit("query.baseline_p50");
    reveal_strlit("query_error_rate_overlap");
    reveal_strlit("query.total_executed");
    reveal_strlit("query.error_rate_overlap");
    reveal_strlit("query_p99_ratio");
    reveal_strlit("p99_degradation_ratio");
    reveal_strlit("query.p99_ratio");
    reveal_strlit("ingest_peak_backlog");
    reveal_strlit("peak_backlog");
    reveal_strlit("ingest.peak_backlog");
    reveal_strlit("ingest_backlog_drain_time_s");
    reveal_strlit("backlog_drain_time_s");
    reveal_strlit("ingest.backlog_drain_time_s");
    reveal_strlit("recovery_time_to_baseline_s");
    reveal_strlit("recovery_time_s");
    reveal_strlit("recovery.time_to_baseline_s");
    reveal_strlit("query_baseline_p99");
    reveal_strlit("baseline_p99_ms");
    reveal_strlit("query.baseline_p99");
    reveal_strlit("query_overlap_p99");
    reveal_strlit("overlap_p99_ms");
    reveal_strlit("query.overlap_p99");
    reveal_strlit("query_throughput_ratio");
    reveal_strlit("ingest.baseline_eps");
    reveal_strlit("ingest.peak_eps");
    assert("query.throughput_ratio"@.len() != "query.overlap_p50"@.len());
    assert("ingest_throughput_ratio"@.len() != "query.overlap_p50"@.len());
    assert("ingest.throughput_ratio"@.len() != "query.overlap_p50"@.len());
    assert("query.baseline_p50"@.len() != "query.overlap_p50"@.len());
    assert("query_error_rate_overlap"@.len() != "query.total_executed"@.len());
    assert("query.error_rate_overlap"@.len() != "query.total_executed"@.len());
    assert("query_p99_ratio"@.len() != "query.total_executed"@.len());
    assert("p99_degradation_ratio"@.len() != "query.total_executed"@.len());
    assert("query.p99_ratio"@.len() != "query.total_executed"@.len());
    assert("ingest_peak_backlog"@.len() != "query.total_executed"@.len());
    assert("peak_backlog"@.len() != "query.total_executed"@.len());
    assert("ingest.peak_backlog"@.len() != "query.total_executed"@.len());
    assert("ingest_backlog_drain_time_s"@.len() != "query.total_executed"@.len());
    assert("backlog_drain_time_s"@[0] != "query.total_executed"@[0]);
    assert("ingest.backlog_drain_time_s"@.len() != "query.total_executed"@.len());
    assert("recovery_time_to_baseline_s"@.len() != "query.total_executed"@.len());
    assert("recovery_time_s"@.len() != "query.total_executed"@.len());
    assert("recovery.time_to_baseline_s"@.len() != "query.total_executed"@.len());
    assert("query_baseline_p99"@.len() != "query.total_executed"@.len());
    assert("baseline_p99_ms"@.len() != "query.total_executed"@.len());
    assert("query.baseline_p99"@.len() != "query.total_executed"@.len());
    assert("query_overlap_p99"@.len() != "query.total_executed"@.len());
    assert("overlap_p99_ms"@.len() != "query.total_executed"@.len());
    assert("query.overlap_p99"@.len() != "query.total_executed"@.len());
    assert("query_throughput_ratio"@.len() != "query.total_executed"@.len());
    assert("query.throughput_ratio"@.len() != "query.total_executed"@.len());
    assert("ingest_throughput_ratio"@.len() != "query.total_executed"@.len());
    assert("ingest.throughput_ratio"@.len() != "query.total_executed"@.len());
    assert("query.baseline_p50"@.len() != "query.total_executed"@.len());
    assert("query.overlap_p50"@.len() != "query.total_executed"@.len());
    assert("query_error_rate_overlap"@.len() != "ingest.baseline_eps"@.len());
    assert("query.error_rate_overlap"@.len() != "ingest.baseline_eps"@.len());
    assert("query_p99_ratio"@.len() != "ingest.baseline_eps"@.len());
    assert("p99_degradation_ratio"@.len() != "ingest.baseline_eps"@.len());
    assert("query.p99_ratio"@.len() != "ingest.baseline_eps"@.len());
    assert("ingest_peak_backlog"@[6] != "ingest.baseline_eps"@[6]);
    assert("peak_backlog"@.len() != "ingest.baseline_eps"@.len());
    assert("ingest.peak_backlog"@[7] != "ingest.baseline_eps"@[7]);
    assert("ingest_backlog_drain_time_s"@.len() != "ingest.baseline_eps"@.len());
    assert("backlog_drain_time_s"@.len() != "ingest.baseline_eps"@.len());
    assert("ingest.backlog_drain_time_s"@.len() != "ingest.baseline_eps"@.len());
    assert("recovery_time_to_baseline_s"@.len() != "ingest.baseline_eps"@.len());
    assert("recovery_time_s"@.len() != "ingest.baseline_eps"@.len());
    assert("recovery.time_to_baseline_s"@.len() != "ingest.baseline_eps"@.len());
    assert("query_baseline_p99"@.len() != "ingest.baseline_eps"@.len());
    assert("baseline_p99_ms"@.len() != "ingest.baseline_eps"@.len());
    assert("query.baseline_p99"@.len() != "ingest.baseline_eps"@.len());
    assert("query_overlap_p99"@.len() != "ingest.baseline_eps"@.len());
    assert("overlap_p99_ms"@.len() != "ingest.baseline_eps"@.len());
    assert("query.overlap_p99"@.len() != "ingest.baseline_eps"@.len());
    assert("query_throughput_ratio"@.len() != "ingest.baseline_eps"@.len());
    assert("query.throughput_ratio"@.len() != "ingest.baseline_eps"@.len());
    assert("ingest_throughput_ratio"@.len() != "ingest.baseline_eps"@.len());
    assert("ingest.throughput_ratio"@.len() != "ingest.baseline_eps"@.len());
    assert("query.baseline_p50"@.len() != "ingest.baseline_eps"@.len());
    assert("query.overlap_p50"@.len() != "ingest.baseline_eps"@.len());
    assert("query.total_executed"@.len() != "ingest.baseline_eps"@.len());
    assert("query_error_rate_overlap"@.len() != "ingest.peak_eps"@.len());
    assert("query.error_rate_overlap"@.len() != "ingest.peak_eps"@.len());
    assert("query_p99_ratio"@[0] != "ingest.peak_eps"@[0]);
}

proof fn names_differ_g()
    ensures
        "p99_degradation_ratio"@ != "ingest.peak_eps"@,
        "query.p99_ratio"@ != "ingest.peak_eps"@,
        "ingest_peak_backlog"@ != "ingest.peak_eps"@,
        "peak_backlog"@ != "ingest.peak_eps"@,
        "ingest.peak_backlog"@ != "ingest.peak_eps"@,
        "ingest_backlog_drain_time_s"@ != "ingest.peak_eps"@,
        "backlog_drain_time_s"@ != "ingest.peak_eps"@,
        "ingest.backlog_drain_time_s"@ != "ingest.peak_eps"@,
        "recovery_time_to_baseline_s"@ != "ingest.peak_eps"@,
        "recovery_time_s"@ != "ingest.peak_eps"@,
        "recovery.time_to_baseline_s"@ != "ingest.peak_eps"@,
        "query_baseline_p99"@ != "ingest.peak_eps"@,
        "baseline_p99_ms"@ != "ingest.peak_eps"@,
        "query.baseline_p99"@ != "ingest.peak_eps"@,
        "query_overlap_p99"@ != "ingest.peak_eps"@,
        "overlap_p99_ms"@ != "ingest.peak_eps"@,
        "query.overlap_p99"@ != "ingest.peak_eps"@,
        "query_throughput_ratio"@ != "ingest.peak_eps"@,
        "query.throughput_ratio"@ != "ingest.peak_eps"@,
        "ingest_throughput_ratio"@ != "ingest.peak_eps"@,
        "ingest.throughput_ratio"@ != "ingest.peak_eps"@,
        "query.baseline_p50"@ != "ingest.peak_eps"@,
        "query.overlap_p50"@ != "ingest.peak_eps"@,
        "query.total_executed"@ != "ingest.peak_eps"@,
        "ingest.baseline_eps"@ != "ingest.peak_eps"@,
{
    reveal_strlit("p99_degradation_ratio");
    reveal_strlit("ingest.peak_eps");
    reveal_strlit("query.p99_ratio");
    reveal_strlit("ingest_peak_backlog");
    reveal_strlit("peak_backlog");
    reveal_strlit("ingest.peak_backlog");
    reveal_strlit("ingest_backlog_drain_time_s");
    reveal_strlit("backlog_drain_time_s");
    reveal_strlit("ingest.backlog_drain_time_s");
    reveal_strlit("recovery_time_to_baseline_s");
    reveal_strlit("recovery_time_s");
    reveal_strlit("recovery.time_to_baseline_s");
    reveal_strlit("query_baseline_p99");
    reveal_strlit("baseline_p99_ms");
    reveal_strlit("query.baseline_p99");
    reveal_strlit("query_overlap_p99");
    reveal_strlit("overlap_p99_ms");
    reveal_strlit("query.overlap_p99");
    reveal_strlit("query_throughput_ratio");
    reveal_strlit("query.throughput_ratio");
    reveal_strlit("ingest_throughput_ratio");
    reveal_strlit("ingest.throughput_ratio");
    reveal_strlit("query.baseline_p50");
    reveal_strlit("query.overlap_p50");
    reveal_strlit("query.total_executed");
    reveal_strlit("ingest.baseline_eps");
    assert("p99_degradation_ratio"@.len() != "ingest.peak_eps"@.len());
    assert("query.p99_ratio"@[0] != "ingest.peak_eps"@[0]);
    assert("ingest_peak_backlog"@.len() != "ingest.peak_eps"@.len());
    assert("peak_backlog"@.len() != "ingest.peak_eps"@.len());
    assert("ingest.peak_backlog"@.len() != "ingest.peak_eps"@.len());
    assert("ingest_backlog_drain_time_s"@.len() != "ingest.peak_eps"@.len());
    assert("backlog_drain_time_s"@.len() != "ingest.peak_eps"@.len());
    assert("ingest.backlog_drain_time_s"@.len() != "ingest.peak_eps"@.len());
    assert("recovery_time_to_baseline_s"@.len() != "ingest.peak_eps"@.len());
    assert("recovery_time_s"@[0] != "ingest.peak_eps"@[0]);
    assert("recovery.time_to_baseline_s"@.len() != "ingest.peak_eps"@.len());
    assert("query_baseline_p99"@.len() != "ingest.peak_eps"@.len());
    assert("baseline_p99_ms"@[0] != "ingest.peak_eps"@[0]);
    assert("query.baseline_p99"@.len() != "ingest.peak_eps"@.len());
    assert("query_overlap_p99"@.len() != "ingest.peak_eps"@.len());
    assert("overlap_p99_ms"@.len() != "ingest.peak_eps"@.len());
    assert("query.overlap_p99"@.len() != "ingest.peak_eps"@.len());
    assert("query_throughput_ratio"@.len() != "ingest.peak_eps"@.len());
    assert("query.throughput_ratio"@.len() != "ingest.peak_eps"@.len());
    assert("ingest_throughput_ratio"@.len() != "ingest.peak_eps"@.len());
    assert("ingest.throughput_ratio"@.len() != "ingest.peak_eps"@.len());
    assert("query.baseline_p50"@.len() != "ingest.peak_eps"@.len());
    assert("query.overlap_p50"@.len() != "ingest.peak_eps"@.len());
    assert("query.total_executed"@.len() != "ingest.peak_eps"@.len());
    assert("ingest.baseline_eps"@.len() != "ingest.peak_eps"@.len());
}

proof fn names_differ()
    ensures
        "query_error_rate_overlap"@ != "query_p99_ratio"@,
        "query.error_rate_overlap"@ != "query_p99_ratio"@,
        "query_error_rate_overlap"@ != "p99_degradation_ratio"@,
        "query.error_rate_overlap"@ != "p99_degradation_ratio"@,
        "query_error_rate_overlap"@ != "query.p99_ratio"@,
        "query.error_rate_overlap"@ != "query.p99_ratio"@,
        "query_error_rate_overlap"@ != "ingest_peak_backlog"@,
        "query.error_rate_overlap"@ != "ingest_peak_backlog"@,
        "query_p99_ratio"@ != "ingest_peak_backlog"@,
        "p99_degradation_ratio"@ != "ingest_peak_backlog"@,
        "query.p99_ratio"@ != "ingest_peak_backlog"@,
        "query_error_rate_overlap"@ != "peak_backlog"@,
        "query.error_rate_overlap"@ != "peak_backlog"@,
        "query_p99_ratio"@ != "peak_backlog"@,
        "p99_degradation_ratio"@ != "peak_backlog"@,
        "query.p99_ratio"@ != "peak_backlog"@,
        "query_error_rate_overlap"@ != "ingest.peak_backlog"@,
        "query.error_rate_overlap"@ != "ingest.peak_backlog"@,
        "query_p99_ratio"@ != "ingest.peak_backlog"@,
        "p99_degradation_ratio"@ != "ingest.peak_backlog"@,
        "query.p99_ratio"@ != "ingest.peak_backlog"@,
        "query_error_rate_overlap"@ != "ingest_backlog_drain_time_s"@,
        "query.error_rate_overlap"@ != "ingest_backlog_drain_time_s"@,
        "query_p99_ratio"@ != "ingest_backlog_drain_time_s"@,
        "p99_degradation_ratio"@ != "ingest_backlog_drain_time_s"@,
        "query.p99_ratio"@ != "ingest_backlog_drain_time_s"@,
        "ingest_peak_backlog"@ != "ingest_backlog_drain_time_s"@,
        "peak_backlog"@ != "ingest_backlog_drain_time_s"@,
        "ingest.peak_backlog"@ != "ingest_backlog_drain_time_s"@,
        "query_error_rate_overlap"@ != "backlog_drain_time_s"@,
        "query.error_rate_overlap"@ != "backlog_drain_time_s"@,
        "query_p99_ratio"@ != "backlog_drain_time_s"@,
        "p99_degradation_ratio"@ != "backlog_drain_time_s"@,
        "query.p99_ratio"@ != "backlog_drain_time_s"@,
        "ingest_peak_backlog"@ != "backlog_drain_time_s"@,
        "peak_backlog"@ != "backlog_drain_time_s"@,
        "ingest.peak_backlog"@ != "backlog_drain_time_s"@,
        "query_error_rate_overlap"@ != "ingest.backlog_drain_time_s"@,
        "query.error_rate_overlap"@ != "ingest.backlog_drain_time_s"@,
        "query_p99_ratio"@ != "ingest.backlog_drain_time_s"@,
        "p99_degradation_ratio"@ != "ingest.backlog_drain_time_s"@,
        "query.p99_ratio"@ != "ingest.backlog_drain_time_s"@,
        "ingest_peak_backlog"@ != "ingest.backlog_drain_time_s"@,
        "peak_backlog"@ != "ingest.backlog_drain_time_s"@,
        "ingest.peak_backlog"@ != "ingest.backlog_drain_time_s"@,
        "query_error_rate_overlap"@ != "recovery_time_to_baseline_s"@,
        "query.error_rate_overlap"@ != "recovery_time_to_baseline_s"@,
        "query_p99_ratio"@ != "recovery_time_to_baseline_s"@,
        "p99_degradation_ratio"@ != "recovery_time_to_baseline_s"@,
        "query.p99_ratio"@ != "recovery_time_to_baseline_s"@,
        "ingest_peak_backlog"@ != "recovery_time_to_baseline_s"@,
        "peak_backlog"@ != "recovery_time_to_baseline_s"@,
        "ingest.peak_backlog"@ != "recovery_time_to_baseline_s"@,
        "ingest_backlog_drain_time_s"@ != "recovery_time_to_baseline_s"@,
        "backlog_drain_time_s"@ != "recovery_time_to_baseline_s"@,
        "ingest.backlog_drain_time_s"@ != "recovery_time_to_baseline_s"@,
        "query_error_rate_overlap"@ != "recovery_time_s"@,
        "query.error_rate_overlap"@ != "recovery_time_s"@,
        "query_p99_ratio"@ != "recovery_time_s"@,
        "p99_degradation_ratio"@ != "recovery_time_s"@,
        "query.p99_ratio"@ != "recovery_time_s"@,
        "ingest_peak_backlog"@ != "recovery_time_s"@,
        "peak_backlog"@ != "recovery_time_s"@,
        "ingest.peak_backlog"@ != "recovery_time_s"@,
        "ingest_backlog_drain_time_s"@ != "recovery_time_s"@,
        "backlog_drain_time_s"@ != "recovery_time_s"@,
        "ingest.backlog_drain_time_s"@ != "recovery_time_s"@,
        "query_error_rate_overlap"@ != "recovery.time_to_baseline_s"@,
        "query.error_rate_overlap"@ != "recovery.time_to_baseline_s"@,
        "query_p99_ratio"@ != "recovery.time_to_baseline_s"@,
        "p99_degradation_ratio"@ != "recovery.time_to_baseline_s"@,
        "query.p99_ratio"@ != "recovery.time_to_baseline_s"@,
        "ingest_peak_backlog"@ != "recovery.time_to_baseline_s"@,
        "peak_backlog"@ != "recovery.time_to_baseline_s"@,
        "ingest.peak_backlog"@ != "recovery.time_to_baseline_s"@,
        "ingest_backlog_drain_time_s"@ != "recovery.time_to_baseline_s"@,
        "backlog_drain_time_s"@ != "recovery.time_to_baseline_s"@,
        "ingest.backlog_drain_time_s"@ != "recovery.time_to_baseline_s"@,
        "query_error_rate_overlap"@ != "query_baseline_p99"@,
        "query.error_rate_overlap"@ != "query_baseline_p99"@,
        "query_p99_ratio"@ != "query_baseline_p99"@,
        "p99_degradation_ratio"@ != "query_baseline_p99"@,
        "query.p99_ratio"@ != "query_baseline_p99"@,
        "ingest_peak_backlog"@ != "query_baseline_p99"@,
        "peak_backlog"@ != "query_baseline_p99"@,
        "ingest.peak_backlog"@ != "query_baseline_p99"@,
        "ingest_backlog_drain_time_s"@ != "query_baseline_p99"@,
        "backlog_drain_time_s"@ != "query_baseline_p99"@,
        "ingest.backlog_drain_time_s"@ != "query_baseline_p99"@,
        "recovery_time_to_baseline_s"@ != "query_baseline_p99"@,
        "recovery_time_s"@ != "query_baseline_p99"@,
        "recovery.time_to_baseline_s"@ != "query_baseline_p99"@,
        "query_error_rate_overlap"@ != "baseline_p99_ms"@,
        "query.error_rate_overlap"@ != "baseline_p99_ms"@,
        "query_p99_ratio"@ != "baseline_p99_ms"@,
        "p99_degradation_ratio"@ != "baseline_p99_ms"@,
        "query.p99_ratio"@ != "baseline_p99_ms"@,
        "ingest_peak_backlog"@ != "baseline_p99_ms"@,
        "peak_backlog"@ != "baseline_p99_ms"@,
        "ingest.peak_backlog"@ != "baseline_p99_ms"@,
        "ingest_backlog_drain_time_s"@ != "baseline_p99_ms"@,
        "backlog_drain_time_s"@ != "baseline_p99_ms"@,
        "ingest.backlog_drain_time_s"@ != "baseline_p99_ms"@,
        "recovery_time_to_baseline_s"@ != "baseline_p99_ms"@,
        "recovery_time_s"@ != "baseline_p99_ms"@,
        "recovery.time_to_baseline_s"@ != "baseline_p99_ms"@,
        "query_error_rate_overlap"@ != "query.baseline_p99"@,
        "query.error_rate_overlap"@ != "query.baseline_p99"@,
        "query_p99_ratio"@ != "query.baseline_p99"@,
        "p99_degradation_ratio"@ != "query.baseline_p99"@,
        "query.p99_ratio"@ != "query.baseline_p99"@,
        "ingest_peak_backlog"@ != "query.baseline_p99"@,
        "peak_backlog"@ != "query.baseline_p99"@,
        "ingest.peak_backlog"@ != "query.baseline_p99"@,
        "ingest_backlog_drain_time_s"@ != "query.baseline_p99"@,
        "backlog_drain_time_s"@ != "query.baseline_p99"@,
        "ingest.backlog_drain_time_s"@ != "query.baseline_p99"@,
        "recovery_time_to_baseline_s"@ != "query.baseline_p99"@,
        "recovery_time_s"@ != "query.baseline_p99"@,
        "recovery.time_to_baseline_s"@ != "query.baseline_p99"@,
        "query_error_rate_overlap"@ != "query_overlap_p99"@,
        "query.error_rate_overlap"@ != "query_overlap_p99"@,
        "query_p99_ratio"@ != "query_overlap_p99"@,
        "p99_degradation_ratio"@ != "query_overlap_p99"@,
        "query.p99_ratio"@ != "query_overlap_p99"@,
        "ingest_peak_backlog"@ != "query_overlap_p99"@,
        "peak_backlog"@ != "query_overlap_p99"@,
        "ingest.peak_backlog"@ != "query_overlap_p99"@,
        "ingest_backlog_drain_time_s"@ != "query_overlap_p99"@,
        "backlog_drain_time_s"@ != "query_overlap_p99"@,
        "ingest.backlog_drain_time_s"@ != "query_overlap_p99"@,
        "recovery_time_to_baseline_s"@ != "query_overlap_p99"@,
        "recovery_time_s"@ != "query_overlap_p99"@,
        "recovery.time_to_baseline_s"@ != "query_overlap_p99"@,
        "query_baseline_p99"@ != "query_overlap_p99"@,
        "baseline_p99_ms"@ != "query_overlap_p99"@,
        "query.baseline_p99"@ != "query_overlap_p99"@,
        "query_error_rate_overlap"@ != "overlap_p99_ms"@,
        "query.error_rate_overlap"@ != "overlap_p99_ms"@,
        "query_p99_ratio"@ != "overlap_p99_ms"@,
        "p99_degradation_ratio"@ != "overlap_p99_ms"@,
        "query.p99_ratio"@ != "overlap_p99_ms"@,
        "ingest_peak_backlog"@ != "overlap_p99_ms"@,
        "peak_backlog"@ != "overlap_p99_ms"@,
        "ingest.peak_backlog"@ != "overlap_p99_ms"@,
        "ingest_backlog_drain_time_s"@ != "overlap_p99_ms"@,
        "backlog_drain_time_s"@ != "overlap_p99_ms"@,
        "ingest.backlog_drain_time_s"@ != "overlap_p99_ms"@,
        "recovery_time_to_baseline_s"@ != "overlap_p99_ms"@,
        "recovery_time_s"@ != "overlap_p99_ms"@,
        "recovery.time_to_baseline_s"@ != "overlap_p99_ms"@,
        "query_baseline_p99"@ != "overlap_p99_ms"@,
        "baseline_p99_ms"@ != "overlap_p99_ms"@,
        "query.baseline_p99"@ != "overlap_p99_ms"@,
        "query_error_rate_overlap"@ != "query.overlap_p99"@,
        "query.error_rate_overlap"@ != "query.overlap_p99"@,
        "query_p99_ratio"@ != "query.overlap_p99"@,
        "p99_degradation_ratio"@ != "query.overlap_p99"@,
        "query.p99_ratio"@ != "query.overlap_p99"@,
        "ingest_peak_backlog"@ != "query.overlap_p99"@,
        "peak_backlog"@ != "query.overlap_p99"@,
        "ingest.peak_backlog"@ != "query.overlap_p99"@,
        "ingest_backlog_drain_time_s"@ != "query.overlap_p99"@,
        "backlog_drain_time_s"@ != "query.overlap_p99"@,
        "ingest.backlog_drain_time_s"@ != "query.overlap_p99"@,
        "recovery_time_to_baseline_s"@ != "query.overlap_p99"@,
        "recovery_time_s"@ != "query.overlap_p99"@,
        "recovery.time_to_baseline_s"@ != "query.overlap_p99"@,
        "query_baseline_p99"@ != "query.overlap_p99"@,
        "baseline_p99_ms"@ != "query.overlap_p99"@,
        "query.baseline_p99"@ != "query.overlap_p99"@,
        "query_error_rate_overlap"@ != "query_throughput_ratio"@,
        "query.error_rate_overlap"@ != "query_throughput_ratio"@,
        "query_p99_ratio"@ != "query_throughput_ratio"@,
        "p99_degradation_ratio"@ != "query_throughput_ratio"@,
        "query.p99_ratio"@ != "query_throughput_ratio"@,
        "ingest_peak_backlog"@ != "query_throughput_ratio"@,
        "peak_backlog"@ != "query_throughput_ratio"@,
        "ingest.peak_backlog"@ != "query_throughput_ratio"@,
        "ingest_backlog_drain_time_s"@ != "query_throughput_ratio"@,
        "backlog_drain_time_s"@ != "query_throughput_ratio"@,
        "ingest.backlog_drain_time_s"@ != "query_throughput_ratio"@,
        "recovery_time_to_baseline_s"@ != "query_throughput_ratio"@,
        "recovery_time_s"@ != "query_throughput_ratio"@,
        "recovery.time_to_baseline_s"@ != "query_throughput_ratio"@,
        "query_baseline_p99"@ != "query_throughput_ratio"@,
        "baseline_p99_ms"@ != "query_throughput_ratio"@,
        "query.baseline_p99"@ != "query_throughput_ratio"@,
        "query_overlap_p99"@ != "query_throughput_ratio"@,
        "overlap_p99_ms"@ != "query_throughput_ratio"@,
        "query.overlap_p99"@ != "query_throughput_ratio"@,
        "query_error_rate_overlap"@ != "query.throughput_ratio"@,
        "query.error_rate_overlap"@ != "query.throughput_ratio"@,
        "query_p99_ratio"@ != "query.throughput_ratio"@,
        "p99_degradation_ratio"@ != "query.throughput_ratio"@,
        "query.p99_ratio"@ != "query.throughput_ratio"@,
        "ingest_peak_backlog"@ != "query.throughput_ratio"@,
        "peak_backlog"@ != "query.throughput_ratio"@,
        "ingest.peak_backlog"@ != "query.throughput_ratio"@,
        "ingest_backlog_drain_time_s"@ != "query.throughput_ratio"@,
        "backlog_drain_time_s"@ != "query.throughput_ratio"@,
        "ingest.backlog_drain_time_s"@ != "query.throughput_ratio"@,
        "recovery_time_to_baseline_s"@ != "query.throughput_ratio"@,
        "recovery_time_s"@ != "query.throughput_ratio"@,
        "recovery.time_to_baseline_s"@ != "query.throughput_ratio"@,
        "query_baseline_p99"@ != "query.throughput_ratio"@,
        "baseline_p99_ms"@ != "query.throughput_ratio"@,
        "query.baseline_p99"@ != "query.throughput_ratio"@,
        "query_overlap_p99"@ != "query.throughput_ratio"@,
        "overlap_p99_ms"@ != "query.throughput_ratio"@,
        "query.overlap_p99"@ != "query.throughput_ratio"@,
        "query_error_rate_overlap"@ != "ingest_throughput_ratio"@,
        "query.error_rate_overlap"@ != "ingest_throughput_ratio"@,
        "query_p99_ratio"@ != "ingest_throughput_ratio"@,
        "p99_degradation_ratio"@ != "ingest_throughput_ratio"@,
        "query.p99_ratio"@ != "ingest_throughput_ratio"@,
        "ingest_peak_backlog"@ != "ingest_throughput_ratio"@,
        "peak_backlog"@ != "ingest_throughput_ratio"@,
        "ingest.peak_backlog"@ != "ingest_throughput_ratio"@,
        "ingest_backlog_drain_time_s"@ != "ingest_throughput_ratio"@,
        "backlog_drain_time_s"@ != "ingest_throughput_ratio"@,
        "ingest.backlog_drain_time_s"@ != "ingest_throughput_ratio"@,
        "recovery_time_to_baseline_s"@ != "ingest_throughput_ratio"@,
        "recovery_time_s"@ != "ingest_throughput_ratio"@,
        "recovery.time_to_baseline_s"@ != "ingest_throughput_ratio"@,
        "query_baseline_p99"@ != "ingest_throughput_ratio"@,
        "baseline_p99_ms"@ != "ingest_throughput_ratio"@,
        "query.baseline_p99"@ != "ingest_throughput_ratio"@,
        "query_overlap_p99"@ != "ingest_throughput_ratio"@,
        "overlap_p99_ms"@ != "ingest_throughput_ratio"@,
        "query.overlap_p99"@ != "ingest_throughput_ratio"@,
        "query_throughput_ratio"@ != "ingest_throughput_ratio"@,
        "query.throughput_ratio"@ != "ingest_throughput_ratio"@,
        "query_error_rate_overlap"@ != "ingest.throughput_ratio"@,
        "query.error_rate_overlap"@ != "ingest.throughput_ratio"@,
        "query_p99_ratio"@ != "ingest.throughput_ratio"@,
        "p99_degradation_ratio"@ != "ingest.throughput_ratio"@,
        "query.p99_ratio"@ != "ingest.throughput_ratio"@,
        "ingest_peak_backlog"@ != "ingest.throughput_ratio"@,
        "peak_backlog"@ != "ingest.throughput_ratio"@,
        "ingest.peak_backlog"@ != "ingest.throughput_ratio"@,
        "ingest_backlog_drain_time_s"@ != "ingest.throughput_ratio"@,
        "backlog_drain_time_s"@ != "ingest.throughput_ratio"@,
        "ingest.backlog_drain_time_s"@ != "ingest.throughput_ratio"@,
        "recovery_time_to_baseline_s"@ != "ingest.throughput_ratio"@,
        "recovery_time_s"@ != "ingest.throughput_ratio"@,
        "recovery.time_to_baseline_s"@ != "ingest.throughput_ratio"@,
        "query_baseline_p99"@ != "ingest.throughput_ratio"@,
        "baseline_p99_ms"@ != "ingest.throughput_ratio"@,
        "query.baseline_p99"@ != "ingest.throughput_ratio"@,
        "query_overlap_p99"@ != "ingest.throughput_ratio"@,
        "overlap_p99_ms"@ != "ingest.throughput_ratio"@,
        "query.overlap_p99"@ != "ingest.throughput_ratio"@,
        "query_throughput_ratio"@ != "ingest.throughput_ratio"@,
        "query.throughput_ratio"@ != "ingest.throughput_ratio"@,
        "query_error_rate_overlap"@ != "query.baseline_p50"@,
        "query.error_rate_overlap"@ != "query.baseline_p50"@,
        "query_p99_ratio"@ != "query.baseline_p50"@,
        "p99_degradation_ratio"@ != "query.baseline_p50"@,
        "query.p99_ratio"@ != "query.baseline_p50"@,
        "ingest_peak_backlog"@ != "query.baseline_p50"@,
        "peak_backlog"@ != "query.baseline_p50"@,
        "ingest.peak_backlog"@ != "query.baseline_p50"@,
        "ingest_backlog_drain_time_s"@ != "query.baseline_p50"@,
        "backlog_drain_time_s"@ != "query.baseline_p50"@,
        "ingest.backlog_drain_time_s"@ != "query.baseline_p50"@,
        "recovery_time_to_baseline_s"@ != "query.baseline_p50"@,
        "recovery_time_s"@ != "query.baseline_p50"@,
        "recovery.time_to_baseline_s"@ != "query.baseline_p50"@,
        "query_baseline_p99"@ != "query.baseline_p50"@,
        "baseline_p99_ms"@ != "query.baseline_p50"@,
        "query.baseline_p99"@ != "query.baseline_p50"@,
        "query_overlap_p99"@ != "query.baseline_p50"@,
        "overlap_p99_ms"@ != "query.baseline_p50"@,
        "query.overlap_p99"@ != "query.baseline_p50"@,
        "query_throughput_ratio"@ != "query.baseline_p50"@,
        "query.throughput_ratio"@ != "query.baseline_p50"@,
        "ingest_throughput_ratio"@ != "query.baseline_p50"@,
        "ingest.throughput_ratio"@ != "query.baseline_p50"@,
        "query_error_rate_overlap"@ != "query.overlap_p50"@,
        "query.error_rate_overlap"@ != "query.overlap_p50"@,
        "query_p99_ratio"@ != "query.overlap_p50"@,
        "p99_degradation_ratio"@ != "query.overlap_p50"@,
        "query.p99_ratio"@ != "query.overlap_p50"@,
        "ingest_peak_backlog"@ != "query.overlap_p50"@,
        "peak_backlog"@ != "query.overlap_p50"@,
        "ingest.peak_backlog"@ != "query.overlap_p50"@,
        "ingest_backlog_drain_time_s"@ != "query.overlap_p50"@,
        "backlog_drain_time_s"@ != "query.overlap_p50"@,
        "ingest.backlog_drain_time_s"@ != "query.overlap_p50"@,
        "recovery_time_to_baseline_s"@ != "query.overlap_p50"@,
        "recovery_time_s"@ != "query.overlap_p50"@,
        "recovery.time_to_baseline_s"@ != "query.overlap_p50"@,
        "query_baseline_p99"@ != "query.overlap_p50"@,
        "baseline_p99_ms"@ != "query.overlap_p50"@,
        "query.baseline_p99"@ != "query.overlap_p50"@,
        "query_overlap_p99"@ != "query.overlap_p50"@,
        "overlap_p99_ms"@ != "query.overlap_p50"@,
        "query.overlap_p99"@ != "query.overlap_p50"@,
        "query_throughput_ratio"@ != "query.overlap_p50"@,
        "query.throughput_ratio"@ != "query.overlap_p50"@,
        "ingest_throughput_ratio"@ != "query.overlap_p50"@,
        "ingest.throughput_ratio"@ != "query.overlap_p50"@,
        "query.baseline_p50"@ != "query.overlap_p50"@,
        "query_error_rate_overlap"@ != "query.total_executed"@,
        "query.error_rate_overlap"@ != "query.total_executed"@,
        "query_p99_ratio"@ != "query.total_executed"@,
        "p99_degradation_ratio"@ != "query.total_executed"@,
        "query.p99_ratio"@ != "query.total_executed"@,
        "ingest_peak_backlog"@ != "query.total_executed"@,
        "peak_backlog"@ != "query.total_executed"@,
        "ingest.peak_backlog"@ != "query.total_executed"@,
        "ingest_backlog_drain_time_s"@ != "query.total_executed"@,
        "backlog_drain_time_s"@ != "query.total_executed"@,
        "ingest.backlog_drain_time_s"@ != "query.total_executed"@,
        "recovery_time_to_baseline_s"@ != "query.total_executed"@,
        "recovery_time_s"@ != "query.total_executed"@,
        "recovery.time_to_baseline_s"@ != "query.total_executed"@,
        "query_baseline_p99"@ != "query.total_executed"@,
        "baseline_p99_ms"@ != "query.total_executed"@,
        "query.baseline_p99"@ != "query.total_executed"@,
        "query_overlap_p99"@ != "query.total_executed"@,
        "overlap_p99_ms"@ != "query.total_executed"@,
        "query.overlap_p99"@ != "query.total_executed"@,
        "query_throughput_ratio"@ != "query.total_executed"@,
        "query.throughput_ratio"@ != "query.total_executed"@,
        "ingest_throughput_ratio"@ != "query.total_executed"@,
        "ingest.throughput_ratio"@ != "query.total_executed"@,
        "query.baseline_p50"@ != "query.total_executed"@,
        "query.overlap_p50"@ != "query.total_executed"@,
        "query_error_rate_overlap"@ != "ingest.baseline_eps"@,
        "query.error_rate_overlap"@ != "ingest.baseline_eps"@,
        "query_p99_ratio"@ != "ingest.baseline_eps"@,
        "p99_degradation_ratio"@ != "ingest.baseline_eps"@,
        "query.p99_ratio"@ != "ingest.baseline_eps"@,
        "ingest_peak_backlog"@ != "ingest.baseline_eps"@,
        "peak_backlog"@ != "ingest.baseline_eps"@,
        "ingest.peak_backlog"@ != "ingest.baseline_eps"@,
        "ingest_backlog_drain_time_s"@ != "ingest.baseline_eps"@,
        "backlog_drain_time_s"@ != "ingest.baseline_eps"@,
        "ingest.backlog_drain_time_s"@ != "ingest.baseline_eps"@,
        "recovery_time_to_baseline_s"@ != "ingest.baseline_eps"@,
        "recovery_time_s"@ != "ingest.baseline_eps"@,
        "recovery.time_to_baseline_s"@ != "ingest.baseline_eps"@,
        "query_baseline_p99"@ != "ingest.baseline_eps"@,
        "baseline_p99_ms"@ != "ingest.baseline_eps"@,
        "query.baseline_p99"@ != "ingest.baseline_eps"@,
        "query_overlap_p99"@ != "ingest.baseline_eps"@,
        "overlap_p99_ms"@ != "ingest.baseline_eps"@,
        "query.overlap_p99"@ != "ingest.baseline_eps"@,
        "query_throughput_ratio"@ != "ingest.baseline_eps"@,
        "query.throughput_ratio"@ != "ingest.baseline_eps"@,
        "ingest_throughput_ratio"@ != "ingest.baseline_eps"@,
        "ingest.throughput_ratio"@ != "ingest.baseline_eps"@,
        "query.baseline_p50"@ != "ingest.baseline_eps"@,
        "query.overlap_p50"@ != "ingest.baseline_eps"@,
        "query.total_executed"@ != "ingest.baseline_eps"@,
        "query_error_rate_overlap"@ != "ingest.peak_eps"@,
        "query.error_rate_overlap"@ != "ingest.peak_eps"@,
        "query_p99_ratio"@ != "ingest.peak_eps"@,
        "p99_degradation_ratio"@ != "ingest.peak_eps"@,
        "query.p99_ratio"@ != "ingest.peak_eps"@,
        "ingest_peak_backlog"@ != "ingest.peak_eps"@,
        "peak_backlog"@ != "ingest.peak_eps"@,
        "ingest.peak_backlog"@ != "ingest.peak_eps"@,
        "ingest_backlog_drain_time_s"@ != "ingest.peak_eps"@,
        "backlog_drain_time_s"@ != "ingest.peak_eps"@,
        "ingest.backlog_drain_time_s"@ != "ingest.peak_eps"@,
        "recovery_time_to_baseline_s"@ != "ingest.peak_eps"@,
        "recovery_time_s"@ != "ingest.peak_eps"@,
        "recovery.time_to_baseline_s"@ != "ingest.peak_eps"@,
        "query_baseline_p99"@ != "ingest.peak_eps"@,
        "baseline_p99_ms"@ != "ingest.peak_eps"@,
        "query.baseline_p99"@ != "ingest.peak_eps"@,
        "query_overlap_p99"@ != "ingest.peak_eps"@,
        "overlap_p99_ms"@ != "ingest.peak_eps"@,
        "query.overlap_p99"@ != "ingest.peak_eps"@,
        "query_throughput_ratio"@ != "ingest.peak_eps"@,
        "query.throughput_ratio"@ != "ingest.peak_eps"@,
        "ingest_throughput_ratio"@ != "ingest.peak_eps"@,
        "ingest.throughput_ratio"@ != "ingest.peak_eps"@,
        "query.baseline_p50"@ != "ingest.peak_eps"@,
        "query.overlap_p50"@ != "ingest.peak_eps"@,
        "query.total_executed"@ != "ingest.peak_eps"@,
        "ingest.baseline_eps"@ != "ingest.peak_eps"@,
{
    names_differ_a();
    names_differ_b();
    names_differ_c();
    names_differ_d();
    names_differ_e();
    names_differ_f();
    names_differ_g();
}

} // verus!
