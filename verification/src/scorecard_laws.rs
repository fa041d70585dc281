//! What the figures of a run mean, told from its points: fractions, means and times.
use vstd::prelude::*;
use crate::decimal::Ratio;
use crate::metrics;
use crate::metrics::{Measure, PointView, Scorecard, MAX_POINTS};
use crate::model;

verus! {

/// A figure summed over the points of a phase.
pub open spec fn total(
    points: Seq<PointView>,
    phase: Seq<char>,
    f: spec_fn(PointView) -> int,
) -> int
    decreases points.len(),
{
    if points.len() == 0 {
        0
    } else {
        total(points.drop_last(), phase, f) + if points.last().phase == phase {
            f(points.last())
        } else {
            0
        }
    }
}

/// A figure summed over all points.
pub open spec fn grand_total(points: Seq<PointView>, f: spec_fn(PointView) -> int) -> int
    decreases points.len(),
{
    if points.len() == 0 {
        0
    } else {
        grand_total(points.drop_last(), f) + f(points.last())
    }
}

/// How many points a phase has.
pub open spec fn seconds(points: Seq<PointView>, phase: Seq<char>) -> int {
    total(points, phase, |p: PointView| 1)
}

/// The quotient is `num / den`; where there is no denominator, it is zero.
pub open spec fn is_quotient(r: Ratio, num: int, den: int) -> bool {
    &&& r.den > 0
    &&& den > 0 ==> r.num * den == r.den * num
    &&& den <= 0 ==> r.num == 0
}

/// A point after the incident.
pub open spec fn after_incident(p: PointView) -> bool {
    p.phase == "recovery"@ || p.phase == "post_incident"@
}

pub(crate) proof fn totals_agree(
    points: Seq<PointView>,
    phase: Seq<char>,
    m: Measure,
    f: spec_fn(PointView) -> int,
)
    requires
        forall|p: PointView| #[trigger] f(p) == metrics::measured(p, m),
    ensures
        metrics::phase_total(points, phase, m) == total(points, phase, f),
        0 <= total(points, phase, f) <= points.len() * 0xffff_ffff_ffff_ffff,
    decreases points.len(),
{
    reveal(Seq::filter);
    if points.len() > 0 {
        let n = points.len() - 1;
        let front = points.drop_last();
        totals_agree(front, phase, m, f);
        metrics::in_phase_step(points, phase, n);
        assert(points.take(n) =~= front);
        assert(points.take(n + 1) =~= points);
        assert(f(points.last()) == metrics::measured(points.last(), m));
        if points.last().phase == phase {
            let before = metrics::figures(metrics::in_phase(front, phase), m);
            let longer = metrics::figures(metrics::in_phase(points, phase), m);
            assert(longer =~= before.push(metrics::measured(points.last(), m)));
            assert(longer.drop_last() =~= before);
        }
    } else {
        assert(metrics::in_phase(points, phase) =~= Seq::empty());
        assert(metrics::figures(metrics::in_phase(points, phase), m) =~= Seq::<int>::empty());
    }
}

pub(crate) proof fn lengths_agree(points: Seq<PointView>, phase: Seq<char>)
    ensures
        metrics::in_phase(points, phase).len() == seconds(points, phase),
        0 <= seconds(points, phase) <= points.len(),
    decreases points.len(),
{
    reveal(Seq::filter);
    if points.len() > 0 {
        let n = points.len() - 1;
        lengths_agree(points.drop_last(), phase);
        metrics::in_phase_step(points, phase, n);
        assert(points.take(n) =~= points.drop_last());
        assert(points.take(n + 1) =~= points);
    } else {
        assert(metrics::in_phase(points, phase) =~= Seq::empty());
    }
}

proof fn fits(n: int, total: int)
    requires
        0 <= n <= MAX_POINTS,
        0 <= total <= n * 0xffff_ffff_ffff_ffff,
    ensures
        total <= MAX_POINTS * 0xffff_ffff_ffff_ffff,
{
    assert(total <= MAX_POINTS * 0xffff_ffff_ffff_ffff) by (nonlinear_arith)
        requires
            0 <= n <= MAX_POINTS,
            0 <= total <= n * 0xffff_ffff_ffff_ffff,
    ;
}

proof fn exact(num: int, den: int)
    requires
        0 <= num <= u128::MAX,
        0 <= den <= u128::MAX,
    ensures
        is_quotient(metrics::quotient(num, den), num, den),
        den > 0 ==> metrics::quotient(num, den).num == num && metrics::quotient(num, den).den == den,
{
    assert(num * den == den * num) by (nonlinear_arith);
}

/// The mean of a figure over a phase, as the figures of a run have it.
pub(crate) proof fn means_agree(
    points: Seq<PointView>,
    phase: Seq<char>,
    m: Measure,
    f: spec_fn(PointView) -> int,
)
    requires
        points.len() <= MAX_POINTS,
        forall|p: PointView| #[trigger] f(p) == metrics::measured(p, m),
    ensures
        is_quotient(
            metrics::phase_mean(points, phase, m),
            total(points, phase, f),
            seconds(points, phase),
        ),
        seconds(points, phase) > 0 ==> metrics::phase_mean(points, phase, m).num == total(
            points,
            phase,
            f,
        ) && metrics::phase_mean(points, phase, m).den == seconds(points, phase),
        0 <= total(points, phase, f) <= MAX_POINTS * 0xffff_ffff_ffff_ffff,
        0 <= seconds(points, phase) <= MAX_POINTS,
{
    totals_agree(points, phase, m, f);
    lengths_agree(points, phase);
    fits(points.len() as int, total(points, phase, f));
    exact(total(points, phase, f), seconds(points, phase));
}

proof fn total_of_less(
    points: Seq<PointView>,
    phase: Seq<char>,
    f: spec_fn(PointView) -> int,
    g: spec_fn(PointView) -> int,
)
    requires
        forall|i: int|
            0 <= i < points.len() && (#[trigger] points[i]).phase == phase ==> f(points[i]) <= g(
                points[i],
            ),
    ensures
        total(points, phase, f) <= total(points, phase, g),
    decreases points.len(),
{
    if points.len() > 0 {
        let front = points.drop_last();
        assert forall|i: int| 0 <= i < front.len() && (#[trigger] front[i]).phase == phase implies f(
            front[i],
        ) <= g(front[i]) by {
            assert(front[i] == points[i]);
        }
        total_of_less(front, phase, f, g);
        assert(points[points.len() - 1] == points.last());
    }
}

proof fn total_of_constant(points: Seq<PointView>, phase: Seq<char>, c: int)
    ensures
        total(points, phase, |p: PointView| c) == c * seconds(points, phase),
    decreases points.len(),
{
    if points.len() > 0 {
        total_of_constant(points.drop_last(), phase, c);
        let n = seconds(points.drop_last(), phase);
        assert(c * n + c == c * (n + 1)) by (nonlinear_arith);
    } else {
        assert(c * 0 == 0) by (nonlinear_arith);
    }
}

/// The error rate of the overlap is the fraction of its queries that failed: the errors of all
/// its seconds over the queries of all its seconds. Where no second has more errors than
/// queries, it is at most one; without an error it is zero.
pub proof fn the_error_rate_is_the_fraction_that_failed(points: Seq<PointView>)
    requires
        points.len() <= MAX_POINTS,
    ensures
        ({
            let errors = total(points, "overlap"@, |p: PointView| p.query_errors as int);
            let executed = total(points, "overlap"@, |p: PointView| p.query_executed as int);
            let rate = metrics::derived(points).query_error_rate_overlap;
            &&& is_quotient(rate, errors, executed)
            &&& Scorecard::of(metrics::derived(points)).query_error_rate_overlap == rate
            &&& (forall|i: int|
                0 <= i < points.len() && (#[trigger] points[i]).phase == "overlap"@
                    ==> points[i].query_errors <= points[i].query_executed) ==> rate.num <= rate.den
            &&& errors == 0 ==> rate.num == 0
        }),
{
    let f = |p: PointView| p.query_errors as int;
    let g = |p: PointView| p.query_executed as int;
    totals_agree(points, "overlap"@, Measure::Errors, f);
    totals_agree(points, "overlap"@, Measure::Executed, g);
    let errors = total(points, "overlap"@, f);
    let executed = total(points, "overlap"@, g);
    fits(points.len() as int, errors);
    fits(points.len() as int, executed);
    exact(errors, executed);
    if forall|i: int|
        0 <= i < points.len() && (#[trigger] points[i]).phase == "overlap"@
            ==> points[i].query_errors <= points[i].query_executed {
        total_of_less(points, "overlap"@, f, g);
    }
}

/// The latencies of the baseline and of the overlap are means over the seconds of their phase,
/// and what the baseline ingests is one too.
pub proof fn latencies_are_means_of_their_phase(points: Seq<PointView>)
    requires
        points.len() <= MAX_POINTS,
    ensures
        ({
            let d = metrics::derived(points);
            let card = Scorecard::of(d);
            let before = seconds(points, "baseline"@);
            let during = seconds(points, "overlap"@);
            let p50 = |p: PointView| p.query_latency.p50 as int;
            let p99 = |p: PointView| p.query_latency.p99 as int;
            &&& is_quotient(d.query_baseline_p50, total(points, "baseline"@, p50), before)
            &&& is_quotient(d.query_baseline_p99, total(points, "baseline"@, p99), before)
            &&& is_quotient(d.query_overlap_p50, total(points, "overlap"@, p50), during)
            &&& is_quotient(d.query_overlap_p99, total(points, "overlap"@, p99), during)
            &&& is_quotient(
                d.ingest_baseline_eps,
                total(points, "baseline"@, |p: PointView| p.ingest_events_produced as int),
                before,
            )
            &&& card.baseline_p99_ns == d.query_baseline_p99
            &&& card.overlap_p99_ns == d.query_overlap_p99
        }),
{
    let p50 = |p: PointView| p.query_latency.p50 as int;
    let p99 = |p: PointView| p.query_latency.p99 as int;
    let made = |p: PointView| p.ingest_events_produced as int;
    means_agree(points, "baseline"@, Measure::P50, p50);
    means_agree(points, "baseline"@, Measure::P99, p99);
    means_agree(points, "overlap"@, Measure::P50, p50);
    means_agree(points, "overlap"@, Measure::P99, p99);
    means_agree(points, "baseline"@, Measure::Produced, made);
}

/// A mean latency lies between the least and the greatest of its phase.
pub proof fn means_lie_between(points: Seq<PointView>, low: u64, high: u64)
    requires
        points.len() <= MAX_POINTS,
        exists|i: int| 0 <= i < points.len() && (#[trigger] points[i]).phase == "overlap"@,
        forall|i: int|
            0 <= i < points.len() && (#[trigger] points[i]).phase == "overlap"@ ==> low
                <= points[i].query_latency.p99 <= high,
    ensures
        ({
            let mean = Scorecard::of(metrics::derived(points)).overlap_p99_ns;
            low * mean.den <= mean.num <= high * mean.den
        }),
{
    let p99 = |p: PointView| p.query_latency.p99 as int;
    means_agree(points, "overlap"@, Measure::P99, p99);
    let a = |p: PointView| low as int;
    let b = |p: PointView| high as int;
    total_of_less(points, "overlap"@, a, p99);
    total_of_less(points, "overlap"@, p99, b);
    total_of_constant(points, "overlap"@, low as int);
    total_of_constant(points, "overlap"@, high as int);
    let i = choose|i: int| 0 <= i < points.len() && (#[trigger] points[i]).phase == "overlap"@;
    one_is_counted(points, "overlap"@, i);
}

proof fn one_is_counted(points: Seq<PointView>, phase: Seq<char>, i: int)
    requires
        0 <= i < points.len(),
        points[i].phase == phase,
    ensures
        seconds(points, phase) > 0,
    decreases points.len(),
{
    lengths_agree(points.drop_last(), phase);
    if i < points.len() - 1 {
        assert(points.drop_last()[i] == points[i]);
        one_is_counted(points.drop_last(), phase, i);
    }
}

/// The degradation is the mean latency of the overlap over that of the baseline.
pub proof fn the_degradation_is_overlap_over_baseline(points: Seq<PointView>)
    requires
        points.len() <= MAX_POINTS,
    ensures
        ({
            let card = Scorecard::of(metrics::derived(points));
            let r = card.p99_degradation_ratio;
            let before = card.baseline_p99_ns;
            let during = card.overlap_p99_ns;
            &&& is_quotient(r, during.num * before.den, during.den * before.num)
            &&& before.num > 0 && during.num * before.den > before.num * during.den ==> r.num > r.den
            &&& before.num > 0 && during.num * before.den < before.num * during.den ==> r.num < r.den
        }),
{
    let p99 = |p: PointView| p.query_latency.p99 as int;
    means_agree(points, "baseline"@, Measure::P99, p99);
    means_agree(points, "overlap"@, Measure::P99, p99);
    let before = metrics::phase_mean(points, "baseline"@, Measure::P99);
    let during = metrics::phase_mean(points, "overlap"@, Measure::P99);
    assert(0 <= during.num * before.den <= MAX_POINTS * 0xffff_ffff_ffff_ffff * MAX_POINTS)
        by (nonlinear_arith)
        requires
            0 <= during.num <= MAX_POINTS * 0xffff_ffff_ffff_ffff,
            0 <= before.den <= MAX_POINTS,
    ;
    assert(0 <= during.den * before.num <= MAX_POINTS * 0xffff_ffff_ffff_ffff * MAX_POINTS)
        by (nonlinear_arith)
        requires
            0 <= before.num <= MAX_POINTS * 0xffff_ffff_ffff_ffff,
            0 <= during.den <= MAX_POINTS,
    ;
    exact(during.num * before.den, during.den * before.num);
    assert(during.den * before.num == before.num * during.den) by (nonlinear_arith);
    if before.num > 0 {
        assert(during.den * before.num > 0) by (nonlinear_arith)
            requires
                during.den > 0,
                before.num > 0,
        ;
    }
}

/// What was done in the overlap over what was aimed at: the target is that of the phase's first
/// second, for each of its seconds.
pub proof fn throughput_is_done_over_aimed_at(points: Seq<PointView>, first: int)
    requires
        points.len() <= MAX_POINTS,
        0 <= first < points.len(),
        points[first].phase == "overlap"@,
        forall|k: int| 0 <= k < first ==> (#[trigger] points[k]).phase != "overlap"@,
    ensures
        ({
            let d = metrics::derived(points);
            let n = seconds(points, "overlap"@);
            let executed = total(points, "overlap"@, |p: PointView| p.query_executed as int);
            let produced = total(points, "overlap"@, |p: PointView| p.ingest_events_produced as int);
            &&& is_quotient(
                d.query_throughput_ratio,
                executed * 1_000_000,
                n * points[first].query_target_uqps,
            )
            &&& is_quotient(
                d.ingest_throughput_ratio,
                produced,
                n * points[first].ingest_target_eps,
            )
        }),
{
    let done = |p: PointView| p.query_executed as int;
    let made = |p: PointView| p.ingest_events_produced as int;
    totals_agree(points, "overlap"@, Measure::Executed, done);
    totals_agree(points, "overlap"@, Measure::Produced, made);
    lengths_agree(points, "overlap"@);
    first_is_found(points, "overlap"@, first, 0);
    let n = seconds(points, "overlap"@);
    let p = points[first];
    fits(points.len() as int, total(points, "overlap"@, done));
    fits(points.len() as int, total(points, "overlap"@, made));
    assert(0 <= n * p.query_target_uqps <= MAX_POINTS * 0xffff_ffff_ffff_ffff) by (nonlinear_arith)
        requires
            0 <= n <= MAX_POINTS,
            0 <= p.query_target_uqps <= 0xffff_ffff_ffff_ffff,
    ;
    assert(0 <= n * p.ingest_target_eps <= MAX_POINTS * 0xffff_ffff_ffff_ffff) by (nonlinear_arith)
        requires
            0 <= n <= MAX_POINTS,
            0 <= p.ingest_target_eps <= 0xffff_ffff_ffff_ffff,
    ;
    exact(total(points, "overlap"@, done) * 1_000_000, n * p.query_target_uqps);
    exact(total(points, "overlap"@, made), n * p.ingest_target_eps);
}

proof fn first_is_found(points: Seq<PointView>, phase: Seq<char>, first: int, i: int)
    requires
        0 <= i <= first < points.len(),
        points[first].phase == phase,
        forall|k: int| 0 <= k < first ==> (#[trigger] points[k]).phase != phase,
    ensures
        metrics::first_in_phase(points, phase, i) == Some(points[first]),
    decreases first - i,
{
    if i < first {
        assert(points[i].phase != phase);
        first_is_found(points, phase, first, i + 1);
    }
}

/// The peak of what is ingested is the most of any second of the surge or of the overlap.
pub proof fn the_ingest_peak_is_the_most_of_a_second(points: Seq<PointView>)
    ensures
        ({
            let peak = metrics::derived(points).ingest_peak_eps;
            &&& forall|i: int|
                0 <= i < points.len() && ((#[trigger] points[i]).phase == "ingestion_surge"@
                    || points[i].phase == "overlap"@) ==> points[i].ingest_events_produced <= peak
            &&& peak == 0 || exists|i: int|
                0 <= i < points.len() && ((#[trigger] points[i]).phase == "ingestion_surge"@
                    || points[i].phase == "overlap"@) && points[i].ingest_events_produced == peak
        }),
{
    peak_of_phase(points, "ingestion_surge"@);
    peak_of_phase(points, "overlap"@);
}

proof fn peak_of_phase(points: Seq<PointView>, phase: Seq<char>)
    ensures
        ({
            let peak = metrics::phase_peak(points, phase, Measure::Produced);
            &&& 0 <= peak <= u64::MAX
            &&& forall|i: int|
                0 <= i < points.len() && (#[trigger] points[i]).phase == phase
                    ==> points[i].ingest_events_produced <= peak
            &&& peak == 0 || exists|i: int|
                0 <= i < points.len() && (#[trigger] points[i]).phase == phase
                    && points[i].ingest_events_produced == peak
        }),
    decreases points.len(),
{
    reveal(Seq::filter);
    let m = Measure::Produced;
    if points.len() > 0 {
        let n = points.len() - 1;
        let front = points.drop_last();
        peak_of_phase(front, phase);
        metrics::in_phase_step(points, phase, n);
        assert(points.take(n) =~= front);
        assert(points.take(n + 1) =~= points);
        let old_peak = metrics::phase_peak(front, phase, m);
        let peak = metrics::phase_peak(points, phase, m);
        if points.last().phase == phase {
            let before = metrics::figures(metrics::in_phase(front, phase), m);
            let longer = metrics::figures(metrics::in_phase(points, phase), m);
            assert(longer =~= before.push(metrics::measured(points.last(), m)));
            assert(longer.drop_last() =~= before);
        }
        assert forall|i: int| 0 <= i < points.len() && (#[trigger] points[i]).phase == phase implies
            points[i].ingest_events_produced <= peak by {
            if i < n {
                assert(front[i] == points[i]);
            }
        }
        if peak != 0 {
            if peak == old_peak {
                let i = choose|i: int|
                    0 <= i < front.len() && (#[trigger] front[i]).phase == phase
                        && front[i].ingest_events_produced == old_peak;
                assert(points[i] == front[i]);
            } else {
                assert(points[n].ingest_events_produced == peak);
            }
        }
    } else {
        assert(metrics::in_phase(points, phase) =~= Seq::empty());
        assert(metrics::figures(metrics::in_phase(points, phase), m) =~= Seq::<int>::empty());
    }
}

/// The greatest lag of a run is that of the scorecard.
pub proof fn the_peak_backlog_is_the_greatest_lag(points: Seq<PointView>)
    ensures
        ({
            let peak = Scorecard::of(metrics::derived(points)).peak_backlog;
            &&& forall|i: int|
                0 <= i < points.len() ==> (#[trigger] points[i]).kafka_consumer_lag <= peak
            &&& points.len() > 0 ==> exists|i: int|
                0 <= i < points.len() && (#[trigger] points[i]).kafka_consumer_lag == peak
            &&& points.len() == 0 ==> peak == 0
        }),
{
    metrics::peak_backlog_is_greatest(points);
    if points.len() == 0 {
        assert(metrics::figures(points, Measure::Lag) =~= Seq::<int>::empty());
    }
}

/// The backlog is drained at a point: its lag is no more than the mean lag of the baseline.
pub open spec fn drained(points: Seq<PointView>, p: PointView) -> bool {
    let n = seconds(points, "baseline"@);
    if n == 0 {
        p.kafka_consumer_lag == 0
    } else {
        p.kafka_consumer_lag * n <= total(
            points,
            "baseline"@,
            |q: PointView| q.kafka_consumer_lag as int,
        )
    }
}

/// The drain time goes from the first second with the greatest lag to the first later one at
/// which the backlog is drained; where it is never drained there is none.
pub proof fn the_drain_time_goes_from_the_peak(points: Seq<PointView>, top: int)
    requires
        points.len() <= MAX_POINTS,
        0 <= top < points.len(),
        forall|i: int|
            0 <= i < points.len() ==> (#[trigger] points[i]).kafka_consumer_lag
                <= points[top].kafka_consumer_lag,
        forall|i: int|
            0 <= i < top ==> (#[trigger] points[i]).kafka_consumer_lag
                < points[top].kafka_consumer_lag,
    ensures
        ({
            let t = Scorecard::of(metrics::derived(points)).backlog_drain_time_s;
            let back = |k: int|
                0 <= k < points.len() && points[k].timestamp_s > points[top].timestamp_s && drained(
                    points,
                    points[k],
                );
            &&& (forall|k: int| !#[trigger] back(k)) ==> t == 0
            &&& forall|k: int|
                #[trigger] back(k) && (forall|j: int| 0 <= j < k ==> !#[trigger] back(j)) ==> t
                    == points[k].timestamp_s - points[top].timestamp_s
        }),
{
    let back = |k: int|
        0 <= k < points.len() && points[k].timestamp_s > points[top].timestamp_s && drained(
            points,
            points[k],
        );
    let lags = metrics::figures(points, Measure::Lag);
    let peak = model::greatest(lags);
    model::greatest_is_max(lags);
    let w = choose|k: int| 0 <= k < lags.len() && lags[k] == peak;
    assert(points[w].kafka_consumer_lag == peak);
    assert(lags[top] == points[top].kafka_consumer_lag);
    assert(peak == points[top].kafka_consumer_lag);
    peak_is_at(points, top, 0);
    let at = points[top].timestamp_s as int;
    let level = metrics::drained_level(points);
    means_agree(points, "baseline"@, Measure::Lag, |q: PointView| q.kafka_consumer_lag as int);
    assert forall|k: int| 0 <= k < points.len() implies (drained(points, #[trigger] points[k])
        <==> points[k].kafka_consumer_lag <= level) by {
        let mean = metrics::phase_mean(points, "baseline"@, Measure::Lag);
        at_most_floor(points[k].kafka_consumer_lag as int, mean.num as int, mean.den as int);
        lengths_agree(points, "baseline"@);
        assert(points[k].kafka_consumer_lag * 1 == points[k].kafka_consumer_lag)
            by (nonlinear_arith);
    }
    if forall|k: int| !#[trigger] back(k) {
        assert forall|k: int| 0 <= k < points.len() implies !(#[trigger] points[k].timestamp_s > at
            && points[k].kafka_consumer_lag <= level) by {
            assert(!back(k));
        }
        never_drained(points, at, level, 0);
    }
    assert forall|k: int|
        #[trigger] back(k) && (forall|j: int| 0 <= j < k ==> !#[trigger] back(j)) implies
        metrics::derived(points).ingest_backlog_drain_time_s == points[k].timestamp_s
        - points[top].timestamp_s by {
        assert forall|j: int| 0 <= j < k implies !(#[trigger] points[j].timestamp_s > at
            && points[j].kafka_consumer_lag <= level) by {
            assert(!back(j));
        }
        drained_at(points, at, level, k, 0);
    }
}

proof fn at_most_floor(x: int, num: int, den: int)
    requires
        den > 0,
        num >= 0,
    ensures
        x <= num / den <==> x * den <= num,
{
    vstd::arithmetic::div_mod::lemma_fundamental_div_mod(num, den);
    let q = num / den;
    let r = num % den;
    if x <= q {
        assert(x * den <= num) by (nonlinear_arith)
            requires
                x <= q,
                num == den * q + r,
                0 <= r,
                den > 0,
        ;
    } else {
        assert(x * den > num) by (nonlinear_arith)
            requires
                x >= q + 1,
                num == den * q + r,
                r < den,
                den > 0,
        ;
    }
}

proof fn peak_is_at(points: Seq<PointView>, top: int, i: int)
    requires
        0 <= i <= top < points.len(),
        forall|k: int|
            0 <= k < top ==> (#[trigger] points[k]).kafka_consumer_lag
                < points[top].kafka_consumer_lag,
    ensures
        metrics::peak_time(points, points[top].kafka_consumer_lag as int, i)
            == points[top].timestamp_s,
    decreases top - i,
{
    if i < top {
        assert(points[i].kafka_consumer_lag < points[top].kafka_consumer_lag);
        peak_is_at(points, top, i + 1);
    }
}

proof fn never_drained(points: Seq<PointView>, at: int, level: int, i: int)
    requires
        0 <= i,
        forall|k: int|
            0 <= k < points.len() ==> !(#[trigger] points[k].timestamp_s > at
                && points[k].kafka_consumer_lag <= level),
    ensures
        metrics::drained_time(points, at, level, i) == at,
    decreases points.len() - i,
{
    if i < points.len() {
        assert(!(points[i].timestamp_s > at && points[i].kafka_consumer_lag <= level));
        never_drained(points, at, level, i + 1);
    }
}

proof fn drained_at(points: Seq<PointView>, at: int, level: int, k: int, i: int)
    requires
        0 <= i <= k < points.len(),
        points[k].timestamp_s > at,
        points[k].kafka_consumer_lag <= level,
        forall|j: int|
            0 <= j < k ==> !(#[trigger] points[j].timestamp_s > at && points[j].kafka_consumer_lag
                <= level),
    ensures
        metrics::drained_time(points, at, level, i) == points[k].timestamp_s,
    decreases k - i,
{
    if i < k {
        assert(!(points[i].timestamp_s > at && points[i].kafka_consumer_lag <= level));
        drained_at(points, at, level, k, i + 1);
    }
}

/// The latency of a point is back: there is one, and it is at most a fifth above the mean of
/// the baseline.
pub open spec fn is_back(points: Seq<PointView>, p: PointView) -> bool {
    let n = seconds(points, "baseline"@);
    let sum = total(points, "baseline"@, |q: PointView| q.query_latency.p99 as int);
    p.query_latency.p99 > 0 && n > 0 && 5 * p.query_latency.p99 * n <= 6 * sum
}

/// The recovery time goes from the first second after the incident to the first such second
/// at which the latency is back.
pub proof fn the_recovery_time_goes_from_the_incident(points: Seq<PointView>, start: int, end: int)
    requires
        points.len() <= MAX_POINTS,
        0 <= start <= end < points.len(),
        after_incident(points[start]),
        forall|k: int| 0 <= k < start ==> !after_incident(#[trigger] points[k]),
        after_incident(points[end]),
        is_back(points, points[end]),
        forall|k: int|
            0 <= k < end && after_incident(#[trigger] points[k]) ==> !is_back(points, points[k]),
        points[start].timestamp_s <= points[end].timestamp_s,
    ensures
        Scorecard::of(metrics::derived(points)).recovery_time_s == points[end].timestamp_s
            - points[start].timestamp_s,
{
    let base = metrics::phase_mean(points, "baseline"@, Measure::P99);
    back_is_recovered(points);
    recovery_starts_at(points, start, 0);
    recovery_ends_at(points, base, end, 0);
}

/// A run that does not recover has a recovery time of a second more than was measured after the
/// incident.
pub proof fn no_recovery_lasts_to_the_end(points: Seq<PointView>, start: int, last: int)
    requires
        points.len() <= MAX_POINTS,
        0 <= start < points.len(),
        0 <= last < points.len(),
        after_incident(points[start]),
        forall|k: int| 0 <= k < start ==> !after_incident(#[trigger] points[k]),
        after_incident(points[last]),
        forall|k: int|
            0 <= k < points.len() && after_incident(#[trigger] points[k])
                ==> points[k].timestamp_s <= points[last].timestamp_s && !is_back(points, points[k]),
        points[last].timestamp_s - points[start].timestamp_s < u64::MAX,
    ensures
        Scorecard::of(metrics::derived(points)).recovery_time_s == points[last].timestamp_s
            - points[start].timestamp_s + 1,
{
    let base = metrics::phase_mean(points, "baseline"@, Measure::P99);
    back_is_recovered(points);
    recovery_starts_at(points, start, 0);
    recovery_never_ends(points, base, 0);
    assert(metrics::is_recovery(points[start]));
    assert(metrics::has_recovery(points));
    recovery_lasts(points, last, points.len() as int);
}

proof fn back_is_recovered(points: Seq<PointView>)
    requires
        points.len() <= MAX_POINTS,
    ensures
        forall|k: int|
            0 <= k < points.len() ==> (is_back(points, #[trigger] points[k])
                <==> metrics::recovered(
                points[k],
                metrics::phase_mean(points, "baseline"@, Measure::P99),
            )),
{
    let p99 = |q: PointView| q.query_latency.p99 as int;
    means_agree(points, "baseline"@, Measure::P99, p99);
    lengths_agree(points, "baseline"@);
    let n = seconds(points, "baseline"@);
    let sum = total(points, "baseline"@, p99);
    let base = metrics::phase_mean(points, "baseline"@, Measure::P99);
    assert forall|k: int| 0 <= k < points.len() implies (is_back(points, #[trigger] points[k])
        <==> metrics::recovered(points[k], base)) by {
        let x = points[k].query_latency.p99 as int;
        if n > 0 {
            assert(x * 10 * n <= 12 * sum <==> 5 * x * n <= 6 * sum) by (nonlinear_arith);
        } else {
            assert(x * 10 * 1 == x * 10) by (nonlinear_arith);
        }
    }
}

proof fn recovery_starts_at(points: Seq<PointView>, start: int, i: int)
    requires
        0 <= i <= start < points.len(),
        after_incident(points[start]),
        forall|k: int| 0 <= k < start ==> !after_incident(#[trigger] points[k]),
    ensures
        metrics::recovery_start(points, i) == points[start].timestamp_s,
    decreases start - i,
{
    if i < start {
        assert(!after_incident(points[i]));
        recovery_starts_at(points, start, i + 1);
    }
}

proof fn recovery_ends_at(points: Seq<PointView>, base: Ratio, end: int, i: int)
    requires
        0 <= i <= end < points.len(),
        after_incident(points[end]),
        metrics::recovered(points[end], base),
        forall|k: int|
            0 <= k < end && after_incident(#[trigger] points[k]) ==> !metrics::recovered(
                points[k],
                base,
            ),
    ensures
        metrics::recovery_end(points, base, i) == Some(points[end].timestamp_s as int),
    decreases end - i,
{
    if i < end {
        assert(after_incident(points[i]) ==> !metrics::recovered(points[i], base));
        recovery_ends_at(points, base, end, i + 1);
    }
}

proof fn recovery_never_ends(points: Seq<PointView>, base: Ratio, i: int)
    requires
        0 <= i,
        forall|k: int|
            0 <= k < points.len() && after_incident(#[trigger] points[k]) ==> !metrics::recovered(
                points[k],
                base,
            ),
    ensures
        metrics::recovery_end(points, base, i) is None,
    decreases points.len() - i,
{
    if i < points.len() {
        assert(after_incident(points[i]) ==> !metrics::recovered(points[i], base));
        recovery_never_ends(points, base, i + 1);
    }
}

proof fn recovery_lasts(points: Seq<PointView>, last: int, n: int)
    requires
        0 <= n <= points.len(),
        0 <= last < points.len(),
        after_incident(points[last]),
        forall|k: int|
            0 <= k < points.len() && after_incident(#[trigger] points[k])
                ==> points[k].timestamp_s <= points[last].timestamp_s,
    ensures
        0 <= metrics::recovery_last(points, n) <= points[last].timestamp_s,
        n > last ==> metrics::recovery_last(points, n) == points[last].timestamp_s,
    decreases n,
{
    if n > 0 {
        recovery_lasts(points, last, n - 1);
        assert(after_incident(points[n - 1]) ==> points[n - 1].timestamp_s
            <= points[last].timestamp_s);
    }
}

/// All queries of the run are counted, whatever their phase.
pub proof fn all_queries_are_counted(points: Seq<PointView>)
    requires
        points.len() <= MAX_POINTS,
    ensures
        metrics::derived(points).query_total_executed == grand_total(
            points,
            |p: PointView| p.query_executed as int,
        ),
{
    grand_totals_agree(points, Measure::Executed, |p: PointView| p.query_executed as int);
    fits(points.len() as int, grand_total(points, |p: PointView| p.query_executed as int));
}

proof fn grand_totals_agree(points: Seq<PointView>, m: Measure, f: spec_fn(PointView) -> int)
    requires
        forall|p: PointView| #[trigger] f(p) == metrics::measured(p, m),
    ensures
        model::sum(metrics::figures(points, m)) == grand_total(points, f),
        0 <= grand_total(points, f) <= points.len() * 0xffff_ffff_ffff_ffff,
    decreases points.len(),
{
    let all = metrics::figures(points, m);
    if points.len() > 0 {
        grand_totals_agree(points.drop_last(), m, f);
        assert(all.drop_last() =~= metrics::figures(points.drop_last(), m));
        assert(f(points.last()) == metrics::measured(points.last(), m));
    } else {
        assert(all =~= Seq::<int>::empty());
    }
}

} // verus!
