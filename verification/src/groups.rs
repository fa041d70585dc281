//! How the groups of query workers fared, before the incident and during it.
use vstd::prelude::*;
use vstd::string::*;
use crate::decimal::Ratio;
use crate::metrics;
use crate::metrics::{AggregatedMetricPoint, GroupMetricsView, PointView, MAX_POINTS};
use crate::model;
use crate::model::Duplicate;
use crate::order;
use crate::text;

verus! {

/// The sums of a group's figures over a phase.
#[derive(Clone, Copy, PartialEq, Eq, Structural, Debug)]
pub struct PhaseFigures {
    /// In how many seconds the group reported.
    pub seconds: u64,
    /// The sum of the 99th percentiles, in nanoseconds.
    pub p99: u128,
    pub executed: u128,
    pub errors: u128,
}

/// The figures of a group.
pub struct GroupFigures {
    pub warehouse: String,
    pub baseline: PhaseFigures,
    pub overlap: PhaseFigures,
}

pub struct GroupFiguresView {
    pub warehouse: Seq<char>,
    pub baseline: PhaseFigures,
    pub overlap: PhaseFigures,
}

impl View for GroupFigures {
    type V = GroupFiguresView;

    open spec fn view(&self) -> GroupFiguresView {
        GroupFiguresView {
            warehouse: self.warehouse@,
            baseline: self.baseline,
            overlap: self.overlap,
        }
    }
}

impl Duplicate for GroupFigures {
    fn duplicate(&self) -> (r: Self) {
        GroupFigures {
            warehouse: self.warehouse.clone(),
            baseline: self.baseline,
            overlap: self.overlap,
        }
    }
}

impl PhaseFigures {
    /// The sums are those of no more seconds than a series may have.
    pub open spec fn wf(self) -> bool {
        &&& self.seconds <= MAX_POINTS
        &&& self.p99 <= MAX_POINTS * 0xffff_ffff_ffff_ffff
        &&& self.executed <= MAX_POINTS * 0xffff_ffff_ffff_ffff
        &&& self.errors <= MAX_POINTS * 0xffff_ffff_ffff_ffff
    }
}

// ---------------------------------------------------------------------------
// One group
// ---------------------------------------------------------------------------

/// What a group reported in a phase, second by second, among the first `n` points.
pub open spec fn reports(points: Seq<PointView>, phase: Seq<char>, group: Seq<char>, n: int) -> Seq<
    GroupMetricsView,
>
    decreases n,
{
    if n <= 0 {
        Seq::empty()
    } else {
        let before = reports(points, phase, group, n - 1);
        match model::find(points[n - 1].groups, group) {
            Some(m) => if points[n - 1].phase == phase {
                before.push(m)
            } else {
                before
            },
            None => before,
        }
    }
}

/// The sums of what was reported.
pub open spec fn summed(r: Seq<GroupMetricsView>) -> PhaseFigures {
    PhaseFigures {
        seconds: r.len() as u64,
        p99: model::sum(r.map_values(|m: GroupMetricsView| m.latency.p99 as int)) as u128,
        executed: model::sum(r.map_values(|m: GroupMetricsView| m.executed as int)) as u128,
        errors: model::sum(r.map_values(|m: GroupMetricsView| m.errors as int)) as u128,
    }
}

/// The warehouse of the first report, where there is one.
pub open spec fn warehouse_in(r: Seq<GroupMetricsView>) -> Option<Seq<char>> {
    if r.len() > 0 {
        Some(r[0].warehouse_name)
    } else {
        None
    }
}

/// The figures of a group: the sums of both phases, and the warehouse that it reported from.
pub open spec fn group_figures(points: Seq<PointView>, group: Seq<char>) -> GroupFiguresView {
    let before = reports(points, "baseline"@, group, points.len() as int);
    let during = reports(points, "overlap"@, group, points.len() as int);
    GroupFiguresView {
        warehouse: match warehouse_in(before) {
            Some(w) => w,
            None => match warehouse_in(during) {
                Some(w) => w,
                None => Seq::empty(),
            },
        },
        baseline: summed(before),
        overlap: summed(during),
    }
}

proof fn sum_push(r: Seq<GroupMetricsView>, m: GroupMetricsView)
    ensures
        ({
            let s = r.push(m);
            &&& model::sum(s.map_values(|m: GroupMetricsView| m.latency.p99 as int)) == model::sum(
                r.map_values(|m: GroupMetricsView| m.latency.p99 as int),
            ) + m.latency.p99
            &&& model::sum(s.map_values(|m: GroupMetricsView| m.executed as int)) == model::sum(
                r.map_values(|m: GroupMetricsView| m.executed as int),
            ) + m.executed
            &&& model::sum(s.map_values(|m: GroupMetricsView| m.errors as int)) == model::sum(
                r.map_values(|m: GroupMetricsView| m.errors as int),
            ) + m.errors
        }),
{
    let s = r.push(m);
    assert(s.map_values(|m: GroupMetricsView| m.latency.p99 as int).drop_last() =~= r.map_values(
        |m: GroupMetricsView| m.latency.p99 as int,
    ));
    assert(s.map_values(|m: GroupMetricsView| m.executed as int).drop_last() =~= r.map_values(
        |m: GroupMetricsView| m.executed as int,
    ));
    assert(s.map_values(|m: GroupMetricsView| m.errors as int).drop_last() =~= r.map_values(
        |m: GroupMetricsView| m.errors as int,
    ));
}

fn sum_reports(points: &Vec<AggregatedMetricPoint>, phase: &str, group: &str) -> (r: (
    PhaseFigures,
    Option<String>,
))
    requires
        points@.len() <= MAX_POINTS,
    ensures
        ({
            let all = reports(model::vmap(points@), phase@, group@, points@.len() as int);
            r.0 == summed(all) && text::opt_view(r.1) == warehouse_in(all)
        }),
        r.0.wf(),
{
    let ghost all = model::vmap(points@);
    let mut seconds: u64 = 0;
    let mut p99: u128 = 0;
    let mut executed: u128 = 0;
    let mut errors: u128 = 0;
    let mut warehouse: Option<String> = None;
    let mut i: usize = 0;
    proof {
        let none = Seq::<GroupMetricsView>::empty();
        assert(none.map_values(|m: GroupMetricsView| m.latency.p99 as int) =~= Seq::<int>::empty());
        assert(none.map_values(|m: GroupMetricsView| m.executed as int) =~= Seq::<int>::empty());
        assert(none.map_values(|m: GroupMetricsView| m.errors as int) =~= Seq::<int>::empty());
    }
    while i < points.len()
        invariant
            i <= points@.len() <= MAX_POINTS,
            all == model::vmap(points@),
            seconds == reports(all, phase@, group@, i as int).len(),
            p99 == model::sum(
                reports(all, phase@, group@, i as int).map_values(
                    |m: GroupMetricsView| m.latency.p99 as int,
                ),
            ),
            executed == model::sum(
                reports(all, phase@, group@, i as int).map_values(
                    |m: GroupMetricsView| m.executed as int,
                ),
            ),
            errors == model::sum(
                reports(all, phase@, group@, i as int).map_values(
                    |m: GroupMetricsView| m.errors as int,
                ),
            ),
            text::opt_view(warehouse) == warehouse_in(reports(all, phase@, group@, i as int)),
            seconds <= i,
            p99 <= i * 0xffff_ffff_ffff_ffff,
            executed <= i * 0xffff_ffff_ffff_ffff,
            errors <= i * 0xffff_ffff_ffff_ffff,
        decreases points@.len() - i,
    {
        let ghost before = reports(all, phase@, group@, i as int);
        assert(all[i as int] == points@[i as int]@);
        match model::find_in(&points[i].query_group_metrics, group) {
            Some(m) => {
                if text::same(points[i].phase.as_str(), phase) {
                    proof {
                        sum_push(before, m@);
                    }
                    if seconds == 0 {
                        warehouse = Some(m.warehouse_name.clone());
                    }
                    seconds = seconds + 1;
                    p99 = p99 + m.latency.p99 as u128;
                    executed = executed + m.executed as u128;
                    errors = errors + m.errors as u128;
                }
            },
            None => {},
        }
        i += 1;
    }
    assert(i * 0xffff_ffff_ffff_ffff <= MAX_POINTS * 0xffff_ffff_ffff_ffff) by (nonlinear_arith)
        requires
            i <= MAX_POINTS,
    ;
    (PhaseFigures { seconds, p99, executed, errors }, warehouse)
}

fn figures_of(points: &Vec<AggregatedMetricPoint>, group: &str) -> (r: GroupFigures)
    requires
        points@.len() <= MAX_POINTS,
    ensures
        r@ == group_figures(model::vmap(points@), group@),
        r@.baseline.wf() && r@.overlap.wf(),
{
    let (baseline, before) = sum_reports(points, "baseline", group);
    let (overlap, during) = sum_reports(points, "overlap", group);
    let warehouse = match before {
        Some(w) => w,
        None => match during {
            Some(w) => w,
            None => String::new(),
        },
    };
    let r = GroupFigures { warehouse, baseline, overlap };
    assert(r@.warehouse =~= group_figures(model::vmap(points@), group@).warehouse);
    r
}

// ---------------------------------------------------------------------------
// All groups
// ---------------------------------------------------------------------------

/// A list of names and those of the first `k` entries that it lacks.
pub open spec fn with_names(
    names: Seq<Seq<char>>,
    entries: Seq<(Seq<char>, GroupMetricsView)>,
    k: int,
) -> Seq<Seq<char>>
    decreases k,
{
    if k <= 0 {
        names
    } else {
        let before = with_names(names, entries, k - 1);
        if before.contains(entries[k - 1].0) {
            before
        } else {
            before.push(entries[k - 1].0)
        }
    }
}

/// The names of the groups that the first `n` points speak of, each once.
pub open spec fn names_upto(points: Seq<PointView>, n: int) -> Seq<Seq<char>>
    decreases n,
{
    if n <= 0 {
        Seq::empty()
    } else {
        with_names(
            names_upto(points, n - 1),
            points[n - 1].groups,
            points[n - 1].groups.len() as int,
        )
    }
}

/// The names of all groups, each once.
pub open spec fn group_names(points: Seq<PointView>) -> Seq<Seq<char>> {
    names_upto(points, points.len() as int)
}

/// The figures of all groups, in the order of their names.
pub open spec fn all_figures(points: Seq<PointView>) -> Seq<(Seq<char>, GroupFiguresView)> {
    let names = group_names(points);
    order::by_name(
        names.map_values(|n: Seq<char>| (n, group_figures(points, n))),
        names.len() as int,
    )
}

fn names_of(points: &Vec<AggregatedMetricPoint>) -> (r: Vec<String>)
    ensures
        text::views(r@) == group_names(model::vmap(points@)),
{
    let ghost all = model::vmap(points@);
    let mut out: Vec<String> = Vec::new();
    let mut i: usize = 0;
    assert(text::views(out@) =~= Seq::<Seq<char>>::empty());
    while i < points.len()
        invariant
            i <= points@.len(),
            all == model::vmap(points@),
            text::views(out@) == names_upto(all, i as int),
        decreases points@.len() - i,
    {
        let entries = &points[i].query_group_metrics;
        let ghost seen = names_upto(all, i as int);
        let ghost g = all[i as int].groups;
        assert(all[i as int] == points@[i as int]@);
        let mut k: usize = 0;
        while k < entries.len()
            invariant
                k <= entries@.len(),
                g == model::vmap(entries@),
                text::views(out@) == with_names(seen, g, k as int),
            decreases entries@.len() - k,
        {
            broadcast use model::views_push;

            assert(g[k as int] == entries@[k as int]@);
            if !text::list_has(&out, entries[k].0.as_str()) {
                out.push(entries[k].0.clone());
            }
            k += 1;
        }
        i += 1;
    }
    out
}

/// All sums are those of no more seconds than a series may have.
pub open spec fn figures_wf(f: Seq<(Seq<char>, GroupFiguresView)>) -> bool {
    forall|k: int|
        0 <= k < f.len() ==> (#[trigger] f[k]).1.baseline.wf() && f[k].1.overlap.wf()
}

proof fn placed_keeps_wf(s: Seq<(Seq<char>, GroupFiguresView)>, e: (Seq<char>, GroupFiguresView))
    requires
        figures_wf(s),
        e.1.baseline.wf() && e.1.overlap.wf(),
    ensures
        figures_wf(order::placed(s, e)),
    decreases s.len(),
{
    if s.len() > 0 && !order::name_le(s.last().0, e.0) {
        placed_keeps_wf(s.drop_last(), e);
    }
}

proof fn by_name_keeps_wf(s: Seq<(Seq<char>, GroupFiguresView)>, n: int)
    requires
        figures_wf(s),
        n <= s.len(),
    ensures
        figures_wf(order::by_name(s, n)),
    decreases n,
{
    if n > 0 {
        by_name_keeps_wf(s, n - 1);
        placed_keeps_wf(order::by_name(s, n - 1), s[n - 1]);
    }
}

/// The figures of all groups, in the order of their names.
pub fn compare_groups(points: &Vec<AggregatedMetricPoint>) -> (r: Vec<(String, GroupFigures)>)
    requires
        points@.len() <= MAX_POINTS,
    ensures
        model::vmap(r@) == all_figures(model::vmap(points@)),
        figures_wf(model::vmap(r@)),
{
    let ghost all = model::vmap(points@);
    let names = names_of(points);
    let ghost want = group_names(all).map_values(|n: Seq<char>| (n, group_figures(all, n)));
    let mut list: Vec<(String, GroupFigures)> = Vec::new();
    let mut i: usize = 0;
    assert(model::vmap(list@) =~= want.take(0));
    while i < names.len()
        invariant
            i <= names@.len(),
            points@.len() <= MAX_POINTS,
            all == model::vmap(points@),
            text::views(names@) == group_names(all),
            want == group_names(all).map_values(|n: Seq<char>| (n, group_figures(all, n))),
            model::vmap(list@) == want.take(i as int),
            figures_wf(model::vmap(list@)),
        decreases names@.len() - i,
    {
        broadcast use model::vmap_push, model::take_push;

        assert(text::views(names@)[i as int] == names@[i as int]@);
        let f = figures_of(points, names[i].as_str());
        list.push((names[i].clone(), f));
        i += 1;
    }
    assert(want.take(i as int) =~= want);
    proof {
        by_name_keeps_wf(model::vmap(list@), list@.len() as int);
    }
    order::sort_by_name(&list)
}

/// Every group that a point speaks of is named once, and the figures come in the order of
/// the names.
pub proof fn every_group_is_named_once(points: Seq<PointView>, i: int, k: int)
    requires
        0 <= i < points.len(),
        0 <= k < points[i].groups.len(),
    ensures
        group_names(points).contains(points[i].groups[k].0),
        group_names(points).no_duplicates(),
        order::names_ascend(all_figures(points)),
{
    names_once(points, points.len() as int);
    names_hold(points, points.len() as int, i, k);
    let names = group_names(points);
    order::by_name_ascends(
        names.map_values(|n: Seq<char>| (n, group_figures(points, n))),
        names.len() as int,
    );
}

proof fn added_once(
    names: Seq<Seq<char>>,
    entries: Seq<(Seq<char>, GroupMetricsView)>,
    k: int,
    other: Seq<char>,
)
    requires
        names.no_duplicates(),
        0 <= k <= entries.len(),
    ensures
        with_names(names, entries, k).no_duplicates(),
        names.contains(other) ==> with_names(names, entries, k).contains(other),
    decreases k,
{
    if k > 0 {
        added_once(names, entries, k - 1, other);
        let before = with_names(names, entries, k - 1);
        let longer = before.push(entries[k - 1].0);
        if names.contains(other) {
            let at = before.index_of(other);
            assert(before[at] == other);
            assert(longer[at] == other);
        }
    }
}

proof fn added(names: Seq<Seq<char>>, entries: Seq<(Seq<char>, GroupMetricsView)>, k: int, m: int)
    requires
        names.no_duplicates(),
        0 <= m < k <= entries.len(),
    ensures
        with_names(names, entries, k).contains(entries[m].0),
    decreases k,
{
    let before = with_names(names, entries, k - 1);
    let longer = before.push(entries[k - 1].0);
    if m < k - 1 {
        added(names, entries, k - 1, m);
        let at = before.index_of(entries[m].0);
        assert(before[at] == entries[m].0);
        assert(longer[at] == entries[m].0);
    } else {
        assert(longer[before.len() as int] == entries[m].0);
    }
}

proof fn names_once(points: Seq<PointView>, n: int)
    requires
        n <= points.len(),
    ensures
        names_upto(points, n).no_duplicates(),
    decreases n,
{
    if n > 0 {
        names_once(points, n - 1);
        added_once(
            names_upto(points, n - 1),
            points[n - 1].groups,
            points[n - 1].groups.len() as int,
            Seq::empty(),
        );
    }
}

proof fn names_hold(points: Seq<PointView>, n: int, i: int, k: int)
    requires
        0 <= i < n <= points.len(),
        0 <= k < points[i].groups.len(),
    ensures
        names_upto(points, n).contains(points[i].groups[k].0),
    decreases n,
{
    names_once(points, n - 1);
    let g = points[n - 1].groups;
    if i < n - 1 {
        names_hold(points, n - 1, i, k);
        added_once(names_upto(points, n - 1), g, g.len() as int, points[i].groups[k].0);
    } else {
        added(names_upto(points, n - 1), g, g.len() as int, k);
    }
}

// ---------------------------------------------------------------------------
// Means and ratios
// ---------------------------------------------------------------------------

impl PhaseFigures {
    /// The mean of the 99th percentiles, in nanoseconds.
    pub open spec fn mean_p99(self) -> Ratio {
        metrics::quotient(self.p99 as int, self.seconds as int)
    }

    /// The share of queries that failed.
    pub open spec fn error_rate(self) -> Ratio {
        metrics::quotient(self.errors as int, self.executed as int)
    }

    /// Queries per second, over so many seconds.
    pub open spec fn rate_over(self, seconds: u64) -> Ratio {
        metrics::quotient(self.executed as int, seconds as int)
    }

    /// The mean of the 99th percentiles, in nanoseconds.
    pub fn p99_mean(&self) -> (r: Ratio)
        requires
            self.wf(),
        ensures
            r == self.mean_p99(),
            0 < r.den <= MAX_POINTS,
            r.num <= MAX_POINTS * 0xffff_ffff_ffff_ffff,
    {
        metrics::ratio_of(self.p99, self.seconds as u128)
    }

    /// The share of queries that failed.
    pub fn failed_share(&self) -> (r: Ratio)
        requires
            self.wf(),
        ensures
            r == self.error_rate(),
            0 < r.den <= MAX_POINTS * 0xffff_ffff_ffff_ffff,
            r.num <= MAX_POINTS * 0xffff_ffff_ffff_ffff,
    {
        metrics::ratio_of(self.errors, self.executed)
    }

    /// Queries per second, over so many seconds.
    pub fn queries_over(&self, seconds: u64) -> (r: Ratio)
        requires
            self.wf(),
        ensures
            r == self.rate_over(seconds),
            0 < r.den <= u64::MAX,
            r.num <= MAX_POINTS * 0xffff_ffff_ffff_ffff,
    {
        metrics::ratio_of(self.executed, seconds as u128)
    }
}

impl GroupFiguresView {
    /// How many times the latency of the baseline that of the overlap is.
    pub open spec fn degradation(self) -> Ratio {
        let before = self.baseline.mean_p99();
        let during = self.overlap.mean_p99();
        metrics::quotient(during.num * before.den, during.den * before.num)
    }
}

impl GroupFigures {
    /// How many times the latency of the baseline that of the overlap is.
    pub fn degradation_ratio(&self) -> (r: Ratio)
        requires
            self@.baseline.wf(),
            self@.overlap.wf(),
        ensures
            r == self@.degradation(),
            metrics::bounded(r),
    {
        let before = self.baseline.p99_mean();
        let during = self.overlap.p99_mean();
        assert(0 <= during.num * before.den <= MAX_POINTS * 0xffff_ffff_ffff_ffff * MAX_POINTS)
            by (nonlinear_arith)
            requires
                0 <= during.num <= MAX_POINTS * 0xffff_ffff_ffff_ffff,
                0 <= before.den <= MAX_POINTS,
        ;
        assert(0 <= during.den * before.num <= MAX_POINTS * 0xffff_ffff_ffff_ffff * MAX_POINTS)
            by (nonlinear_arith)
            requires
                0 <= before.num <= MAX_POINTS * 0xffff_ffff_ffff_ffff,
                0 <= during.den <= MAX_POINTS,
        ;
        metrics::ratio_of(during.num * before.den, during.den * before.num)
    }
}

} // verus!
