//! The query worker: which query comes next, what its variables are, how the worker follows
//! the phases, and what it reports.
use rand_chacha::ChaCha8Rng;
use vstd::prelude::*;
use vstd::string::*;
use crate::barrier::PhaseEvent;
use crate::chance;
use crate::chance::{Course, Request};
use crate::failures::WorkerIdentity;
use crate::json::Json;
use crate::mix;
use crate::mix::PhaseMix;
use crate::model;
use crate::model::Duplicate;
use crate::rates;
use crate::scenario::{
    CategoryView, IterationMode, QueryCategory, QueryDef, QueryMix, QuerySession, QueryView,
    RateView, SessionView, WorkerPhaseRate, WorkerRateTable,
};
use crate::seeds;
use crate::snapshot::{SnapshotView, WorkerMetricSnapshot};
use crate::tally;
use crate::tally::{Circumstances, Tally, TallyView};
use crate::text;

verus! {

/// How many digits an identifier of a trace has.
pub const TRACE_DIGITS: usize = 32;

/// What a query worker is told.
pub struct QueryWorkerConfig {
    pub worker_index: u32,
    pub run_seed: u64,
    /// The queries, with those of the group already picked.
    pub query_mix: QueryMix,
    /// How likely each of them is in each phase.
    pub phase_mixes: Vec<PhaseMix>,
    pub rate_table: WorkerRateTable,
    /// Where the group's warehouse answers queries.
    pub query_endpoint: String,
    /// Empty where there are no groups.
    pub query_group: String,
    pub target_adapter: String,
    pub target_config: Json,
    pub phase_controller_addr: String,
    pub aggregator_addr: String,
    /// Where there is one, the worker runs sessions and keeps no rate.
    pub query_session: Option<QuerySession>,
    /// The time limit of the queries of a session that have none.
    pub default_timeout_ms: u64,
}

// ---------------------------------------------------------------------------
// The queries of a category
// ---------------------------------------------------------------------------

/// A category of a session, and the place of the query that comes next.
pub struct SessionCategory {
    pub name: String,
    pub queries: Vec<QueryDef>,
    pub iteration: IterationMode,
    pub parallelism: usize,
    pub cursor: usize,
}

pub struct SessionCategoryView {
    pub name: Seq<char>,
    pub queries: Seq<QueryView>,
    pub iteration: IterationMode,
    pub parallelism: nat,
    pub cursor: nat,
}

impl View for SessionCategory {
    type V = SessionCategoryView;

    open spec fn view(&self) -> SessionCategoryView {
        SessionCategoryView {
            name: self.name@,
            queries: model::vmap(self.queries@),
            iteration: self.iteration,
            parallelism: self.parallelism as nat,
            cursor: self.cursor as nat,
        }
    }
}

/// Where a generator is after so many choices among `n`.
pub open spec fn course_after_choices(c: Course, n: nat, choices: nat) -> Course
    decreases choices,
{
    if choices == 0 {
        c
    } else {
        course_after_choices(c, n, (choices - 1) as nat).after(
            Request::Choice { weights: mix::equal_weights(n) },
        )
    }
}

/// The places that come next in a row of `n`, from `cursor` on and from the start again.
pub open spec fn in_turn(cursor: nat, n: nat, count: nat) -> Seq<int> {
    Seq::new(count, |i: int| (cursor + i) % n as int)
}

/// Places chosen among `n`, all equally likely.
pub open spec fn at_random(c: Course, n: nat, count: nat) -> Seq<int> {
    Seq::new(
        count,
        |i: int|
            chance::query_choice(course_after_choices(c, n, i as nat), mix::equal_weights(n)) as int,
    )
}

impl SessionCategoryView {
    /// There are queries, and the cursor stands on one.
    pub open spec fn wf(self) -> bool {
        self.cursor < self.queries.len()
    }

    /// The places of the queries that come next.
    pub open spec fn batch(self, c: Course) -> Seq<int> {
        match self.iteration {
            IterationMode::Sequential => in_turn(
                self.cursor,
                self.queries.len(),
                self.parallelism,
            ),
            IterationMode::WeightedRandom => at_random(c, self.queries.len(), self.parallelism),
        }
    }

    /// The category when they have been taken.
    pub open spec fn advanced(self) -> SessionCategoryView {
        match self.iteration {
            IterationMode::Sequential => SessionCategoryView {
                cursor: (self.cursor + self.parallelism) % self.queries.len(),
                ..self
            },
            IterationMode::WeightedRandom => self,
        }
    }

    /// The generator when they have been taken.
    pub open spec fn course_after(self, c: Course) -> Course {
        match self.iteration {
            IterationMode::Sequential => c,
            IterationMode::WeightedRandom => course_after_choices(
                c,
                self.queries.len(),
                self.parallelism,
            ),
        }
    }
}

/// Picks one of the queries by their weights; one without weight is never picked.
pub fn choose_query(weights: &Vec<u64>, rng: &mut ChaCha8Rng) -> (r: usize)
    requires
        chance::can_choose(weights@),
    ensures
        r < weights@.len(),
        weights@[r as int] > 0,
        r == chance::query_choice(chance::query_course(*old(rng)), weights@),
        chance::query_course(*final(rng)) == chance::query_course(*old(rng)).after(
            Request::Choice { weights: weights@ },
        ),
{
    chance::query_choose_weighted(rng, weights)
}

impl SessionCategory {
    /// A category at its first query.
    pub fn from_query_category(category: &QueryCategory) -> (r: SessionCategory)
        ensures
            r@ == (SessionCategoryView {
                name: category@.name,
                queries: category@.queries,
                iteration: category@.iteration,
                parallelism: category@.parallelism as nat,
                cursor: 0,
            }),
    {
        SessionCategory {
            name: category.name.clone(),
            queries: model::duplicate_list(&category.queries),
            iteration: category.iteration,
            parallelism: category.parallelism,
            cursor: 0,
        }
    }

    /// The places of the queries that come next. One after the other, they follow those
    /// that came before.
    pub fn next_batch_indices(&mut self, rng: &mut ChaCha8Rng) -> (r: Vec<usize>)
        requires
            old(self)@.wf(),
            old(self)@.queries.len() + old(self)@.parallelism <= usize::MAX,
        ensures
            r@.map_values(|i: usize| i as int) == old(self)@.batch(
                chance::query_course(*old(rng)),
            ),
            forall|k: int| 0 <= k < r@.len() ==> (#[trigger] r@[k]) < old(self)@.queries.len(),
            final(self)@ == old(self)@.advanced(),
            final(self)@.wf(),
            chance::query_course(*final(rng)) == old(self)@.course_after(
                chance::query_course(*old(rng)),
            ),
    {
        let ghost before = self@;
        let ghost c = chance::query_course(*rng);
        let ghost n = before.queries.len();
        let len: usize = self.queries.len();
        let mut out: Vec<usize> = Vec::new();
        match self.iteration {
            IterationMode::Sequential => {
                let ghost want = in_turn(before.cursor, n, before.parallelism);
                let cursor: usize = self.cursor;
                let count: usize = self.parallelism;
                let mut i: usize = 0;
                assert(out@.map_values(|i: usize| i as int) =~= want.take(0));
                while i < count
                    invariant
                        i <= count,
                        count == before.parallelism,
                        cursor == before.cursor,
                        len == n,
                        n == before.queries.len(),
                        before.wf(),
                        n + before.parallelism <= usize::MAX,
                        want == in_turn(before.cursor, n, before.parallelism),
                        out@.map_values(|i: usize| i as int) == want.take(i as int),
                        forall|k: int| 0 <= k < out@.len() ==> (#[trigger] out@[k]) < n,
                    decreases count - i,
                {
                    let ghost sofar = out@;
                    out.push((cursor + i) % len);
                    i += 1;
                    assert(out@.map_values(|i: usize| i as int) =~= sofar.map_values(
                        |i: usize| i as int,
                    ).push(want[i - 1]));
                    assert(want.take(i as int) =~= want.take(i - 1).push(want[i - 1]));
                }
                assert(want.take(i as int) =~= want);
                self.cursor = (cursor + count) % len;
            },
            IterationMode::WeightedRandom => {
                let ghost want = at_random(c, n, before.parallelism);
                let count: usize = self.parallelism;
                let weights = mix::weights_of_one(len);
                let mut i: usize = 0;
                assert(out@.map_values(|i: usize| i as int) =~= want.take(0));
                while i < count
                    invariant
                        i <= count,
                        count == before.parallelism,
                        weights@ == mix::equal_weights(n),
                        chance::can_choose(weights@),
                        n == before.queries.len(),
                        before.wf(),
                        want == at_random(c, n, before.parallelism),
                        out@.map_values(|i: usize| i as int) == want.take(i as int),
                        forall|k: int| 0 <= k < out@.len() ==> (#[trigger] out@[k]) < n,
                        chance::query_course(*rng) == course_after_choices(c, n, i as nat),
                    decreases count - i,
                {
                    let ghost sofar = out@;
                    out.push(choose_query(&weights, rng));
                    i += 1;
                    assert(out@.map_values(|i: usize| i as int) =~= sofar.map_values(
                        |i: usize| i as int,
                    ).push(want[i - 1]));
                    assert(want.take(i as int) =~= want.take(i - 1).push(want[i - 1]));
                }
                assert(want.take(i as int) =~= want);
            },
        }
        out
    }
}

/// Batches taken one after the other go on where the one before ended: what stands at place
/// `i` of the next batch is what would stand `count` places later in this one.
pub proof fn batches_continue(cursor: nat, n: nat, count: nat, i: int)
    requires
        cursor < n,
        0 <= i,
    ensures
        (((cursor + count) % n) + i) % n as int == (cursor + count + i) % n as int,
{
    let m = n as int;
    let a = (cursor + count) as int;
    assert((a % m + i) % m == (a + i) % m) by {
        vstd::arithmetic::div_mod::lemma_add_mod_noop(a, i, m);
        vstd::arithmetic::div_mod::lemma_add_mod_noop(a % m, i, m);
        vstd::arithmetic::div_mod::lemma_mod_twice(a, m);
    }
}

/// Taken one after the other, `n` queries are each of the `n` queries once.
pub proof fn every_query_has_its_turn(cursor: nat, n: nat, query: int)
    requires
        cursor < n,
        0 <= query < n,
    ensures
        in_turn(cursor, n, n).contains(query),
        in_turn(cursor, n, n).no_duplicates(),
{
    let all = in_turn(cursor, n, n);
    let i = if query >= cursor {
        query - cursor
    } else {
        query - cursor + n
    };
    assert forall|k: int| 0 <= k < n implies #[trigger] all[k] == (if cursor + k < n {
        cursor + k
    } else {
        cursor + k - n
    }) by {
        turn(cursor + k, n as int);
    }
    assert(all[i] == query);
}

proof fn turn(x: int, n: int)
    requires
        0 <= x < 2 * n,
    ensures
        x % n == (if x < n {
            x
        } else {
            x - n
        }),
{
    if x < n {
        vstd::arithmetic::div_mod::lemma_small_mod(x as nat, n as nat);
    } else {
        vstd::arithmetic::div_mod::lemma_mod_sub_multiples_vanish(x, n);
        vstd::arithmetic::div_mod::lemma_small_mod((x - n) as nat, n as nat);
    }
}

// ---------------------------------------------------------------------------
// The work of a session
// ---------------------------------------------------------------------------

/// A query that a session runs, and the category that it runs it for.
pub struct SessionWork {
    pub category: String,
    pub query: QueryDef,
    pub timeout_ms: u64,
}

pub struct WorkView {
    pub category: Seq<char>,
    pub query: QueryView,
    pub timeout_ms: u64,
}

impl View for SessionWork {
    type V = WorkView;

    open spec fn view(&self) -> WorkView {
        WorkView {
            category: self.category@,
            query: self.query@,
            timeout_ms: self.timeout_ms,
        }
    }
}

/// The work that a category adds to a round.
pub open spec fn category_work(cat: SessionCategoryView, c: Course, default_timeout_ms: u64) -> Seq<
    WorkView,
> {
    cat.batch(c).map_values(
        |i: int|
            WorkView {
                category: cat.name,
                query: cat.queries[i],
                timeout_ms: tally::session_limit(cat.queries[i], default_timeout_ms),
            },
    )
}

/// Where the generator is when the first `n` categories have been asked.
pub open spec fn course_after_categories(cats: Seq<SessionCategoryView>, c: Course, n: int) -> Course
    decreases n,
{
    if n <= 0 {
        c
    } else {
        cats[n - 1].course_after(course_after_categories(cats, c, n - 1))
    }
}

/// The work of a round: what each of the first `n` categories adds.
pub open spec fn round_work(
    cats: Seq<SessionCategoryView>,
    c: Course,
    default_timeout_ms: u64,
    n: int,
) -> Seq<WorkView>
    decreases n,
{
    if n <= 0 {
        Seq::empty()
    } else {
        round_work(cats, c, default_timeout_ms, n - 1) + category_work(
            cats[n - 1],
            course_after_categories(cats, c, n - 1),
            default_timeout_ms,
        )
    }
}

/// The categories of a session, each at its first query.
pub open spec fn first_categories(session: SessionView) -> Seq<SessionCategoryView> {
    session.categories.map_values(
        |category: CategoryView|
            SessionCategoryView {
                name: category.name,
                queries: category.queries,
                iteration: category.iteration,
                parallelism: category.parallelism as nat,
                cursor: 0,
            },
    )
}

/// The categories of a session, each at its first query.
pub fn session_categories(session: &QuerySession) -> (r: Vec<SessionCategory>)
    ensures
        model::vmap(r@) == first_categories(session@),
{
    let ghost all = first_categories(session@);
    let mut out: Vec<SessionCategory> = Vec::new();
    let mut i: usize = 0;
    assert(model::vmap(out@) =~= all.take(0));
    while i < session.categories.len()
        invariant
            i <= session.categories@.len(),
            all == first_categories(session@),
            model::vmap(out@) == all.take(i as int),
        decreases session.categories@.len() - i,
    {
        broadcast use model::vmap_push, model::take_push;

        assert(session@.categories[i as int] == session.categories@[i as int]@);
        out.push(SessionCategory::from_query_category(&session.categories[i]));
        i += 1;
    }
    assert(all.take(i as int) =~= all);
    out
}

/// The categories can all be asked for their next queries.
pub open spec fn can_go_on(cats: Seq<SessionCategoryView>) -> bool {
    forall|k: int|
        #![trigger cats[k]]
        0 <= k < cats.len() ==> cats[k].wf() && cats[k].queries.len() + cats[k].parallelism
            <= usize::MAX
}

/// Whether a session can be run: every category has queries.
pub fn can_run(session: &QuerySession) -> (r: bool)
    ensures
        r == can_go_on(first_categories(session@)),
{
    let ghost cats = first_categories(session@);
    let mut i: usize = 0;
    while i < session.categories.len()
        invariant
            i <= session.categories@.len(),
            cats == first_categories(session@),
            forall|k: int|
                #![trigger cats[k]]
                0 <= k < i ==> cats[k].wf() && cats[k].queries.len() + cats[k].parallelism
                    <= usize::MAX,
        decreases session.categories@.len() - i,
    {
        let category = &session.categories[i];
        assert(session@.categories[i as int] == category@);
        assert(cats[i as int].queries.len() == category.queries@.len());
        let queries: usize = category.queries.len();
        if queries == 0 || category.parallelism > usize::MAX - queries {
            return false;
        }
        i += 1;
    }
    true
}

/// The queries of one round: the next of every category, to be run side by side.
pub fn next_round(
    categories: &mut Vec<SessionCategory>,
    rng: &mut ChaCha8Rng,
    default_timeout_ms: u64,
) -> (r: Vec<SessionWork>)
    requires
        can_go_on(model::vmap(old(categories)@)),
    ensures
        model::vmap(r@) == round_work(
            model::vmap(old(categories)@),
            chance::query_course(*old(rng)),
            default_timeout_ms,
            old(categories)@.len() as int,
        ),
        model::vmap(final(categories)@) == model::vmap(old(categories)@).map_values(
            |cat: SessionCategoryView| cat.advanced(),
        ),
        can_go_on(model::vmap(final(categories)@)),
        chance::query_course(*final(rng)) == course_after_categories(
            model::vmap(old(categories)@),
            chance::query_course(*old(rng)),
            old(categories)@.len() as int,
        ),
{
    let ghost cats = model::vmap(categories@);
    let ghost c = chance::query_course(*rng);
    let ghost moved = cats.map_values(|cat: SessionCategoryView| cat.advanced());
    let mut out: Vec<SessionWork> = Vec::new();
    let mut k: usize = 0;
    assert(model::vmap(out@) =~= Seq::<WorkView>::empty());
    assert(cats =~= moved.take(0) + cats.skip(0));
    while k < categories.len()
        invariant
            k <= categories@.len(),
            categories@.len() == cats.len(),
            cats == model::vmap(old(categories)@),
            c == chance::query_course(*old(rng)),
            can_go_on(cats),
            moved == cats.map_values(|cat: SessionCategoryView| cat.advanced()),
            model::vmap(categories@) == moved.take(k as int) + cats.skip(k as int),
            chance::query_course(*rng) == course_after_categories(cats, c, k as int),
            model::vmap(out@) == round_work(cats, c, default_timeout_ms, k as int),
        decreases categories@.len() - k,
    {
        let ghost now = chance::query_course(*rng);
        let ghost cat = cats[k as int];
        let ghost viewed = model::vmap(categories@);
        assert(categories@[k as int]@ == viewed[k as int]);
        assert(viewed[k as int] == cat);
        let indices = categories[k].next_batch_indices(rng);
        proof {
            assert(model::vmap(categories@) =~= viewed.update(k as int, cat.advanced()));
            assert(model::vmap(categories@) =~= moved.take(k + 1) + cats.skip(k + 1));
            assert(categories@[k as int]@ == cat.advanced());
        }
        let ghost batch = cat.batch(now);
        let ghost add = category_work(cat, now, default_timeout_ms);
        let ghost before = model::vmap(out@);
        let mut j: usize = 0;
        assert(model::vmap(out@) =~= before + add.take(0));
        while j < indices.len()
            invariant
                j <= indices@.len(),
                k < categories@.len(),
                categories@[k as int]@ == cat.advanced(),
                batch == indices@.map_values(|i: usize| i as int),
                batch == cat.batch(now),
                forall|m: int|
                    0 <= m < indices@.len() ==> (#[trigger] indices@[m]) < cat.queries.len(),
                add == category_work(cat, now, default_timeout_ms),
                model::vmap(out@) == before + add.take(j as int),
            decreases indices@.len() - j,
        {
            broadcast use model::vmap_push, model::take_push;

            let at: usize = indices[j];
            assert(batch[j as int] == at);
            let query = &categories[k].queries[at];
            assert(query@ == cat.queries[at as int]);
            let item = SessionWork {
                category: categories[k].name.clone(),
                query: query.duplicate(),
                timeout_ms: tally::session_timeout_ms(query, default_timeout_ms),
            };
            assert(item@ == add[j as int]);
            out.push(item);
            j += 1;
            assert(before + add.take(j as int) =~= (before + add.take(j - 1)).push(add[j - 1]));
        }
        assert(add.take(j as int) =~= add);
        k += 1;
    }
    proof {
        let done = model::vmap(categories@);
        assert(done =~= moved);
        assert forall|m: int| #![trigger done[m]] 0 <= m < done.len() implies done[m].wf()
            && done[m].queries.len() + done[m].parallelism <= usize::MAX by {
            assert(done[m] == cats[m].advanced());
            let cat = cats[m];
            assert(cat.wf());
            vstd::arithmetic::div_mod::lemma_mod_bound(
                (cat.cursor + cat.parallelism) as int,
                cat.queries.len() as int,
            );
        }
    }
    out
}

/// The parallelism of each category.
pub open spec fn parallelisms(session: SessionView) -> Seq<int> {
    session.categories.map_values(|c: CategoryView| c.parallelism as int)
}

/// How many queries a session runs side by side: all that its categories run at once.
pub fn configured_sessions(session: &QuerySession) -> (r: u32)
    ensures
        r == (if model::sum(parallelisms(session@)) > u32::MAX {
            u32::MAX as int
        } else {
            model::sum(parallelisms(session@))
        }),
{
    let ghost all = parallelisms(session@);
    let mut total: u128 = 0;
    let mut i: usize = 0;
    assert(all.take(0) =~= Seq::<int>::empty());
    while i < session.categories.len()
        invariant
            i <= session.categories@.len(),
            all == parallelisms(session@),
            total == model::sum(all.take(i as int)),
            total <= i * 0xffff_ffff_ffff_ffff,
        decreases session.categories@.len() - i,
    {
        broadcast use model::sum_take;

        assert(session@.categories[i as int] == session.categories@[i as int]@);
        total = total + session.categories[i].parallelism as u128;
        i += 1;
    }
    assert(all.take(i as int) =~= all);
    if total > u32::MAX as u128 {
        u32::MAX
    } else {
        total as u32
    }
}

// ---------------------------------------------------------------------------
// The variables of a query
// ---------------------------------------------------------------------------

/// Where a generator is after so many digits.
pub open spec fn course_after_digits(c: Course, digits: nat) -> Course
    decreases digits,
{
    if digits == 0 {
        c
    } else {
        course_after_digits(c, (digits - 1) as nat).after(Request::Between64(0, 15))
    }
}

/// The digits that are drawn.
pub open spec fn drawn_digits(c: Course, digits: nat) -> Seq<u64> {
    Seq::new(
        digits,
        |i: int| chance::query_between64(course_after_digits(c, i as nat), 0, 15),
    )
}

/// Digits below sixteen as a text.
pub open spec fn hex_digits(digits: Seq<u64>) -> Seq<char> {
    digits.map_values(|d: u64| seeds::hex_char(d as int))
}

/// The value of a variable, and where the generator is after it. One that stands for
/// something ingested gets an identifier of random digits; any other a name of its own.
pub open spec fn variable_value(name: Seq<char>, source: Seq<char>, c: Course) -> (
    Seq<char>,
    Course,
) {
    if source == "recently_ingested"@ {
        (
            hex_digits(drawn_digits(c, TRACE_DIGITS as nat)),
            course_after_digits(c, TRACE_DIGITS as nat),
        )
    } else {
        ("var_"@ + name, c)
    }
}

/// The values of the first `n` variables, and where the generator is after them.
pub open spec fn variable_values(vars: Seq<(Seq<char>, Seq<char>)>, c: Course, n: int) -> (
    Seq<(Seq<char>, Seq<char>)>,
    Course,
)
    decreases n,
{
    if n <= 0 {
        (Seq::empty(), c)
    } else {
        let before = variable_values(vars, c, n - 1);
        let value = variable_value(vars[n - 1].0, vars[n - 1].1, before.1);
        (model::bind(before.0, vars[n - 1].0, value.0), value.1)
    }
}

/// Digits below sixteen as a text.
pub fn hex_text(digits: &Vec<u64>) -> (r: String)
    requires
        forall|k: int| 0 <= k < digits@.len() ==> (#[trigger] digits@[k]) < 16,
    ensures
        r@ == hex_digits(digits@),
{
    let mut out = String::new();
    let mut i: usize = 0;
    let ghost all = hex_digits(digits@);
    assert(out@ =~= all.take(0));
    while i < digits.len()
        invariant
            i <= digits@.len(),
            forall|k: int| 0 <= k < digits@.len() ==> (#[trigger] digits@[k]) < 16,
            all == hex_digits(digits@),
            out@ == all.take(i as int),
        decreases digits@.len() - i,
    {
        broadcast use model::take_push;

        out.push(seeds::hex_digit(digits[i] as u8));
        i += 1;
    }
    assert(all.take(i as int) =~= all);
    out
}

fn trace_id(rng: &mut ChaCha8Rng) -> (r: String)
    ensures
        r@ == hex_digits(drawn_digits(chance::query_course(*old(rng)), TRACE_DIGITS as nat)),
        chance::query_course(*final(rng)) == course_after_digits(
            chance::query_course(*old(rng)),
            TRACE_DIGITS as nat,
        ),
{
    let ghost c = chance::query_course(*rng);
    let ghost want = drawn_digits(c, TRACE_DIGITS as nat);
    let mut digits: Vec<u64> = Vec::new();
    let mut i: usize = 0;
    while i < TRACE_DIGITS
        invariant
            i <= TRACE_DIGITS,
            c == chance::query_course(*old(rng)),
            want == drawn_digits(c, TRACE_DIGITS as nat),
            digits@ == want.take(i as int),
            forall|k: int| 0 <= k < digits@.len() ==> (#[trigger] digits@[k]) < 16,
            chance::query_course(*rng) == course_after_digits(c, i as nat),
        decreases TRACE_DIGITS - i,
    {
        broadcast use model::take_push;

        digits.push(chance::query_draw64(rng, 0, 15));
        i += 1;
    }
    assert(want.take(i as int) =~= want);
    hex_text(&digits)
}

/// The values of the variables of a query.
pub fn generate_query_variables(query: &QueryDef, rng: &mut ChaCha8Rng) -> (r: Vec<
    (String, String),
>)
    ensures
        model::vmap(r@) == variable_values(
            query@.variables,
            chance::query_course(*old(rng)),
            query@.variables.len() as int,
        ).0,
        chance::query_course(*final(rng)) == variable_values(
            query@.variables,
            chance::query_course(*old(rng)),
            query@.variables.len() as int,
        ).1,
{
    let ghost vars = query@.variables;
    let ghost c = chance::query_course(*rng);
    let mut out: Vec<(String, String)> = Vec::new();
    let mut i: usize = 0;
    assert(model::vmap(out@) =~= Seq::<(Seq<char>, Seq<char>)>::empty());
    while i < query.variables.len()
        invariant
            i <= query.variables@.len(),
            vars == query@.variables,
            c == chance::query_course(*old(rng)),
            model::vmap(out@) == variable_values(vars, c, i as int).0,
            chance::query_course(*rng) == variable_values(vars, c, i as int).1,
        decreases query.variables@.len() - i,
    {
        let entry = &query.variables[i];
        assert(vars[i as int] == entry@);
        let name = entry.0.as_str();
        let value = if text::same(entry.1.source.as_str(), "recently_ingested") {
            trace_id(rng)
        } else {
            text::join2("var_", name)
        };
        model::bind_entry(&mut out, name, value);
        i += 1;
    }
    out
}

// ---------------------------------------------------------------------------
// Following the phases
// ---------------------------------------------------------------------------

/// The phase that a worker works in, and the rate that it keeps.
pub struct Assignment {
    pub phase: String,
    pub rate: u64,
}

pub struct AssignmentView {
    pub phase: Seq<char>,
    pub rate: nat,
}

impl View for Assignment {
    type V = AssignmentView;

    open spec fn view(&self) -> AssignmentView {
        AssignmentView { phase: self.phase@, rate: self.rate as nat }
    }
}

/// The assignment there may be.
pub open spec fn opt_assignment(a: Option<Assignment>) -> Option<AssignmentView> {
    match a {
        Some(x) => Some(x@),
        None => None,
    }
}

/// The first entry of a table for that phase.
pub open spec fn entry_for(rates: Seq<RateView>, phase: Seq<char>) -> Option<RateView>
    decreases rates.len(),
{
    if rates.len() == 0 {
        None
    } else if rates[0].phase_name == phase {
        Some(rates[0])
    } else {
        entry_for(rates.skip(1), phase)
    }
}

/// The first entry of a table for that phase.
pub fn find_entry<'a>(table: &'a WorkerRateTable, phase: &str) -> (r: Option<&'a WorkerPhaseRate>)
    ensures
        match r {
            Some(e) => entry_for(table@.phases, phase@) == Some(e@),
            None => entry_for(table@.phases, phase@) is None,
        },
{
    let ghost all = table@.phases;
    let mut i: usize = 0;
    assert(all.skip(0) =~= all);
    while i < table.phases.len()
        invariant
            i <= table.phases@.len(),
            all == table@.phases,
            entry_for(all, phase@) == entry_for(all.skip(i as int), phase@),
        decreases table.phases@.len() - i,
    {
        proof {
            assert(all[i as int] == table.phases@[i as int]@);
            assert(all.skip(i as int)[0] == all[i as int]);
            assert(all.skip(i as int).skip(1) =~= all.skip(i + 1));
        }
        if text::same(table.phases[i].phase_name.as_str(), phase) {
            return Some(&table.phases[i]);
        }
        i += 1;
    }
    None
}

/// The number that the bits of a number with a sign stand for without one.
pub open spec fn unsigned_bits(n: i64) -> nat {
    if n < 0 {
        (n + 0x1_0000_0000_0000_0000) as nat
    } else {
        n as nat
    }
}

/// The rate of a query worker in a phase, in thousandths of a query per second: the one
/// that was announced, by its bits, and for a worker of a group the one of its own table.
pub open spec fn query_rate(
    group: Seq<char>,
    rates: Seq<RateView>,
    phase: Seq<char>,
    announced: i64,
) -> nat {
    if group.len() == 0 {
        unsigned_bits(announced)
    } else {
        match entry_for(rates, phase) {
            Some(e) => e.query_mqps,
            None => 0,
        }
    }
}

/// The rate of a query worker in a phase.
pub fn query_rate_in(config: &QueryWorkerConfig, phase: &str, announced: i64) -> (r: u64)
    ensures
        r == query_rate(config.query_group@, config.rate_table@.phases, phase@, announced),
{
    proof {
        reveal_strlit("");
        if config.query_group@.len() == 0 {
            assert(config.query_group@ =~= ""@);
        }
    }
    if text::same(config.query_group.as_str(), "") {
        if announced < 0 {
            (announced as i128 + 0x1_0000_0000_0000_0000) as u64
        } else {
            announced as u64
        }
    } else {
        match find_entry(&config.rate_table, phase) {
            Some(e) => e.query_mqps,
            None => 0,
        }
    }
}

/// What a query worker works on after an event; nothing where the run is over or the
/// controller is gone.
pub open spec fn followed(
    group: Seq<char>,
    rates: Seq<RateView>,
    now: AssignmentView,
    event: Option<PhaseEvent>,
) -> Option<AssignmentView> {
    match event {
        None => None,
        Some(PhaseEvent::RunComplete) => None,
        Some(PhaseEvent::PrepareTransition { .. }) => Some(now),
        Some(PhaseEvent::Transition { to_phase, new_target_rate, .. }) => Some(
            AssignmentView {
                phase: to_phase@,
                rate: query_rate(group, rates, to_phase@, new_target_rate),
            },
        ),
    }
}

/// What a query worker works on after an event.
pub fn follow(config: &QueryWorkerConfig, now: &Assignment, event: &Option<PhaseEvent>) -> (r:
    Option<Assignment>)
    ensures
        match r {
            Some(a) => followed(config.query_group@, config.rate_table@.phases, now@, *event)
                == Some(a@),
            None => followed(config.query_group@, config.rate_table@.phases, now@, *event) is None,
        },
{
    match event {
        None => None,
        Some(PhaseEvent::RunComplete) => None,
        Some(PhaseEvent::PrepareTransition { .. }) => Some(
            Assignment { phase: now.phase.clone(), rate: now.rate },
        ),
        Some(PhaseEvent::Transition { to_phase, new_target_rate, .. }) => Some(
            Assignment {
                phase: to_phase.clone(),
                rate: query_rate_in(config, to_phase.as_str(), *new_target_rate),
            },
        ),
    }
}

// ---------------------------------------------------------------------------
// Reporting
// ---------------------------------------------------------------------------

/// What a worker's machine does at the time of a snapshot.
#[derive(Clone, Copy, PartialEq, Eq, Structural, Debug)]
pub struct Load {
    pub timestamp_ns: u64,
    pub cpu_ppm: u64,
    pub memory_bytes: u64,
}

/// A snapshot of a worker that keeps a rate.
pub open spec fn rate_report(t: TallyView, worker: WorkerIdentity, a: AssignmentView, load: Load) -> SnapshotView {
    report(t, worker, "query"@, a.phase, load, a.rate as u64, 0)
}

/// A snapshot of a session: one user, at no rate.
pub open spec fn session_report(
    t: TallyView,
    worker: WorkerIdentity,
    phase: Seq<char>,
    load: Load,
    sessions: u32,
) -> SnapshotView {
    report(t, worker, "query-session"@, phase, load, 1, sessions)
}

/// A snapshot of what was counted.
pub open spec fn report(
    t: TallyView,
    worker: WorkerIdentity,
    mode: Seq<char>,
    phase: Seq<char>,
    load: Load,
    target_rate: u64,
    sessions: u32,
) -> SnapshotView {
    SnapshotView {
        worker_id: worker.worker_id@,
        worker_mode: mode,
        worker_index: worker.worker_index,
        timestamp_ns: load.timestamp_ns,
        phase,
        events_produced: 0,
        events_acknowledged: 0,
        events_failed: 0,
        kafka_produce_latency: None,
        queries_executed: t.executed,
        query_errors: t.errors,
        query_latency: Some(crate::latency::distribution(t.latencies)),
        by_type: tally::by_type(t),
        query_group: worker.query_group@,
        cpu_ppm: load.cpu_ppm,
        memory_bytes: load.memory_bytes,
        target_rate,
        concurrent_sessions: sessions,
        timed_out: t.timeouts,
        errors: t.error_records,
    }
}

/// The snapshot of a worker that keeps a rate; it counts from nothing again.
pub fn take_rate_snapshot(
    counted: &mut Tally,
    worker: &WorkerIdentity,
    now: &Assignment,
    load: Load,
) -> (r: WorkerMetricSnapshot)
    ensures
        r@ == rate_report(old(counted)@, *worker, now@, load),
        final(counted)@ == TallyView::nothing(),
{
    let c = Circumstances {
        worker_mode: text::owned("query"),
        phase: now.phase.clone(),
        timestamp_ns: load.timestamp_ns,
        cpu_ppm: load.cpu_ppm,
        memory_bytes: load.memory_bytes,
        target_rate: now.rate,
        concurrent_sessions: 0,
    };
    counted.take_snapshot(worker, &c)
}

/// The snapshot of a session; it counts from nothing again.
pub fn take_session_snapshot(
    counted: &mut Tally,
    worker: &WorkerIdentity,
    phase: &str,
    load: Load,
    sessions: u32,
) -> (r: WorkerMetricSnapshot)
    ensures
        r@ == session_report(old(counted)@, *worker, phase@, load, sessions),
        final(counted)@ == TallyView::nothing(),
{
    let c = Circumstances {
        worker_mode: text::owned("query-session"),
        phase: text::owned(phase),
        timestamp_ns: load.timestamp_ns,
        cpu_ppm: load.cpu_ppm,
        memory_bytes: load.memory_bytes,
        target_rate: 1,
        concurrent_sessions: sessions,
    };
    counted.take_snapshot(worker, &c)
}

/// What a session reports at the end of a run: what it has counted since its last snapshot,
/// and nothing where it has counted nothing.
pub fn last_session_snapshot(
    counted: &mut Tally,
    worker: &WorkerIdentity,
    phase: &str,
    load: Load,
    session: &QuerySession,
) -> (r: Option<WorkerMetricSnapshot>)
    ensures
        match r {
            Some(s) => old(counted)@.counted_something() && s@ == session_report(
                old(counted)@,
                *worker,
                phase@,
                load,
                (if model::sum(parallelisms(session@)) > u32::MAX {
                    u32::MAX
                } else {
                    model::sum(parallelisms(session@)) as u32
                }),
            ) && final(counted)@ == TallyView::nothing(),
            None => !old(counted)@.counted_something() && final(counted)@ == old(counted)@,
        },
{
    if !counted.counted_something() {
        return None;
    }
    let sessions: u32 = configured_sessions(session);
    Some(take_session_snapshot(counted, worker, phase, load, sessions))
}

/// The name that a worker reports under: its kind, and the pod that it runs in.
pub fn worker_id(kind: &str, pod_name: &str) -> (r: String)
    ensures
        r@ == kind@ + "-"@ + pod_name@,
{
    text::join3(kind, "-", pod_name)
}

} // verus!
