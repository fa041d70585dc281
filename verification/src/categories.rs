//! The latencies of a run by category: the figures of the queries of each category, taken
//! together.
use vstd::prelude::*;
use vstd::string::*;
use crate::fields;
use crate::json::{Doc, Json};
use crate::model;
use crate::model::Duplicate;
use crate::order;
use crate::rates;
use crate::scenario::{QueryDef, QueryView};
use crate::text;

verus! {

/// The figures of a category: latencies in nanoseconds.
#[derive(Clone, Copy, PartialEq, Eq, Structural, Debug)]
pub struct Rollup {
    /// The sum of the medians, each as often as its query was counted.
    pub p50_sum: u128,
    pub p95: u64,
    pub p99: u64,
    /// The least latency of a query that was counted.
    pub min: Option<u64>,
    pub max: u64,
    pub count: u64,
    pub errors: u64,
}

impl View for Rollup {
    type V = Rollup;

    open spec fn view(&self) -> Rollup {
        *self
    }
}

impl Duplicate for Rollup {
    fn duplicate(&self) -> (r: Self) {
        *self
    }
}

/// What is known of one query: its latencies in nanoseconds, and counts.
#[derive(Clone, Copy, PartialEq, Eq, Structural, Debug)]
pub struct QueryRow {
    pub p50: u64,
    pub p95: u64,
    pub p99: u64,
    pub min: u64,
    pub max: u64,
    pub count: u64,
    pub errors: u64,
}

impl Rollup {
    /// Of no query.
    pub open spec fn nothing() -> Rollup {
        Rollup { p50_sum: 0, p95: 0, p99: 0, min: None, max: 0, count: 0, errors: 0 }
    }

    /// With one query more.
    pub open spec fn with(self, row: QueryRow) -> Rollup {
        Rollup {
            p50_sum: at_most_u128(self.p50_sum + row.p50 * row.count) as u128,
            p95: greater(self.p95, row.p95),
            p99: greater(self.p99, row.p99),
            min: if row.count > 0 {
                match self.min {
                    Some(m) => if row.min < m {
                        Some(row.min)
                    } else {
                        Some(m)
                    },
                    None => Some(row.min),
                }
            } else {
                self.min
            },
            max: greater(self.max, row.max),
            count: rates::at_most_u64(self.count + row.count) as u64,
            errors: rates::at_most_u64(self.errors + row.errors) as u64,
        }
    }
}

/// The greater of two numbers.
pub open spec fn greater(a: u64, b: u64) -> u64 {
    if a > b {
        a
    } else {
        b
    }
}

/// The number, or the greatest of 128 bits.
pub open spec fn at_most_u128(n: int) -> int {
    if n > u128::MAX {
        u128::MAX as int
    } else {
        n
    }
}

// ---------------------------------------------------------------------------
// Rows
// ---------------------------------------------------------------------------

/// A time in milliseconds, in whole nanoseconds, where the value is a number.
pub open spec fn nanos(d: Doc) -> Option<int> {
    match d {
        Doc::Uint(n) => Some(n as int * 1_000_000),
        Doc::Int(n) => Some(n * 1_000_000),
        Doc::Number(t) => text::scaled(t, 6, u64::MAX as nat),
        _ => None,
    }
}

/// A member that is a time in milliseconds, in nanoseconds; what is none counts as zero.
pub open spec fn time_in(d: Doc, key: Seq<char>) -> u64 {
    let n = match d.get(key) {
        Some(v) => match nanos(v) {
            Some(n) => n,
            None => 0,
        },
        None => 0,
    };
    if n < 0 {
        0
    } else {
        rates::at_most_u64(n) as u64
    }
}

/// A member that is a count; what is none counts as zero.
pub open spec fn count_in(d: Doc, key: Seq<char>) -> u64 {
    fields::uint_or(d, key, 0) as u64
}

/// What a document tells of a query. A query that ran out of time failed too.
pub open spec fn row_in(d: Doc) -> QueryRow {
    QueryRow {
        p50: time_in(d, "p50"@),
        p95: time_in(d, "p95"@),
        p99: time_in(d, "p99"@),
        min: time_in(d, "min"@),
        max: time_in(d, "max"@),
        count: count_in(d, "count"@),
        errors: rates::at_most_u64(
            count_in(d, "error_count"@) + count_in(d, "timeout_count"@),
        ) as u64,
    }
}

/// A document has that text under the key.
pub open spec fn says(d: Doc, key: Seq<char>, value: Seq<char>) -> bool {
    match d.get(key) {
        Some(v) => v.as_text() == Some(value),
        None => false,
    }
}

/// The last of the first `n` documents that is about the query.
pub open spec fn row_about(rows: Seq<Doc>, query: Seq<char>, n: int) -> Option<Doc>
    decreases n,
{
    if n <= 0 {
        None
    } else if says(rows[n - 1], "query_name"@, query) {
        Some(rows[n - 1])
    } else {
        row_about(rows, query, n - 1)
    }
}

/// How many of the first `n` documents have that text under the key.
pub open spec fn saying(rows: Seq<Doc>, key: Seq<char>, value: Seq<char>, n: int) -> nat
    decreases n,
{
    if n <= 0 {
        0
    } else {
        saying(rows, key, value, n - 1) + (if says(rows[n - 1], key, value) {
            1nat
        } else {
            0nat
        })
    }
}

fn nanos_of(d: &Json) -> (r: Option<i128>)
    ensures
        match r {
            Some(n) => nanos(d.doc()) == Some(n as int),
            None => nanos(d.doc()) is None,
        },
{
    match d {
        Json::Uint(n) => Some(*n as i128 * 1_000_000),
        Json::Int(n) => Some(*n as i128 * 1_000_000),
        Json::Number(t) => text::parse_scaled(t.as_str(), 6, u64::MAX as u128),
        _ => None,
    }
}

fn time_of(d: &Json, key: &str) -> (r: u64)
    ensures
        r == time_in(d.doc(), key@),
{
    let n: i128 = match d.get(key) {
        Some(v) => match nanos_of(v) {
            Some(n) => n,
            None => 0,
        },
        None => 0,
    };
    if n < 0 {
        0
    } else if n > u64::MAX as i128 {
        u64::MAX
    } else {
        n as u64
    }
}

fn sum64(a: u64, b: u64) -> (r: u64)
    ensures
        r == rates::at_most_u64(a + b),
{
    if a > u64::MAX - b {
        u64::MAX
    } else {
        a + b
    }
}

fn row_of(d: &Json) -> (r: QueryRow)
    ensures
        r == row_in(d.doc()),
{
    QueryRow {
        p50: time_of(d, "p50"),
        p95: time_of(d, "p95"),
        p99: time_of(d, "p99"),
        min: time_of(d, "min"),
        max: time_of(d, "max"),
        count: fields::uint_in_or(d, "count", 0),
        errors: sum64(
            fields::uint_in_or(d, "error_count", 0),
            fields::uint_in_or(d, "timeout_count", 0),
        ),
    }
}

fn tells(d: &Json, key: &str, value: &str) -> (r: bool)
    ensures
        r == says(d.doc(), key@, value@),
{
    match d.get(key) {
        Some(v) => match v.as_text() {
            Some(t) => text::same(t, value),
            None => false,
        },
        None => false,
    }
}

fn find_row<'a>(rows: &'a Vec<Json>, query: &str) -> (r: Option<&'a Json>)
    ensures
        match r {
            Some(d) => row_about(model::vmap(rows@), query@, rows@.len() as int) == Some(d.doc()),
            None => row_about(model::vmap(rows@), query@, rows@.len() as int) is None,
        },
{
    let ghost all = model::vmap(rows@);
    let mut n: usize = rows.len();
    while n > 0
        invariant
            n <= rows@.len(),
            all == model::vmap(rows@),
            row_about(all, query@, rows@.len() as int) == row_about(all, query@, n as int),
        decreases n,
    {
        assert(all[n - 1] == rows@[n - 1].doc());
        if tells(&rows[n - 1], "query_name", query) {
            return Some(&rows[n - 1]);
        }
        n -= 1;
    }
    None
}

/// How many documents have that text under the key.
pub fn count_saying(rows: &Vec<Json>, key: &str, value: &str) -> (r: u64)
    ensures
        r == rates::at_most_u64(
            saying(model::vmap(rows@), key@, value@, rows@.len() as int) as int,
        ),
{
    let ghost all = model::vmap(rows@);
    let mut n: u64 = 0;
    let mut i: usize = 0;
    while i < rows.len()
        invariant
            i <= rows@.len(),
            all == model::vmap(rows@),
            n == rates::at_most_u64(saying(all, key@, value@, i as int) as int),
        decreases rows@.len() - i,
    {
        assert(all[i as int] == rows@[i as int].doc());
        if tells(&rows[i], key, value) {
            n = sum64(n, 1);
        }
        i += 1;
    }
    n
}

// ---------------------------------------------------------------------------
// Categories
// ---------------------------------------------------------------------------

/// The figures of a category so far.
pub open spec fn rollup_in(table: Seq<(Seq<char>, Rollup)>, category: Seq<char>) -> Rollup {
    match model::find(table, category) {
        Some(r) => r,
        None => Rollup::nothing(),
    }
}

/// The figures of the categories of the first `n` queries. Queries without a category, and
/// those of which nothing is known, are left out.
pub open spec fn rollups(queries: Seq<QueryView>, rows: Seq<Doc>, n: int) -> Seq<(Seq<char>, Rollup)>
    decreases n,
{
    if n <= 0 {
        Seq::empty()
    } else {
        let before = rollups(queries, rows, n - 1);
        match (
            queries[n - 1].category,
            row_about(rows, queries[n - 1].name, rows.len() as int),
        ) {
            (Some(category), Some(d)) => model::bind(
                before,
                category,
                rollup_in(before, category).with(row_in(d)),
            ),
            _ => before,
        }
    }
}

/// Nanoseconds in milliseconds, for a document.
pub open spec fn ms(n: nat) -> Doc {
    Doc::Quotient { num: n, den: 1_000_000 }
}

/// What is left of a number when another is taken from it, and nothing where it is less.
pub open spec fn less(a: u64, b: int) -> nat {
    if a > b {
        (a - b) as nat
    } else {
        0
    }
}

/// The figures of a category, for a document.
pub open spec fn category_doc(category: Seq<char>, r: Rollup, timeouts: int) -> Doc {
    Doc::object().with("query_name"@, Doc::Text(category)).with(
        "min"@,
        ms(
            match r.min {
                Some(m) => if r.count > 0 {
                    m as nat
                } else {
                    0
                },
                None => 0,
            },
        ),
    ).with(
        "p50"@,
        if r.count > 0 {
            Doc::Quotient { num: r.p50_sum as nat, den: r.count as nat * 1_000_000 }
        } else {
            ms(0)
        },
    ).with("p95"@, ms(r.p95 as nat)).with("p99"@, ms(r.p99 as nat)).with(
        "max"@,
        ms(r.max as nat),
    ).with("count"@, Doc::Uint(r.count as nat)).with(
        "error_count"@,
        Doc::Uint(less(r.errors, timeouts)),
    ).with("timeout_count"@, Doc::Uint(timeouts as nat))
}

/// The figures of all categories, in the order of their names.
pub open spec fn categories(queries: Seq<QueryView>, timed_out: Seq<Doc>, rows: Seq<Doc>) -> Seq<
    Doc,
> {
    let table = rollups(queries, rows, queries.len() as int);
    order::by_name(table, table.len() as int).map_values(
        |e: (Seq<char>, Rollup)|
            category_doc(
                e.0,
                e.1,
                rates::at_most_u64(
                    saying(timed_out, "category"@, e.0, timed_out.len() as int) as int,
                ),
            ),
    )
}

impl Rollup {
    fn add(&self, row: &QueryRow) -> (r: Rollup)
        ensures
            r == self.with(*row),
    {
        assert(0 <= row.p50 * row.count <= 0xffff_ffff_ffff_ffff * 0xffff_ffff_ffff_ffff)
            by (nonlinear_arith)
            requires
                0 <= row.p50 <= 0xffff_ffff_ffff_ffff,
                0 <= row.count <= 0xffff_ffff_ffff_ffff,
        ;
        let product: u128 = row.p50 as u128 * row.count as u128;
        Rollup {
            p50_sum: if self.p50_sum > u128::MAX - product {
                u128::MAX
            } else {
                self.p50_sum + product
            },
            p95: if self.p95 > row.p95 {
                self.p95
            } else {
                row.p95
            },
            p99: if self.p99 > row.p99 {
                self.p99
            } else {
                row.p99
            },
            min: if row.count > 0 {
                match self.min {
                    Some(m) => if row.min < m {
                        Some(row.min)
                    } else {
                        Some(m)
                    },
                    None => Some(row.min),
                }
            } else {
                self.min
            },
            max: if self.max > row.max {
                self.max
            } else {
                row.max
            },
            count: sum64(self.count, row.count),
            errors: sum64(self.errors, row.errors),
        }
    }
}

fn add_row(table: &mut Vec<(String, Rollup)>, category: &str, row: &QueryRow)
    ensures
        model::vmap(final(table)@) == model::bind(
            model::vmap(old(table)@),
            category@,
            rollup_in(model::vmap(old(table)@), category@).with(*row),
        ),
{
    let now = match model::find_in(table, category) {
        Some(r) => *r,
        None => Rollup { p50_sum: 0, p95: 0, p99: 0, min: None, max: 0, count: 0, errors: 0 },
    };
    model::bind_entry(table, category, now.add(row));
}

fn rollups_of(queries: &Vec<QueryDef>, rows: &Vec<Json>) -> (r: Vec<(String, Rollup)>)
    ensures
        model::vmap(r@) == rollups(
            model::vmap(queries@),
            model::vmap(rows@),
            queries@.len() as int,
        ),
{
    let ghost all = model::vmap(queries@);
    let ghost docs = model::vmap(rows@);
    let mut table: Vec<(String, Rollup)> = Vec::new();
    let mut i: usize = 0;
    assert(model::vmap(table@) =~= Seq::<(Seq<char>, Rollup)>::empty());
    while i < queries.len()
        invariant
            i <= queries@.len(),
            all == model::vmap(queries@),
            docs == model::vmap(rows@),
            model::vmap(table@) == rollups(all, docs, i as int),
        decreases queries@.len() - i,
    {
        assert(all[i as int] == queries@[i as int]@);
        match (&queries[i].category, find_row(rows, queries[i].name.as_str())) {
            (Some(category), Some(d)) => {
                add_row(&mut table, category.as_str(), &row_of(d));
            },
            _ => {},
        }
        i += 1;
    }
    table
}

fn ms_of(n: u64) -> (r: Json)
    ensures
        r.doc() == ms(n as nat),
{
    Json::Quotient { num: n as u128, den: 1_000_000 }
}

fn category_json(category: &str, r: &Rollup, timeouts: u64) -> (j: Json)
    ensures
        j.doc() == category_doc(category@, *r, timeouts as int),
{
    Json::object().with("query_name", Json::text(category)).with(
        "min",
        ms_of(
            match r.min {
                Some(m) => if r.count > 0 {
                    m
                } else {
                    0
                },
                None => 0,
            },
        ),
    ).with(
        "p50",
        if r.count > 0 {
            Json::Quotient { num: r.p50_sum, den: r.count as u128 * 1_000_000 }
        } else {
            ms_of(0)
        },
    ).with("p95", ms_of(r.p95)).with("p99", ms_of(r.p99)).with("max", ms_of(r.max)).with(
        "count",
        Json::uint(r.count),
    ).with(
        "error_count",
        Json::uint(
            if r.errors > timeouts {
                r.errors - timeouts
            } else {
                0
            },
        ),
    ).with("timeout_count", Json::uint(timeouts))
}

/// The figures of all categories, in the order of their names.
pub fn build_per_category_latency(
    queries: &Vec<QueryDef>,
    timed_out: &Vec<Json>,
    per_query: &Vec<Json>,
) -> (r: Vec<Json>)
    ensures
        model::vmap(r@) == categories(
            model::vmap(queries@),
            model::vmap(timed_out@),
            model::vmap(per_query@),
        ),
{
    let ghost want = categories(
        model::vmap(queries@),
        model::vmap(timed_out@),
        model::vmap(per_query@),
    );
    let unsorted = rollups_of(queries, per_query);
    let table = order::sort_by_name(&unsorted);
    let mut out: Vec<Json> = Vec::new();
    let mut i: usize = 0;
    assert(model::vmap(out@) =~= want.take(0));
    while i < table.len()
        invariant
            i <= table@.len(),
            want == categories(
                model::vmap(queries@),
                model::vmap(timed_out@),
                model::vmap(per_query@),
            ),
            model::vmap(table@) == order::by_name(
                model::vmap(unsorted@),
                unsorted@.len() as int,
            ),
            model::vmap(unsorted@) == rollups(
                model::vmap(queries@),
                model::vmap(per_query@),
                queries@.len() as int,
            ),
            want.len() == table@.len(),
            model::vmap(out@) == want.take(i as int),
        decreases table@.len() - i,
    {
        broadcast use model::vmap_push, model::take_push;

        assert(model::vmap(table@)[i as int] == table@[i as int]@);
        let name = table[i].0.as_str();
        let timeouts: u64 = count_saying(timed_out, "category", name);
        let j = category_json(name, &table[i].1, timeouts);
        assert(j.doc() == want[i as int]);
        out.push(j);
        i += 1;
    }
    assert(want.take(i as int) =~= want);
    out
}

} // verus!
