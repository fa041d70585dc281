//! A run as it is watched: one line per second, or a screen with the latest figures.
use vstd::prelude::*;
use vstd::string::*;
use crate::categories;
use crate::console;
use crate::decimal;
use crate::json::{Doc, Json};
use crate::metrics::{AggregatedMetricPoint, PointView};
use crate::model;
use crate::text;

verus! {

/// How many seconds are remembered.
pub const HISTORY_SECONDS: usize = 300;

/// How many seconds are drawn.
pub const DRAWN_SECONDS: usize = 60;

// ---------------------------------------------------------------------------
// Lines
// ---------------------------------------------------------------------------

/// A row of nine columns.
pub open spec fn row(
    phase: Seq<char>,
    eps: Seq<char>,
    target: Seq<char>,
    qps: Seq<char>,
    query_target: Seq<char>,
    p50: Seq<char>,
    p99: Seq<char>,
    lag: Seq<char>,
    errors: Seq<char>,
) -> Seq<char> {
    console::to_left(phase, 12) + " "@ + console::to_right(eps, 10) + " "@ + console::to_right(
        target,
        10,
    ) + " "@ + console::to_right(qps, 8) + " "@ + console::to_right(query_target, 8) + " "@
        + console::to_right(p50, 8) + " "@ + console::to_right(p99, 8) + " "@ + console::to_right(
        lag,
        12,
    ) + " "@ + console::to_right(errors, 6)
}

fn row_of(
    phase: &str,
    eps: &str,
    target: &str,
    qps: &str,
    query_target: &str,
    p50: &str,
    p99: &str,
    lag: &str,
    errors: &str,
) -> (r: String)
    ensures
        r@ == row(
            phase@,
            eps@,
            target@,
            qps@,
            query_target@,
            p50@,
            p99@,
            lag@,
            errors@,
        ),
{
    let mut out = console::pad_right(phase, 12);
    out.append(" ");
    out.append(console::pad_left(eps, 10).as_str());
    out.append(" ");
    out.append(console::pad_left(target, 10).as_str());
    out.append(" ");
    out.append(console::pad_left(qps, 8).as_str());
    out.append(" ");
    out.append(console::pad_left(query_target, 8).as_str());
    out.append(" ");
    out.append(console::pad_left(p50, 8).as_str());
    out.append(" ");
    out.append(console::pad_left(p99, 8).as_str());
    out.append(" ");
    out.append(console::pad_left(lag, 12).as_str());
    out.append(" ");
    out.append(console::pad_left(errors, 6).as_str());
    out
}

/// The heads of the columns.
pub fn table_header() -> (r: String)
    ensures
        r@ == row(
            "PHASE"@,
            "INGEST_EPS"@,
            "TARGET"@,
            "Q_QPS"@,
            "Q_TARG"@,
            "P50"@,
            "P99"@,
            "KAFKA_LAG"@,
            "ERRS"@,
        ),
{
    row_of(
        "PHASE",
        "INGEST_EPS",
        "TARGET",
        "Q_QPS",
        "Q_TARG",
        "P50",
        "P99",
        "KAFKA_LAG",
        "ERRS",
    )
}

/// Millionths with one decimal: a rate of queries, or nanoseconds in milliseconds.
pub open spec fn tenths(n: u64) -> Seq<char> {
    decimal::fixed(n as nat, 1_000_000, 1)
}

fn tenths_of(n: u64) -> (r: String)
    ensures
        r@ == tenths(n),
{
    decimal::fixed_of(n as u128, 1_000_000, 1)
}

/// The row of a second.
pub open spec fn snapshot_row(p: PointView) -> Seq<char> {
    row(
        p.phase,
        text::decimal(p.ingest_events_produced as nat),
        text::decimal(p.ingest_target_eps as nat),
        text::decimal(p.query_executed as nat),
        tenths(p.query_target_uqps),
        tenths(p.query_latency.p50),
        tenths(p.query_latency.p99),
        text::decimal(p.kafka_consumer_lag as nat),
        text::decimal(p.query_errors as nat),
    )
}

/// The row of a second.
pub fn format_snapshot_table(p: &AggregatedMetricPoint) -> (r: String)
    ensures
        r@ == snapshot_row(p@),
{
    row_of(
        p.phase.as_str(),
        text::decimal_u64(p.ingest_events_produced).as_str(),
        text::decimal_u64(p.ingest_target_eps).as_str(),
        text::decimal_u64(p.query_executed).as_str(),
        tenths_of(p.query_target_uqps).as_str(),
        tenths_of(p.query_latency.p50).as_str(),
        tenths_of(p.query_latency.p99).as_str(),
        text::decimal_u64(p.kafka_consumer_lag).as_str(),
        text::decimal_u64(p.query_errors).as_str(),
    )
}

/// The document of a second.
pub open spec fn snapshot_doc(p: PointView) -> Doc {
    Doc::object().with("phase"@, Doc::Text(p.phase)).with(
        "ingest_eps"@,
        Doc::Uint(p.ingest_events_produced as nat),
    ).with("ingest_target_eps"@, Doc::Uint(p.ingest_target_eps as nat)).with(
        "query_qps"@,
        Doc::Uint(p.query_executed as nat),
    ).with("query_target_qps"@, categories::ms(p.query_target_uqps as nat)).with(
        "query_p50"@,
        categories::ms(p.query_latency.p50 as nat),
    ).with("query_p95"@, categories::ms(p.query_latency.p95 as nat)).with(
        "query_p99"@,
        categories::ms(p.query_latency.p99 as nat),
    ).with("kafka_consumer_lag"@, Doc::Uint(p.kafka_consumer_lag as nat)).with(
        "query_errors"@,
        Doc::Uint(p.query_errors as nat),
    )
}

/// The document of a second.
pub fn format_snapshot_json(p: &AggregatedMetricPoint) -> (r: Json)
    ensures
        r.doc() == snapshot_doc(p@),
{
    Json::object().with("phase", Json::text(p.phase.as_str())).with(
        "ingest_eps",
        Json::Uint(p.ingest_events_produced),
    ).with("ingest_target_eps", Json::Uint(p.ingest_target_eps)).with(
        "query_qps",
        Json::Uint(p.query_executed),
    ).with(
        "query_target_qps",
        Json::Quotient { num: p.query_target_uqps as u128, den: 1_000_000 },
    ).with("query_p50", Json::Quotient { num: p.query_latency.p50 as u128, den: 1_000_000 }).with(
        "query_p95",
        Json::Quotient { num: p.query_latency.p95 as u128, den: 1_000_000 },
    ).with("query_p99", Json::Quotient { num: p.query_latency.p99 as u128, den: 1_000_000 }).with(
        "kafka_consumer_lag",
        Json::Uint(p.kafka_consumer_lag),
    ).with("query_errors", Json::Uint(p.query_errors))
}

// ---------------------------------------------------------------------------
// The screen
// ---------------------------------------------------------------------------

/// The last items of a list, at most so many.
pub open spec fn last_of<T>(s: Seq<T>, n: nat) -> Seq<T> {
    if s.len() > n {
        s.skip(s.len() - n)
    } else {
        s
    }
}

/// Takes a second into the history, which keeps the latest.
pub fn remember(history: &mut Vec<AggregatedMetricPoint>, p: AggregatedMetricPoint)
    requires
        old(history)@.len() <= HISTORY_SECONDS,
    ensures
        final(history)@ == last_of(old(history)@.push(p), HISTORY_SECONDS as nat),
        final(history)@.len() <= HISTORY_SECONDS,
{
    history.push(p);
    if history.len() > HISTORY_SECONDS {
        let ghost all = history@;
        let _ = history.remove(0);
        assert(history@ =~= all.skip(1));
    }
}

/// The events of the seconds that are drawn.
pub open spec fn drawn(history: Seq<PointView>) -> Seq<u64> {
    last_of(history, DRAWN_SECONDS as nat).map_values(|p: PointView| p.ingest_events_produced)
}

/// The events of the seconds that are drawn.
pub fn sparkline(history: &Vec<AggregatedMetricPoint>) -> (r: Vec<u64>)
    ensures
        r@ == drawn(model::vmap(history@)),
{
    let ghost all = model::vmap(history@);
    let ghost want = drawn(all);
    let from: usize = if history.len() > DRAWN_SECONDS {
        history.len() - DRAWN_SECONDS
    } else {
        0
    };
    let mut out: Vec<u64> = Vec::new();
    let mut i: usize = from;
    assert(out@ =~= want.take(0));
    while i < history.len()
        invariant
            from <= i <= history@.len(),
            from == (if history@.len() > DRAWN_SECONDS {
                history@.len() - DRAWN_SECONDS
            } else {
                0
            }),
            all == model::vmap(history@),
            want == drawn(all),
            out@ == want.take(i - from),
        decreases history@.len() - i,
    {
        broadcast use model::take_push;

        assert(all[i as int] == history@[i as int]@);
        out.push(history[i].ingest_events_produced);
        assert(want.take(i - from + 1) =~= want.take(i - from).push(want[i - from]));
        i += 1;
    }
    assert(want.take(i - from) =~= want);
    out
}

/// The line at the head of the screen.
pub open spec fn status_line(p: PointView) -> Seq<char> {
    "Phase: "@ + p.phase + "  |  Ingest: "@ + text::decimal(p.ingest_events_produced as nat)
        + " / "@ + text::decimal(p.ingest_target_eps as nat) + " EPS  |  Query: "@
        + decimal::fixed(p.query_executed as nat, 1, 1) + " / "@ + tenths(p.query_target_uqps)
        + " QPS  |  Kafka Lag: "@ + text::decimal(p.kafka_consumer_lag as nat)
}

/// The titles and texts of the cards, in order.
pub open spec fn cards(p: PointView) -> Seq<(Seq<char>, Seq<char>)> {
    seq![
        ("Ingest EPS"@, text::decimal(p.ingest_events_produced as nat)),
        ("Query QPS"@, text::decimal(p.query_executed as nat)),
        ("Query p99"@, tenths(p.query_latency.p99) + " ms"@),
        ("Kafka Lag"@, text::decimal(p.kafka_consumer_lag as nat)),
        ("Query p50"@, tenths(p.query_latency.p50) + " ms"@),
        ("Query p95"@, tenths(p.query_latency.p95) + " ms"@),
        ("Errors"@, text::decimal(p.query_errors as nat)),
        (
            "Workers"@,
            "I:"@ + text::decimal(p.ingest_workers_reporting as nat) + " Q:"@ + text::decimal(
                p.query_workers_reporting as nat,
            ),
        ),
    ]
}

/// The line at the head of the screen.
pub fn screen_status(p: &AggregatedMetricPoint) -> (r: String)
    ensures
        r@ == status_line(p@),
{
    let mut out = text::owned("Phase: ");
    out.append(p.phase.as_str());
    out.append("  |  Ingest: ");
    out.append(text::decimal_u64(p.ingest_events_produced).as_str());
    out.append(" / ");
    out.append(text::decimal_u64(p.ingest_target_eps).as_str());
    out.append(" EPS  |  Query: ");
    out.append(decimal::fixed_of(p.query_executed as u128, 1, 1).as_str());
    out.append(" / ");
    out.append(tenths_of(p.query_target_uqps).as_str());
    out.append(" QPS  |  Kafka Lag: ");
    out.append(text::decimal_u64(p.kafka_consumer_lag).as_str());
    out
}

/// The titles and texts of the cards, in order.
pub fn screen_cards(p: &AggregatedMetricPoint) -> (r: Vec<(String, String)>)
    ensures
        model::vmap(r@) == cards(p@),
{
    let mut out: Vec<(String, String)> = Vec::new();
    out.push((text::owned("Ingest EPS"), text::decimal_u64(p.ingest_events_produced)));
    out.push((text::owned("Query QPS"), text::decimal_u64(p.query_executed)));
    out.push(
        (text::owned("Query p99"), text::join2(tenths_of(p.query_latency.p99).as_str(), " ms")),
    );
    out.push((text::owned("Kafka Lag"), text::decimal_u64(p.kafka_consumer_lag)));
    out.push(
        (text::owned("Query p50"), text::join2(tenths_of(p.query_latency.p50).as_str(), " ms")),
    );
    out.push(
        (text::owned("Query p95"), text::join2(tenths_of(p.query_latency.p95).as_str(), " ms")),
    );
    out.push((text::owned("Errors"), text::decimal_u64(p.query_errors)));
    out.push(
        (
            text::owned("Workers"),
            text::join4(
                "I:",
                text::decimal_u64(p.ingest_workers_reporting as u64).as_str(),
                " Q:",
                text::decimal_u64(p.query_workers_reporting as u64).as_str(),
            ),
        ),
    );
    assert(model::vmap(out@) =~= cards(p@));
    out
}

/// Where the aggregator of a run is reached.
pub fn discover_aggregator_addr(run_name: &str, namespace: &str) -> (r: String)
    ensures
        r@ == run_name@ + "-aggregator."@ + namespace@ + ".svc:50052"@,
{
    text::join4(run_name, "-aggregator.", namespace, ".svc:50052")
}

} // verus!
