//! Times as texts: how they are written into events, names and records, how they are read
//! again, and how far apart two of them lie.
use chrono::{DateTime, Utc};
use vstd::prelude::*;
use vstd::string::*;

verus! {

/// How the time of an event is written.
pub const EVENT_PATTERN: &'static str = "%Y-%m-%dT%H:%M:%S%.3fZ";

/// How the time of a run is written into its name.
pub const RUN_PATTERN: &'static str = "%Y%m%d-%H%M%S";

/// A time in seconds since the start of 1970, and the nanoseconds behind them.
#[derive(Clone, Copy, PartialEq, Eq, Structural, Debug)]
pub struct Instant {
    pub seconds: i64,
    pub nanos: u32,
}

impl Instant {
    /// From the start of 1970 to the end of 9999, and not within a leap second.
    pub open spec fn ordinary(self) -> bool {
        0 <= self.seconds <= 253_402_300_799 && self.nanos < 1_000_000_000
    }

    /// Nanoseconds since the start of 1970.
    pub open spec fn total(self) -> int {
        self.seconds * 1_000_000_000 + self.nanos
    }
}

// ---------------------------------------------------------------------------
// Texts
// ---------------------------------------------------------------------------

/// The text that `DateTime::format` makes of a time of UTC by a pattern.
pub uninterp spec fn formatted(time: Instant, pattern: Seq<char>) -> Option<Seq<char>>;

/// The text that `DateTime::to_rfc3339` makes of a time of UTC.
pub uninterp spec fn rfc3339_of(time: Instant) -> Option<Seq<char>>;

/// The time that `DateTime::parse_from_rfc3339` reads from a text.
pub uninterp spec fn instant_of(t: Seq<char>) -> Option<Instant>;

/// The text there may be.
pub open spec fn text_of(t: Option<String>) -> Option<Seq<char>> {
    match t {
        Some(s) => Some(s@),
        None => None,
    }
}

/// A time of UTC, written by a pattern.
///
/// Calls `DateTime::format` on what `DateTime::from_timestamp` makes of the time. The text
/// follows from the time and the pattern. There is one for every ordinary time; for one so
/// far off that a date cannot hold it there is none.
#[verifier::external_body]
fn format_utc(time: Instant, pattern: &str) -> (r: Option<String>)
    requires
        pattern@ == EVENT_PATTERN@ || pattern@ == RUN_PATTERN@,
    ensures
        text_of(r) == formatted(time, pattern@),
        time.ordinary() ==> r is Some,
{
    match DateTime::<Utc>::from_timestamp(time.seconds, time.nanos) {
        Some(t) => Some(t.format(pattern).to_string()),
        None => None,
    }
}

/// A time of UTC, written as RFC 3339 says.
///
/// Calls `DateTime::to_rfc3339` on what `DateTime::from_timestamp` makes of the time. The
/// text follows from the time. There is one for every ordinary time, and
/// `DateTime::parse_from_rfc3339` reads that time from it.
#[verifier::external_body]
fn write_rfc3339(time: Instant) -> (r: Option<String>)
    ensures
        text_of(r) == rfc3339_of(time),
        time.ordinary() ==> r is Some && instant_of(r->0@) == Some(time),
{
    match DateTime::<Utc>::from_timestamp(time.seconds, time.nanos) {
        Some(t) => Some(t.to_rfc3339()),
        None => None,
    }
}

/// The time that is written as RFC 3339 says; nothing where the text is no such time.
///
/// Calls `DateTime::parse_from_rfc3339`. The time follows from the text.
#[verifier::external_body]
fn read_rfc3339(t: &str) -> (r: Option<Instant>)
    ensures
        r == instant_of(t@),
{
    match DateTime::parse_from_rfc3339(t) {
        Ok(d) => Some(Instant { seconds: d.timestamp(), nanos: d.timestamp_subsec_nanos() }),
        Err(_) => None,
    }
}

/// The time of an event, to a millisecond.
pub fn event_stamp(now: Instant) -> (r: Option<String>)
    ensures
        text_of(r) == formatted(now, EVENT_PATTERN@),
        now.ordinary() ==> r is Some,
{
    format_utc(now, EVENT_PATTERN)
}

/// The time of a run, to a second.
pub fn run_stamp(now: Instant) -> (r: Option<String>)
    ensures
        text_of(r) == formatted(now, RUN_PATTERN@),
        now.ordinary() ==> r is Some,
{
    format_utc(now, RUN_PATTERN)
}

/// The time as it is kept in records. An ordinary time can be read again.
pub fn record_stamp(now: Instant) -> (r: Option<String>)
    ensures
        text_of(r) == rfc3339_of(now),
        now.ordinary() ==> r is Some && instant_of(r->0@) == Some(now),
{
    write_rfc3339(now)
}

// ---------------------------------------------------------------------------
// Spans
// ---------------------------------------------------------------------------

/// The whole seconds in a number of nanoseconds, towards zero.
pub open spec fn whole_seconds(nanos: int) -> int {
    if nanos >= 0 {
        nanos / 1_000_000_000
    } else {
        -((-nanos) / 1_000_000_000)
    }
}

/// The number, within the range of an `i64`.
pub open spec fn within_i64(n: int) -> int {
    if n > i64::MAX {
        i64::MAX as int
    } else if n < i64::MIN {
        i64::MIN as int
    } else {
        n
    }
}

/// How many whole seconds lie between two times; less than zero where the first is later.
pub open spec fn between(then: Instant, now: Instant) -> int {
    within_i64(whole_seconds(now.total() - then.total()))
}

/// How many whole seconds lie between two times.
pub fn seconds_between(then: Instant, now: Instant) -> (r: i64)
    ensures
        r == between(then, now),
{
    let seconds: i128 = now.seconds as i128 - then.seconds as i128;
    let nanos: i128 = seconds * 1_000_000_000 + (now.nanos as i128 - then.nanos as i128);
    let whole: i128 = if nanos >= 0 {
        nanos / 1_000_000_000
    } else {
        0 - (0 - nanos) / 1_000_000_000
    };
    if whole > 9_223_372_036_854_775_807 {
        i64::MAX
    } else if whole < -9_223_372_036_854_775_808 {
        i64::MIN
    } else {
        whole as i64
    }
}

/// How many whole seconds have passed since a time in writing; none where there is no such
/// time, or none can be read.
pub open spec fn elapsed(since: Option<Seq<char>>, now: Instant) -> int {
    match since {
        Some(t) => match instant_of(t) {
            Some(then) => between(then, now),
            None => 0,
        },
        None => 0,
    }
}

/// How many whole seconds have passed since a time in writing.
pub fn seconds_since(since: &Option<String>, now: Instant) -> (r: i64)
    ensures
        r == elapsed(text_of(*since), now),
{
    match since {
        Some(t) => match read_rfc3339(t.as_str()) {
            Some(then) => seconds_between(then, now),
            None => 0,
        },
        None => 0,
    }
}

/// From one time to another lies as long as back, and no time lies between a time and itself.
pub proof fn spans_are_symmetric(a: Instant, b: Instant)
    requires
        a.ordinary(),
        b.ordinary(),
    ensures
        between(a, b) == -between(b, a),
        between(a, a) == 0,
{
}

} // verus!
