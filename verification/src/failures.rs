//! What is recorded of a query that failed: its class, a message of bounded length, and
//! where and when it happened.
use vstd::prelude::*;
use vstd::string::*;
use crate::snapshot::{ErrorView, QueryErrorRecord};
use crate::text;

verus! {

/// The most bytes of a message that are kept.
pub const MAX_MESSAGE_BYTES: usize = 1024;

// ---------------------------------------------------------------------------
// The class of an error
// ---------------------------------------------------------------------------

/// The message speaks of a time limit, in any case of its letters.
pub open spec fn tells_timeout(message: Seq<char>) -> bool {
    let lower = text::ascii_lower(message);
    text::holds(lower, "timed out"@) || text::holds(lower, "timeout"@) || text::holds(
        lower,
        "deadline"@,
    )
}

/// The message speaks of a resource that ran out.
pub open spec fn tells_resource(lower: Seq<char>) -> bool {
    text::holds(lower, "resource"@) || text::holds(lower, "oom"@) || text::holds(lower, "memory"@)
        || text::holds(lower, "exhaust"@) || text::holds(lower, "enhance_your_calm"@)
}

/// The message speaks of the query's own text.
pub open spec fn tells_sql(lower: Seq<char>) -> bool {
    text::holds(lower, "sql"@) || text::holds(lower, "sqlstate"@) || text::holds(lower, "code="@)
        || text::holds(lower, "syntax"@) || text::holds(lower, "parse"@) || text::holds(
        lower,
        "relation"@,
    ) || text::holds(lower, "column"@)
}

/// The message speaks of the connection.
pub open spec fn tells_connection(lower: Seq<char>) -> bool {
    text::holds(lower, "connection"@) || text::holds(lower, "connect"@) || text::holds(
        lower,
        "transport"@,
    ) || text::holds(lower, "broken pipe"@) || text::holds(lower, "connection reset"@)
}

/// The class of an error, by what its message speaks of; the first that fits.
pub open spec fn error_class(message: Seq<char>, timed_out: bool) -> Seq<char> {
    let lower = text::ascii_lower(message);
    if timed_out || tells_timeout(message) {
        "timeout"@
    } else if text::holds(lower, "cancel"@) {
        "cancelled"@
    } else if tells_resource(lower) {
        "resource"@
    } else if tells_sql(lower) {
        "sql"@
    } else if tells_connection(lower) {
        "connection"@
    } else if text::holds(lower, "http 5"@) || text::holds(lower, "internal"@) {
        "target_internal"@
    } else {
        "unknown"@
    }
}

/// Whether a message speaks of a time limit.
pub fn is_timeout_error(message: &str) -> (r: bool)
    ensures
        r == tells_timeout(message@),
{
    let lower = text::to_ascii_lower(message);
    text::contains(lower.as_str(), "timed out") || text::contains(lower.as_str(), "timeout")
        || text::contains(lower.as_str(), "deadline")
}

/// The class of an error.
pub fn classify_query_error(message: &str, timed_out: bool) -> (r: &'static str)
    ensures
        r@ == error_class(message@, timed_out),
{
    if timed_out || is_timeout_error(message) {
        return "timeout";
    }
    let lower_text = text::to_ascii_lower(message);
    let lower = lower_text.as_str();
    if text::contains(lower, "cancel") {
        "cancelled"
    } else if text::contains(lower, "resource") || text::contains(lower, "oom") || text::contains(
        lower,
        "memory",
    ) || text::contains(lower, "exhaust") || text::contains(lower, "enhance_your_calm") {
        "resource"
    } else if text::contains(lower, "sql") || text::contains(lower, "sqlstate") || text::contains(
        lower,
        "code=",
    ) || text::contains(lower, "syntax") || text::contains(lower, "parse") || text::contains(
        lower,
        "relation",
    ) || text::contains(lower, "column") {
        "sql"
    } else if text::contains(lower, "connection") || text::contains(lower, "connect")
        || text::contains(lower, "transport") || text::contains(lower, "broken pipe")
        || text::contains(lower, "connection reset") {
        "connection"
    } else if text::contains(lower, "http 5") || text::contains(lower, "internal") {
        "target_internal"
    } else {
        "unknown"
    }
}

// ---------------------------------------------------------------------------
// The length of a message
// ---------------------------------------------------------------------------

/// How many bytes a character takes in UTF-8.
pub open spec fn char_bytes(c: char) -> nat {
    if (c as u32) < 0x80 {
        1
    } else if (c as u32) < 0x800 {
        2
    } else if (c as u32) < 0x10000 {
        3
    } else {
        4
    }
}

/// How many bytes a text takes in UTF-8.
pub open spec fn byte_len(s: Seq<char>) -> nat
    decreases s.len(),
{
    if s.len() == 0 {
        0
    } else {
        byte_len(s.drop_last()) + char_bytes(s.last())
    }
}

/// How many characters from the first on fit into `limit` bytes, where the first `n` do.
pub open spec fn fitting(s: Seq<char>, n: int, limit: nat) -> int
    decreases s.len() - n,
{
    if 0 <= n < s.len() && byte_len(s.take(n + 1)) <= limit {
        fitting(s, n + 1, limit)
    } else {
        n
    }
}

/// A message of at most the kept length as it is; of a longer one the characters that fit,
/// and an ellipsis.
pub open spec fn shortened(message: Seq<char>) -> Seq<char> {
    if byte_len(message) <= MAX_MESSAGE_BYTES {
        message
    } else {
        message.take(fitting(message, 0, MAX_MESSAGE_BYTES as nat)) + "…"@
    }
}

proof fn bytes_grow(s: Seq<char>, k: int, n: int)
    requires
        0 <= k <= n <= s.len(),
    ensures
        byte_len(s.take(k)) + (n - k) <= byte_len(s.take(n)),
    decreases n - k,
{
    if k < n {
        bytes_grow(s, k, n - 1);
        assert(s.take(n).drop_last() =~= s.take(n - 1));
    }
}

/// The message, shortened where it is too long.
pub fn truncate_error_message(message: &str) -> (r: String)
    ensures
        r@ == shortened(message@),
{
    let chars = text::chars_of(message);
    let ghost s = message@;
    let mut n: usize = 0;
    let mut used: usize = 0;
    assert(s.take(0) =~= Seq::<char>::empty());
    while n < chars.len()
        invariant
            n <= chars@.len(),
            chars@ == s,
            s == message@,
            used == byte_len(s.take(n as int)),
            used <= MAX_MESSAGE_BYTES,
            fitting(s, 0, MAX_MESSAGE_BYTES as nat) == fitting(
                s,
                n as int,
                MAX_MESSAGE_BYTES as nat,
            ),
        decreases chars@.len() - n,
    {
        let c: u32 = chars[n] as u32;
        let size: usize = if c < 0x80 {
            1
        } else if c < 0x800 {
            2
        } else if c < 0x10000 {
            3
        } else {
            4
        };
        proof {
            assert(s.take(n + 1).drop_last() =~= s.take(n as int));
            assert(s.take(n + 1).last() == s[n as int]);
        }
        if used + size > MAX_MESSAGE_BYTES {
            proof {
                bytes_grow(s, n + 1, s.len() as int);
                assert(s.take(s.len() as int) =~= s);
            }
            let kept = text::string_of(&chars, 0, n);
            assert(s.subrange(0, n as int) =~= s.take(n as int));
            return text::join2(kept.as_str(), "…");
        }
        used = used + size;
        n += 1;
    }
    assert(s.take(n as int) =~= s);
    text::owned(message)
}

/// A message that was kept takes no more than the kept length and an ellipsis.
pub proof fn shortened_is_short(message: Seq<char>)
    ensures
        byte_len(message) <= MAX_MESSAGE_BYTES ==> shortened(message) == message,
        byte_len(message) > MAX_MESSAGE_BYTES ==> exists|n: int|
            #![trigger message.take(n)]
            0 <= n < message.len() && shortened(message) == message.take(n) + "…"@ && byte_len(
                message.take(n),
            ) <= MAX_MESSAGE_BYTES,
{
    assert(message.take(0) =~= Seq::<char>::empty());
    fitting_fits(message, 0, MAX_MESSAGE_BYTES as nat);
    let n = fitting(message, 0, MAX_MESSAGE_BYTES as nat);
    if n == message.len() {
        assert(message.take(n) =~= message);
    }
}

proof fn fitting_fits(s: Seq<char>, n: int, limit: nat)
    requires
        0 <= n <= s.len(),
        byte_len(s.take(n)) <= limit,
    ensures
        n <= fitting(s, n, limit) <= s.len(),
        byte_len(s.take(fitting(s, n, limit))) <= limit,
    decreases s.len() - n,
{
    if n < s.len() && byte_len(s.take(n + 1)) <= limit {
        fitting_fits(s, n + 1, limit);
    }
}

// ---------------------------------------------------------------------------
// The record
// ---------------------------------------------------------------------------

/// The worker that a record comes from.
pub struct WorkerIdentity {
    pub worker_id: String,
    pub worker_index: u32,
    /// Empty where the worker belongs to no group.
    pub query_group: String,
}

/// What is recorded of a query that failed.
pub open spec fn error_record(
    query_name: Seq<char>,
    category: Seq<char>,
    phase: Seq<char>,
    worker: WorkerIdentity,
    timestamp_ms: i64,
    duration_ns: u64,
    timed_out: bool,
    message: Seq<char>,
) -> ErrorView {
    ErrorView {
        query_name,
        category,
        phase,
        worker_id: worker.worker_id@,
        worker_index: worker.worker_index,
        timestamp_ms,
        duration_ns,
        timed_out,
        error_class: error_class(message, timed_out),
        message: shortened(message),
    }
}

/// Records a query that failed.
pub fn query_error_record_parts(
    query_name: &str,
    category: &str,
    phase: &str,
    worker: &WorkerIdentity,
    timestamp_ms: i64,
    duration_ns: u64,
    timed_out: bool,
    message: &str,
) -> (r: QueryErrorRecord)
    ensures
        r@ == error_record(
            query_name@,
            category@,
            phase@,
            *worker,
            timestamp_ms,
            duration_ns,
            timed_out,
            message@,
        ),
{
    QueryErrorRecord {
        query_name: text::owned(query_name),
        category: text::owned(category),
        phase: text::owned(phase),
        worker_id: worker.worker_id.clone(),
        worker_index: worker.worker_index,
        timestamp_ms,
        duration_ns,
        timed_out,
        error_class: text::owned(classify_query_error(message, timed_out)),
        message: truncate_error_message(message),
    }
}

} // verus!
