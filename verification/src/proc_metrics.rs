//! The load of a process: what the kernel's accounts of it say of its processor time and
//! its memory.
use vstd::prelude::*;
use vstd::string::*;
use crate::model;
use crate::rates;
use crate::text;

verus! {

/// The place of the time in user mode among the fields behind the process's name.
pub const USER_TIME: usize = 11;

/// The place of the time in kernel mode among the fields behind the process's name.
pub const SYSTEM_TIME: usize = 12;

// ---------------------------------------------------------------------------
// Words and lines
// ---------------------------------------------------------------------------

/// Where the word that starts at `i` ends.
pub open spec fn word_end(s: Seq<char>, i: int) -> int
    decreases s.len() - i,
{
    if 0 <= i < s.len() && !text::is_space(s[i]) {
        word_end(s, i + 1)
    } else {
        i
    }
}

/// The words of a text from `i` on: what stands between white space.
pub open spec fn words_from(s: Seq<char>, i: int) -> Seq<Seq<char>>
    decreases s.len() - i,
    via words_go_on
{
    if i < 0 || i >= s.len() {
        Seq::empty()
    } else if text::is_space(s[i]) {
        words_from(s, i + 1)
    } else {
        seq![s.subrange(i, word_end(s, i))] + words_from(s, word_end(s, i))
    }
}

#[via_fn]
proof fn words_go_on(s: Seq<char>, i: int) {
    if 0 <= i < s.len() && !text::is_space(s[i]) {
        word_end_advances(s, i);
    }
}

proof fn word_end_advances(s: Seq<char>, i: int)
    requires
        0 <= i < s.len(),
        !text::is_space(s[i]),
    ensures
        i < word_end(s, i) <= s.len(),
    decreases s.len() - i,
{
    reveal_with_fuel(word_end, 2);
    if i + 1 < s.len() && !text::is_space(s[i + 1]) {
        word_end_advances(s, i + 1);
    }
}

/// The words of a text.
pub open spec fn words(s: Seq<char>) -> Seq<Seq<char>> {
    words_from(s, 0)
}

fn split_words(s: &Vec<char>, from: usize) -> (r: Vec<String>)
    requires
        from <= s@.len(),
    ensures
        text::views(r@) == words(s@.skip(from as int)),
{
    let ghost rest = s@.skip(from as int);
    let ghost all = words(rest);
    let mut out: Vec<String> = Vec::new();
    let mut i: usize = from;
    assert(text::views(out@) + words_from(rest, 0) =~= all);
    while i < s.len()
        invariant
            from <= i <= s@.len(),
            rest == s@.skip(from as int),
            all == words(rest),
            text::views(out@) + words_from(rest, i - from) == all,
        decreases s@.len() - i,
    {
        assert(rest[i - from] == s@[i as int]);
        if text::space(s[i]) {
            i += 1;
        } else {
            let ghost k = i - from;
            proof {
                word_end_advances(rest, k);
            }
            let mut end: usize = i + 1;
            while end < s.len() && !text::space(s[end])
                invariant
                    from <= i < end <= s@.len(),
                    rest == s@.skip(from as int),
                    k == i - from,
                    word_end(rest, k) == word_end(rest, end - from),
                decreases s@.len() - end,
            {
                end += 1;
            }
            assert(word_end(rest, k) == end - from);
            let word = text::string_of(s, i, end);
            assert(word@ =~= rest.subrange(k, end - from));
            let ghost before = text::views(out@);
            out.push(word);
            proof {
                model::views_push(out@.drop_last(), word);
                assert(out@.drop_last().push(word) =~= out@);
                assert(text::views(out@) =~= before.push(word@));
                assert(before + (seq![word@] + words_from(rest, end - from)) =~= before.push(word@)
                    + words_from(rest, end - from));
            }
            i = end;
        }
    }
    assert(words_from(rest, i - from) =~= Seq::<Seq<char>>::empty());
    assert(text::views(out@) =~= all);
    out
}

/// The words of a text.
pub fn split_whitespace(s: &str) -> (r: Vec<String>)
    ensures
        text::views(r@) == words(s@),
{
    let chars = text::chars_of(s);
    assert(chars@.skip(0) =~= chars@);
    split_words(&chars, 0)
}

// ---------------------------------------------------------------------------
// Processor time
// ---------------------------------------------------------------------------

/// The place behind the last closing parenthesis among the first `n` characters.
pub open spec fn behind_name(s: Seq<char>, n: int) -> Option<int>
    decreases n,
{
    if n <= 0 {
        None
    } else if s[n - 1] == ')' {
        Some(n)
    } else {
        behind_name(s, n - 1)
    }
}

/// The sum of two numbers in decimal, where both are numbers of 64 bits and so is it.
pub open spec fn sum_of(a: Seq<char>, b: Seq<char>) -> Option<nat> {
    match (text::unsigned(a), text::unsigned(b)) {
        (Some(x), Some(y)) => if x + y <= u64::MAX {
            Some((x + y) as nat)
        } else {
            None
        },
        _ => None,
    }
}

/// The ticks that a process has used, by the text of its `stat` account: the process's name
/// stands in parentheses and may hold anything, so the fields are counted behind it.
pub open spec fn ticks(stat: Seq<char>) -> Option<nat> {
    match behind_name(stat, stat.len() as int) {
        None => None,
        Some(end) => if end >= stat.len() {
            None
        } else {
            let fields = words(stat.skip(end + 1));
            if fields.len() <= SYSTEM_TIME {
                None
            } else {
                sum_of(fields[USER_TIME as int], fields[SYSTEM_TIME as int])
            }
        },
    }
}

/// The ticks that a process has used.
pub fn read_cpu_ticks(stat: &str) -> (r: Option<u64>)
    ensures
        match r {
            Some(n) => ticks(stat@) == Some(n as nat),
            None => ticks(stat@) is None,
        },
{
    let chars = text::chars_of(stat);
    let mut n: usize = chars.len();
    while n > 0 && chars[n - 1] != ')'
        invariant
            n <= chars@.len(),
            chars@ == stat@,
            behind_name(stat@, stat@.len() as int) == behind_name(stat@, n as int),
        decreases n,
    {
        n -= 1;
    }
    if n == 0 || n >= chars.len() {
        return None;
    }
    let fields = split_words(&chars, n + 1);
    if fields.len() <= SYSTEM_TIME {
        return None;
    }
    assert(text::views(fields@)[USER_TIME as int] == fields@[USER_TIME as int]@);
    assert(text::views(fields@)[SYSTEM_TIME as int] == fields@[SYSTEM_TIME as int]@);
    match (
        text::parse_u64(fields[USER_TIME].as_str()),
        text::parse_u64(fields[SYSTEM_TIME].as_str()),
    ) {
        (Some(a), Some(b)) => if a <= u64::MAX - b {
            Some(a + b)
        } else {
            None
        },
        _ => None,
    }
}

// ---------------------------------------------------------------------------
// Memory
// ---------------------------------------------------------------------------

/// The text without one ending, where it has it.
pub open spec fn without_end(s: Seq<char>, end: Seq<char>) -> Option<Seq<char>> {
    if text::ends(s, end) {
        Some(s.take(s.len() - end.len()))
    } else {
        None
    }
}

/// The bytes that a line of the account gives behind its name, in units of 1024.
pub open spec fn kilobytes(rest: Seq<char>) -> Option<nat> {
    match without_end(text::trimmed(rest), "kB"@) {
        None => None,
        Some(number) => match text::unsigned(text::trimmed(number)) {
            Some(n) => if n * 1024 <= u64::MAX {
                Some((n * 1024) as nat)
            } else {
                None
            },
            None => None,
        },
    }
}

/// The bytes that the first line named `VmRSS` gives, from the `i`-th line on.
pub open spec fn resident(lines: Seq<Seq<char>>, i: int) -> Option<nat>
    decreases lines.len() - i,
{
    if i < 0 || i >= lines.len() {
        None
    } else if text::begins(lines[i], "VmRSS:"@) {
        kilobytes(lines[i].skip("VmRSS:"@.len() as int))
    } else {
        resident(lines, i + 1)
    }
}

/// The memory that a process holds, by the text of its `status` account.
pub open spec fn resident_bytes(status: Seq<char>) -> Option<nat> {
    resident(text::pieces(status, "\n"@), 0)
}

fn kilobytes_of(rest: &str) -> (r: Option<u64>)
    ensures
        match r {
            Some(n) => kilobytes(rest@) == Some(n as nat),
            None => kilobytes(rest@) is None,
        },
{
    let trimmed = text::trim(rest);
    if !text::ends_with(trimmed.as_str(), "kB") {
        return None;
    }
    proof {
        reveal_strlit("kB");
    }
    let chars = text::chars_of(trimmed.as_str());
    let number = text::string_of(&chars, 0, chars.len() - 2);
    assert(number@ =~= trimmed@.take(trimmed@.len() - 2));
    match text::parse_u64(text::trim(number.as_str()).as_str()) {
        Some(n) => if n <= 0x3f_ffff_ffff_ffff {
            Some(n * 1024)
        } else {
            None
        },
        None => None,
    }
}

/// The memory that a process holds.
pub fn read_rss_bytes(status: &str) -> (r: Option<u64>)
    ensures
        match r {
            Some(n) => resident_bytes(status@) == Some(n as nat),
            None => resident_bytes(status@) is None,
        },
{
    proof {
        reveal_strlit("\n");
        reveal_strlit("VmRSS:");
    }
    let lines = text::split(status, "\n");
    let ghost all = text::pieces(status@, "\n"@);
    let mut i: usize = 0;
    while i < lines.len()
        invariant
            i <= lines@.len(),
            all == text::views(lines@),
            all == text::pieces(status@, "\n"@),
            "VmRSS:"@.len() == 6,
            resident_bytes(status@) == resident(all, i as int),
        decreases lines@.len() - i,
    {
        assert(all[i as int] == lines@[i as int]@);
        if text::starts_with(lines[i].as_str(), "VmRSS:") {
            let chars = text::chars_of(lines[i].as_str());
            let rest = text::string_of(&chars, 6, chars.len());
            assert(rest@ =~= lines@[i as int]@.skip(6));
            return kilobytes_of(rest.as_str());
        }
        i += 1;
    }
    None
}

// ---------------------------------------------------------------------------
// Utilisation
// ---------------------------------------------------------------------------

/// The last reading of the processor time.
#[derive(Clone, Copy, PartialEq, Eq, Structural, Debug)]
pub struct ProcMetrics {
    pub prev_cpu_ticks: u64,
    pub prev_time_ns: u64,
}

/// The share of a processor, in parts per million, that so many ticks, each a hundredth of a
/// second, are of a time; nothing where no time has passed.
pub open spec fn utilisation(ticks: int, elapsed_ns: int) -> int {
    if elapsed_ns <= 0 {
        0
    } else {
        rates::at_most_u64(ticks * 10_000_000_000_000 / elapsed_ns)
    }
}

impl ProcMetrics {
    /// The first reading; one that failed counts as no ticks.
    pub fn new(ticks: Option<u64>, now_ns: u64) -> (r: ProcMetrics)
        ensures
            r.prev_time_ns == now_ns,
            r.prev_cpu_ticks == (match ticks {
                Some(t) => t,
                None => 0,
            }),
    {
        ProcMetrics {
            prev_cpu_ticks: match ticks {
                Some(t) => t,
                None => 0,
            },
            prev_time_ns: now_ns,
        }
    }

    /// The share of a processor used since the last reading. A reading that failed counts
    /// for nothing, and leaves the last one in place.
    pub fn cpu_utilization(&mut self, ticks: Option<u64>, now_ns: u64) -> (r: u64)
        ensures
            match ticks {
                None => r == 0 && *final(self) == *old(self),
                Some(t) => {
                    &&& final(self).prev_cpu_ticks == t
                    &&& final(self).prev_time_ns == now_ns
                    &&& r == utilisation(
                        if t > old(self).prev_cpu_ticks {
                            t - old(self).prev_cpu_ticks
                        } else {
                            0
                        },
                        now_ns - old(self).prev_time_ns,
                    )
                },
            },
    {
        match ticks {
            None => 0,
            Some(t) => {
                let delta: u64 = if t > self.prev_cpu_ticks {
                    t - self.prev_cpu_ticks
                } else {
                    0
                };
                let before: u64 = self.prev_time_ns;
                self.prev_cpu_ticks = t;
                self.prev_time_ns = now_ns;
                if now_ns <= before {
                    return 0;
                }
                let share: u128 = delta as u128 * 10_000_000_000_000 / (now_ns - before) as u128;
                if share > u64::MAX as u128 {
                    u64::MAX
                } else {
                    share as u64
                }
            },
        }
    }

    /// The share of a processor used since the last reading, and the memory held; one that
    /// could not be read counts as none.
    pub fn sample(&mut self, ticks: Option<u64>, memory: Option<u64>, now_ns: u64) -> (r: (
        u64,
        u64,
    ))
        ensures
            match ticks {
                None => r.0 == 0 && *final(self) == *old(self),
                Some(t) => {
                    &&& final(self).prev_cpu_ticks == t
                    &&& final(self).prev_time_ns == now_ns
                    &&& r.0 == utilisation(
                        if t > old(self).prev_cpu_ticks {
                            t - old(self).prev_cpu_ticks
                        } else {
                            0
                        },
                        now_ns - old(self).prev_time_ns,
                    )
                },
            },
            r.1 == (match memory {
                Some(m) => m,
                None => 0,
            }),
    {
        let cpu: u64 = self.cpu_utilization(ticks, now_ns);
        (
            cpu,
            match memory {
                Some(m) => m,
                None => 0,
            },
        )
    }
}

} // verus!
