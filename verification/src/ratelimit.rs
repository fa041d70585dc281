//! A token bucket: how many operations a worker may do, and how long it waits for the next.
//!
//! Rates are in thousandths of an operation per second. Tokens are counted in units of
//! which one token has [`ONE_TOKEN`], so that a nanosecond at a rate of one brings one unit.
use vstd::prelude::*;
use crate::model;

verus! {

/// The units of a token.
pub const ONE_TOKEN: i128 = 1_000_000_000_000;

/// The rate of one operation per second.
pub const ONE_PER_SECOND: u64 = 1000;

/// How long a worker sleeps while nothing is to be done, in nanoseconds.
pub const IDLE_NS: u64 = 1_000_000_000;

/// A token bucket.
pub struct TokenBucketRateLimiter {
    pub rate: u64,
    pub tokens: i128,
    pub max_tokens: i128,
    pub missed_ops: u64,
}

/// What a worker that wants a token does.
#[derive(Clone, Copy, PartialEq, Eq, Structural, Debug)]
pub enum Acquire {
    /// Go on; so many operations were missed.
    Granted { missed: u64 },
    /// Sleep for a second, then ask again: the rate is zero, and no token comes.
    Idle,
    /// Sleep so long, then ask again: there is a token then.
    Wait { wait_ns: u128 },
}

/// The most tokens that a bucket holds: those of a second, and one at least.
pub open spec fn burst(rate: int) -> int {
    if rate > ONE_PER_SECOND {
        rate * 1_000_000_000
    } else {
        ONE_TOKEN as int
    }
}

/// The tokens after some time.
pub open spec fn refilled(tokens: int, rate: int, max: int, elapsed_ns: int) -> int {
    if tokens + elapsed_ns * rate < max {
        tokens + elapsed_ns * rate
    } else {
        max
    }
}

/// One more operation that was missed; the greatest count stays.
pub open spec fn one_more_missed(n: u64) -> u64 {
    if n == u64::MAX {
        n
    } else {
        (n + 1) as u64
    }
}

/// The time until there is a token, rounded up.
pub open spec fn time_to_token(tokens: int, rate: int) -> int {
    (ONE_TOKEN - tokens + rate - 1) / rate
}

fn burst_of(rate: u64) -> (r: i128)
    ensures
        r == burst(rate as int),
        ONE_TOKEN <= r <= 0xffff_ffff_ffff_ffff * 1_000_000_000,
{
    if rate > ONE_PER_SECOND {
        rate as i128 * 1_000_000_000
    } else {
        ONE_TOKEN
    }
}

impl TokenBucketRateLimiter {
    /// The bucket holds what its rate allows.
    pub open spec fn wf(self) -> bool {
        &&& self.max_tokens == burst(self.rate as int)
        &&& 0 <= self.tokens <= 0xffff_ffff_ffff_ffff * 1_000_000_000
    }

    /// A full bucket.
    pub fn new(rate: u64) -> (r: TokenBucketRateLimiter)
        ensures
            r.wf(),
            r.rate == rate,
            r.tokens == burst(rate as int),
            r.missed_ops == 0,
    {
        let max: i128 = burst_of(rate);
        TokenBucketRateLimiter { rate, tokens: max, max_tokens: max, missed_ops: 0 }
    }

    /// Sets the rate. The tokens that are there stay.
    pub fn set_rate(&mut self, new_rate: u64)
        requires
            old(self).wf(),
        ensures
            final(self).wf(),
            final(self).rate == new_rate,
            final(self).tokens == old(self).tokens,
            final(self).missed_ops == old(self).missed_ops,
    {
        self.rate = new_rate;
        self.max_tokens = burst_of(new_rate);
    }

    /// The rate.
    pub fn rate(&self) -> (r: u64)
        ensures
            r == self.rate,
    {
        self.rate
    }

    fn refill(&mut self, elapsed_ns: u64)
        requires
            old(self).wf(),
        ensures
            final(self).wf(),
            final(self).rate == old(self).rate,
            final(self).max_tokens == old(self).max_tokens,
            final(self).missed_ops == old(self).missed_ops,
            final(self).tokens == refilled(
                old(self).tokens as int,
                old(self).rate as int,
                old(self).max_tokens as int,
                elapsed_ns as int,
            ),
    {
        proof {
            assert(elapsed_ns as int * self.rate as int <= 0xffff_ffff_ffff_ffff
                * 0xffff_ffff_ffff_ffff) by (nonlinear_arith)
                requires
                    0 <= elapsed_ns <= 0xffff_ffff_ffff_ffff,
                    0 <= self.rate <= 0xffff_ffff_ffff_ffff,
            ;
            assert(elapsed_ns as int * self.rate as int >= 0) by (nonlinear_arith)
                requires
                    0 <= elapsed_ns,
                    0 <= self.rate,
            ;
        }
        let gained: u128 = elapsed_ns as u128 * self.rate as u128;
        let room: i128 = self.max_tokens - self.tokens;
        if room > 0 && gained < room as u128 {
            self.tokens = self.tokens + gained as i128;
        } else {
            self.tokens = self.max_tokens;
        }
    }

    /// Takes a token where there is one; else tells how long to sleep first. `elapsed_ns`
    /// is the time since tokens were last added.
    pub fn acquire(&mut self, elapsed_ns: u64) -> (r: Acquire)
        requires
            old(self).wf(),
        ensures
            final(self).wf(),
            final(self).rate == old(self).rate,
            ({
                let there = refilled(
                    old(self).tokens as int,
                    old(self).rate as int,
                    old(self).max_tokens as int,
                    elapsed_ns as int,
                );
                if there >= ONE_TOKEN {
                    &&& r == Acquire::Granted { missed: old(self).missed_ops }
                    &&& final(self).tokens == there - ONE_TOKEN
                    &&& final(self).missed_ops == 0
                } else {
                    &&& r == (if old(self).rate == 0 {
                        Acquire::Idle
                    } else {
                        Acquire::Wait {
                            wait_ns: time_to_token(there, old(self).rate as int) as u128,
                        }
                    })
                    &&& final(self).tokens == there
                    &&& final(self).missed_ops == old(self).missed_ops
                }
            }),
    {
        self.refill(elapsed_ns);
        if self.tokens >= ONE_TOKEN {
            self.tokens = self.tokens - ONE_TOKEN;
            return Acquire::Granted { missed: self.take_missed_ops() };
        }
        if self.rate == 0 {
            return Acquire::Idle;
        }
        let lacking: u128 = (ONE_TOKEN - self.tokens) as u128;
        let wait: u128 = (lacking + self.rate as u128 - 1) / self.rate as u128;
        Acquire::Wait { wait_ns: wait }
    }

    /// Notes a second without a rate: an operation was missed. No token is taken.
    pub fn after_idle(&mut self)
        ensures
            *final(self) == (TokenBucketRateLimiter {
                missed_ops: one_more_missed(old(self).missed_ops),
                ..*old(self)
            }),
    {
        if self.missed_ops < u64::MAX {
            self.missed_ops = self.missed_ops + 1;
        }
    }

    /// Takes up to `n` tokens, as many as there are. Gives how many it took.
    pub fn try_acquire_batch(&mut self, n: u64, elapsed_ns: u64) -> (r: u64)
        requires
            old(self).wf(),
        ensures
            final(self).wf(),
            final(self).rate == old(self).rate,
            final(self).missed_ops == old(self).missed_ops,
            ({
                let there = refilled(
                    old(self).tokens as int,
                    old(self).rate as int,
                    old(self).max_tokens as int,
                    elapsed_ns as int,
                );
                let whole = there / ONE_TOKEN as int;
                &&& r == (if whole < n {
                    whole
                } else {
                    n as int
                })
                &&& final(self).tokens == there - r * ONE_TOKEN
            }),
    {
        self.refill(elapsed_ns);
        let there: u128 = self.tokens as u128;
        let whole: u128 = there / ONE_TOKEN as u128;
        let taken: u64 = if whole < n as u128 {
            whole as u64
        } else {
            n
        };
        proof {
            assert(taken * ONE_TOKEN <= self.tokens) by (nonlinear_arith)
                requires
                    0 <= taken <= self.tokens as int / ONE_TOKEN as int,
                    ONE_TOKEN == 1_000_000_000_000,
            ;
        }
        self.tokens = self.tokens - taken as i128 * ONE_TOKEN;
        taken
    }

    /// How many operations were missed; they are counted from nothing again.
    pub fn take_missed_ops(&mut self) -> (r: u64)
        ensures
            r == old(self).missed_ops,
            *final(self) == (TokenBucketRateLimiter { missed_ops: 0, ..*old(self) }),
    {
        let missed: u64 = self.missed_ops;
        self.missed_ops = 0;
        missed
    }
}

// ---------------------------------------------------------------------------
// What a bucket grants
// ---------------------------------------------------------------------------

/// However long the time, a bucket never holds more than its burst.
pub proof fn never_more_than_the_burst(tokens: int, rate: int, elapsed_ns: int)
    ensures
        refilled(tokens, rate, burst(rate), elapsed_ns) <= burst(rate),
{
}

/// Who waits as long as told finds a token.
pub proof fn waiting_is_enough(tokens: int, rate: int, elapsed_ns: int)
    requires
        rate > 0,
        tokens < ONE_TOKEN,
        elapsed_ns >= time_to_token(tokens, rate),
    ensures
        refilled(tokens, rate, burst(rate), elapsed_ns) >= ONE_TOKEN,
{
    let lacking = ONE_TOKEN - tokens;
    let wait = time_to_token(tokens, rate);
    assert(wait * rate >= lacking) by (nonlinear_arith)
        requires
            rate > 0,
            wait == (lacking + rate - 1) / rate,
    ;
    assert(elapsed_ns * rate >= wait * rate) by (nonlinear_arith)
        requires
            rate > 0,
            elapsed_ns >= wait,
    ;
}

/// Who waits as long as told and asks again is granted a token.
pub proof fn a_wait_ends_with_a_token(b: TokenBucketRateLimiter, elapsed_ns: u64, slept_ns: u64)
    requires
        b.wf(),
        b.rate > 0,
        ({
            let there = refilled(
                b.tokens as int,
                b.rate as int,
                b.max_tokens as int,
                elapsed_ns as int,
            );
            there < ONE_TOKEN && slept_ns >= time_to_token(there, b.rate as int)
        }),
    ensures
        refilled(
            refilled(b.tokens as int, b.rate as int, b.max_tokens as int, elapsed_ns as int),
            b.rate as int,
            b.max_tokens as int,
            slept_ns as int,
        ) >= ONE_TOKEN,
{
    waiting_is_enough(
        refilled(b.tokens as int, b.rate as int, b.max_tokens as int, elapsed_ns as int),
        b.rate as int,
        slept_ns as int,
    );
}

/// The tokens of a bucket after operations, each granted after the time that the list
/// gives.
pub open spec fn after_grants(tokens: int, rate: int, times: Seq<int>) -> int
    decreases times.len(),
{
    if times.len() == 0 {
        tokens
    } else {
        refilled(after_grants(tokens, rate, times.drop_last()), rate, burst(rate), times.last())
            - ONE_TOKEN
    }
}

/// Operations are no more than the tokens that there were and those that the time brought:
/// over any stretch a worker keeps to its rate, but for one burst.
pub proof fn grants_keep_to_the_rate(tokens: int, rate: int, times: Seq<int>)
    ensures
        after_grants(tokens, rate, times) + times.len() * ONE_TOKEN <= tokens + rate * model::sum(
            times,
        ),
    decreases times.len(),
{
    if times.len() == 0 {
        assert(rate * 0 == 0) by (nonlinear_arith);
    } else {
        let rest = times.drop_last();
        grants_keep_to_the_rate(tokens, rate, rest);
        let last = times.last();
        let s = model::sum(rest);
        assert(rate * (s + last) == rate * s + last * rate) by (nonlinear_arith);
        assert(times.len() * ONE_TOKEN == rest.len() * ONE_TOKEN + ONE_TOKEN) by (nonlinear_arith)
            requires
                times.len() == rest.len() + 1,
        ;
    }
}

} // verus!
