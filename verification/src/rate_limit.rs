//! Rate-limit bookkeeping and retry policy.
//!
//! `RateLimiter` tracks the retry budget and the server-observed hints
//! (remaining request quota, suggested retry delay) and computes backoff
//! delays.  It holds no clock and performs no waiting itself: the
//! executor around it asks for a delay in milliseconds and does the
//! sleeping, so every decision here is verified for every outcome.

use vstd::prelude::*;
use crate::text;

verus! {

/// 2^n.
pub open spec fn pow2(n: nat) -> nat
    decreases n,
{
    if n == 0 {
        1
    } else {
        2 * pow2((n - 1) as nat)
    }
}

/// The capped exponential backoff: `base * 2^count`, capped at `max`.
pub open spec fn backoff_ms(base: nat, count: nat, max: nat) -> nat {
    vstd::math::min((base * pow2(count)) as int, max as int) as nat
}

/// Seconds turned into milliseconds, saturating at the integer limit.
pub open spec fn secs_to_ms_saturating(s: u64) -> u64 {
    if s * 1000 <= u64::MAX {
        (s * 1000) as u64
    } else {
        u64::MAX
    }
}

/// Information parsed from a response's rate-limit signals.
pub struct RateLimitInfo {
    /// Remaining requests before the limit, when the server said.
    pub remaining: Option<u32>,
    /// Seconds to wait before retrying, when the server said.
    pub retry_after: Option<u64>,
    /// Whether the response itself signalled "too many requests".
    pub is_rate_limited: bool,
}

/// Retry budget, backoff parameters, and the last server-observed
/// rate-limit hints.
pub struct RateLimiter {
    /// Retries taken so far in the current failure streak.
    pub retry_count: u32,
    /// Retries allowed before giving up.
    pub max_retries: u32,
    /// Base delay of the exponential backoff, in milliseconds.
    pub base_delay_ms: u64,
    /// Cap on the computed delay, in milliseconds.
    pub max_delay_ms: u64,
    /// Last observed remaining-request count, if the server sent one.
    pub remaining: Option<u32>,
    /// Server-suggested retry delay in seconds from the last
    /// rate-limited response, if any.
    pub retry_after: Option<u64>,
}

/// Relies on rand::random_range: a uniform draw from `0..=bound`.
/// Nothing beyond the range is assumed of the value.
#[verifier::external_body]
fn random_below(bound: u64) -> (r: u64)
    ensures
        r <= bound,
{
    rand::random_range(0..=bound)
}

impl RateLimiter {
    /// The backoff the current retry count yields, before jitter.
    pub open spec fn backoff(self) -> nat {
        backoff_ms(self.base_delay_ms as nat, self.retry_count as nat, self.max_delay_ms as nat)
    }

    /// `d` is a delay this limiter's state allows: the server's
    /// suggested delay verbatim when one was observed, otherwise the
    /// capped backoff plus at most a quarter of jitter.
    pub open spec fn delay_ok(self, d: u64) -> bool {
        match self.retry_after {
            Some(s) => d == secs_to_ms_saturating(s),
            None => self.backoff() <= d <= self.backoff() + self.backoff() / 4,
        }
    }

    /// The tuning knobs, unchanged by bookkeeping.
    pub open spec fn same_config(self, other: RateLimiter) -> bool {
        &&& self.max_retries == other.max_retries
        &&& self.base_delay_ms == other.base_delay_ms
        &&& self.max_delay_ms == other.max_delay_ms
    }

    /// A limiter with the default settings: five retries, one second of
    /// base delay, two minutes of cap.
    pub fn new() -> (r: Self)
        ensures
            r.retry_count == 0,
            r.max_retries == 5,
            r.base_delay_ms == 1000,
            r.max_delay_ms == 120000,
            r.remaining is None,
            r.retry_after is None,
    {
        RateLimiter {
            retry_count: 0,
            max_retries: 5,
            base_delay_ms: 1000,
            max_delay_ms: 120000,
            remaining: None,
            retry_after: None,
        }
    }

    /// A limiter with custom retry and backoff settings.
    pub fn with_config(max_retries: u32, base_delay_ms: u64, max_delay_ms: u64) -> (r: Self)
        ensures
            r.retry_count == 0,
            r.max_retries == max_retries,
            r.base_delay_ms == base_delay_ms,
            r.max_delay_ms == max_delay_ms,
            r.remaining is None,
            r.retry_after is None,
    {
        RateLimiter {
            retry_count: 0,
            max_retries,
            base_delay_ms,
            max_delay_ms,
            remaining: None,
            retry_after: None,
        }
    }

    /// Record the rate-limit signals of one response: the remaining
    /// quota and suggested delay exactly as observed (absence of either
    /// is not an error), and whether the status was 429.
    pub fn parse_headers(&mut self, remaining: Option<u32>, retry_after: Option<u64>, status: u16)
        -> (info: RateLimitInfo)
        ensures
            final(self).remaining == remaining,
            final(self).retry_after == retry_after,
            final(self).retry_count == old(self).retry_count,
            old(self).same_config(*final(self)),
            info.remaining == remaining,
            info.retry_after == retry_after,
            info.is_rate_limited == (status == 429),
    {
        self.remaining = remaining;
        self.retry_after = retry_after;
        RateLimitInfo { remaining, retry_after, is_rate_limited: status == 429 }
    }

    /// The remaining quota is known and nearly spent.
    pub fn should_throttle(&self) -> (r: bool)
        ensures
            r == (self.remaining matches Some(n) && n < 10),
    {
        match self.remaining {
            Some(n) => n < 10,
            None => false,
        }
    }

    /// Milliseconds to pause before even sending, when close to the
    /// limit: a fixed half second, else nothing.
    pub fn proactive_delay_ms(&self) -> (r: u64)
        ensures
            r == (if self.remaining matches Some(n) && n < 10 {
                500u64
            } else {
                0u64
            }),
    {
        if self.should_throttle() {
            500
        } else {
            0
        }
    }

    /// The capped exponential backoff for the current retry count,
    /// before jitter.
    fn capped_backoff(&self) -> (r: u64)
        ensures
            r == self.backoff(),
    {
        let base = self.base_delay_ms;
        let max = self.max_delay_ms;
        let mut d: u64 = if base > max {
            max
        } else {
            base
        };
        let mut i: u32 = 0;
        proof {
            assert(pow2(0) == 1);
        }
        while i < self.retry_count
        invariant
            0 <= i <= self.retry_count,
            base == self.base_delay_ms,
            max == self.max_delay_ms,
            d == backoff_ms(base as nat, i as nat, max as nat),
        decreases self.retry_count - i,
        {
            proof {
                assert(pow2((i + 1) as nat) == 2 * pow2(i as nat));
                assert(base * (2 * pow2(i as nat)) == 2 * (base * pow2(i as nat)))
                    by (nonlinear_arith);
            }
            if d > max / 2 {
                d = max;
            } else {
                d = d * 2;
            }
            i += 1;
        }
        d
    }

    /// The delay before the next retry.  A server-suggested delay wins
    /// verbatim; otherwise the capped exponential backoff plus a random
    /// jitter of at most a quarter, added against synchronized retry
    /// storms.
    pub fn calculate_delay(&self) -> (r: u64)
        ensures
            self.delay_ok(r),
    {
        match self.retry_after {
            Some(s) => {
                match s.checked_mul(1000) {
                    Some(ms) => ms,
                    None => u64::MAX,
                }
            },
            None => {
                let capped = self.capped_backoff();
                let jitter = random_below(capped / 4);
                capped.saturating_add(jitter)
            },
        }
    }

    /// Spend one retry.  With budget left this yields the delay to
    /// sleep and counts the retry; with the budget exhausted it yields
    /// nothing and leaves the state untouched.
    pub fn begin_retry(&mut self) -> (r: Option<u64>)
        ensures
            old(self).retry_count >= old(self).max_retries ==> r is None && *final(self) == *old(
                self),
            old(self).retry_count < old(self).max_retries ==> {
                &&& (r matches Some(d) && old(self).delay_ok(d))
                &&& final(self).retry_count == old(self).retry_count + 1
                &&& final(self).remaining == old(self).remaining
                &&& final(self).retry_after == old(self).retry_after
                &&& old(self).same_config(*final(self))
            },
    {
        if self.retry_count >= self.max_retries {
            return None;
        }
        let d = self.calculate_delay();
        self.retry_count = self.retry_count + 1;
        Some(d)
    }

    /// Forget the failure streak after a response that was not
    /// rate-limited: the retry count restarts at zero and the
    /// server-suggested delay is dropped, so a fresh streak backs off
    /// from the base delay again.
    pub fn reset(&mut self)
        ensures
            final(self).retry_count == 0,
            final(self).retry_after is None,
            final(self).remaining == old(self).remaining,
            old(self).same_config(*final(self)),
    {
        self.retry_count = 0;
        self.retry_after = None;
    }

    /// Retries taken in the current streak.
    pub fn retry_count(&self) -> (r: u32)
        ensures
            r == self.retry_count,
    {
        self.retry_count
    }

    /// A status code signals "too many requests".
    pub fn is_rate_limit_response(status: u16) -> (r: bool)
        ensures
            r == (status == 429),
    {
        status == 429
    }

    /// An error message mentions rate limiting.  The check lower-cases
    /// ASCII letters only, which covers every message the remote API
    /// sends.
    pub fn is_rate_limit_error(error_msg: &str) -> (r: bool)
        ensures
            r == text::contains_seq(text::lower_seq(error_msg@), "rate limit"@),
    {
        let lowered = text::lower_ascii(error_msg);
        text::str_contains(lowered.as_str(), "rate limit")
    }
}

/// Backoff is monotone in the retry count: a later retry never waits
/// less (before jitter) than an earlier one.
pub proof fn lemma_backoff_monotone(base: nat, c1: nat, c2: nat, max: nat)
    requires
        c1 <= c2,
    ensures
        backoff_ms(base, c1, max) <= backoff_ms(base, c2, max),
    decreases c2 - c1,
{
    if c1 < c2 {
        lemma_backoff_monotone(base, c1, (c2 - 1) as nat, max);
        let p1 = pow2((c2 - 1) as nat);
        let p2 = pow2(c2);
        assert(p2 == 2 * p1);
        assert(base * p1 <= base * p2) by (nonlinear_arith)
            requires
                p1 <= p2,
        ;
    }
}

/// The first three backoff steps: base delay, twice, four times — each
/// capped at the maximum.  Jitter comes on top; a server-suggested
/// delay replaces the computed value entirely.
pub proof fn lemma_backoff_first_steps(base: nat, max: nat)
    ensures
        backoff_ms(base, 0, max) == vstd::math::min(base as int, max as int),
        backoff_ms(base, 1, max) == vstd::math::min((2 * base) as int, max as int),
        backoff_ms(base, 2, max) == vstd::math::min((4 * base) as int, max as int),
{
    assert(pow2(0) == 1);
    assert(pow2(1) == 2);
    assert(pow2(2) == 4);
}

} // verus!
