//! The retry decision at the heart of the request executor.
//!
//! The executor wraps every outbound call: pause proactively when the
//! quota is nearly spent, send, record the response's rate-limit
//! signals, then either hand the response through, sleep and retry, or
//! give up.  Sending and sleeping are I/O and happen outside the
//! library; [`handle_response`] is the verified decision in between,
//! called once per attempt with the response's status and rate-limit
//! headers as plain values.

use vstd::prelude::*;
use crate::rate_limit::RateLimiter;

verus! {

/// What to do after one attempt.
pub enum RetryDecision {
    /// The response was not rate-limited: take it.  Transport failures
    /// and other error statuses are the caller's to surface; they are
    /// not retried here.
    Done,
    /// Rate-limited with budget left: sleep this many milliseconds,
    /// then send the request again.
    RetryAfterDelay(u64),
    /// Rate-limited with the retry budget spent: fail the request with
    /// a "rate limit exceeded, retries exhausted" error.
    RetriesExhausted,
}

/// The retry count after one response, as [`handle_response`] leaves
/// it: reset on success, advanced on a rate-limited response while
/// budget remains, frozen once the budget is spent.
pub open spec fn count_after(count: nat, max: nat, limited: bool) -> nat {
    if !limited {
        0
    } else if count < max {
        count + 1
    } else {
        count
    }
}

/// The retry count after a streak of `n` consecutive rate-limited
/// responses.
pub open spec fn count_after_streak(count: nat, max: nat, n: nat) -> nat
    decreases n,
{
    if n == 0 {
        count
    } else {
        count_after_streak(count_after(count, max, true), max, (n - 1) as nat)
    }
}

/// Decide what one response means: record its rate-limit signals in
/// the limiter, then hand the response through (resetting the failure
/// streak), schedule a retry, or report the budget exhausted.
pub fn handle_response(
    rl: &mut RateLimiter,
    status: u16,
    remaining: Option<u32>,
    retry_after: Option<u64>,
) -> (r: RetryDecision)
    ensures
        old(rl).same_config(*final(rl)),
        final(rl).remaining == remaining,
        final(rl).retry_count == count_after(
            old(rl).retry_count as nat, old(rl).max_retries as nat, status == 429),
        status != 429 ==> r is Done && final(rl).retry_after is None,
        status == 429 ==> final(rl).retry_after == retry_after,
        status == 429 && old(rl).retry_count < old(rl).max_retries ==> (r matches
            RetryDecision::RetryAfterDelay(d) && {
            let observed = RateLimiter {
                retry_after,
                remaining,
                retry_count: old(rl).retry_count,
                ..*old(rl)
            };
            observed.delay_ok(d)
        }),
        status == 429 && old(rl).retry_count >= old(rl).max_retries ==> r is RetriesExhausted,
{
    let info = rl.parse_headers(remaining, retry_after, status);
    if info.is_rate_limited {
        match rl.begin_retry() {
            Some(delay) => RetryDecision::RetryAfterDelay(delay),
            None => RetryDecision::RetriesExhausted,
        }
    } else {
        rl.reset();
        RetryDecision::Done
    }
}

/// With a budget of `max` retries, a fresh limiter retries each of the
/// first `max` consecutive rate-limited responses, and the next one is
/// answered with exhaustion instead of a further attempt: the count
/// after `max` such responses has reached `max`, on which
/// [`handle_response`] reports `RetriesExhausted`.
pub proof fn lemma_retries_exhausted(count: nat, max: nat, n: nat)
    requires
        count <= max,
    ensures
        count_after_streak(count, max, n) == vstd::math::min((count + n) as int, max as int),
    decreases n,
{
    if n > 0 {
        lemma_retries_exhausted(count_after(count, max, true), max, (n - 1) as nat);
    }
}

} // verus!
