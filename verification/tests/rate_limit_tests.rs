use fgm::executor::{handle_response, RetryDecision};
use fgm::rate_limit::RateLimiter;

#[test]
fn test_exponential_backoff() {
    let mut limiter = RateLimiter::new();

    // First retry should use base delay
    let d1 = limiter.begin_retry().unwrap();
    assert!(d1 >= 1000 && d1 <= 1250);

    // Second retry should roughly double
    let d2 = limiter.begin_retry().unwrap();
    assert!(d2 >= 2000 && d2 <= 2500);

    // Third retry
    let d3 = limiter.begin_retry().unwrap();
    assert!(d3 >= 4000 && d3 <= 5000);
}

#[test]
fn test_max_delay_cap() {
    let mut limiter = RateLimiter::with_config(10, 1000, 5000);

    // High retry count should still be capped
    for _ in 0..10 {
        assert!(limiter.begin_retry().is_some());
    }
    let delay = limiter.calculate_delay();
    assert!(delay <= 6250); // 5000 + 25% jitter max
}

#[test]
fn test_retry_after_override() {
    let mut limiter = RateLimiter::new();
    limiter.parse_headers(None, Some(30), 429);

    let delay = limiter.calculate_delay();
    assert_eq!(delay, 30 * 1000);
}

#[test]
fn test_should_throttle() {
    let mut limiter = RateLimiter::new();

    limiter.parse_headers(Some(5), None, 200);
    assert!(limiter.should_throttle());

    limiter.parse_headers(Some(15), None, 200);
    assert!(!limiter.should_throttle());

    limiter.parse_headers(None, None, 200);
    assert!(!limiter.should_throttle());
}

#[test]
fn proactive_delay_is_half_a_second_when_low() {
    let mut limiter = RateLimiter::new();
    assert_eq!(limiter.proactive_delay_ms(), 0);
    limiter.parse_headers(Some(3), None, 200);
    assert_eq!(limiter.proactive_delay_ms(), 500);
}

#[test]
fn reset_restarts_the_backoff() {
    let mut limiter = RateLimiter::new();
    limiter.parse_headers(None, Some(9), 429);
    assert!(limiter.begin_retry().is_some());
    assert_eq!(limiter.retry_count(), 1);

    limiter.reset();
    assert_eq!(limiter.retry_count(), 0);
    // The server-suggested delay was dropped with the streak: the next
    // delay is the plain base backoff again.
    let d = limiter.calculate_delay();
    assert!(d >= 1000 && d <= 1250);
}

#[test]
fn retries_exhausted_after_budget_is_spent() {
    let mut limiter = RateLimiter::with_config(3, 1, 10);
    // With max retries = 3, three consecutive rate-limited responses
    // are retried and the fourth reports exhaustion.
    for _ in 0..3 {
        match handle_response(&mut limiter, 429, None, None) {
            RetryDecision::RetryAfterDelay(_) => {}
            _ => panic!("budget remains: the executor should retry"),
        }
    }
    assert!(matches!(
        handle_response(&mut limiter, 429, None, None),
        RetryDecision::RetriesExhausted
    ));
}

#[test]
fn success_resets_and_passes_through() {
    let mut limiter = RateLimiter::with_config(2, 1, 10);
    assert!(matches!(
        handle_response(&mut limiter, 429, Some(50), None),
        RetryDecision::RetryAfterDelay(_)
    ));
    assert_eq!(limiter.retry_count(), 1);
    assert!(matches!(
        handle_response(&mut limiter, 200, Some(49), None),
        RetryDecision::Done
    ));
    assert_eq!(limiter.retry_count(), 0);
    // A fresh failure streak starts its backoff from the base again.
    match handle_response(&mut limiter, 429, None, None) {
        RetryDecision::RetryAfterDelay(d) => assert!(d >= 1 && d <= 1 + 1),
        _ => panic!("fresh streak should retry"),
    }
}

#[test]
fn server_suggested_delay_wins_in_the_executor() {
    let mut limiter = RateLimiter::with_config(5, 1000, 120_000);
    match handle_response(&mut limiter, 429, None, Some(7)) {
        RetryDecision::RetryAfterDelay(d) => assert_eq!(d, 7000),
        _ => panic!("expected a retry"),
    }
}

#[test]
fn non_rate_limit_statuses_are_not_retried() {
    let mut limiter = RateLimiter::new();
    assert!(matches!(
        handle_response(&mut limiter, 500, None, None),
        RetryDecision::Done
    ));
    assert!(matches!(
        handle_response(&mut limiter, 404, None, None),
        RetryDecision::Done
    ));
}

#[test]
fn header_parsing_records_hints() {
    let mut limiter = RateLimiter::new();
    let info = limiter.parse_headers(Some(42), Some(9), 429);
    assert_eq!(info.remaining, Some(42));
    assert_eq!(info.retry_after, Some(9));
    assert!(info.is_rate_limited);

    let info = limiter.parse_headers(None, None, 200);
    assert_eq!(info.remaining, None);
    assert_eq!(info.retry_after, None);
    assert!(!info.is_rate_limited);
}

#[test]
fn rate_limit_detection() {
    assert!(RateLimiter::is_rate_limit_response(429));
    assert!(!RateLimiter::is_rate_limit_response(200));
    assert!(RateLimiter::is_rate_limit_error("Rate Limit exceeded"));
    assert!(RateLimiter::is_rate_limit_error("hit the RATE LIMIT again"));
    assert!(!RateLimiter::is_rate_limit_error("not found"));
}
