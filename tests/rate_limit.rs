use salesforce_client::rate_limit::{RateLimitConfig, RateLimiter, NANOS_PER_SECOND};
use salesforce_client::SfError;

#[test]
fn test_rate_limit_config() {
    let config = RateLimitConfig::new().requests_per_second(10).burst_size(20);

    assert_eq!(config.requests_per_second, 10);
    assert_eq!(config.burst_size, 20);
}

#[test]
fn test_rate_limiter_acquire() {
    let config = RateLimitConfig::new().requests_per_second(100).burst_size(10);

    let mut limiter = RateLimiter::new(config);

    // Succeeds immediately.
    assert!(limiter.check(0).is_ok());
}

#[test]
fn test_rate_limiter_disabled() {
    let config = RateLimitConfig::unlimited();
    let mut limiter = RateLimiter::new(config);

    assert!(!limiter.is_enabled());
    assert!(limiter.try_acquire(0).is_ok());
}

#[test]
fn burst_then_one_per_interval() {
    // R = 4 per second, B = 10: ten back-to-back, the eleventh waits 1/R s.
    let mut limiter = RateLimiter::new(RateLimitConfig::new());
    let t = 5 * NANOS_PER_SECOND;
    for _ in 0..10 {
        assert!(limiter.check(t).is_ok());
    }
    let wait = limiter.check(t).unwrap_err();
    assert_eq!(wait, NANOS_PER_SECOND / 4);
    assert!(limiter.check(t + wait - 1).is_err());
    assert!(limiter.check(t + wait).is_ok());
}

#[test]
fn disabled_limiter_never_waits() {
    let mut limiter = RateLimiter::new(RateLimitConfig::unlimited());
    for _ in 0..1000 {
        assert!(limiter.check(0).is_ok());
    }
    assert!(limiter.status(0).available);
}

#[test]
fn refusal_reports_rate_limited() {
    let mut limiter =
        RateLimiter::new(RateLimitConfig::new().requests_per_second(1).burst_size(1));
    assert!(limiter.try_acquire(0).is_ok());
    match limiter.try_acquire(0) {
        Err(SfError::RateLimit { retry_after }) => assert_eq!(retry_after, Some(1)),
        other => panic!("unexpected {:?}", other),
    }
    let status = limiter.status(NANOS_PER_SECOND / 2);
    assert!(!status.available);
    assert_eq!(status.wait_time, Some(NANOS_PER_SECOND / 2));
    assert!(limiter.status(NANOS_PER_SECOND).available);
}

#[test]
fn zero_rate_and_burst_count_as_one() {
    let mut limiter =
        RateLimiter::new(RateLimitConfig::new().requests_per_second(0).burst_size(0));
    assert!(limiter.is_enabled());
    assert!(limiter.check(0).is_ok());
    assert_eq!(limiter.check(0), Err(NANOS_PER_SECOND));
}

#[test]
fn refill_is_capped_at_burst() {
    let mut limiter =
        RateLimiter::new(RateLimitConfig::new().requests_per_second(1000).burst_size(2));
    let later = 3600 * NANOS_PER_SECOND;
    assert!(limiter.check(later).is_ok());
    assert!(limiter.check(later).is_ok());
    assert!(limiter.check(later).is_err());
}
