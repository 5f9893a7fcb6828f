use salesforce_client::retry::{is_retryable, RetryConfig, RetryStep};
use salesforce_client::SfError;

/// Runs `operation` the way the client's retry loop does, with sleeping
/// recorded instead of performed: the outcome, the attempts made and the delays.
fn run_with_retry<T>(
    config: &RetryConfig,
    mut operation: impl FnMut(u32) -> Result<T, SfError>,
) -> (Result<T, SfError>, u32, Vec<u64>) {
    let mut attempt: u32 = 0;
    let mut slept: Vec<u64> = Vec::new();
    loop {
        attempt += 1;
        match operation(attempt) {
            Ok(v) => return (Ok(v), attempt, slept),
            Err(e) => {
                let elapsed: u64 = slept.iter().sum();
                match config.next_step(attempt, &e, elapsed) {
                    RetryStep::Retry { delay } => slept.push(delay),
                    RetryStep::GiveUp => return (Err(e), attempt, slept),
                }
            }
        }
    }
}

#[test]
fn test_retry_config_builder() {
    let config = RetryConfig::new().max_retries(5).initial_interval(100);

    assert_eq!(config.max_retries, 5);
    assert_eq!(config.initial_interval, 100);
}

#[test]
fn test_is_retryable() {
    // Retryable errors
    assert!(is_retryable(&SfError::RateLimit { retry_after: None }));
    assert!(is_retryable(&SfError::Network("connection reset".to_string())));
    assert!(is_retryable(&SfError::Api {
        status: 503,
        body: "Service Unavailable".to_string()
    }));

    // Non-retryable errors
    assert!(!is_retryable(&SfError::Timeout { seconds: 30 }));
    assert!(!is_retryable(&SfError::Auth("Invalid token".to_string())));
    assert!(!is_retryable(&SfError::NotFound {
        sobject: "Account".to_string(),
        id: "123".to_string()
    }));
    assert!(!is_retryable(&SfError::Api {
        status: 400,
        body: "Bad Request".to_string()
    }));
}

#[test]
fn test_with_retry_success() {
    let config = RetryConfig::no_retry();

    let (result, attempts, slept) = run_with_retry(&config, |_| Ok::<i32, SfError>(42));

    assert!(result.is_ok());
    assert_eq!(result.unwrap(), 42);
    assert_eq!(attempts, 1);
    assert!(slept.is_empty());
}

#[test]
fn test_with_retry_non_retryable_error() {
    let config = RetryConfig::new().max_retries(3);

    let (result, attempts, slept) = run_with_retry(&config, |_| {
        Err::<i32, SfError>(SfError::Auth("Invalid token".to_string()))
    });

    assert!(result.is_err());
    // Not retried, never slept.
    assert_eq!(attempts, 1);
    assert!(slept.is_empty());
}

#[test]
fn transient_failures_back_off_exponentially() {
    let config = RetryConfig::new().max_retries(3).initial_interval(100);
    let (result, attempts, slept) = run_with_retry(&config, |n| {
        if n <= 3 {
            Err(SfError::Api { status: 503, body: String::new() })
        } else {
            Ok("done")
        }
    });
    assert_eq!(result.unwrap(), "done");
    assert_eq!(attempts, 4);
    assert_eq!(slept, vec![100, 200, 400]);
    assert_eq!(slept.iter().sum::<u64>(), 700);
}

#[test]
fn retries_are_exhausted() {
    let config = RetryConfig::new().max_retries(2).initial_interval(10);
    let (result, attempts, slept) = run_with_retry(&config, |_| {
        Err::<(), SfError>(SfError::Network("refused".to_string()))
    });
    assert!(matches!(result, Err(SfError::Network(_))));
    assert_eq!(attempts, 3);
    assert_eq!(slept, vec![10, 20]);
}

#[test]
fn no_retry_mode_never_sleeps_on_transient_failure() {
    let config = RetryConfig::no_retry();
    let (result, attempts, slept) = run_with_retry(&config, |_| {
        Err::<(), SfError>(SfError::Api { status: 503, body: String::new() })
    });
    assert!(result.is_err());
    assert_eq!(attempts, 1);
    assert!(slept.is_empty());
}

#[test]
fn backoff_is_capped() {
    let config = RetryConfig::new().initial_interval(500).max_interval(1500);
    assert_eq!(config.backoff_delay(1), 500);
    assert_eq!(config.backoff_delay(2), 1000);
    assert_eq!(config.backoff_delay(3), 1500);
    assert_eq!(config.backoff_delay(40), 1500);
    let huge = RetryConfig::new().initial_interval(u64::MAX).max_interval(u64::MAX);
    assert_eq!(huge.backoff_delay(5), u64::MAX);
}

#[test]
fn time_budget_stops_retries() {
    let config = RetryConfig::new();
    let transient = SfError::Api { status: 502, body: String::new() };
    assert_eq!(config.next_step(1, &transient, 300_000), RetryStep::Retry { delay: 500 });
    assert_eq!(config.next_step(1, &transient, 300_001), RetryStep::GiveUp);
}

#[test]
fn default_policy() {
    let config = RetryConfig::default();
    assert_eq!(config.max_retries, 3);
    assert_eq!(config.initial_interval, 500);
    assert_eq!(config.max_interval, 30_000);
    assert_eq!(config.multiplier, 2);
    assert_eq!(config.max_elapsed_time, Some(300_000));
}

#[test]
fn transient_status_set() {
    for status in [408u16, 429, 500, 502, 503, 504] {
        assert!(is_retryable(&SfError::Api { status, body: String::new() }));
    }
    for status in [200u16, 401, 403, 404, 501, 505] {
        assert!(!is_retryable(&SfError::Api { status, body: String::new() }));
    }
}
