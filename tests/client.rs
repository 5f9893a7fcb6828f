use salesforce_client::cache::CacheConfig;
use salesforce_client::client::{Action, ClientConfig, Event, Operation, SalesforceClient};
use salesforce_client::http::HttpMethod;
use salesforce_client::rate_limit::RateLimitConfig;
use salesforce_client::retry::{RetryConfig, RetryStep};
use salesforce_client::SfError;

#[test]
fn test_client_config_builder() {
    let config = ClientConfig::new("https://test.salesforce.com", "test_token")
        .with_cache(CacheConfig::disabled())
        .no_pagination();

    assert_eq!(config.base_url, "https://test.salesforce.com");
    assert!(!config.auto_paginate);
}

#[test]
fn test_client_creation() {
    let config = ClientConfig::new("https://test.salesforce.com", "test_token");

    let client = SalesforceClient::new(config);
    assert_eq!(client.config().base_url, "https://test.salesforce.com");
}

#[test]
fn minimal_config() {
    let config = ClientConfig::minimal();
    assert_eq!(config.base_url, "");
    assert_eq!(config.retry_config.max_retries, 0);
    assert_eq!(config.cache_config.max_capacity, 0);
    assert_eq!(config.rate_limit_config.requests_per_second, u32::MAX);
    assert!(!config.auto_paginate);
}

#[test]
fn query_request_shape() {
    let client = SalesforceClient::new(ClientConfig::new("https://x.example", "tok"));
    let request = client.query_request("SELECT Id FROM Account");
    assert_eq!(request.method, HttpMethod::Get);
    assert_eq!(request.url, "https://x.example/services/data/v57.0/query");
    assert_eq!(
        request.query,
        vec![("q".to_string(), "SELECT Id FROM Account".to_string())]
    );
    assert_eq!(
        request.headers,
        vec![("Authorization".to_string(), "Bearer tok".to_string())]
    );
}

#[test]
fn query_response_classification() {
    assert!(SalesforceClient::check_query_response(200, None, String::new()).is_ok());
    match SalesforceClient::check_query_response(429, Some("30"), "slow down".to_string()) {
        Err(SfError::RateLimit { retry_after }) => assert_eq!(retry_after, Some(30)),
        other => panic!("unexpected {:?}", other),
    }
    match SalesforceClient::check_query_response(429, Some("soon"), String::new()) {
        Err(SfError::RateLimit { retry_after }) => assert_eq!(retry_after, None),
        other => panic!("unexpected {:?}", other),
    }
    match SalesforceClient::check_query_response(429, Some("+7"), String::new()) {
        Err(SfError::RateLimit { retry_after }) => assert_eq!(retry_after, Some(7)),
        other => panic!("unexpected {:?}", other),
    }
    match SalesforceClient::check_query_response(500, None, "boom".to_string()) {
        Err(SfError::Api { status, body }) => {
            assert_eq!(status, 500);
            assert_eq!(body, "boom");
        }
        other => panic!("unexpected {:?}", other),
    }
}

#[test]
fn read_then_write_invalidates() {
    let mut client = SalesforceClient::new(ClientConfig::new("https://x.example", "tok"));
    assert!(client.cached_query("Q").is_none());
    client.store_query("Q", b"rows".to_vec());
    assert_eq!(client.cached_query("Q"), Some(b"rows".to_vec()));
    client.after_write();
    assert!(client.cached_query("Q").is_none());
    client.store_query("Q", b"rows".to_vec());
    client.clear_cache();
    assert!(client.cached_query("Q").is_none());
}

#[test]
fn client_admission_and_retry_policy() {
    let config = ClientConfig::new("https://x.example", "tok")
        .with_rate_limit(RateLimitConfig::new().requests_per_second(2).burst_size(1));
    let mut client = SalesforceClient::new(config);
    assert!(client.acquire_at(0).is_ok());
    assert_eq!(client.acquire_at(0), Err(500_000_000));
    assert!(!client.rate_limit_status(0).available);
    let e = SfError::Network("reset".to_string());
    assert_eq!(client.retry_step(1, &e, 0), RetryStep::Retry { delay: 500 });
    assert_eq!(client.retry_step(4, &e, 0), RetryStep::GiveUp);
    assert_eq!(client.crud().insert_request("Account").url, "https://x.example/services/data/v57.0/sobjects/Account");
}

fn drive(
    client: &mut SalesforceClient,
    mut op: Operation,
    outcomes: &mut Vec<Result<Vec<u8>, SfError>>,
) -> (Vec<Action>, usize) {
    // Runs an operation with scripted attempt outcomes; time does not pass.
    let mut actions = Vec::new();
    let mut sends = 0;
    let mut event = Event::Resume;
    for _ in 0..100 {
        let action = client.advance(&mut op, event, 0, 0);
        event = Event::Resume;
        let over = matches!(action, Action::Cached(_) | Action::Failed(_) | Action::Completed | Action::Idle);
        if let Action::Send(_) = action {
            sends += 1;
            event = Event::Outcome(outcomes.remove(0));
        }
        actions.push(action);
        if over {
            break;
        }
    }
    (actions, sends)
}

#[test]
fn read_miss_then_hit() {
    let mut client = SalesforceClient::new(ClientConfig::new("https://x.example", "tok"));
    let (actions, sends) = drive(&mut client, Operation::read("Q"), &mut vec![Ok(b"page".to_vec())]);
    assert_eq!(sends, 1);
    assert!(matches!(actions[0], Action::Send(1)));
    assert!(matches!(actions[1], Action::Completed));
    let (actions, sends) = drive(&mut client, Operation::read("Q"), &mut vec![]);
    assert_eq!(sends, 0);
    match &actions[0] {
        Action::Cached(body) => assert_eq!(body, b"page"),
        other => panic!("unexpected {:?}", other),
    }
}

#[test]
fn write_success_empties_cache_and_fetch_leaves_it() {
    let mut client = SalesforceClient::new(ClientConfig::new("https://x.example", "tok"));
    client.store_query("Q", b"page".to_vec());
    drive(&mut client, Operation::fetch(), &mut vec![Ok(Vec::new())]);
    assert_eq!(client.cached_query("Q"), Some(b"page".to_vec()));
    drive(&mut client, Operation::write(), &mut vec![Ok(Vec::new())]);
    assert_eq!(client.cached_query("Q"), None);
}

#[test]
fn failed_write_keeps_cache_and_passes_error_on() {
    let mut client = SalesforceClient::new(ClientConfig::new("https://x.example", "tok"));
    client.store_query("Q", b"page".to_vec());
    let (actions, sends) = drive(
        &mut client,
        Operation::write(),
        &mut vec![Err(SfError::NotFound { sobject: "Account".to_string(), id: "1".to_string() })],
    );
    assert_eq!(sends, 1);
    match actions.last().unwrap() {
        Action::Failed(SfError::NotFound { sobject, id }) => {
            assert_eq!(sobject, "Account");
            assert_eq!(id, "1");
        }
        other => panic!("unexpected {:?}", other),
    }
    assert_eq!(client.cached_query("Q"), Some(b"page".to_vec()));
}

#[test]
fn transient_failures_are_retried_with_backoff() {
    let config = ClientConfig::new("https://x.example", "tok")
        .with_retry(RetryConfig::new().initial_interval(100));
    let mut client = SalesforceClient::new(config);
    let transient = || Err(SfError::Api { status: 503, body: String::new() });
    let (actions, sends) = drive(
        &mut client,
        Operation::read("Q"),
        &mut vec![transient(), transient(), transient(), Ok(b"ok".to_vec())],
    );
    assert_eq!(sends, 4);
    let backoffs: Vec<u64> = actions
        .iter()
        .filter_map(|a| if let Action::Backoff(ms) = a { Some(*ms) } else { None })
        .collect();
    assert_eq!(backoffs, vec![100, 200, 400]);
    assert!(matches!(actions.last().unwrap(), Action::Completed));
    assert_eq!(client.cached_query("Q"), Some(b"ok".to_vec()));
}

#[test]
fn admission_wait_then_send() {
    let config = ClientConfig::new("https://x.example", "tok")
        .with_rate_limit(RateLimitConfig::new().requests_per_second(10).burst_size(1));
    let mut client = SalesforceClient::new(config);
    assert!(client.acquire_at(0).is_ok());
    let mut op = Operation::write();
    match client.advance(&mut op, Event::Resume, 0, 0) {
        Action::Wait(ns) => assert_eq!(ns, 100_000_000),
        other => panic!("unexpected {:?}", other),
    }
    assert!(matches!(client.advance(&mut op, Event::Resume, 100_000_000, 0), Action::Send(1)));
    assert!(matches!(
        client.advance(&mut op, Event::Outcome(Ok(Vec::new())), 100_000_000, 0),
        Action::Completed
    ));
    assert!(op.is_done());
    assert!(matches!(client.advance(&mut op, Event::Resume, 0, 0), Action::Idle));
}
