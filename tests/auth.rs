use salesforce_client::auth::{AccessToken, AuthFlow, OAuthCredentials, TokenManager};
use salesforce_client::http::HttpMethod;
use salesforce_client::SfError;
use std::sync::atomic::{AtomicUsize, Ordering};
use std::sync::Arc;
use tokio::sync::RwLock;

fn credentials(refresh: bool, password: bool) -> OAuthCredentials {
    OAuthCredentials {
        client_id: "cid".to_string(),
        client_secret: "SECRET-REDACTED".to_string(),
        refresh_token: if refresh { Some("rt".to_string()) } else { None },
        username: if password { Some("user@example.com".to_string()) } else { None },
        password: if password { Some("pw".to_string()) } else { None },
    }
}

#[test]
fn test_access_token_expiry() {
    let token = AccessToken::new(
        "test_token".to_string(),
        "https://test.salesforce.com".to_string(),
        Some(3600), // 1 hour
    );

    assert!(!token.is_expired());
}

#[test]
fn test_access_token_no_expiry() {
    let token = AccessToken::new(
        "test_token".to_string(),
        "https://test.salesforce.com".to_string(),
        None,
    );

    assert!(!token.is_expired());
}

#[test]
fn refresh_margin_is_five_minutes() {
    let expiry: i64 = 1_700_000_000;
    let token = AccessToken::new_at("t".to_string(), "u".to_string(), Some(3600), expiry - 3600);
    assert_eq!(token.expires_at(), Some(expiry));
    assert!(!token.is_expired_at(expiry - 6 * 60));
    assert!(!token.is_expired_at(expiry - 300 - 1));
    assert!(token.is_expired_at(expiry - 300));
    assert!(token.is_expired_at(expiry - 4 * 60));
}

#[test]
fn expiry_saturates() {
    let token = AccessToken::new_at("t".to_string(), "u".to_string(), Some(i64::MAX), 10);
    assert_eq!(token.expires_at(), Some(i64::MAX));
    assert!(!token.is_expired_at(i64::MAX - 301));
}

#[test]
fn manager_refreshes_once_then_serves_cached() {
    let mut manager = TokenManager::new(credentials(true, false));
    let now: i64 = 1_000;
    // Fifty callers find nothing usable; the first to take the lock refreshes.
    let mut refreshes = 0;
    for _ in 0..50 {
        if manager.cached_token_at(now).is_none() {
            refreshes += 1;
            manager.install(AccessToken::new_at("fresh".to_string(), "u".to_string(), Some(3600), now));
        }
    }
    assert_eq!(refreshes, 1);
    assert_eq!(manager.cached_token_at(now + 3600 - 360).unwrap().token(), "fresh");
    assert!(manager.cached_token_at(now + 3600 - 240).is_none());
    manager.invalidate();
    assert!(manager.cached_token_at(now).is_none());
}

#[test]
fn flows_in_order() {
    let both = TokenManager::new(credentials(true, true));
    assert_eq!(both.flow_after(None).unwrap(), AuthFlow::RefreshToken);
    assert_eq!(both.flow_after(Some(AuthFlow::RefreshToken)).unwrap(), AuthFlow::Password);
    assert!(both.flow_after(Some(AuthFlow::Password)).is_err());

    let password_only = TokenManager::new(credentials(false, true));
    assert_eq!(password_only.flow_after(None).unwrap(), AuthFlow::Password);

    let refresh_only = TokenManager::new(credentials(true, false));
    match refresh_only.flow_after(Some(AuthFlow::RefreshToken)) {
        Err(SfError::Auth(m)) => assert_eq!(m, "No valid authentication method available"),
        other => panic!("unexpected {:?}", other),
    }

    let none = TokenManager::new(credentials(false, false));
    assert!(matches!(none.flow_after(None), Err(SfError::Auth(_))));
}

#[test]
fn refresh_request_shape() {
    let manager = TokenManager::sandbox(credentials(true, false));
    let request = manager.refresh_token_request("rt");
    assert_eq!(request.method, HttpMethod::Post);
    assert_eq!(request.url, "https://test.salesforce.com/services/oauth2/token");
    let form: Vec<(&str, &str)> =
        request.form.iter().map(|(k, v)| (k.as_str(), v.as_str())).collect();
    assert_eq!(
        form,
        vec![
            ("grant_type", "refresh_token"),
            ("client_id", "cid"),
            ("client_secret", "SECRET-REDACTED"),
            ("refresh_token", "rt"),
        ]
    );
}

#[test]
fn password_request_shape_and_errors() {
    let manager = TokenManager::new(credentials(false, true));
    let request = manager.password_request().unwrap();
    assert_eq!(request.url, "https://login.salesforce.com/services/oauth2/token");
    assert_eq!(request.form[0], ("grant_type".to_string(), "password".to_string()));
    assert_eq!(request.form[3], ("username".to_string(), "user@example.com".to_string()));
    assert_eq!(request.form[4], ("password".to_string(), "pw".to_string()));

    let mut creds = credentials(false, true);
    creds.username = None;
    match TokenManager::new(creds).password_request() {
        Err(SfError::Auth(m)) => assert_eq!(m, "Username not provided"),
        other => panic!("unexpected {:?}", other),
    }
    let mut creds = credentials(false, true);
    creds.password = None;
    match TokenManager::new(creds).password_request() {
        Err(SfError::Auth(m)) => assert_eq!(m, "Password not provided"),
        other => panic!("unexpected {:?}", other),
    }
}

#[test]
fn token_response_status() {
    assert!(TokenManager::check_token_response(AuthFlow::RefreshToken, 200, "").is_ok());
    match TokenManager::check_token_response(AuthFlow::RefreshToken, 400, "bad grant") {
        Err(SfError::Auth(m)) => assert_eq!(m, "Token refresh failed: bad grant"),
        other => panic!("unexpected {:?}", other),
    }
    match TokenManager::check_token_response(AuthFlow::Password, 401, "nope") {
        Err(SfError::Auth(m)) => assert_eq!(m, "Authentication failed: nope"),
        other => panic!("unexpected {:?}", other),
    }
}

#[test]
fn concurrent_callers_share_one_refresh() {
    let runtime = tokio::runtime::Builder::new_multi_thread()
        .worker_threads(4)
        .enable_all()
        .build()
        .unwrap();
    runtime.block_on(async {
        let now: i64 = 50_000;
        let mut manager = TokenManager::new(credentials(true, false));
        // The held token expires four minutes from now: inside the margin.
        manager.install(AccessToken::new_at("stale".to_string(), "u".to_string(), Some(240), now));
        let manager = Arc::new(RwLock::new(manager));
        let refreshes = Arc::new(AtomicUsize::new(0));
        let mut handles = Vec::new();
        for _ in 0..64 {
            let manager = Arc::clone(&manager);
            let refreshes = Arc::clone(&refreshes);
            handles.push(tokio::spawn(async move {
                if let Some(t) = manager.read().await.cached_token_at(now) {
                    return t.token().to_string();
                }
                let mut guard = manager.write().await;
                if let Some(t) = guard.cached_token_at(now) {
                    return t.token().to_string();
                }
                refreshes.fetch_add(1, Ordering::SeqCst);
                tokio::time::sleep(std::time::Duration::from_millis(20)).await;
                let fresh = AccessToken::new_at("fresh".to_string(), "u".to_string(), Some(3600), now);
                guard.install(fresh);
                "fresh".to_string()
            }));
        }
        for handle in handles {
            assert_eq!(handle.await.unwrap(), "fresh");
        }
        assert_eq!(refreshes.load(Ordering::SeqCst), 1);
    });
}
