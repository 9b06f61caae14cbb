use std::collections::HashMap;
use std::time::Duration;

use dstreams::client::Client;

#[test]
fn new_client_has_nothing_set() {
    let client = Client::new();
    assert!(client.timeout().is_none());
    assert!(client.default_headers().is_none());
    assert!(client.session_token().is_none());
    assert!(client.refresh_token().is_none());
}

#[test]
fn with_timeout_sets_the_timeout_only() {
    let client = Client::new().with_timeout(Duration::from_millis(1500));
    assert_eq!(client.timeout(), Some(Duration::from_millis(1500)));
    assert!(client.default_headers().is_none());
    assert!(client.session_token().is_none());
    let client = client.with_timeout(Duration::from_secs(2));
    assert_eq!(client.timeout(), Some(Duration::from_secs(2)));
}

#[test]
fn with_default_headers_sets_the_headers_only() {
    let mut headers = HashMap::new();
    headers.insert("accept".to_string(), "application/json".to_string());
    headers.insert("x-tenant".to_string(), "7".to_string());
    let client = Client::new().with_timeout(Duration::from_secs(1)).with_default_headers(headers.clone());
    assert_eq!(client.default_headers(), Some(&headers));
    assert_eq!(client.timeout(), Some(Duration::from_secs(1)));
    assert!(client.session_token().is_none());
}

#[test]
fn set_session_token_keeps_the_token() {
    let mut client = Client::new().with_timeout(Duration::from_secs(1));
    client.set_session_token("first".to_string());
    assert_eq!(client.session_token(), Some(&"first".to_string()));
    client.set_session_token("second".to_string());
    assert_eq!(client.session_token(), Some(&"second".to_string()));
    assert_eq!(client.timeout(), Some(Duration::from_secs(1)));
    assert!(client.refresh_token().is_none());
}

#[test]
fn set_refresh_token_keeps_token_and_url() {
    let mut client = Client::new();
    client.set_session_token("session".to_string());
    client.set_refresh_token("refresh".to_string(), "https://auth.example.com/token".to_string());
    assert_eq!(
        client.refresh_token(),
        Some((&"refresh".to_string(), &"https://auth.example.com/token".to_string()))
    );
    assert_eq!(client.session_token(), Some(&"session".to_string()));
    assert!(client.timeout().is_none());
}
