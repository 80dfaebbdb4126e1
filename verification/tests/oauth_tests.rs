use oauth_spoof::daemon::sleep_duration;
use oauth_spoof::oauth::{AuthError, Oauth, TokenResponse};

fn ok_response(body: &str, loid: Option<&str>, session: Option<&str>) -> TokenResponse {
    TokenResponse {
        status: 200,
        loid: loid.map(|s| s.to_string()),
        session: session.map(|s| s.to_string()),
        body: body.as_bytes().to_vec(),
    }
}

#[test]
fn test_oauth_client() {
    let mut oauth = Oauth::default();
    let resp = ok_response(
        r#"{"access_token":"sample-bearer-token-0123456789abcdef","expires_in":86400}"#,
        None,
        None,
    );
    oauth.login(&resp).unwrap();
    assert!(!oauth.token.is_empty());
}

#[test]
fn test_oauth_client_refresh() {
    let mut oauth = Oauth::default();
    let first = ok_response(r#"{"access_token":"first-token","expires_in":3600}"#, None, None);
    oauth.login(&first).unwrap();
    let second = ok_response(r#"{"access_token":"second-token","expires_in":7200}"#, None, None);
    oauth.refresh(&second).unwrap();
    assert_eq!(oauth.token, "second-token");
    assert_eq!(oauth.expires_in, 7200);
}

#[test]
fn test_oauth_token_exists() {
    let mut oauth = Oauth::default();
    let resp = ok_response(r#"{"access_token":"tok","expires_in":3600}"#, None, None);
    oauth.login(&resp).unwrap();
    assert!(!oauth.token.is_empty());
}

#[test]
fn test_oauth_headers_len() {
    let oauth = Oauth::default();
    assert!(oauth.headers_map.len() >= 3);
}

#[test]
fn login_success_sets_token_expiry_and_bearer_header() {
    let mut oauth = Oauth::default();
    let resp = ok_response(
        r#"{"access_token":"abc123","expires_in":3600}"#,
        Some("L1"),
        None,
    );
    assert_eq!(oauth.login(&resp), Ok(()));
    assert_eq!(oauth.token, "abc123");
    assert_eq!(oauth.expires_in, 3600);
    assert_eq!(
        oauth.headers_map.get(&"x-reddit-loid".to_string()),
        Some(&"L1".to_string())
    );
    assert_eq!(
        oauth.headers_map.get(&"Authorization".to_string()),
        Some(&"Bearer abc123".to_string())
    );
}

#[test]
fn login_http_error_leaves_state_untouched() {
    let mut oauth = Oauth::default();
    let before_token = oauth.token.clone();
    let before_expiry = oauth.expires_in;
    let before_headers = oauth.headers_map.pairs().clone();
    let resp = TokenResponse {
        status: 500,
        loid: Some("L1".to_string()),
        session: None,
        body: br#"{"access_token":"abc123","expires_in":3600}"#.to_vec(),
    };
    assert_eq!(oauth.login(&resp), Err(AuthError::TransportError));
    assert_eq!(oauth.token, before_token);
    assert_eq!(oauth.expires_in, before_expiry);
    assert_eq!(oauth.headers_map.pairs(), &before_headers);
}

#[test]
fn login_missing_expiry_is_malformed_and_keeps_token() {
    let mut oauth = Oauth::default();
    let first = ok_response(r#"{"access_token":"keep-me","expires_in":3600}"#, None, None);
    oauth.login(&first).unwrap();
    let bad = ok_response(r#"{"access_token":"new-token"}"#, None, None);
    assert_eq!(oauth.login(&bad), Err(AuthError::MalformedResponse));
    assert_eq!(oauth.token, "keep-me");
    assert_eq!(oauth.expires_in, 3600);
}

#[test]
fn login_invalid_json_is_malformed() {
    let mut oauth = Oauth::default();
    let bad = ok_response("this is not json", None, None);
    assert_eq!(oauth.login(&bad), Err(AuthError::MalformedResponse));
    assert!(oauth.token.is_empty());
}

#[test]
fn login_mistyped_expiry_is_malformed() {
    let mut oauth = Oauth::default();
    let bad = ok_response(r#"{"access_token":"t","expires_in":"soon"}"#, None, None);
    assert_eq!(oauth.login(&bad), Err(AuthError::MalformedResponse));
}

#[test]
fn refresh_replaces_session_headers() {
    let mut oauth = Oauth::default();
    let first = ok_response(
        r#"{"access_token":"t1","expires_in":60}"#,
        Some("loid-one"),
        Some("sess-one"),
    );
    oauth.login(&first).unwrap();
    assert_eq!(
        oauth.headers_map.get(&"x-reddit-session".to_string()),
        Some(&"sess-one".to_string())
    );
    let second = ok_response(
        r#"{"access_token":"t2","expires_in":120}"#,
        Some("loid-two"),
        None,
    );
    oauth.refresh(&second).unwrap();
    assert_eq!(
        oauth.headers_map.get(&"x-reddit-loid".to_string()),
        Some(&"loid-two".to_string())
    );
    assert_eq!(
        oauth.headers_map.get(&"x-reddit-session".to_string()),
        Some(&"sess-one".to_string())
    );
    assert_eq!(
        oauth.headers_map.get(&"Authorization".to_string()),
        Some(&"Bearer t2".to_string())
    );
}

#[test]
fn login_request_has_fixed_url_body_and_basic_credential() {
    let oauth = Oauth::default();
    let req = oauth.login_request();
    assert_eq!(req.url, "https://accounts.reddit.com/api/access_token");
    assert_eq!(req.body, r#"{"scopes":["*","email"]}"#);
    let auth = req.headers.get(&"Authorization".to_string()).unwrap().clone();
    // base64 of "<client id>:" for the two platform client ids.
    assert!(
        auth == "Basic b2hYcG9xclpZdWIxa2c6" || auth == "Basic TE5EbzlrMW84VUFFVXc6",
        "unexpected Basic credential: {auth}"
    );
}

#[test]
fn sleep_duration_is_clamped() {
    assert_eq!(sleep_duration(50), 0);
    assert_eq!(sleep_duration(120), 0);
    assert_eq!(sleep_duration(0), 0);
    assert_eq!(sleep_duration(121), 1);
    assert_eq!(sleep_duration(3600), 3480);
}
