use mcp_google_calendar::gate::{adopt_refreshed, decide_access, AccessStep};
use mcp_google_calendar::ids::{new_csrf_token, new_pkce_verifier, new_uuid, random_alphanumeric};
use mcp_google_calendar::instant::{is_representable, unix_now, UtcInstant, MAX_UTC_SECS, MIN_UTC_SECS};
use mcp_google_calendar::store::{InMemoryTokenStorage, RevocationLedger};
use mcp_google_calendar::token::{expiry_after, token_from_grant, OAuthClient, OAuthClientError, TokenInfo};
use mcp_google_calendar::config::OAuthConfig;

fn token(access: &str, refresh: Option<&str>, expires_at: Option<i64>) -> TokenInfo {
    TokenInfo {
        access_token: access.to_string(),
        refresh_token: refresh.map(|s| s.to_string()),
        expires_at,
        scope: Some("scope".to_string()),
        token_type: "Bearer".to_string(),
    }
}

#[test]
fn persist_and_fetch_roundtrip() {
    let mut storage = InMemoryTokenStorage::new();
    let t = token("access", Some("refresh"), Some(unix_now() + 300));
    storage.persist("user", &t);
    let loaded = storage.fetch("user");
    assert!(loaded.is_some());
    assert_eq!(loaded.unwrap().access_token, "access");
    let removed = storage.revoke("user");
    assert_eq!(removed.unwrap().refresh_token.as_deref(), Some("refresh"));
    assert!(storage.fetch("user").is_none());
}

#[test]
fn fetch_after_persist_returns_last_write() {
    let mut storage = InMemoryTokenStorage::new();
    assert!(storage.fetch("u1").is_none());
    storage.persist("u1", &token("A", None, None));
    storage.persist("u2", &token("X", None, None));
    storage.persist("u1", &token("B", Some("R"), Some(42)));
    let got = storage.fetch("u1").unwrap();
    assert_eq!(got.access_token, "B");
    assert_eq!(got.refresh_token.as_deref(), Some("R"));
    assert_eq!(got.expires_at, Some(42));
    assert_eq!(storage.fetch("u2").unwrap().access_token, "X");
    let snapshot = storage.snapshot();
    assert_eq!(snapshot.len(), 2);
}

#[test]
fn expiry_uses_thirty_second_margin() {
    let now = 1_000_000;
    assert!(token("a", None, Some(now + 30)).is_expired_at(now));
    assert!(token("a", None, Some(now + 10)).is_expired_at(now));
    assert!(!token("a", None, Some(now + 31)).is_expired_at(now));
    assert!(!token("a", None, None).is_expired_at(now));
    assert!(!token("a", None, None).is_expired());
    assert!(token("a", None, Some(0)).is_expired());
}

#[test]
fn ledger_records_and_clears() {
    let mut ledger = RevocationLedger::new();
    assert!(!ledger.contains("u1", "B1"));
    ledger.record("u1", "B1".to_string());
    ledger.record("u1", "B0".to_string());
    assert!(ledger.contains("u1", "B1"));
    assert!(ledger.contains("u1", "B0"));
    assert!(!ledger.contains("u2", "B1"));
    ledger.clear("u1");
    assert!(!ledger.contains("u1", "B1"));
}

#[test]
fn grant_maps_to_token_info() {
    let t = token_from_grant(
        "A".to_string(),
        Some("R".to_string()),
        Some(3600),
        Some(vec!["s1".to_string(), "s2".to_string()]),
        "Bearer".to_string(),
        1_700_000_000,
    );
    assert_eq!(t.access_token, "A");
    assert_eq!(t.refresh_token.as_deref(), Some("R"));
    assert_eq!(t.expires_at, Some(1_700_003_600));
    assert_eq!(t.scope.as_deref(), Some("s1 s2"));
    let none = token_from_grant("A".to_string(), None, None, None, "bearer".to_string(), 5);
    assert_eq!(none.expires_at, None);
    assert_eq!(none.scope, None);
    assert_eq!(expiry_after(u64::MAX, 0), None);
}

#[test]
fn access_decision_follows_expiry_and_refresh_token() {
    let now = 2_000_000;
    assert!(matches!(decide_access(None, now), AccessStep::Challenge));
    match decide_access(Some(token("A", Some("R"), Some(now + 3600))), now) {
        AccessStep::Proceed(t) => assert_eq!(t.access_token, "A"),
        _ => panic!("expected proceed"),
    }
    match decide_access(Some(token("A", Some("R"), Some(now))), now) {
        AccessStep::Refresh(r) => assert_eq!(r, "R"),
        _ => panic!("expected refresh"),
    }
    assert!(matches!(
        decide_access(Some(token("A", None, Some(now))), now),
        AccessStep::Challenge
    ));
}

#[test]
fn refresh_keeps_prior_refresh_token() {
    let prior = token("old", Some("R1"), Some(1));
    let kept = adopt_refreshed(&prior, token("new", None, Some(2)));
    assert_eq!(kept.access_token, "new");
    assert_eq!(kept.refresh_token.as_deref(), Some("R1"));
    let replaced = adopt_refreshed(&prior, token("new", Some("R2"), Some(2)));
    assert_eq!(replaced.refresh_token.as_deref(), Some("R2"));
}

fn oauth_config(auth_url: &str) -> OAuthConfig {
    OAuthConfig {
        client_id: "cid".to_string(),
        client_secret: "secret".to_string(),
        auth_url: auth_url.to_string(),
        token_url: "https://oauth2.googleapis.com/token".to_string(),
        redirect_uri: "http://localhost:8080/oauth/callback".to_string(),
        scopes: vec!["https://www.googleapis.com/auth/calendar".to_string()],
    }
}

#[test]
fn authorize_url_carries_pkce_state_and_scopes() {
    let client = OAuthClient::from_config(&oauth_config("https://accounts.google.com/o/oauth2/v2/auth")).unwrap();
    let ctx = client
        .authorize_url("http://localhost:8080/oauth/callback", &Some("https://bridge.example".to_string()))
        .unwrap();
    assert_eq!(ctx.pkce_verifier.len(), 43);
    assert_eq!(ctx.csrf_state.len(), 22);
    let url = ctx.authorize_url;
    assert!(url.starts_with("https://accounts.google.com/o/oauth2/v2/auth?response_type=code&client_id=cid&state="));
    assert!(url.contains(&format!("state={}", ctx.csrf_state)));
    assert!(url.contains("code_challenge_method=S256"));
    assert!(url.contains("redirect_uri=http%3A%2F%2Flocalhost%3A8080%2Foauth%2Fcallback"));
    assert!(url.contains("scope=https%3A%2F%2Fwww.googleapis.com%2Fauth%2Fcalendar"));
    assert!(url.contains("prompt=select_account"));
    assert!(url.ends_with("resource=https%3A%2F%2Fbridge.example"));
}

#[test]
fn authorize_request_url_is_fixed_by_its_inputs() {
    let client = OAuthClient::from_config(&oauth_config("https://auth.example/authorize")).unwrap();
    let url = client
        .authorization_request_url("https://app.example/cb", "st", "dBjftJeZ4CVP-mB92K27uhbUJU1p1r_wW1gFWFOEjXk", &None)
        .unwrap();
    assert_eq!(
        url,
        "https://auth.example/authorize?response_type=code&client_id=cid&state=st&code_challenge=E9Melhoa2OwvFrEMTJguCHaoeK1t8URWbuGJSstw-cM&code_challenge_method=S256&redirect_uri=https%3A%2F%2Fapp.example%2Fcb&scope=https%3A%2F%2Fwww.googleapis.com%2Fauth%2Fcalendar&prompt=select_account"
    );
    assert!(client
        .authorization_request_url("not a url", "st", "dBjftJeZ4CVP-mB92K27uhbUJU1p1r_wW1gFWFOEjXk", &None)
        .is_none());
}

#[test]
fn invalid_urls_are_refused() {
    assert_eq!(
        OAuthClient::from_config(&oauth_config("not a url")).err(),
        Some(OAuthClientError::InvalidAuthUrl)
    );
    let mut cfg = oauth_config("https://auth.example/authorize");
    cfg.token_url = "::".to_string();
    assert_eq!(OAuthClient::from_config(&cfg).err(), Some(OAuthClientError::InvalidTokenUrl));
    let client = OAuthClient::from_config(&oauth_config("https://auth.example/authorize")).unwrap();
    assert_eq!(
        client.authorize_url("relative/path", &None).err(),
        Some(OAuthClientError::InvalidRedirectUrl)
    );
    assert_eq!(OAuthClientError::InvalidRedirectUrl.message(), "invalid redirect url");
}

#[test]
fn fresh_identifiers_have_their_shapes() {
    let id = new_uuid();
    assert_eq!(id.len(), 36);
    assert_ne!(id, new_uuid());
    let secret = random_alphanumeric(32);
    assert_eq!(secret.len(), 32);
    assert!(secret.chars().all(|c| c.is_ascii_alphanumeric()));
    let verifier = new_pkce_verifier();
    assert_eq!(verifier.len(), 43);
    assert!(verifier.chars().all(|c| c.is_ascii_alphanumeric() || c == '-' || c == '_'));
    assert_ne!(verifier, new_pkce_verifier());
    assert_eq!(new_csrf_token().len(), 22);
}

#[test]
fn instants_parse_and_format() {
    let t = UtcInstant::parse("2025-10-14T14:34:56+02:00").unwrap();
    assert_eq!(t.secs(), 1_760_445_296);
    assert_eq!(t.to_rfc3339(), "2025-10-14T12:34:56+00:00");
    assert!(UtcInstant::parse("yesterday").is_none());
    assert!(is_representable(0, 0));
    assert!(!is_representable(i64::MAX, 0));
    assert!(UtcInstant::from_parts(i64::MIN, 0).is_none());
    assert!(unix_now() > 1_600_000_000);
}

#[test]
fn representable_range_matches_chrono() {
    assert!(is_representable(MAX_UTC_SECS, 0));
    assert!(!is_representable(MAX_UTC_SECS + 1, 0));
    assert!(is_representable(MIN_UTC_SECS, 0));
    assert!(!is_representable(MIN_UTC_SECS - 1, 0));
    assert!(is_representable(59, 1_500_000_000));
    assert!(!is_representable(58, 1_500_000_000));
    assert!(!is_representable(59, 2_000_000_000));
    assert!(is_representable(0, 999_999_999));
}
