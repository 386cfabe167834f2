use mcp_google_calendar::ingest::{
    header_with_presence, ingest_bearer_token_from_headers, parse_expires_metadata, parse_i64,
    parse_lifetime, revoke_user, BearerTokenError, RequestHeaders,
};
use mcp_google_calendar::session::SessionRegistry;
use mcp_google_calendar::store::{InMemoryTokenStorage, RevocationLedger};
use mcp_google_calendar::token::TokenInfo;

fn headers(pairs: &[(&str, Option<&str>)]) -> RequestHeaders {
    let mut h = RequestHeaders::new();
    for (name, value) in pairs {
        h.add(name.to_string(), value.map(|v| v.to_string()));
    }
    h
}

const NOW: i64 = 1_760_000_000;

#[test]
fn bearer_with_sidecars_is_stored() {
    let mut store = InMemoryTokenStorage::new();
    let mut ledger = RevocationLedger::new();
    let h = headers(&[
        ("authorization", Some("Bearer B1")),
        ("x-mcp-oauth-expires-in", Some("60")),
        ("x-mcp-oauth-scope", Some("s1 s2")),
    ]);
    let out = ingest_bearer_token_from_headers(&mut store, &mut ledger, &h, "u1", NOW).unwrap();
    assert!(out.persisted);
    let stored = store.fetch("u1").unwrap();
    assert_eq!(stored.access_token, "B1");
    assert_eq!(stored.scope.as_deref(), Some("s1 s2"));
    assert_eq!(stored.expires_at, Some(NOW + 60));
    assert_eq!(stored.token_type, "Bearer");
    assert_eq!(stored.refresh_token, None);
}

#[test]
fn revoked_bearer_is_not_adopted_until_a_new_token_arrives() {
    let mut store = InMemoryTokenStorage::new();
    let mut ledger = RevocationLedger::new();
    let mut sessions = SessionRegistry::new();
    let b1 = headers(&[("authorization", Some("Bearer B1"))]);
    ingest_bearer_token_from_headers(&mut store, &mut ledger, &b1, "u1", NOW).unwrap();
    let removed = revoke_user(&mut store, &mut ledger, &mut sessions, "u1").unwrap();
    assert_eq!(removed.access_token, "B1");
    assert!(ledger.contains("u1", "B1"));

    let replay = ingest_bearer_token_from_headers(&mut store, &mut ledger, &b1, "u1", NOW).unwrap();
    assert!(replay.token.is_none());
    assert!(!replay.persisted);
    assert!(store.fetch("u1").is_none());

    let b2 = headers(&[("authorization", Some("Bearer B2"))]);
    let fresh = ingest_bearer_token_from_headers(&mut store, &mut ledger, &b2, "u1", NOW).unwrap();
    assert!(fresh.persisted);
    assert_eq!(store.fetch("u1").unwrap().access_token, "B2");
    assert!(!ledger.contains("u1", "B1"));
}

#[test]
fn non_text_authorization_is_an_error() {
    let mut store = InMemoryTokenStorage::new();
    let mut ledger = RevocationLedger::new();
    let h = headers(&[("authorization", None)]);
    let err = ingest_bearer_token_from_headers(&mut store, &mut ledger, &h, "u1", NOW).unwrap_err();
    assert_eq!(err, BearerTokenError::InvalidUtf8);
    assert_eq!(err.message(), "authorization header must be valid UTF-8");
    assert!(store.fetch("u1").is_none());
}

#[test]
fn other_schemes_and_empty_tokens_are_skipped() {
    let mut store = InMemoryTokenStorage::new();
    let mut ledger = RevocationLedger::new();
    for value in ["Basic abc", "Bearer", "Bearer    ", "Token x"] {
        let h = headers(&[("authorization", Some(value))]);
        let out = ingest_bearer_token_from_headers(&mut store, &mut ledger, &h, "u1", NOW).unwrap();
        assert!(out.token.is_none());
    }
    let none = headers(&[]);
    assert!(ingest_bearer_token_from_headers(&mut store, &mut ledger, &none, "u1", NOW)
        .unwrap()
        .token
        .is_none());
    assert!(store.fetch("u1").is_none());
    let lower = headers(&[("authorization", Some("bearer  tok  "))]);
    let out = ingest_bearer_token_from_headers(&mut store, &mut ledger, &lower, "u1", NOW).unwrap();
    assert_eq!(out.token.unwrap().access_token, "tok");
}

#[test]
fn existing_record_is_updated_only_where_headers_say() {
    let mut store = InMemoryTokenStorage::new();
    let mut ledger = RevocationLedger::new();
    store.persist(
        "u1",
        &TokenInfo {
            access_token: "A".to_string(),
            refresh_token: Some("R".to_string()),
            expires_at: Some(NOW + 100),
            scope: Some("s".to_string()),
            token_type: "Bearer".to_string(),
        },
    );
    let same = headers(&[("authorization", Some("Bearer A"))]);
    let out = ingest_bearer_token_from_headers(&mut store, &mut ledger, &same, "u1", NOW).unwrap();
    assert!(!out.persisted);
    assert_eq!(out.token.unwrap().refresh_token.as_deref(), Some("R"));

    let update = headers(&[
        ("authorization", Some("Bearer A")),
        ("x-oauth-refresh-token", Some("R2")),
    ]);
    let out = ingest_bearer_token_from_headers(&mut store, &mut ledger, &update, "u1", NOW).unwrap();
    assert!(out.persisted);
    let stored = store.fetch("u1").unwrap();
    assert_eq!(stored.refresh_token.as_deref(), Some("R2"));
    assert_eq!(stored.scope.as_deref(), Some("s"));
    assert_eq!(stored.expires_at, Some(NOW + 100));
}

#[test]
fn first_non_blank_alias_wins() {
    let h = headers(&[
        ("x-mcp-oauth-scope", Some("   ")),
        ("x-oauth-scope", Some(" calendar ")),
    ]);
    let (value, present) = header_with_presence(&h, "x-mcp-oauth-scope", "x-oauth-scope");
    assert_eq!(value.as_deref(), Some("calendar"));
    assert!(present);
    let blank = headers(&[("x-oauth-scope", Some(""))]);
    assert_eq!(header_with_presence(&blank, "x-mcp-oauth-scope", "x-oauth-scope"), (None, true));
    assert_eq!(header_with_presence(&headers(&[]), "x-mcp-oauth-scope", "x-oauth-scope"), (None, false));
}

#[test]
fn expiry_headers_are_read_in_order() {
    let at = headers(&[("x-oauth-expires-at", Some("2025-10-14T12:34:56Z"))]);
    assert_eq!(parse_expires_metadata(&at, NOW), (Some(1_760_445_296), true));
    let epoch = headers(&[("x-mcp-oauth-expires-at", Some("1760445296"))]);
    assert_eq!(parse_expires_metadata(&epoch, NOW), (Some(1_760_445_296), true));
    let bad_at = headers(&[
        ("x-mcp-oauth-expires-at", Some("soon")),
        ("x-mcp-oauth-expires-in", Some("60")),
    ]);
    assert_eq!(parse_expires_metadata(&bad_at, NOW), (None, false));
    let lifetime = headers(&[("x-oauth-expires-in", Some("90.75"))]);
    assert_eq!(parse_expires_metadata(&lifetime, NOW), (Some(NOW + 90), true));
    let negative = headers(&[("x-oauth-expires-in", Some("-5"))]);
    assert_eq!(parse_expires_metadata(&negative, NOW), (None, false));
}

#[test]
fn numbers_parse_like_std() {
    assert_eq!(parse_i64("-42"), Some(-42));
    assert_eq!(parse_i64("+7"), Some(7));
    assert_eq!(parse_i64("9223372036854775807"), Some(i64::MAX));
    assert_eq!(parse_i64("-9223372036854775808"), Some(i64::MIN));
    assert_eq!(parse_i64("9223372036854775808"), None);
    assert_eq!(parse_i64(""), None);
    assert_eq!(parse_i64("-"), None);
    assert_eq!(parse_i64("1a"), None);
    assert_eq!(parse_lifetime("60"), Some(60));
    assert_eq!(parse_lifetime(".5"), Some(0));
    assert_eq!(parse_lifetime("3."), Some(3));
    assert_eq!(parse_lifetime("."), None);
    assert_eq!(parse_lifetime("1e3"), None);
}

#[test]
fn token_type_changes_only_when_its_header_is_sent() {
    let mut store = InMemoryTokenStorage::new();
    let mut ledger = RevocationLedger::new();
    store.persist(
        "u1",
        &TokenInfo {
            access_token: "A".to_string(),
            refresh_token: None,
            expires_at: None,
            scope: None,
            token_type: "MAC".to_string(),
        },
    );
    let plain = headers(&[("authorization", Some("Bearer A"))]);
    let out = ingest_bearer_token_from_headers(&mut store, &mut ledger, &plain, "u1", NOW).unwrap();
    assert!(!out.persisted);
    assert_eq!(store.fetch("u1").unwrap().token_type, "MAC");
    let typed = headers(&[("authorization", Some("Bearer A")), ("x-oauth-token-type", Some("DPoP"))]);
    let out = ingest_bearer_token_from_headers(&mut store, &mut ledger, &typed, "u1", NOW).unwrap();
    assert!(out.persisted);
    assert_eq!(store.fetch("u1").unwrap().token_type, "DPoP");
}
