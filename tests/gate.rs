use mcp_google_calendar::config::{AppConfig, GoogleConfig, OAuthConfig, ProxyConfig, SecurityConfig, ServerConfig};
use mcp_google_calendar::discovery::{
    authorization_server_metadata, issuer_from_auth_url, openid_configuration, protected_resource_metadata_impl,
};
use mcp_google_calendar::gate::{
    begin_authorization, complete_callback, issue_challenge, protected_resource_metadata_url, resource_identifier,
    www_authenticate_value,
};
use mcp_google_calendar::session::{AuthorizationSession, SessionRegistry};
use mcp_google_calendar::store::InMemoryTokenStorage;
use mcp_google_calendar::token::{token_from_grant, AuthorizationContext, OAuthClient};

fn config(auth_url: &str) -> AppConfig {
    AppConfig {
        server: ServerConfig { bind_address: "127.0.0.1:8080".to_string(), public_url: "https://bridge.example//".to_string() },
        oauth: OAuthConfig {
            client_id: "cid".to_string(),
            client_secret: "sec".to_string(),
            auth_url: auth_url.to_string(),
            token_url: "https://oauth2.googleapis.com/token".to_string(),
            redirect_uri: "https://bridge.example/oauth/callback".to_string(),
            scopes: vec!["s1".to_string(), "s2".to_string()],
        },
        google: GoogleConfig::default(),
        security: SecurityConfig::default(),
        proxy: ProxyConfig::default(),
    }
}

fn context(state: &str) -> AuthorizationContext {
    AuthorizationContext {
        authorize_url: "https://accounts.google.com/auth?x".to_string(),
        csrf_state: state.to_string(),
        pkce_verifier: "v".to_string(),
    }
}

#[test]
fn challenge_header_points_at_metadata() {
    let metadata = protected_resource_metadata_url("https://bridge.example/");
    assert_eq!(metadata, "https://bridge.example/.well-known/oauth-protected-resource");
    let header = www_authenticate_value("https://bridge.example/", &metadata, &vec!["s1".to_string(), "s2".to_string()]);
    assert_eq!(
        header,
        "Bearer resource=\"https://bridge.example\", resource_metadata=\"https://bridge.example/.well-known/oauth-protected-resource\", scope=\"s1 s2\""
    );
    assert_eq!(resource_identifier("http://h///"), "http://h");
}

#[test]
fn challenge_seeds_a_session() {
    let mut sessions = SessionRegistry::new();
    let c = issue_challenge(&mut sessions, context("S"), "u1", 100, "https://b.example", "https://b.example/m", &vec![]);
    assert_eq!(c.state, "S");
    assert_eq!(c.pkce_verifier, "v");
    assert!(c.www_authenticate.starts_with("Bearer resource=\"https://b.example\", resource_metadata=\"https://b.example/m\", scope=\""));
    assert!(sessions.contains("S"));
    let s = complete_callback(&mut sessions, "S").unwrap();
    assert_eq!(s.user_id, "u1");
    let err = complete_callback(&mut sessions, "S").unwrap_err();
    assert_eq!(err.code, 401);
    assert_eq!(err.message, "invalid or expired state");
}

#[test]
fn sweep_drops_sessions_older_than_ten_minutes() {
    let mut sessions = SessionRegistry::new();
    let now = 10_000;
    for (state, created) in [("old", now - 601), ("edge", now - 600), ("new", now - 5)] {
        sessions.insert(AuthorizationSession { user_id: "u".to_string(), state: context(state), created_at: created });
    }
    sessions.sweep(now);
    assert!(!sessions.contains("old"));
    assert!(sessions.contains("edge"));
    assert!(sessions.contains("new"));
}

#[test]
fn authorize_sweeps_and_registers() {
    let cfg = config("https://accounts.google.com/o/oauth2/v2/auth");
    let oauth = OAuthClient::from_config(&cfg.oauth).unwrap();
    let mut sessions = SessionRegistry::new();
    sessions.insert(AuthorizationSession { user_id: "u0".to_string(), state: context("stale"), created_at: 0 });
    let ctx = begin_authorization(&oauth, &mut sessions, "u1", "https://bridge.example/oauth/callback", 5_000).unwrap();
    assert!(!sessions.contains("stale"));
    assert!(sessions.contains(&ctx.csrf_state));
    let taken = sessions.take(&ctx.csrf_state).unwrap();
    assert_eq!(taken.user_id, "u1");
    assert_eq!(taken.created_at, 5_000);
}

#[test]
fn revoke_purges_user_sessions() {
    let mut sessions = SessionRegistry::new();
    sessions.insert(AuthorizationSession { user_id: "u1".to_string(), state: context("a"), created_at: 1 });
    sessions.insert(AuthorizationSession { user_id: "u2".to_string(), state: context("b"), created_at: 1 });
    sessions.purge_user("u1");
    assert!(!sessions.contains("a"));
    assert!(sessions.contains("b"));
}

#[test]
fn issuer_is_origin_of_auth_url() {
    assert_eq!(issuer_from_auth_url("https://accounts.google.com/o/oauth2/v2/auth").unwrap(), "https://accounts.google.com");
    assert_eq!(issuer_from_auth_url("http://localhost:9000/auth").unwrap(), "http://localhost:9000");
    assert_eq!(issuer_from_auth_url("nonsense").unwrap_err().code, 500);
    assert_eq!(issuer_from_auth_url("mailto:a@b.c").unwrap_err().message, "authorization endpoint missing host");
}

#[test]
fn direct_discovery_documents() {
    let cfg = config("https://accounts.google.com/o/oauth2/v2/auth");
    let as_doc = authorization_server_metadata(&cfg).unwrap();
    assert_eq!(as_doc.issuer, "https://accounts.google.com");
    assert_eq!(as_doc.registration_endpoint, "https://bridge.example/proxy/oauth/register");
    assert_eq!(as_doc.scopes_supported, vec!["s1".to_string(), "s2".to_string()]);
    assert_eq!(as_doc.grant_types_supported, vec!["authorization_code".to_string()]);
    assert!(!as_doc.client_id_metadata_document_supported);
    let prm = protected_resource_metadata_impl(&cfg, &Some("mcp/sse".to_string())).unwrap();
    assert_eq!(prm.resource, "https://bridge.example/mcp/sse");
    assert_eq!(prm.authorization_servers, vec!["https://accounts.google.com".to_string()]);
    let root = protected_resource_metadata_impl(&cfg, &None).unwrap();
    assert_eq!(root.resource, "https://bridge.example");
    let oidc = openid_configuration(&cfg).unwrap();
    assert_eq!(oidc.jwks_uri, "https://accounts.google.com/.well-known/jwks.json");
    assert_eq!(oidc.id_token_signing_alg_values_supported, vec!["RS256".to_string()]);
    assert!(openid_configuration(&config("bad")).is_err());
}

#[test]
fn callback_then_stored_token_is_fetched() {
    let mut sessions = SessionRegistry::new();
    let c = issue_challenge(&mut sessions, context("S"), "u1", 100, "https://b.example", "https://b.example/m", &vec![]);
    let session = complete_callback(&mut sessions, &c.state).unwrap();
    let token = token_from_grant("A".to_string(), Some("R".to_string()), Some(3600), None, "Bearer".to_string(), 200);
    let mut store = InMemoryTokenStorage::new();
    store.persist(&session.user_id, &token);
    let fetched = store.fetch("u1").unwrap();
    assert_eq!(fetched.access_token, "A");
    assert_eq!(fetched.expires_at, Some(3800));
}
