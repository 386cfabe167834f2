use mcp_google_calendar::config::{AppConfig, GoogleConfig, OAuthConfig, ProxyConfig, SecurityConfig, ServerConfig};
use mcp_google_calendar::proxy::{
    callback_redirect, AuthorizationParams, CallbackResult, ClientMetadata, ClientRegistrationRequest,
    ProxyError, ProxyState, TokenRequest,
};

fn config(enabled: bool) -> AppConfig {
    AppConfig {
        server: ServerConfig {
            bind_address: "127.0.0.1:8080".to_string(),
            public_url: "https://bridge.example/".to_string(),
        },
        oauth: OAuthConfig {
            client_id: "google-id".to_string(),
            client_secret: "google-secret".to_string(),
            auth_url: "https://accounts.google.com/o/oauth2/v2/auth".to_string(),
            token_url: "https://oauth2.googleapis.com/token".to_string(),
            redirect_uri: "https://bridge.example/oauth/callback".to_string(),
            scopes: vec!["https://www.googleapis.com/auth/calendar".to_string()],
        },
        google: GoogleConfig::default(),
        security: SecurityConfig::default(),
        proxy: ProxyConfig { enabled, redirect_path: None },
    }
}

fn params(client_id: &str, redirect_uri: &str) -> AuthorizationParams {
    AuthorizationParams {
        response_type: "code".to_string(),
        client_id: client_id.to_string(),
        redirect_uri: redirect_uri.to_string(),
        scope: None,
        state: Some("orig".to_string()),
        code_challenge: Some("chal".to_string()),
        code_challenge_method: Some("S256".to_string()),
        resource: None,
    }
}

fn token_request(code: &str, client_id: &str, secret: Option<&str>) -> TokenRequest {
    TokenRequest {
        grant_type: "authorization_code".to_string(),
        code: code.to_string(),
        redirect_uri: "https://cli.example/cb".to_string(),
        client_id: client_id.to_string(),
        client_secret: secret.map(|s| s.to_string()),
        code_verifier: Some("verifier".to_string()),
        resource: None,
    }
}

fn registration() -> ClientRegistrationRequest {
    ClientRegistrationRequest {
        redirect_uris: vec!["https://cli.example/cb".to_string()],
        scope: None,
        client_name: None,
        token_endpoint_auth_method: None,
    }
}

const NOW: i64 = 1_760_000_000;

fn issued_code(proxy: &mut ProxyState) -> (String, String) {
    proxy.register_client_with(registration(), "C".to_string(), "K".to_string(), 1).unwrap();
    proxy
        .start_authorization_with(&params("C", "https://cli.example/cb"), "ps".to_string(), NOW)
        .unwrap();
    let res = proxy.handle_callback_with("ps", "gcode", "P".to_string(), NOW).unwrap();
    (res.proxy_code, "K".to_string())
}

#[test]
fn settings_follow_public_url() {
    let proxy = ProxyState::new(&config(true));
    assert!(proxy.is_enabled());
    assert_eq!(proxy.public_url, "https://bridge.example");
    assert_eq!(proxy.redirect_uri, "https://bridge.example/proxy/oauth/callback");
    assert_eq!(proxy.registration_endpoint, "https://bridge.example/proxy/oauth/register");
    assert_eq!(
        proxy.protected_resource_metadata,
        "https://bridge.example/.well-known/oauth-protected-resource"
    );
    let meta = proxy.metadata();
    assert_eq!(meta.issuer, "https://bridge.example");
    assert!(meta.client_id_metadata_document_supported);
    assert_eq!(meta.code_challenge_methods_supported, vec!["S256".to_string()]);
    let oidc = proxy.openid_configuration();
    assert_eq!(oidc.jwks_uri, "https://bridge.example/.well-known/jwks.json");
    let prm = proxy.protected_resource_metadata("https://bridge.example/mcp".to_string());
    assert_eq!(prm.authorization_servers, vec!["https://bridge.example".to_string()]);
    let off = ProxyState::new(&config(false));
    assert!(!off.is_enabled());
    assert_eq!(off.public_url, "");
}

#[test]
fn registration_mints_credentials() {
    let mut proxy = ProxyState::new(&config(true));
    let resp = proxy.register_client(registration()).unwrap();
    assert_eq!(resp.client_id.len(), 36);
    assert_eq!(resp.client_secret.len(), 32);
    assert!(resp.client_secret.chars().all(|c| c.is_ascii_alphanumeric()));
    assert_eq!(resp.client_secret_expires_at, 0);
    assert_eq!(resp.token_endpoint_auth_method, "client_secret_post");
    let empty = ClientRegistrationRequest { redirect_uris: vec![], scope: None, client_name: None, token_endpoint_auth_method: None };
    assert_eq!(proxy.register_client(empty).err(), Some(ProxyError::MissingRedirectUris));
    assert_eq!(ProxyError::MissingRedirectUris.message(), "redirect_uris is required");
    let res = proxy.handle_callback("missing", "g");
    assert_eq!(res.err(), Some(ProxyError::StateNotFound));
}

#[test]
fn authorize_callback_and_token_flow() {
    let mut proxy = ProxyState::new(&config(true));
    proxy.register_client_with(registration(), "C".to_string(), "K".to_string(), 7).unwrap();
    let url = proxy
        .start_authorization_with(&params("C", "https://cli.example/cb"), "ps".to_string(), NOW)
        .unwrap();
    assert_eq!(
        url,
        "https://accounts.google.com/o/oauth2/v2/auth?response_type=code&client_id=google-id&redirect_uri=https%3A%2F%2Fbridge.example%2Fproxy%2Foauth%2Fcallback&scope=https%3A%2F%2Fwww.googleapis.com%2Fauth%2Fcalendar.events&state=ps&prompt=select_account&code_challenge=chal&code_challenge_method=S256"
    );
    let res = proxy.handle_callback_with("ps", "gcode", "P".to_string(), NOW).unwrap();
    assert_eq!(res.redirect_uri, "https://cli.example/cb");
    assert_eq!(callback_redirect(&res).unwrap(), "https://cli.example/cb?code=P&state=orig");
    let upstream = proxy.exchange_code(&token_request("P", "C", Some("K")), NOW + 10).unwrap();
    assert_eq!(upstream.token_url, "https://oauth2.googleapis.com/token");
    let form: Vec<(&str, &str)> = upstream.form.iter().map(|(k, v)| (k.as_str(), v.as_str())).collect();
    assert_eq!(
        form,
        vec![
            ("grant_type", "authorization_code"),
            ("code", "gcode"),
            ("redirect_uri", "https://bridge.example/proxy/oauth/callback"),
            ("client_id", "google-id"),
            ("client_secret", "google-secret"),
            ("code_verifier", "verifier"),
        ]
    );
}

#[test]
fn code_is_single_use() {
    let mut proxy = ProxyState::new(&config(true));
    let (code, secret) = issued_code(&mut proxy);
    assert!(proxy.exchange_code(&token_request(&code, "C", Some(&secret)), NOW).is_ok());
    assert_eq!(
        proxy.exchange_code(&token_request(&code, "C", Some(&secret)), NOW).err(),
        Some(ProxyError::InvalidCode)
    );
}

#[test]
fn stale_code_is_expired() {
    let mut proxy = ProxyState::new(&config(true));
    let (code, secret) = issued_code(&mut proxy);
    let err = proxy.exchange_code(&token_request(&code, "C", Some(&secret)), NOW + 301).err().unwrap();
    assert_eq!(err, ProxyError::CodeExpired);
    assert_eq!(err.message(), "authorization code expired");
    assert_eq!(err.status(), 400);
    let mut edge = ProxyState::new(&config(true));
    let (code, secret) = issued_code(&mut edge);
    assert!(edge.exchange_code(&token_request(&code, "C", Some(&secret)), NOW + 300).is_ok());
}

#[test]
fn token_request_checks() {
    let mut proxy = ProxyState::new(&config(true));
    let (code, _) = issued_code(&mut proxy);
    assert_eq!(proxy.exchange_code(&token_request(&code, "C", Some("wrong")), NOW).err(), Some(ProxyError::InvalidClientSecret));
    assert_eq!(proxy.exchange_code(&token_request(&code, "C", None), NOW).err(), Some(ProxyError::InvalidClientSecret));
    assert_eq!(proxy.exchange_code(&token_request(&code, "nobody", Some("K")), NOW).err(), Some(ProxyError::UnknownClient));
    let mut other = token_request(&code, "C", Some("K"));
    other.redirect_uri = "https://cli.example/other".to_string();
    assert_eq!(proxy.exchange_code(&other, NOW).err(), Some(ProxyError::RedirectUriMismatch));
    assert_eq!(proxy.exchange_code(&token_request(&code, "C", Some("K")), NOW).err(), Some(ProxyError::InvalidCode));
}

#[test]
fn authorize_checks() {
    let mut proxy = ProxyState::new(&config(true));
    proxy.register_client_with(registration(), "C".to_string(), "K".to_string(), 1).unwrap();
    let mut wrong_type = params("C", "https://cli.example/cb");
    wrong_type.response_type = "token".to_string();
    assert_eq!(proxy.start_authorization_with(&wrong_type, "s1".to_string(), NOW).err(), Some(ProxyError::UnsupportedResponseType));
    assert_eq!(
        proxy.start_authorization_with(&params("D", "https://cli.example/cb"), "s2".to_string(), NOW).err(),
        Some(ProxyError::UnknownClient)
    );
    assert_eq!(
        proxy.start_authorization_with(&params("C", "https://evil.example/cb"), "s3".to_string(), NOW).err(),
        Some(ProxyError::RedirectUriNotRegistered)
    );
    assert_eq!(proxy.handle_callback_with("s3", "g", "P".to_string(), NOW).err(), Some(ProxyError::StateNotFound));
    let url = proxy.start_authorization(&params("C", "https://cli.example/cb")).unwrap();
    assert!(url.contains("state="));
    assert!(url.contains("prompt=select_account"));
}

fn document(auth_method: &str) -> ClientMetadata {
    ClientMetadata {
        client_id: "https://cli.example/app".to_string(),
        redirect_uris: vec!["https://cli.example/cb".to_string()],
        token_endpoint_auth_method: Some(auth_method.to_string()),
        client_name: None,
        scope: None,
    }
}

#[test]
fn metadata_document_clients() {
    let id = "https://cli.example/app";
    let mut proxy = ProxyState::new(&config(true));
    assert_eq!(
        proxy.metadata_document_needed(id, NOW).as_deref(),
        Some("https://cli.example/app/.well-known/oauth-client")
    );
    assert_eq!(proxy.metadata_document_needed("C", NOW), None);
    assert_eq!(
        proxy.start_authorization_with(&params(id, "https://cli.example/cb"), "ps".to_string(), NOW).err(),
        Some(ProxyError::MetadataUnavailable)
    );
    proxy.cache_client_metadata(id, document("none"), NOW).unwrap();
    assert_eq!(proxy.metadata_document_needed(id, NOW + 86_399), None);
    assert!(proxy.metadata_document_needed(id, NOW + 86_400).is_some());
    proxy.start_authorization_with(&params(id, "https://cli.example/cb"), "ps".to_string(), NOW).unwrap();
    let res = proxy.handle_callback_with("ps", "gcode", "P".to_string(), NOW).unwrap();
    assert!(proxy.exchange_code(&token_request(&res.proxy_code, id, None), NOW).is_ok());
}

#[test]
fn metadata_client_must_declare_no_auth() {
    let id = "https://cli.example/app";
    let mut proxy = ProxyState::new(&config(true));
    proxy.cache_client_metadata(id, document("client_secret_post"), NOW).unwrap();
    proxy.start_authorization_with(&params(id, "https://cli.example/cb"), "ps".to_string(), NOW).unwrap();
    let res = proxy.handle_callback_with("ps", "gcode", "P".to_string(), NOW).unwrap();
    assert_eq!(
        proxy.exchange_code(&token_request(&res.proxy_code, id, Some("x")), NOW).err(),
        Some(ProxyError::AuthMethodNotNone)
    );
}

#[test]
fn metadata_documents_are_validated() {
    let mut proxy = ProxyState::new(&config(true));
    assert_eq!(proxy.cache_client_metadata("http://cli.example/app", document("none"), NOW).err(), Some(ProxyError::MetadataNotHttps));
    assert_eq!(proxy.cache_client_metadata("https://cli.example/other", document("none"), NOW).err(), Some(ProxyError::MetadataClientIdMismatch));
    let mut empty = document("none");
    empty.redirect_uris.clear();
    assert_eq!(proxy.cache_client_metadata("https://cli.example/app", empty, NOW).err(), Some(ProxyError::MetadataMissingRedirectUris));
}

#[test]
fn callback_redirect_needs_a_url() {
    let bad = CallbackResult { proxy_code: "P".to_string(), redirect_uri: "not a url".to_string(), original_state: None };
    assert_eq!(callback_redirect(&bad).err(), Some(ProxyError::InvalidRedirectUri));
    let plain = CallbackResult { proxy_code: "P Q".to_string(), redirect_uri: "https://cli.example/cb?x=1".to_string(), original_state: None };
    assert_eq!(callback_redirect(&plain).unwrap(), "https://cli.example/cb?x=1&code=P+Q");
}
