use mcp_google_calendar::config::{
    AppConfig, GoogleConfig, OAuthConfig, ProxyConfig, SecurityConfig, ServerConfig,
};

#[test]
fn defaults_are_set() {
    let cfg = AppConfig {
        server: ServerConfig {
            bind_address: ServerConfig::default_bind_address(),
            public_url: ServerConfig::default_public_url(),
        },
        oauth: OAuthConfig {
            client_id: "client".into(),
            client_secret: "secret".into(),
            auth_url: "https://example.com/auth".into(),
            token_url: "https://example.com/token".into(),
            redirect_uri: "http://localhost/oauth/callback".into(),
            scopes: OAuthConfig::default_scopes(),
        },
        google: GoogleConfig {
            api_base: GoogleConfig::default_api_base(),
            calendar_id: None,
        },
        security: SecurityConfig {
            token_store_path: SecurityConfig::default_token_store_path(),
            encrypt_tokens: SecurityConfig::default_encrypt_tokens(),
            use_in_memory: SecurityConfig::default_use_in_memory(),
        },
        proxy: ProxyConfig::default(),
    };

    assert_eq!(cfg.server.bind_address, "127.0.0.1:8080");
    assert_eq!(
        cfg.google.api_base,
        "https://www.googleapis.com/calendar/v3"
    );
    assert!(!cfg.security.encrypt_tokens);
    assert!(!cfg.security.use_in_memory);
    assert!(!cfg.proxy.enabled);
}

#[test]
fn default_values_of_each_section() {
    assert_eq!(ServerConfig::default_public_url(), "http://localhost:8080");
    assert_eq!(
        OAuthConfig::default_auth_url(),
        "https://accounts.google.com/o/oauth2/v2/auth"
    );
    assert_eq!(OAuthConfig::default_token_url(), "https://oauth2.googleapis.com/token");
    assert_eq!(
        OAuthConfig::default_redirect_uri(),
        "http://localhost:8080/oauth/callback"
    );
    assert_eq!(
        OAuthConfig::default_scopes(),
        vec!["https://www.googleapis.com/auth/calendar".to_string()]
    );
    assert_eq!(SecurityConfig::default_token_store_path(), "config/tokens.json");
    let server = ServerConfig::default();
    assert_eq!(server.bind_address, "127.0.0.1:8080");
    let google = GoogleConfig::default();
    assert!(google.calendar_id.is_none());
    let security = SecurityConfig::default();
    assert_eq!(security.token_store_path, "config/tokens.json");
    assert!(ProxyConfig::default().redirect_path.is_none());
}
