use vstd::prelude::*;

verus! {

/// Root configuration of the service.
#[derive(Debug, Clone)]
pub struct AppConfig {
    pub server: ServerConfig,
    pub oauth: OAuthConfig,
    pub google: GoogleConfig,
    pub security: SecurityConfig,
    pub proxy: ProxyConfig,
}

/// Where the service listens and how it is reached from outside.
#[derive(Debug, Clone)]
pub struct ServerConfig {
    pub bind_address: String,
    pub public_url: String,
}

impl ServerConfig {
    pub fn default_bind_address() -> (r: String)
        ensures
            r@ == "127.0.0.1:8080"@,
    {
        "127.0.0.1:8080".to_owned()
    }

    pub fn default_public_url() -> (r: String)
        ensures
            r@ == "http://localhost:8080"@,
    {
        "http://localhost:8080".to_owned()
    }
}

impl Default for ServerConfig {
    fn default() -> (r: Self)
        ensures
            r.bind_address@ == "127.0.0.1:8080"@,
            r.public_url@ == "http://localhost:8080"@,
    {
        ServerConfig {
            bind_address: Self::default_bind_address(),
            public_url: Self::default_public_url(),
        }
    }
}

/// Credentials and endpoints of the upstream (Google) OAuth client.
#[derive(Debug, Clone)]
pub struct OAuthConfig {
    pub client_id: String,
    pub client_secret: String,
    pub auth_url: String,
    pub token_url: String,
    pub redirect_uri: String,
    pub scopes: Vec<String>,
}

impl OAuthConfig {
    pub fn default_auth_url() -> (r: String)
        ensures
            r@ == "https://accounts.google.com/o/oauth2/v2/auth"@,
    {
        "https://accounts.google.com/o/oauth2/v2/auth".to_owned()
    }

    pub fn default_token_url() -> (r: String)
        ensures
            r@ == "https://oauth2.googleapis.com/token"@,
    {
        "https://oauth2.googleapis.com/token".to_owned()
    }

    pub fn default_redirect_uri() -> (r: String)
        ensures
            r@ == "http://localhost:8080/oauth/callback"@,
    {
        "http://localhost:8080/oauth/callback".to_owned()
    }

    pub fn default_scopes() -> (r: Vec<String>)
        ensures
            r@.len() == 1,
            r@[0]@ == "https://www.googleapis.com/auth/calendar"@,
    {
        let mut v: Vec<String> = Vec::new();
        v.push("https://www.googleapis.com/auth/calendar".to_owned());
        v
    }
}

/// Where the Calendar REST API lives and which calendar is used by default.
#[derive(Debug, Clone)]
pub struct GoogleConfig {
    pub api_base: String,
    pub calendar_id: Option<String>,
}

impl GoogleConfig {
    pub fn default_api_base() -> (r: String)
        ensures
            r@ == "https://www.googleapis.com/calendar/v3"@,
    {
        "https://www.googleapis.com/calendar/v3".to_owned()
    }
}

impl Default for GoogleConfig {
    fn default() -> (r: Self)
        ensures
            r.api_base@ == "https://www.googleapis.com/calendar/v3"@,
            r.calendar_id is None,
    {
        GoogleConfig { api_base: Self::default_api_base(), calendar_id: None }
    }
}

/// Token storage settings.
#[derive(Debug, Clone)]
pub struct SecurityConfig {
    pub token_store_path: String,
    pub encrypt_tokens: bool,
    pub use_in_memory: bool,
}

impl SecurityConfig {
    pub fn default_token_store_path() -> (r: String)
        ensures
            r@ == "config/tokens.json"@,
    {
        "config/tokens.json".to_owned()
    }

    pub fn default_encrypt_tokens() -> (r: bool)
        ensures
            !r,
    {
        false
    }

    pub fn default_use_in_memory() -> (r: bool)
        ensures
            !r,
    {
        false
    }
}

impl Default for SecurityConfig {
    fn default() -> (r: Self)
        ensures
            r.token_store_path@ == "config/tokens.json"@,
            !r.encrypt_tokens,
            !r.use_in_memory,
    {
        SecurityConfig {
            token_store_path: Self::default_token_store_path(),
            encrypt_tokens: Self::default_encrypt_tokens(),
            use_in_memory: Self::default_use_in_memory(),
        }
    }
}

/// Settings of the downstream OAuth authorization server.
#[derive(Debug, Clone)]
pub struct ProxyConfig {
    pub enabled: bool,
    pub redirect_path: Option<String>,
}

impl Default for ProxyConfig {
    fn default() -> (r: Self)
        ensures
            !r.enabled,
            r.redirect_path is None,
    {
        ProxyConfig { enabled: false, redirect_path: None }
    }
}

} // verus!
