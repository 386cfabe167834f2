//! The downstream OAuth authorization server ("proxy"): dynamic client registration,
//! authorize, callback and token endpoints that delegate to Google, and the clients
//! that identify themselves by a metadata document URL.
use vstd::prelude::*;
use crate::config::AppConfig;
use crate::discovery::{
    advertises_capabilities, only, single, AuthorizationServerMetadata, OpenIdConfiguration,
    ProtectedResourceMetadata,
};
use crate::ids::{is_ascii_alphanumeric, new_uuid, random_alphanumeric};
use crate::instant::unix_now;
use crate::table::KeyedTable;
use crate::text::{concat, contains_text, copy_opt, copy_strings, lists, opt_view, starts_with, trim_trailing_slashes, without_trailing_slashes};
use crate::urls::{append_query, pairs_view, parses_as_url, url_with_query};

verus! {

/// Seconds a proxy authorization code stays exchangeable.
pub const CODE_EXPIRATION_SECS: i64 = 300;

/// Seconds a fetched client metadata document stays cached.
pub const METADATA_CACHE_SECS: i64 = 86400;

/// Length of a minted client secret.
pub const CLIENT_SECRET_LEN: usize = 32;

/// Errors of the proxy endpoints; each is answered as an invalid request (400).
#[derive(Debug, Clone, Copy, PartialEq, Eq, Structural)]
pub enum ProxyError {
    MissingRedirectUris,
    UnknownClient,
    RedirectUriNotRegistered,
    UnsupportedResponseType,
    StateNotFound,
    InvalidClientSecret,
    InvalidCode,
    CodeExpired,
    RedirectUriMismatch,
    AuthMethodNotNone,
    MetadataUnavailable,
    MetadataNotHttps,
    MetadataClientIdMismatch,
    MetadataMissingRedirectUris,
    InvalidAuthorizationEndpoint,
    InvalidRedirectUri,
}

impl ProxyError {
    pub fn status(&self) -> (r: u16)
        ensures
            r == 400,
    {
        400
    }

    pub fn message(&self) -> (r: String)
        ensures
            *self == ProxyError::MissingRedirectUris ==> r@ == "redirect_uris is required"@,
            *self == ProxyError::UnknownClient ==> r@ == "unknown client_id"@,
            *self == ProxyError::RedirectUriNotRegistered ==> r@ == "redirect_uri is not registered"@,
            *self == ProxyError::UnsupportedResponseType ==> r@ == "unsupported response_type"@,
            *self == ProxyError::StateNotFound ==> r@ == "state not found"@,
            *self == ProxyError::InvalidClientSecret ==> r@ == "invalid client_secret"@,
            *self == ProxyError::InvalidCode ==> r@ == "invalid or expired code"@,
            *self == ProxyError::CodeExpired ==> r@ == "authorization code expired"@,
            *self == ProxyError::RedirectUriMismatch ==> r@ == "redirect_uri mismatch"@,
            *self == ProxyError::AuthMethodNotNone ==> r@ == "client metadata must declare token_endpoint_auth_method none"@,
            *self == ProxyError::MetadataUnavailable ==> r@ == "client metadata document unavailable"@,
            *self == ProxyError::MetadataNotHttps ==> r@ == "client_id metadata document must use https"@,
            *self == ProxyError::MetadataClientIdMismatch ==> r@ == "client metadata client_id does not match"@,
            *self == ProxyError::MetadataMissingRedirectUris ==> r@ == "client metadata redirect_uris is empty"@,
            *self == ProxyError::InvalidAuthorizationEndpoint ==> r@ == "invalid authorization endpoint"@,
            *self == ProxyError::InvalidRedirectUri ==> r@ == "invalid redirect_uri"@,
    {
        match self {
            ProxyError::MissingRedirectUris => "redirect_uris is required".to_owned(),
            ProxyError::UnknownClient => "unknown client_id".to_owned(),
            ProxyError::RedirectUriNotRegistered => "redirect_uri is not registered".to_owned(),
            ProxyError::UnsupportedResponseType => "unsupported response_type".to_owned(),
            ProxyError::StateNotFound => "state not found".to_owned(),
            ProxyError::InvalidClientSecret => "invalid client_secret".to_owned(),
            ProxyError::InvalidCode => "invalid or expired code".to_owned(),
            ProxyError::CodeExpired => "authorization code expired".to_owned(),
            ProxyError::RedirectUriMismatch => "redirect_uri mismatch".to_owned(),
            ProxyError::AuthMethodNotNone => "client metadata must declare token_endpoint_auth_method none".to_owned(),
            ProxyError::MetadataUnavailable => "client metadata document unavailable".to_owned(),
            ProxyError::MetadataNotHttps => "client_id metadata document must use https".to_owned(),
            ProxyError::MetadataClientIdMismatch => "client metadata client_id does not match".to_owned(),
            ProxyError::MetadataMissingRedirectUris => "client metadata redirect_uris is empty".to_owned(),
            ProxyError::InvalidAuthorizationEndpoint => "invalid authorization endpoint".to_owned(),
            ProxyError::InvalidRedirectUri => "invalid redirect_uri".to_owned(),
        }
    }
}

/// A client registered through dynamic client registration.
#[derive(Debug)]
pub struct RegisteredClient {
    pub client_id: String,
    pub client_secret: String,
    pub redirect_uris: Vec<String>,
    pub scope: String,
}

/// A client ID metadata document, as fetched from `{client_id}/.well-known/oauth-client`.
#[derive(Debug)]
pub struct ClientMetadata {
    pub client_id: String,
    pub redirect_uris: Vec<String>,
    pub token_endpoint_auth_method: Option<String>,
    pub client_name: Option<String>,
    pub scope: Option<String>,
}

/// A validated metadata document and the time its cache entry lapses.
#[derive(Debug)]
pub struct CachedMetadata {
    pub metadata: ClientMetadata,
    pub expires_at: i64,
}

/// A downstream authorize request waiting for Google's callback.
#[derive(Debug)]
pub struct AuthorizationRequest {
    pub client_id: String,
    pub redirect_uri: String,
    pub original_state: Option<String>,
    pub code_challenge: Option<String>,
    pub code_challenge_method: Option<String>,
    pub scope: String,
}

/// A proxy authorization code: it carries Google's code until the client exchanges it.
#[derive(Debug)]
pub struct AuthorizationCodeGrant {
    pub client_id: String,
    pub google_code: String,
    pub redirect_uri: String,
    pub scope: String,
    pub created_at: i64,
}

#[derive(Debug)]
pub struct CallbackResult {
    pub proxy_code: String,
    pub redirect_uri: String,
    pub original_state: Option<String>,
}

#[derive(Debug)]
pub struct ClientRegistrationRequest {
    pub redirect_uris: Vec<String>,
    pub scope: Option<String>,
    pub client_name: Option<String>,
    pub token_endpoint_auth_method: Option<String>,
}

#[derive(Debug)]
pub struct ClientRegistrationResponse {
    pub client_id: String,
    pub client_secret: String,
    pub client_id_issued_at: u64,
    pub client_secret_expires_at: u64,
    pub redirect_uris: Vec<String>,
    pub token_endpoint_auth_method: String,
}

#[derive(Debug)]
pub struct AuthorizationParams {
    pub response_type: String,
    pub client_id: String,
    pub redirect_uri: String,
    pub scope: Option<String>,
    pub state: Option<String>,
    pub code_challenge: Option<String>,
    pub code_challenge_method: Option<String>,
    pub resource: Option<String>,
}

#[derive(Debug)]
pub struct TokenRequest {
    pub grant_type: String,
    pub code: String,
    pub redirect_uri: String,
    pub client_id: String,
    pub client_secret: Option<String>,
    pub code_verifier: Option<String>,
    pub resource: Option<String>,
}

/// The form that the proxy posts to Google's token endpoint.
#[derive(Debug)]
pub struct UpstreamTokenRequest {
    pub token_url: String,
    pub form: Vec<(String, String)>,
}

pub struct ProxyState {
    pub enabled: bool,
    pub public_url: String,
    pub registration_endpoint: String,
    pub authorization_endpoint: String,
    pub token_endpoint: String,
    pub protected_resource_metadata: String,
    pub openid_configuration: String,
    pub redirect_uri: String,
    pub google_client_id: String,
    pub google_client_secret: String,
    pub google_auth_url: String,
    pub google_token_url: String,
    pub clients: KeyedTable<RegisteredClient>,
    pub auth_states: KeyedTable<AuthorizationRequest>,
    pub codes: KeyedTable<AuthorizationCodeGrant>,
    pub metadata_cache: KeyedTable<CachedMetadata>,
}

/// Scope that registered clients get when they ask for none.
pub open spec fn default_client_scope() -> Seq<char> {
    "https://www.googleapis.com/auth/calendar"@
}

/// Scope sent to Google when the authorize request names none.
pub open spec fn default_upstream_scope() -> Seq<char> {
    "https://www.googleapis.com/auth/calendar.events"@
}

/// A client id that is the URL of a metadata document.
pub open spec fn is_url_client_id(id: Seq<char>) -> bool {
    "https://"@.len() <= id.len() && id.subrange(0, "https://"@.len() as int) == "https://"@
}

pub open spec fn document_url(id: Seq<char>) -> Seq<char> {
    id + "/.well-known/oauth-client"@
}

/// Whether the cache holds a document for `id` that has not lapsed at `now`.
pub open spec fn cached_document(cache: Map<Seq<char>, CachedMetadata>, id: Seq<char>, now: i64) -> bool {
    cache.contains_key(id) && cache[id].expires_at > now
}

impl ProxyState {
    pub open spec fn wf(&self) -> bool {
        &&& self.clients.wf()
        &&& self.auth_states.wf()
        &&& self.codes.wf()
        &&& self.metadata_cache.wf()
    }

    pub open spec fn clients_view(&self) -> Map<Seq<char>, RegisteredClient> {
        self.clients@
    }

    pub open spec fn auth_states_view(&self) -> Map<Seq<char>, AuthorizationRequest> {
        self.auth_states@
    }

    pub open spec fn codes_view(&self) -> Map<Seq<char>, AuthorizationCodeGrant> {
        self.codes@
    }

    pub open spec fn cache_view(&self) -> Map<Seq<char>, CachedMetadata> {
        self.metadata_cache@
    }

    /// Nothing registered, pending, issued or cached.
    pub open spec fn is_empty(&self) -> bool {
        &&& self.clients_view() == Map::<Seq<char>, RegisteredClient>::empty()
        &&& self.auth_states_view() == Map::<Seq<char>, AuthorizationRequest>::empty()
        &&& self.codes_view() == Map::<Seq<char>, AuthorizationCodeGrant>::empty()
        &&& self.cache_view() == Map::<Seq<char>, CachedMetadata>::empty()
    }

    pub fn new(config: &AppConfig) -> (r: ProxyState)
        ensures
            r.wf(),
            r.is_empty(),
            r.enabled == config.proxy.enabled,
            !config.proxy.enabled ==> r.public_url@.len() == 0 && r.redirect_uri@.len() == 0,
            config.proxy.enabled ==> {
                let base = without_trailing_slashes(config.server.public_url@);
                &&& r.public_url@ == base
                &&& r.redirect_uri@ == base + match config.proxy.redirect_path {
                    Some(p) => p@,
                    None => "/proxy/oauth/callback"@,
                }
                &&& r.registration_endpoint@ == base + "/proxy/oauth/register"@
                &&& r.authorization_endpoint@ == base + "/proxy/oauth/authorize"@
                &&& r.token_endpoint@ == base + "/proxy/oauth/token"@
                &&& r.protected_resource_metadata@ == base + "/.well-known/oauth-protected-resource"@
                &&& r.openid_configuration@ == base + "/.well-known/openid-configuration"@
                &&& r.google_client_id == config.oauth.client_id
                &&& r.google_client_secret == config.oauth.client_secret
                &&& r.google_auth_url == config.oauth.auth_url
                &&& r.google_token_url == config.oauth.token_url
            },
    {
        if !config.proxy.enabled {
            return Self::disabled();
        }
        let public_url = trim_trailing_slashes(config.server.public_url.as_str());
        let redirect_uri = match &config.proxy.redirect_path {
            Some(p) => concat(public_url.as_str(), p.as_str()),
            None => concat(public_url.as_str(), "/proxy/oauth/callback"),
        };
        let registration_endpoint = concat(public_url.as_str(), "/proxy/oauth/register");
        let authorization_endpoint = concat(public_url.as_str(), "/proxy/oauth/authorize");
        let token_endpoint = concat(public_url.as_str(), "/proxy/oauth/token");
        let protected_resource_metadata = concat(public_url.as_str(), "/.well-known/oauth-protected-resource");
        let openid_configuration = concat(public_url.as_str(), "/.well-known/openid-configuration");
        ProxyState {
            enabled: true,
            public_url,
            registration_endpoint,
            authorization_endpoint,
            token_endpoint,
            protected_resource_metadata,
            openid_configuration,
            redirect_uri,
            google_client_id: config.oauth.client_id.clone(),
            google_client_secret: config.oauth.client_secret.clone(),
            google_auth_url: config.oauth.auth_url.clone(),
            google_token_url: config.oauth.token_url.clone(),
            clients: KeyedTable::new(),
            auth_states: KeyedTable::new(),
            codes: KeyedTable::new(),
            metadata_cache: KeyedTable::new(),
        }
    }

    pub fn disabled() -> (r: ProxyState)
        ensures
            r.wf(),
            r.is_empty(),
            !r.enabled,
            r.public_url@.len() == 0,
            r.redirect_uri@.len() == 0,
    {
        ProxyState {
            enabled: false,
            public_url: String::new(),
            registration_endpoint: String::new(),
            authorization_endpoint: String::new(),
            token_endpoint: String::new(),
            protected_resource_metadata: String::new(),
            openid_configuration: String::new(),
            redirect_uri: String::new(),
            google_client_id: String::new(),
            google_client_secret: String::new(),
            google_auth_url: String::new(),
            google_token_url: String::new(),
            clients: KeyedTable::new(),
            auth_states: KeyedTable::new(),
            codes: KeyedTable::new(),
            metadata_cache: KeyedTable::new(),
        }
    }

    pub fn is_enabled(&self) -> (r: bool)
        ensures
            r == self.enabled,
    {
        self.enabled
    }

    /// Authorization-server metadata of the proxy: it is its own issuer and accepts
    /// client ID metadata documents.
    pub fn metadata(&self) -> (r: AuthorizationServerMetadata)
        ensures
            r.issuer == self.public_url,
            r.authorization_endpoint == self.authorization_endpoint,
            r.token_endpoint == self.token_endpoint,
            r.registration_endpoint == self.registration_endpoint,
            only(r.scopes_supported, default_client_scope()),
            advertises_capabilities(
                r.response_types_supported,
                r.grant_types_supported,
                r.code_challenge_methods_supported,
                r.token_endpoint_auth_methods_supported,
                r.subject_types_supported,
                r.id_token_signing_alg_values_supported,
            ),
            r.client_id_metadata_document_supported,
    {
        AuthorizationServerMetadata {
            issuer: self.public_url.clone(),
            authorization_endpoint: self.authorization_endpoint.clone(),
            token_endpoint: self.token_endpoint.clone(),
            registration_endpoint: self.registration_endpoint.clone(),
            response_types_supported: single("code"),
            grant_types_supported: single("authorization_code"),
            code_challenge_methods_supported: single("S256"),
            scopes_supported: single("https://www.googleapis.com/auth/calendar"),
            token_endpoint_auth_methods_supported: single("client_secret_post"),
            subject_types_supported: single("public"),
            id_token_signing_alg_values_supported: single("RS256"),
            client_id_metadata_document_supported: true,
        }
    }

    pub fn protected_resource_metadata(&self, resource: String) -> (r: ProtectedResourceMetadata)
        ensures
            r.resource == resource,
            only(r.authorization_servers, self.public_url@),
            only(r.scopes_supported, default_client_scope()),
    {
        ProtectedResourceMetadata {
            resource,
            authorization_servers: single(self.public_url.as_str()),
            scopes_supported: single("https://www.googleapis.com/auth/calendar"),
        }
    }

    /// Protected-resource metadata for the resource at the public URL, or below it at
    /// `rest`.
    pub fn protected_resource_metadata_for(&self, rest: &Option<String>) -> (r: ProtectedResourceMetadata)
        ensures
            r.resource@ == match rest {
                Some(p) => self.public_url@ + "/"@ + p@,
                None => self.public_url@,
            },
            only(r.authorization_servers, self.public_url@),
            only(r.scopes_supported, default_client_scope()),
    {
        let resource = match rest {
            Some(p) => {
                let with_slash = concat(self.public_url.as_str(), "/");
                concat(with_slash.as_str(), p.as_str())
            },
            None => self.public_url.clone(),
        };
        self.protected_resource_metadata(resource)
    }

    pub fn openid_configuration(&self) -> (r: OpenIdConfiguration)
        ensures
            r.issuer == self.public_url,
            r.jwks_uri@ == self.public_url@ + "/.well-known/jwks.json"@,
            r.authorization_endpoint == self.authorization_endpoint,
            r.token_endpoint == self.token_endpoint,
            only(r.scopes_supported, default_client_scope()),
            advertises_capabilities(
                r.response_types_supported,
                r.grant_types_supported,
                r.code_challenge_methods_supported,
                r.token_endpoint_auth_methods_supported,
                r.subject_types_supported,
                r.id_token_signing_alg_values_supported,
            ),
    {
        OpenIdConfiguration {
            issuer: self.public_url.clone(),
            authorization_endpoint: self.authorization_endpoint.clone(),
            token_endpoint: self.token_endpoint.clone(),
            jwks_uri: concat(self.public_url.as_str(), "/.well-known/jwks.json"),
            response_types_supported: single("code"),
            grant_types_supported: single("authorization_code"),
            code_challenge_methods_supported: single("S256"),
            scopes_supported: single("https://www.googleapis.com/auth/calendar"),
            token_endpoint_auth_methods_supported: single("client_secret_post"),
            subject_types_supported: single("public"),
            id_token_signing_alg_values_supported: single("RS256"),
        }
    }
}

} // verus!

verus! {

/// The settings of two states agree.
pub open spec fn same_settings(a: ProxyState, b: ProxyState) -> bool {
    &&& a.enabled == b.enabled
    &&& a.public_url == b.public_url
    &&& a.registration_endpoint == b.registration_endpoint
    &&& a.authorization_endpoint == b.authorization_endpoint
    &&& a.token_endpoint == b.token_endpoint
    &&& a.protected_resource_metadata == b.protected_resource_metadata
    &&& a.openid_configuration == b.openid_configuration
    &&& a.redirect_uri == b.redirect_uri
    &&& a.google_client_id == b.google_client_id
    &&& a.google_client_secret == b.google_client_secret
    &&& a.google_auth_url == b.google_auth_url
    &&& a.google_token_url == b.google_token_url
}

pub open spec fn opt_pair(k: Seq<char>, v: Option<Seq<char>>) -> Seq<(Seq<char>, Seq<char>)> {
    match v {
        Some(x) => seq![(k, x)],
        None => Seq::empty(),
    }
}

fn push_pair(pairs: &mut Vec<(String, String)>, k: &str, v: &str)
    ensures
        pairs_view(final(pairs)@) == pairs_view(old(pairs)@) + seq![(k@, v@)],
{
    pairs.push((k.to_owned(), v.to_owned()));
    assert(pairs_view(pairs@) =~= pairs_view(old(pairs)@) + seq![(k@, v@)]);
}

fn push_opt(pairs: &mut Vec<(String, String)>, k: &str, v: &Option<String>)
    ensures
        pairs_view(final(pairs)@) == pairs_view(old(pairs)@) + opt_pair(k@, opt_view(*v)),
{
    match v {
        Some(x) => push_pair(pairs, k, x.as_str()),
        None => {
            assert(pairs_view(pairs@) =~= pairs_view(old(pairs)@) + opt_pair(k@, opt_view(*v)));
        },
    }
}

/// The redirect URIs and default scope of a client, or why it cannot be used.
pub open spec fn client_profile(s: ProxyState, id: Seq<char>, now: i64) -> Result<(Seq<String>, Seq<char>), ProxyError> {
    if is_url_client_id(id) {
        if cached_document(s.cache_view(), id, now) {
            let m = s.cache_view()[id].metadata;
            Ok(
                (
                    m.redirect_uris@,
                    match m.scope {
                        Some(sc) => sc@,
                        None => default_upstream_scope(),
                    },
                ),
            )
        } else {
            Err(ProxyError::MetadataUnavailable)
        }
    } else if s.clients_view().contains_key(id) {
        Ok((s.clients_view()[id].redirect_uris@, s.clients_view()[id].scope@))
    } else {
        Err(ProxyError::UnknownClient)
    }
}

/// Whether an authorize request is accepted, and the scope it is recorded with.
pub open spec fn authorize_verdict(s: ProxyState, p: AuthorizationParams, now: i64) -> Result<Seq<char>, ProxyError> {
    if p.response_type@ != "code"@ {
        Err(ProxyError::UnsupportedResponseType)
    } else {
        match client_profile(s, p.client_id@, now) {
            Err(e) => Err(e),
            Ok((uris, scope)) => if !lists(uris, p.redirect_uri@) {
                Err(ProxyError::RedirectUriNotRegistered)
            } else {
                Ok(
                    match p.scope {
                        Some(sc) => sc@,
                        None => scope,
                    },
                )
            },
        }
    }
}

/// The scope asked of Google: the request's own, else the calendar-events scope.
pub open spec fn upstream_scope(p: AuthorizationParams) -> Seq<char> {
    match p.scope {
        Some(sc) => sc@,
        None => default_upstream_scope(),
    }
}

/// Query of the authorize URL sent to Google: the bridge's own client and redirect,
/// the proxy state, and the client's resource and PKCE parameters verbatim.
pub open spec fn upstream_authorize_pairs(s: ProxyState, p: AuthorizationParams, proxy_state: Seq<char>) -> Seq<
    (Seq<char>, Seq<char>),
> {
    seq![
        ("response_type"@, "code"@),
        ("client_id"@, s.google_client_id@),
        ("redirect_uri"@, s.redirect_uri@),
        ("scope"@, upstream_scope(p)),
        ("state"@, proxy_state),
        ("prompt"@, "select_account"@),
    ] + opt_pair("resource"@, opt_view(p.resource)) + opt_pair("code_challenge"@, opt_view(p.code_challenge))
        + opt_pair("code_challenge_method"@, opt_view(p.code_challenge_method))
}

/// Whether a token request's client is accepted: a registered client by its secret, a
/// metadata-document client only when its document declares no client authentication.
pub open spec fn client_verdict(s: ProxyState, form: TokenRequest, now: i64) -> Result<(), ProxyError> {
    let id = form.client_id@;
    if is_url_client_id(id) {
        if cached_document(s.cache_view(), id, now) {
            if opt_view(s.cache_view()[id].metadata.token_endpoint_auth_method) == Some("none"@) {
                Ok(())
            } else {
                Err(ProxyError::AuthMethodNotNone)
            }
        } else {
            Err(ProxyError::MetadataUnavailable)
        }
    } else if s.clients_view().contains_key(id) {
        if opt_view(form.client_secret) == Some(s.clients_view()[id].client_secret@) {
            Ok(())
        } else {
            Err(ProxyError::InvalidClientSecret)
        }
    } else {
        Err(ProxyError::UnknownClient)
    }
}

/// A code is expired once more than the code lifetime passed since it was issued.
pub open spec fn code_expired(g: AuthorizationCodeGrant, now: int) -> bool {
    g.created_at + CODE_EXPIRATION_SECS < now
}

/// The form posted to Google for a code exchange, with the bridge's own credentials.
pub open spec fn upstream_form(s: ProxyState, g: AuthorizationCodeGrant, form: TokenRequest) -> Seq<(Seq<char>, Seq<char>)> {
    seq![
        ("grant_type"@, "authorization_code"@),
        ("code"@, g.google_code@),
        ("redirect_uri"@, s.redirect_uri@),
        ("client_id"@, s.google_client_id@),
        ("client_secret"@, s.google_client_secret@),
    ] + opt_pair("code_verifier"@, opt_view(form.code_verifier)) + opt_pair("resource"@, opt_view(form.resource))
}

/// The effect of a token exchange, from state `s0` to result `r` and state `s1`.
pub open spec fn exchange_post(
    s0: ProxyState,
    form: TokenRequest,
    now: i64,
    r: Result<UpstreamTokenRequest, ProxyError>,
    s1: ProxyState,
) -> bool {
    &&& same_settings(s0, s1)
    &&& s1.clients_view() == s0.clients_view()
    &&& s1.auth_states_view() == s0.auth_states_view()
    &&& s1.cache_view() == s0.cache_view()
    &&& match client_verdict(s0, form, now) {
        Err(e) => r == Err::<UpstreamTokenRequest, _>(e) && s1.codes_view() == s0.codes_view(),
        Ok(_) => if !s0.codes_view().contains_key(form.code@) {
            r == Err::<UpstreamTokenRequest, _>(ProxyError::InvalidCode) && s1.codes_view() == s0.codes_view()
        } else {
            let g = s0.codes_view()[form.code@];
            &&& s1.codes_view() == s0.codes_view().remove(form.code@)
            &&& if code_expired(g, now as int) {
                r == Err::<UpstreamTokenRequest, _>(ProxyError::CodeExpired)
            } else if g.redirect_uri@ != form.redirect_uri@ {
                r == Err::<UpstreamTokenRequest, _>(ProxyError::RedirectUriMismatch)
            } else {
                &&& r matches Ok(req)
                &&& req.token_url == s0.google_token_url
                &&& pairs_view(req.form@) == upstream_form(s0, g, form)
            }
        },
    }
}

/// Expiry of a metadata cache entry stored at `now`.
pub open spec fn cache_expiry(now: i64) -> i64 {
    if now <= i64::MAX - METADATA_CACHE_SECS {
        (now + METADATA_CACHE_SECS) as i64
    } else {
        i64::MAX
    }
}

/// Whether a fetched document may stand for the requested client id.
pub open spec fn document_verdict(requested: Seq<char>, doc: ClientMetadata) -> Result<(), ProxyError> {
    if !is_url_client_id(requested) {
        Err(ProxyError::MetadataNotHttps)
    } else if doc.client_id@ != requested {
        Err(ProxyError::MetadataClientIdMismatch)
    } else if doc.redirect_uris@.len() == 0 {
        Err(ProxyError::MetadataMissingRedirectUris)
    } else {
        Ok(())
    }
}

/// The effect of registering a client under `client_id` and `client_secret`, issued at
/// `issued_at`, from state `s0` to result `r` and state `s1`.
pub open spec fn register_post(s0: ProxyState, request: ClientRegistrationRequest, client_id: String, client_secret: String, issued_at: u64, r: Result<ClientRegistrationResponse, ProxyError>, s1: ProxyState) -> bool {
    &&& same_settings(s0, s1)
    &&& s1.auth_states_view() == s0.auth_states_view()
    &&& s1.codes_view() == s0.codes_view()
    &&& s1.cache_view() == s0.cache_view()
    &&& request.redirect_uris@.len() == 0 ==> r == Err::<ClientRegistrationResponse, _>(ProxyError::MissingRedirectUris)
        && s1.clients_view() == s0.clients_view()
    &&& request.redirect_uris@.len() > 0 ==> {
            &&& r matches Ok(resp)
            &&& resp.client_id == client_id
            &&& resp.client_secret == client_secret
            &&& resp.client_id_issued_at == issued_at
            &&& resp.client_secret_expires_at == 0
            &&& resp.redirect_uris@ == request.redirect_uris@
            &&& resp.token_endpoint_auth_method@ == match request.token_endpoint_auth_method {
                Some(m) => m@,
                None => "client_secret_post"@,
            }
            &&& s1.clients_view() == s0.clients_view().insert(
                client_id@,
                s1.clients_view()[client_id@],
            )
            &&& s1.clients_view()[client_id@].client_id == client_id
            &&& s1.clients_view()[client_id@].client_secret == client_secret
            &&& s1.clients_view()[client_id@].redirect_uris@ == request.redirect_uris@
            &&& s1.clients_view()[client_id@].scope@ == match request.scope {
                Some(sc) => sc@,
                None => default_client_scope(),
            }
        }
}

/// The effect of an authorize request under the proxy state `proxy_state` at `now`,
/// from state `s0` to result `r` and state `s1`.
pub open spec fn start_post(s0: ProxyState, params: AuthorizationParams, proxy_state: String, now: i64, r: Result<String, ProxyError>, s1: ProxyState) -> bool {
    &&& same_settings(s0, s1)
    &&& s1.clients_view() == s0.clients_view()
    &&& s1.codes_view() == s0.codes_view()
    &&& s1.cache_view() == s0.cache_view()
    &&& match authorize_verdict(s0, params, now) {
            Err(e) => r == Err::<String, _>(e) && s1.auth_states_view() == s0.auth_states_view(),
            Ok(scope) => if parses_as_url(s0.google_auth_url@) {
                let req = s1.auth_states_view()[proxy_state@];
                &&& r matches Ok(url)
                &&& url@ == url_with_query(
                    s0.google_auth_url@,
                    upstream_authorize_pairs(s0, params, proxy_state@),
                )
                &&& s1.auth_states_view() == s0.auth_states_view().insert(proxy_state@, req)
                &&& req.client_id == params.client_id
                &&& req.redirect_uri == params.redirect_uri
                &&& req.original_state == params.state
                &&& req.code_challenge == params.code_challenge
                &&& req.code_challenge_method == params.code_challenge_method
                &&& req.scope@ == scope
            } else {
                r == Err::<String, _>(ProxyError::InvalidAuthorizationEndpoint)
                    && s1.auth_states_view() == s0.auth_states_view()
            },
        }
}

impl ProxyState {
    /// Registers a client under the given id and secret, minted by the caller.
    pub fn register_client_with(
        &mut self,
        request: ClientRegistrationRequest,
        client_id: String,
        client_secret: String,
        issued_at: u64,
    ) -> (r: Result<ClientRegistrationResponse, ProxyError>)
        requires
            old(self).wf(),
        ensures
            final(self).wf(),
            register_post(*old(self), request, client_id, client_secret, issued_at, r, *final(self)),

    {
        if request.redirect_uris.len() == 0 {
            return Err(ProxyError::MissingRedirectUris);
        }
        let scope = match &request.scope {
            Some(sc) => sc.clone(),
            None => "https://www.googleapis.com/auth/calendar".to_owned(),
        };
        let record = RegisteredClient {
            client_id: client_id.clone(),
            client_secret: client_secret.clone(),
            redirect_uris: copy_strings(&request.redirect_uris),
            scope,
        };
        self.clients.insert(client_id.clone(), record);
        let method = match request.token_endpoint_auth_method {
            Some(m) => m,
            None => "client_secret_post".to_owned(),
        };
        Ok(ClientRegistrationResponse {
            client_id,
            client_secret,
            client_id_issued_at: issued_at,
            client_secret_expires_at: 0,
            redirect_uris: request.redirect_uris,
            token_endpoint_auth_method: method,
        })
    }

    /// Dynamic client registration: mints a UUID client id and a 32-character
    /// alphanumeric secret, issued now.
    pub fn register_client(&mut self, request: ClientRegistrationRequest) -> (r: Result<
        ClientRegistrationResponse,
        ProxyError,
    >)
        requires
            old(self).wf(),
        ensures
            final(self).wf(),
            exists|client_id: String, client_secret: String, issued_at: u64|
                {
                    &&& client_id@.len() == 36
                    &&& client_secret@.len() == CLIENT_SECRET_LEN
                    &&& forall|i: int|
                        0 <= i < client_secret@.len() ==> is_ascii_alphanumeric(#[trigger] client_secret@[i])
                    &&& #[trigger] register_post(*old(self), request, client_id, client_secret, issued_at, r, *final(self))
                },
            request.redirect_uris@.len() == 0 ==> r == Err::<ClientRegistrationResponse, _>(ProxyError::MissingRedirectUris)
                && final(self).clients_view() == old(self).clients_view(),
            request.redirect_uris@.len() > 0 ==> r is Ok,
            r matches Ok(resp) ==> {
                &&& resp.client_id@.len() == 36
                &&& resp.client_secret@.len() == CLIENT_SECRET_LEN
                &&& forall|i: int| 0 <= i < resp.client_secret@.len() ==> is_ascii_alphanumeric(#[trigger] resp.client_secret@[i])
                &&& resp.client_secret_expires_at == 0
                &&& resp.redirect_uris@ == request.redirect_uris@
                &&& final(self).clients_view() == old(self).clients_view().insert(
                    resp.client_id@,
                    final(self).clients_view()[resp.client_id@],
                )
                &&& final(self).clients_view()[resp.client_id@].client_secret == resp.client_secret
            },
    {
        let client_id = new_uuid();
        let client_secret = random_alphanumeric(CLIENT_SECRET_LEN);
        let now = unix_now();
        let issued_at: u64 = if now < 0 {
            0
        } else {
            now as u64
        };
        let ghost req = request;
        let ghost (id, secret) = (client_id, client_secret);
        let r = self.register_client_with(request, client_id, client_secret, issued_at);
        assert(register_post(*old(self), req, id, secret, issued_at, r, *self));
        r
    }

    /// The URL of the metadata document to fetch for `client_id`, when it is a URL and
    /// no live cached document stands for it.
    pub fn metadata_document_needed(&self, client_id: &str, now: i64) -> (r: Option<String>)
        requires
            self.wf(),
        ensures
            r is Some <==> is_url_client_id(client_id@) && !cached_document(self.cache_view(), client_id@, now),
            r matches Some(u) ==> u@ == document_url(client_id@),
    {
        if !starts_with(client_id, "https://") {
            return None;
        }
        match self.metadata_cache.get(client_id) {
            Some(c) => if c.expires_at > now {
                return None;
            },
            None => {},
        }
        Some(concat(client_id, "/.well-known/oauth-client"))
    }

    /// Validates a fetched metadata document for `requested` and caches it for a day.
    pub fn cache_client_metadata(&mut self, requested: &str, doc: ClientMetadata, now: i64) -> (r: Result<(), ProxyError>)
        requires
            old(self).wf(),
        ensures
            final(self).wf(),
            same_settings(*old(self), *final(self)),
            final(self).clients_view() == old(self).clients_view(),
            final(self).auth_states_view() == old(self).auth_states_view(),
            final(self).codes_view() == old(self).codes_view(),
            r == document_verdict(requested@, doc),
            r is Ok ==> final(self).cache_view() == old(self).cache_view().insert(
                requested@,
                CachedMetadata { metadata: doc, expires_at: cache_expiry(now) },
            ),
            r is Err ==> final(self).cache_view() == old(self).cache_view(),
    {
        if !starts_with(requested, "https://") {
            return Err(ProxyError::MetadataNotHttps);
        }
        if !crate::text::same_text(doc.client_id.as_str(), requested) {
            return Err(ProxyError::MetadataClientIdMismatch);
        }
        if doc.redirect_uris.len() == 0 {
            return Err(ProxyError::MetadataMissingRedirectUris);
        }
        let expires_at = if now <= i64::MAX - METADATA_CACHE_SECS {
            now + METADATA_CACHE_SECS
        } else {
            i64::MAX
        };
        self.metadata_cache.insert(requested.to_owned(), CachedMetadata { metadata: doc, expires_at });
        Ok(())
    }

    fn profile(&self, client_id: &str, now: i64) -> (r: Result<(&Vec<String>, String), ProxyError>)
        requires
            self.wf(),
        ensures
            match client_profile(*self, client_id@, now) {
                Err(e) => r == Err::<(&Vec<String>, String), _>(e),
                Ok((uris, scope)) => r matches Ok(p) && p.0@ == uris && p.1@ == scope,
            },
    {
        if starts_with(client_id, "https://") {
            match self.metadata_cache.get(client_id) {
                Some(c) => {
                    if c.expires_at > now {
                        let scope = match &c.metadata.scope {
                            Some(sc) => sc.clone(),
                            None => "https://www.googleapis.com/auth/calendar.events".to_owned(),
                        };
                        Ok((&c.metadata.redirect_uris, scope))
                    } else {
                        Err(ProxyError::MetadataUnavailable)
                    }
                },
                None => Err(ProxyError::MetadataUnavailable),
            }
        } else {
            match self.clients.get(client_id) {
                Some(c) => Ok((&c.redirect_uris, c.scope.clone())),
                None => Err(ProxyError::UnknownClient),
            }
        }
    }

    /// The scope asked of Google for an authorize request.
    pub fn merge_scopes(params: &AuthorizationParams) -> (r: String)
        ensures
            r@ == upstream_scope(*params),
    {
        match &params.scope {
            Some(sc) => sc.clone(),
            None => "https://www.googleapis.com/auth/calendar.events".to_owned(),
        }
    }

    /// Accepts a downstream authorize request under the given proxy state and returns
    /// the Google authorize URL to redirect to.
    pub fn start_authorization_with(&mut self, params: &AuthorizationParams, proxy_state: String, now: i64) -> (r:
        Result<String, ProxyError>)
        requires
            old(self).wf(),
        ensures
            final(self).wf(),
            start_post(*old(self), *params, proxy_state, now, r, *final(self)),

    {
        if !crate::text::same_text(params.response_type.as_str(), "code") {
            return Err(ProxyError::UnsupportedResponseType);
        }
        let scope = match self.profile(params.client_id.as_str(), now) {
            Err(e) => return Err(e),
            Ok((uris, client_scope)) => {
                if !contains_text(uris, params.redirect_uri.as_str()) {
                    return Err(ProxyError::RedirectUriNotRegistered);
                }
                match &params.scope {
                    Some(sc) => sc.clone(),
                    None => client_scope,
                }
            },
        };
        let mut pairs: Vec<(String, String)> = Vec::new();
        push_pair(&mut pairs, "response_type", "code");
        push_pair(&mut pairs, "client_id", self.google_client_id.as_str());
        push_pair(&mut pairs, "redirect_uri", self.redirect_uri.as_str());
        let upstream = Self::merge_scopes(params);
        push_pair(&mut pairs, "scope", upstream.as_str());
        push_pair(&mut pairs, "state", proxy_state.as_str());
        push_pair(&mut pairs, "prompt", "select_account");
        push_opt(&mut pairs, "resource", &params.resource);
        push_opt(&mut pairs, "code_challenge", &params.code_challenge);
        push_opt(&mut pairs, "code_challenge_method", &params.code_challenge_method);
        assert(pairs_view(pairs@) =~= upstream_authorize_pairs(*old(self), *params, proxy_state@));
        let url = match append_query(self.google_auth_url.as_str(), &pairs) {
            Some(u) => u,
            None => return Err(ProxyError::InvalidAuthorizationEndpoint),
        };
        let request = AuthorizationRequest {
            client_id: params.client_id.clone(),
            redirect_uri: params.redirect_uri.clone(),
            original_state: copy_opt(&params.state),
            code_challenge: copy_opt(&params.code_challenge),
            code_challenge_method: copy_opt(&params.code_challenge_method),
            scope,
        };
        self.auth_states.insert(proxy_state, request);
        Ok(url)
    }

    /// Accepts a downstream authorize request under a fresh UUID proxy state.
    pub fn start_authorization(&mut self, params: &AuthorizationParams) -> (r: Result<String, ProxyError>)
        requires
            old(self).wf(),
        ensures
            final(self).wf(),
            exists|proxy_state: String, now: i64|
                proxy_state@.len() == 36 && #[trigger] start_post(*old(self), *params, proxy_state, now, r, *final(self)),
            params.response_type@ != "code"@ ==> r == Err::<String, _>(ProxyError::UnsupportedResponseType),
            !is_url_client_id(params.client_id@) ==> match authorize_verdict(*old(self), *params, 0) {
                Err(e) => r == Err::<String, _>(e) && final(self).auth_states_view() == old(self).auth_states_view(),
                Ok(_) => parses_as_url(old(self).google_auth_url@) ==> r is Ok,
            },
    {
        let proxy_state = new_uuid();
        let ghost ps = proxy_state;
        let now = unix_now();
        let r = self.start_authorization_with(params, proxy_state, now);
        assert(start_post(*old(self), *params, ps, now, r, *self));
        assert(!is_url_client_id(params.client_id@) ==> authorize_verdict(*old(self), *params, 0) == authorize_verdict(
            *old(self),
            *params,
            now,
        ));
        r
    }
}

} // verus!

verus! {

/// Query appended to the client's redirect URI after a callback.
pub open spec fn callback_pairs(result: CallbackResult) -> Seq<(Seq<char>, Seq<char>)> {
    seq![("code"@, result.proxy_code@)] + opt_pair("state"@, opt_view(result.original_state))
}

/// Where the client is sent after Google's callback: its redirect URI with the proxy
/// code and its original state.
pub fn callback_redirect(result: &CallbackResult) -> (r: Result<String, ProxyError>)
    ensures
        match r {
            Ok(u) => parses_as_url(result.redirect_uri@) && u@ == url_with_query(result.redirect_uri@, callback_pairs(*result)),
            Err(e) => !parses_as_url(result.redirect_uri@) && e == ProxyError::InvalidRedirectUri,
        },
{
    let mut pairs: Vec<(String, String)> = Vec::new();
    push_pair(&mut pairs, "code", result.proxy_code.as_str());
    push_opt(&mut pairs, "state", &result.original_state);
    assert(pairs_view(pairs@) =~= callback_pairs(*result));
    match append_query(result.redirect_uri.as_str(), &pairs) {
        Some(u) => Ok(u),
        None => Err(ProxyError::InvalidRedirectUri),
    }
}

/// The effect of Google's callback for `state` with `code`, issuing `proxy_code` at
/// `now`, from state `s0` to result `r` and state `s1`.
pub open spec fn callback_post(s0: ProxyState, state: Seq<char>, code: Seq<char>, proxy_code: String, now: i64, r: Result<CallbackResult, ProxyError>, s1: ProxyState) -> bool {
    &&& same_settings(s0, s1)
    &&& s1.clients_view() == s0.clients_view()
    &&& s1.cache_view() == s0.cache_view()
    &&& !s0.auth_states_view().contains_key(state) ==> {
            &&& r == Err::<CallbackResult, _>(ProxyError::StateNotFound)
            &&& s1.auth_states_view() == s0.auth_states_view()
            &&& s1.codes_view() == s0.codes_view()
        }
    &&& s0.auth_states_view().contains_key(state) ==> {
            let req = s0.auth_states_view()[state];
            let g = s1.codes_view()[proxy_code@];
            &&& s1.auth_states_view() == s0.auth_states_view().remove(state)
            &&& s1.codes_view() == s0.codes_view().insert(proxy_code@, g)
            &&& g.client_id == req.client_id
            &&& g.google_code@ == code
            &&& g.redirect_uri == req.redirect_uri
            &&& g.scope == req.scope
            &&& g.created_at == now
            &&& r matches Ok(res)
            &&& res.proxy_code == proxy_code
            &&& res.redirect_uri == req.redirect_uri
            &&& res.original_state == req.original_state
        }
}

impl ProxyState {
    /// Consumes the pending request of `state` and issues `proxy_code` for Google's `code`.
    pub fn handle_callback_with(&mut self, state: &str, code: &str, proxy_code: String, now: i64) -> (r: Result<
        CallbackResult,
        ProxyError,
    >)
        requires
            old(self).wf(),
        ensures
            final(self).wf(),
            callback_post(*old(self), state@, code@, proxy_code, now, r, *final(self)),

    {
        let request = match self.auth_states.remove(state) {
            Some(req) => req,
            None => return Err(ProxyError::StateNotFound),
        };
        let grant = AuthorizationCodeGrant {
            client_id: request.client_id,
            google_code: code.to_owned(),
            redirect_uri: request.redirect_uri.clone(),
            scope: request.scope,
            created_at: now,
        };
        self.codes.insert(proxy_code.clone(), grant);
        Ok(CallbackResult { proxy_code, redirect_uri: request.redirect_uri, original_state: request.original_state })
    }

    /// Google's callback: consumes the pending request and issues a fresh UUID proxy code.
    pub fn handle_callback(&mut self, state: &str, code: &str) -> (r: Result<CallbackResult, ProxyError>)
        requires
            old(self).wf(),
        ensures
            final(self).wf(),
            exists|proxy_code: String, now: i64|
                proxy_code@.len() == 36 && #[trigger] callback_post(*old(self), state@, code@, proxy_code, now, r, *final(self)),
            old(self).auth_states_view().contains_key(state@) ==> r is Ok,
            !old(self).auth_states_view().contains_key(state@) ==> {
                &&& r == Err::<CallbackResult, _>(ProxyError::StateNotFound)
                &&& final(self).auth_states_view() == old(self).auth_states_view()
                &&& final(self).codes_view() == old(self).codes_view()
            },
            r matches Ok(res) ==> {
                &&& final(self).auth_states_view() == old(self).auth_states_view().remove(state@)
                &&& final(self).codes_view().contains_key(res.proxy_code@)
                &&& final(self).codes_view()[res.proxy_code@].google_code@ == code@
                &&& res.redirect_uri == old(self).auth_states_view()[state@].redirect_uri
            },
    {
        let proxy_code = new_uuid();
        let ghost pc = proxy_code;
        let now = unix_now();
        let r = self.handle_callback_with(state, code, proxy_code, now);
        assert(callback_post(*old(self), state@, code@, pc, now, r, *self));
        r
    }

    fn check_client(&self, form: &TokenRequest, now: i64) -> (r: Result<(), ProxyError>)
        requires
            self.wf(),
        ensures
            r == client_verdict(*self, *form, now),
    {
        let id = form.client_id.as_str();
        if starts_with(id, "https://") {
            match self.metadata_cache.get(id) {
                Some(c) => {
                    if c.expires_at > now {
                        match &c.metadata.token_endpoint_auth_method {
                            Some(m) => if crate::text::same_text(m.as_str(), "none") {
                                Ok(())
                            } else {
                                Err(ProxyError::AuthMethodNotNone)
                            },
                            None => Err(ProxyError::AuthMethodNotNone),
                        }
                    } else {
                        Err(ProxyError::MetadataUnavailable)
                    }
                },
                None => Err(ProxyError::MetadataUnavailable),
            }
        } else {
            match self.clients.get(id) {
                Some(c) => match &form.client_secret {
                    Some(secret) => if *secret == c.client_secret {
                        Ok(())
                    } else {
                        Err(ProxyError::InvalidClientSecret)
                    },
                    None => Err(ProxyError::InvalidClientSecret),
                },
                None => Err(ProxyError::UnknownClient),
            }
        }
    }

    /// Checks a token request and consumes its proxy code; on success, the form to
    /// post to Google's token endpoint with the bridge's own credentials.
    pub fn exchange_code(&mut self, form: &TokenRequest, now: i64) -> (r: Result<UpstreamTokenRequest, ProxyError>)
        requires
            old(self).wf(),
        ensures
            final(self).wf(),
            exchange_post(*old(self), *form, now, r, *final(self)),
    {
        match self.check_client(form, now) {
            Err(e) => return Err(e),
            Ok(()) => {},
        }
        let grant = match self.codes.remove(form.code.as_str()) {
            Some(g) => g,
            None => return Err(ProxyError::InvalidCode),
        };
        if (grant.created_at as i128) + (CODE_EXPIRATION_SECS as i128) < (now as i128) {
            return Err(ProxyError::CodeExpired);
        }
        if grant.redirect_uri != form.redirect_uri {
            return Err(ProxyError::RedirectUriMismatch);
        }
        let mut pairs: Vec<(String, String)> = Vec::new();
        push_pair(&mut pairs, "grant_type", "authorization_code");
        push_pair(&mut pairs, "code", grant.google_code.as_str());
        push_pair(&mut pairs, "redirect_uri", self.redirect_uri.as_str());
        push_pair(&mut pairs, "client_id", self.google_client_id.as_str());
        push_pair(&mut pairs, "client_secret", self.google_client_secret.as_str());
        push_opt(&mut pairs, "code_verifier", &form.code_verifier);
        push_opt(&mut pairs, "resource", &form.resource);
        assert(pairs_view(pairs@) =~= upstream_form(*old(self), grant, *form));
        Ok(UpstreamTokenRequest { token_url: self.google_token_url.clone(), form: pairs })
    }
}

/// A proxy code is consumed by the first exchange that accepts the client: once an
/// exchange succeeded, exchanging the same code again fails, as an unknown code
/// whenever the client is still accepted.
pub proof fn code_single_use(
    s0: ProxyState,
    s1: ProxyState,
    s2: ProxyState,
    form: TokenRequest,
    now1: i64,
    now2: i64,
    r1: Result<UpstreamTokenRequest, ProxyError>,
    r2: Result<UpstreamTokenRequest, ProxyError>,
)
    requires
        exchange_post(s0, form, now1, r1, s1),
        exchange_post(s1, form, now2, r2, s2),
        r1 is Ok,
    ensures
        r2 is Err,
        client_verdict(s1, form, now2) is Ok ==> r2 == Err::<UpstreamTokenRequest, _>(ProxyError::InvalidCode),
{
}

/// A code presented more than the code lifetime after it was issued is refused as
/// expired, and consumed.
pub proof fn expired_code_refused(
    s0: ProxyState,
    form: TokenRequest,
    now: i64,
    r: Result<UpstreamTokenRequest, ProxyError>,
    s1: ProxyState,
)
    requires
        exchange_post(s0, form, now, r, s1),
        client_verdict(s0, form, now) is Ok,
        s0.codes_view().contains_key(form.code@),
        s0.codes_view()[form.code@].created_at + CODE_EXPIRATION_SECS < now,
    ensures
        r == Err::<UpstreamTokenRequest, _>(ProxyError::CodeExpired),
        !s1.codes_view().contains_key(form.code@),
{
}

/// A client that identifies itself by a metadata document URL only obtains a token
/// when its document declares `token_endpoint_auth_method` `none`.
pub proof fn metadata_client_needs_no_auth(
    s0: ProxyState,
    form: TokenRequest,
    now: i64,
    r: Result<UpstreamTokenRequest, ProxyError>,
    s1: ProxyState,
)
    requires
        exchange_post(s0, form, now, r, s1),
        is_url_client_id(form.client_id@),
        r is Ok,
    ensures
        s0.cache_view().contains_key(form.client_id@),
        opt_view(s0.cache_view()[form.client_id@].metadata.token_endpoint_auth_method) == Some("none"@),
{
}

} // verus!
