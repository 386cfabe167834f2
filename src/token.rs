//! Stored credentials and the upstream (Google) OAuth client.
use vstd::prelude::*;
use crate::config::OAuthConfig;
use crate::ids::{is_base64url, new_csrf_token, new_pkce_verifier};
use crate::instant::{is_representable, representable_instant, unix_now};
use crate::text::{copy_opt, copy_strings, join_with_spaces, joined_with_spaces, opt_view, strings_view};
use crate::urls::{origin_parts, pairs_view, parses_as_url};

verus! {

/// Seconds before the recorded expiry at which a token already counts as expired.
pub const EXPIRY_MARGIN_SECS: i64 = 30;

/// A stored credential of one user. Bearer ingest only adopts a non-empty access
/// token.
#[derive(Debug)]
pub struct TokenInfo {
    pub access_token: String,
    pub refresh_token: Option<String>,
    /// Expiry in whole seconds since the Unix epoch.
    pub expires_at: Option<i64>,
    pub scope: Option<String>,
    pub token_type: String,
}

impl Clone for TokenInfo {
    fn clone(&self) -> (r: Self)
        ensures
            r == *self,
    {
        TokenInfo {
            access_token: self.access_token.clone(),
            refresh_token: copy_opt(&self.refresh_token),
            expires_at: self.expires_at,
            scope: copy_opt(&self.scope),
            token_type: self.token_type.clone(),
        }
    }
}

impl TokenInfo {
    /// Expired at `now` when the expiry is at most the margin away; never without one.
    pub open spec fn expired_at(self, now: int) -> bool {
        match self.expires_at {
            Some(e) => e <= now + EXPIRY_MARGIN_SECS,
            None => false,
        }
    }

    pub fn is_expired_at(&self, now: i64) -> (r: bool)
        ensures
            r == self.expired_at(now as int),
    {
        match self.expires_at {
            Some(e) => (e as i128) <= (now as i128) + (EXPIRY_MARGIN_SECS as i128),
            None => false,
        }
    }

    /// Whether the token is expired now, by the system clock.
    pub fn is_expired(&self) -> (r: bool)
        ensures
            self.expires_at is None ==> !r,
    {
        let now = unix_now();
        self.is_expired_at(now)
    }
}

/// What an authorize request hands out: where to send the user, the CSRF state that
/// comes back, and the PKCE verifier kept for the code exchange.
#[derive(Debug)]
pub struct AuthorizationContext {
    pub authorize_url: String,
    pub csrf_state: String,
    pub pkce_verifier: String,
}

impl Clone for AuthorizationContext {
    fn clone(&self) -> (r: Self)
        ensures
            r == *self,
    {
        AuthorizationContext {
            authorize_url: self.authorize_url.clone(),
            csrf_state: self.csrf_state.clone(),
            pkce_verifier: self.pkce_verifier.clone(),
        }
    }
}

#[derive(Debug, Clone, Copy, PartialEq, Eq, Structural)]
pub enum OAuthClientError {
    InvalidAuthUrl,
    InvalidTokenUrl,
    InvalidRedirectUrl,
}

impl OAuthClientError {
    pub fn message(&self) -> (r: String)
        ensures
            *self == OAuthClientError::InvalidAuthUrl ==> r@ == "invalid auth url"@,
            *self == OAuthClientError::InvalidTokenUrl ==> r@ == "invalid token url"@,
            *self == OAuthClientError::InvalidRedirectUrl ==> r@ == "invalid redirect url"@,
    {
        match self {
            OAuthClientError::InvalidAuthUrl => "invalid auth url".to_owned(),
            OAuthClientError::InvalidTokenUrl => "invalid token url".to_owned(),
            OAuthClientError::InvalidRedirectUrl => "invalid redirect url".to_owned(),
        }
    }
}

/// The bridge as an OAuth client of Google, authenticating with `client_secret_post`.
#[derive(Debug)]
pub struct OAuthClient {
    pub client_id: String,
    pub client_secret: String,
    pub auth_url: String,
    pub token_url: String,
    pub scopes: Vec<String>,
}

/// The URL that oauth2's `AuthorizationRequest::url` builds for the authorization
/// endpoint `auth_url`: the client, its redirect URI, the CSRF state, the S256 PKCE
/// challenge of `verifier`, the scopes, and the extra parameters after them.
pub uninterp spec fn oauth2_authorize_url(
    auth_url: Seq<char>,
    client_id: Seq<char>,
    redirect_uri: Seq<char>,
    state: Seq<char>,
    verifier: Seq<char>,
    scopes: Seq<Seq<char>>,
    extra: Seq<(Seq<char>, Seq<char>)>,
) -> Seq<char>;

/// A PKCE verifier that oauth2 accepts: 43 to 128 ASCII characters.
pub open spec fn acceptable_verifier(verifier: Seq<char>) -> bool {
    &&& 43 <= verifier.len() <= 128
    &&& forall|i: int| 0 <= i < verifier.len() ==> (#[trigger] verifier[i] as u32) < 128
}

/// Relies on oauth2: a `BasicClient` with `AuthUrl::new` and `RedirectUrl::new` (each
/// `Url::parse`), `authorize_url` with the given state, `set_pkce_challenge` with
/// `PkceCodeChallenge::from_code_verifier_sha256` (which panics unless the verifier has
/// 43 to 128 bytes), `add_scope` for each scope, `add_extra_param` for each pair, `url`.
#[verifier::external_body]
fn oauth2_request_url(auth_url: &str, client_id: &str, redirect_uri: &str, state: &str, verifier: &str, scopes: &Vec<String>, extra: &Vec<(String, String)>) -> (r: Option<String>)
    requires
        acceptable_verifier(verifier@),
    ensures
        r is Some <==> (parses_as_url(auth_url@) && parses_as_url(redirect_uri@)),
        r matches Some(u) ==> u@ == oauth2_authorize_url(auth_url@, client_id@, redirect_uri@, state@, verifier@, strings_view(scopes@), pairs_view(extra@)),
{
    let client = oauth2::basic::BasicClient::new(oauth2::ClientId::new(client_id.to_owned()))
        .set_auth_uri(oauth2::AuthUrl::new(auth_url.to_owned()).ok()?)
        .set_redirect_uri(oauth2::RedirectUrl::new(redirect_uri.to_owned()).ok()?);
    let verifier = oauth2::PkceCodeVerifier::new(verifier.to_owned());
    let mut request = client.authorize_url(|| oauth2::CsrfToken::new(state.to_owned()))
        .set_pkce_challenge(oauth2::PkceCodeChallenge::from_code_verifier_sha256(&verifier));
    for s in scopes.iter() {
        request = request.add_scope(oauth2::Scope::new(s.clone()));
    }
    for (k, v) in extra.iter() {
        request = request.add_extra_param(k.clone(), v.clone());
    }
    Some(request.url().0.into())
}

/// Parameters the bridge adds to an upstream authorize request: the account chooser,
/// and the resource indicator when there is one.
pub open spec fn authorize_extras(resource: Option<Seq<char>>) -> Seq<(Seq<char>, Seq<char>)> {
    seq![("prompt"@, "select_account"@)] + match resource {
        Some(r) => seq![("resource"@, r)],
        None => Seq::empty(),
    }
}

fn pair(k: &str, v: &str) -> (r: (String, String))
    ensures
        r.0@ == k@,
        r.1@ == v@,
{
    (k.to_owned(), v.to_owned())
}

impl OAuthClient {
    pub fn from_config(config: &OAuthConfig) -> (r: Result<OAuthClient, OAuthClientError>)
        ensures
            r is Ok <==> parses_as_url(config.auth_url@) && parses_as_url(config.token_url@),
            !parses_as_url(config.auth_url@) ==> r == Err::<OAuthClient, _>(OAuthClientError::InvalidAuthUrl),
            parses_as_url(config.auth_url@) && !parses_as_url(config.token_url@) ==> r == Err::<OAuthClient, _>(
                OAuthClientError::InvalidTokenUrl,
            ),
            r matches Ok(c) ==> {
                &&& c.client_id == config.client_id
                &&& c.client_secret == config.client_secret
                &&& c.auth_url == config.auth_url
                &&& c.token_url == config.token_url
                &&& c.scopes@ == config.scopes@
            },
    {
        if origin_parts(config.auth_url.as_str()).is_none() {
            return Err(OAuthClientError::InvalidAuthUrl);
        }
        if origin_parts(config.token_url.as_str()).is_none() {
            return Err(OAuthClientError::InvalidTokenUrl);
        }
        Ok(OAuthClient {
            client_id: config.client_id.clone(),
            client_secret: config.client_secret.clone(),
            auth_url: config.auth_url.clone(),
            token_url: config.token_url.clone(),
            scopes: copy_strings(&config.scopes),
        })
    }

    /// The authorize URL for a given CSRF state and PKCE verifier.
    pub fn authorization_request_url(
        &self,
        redirect_uri: &str,
        state: &str,
        verifier: &str,
        resource: &Option<String>,
    ) -> (r: Option<String>)
        requires
            acceptable_verifier(verifier@),
        ensures
            r is Some <==> parses_as_url(self.auth_url@) && parses_as_url(redirect_uri@),
            r matches Some(u) ==> u@ == oauth2_authorize_url(
                self.auth_url@,
                self.client_id@,
                redirect_uri@,
                state@,
                verifier@,
                strings_view(self.scopes@),
                authorize_extras(opt_view(*resource)),
            ),
    {
        let mut extra: Vec<(String, String)> = Vec::new();
        extra.push(pair("prompt", "select_account"));
        match resource {
            Some(res) => extra.push(pair("resource", res.as_str())),
            None => {},
        }
        assert(pairs_view(extra@) =~= authorize_extras(opt_view(*resource)));
        oauth2_request_url(
            self.auth_url.as_str(),
            self.client_id.as_str(),
            redirect_uri,
            state,
            verifier,
            &self.scopes,
            &extra,
        )
    }

    /// Starts an authorization: fresh PKCE verifier and CSRF state, and the URL that
    /// carries them with the configured scopes.
    pub fn authorize_url(&self, redirect_uri: &str, resource: &Option<String>) -> (r: Result<
        AuthorizationContext,
        OAuthClientError,
    >)
        ensures
            !parses_as_url(redirect_uri@) ==> r == Err::<AuthorizationContext, _>(OAuthClientError::InvalidRedirectUrl),
            parses_as_url(redirect_uri@) && !parses_as_url(self.auth_url@) ==> r == Err::<AuthorizationContext, _>(
                OAuthClientError::InvalidAuthUrl,
            ),
            parses_as_url(redirect_uri@) && parses_as_url(self.auth_url@) ==> r is Ok,
            r matches Ok(ctx) ==> ctx.authorize_url@ == oauth2_authorize_url(
                self.auth_url@,
                self.client_id@,
                redirect_uri@,
                ctx.csrf_state@,
                ctx.pkce_verifier@,
                strings_view(self.scopes@),
                authorize_extras(opt_view(*resource)),
            ) && ctx.pkce_verifier@.len() == 43,
    {
        if origin_parts(redirect_uri).is_none() {
            return Err(OAuthClientError::InvalidRedirectUrl);
        }
        let verifier = new_pkce_verifier();
        proof {
            assert forall|i: int| 0 <= i < verifier@.len() implies (#[trigger] verifier@[i] as u32) < 128 by {
                assert(is_base64url(verifier@[i]));
            }
        }
        let state = new_csrf_token();
        match self.authorization_request_url(redirect_uri, state.as_str(), verifier.as_str(), resource) {
            Some(url) => Ok(AuthorizationContext { authorize_url: url, csrf_state: state, pkce_verifier: verifier }),
            None => Err(OAuthClientError::InvalidAuthUrl),
        }
    }
}

/// Expiry of a grant issued at `now` that lasts `expires_in` seconds, when chrono
/// can represent it.
pub open spec fn grant_expiry(expires_in: Option<u64>, now: i64) -> Option<i64> {
    match expires_in {
        Some(secs) => if secs <= i64::MAX && now + secs <= i64::MAX && representable_instant((now + secs) as i64, 0) {
            Some((now + secs) as i64)
        } else {
            None
        },
        None => None,
    }
}

/// Expiry `secs` seconds after `now`, or `None` when it cannot be represented.
pub fn expiry_after(secs: u64, now: i64) -> (r: Option<i64>)
    ensures
        r == grant_expiry(Some(secs), now),
{
    if secs > i64::MAX as u64 || now > i64::MAX - (secs as i64) {
        return None;
    }
    let at = now + secs as i64;
    if is_representable(at, 0) {
        Some(at)
    } else {
        None
    }
}

/// The stored form of a token-endpoint response received at `now`: the scopes are
/// joined by spaces and the lifetime becomes an expiry.
pub fn token_from_grant(
    access_token: String,
    refresh_token: Option<String>,
    expires_in: Option<u64>,
    scopes: Option<Vec<String>>,
    token_type: String,
    now: i64,
) -> (r: TokenInfo)
    ensures
        r.access_token == access_token,
        r.refresh_token == refresh_token,
        r.expires_at == grant_expiry(expires_in, now),
        r.token_type == token_type,
        match scopes {
            Some(s) => r.scope matches Some(t) && t@ == joined_with_spaces(strings_view(s@)),
            None => r.scope is None,
        },
{
    let expires_at = match expires_in {
        Some(secs) => expiry_after(secs, now),
        None => None,
    };
    let scope = match scopes {
        Some(s) => Some(join_with_spaces(&s)),
        None => None,
    };
    TokenInfo { access_token, refresh_token, expires_at, scope, token_type }
}

} // verus!
