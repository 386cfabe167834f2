//! The request gate: whether a tool call proceeds, refreshes, or is answered with a
//! challenge that points the client at the discovery documents.
use vstd::prelude::*;
use crate::session::{swept, AuthorizationSession, SessionRegistry, SESSION_TTL_SECS};
use crate::text::{concat, join_with_spaces, joined_with_spaces, strings_view, trim_trailing_slashes, without_trailing_slashes};
use crate::token::{authorize_extras, oauth2_authorize_url, AuthorizationContext, OAuthClient, OAuthClientError, TokenInfo};
use crate::urls::parses_as_url;

verus! {

/// An error that an HTTP handler answers with: the status code and a message.
#[derive(Debug, Clone, PartialEq, Eq)]
pub struct HandlerError {
    pub code: u16,
    pub message: String,
}

impl HandlerError {
    pub fn new(code: u16, message: String) -> (r: Self)
        ensures
            r.code == code,
            r.message == message,
    {
        HandlerError { code, message }
    }

    pub fn unauthorized(message: String) -> (r: Self)
        ensures
            r.code == 401,
            r.message == message,
    {
        HandlerError { code: 401, message }
    }
}

/// The canonical resource identifier: the public URL without trailing slashes.
pub fn resource_identifier(public_url: &str) -> (r: String)
    ensures
        r@ == without_trailing_slashes(public_url@),
{
    trim_trailing_slashes(public_url)
}

pub open spec fn metadata_url_of(public_url: Seq<char>) -> Seq<char> {
    without_trailing_slashes(public_url) + "/.well-known/oauth-protected-resource"@
}

/// Where the protected-resource metadata of a service at `public_url` is published.
pub fn protected_resource_metadata_url(public_url: &str) -> (r: String)
    ensures
        r@ == metadata_url_of(public_url@),
{
    let base = trim_trailing_slashes(public_url);
    concat(base.as_str(), "/.well-known/oauth-protected-resource")
}

pub open spec fn challenge_text(resource: Seq<char>, metadata_url: Seq<char>, scope: Seq<char>) -> Seq<char> {
    "Bearer resource=\""@ + resource + "\", resource_metadata=\""@ + metadata_url + "\", scope=\""@ + scope + "\""@
}

/// The `WWW-Authenticate` value of a 401: the resource, where its metadata lives, and
/// the scopes to ask for.
pub fn www_authenticate_value(public_url: &str, metadata_url: &str, scopes: &Vec<String>) -> (r: String)
    ensures
        r@ == challenge_text(without_trailing_slashes(public_url@), metadata_url@, joined_with_spaces(strings_view(scopes@))),
{
    let resource = trim_trailing_slashes(public_url);
    let scope = join_with_spaces(scopes);
    let s1 = concat("Bearer resource=\"", resource.as_str());
    let s2 = concat(s1.as_str(), "\", resource_metadata=\"");
    let s3 = concat(s2.as_str(), metadata_url);
    let s4 = concat(s3.as_str(), "\", scope=\"");
    let s5 = concat(s4.as_str(), scope.as_str());
    concat(s5.as_str(), "\"")
}

/// Next step for a request, given its stored token.
#[derive(Debug)]
pub enum AccessStep {
    /// The token is valid: the request goes on with it.
    Proceed(TokenInfo),
    /// The token expired: refresh it with this refresh token.
    Refresh(String),
    /// There is no usable token: answer with a challenge.
    Challenge,
}

pub fn decide_access(stored: Option<TokenInfo>, now: i64) -> (r: AccessStep)
    ensures
        match stored {
            None => r is Challenge,
            Some(t) => if !t.expired_at(now as int) {
                r == AccessStep::Proceed(t)
            } else {
                match t.refresh_token {
                    Some(rt) => r == AccessStep::Refresh(rt),
                    None => r is Challenge,
                }
            },
        },
{
    match stored {
        None => AccessStep::Challenge,
        Some(t) => {
            if !t.is_expired_at(now) {
                AccessStep::Proceed(t)
            } else {
                match t.refresh_token {
                    Some(rt) => AccessStep::Refresh(rt),
                    None => AccessStep::Challenge,
                }
            }
        },
    }
}

/// The token to store after a refresh: the new one, keeping the prior refresh token
/// when the response carried none.
pub fn adopt_refreshed(prior: &TokenInfo, refreshed: TokenInfo) -> (r: TokenInfo)
    ensures
        r.access_token == refreshed.access_token,
        r.expires_at == refreshed.expires_at,
        r.scope == refreshed.scope,
        r.token_type == refreshed.token_type,
        r.refresh_token == if refreshed.refresh_token is Some {
            refreshed.refresh_token
        } else {
            prior.refresh_token
        },
{
    let refresh_token = match refreshed.refresh_token {
        Some(rt) => Some(rt),
        None => crate::text::copy_opt(&prior.refresh_token),
    };
    TokenInfo {
        access_token: refreshed.access_token,
        refresh_token,
        expires_at: refreshed.expires_at,
        scope: refreshed.scope,
        token_type: refreshed.token_type,
    }
}

/// The answer to an unauthorized tool call.
#[derive(Debug)]
pub struct Challenge {
    pub www_authenticate: String,
    pub authorize_url: String,
    pub state: String,
    pub pkce_verifier: String,
}

/// Registers a pending session for `context` and builds the challenge that carries it.
pub fn issue_challenge(
    sessions: &mut SessionRegistry,
    context: AuthorizationContext,
    user_id: &str,
    now: i64,
    public_url: &str,
    metadata_url: &str,
    scopes: &Vec<String>,
) -> (r: Challenge)
    requires
        old(sessions).wf(),
    ensures
        final(sessions).wf(),
        final(sessions)@ == old(sessions)@.insert(
            context.csrf_state@,
            AuthorizationSession { user_id: final(sessions)@[context.csrf_state@].user_id, state: context, created_at: now },
        ),
        final(sessions)@[context.csrf_state@].user_id@ == user_id@,
        r.www_authenticate@ == challenge_text(
            without_trailing_slashes(public_url@),
            metadata_url@,
            joined_with_spaces(strings_view(scopes@)),
        ),
        r.authorize_url == context.authorize_url,
        r.state == context.csrf_state,
        r.pkce_verifier == context.pkce_verifier,
{
    let header = www_authenticate_value(public_url, metadata_url, scopes);
    let challenge = Challenge {
        www_authenticate: header,
        authorize_url: context.authorize_url.clone(),
        state: context.csrf_state.clone(),
        pkce_verifier: context.pkce_verifier.clone(),
    };
    let session = AuthorizationSession { user_id: user_id.to_owned(), state: context, created_at: now };
    sessions.insert(session);
    challenge
}

/// Starts an upstream authorization for `user_id`: sweeps stale sessions, builds the
/// authorize URL and registers the pending session under its CSRF state.
pub fn begin_authorization(
    oauth: &OAuthClient,
    sessions: &mut SessionRegistry,
    user_id: &str,
    redirect_uri: &str,
    now: i64,
) -> (r: Result<AuthorizationContext, OAuthClientError>)
    requires
        old(sessions).wf(),
    ensures
        final(sessions).wf(),
        !parses_as_url(redirect_uri@) ==> r == Err::<AuthorizationContext, _>(OAuthClientError::InvalidRedirectUrl),
        parses_as_url(redirect_uri@) && !parses_as_url(oauth.auth_url@) ==> r == Err::<AuthorizationContext, _>(
            OAuthClientError::InvalidAuthUrl,
        ),
        parses_as_url(redirect_uri@) && parses_as_url(oauth.auth_url@) ==> r is Ok,
        forall|k: Seq<char>|
            old(sessions)@.contains_key(k) && old(sessions)@[k].created_at < now - SESSION_TTL_SECS
                && #[trigger] final(sessions)@.contains_key(k) ==> (r matches Ok(ctx) && k == ctx.csrf_state@
                && final(sessions)@[k].created_at == now),
        match r {
            Ok(ctx) => {
                &&& ctx.authorize_url@ == oauth2_authorize_url(
                    oauth.auth_url@,
                    oauth.client_id@,
                    redirect_uri@,
                    ctx.csrf_state@,
                    ctx.pkce_verifier@,
                    strings_view(oauth.scopes@),
                    authorize_extras(None),
                )
                &&& final(sessions)@.dom() == swept(old(sessions)@, now as int).dom().insert(ctx.csrf_state@)
                &&& final(sessions)@[ctx.csrf_state@].state == ctx
                &&& final(sessions)@[ctx.csrf_state@].user_id@ == user_id@
                &&& final(sessions)@[ctx.csrf_state@].created_at == now
            },
            Err(_) => final(sessions)@ == swept(old(sessions)@, now as int),
        },
{
    sessions.sweep(now);
    let none: Option<String> = None;
    match oauth.authorize_url(redirect_uri, &none) {
        Ok(ctx) => {
            let session = AuthorizationSession { user_id: user_id.to_owned(), state: ctx.clone(), created_at: now };
            sessions.insert(session);
            Ok(ctx)
        },
        Err(e) => Err(e),
    }
}

/// Consumes the pending session of `state`; an unknown or expired state is refused.
pub fn complete_callback(sessions: &mut SessionRegistry, state: &str) -> (r: Result<AuthorizationSession, HandlerError>)
    requires
        old(sessions).wf(),
    ensures
        final(sessions).wf(),
        final(sessions)@ == old(sessions)@.remove(state@),
        match r {
            Ok(s) => old(sessions)@.contains_key(state@) && s == old(sessions)@[state@],
            Err(e) => !old(sessions)@.contains_key(state@) && e.code == 401 && e.message@ == "invalid or expired state"@,
        },
{
    match sessions.take(state) {
        Some(s) => Ok(s),
        None => Err(HandlerError::unauthorized("invalid or expired state".to_owned())),
    }
}

} // verus!
