//! Discovery documents: authorization-server metadata (RFC 8414), protected-resource
//! metadata (RFC 9728) and OpenID Connect discovery.
use vstd::prelude::*;
use crate::config::AppConfig;
use crate::gate::HandlerError;
use crate::text::{concat, copy_strings, decimal_of, decimal_text, trim_trailing_slashes, without_trailing_slashes};
use crate::urls::{origin_parts, parses_as_url, url_origin};

verus! {

#[derive(Debug)]
pub struct AuthorizationServerMetadata {
    pub issuer: String,
    pub authorization_endpoint: String,
    pub token_endpoint: String,
    pub registration_endpoint: String,
    pub response_types_supported: Vec<String>,
    pub grant_types_supported: Vec<String>,
    pub code_challenge_methods_supported: Vec<String>,
    pub scopes_supported: Vec<String>,
    pub token_endpoint_auth_methods_supported: Vec<String>,
    pub subject_types_supported: Vec<String>,
    pub id_token_signing_alg_values_supported: Vec<String>,
    pub client_id_metadata_document_supported: bool,
}

#[derive(Debug)]
pub struct ProtectedResourceMetadata {
    pub resource: String,
    pub authorization_servers: Vec<String>,
    pub scopes_supported: Vec<String>,
}

#[derive(Debug)]
pub struct OpenIdConfiguration {
    pub issuer: String,
    pub authorization_endpoint: String,
    pub token_endpoint: String,
    pub jwks_uri: String,
    pub response_types_supported: Vec<String>,
    pub grant_types_supported: Vec<String>,
    pub code_challenge_methods_supported: Vec<String>,
    pub scopes_supported: Vec<String>,
    pub token_endpoint_auth_methods_supported: Vec<String>,
    pub subject_types_supported: Vec<String>,
    pub id_token_signing_alg_values_supported: Vec<String>,
}

/// A list that holds exactly the one text `s`.
pub open spec fn only(v: Vec<String>, s: Seq<char>) -> bool {
    v@.len() == 1 && v@[0]@ == s
}

pub fn single(s: &str) -> (r: Vec<String>)
    ensures
        only(r, s@),
{
    let mut v: Vec<String> = Vec::new();
    v.push(s.to_owned());
    v
}

/// The fixed capability lists that every document advertises.
pub open spec fn advertises_capabilities(
    response_types: Vec<String>,
    grant_types: Vec<String>,
    challenge_methods: Vec<String>,
    auth_methods: Vec<String>,
    subject_types: Vec<String>,
    signing_algs: Vec<String>,
) -> bool {
    &&& only(response_types, "code"@)
    &&& only(grant_types, "authorization_code"@)
    &&& only(challenge_methods, "S256"@)
    &&& only(auth_methods, "client_secret_post"@)
    &&& only(subject_types, "public"@)
    &&& only(signing_algs, "RS256"@)
}

/// The origin `scheme://host[:port]` of a URL that parses and has a host.
pub open spec fn origin_text(url: Seq<char>) -> Option<Seq<char>> {
    let (scheme, host, port) = url_origin(url);
    match host {
        Some(h) => Some(
            scheme + "://"@ + h + match port {
                Some(p) => ":"@ + decimal_of(p as nat),
                None => Seq::empty(),
            },
        ),
        None => None,
    }
}

/// The issuer of the upstream authorization server: the origin of its authorize URL.
pub fn issuer_from_auth_url(url: &str) -> (r: Result<String, HandlerError>)
    ensures
        match r {
            Ok(s) => parses_as_url(url@) && origin_text(url@) == Some(s@),
            Err(e) => e.code == 500 && (!parses_as_url(url@) || origin_text(url@) is None),
        },
{
    let parts = match origin_parts(url) {
        Some(p) => p,
        None => return Err(HandlerError::new(500, "invalid authorization endpoint URL".to_owned())),
    };
    let (scheme, host, port) = parts;
    let host = match host {
        Some(h) => h,
        None => return Err(HandlerError::new(500, "authorization endpoint missing host".to_owned())),
    };
    let with_sep = concat(scheme.as_str(), "://");
    let origin = concat(with_sep.as_str(), host.as_str());
    match port {
        Some(p) => {
            let digits = decimal_text(p as u64);
            let suffix = concat(":", digits.as_str());
            let r = concat(origin.as_str(), suffix.as_str());
            assert(r@ =~= scheme@ + "://"@ + host@ + (":"@ + decimal_of(p as nat)));
            Ok(r)
        },
        None => {
            assert(origin@ =~= scheme@ + "://"@ + host@ + Seq::<char>::empty());
            Ok(origin)
        },
    }
}

/// Authorization-server metadata when the bridge forwards clients to Google directly.
pub fn authorization_server_metadata(config: &AppConfig) -> (r: Result<AuthorizationServerMetadata, HandlerError>)
    ensures
        match r {
            Ok(m) => {
                &&& origin_text(config.oauth.auth_url@) == Some(m.issuer@)
                &&& m.authorization_endpoint == config.oauth.auth_url
                &&& m.token_endpoint == config.oauth.token_url
                &&& m.registration_endpoint@ == without_trailing_slashes(config.server.public_url@)
                    + "/proxy/oauth/register"@
                &&& m.scopes_supported@ == config.oauth.scopes@
                &&& advertises_capabilities(
                    m.response_types_supported,
                    m.grant_types_supported,
                    m.code_challenge_methods_supported,
                    m.token_endpoint_auth_methods_supported,
                    m.subject_types_supported,
                    m.id_token_signing_alg_values_supported,
                )
                &&& !m.client_id_metadata_document_supported
            },
            Err(e) => e.code == 500 && (!parses_as_url(config.oauth.auth_url@) || origin_text(config.oauth.auth_url@) is None),
        },
{
    let issuer = match issuer_from_auth_url(config.oauth.auth_url.as_str()) {
        Ok(i) => i,
        Err(e) => return Err(e),
    };
    let base = trim_trailing_slashes(config.server.public_url.as_str());
    Ok(AuthorizationServerMetadata {
        issuer,
        authorization_endpoint: config.oauth.auth_url.clone(),
        token_endpoint: config.oauth.token_url.clone(),
        registration_endpoint: concat(base.as_str(), "/proxy/oauth/register"),
        response_types_supported: single("code"),
        grant_types_supported: single("authorization_code"),
        code_challenge_methods_supported: single("S256"),
        scopes_supported: copy_strings(&config.oauth.scopes),
        token_endpoint_auth_methods_supported: single("client_secret_post"),
        subject_types_supported: single("public"),
        id_token_signing_alg_values_supported: single("RS256"),
        client_id_metadata_document_supported: false,
    })
}

/// The resource a metadata request names: the public URL, followed by the path that
/// came after the well-known prefix, if any.
pub open spec fn resource_for(public_url: Seq<char>, rest: Option<Seq<char>>) -> Seq<char> {
    match rest {
        Some(p) => without_trailing_slashes(public_url) + "/"@ + p,
        None => without_trailing_slashes(public_url),
    }
}

pub fn resource_path(public_url: &str, rest: &Option<String>) -> (r: String)
    ensures
        r@ == resource_for(public_url@, crate::text::opt_view(*rest)),
{
    let base = trim_trailing_slashes(public_url);
    match rest {
        Some(p) => {
            let with_slash = concat(base.as_str(), "/");
            let r = concat(with_slash.as_str(), p.as_str());
            r
        },
        None => base,
    }
}

/// Protected-resource metadata when the bridge forwards clients to Google directly.
pub fn protected_resource_metadata_impl(config: &AppConfig, rest: &Option<String>) -> (r: Result<
    ProtectedResourceMetadata,
    HandlerError,
>)
    ensures
        match r {
            Ok(m) => {
                &&& m.resource@ == resource_for(config.server.public_url@, crate::text::opt_view(*rest))
                &&& m.authorization_servers@.len() == 1
                &&& origin_text(config.oauth.auth_url@) == Some(m.authorization_servers@[0]@)
                &&& m.scopes_supported@ == config.oauth.scopes@
            },
            Err(e) => e.code == 500 && (!parses_as_url(config.oauth.auth_url@) || origin_text(config.oauth.auth_url@) is None),
        },
{
    let resource = resource_path(config.server.public_url.as_str(), rest);
    let issuer = match issuer_from_auth_url(config.oauth.auth_url.as_str()) {
        Ok(i) => i,
        Err(e) => return Err(e),
    };
    let mut servers: Vec<String> = Vec::new();
    servers.push(issuer);
    Ok(ProtectedResourceMetadata {
        resource,
        authorization_servers: servers,
        scopes_supported: copy_strings(&config.oauth.scopes),
    })
}

/// OpenID Connect discovery when the bridge forwards clients to Google directly.
pub fn openid_configuration(config: &AppConfig) -> (r: Result<OpenIdConfiguration, HandlerError>)
    ensures
        match r {
            Ok(m) => {
                &&& origin_text(config.oauth.auth_url@) == Some(m.issuer@)
                &&& m.jwks_uri@ == without_trailing_slashes(m.issuer@) + "/.well-known/jwks.json"@
                &&& m.authorization_endpoint == config.oauth.auth_url
                &&& m.token_endpoint == config.oauth.token_url
                &&& m.scopes_supported@ == config.oauth.scopes@
                &&& advertises_capabilities(
                    m.response_types_supported,
                    m.grant_types_supported,
                    m.code_challenge_methods_supported,
                    m.token_endpoint_auth_methods_supported,
                    m.subject_types_supported,
                    m.id_token_signing_alg_values_supported,
                )
            },
            Err(e) => e.code == 500 && (!parses_as_url(config.oauth.auth_url@) || origin_text(config.oauth.auth_url@) is None),
        },
{
    let issuer = match issuer_from_auth_url(config.oauth.auth_url.as_str()) {
        Ok(i) => i,
        Err(e) => return Err(e),
    };
    let trimmed = trim_trailing_slashes(issuer.as_str());
    let jwks_uri = concat(trimmed.as_str(), "/.well-known/jwks.json");
    Ok(OpenIdConfiguration {
        issuer,
        authorization_endpoint: config.oauth.auth_url.clone(),
        token_endpoint: config.oauth.token_url.clone(),
        jwks_uri,
        response_types_supported: single("code"),
        grant_types_supported: single("authorization_code"),
        code_challenge_methods_supported: single("S256"),
        scopes_supported: copy_strings(&config.oauth.scopes),
        token_endpoint_auth_methods_supported: single("client_secret_post"),
        subject_types_supported: single("public"),
        id_token_signing_alg_values_supported: single("RS256"),
    })
}

} // verus!
