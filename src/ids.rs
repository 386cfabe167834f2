//! Fresh identifiers and secrets: UUIDs, client secrets, PKCE pairs and CSRF nonces.
use vstd::prelude::*;
use rand::Rng;

verus! {

pub open spec fn is_ascii_alphanumeric(c: char) -> bool {
    ('a' <= c && c <= 'z') || ('A' <= c && c <= 'Z') || ('0' <= c && c <= '9')
}

/// Relies on uuid's `Uuid::new_v4` in its hyphenated text form, 36 characters.
#[verifier::external_body]
pub fn new_uuid() -> (r: String)
    ensures
        r@.len() == 36,
{
    uuid::Uuid::new_v4().to_string()
}

/// Relies on rand's `Alphanumeric` distribution, sampled from `thread_rng`: `len`
/// characters, each from `A-Z`, `a-z` and `0-9`.
#[verifier::external_body]
pub fn random_alphanumeric(len: usize) -> (r: String)
    ensures
        r@.len() == len,
        forall|i: int| 0 <= i < r@.len() ==> is_ascii_alphanumeric(#[trigger] r@[i]),
{
    rand::thread_rng().sample_iter(&rand::distributions::Alphanumeric).take(len).map(char::from).collect()
}

/// A character of the URL-safe base64 alphabet.
pub open spec fn is_base64url(c: char) -> bool {
    is_ascii_alphanumeric(c) || c == '-' || c == '_'
}

/// Relies on oauth2's `PkceCodeChallenge::new_random_sha256`: a fresh PKCE verifier,
/// 32 random bytes as 43 characters of unpadded URL-safe base64.
#[verifier::external_body]
pub fn new_pkce_verifier() -> (r: String)
    ensures
        r@.len() == 43,
        forall|i: int| 0 <= i < r@.len() ==> is_base64url(#[trigger] r@[i]),
{
    oauth2::PkceCodeChallenge::new_random_sha256().1.secret().to_owned()
}

/// Relies on oauth2's `CsrfToken::new_random`: 16 random bytes as 22 characters of
/// URL-safe base64.
#[verifier::external_body]
pub fn new_csrf_token() -> (r: String)
    ensures
        r@.len() == 22,
{
    oauth2::CsrfToken::new_random().secret().to_owned()
}

} // verus!
