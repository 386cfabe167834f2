//! Bearer ingest: adopting a token that the caller presents in request headers.
use vstd::prelude::*;
use crate::instant::{is_representable, parse_rfc3339, representable_instant, rfc3339_instant};
use crate::session::{without_user, SessionRegistry};
use crate::store::{is_revoked, stored_token, InMemoryTokenStorage, RevocationLedger};
use crate::text::{
    all_digits, copy_opt, digits_up_to, digits_value, eq_ignore_ascii_case, eq_ignoring_ascii_case, find_char,
    first_index, opt_view, split_at_first_space, split_first_space, trim, trimmed,
};
use crate::token::{expiry_after, grant_expiry, TokenInfo};

verus! {

/// A request header as the HTTP layer hands it over: its lower-case name, and its
/// value when that is visible ASCII text (`None` when it is not).
#[derive(Debug)]
pub struct HeaderField {
    pub name: String,
    pub value: Option<String>,
}

/// The headers of a request, in the order they arrived.
#[derive(Debug)]
pub struct RequestHeaders {
    pub fields: Vec<HeaderField>,
}

impl RequestHeaders {
    pub fn new() -> (r: Self)
        ensures
            r.fields@.len() == 0,
    {
        RequestHeaders { fields: Vec::new() }
    }

    pub fn add(&mut self, name: String, value: Option<String>)
        ensures
            final(self).fields@ == old(self).fields@.push(HeaderField { name, value }),
    {
        self.fields.push(HeaderField { name, value });
    }
}

/// The value of the first header called `name`: `None` when there is none,
/// `Some(None)` when its value is not text.
pub open spec fn header_lookup(fields: Seq<HeaderField>, name: Seq<char>) -> Option<Option<Seq<char>>>
    decreases fields.len(),
{
    if fields.len() == 0 {
        None
    } else if fields[0].name@ == name {
        Some(opt_view(fields[0].value))
    } else {
        header_lookup(fields.drop_first(), name)
    }
}

fn lookup(headers: &RequestHeaders, name: &str) -> (r: Option<Option<String>>)
    ensures
        match r {
            Some(v) => header_lookup(headers.fields@, name@) == Some(opt_view(v)),
            None => header_lookup(headers.fields@, name@) is None,
        },
{
    let key = name.to_owned();
    let n = headers.fields.len();
    let mut i: usize = 0;
    assert(headers.fields@.subrange(0, n as int) =~= headers.fields@);
    while i < n
        invariant
            n == headers.fields@.len(),
            i <= n,
            key@ == name@,
            header_lookup(headers.fields@, name@) == header_lookup(headers.fields@.subrange(i as int, n as int), name@),
        decreases n - i,
    {
        proof {
            let rest = headers.fields@.subrange(i as int, n as int);
            assert(rest.drop_first() =~= headers.fields@.subrange(i + 1, n as int));
            assert(rest[0] == headers.fields@[i as int]);
        }
        if headers.fields[i].name == key {
            return Some(copy_opt(&headers.fields[i].value));
        }
        i = i + 1;
    }
    None
}

/// The trimmed text of header `name`, when it is present, text, and not blank.
pub open spec fn alias_text(fields: Seq<HeaderField>, name: Seq<char>) -> Option<Seq<char>> {
    match header_lookup(fields, name) {
        Some(Some(v)) => if trimmed(v).len() > 0 {
            Some(trimmed(v))
        } else {
            None
        },
        _ => None,
    }
}

/// A sidecar value read under two aliases: the first non-blank one wins.
pub open spec fn sidecar_value(fields: Seq<HeaderField>, primary: Seq<char>, fallback: Seq<char>) -> Option<Seq<char>> {
    if alias_text(fields, primary) is Some {
        alias_text(fields, primary)
    } else {
        alias_text(fields, fallback)
    }
}

/// Whether either alias of a sidecar header was sent at all.
pub open spec fn sidecar_present(fields: Seq<HeaderField>, primary: Seq<char>, fallback: Seq<char>) -> bool {
    header_lookup(fields, primary) is Some || header_lookup(fields, fallback) is Some
}

fn alias(headers: &RequestHeaders, name: &str) -> (r: (Option<String>, bool))
    ensures
        opt_view(r.0) == alias_text(headers.fields@, name@),
        r.1 == header_lookup(headers.fields@, name@) is Some,
{
    match lookup(headers, name) {
        Some(Some(v)) => {
            let t = trim(v.as_str());
            if t.unicode_len() > 0 {
                (Some(t), true)
            } else {
                (None, true)
            }
        },
        Some(None) => (None, true),
        None => (None, false),
    }
}

/// Reads a sidecar header under its two aliases: its value, and whether it was sent.
pub fn header_with_presence(headers: &RequestHeaders, primary: &str, fallback: &str) -> (r: (Option<String>, bool))
    ensures
        opt_view(r.0) == sidecar_value(headers.fields@, primary@, fallback@),
        r.1 == sidecar_present(headers.fields@, primary@, fallback@),
{
    let (first, first_present) = alias(headers, primary);
    let (second, second_present) = alias(headers, fallback);
    let value = if first.is_some() {
        first
    } else {
        second
    };
    (value, first_present || second_present)
}

/// An optionally signed decimal integer, as `str::parse` reads one.
pub open spec fn signed_decimal(t: Seq<char>) -> Option<int> {
    if t.len() > 0 && (t[0] == '-' || t[0] == '+') {
        if t.len() > 1 && all_digits(t.drop_first()) {
            Some(
                if t[0] == '-' {
                    -digits_value(t.drop_first())
                } else {
                    digits_value(t.drop_first())
                },
            )
        } else {
            None
        }
    } else if t.len() > 0 && all_digits(t) {
        Some(digits_value(t))
    } else {
        None
    }
}

/// What `str::parse::<i64>` yields.
pub open spec fn parsed_i64(t: Seq<char>) -> Option<i64> {
    match signed_decimal(t) {
        Some(v) => if i64::MIN <= v <= i64::MAX {
            Some(v as i64)
        } else {
            None
        },
        None => None,
    }
}

fn check_digits(s: &str) -> (r: bool)
    ensures
        r == all_digits(s@),
{
    let n = s.unicode_len();
    let mut i: usize = 0;
    while i < n
        invariant
            n == s@.len(),
            i <= n,
            forall|k: int| 0 <= k < i ==> #[trigger] crate::text::is_digit(s@[k]),
        decreases n - i,
    {
        let c = s.get_char(i);
        if !('0' <= c && c <= '9') {
            return false;
        }
        i = i + 1;
    }
    true
}

pub fn parse_i64(t: &str) -> (r: Option<i64>)
    ensures
        r == parsed_i64(t@),
{
    let n = t.unicode_len();
    if n == 0 {
        return None;
    }
    let c = t.get_char(0);
    if c == '-' || c == '+' {
        let body = t.substring_char(1, n);
        assert(body@ =~= t@.drop_first());
        if n == 1 || !check_digits(body) {
            return None;
        }
        if c == '-' {
            match digits_up_to(body, 9223372036854775808u64) {
                Some(v) => if v == 9223372036854775808u64 {
                    Some(i64::MIN)
                } else {
                    Some(-(v as i64))
                },
                None => None,
            }
        } else {
            match digits_up_to(body, i64::MAX as u64) {
                Some(v) => Some(v as i64),
                None => None,
            }
        }
    } else {
        if !check_digits(t) {
            return None;
        }
        match digits_up_to(t, i64::MAX as u64) {
            Some(v) => Some(v as i64),
            None => None,
        }
    }
}

/// An expiry header: an RFC 3339 date-time, else whole seconds since the epoch that
/// chrono can represent.
pub open spec fn expiry_from_text(t: Seq<char>) -> Option<i64> {
    match rfc3339_instant(t) {
        Some(p) => Some(p.0),
        None => match parsed_i64(t) {
            Some(e) => if representable_instant(e, 0) {
                Some(e)
            } else {
                None
            },
            None => None,
        },
    }
}

pub fn parse_expiry(t: &str) -> (r: Option<i64>)
    ensures
        r == expiry_from_text(t@),
{
    match parse_rfc3339(t) {
        Some((secs, _)) => Some(secs),
        None => match parse_i64(t) {
            Some(e) => if is_representable(e, 0) {
                Some(e)
            } else {
                None
            },
            None => None,
        },
    }
}

/// A lifetime header: non-negative decimal seconds, with an optional fraction that
/// is dropped.
pub open spec fn whole_seconds(t: Seq<char>) -> Option<int> {
    let body = if t.len() > 0 && t[0] == '+' {
        t.drop_first()
    } else {
        t
    };
    match first_index(body, '.') {
        Some(i) => {
            let ip = body.subrange(0, i);
            let fp = body.subrange(i + 1, body.len() as int);
            if all_digits(ip) && all_digits(fp) && ip.len() + fp.len() > 0 {
                Some(digits_value(ip))
            } else {
                None
            }
        },
        None => if body.len() > 0 && all_digits(body) {
            Some(digits_value(body))
        } else {
            None
        },
    }
}

pub open spec fn lifetime_seconds(t: Seq<char>) -> Option<u64> {
    match whole_seconds(t) {
        Some(v) => if v <= u64::MAX {
            Some(v as u64)
        } else {
            None
        },
        None => None,
    }
}

pub fn parse_lifetime(t: &str) -> (r: Option<u64>)
    ensures
        r == lifetime_seconds(t@),
{
    let n = t.unicode_len();
    let body = if n > 0 && t.get_char(0) == '+' {
        t.substring_char(1, n)
    } else {
        t.substring_char(0, n)
    };
    proof {
        if n > 0 && t@[0] == '+' {
            assert(body@ =~= t@.drop_first());
        } else {
            assert(body@ =~= t@);
        }
    }
    let m = body.unicode_len();
    match find_char(body, '.') {
        Some(i) => {
            let ip = body.substring_char(0, i);
            let fp = body.substring_char(i + 1, m);
            if !check_digits(ip) || !check_digits(fp) || ip.unicode_len() + fp.unicode_len() == 0 {
                return None;
            }
            digits_up_to(ip, u64::MAX)
        },
        None => {
            if m == 0 || !check_digits(body) {
                return None;
            }
            digits_up_to(body, u64::MAX)
        },
    }
}

/// The expiry that the sidecar headers give at `now`, and whether they gave one.
/// An absolute expiry wins; a lifetime is read only when no absolute one was sent.
pub open spec fn expires_metadata(fields: Seq<HeaderField>, now: i64) -> (Option<i64>, bool) {
    if sidecar_present(fields, "x-mcp-oauth-expires-at"@, "x-oauth-expires-at"@) {
        match sidecar_value(fields, "x-mcp-oauth-expires-at"@, "x-oauth-expires-at"@) {
            Some(t) => match expiry_from_text(t) {
                Some(e) => (Some(e), true),
                None => (None, false),
            },
            None => (None, false),
        }
    } else if sidecar_present(fields, "x-mcp-oauth-expires-in"@, "x-oauth-expires-in"@) {
        match sidecar_value(fields, "x-mcp-oauth-expires-in"@, "x-oauth-expires-in"@) {
            Some(t) => match lifetime_seconds(t) {
                Some(s) => match grant_expiry(Some(s), now) {
                    Some(e) => (Some(e), true),
                    None => (None, false),
                },
                None => (None, false),
            },
            None => (None, false),
        }
    } else {
        (None, false)
    }
}

pub fn parse_expires_metadata(headers: &RequestHeaders, now: i64) -> (r: (Option<i64>, bool))
    ensures
        r == expires_metadata(headers.fields@, now),
{
    let (at_raw, at_present) = header_with_presence(headers, "x-mcp-oauth-expires-at", "x-oauth-expires-at");
    if at_present {
        return match at_raw {
            Some(raw) => match parse_expiry(raw.as_str()) {
                Some(e) => (Some(e), true),
                None => (None, false),
            },
            None => (None, false),
        };
    }
    let (in_raw, in_present) = header_with_presence(headers, "x-mcp-oauth-expires-in", "x-oauth-expires-in");
    if in_present {
        return match in_raw {
            Some(raw) => match parse_lifetime(raw.as_str()) {
                Some(secs) => match expiry_after(secs, now) {
                    Some(e) => (Some(e), true),
                    None => (None, false),
                },
                None => (None, false),
            },
            None => (None, false),
        };
    }
    (None, false)
}

/// The token of an `Authorization: Bearer <token>` header: `Err` when the header is
/// not text, `Ok(None)` when there is none or it is not a bearer credential.
pub open spec fn bearer_credential(fields: Seq<HeaderField>) -> Result<Option<Seq<char>>, ()> {
    match header_lookup(fields, "authorization"@) {
        None => Ok(None),
        Some(None) => Err(()),
        Some(Some(v)) => {
            let parts = split_at_first_space(v);
            let token = match parts.1 {
                Some(rest) => trimmed(rest),
                None => Seq::empty(),
            };
            if eq_ignoring_ascii_case(parts.0, "Bearer"@) && token.len() > 0 {
                Ok(Some(token))
            } else {
                Ok(None)
            }
        },
    }
}

#[derive(Debug, Clone, PartialEq, Eq)]
pub enum BearerTokenError {
    /// The `Authorization` header is not text.
    InvalidUtf8,
    /// The token store failed.
    Storage(String),
}

impl BearerTokenError {
    pub fn message(&self) -> (r: String)
        ensures
            *self is InvalidUtf8 ==> r@ == "authorization header must be valid UTF-8"@,
            *self matches BearerTokenError::Storage(d) ==> r@ == "token storage error: "@ + d@,
    {
        match self {
            BearerTokenError::InvalidUtf8 => "authorization header must be valid UTF-8".to_owned(),
            BearerTokenError::Storage(detail) => crate::text::concat("token storage error: ", detail.as_str()),
        }
    }
}

pub fn bearer_token(headers: &RequestHeaders) -> (r: Result<Option<String>, BearerTokenError>)
    ensures
        match bearer_credential(headers.fields@) {
            Err(_) => r == Err::<Option<String>, _>(BearerTokenError::InvalidUtf8),
            Ok(None) => r matches Ok(None),
            Ok(Some(t)) => r matches Ok(Some(s)) && s@ == t,
        },
{
    match lookup(headers, "authorization") {
        None => Ok(None),
        Some(None) => Err(BearerTokenError::InvalidUtf8),
        Some(Some(v)) => {
            let (scheme, rest) = split_first_space(v.as_str());
            let token = match rest {
                Some(r) => trim(r.as_str()),
                None => String::new(),
            };
            if eq_ignore_ascii_case(scheme.as_str(), "Bearer") && token.unicode_len() > 0 {
                Ok(Some(token))
            } else {
                Ok(None)
            }
        },
    }
}

/// A stored token, as text.
pub struct TokenView {
    pub access_token: Seq<char>,
    pub refresh_token: Option<Seq<char>>,
    pub expires_at: Option<i64>,
    pub scope: Option<Seq<char>>,
    pub token_type: Seq<char>,
}

impl View for TokenInfo {
    type V = TokenView;

    open spec fn view(&self) -> TokenView {
        TokenView {
            access_token: self.access_token@,
            refresh_token: opt_view(self.refresh_token),
            expires_at: self.expires_at,
            scope: opt_view(self.scope),
            token_type: self.token_type@,
        }
    }
}

/// What the headers say of the presented token: each field, and whether its header
/// was sent.
pub struct BearerView {
    pub access_token: Seq<char>,
    pub refresh_token: Option<Seq<char>>,
    pub refresh_present: bool,
    pub scope: Option<Seq<char>>,
    pub scope_present: bool,
    pub expires_at: Option<i64>,
    pub expires_present: bool,
    pub token_type: Seq<char>,
    pub token_type_present: bool,
}

pub open spec fn bearer_metadata(fields: Seq<HeaderField>, token: Seq<char>, now: i64) -> BearerView {
    BearerView {
        access_token: token,
        refresh_token: sidecar_value(fields, "x-mcp-oauth-refresh-token"@, "x-oauth-refresh-token"@),
        refresh_present: sidecar_present(fields, "x-mcp-oauth-refresh-token"@, "x-oauth-refresh-token"@),
        scope: sidecar_value(fields, "x-mcp-oauth-scope"@, "x-oauth-scope"@),
        scope_present: sidecar_present(fields, "x-mcp-oauth-scope"@, "x-oauth-scope"@),
        expires_at: expires_metadata(fields, now).0,
        expires_present: expires_metadata(fields, now).1,
        token_type: match sidecar_value(fields, "x-mcp-oauth-token-type"@, "x-oauth-token-type"@) {
            Some(t) => t,
            None => "Bearer"@,
        },
        token_type_present: sidecar_present(fields, "x-mcp-oauth-token-type"@, "x-oauth-token-type"@),
    }
}

/// The record after ingest, and whether it must be persisted. It starts from the
/// stored token (or one built from the headers, with type `Bearer` when none is sent);
/// the access token is replaced when it differs, every other field only when its
/// header was sent and its value differs.
pub open spec fn merged_record(existing: Option<TokenView>, m: BearerView) -> (TokenView, bool) {
    let base = match existing {
        Some(t) => t,
        None => TokenView {
            access_token: m.access_token,
            refresh_token: m.refresh_token,
            expires_at: m.expires_at,
            scope: m.scope,
            token_type: m.token_type,
        },
    };
    let c_access = base.access_token != m.access_token;
    let c_refresh = m.refresh_present && base.refresh_token != m.refresh_token;
    let c_scope = m.scope_present && base.scope != m.scope;
    let c_expiry = m.expires_present && base.expires_at != m.expires_at;
    let c_type = m.token_type_present && base.token_type != m.token_type;
    (
        TokenView {
            access_token: m.access_token,
            refresh_token: if c_refresh {
                m.refresh_token
            } else {
                base.refresh_token
            },
            expires_at: if c_expiry {
                m.expires_at
            } else {
                base.expires_at
            },
            scope: if c_scope {
                m.scope
            } else {
                base.scope
            },
            token_type: if c_type {
                m.token_type
            } else {
                base.token_type
            },
        },
        existing is None || c_access || c_refresh || c_scope || c_expiry || c_type,
    )
}

pub open spec fn stored_view(m: Map<Seq<char>, TokenInfo>, user: Seq<char>) -> Option<TokenView> {
    match stored_token(m, user) {
        Some(t) => Some(t@),
        None => None,
    }
}

/// What an ingest handed back: the resulting token, if one was adopted, and whether
/// it was written to the store.
#[derive(Debug)]
pub struct IngestOutcome {
    pub token: Option<TokenInfo>,
    pub persisted: bool,
}

/// The effect of an ingest for `user` at `now`, from the store and ledger before
/// (`s0`, `l0`) to the result `r` and the store and ledger after (`s1`, `l1`).
pub open spec fn ingest_post(
    s0: Map<Seq<char>, TokenInfo>,
    l0: Map<Seq<char>, Set<Seq<char>>>,
    fields: Seq<HeaderField>,
    user: Seq<char>,
    now: i64,
    r: Result<IngestOutcome, BearerTokenError>,
    s1: Map<Seq<char>, TokenInfo>,
    l1: Map<Seq<char>, Set<Seq<char>>>,
) -> bool {
    match bearer_credential(fields) {
        Err(_) => r == Err::<IngestOutcome, _>(BearerTokenError::InvalidUtf8) && s1 == s0 && l1 == l0,
        Ok(None) => r matches Ok(out) && out.token is None && !out.persisted && s1 == s0 && l1 == l0,
        Ok(Some(t)) => if is_revoked(l0, user, t) {
            r matches Ok(out) && out.token is None && !out.persisted && s1 == s0 && l1 == l0
        } else {
            let (v, needs) = merged_record(stored_view(s0, user), bearer_metadata(fields, t, now));
            &&& r matches Ok(out)
            &&& out.token matches Some(rec)
            &&& rec@ == v
            &&& rec.access_token@.len() > 0
            &&& out.persisted == needs
            &&& needs ==> s1 == s0.insert(user, rec) && l1 == l0.remove(user)
            &&& !needs ==> s1 == s0 && l1 == l0
        },
    }
}

fn opt_eq(a: &Option<String>, b: &Option<String>) -> (r: bool)
    ensures
        r == (opt_view(*a) == opt_view(*b)),
{
    match (a, b) {
        (Some(x), Some(y)) => *x == *y,
        (None, None) => true,
        _ => false,
    }
}

/// Adopts the bearer token of the request headers for `user_id`, unless the operator
/// revoked it. Sidecar headers update the stored record; a record that changed is
/// persisted and the user's revocations are forgotten.
pub fn ingest_bearer_token_from_headers(
    store: &mut InMemoryTokenStorage,
    ledger: &mut RevocationLedger,
    headers: &RequestHeaders,
    user_id: &str,
    now: i64,
) -> (r: Result<IngestOutcome, BearerTokenError>)
    requires
        old(store).wf(),
        old(ledger).wf(),
    ensures
        final(store).wf(),
        final(ledger).wf(),
        ingest_post(old(store)@, old(ledger)@, headers.fields@, user_id@, now, r, final(store)@, final(ledger)@),
{
    let token_part = match bearer_token(headers) {
        Err(e) => return Err(e),
        Ok(None) => return Ok(IngestOutcome { token: None, persisted: false }),
        Ok(Some(t)) => t,
    };
    if ledger.contains(user_id, token_part.as_str()) {
        return Ok(IngestOutcome { token: None, persisted: false });
    }
    let (refresh_token, refresh_present) = header_with_presence(
        headers,
        "x-mcp-oauth-refresh-token",
        "x-oauth-refresh-token",
    );
    let (scope, scope_present) = header_with_presence(headers, "x-mcp-oauth-scope", "x-oauth-scope");
    let (expires_at, expires_present) = parse_expires_metadata(headers, now);
    let (token_type_header, token_type_present) = header_with_presence(
        headers,
        "x-mcp-oauth-token-type",
        "x-oauth-token-type",
    );
    let token_type = match token_type_header {
        Some(t) => t,
        None => "Bearer".to_owned(),
    };
    let ghost m = bearer_metadata(headers.fields@, token_part@, now);
    let existing = store.fetch(user_id);
    let had_existing = existing.is_some();
    let mut info = match existing {
        Some(t) => t,
        None => TokenInfo {
            access_token: token_part.clone(),
            refresh_token: copy_opt(&refresh_token),
            expires_at,
            scope: copy_opt(&scope),
            token_type: token_type.clone(),
        },
    };
    let ghost base = info@;
    let mut needs_persist = !had_existing;
    if info.access_token != token_part {
        info.access_token = token_part;
        needs_persist = true;
    }
    if refresh_present && !opt_eq(&info.refresh_token, &refresh_token) {
        info.refresh_token = refresh_token;
        needs_persist = true;
    }
    if scope_present && !opt_eq(&info.scope, &scope) {
        info.scope = scope;
        needs_persist = true;
    }
    if expires_present && info.expires_at != expires_at {
        info.expires_at = expires_at;
        needs_persist = true;
    }
    if token_type_present && info.token_type != token_type {
        info.token_type = token_type;
        needs_persist = true;
    }
    assert(info@ == merged_record(stored_view(old(store)@, user_id@), m).0);
    if needs_persist {
        store.persist(user_id, &info);
        ledger.clear(user_id);
    }
    Ok(IngestOutcome { token: Some(info), persisted: needs_persist })
}

/// The effect of an operator revoking `user`: the token leaves the store, its access
/// token enters the ledger, and the user's pending sessions are dropped.
pub open spec fn revoke_post(
    s0: Map<Seq<char>, TokenInfo>,
    l0: Map<Seq<char>, Set<Seq<char>>>,
    user: Seq<char>,
    s1: Map<Seq<char>, TokenInfo>,
    l1: Map<Seq<char>, Set<Seq<char>>>,
) -> bool {
    &&& s1 == s0.remove(user)
    &&& s0.contains_key(user) ==> l1 == l0.insert(
        user,
        crate::store::revoked_of(l0, user).insert(s0[user].access_token@),
    )
    &&& !s0.contains_key(user) ==> l1 == l0
}

/// Clears the token of `user_id`, records its access token as revoked, and drops the
/// user's pending sessions. Hands back the token that was removed.
pub fn revoke_user(
    store: &mut InMemoryTokenStorage,
    ledger: &mut RevocationLedger,
    sessions: &mut SessionRegistry,
    user_id: &str,
) -> (r: Option<TokenInfo>)
    requires
        old(store).wf(),
        old(ledger).wf(),
        old(sessions).wf(),
    ensures
        final(store).wf(),
        final(ledger).wf(),
        final(sessions).wf(),
        r == stored_token(old(store)@, user_id@),
        revoke_post(old(store)@, old(ledger)@, user_id@, final(store)@, final(ledger)@),
        final(sessions)@ == without_user(old(sessions)@, user_id@),
{
    let removed = store.revoke(user_id);
    match &removed {
        Some(t) => ledger.record(user_id, t.access_token.clone()),
        None => {},
    }
    sessions.purge_user(user_id);
    removed
}

/// A token that the operator revoked for a user is not adopted from the headers: the
/// store is left as it was and no token is handed back.
pub proof fn revoked_token_not_adopted(
    s0: Map<Seq<char>, TokenInfo>,
    l0: Map<Seq<char>, Set<Seq<char>>>,
    fields: Seq<HeaderField>,
    user: Seq<char>,
    now: i64,
    r: Result<IngestOutcome, BearerTokenError>,
    s1: Map<Seq<char>, TokenInfo>,
    l1: Map<Seq<char>, Set<Seq<char>>>,
)
    requires
        ingest_post(s0, l0, fields, user, now, r, s1, l1),
        match bearer_credential(fields) {
            Ok(Some(t)) => is_revoked(l0, user, t),
            _ => false,
        },
    ensures
        s1 == s0,
        l1 == l0,
        r matches Ok(out) && out.token is None && !out.persisted,
{
}

/// After the operator revokes a user's token, presenting that same token writes
/// nothing; presenting a token the ledger does not hold stores it and clears the
/// user's ledger entry.
pub proof fn revocation_then_ingest(
    s0: Map<Seq<char>, TokenInfo>,
    l0: Map<Seq<char>, Set<Seq<char>>>,
    user: Seq<char>,
    s1: Map<Seq<char>, TokenInfo>,
    l1: Map<Seq<char>, Set<Seq<char>>>,
    fields: Seq<HeaderField>,
    now: i64,
    r: Result<IngestOutcome, BearerTokenError>,
    s2: Map<Seq<char>, TokenInfo>,
    l2: Map<Seq<char>, Set<Seq<char>>>,
)
    requires
        s0.contains_key(user),
        revoke_post(s0, l0, user, s1, l1),
        ingest_post(s1, l1, fields, user, now, r, s2, l2),
    ensures
        bearer_credential(fields) == Ok::<Option<Seq<char>>, ()>(Some(s0[user].access_token@)) ==> s2 == s1,
        match bearer_credential(fields) {
            Ok(Some(t)) => !is_revoked(l1, user, t) ==> {
                &&& l2 == l1.remove(user)
                &&& s2.contains_key(user)
                &&& s2[user].access_token@ == t
            },
            _ => true,
        },
{
    if let Ok(Some(t)) = bearer_credential(fields) {
        if t == s0[user].access_token@ {
            assert(is_revoked(l1, user, t));
        }
        if !is_revoked(l1, user, t) {
            assert(stored_view(s1, user) is None);
        }
    }
}

} // verus!
