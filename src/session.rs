//! Pending upstream authorizations, keyed by their CSRF state.
use vstd::prelude::*;
use crate::table::KeyedTable;
use crate::token::AuthorizationContext;

verus! {

/// Seconds a pending authorization stays valid.
pub const SESSION_TTL_SECS: i64 = 600;

/// An authorization that a user started and that has not come back yet.
#[derive(Debug)]
pub struct AuthorizationSession {
    pub user_id: String,
    pub state: AuthorizationContext,
    /// Creation time in seconds since the Unix epoch.
    pub created_at: i64,
}

impl Clone for AuthorizationSession {
    fn clone(&self) -> (r: Self)
        ensures
            r == *self,
    {
        AuthorizationSession {
            user_id: self.user_id.clone(),
            state: self.state.clone(),
            created_at: self.created_at,
        }
    }
}

/// A session is still live at `now` unless it was created more than the TTL earlier.
pub open spec fn session_live(s: AuthorizationSession, now: int) -> bool {
    s.created_at >= now - SESSION_TTL_SECS
}

/// The registry `m` after a sweep at `now`: the live sessions only.
pub open spec fn swept(m: Map<Seq<char>, AuthorizationSession>, now: int) -> Map<Seq<char>, AuthorizationSession> {
    m.restrict(Set::new(|k: Seq<char>| m.contains_key(k) && session_live(m[k], now)))
}

/// The registry `m` without the sessions of `user`.
pub open spec fn without_user(m: Map<Seq<char>, AuthorizationSession>, user: Seq<char>) -> Map<
    Seq<char>,
    AuthorizationSession,
> {
    m.restrict(Set::new(|k: Seq<char>| m.contains_key(k) && m[k].user_id@ != user))
}

pub struct SessionRegistry {
    sessions: KeyedTable<AuthorizationSession>,
}

impl View for SessionRegistry {
    type V = Map<Seq<char>, AuthorizationSession>;

    closed spec fn view(&self) -> Map<Seq<char>, AuthorizationSession> {
        self.sessions@
    }
}

impl SessionRegistry {
    pub closed spec fn wf(&self) -> bool {
        self.sessions.wf()
    }

    pub fn new() -> (r: Self)
        ensures
            r.wf(),
            r@ == Map::<Seq<char>, AuthorizationSession>::empty(),
    {
        SessionRegistry { sessions: KeyedTable::new() }
    }

    /// Registers `session` under its CSRF state, replacing any session with that state.
    pub fn insert(&mut self, session: AuthorizationSession)
        requires
            old(self).wf(),
        ensures
            final(self).wf(),
            final(self)@ == old(self)@.insert(session.state.csrf_state@, session),
    {
        let key = session.state.csrf_state.clone();
        self.sessions.insert(key, session);
    }

    pub fn contains(&self, csrf_state: &str) -> (r: bool)
        requires
            self.wf(),
        ensures
            r == self@.contains_key(csrf_state@),
    {
        self.sessions.contains_key(csrf_state)
    }

    /// Removes and hands back the session of `csrf_state`; a callback consumes it.
    pub fn take(&mut self, csrf_state: &str) -> (r: Option<AuthorizationSession>)
        requires
            old(self).wf(),
        ensures
            final(self).wf(),
            final(self)@ == old(self)@.remove(csrf_state@),
            match r {
                Some(s) => old(self)@.contains_key(csrf_state@) && s == old(self)@[csrf_state@],
                None => !old(self)@.contains_key(csrf_state@),
            },
    {
        let r = self.sessions.remove(csrf_state);
        proof {
            if r is None {
                assert(old(self)@.remove(csrf_state@) =~= old(self)@);
            }
        }
        r
    }

    /// Drops the sessions created more than ten minutes before `now`.
    pub fn sweep(&mut self, now: i64)
        requires
            old(self).wf(),
        ensures
            final(self).wf(),
            final(self)@ == swept(old(self)@, now as int),
    {
        let cutoff: i128 = (now as i128) - (SESSION_TTL_SECS as i128);
        let keep = (|s: &AuthorizationSession| -> (b: bool)
            ensures
                b == (s.created_at >= cutoff),
            { (s.created_at as i128) >= cutoff });
        self.sessions.retain(keep, Ghost(|s: AuthorizationSession| s.created_at >= cutoff));
        assert(self@ =~= swept(old(self)@, now as int));
    }

    /// Drops every session of `user_id`.
    pub fn purge_user(&mut self, user_id: &str)
        requires
            old(self).wf(),
        ensures
            final(self).wf(),
            final(self)@ == without_user(old(self)@, user_id@),
    {
        let user = user_id.to_owned();
        let keep = (|s: &AuthorizationSession| -> (b: bool)
            ensures
                b == (s.user_id@ != user@),
            { !(s.user_id == user) });
        self.sessions.retain(keep, Ghost(|s: AuthorizationSession| s.user_id@ != user@));
        assert(self@ =~= without_user(old(self)@, user_id@));
    }
}

/// After a sweep at `now`, no session older than ten minutes remains, and every
/// session that was live stays.
pub proof fn sweep_drops_stale(m: Map<Seq<char>, AuthorizationSession>, now: int)
    ensures
        forall|k: Seq<char>|
            #[trigger] swept(m, now).contains_key(k) ==> m.contains_key(k) && m[k].created_at >= now - SESSION_TTL_SECS,
        forall|k: Seq<char>|
            m.contains_key(k) && m[k].created_at < now - SESSION_TTL_SECS ==> !(#[trigger] swept(m, now).contains_key(k)),
        forall|k: Seq<char>|
            m.contains_key(k) && session_live(m[k], now) ==> #[trigger] swept(m, now).contains_key(k) && swept(m, now)[k]
                == m[k],
{
}

} // verus!
