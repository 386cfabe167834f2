//! The per-user token cabinet and the ledger of access tokens an operator revoked.
use vstd::prelude::*;
use crate::table::KeyedTable;
use crate::text::strings_view;
use crate::token::TokenInfo;

verus! {

/// What a fetch of `user` returns from a cabinet whose contents are `m`.
pub open spec fn stored_token(m: Map<Seq<char>, TokenInfo>, user: Seq<char>) -> Option<TokenInfo> {
    if m.contains_key(user) {
        Some(m[user])
    } else {
        None
    }
}

/// Tokens by user id, held in memory. The file-backed store writes snapshots of
/// this cabinet to disk.
pub struct InMemoryTokenStorage {
    tokens: KeyedTable<TokenInfo>,
}

impl View for InMemoryTokenStorage {
    type V = Map<Seq<char>, TokenInfo>;

    closed spec fn view(&self) -> Map<Seq<char>, TokenInfo> {
        self.tokens@
    }
}

impl InMemoryTokenStorage {
    pub closed spec fn wf(&self) -> bool {
        self.tokens.wf()
    }

    pub fn new() -> (r: Self)
        ensures
            r.wf(),
            r@ == Map::<Seq<char>, TokenInfo>::empty(),
    {
        InMemoryTokenStorage { tokens: KeyedTable::new() }
    }

    /// The token of `user_id`; an unknown user has none.
    pub fn fetch(&self, user_id: &str) -> (r: Option<TokenInfo>)
        requires
            self.wf(),
        ensures
            r == stored_token(self@, user_id@),
    {
        match self.tokens.get(user_id) {
            Some(t) => Some(t.clone()),
            None => None,
        }
    }

    /// Stores `token` for `user_id`, replacing what was there.
    pub fn persist(&mut self, user_id: &str, token: &TokenInfo)
        requires
            old(self).wf(),
        ensures
            final(self).wf(),
            final(self)@ == old(self)@.insert(user_id@, *token),
    {
        self.tokens.insert(user_id.to_owned(), token.clone());
    }

    /// Removes the token of `user_id` and hands it back.
    pub fn revoke(&mut self, user_id: &str) -> (r: Option<TokenInfo>)
        requires
            old(self).wf(),
        ensures
            final(self).wf(),
            final(self)@ == old(self)@.remove(user_id@),
            r == stored_token(old(self)@, user_id@),
    {
        self.tokens.remove(user_id)
    }

    /// Every (user id, token) pair of the cabinet, once each.
    pub fn snapshot(&self) -> (r: Vec<(String, TokenInfo)>)
        requires
            self.wf(),
        ensures
            forall|i: int|
                0 <= i < r@.len() ==> self@.contains_key(#[trigger] r@[i].0@) && self@[r@[i].0@] == r@[i].1,
            forall|k: Seq<char>|
                self@.contains_key(k) ==> exists|i: int| 0 <= i < r@.len() && #[trigger] r@[i].0@ == k,
            forall|i: int, j: int| 0 <= i < j < r@.len() ==> r@[i].0@ != r@[j].0@,
    {
        let mut out: Vec<(String, TokenInfo)> = Vec::new();
        let n = self.tokens.len();
        let mut i: usize = 0;
        proof {
            self.tokens.lemma_positions();
        }
        while i < n
            invariant
                self.wf(),
                n == self.tokens.count(),
                i <= n,
                out@.len() == i,
                forall|j: int| 0 <= j < i ==> #[trigger] out@[j].0@ == self.tokens.key_at(j),
                forall|j: int| 0 <= j < i ==> self@.contains_key(#[trigger] out@[j].0@) && self@[out@[j].0@] == out@[j].1,
            decreases n - i,
        {
            let (k, t) = self.tokens.entry_at(i);
            out.push((k.clone(), t.clone()));
            i = i + 1;
        }
        proof {
            self.tokens.lemma_positions();
            assert forall|k: Seq<char>| self@.contains_key(k) implies exists|i: int|
                0 <= i < out@.len() && #[trigger] out@[i].0@ == k by {
                let p = choose|p: int| 0 <= p < self.tokens.count() && #[trigger] self.tokens.key_at(p) == k;
                assert(out@[p].0@ == k);
            }
            assert forall|a: int, b: int| 0 <= a < b < out@.len() implies out@[a].0@ != out@[b].0@ by {
                assert(out@[a].0@ == self.tokens.key_at(a));
                assert(out@[b].0@ == self.tokens.key_at(b));
            }
        }
        out
    }
}

/// Access tokens that an operator revoked, by user id.
pub struct RevocationLedger {
    revoked: KeyedTable<Vec<String>>,
}

pub open spec fn token_set(v: Vec<String>) -> Set<Seq<char>> {
    strings_view(v@).to_set()
}

impl View for RevocationLedger {
    type V = Map<Seq<char>, Set<Seq<char>>>;

    closed spec fn view(&self) -> Map<Seq<char>, Set<Seq<char>>> {
        self.revoked@.map_values(|v: Vec<String>| token_set(v))
    }
}

/// Whether the ledger `m` holds `token` for `user`.
pub open spec fn is_revoked(m: Map<Seq<char>, Set<Seq<char>>>, user: Seq<char>, token: Seq<char>) -> bool {
    m.contains_key(user) && m[user].contains(token)
}

/// The tokens the ledger `m` holds for `user`.
pub open spec fn revoked_of(m: Map<Seq<char>, Set<Seq<char>>>, user: Seq<char>) -> Set<Seq<char>> {
    if m.contains_key(user) {
        m[user]
    } else {
        Set::empty()
    }
}

impl RevocationLedger {
    pub closed spec fn wf(&self) -> bool {
        self.revoked.wf()
    }

    pub fn new() -> (r: Self)
        ensures
            r.wf(),
            r@ == Map::<Seq<char>, Set<Seq<char>>>::empty(),
    {
        let r = RevocationLedger { revoked: KeyedTable::new() };
        assert(r@ =~= Map::<Seq<char>, Set<Seq<char>>>::empty());
        r
    }

    /// Records that `token` of `user_id` was revoked.
    pub fn record(&mut self, user_id: &str, token: String)
        requires
            old(self).wf(),
        ensures
            final(self).wf(),
            final(self)@ == old(self)@.insert(user_id@, revoked_of(old(self)@, user_id@).insert(token@)),
    {
        let ghost tv = token@;
        let mut list = match self.revoked.remove(user_id) {
            Some(v) => v,
            None => Vec::new(),
        };
        let ghost before = list;
        list.push(token);
        proof {
            assert(strings_view(list@) =~= strings_view(before@).push(tv));
            assert(token_set(list) =~= token_set(before).insert(tv)) by {
                assert forall|x: Seq<char>| token_set(list).contains(x) <==> token_set(before).insert(tv).contains(x) by {
                    let ls = strings_view(before@);
                    if ls.contains(x) {
                        let i = choose|i: int| 0 <= i < ls.len() && ls[i] == x;
                        assert(ls.push(tv)[i] == x);
                    }
                    assert(ls.push(tv)[ls.len() as int] == tv);
                    if ls.push(tv).contains(x) && x != tv {
                        let i = choose|i: int| 0 <= i < ls.push(tv).len() && ls.push(tv)[i] == x;
                        assert(ls[i] == x);
                    }
                }
            }
            assert(token_set(before) == revoked_of(old(self)@, user_id@)) by {
                if !old(self)@.contains_key(user_id@) {
                    assert(token_set(before) =~= Set::empty());
                }
            }
        }
        self.revoked.insert(user_id.to_owned(), list);
        assert(self@ =~= old(self)@.insert(user_id@, revoked_of(old(self)@, user_id@).insert(tv)));
    }

    /// Whether `token` of `user_id` was revoked.
    pub fn contains(&self, user_id: &str, token: &str) -> (r: bool)
        requires
            self.wf(),
        ensures
            r == is_revoked(self@, user_id@, token@),
    {
        match self.revoked.get(user_id) {
            Some(list) => {
                let probe = token.to_owned();
                let mut i: usize = 0;
                while i < list.len()
                    invariant
                        i <= list@.len(),
                        probe@ == token@,
                        self.revoked@.contains_key(user_id@),
                        self.revoked@[user_id@] == *list,
                        forall|j: int| 0 <= j < i ==> list@[j]@ != probe@,
                    decreases list@.len() - i,
                {
                    if list[i] == probe {
                        assert(strings_view(list@)[i as int] == token@);
                        return true;
                    }
                    i = i + 1;
                }
                proof {
                    let ls = strings_view(list@);
                    if ls.contains(token@) {
                        let j = choose|j: int| 0 <= j < ls.len() && ls[j] == token@;
                        assert(list@[j]@ == token@);
                    }
                }
                false
            },
            None => false,
        }
    }

    /// Forgets what was revoked for `user_id`.
    pub fn clear(&mut self, user_id: &str)
        requires
            old(self).wf(),
        ensures
            final(self).wf(),
            final(self)@ == old(self)@.remove(user_id@),
    {
        let _ = self.revoked.remove(user_id);
        assert(self@ =~= old(self)@.remove(user_id@));
    }
}

/// A fetch that follows a persist, with nothing in between, returns what was persisted.
pub proof fn persist_then_fetch(m: Map<Seq<char>, TokenInfo>, user: Seq<char>, t: TokenInfo)
    ensures
        stored_token(m.insert(user, t), user) == Some(t),
{
}

/// A fetch that follows a revoke of the same user returns nothing.
pub proof fn revoke_then_fetch(m: Map<Seq<char>, TokenInfo>, user: Seq<char>)
    ensures
        stored_token(m.remove(user), user) is None,
{
}

} // verus!
