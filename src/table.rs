//! A small map keyed by strings, kept as a vector of entries with unique keys.
//!
//! Its model is a `Map` from key text to value. Entries can be visited by index,
//! which the registries use for snapshots and sweeps.
use vstd::prelude::*;

verus! {

pub struct KeyedTable<V> {
    entries: Vec<(String, V)>,
    model: Ghost<Map<Seq<char>, V>>,
}

impl<V> View for KeyedTable<V> {
    type V = Map<Seq<char>, V>;

    closed spec fn view(&self) -> Map<Seq<char>, V> {
        self.model@
    }
}

impl<V> KeyedTable<V> {
    /// The entries agree with the model, and no key occurs twice.
    pub closed spec fn wf(&self) -> bool {
        &&& forall|i: int|
            0 <= i < self.entries@.len() ==> {
                &&& self.model@.contains_key(#[trigger] self.entries@[i].0@)
                &&& self.model@[self.entries@[i].0@] == self.entries@[i].1
            }
        &&& forall|k: Seq<char>|
            self.model@.contains_key(k) ==> exists|i: int|
                0 <= i < self.entries@.len() && #[trigger] self.entries@[i].0@ == k
        &&& forall|i: int, j: int|
            0 <= i < j < self.entries@.len() ==> self.entries@[i].0@ != self.entries@[j].0@
    }

    /// Number of entries, which is the number of keys of the model.
    pub closed spec fn count(&self) -> nat {
        self.entries@.len()
    }

    /// Key of the entry at position `i`.
    pub closed spec fn key_at(&self, i: int) -> Seq<char> {
        self.entries@[i].0@
    }

    pub fn new() -> (r: Self)
        ensures
            r.wf(),
            r@ == Map::<Seq<char>, V>::empty(),
            r.count() == 0,
    {
        KeyedTable { entries: Vec::new(), model: Ghost(Map::empty()) }
    }

    pub fn len(&self) -> (r: usize)
        ensures
            r == self.count(),
    {
        self.entries.len()
    }

    /// Every position holds a key of the model; every key of the model sits at a position.
    pub proof fn lemma_positions(&self)
        requires
            self.wf(),
        ensures
            forall|i: int| 0 <= i < self.count() ==> self@.contains_key(#[trigger] self.key_at(i)),
            forall|k: Seq<char>|
                self@.contains_key(k) ==> exists|i: int|
                    0 <= i < self.count() && #[trigger] self.key_at(i) == k,
            forall|i: int, j: int|
                0 <= i < j < self.count() ==> self.key_at(i) != self.key_at(j),
    {
        assert forall|k: Seq<char>| self@.contains_key(k) implies exists|i: int|
            0 <= i < self.count() && #[trigger] self.key_at(i) == k by {
            let i = choose|i: int| 0 <= i < self.entries@.len() && #[trigger] self.entries@[i].0@ == k;
            assert(self.key_at(i) == k);
        }
    }

    /// The entry at position `i`.
    pub fn entry_at(&self, i: usize) -> (r: (&String, &V))
        requires
            self.wf(),
            i < self.count(),
        ensures
            r.0@ == self.key_at(i as int),
            self@.contains_key(r.0@),
            self@[r.0@] == *r.1,
    {
        let e = &self.entries[i];
        (&e.0, &e.1)
    }

    /// Position of `k`, if the table holds it.
    fn find(&self, k: &String) -> (r: Option<usize>)
        requires
            self.wf(),
        ensures
            match r {
                Some(i) => i < self.entries@.len() && self.entries@[i as int].0@ == k@,
                None => !self@.contains_key(k@),
            },
    {
        let mut i: usize = 0;
        while i < self.entries.len()
            invariant
                self.wf(),
                i <= self.entries@.len(),
                forall|j: int| 0 <= j < i ==> self.entries@[j].0@ != k@,
            decreases self.entries@.len() - i,
        {
            if self.entries[i].0 == *k {
                return Some(i);
            }
            i = i + 1;
        }
        proof {
            if self@.contains_key(k@) {
                let j = choose|j: int| 0 <= j < self.entries@.len() && #[trigger] self.entries@[j].0@ == k@;
                assert(self.entries@[j].0@ == k@);
            }
        }
        None
    }

    pub fn contains_key(&self, k: &str) -> (r: bool)
        requires
            self.wf(),
        ensures
            r == self@.contains_key(k@),
    {
        let key = k.to_owned();
        self.find(&key).is_some()
    }

    pub fn get(&self, k: &str) -> (r: Option<&V>)
        requires
            self.wf(),
        ensures
            match r {
                Some(v) => self@.contains_key(k@) && *v == self@[k@],
                None => !self@.contains_key(k@),
            },
    {
        let key = k.to_owned();
        match self.find(&key) {
            Some(i) => Some(&self.entries[i].1),
            None => None,
        }
    }

    /// Sets the value of `k`, adding the key when it is new.
    pub fn insert(&mut self, k: String, v: V)
        requires
            old(self).wf(),
        ensures
            final(self).wf(),
            final(self)@ == old(self)@.insert(k@, v),
    {
        let ghost kv = k@;
        let ghost m = self.model@.insert(kv, v);
        match self.find(&k) {
            Some(i) => {
                self.entries.set(i, (k, v));
                self.model = Ghost(m);
                assert forall|k2: Seq<char>| self.model@.contains_key(k2) implies exists|j: int|
                    0 <= j < self.entries@.len() && #[trigger] self.entries@[j].0@ == k2 by {
                    if k2 == kv {
                        assert(self.entries@[i as int].0@ == k2);
                    } else {
                        let j = choose|j: int| 0 <= j < old(self).entries@.len() && #[trigger] old(self).entries@[j].0@ == k2;
                        assert(self.entries@[j].0@ == k2);
                    }
                }
            },
            None => {
                self.entries.push((k, v));
                self.model = Ghost(m);
                let ghost n = self.entries@.len() - 1;
                assert forall|k2: Seq<char>| self.model@.contains_key(k2) implies exists|j: int|
                    0 <= j < self.entries@.len() && #[trigger] self.entries@[j].0@ == k2 by {
                    if k2 == kv {
                        assert(self.entries@[n].0@ == k2);
                    } else {
                        let j = choose|j: int| 0 <= j < old(self).entries@.len() && #[trigger] old(self).entries@[j].0@ == k2;
                        assert(self.entries@[j].0@ == k2);
                    }
                }
            },
        }
    }

    /// Removes the entry at position `i` and hands it back.
    fn remove_at(&mut self, i: usize) -> (r: (String, V))
        requires
            old(self).wf(),
            i < old(self).entries@.len(),
        ensures
            final(self).wf(),
            r == old(self).entries@[i as int],
            final(self)@ == old(self)@.remove(r.0@),
            final(self).entries@ == old(self).entries@.remove(i as int),
    {
        let r = self.entries.remove(i);
        let ghost kv = r.0@;
        self.model = Ghost(self.model@.remove(kv));
        assert forall|k2: Seq<char>| self.model@.contains_key(k2) implies exists|j: int|
            0 <= j < self.entries@.len() && #[trigger] self.entries@[j].0@ == k2 by {
            let j = choose|j: int| 0 <= j < old(self).entries@.len() && #[trigger] old(self).entries@[j].0@ == k2;
            if j < i {
                assert(self.entries@[j].0@ == k2);
            } else {
                assert(j != i);
                assert(self.entries@[j - 1].0@ == k2);
            }
        }
        r
    }

    /// Removes `k` and hands back its value, if the table held it.
    pub fn remove(&mut self, k: &str) -> (r: Option<V>)
        requires
            old(self).wf(),
        ensures
            final(self).wf(),
            match r {
                Some(v) => old(self)@.contains_key(k@) && v == old(self)@[k@]
                    && final(self)@ == old(self)@.remove(k@),
                None => !old(self)@.contains_key(k@) && final(self)@ == old(self)@,
            },
    {
        let key = k.to_owned();
        match self.find(&key) {
            Some(i) => {
                let (_, v) = self.remove_at(i);
                Some(v)
            },
            None => None,
        }
    }

    /// Keeps the entries whose value `keep` accepts; `pred` states what `keep` decides.
    pub fn retain<F: Fn(&V) -> bool>(&mut self, keep: F, Ghost(pred): Ghost<spec_fn(V) -> bool>)
        requires
            old(self).wf(),
            forall|v: &V| #[trigger] keep.requires((v,)),
            forall|v: &V, b: bool| keep.ensures((v,), b) ==> b == pred(*v),
        ensures
            final(self).wf(),
            final(self)@ == old(self)@.restrict(
                Set::new(|k: Seq<char>| old(self)@.contains_key(k) && pred(old(self)@[k])),
            ),
    {
        let ghost m0 = self.model@;
        let mut i: usize = self.entries.len();
        while i > 0
            invariant
                self.wf(),
                i <= self.entries@.len(),
                forall|v: &V| #[trigger] keep.requires((v,)),
                forall|v: &V, b: bool| keep.ensures((v,), b) ==> b == pred(*v),
                forall|j: int| i <= j < self.entries@.len() ==> pred(#[trigger] self.entries@[j].1),
                forall|k: Seq<char>|
                    #[trigger] self.model@.contains_key(k) ==> m0.contains_key(k) && self.model@[k]
                        == m0[k],
                forall|k: Seq<char>|
                    #[trigger] m0.contains_key(k) && !self.model@.contains_key(k) ==> !pred(m0[k]),
            decreases i,
        {
            i = i - 1;
            let kept = keep(&self.entries[i].1);
            if !kept {
                let ghost before = self.entries@;
                let ghost mb = self.model@;
                let removed = self.remove_at(i);
                assert forall|k: Seq<char>| self.model@.contains_key(k) implies m0.contains_key(k)
                    && self.model@[k] == m0[k] by {
                    assert(mb.contains_key(k));
                }
                assert(!pred(m0[removed.0@]));
                assert forall|j: int| i <= j < self.entries@.len() implies pred(#[trigger] self.entries@[j].1) by {
                    assert(self.entries@[j] == before[j + 1]);
                }
            }
        }
        let ghost target = m0.restrict(Set::new(|k: Seq<char>| m0.contains_key(k) && pred(m0[k])));
        assert forall|k: Seq<char>| self.model@.contains_key(k) implies pred(self.model@[k]) by {
            let j = choose|j: int| 0 <= j < self.entries@.len() && #[trigger] self.entries@[j].0@ == k;
            assert(pred(self.entries@[j].1));
        }
        assert forall|k: Seq<char>| #[trigger] target.contains_key(k) implies self.model@.contains_key(k) by {
            assert(m0.contains_key(k) && pred(m0[k]));
        }
        assert(self.model@ =~= target);
    }
}

} // verus!
