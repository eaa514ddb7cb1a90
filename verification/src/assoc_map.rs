//! A finite map kept as a vector of key/value pairs with pairwise distinct keys.
//!
//! Keys are compared through [`KeyEq`], whose result is tied to the keys' views,
//! so the map's view is a `Map` from key views to value views.
use vstd::prelude::*;

verus! {

/// Executable equality that agrees with equality of views.
pub trait KeyEq: View + Sized {
    fn key_eq(&self, other: &Self) -> (same: bool)
        ensures
            same == (self@ == other@),
    ;
}

/// A map held as a list of entries; no key view occurs twice.
#[verifier::reject_recursive_types(K)]
#[verifier::reject_recursive_types(V)]
pub struct AssocMap<K: KeyEq, V: View> {
    entries: Vec<(K, V)>,
}

impl<K: KeyEq, V: View> AssocMap<K, V> {
    /// No two entries carry keys with the same view.
    #[verifier::type_invariant]
    closed spec fn keys_distinct(self) -> bool {
        forall|i: int, j: int|
            0 <= i < self.entries@.len() && 0 <= j < self.entries@.len() && i != j
                ==> #[trigger] self.entries@[i].0@ != #[trigger] self.entries@[j].0@
    }

    /// Some entry carries key view `k`.
    closed spec fn has_entry(self, k: K::V) -> bool {
        exists|i: int| 0 <= i < self.entries@.len() && #[trigger] self.entries@[i].0@ == k
    }

    /// The index of the entry with key view `k` (meaningful when `has_entry`).
    closed spec fn index_of(self, k: K::V) -> int {
        choose|i: int| 0 <= i < self.entries@.len() && #[trigger] self.entries@[i].0@ == k
    }

    /// The mathematical map that the entries stand for.
    pub closed spec fn to_map(self) -> Map<K::V, V::V> {
        Map::new(|k: K::V| self.has_entry(k), |k: K::V| self.entries@[self.index_of(k)].1@)
    }

    proof fn lemma_entry_at(self, i: int)
        requires
            self.keys_distinct(),
            0 <= i < self.entries@.len(),
        ensures
            self.to_map().contains_key(self.entries@[i].0@),
            self.to_map()[self.entries@[i].0@] == self.entries@[i].1@,
    {
        let k = self.entries@[i].0@;
        assert(self.has_entry(k));
        let c = self.index_of(k);
        assert(self.entries@[c].0@ == k);
    }

    proof fn lemma_map_finite(self)
        ensures
            self.to_map().dom().finite(),
    {
        let keys = self.entries@.map_values(|e: (K, V)| e.0@).to_set();
        assert(self.to_map().dom() =~= keys) by {
            assert forall|k: K::V| self.to_map().dom().contains(k) implies keys.contains(k) by {
                let i = self.index_of(k);
                assert(self.entries@.map_values(|e: (K, V)| e.0@)[i] == k);
            }
            assert forall|k: K::V| keys.contains(k) implies self.to_map().dom().contains(k) by {
                let s = self.entries@.map_values(|e: (K, V)| e.0@);
                let i = choose|i: int| 0 <= i < s.len() && s[i] == k;
                assert(self.entries@[i].0@ == k);
            }
        }
        vstd::seq_lib::seq_to_set_is_finite(self.entries@.map_values(|e: (K, V)| e.0@));
    }

    /// An empty map.
    pub fn new() -> (m: Self)
        ensures
            m.to_map() == Map::<K::V, V::V>::empty(),
    {
        let m = AssocMap { entries: Vec::new() };
        assert(m.to_map() =~= Map::<K::V, V::V>::empty());
        m
    }

    /// Number of entries.
    pub fn len(&self) -> (n: usize)
        ensures
            n == self.to_map().len(),
            self.to_map().dom().finite(),
            (n == 0) == (self.to_map() == Map::<K::V, V::V>::empty()),
    {
        proof {
            use_type_invariant(self);
            self.lemma_map_finite();
            self.lemma_len_matches();
        }
        let n = self.entries.len();
        proof {
            if n == 0 {
                assert(self.to_map() =~= Map::<K::V, V::V>::empty());
            } else {
                self.lemma_entry_at(0);
                assert(self.to_map() != Map::<K::V, V::V>::empty()) by {
                    assert(!Map::<K::V, V::V>::empty().contains_key(self.entries@[0].0@));
                }
            }
        }
        n
    }

    proof fn lemma_len_matches(self)
        requires
            self.keys_distinct(),
        ensures
            self.to_map().len() == self.entries@.len(),
    {
        let s = self.entries@.map_values(|e: (K, V)| e.0@);
        assert forall|i: int, j: int| 0 <= i < s.len() && 0 <= j < s.len() && i != j implies s[i]
            != s[j] by {
            assert(s[i] == self.entries@[i].0@);
            assert(s[j] == self.entries@[j].0@);
        }
        assert(s.no_duplicates());
        s.unique_seq_to_set();
        assert(self.to_map().dom() =~= s.to_set()) by {
            assert forall|k: K::V| self.to_map().dom().contains(k) implies s.to_set().contains(k) by {
                let i = self.index_of(k);
                assert(s[i] == k);
            }
            assert forall|k: K::V| s.to_set().contains(k) implies self.to_map().dom().contains(k) by {
                let i = choose|i: int| 0 <= i < s.len() && s[i] == k;
                assert(self.entries@[i].0@ == k);
            }
        }
    }

    /// Index of the entry whose key has the view of `k`, if any.
    fn find(&self, k: &K) -> (r: Option<usize>)
        ensures
            match r {
                Some(i) => i < self.entries@.len() && self.entries@[i as int].0@ == k@,
                None => !self.to_map().contains_key(k@),
            },
    {
        let mut i: usize = 0;
        while i < self.entries.len()
            invariant
                i <= self.entries@.len(),
                forall|j: int| 0 <= j < i ==> #[trigger] self.entries@[j].0@ != k@,
            decreases self.entries@.len() - i,
        {
            if self.entries[i].0.key_eq(k) {
                return Some(i);
            }
            i = i + 1;
        }
        None
    }

    /// Whether some entry has the key.
    pub fn contains_key(&self, k: &K) -> (b: bool)
        ensures
            b == self.to_map().contains_key(k@),
    {
        proof {
            use_type_invariant(self);
        }
        match self.find(k) {
            Some(i) => {
                proof {
                    self.lemma_entry_at(i as int);
                }
                true
            },
            None => false,
        }
    }

    /// The value stored under the key, if any.
    pub fn get(&self, k: &K) -> (r: Option<&V>)
        ensures
            match r {
                Some(v) => self.to_map().contains_key(k@) && self.to_map()[k@] == v@,
                None => !self.to_map().contains_key(k@),
            },
    {
        proof {
            use_type_invariant(self);
        }
        match self.find(k) {
            Some(i) => {
                proof {
                    self.lemma_entry_at(i as int);
                }
                Some(&self.entries[i].1)
            },
            None => None,
        }
    }

    /// The entries, each key once, in no particular order.
    pub fn entries(&self) -> (e: &Vec<(K, V)>)
        ensures
            forall|i: int|
                0 <= i < e@.len() ==> #[trigger] self@.contains_key(e@[i].0@) && self@[e@[i].0@]
                    == e@[i].1@,
            forall|k: K::V|
                #[trigger] self@.contains_key(k) ==> exists|i: int|
                    0 <= i < e@.len() && #[trigger] e@[i].0@ == k,
            forall|i: int, j: int|
                0 <= i < e@.len() && 0 <= j < e@.len() && i != j ==> #[trigger] e@[i].0@
                    != #[trigger] e@[j].0@,
    {
        proof {
            use_type_invariant(self);
            assert forall|i: int| 0 <= i < self.entries@.len() implies #[trigger] self@.contains_key(
                self.entries@[i].0@,
            ) && self@[self.entries@[i].0@] == self.entries@[i].1@ by {
                self.lemma_entry_at(i);
            }
            assert forall|k: K::V| #[trigger] self@.contains_key(k) implies exists|i: int|
                0 <= i < self.entries@.len() && #[trigger] self.entries@[i].0@ == k by {
                assert(self.has_entry(k));
            }
        }
        &self.entries
    }

    /// Stores `v` under `k`, replacing what was stored there.
    pub fn insert(&mut self, k: K, v: V)
        ensures
            final(self).to_map() == old(self).to_map().insert(k@, v@),
    {
        proof {
            use_type_invariant(&*self);
        }
        let ghost old_self = *self;
        match self.find(&k) {
            Some(i) => {
                let mut entries = Vec::new();
                std::mem::swap(&mut entries, &mut self.entries);
                entries.set(i, (k, v));
                self.entries = entries;
                proof {
                    let target = old_self.to_map().insert(k@, v@);
                    assert forall|kk: K::V| #[trigger]
                        self.to_map().contains_key(kk) == target.contains_key(kk) by {
                        if self.has_entry(kk) {
                            let j = self.index_of(kk);
                            if j != i {
                                assert(old_self.entries@[j].0@ == kk);
                            }
                        }
                        if old_self.has_entry(kk) {
                            let j = old_self.index_of(kk);
                            if j != i {
                                assert(self.entries@[j].0@ == kk);
                            }
                        }
                        if kk == k@ {
                            assert(self.entries@[i as int].0@ == kk);
                        }
                    }
                    assert forall|kk: K::V| #[trigger]
                        self.to_map().contains_key(kk) implies self.to_map()[kk] == target[kk] by {
                        let j = self.index_of(kk);
                        self.lemma_entry_at(j);
                        if j != i {
                            old_self.lemma_entry_at(j);
                        }
                    }
                    assert(self.to_map() =~= target);
                }
            },
            None => {
                let mut entries = Vec::new();
                std::mem::swap(&mut entries, &mut self.entries);
                entries.push((k, v));
                self.entries = entries;
                proof {
                    let n = old_self.entries@.len();
                    let target = old_self.to_map().insert(k@, v@);
                    assert forall|kk: K::V| #[trigger]
                        self.to_map().contains_key(kk) == target.contains_key(kk) by {
                        if self.has_entry(kk) {
                            let j = self.index_of(kk);
                            if j != n {
                                assert(old_self.entries@[j].0@ == kk);
                            }
                        }
                        if old_self.has_entry(kk) {
                            let j = old_self.index_of(kk);
                            assert(self.entries@[j].0@ == kk);
                        }
                        if kk == k@ {
                            assert(self.entries@[n as int].0@ == kk);
                        }
                    }
                    assert forall|kk: K::V| #[trigger]
                        self.to_map().contains_key(kk) implies self.to_map()[kk] == target[kk] by {
                        let j = self.index_of(kk);
                        self.lemma_entry_at(j);
                        if j != n {
                            old_self.lemma_entry_at(j);
                        }
                    }
                    assert(self.to_map() =~= target);
                }
            },
        }
    }

    /// Removes the entry stored under `k` and hands its value back.
    pub fn take(&mut self, k: &K) -> (r: Option<V>)
        ensures
            final(self).to_map() == old(self).to_map().remove(k@),
            match r {
                Some(v) => old(self).to_map().contains_key(k@) && old(self).to_map()[k@] == v@,
                None => !old(self).to_map().contains_key(k@),
            },
    {
        proof {
            use_type_invariant(&*self);
        }
        let ghost old_self = *self;
        match self.find(k) {
            Some(i) => {
                proof {
                    old_self.lemma_entry_at(i as int);
                }
                let mut entries = Vec::new();
                std::mem::swap(&mut entries, &mut self.entries);
                let (_, v) = entries.remove(i);
                self.entries = entries;
                proof {
                    let target = old_self.to_map().remove(k@);
                    assert forall|j: int| 0 <= j < self.entries@.len() implies #[trigger]
                        self.entries@[j] == old_self.entries@[if j < i { j } else { j + 1 }] by {}
                    assert forall|kk: K::V| #[trigger]
                        self.to_map().contains_key(kk) == target.contains_key(kk) by {
                        if self.has_entry(kk) {
                            let j = self.index_of(kk);
                            let oj = if j < i { j } else { j + 1 };
                            assert(old_self.entries@[oj].0@ == kk);
                        }
                        if old_self.has_entry(kk) && kk != k@ {
                            let oj = old_self.index_of(kk);
                            let j = if oj < i { oj } else { oj - 1 };
                            assert(self.entries@[j].0@ == kk);
                        }
                    }
                    assert forall|kk: K::V| #[trigger]
                        self.to_map().contains_key(kk) implies self.to_map()[kk] == target[kk] by {
                        let j = self.index_of(kk);
                        self.lemma_entry_at(j);
                        let oj = if j < i { j } else { j + 1 };
                        old_self.lemma_entry_at(oj);
                    }
                    assert(self.to_map() =~= target);
                }
                Some(v)
            },
            None => {
                assert(old_self.to_map().remove(k@) =~= old_self.to_map());
                None
            },
        }
    }

    /// Removes the entry stored under `k`, if there is one.
    pub fn remove(&mut self, k: &K)
        ensures
            final(self).to_map() == old(self).to_map().remove(k@),
    {
        let _ = self.take(k);
    }
}

impl<K: KeyEq, V: View> View for AssocMap<K, V> {
    type V = Map<K::V, V::V>;

    open spec fn view(&self) -> Map<K::V, V::V> {
        self.to_map()
    }
}

} // verus!
