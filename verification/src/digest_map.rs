//! A small association map keyed by 32-byte digests, with a `Map` view.
//!
//! Catalog identities (request keys, coalescing keys, snapshot digests) are
//! fixed-width digests; the scheduler keeps at most a few thousand of them, so
//! an insertion-ordered vector with exact key comparison is sufficient.
use vstd::prelude::*;
use crate::util::digest_equal;

verus! {

broadcast use vstd::seq::group_seq_axioms, vstd::array::group_array_axioms;

/// Keys and values held in two parallel vectors; keys are distinct.
pub struct DigestMap<V> {
    keys: Vec<[u8; 32]>,
    values: Vec<V>,
}

impl<V> DigestMap<V> {
    /// Keys are distinct and every key has exactly one value.
    pub closed spec fn wf(&self) -> bool {
        &&& self.keys@.len() == self.values@.len()
        &&& forall|i: int, j: int|
            0 <= i < self.keys@.len() && 0 <= j < self.keys@.len() && i != j ==> self.keys@[i]
                != self.keys@[j]
    }

    closed spec fn index_of(&self, k: [u8; 32]) -> int {
        choose|i: int| 0 <= i < self.keys@.len() && self.keys@[i] == k
    }

    /// The map from key to value.
    pub closed spec fn view(&self) -> Map<[u8; 32], V> {
        Map::new(|k: [u8; 32]| self.keys@.contains(k), |k: [u8; 32]| self.values@[self.index_of(k)])
    }

    /// Keys in insertion order.
    pub closed spec fn key_seq(&self) -> Seq<[u8; 32]> {
        self.keys@
    }

    /// Values in insertion order.
    pub closed spec fn value_seq(&self) -> Seq<V> {
        self.values@
    }

    proof fn lemma_index(&self, i: int)
        requires
            self.wf(),
            0 <= i < self.keys@.len(),
        ensures
            self.index_of(self.keys@[i]) == i,
            self@.contains_key(self.keys@[i]),
            self@[self.keys@[i]] == self.values@[i],
    {
        let k = self.keys@[i];
        assert(self.keys@.contains(k));
        let j = self.index_of(k);
        assert(0 <= j < self.keys@.len() && self.keys@[j] == k);
    }

    /// The entries of the map are exactly the pairs at matching positions.
    pub proof fn lemma_entries(&self)
        requires
            self.wf(),
        ensures
            self.key_seq().len() == self.value_seq().len(),
            forall|i: int|
                0 <= i < self.key_seq().len() ==> #[trigger] self@.contains_key(self.key_seq()[i])
                    && self@[self.key_seq()[i]] == self.value_seq()[i],
            forall|k: [u8; 32]|
                #[trigger] self@.contains_key(k) ==> exists|i: int|
                    0 <= i < self.key_seq().len() && self.key_seq()[i] == k,
            self@.dom().finite(),
            self@.len() == self.key_seq().len(),
    {
        assert forall|i: int| 0 <= i < self.key_seq().len() implies #[trigger] self@.contains_key(
            self.key_seq()[i],
        ) && self@[self.key_seq()[i]] == self.value_seq()[i] by {
            self.lemma_index(i);
        }
        assert forall|k: [u8; 32]| #[trigger] self@.contains_key(k) implies exists|i: int|
            0 <= i < self.key_seq().len() && self.key_seq()[i] == k by {
            assert(self.keys@.contains(k));
            let i = choose|i: int| 0 <= i < self.keys@.len() && self.keys@[i] == k;
            assert(self.key_seq()[i] == k);
        }
        self.keys@.unique_seq_to_set();
        assert(self@.dom() =~= self.keys@.to_set());
    }

    pub fn new() -> (r: Self)
        ensures
            r.wf(),
            r@ == Map::<[u8; 32], V>::empty(),
            r.key_seq().len() == 0,
    {
        let r = DigestMap { keys: Vec::new(), values: Vec::new() };
        assert(r@ =~= Map::<[u8; 32], V>::empty());
        r
    }

    pub fn len(&self) -> (r: usize)
        requires
            self.wf(),
        ensures
            r == self@.len(),
            r == self.key_seq().len(),
    {
        proof {
            self.lemma_entries();
        }
        self.keys.len()
    }

    /// Position of `k`, if present.
    pub fn find(&self, k: &[u8; 32]) -> (r: Option<usize>)
        requires
            self.wf(),
        ensures
            r is None <==> !self@.contains_key(*k),
            r matches Some(i) ==> i < self.key_seq().len() && self.key_seq()[i as int] == *k
                && self@[*k] == self.value_seq()[i as int],
    {
        let mut i: usize = 0;
        while i < self.keys.len()
            invariant
                self.wf(),
                i <= self.keys@.len(),
                forall|j: int| 0 <= j < i ==> self.keys@[j] != *k,
            decreases self.keys@.len() - i,
        {
            if digest_equal(&self.keys[i], k) {
                proof {
                    self.lemma_index(i as int);
                }
                return Some(i);
            }
            i = i + 1;
        }
        proof {
            if self.keys@.contains(*k) {
                let j = choose|j: int| 0 <= j < self.keys@.len() && self.keys@[j] == *k;
                assert(self.keys@[j] != *k);
            }
        }
        None
    }

    pub fn contains_key(&self, k: &[u8; 32]) -> (r: bool)
        requires
            self.wf(),
        ensures
            r == self@.contains_key(*k),
    {
        self.find(k).is_some()
    }

    /// The value stored for `k`.
    pub fn get(&self, k: &[u8; 32]) -> (r: Option<&V>)
        requires
            self.wf(),
        ensures
            r is None <==> !self@.contains_key(*k),
            r matches Some(v) ==> *v == self@[*k],
    {
        match self.find(k) {
            Some(i) => Some(&self.values[i]),
            None => None,
        }
    }

    /// The key and value at position `i`.
    pub fn entry(&self, i: usize) -> (r: (&[u8; 32], &V))
        requires
            self.wf(),
            i < self.key_seq().len(),
        ensures
            *r.0 == self.key_seq()[i as int],
            *r.1 == self.value_seq()[i as int],
            self@.contains_key(*r.0),
            self@[*r.0] == *r.1,
    {
        proof {
            self.lemma_index(i as int);
        }
        (&self.keys[i], &self.values[i])
    }

    /// Replace the value at position `i`, keeping every key in place.
    pub fn set_value(&mut self, i: usize, v: V)
        requires
            old(self).wf(),
            i < old(self).key_seq().len(),
        ensures
            final(self).wf(),
            final(self).key_seq() == old(self).key_seq(),
            final(self).value_seq() == old(self).value_seq().update(i as int, v),
            final(self)@ == old(self)@.insert(old(self).key_seq()[i as int], v),
    {
        let ghost before = *self;
        let ghost k = self.keys@[i as int];
        self.values.set(i, v);
        proof {
            assert forall|kk: [u8; 32]| #[trigger] self@.contains_key(kk) <==> before@.insert(
                k,
                v,
            ).contains_key(kk) by {
                if kk == k {
                    assert(self.keys@.contains(kk));
                }
            }
            assert forall|kk: [u8; 32]| self@.contains_key(kk) implies #[trigger] self@[kk]
                == before@.insert(k, v)[kk] by {
                assert(self.keys@.contains(kk));
                let j = self.index_of(kk);
                before.lemma_index(j);
                if kk == k {
                    before.lemma_index(i as int);
                    assert(j == i);
                }
            }
            assert(self@ =~= before@.insert(k, v));
        }
    }

    /// Store `v` under `k`, replacing any earlier value.
    pub fn insert(&mut self, k: [u8; 32], v: V)
        requires
            old(self).wf(),
        ensures
            final(self).wf(),
            final(self)@ == old(self)@.insert(k, v),
            old(self)@.contains_key(k) ==> final(self).key_seq() == old(self).key_seq(),
    {
        match self.find(&k) {
            Some(i) => {
                let ghost before = *self;
                self.values.set(i, v);
                proof {
                    assert forall|kk: [u8; 32]| #[trigger] self@.contains_key(kk) <==> before@.insert(
                        k,
                        v,
                    ).contains_key(kk) by {
                        if kk == k {
                            assert(self.keys@.contains(kk));
                        }
                    }
                    assert forall|kk: [u8; 32]| self@.contains_key(kk) implies #[trigger] self@[kk]
                        == before@.insert(k, v)[kk] by {
                        assert(self.keys@.contains(kk));
                        let j = self.index_of(kk);
                        before.lemma_index(j);
                        if kk == k {
                            assert(j == i);
                        }
                    }
                    assert(self@ =~= before@.insert(k, v));
                }
            },
            None => {
                let ghost before = *self;
                self.keys.push(k);
                self.values.push(v);
                proof {
                    assert forall|kk: [u8; 32]| #[trigger] self@.contains_key(kk) <==> before@.insert(
                        k,
                        v,
                    ).contains_key(kk) by {
                        if self.keys@.contains(kk) && kk != k {
                            let j = choose|j: int| 0 <= j < self.keys@.len() && self.keys@[j] == kk;
                            assert(before.keys@[j] == kk);
                        }
                        if before.keys@.contains(kk) {
                            let j = choose|j: int| 0 <= j < before.keys@.len() && before.keys@[j] == kk;
                            assert(self.keys@[j] == kk);
                        }
                        if kk == k {
                            assert(self.keys@[self.keys@.len() - 1] == kk);
                        }
                    }
                    assert forall|kk: [u8; 32]| self@.contains_key(kk) implies #[trigger] self@[kk]
                        == before@.insert(k, v)[kk] by {
                        let j = self.index_of(kk);
                        assert(0 <= j < self.keys@.len() && self.keys@[j] == kk);
                        if kk == k {
                            if j < before.keys@.len() {
                                assert(before.keys@.contains(k));
                            }
                        } else {
                            before.lemma_index(j);
                        }
                    }
                    assert(self@ =~= before@.insert(k, v));
                }
            },
        }
    }

    /// Remove `k`, returning its value.
    pub fn remove(&mut self, k: &[u8; 32]) -> (r: Option<V>)
        requires
            old(self).wf(),
        ensures
            final(self).wf(),
            final(self)@ == old(self)@.remove(*k),
            r is None <==> !old(self)@.contains_key(*k),
            r matches Some(v) ==> v == old(self)@[*k],
    {
        match self.find(k) {
            Some(i) => {
                let ghost before = *self;
                self.keys.remove(i);
                let v = self.values.remove(i);
                proof {
                    assert forall|a: int, b: int|
                        0 <= a < self.keys@.len() && 0 <= b < self.keys@.len() && a != b implies self.keys@[a]
                        != self.keys@[b] by {
                        let a2 = if a < i { a } else { a + 1 };
                        let b2 = if b < i { b } else { b + 1 };
                        assert(self.keys@[a] == before.keys@[a2]);
                        assert(self.keys@[b] == before.keys@[b2]);
                    }
                    assert forall|kk: [u8; 32]| #[trigger] self@.contains_key(kk) <==> before@.remove(
                        *k,
                    ).contains_key(kk) by {
                        if self.keys@.contains(kk) {
                            let j = choose|j: int| 0 <= j < self.keys@.len() && self.keys@[j] == kk;
                            let j2 = if j < i { j } else { j + 1 };
                            assert(before.keys@[j2] == kk);
                            assert(before.keys@.contains(kk));
                        }
                        if before.keys@.contains(kk) && kk != *k {
                            let j = choose|j: int| 0 <= j < before.keys@.len() && before.keys@[j] == kk;
                            assert(j != i);
                            let j2 = if j < i { j } else { j - 1 };
                            assert(self.keys@[j2] == kk);
                        }
                    }
                    assert forall|kk: [u8; 32]| self@.contains_key(kk) implies #[trigger] self@[kk]
                        == before@.remove(*k)[kk] by {
                        let j = self.index_of(kk);
                        assert(0 <= j < self.keys@.len() && self.keys@[j] == kk);
                        let j2 = if j < i { j } else { j + 1 };
                        assert(before.keys@[j2] == kk);
                        before.lemma_index(j2);
                    }
                    assert(self@ =~= before@.remove(*k));
                }
                Some(v)
            },
            None => {
                proof {
                    assert(self@ =~= self@.remove(*k));
                }
                None
            },
        }
    }
}

} // verus!
