//! A small map keyed by text.
//!
//! The settings hold two such maps. They are kept as a list of entries in
//! which no key stands twice; the view is the `Map` from each key to its value.

use vstd::prelude::*;
use crate::text::text_eq;

verus! {

/// A map from texts to values of `V`.
pub struct TextMap<V> {
    entries: Vec<(String, V)>,
}

impl<V> TextMap<V> {
    /// The keys, in the order in which they were first inserted.
    pub closed spec fn keys(self) -> Seq<Seq<char>> {
        Seq::new(self.entries@.len(), |i: int| self.entries@[i].0@)
    }

    /// The values, each at the position of its key in `keys`.
    pub closed spec fn values(self) -> Seq<V> {
        Seq::new(self.entries@.len(), |i: int| self.entries@[i].1)
    }

    /// No key stands twice.
    #[verifier::type_invariant]
    spec fn distinct_keys(self) -> bool {
        self.keys().no_duplicates()
    }

    /// The map from each key to its value.
    pub open spec fn view(self) -> Map<Seq<char>, V> {
        Map::new(
            |key: Seq<char>| self.keys().contains(key),
            |key: Seq<char>| self.values()[self.keys().index_of(key)],
        )
    }

    /// A map without entries.
    pub fn new() -> (map: Self)
        ensures
            map@ == Map::<Seq<char>, V>::empty(),
            map.keys() == Seq::<Seq<char>>::empty(),
    {
        let map = TextMap { entries: Vec::new() };
        assert(map.keys() =~= Seq::empty());
        assert(map@ =~= Map::empty());
        map
    }

    /// The number of entries.
    pub fn len(&self) -> (count: usize)
        ensures
            count == self.keys().len(),
    {
        self.entries.len()
    }

    /// The key at `position`, in order of first insertion.
    pub fn key_at(&self, position: usize) -> (key: &str)
        requires
            position < self.keys().len(),
        ensures
            key@ == self.keys()[position as int],
    {
        self.entries[position].0.as_str()
    }

    /// The value at `position`, in order of first insertion.
    pub fn value_at(&self, position: usize) -> (value: &V)
        requires
            position < self.keys().len(),
        ensures
            *value == self.values()[position as int],
    {
        &self.entries[position].1
    }

    fn position(&self, key: &str) -> (found: Option<usize>)
        ensures
            match found {
                Some(at) => at < self.keys().len() && self.keys()[at as int] == key@,
                None => !self.keys().contains(key@),
            },
    {
        let mut at: usize = 0;
        while at < self.entries.len()
            invariant
                at <= self.entries@.len(),
                forall|k: int| 0 <= k < at ==> self.keys()[k] != key@,
            decreases self.entries@.len() - at,
        {
            if text_eq(self.entries[at].0.as_str(), key) {
                return Some(at);
            }
            at += 1;
        }
        None
    }

    /// The value under `key`, if there is one.
    pub fn get(&self, key: &str) -> (value: Option<&V>)
        ensures
            match value {
                Some(held) => self@.contains_key(key@) && *held == self@[key@],
                None => !self@.contains_key(key@),
            },
    {
        match self.position(key) {
            Some(at) => {
                proof {
                    use_type_invariant(self);
                    self.keys().index_of_first_ensures(key@);
                }
                Some(&self.entries[at].1)
            },
            None => None,
        }
    }

    /// Puts `value` under `key`; a value that stood there is replaced.
    pub fn insert(&mut self, key: String, value: V)
        ensures
            final(self)@ == old(self)@.insert(key@, value),
            old(self)@.contains_key(key@) ==> final(self).keys() == old(self).keys(),
            !old(self)@.contains_key(key@) ==> final(self).keys() == old(self).keys().push(key@),
    {
        let ghost before = *self;
        proof {
            use_type_invariant(&*self);
        }
        let found = self.position(key.as_str());
        let mut taken = TextMap { entries: Vec::new() };
        assert(taken.keys() =~= Seq::empty());
        core::mem::swap(self, &mut taken);
        let mut entries = taken.entries;
        match found {
            Some(at) => {
                entries.set(at, (key, value));
                assert(Seq::new(entries@.len(), |i: int| entries@[i].0@) =~= before.keys());
                *self = TextMap { entries };
                assert(self.keys() =~= before.keys());
                assert(self.values() =~= before.values().update(at as int, value));
                assert(self@ =~= before@.insert(key@, value)) by {
                    assert forall|k: Seq<char>| self.keys().contains(k) implies #[trigger] self@[k]
                        == before@.insert(key@, value)[k] by {
                        let i = self.keys().index_of(k);
                        if k == key@ {
                            assert(i == at);
                        } else {
                            assert(i != at);
                        }
                    }
                }
            },
            None => {
                entries.push((key, value));
                assert(Seq::new(entries@.len(), |i: int| entries@[i].0@) =~= before.keys().push(
                    key@,
                ));
                assert(before.keys().push(key@).no_duplicates()) by {
                    let grown = before.keys().push(key@);
                    assert forall|i: int, j: int|
                        0 <= i < grown.len() && 0 <= j < grown.len() && i != j implies grown[i]
                        != grown[j] by {
                        if i < before.keys().len() && j < before.keys().len() {
                        } else if i < before.keys().len() {
                            assert(before.keys().contains(before.keys()[i]));
                        } else {
                            assert(before.keys().contains(before.keys()[j]));
                        }
                    }
                }
                *self = TextMap { entries };
                assert(self.keys() =~= before.keys().push(key@));
                assert(self.values() =~= before.values().push(value));
                assert(self@ =~= before@.insert(key@, value)) by {
                    assert forall|k: Seq<char>| self.keys().contains(k) <==> (k == key@
                        || before.keys().contains(k)) by {
                        if before.keys().contains(k) {
                            let i = before.keys().index_of(k);
                            assert(self.keys()[i] == k);
                        }
                        if k == key@ {
                            assert(self.keys()[before.keys().len() as int] == k);
                        }
                    }
                    assert forall|k: Seq<char>| self.keys().contains(k) implies #[trigger] self@[k]
                        == before@.insert(key@, value)[k] by {
                        let i = self.keys().index_of(k);
                        if k != key@ {
                            let j = before.keys().index_of(k);
                            assert(self.keys()[j] == k);
                            assert(i == j);
                        } else {
                            assert(self.keys()[before.keys().len() as int] == k);
                            assert(i == before.keys().len());
                        }
                    }
                }
            },
        }
    }
}

} // verus!
