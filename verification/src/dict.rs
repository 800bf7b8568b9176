//! A mapping from text keys to values that remembers the order in which its
//! keys arrived.

use vstd::prelude::*;

verus! {

/// True when no two positions of `keys` hold the same key.
pub open spec fn distinct_keys(keys: Seq<Seq<char>>) -> bool {
    forall|i: int, j: int| 0 <= i < j < keys.len() ==> keys[i] != keys[j]
}

/// The first position of `key` in `keys`, if it occurs.
pub open spec fn key_position(keys: Seq<Seq<char>>, key: Seq<char>) -> Option<int> {
    if exists|i: int| 0 <= i < keys.len() && keys[i] == key {
        Some(choose|i: int| 0 <= i < keys.len() && keys[i] == key
            && forall|j: int| 0 <= j < i ==> keys[j] != key)
    } else {
        None
    }
}

/// The first position of a key is the position at which it stands with no
/// equal key before it.
pub proof fn lemma_key_position(keys: Seq<Seq<char>>, key: Seq<char>, i: int)
    requires
        0 <= i < keys.len(),
        keys[i] == key,
        forall|j: int| 0 <= j < i ==> keys[j] != key,
    ensures
        key_position(keys, key) == Some(i),
{
    let k = key_position(keys, key)->Some_0;
    assert(0 <= k < keys.len() && keys[k] == key && forall|j: int| 0 <= j < k ==> keys[j] != key);
    if k < i {
        assert(keys[k] != key);
    }
    if i < k {
        assert(keys[i] != key);
    }
}

/// An insertion-ordered mapping with `String` keys. Each key occurs once.
#[derive(Debug, PartialEq, Eq)]
pub struct Dict<V> {
    entries: Vec<(String, V)>,
}

impl<V> Dict<V> {
    /// The keys, in insertion order.
    pub closed spec fn keys(&self) -> Seq<Seq<char>> {
        self.entries@.map_values(|e: (String, V)| e.0@)
    }

    /// The values, each at the position of its key.
    pub closed spec fn values(&self) -> Seq<V> {
        self.entries@.map_values(|e: (String, V)| e.1)
    }

    /// Every key occurs once. Holds of every `Dict` that executable code
    /// can reach.
    #[verifier::type_invariant]
    pub open spec fn wf(&self) -> bool {
        distinct_keys(self.keys())
    }

    /// Keys and values always pair up.
    pub proof fn lemma_same_length(&self)
        ensures
            self.keys().len() == self.values().len(),
    {
    }

    /// The empty mapping.
    pub fn new() -> (d: Self)
        ensures
            d.keys() == Seq::<Seq<char>>::empty(),
            d.values() == Seq::<V>::empty(),
            d.wf(),
    {
        let d = Dict { entries: Vec::new() };
        assert(d.keys() =~= Seq::<Seq<char>>::empty());
        assert(d.values() =~= Seq::<V>::empty());
        d
    }

    /// The mapping with the given entries, whose keys differ from each
    /// other.
    pub(crate) fn from_distinct(entries: Vec<(String, V)>) -> (d: Self)
        requires
            distinct_keys(entries@.map_values(|e: (String, V)| e.0@)),
        ensures
            d.keys() == entries@.map_values(|e: (String, V)| e.0@),
            d.values() == entries@.map_values(|e: (String, V)| e.1),
            d.wf(),
    {
        Dict { entries }
    }

    /// The number of keys.
    pub fn len(&self) -> (n: usize)
        ensures
            n == self.keys().len(),
            n == self.values().len(),
    {
        self.entries.len()
    }

    /// The key and value at position `i`, or `None` past the end.
    pub fn entry(&self, i: usize) -> (r: Option<(&String, &V)>)
        ensures
            match r {
                Some((k, v)) => i < self.keys().len() && k@ == self.keys()[i as int] && *v
                    == self.values()[i as int],
                None => i >= self.keys().len(),
            },
    {
        if i < self.entries.len() {
            let e = &self.entries[i];
            Some((&e.0, &e.1))
        } else {
            None
        }
    }

    /// The position of `key`, if the mapping holds it.
    pub fn position(&self, key: &String) -> (r: Option<usize>)
        ensures
            match r {
                Some(i) => key_position(self.keys(), key@) == Some(i as int),
                None => key_position(self.keys(), key@) is None,
            },
            r matches Some(i) ==> i < self.keys().len() && self.keys()[i as int] == key@,
    {
        let mut i: usize = 0;
        while i < self.entries.len()
            invariant
                i <= self.entries.len(),
                forall|j: int| 0 <= j < i ==> self.keys()[j] != key@,
            decreases self.entries.len() - i,
        {
            if self.entries[i].0 == *key {
                proof {
                    lemma_key_position(self.keys(), key@, i as int);
                }
                return Some(i);
            }
            i += 1;
        }
        None
    }

    /// The value stored under `key`, if any.
    pub fn get(&self, key: &String) -> (r: Option<&V>)
        ensures
            match key_position(self.keys(), key@) {
                Some(i) => r == Some(&self.values()[i]),
                None => r is None,
            },
    {
        match self.position(key) {
            Some(i) => Some(&self.entries[i].1),
            None => None,
        }
    }

    /// Stores `value` under `key`. A key that is already present keeps its
    /// position and takes the new value; a new key goes to the end.
    pub fn insert(&mut self, key: String, value: V)
        ensures
            final(self).wf(),
            match key_position(old(self).keys(), key@) {
                Some(i) => final(self).keys() == old(self).keys() && final(self).values() == old(
                    self,
                ).values().update(i, value),
                None => final(self).keys() == old(self).keys().push(key@) && final(self).values()
                    == old(self).values().push(value),
            },
    {
        proof {
            use_type_invariant(&*self);
        }
        let ghost before = *self;
        let found = self.position(&key);
        let mut entries: Vec<(String, V)> = Vec::new();
        std::mem::swap(&mut self.entries, &mut entries);
        match found {
            Some(i) => {
                entries.set(i, (key, value));
            },
            None => {
                entries.push((key, value));
            },
        }
        proof {
            let keys = entries@.map_values(|e: (String, V)| e.0@);
            let values = entries@.map_values(|e: (String, V)| e.1);
            match found {
                Some(i) => {
                    assert(keys =~= before.keys());
                    assert(values =~= before.values().update(i as int, value));
                },
                None => {
                    assert(keys =~= before.keys().push(key@));
                    assert(values =~= before.values().push(value));
                },
            }
        }
        self.entries = entries;
    }
}

impl<V: View> View for Dict<V> {
    type V = Seq<(Seq<char>, V::V)>;

    /// The pairs of key and value, each value by its own view, in insertion
    /// order.
    open spec fn view(&self) -> Seq<(Seq<char>, V::V)> {
        Seq::new(self.keys().len(), |i: int| (self.keys()[i], self.values()[i]@))
    }
}

impl<V: Clone> Clone for Dict<V> {
    /// A copy with the same keys in the same order, each with a clone of its
    /// value.
    fn clone(&self) -> (r: Self)
        ensures
            r.keys() == self.keys(),
            r.values().len() == self.values().len(),
            forall|i: int|
                0 <= i < self.values().len() ==> cloned::<V>(
                    #[trigger] self.values()[i],
                    r.values()[i],
                ),
            r.wf(),
    {
        proof {
            use_type_invariant(self);
        }
        let mut entries: Vec<(String, V)> = Vec::new();
        let mut i: usize = 0;
        while i < self.entries.len()
            invariant
                i <= self.entries.len(),
                entries@.len() == i,
                forall|j: int|
                    0 <= j < i ==> (#[trigger] entries@[j]).0@ == self.entries@[j].0@ && cloned::<
                        V,
                    >(self.entries@[j].1, entries@[j].1),
            decreases self.entries.len() - i,
        {
            let e = &self.entries[i];
            entries.push((e.0.clone(), e.1.clone()));
            i += 1;
        }
        assert(entries@.map_values(|e: (String, V)| e.0@) =~= self.keys());
        Dict { entries }
    }
}

} // verus!
