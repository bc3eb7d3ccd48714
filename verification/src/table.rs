//! A small keyed store: a finite map kept as two parallel lists, searched
//! from the front. Keys are identities, compared by their bytes.

use vstd::prelude::*;
use crate::identity::AccountId;

verus! {

/// A key that can be compared in executable code, and for which that
/// comparison is equality.
pub trait Key: Sized + Copy {
    /// Whether the two keys are equal.
    fn same(&self, other: &Self) -> (equal: bool)
        ensures
            equal == (*self == *other),
    ;
}

impl Key for AccountId {
    fn same(&self, other: &AccountId) -> (equal: bool) {
        *self == *other
    }
}

impl Key for crate::identity::RecordHash {
    fn same(&self, other: &crate::identity::RecordHash) -> (equal: bool) {
        *self == *other
    }
}

/// No key stands twice in the list.
pub open spec fn distinct<K>(keys: Seq<K>) -> bool {
    forall|i: int, j: int| 0 <= i < j < keys.len() ==> keys[i] != keys[j]
}

/// In a list without repetition, a key is found where it stands.
pub proof fn lemma_found_where_it_stands<K>(keys: Seq<K>, i: int)
    requires
        distinct(keys),
        0 <= i < keys.len(),
    ensures
        keys.contains(keys[i]),
        keys.index_of(keys[i]) == i,
{
    let j = keys.index_of(keys[i]);
    assert(0 <= j < keys.len() && keys[j] == keys[i]);
}

/// A finite map from keys to values.
pub struct Table<K, V> {
    keys: Vec<K>,
    values: Vec<V>,
}

impl<K: Key, V> View for Table<K, V> {
    type V = Map<K, V>;

    closed spec fn view(&self) -> Map<K, V> {
        Map::new(
            |key: K| self.keys@.contains(key),
            |key: K| self.values@[self.keys@.index_of(key)],
        )
    }
}

impl<K: Key, V> Table<K, V> {
    /// The invariant of the table: one value for each key, no key twice.
    pub closed spec fn wf(&self) -> bool {
        &&& self.keys@.len() == self.values@.len()
        &&& distinct(self.keys@)
    }

    /// How many keys the table holds.
    pub closed spec fn count(&self) -> nat {
        self.keys@.len()
    }

    /// The key at place `i`; places hold different keys.
    pub closed spec fn key_at(&self, i: int) -> K {
        self.keys@[i]
    }

    /// Different places hold different keys.
    pub proof fn lemma_places_differ(&self, i: int, j: int)
        requires
            self.wf(),
            0 <= i < j < self.count(),
        ensures
            self.key_at(i) != self.key_at(j),
    {
    }

    /// The places hold the keys of the table, and no others.
    pub proof fn lemma_places_hold_the_keys(&self, key: K)
        requires
            self.wf(),
        ensures
            self@.contains_key(key) <==> exists|i: int|
                0 <= i < self.count() && self.key_at(i) == key,
    {
        if self@.contains_key(key) {
            let i = self.keys@.index_of(key);
            assert(0 <= i < self.count() && self.key_at(i) == key);
        }
    }

    /// The empty table.
    pub fn new() -> (table: Table<K, V>)
        ensures
            table.wf(),
            table@ == Map::<K, V>::empty(),
    {
        let table = Table { keys: Vec::new(), values: Vec::new() };
        table
    }

    /// Where `key` stands, if it is there.
    fn position(&self, key: &K) -> (found: Option<usize>)
        requires
            self.wf(),
        ensures
            match found {
                Some(i) => i < self.keys@.len() && self.keys@[i as int] == *key
                    && self@.contains_key(*key) && self@[*key] == self.values@[i as int],
                None => !self@.contains_key(*key) && !self.keys@.contains(*key),
            },
    {
        let mut i: usize = 0;
        while i < self.keys.len()
            invariant
                self.wf(),
                i <= self.keys@.len(),
                forall|j: int| 0 <= j < i ==> self.keys@[j] != *key,
            decreases self.keys@.len() - i,
        {
            if self.keys[i].same(key) {
                proof {
                    lemma_found_where_it_stands(self.keys@, i as int);
                }
                return Some(i);
            }
            i += 1;
        }
        None
    }

    /// How many keys the table holds.
    pub fn len(&self) -> (count: usize)
        ensures
            count == self.count(),
    {
        self.keys.len()
    }

    /// The key at place `i`, and its value.
    pub fn entry(&self, i: usize) -> (found: (K, &V))
        requires
            self.wf(),
            i < self.count(),
        ensures
            found.0 == self.key_at(i as int),
            self@.contains_key(found.0),
            *found.1 == self@[found.0],
    {
        proof {
            lemma_found_where_it_stands(self.keys@, i as int);
        }
        (self.keys[i], &self.values[i])
    }

    /// Whether the table holds a value for `key`.
    pub fn contains(&self, key: &K) -> (present: bool)
        requires
            self.wf(),
        ensures
            present == self@.contains_key(*key),
    {
        self.position(key).is_some()
    }

    /// The value for `key`, if there is one.
    pub fn get(&self, key: &K) -> (found: Option<&V>)
        requires
            self.wf(),
        ensures
            match found {
                Some(value) => self@.contains_key(*key) && *value == self@[*key],
                None => !self@.contains_key(*key),
            },
    {
        match self.position(key) {
            Some(i) => Some(&self.values[i]),
            None => None,
        }
    }

    /// Sets the value for `key`, replacing the one that was there.
    pub fn insert(&mut self, key: K, value: V)
        requires
            old(self).wf(),
        ensures
            final(self).wf(),
            final(self)@ == old(self)@.insert(key, value),
    {
        match self.position(&key) {
            Some(i) => {
                self.values[i] = value;
                assert forall|k: K| self.keys@.contains(k) implies #[trigger] self@[k] == old(
                    self,
                )@.insert(key, value)[k] by {
                    let j = self.keys@.index_of(k);
                    lemma_found_where_it_stands(self.keys@, j);
                    lemma_found_where_it_stands(self.keys@, i as int);
                }
                assert(self@ =~= old(self)@.insert(key, value));
            },
            None => {
                self.keys.push(key);
                self.values.push(value);
                let ghost last = old(self).keys@.len() as int;
                assert(self.keys@[last] == key);
                assert forall|k: K| #[trigger]
                    self.keys@.contains(k) == (k == key || old(self).keys@.contains(k)) by {
                    if old(self).keys@.contains(k) {
                        let j = old(self).keys@.index_of(k);
                        assert(self.keys@[j] == k);
                    }
                    if self.keys@.contains(k) && k != key {
                        let j = self.keys@.index_of(k);
                        assert(old(self).keys@[j] == k);
                    }
                }
                assert forall|k: K| self.keys@.contains(k) implies #[trigger] self@[k] == old(
                    self,
                )@.insert(key, value)[k] by {
                    let j = self.keys@.index_of(k);
                    lemma_found_where_it_stands(self.keys@, j);
                    if k == key {
                        lemma_found_where_it_stands(self.keys@, last);
                    } else {
                        let before = old(self).keys@.index_of(k);
                        lemma_found_where_it_stands(old(self).keys@, before);
                        lemma_found_where_it_stands(self.keys@, before);
                    }
                }
                assert(self@ =~= old(self)@.insert(key, value));
            },
        }
    }
}

} // verus!
