//! Keyed storage shared by the pallets: a finite map with lookup by key.

use vstd::prelude::*;

verus! {

/// What a type needs to serve as the key of a [`StorageMap`].
///
/// Two keys address the same entry exactly when their views are equal.
pub trait Key: View + Sized {
    /// Tells whether `self` and `other` address the same entry.
    fn same(&self, other: &Self) -> (eq: bool)
        ensures
            eq == (self@ == other@),
    ;

    /// Makes another key that addresses the same entry.
    fn duplicate(&self) -> (copy: Self)
        ensures
            copy@ == self@,
    ;
}

impl Key for String {
    fn same(&self, other: &Self) -> (eq: bool) {
        *self == *other
    }

    fn duplicate(&self) -> (copy: Self) {
        self.clone()
    }
}

/// Whether some entry of `entries` is stored under `key`.
spec fn has_key<K: Key, V>(entries: Seq<(K, V)>, key: K::V) -> bool {
    exists|i: int| 0 <= i < entries.len() && (#[trigger] entries[i]).0@ == key
}

/// The position of an entry of `entries` stored under `key`.
spec fn position_of<K: Key, V>(entries: Seq<(K, V)>, key: K::V) -> int {
    choose|i: int| 0 <= i < entries.len() && (#[trigger] entries[i]).0@ == key
}

/// The map that a sequence of entries stands for.
spec fn entries_map<K: Key, V>(entries: Seq<(K, V)>) -> Map<K::V, V> {
    Map::new(|key: K::V| has_key(entries, key), |key: K::V| entries[position_of(entries, key)].1)
}

/// No two entries of `entries` are stored under the same key.
spec fn distinct_keys<K: Key, V>(entries: Seq<(K, V)>) -> bool {
    forall|i: int, j: int|
        0 <= i < j < entries.len() ==> (#[trigger] entries[i]).0@ != (#[trigger] entries[j]).0@
}

/// With distinct keys, the entry at position `i` is the one the map holds
/// under its key.
proof fn lemma_entry_in_map<K: Key, V>(entries: Seq<(K, V)>, i: int)
    requires
        distinct_keys(entries),
        0 <= i < entries.len(),
    ensures
        entries_map(entries).contains_key(entries[i].0@),
        entries_map(entries)[entries[i].0@] == entries[i].1,
{
    let key = entries[i].0@;
    assert(has_key(entries, key));
    let j = position_of(entries, key);
    assert(0 <= j < entries.len() && entries[j].0@ == key);
    assert(j == i);
}

/// A key that no entry is stored under is not in the map.
proof fn lemma_absent_from_map<K: Key, V>(entries: Seq<(K, V)>, key: K::V)
    requires
        forall|i: int| 0 <= i < entries.len() ==> (#[trigger] entries[i]).0@ != key,
    ensures
        !entries_map(entries).contains_key(key),
{
}

/// Appending an entry under a fresh key inserts it into the map.
proof fn lemma_push_inserts<K: Key, V>(entries: Seq<(K, V)>, key: K, value: V)
    requires
        distinct_keys(entries),
        forall|i: int| 0 <= i < entries.len() ==> (#[trigger] entries[i]).0@ != key@,
    ensures
        distinct_keys(entries.push((key, value))),
        entries_map(entries.push((key, value))) == entries_map(entries).insert(key@, value),
{
    let after = entries.push((key, value));
    assert(distinct_keys(after));
    assert forall|q: K::V| has_key(after, q) <==> (q == key@ || has_key(entries, q)) by {
        if has_key(entries, q) {
            let i = position_of(entries, q);
            assert(after[i].0@ == q);
        }
        if q == key@ {
            assert(after[entries.len() as int].0@ == q);
        }
        if has_key(after, q) {
            let i = position_of(after, q);
            if i < entries.len() {
                assert(entries[i].0@ == q);
            }
        }
    }
    assert forall|q: K::V| has_key(after, q) implies #[trigger] entries_map(after)[q]
        == entries_map(entries).insert(key@, value)[q] by {
        let i = position_of(after, q);
        lemma_entry_in_map(after, i);
        if i < entries.len() {
            assert(entries[i].0@ == q);
            lemma_entry_in_map(entries, i);
        }
    }
    assert(entries_map(after) =~= entries_map(entries).insert(key@, value));
}

/// Replacing the entry at position `i` under the same key overwrites its value
/// in the map.
proof fn lemma_update_inserts<K: Key, V>(entries: Seq<(K, V)>, i: int, key: K, value: V)
    requires
        distinct_keys(entries),
        0 <= i < entries.len(),
        entries[i].0@ == key@,
    ensures
        distinct_keys(entries.update(i, (key, value))),
        entries_map(entries.update(i, (key, value))) == entries_map(entries).insert(key@, value),
{
    let after = entries.update(i, (key, value));
    assert(distinct_keys(after)) by {
        assert forall|a: int, b: int| 0 <= a < b < after.len() implies (#[trigger] after[a]).0@ != (
        #[trigger] after[b]).0@ by {
            assert(after[a].0@ == entries[a].0@);
            assert(after[b].0@ == entries[b].0@);
        }
    }
    assert forall|q: K::V| has_key(after, q) <==> (q == key@ || has_key(entries, q)) by {
        if has_key(entries, q) {
            let j = position_of(entries, q);
            assert(after[j].0@ == q);
        }
        if q == key@ {
            assert(after[i].0@ == q);
        }
        if has_key(after, q) {
            let j = position_of(after, q);
            assert(entries[j].0@ == q);
        }
    }
    assert forall|q: K::V| has_key(after, q) implies #[trigger] entries_map(after)[q]
        == entries_map(entries).insert(key@, value)[q] by {
        let j = position_of(after, q);
        lemma_entry_in_map(after, j);
        if j != i {
            assert(entries[j].0@ == q);
            lemma_entry_in_map(entries, j);
        }
    }
    assert(entries_map(after) =~= entries_map(entries).insert(key@, value));
}

/// Dropping the entry at position `i` removes its key from the map.
proof fn lemma_remove_removes<K: Key, V>(entries: Seq<(K, V)>, i: int)
    requires
        distinct_keys(entries),
        0 <= i < entries.len(),
    ensures
        distinct_keys(entries.remove(i)),
        entries_map(entries.remove(i)) == entries_map(entries).remove(entries[i].0@),
{
    let after = entries.remove(i);
    let key = entries[i].0@;
    assert forall|a: int| 0 <= a < after.len() implies #[trigger] after[a] == entries[if a < i {
        a
    } else {
        a + 1
    }] by {}
    assert(distinct_keys(after)) by {
        assert forall|a: int, b: int| 0 <= a < b < after.len() implies (#[trigger] after[a]).0@ != (
        #[trigger] after[b]).0@ by {
            let a0 = if a < i { a } else { a + 1 };
            let b0 = if b < i { b } else { b + 1 };
            assert(after[a] == entries[a0]);
            assert(after[b] == entries[b0]);
        }
    }
    assert forall|q: K::V| has_key(after, q) <==> (q != key && has_key(entries, q)) by {
        if q != key && has_key(entries, q) {
            let j = position_of(entries, q);
            let j1 = if j < i { j } else { j - 1 };
            assert(after[j1] == entries[j]);
        }
        if has_key(after, q) {
            let j = position_of(after, q);
            let j0 = if j < i { j } else { j + 1 };
            assert(after[j] == entries[j0]);
            assert(entries[j0].0@ == q);
        }
    }
    assert forall|q: K::V| has_key(after, q) implies #[trigger] entries_map(after)[q]
        == entries_map(entries).remove(key)[q] by {
        let j = position_of(after, q);
        let j0 = if j < i { j } else { j + 1 };
        lemma_entry_in_map(after, j);
        assert(after[j] == entries[j0]);
        lemma_entry_in_map(entries, j0);
    }
    assert(entries_map(after) =~= entries_map(entries).remove(key));
}

/// The map of any sequence of entries has a finite domain.
proof fn lemma_entries_map_finite<K: Key, V>(entries: Seq<(K, V)>)
    ensures
        entries_map(entries).dom().finite(),
    decreases entries.len(),
{
    if entries.len() == 0 {
        assert(entries_map(entries).dom() =~= Set::<K::V>::empty());
    } else {
        let front = entries.drop_last();
        let last = entries.last();
        lemma_entries_map_finite(front);
        assert forall|q: K::V| has_key(entries, q) <==> (q == last.0@ || has_key(front, q)) by {
            if has_key(front, q) {
                let i = position_of(front, q);
                assert(entries[i].0@ == q);
            }
            if q == last.0@ {
                assert(entries[entries.len() - 1].0@ == q);
            }
            if has_key(entries, q) {
                let i = position_of(entries, q);
                if i < front.len() {
                    assert(front[i].0@ == q);
                }
            }
        }
        assert(entries_map(entries).dom() =~= entries_map(front).dom().insert(last.0@));
    }
}

/// A finite map from keys to values, the storage of a pallet.
///
/// The view is the map from the keys' views to the values.
#[derive(Debug)]
pub struct StorageMap<K: Key, V> {
    entries: Vec<(K, V)>,
}

impl<K: Key, V> View for StorageMap<K, V> {
    type V = Map<K::V, V>;

    closed spec fn view(&self) -> Map<K::V, V> {
        entries_map(self.entries@)
    }
}

impl<K: Key, V> StorageMap<K, V> {
    #[verifier::type_invariant]
    spec fn well_formed(self) -> bool {
        distinct_keys(self.entries@)
    }

    /// The domain of the view is finite.
    pub proof fn lemma_finite(self)
        ensures
            self@.dom().finite(),
    {
        lemma_entries_map_finite(self.entries@);
    }

    /// Creates a map with no entry.
    pub fn new() -> (map: Self)
        ensures
            map@ == Map::<K::V, V>::empty(),
    {
        let map = StorageMap { entries: Vec::new() };
        assert(map@ =~= Map::<K::V, V>::empty());
        map
    }

    /// Tells whether the map has no entry.
    pub fn is_empty(&self) -> (empty: bool)
        ensures
            empty == (self@ == Map::<K::V, V>::empty()),
    {
        let empty = self.entries.len() == 0;
        proof {
            if empty {
                assert(self@ =~= Map::<K::V, V>::empty());
            } else {
                assert(has_key(self.entries@, self.entries@[0].0@));
                assert(self@.contains_key(self.entries@[0].0@));
            }
        }
        empty
    }

    /// Finds the position of the entry stored under `key`.
    fn find(&self, key: &K) -> (found: Option<usize>)
        ensures
            match found {
                Some(i) => i < self.entries@.len() && self.entries@[i as int].0@ == key@,
                None => forall|i: int|
                    0 <= i < self.entries@.len() ==> (#[trigger] self.entries@[i]).0@ != key@,
            },
    {
        let mut i: usize = 0;
        while i < self.entries.len()
            invariant
                i <= self.entries@.len(),
                forall|j: int| 0 <= j < i ==> (#[trigger] self.entries@[j]).0@ != key@,
            decreases self.entries@.len() - i,
        {
            if self.entries[i].0.same(key) {
                return Some(i);
            }
            i += 1;
        }
        None
    }

    /// Tells whether an entry is stored under `key`.
    pub fn contains_key(&self, key: &K) -> (found: bool)
        ensures
            found == self@.contains_key(key@),
    {
        self.get(key).is_some()
    }

    /// Looks up the value stored under `key`.
    pub fn get(&self, key: &K) -> (value: Option<&V>)
        ensures
            match value {
                Some(v) => self@.contains_key(key@) && *v == self@[key@],
                None => !self@.contains_key(key@),
            },
    {
        proof {
            use_type_invariant(self);
        }
        match self.find(key) {
            Some(i) => {
                proof {
                    lemma_entry_in_map(self.entries@, i as int);
                }
                Some(&self.entries[i].1)
            },
            None => {
                proof {
                    lemma_absent_from_map(self.entries@, key@);
                }
                None
            },
        }
    }

    /// Stores `value` under `key`, in place of the value stored there before,
    /// if any.
    pub fn insert(&mut self, key: K, value: V)
        ensures
            final(self)@ == old(self)@.insert(key@, value),
    {
        proof {
            use_type_invariant(&*self);
        }
        let found = self.find(&key);
        let mut entries: Vec<(K, V)> = Vec::new();
        core::mem::swap(&mut self.entries, &mut entries);
        match found {
            Some(i) => {
                proof {
                    lemma_update_inserts(entries@, i as int, key, value);
                }
                entries.set(i, (key, value));
            },
            None => {
                proof {
                    lemma_push_inserts(entries@, key, value);
                }
                entries.push((key, value));
            },
        }
        self.entries = entries;
    }

    /// Removes the entry stored under `key`, if there is one.
    pub fn remove(&mut self, key: &K)
        ensures
            final(self)@ == old(self)@.remove(key@),
    {
        proof {
            use_type_invariant(&*self);
        }
        match self.find(key) {
            Some(i) => {
                let mut entries: Vec<(K, V)> = Vec::new();
                core::mem::swap(&mut self.entries, &mut entries);
                proof {
                    lemma_remove_removes(entries@, i as int);
                }
                entries.remove(i);
                self.entries = entries;
            },
            None => {
                proof {
                    lemma_absent_from_map(self.entries@, key@);
                    assert(self@.remove(key@) =~= self@);
                }
            },
        }
    }
}

} // verus!
