//! A small keyed table: at most one value under each key.

use vstd::prelude::*;
use crate::identity::Identity;
use crate::records::TaskKey;

verus! {

/// A key that can be compared while the program runs.
pub(crate) trait SlotKey: Copy {
    /// Whether the two keys are the same key.
    fn same(&self, other: &Self) -> (r: bool)
        ensures
            r == (*self == *other),
    ;
}

impl SlotKey for Identity {
    fn same(&self, other: &Self) -> (r: bool) {
        *self == *other
    }
}

impl SlotKey for TaskKey {
    fn same(&self, other: &Self) -> (r: bool) {
        self.index == other.index && self.owner == other.owner
    }
}

/// The place of `key` among the keys of `entries`, or any number if it has none.
pub(crate) open spec fn place_of<K, V>(entries: Seq<(K, V)>, key: K) -> int {
    choose|i: int| 0 <= i < entries.len() && entries[i].0 == key
}

/// Whether some entry has the key.
pub(crate) open spec fn has_key<K, V>(entries: Seq<(K, V)>, key: K) -> bool {
    exists|i: int| 0 <= i < entries.len() && entries[i].0 == key
}

/// No key stands twice.
pub(crate) open spec fn keys_distinct<K, V>(entries: Seq<(K, V)>) -> bool {
    forall|i: int, j: int|
        0 <= i < entries.len() && 0 <= j < entries.len() && i != j ==> entries[i].0
            != entries[j].0
}

/// The entries as a map from key to value.
pub(crate) open spec fn as_map<K, V>(entries: Seq<(K, V)>) -> Map<K, V> {
    Map::new(|key: K| has_key(entries, key), |key: K| entries[place_of(entries, key)].1)
}

/// With distinct keys, the map gives under each entry's key that entry's value.
pub(crate) proof fn lemma_entry_in_map<K, V>(entries: Seq<(K, V)>, i: int)
    requires
        keys_distinct(entries),
        0 <= i < entries.len(),
    ensures
        as_map(entries).contains_key(entries[i].0),
        as_map(entries)[entries[i].0] == entries[i].1,
{
    assert(has_key(entries, entries[i].0));
}

/// Taking the entry at `i` away removes its key from the map and nothing else.
pub(crate) proof fn lemma_remove_entry<K, V>(entries: Seq<(K, V)>, i: int)
    requires
        keys_distinct(entries),
        0 <= i < entries.len(),
    ensures
        keys_distinct(entries.remove(i)),
        as_map(entries.remove(i)) == as_map(entries).remove(entries[i].0),
{
    let rest = entries.remove(i);
    let gone = entries[i].0;
    assert forall|a: int, b: int|
        0 <= a < rest.len() && 0 <= b < rest.len() && a != b implies rest[a].0 != rest[b].0 by {
        let a0 = if a < i { a } else { a + 1 };
        let b0 = if b < i { b } else { b + 1 };
        assert(rest[a] == entries[a0] && rest[b] == entries[b0]);
    }
    assert forall|key: K| as_map(rest).contains_key(key) <==> as_map(entries).remove(
        gone,
    ).contains_key(key) by {
        if has_key(rest, key) {
            let a = place_of(rest, key);
            let a0 = if a < i { a } else { a + 1 };
            assert(rest[a] == entries[a0]);
        }
        if has_key(entries, key) && key != gone {
            let b0 = place_of(entries, key);
            let b = if b0 < i { b0 } else { b0 - 1 };
            assert(rest[b] == entries[b0]);
        }
    }
    assert forall|key: K| as_map(rest).contains_key(key) implies as_map(rest)[key] == as_map(
        entries,
    ).remove(gone)[key] by {
        let a = place_of(rest, key);
        let a0 = if a < i { a } else { a + 1 };
        assert(rest[a] == entries[a0]);
        lemma_entry_in_map(entries, a0);
    }
    assert(as_map(rest) =~= as_map(entries).remove(gone));
}

/// Writing a value under a key, over the entry that has the key or behind
/// the last entry if none has it, inserts it into the map.
pub(crate) proof fn lemma_write_entry<K, V>(
    entries: Seq<(K, V)>,
    after: Seq<(K, V)>,
    key: K,
    value: V,
)
    requires
        keys_distinct(entries),
        has_key(entries, key) ==> after == entries.update(place_of(entries, key), (key, value)),
        !has_key(entries, key) ==> after == entries.push((key, value)),
    ensures
        keys_distinct(after),
        as_map(after) == as_map(entries).insert(key, value),
{
    let at = if has_key(entries, key) { place_of(entries, key) } else { entries.len() as int };
    assert(after.len() > at && after[at] == (key, value));
    assert forall|a: int| 0 <= a < after.len() && a != at implies a < entries.len() && after[a]
        == entries[a] && after[a].0 != key by {}
    assert(keys_distinct(after));
    lemma_entry_in_map(after, at);
    assert forall|other: K| other != key implies (has_key(after, other) <==> has_key(
        entries,
        other,
    )) by {
        if has_key(after, other) {
            let a = place_of(after, other);
            assert(entries[a].0 == other);
        }
        if has_key(entries, other) {
            let a = place_of(entries, other);
            assert(after[a].0 == other);
        }
    }
    assert forall|other: K| other != key && has_key(entries, other) implies as_map(after)[other]
        == as_map(entries)[other] by {
        let a = place_of(entries, other);
        assert(after[a] == entries[a]);
        lemma_entry_in_map(after, a);
    }
    assert(as_map(after) =~= as_map(entries).insert(key, value));
}

/// Keyed values, held in the order in which they came.
pub(crate) struct Table<K, V> {
    entries: Vec<(K, V)>,
}

impl<K, V> Table<K, V> {
    #[verifier::type_invariant]
    spec fn distinct(self) -> bool {
        keys_distinct(self.entries@)
    }

    /// What the table holds.
    pub(crate) closed spec fn map(&self) -> Map<K, V> {
        as_map(self.entries@)
    }
}

impl<K: SlotKey, V> Table<K, V> {
    /// A table without any entry.
    pub(crate) fn new() -> (table: Self)
        ensures
            table.map() == Map::<K, V>::empty(),
    {
        let table = Table { entries: Vec::new() };
        assert(table.map() =~= Map::<K, V>::empty());
        table
    }

    /// Where `key` stands, if anywhere.
    fn position(&self, key: &K) -> (r: Option<usize>)
        ensures
            match r {
                Some(i) => i < self.entries@.len() && self.entries@[i as int].0 == *key,
                None => !has_key(self.entries@, *key),
            },
    {
        let mut i: usize = 0;
        while i < self.entries.len()
            invariant
                i <= self.entries@.len(),
                forall|j: int| 0 <= j < i ==> self.entries@[j].0 != *key,
            decreases self.entries@.len() - i,
        {
            if self.entries[i].0.same(key) {
                return Some(i);
            }
            i += 1;
        }
        None
    }

    /// The value under `key`, if there is one.
    pub(crate) fn get(&self, key: &K) -> (r: Option<&V>)
        ensures
            r == if self.map().contains_key(*key) {
                Some(&self.map()[*key])
            } else {
                None
            },
    {
        proof {
            use_type_invariant(self);
        }
        match self.position(key) {
            Some(i) => {
                assert(has_key(self.entries@, *key));
                Some(&self.entries[i].1)
            },
            None => None,
        }
    }

    /// Takes the value under `key` out of the table, if there is one.
    pub(crate) fn take(&mut self, key: &K) -> (r: Option<V>)
        ensures
            r == if old(self).map().contains_key(*key) {
                Some(old(self).map()[*key])
            } else {
                None
            },
            final(self).map() == old(self).map().remove(*key),
    {
        proof {
            use_type_invariant(&*self);
        }
        match self.position(key) {
            Some(i) => {
                assert(has_key(self.entries@, *key));
                let mut entries = Vec::new();
                std::mem::swap(&mut entries, &mut self.entries);
                proof {
                    lemma_entry_in_map(entries@, i as int);
                    lemma_remove_entry(entries@, i as int);
                }
                let entry = entries.remove(i);
                self.entries = entries;
                Some(entry.1)
            },
            None => {
                assert(self.map() =~= old(self).map().remove(*key));
                None
            },
        }
    }

    /// Puts `value` under `key`, in place of what was there.
    pub(crate) fn insert(&mut self, key: K, value: V)
        ensures
            final(self).map() == old(self).map().insert(key, value),
    {
        proof {
            use_type_invariant(&*self);
        }
        let place = self.position(&key);
        let mut entries = Vec::new();
        std::mem::swap(&mut entries, &mut self.entries);
        match place {
            Some(i) => {
                assert(has_key(entries@, key) && place_of(entries@, key) == i);
                entries.set(i, (key, value));
            },
            None => {
                entries.push((key, value));
            },
        }
        proof {
            lemma_write_entry(old(self).entries@, entries@, key, value);
        }
        self.entries = entries;
    }
}

} // verus!
