//! A small keyed store: at most one value for each identity.
//!
//! The entries lie in a vector, and no identity keys two of them. To its
//! users the store is the map from identities to values that `view` gives.

use vstd::prelude::*;
use crate::identity::Identity;

verus! {

/// One slot of the store.
struct Entry<T> {
    key: Identity,
    value: T,
}

/// Whether some entry is keyed by `key`.
spec fn holds<T>(entries: Seq<Entry<T>>, key: Identity) -> bool {
    exists|i: int| 0 <= i < entries.len() && (#[trigger] entries[i]).key == key
}

/// The place of an entry keyed by `key`, where there is one.
spec fn slot<T>(entries: Seq<Entry<T>>, key: Identity) -> int {
    choose|i: int| 0 <= i < entries.len() && (#[trigger] entries[i]).key == key
}

/// Whether no identity keys two entries.
spec fn unique<T>(entries: Seq<Entry<T>>) -> bool {
    forall|i: int, j: int|
        0 <= i < j < entries.len() ==> (#[trigger] entries[i]).key != (#[trigger] entries[j]).key
}

/// The map that the entries stand for.
spec fn as_map<T>(entries: Seq<Entry<T>>) -> Map<Identity, T> {
    Map::new(|key: Identity| holds(entries, key), |key: Identity| entries[slot(entries, key)].value)
}

/// In a store without repeated keys, an entry is found at its own place.
proof fn lemma_slot<T>(entries: Seq<Entry<T>>, i: int)
    requires
        unique(entries),
        0 <= i < entries.len(),
    ensures
        holds(entries, entries[i].key),
        slot(entries, entries[i].key) == i,
        as_map(entries).contains_key(entries[i].key),
        as_map(entries)[entries[i].key] == entries[i].value,
{
}

/// Appending an entry under a fresh key is inserting into the map.
proof fn lemma_push<T>(entries: Seq<Entry<T>>, entry: Entry<T>)
    requires
        unique(entries),
        !holds(entries, entry.key),
    ensures
        unique(entries.push(entry)),
        as_map(entries.push(entry)) == as_map(entries).insert(entry.key, entry.value),
{
    let longer = entries.push(entry);
    let goal = as_map(entries).insert(entry.key, entry.value);
    assert forall|key: Identity| as_map(longer).contains_key(key) == goal.contains_key(key) by {
        if holds(entries, key) {
            assert(longer[slot(entries, key)].key == key);
        }
        if key == entry.key {
            assert(longer[entries.len() as int].key == key);
        }
    }
}

/// Overwriting the value of an entry is inserting under its key.
proof fn lemma_update<T>(entries: Seq<Entry<T>>, i: int, value: T)
    requires
        unique(entries),
        0 <= i < entries.len(),
    ensures
        unique(entries.update(i, Entry { key: entries[i].key, value })),
        as_map(entries.update(i, Entry { key: entries[i].key, value })) == as_map(entries).insert(
            entries[i].key,
            value,
        ),
{
    let changed = entries.update(i, Entry { key: entries[i].key, value });
    let goal = as_map(entries).insert(entries[i].key, value);
    assert forall|key: Identity| as_map(changed).contains_key(key) == goal.contains_key(key) by {
        if holds(entries, key) {
            assert(changed[slot(entries, key)].key == key);
        }
    }
}

/// Dropping an entry is removing its key from the map.
proof fn lemma_remove<T>(entries: Seq<Entry<T>>, i: int)
    requires
        unique(entries),
        0 <= i < entries.len(),
    ensures
        unique(entries.remove(i)),
        as_map(entries.remove(i)) == as_map(entries).remove(entries[i].key),
{
    let rest = entries.remove(i);
    let goal = as_map(entries).remove(entries[i].key);
    assert forall|key: Identity| as_map(rest).contains_key(key) == goal.contains_key(key) by {
        if holds(entries, key) && key != entries[i].key {
            let j0 = slot(entries, key);
            let j = if j0 < i { j0 } else { j0 - 1 };
            assert(rest[j].key == key);
        }
    }
}

/// A store of values of type `T`, at most one for each identity.
pub struct Table<T> {
    entries: Vec<Entry<T>>,
}

impl<T> View for Table<T> {
    type V = Map<Identity, T>;

    closed spec fn view(&self) -> Map<Identity, T> {
        as_map(self.entries@)
    }
}

impl<T> Table<T> {
    #[verifier::type_invariant]
    spec fn wf(self) -> bool {
        unique(self.entries@)
    }

    /// The store that holds nothing.
    pub fn new() -> (table: Table<T>)
        ensures
            table@ == Map::<Identity, T>::empty(),
    {
        Table { entries: Vec::new() }
    }

    /// The place of the entry keyed by `key`, if there is one.
    fn find(&self, key: &Identity) -> (place: Option<usize>)
        ensures
            match place {
                Some(i) => i < self.entries@.len() && self.entries@[i as int].key == *key,
                None => !holds(self.entries@, *key),
            },
    {
        let mut i: usize = 0;
        while i < self.entries.len()
            invariant
                i <= self.entries@.len(),
                forall|k: int| 0 <= k < i ==> (#[trigger] self.entries@[k]).key != *key,
            decreases self.entries@.len() - i,
        {
            if self.entries[i].key.same(key) {
                return Some(i);
            }
            i += 1;
        }
        None
    }

    /// Whether a value is stored for `key`.
    pub fn contains(&self, key: &Identity) -> (r: bool)
        ensures
            r == self@.contains_key(*key),
    {
        self.find(key).is_some()
    }

    /// The value stored for `key`, if there is one.
    pub fn get(&self, key: &Identity) -> (value: Option<&T>)
        ensures
            match value {
                Some(v) => self@.contains_key(*key) && *v == self@[*key],
                None => !self@.contains_key(*key),
            },
    {
        proof {
            use_type_invariant(self);
        }
        match self.find(key) {
            Some(i) => {
                proof {
                    lemma_slot(self.entries@, i as int);
                }
                Some(&self.entries[i].value)
            },
            None => None,
        }
    }

    /// Stores `value` for `key`, in place of what was stored for it.
    pub fn put(&mut self, key: Identity, value: T)
        ensures
            final(self)@ == old(self)@.insert(key, value),
    {
        proof {
            use_type_invariant(&*self);
        }
        let place = self.find(&key);
        let mut entries: Vec<Entry<T>> = Vec::new();
        std::mem::swap(&mut entries, &mut self.entries);
        match place {
            Some(i) => {
                proof {
                    lemma_update(entries@, i as int, value);
                }
                let held = entries[i].key;
                entries.set(i, Entry { key: held, value });
            },
            None => {
                proof {
                    lemma_push(entries@, Entry { key, value });
                }
                entries.push(Entry { key, value });
            },
        }
        self.entries = entries;
    }

    /// Removes what is stored for `key` and hands it out.
    pub fn take(&mut self, key: &Identity) -> (value: Option<T>)
        ensures
            final(self)@ == old(self)@.remove(*key),
            value == (if old(self)@.contains_key(*key) {
                Some(old(self)@[*key])
            } else {
                None
            }),
    {
        proof {
            use_type_invariant(&*self);
        }
        match self.find(key) {
            Some(i) => {
                let mut entries: Vec<Entry<T>> = Vec::new();
                std::mem::swap(&mut entries, &mut self.entries);
                proof {
                    lemma_slot(entries@, i as int);
                    lemma_remove(entries@, i as int);
                }
                let entry = entries.remove(i);
                self.entries = entries;
                Some(entry.value)
            },
            None => {
                None
            },
        }
    }
}

} // verus!
