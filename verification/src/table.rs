//! A table from ticket numbers to records, kept in ascending order of the
//! ticket numbers so that a listing of its keys comes out sorted.

use vstd::prelude::*;

verus! {

/// One row of a [`Table`].
#[derive(Debug)]
pub struct Entry<V> {
    key: u64,
    value: V,
}

/// A finite map from ticket numbers to values of `V`.
///
/// The rows are stored by strictly ascending key; every operation keeps
/// them so.
#[derive(Debug)]
pub struct Table<V> {
    entries: Vec<Entry<V>>,
}

/// Each key is smaller than every key after it.
pub open spec fn ascending(keys: Seq<u64>) -> bool {
    forall|i: int, j: int| 0 <= i < j < keys.len() ==> keys[i] < keys[j]
}

/// Some row of `entries` has the key `key`.
spec fn has_key<V>(entries: Seq<Entry<V>>, key: u64) -> bool {
    exists|i: int| 0 <= i < entries.len() && #[trigger] entries[i].key == key
}

/// The index of a row of `entries` with the key `key`.
spec fn index_of<V>(entries: Seq<Entry<V>>, key: u64) -> int {
    choose|i: int| 0 <= i < entries.len() && #[trigger] entries[i].key == key
}

/// The keys of `entries`, in the order of the rows.
spec fn keys_of<V>(entries: Seq<Entry<V>>) -> Seq<u64> {
    Seq::new(entries.len(), |i: int| entries[i].key)
}

/// The map that the rows `entries` stand for.
spec fn map_of<V>(entries: Seq<Entry<V>>) -> Map<u64, V> {
    Map::new(|key: u64| has_key(entries, key), |key: u64| entries[index_of(entries, key)].value)
}

/// With ascending keys, row `i` is the one that the map gives for its key.
proof fn lemma_row<V>(entries: Seq<Entry<V>>, i: int)
    requires
        ascending(keys_of(entries)),
        0 <= i < entries.len(),
    ensures
        map_of(entries).contains_key(entries[i].key),
        map_of(entries)[entries[i].key] == entries[i].value,
{
    let key = entries[i].key;
    assert(has_key(entries, key));
    let j = index_of(entries, key);
    assert(keys_of(entries)[i] == key && keys_of(entries)[j] == key);
    assert(i == j);
}

/// A key smaller than the key of row `i`, and larger than every key before
/// it, is not in the table.
proof fn lemma_gap<V>(entries: Seq<Entry<V>>, i: int, key: u64)
    requires
        ascending(keys_of(entries)),
        0 <= i <= entries.len(),
        forall|j: int| 0 <= j < i ==> entries[j].key < key,
        i < entries.len() ==> key < entries[i].key,
    ensures
        !map_of(entries).contains_key(key),
{
    if has_key(entries, key) {
        let j = index_of(entries, key);
        if j >= i {
            assert(keys_of(entries)[i] <= keys_of(entries)[j]);
        }
    }
}

impl<V> Table<V> {
    /// The rows are stored by strictly ascending key.
    #[verifier::type_invariant]
    spec fn wf(&self) -> bool {
        ascending(keys_of(self.entries@))
    }

    /// The map that the table stands for.
    pub closed spec fn map(&self) -> Map<u64, V> {
        map_of(self.entries@)
    }

    /// The table without rows.
    pub fn new() -> (table: Self)
        ensures
            table.map() == Map::<u64, V>::empty(),
    {
        let table = Table { entries: Vec::new() };
        assert(table.map() =~= Map::<u64, V>::empty());
        table
    }

    /// The index of the first row whose key is not below `key`.
    fn position(&self, key: u64) -> (at: usize)
        ensures
            at <= self.entries@.len(),
            forall|j: int| 0 <= j < at ==> self.entries@[j].key < key,
            at < self.entries@.len() ==> key <= self.entries@[at as int].key,
    {
        proof {
            use_type_invariant(self);
        }
        let mut at: usize = 0;
        while at < self.entries.len() && self.entries[at].key < key
            invariant
                at <= self.entries@.len(),
                forall|j: int| 0 <= j < at ==> self.entries@[j].key < key,
            decreases self.entries@.len() - at,
        {
            at = at + 1;
        }
        at
    }

    /// The value stored under `key`, if there is one.
    pub fn get(&self, key: u64) -> (found: Option<&V>)
        ensures
            match found {
                Some(value) => self.map().contains_key(key) && self.map()[key] == *value,
                None => !self.map().contains_key(key),
            },
    {
        proof {
            use_type_invariant(self);
        }
        let at = self.position(key);
        if at < self.entries.len() && self.entries[at].key == key {
            proof {
                lemma_row(self.entries@, at as int);
            }
            Some(&self.entries[at].value)
        } else {
            proof {
                lemma_gap(self.entries@, at as int, key);
            }
            None
        }
    }

    /// Whether a value is stored under `key`.
    pub fn contains_key(&self, key: u64) -> (found: bool)
        ensures
            found == self.map().contains_key(key),
    {
        self.get(key).is_some()
    }

    /// The table with `value` stored under `key`, in place of what was
    /// stored there.
    pub fn insert(self, key: u64, value: V) -> (table: Self)
        ensures
            table.map() == self.map().insert(key, value),
    {
        proof {
            use_type_invariant(&self);
        }
        let at = self.position(key);
        let ghost before = self.entries@;
        let mut entries = self.entries;
        if at < entries.len() && entries[at].key == key {
            entries.set(at, Entry { key, value });
            proof {
                let after = entries@;
                assert(keys_of(after) =~= keys_of(before));
                assert forall|k: u64| #[trigger]
                    map_of(after).contains_key(k) == map_of(before).insert(key, value).contains_key(
                        k,
                    ) by {
                    if has_key(after, k) {
                        let j = index_of(after, k);
                        assert(before[j].key == k);
                    }
                    if has_key(before, k) {
                        let j = index_of(before, k);
                        assert(after[j].key == k);
                    }
                    if k == key {
                        assert(after[at as int].key == k);
                    }
                }
                assert forall|k: u64| #[trigger]
                    map_of(after).contains_key(k) implies map_of(after)[k] == map_of(
                    before,
                ).insert(key, value)[k] by {
                    let j = index_of(after, k);
                    lemma_row(after, j);
                    if k != key {
                        assert(before[j].key == k);
                        lemma_row(before, j);
                    } else {
                        lemma_row(after, at as int);
                    }
                }
                assert(map_of(after) =~= map_of(before).insert(key, value));
            }
        } else {
            entries.insert(at, Entry { key, value });
            proof {
                let after = entries@;
                assert forall|i: int, j: int| 0 <= i < j < keys_of(after).len() implies keys_of(
                    after,
                )[i] < keys_of(after)[j] by {
                    let a = if i < at { i } else { i - 1 };
                    let b = if j < at { j } else { j - 1 };
                    if i != at && j != at {
                        assert(keys_of(before)[a] < keys_of(before)[b]);
                    } else if i == at {
                        assert(keys_of(before)[at as int] <= keys_of(before)[b]);
                    }
                }
                assert forall|k: u64| #[trigger]
                    map_of(after).contains_key(k) == map_of(before).insert(key, value).contains_key(
                        k,
                    ) by {
                    if has_key(after, k) && k != key {
                        let j = index_of(after, k);
                        let b = if j < at { j } else { j - 1 };
                        assert(before[b].key == k);
                    }
                    if has_key(before, k) {
                        let j = index_of(before, k);
                        let a = if j < at { j } else { j + 1 };
                        assert(after[a].key == k);
                    }
                    if k == key {
                        assert(after[at as int].key == k);
                    }
                }
                assert forall|k: u64| #[trigger]
                    map_of(after).contains_key(k) implies map_of(after)[k] == map_of(
                    before,
                ).insert(key, value)[k] by {
                    let j = index_of(after, k);
                    lemma_row(after, j);
                    if k != key {
                        let b = if j < at { j } else { j - 1 };
                        assert(before[b].key == k);
                        lemma_row(before, b);
                    } else {
                        lemma_row(after, at as int);
                    }
                }
                assert(map_of(after) =~= map_of(before).insert(key, value));
            }
        }
        Table { entries }
    }

    /// The table without what is stored under `key`.
    pub fn remove(self, key: u64) -> (table: Self)
        ensures
            table.map() == self.map().remove(key),
    {
        proof {
            use_type_invariant(&self);
        }
        let at = self.position(key);
        let ghost before = self.entries@;
        let mut entries = self.entries;
        if at < entries.len() && entries[at].key == key {
            let _ = entries.remove(at);
            proof {
                let after = entries@;
                assert forall|i: int, j: int| 0 <= i < j < keys_of(after).len() implies keys_of(
                    after,
                )[i] < keys_of(after)[j] by {
                    let a = if i < at { i } else { i + 1 };
                    let b = if j < at { j } else { j + 1 };
                    assert(keys_of(before)[a] < keys_of(before)[b]);
                }
                assert forall|k: u64| #[trigger]
                    map_of(after).contains_key(k) == map_of(before).remove(key).contains_key(
                        k,
                    ) by {
                    if has_key(after, k) {
                        let j = index_of(after, k);
                        let b = if j < at { j } else { j + 1 };
                        assert(before[b].key == k);
                        assert(keys_of(before)[b] == k && keys_of(before)[at as int] == key);
                    }
                    if has_key(before, k) && k != key {
                        let j = index_of(before, k);
                        let a = if j < at { j } else { j - 1 };
                        assert(after[a].key == k);
                    }
                }
                assert forall|k: u64| #[trigger]
                    map_of(after).contains_key(k) implies map_of(after)[k] == map_of(
                    before,
                ).remove(key)[k] by {
                    let j = index_of(after, k);
                    lemma_row(after, j);
                    let b = if j < at { j } else { j + 1 };
                    assert(before[b].key == k);
                    lemma_row(before, b);
                }
                assert(map_of(after) =~= map_of(before).remove(key));
            }
        } else {
            proof {
                lemma_gap(before, at as int, key);
                assert(map_of(before) =~= map_of(before).remove(key));
            }
        }
        Table { entries }
    }

    /// The keys of the table, ascending.
    pub fn keys(&self) -> (keys: Vec<u64>)
        ensures
            ascending(keys@),
            forall|key: u64| keys@.contains(key) <==> self.map().contains_key(key),
    {
        proof {
            use_type_invariant(self);
        }
        let mut keys: Vec<u64> = Vec::new();
        let mut at: usize = 0;
        while at < self.entries.len()
            invariant
                at <= self.entries@.len(),
                keys@ == keys_of(self.entries@).subrange(0, at as int),
            decreases self.entries@.len() - at,
        {
            keys.push(self.entries[at].key);
            at = at + 1;
            assert(keys@ =~= keys_of(self.entries@).subrange(0, at as int));
        }
        proof {
            assert(keys@ =~= keys_of(self.entries@));
            assert forall|key: u64| keys@.contains(key) <==> self.map().contains_key(key) by {
                if keys@.contains(key) {
                    let i = choose|i: int| 0 <= i < keys@.len() && keys@[i] == key;
                    assert(self.entries@[i].key == key);
                }
                if has_key(self.entries@, key) {
                    let i = index_of(self.entries@, key);
                    assert(keys@[i] == key);
                }
            }
        }
        keys
    }
}

impl<V: DeepView> DeepView for Table<V> {
    type V = Map<u64, V::V>;

    open spec fn deep_view(&self) -> Map<u64, V::V> {
        Map::new(
            |key: u64| self.map().contains_key(key),
            |key: u64| self.map()[key].deep_view(),
        )
    }
}

} // verus!
