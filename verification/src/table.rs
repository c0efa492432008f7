//! A small map from text keys to values, the store behind the in-process
//! nonce and rate-limit stores.

use vstd::prelude::*;

verus! {

/// One entry of a `TextMap`.
struct Entry<V> {
    key: String,
    value: V,
}

/// Whether some entry of `entries` has the key `key`.
spec fn has_key<V>(entries: Seq<Entry<V>>, key: Seq<char>) -> bool {
    exists|i: int| 0 <= i < entries.len() && #[trigger] entries[i].key@ == key
}

/// The position of an entry with the key `key`.
spec fn position_of<V>(entries: Seq<Entry<V>>, key: Seq<char>) -> int {
    choose|i: int| 0 <= i < entries.len() && #[trigger] entries[i].key@ == key
}

/// Whether no two entries share a key.
spec fn distinct_keys<V>(entries: Seq<Entry<V>>) -> bool {
    forall|i: int, j: int|
        0 <= i < j < entries.len() ==> #[trigger] entries[i].key@ != #[trigger] entries[j].key@
}

/// A map from text keys to values of a copyable type. Each key occurs at
/// most once. The entries are kept in a list, so a lookup takes time in
/// proportion to the number of keys.
pub struct TextMap<V: Copy> {
    entries: Vec<Entry<V>>,
}

impl<V: Copy> View for TextMap<V> {
    type V = Map<Seq<char>, V>;

    closed spec fn view(&self) -> Map<Seq<char>, V> {
        Map::new(
            |key: Seq<char>| has_key(self.entries@, key),
            |key: Seq<char>| self.entries@[position_of(self.entries@, key)].value,
        )
    }
}

impl<V: Copy> TextMap<V> {
    #[verifier::type_invariant]
    spec fn well_formed(self) -> bool {
        distinct_keys(self.entries@)
    }

    /// An empty map.
    pub fn new() -> (map: TextMap<V>)
        ensures
            map@ == Map::<Seq<char>, V>::empty(),
    {
        TextMap { entries: Vec::new() }
    }

    /// The position of `key` among the entries, if it is there.
    fn find(&self, key: &String) -> (found: Option<usize>)
        ensures
            found is Some <==> has_key(self.entries@, key@),
            found matches Some(i) ==> i < self.entries@.len() && self.entries@[i as int].key@
                == key@ && i == position_of(self.entries@, key@),
    {
        proof {
            use_type_invariant(self);
        }
        let count: usize = self.entries.len();
        let mut i: usize = 0;
        while i < count
            invariant
                count == self.entries@.len(),
                i <= count,
                distinct_keys(self.entries@),
                forall|j: int| 0 <= j < i ==> (#[trigger] self.entries@[j]).key@ != key@,
            decreases count - i,
        {
            if self.entries[i].key == *key {
                proof {
                    let p = position_of(self.entries@, key@);
                    if p < i {
                    }
                    if i < p {
                    }
                }
                return Some(i);
            }
            i = i + 1;
        }
        None
    }

    /// The value stored under `key`, if there is one.
    pub fn get(&self, key: &str) -> (value: Option<V>)
        ensures
            value == (if self@.contains_key(key@) {
                Some(self@[key@])
            } else {
                None
            }),
    {
        let owned = key.to_owned();
        match self.find(&owned) {
            Some(i) => Some(self.entries[i].value),
            None => None,
        }
    }

    /// The keys of the map, in no particular order.
    pub fn keys(&self) -> (keys: Vec<String>)
        ensures
            forall|key: Seq<char>|
                self@.contains_key(key) <==> exists|i: int|
                    0 <= i < keys@.len() && (#[trigger] keys@[i])@ == key,
    {
        let count: usize = self.entries.len();
        let mut keys: Vec<String> = Vec::new();
        let mut i: usize = 0;
        while i < count
            invariant
                count == self.entries@.len(),
                i <= count,
                keys@.len() == i,
                forall|j: int| 0 <= j < i ==> (#[trigger] keys@[j])@ == self.entries@[j].key@,
            decreases count - i,
        {
            keys.push(self.entries[i].key.clone());
            i = i + 1;
        }
        assert forall|key: Seq<char>| self@.contains_key(key) implies exists|i: int|
            0 <= i < keys@.len() && (#[trigger] keys@[i])@ == key by {
            let p = position_of(self.entries@, key);
            assert(keys@[p]@ == key);
        }
        assert forall|key: Seq<char>|
            (exists|i: int| 0 <= i < keys@.len() && (#[trigger] keys@[i])@ == key)
                implies self@.contains_key(key) by {
            let p = choose|i: int| 0 <= i < keys@.len() && (#[trigger] keys@[i])@ == key;
            assert(self.entries@[p].key@ == key);
        }
        keys
    }

    /// Stores `value` under `key`, in place of any value stored there.
    pub fn insert(&mut self, key: &str, value: V)
        ensures
            final(self)@ == old(self)@.insert(key@, value),
    {
        proof {
            use_type_invariant(&*self);
        }
        let owned = key.to_owned();
        let found = self.find(&owned);
        let ghost before = self.entries@;
        let mut entries: Vec<Entry<V>> = Vec::new();
        core::mem::swap(&mut self.entries, &mut entries);
        match found {
            Some(i) => {
                entries.set(i, Entry { key: owned, value });
                proof {
                    lemma_updated(before, entries@, i as int, key@, value);
                }
            },
            None => {
                entries.push(Entry { key: owned, value });
                proof {
                    lemma_pushed(before, entries@, key@, value);
                }
            },
        }
        core::mem::swap(&mut self.entries, &mut entries);
    }

    /// Removes whatever is stored under `key`.
    pub fn remove(&mut self, key: &str)
        ensures
            final(self)@ == old(self)@.remove(key@),
    {
        proof {
            use_type_invariant(&*self);
        }
        let owned = key.to_owned();
        let found = self.find(&owned);
        let ghost before = self.entries@;
        match found {
            Some(i) => {
                let mut entries: Vec<Entry<V>> = Vec::new();
                core::mem::swap(&mut self.entries, &mut entries);
                entries.remove(i);
                proof {
                    lemma_removed(before, entries@, i as int, key@);
                }
                core::mem::swap(&mut self.entries, &mut entries);
            },
            None => {},
        }
    }
}

/// A map of entries with distinct keys holds, under each key, the value of
/// the entry with that key.
proof fn lemma_lookup<V>(entries: Seq<Entry<V>>, i: int)
    requires
        distinct_keys(entries),
        0 <= i < entries.len(),
    ensures
        has_key(entries, entries[i].key@),
        position_of(entries, entries[i].key@) == i,
{
}

/// The map of a table after the value at one position was replaced.
proof fn lemma_updated<V: Copy>(
    before: Seq<Entry<V>>,
    after: Seq<Entry<V>>,
    i: int,
    key: Seq<char>,
    value: V,
)
    requires
        distinct_keys(before),
        distinct_keys(after),
        0 <= i < before.len(),
        after.len() == before.len(),
        before[i].key@ == key,
        after[i].key@ == key,
        after[i].value == value,
        forall|j: int| 0 <= j < before.len() && j != i ==> #[trigger] after[j] == before[j],
    ensures
        forall|k: Seq<char>| has_key(after, k) <==> has_key(before, k) || k == key,
        forall|k: Seq<char>|
            has_key(after, k) ==> (#[trigger] after[position_of(after, k)]).value == (if k == key {
                value
            } else {
                before[position_of(before, k)].value
            }),
{
    assert forall|k: Seq<char>| has_key(after, k) <==> has_key(before, k) || k == key by {
        if has_key(before, k) {
            let p = position_of(before, k);
            assert(after[p].key@ == k);
        }
    }
}

/// The map of a table after an entry with a new key was added at the end.
proof fn lemma_pushed<V: Copy>(
    before: Seq<Entry<V>>,
    after: Seq<Entry<V>>,
    key: Seq<char>,
    value: V,
)
    requires
        distinct_keys(before),
        distinct_keys(after),
        !has_key(before, key),
        after.len() == before.len() + 1,
        after[before.len() as int].key@ == key,
        after[before.len() as int].value == value,
        forall|j: int| 0 <= j < before.len() ==> #[trigger] after[j] == before[j],
    ensures
        forall|k: Seq<char>| has_key(after, k) <==> has_key(before, k) || k == key,
        forall|k: Seq<char>|
            has_key(after, k) ==> (#[trigger] after[position_of(after, k)]).value == (if k == key {
                value
            } else {
                before[position_of(before, k)].value
            }),
{
    assert forall|k: Seq<char>| has_key(after, k) <==> has_key(before, k) || k == key by {
        if has_key(before, k) {
            let p = position_of(before, k);
            assert(after[p].key@ == k);
        }
    }
}

/// The map of a table after the entry at one position was taken out.
proof fn lemma_removed<V: Copy>(
    before: Seq<Entry<V>>,
    after: Seq<Entry<V>>,
    i: int,
    key: Seq<char>,
)
    requires
        distinct_keys(before),
        distinct_keys(after),
        0 <= i < before.len(),
        before[i].key@ == key,
        after == before.remove(i),
    ensures
        forall|k: Seq<char>| has_key(after, k) <==> has_key(before, k) && k != key,
        forall|k: Seq<char>|
            has_key(after, k) ==> (#[trigger] after[position_of(after, k)]).value
                == before[position_of(before, k)].value,
{
    assert forall|k: Seq<char>| has_key(after, k) <==> has_key(before, k) && k != key by {
        if has_key(before, k) && k != key {
            let p = position_of(before, k);
            let q = if p < i { p } else { p - 1 };
            assert(after[q] == before[p]);
        }
    }
}

} // verus!
