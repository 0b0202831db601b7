//! A small map from addresses to values, kept as a list of distinct keys.
use vstd::prelude::*;
use crate::address::Address;

verus! {

/// Whether `key` is the key of some entry.
pub open spec fn has_key<V>(entries: Seq<(Address, V)>, key: Address) -> bool {
    exists|i: int| 0 <= i < entries.len() && (#[trigger] entries[i]).0 == key
}

/// The position of an entry with key `key`.
pub open spec fn position<V>(entries: Seq<(Address, V)>, key: Address) -> int {
    choose|i: int| 0 <= i < entries.len() && (#[trigger] entries[i]).0 == key
}

/// No two entries share a key.
pub open spec fn distinct_keys<V>(entries: Seq<(Address, V)>) -> bool {
    forall|i: int, j: int|
        0 <= i < j < entries.len() ==> (#[trigger] entries[i]).0 != (#[trigger] entries[j]).0
}

/// The map that a list of entries stands for.
pub open spec fn entries_map<V>(entries: Seq<(Address, V)>) -> Map<Address, V> {
    Map::new(|key: Address| has_key(entries, key), |key: Address| entries[position(entries, key)].1)
}

/// In a list of distinct keys, an entry is found at its own position.
pub proof fn lemma_position<V>(entries: Seq<(Address, V)>, i: int)
    requires
        distinct_keys(entries),
        0 <= i < entries.len(),
    ensures
        has_key(entries, entries[i].0),
        position(entries, entries[i].0) == i,
        entries_map(entries).contains_key(entries[i].0),
        entries_map(entries)[entries[i].0] == entries[i].1,
{
    let key = entries[i].0;
    let p = position(entries, key);
    assert(0 <= p < entries.len() && entries[p].0 == key);
    if p < i {
        assert(entries[p].0 != entries[i].0);
    } else if i < p {
        assert(entries[i].0 != entries[p].0);
    }
}

/// The position of `key` among `entries`, if it is a key.
fn find<V>(entries: &Vec<(Address, V)>, key: &Address) -> (found: Option<usize>)
    ensures
        match found {
            Some(i) => i < entries@.len() && entries@[i as int].0 == *key,
            None => !has_key(entries@, *key),
        },
{
    let mut i: usize = 0;
    while i < entries.len()
        invariant
            i <= entries@.len(),
            forall|j: int| 0 <= j < i ==> (#[trigger] entries@[j]).0 != *key,
        decreases entries@.len() - i,
    {
        if entries[i].0 == *key {
            return Some(i);
        }
        i += 1;
    }
    None
}

/// Replacing the value of an entry replaces it in the map.
proof fn lemma_update<V>(before: Seq<(Address, V)>, i: int, value: V)
    requires
        distinct_keys(before),
        0 <= i < before.len(),
    ensures
        distinct_keys(before.update(i, (before[i].0, value))),
        entries_map(before.update(i, (before[i].0, value))) == entries_map(before).insert(
            before[i].0,
            value,
        ),
{
    let key = before[i].0;
    let after = before.update(i, (key, value));
    assert forall|k: Address| has_key(after, k) == has_key(before, k) by {
        if has_key(before, k) {
            let p = position(before, k);
            assert(after[p].0 == k);
        }
        if has_key(after, k) {
            let p = position(after, k);
            assert(before[p].0 == k);
        }
    }
    assert(has_key(before, key)) by {
        assert(before[i].0 == key);
    }
    assert forall|k: Address| has_key(after, k) implies entries_map(after)[k] == entries_map(
        before,
    ).insert(key, value)[k] by {
        let p = position(after, k);
        lemma_position(after, p);
        if k != key {
            lemma_position(before, p);
        }
    }
    assert(entries_map(after) =~= entries_map(before).insert(key, value));
}

/// Appending an entry with a new key adds it to the map.
proof fn lemma_push<V>(before: Seq<(Address, V)>, key: Address, value: V)
    requires
        distinct_keys(before),
        !has_key(before, key),
    ensures
        distinct_keys(before.push((key, value))),
        entries_map(before.push((key, value))) == entries_map(before).insert(key, value),
{
    let after = before.push((key, value));
    let last = before.len() as int;
    assert forall|i: int, j: int| 0 <= i < j < after.len() implies (#[trigger] after[i]).0 != (
    #[trigger] after[j]).0 by {
        if j == last {
            assert(before[i].0 != key);
        } else {
            assert(before[i].0 != before[j].0);
        }
    }
    assert forall|k: Address| has_key(after, k) == (has_key(before, k) || k == key) by {
        if has_key(before, k) {
            let p = position(before, k);
            assert(after[p].0 == k);
        }
        if k == key {
            assert(after[last].0 == k);
        }
        if has_key(after, k) {
            let p = position(after, k);
            if p != last {
                assert(before[p].0 == k);
            }
        }
    }
    assert forall|k: Address| has_key(after, k) implies entries_map(after)[k] == entries_map(
        before,
    ).insert(key, value)[k] by {
        let p = position(after, k);
        lemma_position(after, p);
        if k != key {
            lemma_position(before, p);
        }
    }
    assert(entries_map(after) =~= entries_map(before).insert(key, value));
}

/// Taking an entry out takes its key out of the map.
proof fn lemma_remove<V>(before: Seq<(Address, V)>, i: int)
    requires
        distinct_keys(before),
        0 <= i < before.len(),
    ensures
        distinct_keys(before.remove(i)),
        entries_map(before.remove(i)) == entries_map(before).remove(before[i].0),
{
    let key = before[i].0;
    let after = before.remove(i);
    assert forall|a: int, b: int| 0 <= a < b < after.len() implies (#[trigger] after[a]).0 != (
    #[trigger] after[b]).0 by {
        let a0 = if a < i { a } else { a + 1 };
        let b0 = if b < i { b } else { b + 1 };
        assert(before[a0].0 != before[b0].0);
    }
    assert forall|k: Address| has_key(after, k) == (has_key(before, k) && k != key) by {
        if has_key(before, k) && k != key {
            let p = position(before, k);
            let q = if p < i { p } else { p - 1 };
            assert(after[q].0 == k);
        }
        if has_key(after, k) {
            let q = position(after, k);
            let p = if q < i { q } else { q + 1 };
            assert(before[p].0 == k);
            if p < i {
                assert(before[p].0 != before[i].0);
            } else {
                assert(before[i].0 != before[p].0);
            }
        }
    }
    assert forall|k: Address| has_key(after, k) implies entries_map(after)[k] == entries_map(
        before,
    ).remove(key)[k] by {
        let q = position(after, k);
        lemma_position(after, q);
        let p = if q < i { q } else { q + 1 };
        lemma_position(before, p);
    }
    assert(entries_map(after) =~= entries_map(before).remove(key));
}

/// A map from addresses to values of a `Copy` type.
pub struct AddressMap<V> {
    entries: Vec<(Address, V)>,
}

impl<V> AddressMap<V> {
    #[verifier::type_invariant]
    spec fn distinct(&self) -> bool {
        distinct_keys(self.entries@)
    }

    /// The map held.
    pub closed spec fn view(&self) -> Map<Address, V> {
        entries_map(self.entries@)
    }
}

impl<V: Copy> AddressMap<V> {
    /// The empty map.
    pub fn new() -> (map: Self)
        ensures
            map@ == Map::<Address, V>::empty(),
    {
        let map = AddressMap { entries: Vec::new() };
        assert(map@ =~= Map::<Address, V>::empty());
        map
    }

    /// The value stored under `key`, if there is one.
    pub fn get(&self, key: &Address) -> (value: Option<V>)
        ensures
            value == (if self@.contains_key(*key) {
                Some(self@[*key])
            } else {
                None
            }),
    {
        proof {
            use_type_invariant(self);
        }
        match find(&self.entries, key) {
            Some(i) => {
                proof {
                    lemma_position(self.entries@, i as int);
                }
                Some(self.entries[i].1)
            },
            None => None,
        }
    }

    /// Stores `value` under `key`, in place of any value stored there before.
    pub fn insert(&mut self, key: Address, value: V)
        ensures
            final(self)@ == old(self)@.insert(key, value),
    {
        proof {
            use_type_invariant(&*self);
        }
        let mut entries: Vec<(Address, V)> = Vec::new();
        core::mem::swap(&mut self.entries, &mut entries);
        match find(&entries, &key) {
            Some(i) => {
                proof {
                    lemma_update(entries@, i as int, value);
                }
                entries.set(i, (key, value));
            },
            None => {
                proof {
                    lemma_push(entries@, key, value);
                }
                entries.push((key, value));
            },
        }
        core::mem::swap(&mut self.entries, &mut entries);
    }

    /// Removes `key` and the value stored under it, if there is one.
    pub fn remove(&mut self, key: &Address)
        ensures
            final(self)@ == old(self)@.remove(*key),
    {
        proof {
            use_type_invariant(&*self);
        }
        let mut entries: Vec<(Address, V)> = Vec::new();
        core::mem::swap(&mut self.entries, &mut entries);
        match find(&entries, key) {
            Some(i) => {
                proof {
                    lemma_remove(entries@, i as int);
                }
                entries.remove(i);
            },
            None => {
                assert(entries_map(entries@) =~= entries_map(entries@).remove(*key));
            },
        }
        core::mem::swap(&mut self.entries, &mut entries);
    }

    /// A map that holds what this one holds.
    pub fn duplicate(&self) -> (copy: Self)
        ensures
            copy@ == self@,
    {
        proof {
            use_type_invariant(self);
        }
        let mut entries: Vec<(Address, V)> = Vec::new();
        let mut i: usize = 0;
        while i < self.entries.len()
            invariant
                i <= self.entries@.len(),
                entries@ == self.entries@.subrange(0, i as int),
            decreases self.entries@.len() - i,
        {
            entries.push(self.entries[i]);
            i += 1;
        }
        assert(entries@ =~= self.entries@);
        AddressMap { entries }
    }
}

} // verus!
