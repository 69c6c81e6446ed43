//! A map kept as a list of entries, for keys that are byte arrays rather
//! than integers. No key occurs twice.

use vstd::prelude::*;

verus! {

/// A key whose values executable code can tell apart.
pub trait Key: Sized {
    /// Whether the two keys are the same value.
    fn same(&self, other: &Self) -> (r: bool)
        ensures
            r == (*self == *other),
    ;
}

/// Whether some entry has the key.
pub open spec fn has_key<K, V>(entries: Seq<(K, V)>, key: K) -> bool {
    exists|i: int| 0 <= i < entries.len() && (#[trigger] entries[i]).0 == key
}

/// The position of an entry with the key, where there is one.
pub open spec fn position<K, V>(entries: Seq<(K, V)>, key: K) -> int {
    choose|i: int| 0 <= i < entries.len() && (#[trigger] entries[i]).0 == key
}

/// Whether no key occurs in two entries.
pub open spec fn distinct_keys<K, V>(entries: Seq<(K, V)>) -> bool {
    forall|i: int, j: int|
        0 <= i < j < entries.len() ==> (#[trigger] entries[i]).0 != (#[trigger] entries[j]).0
}

/// The map that a list of entries stands for.
pub open spec fn entries_map<K, V>(entries: Seq<(K, V)>) -> Map<K, V> {
    Map::new(|k: K| has_key(entries, k), |k: K| entries[position(entries, k)].1)
}

/// With distinct keys, every entry is found in the map under its key.
pub proof fn lemma_entries_map<K, V>(entries: Seq<(K, V)>)
    requires
        distinct_keys(entries),
    ensures
        forall|i: int|
            0 <= i < entries.len() ==> entries_map(entries).contains_key(
                (#[trigger] entries[i]).0,
            ) && entries_map(entries)[entries[i].0] == entries[i].1,
        forall|k: K| #[trigger]
            entries_map(entries).contains_key(k) ==> 0 <= position(entries, k) < entries.len()
                && entries[position(entries, k)].0 == k,
{
    assert forall|i: int| 0 <= i < entries.len() implies entries_map(entries).contains_key(
        (#[trigger] entries[i]).0,
    ) && entries_map(entries)[entries[i].0] == entries[i].1 by {
        let k = entries[i].0;
        assert(has_key(entries, k));
        let j = position(entries, k);
        assert(0 <= j < entries.len() && entries[j].0 == k);
        if j < i {
            assert(entries[j].0 != entries[i].0);
        } else if i < j {
            assert(entries[i].0 != entries[j].0);
        }
    }
}

/// A map from `K` to `V`.
pub struct AssocMap<K, V> {
    entries: Vec<(K, V)>,
}

impl<K, V> View for AssocMap<K, V> {
    type V = Map<K, V>;

    closed spec fn view(&self) -> Map<K, V> {
        entries_map(self.entries@)
    }
}

impl<K: Key, V> AssocMap<K, V> {
    /// The representation invariant: no key is stored twice.
    pub closed spec fn wf(&self) -> bool {
        distinct_keys(self.entries@)
    }

    /// An empty map.
    pub fn new() -> (m: Self)
        ensures
            m.wf(),
            m@ == Map::<K, V>::empty(),
    {
        let m = AssocMap { entries: Vec::new() };
        assert(m@ =~= Map::<K, V>::empty());
        m
    }

    fn find(&self, key: &K) -> (r: Option<usize>)
        ensures
            match r {
                Some(i) => i < self.entries@.len() && self.entries@[i as int].0 == *key,
                None => !has_key(self.entries@, *key),
            },
    {
        let mut i: usize = 0;
        while i < self.entries.len()
            invariant
                    i <= self.entries@.len(),
                forall|j: int| 0 <= j < i ==> (#[trigger] self.entries@[j]).0 != *key,
            decreases self.entries@.len() - i,
        {
            if self.entries[i].0.same(key) {
                return Some(i);
            }
            i += 1;
        }
        None
    }

    /// Whether the map holds the key.
    pub fn contains_key(&self, key: &K) -> (r: bool)
        requires
            self.wf(),
        ensures
            r == self@.contains_key(*key),
    {
        self.find(key).is_some()
    }

    /// The value stored under the key.
    pub fn get(&self, key: &K) -> (r: Option<&V>)
        requires
            self.wf(),
        ensures
            match r {
                Some(v) => self@.contains_key(*key) && *v == self@[*key],
                None => !self@.contains_key(*key),
            },
    {
        match self.find(key) {
            Some(i) => {
                proof {
                    lemma_entries_map(self.entries@);
                }
                Some(&self.entries[i].1)
            },
            None => None,
        }
    }

    /// The entries of the map: every key once, with its value.
    pub fn entries(&self) -> (entries: &Vec<(K, V)>)
        requires
            self.wf(),
        ensures
            distinct_keys(entries@),
            entries_map(entries@) == self@,
    {
        &self.entries
    }

    /// Stores the value under the key and returns the value that was stored
    /// there before, if any.
    pub fn insert(&mut self, key: K, value: V) -> (previous: Option<V>)
        requires
            old(self).wf(),
        ensures
            final(self).wf(),
            final(self)@ == old(self)@.insert(key, value),
            previous == if old(self)@.contains_key(key) {
                Some(old(self)@[key])
            } else {
                None
            },
    {
        let ghost before = self.entries@;
        match self.find(&key) {
            Some(i) => {
                self.entries.push((key, value));
                let replaced = self.entries.swap_remove(i);
                proof {
                    let after = self.entries@;
                    assert(after =~= before.update(i as int, (key, value)));
                    assert forall|a: int, b: int| 0 <= a < b < after.len() implies (
                    #[trigger] after[a]).0 != (#[trigger] after[b]).0 by {
                        assert(after[a].0 == before[a].0);
                        assert(after[b].0 == before[b].0);
                    }
                    lemma_entries_map(before);
                    lemma_entries_map(after);
                    assert(entries_map(after) =~= entries_map(before).insert(key, value)) by {
                        assert forall|k: K| entries_map(after).contains_key(k) implies entries_map(
                            before,
                        ).insert(key, value).contains_key(k) by {
                            let p = position(after, k);
                            assert(before[p].0 == k);
                        }
                        assert forall|k: K|
                            entries_map(before).insert(key, value).contains_key(
                                k,
                            ) implies entries_map(after).contains_key(k) by {
                            if k == key {
                                assert(after[i as int].0 == k);
                            } else {
                                let p = position(before, k);
                                assert(after[p].0 == k);
                            }
                        }
                        assert forall|k: K| entries_map(after).contains_key(k) implies entries_map(
                            after,
                        )[k] == entries_map(before).insert(key, value)[k] by {
                            let p = position(after, k);
                            assert(after[p].0 == k);
                            if p == i as int {
                            } else {
                                assert(before[p] == after[p]);
                            }
                        }
                    }
                    assert(before[i as int].0 == key);
                }
                Some(replaced.1)
            },
            None => {
                self.entries.push((key, value));
                proof {
                    let after = self.entries@;
                    assert forall|a: int, b: int| 0 <= a < b < after.len() implies (
                    #[trigger] after[a]).0 != (#[trigger] after[b]).0 by {
                        assert(after[a] == before[a]);
                        if b < before.len() {
                            assert(after[b] == before[b]);
                        } else {
                            assert(after[b].0 == key);
                        }
                    }
                    lemma_entries_map(before);
                    lemma_entries_map(after);
                    assert(entries_map(after) =~= entries_map(before).insert(key, value)) by {
                        assert forall|k: K| entries_map(after).contains_key(k) implies entries_map(
                            before,
                        ).insert(key, value).contains_key(k) by {
                            let p = position(after, k);
                            if p < before.len() {
                                assert(before[p].0 == k);
                            }
                        }
                        assert forall|k: K|
                            entries_map(before).insert(key, value).contains_key(
                                k,
                            ) implies entries_map(after).contains_key(k) by {
                            if k == key {
                                assert(after[before.len() as int].0 == k);
                            } else {
                                let p = position(before, k);
                                assert(after[p].0 == k);
                            }
                        }
                        assert forall|k: K| entries_map(after).contains_key(k) implies entries_map(
                            after,
                        )[k] == entries_map(before).insert(key, value)[k] by {
                            let p = position(after, k);
                            assert(after[p].0 == k);
                            if p < before.len() {
                                assert(before[p] == after[p]);
                            }
                        }
                    }
                }
                None
            },
        }
    }

    /// Takes the key and its value out of the map and returns the value, if
    /// the key was there.
    pub fn remove(&mut self, key: &K) -> (removed: Option<V>)
        requires
            old(self).wf(),
        ensures
            final(self).wf(),
            final(self)@ == old(self)@.remove(*key),
            removed == if old(self)@.contains_key(*key) {
                Some(old(self)@[*key])
            } else {
                None
            },
    {
        let ghost before = self.entries@;
        match self.find(key) {
            Some(i) => {
                let entry = self.entries.remove(i);
                proof {
                    let after = self.entries@;
                    assert forall|a: int, b: int| 0 <= a < b < after.len() implies (
                    #[trigger] after[a]).0 != (#[trigger] after[b]).0 by {
                        let a0 = if a < i { a } else { a + 1 };
                        let b0 = if b < i { b } else { b + 1 };
                        assert(after[a] == before[a0]);
                        assert(after[b] == before[b0]);
                    }
                    lemma_entries_map(before);
                    lemma_entries_map(after);
                    assert(entries_map(after) =~= entries_map(before).remove(*key)) by {
                        assert forall|k: K| entries_map(after).contains_key(k) implies entries_map(
                            before,
                        ).remove(*key).contains_key(k) by {
                            let p = position(after, k);
                            let p0 = if p < i { p } else { p + 1 };
                            assert(before[p0] == after[p]);
                            assert(before[p0].0 == k);
                            if k == *key {
                                if p0 < i {
                                    assert(before[p0].0 != before[i as int].0);
                                } else {
                                    assert(before[i as int].0 != before[p0].0);
                                }
                            }
                        }
                        assert forall|k: K|
                            entries_map(before).remove(*key).contains_key(
                                k,
                            ) implies entries_map(after).contains_key(k) by {
                            let p0 = position(before, k);
                            let p = if p0 < i { p0 } else { p0 - 1 };
                            assert(after[p] == before[p0]);
                            assert(after[p].0 == k);
                        }
                        assert forall|k: K| entries_map(after).contains_key(k) implies entries_map(
                            after,
                        )[k] == entries_map(before).remove(*key)[k] by {
                            let p = position(after, k);
                            let p0 = if p < i { p } else { p + 1 };
                            assert(before[p0] == after[p]);
                        }
                    }
                    assert(before[i as int].0 == *key);
                }
                Some(entry.1)
            },
            None => {
                proof {
                    assert(entries_map(before) =~= entries_map(before).remove(*key));
                }
                None
            },
        }
    }

    /// Empties the map and returns what it held: every entry once.
    pub fn drain(&mut self) -> (drained: Vec<(K, V)>)
        requires
            old(self).wf(),
        ensures
            final(self).wf(),
            final(self)@ == Map::<K, V>::empty(),
            distinct_keys(drained@),
            entries_map(drained@) == old(self)@,
    {
        let mut drained: Vec<(K, V)> = Vec::new();
        core::mem::swap(&mut self.entries, &mut drained);
        assert(self@ =~= Map::<K, V>::empty());
        drained
    }
}

} // verus!
