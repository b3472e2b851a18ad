//! A table of ledger entries, each kept under a key of its own.

use crate::address::same_id;
use crate::bytes::same_bytes;
use vstd::prelude::*;

verus! {

/// What an entry can be filed under.
pub trait Key: View + Sized {
    /// Whether both keys name the same entry.
    fn same_key(&self, other: &Self) -> (same: bool)
        ensures
            same == (self@ == other@),
    ;
}

impl Key for u64 {
    fn same_key(&self, other: &Self) -> (same: bool) {
        *self == *other
    }
}

impl Key for Vec<u8> {
    fn same_key(&self, other: &Self) -> (same: bool) {
        same_bytes(self, other)
    }
}

impl Key for [u8; 32] {
    fn same_key(&self, other: &Self) -> (same: bool) {
        let same = same_id(self, other);
        proof {
            if self@ == other@ {
                assert forall|i: int| 0 <= i < 32 implies self[i] == other[i] by {
                    assert(self@[i] == other@[i]);
                }
                assert(*self =~= *other);
            }
        }
        same
    }
}

/// Entries filed under keys, at most one under each.
pub struct Table<K: Key, V: View> {
    entries: Vec<(K, V)>,
}

/// Whether `i` is where the entry under `key` stands.
spec fn stands_at<K: Key, V: View>(entries: Seq<(K, V)>, key: K::V, i: int) -> bool {
    0 <= i < entries.len() && entries[i].0@ == key
}

/// Whether no key occurs twice.
spec fn keys_distinct<K: Key, V: View>(entries: Seq<(K, V)>) -> bool {
    forall|i: int, j: int|
        0 <= i < j < entries.len() ==> (#[trigger] entries[i]).0@ != (#[trigger] entries[j]).0@
}

impl<K: Key, V: View> View for Table<K, V> {
    type V = Map<K::V, V::V>;

    closed spec fn view(&self) -> Map<K::V, V::V> {
        Map::new(
            |k: K::V| exists|i: int| stands_at(self.entries@, k, i),
            |k: K::V| self.entries@[choose|i: int| stands_at(self.entries@, k, i)].1@,
        )
    }
}

impl<K: Key, V: View> Table<K, V> {
    #[verifier::type_invariant]
    spec fn at_most_one_each(self) -> bool {
        keys_distinct(self.entries@)
    }

    /// A table with no entry.
    pub fn new() -> (table: Self)
        ensures
            table@ == Map::<K::V, V::V>::empty(),
    {
        let table = Table { entries: Vec::new() };
        assert(table@ =~= Map::<K::V, V::V>::empty()) by {
            assert forall|k: K::V| !table@.contains_key(k) by {
                assert forall|i: int| !stands_at(table.entries@, k, i) by {}
            }
        }
        table
    }

    proof fn lemma_entry(&self, key: K::V, i: int)
        requires
            keys_distinct(self.entries@),
            stands_at(self.entries@, key, i),
        ensures
            self@.contains_key(key),
            self@[key] == self.entries@[i].1@,
    {
        let c = choose|j: int| stands_at(self.entries@, key, j);
        assert(stands_at(self.entries@, key, c));
        if c < i {
            assert(self.entries@[c].0@ != self.entries@[i].0@);
        } else if i < c {
            assert(self.entries@[i].0@ != self.entries@[c].0@);
        }
    }

    /// The entry under `key`, if there is one.
    pub fn get(&self, key: &K) -> (entry: Option<&V>)
        ensures
            match entry {
                Some(v) => self@.contains_key(key@) && v@ == self@[key@],
                None => !self@.contains_key(key@),
            },
    {
        proof {
            use_type_invariant(self);
        }
        let mut i: usize = 0;
        while i < self.entries.len()
            invariant
                i <= self.entries@.len(),
                keys_distinct(self.entries@),
                forall|j: int| 0 <= j < i ==> (#[trigger] self.entries@[j]).0@ != key@,
            decreases self.entries@.len() - i,
        {
            if self.entries[i].0.same_key(key) {
                proof {
                    self.lemma_entry(key@, i as int);
                }
                return Some(&self.entries[i].1);
            }
            i += 1;
        }
        None
    }

    /// Whether an entry stands under `key`.
    pub fn has(&self, key: &K) -> (found: bool)
        ensures
            found == self@.contains_key(key@),
    {
        self.get(key).is_some()
    }

    /// Files `value` under `key`, in place of what stood there.
    pub fn set(&mut self, key: K, value: V)
        ensures
            final(self)@ == old(self)@.insert(key@, value@),
    {
        proof {
            use_type_invariant(&*self);
        }
        let ghost before = *self;
        let mut entries: Vec<(K, V)> = Vec::new();
        std::mem::swap(&mut entries, &mut self.entries);
        let ghost was = entries@;
        let mut i: usize = 0;
        while i < entries.len() && !entries[i].0.same_key(&key)
            invariant
                i <= entries@.len(),
                entries@ == was,
                forall|j: int| 0 <= j < i ==> (#[trigger] entries@[j]).0@ != key@,
            decreases entries@.len() - i,
        {
            i += 1;
        }
        let ghost k = key@;
        let ghost v = value@;
        if i < entries.len() {
            entries[i] = (key, value);
        } else {
            entries.push((key, value));
        }
        assert(keys_distinct(entries@));
        self.entries = entries;
        proof {
            assert(self.entries@[i as int].0@ == k);
            assert(self.entries@[i as int].1@ == v);
            assert(stands_at(self.entries@, k, i as int));
            self.lemma_entry(k, i as int);
            assert forall|other: K::V| other != k implies (#[trigger] self@.contains_key(
                other,
            ) == before@.contains_key(other) && (before@.contains_key(other) ==> self@[other]
                == before@[other])) by {
                if before@.contains_key(other) {
                    let j = choose|j: int| stands_at(was, other, j);
                    assert(stands_at(was, other, j));
                    assert(self.entries@[j] == was[j]);
                    assert(stands_at(self.entries@, other, j));
                    self.lemma_entry(other, j);
                    before.lemma_entry(other, j);
                }
                if self@.contains_key(other) {
                    let j = choose|j: int| stands_at(self.entries@, other, j);
                    assert(stands_at(self.entries@, other, j));
                    assert(j != i);
                    assert(self.entries@[j] == was[j]);
                    assert(stands_at(was, other, j));
                }
            }
            let after = before@.insert(k, v);
            assert forall|other: K::V| self@.contains_key(other) == after.contains_key(other) by {}
            assert forall|other: K::V| #[trigger] after.contains_key(other) implies self@[other]
                == after[other] by {
                assert(self@.contains_key(other) == after.contains_key(other));
            }
            assert(self@.dom() =~= after.dom());
            assert(self@ =~= after);
        }
    }
}

} // verus!
