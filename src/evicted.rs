//! Fixed-capacity containers for a span's attributes, events and links.
//!
//! Past capacity both containers evict their oldest entry to make room for the
//! new one, and count each entry they drop.
use crate::trace::{KeyValue, Value};
use vstd::prelude::*;

verus! {

/// A queue that keeps at most `capacity` items, dropping the oldest first.
#[derive(Debug, PartialEq)]
pub struct EvictedQueue<T> {
    capacity: usize,
    items: Vec<T>,
    dropped_count: u32,
}

impl<T> EvictedQueue<T> {
    pub closed spec fn spec_capacity(&self) -> nat {
        self.capacity as nat
    }

    pub closed spec fn spec_items(&self) -> Seq<T> {
        self.items@
    }

    pub closed spec fn spec_dropped(&self) -> nat {
        self.dropped_count as nat
    }

    #[verifier::type_invariant]
    spec fn within_capacity(&self) -> bool {
        self.items.len() <= self.capacity
    }

    pub fn new(capacity: usize) -> (r: EvictedQueue<T>)
        ensures
            r.spec_capacity() == capacity,
            r.spec_items() == Seq::<T>::empty(),
            r.spec_dropped() == 0,
    {
        EvictedQueue { capacity, items: Vec::new(), dropped_count: 0 }
    }

    /// Appends an item; when the queue is full the oldest item leaves first, and
    /// a queue of capacity zero drops the new item.
    pub fn push_back(&mut self, item: T)
        ensures
            final(self).spec_capacity() == old(self).spec_capacity(),
            final(self).spec_items() == pushed_bounded(
                old(self).spec_items(),
                item,
                old(self).spec_capacity(),
            ),
            final(self).spec_dropped() == (if old(self).spec_items().len()
                < old(self).spec_capacity() {
                old(self).spec_dropped()
            } else {
                saturating_count(old(self).spec_dropped() + 1)
            }),
    {
        proof {
            use_type_invariant(&*self);
        }
        let mut items: Vec<T> = Vec::new();
        std::mem::swap(&mut items, &mut self.items);
        if items.len() < self.capacity {
            items.push(item);
        } else {
            if self.capacity > 0 {
                items.remove(0);
                items.push(item);
            }
            self.dropped_count = self.dropped_count.saturating_add(1);
        }
        self.items = items;
    }

    pub fn len(&self) -> (r: usize)
        ensures
            r == self.spec_items().len(),
    {
        self.items.len()
    }

    pub fn get(&self, i: usize) -> (r: Option<&T>)
        ensures
            i < self.spec_items().len() ==> r == Some(&self.spec_items()[i as int]),
            i >= self.spec_items().len() ==> r.is_none(),
    {
        if i < self.items.len() {
            Some(&self.items[i])
        } else {
            None
        }
    }

    /// The items, oldest first.
    pub fn iter(&self) -> std::slice::Iter<'_, T> {
        self.items.as_slice().iter()
    }

    pub fn dropped_count(&self) -> (r: u32)
        ensures
            r == self.spec_dropped(),
    {
        self.dropped_count
    }
}

/// A count that stops at `u32::MAX`.
pub open spec fn saturating_count(n: nat) -> nat {
    if n > u32::MAX { u32::MAX as nat } else { n }
}

/// What a bounded queue holds after `item` is appended.
pub open spec fn pushed_bounded<T>(items: Seq<T>, item: T, capacity: nat) -> Seq<T> {
    if items.len() < capacity {
        items.push(item)
    } else if capacity == 0 {
        items
    } else {
        items.drop_first().push(item)
    }
}

impl<T: Clone> Clone for EvictedQueue<T> {
    fn clone(&self) -> (r: Self)
        ensures
            r.spec_capacity() == self.spec_capacity(),
            r.spec_dropped() == self.spec_dropped(),
            r.spec_items().len() == self.spec_items().len(),
            forall|i: int|
                0 <= i < self.spec_items().len() ==> cloned::<T>(
                    self.spec_items()[i],
                    #[trigger] r.spec_items()[i],
                ),
    {
        proof {
            use_type_invariant(self);
        }
        EvictedQueue {
            capacity: self.capacity,
            items: self.items.clone(),
            dropped_count: self.dropped_count,
        }
    }
}

/// Attributes keyed by name, at most `capacity` of them, in order of insertion.
#[derive(Debug, PartialEq)]
pub struct EvictedHashMap {
    capacity: usize,
    entries: Vec<KeyValue>,
    dropped_count: u32,
}

/// No two entries have the same key.
pub open spec fn unique_keys(entries: Seq<KeyValue>) -> bool {
    forall|i: int, j: int|
        0 <= i < j < entries.len() ==> #[trigger] entries[i].key@ != #[trigger] entries[j].key@
}

/// The position of the entry with key `key`, if any.
pub open spec fn key_index(entries: Seq<KeyValue>, key: Seq<char>) -> Option<int> {
    if exists|i: int| 0 <= i < entries.len() && #[trigger] entries[i].key@ == key {
        Some(choose|i: int| 0 <= i < entries.len() && #[trigger] entries[i].key@ == key)
    } else {
        None
    }
}

/// What the map holds after `kv` is inserted: an entry with the same key is
/// overwritten in place, otherwise the new entry goes last, evicting the oldest
/// one when the map is full.
pub open spec fn inserted_bounded(entries: Seq<KeyValue>, kv: KeyValue, capacity: nat) -> Seq<
    KeyValue,
> {
    match key_index(entries, kv.key@) {
        Some(i) => entries.update(i, kv),
        None => pushed_bounded(entries, kv, capacity),
    }
}

/// The value under `key`, if any.
pub open spec fn value_of(entries: Seq<KeyValue>, key: Seq<char>) -> Option<Value> {
    match key_index(entries, key) {
        Some(i) => Some(entries[i].value),
        None => None,
    }
}

impl EvictedHashMap {
    pub closed spec fn spec_capacity(&self) -> nat {
        self.capacity as nat
    }

    pub closed spec fn spec_entries(&self) -> Seq<KeyValue> {
        self.entries@
    }

    pub closed spec fn spec_dropped(&self) -> nat {
        self.dropped_count as nat
    }

    #[verifier::type_invariant]
    spec fn within_capacity(&self) -> bool {
        self.entries.len() <= self.capacity && unique_keys(self.entries@)
    }

    pub fn new(capacity: usize) -> (r: EvictedHashMap)
        ensures
            r.spec_capacity() == capacity,
            r.spec_entries() == Seq::<KeyValue>::empty(),
            r.spec_dropped() == 0,
    {
        EvictedHashMap { capacity, entries: Vec::new(), dropped_count: 0 }
    }

    fn find(&self, key: &String) -> (r: Option<usize>)
        requires
            unique_keys(self.entries@),
        ensures
            r matches Some(i) ==> key_index(self.entries@, key@) == Some(i as int),
            r is None ==> key_index(self.entries@, key@) is None,
    {
        let mut i: usize = 0;
        while i < self.entries.len()
            invariant
                i <= self.entries.len(),
                unique_keys(self.entries@),
                forall|j: int| 0 <= j < i ==> (#[trigger] self.entries@[j]).key@ != key@,
            decreases self.entries.len() - i,
        {
            if self.entries[i].key == *key {
                let ghost k = choose|j: int|
                    0 <= j < self.entries@.len() && #[trigger] self.entries@[j].key@ == key@;
                assert(self.entries@[i as int].key@ == key@);
                assert(k == i) by {
                    if k < i {
                        assert(self.entries@[k].key@ != key@);
                    } else if k > i {
                        assert(self.entries@[i as int].key@ != self.entries@[k].key@);
                    }
                }
                return Some(i);
            }
            i = i + 1;
        }
        None
    }

    /// Inserts or overwrites an attribute.
    pub fn insert(&mut self, kv: KeyValue)
        ensures
            final(self).spec_capacity() == old(self).spec_capacity(),
            final(self).spec_entries() == inserted_bounded(
                old(self).spec_entries(),
                kv,
                old(self).spec_capacity(),
            ),
            final(self).spec_dropped() == (if key_index(old(self).spec_entries(), kv.key@) is Some
                || old(self).spec_entries().len() < old(self).spec_capacity() {
                old(self).spec_dropped()
            } else {
                saturating_count(old(self).spec_dropped() + 1)
            }),
    {
        proof {
            use_type_invariant(&*self);
        }
        let ghost before = self.entries@;
        let found = self.find(&kv.key);
        let mut entries: Vec<KeyValue> = Vec::new();
        std::mem::swap(&mut entries, &mut self.entries);
        match found {
            Some(i) => {
                entries.set(i, kv);
                assert(unique_keys(entries@)) by {
                    assert forall|a: int, b: int|
                        0 <= a < b < entries@.len() implies #[trigger] entries@[a].key@
                        != #[trigger] entries@[b].key@ by {
                        if a != i && b != i {
                            assert(before[a].key@ != before[b].key@);
                        } else if a == i {
                            assert(before[a].key@ != before[b].key@);
                        } else {
                            assert(before[a].key@ != before[b].key@);
                        }
                    }
                }
            },
            None => {
                if entries.len() < self.capacity {
                    entries.push(kv);
                } else {
                    if self.capacity > 0 {
                        entries.remove(0);
                        entries.push(kv);
                    }
                    self.dropped_count = self.dropped_count.saturating_add(1);
                }
                assert(unique_keys(entries@)) by {
                    assert forall|a: int, b: int|
                        0 <= a < b < entries@.len() implies #[trigger] entries@[a].key@
                        != #[trigger] entries@[b].key@ by {
                        if b == entries@.len() - 1 && entries@[b] == kv {
                            let ai = if before.len() < self.capacity { a } else { a + 1 };
                            assert(before[ai] == entries@[a]);
                        } else if before.len() < self.capacity {
                            assert(before[a] == entries@[a]);
                        } else {
                            assert(before[a + 1] == entries@[a]);
                            assert(before[b + 1] == entries@[b]);
                        }
                    }
                }
            },
        }
        self.entries = entries;
    }

    /// The value under `key`, if any.
    pub fn get(&self, key: &String) -> (r: Option<&Value>)
        ensures
            r matches Some(v) ==> value_of(self.spec_entries(), key@) == Some(*v),
            r is None ==> value_of(self.spec_entries(), key@) is None,
    {
        proof {
            use_type_invariant(self);
        }
        match self.find(key) {
            Some(i) => Some(&self.entries[i].value),
            None => None,
        }
    }

    pub fn len(&self) -> (r: usize)
        ensures
            r == self.spec_entries().len(),
    {
        self.entries.len()
    }

    pub fn dropped_count(&self) -> (r: u32)
        ensures
            r == self.spec_dropped(),
    {
        self.dropped_count
    }
}

impl Clone for EvictedHashMap {
    fn clone(&self) -> (r: Self)
        ensures
            r.spec_capacity() == self.spec_capacity(),
            r.spec_dropped() == self.spec_dropped(),
            r.spec_entries() == self.spec_entries(),
    {
        proof {
            use_type_invariant(self);
        }
        EvictedHashMap {
            capacity: self.capacity,
            entries: crate::trace::clone_key_values(&self.entries),
            dropped_count: self.dropped_count,
        }
    }
}

} // verus!
