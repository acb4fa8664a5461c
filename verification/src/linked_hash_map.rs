//! A map from canonical paths to parsed files that keeps the order of
//! insertion.

use vstd::prelude::*;
use protobuf::descriptor::FileDescriptorProto;
use crate::model::{FileDescriptorPair, FileDescriptorPairView};
use crate::proto_path::ProtoPathBuf;

verus! {

/// One entry of the map, as a mathematical value: the path and what it maps to.
pub type EntryView = (Seq<char>, FileDescriptorPairView);

/// The entries as mathematical values.
pub open spec fn entries_view(entries: Seq<(ProtoPathBuf, FileDescriptorPair)>) -> Seq<EntryView> {
    Seq::new(entries.len(), |i: int| (entries[i].0@, entries[i].1@))
}

/// Whether some entry has the key `key`.
pub open spec fn has_key(entries: Seq<EntryView>, key: Seq<char>) -> bool {
    exists|i: int| 0 <= i < entries.len() && (#[trigger] entries[i]).0 == key
}

/// Whether no two entries have the same key.
pub open spec fn distinct_keys(entries: Seq<EntryView>) -> bool {
    forall|i: int, j: int|
        0 <= i < j < entries.len() ==> (#[trigger] entries[i]).0 != (#[trigger] entries[j]).0
}

/// The place of an entry with the key `key`.
pub open spec fn index_of_key(entries: Seq<EntryView>, key: Seq<char>) -> int {
    choose|i: int| 0 <= i < entries.len() && (#[trigger] entries[i]).0 == key
}

/// What `key` maps to.
pub open spec fn lookup(entries: Seq<EntryView>, key: Seq<char>) -> Option<
    FileDescriptorPairView,
> {
    if has_key(entries, key) {
        Some(entries[index_of_key(entries, key)].1)
    } else {
        None
    }
}

/// The descriptors of the entries, in order.
pub open spec fn descriptors_of(entries: Seq<EntryView>) -> Seq<FileDescriptorProto> {
    Seq::new(entries.len(), |i: int| entries[i].1.descriptor)
}

/// Among distinct keys, the entry at `i` is what its key maps to.
pub proof fn lemma_lookup_at(entries: Seq<EntryView>, i: int)
    requires
        distinct_keys(entries),
        0 <= i < entries.len(),
    ensures
        has_key(entries, entries[i].0),
        index_of_key(entries, entries[i].0) == i,
        lookup(entries, entries[i].0) == Some(entries[i].1),
{
}

/// A new entry behind the others changes no lookup but that of its own key.
pub proof fn lemma_lookup_after_push(entries: Seq<EntryView>, entry: EntryView, key: Seq<char>)
    requires
        distinct_keys(entries),
        !has_key(entries, entry.0),
    ensures
        distinct_keys(entries.push(entry)),
        has_key(entries.push(entry), key) == (has_key(entries, key) || key == entry.0),
        lookup(entries.push(entry), key) == if key == entry.0 {
            Some(entry.1)
        } else {
            lookup(entries, key)
        },
{
    let grown = entries.push(entry);
    if has_key(entries, key) {
        let i = index_of_key(entries, key);
        lemma_lookup_at(grown, i);
    }
    if key == entry.0 {
        lemma_lookup_at(grown, entries.len() as int);
    }
}

/// A map from canonical paths to parsed files. It hands its entries out in the
/// order in which they were inserted, and holds at most one for each path.
pub struct LinkedHashMap {
    entries: Vec<(ProtoPathBuf, FileDescriptorPair)>,
}

impl View for LinkedHashMap {
    type V = Seq<EntryView>;

    closed spec fn view(&self) -> Seq<EntryView> {
        entries_view(self.entries@)
    }
}

impl LinkedHashMap {
    /// Whether the map holds no path twice.
    pub open spec fn wf(&self) -> bool {
        distinct_keys(self@)
    }

    /// The empty map.
    pub fn new() -> (map: LinkedHashMap)
        ensures
            map@ == Seq::<EntryView>::empty(),
            map.wf(),
    {
        LinkedHashMap { entries: Vec::new() }
    }

    /// The number of entries.
    pub fn len(&self) -> (n: usize)
        ensures
            n == self@.len(),
    {
        self.entries.len()
    }

    /// The place of `key` among the entries, if it is there.
    fn position(&self, key: &ProtoPathBuf) -> (at: Option<usize>)
        ensures
            match at {
                Some(i) => i < self@.len() && self@[i as int].0 == key@,
                None => !has_key(self@, key@),
            },
    {
        let mut i: usize = 0;
        while i < self.entries.len()
            invariant
                i <= self.entries.len(),
                forall|j: int| 0 <= j < i ==> (#[trigger] self@[j]).0 != key@,
            decreases self.entries.len() - i,
        {
            if self.entries[i].0.same_as(key) {
                return Some(i);
            }
            i += 1;
        }
        None
    }

    /// Whether the map holds `key`.
    pub fn contains_key(&self, key: &ProtoPathBuf) -> (found: bool)
        ensures
            found == has_key(self@, key@),
    {
        self.position(key).is_some()
    }

    /// What `key` maps to.
    pub fn get(&self, key: &ProtoPathBuf) -> (found: Option<&FileDescriptorPair>)
        requires
            self.wf(),
        ensures
            match found {
                Some(pair) => lookup(self@, key@) == Some(pair@),
                None => lookup(self@, key@) is None,
            },
    {
        match self.position(key) {
            Some(i) => {
                Some(&self.entries[i].1)
            },
            None => None,
        }
    }

    /// Maps `key` to `value` unless the map holds `key` already: then the map
    /// stays as it is. Tells whether the entry went in.
    pub fn insert(&mut self, key: ProtoPathBuf, value: FileDescriptorPair) -> (inserted: bool)
        requires
            old(self).wf(),
        ensures
            final(self).wf(),
            inserted == !has_key(old(self)@, key@),
            final(self)@ == if inserted {
                old(self)@.push((key@, value@))
            } else {
                old(self)@
            },
    {
        if self.position(&key).is_some() {
            return false;
        }
        self.entries.push((key, value));
        assert(self@ == old(self)@.push((key@, value@)));
        true
    }

    /// The path of the entry at `i`.
    pub fn key_at(&self, i: usize) -> (key: &ProtoPathBuf)
        requires
            i < self@.len(),
        ensures
            key@ == self@[i as int].0,
    {
        &self.entries[i].0
    }

    /// What the entry at `i` maps its path to.
    pub fn value_at(&self, i: usize) -> (value: &FileDescriptorPair)
        requires
            i < self@.len(),
        ensures
            value@ == self@[i as int].1,
    {
        &self.entries[i].1
    }

    /// The entries, in the order of insertion.
    pub fn into_entries(self) -> (entries: Vec<(ProtoPathBuf, FileDescriptorPair)>)
        ensures
            entries_view(entries@) == self@,
    {
        self.entries
    }

    /// The descriptors of the entries, in the order of insertion.
    pub fn into_descriptors(self) -> (descriptors: Vec<FileDescriptorProto>)
        ensures
            descriptors@ == descriptors_of(self@),
    {
        let ghost all = self@;
        let mut entries = self.entries;
        let mut reversed: Vec<FileDescriptorProto> = Vec::new();
        while entries.len() > 0
            invariant
                entries@.len() + reversed@.len() == all.len(),
                forall|i: int|
                    0 <= i < entries@.len() ==> (#[trigger] entries@[i]).1.descriptor
                        == all[i].1.descriptor,
                forall|i: int|
                    0 <= i < reversed@.len() ==> #[trigger] reversed@[i] == all[all.len() - 1
                        - i].1.descriptor,
            decreases entries@.len(),
        {
            let entry = entries.pop().unwrap();
            reversed.push(entry.1.descriptor);
        }
        let mut descriptors: Vec<FileDescriptorProto> = Vec::new();
        while reversed.len() > 0
            invariant
                descriptors@.len() + reversed@.len() == all.len(),
                forall|i: int|
                    0 <= i < reversed@.len() ==> #[trigger] reversed@[i] == all[all.len() - 1
                        - i].1.descriptor,
                forall|i: int|
                    0 <= i < descriptors@.len() ==> #[trigger] descriptors@[i]
                        == all[i].1.descriptor,
            decreases reversed@.len(),
        {
            let descriptor = reversed.pop().unwrap();
            descriptors.push(descriptor);
        }
        descriptors
    }
}

} // verus!
