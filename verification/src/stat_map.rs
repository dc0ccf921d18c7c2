//! A small map from item keys to counts that remembers insertion order.

use vstd::prelude::*;
use crate::seqs::{
    first_index_of, lemma_first_index_is, lemma_first_index_none, lemma_first_index_of,
};
use crate::text::str_eq;

verus! {

/// One item key with its count.
#[derive(Debug, Clone, PartialEq, Eq)]
pub struct StatEntry {
    pub key: String,
    pub count: u32,
}

/// The counts of one category: each item key occurs once, in the order in
/// which the keys were first inserted.
#[derive(Debug, Clone, PartialEq, Eq)]
pub struct StatMap {
    entries: Vec<StatEntry>,
}

/// The keys of a sequence of entries, in order.
pub open spec fn keys(entries: Seq<(Seq<char>, u32)>) -> Seq<Seq<char>> {
    entries.map_values(|e: (Seq<char>, u32)| e.0)
}

/// Where `key` stands among `entries`.
pub open spec fn position(entries: Seq<(Seq<char>, u32)>, key: Seq<char>) -> Option<int> {
    first_index_of(keys(entries), key)
}

/// `entries` with `count` stored under `key`: in the place of the count
/// that `key` had, or at the end where it had none.
pub open spec fn inserted(entries: Seq<(Seq<char>, u32)>, key: Seq<char>, count: u32) -> Seq<
    (Seq<char>, u32),
> {
    match position(entries, key) {
        Some(i) => entries.update(i, (key, count)),
        None => entries.push((key, count)),
    }
}

/// The count stored under `key`.
pub open spec fn lookup(entries: Seq<(Seq<char>, u32)>, key: Seq<char>) -> Option<u32> {
    match position(entries, key) {
        Some(i) => Some(entries[i].1),
        None => None,
    }
}

impl StatMap {
    /// The entries in insertion order.
    pub closed spec fn entries(&self) -> Seq<(Seq<char>, u32)> {
        Seq::new(self.entries.len() as nat, |i: int| (self.entries[i].key@, self.entries[i].count))
    }

    /// No key occurs twice.
    pub open spec fn wf(&self) -> bool {
        keys(self.entries()).no_duplicates()
    }

    pub fn new() -> (map: StatMap)
        ensures
            map.entries() == Seq::<(Seq<char>, u32)>::empty(),
            map.wf(),
    {
        let map = StatMap { entries: Vec::new() };
        assert(map.entries() =~= Seq::<(Seq<char>, u32)>::empty());
        map
    }

    pub fn len(&self) -> (n: usize)
        ensures
            n == self.entries().len(),
    {
        self.entries.len()
    }

    /// The key of the entry at `index`.
    pub fn key_at(&self, index: usize) -> (key: &str)
        requires
            index < self.entries().len(),
        ensures
            key@ == self.entries()[index as int].0,
    {
        self.entries[index].key.as_str()
    }

    /// The count of the entry at `index`.
    pub fn count_at(&self, index: usize) -> (count: u32)
        requires
            index < self.entries().len(),
        ensures
            count == self.entries()[index as int].1,
    {
        self.entries[index].count
    }

    /// The count stored under `key`, if there is one.
    pub fn get(&self, key: &str) -> (count: Option<u32>)
        ensures
            count == lookup(self.entries(), key@),
    {
        let mut i: usize = 0;
        while i < self.entries.len()
            invariant
                i <= self.entries.len(),
                forall|j: int| 0 <= j < i ==> keys(self.entries())[j] != key@,
            decreases self.entries.len() - i,
        {
            if str_eq(self.entries[i].key.as_str(), key) {
                proof {
                    lemma_first_index_is(keys(self.entries()), key@, i as int);
                }
                return Some(self.entries[i].count);
            }
            i += 1;
        }
        proof {
            lemma_first_index_none(keys(self.entries()), key@);
        }
        None
    }

    /// Stores `count` under `key` and returns the count that it replaces.
    pub fn insert(&mut self, key: String, count: u32) -> (previous: Option<u32>)
        ensures
            final(self).entries() == inserted(old(self).entries(), key@, count),
            previous == lookup(old(self).entries(), key@),
            old(self).wf() ==> final(self).wf(),
    {
        let mut i: usize = 0;
        while i < self.entries.len()
            invariant
                i <= self.entries.len(),
                *self == *old(self),
                forall|j: int| 0 <= j < i ==> keys(self.entries())[j] != key@,
            decreases self.entries.len() - i,
        {
            if str_eq(self.entries[i].key.as_str(), key.as_str()) {
                proof {
                    lemma_first_index_is(keys(self.entries()), key@, i as int);
                }
                let previous = self.entries[i].count;
                self.entries[i].count = count;
                assert(self.entries() =~= old(self).entries().update(i as int, (key@, count)));
                assert(keys(self.entries()) =~= keys(old(self).entries()));
                return Some(previous);
            }
            i += 1;
        }
        proof {
            lemma_first_index_none(keys(self.entries()), key@);
        }
        self.entries.push(StatEntry { key, count });
        assert(self.entries() =~= old(self).entries().push((key@, count)));
        assert(keys(self.entries()) =~= keys(old(self).entries()).push(key@));
        None
    }
}

impl DeepView for StatMap {
    type V = Seq<(Seq<char>, u32)>;

    open spec fn deep_view(&self) -> Seq<(Seq<char>, u32)> {
        self.entries()
    }
}

/// A key that was inserted is found with its count, and every other key
/// keeps what it had.
pub proof fn lemma_lookup_inserted(
    entries: Seq<(Seq<char>, u32)>,
    key: Seq<char>,
    count: u32,
    other: Seq<char>,
)
    ensures
        lookup(inserted(entries, key, count), key) == Some(count),
        other != key ==> lookup(inserted(entries, key, count), other) == lookup(entries, other),
{
    let after = inserted(entries, key, count);
    lemma_first_index_of(keys(entries), key);
    lemma_first_index_of(keys(entries), other);
    match position(entries, key) {
        Some(i) => {
            assert(keys(after) =~= keys(entries));
        },
        None => {
            assert(keys(after) =~= keys(entries).push(key));
            lemma_first_index_is(keys(after), key, entries.len() as int);
            if other != key {
                match position(entries, other) {
                    Some(j) => {
                        lemma_first_index_is(keys(after), other, j);
                    },
                    None => {
                        lemma_first_index_none(keys(after), other);
                    },
                }
            }
        },
    }
}

} // verus!
