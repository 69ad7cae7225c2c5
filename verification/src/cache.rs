//! The response cache: encoded images by request fingerprint.
//!
//! Entries are appended and never removed, replaced or merged. A lookup
//! returns the image that was stored first under the fingerprint.

use crate::lookup::{get, is_first_match};
use crate::request::{Fingerprint, RequestIdentifier};
use vstd::prelude::*;

verus! {

/// The images rendered so far, each under the fingerprint of its request.
pub struct ResponseCache {
    entries: Vec<(RequestIdentifier, Vec<u8>)>,
}

/// `i` is the position of the first entry of `entries` stored under `key`.
pub open spec fn first_entry_at(
    entries: Seq<(Fingerprint, Seq<u8>)>,
    key: Fingerprint,
    i: int,
) -> bool {
    &&& 0 <= i < entries.len()
    &&& entries[i].0 == key
    &&& forall|j: int| 0 <= j < i ==> (#[trigger] entries[j]).0 != key
}

/// The image that a lookup of `key` gives: that of the first entry stored
/// under `key`, if there is one.
pub open spec fn cached(entries: Seq<(Fingerprint, Seq<u8>)>, key: Fingerprint) -> Option<
    Seq<u8>,
> {
    if exists|i: int| first_entry_at(entries, key, i) {
        Some(entries[choose|i: int| first_entry_at(entries, key, i)].1)
    } else {
        None
    }
}

impl View for ResponseCache {
    type V = Seq<(Fingerprint, Seq<u8>)>;

    closed spec fn view(&self) -> Seq<(Fingerprint, Seq<u8>)> {
        Seq::new(self.entries@.len(), |i: int| (self.entries@[i].0@, self.entries@[i].1@))
    }
}

impl ResponseCache {
    /// A cache without entries.
    pub fn new() -> (cache: ResponseCache)
        ensures
            cache@ == Seq::<(Fingerprint, Seq<u8>)>::empty(),
    {
        ResponseCache { entries: Vec::new() }
    }

    /// The number of entries.
    pub fn len(&self) -> (count: usize)
        ensures
            count == self@.len(),
    {
        self.entries.len()
    }

    /// The image stored for `fingerprint`, where there is one.
    pub fn lookup(&self, fingerprint: &RequestIdentifier) -> (image: Option<&Vec<u8>>)
        ensures
            match image {
                Some(bytes) => cached(self@, fingerprint@) == Some(bytes@),
                None => cached(self@, fingerprint@) is None,
            },
    {
        let image = get(&self.entries, fingerprint);
        proof {
            if let Some(bytes) = image {
                let i = choose|i: int|
                    is_first_match(self.entries@, fingerprint, i) && *bytes == (
                    #[trigger] self.entries@[i]).1;
                assert(first_entry_at(self@, fingerprint@, i));
                let w = choose|w: int| first_entry_at(self@, fingerprint@, w);
                lemma_first_entry_unique(self@, fingerprint@, w, i);
            }
        }
        image
    }

    /// Appends `image` under `fingerprint`. Nothing that is in the cache
    /// changes.
    pub fn store(&mut self, fingerprint: RequestIdentifier, image: Vec<u8>)
        ensures
            final(self)@ == old(self)@.push((fingerprint@, image@)),
    {
        self.entries.push((fingerprint, image));
    }
}

/// An entry stands first under a key at one position at most.
pub proof fn lemma_first_entry_unique(
    entries: Seq<(Fingerprint, Seq<u8>)>,
    key: Fingerprint,
    i: int,
    j: int,
)
    requires
        first_entry_at(entries, key, i),
        first_entry_at(entries, key, j),
    ensures
        i == j,
{
}

/// After an image is stored under a key, a lookup of the key finds an
/// image: the one that was there before, or else the one just stored.
pub proof fn lemma_store_then_lookup(
    entries: Seq<(Fingerprint, Seq<u8>)>,
    key: Fingerprint,
    image: Seq<u8>,
)
    ensures
        cached(entries.push((key, image)), key) == (match cached(entries, key) {
            Some(earlier) => Some(earlier),
            None => Some(image),
        }),
{
    let after = entries.push((key, image));
    if exists|i: int| first_entry_at(entries, key, i) {
        let i = choose|i: int| first_entry_at(entries, key, i);
        assert(first_entry_at(after, key, i));
        let w = choose|w: int| first_entry_at(after, key, w);
        lemma_first_entry_unique(after, key, w, i);
    } else {
        let n = entries.len() as int;
        assert(first_entry_at(after, key, n)) by {
            assert forall|j: int| 0 <= j < n implies (#[trigger] after[j]).0 != key by {
                if entries[j].0 == key {
                    lemma_has_first_entry(entries, key, j);
                }
            }
        }
        let w = choose|w: int| first_entry_at(after, key, w);
        lemma_first_entry_unique(after, key, w, n);
    }
}

/// Storing under one key changes no lookup of another key, and no lookup
/// that found an image before.
pub proof fn lemma_store_keeps_lookups(
    entries: Seq<(Fingerprint, Seq<u8>)>,
    key: Fingerprint,
    image: Seq<u8>,
    other: Fingerprint,
)
    requires
        other != key || cached(entries, other) is Some,
    ensures
        cached(entries.push((key, image)), other) == cached(entries, other),
{
    let after = entries.push((key, image));
    if exists|i: int| first_entry_at(entries, other, i) {
        let i = choose|i: int| first_entry_at(entries, other, i);
        assert(first_entry_at(after, other, i));
        let w = choose|w: int| first_entry_at(after, other, w);
        lemma_first_entry_unique(after, other, w, i);
    } else if exists|i: int| first_entry_at(after, other, i) {
        let i = choose|i: int| first_entry_at(after, other, i);
        if i < entries.len() {
            lemma_has_first_entry(entries, other, i);
        }
    }
}

/// Where some entry is stored under a key, one of them stands first.
pub proof fn lemma_has_first_entry(entries: Seq<(Fingerprint, Seq<u8>)>, key: Fingerprint, i: int)
    requires
        0 <= i < entries.len(),
        entries[i].0 == key,
    ensures
        exists|w: int| first_entry_at(entries, key, w),
    decreases i,
{
    if exists|j: int| 0 <= j < i && (#[trigger] entries[j]).0 == key {
        let j = choose|j: int| 0 <= j < i && (#[trigger] entries[j]).0 == key;
        lemma_has_first_entry(entries, key, j);
    } else {
        assert(first_entry_at(entries, key, i));
    }
}

} // verus!
