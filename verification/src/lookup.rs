//! Association lists: vectors of key/value pairs searched front to back.
//!
//! What a search finds is stated twice: over the meaning of `==` for key
//! types that have one, and over the outcomes of the comparisons themselves
//! for every key type.

use vstd::prelude::*;
use vstd::std_specs::cmp::PartialEqSpec;

verus! {

/// `i` is the position of the first entry of `entries` whose key equals `key`.
pub open spec fn is_first_match<K: PartialEq, V>(entries: Seq<(K, V)>, key: &K, i: int) -> bool {
    &&& 0 <= i < entries.len()
    &&& entries[i].0.eq_spec(key)
    &&& forall|j: int| 0 <= j < i ==> !(#[trigger] entries[j]).0.eq_spec(key)
}

/// Some entry of `entries` has a key equal to `key`.
pub open spec fn has_key<K: PartialEq, V>(entries: Seq<(K, V)>, key: &K) -> bool {
    exists|i: int| 0 <= i < entries.len() && (#[trigger] entries[i]).0.eq_spec(key)
}

/// Comparing the key of `entry` with `key` by `==` can give `outcome`.
pub open spec fn compares<K: PartialEq, V>(entry: (K, V), key: &K, outcome: bool) -> bool {
    call_ensures(K::eq, (&entry.0, key), outcome)
}

/// The key of entry `i` of `entries` compared equal to `key`, and the key
/// of every entry before it compared unequal.
pub open spec fn is_first_hit<K: PartialEq, V>(entries: Seq<(K, V)>, key: &K, i: int) -> bool {
    &&& 0 <= i < entries.len()
    &&& compares(entries[i], key, true)
    &&& forall|j: int| 0 <= j < i ==> compares(#[trigger] entries[j], key, false)
}

/// The key of every entry of `entries` compared unequal to `key`.
pub open spec fn is_miss<K: PartialEq, V>(entries: Seq<(K, V)>, key: &K) -> bool {
    forall|j: int| 0 <= j < entries.len() ==> compares(#[trigger] entries[j], key, false)
}

/// Returns true if `vec` contains `key`
pub fn contains_key<K, V>(vec: &Vec<(K, V)>, key: &K) -> (found: bool)
    where K: PartialEq
    ensures
        K::obeys_eq_spec() ==> found == has_key(vec@, key),
        found ==> exists|i: int| is_first_hit(vec@, key, i),
        !found ==> is_miss(vec@, key),
{
    let mut i: usize = 0;
    while i < vec.len()
        invariant
            i <= vec.len(),
            K::obeys_eq_spec() ==> forall|j: int| 0 <= j < i ==> !(#[trigger] vec@[j]).0.eq_spec(key),
            forall|j: int| 0 <= j < i ==> compares(#[trigger] vec@[j], key, false),
        decreases vec.len() - i,
    {
        if vec[i].0 == *key {
            assert(is_first_hit(vec@, key, i as int));
            return true;
        }
        i += 1;
    }
    false
}

/// Returns the value associated with `key`: that of the first entry with this key
pub fn get<'a, K, V>(vec: &'a Vec<(K, V)>, key: &K) -> (value: Option<&'a V>)
    where K: PartialEq
    ensures
        K::obeys_eq_spec() ==> match value {
            Some(v) => exists|i: int| is_first_match(vec@, key, i) && *v == (#[trigger] vec@[i]).1,
            None => !has_key(vec@, key),
        },
        match value {
            Some(v) => exists|i: int| is_first_hit(vec@, key, i) && *v == (#[trigger] vec@[i]).1,
            None => is_miss(vec@, key),
        },
{
    let mut i: usize = 0;
    while i < vec.len()
        invariant
            i <= vec.len(),
            K::obeys_eq_spec() ==> forall|j: int| 0 <= j < i ==> !(#[trigger] vec@[j]).0.eq_spec(key),
            forall|j: int| 0 <= j < i ==> compares(#[trigger] vec@[j], key, false),
        decreases vec.len() - i,
    {
        if vec[i].0 == *key {
            assert(K::obeys_eq_spec() ==> is_first_match(vec@, key, i as int));
            assert(is_first_hit(vec@, key, i as int));
            return Some(&vec[i].1);
        }
        i += 1;
    }
    None
}

} // verus!
