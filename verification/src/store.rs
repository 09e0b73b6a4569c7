//! The least-recently-used map of the `lru-cache` crate, holding compiled
//! patterns under their sources, and the model that its contracts speak of.
//!
//! The model is a sequence of entries from the least to the most recently
//! used. The spec functions here are plain definitions; the functions at
//! the end of the file are believed of the crate, not proved.

use vstd::prelude::*;
use lru_cache::LruCache;
use regex::Regex;

verus! {

/// One entry of the model: a source and the pattern kept under it.
pub type Entry = (Seq<char>, Regex);

/// True if some entry is kept under `key`.
pub open spec fn has_key(entries: Seq<Entry>, key: Seq<char>) -> bool {
    exists|i: int| 0 <= i < entries.len() && (#[trigger] entries[i]).0 == key
}

/// The place of an entry kept under `key`, if there is one.
pub open spec fn index_of(entries: Seq<Entry>, key: Seq<char>) -> int {
    choose|i: int| 0 <= i < entries.len() && (#[trigger] entries[i]).0 == key
}

/// The pattern kept under `key`, if any.
pub open spec fn lookup(entries: Seq<Entry>, key: Seq<char>) -> Option<Regex> {
    if has_key(entries, key) {
        Some(entries[index_of(entries, key)].1)
    } else {
        None
    }
}

/// The entries without the one kept under `key`, the others in their order.
pub open spec fn without(entries: Seq<Entry>, key: Seq<char>) -> Seq<Entry> {
    if has_key(entries, key) {
        entries.remove(index_of(entries, key))
    } else {
        entries
    }
}

/// The entries after a use of `key`: its entry, if there is one, becomes
/// the most recently used.
pub open spec fn touched(entries: Seq<Entry>, key: Seq<char>) -> Seq<Entry> {
    if has_key(entries, key) {
        without(entries, key).push(entries[index_of(entries, key)])
    } else {
        entries
    }
}

/// The entries after `value` is put under `key` in a map that holds at most
/// `capacity` entries: the new entry is the most recently used, and where
/// that is one entry too many the least recently used one leaves.
pub open spec fn inserted(entries: Seq<Entry>, capacity: nat, key: Seq<char>, value: Regex) -> Seq<
    Entry,
> {
    let grown = without(entries, key).push((key, value));
    if grown.len() > capacity {
        grown.drop_first()
    } else {
        grown
    }
}

/// No two entries are kept under the same key.
pub open spec fn distinct_keys(entries: Seq<Entry>) -> bool {
    forall|i: int, j: int|
        0 <= i < entries.len() && 0 <= j < entries.len() && i != j ==> (#[trigger] entries[i]).0
            != (#[trigger] entries[j]).0
}

/// The map type of the `lru-cache` crate.
#[verifier::external_type_specification]
#[verifier::external_body]
#[verifier::reject_recursive_types(K)]
#[verifier::reject_recursive_types(V)]
#[verifier::reject_recursive_types(S)]
pub struct ExLruCache<K: Eq + std::hash::Hash, V, S: std::hash::BuildHasher>(LruCache<K, V, S>);

/// What a map holds, from the least to the most recently used entry.
pub uninterp spec fn lru_entries(cache: LruCache<String, Regex>) -> Seq<Entry>;

/// The number of entries that a map was made to hold at most.
pub uninterp spec fn lru_capacity(cache: LruCache<String, Regex>) -> nat;

/// `LruCache::new`: an empty map with the given capacity.
#[verifier::external_body]
pub(crate) fn lru_new(capacity: usize) -> (cache: LruCache<String, Regex>)
    ensures
        lru_entries(cache) == Seq::<Entry>::empty(),
        lru_capacity(cache) == capacity,
{
    LruCache::new(capacity)
}

/// `LruCache::len`: the number of entries.
#[verifier::external_body]
pub(crate) fn lru_len(cache: &LruCache<String, Regex>) -> (n: usize)
    ensures
        n == lru_entries(*cache).len(),
{
    cache.len()
}

/// `LruCache::capacity`: the capacity that the map was made with.
#[verifier::external_body]
pub(crate) fn lru_capacity_of(cache: &LruCache<String, Regex>) -> (n: usize)
    ensures
        n == lru_capacity(*cache),
{
    cache.capacity()
}

/// `LruCache::contains_key`: says whether an entry is kept under the key.
/// In this crate the question counts as a use: an entry that is found
/// becomes the most recently used.
#[verifier::external_body]
pub(crate) fn lru_contains_key(cache: &mut LruCache<String, Regex>, key: &str) -> (found: bool)
    ensures
        found == has_key(lru_entries(*old(cache)), key@),
        lru_entries(*final(cache)) == touched(lru_entries(*old(cache)), key@),
        lru_capacity(*final(cache)) == lru_capacity(*old(cache)),
{
    cache.contains_key(key)
}

/// `LruCache::insert`: puts the value under the key as the most recently
/// used entry, in place of an entry under the same key if there is one, and
/// then drops the least recently used entry if the map holds more than its
/// capacity.
#[verifier::external_body]
pub(crate) fn lru_insert(cache: &mut LruCache<String, Regex>, key: String, value: Regex)
    ensures
        lru_entries(*final(cache)) == inserted(
            lru_entries(*old(cache)),
            lru_capacity(*old(cache)),
            key@,
            value,
        ),
        lru_capacity(*final(cache)) == lru_capacity(*old(cache)),
{
    cache.insert(key, value);
}

/// `LruCache::get_mut`, handing the value out for reading: the pattern kept
/// under the key, if any, which becomes the most recently used entry.
#[verifier::external_body]
pub(crate) fn lru_get<'a>(cache: &'a mut LruCache<String, Regex>, key: &str) -> (r: Option<
    &'a Regex,
>)
    ensures
        match r {
            Some(re) => lookup(lru_entries(*old(cache)), key@) == Some(*re),
            None => lookup(lru_entries(*old(cache)), key@) is None,
        },
        lru_entries(*final(cache)) == touched(lru_entries(*old(cache)), key@),
        lru_capacity(*final(cache)) == lru_capacity(*old(cache)),
{
    match cache.get_mut(key) {
        Some(re) => Some(&*re),
        None => None,
    }
}

/// `LruCache::remove`: takes the entry under the key out of the map and
/// hands its pattern back; the other entries keep their order.
#[verifier::external_body]
pub(crate) fn lru_remove(cache: &mut LruCache<String, Regex>, key: &str) -> (r: Option<Regex>)
    ensures
        r == lookup(lru_entries(*old(cache)), key@),
        lru_entries(*final(cache)) == without(lru_entries(*old(cache)), key@),
        lru_capacity(*final(cache)) == lru_capacity(*old(cache)),
{
    cache.remove(key)
}

/// `LruCache::iter`, collected: each entry as its key and a reference to
/// its pattern, from the least to the most recently used. Going through
/// the entries is no use of any of them.
#[verifier::external_body]
pub(crate) fn lru_items<'a>(cache: &'a LruCache<String, Regex>) -> (items: Vec<
    (&'a str, &'a Regex),
>)
    ensures
        items@.len() == lru_entries(*cache).len(),
        forall|i: int|
            0 <= i < items@.len() ==> (#[trigger] items@[i]).0@ == lru_entries(*cache)[i].0
                && *items@[i].1 == lru_entries(*cache)[i].1,
{
    cache.iter().map(|(key, value)| (key.as_str(), value)).collect()
}

/// `==` on `str`: true if the two texts are the same.
#[verifier::external_body]
pub(crate) fn same_text(a: &str, b: &str) -> (same: bool)
    ensures
        same == (a@ == b@),
{
    a == b
}

} // verus!
