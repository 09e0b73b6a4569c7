//! A bounded cache of compiled patterns, keyed by their source text, that
//! drops the least recently used entry when it is full.

use vstd::prelude::*;
use lru_cache::LruCache;
use regex::Regex;
use crate::engine::{build_failure, build_regex, regex_as_str, regex_source};
use crate::error::Error;
use crate::options::CompileOptions;
use crate::store::{
    distinct_keys, has_key, index_of, inserted, lookup, lru_capacity, lru_capacity_of,
    lru_contains_key, lru_entries, lru_get, lru_insert, lru_items, lru_len, lru_new, lru_remove,
    same_text, touched, without, Entry,
};

verus! {

/// Every entry is kept under the source that its pattern reports.
pub open spec fn keyed_by_source(entries: Seq<Entry>) -> bool {
    forall|i: int| 0 <= i < entries.len() ==> regex_source((#[trigger] entries[i]).1) == entries[i].0
}

/// What holds of the entries of a cache of the given capacity at all times.
pub open spec fn valid_entries(entries: Seq<Entry>, capacity: nat) -> bool {
    &&& entries.len() <= capacity
    &&& distinct_keys(entries)
    &&& keyed_by_source(entries)
}

/// Where the entry at place `at` of `after` stood before a use of the entry
/// at place `used`, among `count` entries.
pub open spec fn place_before(used: int, count: int, at: int) -> int {
    if at < used {
        at
    } else if at < count - 1 {
        at + 1
    } else {
        used
    }
}

/// A use of a key that is present moves its entry to the end and leaves
/// the others in their order.
pub proof fn lemma_touched_places(entries: Seq<Entry>, key: Seq<char>)
    requires
        has_key(entries, key),
    ensures
        0 <= index_of(entries, key) < entries.len(),
        entries[index_of(entries, key)].0 == key,
        touched(entries, key).len() == entries.len(),
        forall|at: int|
            0 <= at < entries.len() ==> #[trigger] touched(entries, key)[at] == entries[place_before(
                index_of(entries, key),
                entries.len() as int,
                at,
            )],
{
    let used = index_of(entries, key);
    assert(touched(entries, key) == entries.remove(used).push(entries[used]));
}

/// A use of a key that is present keeps the entries valid, keeps every
/// key and its pattern, and makes the used entry the last one.
pub proof fn lemma_touched(entries: Seq<Entry>, capacity: nat, key: Seq<char>)
    requires
        valid_entries(entries, capacity),
        has_key(entries, key),
    ensures
        valid_entries(touched(entries, key), capacity),
        touched(entries, key).len() == entries.len(),
        touched(entries, key).last() == (key, lookup(entries, key)->Some_0),
        forall|k: Seq<char>| has_key(touched(entries, key), k) == has_key(entries, k),
        forall|k: Seq<char>| lookup(touched(entries, key), k) == lookup(entries, k),
{
    let used = index_of(entries, key);
    let count = entries.len() as int;
    let after = touched(entries, key);
    lemma_touched_places(entries, key);
    assert(after.last() == after[count - 1]);
    assert(after[count - 1] == entries[place_before(used, count, count - 1)]);
    assert(distinct_keys(after)) by {
        assert forall|a: int, c: int|
            0 <= a < after.len() && 0 <= c < after.len() && a != c implies (#[trigger] after[a]).0
            != (#[trigger] after[c]).0 by {
            let pa = place_before(used, count, a);
            let pc = place_before(used, count, c);
            assert(after[a] == entries[pa]);
            assert(after[c] == entries[pc]);
            assert(pa != pc);
            assert(entries[pa].0 != entries[pc].0);
        }
    }
    assert(keyed_by_source(after)) by {
        assert forall|a: int| 0 <= a < after.len() implies regex_source((#[trigger] after[a]).1)
            == after[a].0 by {
            let pa = place_before(used, count, a);
            assert(after[a] == entries[pa]);
            assert(regex_source(entries[pa].1) == entries[pa].0);
        }
    }
    assert forall|k: Seq<char>| has_key(after, k) == has_key(entries, k) && lookup(after, k)
        == lookup(entries, k) by {
        lemma_touched_key(entries, capacity, key, k);
    }
}

/// A use of one key changes neither whether another is present nor the
/// pattern kept under it.
pub proof fn lemma_touched_key(entries: Seq<Entry>, capacity: nat, key: Seq<char>, k: Seq<char>)
    requires
        valid_entries(entries, capacity),
        has_key(entries, key),
    ensures
        has_key(touched(entries, key), k) == has_key(entries, k),
        lookup(touched(entries, key), k) == lookup(entries, k),
{
    let used = index_of(entries, key);
    let count = entries.len() as int;
    let after = touched(entries, key);
    lemma_touched_places(entries, key);
    if has_key(entries, k) {
        let b = index_of(entries, k);
        let a = if b < used {
            b
        } else if b == used {
            count - 1
        } else {
            b - 1
        };
        assert(place_before(used, count, a) == b);
        assert(after[a] == entries[b]);
        assert(after[a].0 == k);
        assert(has_key(after, k));
        let a0 = index_of(after, k);
        let b0 = place_before(used, count, a0);
        assert(after[a0] == entries[b0]);
        assert(entries[b0].0 == k);
        assert(b0 == b);
    } else if has_key(after, k) {
        let a0 = index_of(after, k);
        let b0 = place_before(used, count, a0);
        assert(after[a0] == entries[b0]);
        assert(entries[b0].0 == k);
        assert(has_key(entries, k));
    }
}

/// Putting a pattern under its own source, where nothing is kept under it
/// yet, keeps the entries valid. Where the capacity is not zero the new
/// entry is then the last one, and every other key is still present unless
/// it was the first of a full cache.
pub proof fn lemma_inserted(entries: Seq<Entry>, capacity: nat, key: Seq<char>, value: Regex)
    requires
        valid_entries(entries, capacity),
        !has_key(entries, key),
        regex_source(value) == key,
    ensures
        valid_entries(inserted(entries, capacity, key, value), capacity),
        capacity > 0 ==> has_key(inserted(entries, capacity, key, value), key),
        capacity > 0 ==> lookup(inserted(entries, capacity, key, value), key) == Some(value),
        capacity > 0 ==> inserted(entries, capacity, key, value).last() == (key, value),
        entries.len() < capacity ==> inserted(entries, capacity, key, value) == entries.push(
            (key, value),
        ),
        entries.len() == capacity ==> inserted(entries, capacity, key, value) == entries.push(
            (key, value),
        ).drop_first(),
{
    let grown = entries.push((key, value));
    let after = inserted(entries, capacity, key, value);
    assert(distinct_keys(grown)) by {
        assert forall|a: int, c: int|
            0 <= a < grown.len() && 0 <= c < grown.len() && a != c implies (#[trigger] grown[a]).0
            != (#[trigger] grown[c]).0 by {
            if a < entries.len() {
                assert(grown[a] == entries[a]);
            }
            if c < entries.len() {
                assert(grown[c] == entries[c]);
            }
        }
    }
    assert(keyed_by_source(grown)) by {
        assert forall|a: int| 0 <= a < grown.len() implies regex_source((#[trigger] grown[a]).1)
            == grown[a].0 by {
            if a < entries.len() {
                assert(grown[a] == entries[a]);
            }
        }
    }
    if grown.len() > capacity {
        assert(after == grown.drop_first());
        assert forall|a: int| 0 <= a < after.len() implies #[trigger] after[a] == grown[a + 1] by {}
        assert(distinct_keys(after)) by {
            assert forall|a: int, c: int|
                0 <= a < after.len() && 0 <= c < after.len() && a != c implies (
            #[trigger] after[a]).0 != (#[trigger] after[c]).0 by {
                assert(after[a] == grown[a + 1]);
                assert(after[c] == grown[c + 1]);
            }
        }
        assert(keyed_by_source(after)) by {
            assert forall|a: int| 0 <= a < after.len() implies regex_source(
                (#[trigger] after[a]).1,
            ) == after[a].0 by {
                assert(after[a] == grown[a + 1]);
            }
        }
    } else {
        assert(after == grown);
    }
    if capacity > 0 {
        let last = after.len() - 1;
        assert(after[last] == (key, value));
        assert(after[last].0 == key);
        assert(has_key(after, key));
        let i = index_of(after, key);
        assert(i == last);
    }
}

/// The entries after `save` was given `re`.
pub open spec fn after_save(entries: Seq<Entry>, capacity: nat, re: Regex) -> Seq<Entry> {
    if has_key(entries, regex_source(re)) {
        touched(entries, regex_source(re))
    } else {
        inserted(entries, capacity, regex_source(re), re)
    }
}

/// The pattern that `save` returns when given `re`: the one already kept
/// under the source of `re`, or else `re` itself.
pub open spec fn saved(entries: Seq<Entry>, re: Regex) -> Regex {
    match lookup(entries, regex_source(re)) {
        Some(kept) => kept,
        None => re,
    }
}

/// What `compile` and `configure` owe for `source`, where `failure` is what
/// the compiler says of the source under the options in force: `result` is
/// what is returned and `after` are the entries then.
///
/// A source that is present gives its pattern, whatever `failure` is, and
/// the entry becomes the most recently used. A source that is absent gives
/// the failure and leaves the entries alone, or, where there is none, gives
/// a pattern of that source which has gone in as the most recently used
/// entry.
pub open spec fn obtained(
    entries: Seq<Entry>,
    capacity: nat,
    source: Seq<char>,
    failure: Option<crate::error::Failure>,
    result: Result<&Regex, Error>,
    after: Seq<Entry>,
) -> bool {
    if has_key(entries, source) {
        &&& result matches Ok(re)
        &&& lookup(entries, source) == Some(*re)
        &&& after == touched(entries, source)
    } else {
        match failure {
            Some(f) => {
                &&& result matches Err(e)
                &&& e@ == f
                &&& after == entries
            },
            None => {
                &&& result matches Ok(re)
                &&& regex_source(*re) == source
                &&& after == inserted(entries, capacity, source, *re)
            },
        }
    }
}

/// A use of the key of the last entry changes nothing.
pub proof fn lemma_touched_last(entries: Seq<Entry>, capacity: nat, key: Seq<char>)
    requires
        valid_entries(entries, capacity),
        entries.len() > 0,
        entries.last().0 == key,
    ensures
        has_key(entries, key),
        lookup(entries, key) == Some(entries.last().1),
        touched(entries, key) == entries,
{
    let last = entries.len() - 1;
    assert(entries[last].0 == key);
    assert(has_key(entries, key));
    let i = index_of(entries, key);
    assert(i == last);
    assert(entries.remove(last).push(entries[last]) =~= entries);
}

/// Taking a key out keeps the entries valid.
pub proof fn lemma_without(entries: Seq<Entry>, capacity: nat, key: Seq<char>)
    requires
        valid_entries(entries, capacity),
    ensures
        valid_entries(without(entries, key), capacity),
        !has_key(without(entries, key), key),
        forall|k: Seq<char>| k != key ==> lookup(without(entries, key), k) == lookup(entries, k),
{
    let after = without(entries, key);
    if has_key(entries, key) {
        let i = index_of(entries, key);
        assert(after == entries.remove(i));
        assert forall|a: int| 0 <= a < after.len() implies #[trigger] after[a] == entries[if a
            < i {
            a
        } else {
            a + 1
        }] by {}
        assert(distinct_keys(after)) by {
            assert forall|a: int, c: int|
                0 <= a < after.len() && 0 <= c < after.len() && a != c implies (
            #[trigger] after[a]).0 != (#[trigger] after[c]).0 by {
                let pa = if a < i { a } else { a + 1 };
                let pc = if c < i { c } else { c + 1 };
                assert(after[a] == entries[pa]);
                assert(after[c] == entries[pc]);
            }
        }
        assert(keyed_by_source(after)) by {
            assert forall|a: int| 0 <= a < after.len() implies regex_source(
                (#[trigger] after[a]).1,
            ) == after[a].0 by {
                let pa = if a < i { a } else { a + 1 };
                assert(after[a] == entries[pa]);
            }
        }
        if has_key(after, key) {
            let a = index_of(after, key);
            let pa = if a < i { a } else { a + 1 };
            assert(after[a] == entries[pa]);
            assert(entries[pa].0 == key);
        }
        assert forall|k: Seq<char>| k != key implies lookup(after, k) == lookup(entries, k) by {
            if has_key(entries, k) {
                let b = index_of(entries, k);
                let a = if b < i { b } else { b - 1 };
                assert(b != i);
                assert(after[a] == entries[b]);
                assert(after[a].0 == k);
                let a0 = index_of(after, k);
                let pa0 = if a0 < i { a0 } else { a0 + 1 };
                assert(after[a0] == entries[pa0]);
                assert(pa0 == b);
            } else if has_key(after, k) {
                let a = index_of(after, k);
                let pa = if a < i { a } else { a + 1 };
                assert(after[a] == entries[pa]);
                assert(entries[pa].0 == k);
            }
        }
    }
}

/// A cache of compiled patterns under their sources. It holds at most
/// `capacity` entries; when one more is put in, the least recently used
/// entry leaves.
///
/// `save`, `compile`, `configure` and `install` return a pattern that is in
/// the cache, so they ask for a capacity of at least one.
pub struct RegexCache {
    inner: LruCache<String, Regex>,
}

impl RegexCache {
    /// The entries, from the least to the most recently used.
    pub closed spec fn entries(&self) -> Seq<Entry> {
        lru_entries(self.inner)
    }

    /// The number of entries that the cache holds at most.
    pub closed spec fn limit(&self) -> nat {
        lru_capacity(self.inner)
    }

    /// The invariant of the cache: it holds no more entries than its
    /// capacity, no source twice, and each pattern under its own source.
    pub open spec fn wf(&self) -> bool {
        valid_entries(self.entries(), self.limit())
    }

    /// Create a new cache that holds at most `capacity` patterns.
    pub fn new(capacity: usize) -> (cache: RegexCache)
        ensures
            cache.wf(),
            cache.entries() == Seq::<Entry>::empty(),
            cache.limit() == capacity,
    {
        RegexCache { inner: lru_new(capacity) }
    }

    /// The number of patterns in the cache.
    pub fn len(&self) -> (n: usize)
        ensures
            n == self.entries().len(),
    {
        lru_len(&self.inner)
    }

    /// True if the cache holds no pattern.
    pub fn is_empty(&self) -> (b: bool)
        ensures
            b == (self.entries().len() == 0),
    {
        lru_len(&self.inner) == 0
    }

    /// The number of patterns that the cache holds at most.
    pub fn capacity(&self) -> (n: usize)
        ensures
            n == self.limit(),
    {
        lru_capacity_of(&self.inner)
    }

    /// Says whether a pattern is kept under `source`. The question counts
    /// as a use of that entry.
    pub fn contains_key(&mut self, source: &str) -> (found: bool)
        requires
            old(self).wf(),
        ensures
            final(self).wf(),
            found == has_key(old(self).entries(), source@),
            final(self).entries() == touched(old(self).entries(), source@),
            final(self).limit() == old(self).limit(),
    {
        proof {
            if has_key(self.entries(), source@) {
                lemma_touched(self.entries(), self.limit(), source@);
            }
        }
        lru_contains_key(&mut self.inner, source)
    }

    /// The pattern kept under `source`, if any. This counts as a use of
    /// that entry.
    pub fn get(&mut self, source: &str) -> (r: Option<&Regex>)
        requires
            old(self).wf(),
        ensures
            final(self).wf(),
            match r {
                Some(re) => lookup(old(self).entries(), source@) == Some(*re),
                None => lookup(old(self).entries(), source@) is None,
            },
            final(self).entries() == touched(old(self).entries(), source@),
            final(self).limit() == old(self).limit(),
    {
        proof {
            if has_key(self.entries(), source@) {
                lemma_touched(self.entries(), self.limit(), source@);
            }
        }
        lru_get(&mut self.inner, source)
    }

    /// The pattern kept under `source`, if any, without counting as a use:
    /// the cache stays as it is.
    pub fn peek(&self, source: &str) -> (r: Option<&Regex>)
        requires
            self.wf(),
        ensures
            match r {
                Some(re) => lookup(self.entries(), source@) == Some(*re),
                None => lookup(self.entries(), source@) is None,
            },
    {
        let items = lru_items(&self.inner);
        let mut i: usize = 0;
        while i < items.len()
            invariant
                self.wf(),
                i <= items@.len(),
                items@.len() == self.entries().len(),
                forall|j: int|
                    0 <= j < items@.len() ==> (#[trigger] items@[j]).0@ == self.entries()[j].0
                        && *items@[j].1 == self.entries()[j].1,
                forall|j: int| 0 <= j < i ==> (#[trigger] self.entries()[j]).0 != source@,
            decreases items@.len() - i,
        {
            if same_text(items[i].0, source) {
                proof {
                    let at: int = i as int;
                    assert(self.entries()[at].0 == source@);
                    assert(has_key(self.entries(), source@));
                    assert(index_of(self.entries(), source@) == at);
                }
                return Some(items[i].1);
            }
            i += 1;
        }
        proof {
            if has_key(self.entries(), source@) {
                let at = index_of(self.entries(), source@);
                assert(self.entries()[at].0 == source@);
            }
        }
        None
    }

    /// Take the pattern kept under `source` out of the cache, if there is
    /// one; the other entries keep their order.
    pub fn remove(&mut self, source: &str) -> (r: Option<Regex>)
        requires
            old(self).wf(),
        ensures
            final(self).wf(),
            r == lookup(old(self).entries(), source@),
            final(self).entries() == without(old(self).entries(), source@),
            final(self).limit() == old(self).limit(),
    {
        proof {
            lemma_without(self.entries(), self.limit(), source@);
        }
        lru_remove(&mut self.inner, source)
    }

    /// The pattern under a source that is known to be present, which
    /// becomes the most recently used entry.
    fn fetch(&mut self, source: &str) -> (re: &Regex)
        requires
            old(self).wf(),
            has_key(old(self).entries(), source@),
        ensures
            final(self).wf(),
            lookup(old(self).entries(), source@) == Some(*re),
            final(self).entries() == touched(old(self).entries(), source@),
            final(self).limit() == old(self).limit(),
    {
        proof {
            lemma_touched(self.entries(), self.limit(), source@);
        }
        lru_get(&mut self.inner, source).unwrap()
    }

    /// Save the given pattern in the cache, under its own source.
    ///
    /// Where a pattern is already kept under that source, it stays, is
    /// returned and counts as used; the one given is dropped. Otherwise the
    /// one given goes in as the most recently used entry, in place of the
    /// least recently used one where the cache was full, and is returned.
    pub fn save(&mut self, re: Regex) -> (kept: &Regex)
        requires
            old(self).wf(),
            old(self).limit() > 0,
        ensures
            final(self).wf(),
            final(self).limit() == old(self).limit(),
            final(self).entries() == after_save(old(self).entries(), old(self).limit(), re),
            *kept == saved(old(self).entries(), re),
    {
        let source = regex_as_str(&re).to_owned();
        if !self.contains_key(regex_as_str(&re)) {
            proof {
                lemma_inserted(self.entries(), self.limit(), source@, re);
            }
            lru_insert(&mut self.inner, source.clone(), re);
        }
        proof {
            if has_key(old(self).entries(), source@) {
                lemma_touched(old(self).entries(), self.limit(), source@);
            }
            lemma_touched_last(self.entries(), self.limit(), source@);
        }
        self.fetch(source.as_str())
    }

    /// Finish a `compile` or `configure`, given what the compiler made of
    /// the source: a pattern is saved as `save` does it, and what `save`
    /// returns is returned; a failure is handed on and the cache stays as it
    /// is.
    pub fn install(&mut self, built: Result<Regex, Error>) -> (r: Result<&Regex, Error>)
        requires
            old(self).wf(),
            old(self).limit() > 0,
        ensures
            final(self).wf(),
            final(self).limit() == old(self).limit(),
            match built {
                Ok(re) => {
                    &&& r matches Ok(kept)
                    &&& *kept == saved(old(self).entries(), re)
                    &&& final(self).entries() == after_save(
                        old(self).entries(),
                        old(self).limit(),
                        re,
                    )
                },
                Err(e) => {
                    &&& r == Err::<&Regex, Error>(e)
                    &&& final(self).entries() == old(self).entries()
                },
            },
    {
        match built {
            Err(e) => Err(e),
            Ok(re) => Ok(self.save(re)),
        }
    }

    /// Create a new regular expression in the cache.
    ///
    /// A source that is in the cache is not compiled again: its pattern is
    /// returned and counts as used. Any other source is compiled under the
    /// standard options and, if that succeeds, goes in as `save` puts it.
    pub fn compile(&mut self, source: &str) -> (r: Result<&Regex, Error>)
        requires
            old(self).wf(),
            old(self).limit() > 0,
        ensures
            final(self).wf(),
            final(self).limit() == old(self).limit(),
            obtained(
                old(self).entries(),
                old(self).limit(),
                source@,
                build_failure(source@, CompileOptions::standard()),
                r,
                final(self).entries(),
            ),
    {
        let options = CompileOptions::default();
        self.configure(source, &options)
    }

    /// Configure a new regular expression.
    ///
    /// As `compile`, with the options given. The cache is keyed by the
    /// source alone: where a pattern is already kept under `source`, that
    /// one is returned and the options are not looked at.
    pub fn configure(&mut self, source: &str, options: &CompileOptions) -> (r: Result<
        &Regex,
        Error,
    >)
        requires
            old(self).wf(),
            old(self).limit() > 0,
        ensures
            final(self).wf(),
            final(self).limit() == old(self).limit(),
            obtained(
                old(self).entries(),
                old(self).limit(),
                source@,
                build_failure(source@, *options),
                r,
                final(self).entries(),
            ),
    {
        if self.contains_key(source) {
            proof {
                lemma_touched(old(self).entries(), self.limit(), source@);
                lemma_touched_last(self.entries(), self.limit(), source@);
            }
            Ok(self.fetch(source))
        } else {
            let built = build_regex(source, options);
            self.install(built)
        }
    }
}

} // verus!
