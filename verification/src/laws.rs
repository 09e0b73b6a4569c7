//! What holds of the cache over several operations, stated over the model
//! of its entries and proved from the definitions.

use vstd::prelude::*;
use regex::Regex;
use crate::cache::{
    after_save, lemma_inserted, lemma_touched, lemma_touched_last, obtained, saved, valid_entries,
};
use crate::engine::regex_source;
use crate::error::{Error, Failure};
use crate::store::{has_key, index_of, inserted, lookup, Entry};

verus! {

/// Whatever `save`, `compile` or `configure` does to valid entries, they
/// stay valid: in particular the cache never holds more than its capacity.
pub proof fn law_size_stays_bounded(
    entries: Seq<Entry>,
    capacity: nat,
    re: Regex,
    source: Seq<char>,
    failure: Option<Failure>,
    result: Result<&Regex, Error>,
    after: Seq<Entry>,
)
    requires
        valid_entries(entries, capacity),
        obtained(entries, capacity, source, failure, result, after),
    ensures
        valid_entries(after_save(entries, capacity, re), capacity),
        after_save(entries, capacity, re).len() <= capacity,
        valid_entries(after, capacity),
        after.len() <= capacity,
{
    let key = regex_source(re);
    if has_key(entries, key) {
        lemma_touched(entries, capacity, key);
    } else {
        lemma_inserted(entries, capacity, key, re);
    }
    if has_key(entries, source) {
        lemma_touched(entries, capacity, source);
    } else if failure is None {
        lemma_inserted(entries, capacity, source, *result->Ok_0);
    }
}

/// Three patterns of different sources that go, in this order, into an
/// empty cache of capacity two leave the second and the third in it: the
/// first, the least recently used, has left.
pub proof fn law_oldest_of_three_leaves(a: Regex, b: Regex, c: Regex)
    requires
        regex_source(a) != regex_source(b),
        regex_source(a) != regex_source(c),
        regex_source(b) != regex_source(c),
    ensures
        after_save(after_save(after_save(Seq::<Entry>::empty(), 2, a), 2, b), 2, c) == seq![
            (regex_source(b), b),
            (regex_source(c), c),
        ],
{
    let e0 = Seq::<Entry>::empty();
    let e1 = after_save(e0, 2, a);
    lemma_inserted(e0, 2, regex_source(a), a);
    assert(e1 =~= seq![(regex_source(a), a)]);
    assert(!has_key(e1, regex_source(b)));
    let e2 = after_save(e1, 2, b);
    lemma_inserted(e1, 2, regex_source(b), b);
    assert(e2 =~= seq![(regex_source(a), a), (regex_source(b), b)]);
    assert(!has_key(e2, regex_source(c)));
    let e3 = after_save(e2, 2, c);
    lemma_inserted(e2, 2, regex_source(c), c);
    assert(e3 =~= seq![(regex_source(b), b), (regex_source(c), c)]);
}

/// When a pattern goes into a full cache under a new source, the least
/// recently used entry leaves and every other entry stays, in its order.
pub proof fn law_full_cache_drops_oldest(
    entries: Seq<Entry>,
    capacity: nat,
    key: Seq<char>,
    value: Regex,
)
    requires
        valid_entries(entries, capacity),
        entries.len() == capacity,
        capacity > 0,
        !has_key(entries, key),
        regex_source(value) == key,
    ensures
        inserted(entries, capacity, key, value) == entries.drop_first().push((key, value)),
        !has_key(inserted(entries, capacity, key, value), entries[0].0),
        forall|i: int|
            1 <= i < entries.len() ==> inserted(entries, capacity, key, value)[i - 1]
                == #[trigger] entries[i],
{
    let after = inserted(entries, capacity, key, value);
    lemma_inserted(entries, capacity, key, value);
    assert(after =~= entries.drop_first().push((key, value)));
    if has_key(after, entries[0].0) {
        let a = index_of(after, entries[0].0);
        if a < after.len() - 1 {
            assert(after[a] == entries[a + 1]);
        } else {
            assert(after[a] == (key, value));
            assert(has_key(entries, key));
        }
    }
}

/// A source that is in the cache is never compiled again: `compile` and
/// `configure` give the pattern kept under it whatever the compiler would
/// say of the source, and the entry becomes the most recently used.
pub proof fn law_hit_ignores_compiler(
    entries: Seq<Entry>,
    capacity: nat,
    source: Seq<char>,
    failure: Option<Failure>,
    result: Result<&Regex, Error>,
    after: Seq<Entry>,
)
    requires
        valid_entries(entries, capacity),
        has_key(entries, source),
        obtained(entries, capacity, source, failure, result, after),
    ensures
        result matches Ok(re) && Some(*re) == lookup(entries, source),
        after.len() == entries.len(),
        after.last() == (source, lookup(entries, source)->Some_0),
        forall|k: Seq<char>| has_key(after, k) == has_key(entries, k),
        forall|k: Seq<char>| lookup(after, k) == lookup(entries, k),
{
    lemma_touched(entries, capacity, source);
}

/// A second `compile` or `configure` of a source gives the pattern that
/// the first one gave, and leaves the cache as the first one left it,
/// whatever the compiler would say the second time.
pub proof fn law_second_compile_gives_first(
    entries: Seq<Entry>,
    capacity: nat,
    source: Seq<char>,
    first_failure: Option<Failure>,
    first: Result<&Regex, Error>,
    between: Seq<Entry>,
    second_failure: Option<Failure>,
    second: Result<&Regex, Error>,
    after: Seq<Entry>,
)
    requires
        valid_entries(entries, capacity),
        capacity > 0,
        obtained(entries, capacity, source, first_failure, first, between),
        first is Ok,
        obtained(between, capacity, source, second_failure, second, after),
    ensures
        second matches Ok(re) && *re == *first->Ok_0,
        after == between,
{
    if has_key(entries, source) {
        lemma_touched(entries, capacity, source);
    } else {
        lemma_inserted(entries, capacity, source, *first->Ok_0);
    }
    lemma_touched_last(between, capacity, source);
}

/// After `save` has put a pattern under a source that was not in the
/// cache, `compile` of that source returns that very pattern, whatever the
/// compiler would make of the source, and changes nothing.
pub proof fn law_compile_after_save(
    entries: Seq<Entry>,
    capacity: nat,
    re: Regex,
    failure: Option<Failure>,
    result: Result<&Regex, Error>,
    after: Seq<Entry>,
)
    requires
        valid_entries(entries, capacity),
        capacity > 0,
        !has_key(entries, regex_source(re)),
        obtained(
            after_save(entries, capacity, re),
            capacity,
            regex_source(re),
            failure,
            result,
            after,
        ),
    ensures
        result matches Ok(kept) && *kept == re,
        after == after_save(entries, capacity, re),
{
    lemma_inserted(entries, capacity, regex_source(re), re);
    lemma_touched_last(after_save(entries, capacity, re), capacity, regex_source(re));
}

/// After any `save`, `compile` of the saved pattern's source returns what
/// `save` returned: the pattern that was already kept under that source,
/// or else the one that was saved.
pub proof fn law_compile_after_save_gives_kept(
    entries: Seq<Entry>,
    capacity: nat,
    re: Regex,
    failure: Option<Failure>,
    result: Result<&Regex, Error>,
    after: Seq<Entry>,
)
    requires
        valid_entries(entries, capacity),
        capacity > 0,
        obtained(
            after_save(entries, capacity, re),
            capacity,
            regex_source(re),
            failure,
            result,
            after,
        ),
    ensures
        result matches Ok(kept) && *kept == saved(entries, re),
        after == after_save(entries, capacity, re),
{
    let key = regex_source(re);
    if has_key(entries, key) {
        lemma_touched(entries, capacity, key);
    } else {
        lemma_inserted(entries, capacity, key, re);
    }
    lemma_touched_last(after_save(entries, capacity, re), capacity, key);
}

/// A source that is not in the cache and that the compiler refuses gives
/// the compiler's failure, and the cache is left exactly as it was.
pub proof fn law_failure_leaves_cache(
    entries: Seq<Entry>,
    capacity: nat,
    source: Seq<char>,
    failure: Failure,
    result: Result<&Regex, Error>,
    after: Seq<Entry>,
)
    requires
        !has_key(entries, source),
        obtained(entries, capacity, source, Some(failure), result, after),
    ensures
        result matches Err(e) && e@ == failure,
        after == entries,
        !has_key(after, source),
{
}

} // verus!
