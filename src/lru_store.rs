//! The recency-ordered map behind the memory layer, kept in `lru::LruCache`.
//!
//! The contents of a cache are modelled as a sequence of `(key, value)` pairs
//! ordered from least recently used (index 0) to most recently used (last).

use vstd::prelude::*;
use lru::LruCache;
use std::num::NonZeroUsize;

verus! {

/// A key or a value as characters.
pub type Text = Seq<char>;

/// Cache contents, least recently used first.
pub type Entries = Seq<(Text, Text)>;

#[verifier::external_type_specification]
#[verifier::external_body]
#[verifier::reject_recursive_types(K)]
#[verifier::reject_recursive_types(V)]
#[verifier::reject_recursive_types(S)]
pub struct ExLruCache<K, V, S>(LruCache<K, V, S>);

#[verifier::external_type_specification]
#[verifier::external_body]
pub struct ExDefaultHasher(lru::DefaultHasher);

/// What an LRU cache holds, least recently used first.
pub uninterp spec fn lru_entries(c: LruCache<String, String>) -> Seq<(Seq<char>, Seq<char>)>;

/// The bound an LRU cache was made with (or last resized to).
pub uninterp spec fn lru_bound(c: LruCache<String, String>) -> nat;

pub open spec fn has_key(e: Entries, k: Text) -> bool {
    exists|i: int| 0 <= i < e.len() && (#[trigger] e[i]).0 == k
}

pub open spec fn index_of(e: Entries, k: Text) -> int {
    choose|i: int| 0 <= i < e.len() && (#[trigger] e[i]).0 == k
}

/// Every key occurs at most once.
pub open spec fn keys_unique(e: Entries) -> bool {
    forall|i: int, j: int| 0 <= i < e.len() && 0 <= j < e.len() && i != j ==> (#[trigger] e[i]).0 != (#[trigger] e[j]).0
}

pub open spec fn lookup(e: Entries, k: Text) -> Option<Text> {
    if has_key(e, k) { Some(e[index_of(e, k)].1) } else { None }
}

/// The entries after a read of `k`: a present key becomes the most recent.
pub open spec fn touched(e: Entries, k: Text) -> Entries {
    if has_key(e, k) {
        let i = index_of(e, k);
        e.remove(i).push(e[i])
    } else {
        e
    }
}

/// The entries after `k` is stored with value `v` under the bound `cap`:
/// an existing key is replaced and becomes the most recent; a new key at a
/// full cache evicts the least recently used entry.
pub open spec fn put_entries(e: Entries, cap: nat, k: Text, v: Text) -> Entries {
    if has_key(e, k) {
        e.remove(index_of(e, k)).push((k, v))
    } else if e.len() >= cap {
        e.drop_first().push((k, v))
    } else {
        e.push((k, v))
    }
}

/// The entries after `k` is removed.
pub open spec fn removed(e: Entries, k: Text) -> Entries {
    if has_key(e, k) { e.remove(index_of(e, k)) } else { e }
}

/// The entries after the bound becomes `cap`: the `cap` most recent stay.
pub open spec fn shrunk(e: Entries, cap: nat) -> Entries {
    if e.len() > cap { e.subrange(e.len() - cap, e.len() as int) } else { e }
}

/// Relies on `LruCache::new`: an empty cache with the given bound.
#[verifier::external_body]
pub(crate) fn lru_new(cap: usize) -> (r: LruCache<String, String>)
    requires
        cap >= 1,
    ensures
        lru_entries(r) == Seq::<(Text, Text)>::empty(),
        lru_bound(r) == cap,
{
    LruCache::new(NonZeroUsize::new(cap).unwrap())
}

/// Relies on `LruCache::put`: replaces a present key's value and makes it the
/// most recent, or inserts a new key, first evicting the least recent entry
/// when the cache is full.
#[verifier::external_body]
pub(crate) fn lru_put(c: &mut LruCache<String, String>, k: String, v: String)
    ensures
        lru_entries(*final(c)) == put_entries(lru_entries(*old(c)), lru_bound(*old(c)), k@, v@),
        lru_bound(*final(c)) == lru_bound(*old(c)),
{
    c.put(k, v);
}

/// Relies on `LruCache::get`: the value of a present key, which becomes the
/// most recent.
#[verifier::external_body]
pub(crate) fn lru_get(c: &mut LruCache<String, String>, k: &str) -> (r: Option<String>)
    ensures
        r matches Some(s) ==> lookup(lru_entries(*old(c)), k@) == Some(s@),
        r is None ==> lookup(lru_entries(*old(c)), k@) is None,
        lru_entries(*final(c)) == touched(lru_entries(*old(c)), k@),
        lru_bound(*final(c)) == lru_bound(*old(c)),
{
    c.get(k).cloned()
}

/// Relies on `LruCache::peek`: the value of a present key, order unchanged.
#[verifier::external_body]
pub(crate) fn lru_peek(c: &LruCache<String, String>, k: &str) -> (r: Option<String>)
    ensures
        r matches Some(s) ==> lookup(lru_entries(*c), k@) == Some(s@),
        r is None ==> lookup(lru_entries(*c), k@) is None,
{
    c.peek(k).cloned()
}

/// Relies on `LruCache::contains`: whether the key is present.
#[verifier::external_body]
pub(crate) fn lru_contains(c: &LruCache<String, String>, k: &str) -> (r: bool)
    ensures
        r == has_key(lru_entries(*c), k@),
{
    c.contains(k)
}

/// Relies on `LruCache::pop`: removes a present key and hands back its value.
#[verifier::external_body]
pub(crate) fn lru_pop(c: &mut LruCache<String, String>, k: &str) -> (r: Option<String>)
    ensures
        r matches Some(s) ==> lookup(lru_entries(*old(c)), k@) == Some(s@),
        r is None ==> lookup(lru_entries(*old(c)), k@) is None,
        lru_entries(*final(c)) == removed(lru_entries(*old(c)), k@),
        lru_bound(*final(c)) == lru_bound(*old(c)),
{
    c.pop(k)
}

/// Relies on `LruCache::clear`: no entries remain; the bound is kept.
#[verifier::external_body]
pub(crate) fn lru_clear(c: &mut LruCache<String, String>)
    ensures
        lru_entries(*final(c)) == Seq::<(Text, Text)>::empty(),
        lru_bound(*final(c)) == lru_bound(*old(c)),
{
    c.clear();
}

/// Relies on `LruCache::len`: the number of entries.
#[verifier::external_body]
pub(crate) fn lru_len(c: &LruCache<String, String>) -> (r: usize)
    ensures
        r == lru_entries(*c).len(),
{
    c.len()
}

/// Relies on `LruCache::cap`: the bound.
#[verifier::external_body]
pub(crate) fn lru_cap(c: &LruCache<String, String>) -> (r: usize)
    ensures
        r == lru_bound(*c),
{
    c.cap().get()
}

/// Relies on `LruCache::resize`: least recent entries are dropped until the
/// new bound is met.
#[verifier::external_body]
pub(crate) fn lru_resize(c: &mut LruCache<String, String>, cap: usize)
    requires
        cap >= 1,
    ensures
        lru_entries(*final(c)) == shrunk(lru_entries(*old(c)), cap as nat),
        lru_bound(*final(c)) == cap,
{
    c.resize(NonZeroUsize::new(cap).unwrap());
}

/// Relies on `LruCache::iter`: the keys, most recently used first.
#[verifier::external_body]
pub(crate) fn lru_keys(c: &LruCache<String, String>) -> (r: Vec<String>)
    ensures
        r@.len() == lru_entries(*c).len(),
        forall|i: int| 0 <= i < r@.len() ==> (#[trigger] r@[i])@ == lru_entries(*c)[lru_entries(*c).len() - 1 - i].0,
{
    c.iter().map(|(k, _)| k.clone()).collect()
}

} // verus!
