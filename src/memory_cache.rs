//! Bounded, recency-ordered in-memory layer with hit/miss counters.

use vstd::prelude::*;
use lru::LruCache;
use crate::lru_store::{
    Entries, Text, has_key, index_of, keys_unique, lookup, lru_bound, lru_cap, lru_clear,
    lru_contains, lru_entries, lru_get, lru_keys, lru_len, lru_new, lru_peek, lru_pop, lru_put,
    lru_resize, put_entries, removed, shrunk, touched,
};

verus! {

/// A counter after one more event; it wraps to zero past `u64::MAX`.
pub open spec fn bumped(n: u64) -> u64 {
    if n == u64::MAX { 0 } else { (n + 1) as u64 }
}

/// The bound a requested capacity is coerced to: at least one.
pub open spec fn effective_capacity(requested: usize) -> nat {
    if requested == 0 { 1 } else { requested as nat }
}

pub proof fn lemma_touched_wf(e: Entries, cap: nat, k: Text)
    requires
        keys_unique(e),
        e.len() <= cap,
    ensures
        keys_unique(touched(e, k)),
        touched(e, k).len() == e.len(),
        forall|q: Text| lookup(touched(e, k), q) == lookup(e, q),
{
    if has_key(e, k) {
        let i = index_of(e, k);
        let t = touched(e, k);
        assert(t.len() == e.len());
        assert forall|a: int, b: int| 0 <= a < t.len() && 0 <= b < t.len() && a != b implies
            (#[trigger] t[a]).0 != (#[trigger] t[b]).0 by {
            let ia = if a < i { a } else if a < t.len() - 1 { a + 1 } else { i };
            let ib = if b < i { b } else if b < t.len() - 1 { b + 1 } else { i };
            assert(t[a] == e[ia]);
            assert(t[b] == e[ib]);
        }
        assert forall|q: Text| lookup(t, q) == lookup(e, q) by {
            if has_key(e, q) {
                let j = index_of(e, q);
                let tj = if j < i { j } else if j == i { t.len() - 1 } else { j - 1 };
                assert(t[tj] == e[j]);
                assert(has_key(t, q));
                let m = index_of(t, q);
                let em = if m < i { m } else if m < t.len() - 1 { m + 1 } else { i };
                assert(t[m] == e[em]);
            } else {
                if has_key(t, q) {
                    let m = index_of(t, q);
                    let em = if m < i { m } else if m < t.len() - 1 { m + 1 } else { i };
                    assert(t[m] == e[em]);
                }
            }
        }
    }
}

pub proof fn lemma_put_wf(e: Entries, cap: nat, k: Text, v: Text)
    requires
        keys_unique(e),
        e.len() <= cap,
        cap >= 1,
    ensures
        keys_unique(put_entries(e, cap, k, v)),
        put_entries(e, cap, k, v).len() <= cap,
        lookup(put_entries(e, cap, k, v), k) == Some(v),
{
    let p = put_entries(e, cap, k, v);
    let last = p.len() - 1;
    if has_key(e, k) {
        let i = index_of(e, k);
        assert forall|a: int, b: int| 0 <= a < p.len() && 0 <= b < p.len() && a != b implies
            (#[trigger] p[a]).0 != (#[trigger] p[b]).0 by {
            if a < last && b < last {
                let ia = if a < i { a } else { a + 1 };
                let ib = if b < i { b } else { b + 1 };
                assert(p[a] == e[ia]);
                assert(p[b] == e[ib]);
            } else if a < last {
                let ia = if a < i { a } else { a + 1 };
                assert(p[a] == e[ia]);
            } else {
                let ib = if b < i { b } else { b + 1 };
                assert(p[b] == e[ib]);
            }
        }
    } else if e.len() >= cap {
        assert forall|a: int, b: int| 0 <= a < p.len() && 0 <= b < p.len() && a != b implies
            (#[trigger] p[a]).0 != (#[trigger] p[b]).0 by {
            if a < last {
                assert(p[a] == e[a + 1]);
            }
            if b < last {
                assert(p[b] == e[b + 1]);
            }
        }
    } else {
        assert forall|a: int, b: int| 0 <= a < p.len() && 0 <= b < p.len() && a != b implies
            (#[trigger] p[a]).0 != (#[trigger] p[b]).0 by {
            if a < last {
                assert(p[a] == e[a]);
            }
            if b < last {
                assert(p[b] == e[b]);
            }
        }
    }
    assert(p[last].0 == k);
    assert(has_key(p, k));
    let m = index_of(p, k);
    assert(p[m].0 == k);
    assert(m == last);
}

pub proof fn lemma_removed_wf(e: Entries, k: Text)
    requires
        keys_unique(e),
    ensures
        keys_unique(removed(e, k)),
        removed(e, k).len() <= e.len(),
        !has_key(removed(e, k), k),
{
    let r = removed(e, k);
    if has_key(e, k) {
        let i = index_of(e, k);
        assert forall|a: int, b: int| 0 <= a < r.len() && 0 <= b < r.len() && a != b implies
            (#[trigger] r[a]).0 != (#[trigger] r[b]).0 by {
            let ia = if a < i { a } else { a + 1 };
            let ib = if b < i { b } else { b + 1 };
            assert(r[a] == e[ia]);
            assert(r[b] == e[ib]);
        }
        if has_key(r, k) {
            let m = index_of(r, k);
            let em = if m < i { m } else { m + 1 };
            assert(r[m] == e[em]);
        }
    }
}

pub proof fn lemma_shrunk_wf(e: Entries, cap: nat)
    requires
        keys_unique(e),
    ensures
        keys_unique(shrunk(e, cap)),
        shrunk(e, cap).len() <= cap || shrunk(e, cap) == e,
        shrunk(e, cap).len() <= e.len(),
{
    let s = shrunk(e, cap);
    if e.len() > cap {
        let d = e.len() - cap;
        assert forall|a: int, b: int| 0 <= a < s.len() && 0 <= b < s.len() && a != b implies
            (#[trigger] s[a]).0 != (#[trigger] s[b]).0 by {
            assert(s[a] == e[a + d]);
            assert(s[b] == e[b + d]);
        }
    }
}

/// Bounded in-memory map from key to serialized value, least recently used
/// entry evicted first, with hit and miss counters.
pub struct MemoryCache {
    cache: LruCache<String, String>,
    hits: u64,
    misses: u64,
}

/// A snapshot of the memory layer's counters and size.
#[derive(Debug, Clone, Default)]
pub struct MemoryCacheStats {
    pub entries: usize,
    pub capacity: usize,
    pub hits: u64,
    pub misses: u64,
}

impl MemoryCache {
    /// The entries, least recently used first.
    pub closed spec fn entries(&self) -> Entries {
        lru_entries(self.cache)
    }

    /// The bound on the number of entries.
    pub closed spec fn capacity(&self) -> nat {
        lru_bound(self.cache)
    }

    pub closed spec fn hits(&self) -> u64 {
        self.hits
    }

    pub closed spec fn misses(&self) -> u64 {
        self.misses
    }

    /// Keys are unique, and the entries stay within a bound of at least one.
    pub closed spec fn wf(&self) -> bool {
        &&& keys_unique(self.entries())
        &&& self.entries().len() <= self.capacity()
        &&& self.capacity() >= 1
    }

    /// An empty cache holding at most `capacity` entries (at least one).
    pub fn new(capacity: usize) -> (r: Self)
        ensures
            r.wf(),
            r.entries() == Seq::<(Text, Text)>::empty(),
            r.capacity() == effective_capacity(capacity),
            r.hits() == 0,
            r.misses() == 0,
    {
        let cap: usize = if capacity == 0 { 1 } else { capacity };
        MemoryCache { cache: lru_new(cap), hits: 0, misses: 0 }
    }

    /// The stored value of `key`. A hit makes the key the most recent and
    /// counts a hit; a miss counts a miss.
    pub fn get_raw(&mut self, key: &str) -> (r: Option<String>)
        requires
            old(self).wf(),
        ensures
            final(self).wf(),
            r matches Some(s) ==> lookup(old(self).entries(), key@) == Some(s@),
            r is None ==> lookup(old(self).entries(), key@) is None,
            final(self).entries() == touched(old(self).entries(), key@),
            final(self).capacity() == old(self).capacity(),
            r is Some ==> final(self).hits() == bumped(old(self).hits()) && final(self).misses() == old(self).misses(),
            r is None ==> final(self).misses() == bumped(old(self).misses()) && final(self).hits() == old(self).hits(),
    {
        proof {
            lemma_touched_wf(self.entries(), self.capacity(), key@);
        }
        let found = lru_get(&mut self.cache, key);
        if found.is_some() {
            self.hits = if self.hits == u64::MAX { 0 } else { self.hits + 1 };
        } else {
            self.misses = if self.misses == u64::MAX { 0 } else { self.misses + 1 };
        }
        found
    }

    /// Stores `value` under `key`; the key becomes the most recent. A new key
    /// at a full cache first evicts the least recently used entry.
    pub fn set(&mut self, key: &str, value: &str)
        requires
            old(self).wf(),
        ensures
            final(self).wf(),
            final(self).entries() == put_entries(old(self).entries(), old(self).capacity(), key@, value@),
            final(self).capacity() == old(self).capacity(),
            final(self).hits() == old(self).hits(),
            final(self).misses() == old(self).misses(),
    {
        proof {
            lemma_put_wf(self.entries(), self.capacity(), key@, value@);
        }
        lru_put(&mut self.cache, key.to_string(), value.to_string());
    }

    /// Removes `key` and hands back its value; counters are not touched.
    pub fn remove(&mut self, key: &str) -> (r: Option<String>)
        requires
            old(self).wf(),
        ensures
            final(self).wf(),
            r matches Some(s) ==> lookup(old(self).entries(), key@) == Some(s@),
            r is None ==> lookup(old(self).entries(), key@) is None,
            final(self).entries() == removed(old(self).entries(), key@),
            final(self).capacity() == old(self).capacity(),
            final(self).hits() == old(self).hits(),
            final(self).misses() == old(self).misses(),
    {
        proof {
            lemma_removed_wf(self.entries(), key@);
        }
        lru_pop(&mut self.cache, key)
    }

    /// Whether `key` is present; recency order is not touched.
    pub fn contains(&self, key: &str) -> (r: bool)
        ensures
            r == has_key(self.entries(), key@),
    {
        lru_contains(&self.cache, key)
    }

    /// Removes every entry and resets both counters; the bound is kept.
    pub fn clear(&mut self)
        requires
            old(self).wf(),
        ensures
            final(self).wf(),
            final(self).entries() == Seq::<(Text, Text)>::empty(),
            final(self).capacity() == old(self).capacity(),
            final(self).hits() == 0,
            final(self).misses() == 0,
    {
        lru_clear(&mut self.cache);
        self.hits = 0;
        self.misses = 0;
    }

    /// The number of entries.
    pub fn len(&self) -> (r: usize)
        ensures
            r == self.entries().len(),
    {
        lru_len(&self.cache)
    }

    pub fn is_empty(&self) -> (r: bool)
        ensures
            r == (self.entries().len() == 0),
    {
        lru_len(&self.cache) == 0
    }

    /// Entry count, bound and counters.
    pub fn stats(&self) -> (r: MemoryCacheStats)
        ensures
            r.entries == self.entries().len(),
            r.capacity == self.capacity(),
            r.hits == self.hits(),
            r.misses == self.misses(),
    {
        MemoryCacheStats {
            entries: lru_len(&self.cache),
            capacity: lru_cap(&self.cache),
            hits: self.hits,
            misses: self.misses,
        }
    }

    /// Changes the bound (coerced to at least one); shrinking drops the least
    /// recently used entries until the bound is met.
    pub fn resize(&mut self, new_capacity: usize)
        requires
            old(self).wf(),
        ensures
            final(self).wf(),
            final(self).capacity() == effective_capacity(new_capacity),
            final(self).entries() == shrunk(old(self).entries(), effective_capacity(new_capacity)),
            final(self).hits() == old(self).hits(),
            final(self).misses() == old(self).misses(),
    {
        let cap: usize = if new_capacity == 0 { 1 } else { new_capacity };
        proof {
            lemma_shrunk_wf(self.entries(), cap as nat);
        }
        lru_resize(&mut self.cache, cap);
    }

    /// The stored value of `key`, without touching order or counters.
    pub fn peek(&self, key: &str) -> (r: Option<String>)
        ensures
            r matches Some(s) ==> lookup(self.entries(), key@) == Some(s@),
            r is None ==> lookup(self.entries(), key@) is None,
    {
        lru_peek(&self.cache, key)
    }

    /// The keys, most recently used first.
    pub fn keys(&self) -> (r: Vec<String>)
        ensures
            r@.len() == self.entries().len(),
            forall|i: int| 0 <= i < r@.len() ==> (#[trigger] r@[i])@ == self.entries()[self.entries().len() - 1 - i].0,
    {
        lru_keys(&self.cache)
    }
}

} // verus!
