//! Properties that hold across operations of the cache layers.

use vstd::prelude::*;
use crate::lru_store::{Entries, Text, has_key, index_of, keys_unique, lookup, put_entries, touched};
use crate::memory_cache::{lemma_put_wf, lemma_touched_wf};
use crate::disk_cache::{MAX_STORED_TIME, expiry, live, starts_with, with_prefix};
use crate::manager::promoted;

verus! {

/// Read-your-writes in memory: right after `key` is stored with `value`, a
/// read of `key` finds `value`.
pub proof fn law_memory_set_then_get(e: Entries, cap: nat, key: Text, value: Text)
    requires
        keys_unique(e),
        e.len() <= cap,
        cap >= 1,
    ensures
        lookup(put_entries(e, cap, key, value), key) == Some(value),
{
    lemma_put_wf(e, cap, key, value);
}

/// Read-your-writes on disk: an entry written at `now` with a positive
/// lifetime is live when read at any time before `now + ttl_secs`.
pub proof fn law_disk_set_then_get(now: u64, ttl_secs: u64, read_at: u64)
    requires
        ttl_secs > 0,
        now <= read_at,
        read_at < now + ttl_secs,
        read_at < MAX_STORED_TIME,
    ensures
        live(expiry(now, ttl_secs), read_at),
{
}

/// An entry written with a one-second lifetime is no longer live two or
/// more seconds later: a read finds nothing and `contains` is false.
pub proof fn law_disk_short_lifetime_lapses(now: u64, read_at: u64)
    requires
        read_at >= now + 2,
    ensures
        !live(expiry(now, 1), read_at),
{
}

/// Storing a new key in a full memory layer evicts exactly the least
/// recently used entry: it is gone, every other entry stays, and the new one
/// is present.
pub proof fn law_lru_evicts_least_recent(e: Entries, cap: nat, key: Text, value: Text)
    requires
        keys_unique(e),
        e.len() == cap,
        cap >= 1,
        !has_key(e, key),
    ensures
        !has_key(put_entries(e, cap, key, value), e[0].0),
        forall|i: int| 1 <= i < e.len() ==> lookup(put_entries(e, cap, key, value), (#[trigger] e[i]).0) == Some(e[i].1),
        lookup(put_entries(e, cap, key, value), key) == Some(value),
        put_entries(e, cap, key, value).len() == cap,
{
    let p = put_entries(e, cap, key, value);
    lemma_put_wf(e, cap, key, value);
    assert(p == e.drop_first().push((key, value)));
    if has_key(p, e[0].0) {
        let m = index_of(p, e[0].0);
        if m < p.len() - 1 {
            assert(p[m] == e[m + 1]);
        }
    }
    assert forall|i: int| 1 <= i < e.len() implies lookup(p, (#[trigger] e[i]).0) == Some(e[i].1) by {
        assert(p[i - 1] == e[i]);
        assert(has_key(p, e[i].0));
        let m = index_of(p, e[i].0);
        if m < p.len() - 1 {
            assert(p[m] == e[m + 1]);
        }
    }
}

/// Reading a key protects it from the next eviction: in a full layer of
/// bound two or more, a key that was just read survives the insertion of a
/// new key.
pub proof fn law_lru_read_protects(e: Entries, cap: nat, read: Text, key: Text, value: Text)
    requires
        keys_unique(e),
        e.len() == cap,
        cap >= 2,
        has_key(e, read),
        !has_key(e, key),
    ensures
        lookup(put_entries(touched(e, read), cap, key, value), read) == lookup(e, read),
{
    let t = touched(e, read);
    lemma_touched_wf(e, cap, read);
    let i = index_of(e, read);
    assert(t[t.len() - 1] == e[i]);
    if has_key(t, key) {
        let m = index_of(t, key);
        assert(lookup(t, key) == lookup(e, key));
    }
    let p = put_entries(t, cap, key, value);
    lemma_put_wf(t, cap, key, value);
    assert(p == t.drop_first().push((key, value)));
    assert(p[p.len() - 2] == t[t.len() - 1]);
    assert(has_key(p, read));
    let m = index_of(p, read);
    if m < p.len() - 1 {
        assert(p[m] == t[m + 1]);
    }
}

/// A prefix delete takes exactly the keys that start with the prefix: each
/// key it takes starts with it and is among the keys, and each key that
/// starts with it is taken.
pub proof fn law_prefix_delete_exact(keys: Seq<Seq<char>>, prefix: Seq<char>)
    ensures
        forall|j: int| 0 <= j < with_prefix(keys, prefix).len() ==> starts_with(#[trigger] with_prefix(keys, prefix)[j], prefix) && keys.contains(with_prefix(keys, prefix)[j]),
        forall|i: int| 0 <= i < keys.len() && starts_with(#[trigger] keys[i], prefix) ==> with_prefix(keys, prefix).contains(keys[i]),
    decreases keys.len(),
{
    if keys.len() > 0 {
        let init = keys.drop_last();
        law_prefix_delete_exact(init, prefix);
        let w = with_prefix(keys, prefix);
        let wi = with_prefix(init, prefix);
        assert forall|j: int| 0 <= j < w.len() implies starts_with(#[trigger] w[j], prefix) && keys.contains(w[j]) by {
            if j < wi.len() {
                assert(w[j] == wi[j]);
                let k = choose|k: int| 0 <= k < init.len() && init[k] == wi[j];
                assert(keys[k] == init[k]);
            } else {
                assert(keys[keys.len() - 1] == keys.last());
            }
        }
        assert forall|i: int| 0 <= i < keys.len() && starts_with(#[trigger] keys[i], prefix) implies w.contains(keys[i]) by {
            if i < keys.len() - 1 {
                assert(init[i] == keys[i]);
                let k = choose|k: int| 0 <= k < wi.len() && wi[k] == init[i];
                assert(w[k] == wi[k]);
            } else {
                assert(w[w.len() - 1] == keys.last());
            }
        }
    }
}

/// Promotion: after a read that missed memory and found `value` on disk,
/// memory alone answers the next read of `key` with `value`.
pub proof fn law_promotion_serves_from_memory(e: Entries, cap: nat, key: Text, value: Text)
    requires
        keys_unique(e),
        e.len() <= cap,
        cap >= 1,
    ensures
        lookup(promoted(e, cap, key, Some(value)), key) == Some(value),
        keys_unique(promoted(e, cap, key, Some(value))),
{
    lemma_put_wf(e, cap, key, value);
}

/// The entries after storing each pair of `kvs` in turn.
pub open spec fn put_all(e: Entries, cap: nat, kvs: Seq<(Text, Text)>) -> Entries
    decreases kvs.len(),
{
    if kvs.len() == 0 {
        e
    } else {
        let last = kvs.last();
        put_entries(put_all(e, cap, kvs.drop_last()), cap, last.0, last.1)
    }
}

/// Storing distinct keys into an empty layer that has room for all of them
/// keeps every pair, in the order stored.
pub proof fn lemma_fill_in_order(cap: nat, kvs: Seq<(Text, Text)>)
    requires
        keys_unique(kvs),
        kvs.len() <= cap,
    ensures
        put_all(Seq::empty(), cap, kvs) == kvs,
    decreases kvs.len(),
{
    if kvs.len() > 0 {
        let init = kvs.drop_last();
        assert(keys_unique(init)) by {
            assert forall|i: int, j: int| 0 <= i < init.len() && 0 <= j < init.len() && i != j implies
                (#[trigger] init[i]).0 != (#[trigger] init[j]).0 by {
                assert(init[i] == kvs[i]);
                assert(init[j] == kvs[j]);
            }
        }
        lemma_fill_in_order(cap, init);
        let last = kvs.last();
        if has_key(init, last.0) {
            let m = index_of(init, last.0);
            assert(init[m] == kvs[m]);
            assert(kvs[kvs.len() - 1] == last);
        }
        assert(init.push(last) =~= kvs);
    }
}

/// With room for `n` entries, storing `n` distinct keys gives `n` entries.
pub proof fn law_distinct_sets_counted(cap: nat, kvs: Seq<(Text, Text)>)
    requires
        keys_unique(kvs),
        kvs.len() <= cap,
    ensures
        put_all(Seq::empty(), cap, kvs).len() == kvs.len(),
{
    lemma_fill_in_order(cap, kvs);
}

/// With room for `n` entries, storing `n + 1` distinct keys in turn into an
/// empty layer evicts exactly the first key stored: what remains is every
/// later pair, in order.
pub proof fn law_overflow_evicts_first(cap: nat, kvs: Seq<(Text, Text)>)
    requires
        keys_unique(kvs),
        kvs.len() == cap + 1,
        cap >= 1,
    ensures
        put_all(Seq::empty(), cap, kvs) == kvs.drop_first(),
        !has_key(put_all(Seq::empty(), cap, kvs), kvs[0].0),
{
    let init = kvs.drop_last();
    assert(keys_unique(init)) by {
        assert forall|i: int, j: int| 0 <= i < init.len() && 0 <= j < init.len() && i != j implies
            (#[trigger] init[i]).0 != (#[trigger] init[j]).0 by {
            assert(init[i] == kvs[i]);
            assert(init[j] == kvs[j]);
        }
    }
    lemma_fill_in_order(cap, init);
    let last = kvs.last();
    if has_key(init, last.0) {
        let m = index_of(init, last.0);
        assert(init[m] == kvs[m]);
        assert(kvs[kvs.len() - 1] == last);
    }
    assert(init.drop_first().push(last) =~= kvs.drop_first());
    let r = kvs.drop_first();
    if has_key(r, kvs[0].0) {
        let m = index_of(r, kvs[0].0);
        assert(r[m] == kvs[m + 1]);
    }
}

} // verus!
