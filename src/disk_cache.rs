//! Decisions of the durable layer. The store itself (a table of rows keyed
//! by `key`, with `value`, `created_at`, `expires_at`, `access_count` and
//! `last_accessed`, plus `hits`/`misses` counters) is kept by the caller;
//! these functions say what each operation does with what it read.

use vstd::prelude::*;
use vstd::string::StrSliceExecFns;

verus! {

/// The largest time a row can hold: the store keeps signed 64-bit integers.
pub const MAX_STORED_TIME: u64 = 9223372036854775807;

/// The expiry of an entry written at `now` to live `ttl_secs` seconds,
/// clamped to what the store can hold.
pub open spec fn expiry(now: u64, ttl_secs: u64) -> u64 {
    if now + ttl_secs > MAX_STORED_TIME { MAX_STORED_TIME } else { (now + ttl_secs) as u64 }
}

/// A row is live while its expiry lies strictly after `now`.
pub open spec fn live(expires_at: u64, now: u64) -> bool {
    expires_at > now
}

pub open spec fn starts_with(k: Seq<char>, p: Seq<char>) -> bool {
    p.len() <= k.len() && k.subrange(0, p.len() as int) == p
}

pub open spec fn texts(v: Seq<String>) -> Seq<Seq<char>> {
    v.map_values(|s: String| s@)
}

/// The keys that start with `p`, in their order.
pub open spec fn with_prefix(keys: Seq<Seq<char>>, p: Seq<char>) -> Seq<Seq<char>>
    decreases keys.len(),
{
    if keys.len() == 0 {
        Seq::empty()
    } else {
        let rest = with_prefix(keys.drop_last(), p);
        if starts_with(keys.last(), p) { rest.push(keys.last()) } else { rest }
    }
}

/// The keys of the rows that are no longer live at `now`, in their order.
pub open spec fn expired_at(rows: Seq<(Seq<char>, u64)>, now: u64) -> Seq<Seq<char>>
    decreases rows.len(),
{
    if rows.len() == 0 {
        Seq::empty()
    } else {
        let rest = expired_at(rows.drop_last(), now);
        if !live(rows.last().1, now) { rest.push(rows.last().0) } else { rest }
    }
}

pub open spec fn row_view(rows: Seq<(String, u64)>) -> Seq<(Seq<char>, u64)> {
    rows.map_values(|r: (String, u64)| (r.0@, r.1))
}

/// What a read finds for a key.
pub enum DiskLookup {
    /// No row: count a miss.
    Missing,
    /// A row past its expiry: delete it and count a miss.
    Expired,
    /// A live row: record the access, count a hit, hand back the value.
    Hit(String),
}

/// Counters and sizes of the durable layer.
#[derive(Debug, Clone, Default)]
pub struct DiskCacheStats {
    pub entries: usize,
    pub size_bytes: u64,
    pub hits: u64,
    pub misses: u64,
    pub expired: usize,
}

/// The expiry to store for an entry written at `now` with `ttl_secs`.
pub fn expiry_time(now: u64, ttl_secs: u64) -> (r: u64)
    ensures
        r == expiry(now, ttl_secs),
{
    if ttl_secs > MAX_STORED_TIME || now > MAX_STORED_TIME - ttl_secs {
        MAX_STORED_TIME
    } else {
        now + ttl_secs
    }
}

/// Whether a row that expires at `expires_at` is live at `now`.
pub fn is_live(expires_at: u64, now: u64) -> (r: bool)
    ensures
        r == live(expires_at, now),
{
    expires_at > now
}

/// What a read of a key means, given the row found for it (its value and
/// expiry) and the time of the read.
pub fn classify_row(row: Option<(String, u64)>, now: u64) -> (r: DiskLookup)
    ensures
        row is None ==> r is Missing,
        row matches Some(x) ==> (if live(x.1, now) { r matches DiskLookup::Hit(v) && v@ == x.0@ } else { r is Expired }),
{
    match row {
        None => DiskLookup::Missing,
        Some((value, expires_at)) => {
            if is_live(expires_at, now) {
                DiskLookup::Hit(value)
            } else {
                DiskLookup::Expired
            }
        }
    }
}

/// Whether `key` starts with `prefix`.
pub fn has_prefix(key: &str, prefix: &str) -> (r: bool)
    ensures
        r == starts_with(key@, prefix@),
{
    let kn = key.unicode_len();
    let pn = prefix.unicode_len();
    if pn > kn {
        return false;
    }
    let mut i: usize = 0;
    while i < pn
        invariant
            pn == prefix@.len(),
            kn == key@.len(),
            pn <= kn,
            i <= pn,
            forall|j: int| 0 <= j < i ==> key@[j] == prefix@[j],
        decreases pn - i,
    {
        if key.get_char(i) != prefix.get_char(i) {
            assert(key@.subrange(0, pn as int)[i as int] != prefix@[i as int]);
            return false;
        }
        i += 1;
    }
    assert(key@.subrange(0, pn as int) =~= prefix@);
    true
}

/// The keys among `keys` that start with `prefix`: what a prefix delete
/// removes.
pub fn keys_with_prefix(keys: &Vec<String>, prefix: &str) -> (r: Vec<String>)
    ensures
        texts(r@) == with_prefix(texts(keys@), prefix@),
{
    let mut out: Vec<String> = Vec::new();
    let mut i: usize = 0;
    while i < keys.len()
        invariant
            i <= keys@.len(),
            texts(out@) == with_prefix(texts(keys@.take(i as int)), prefix@),
        decreases keys@.len() - i,
    {
        let k = &keys[i];
        assert(texts(keys@.take(i as int + 1)).drop_last() =~= texts(keys@.take(i as int)));
        if has_prefix(k.as_str(), prefix) {
            out.push(k.clone());
        }
        assert(texts(out@) =~= with_prefix(texts(keys@.take(i as int + 1)), prefix@));
        i += 1;
    }
    assert(keys@.take(keys@.len() as int) =~= keys@);
    out
}

/// The keys of the rows (key, expiry) that are no longer live at `now`: what
/// a prune removes, and what statistics count as expired.
pub fn expired_keys(rows: &Vec<(String, u64)>, now: u64) -> (r: Vec<String>)
    ensures
        texts(r@) == expired_at(row_view(rows@), now),
{
    let mut out: Vec<String> = Vec::new();
    let mut i: usize = 0;
    while i < rows.len()
        invariant
            i <= rows@.len(),
            texts(out@) == expired_at(row_view(rows@.take(i as int)), now),
        decreases rows@.len() - i,
    {
        let row = &rows[i];
        assert(row_view(rows@.take(i as int + 1)).drop_last() =~= row_view(rows@.take(i as int)));
        if !is_live(row.1, now) {
            out.push(row.0.clone());
        }
        assert(texts(out@) =~= expired_at(row_view(rows@.take(i as int + 1)), now));
        i += 1;
    }
    assert(rows@.take(rows@.len() as int) =~= rows@);
    out
}

} // verus!
