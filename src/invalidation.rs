//! Global invalidation epoch, cache key naming and default lifetimes.

use vstd::prelude::*;
use vstd::string::StringExecFns;
use std::sync::atomic::{AtomicU64, Ordering};
use std::time::Duration;
use crate::clock::{current_epoch_ms, duration_from_millis};

verus! {

/// Whether an entry cached at `cached_at_ms` postdates the epoch boundary.
pub open spec fn after_epoch(cached_at_ms: u64, epoch_ms: u64) -> bool {
    cached_at_ms > epoch_ms
}

/// `now - since`, or zero when `since` lies after `now`.
pub open spec fn elapsed(now: u64, since: u64) -> u64 {
    if now >= since { (now - since) as u64 } else { 0 }
}

/// Whether an entry cached at `cached_at_ms` survives an invalidation made at
/// `epoch_ms`.
pub fn entry_after_epoch(cached_at_ms: u64, epoch_ms: u64) -> (r: bool)
    ensures
        r == after_epoch(cached_at_ms, epoch_ms),
{
    cached_at_ms > epoch_ms
}

/// Milliseconds from `since` to `now`, clamped at zero.
pub fn elapsed_ms(now: u64, since: u64) -> (r: u64)
    ensures
        r == elapsed(now, since),
{
    now.saturating_sub(since)
}

/// A single process-wide epoch: entries cached at or before the last
/// invalidation are stale. Zero means never invalidated.
pub struct CacheInvalidator {
    last_invalidation: AtomicU64,
}

impl CacheInvalidator {
    /// An invalidator that has never invalidated.
    pub fn new() -> Self {
        CacheInvalidator { last_invalidation: AtomicU64::new(0) }
    }

    /// Makes the present moment the new epoch boundary. The boundary never
    /// moves back, even if the clock does.
    pub fn invalidate_all(&self) {
        let now = current_epoch_ms();
        self.last_invalidation.fetch_max(now, Ordering::SeqCst);
    }

    /// Whether an entry cached at `cached_at_ms` postdates the epoch boundary
    /// read at the time of the call; see `entry_after_epoch`.
    pub fn is_valid(&self, cached_at_ms: u64) -> bool {
        let last = self.last_invalidation.load(Ordering::SeqCst);
        entry_after_epoch(cached_at_ms, last)
    }

    /// Time since the last invalidation, clamped at zero; see `elapsed_ms`.
    pub fn time_since_invalidation(&self) -> Duration {
        let last = self.last_invalidation.load(Ordering::SeqCst);
        let now = current_epoch_ms();
        duration_from_millis(elapsed_ms(now, last))
    }
}

impl Default for CacheInvalidator {
    fn default() -> Self {
        Self::new()
    }
}

/// What `str::to_lowercase` makes of a text.
pub uninterp spec fn lower_of(s: Seq<char>) -> Seq<char>;

/// Relies on `str::to_lowercase`: the result depends on the characters
/// alone, and an empty text stays empty.
#[verifier::external_body]
fn lowercase(s: &str) -> (r: String)
    ensures
        r@ == lower_of(s@),
        s@.len() == 0 ==> r@.len() == 0,
{
    s.to_lowercase()
}

fn prefixed(prefix: &str, rest: &str) -> (r: String)
    ensures
        r@ == prefix@ + rest@,
{
    let mut s = prefix.to_string();
    s.append(rest);
    s
}

/// Key names by kind of cached data.
pub struct CacheKey;

impl CacheKey {
    /// Search results; the query is case-folded.
    pub fn search(query: &str) -> (r: String)
        ensures
            r@ == "search:"@ + lower_of(query@),
    {
        let folded = lowercase(query);
        Self::search_folded(folded.as_str())
    }

    /// Search results for a query that is already case-folded.
    pub fn search_folded(folded_query: &str) -> (r: String)
        ensures
            r@ == "search:"@ + folded_query@,
    {
        prefixed("search:", folded_query)
    }

    /// Package metadata.
    pub fn package(name: &str) -> (r: String)
        ensures
            r@ == "pkg:"@ + name@,
    {
        prefixed("pkg:", name)
    }

    /// The NUR index.
    pub fn nur_index() -> (r: String)
        ensures
            r@ == "nur:index"@,
    {
        "nur:index".to_string()
    }

    /// One NUR package.
    pub fn nur_package(name: &str) -> (r: String)
        ensures
            r@ == "nur:pkg:"@ + name@,
    {
        prefixed("nur:pkg:", name)
    }

    /// A dependency tree.
    pub fn dependencies(package: &str) -> (r: String)
        ensures
            r@ == "deps:"@ + package@,
    {
        prefixed("deps:", package)
    }

    /// The installed-package list.
    pub fn installed() -> (r: String)
        ensures
            r@ == "installed"@,
    {
        "installed".to_string()
    }

    /// The generation list.
    pub fn generations() -> (r: String)
        ensures
            r@ == "generations"@,
    {
        "generations".to_string()
    }
}

/// Suggested lifetimes in seconds, by kind of cached data.
pub struct TTL;

impl TTL {
    /// Search results: five minutes.
    pub const SEARCH: u64 = 300;

    /// Package metadata: one hour.
    pub const PACKAGE: u64 = 3600;

    /// The NUR index: one day.
    pub const NUR_INDEX: u64 = 86400;

    /// One NUR package: one hour.
    pub const NUR_PACKAGE: u64 = 3600;

    /// Installed packages change often: one minute.
    pub const INSTALLED: u64 = 60;

    /// Generations: five minutes.
    pub const GENERATIONS: u64 = 300;

    /// Dependency trees: one hour.
    pub const DEPENDENCIES: u64 = 3600;

    /// Temporary data: thirty seconds.
    pub const SHORT: u64 = 30;

    /// Stable data: one week.
    pub const LONG: u64 = 604800;
}

} // verus!
