//! What the two-tier manager decides: promotion of a value found on disk
//! into memory, and the merged statistics of both layers.

use vstd::prelude::*;
use vstd::string::StringExecFns;
use crate::lru_store::{Entries, Text, put_entries};
use crate::memory_cache::{MemoryCache, MemoryCacheStats};
use crate::disk_cache::DiskCacheStats;
use crate::numfmt::{decimal, fixed_text, push_decimal, push_fixed};

verus! {

/// The memory entries after a read that missed memory and found `found` on
/// disk: a value found is stored as the most recent entry.
pub open spec fn promoted(e: Entries, cap: nat, k: Text, found: Option<Text>) -> Entries {
    match found {
        Some(v) => put_entries(e, cap, k, v),
        None => e,
    }
}

pub open spec fn opt_view(o: Option<String>) -> Option<Text> {
    match o {
        Some(s) => Some(s@),
        None => None,
    }
}

/// Completes a read that missed memory: what the disk layer found for `key`
/// is written into memory, so the next read is served there, and handed
/// back unchanged.
pub fn promote(memory: &mut MemoryCache, key: &str, from_disk: Option<String>) -> (r: Option<String>)
    requires
        old(memory).wf(),
    ensures
        final(memory).wf(),
        r == from_disk,
        final(memory).entries() == promoted(old(memory).entries(), old(memory).capacity(), key@, opt_view(from_disk)),
        final(memory).capacity() == old(memory).capacity(),
        final(memory).hits() == old(memory).hits(),
        final(memory).misses() == old(memory).misses(),
{
    match from_disk {
        Some(v) => {
            memory.set(key, v.as_str());
            Some(v)
        }
        None => None,
    }
}

/// A byte count as text: bytes below 1024, else kilobytes below 1024 KB,
/// else megabytes, with one digit after the point.
pub open spec fn size_text(bytes: nat) -> Seq<char> {
    if bytes < 1024 {
        decimal(bytes) + " B"@
    } else if bytes < 1048576 {
        fixed_text(bytes, 1024, 1) + " KB"@
    } else {
        fixed_text(bytes, 1048576, 1) + " MB"@
    }
}

/// Statistics of both layers together.
#[derive(Debug, Clone, Default)]
pub struct CacheStats {
    pub memory_entries: usize,
    pub memory_hits: u64,
    pub memory_misses: u64,
    pub disk_entries: usize,
    pub disk_size_bytes: u64,
    pub disk_hits: u64,
    pub disk_misses: u64,
}

impl CacheStats {
    /// The merged view of a memory snapshot and a disk snapshot.
    pub fn from_layers(memory: &MemoryCacheStats, disk: &DiskCacheStats) -> (r: CacheStats)
        ensures
            r.memory_entries == memory.entries,
            r.memory_hits == memory.hits,
            r.memory_misses == memory.misses,
            r.disk_entries == disk.entries,
            r.disk_size_bytes == disk.size_bytes,
            r.disk_hits == disk.hits,
            r.disk_misses == disk.misses,
    {
        CacheStats {
            memory_entries: memory.entries,
            memory_hits: memory.hits,
            memory_misses: memory.misses,
            disk_entries: disk.entries,
            disk_size_bytes: disk.size_bytes,
            disk_hits: disk.hits,
            disk_misses: disk.misses,
        }
    }

    /// Entries of both layers together.
    pub fn total_entries(&self) -> (r: usize)
        requires
            self.memory_entries + self.disk_entries <= usize::MAX,
        ensures
            r == self.memory_entries + self.disk_entries,
    {
        self.memory_entries + self.disk_entries
    }

    /// The disk footprint as text (see `size_text`).
    pub fn size_human(&self) -> (r: String)
        ensures
            r@ == size_text(self.disk_size_bytes as nat),
    {
        let bytes = self.disk_size_bytes;
        let mut s = String::new();
        if bytes < 1024 {
            push_decimal(&mut s, bytes);
            s.append(" B");
        } else if bytes < 1048576 {
            push_fixed(&mut s, bytes, 1024, 1);
            s.append(" KB");
        } else {
            push_fixed(&mut s, bytes, 1048576, 1);
            s.append(" MB");
        }
        assert(s@ =~= size_text(bytes as nat));
        s
    }
}

} // verus!
