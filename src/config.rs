//! Settings of the cache.

use vstd::prelude::*;

verus! {

/// Cache settings.
#[derive(Debug, Clone)]
pub struct CacheConfig {
    /// Whether the disk layer is used.
    pub enabled: bool,
    /// Directory under the user's cache directory.
    pub directory: String,
    /// Reserved bound on the disk footprint, in MB.
    pub max_size_mb: u64,
    /// Lifetime of package metadata, in seconds.
    pub package_ttl_secs: u64,
    /// Lifetime of search results, in seconds.
    pub search_ttl_secs: u64,
    /// Lifetime of the NUR index, in seconds.
    pub nur_ttl_secs: u64,
    /// Reserved: payloads are stored uncompressed.
    pub compression: bool,
    /// Bound of the memory layer, in entries.
    pub memory_cache_size: usize,
}

impl Default for CacheConfig {
    fn default() -> (r: Self)
        ensures
            r.enabled,
            r.directory@ == "nixboost"@,
            r.max_size_mb == 500,
            r.package_ttl_secs == 3600,
            r.search_ttl_secs == 300,
            r.nur_ttl_secs == 86400,
            r.compression,
            r.memory_cache_size == 1000,
    {
        CacheConfig {
            enabled: true,
            directory: "nixboost".to_string(),
            max_size_mb: 500,
            package_ttl_secs: 3600,
            search_ttl_secs: 300,
            nur_ttl_secs: 86400,
            compression: true,
            memory_cache_size: 1000,
        }
    }
}

} // verus!
