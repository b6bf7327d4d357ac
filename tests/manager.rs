use nixboost::disk_cache::DiskCacheStats;
use nixboost::manager::{promote, CacheStats};
use nixboost::memory_cache::MemoryCache;

#[test]
fn promotion_serves_next_read_from_memory() {
    let mut memory = MemoryCache::new(4);
    assert_eq!(memory.get_raw("pkg:git"), None);
    let found = promote(&mut memory, "pkg:git", Some("\"2.0\"".to_string()));
    assert_eq!(found, Some("\"2.0\"".to_string()));
    assert_eq!(memory.get_raw("pkg:git"), Some("\"2.0\"".to_string()));
    let stats = memory.stats();
    assert_eq!(stats.hits, 1);
    assert_eq!(stats.misses, 1);
}

#[test]
fn nothing_found_leaves_memory_alone() {
    let mut memory = MemoryCache::new(4);
    assert_eq!(promote(&mut memory, "k", None), None);
    assert!(memory.is_empty());
}

#[test]
fn merged_stats() {
    let mut memory = MemoryCache::new(10);
    memory.set("a", "1");
    let _ = memory.get_raw("a");
    let disk = DiskCacheStats { entries: 3, size_bytes: 2048, hits: 4, misses: 5, expired: 1 };
    let stats = CacheStats::from_layers(&memory.stats(), &disk);
    assert_eq!(stats.memory_entries, 1);
    assert_eq!(stats.memory_hits, 1);
    assert_eq!(stats.memory_misses, 0);
    assert_eq!(stats.disk_entries, 3);
    assert_eq!(stats.disk_hits, 4);
    assert_eq!(stats.disk_misses, 5);
    assert_eq!(stats.total_entries(), 4);
    assert_eq!(stats.size_human(), "2.0 KB");
}

#[test]
fn size_strings() {
    let mut stats = CacheStats::default();
    stats.disk_size_bytes = 512;
    assert_eq!(stats.size_human(), "512 B");
    stats.disk_size_bytes = 1536;
    assert_eq!(stats.size_human(), "1.5 KB");
    stats.disk_size_bytes = 5 * 1048576 + 104858;
    assert_eq!(stats.size_human(), "5.1 MB");
    stats.disk_size_bytes = 1048575;
    assert_eq!(stats.size_human(), "1024.0 KB");
}
