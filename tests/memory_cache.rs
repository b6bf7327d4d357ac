use nixboost::memory_cache::MemoryCache;

#[test]
fn memory_cache_test_set_and_get() {
    let mut cache = MemoryCache::new(100);
    cache.set("key1", "value1");

    let value = cache.get_raw("key1");
    assert_eq!(value, Some("value1".to_string()));
}

#[test]
fn test_lru_eviction() {
    let mut cache = MemoryCache::new(2);

    cache.set("key1", "value1");
    cache.set("key2", "value2");
    cache.set("key3", "value3");

    assert!(cache.get_raw("key1").is_none());
    assert!(cache.get_raw("key2").is_some());
    assert!(cache.get_raw("key3").is_some());
}

#[test]
fn memory_cache_test_stats() {
    let mut cache = MemoryCache::new(100);
    cache.set("key1", "value1");

    let _ = cache.get_raw("key1");
    let _ = cache.get_raw("key2");

    let stats = cache.stats();
    assert_eq!(stats.entries, 1);
    assert_eq!(stats.hits, 1);
    assert_eq!(stats.misses, 1);
    let rate = stats.hits as f64 / (stats.hits + stats.misses) as f64;
    assert_eq!(rate, 0.5);
}

#[test]
fn memory_cache_test_clear() {
    let mut cache = MemoryCache::new(100);
    cache.set("key1", "value1");
    cache.set("key2", "value2");

    cache.clear();

    assert!(cache.is_empty());
    assert_eq!(cache.stats().hits, 0);
}

#[test]
fn zero_capacity_becomes_one() {
    let mut cache = MemoryCache::new(0);
    assert_eq!(cache.stats().capacity, 1);
    cache.set("a", "1");
    cache.set("b", "2");
    assert_eq!(cache.len(), 1);
    assert!(!cache.contains("a"));
    assert_eq!(cache.peek("b"), Some("2".to_string()));
}

#[test]
fn read_protects_from_eviction() {
    let mut cache = MemoryCache::new(3);
    cache.set("a", "1");
    cache.set("b", "2");
    cache.set("c", "3");
    assert_eq!(cache.get_raw("a"), Some("1".to_string()));
    cache.set("d", "4");
    assert!(cache.contains("a"));
    assert!(!cache.contains("b"));
    assert!(cache.contains("c"));
    assert!(cache.contains("d"));
}

#[test]
fn first_inserted_is_evicted() {
    let mut cache = MemoryCache::new(3);
    cache.set("a", "1");
    cache.set("b", "2");
    cache.set("c", "3");
    cache.set("d", "4");
    assert_eq!(cache.keys(), vec!["d".to_string(), "c".to_string(), "b".to_string()]);
}

#[test]
fn overwrite_keeps_one_entry() {
    let mut cache = MemoryCache::new(2);
    cache.set("a", "1");
    cache.set("b", "2");
    cache.set("a", "one");
    assert_eq!(cache.len(), 2);
    cache.set("c", "3");
    assert_eq!(cache.peek("a"), Some("one".to_string()));
    assert!(!cache.contains("b"));
}

#[test]
fn entries_count_unique_sets() {
    let mut cache = MemoryCache::new(10);
    for k in ["k1", "k2", "k3", "k4", "k5"] {
        cache.set(k, "v");
    }
    assert_eq!(cache.stats().entries, 5);
}

#[test]
fn peek_and_contains_keep_order_and_counters() {
    let mut cache = MemoryCache::new(2);
    cache.set("a", "1");
    cache.set("b", "2");
    assert_eq!(cache.peek("a"), Some("1".to_string()));
    assert!(cache.contains("a"));
    cache.set("c", "3");
    assert!(!cache.contains("a"));
    let stats = cache.stats();
    assert_eq!(stats.hits, 0);
    assert_eq!(stats.misses, 0);
}

#[test]
fn remove_hands_back_value() {
    let mut cache = MemoryCache::new(4);
    cache.set("a", "1");
    assert_eq!(cache.remove("a"), Some("1".to_string()));
    assert_eq!(cache.remove("a"), None);
    assert!(cache.is_empty());
    assert_eq!(cache.stats().misses, 0);
}

#[test]
fn resize_drops_least_recent() {
    let mut cache = MemoryCache::new(4);
    cache.set("a", "1");
    cache.set("b", "2");
    cache.set("c", "3");
    cache.set("d", "4");
    let _ = cache.get_raw("a");
    cache.resize(2);
    assert_eq!(cache.stats().capacity, 2);
    assert_eq!(cache.keys(), vec!["a".to_string(), "d".to_string()]);
    cache.resize(8);
    assert_eq!(cache.len(), 2);
    assert_eq!(cache.stats().capacity, 8);
}

#[test]
fn clear_keeps_capacity() {
    let mut cache = MemoryCache::new(3);
    cache.set("a", "1");
    let _ = cache.get_raw("a");
    let _ = cache.get_raw("z");
    cache.clear();
    let stats = cache.stats();
    assert_eq!(stats.entries, 0);
    assert_eq!(stats.hits, 0);
    assert_eq!(stats.misses, 0);
    assert_eq!(stats.capacity, 3);
}
