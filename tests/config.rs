use nixboost::config::CacheConfig;

#[test]
fn cache_config_defaults() {
    let config = CacheConfig::default();
    assert!(config.enabled);
    assert_eq!(config.directory, "nixboost");
    assert_eq!(config.max_size_mb, 500);
    assert_eq!(config.package_ttl_secs, 3600);
    assert_eq!(config.search_ttl_secs, 300);
    assert_eq!(config.nur_ttl_secs, 86400);
    assert!(config.compression);
    assert_eq!(config.memory_cache_size, 1000);
}
