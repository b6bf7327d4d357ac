use nixboost::clock::{current_epoch_ms, current_timestamp};
use nixboost::invalidation::{elapsed_ms, entry_after_epoch, CacheInvalidator, CacheKey, TTL};

#[test]
fn test_cache_key_search() {
    let key = CacheKey::search("Firefox");
    assert_eq!(key, "search:firefox");
}

#[test]
fn test_cache_key_package() {
    let key = CacheKey::package("firefox");
    assert_eq!(key, "pkg:firefox");
}

#[test]
fn other_cache_keys() {
    assert_eq!(CacheKey::nur_index(), "nur:index");
    assert_eq!(CacheKey::nur_package("hello"), "nur:pkg:hello");
    assert_eq!(CacheKey::dependencies("git"), "deps:git");
    assert_eq!(CacheKey::installed(), "installed");
    assert_eq!(CacheKey::generations(), "generations");
    assert_eq!(CacheKey::search(""), "search:");
}

#[test]
fn default_lifetimes() {
    assert_eq!(TTL::SEARCH, 300);
    assert_eq!(TTL::PACKAGE, 3600);
    assert_eq!(TTL::NUR_INDEX, 86400);
    assert_eq!(TTL::NUR_PACKAGE, 3600);
    assert_eq!(TTL::INSTALLED, 60);
    assert_eq!(TTL::GENERATIONS, 300);
    assert_eq!(TTL::DEPENDENCIES, 3600);
    assert_eq!(TTL::SHORT, 30);
    assert_eq!(TTL::LONG, 604800);
}

#[test]
fn epoch_boundary_is_strict() {
    assert!(entry_after_epoch(11, 10));
    assert!(!entry_after_epoch(10, 10));
    assert!(!entry_after_epoch(9, 10));
    assert!(entry_after_epoch(1, 0));
}

#[test]
fn elapsed_is_clamped() {
    assert_eq!(elapsed_ms(100, 40), 60);
    assert_eq!(elapsed_ms(40, 100), 0);
}

#[test]
fn invalidation_moves_the_epoch() {
    let invalidator = CacheInvalidator::new();
    assert!(invalidator.is_valid(1));
    invalidator.invalidate_all();
    assert!(!invalidator.is_valid(1));
    assert!(invalidator.is_valid(u64::MAX));
}

#[test]
fn folded_search_key() {
    assert_eq!(CacheKey::search_folded("MiXeD"), "search:MiXeD");
    assert_eq!(CacheKey::search("MiXeD"), "search:mixed");
}

#[test]
fn clock_reads_the_present() {
    let secs = current_timestamp();
    let ms = current_epoch_ms();
    assert!(secs > 1_600_000_000);
    assert!(ms / 1000 >= secs);
    assert!(ms / 1000 - secs <= 5);
}

#[test]
fn time_since_invalidation_grows_from_epoch() {
    let invalidator = CacheInvalidator::default();
    assert!(invalidator.time_since_invalidation().as_millis() > 1_600_000_000_000);
    invalidator.invalidate_all();
    assert!(invalidator.time_since_invalidation().as_secs() < 5);
}
