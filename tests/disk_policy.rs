use nixboost::disk_cache::{classify_row, expired_keys, expiry_time, has_prefix, is_live, keys_with_prefix, DiskLookup, MAX_STORED_TIME};

#[test]
fn write_then_read_hits() {
    let now = 1_700_000_000u64;
    let expires = expiry_time(now, 3600);
    assert_eq!(expires, now + 3600);
    match classify_row(Some((r#"{"name": "test"}"#.to_string(), expires)), now) {
        DiskLookup::Hit(v) => assert_eq!(v, r#"{"name": "test"}"#),
        _ => panic!("expected a hit"),
    }
}

#[test]
fn one_second_lifetime_lapses() {
    let now = 1_700_000_000u64;
    let expires = expiry_time(now, 1);
    assert!(matches!(classify_row(Some(("\"test\"".to_string(), expires)), now + 2), DiskLookup::Expired));
    assert!(!is_live(expires, now + 2));
}

#[test]
fn expiry_boundary() {
    assert!(is_live(11, 10));
    assert!(!is_live(10, 10));
    assert!(matches!(classify_row(Some(("v".to_string(), 10)), 10), DiskLookup::Expired));
    assert!(matches!(classify_row(None, 10), DiskLookup::Missing));
}

#[test]
fn expiry_is_clamped() {
    assert_eq!(expiry_time(5, u64::MAX), MAX_STORED_TIME);
    assert_eq!(expiry_time(MAX_STORED_TIME, 1), MAX_STORED_TIME);
}

#[test]
fn prefix_delete_picks_search_keys() {
    let keys = vec!["search:query1".to_string(), "search:query2".to_string(), "package:pkg1".to_string()];
    let doomed = keys_with_prefix(&keys, "search:");
    assert_eq!(doomed.len(), 2);
    assert_eq!(doomed, vec!["search:query1".to_string(), "search:query2".to_string()]);
    assert!(!doomed.contains(&"package:pkg1".to_string()));
}

#[test]
fn prefix_match_is_exact() {
    assert!(has_prefix("search:a", "search:"));
    assert!(!has_prefix("SEARCH:a", "search:"));
    assert!(!has_prefix("sea", "search:"));
    assert!(has_prefix("x", ""));
    assert!(!has_prefix("a_b", "a%"));
}

#[test]
fn prune_picks_lapsed_rows() {
    let rows = vec![("a".to_string(), 5u64), ("b".to_string(), 20u64), ("c".to_string(), 10u64)];
    assert_eq!(expired_keys(&rows, 10), vec!["a".to_string(), "c".to_string()]);
    assert!(expired_keys(&rows, 4).is_empty());
}
