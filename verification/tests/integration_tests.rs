//! Integration tests

use crates_docs::cache::memory::MemoryCache;
use crates_docs::cache::Cache;
use crates_docs::utils::string;
use crates_docs::utils::validation;

#[test]
fn test_tool_parameter_validation() {
    assert!(validation::validate_crate_name("serde").is_ok());
    assert!(validation::validate_crate_name("tokio").is_ok());
    assert!(validation::validate_crate_name("reqwest").is_ok());

    assert!(validation::validate_crate_name("").is_err());
    assert!(validation::validate_crate_name("invalid name with spaces").is_err());

    assert!(validation::validate_version("1.0.0").is_ok());
    assert!(validation::validate_version("0.1.0-alpha.1").is_ok());
    assert!(validation::validate_version("2.3.4-beta.5").is_ok());

    assert!(validation::validate_version("").is_err());
    assert!(validation::validate_version("1.0").is_ok());
    assert!(validation::validate_version("invalid").is_err());

    assert!(validation::validate_search_query("serde").is_ok());
    assert!(validation::validate_search_query("web framework").is_ok());
    assert!(validation::validate_search_query("async").is_ok());

    assert!(validation::validate_search_query("").is_err());
    assert!(validation::validate_search_query("   ").is_ok());
    assert!(validation::validate_search_query("a").is_ok());
}

#[test]
fn test_string_utils() {
    let long_string = "This is a very long string that needs to be truncated";
    let truncated = string::truncate_with_ellipsis(long_string, 20);
    assert_eq!(truncated, "This is a very lo...");
    assert!(truncated.len() <= 20 + 3);

    let short_string = "short";
    let truncated = string::truncate_with_ellipsis(short_string, 10);
    assert_eq!(truncated, "short");

    let exact_string = "exact length";
    let truncated = string::truncate_with_ellipsis(exact_string, 5);
    assert_eq!(truncated, "ex...");
}

#[test]
fn test_cache_store_and_expiry() {
    let mut cache = MemoryCache::new(100);
    let now: u64 = 1_000;

    cache.set("test_key".to_string(), "test_value".to_string(), None, now);
    assert_eq!(cache.get("test_key", now), Some("test_value".to_string()));

    cache.set(
        "expiring_key".to_string(),
        "expiring_value".to_string(),
        Some(1_000),
        now,
    );
    assert_eq!(
        cache.get("expiring_key", now),
        Some("expiring_value".to_string())
    );

    assert_eq!(cache.get("expiring_key", now + 2_000), None);

    cache.delete("test_key");
    assert_eq!(cache.get("test_key", now), None);

    cache.set("key1".to_string(), "value1".to_string(), None, now);
    cache.set("key2".to_string(), "value2".to_string(), None, now);
    cache.clear();
    assert_eq!(cache.get("key1", now), None);
    assert_eq!(cache.get("key2", now), None);
}

#[test]
fn test_cache_through_capability() {
    let mut cache = MemoryCache::new(10);
    let now: u64 = 0;

    Cache::set(
        &mut cache,
        "key1".to_string(),
        "value1".to_string(),
        None,
        now,
    );
    assert_eq!(Cache::get(&mut cache, "key1", now), Some("value1".to_string()));
    assert!(Cache::contains_key(&mut cache, "key1", now));
    assert!(!Cache::contains_key(&mut cache, "key2", now));

    Cache::delete(&mut cache, "key1");
    assert_eq!(Cache::get(&mut cache, "key1", now), None);

    Cache::set(
        &mut cache,
        "key2".to_string(),
        "value2".to_string(),
        None,
        now,
    );
    Cache::clear(&mut cache);
    assert_eq!(Cache::get(&mut cache, "key2", now), None);
}
