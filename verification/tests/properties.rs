//! Behavior tests for the cache core and the pure tool functions.

use crates_docs::cache::memory::MemoryCache;
use crates_docs::cache::redis::{
    clear_command, connection_error, delete_command, exists_command, get_command, interpret_exists,
    interpret_get, interpret_ping, set_command, RedisCommand,
};
use crates_docs::cache::{create_cache, CacheConfig};
use crates_docs::error::Error;
use core::str::FromStr;
use crates_docs::server::auth::OAuthConfig;
use crates_docs::tools::docs::cache::{crate_cache_key, DocCache};
use crates_docs::tools::docs::lookup;
use crates_docs::tools::docs::search::{
    format_search_results, parse_crates_response, search_api_url, CrateInfo, CrateRecord,
};
use crates_docs::tools::health;
use crates_docs::utils::string::u64_to_string;
use crates_docs::utils::HttpClientBuilder;

/// Capacity invariant: after any run of insertions with distinct keys the
/// cache never holds more entries than its capacity.
#[test]
fn capacity_invariant_under_distinct_inserts() {
    let mut cache = MemoryCache::new(3);
    assert_eq!(cache.capacity(), 3);
    for i in 0..20u64 {
        let key = format!("key{i}");
        cache.set(key, "v".to_string(), None, 0);
        assert!(cache.len() <= cache.capacity());
    }
    assert_eq!(cache.len(), 3);
}

/// Requesting a zero-sized cache yields capacity one, not a rejection.
#[test]
fn zero_capacity_is_normalized_to_one() {
    let mut cache = MemoryCache::new(0);
    assert_eq!(cache.capacity(), 1);
    cache.set("a".to_string(), "1".to_string(), None, 0);
    cache.set("b".to_string(), "2".to_string(), None, 0);
    assert_eq!(cache.len(), 1);
    assert_eq!(cache.get("b", 0), Some("2".to_string()));
    assert_eq!(cache.get("a", 0), None);
}

/// LRU order: reading a key refreshes it, so the unread key is evicted.
#[test]
fn lru_order_eviction() {
    let mut cache = MemoryCache::new(2);
    cache.set("a".to_string(), "1".to_string(), None, 0);
    cache.set("b".to_string(), "2".to_string(), None, 0);
    assert_eq!(cache.get("a", 0), Some("1".to_string()));
    cache.set("c".to_string(), "3".to_string(), None, 0);
    assert_eq!(cache.get("a", 0), Some("1".to_string()));
    assert_eq!(cache.get("b", 0), None);
    assert_eq!(cache.get("c", 0), Some("3".to_string()));
}

/// Replacing the value under an existing key never counts against
/// capacity and never evicts.
#[test]
fn replacing_existing_key_does_not_evict() {
    let mut cache = MemoryCache::new(2);
    cache.set("a".to_string(), "1".to_string(), None, 0);
    cache.set("b".to_string(), "2".to_string(), None, 0);
    cache.set("a".to_string(), "9".to_string(), None, 0);
    assert_eq!(cache.len(), 2);
    assert_eq!(cache.get("a", 0), Some("9".to_string()));
    assert_eq!(cache.get("b", 0), Some("2".to_string()));
}

/// An insertion at capacity reclaims expired entries before evicting a
/// live one.
#[test]
fn expired_entries_are_reclaimed_before_eviction() {
    let mut cache = MemoryCache::new(2);
    cache.set("short".to_string(), "s".to_string(), Some(100), 0);
    cache.set("live".to_string(), "l".to_string(), None, 0);
    // At time 200 the first entry is expired; inserting a new key must
    // reclaim it and keep the live entry.
    cache.set("new".to_string(), "n".to_string(), None, 200);
    assert_eq!(cache.get("live", 200), Some("l".to_string()));
    assert_eq!(cache.get("new", 200), Some("n".to_string()));
    assert_eq!(cache.get("short", 200), None);
}

/// TTL correctness: a value with a time-to-live is returned before the
/// deadline and gone from the deadline on.
#[test]
fn ttl_expiry_boundaries() {
    let mut cache = MemoryCache::new(10);
    cache.set("k".to_string(), "v".to_string(), Some(100), 0);
    assert_eq!(cache.get("k", 0), Some("v".to_string()));
    assert_eq!(cache.get("k", 50), Some("v".to_string()));
    assert_eq!(cache.get("k", 99), Some("v".to_string()));
    // From the deadline on, the entry counts as absent.
    let mut cache2 = MemoryCache::new(10);
    cache2.set("k".to_string(), "v".to_string(), Some(100), 0);
    assert_eq!(cache2.get("k", 100), None);
    let mut cache3 = MemoryCache::new(10);
    cache3.set("k".to_string(), "v".to_string(), Some(100), 0);
    assert_eq!(cache3.get("k", 150), None);
}

/// A presence probe agrees with a lookup at every instant, including both
/// sides of the expiry boundary.
#[test]
fn exists_matches_get_around_expiry() {
    for t in [0u64, 50, 99, 100, 150] {
        let mut probe = MemoryCache::new(10);
        probe.set("k".to_string(), "v".to_string(), Some(100), 0);
        let mut lookup_cache = MemoryCache::new(10);
        lookup_cache.set("k".to_string(), "v".to_string(), Some(100), 0);
        assert_eq!(probe.contains_key("k", t), lookup_cache.get("k", t).is_some());
        assert_eq!(probe.contains_key("absent", t), lookup_cache.get("absent", t).is_some());
    }
}

/// Clear completeness: after clearing, every previously set key misses.
#[test]
fn clear_removes_every_key() {
    let mut cache = MemoryCache::new(10);
    for i in 0..5u64 {
        cache.set(format!("key{i}"), format!("value{i}"), None, 0);
    }
    cache.clear();
    assert_eq!(cache.len(), 0);
    for i in 0..5u64 {
        assert_eq!(cache.get(&format!("key{i}"), 0), None);
    }
}

/// Deleting an absent key is a no-op: nothing errors and nothing else
/// changes.
#[test]
fn delete_absent_key_is_noop() {
    let mut cache = MemoryCache::new(10);
    cache.set("present".to_string(), "v".to_string(), None, 0);
    cache.delete("absent");
    cache.delete("absent");
    assert_eq!(cache.len(), 1);
    assert_eq!(cache.get("present", 0), Some("v".to_string()));
}

/// The probe removes an observed expired entry but leaves recency alone.
#[test]
fn contains_key_reaps_expired() {
    let mut cache = MemoryCache::new(10);
    cache.set("k".to_string(), "v".to_string(), Some(100), 0);
    assert!(cache.contains_key("k", 50));
    assert_eq!(cache.len(), 1);
    assert!(!cache.contains_key("k", 100));
    assert_eq!(cache.len(), 0);
}

/// Remote fail-open: every failed round trip reads as a miss or absence,
/// never as an error.
#[test]
fn remote_fail_open() {
    assert_eq!(interpret_get(Err("connection reset".to_string())), None);
    assert_eq!(
        interpret_get(Ok(Some("value".to_string()))),
        Some("value".to_string())
    );
    assert_eq!(interpret_get(Ok(None)), None);

    assert!(!interpret_exists(Err("connection reset".to_string())));
    assert!(!interpret_exists(Ok(0)));
    assert!(interpret_exists(Ok(1)));
}

/// Construction is not fail-open: a failed liveness probe aborts it.
#[test]
fn remote_construction_requires_probe() {
    assert!(interpret_ping(Ok("PONG".to_string())).is_ok());
    let failed = interpret_ping(Err("broken pipe".to_string()));
    assert!(failed.is_err());
    assert_eq!(
        failed.unwrap_err().message(),
        "Cache operation failed: Redis ping failed: broken pipe"
    );
    assert_eq!(
        connection_error("refused".to_string()).message(),
        "Cache operation failed: Redis connection failed: refused"
    );
}

/// The operation mapping onto remote commands.
#[test]
fn remote_command_mapping() {
    assert!(matches!(get_command("k".to_string()), RedisCommand::Get(k) if k == "k"));
    assert!(matches!(
        set_command("k".to_string(), "v".to_string(), None),
        RedisCommand::SetValue(k, v) if k == "k" && v == "v"
    ));
    assert!(matches!(
        set_command("k".to_string(), "v".to_string(), Some(5_500)),
        RedisCommand::SetEx(k, secs, v) if k == "k" && secs == 5 && v == "v"
    ));
    assert!(matches!(delete_command("k".to_string()), RedisCommand::Del(k) if k == "k"));
    assert!(matches!(clear_command(), RedisCommand::FlushDb));
    assert!(matches!(exists_command("k".to_string()), RedisCommand::Exists(k) if k == "k"));
}

/// Key-family isolation: a subject's key and its versioned key are
/// distinct and have independent lifecycles.
#[test]
fn key_family_isolation() {
    let bare = crate_cache_key("serde", None);
    let versioned = crate_cache_key("serde", Some("1.0"));
    assert_eq!(bare, "crate:serde");
    assert_eq!(versioned, "crate:serde:1.0");
    assert_ne!(bare, versioned);

    let cache = MemoryCache::new(10);
    let mut docs = DocCache::new(cache);
    docs.set_crate_docs("serde", None, "bare docs".to_string(), 0);
    assert_eq!(docs.get_crate_docs("serde", Some("1.0"), 0), None);
    docs.set_crate_docs("serde", Some("1.0"), "versioned docs".to_string(), 0);
    assert_eq!(
        docs.get_crate_docs("serde", None, 0),
        Some("bare docs".to_string())
    );
    assert_eq!(
        docs.get_crate_docs("serde", Some("1.0"), 0),
        Some("versioned docs".to_string())
    );
}

/// Each key family carries its own time-to-live.
#[test]
fn doc_cache_ttl_policies() {
    let cache = MemoryCache::new(100);
    let mut docs = DocCache::new(cache);
    docs.set_crate_docs("serde", None, "docs".to_string(), 0);
    docs.set_search_results("web", 10, "results".to_string(), 0);
    docs.set_item_docs("serde", "Serialize", None, "item".to_string(), 0);

    // Five minutes on: search results are gone, the rest lives.
    let t1 = 300_000;
    assert_eq!(docs.get_search_results("web", 10, t1), None);
    assert_eq!(docs.get_crate_docs("serde", None, t1), Some("docs".to_string()));
    assert_eq!(
        docs.get_item_docs("serde", "Serialize", None, t1),
        Some("item".to_string())
    );

    // Thirty minutes on: item docs are gone too.
    let t2 = 1_800_000;
    assert_eq!(docs.get_item_docs("serde", "Serialize", None, t2), None);
    assert_eq!(docs.get_crate_docs("serde", None, t2), Some("docs".to_string()));

    // One hour on: nothing is left.
    let t3 = 3_600_000;
    assert_eq!(docs.get_crate_docs("serde", None, t3), None);
}

#[test]
fn doc_cache_clear() {
    let cache = MemoryCache::new(100);
    let mut docs = DocCache::new(cache);
    docs.set_crate_docs("serde", Some("1.0"), "Test docs".to_string(), 0);
    assert_eq!(
        docs.get_crate_docs("serde", Some("1.0"), 0),
        Some("Test docs".to_string())
    );
    docs.clear();
    assert_eq!(docs.get_crate_docs("serde", Some("1.0"), 0), None);
}

#[test]
fn create_cache_memory_capacity() {
    let config = CacheConfig {
        cache_type: "memory".to_string(),
        memory_size: Some(0),
        redis_url: None,
        default_ttl: None,
    };
    let cache = create_cache(&config).unwrap();
    assert_eq!(cache.capacity(), 1);

    let config = CacheConfig {
        cache_type: "memory".to_string(),
        memory_size: None,
        redis_url: None,
        default_ttl: None,
    };
    let cache = create_cache(&config).unwrap();
    assert_eq!(cache.capacity(), 1000);
}

#[test]
fn decimal_rendering() {
    assert_eq!(u64_to_string(0), "0");
    assert_eq!(u64_to_string(7), "7");
    assert_eq!(u64_to_string(10), "10");
    assert_eq!(u64_to_string(105), "105");
    assert_eq!(u64_to_string(18_446_744_073_709_551_615), "18446744073709551615");
}

#[test]
fn clean_html_drops_skip_tags() {
    let html = "<html><head><script>alert('x');</script></head><body><p>Hello</p></body></html>";
    let cleaned = lookup::clean_html(html);
    assert!(!cleaned.contains("script"));
    assert!(!cleaned.contains("alert"));
    assert!(cleaned.contains("<p>Hello</p>"));

    let nested = "<div><style a=b>.x{}</style>Kept<noscript>No</noscript><iframe src=x>F</iframe></div>";
    let cleaned = lookup::clean_html(nested);
    assert_eq!(cleaned, "<div>Kept</div>");

    let upper = "<SCRIPT>gone</SCRIPT>stays";
    assert_eq!(lookup::clean_html(upper), "stays");
}

#[test]
fn html_to_text_decodes_and_flattens() {
    let html = "<p>a &lt;b&gt; &amp; &quot;c&quot; &apos;d&apos;&nbsp;e</p>";
    let text = lookup::html_to_text(html);
    assert_eq!(text, "a <b> & \"c\" 'd' e");

    let with_script = "<p>Visible</p><script>hidden()</script><p>Also</p>";
    let text = lookup::html_to_text(with_script);
    assert_eq!(text, "Visible Also");
}

#[test]
fn clean_whitespace_collapses_runs() {
    assert_eq!(lookup::clean_whitespace("  a \t b \n  "), "a b");
    assert_eq!(lookup::clean_whitespace(""), "");
    assert_eq!(lookup::clean_whitespace("   "), "");
    assert_eq!(lookup::clean_whitespace("one"), "one");
}

#[test]
fn extraction_uses_markdown_conversion() {
    let html = "<html><body><script>x()</script><h1>Title</h1><p>Body text</p></body></html>";
    let md = lookup::extract_documentation(html);
    assert!(md.contains("Title"));
    assert!(md.contains("Body text"));
    assert!(!md.contains("x()"));

    let found = lookup::extract_search_results("<p>Result row</p>", "serde::Serialize");
    assert!(found.starts_with("## 搜索结果: serde::Serialize"));
    assert!(found.contains("Result row"));

    let empty = lookup::extract_search_results("<script>noise()</script>", "missing::Item");
    assert_eq!(empty, "未找到项目 'missing::Item' 的文档");
}

#[test]
fn docs_urls() {
    assert_eq!(lookup::crate_docs_url("serde", None), "https://docs.rs/serde/");
    assert_eq!(
        lookup::crate_docs_url("serde", Some("1.0.0")),
        "https://docs.rs/serde/1.0.0/"
    );
    assert_eq!(
        lookup::item_search_url("serde", "Serialize", None),
        "https://docs.rs/serde/?search=Serialize"
    );
    assert_eq!(
        lookup::item_search_url("serde", "serde::Serialize", Some("1.0")),
        "https://docs.rs/serde/1.0/?search=serde%3A%3ASerialize"
    );
    assert_eq!(
        search_api_url("web framework", 10),
        "https://crates.io/api/v1/crates?q=web%20framework&per_page=10"
    );
}

#[test]
fn search_records_normalize_with_defaults() {
    let records = vec![
        CrateRecord {
            name: Some("serde".to_string()),
            description: Some("serialization".to_string()),
            max_version: Some("1.0.200".to_string()),
            downloads: Some(1000),
            repository: None,
            documentation: None,
        },
        CrateRecord {
            name: None,
            description: None,
            max_version: None,
            downloads: None,
            repository: None,
            documentation: None,
        },
        CrateRecord {
            name: Some("third".to_string()),
            description: None,
            max_version: None,
            downloads: None,
            repository: None,
            documentation: None,
        },
    ];
    let infos = parse_crates_response(records, 2);
    assert_eq!(infos.len(), 2);
    assert_eq!(infos[0].name, "serde");
    assert_eq!(infos[0].version, "1.0.200");
    assert_eq!(infos[0].downloads, 1000);
    assert_eq!(infos[1].name, "Unknown");
    assert_eq!(infos[1].version, "0.0.0");
    assert_eq!(infos[1].downloads, 0);
}

#[test]
fn search_result_rendering() {
    let infos = vec![CrateInfo {
        name: "serde".to_string(),
        description: Some("serialization framework".to_string()),
        version: "1.0.200".to_string(),
        downloads: 42,
        repository: Some("https://github.com/serde-rs/serde".to_string()),
        documentation: None,
    }];

    let md = format_search_results(&infos, "markdown");
    let expected_md = "# 搜索结果\n\n## 1. serde\n**版本**: 1.0.200\n**下载量**: 42\n**描述**: serialization framework\n**仓库**: [链接](https://github.com/serde-rs/serde)\n**Docs.rs**: [https://docs.rs/serde/](https://docs.rs/serde/)\n\n";
    assert_eq!(md, expected_md);

    let text = format_search_results(&infos, "text");
    let expected_text = "1. serde\n   版本: 1.0.200\n   下载量: 42\n   描述: serialization framework\n   Docs.rs: https://docs.rs/serde/\n\n";
    assert_eq!(text, expected_text);

    // An unrecognized format falls back to the markdown listing.
    assert_eq!(format_search_results(&infos, "other"), expected_md);
}

#[test]
fn health_check_decisions() {
    let plan = health::plan_checks("external");
    assert_eq!(plan.len(), 2);
    assert!(matches!(plan[0], health::CheckKind::DocsRs));
    assert!(matches!(plan[1], health::CheckKind::CratesIo));
    assert_eq!(health::plan_checks("all").len(), 3);
    assert_eq!(health::plan_checks("internal").len(), 1);
    assert!(matches!(health::plan_checks("bogus")[0], health::CheckKind::Unknown));

    let unknown = health::unknown_check("bogus");
    assert_eq!(unknown.status, "unknown");
    assert_eq!(unknown.error.as_deref(), Some("Unknown check type: bogus"));

    let healthy = health::HealthCheckToolImpl::check_memory();
    assert_eq!(healthy.status, "healthy");

    let sick = health::HealthCheck {
        name: "docs.rs".to_string(),
        status: "unhealthy".to_string(),
        duration_ms: 12,
        message: None,
        error: Some("HTTP status code: 503".to_string()),
    };

    let all = vec![health::HealthCheckToolImpl::check_memory()];
    assert_eq!(health::overall_status(&all), "healthy");
    let mixed = vec![health::HealthCheckToolImpl::check_memory(), sick];
    assert_eq!(health::overall_status(&mixed), "unhealthy");
    let unknown_only = vec![health::unknown_check("bogus")];
    assert_eq!(health::overall_status(&unknown_only), "degraded");

    let reported = health::select_reported(mixed, false);
    assert_eq!(reported.len(), 1);
    assert_eq!(reported[0].status, "unhealthy");
}

#[test]
fn keycloak_endpoints() {
    let config = OAuthConfig::keycloak(
        "id".to_string(),
        "secret".to_string(),
        "http://localhost/callback".to_string(),
        "http://keycloak:8080///",
        "myrealm",
    );
    assert_eq!(
        config.authorization_endpoint.as_deref(),
        Some("http://keycloak:8080/realms/myrealm/protocol/openid-connect/auth")
    );
    assert_eq!(
        config.token_endpoint.as_deref(),
        Some("http://keycloak:8080/realms/myrealm/protocol/openid-connect/token")
    );
}

#[test]
fn error_messages_per_variant() {
    let variants = [
        (
            Error::Initialization("init failed".to_string()),
            "Initialization failed",
        ),
        (Error::Config("bad config".to_string()), "Configuration error"),
        (
            Error::HttpRequest("request failed".to_string()),
            "HTTP request failed",
        ),
        (Error::Parse("parse error".to_string()), "Parse failed"),
        (Error::Cache("cache error".to_string()), "Cache operation failed"),
        (Error::Auth("auth failed".to_string()), "Authentication failed"),
        (Error::Mcp("protocol error".to_string()), "MCP protocol error"),
        (Error::Other("unknown error".to_string()), "Unknown error"),
    ];

    for (err, expected_prefix) in variants {
        let msg = err.message();
        assert!(
            msg.contains(expected_prefix),
            "Error message '{}' should contain '{}'",
            msg,
            expected_prefix
        );
    }
}

#[test]
fn validation_error_messages() {
    assert_eq!(
        crates_docs::utils::validation::validate_crate_name("")
            .unwrap_err()
            .message(),
        "Unknown error: Crate name cannot be empty"
    );
    assert_eq!(
        crates_docs::utils::validation::validate_version("alpha")
            .unwrap_err()
            .message(),
        "Unknown error: Version must contain digits"
    );

    let mut config = crates_docs::config::AppConfig::default();
    config.server.transport_mode = "carrier-pigeon".to_string();
    assert_eq!(
        config.validate().unwrap_err().message(),
        "Configuration error: Invalid transport mode: carrier-pigeon, valid values: [\"stdio\", \"http\", \"sse\", \"hybrid\"]"
    );
}

#[test]
fn http_client_builder_settings() {
    let builder = HttpClientBuilder::new()
        .timeout(30)
        .connect_timeout(10)
        .pool_max_idle_per_host(20)
        .user_agent("TestClient/1.0".to_string())
        .enable_gzip(true)
        .enable_brotli(false);
    assert_eq!(builder.timeout_secs, 30);
    assert_eq!(builder.connect_timeout_secs, 10);
    assert_eq!(builder.pool_max_idle_per_host, 20);
    assert_eq!(builder.user_agent, "TestClient/1.0");
    assert!(builder.enable_gzip);
    assert!(!builder.enable_brotli);

    let default_builder = HttpClientBuilder::default();
    assert_eq!(default_builder.timeout_secs, 30);
    assert_eq!(default_builder.user_agent, "CratesDocsMCP/0.1.0");
}

#[test]
fn datetime_formatting_is_calendar_based() {
    assert_eq!(
        crates_docs::utils::time::format_datetime(0),
        "1970-01-01 00:00:00.000"
    );
    assert_eq!(
        crates_docs::utils::time::format_datetime(1_000),
        "1970-01-01 00:00:01.000"
    );
}

#[test]
fn user_agent_names_the_version() {
    assert_eq!(crates_docs::default_user_agent(), "CratesDocsMCP/0.1.0");
}

#[test]
fn transport_mode_round_trip() {
    for mode in [
        crates_docs::server::transport::TransportMode::Stdio,
        crates_docs::server::transport::TransportMode::Http,
        crates_docs::server::transport::TransportMode::Sse,
        crates_docs::server::transport::TransportMode::Hybrid,
    ] {
        let text = mode.as_str();
        assert_eq!(
            crates_docs::server::transport::TransportMode::from_str(text).unwrap(),
            mode
        );
    }
    let err = crates_docs::server::transport::TransportMode::from_str("carrier").unwrap_err();
    assert_eq!(err, "Unknown transport mode: carrier");
}
