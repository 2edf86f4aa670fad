//! Unit tests

use core::str::FromStr;
use crates_docs::cache::{create_cache, CacheConfig};
use crates_docs::config::{AppConfig, LoggingConfig, PerformanceConfig, ServerConfig};
use crates_docs::error::Error;
use crates_docs::server::auth::{OAuthConfig, OAuthProvider, TokenInfo, TokenStore};
use crates_docs::server::transport::TransportMode;
use crates_docs::tools::docs::cache as doc_cache;
use crates_docs::tools::docs::lookup::{LookupCrateTool, LookupItemTool};
use crates_docs::tools::docs::search::SearchCratesTool;
use crates_docs::tools::health::HealthCheckTool;
use crates_docs::utils::compression;
use crates_docs::utils::metrics::PerformanceCounter;
use crates_docs::utils::string;
use crates_docs::utils::time;
use crates_docs::utils::validation;

#[test]
fn test_clean_html_removes_script_tags() {
    let html =
        r#"<html><head><script>alert('test');</script></head><body><p>Hello</p></body></html>"#;
    assert!(html.contains("<script>"));
    assert!(html.contains("Hello"));
}

#[test]
fn test_clean_html_removes_style_tags() {
    let html = r#"<html><head><style>.test { color: red; }</style></head><body><p>World</p></body></html>"#;
    assert!(html.contains("<style>"));
    assert!(html.contains("World"));
}

#[test]
fn test_clean_html_removes_noscript_tags() {
    let html = r#"<html><body><noscript>Enable JavaScript</noscript><p>Content</p></body></html>"#;
    assert!(html.contains("<noscript>"));
    assert!(html.contains("Content"));
}

#[test]
fn test_html_entity_decoding() {
    let entities: [(&str, &str); 5] = [
        ("&lt;", "<"),
        ("&gt;", ">"),
        ("&amp;", "&"),
        ("&quot;", "\""),
        ("&apos;", "'"),
    ];
    for (entity, expected) in entities {
        assert!(!entity.is_empty(), "Entity should not be empty");
        assert!(!expected.is_empty(), "Expected value should not be empty");
    }
}

#[test]
fn test_config_validation_empty_host() {
    let mut config = AppConfig::default();
    config.server.host = "".to_string();
    let result = config.validate();
    assert!(result.is_err());
    assert!(result.unwrap_err().message().contains("Server host"));
}

#[test]
fn test_config_validation_zero_port() {
    let mut config = AppConfig::default();
    config.server.port = 0;
    let result = config.validate();
    assert!(result.is_err());
}

#[test]
fn test_config_validation_invalid_transport_mode() {
    let mut config = AppConfig::default();
    config.server.transport_mode = "invalid".to_string();
    let result = config.validate();
    assert!(result.is_err());
    assert!(result.unwrap_err().message().contains("Invalid transport mode"));
}

#[test]
fn test_config_validation_invalid_log_level() {
    let mut config = AppConfig::default();
    config.logging.level = "invalid".to_string();
    let result = config.validate();
    assert!(result.is_err());
    assert!(result.unwrap_err().message().contains("Invalid log level"));
}

#[test]
fn test_config_validation_zero_max_connections() {
    let mut config = AppConfig::default();
    config.server.max_connections = 0;
    let result = config.validate();
    assert!(result.is_err());
}

#[test]
fn test_config_validation_zero_pool_size() {
    let mut config = AppConfig::default();
    config.performance.http_client_pool_size = 0;
    let result = config.validate();
    assert!(result.is_err());
}

#[test]
fn test_config_validation_zero_cache_size() {
    let mut config = AppConfig::default();
    config.performance.cache_max_size = 0;
    let result = config.validate();
    assert!(result.is_err());
}

#[test]
fn test_oauth_config_validation_missing_client_id() {
    let config = OAuthConfig {
        enabled: true,
        client_id: None,
        client_secret: Some("secret".to_string()),
        redirect_uri: Some("http://localhost/callback".to_string()),
        authorization_endpoint: Some("https://example.com/auth".to_string()),
        token_endpoint: Some("https://example.com/token".to_string()),
        scopes: vec!["read".to_string()],
        provider: OAuthProvider::Custom,
    };

    let result = config.validate();
    assert!(result.is_err());
}

#[test]
fn test_oauth_config_validation_missing_client_secret() {
    let config = OAuthConfig {
        enabled: true,
        client_id: Some("client_id".to_string()),
        client_secret: None,
        redirect_uri: Some("http://localhost/callback".to_string()),
        authorization_endpoint: Some("https://example.com/auth".to_string()),
        token_endpoint: Some("https://example.com/token".to_string()),
        scopes: vec!["read".to_string()],
        provider: OAuthProvider::Custom,
    };

    let result = config.validate();
    assert!(result.is_err());
}

#[test]
fn test_oauth_config_validation_disabled() {
    let config = OAuthConfig {
        enabled: false,
        client_id: None,
        client_secret: None,
        redirect_uri: None,
        authorization_endpoint: None,
        token_endpoint: None,
        scopes: vec![],
        provider: OAuthProvider::Custom,
    };

    let result = config.validate();
    assert!(result.is_ok());
}

#[test]
fn test_error_display() {
    let error = Error::Config("test config error".to_string());
    assert!(error.message().contains("Configuration error"));
    assert!(error.message().contains("test config error"));

    let error = Error::Initialization("test init error".to_string());
    assert!(error.message().contains("Initialization failed"));

    let error = Error::HttpRequest("test http error".to_string());
    assert!(error.message().contains("HTTP request failed"));
}

#[test]
fn test_lookup_crate_tool_params() {
    let params = LookupCrateTool {
        crate_name: "serde".to_string(),
        version: Some("1.0.0".to_string()),
        format: Some("markdown".to_string()),
    };

    assert_eq!(params.crate_name, "serde");
    assert_eq!(params.version, Some("1.0.0".to_string()));
    assert_eq!(params.format, Some("markdown".to_string()));
}

#[test]
fn test_lookup_item_tool_params() {
    let params = LookupItemTool {
        crate_name: "serde".to_string(),
        item_path: "serde::Serialize".to_string(),
        version: None,
        format: Some("text".to_string()),
    };

    assert_eq!(params.crate_name, "serde");
    assert_eq!(params.item_path, "serde::Serialize");
    assert!(params.version.is_none());
    assert_eq!(params.format, Some("text".to_string()));
}

#[test]
fn test_search_crates_tool_params() {
    let params = SearchCratesTool {
        query: "web framework".to_string(),
        limit: Some(20),
        format: Some("json".to_string()),
    };

    assert_eq!(params.query, "web framework");
    assert_eq!(params.limit, Some(20));
    assert_eq!(params.format, Some("json".to_string()));
}

#[test]
fn test_health_check_tool_params() {
    let params = HealthCheckTool {
        check_type: Some("external".to_string()),
        verbose: Some(true),
    };

    assert_eq!(params.check_type, Some("external".to_string()));
    assert_eq!(params.verbose, Some(true));
}

#[test]
fn test_string_truncate_edge_cases() {
    let truncated = string::truncate_with_ellipsis("", 10);
    assert_eq!(truncated, "");

    let truncated = string::truncate_with_ellipsis("a", 10);
    assert_eq!(truncated, "a");

    let truncated = string::truncate_with_ellipsis("test", 0);
    assert_eq!(truncated, "...");

    let truncated = string::truncate_with_ellipsis("test", 1);
    assert_eq!(truncated, "...");

    let truncated = string::truncate_with_ellipsis("test", 2);
    assert_eq!(truncated, "...");

    let truncated = string::truncate_with_ellipsis("test", 3);
    assert_eq!(truncated, "...");

    let truncated = string::truncate_with_ellipsis("test", 4);
    assert_eq!(truncated, "test");

    let truncated = string::truncate_with_ellipsis("tests", 4);
    assert_eq!(truncated, "t...");
}

#[test]
fn test_string_is_blank() {
    assert!(string::is_blank(""));
    assert!(string::is_blank(" "));
    assert!(string::is_blank("  "));
    assert!(string::is_blank("\t"));
    assert!(string::is_blank("\n"));
    assert!(string::is_blank("\r\n"));
    assert!(string::is_blank(" \t \n "));

    assert!(!string::is_blank("a"));
    assert!(!string::is_blank(" a "));
    assert!(!string::is_blank("test"));
}

#[test]
fn test_parse_number() {
    assert_eq!(string::parse_number::<i32>("42", 0), 42);
    assert_eq!(string::parse_number::<i32>("-10", 0), -10);
    assert_eq!(string::parse_number::<i32>("invalid", 100), 100);
    assert_eq!(string::parse_number::<f64>("1.5", 0.0), 1.5);
    assert_eq!(string::parse_number::<f64>("invalid", 1.0), 1.0);
}

#[test]
fn test_validate_crate_name_edge_cases() {
    assert!(validation::validate_crate_name("a").is_ok());
    assert!(validation::validate_crate_name("serde").is_ok());
    assert!(validation::validate_crate_name("serde-json").is_ok());
    assert!(validation::validate_crate_name("serde_json").is_ok());
    assert!(validation::validate_crate_name("tokio1").is_ok());
    assert!(validation::validate_crate_name("test123").is_ok());

    assert!(validation::validate_crate_name("").is_err());
    assert!(validation::validate_crate_name("serde json").is_err());
    assert!(validation::validate_crate_name("serde.json").is_err());
    assert!(validation::validate_crate_name("serde/ json").is_err());

    let long_name = "a".repeat(101);
    assert!(validation::validate_crate_name(&long_name).is_err());
}

#[test]
fn test_validate_version_edge_cases() {
    assert!(validation::validate_version("1").is_ok());
    assert!(validation::validate_version("1.0").is_ok());
    assert!(validation::validate_version("1.0.0").is_ok());
    assert!(validation::validate_version("0.1.0").is_ok());
    assert!(validation::validate_version("1.0.0-alpha").is_ok());
    assert!(validation::validate_version("1.0.0-alpha.1").is_ok());
    assert!(validation::validate_version("1.0.0-beta.2").is_ok());

    assert!(validation::validate_version("").is_err());
    assert!(validation::validate_version("alpha").is_err());
    assert!(validation::validate_version("-").is_err());

    let long_version = "1".repeat(51);
    assert!(validation::validate_version(&long_version).is_err());
}

#[test]
fn test_validate_search_query_edge_cases() {
    assert!(validation::validate_search_query("a").is_ok());
    assert!(validation::validate_search_query("serde").is_ok());
    assert!(validation::validate_search_query("web framework").is_ok());
    let max_query = "a".repeat(200);
    assert!(validation::validate_search_query(&max_query).is_ok());

    assert!(validation::validate_search_query("").is_err());
    let long_query = "a".repeat(201);
    assert!(validation::validate_search_query(&long_query).is_err());
}

#[test]
fn test_transport_mode_from_str() {
    let modes = [
        ("stdio", TransportMode::Stdio),
        ("http", TransportMode::Http),
        ("sse", TransportMode::Sse),
        ("hybrid", TransportMode::Hybrid),
        ("STDIO", TransportMode::Stdio),
        ("HTTP", TransportMode::Http),
        ("SSE", TransportMode::Sse),
        ("HYBRID", TransportMode::Hybrid),
    ];

    for (input, expected) in modes {
        let result = TransportMode::from_str(input);
        assert!(result.is_ok());
        assert_eq!(result.unwrap(), expected);
    }

    let result = TransportMode::from_str("invalid");
    assert!(result.is_err());
}

#[test]
fn test_transport_mode_display() {
    let modes = [
        (TransportMode::Stdio, "stdio"),
        (TransportMode::Http, "http"),
        (TransportMode::Sse, "sse"),
        (TransportMode::Hybrid, "hybrid"),
    ];

    for (mode, expected) in modes {
        assert_eq!(mode.as_str(), expected);
    }
}

#[test]
fn test_create_cache_unsupported_type() {
    let config = CacheConfig {
        cache_type: "unsupported".to_string(),
        memory_size: Some(100),
        default_ttl: Some(3600),
        redis_url: None,
    };

    let result = create_cache(&config);
    assert!(result.is_err());
    if let Err(err) = result {
        assert!(err.message().contains("unsupported cache type"));
    }
}

#[test]
fn test_create_cache_redis_sync_error() {
    let config = CacheConfig {
        cache_type: "redis".to_string(),
        memory_size: Some(100),
        default_ttl: Some(3600),
        redis_url: Some("redis://localhost:6379".to_string()),
    };

    let result = create_cache(&config);
    assert!(result.is_err());
}

#[test]
fn test_config_merge() {
    let merged = AppConfig::merge(None, None);
    assert_eq!(merged.server.host, "127.0.0.1");

    let file_config = AppConfig::default();
    let merged = AppConfig::merge(Some(file_config), None);
    assert_eq!(merged.server.host, "127.0.0.1");
}

#[test]
fn test_app_config_default() {
    let config = AppConfig::default();
    assert_eq!(config.server.host, "127.0.0.1");
    assert_eq!(config.server.port, 8080);
    assert_eq!(config.server.transport_mode, "hybrid");
    assert_eq!(config.cache.cache_type, "memory");
}

#[test]
fn test_oauth_config_github() {
    let config = OAuthConfig::github(
        "client_id".to_string(),
        "client_secret".to_string(),
        "http://localhost/callback".to_string(),
    );

    assert!(config.enabled);
    assert!(config.validate().is_ok());
}

#[test]
fn test_oauth_config_google() {
    let config = OAuthConfig::google(
        "client_id".to_string(),
        "client_secret".to_string(),
        "http://localhost/callback".to_string(),
    );

    assert!(config.enabled);
    assert!(config.validate().is_ok());
}

#[test]
fn test_oauth_config_keycloak() {
    let config = OAuthConfig::keycloak(
        "client_id".to_string(),
        "client_secret".to_string(),
        "http://localhost/callback".to_string(),
        "http://keycloak:8080",
        "test",
    );

    assert!(config.enabled);
    assert!(config.validate().is_ok());
}

#[test]
fn test_oauth_config_disabled_validation() {
    let config = OAuthConfig {
        enabled: false,
        ..Default::default()
    };

    assert!(config.validate().is_ok());
}

#[test]
fn test_server_config_default() {
    let config = ServerConfig::default();
    assert_eq!(config.host, "127.0.0.1");
    assert_eq!(config.port, 8080);
}

#[test]
fn test_logging_config_default() {
    let config = LoggingConfig::default();
    assert!(config.enable_console);
    assert!(config.enable_file);
    assert_eq!(config.level, "info");
}

#[test]
fn test_performance_config_default() {
    let config = PerformanceConfig::default();
    assert!(config.http_client_pool_size > 0);
    assert!(config.cache_max_size > 0);
}

#[test]
fn test_gzip_compression() {
    let original = b"Hello, World! This is a test message for gzip compression.";

    let compressed = compression::gzip_compress(original);
    assert!(compressed.is_ok());
    let compressed = compressed.unwrap();
    assert!(!compressed.is_empty());

    let decompressed = compression::gzip_decompress(&compressed);
    assert!(decompressed.is_ok());
    let decompressed = decompressed.unwrap();
    assert_eq!(decompressed.as_slice(), original);
}

#[test]
fn test_gzip_empty_data() {
    let empty: &[u8] = &[];

    let compressed = compression::gzip_compress(empty);
    assert!(compressed.is_ok());

    let _decompressed = compression::gzip_decompress(empty);
}

#[test]
fn test_current_timestamp_ms() {
    let ts = time::current_timestamp_ms();
    assert!(ts > 0);

    let ts2 = time::current_timestamp_ms();
    assert!(ts2 >= ts);
}

#[test]
fn test_format_datetime() {
    let now = chrono::Utc::now();
    let formatted = time::format_datetime(now.timestamp_millis());
    assert!(!formatted.is_empty());
    assert!(formatted.contains('-'));
    assert!(formatted.contains(':'));
}

#[test]
fn test_performance_counter_reset() {
    let mut counter = PerformanceCounter::new();

    for i in 0..10 {
        let start = counter.record_request_start();
        counter.record_request_complete(start, i % 2 == 0);
    }

    let stats = counter.get_stats();
    assert_eq!(stats.total_requests, 10);

    counter.reset();

    let stats = counter.get_stats();
    assert_eq!(stats.total_requests, 0);
    assert_eq!(stats.successful_requests, 0);
    assert_eq!(stats.failed_requests, 0);
}

#[test]
fn test_token_store_operations() {
    let mut store = TokenStore::new();
    let now_ms = chrono::Utc::now().timestamp_millis();
    let token_info = TokenInfo {
        access_token: "test_access_token".to_string(),
        refresh_token: Some("test_refresh_token".to_string()),
        expires_at_ms: now_ms + 3_600_000,
        scopes: vec!["read".to_string()],
        user_id: Some("user123".to_string()),
        user_email: Some("user@example.com".to_string()),
    };

    store.store_token("user1".to_string(), token_info);

    let retrieved = store.get_token("user1");
    assert!(retrieved.is_some());
    let retrieved = retrieved.unwrap();
    assert_eq!(retrieved.access_token, "test_access_token");

    store.remove_token("user1");
    assert!(store.get_token("user1").is_none());
}

#[test]
fn test_token_store_cleanup() {
    let mut store = TokenStore::new();
    let now_ms = chrono::Utc::now().timestamp_millis();

    let expired_token = TokenInfo {
        access_token: "expired_token".to_string(),
        refresh_token: None,
        expires_at_ms: now_ms - 1_000,
        scopes: vec![],
        user_id: None,
        user_email: None,
    };
    store.store_token("expired_user".to_string(), expired_token);

    let valid_token = TokenInfo {
        access_token: "valid_token".to_string(),
        refresh_token: None,
        expires_at_ms: now_ms + 3_600_000,
        scopes: vec![],
        user_id: None,
        user_email: None,
    };
    store.store_token("valid_user".to_string(), valid_token);

    store.cleanup_expired(now_ms);

    assert!(store.get_token("expired_user").is_none());
    assert!(store.get_token("valid_user").is_some());
}

#[test]
fn test_version_constant() {
    let version = crates_docs::VERSION;
    assert!(!version.is_empty());
    assert!(version.contains('.'));
}

#[test]
fn test_name_constant() {
    let name = crates_docs::NAME;
    assert_eq!(name, "crates-docs");
}

#[test]
fn test_cache_key_generation() {
    assert_eq!(doc_cache::crate_cache_key("serde", None), "crate:serde");
    assert_eq!(
        doc_cache::crate_cache_key("serde", Some("1.0")),
        "crate:serde:1.0"
    );

    assert_eq!(
        doc_cache::search_cache_key("web framework", 10),
        "search:web framework:10"
    );

    assert_eq!(
        doc_cache::item_cache_key("serde", "Serialize", None),
        "item:serde:Serialize"
    );
    assert_eq!(
        doc_cache::item_cache_key("serde", "Serialize", Some("1.0")),
        "item:serde:1.0:Serialize"
    );
}
