//! Configuration module

use crate::cache::CacheConfig;
use crate::error::Error;
use crate::server::auth::{spec_oauth_error, spec_oauth_valid, OAuthConfig};
use crate::utils::string::str_eq;
use vstd::prelude::*;
use vstd::string::StrSliceExecFns;
use vstd::string::StringExecFns;

verus! {

/// Application configuration
pub struct AppConfig {
    /// Server configuration
    pub server: ServerConfig,
    /// Cache configuration
    pub cache: CacheConfig,
    /// OAuth configuration
    pub oauth: OAuthConfig,
    /// Logging configuration
    pub logging: LoggingConfig,
    /// Performance configuration
    pub performance: PerformanceConfig,
}

/// Server configuration
pub struct ServerConfig {
    /// Server name
    pub name: String,
    /// Server version
    pub version: String,
    /// Server description
    pub description: Option<String>,
    /// Host address
    pub host: String,
    /// Port
    pub port: u16,
    /// Transport mode
    pub transport_mode: String,
    /// Enable SSE support
    pub enable_sse: bool,
    /// Enable OAuth authentication
    pub enable_oauth: bool,
    /// Maximum concurrent connections
    pub max_connections: usize,
    /// Request timeout (seconds)
    pub request_timeout_secs: u64,
    /// Response timeout (seconds)
    pub response_timeout_secs: u64,
}

/// Logging configuration
pub struct LoggingConfig {
    /// Log level
    pub level: String,
    /// Log file path
    pub file_path: Option<String>,
    /// Whether to enable console logging
    pub enable_console: bool,
    /// Whether to enable file logging
    pub enable_file: bool,
    /// Maximum log file size (MB)
    pub max_file_size_mb: u64,
    /// Number of log files to retain
    pub max_files: usize,
}

/// Performance configuration
pub struct PerformanceConfig {
    /// HTTP client connection pool size
    pub http_client_pool_size: usize,
    /// Maximum cache size (number of entries)
    pub cache_max_size: usize,
    /// Default cache TTL (seconds)
    pub cache_default_ttl_secs: u64,
    /// Request rate limit (requests per second)
    pub rate_limit_per_second: u32,
    /// Concurrent request limit
    pub concurrent_request_limit: usize,
    /// Enable response compression
    pub enable_response_compression: bool,
}

impl Default for ServerConfig {
    fn default() -> (r: Self)
        ensures
            r.name@ == "crates-docs"@,
            r.version@ == crate::VERSION@,
            r.description matches Some(d) && d@
                == "High-performance Rust crate documentation query MCP server"@,
            r.host@ == "127.0.0.1"@,
            r.port == 8080,
            r.transport_mode@ == "hybrid"@,
            r.enable_sse,
            !r.enable_oauth,
            r.max_connections == 100,
            r.request_timeout_secs == 30,
            r.response_timeout_secs == 60,
    {
        ServerConfig {
            name: String::from_str("crates-docs"),
            version: String::from_str(crate::VERSION),
            description: Some(
                String::from_str("High-performance Rust crate documentation query MCP server"),
            ),
            host: String::from_str("127.0.0.1"),
            port: 8080,
            transport_mode: String::from_str("hybrid"),
            enable_sse: true,
            enable_oauth: false,
            max_connections: 100,
            request_timeout_secs: 30,
            response_timeout_secs: 60,
        }
    }
}

impl Default for LoggingConfig {
    fn default() -> (r: Self)
        ensures
            r.level@ == "info"@,
            r.file_path matches Some(p) && p@ == "./logs/crates-docs.log"@,
            r.enable_console,
            r.enable_file,
            r.max_file_size_mb == 100,
            r.max_files == 10,
    {
        LoggingConfig {
            level: String::from_str("info"),
            file_path: Some(String::from_str("./logs/crates-docs.log")),
            enable_console: true,
            enable_file: true,
            max_file_size_mb: 100,
            max_files: 10,
        }
    }
}

impl Default for PerformanceConfig {
    fn default() -> (r: Self)
        ensures
            r.http_client_pool_size == 10,
            r.cache_max_size == 1000,
            r.cache_default_ttl_secs == 3600,
            r.rate_limit_per_second == 100,
            r.concurrent_request_limit == 50,
            r.enable_response_compression,
    {
        PerformanceConfig {
            http_client_pool_size: 10,
            cache_max_size: 1000,
            cache_default_ttl_secs: 3600,
            rate_limit_per_second: 100,
            concurrent_request_limit: 50,
            enable_response_compression: true,
        }
    }
}

impl Default for AppConfig {
    fn default() -> (r: Self)
        ensures
            is_default_app_config(r),
            spec_app_config_valid(r),
    {
        let c = AppConfig {
            server: ServerConfig::default(),
            cache: CacheConfig::default(),
            oauth: OAuthConfig::default(),
            logging: LoggingConfig::default(),
            performance: PerformanceConfig::default(),
        };
        proof {
            reveal_strlit("127.0.0.1");
            reveal_strlit("hybrid");
            reveal_strlit("info");
        }
        c
    }
}

/// The default server configuration, field by field.
pub open spec fn is_default_server_config(s: ServerConfig) -> bool {
    s.name@ == "crates-docs"@ && s.version@ == crate::VERSION@ && (s.description matches Some(d)
        && d@ == "High-performance Rust crate documentation query MCP server"@) && s.host@
        == "127.0.0.1"@ && s.port == 8080 && s.transport_mode@ == "hybrid"@ && s.enable_sse
        && !s.enable_oauth && s.max_connections == 100 && s.request_timeout_secs == 30
        && s.response_timeout_secs == 60
}

/// The default logging configuration apart from the level.
pub open spec fn is_default_logging_rest(l: LoggingConfig) -> bool {
    (l.file_path matches Some(p) && p@ == "./logs/crates-docs.log"@) && l.enable_console
        && l.enable_file && l.max_file_size_mb == 100 && l.max_files == 10
}

/// The default logging configuration, field by field.
pub open spec fn is_default_logging_config(l: LoggingConfig) -> bool {
    l.level@ == "info"@ && is_default_logging_rest(l)
}

/// The default performance configuration, field by field.
pub open spec fn is_default_performance_config(p: PerformanceConfig) -> bool {
    p.http_client_pool_size == 10 && p.cache_max_size == 1000 && p.cache_default_ttl_secs == 3600
        && p.rate_limit_per_second == 100 && p.concurrent_request_limit == 50
        && p.enable_response_compression
}

/// The default cache configuration, field by field.
pub open spec fn is_default_cache_config(c: CacheConfig) -> bool {
    c.cache_type@ == "memory"@ && c.memory_size == Some(1000usize) && c.redis_url is None
        && c.default_ttl == Some(3600u64)
}

/// The default OAuth configuration: disabled, empty, with the three
/// standard scopes.
pub open spec fn is_default_oauth_config(c: OAuthConfig) -> bool {
    !c.enabled && c.client_id is None && c.client_secret is None && c.redirect_uri is None
        && c.authorization_endpoint is None && c.token_endpoint is None && c.scopes@.len() == 3
        && c.provider is Custom
}

/// The default application configuration, section by section.
pub open spec fn is_default_app_config(c: AppConfig) -> bool {
    is_default_server_config(c.server) && is_default_cache_config(c.cache)
        && is_default_oauth_config(c.oauth) && is_default_logging_config(c.logging)
        && is_default_performance_config(c.performance)
}

/// Whether a transport mode name is one of the recognized four.
pub open spec fn spec_valid_transport_mode(mode: Seq<char>) -> bool {
    mode == "stdio"@ || mode == "http"@ || mode == "sse"@ || mode == "hybrid"@
}

/// Whether a log level name is one of the recognized five.
pub open spec fn spec_valid_log_level(level: Seq<char>) -> bool {
    level == "trace"@ || level == "debug"@ || level == "info"@ || level == "warn"@ || level
        == "error"@
}

/// What validation demands of a whole application configuration.
pub open spec fn spec_app_config_valid(c: AppConfig) -> bool {
    c.server.host@.len() > 0 && c.server.port != 0 && c.server.max_connections != 0
        && spec_valid_transport_mode(c.server.transport_mode@) && spec_valid_log_level(
        c.logging.level@,
    ) && c.performance.http_client_pool_size != 0 && c.performance.cache_max_size != 0 && (
    !c.server.enable_oauth || spec_oauth_valid(c.oauth))
}

/// The message validation fails with, for the first check that does not
/// hold.
pub open spec fn spec_app_config_error(c: AppConfig) -> Seq<char> {
    if c.server.host@.len() == 0 {
        "Server host cannot be empty"@
    } else if c.server.port == 0 {
        "Server port cannot be 0"@
    } else if c.server.max_connections == 0 {
        "Maximum connections cannot be 0"@
    } else if !spec_valid_transport_mode(c.server.transport_mode@) {
        "Invalid transport mode: "@ + c.server.transport_mode@
            + ", valid values: [\"stdio\", \"http\", \"sse\", \"hybrid\"]"@
    } else if !spec_valid_log_level(c.logging.level@) {
        "Invalid log level: "@ + c.logging.level@
            + ", valid values: [\"trace\", \"debug\", \"info\", \"warn\", \"error\"]"@
    } else if c.performance.http_client_pool_size == 0 {
        "HTTP client connection pool size cannot be 0"@
    } else if c.performance.cache_max_size == 0 {
        "Maximum cache size cannot be 0"@
    } else {
        spec_oauth_error(c.oauth)
    }
}

impl AppConfig {
    /// Validate the configuration: host, port, connection and cache bounds,
    /// transport mode, log level, and — when OAuth is enabled — the OAuth
    /// configuration.
    pub fn validate(&self) -> (r: Result<(), Error>)
        ensures
            r is Ok <==> spec_app_config_valid(*self),
            (match r {
                Ok(_) => true,
                Err(e) => match e {
                    Error::Config(m) => m@ == spec_app_config_error(*self),
                    _ => false,
                },
            }),
    {
        if self.server.host.as_str().unicode_len() == 0 {
            return Err(Error::Config(String::from_str("Server host cannot be empty")));
        }
        if self.server.port == 0 {
            return Err(Error::Config(String::from_str("Server port cannot be 0")));
        }
        if self.server.max_connections == 0 {
            return Err(Error::Config(String::from_str("Maximum connections cannot be 0")));
        }
        let mode = self.server.transport_mode.as_str();
        if !(str_eq(mode, "stdio") || str_eq(mode, "http") || str_eq(mode, "sse") || str_eq(
            mode,
            "hybrid",
        )) {
            let mut m = String::from_str("Invalid transport mode: ");
            m.append(mode);
            m.append(", valid values: [\"stdio\", \"http\", \"sse\", \"hybrid\"]");
            return Err(Error::Config(m));
        }
        let level = self.logging.level.as_str();
        if !(str_eq(level, "trace") || str_eq(level, "debug") || str_eq(level, "info") || str_eq(
            level,
            "warn",
        ) || str_eq(level, "error")) {
            let mut m = String::from_str("Invalid log level: ");
            m.append(level);
            m.append(", valid values: [\"trace\", \"debug\", \"info\", \"warn\", \"error\"]");
            return Err(Error::Config(m));
        }
        if self.performance.http_client_pool_size == 0 {
            return Err(
                Error::Config(String::from_str("HTTP client connection pool size cannot be 0")),
            );
        }
        if self.performance.cache_max_size == 0 {
            return Err(Error::Config(String::from_str("Maximum cache size cannot be 0")));
        }
        if self.server.enable_oauth {
            match self.oauth.validate() {
                Ok(_) => {
                },
                Err(e) => {
                    return Err(e);
                },
            }
        }
        Ok(())
    }

    /// Merge configurations: the file's values stand in for the defaults,
    /// and the environment's name, host, port, transport mode and log
    /// level take precedence wherever they differ from the defaults.
    pub fn merge(file_config: Option<AppConfig>, env_config: Option<AppConfig>) -> (r: AppConfig)
        ensures
            (match (file_config, env_config) {
                (None, None) => is_default_app_config(r),
                (Some(f), None) => r == f,
                (Some(f), Some(env)) => r.server.name == (if env.server.name@ != "crates-docs"@ {
                    env.server.name
                } else {
                    f.server.name
                }) && r.server.host == (if env.server.host@ != "127.0.0.1"@ {
                    env.server.host
                } else {
                    f.server.host
                }) && r.server.port == (if env.server.port != 8080 {
                    env.server.port
                } else {
                    f.server.port
                }) && r.server.transport_mode == (if env.server.transport_mode@ != "hybrid"@ {
                    env.server.transport_mode
                } else {
                    f.server.transport_mode
                }) && r.logging.level == (if env.logging.level@ != "info"@ {
                    env.logging.level
                } else {
                    f.logging.level
                }) && r.server.version == f.server.version && r.server.description
                    == f.server.description && r.server.enable_sse == f.server.enable_sse
                    && r.server.enable_oauth == f.server.enable_oauth && r.server.max_connections
                    == f.server.max_connections && r.server.request_timeout_secs
                    == f.server.request_timeout_secs && r.server.response_timeout_secs
                    == f.server.response_timeout_secs && r.logging.file_path
                    == f.logging.file_path && r.logging.enable_console == f.logging.enable_console
                    && r.logging.enable_file == f.logging.enable_file && r.logging.max_file_size_mb
                    == f.logging.max_file_size_mb && r.logging.max_files == f.logging.max_files
                    && r.cache == f.cache && r.oauth == f.oauth && r.performance == f.performance,
                (None, Some(env)) => r.server.name@ == env.server.name@ && r.server.host@
                    == env.server.host@ && r.server.port == env.server.port
                    && r.server.transport_mode@ == env.server.transport_mode@ && r.logging.level@
                    == env.logging.level@ && r.server.version@ == crate::VERSION@
                    && is_default_logging_rest(r.logging) && is_default_cache_config(r.cache)
                    && is_default_oauth_config(r.oauth) && is_default_performance_config(
                    r.performance,
                ),
            }),
    {
        let mut config = match file_config {
            Some(f) => f,
            None => AppConfig::default(),
        };
        match env_config {
            Some(env) => {
                if !str_eq(env.server.name.as_str(), "crates-docs") {
                    config.server.name = env.server.name;
                }
                if !str_eq(env.server.host.as_str(), "127.0.0.1") {
                    config.server.host = env.server.host;
                }
                if env.server.port != 8080 {
                    config.server.port = env.server.port;
                }
                if !str_eq(env.server.transport_mode.as_str(), "hybrid") {
                    config.server.transport_mode = env.server.transport_mode;
                }
                if !str_eq(env.logging.level.as_str(), "info") {
                    config.logging.level = env.logging.level;
                }
            },
            None => {
            },
        }
        config
    }
}

} // verus!
