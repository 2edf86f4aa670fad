//! Utility functions module

pub mod compression;
pub mod metrics;
pub mod string;
pub mod time;
pub mod validation;

use vstd::prelude::*;

verus! {

/// HTTP client settings, gathered with a builder.
///
/// The crate only decides the settings here; constructing the actual client
/// from them is left to the caller, since that is where the I/O lives.
pub struct HttpClientBuilder {
    /// Request timeout in seconds
    pub timeout_secs: u64,
    /// Connection timeout in seconds
    pub connect_timeout_secs: u64,
    /// Connection pool size per host
    pub pool_max_idle_per_host: usize,
    /// User-Agent header value
    pub user_agent: String,
    /// Whether Gzip decompression is enabled
    pub enable_gzip: bool,
    /// Whether Brotli decompression is enabled
    pub enable_brotli: bool,
}

impl HttpClientBuilder {
    /// Create a new HTTP client builder with the default settings.
    pub fn new() -> (r: Self)
        ensures
            r.timeout_secs == 30,
            r.connect_timeout_secs == 10,
            r.pool_max_idle_per_host == 10,
            r.enable_gzip,
            r.enable_brotli,
    {
        HttpClientBuilder {
            timeout_secs: 30,
            connect_timeout_secs: 10,
            pool_max_idle_per_host: 10,
            user_agent: crate::default_user_agent(),
            enable_gzip: true,
            enable_brotli: true,
        }
    }

    /// Set the request timeout (seconds).
    pub fn timeout(self, timeout_secs: u64) -> (r: Self)
        ensures
            r == (Self { timeout_secs, ..self }),
    {
        Self { timeout_secs, ..self }
    }

    /// Set the connection timeout (seconds).
    pub fn connect_timeout(self, connect_timeout_secs: u64) -> (r: Self)
        ensures
            r == (Self { connect_timeout_secs, ..self }),
    {
        Self { connect_timeout_secs, ..self }
    }

    /// Set the connection pool size.
    pub fn pool_max_idle_per_host(self, max_idle: usize) -> (r: Self)
        ensures
            r == (Self { pool_max_idle_per_host: max_idle, ..self }),
    {
        Self { pool_max_idle_per_host: max_idle, ..self }
    }

    /// Set the User-Agent.
    pub fn user_agent(self, user_agent: String) -> (r: Self)
        ensures
            r == (Self { user_agent, ..self }),
    {
        Self { user_agent, ..self }
    }

    /// Enable or disable Gzip decompression.
    pub fn enable_gzip(self, enable: bool) -> (r: Self)
        ensures
            r == (Self { enable_gzip: enable, ..self }),
    {
        Self { enable_gzip: enable, ..self }
    }

    /// Enable or disable Brotli decompression.
    pub fn enable_brotli(self, enable: bool) -> (r: Self)
        ensures
            r == (Self { enable_brotli: enable, ..self }),
    {
        Self { enable_brotli: enable, ..self }
    }
}

impl Default for HttpClientBuilder {
    fn default() -> (r: Self)
        ensures
            r.timeout_secs == 30,
            r.connect_timeout_secs == 10,
            r.pool_max_idle_per_host == 10,
            r.enable_gzip,
            r.enable_brotli,
    {
        Self::new()
    }
}

} // verus!
