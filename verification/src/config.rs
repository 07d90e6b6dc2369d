//! Basic proxy configuration as structured values, with its
//! validation rules.  Durations are carried as whole seconds.

use vstd::prelude::*;
use vstd::string::StringExecFns;

verus! {

/// Server configuration.
#[derive(Debug, Clone)]
pub struct ServerConfig {
    /// Listen address
    pub listen_address: String,
    /// Number of worker threads
    pub worker_threads: usize,
    /// Graceful shutdown timeout, in seconds
    pub shutdown_timeout_secs: u64,
}

/// Upstream configuration.
#[derive(Debug, Clone)]
pub struct UpstreamConfig {
    /// Upstream address
    pub address: String,
    /// Use TLS
    pub tls: bool,
    /// SNI hostname
    pub sni: Option<String>,
    /// Connect timeout, in seconds
    pub connect_timeout_secs: u64,
    /// Read timeout, in seconds
    pub read_timeout_secs: u64,
    /// Write timeout, in seconds
    pub write_timeout_secs: u64,
}

/// Request limits.
#[derive(Debug, Clone, Copy, PartialEq, Eq, Structural)]
pub struct LimitsConfig {
    /// Maximum header count
    pub max_header_count: usize,
    /// Maximum header size
    pub max_header_size: usize,
    /// Maximum body size
    pub max_body_size: usize,
    /// Maximum concurrent connections
    pub max_connections: usize,
}

/// Basic configuration.
#[derive(Debug, Clone)]
pub struct Config {
    /// Server configuration
    pub server: ServerConfig,
    /// Default upstream
    pub default_upstream: UpstreamConfig,
    /// Limits
    pub limits: LimitsConfig,
}

impl Default for Config {
    /// Listen on every interface at port 8080 with four workers, a
    /// local default upstream without TLS, and 10 MiB bodies.
    fn default() -> (c: Config)
        ensures
            c.server.listen_address@ == "0.0.0.0:8080"@,
            c.server.worker_threads == 4,
            c.server.shutdown_timeout_secs == 30,
            c.default_upstream.address@ == "127.0.0.1:8081"@,
            !c.default_upstream.tls,
            c.default_upstream.sni is None,
            c.default_upstream.connect_timeout_secs == 10,
            c.default_upstream.read_timeout_secs == 30,
            c.default_upstream.write_timeout_secs == 30,
            c.limits.max_header_count == 100,
            c.limits.max_header_size == 8192,
            c.limits.max_body_size == 10 * 1024 * 1024,
            c.limits.max_connections == 10000,
    {
        Config {
            server: ServerConfig {
                listen_address: String::from_str("0.0.0.0:8080"),
                worker_threads: 4,
                shutdown_timeout_secs: 30,
            },
            default_upstream: UpstreamConfig {
                address: String::from_str("127.0.0.1:8081"),
                tls: false,
                sni: None,
                connect_timeout_secs: 10,
                read_timeout_secs: 30,
                write_timeout_secs: 30,
            },
            limits: LimitsConfig {
                max_header_count: 100,
                max_header_size: 8192,
                max_body_size: 10 * 1024 * 1024,
                max_connections: 10000,
            },
        }
    }
}

impl Config {
    /// Validate the configuration: worker threads and the header
    /// limits must be positive; the first violation is reported.
    pub fn validate(&self) -> (r: Result<(), String>)
        ensures
            self.server.worker_threads == 0 ==> (r matches Err(m)
                && m@ == "Worker threads must be > 0"@),
            self.server.worker_threads > 0 && self.limits.max_header_count == 0
                ==> (r matches Err(m) && m@ == "Max header count must be > 0"@),
            self.server.worker_threads > 0 && self.limits.max_header_count > 0
                && self.limits.max_header_size == 0
                ==> (r matches Err(m) && m@ == "Max header size must be > 0"@),
            self.server.worker_threads > 0 && self.limits.max_header_count > 0
                && self.limits.max_header_size > 0 ==> r is Ok,
    {
        if self.server.worker_threads == 0 {
            return Err(String::from_str("Worker threads must be > 0"));
        }
        if self.limits.max_header_count == 0 {
            return Err(String::from_str("Max header count must be > 0"));
        }
        if self.limits.max_header_size == 0 {
            return Err(String::from_str("Max header size must be > 0"));
        }
        Ok(())
    }
}

} // verus!
