//! HTTP server settings.

use vstd::prelude::*;

use crate::text;

verus! {

/// HTTP server configuration.
#[derive(Debug, Clone)]
pub struct ServerConfig {
    /// Host to bind to.
    pub host: String,
    /// Port to listen on.
    pub port: u16,
    /// Whether CORS is enabled.
    pub cors_enabled: bool,
    /// Allowed CORS origins (empty allows any origin).
    pub allowed_origins: Vec<String>,
    /// Graceful shutdown timeout in seconds.
    pub shutdown_timeout_secs: Option<u64>,
    /// Log format: `json` or `text`.
    pub log_format: String,
    /// Maximum request body size for audio uploads, in bytes.
    pub max_body_size_audio_bytes: usize,
    /// Maximum request body size for JSON requests, in bytes.
    pub max_body_size_json_bytes: usize,
}

/// Default host: the loopback address.
pub fn default_host() -> (s: String)
    ensures
        s@ == "127.0.0.1"@,
{
    text::owned("127.0.0.1")
}

/// Default port.
pub fn default_port() -> (p: u16)
    ensures
        p == 3000,
{
    3000
}

/// Default log format.
pub fn default_log_format() -> (s: String)
    ensures
        s@ == "text"@,
{
    text::owned("text")
}

/// Default body limit for audio uploads: 10 MiB.
pub fn default_max_body_audio() -> (n: usize)
    ensures
        n == 10 * 1024 * 1024,
{
    10 * 1024 * 1024
}

/// Default body limit for JSON requests: 1 MiB.
pub fn default_max_body_json() -> (n: usize)
    ensures
        n == 1024 * 1024,
{
    1024 * 1024
}

impl Default for ServerConfig {
    fn default() -> (c: Self)
        ensures
            c.host@ == "127.0.0.1"@,
            c.port == 3000,
            c.cors_enabled,
            c.allowed_origins@.len() == 0,
            c.shutdown_timeout_secs == Some(30u64),
            c.log_format@ == "text"@,
            c.max_body_size_audio_bytes == 10 * 1024 * 1024,
            c.max_body_size_json_bytes == 1024 * 1024,
    {
        ServerConfig {
            host: default_host(),
            port: default_port(),
            cors_enabled: true,
            allowed_origins: Vec::new(),
            shutdown_timeout_secs: Some(30),
            log_format: default_log_format(),
            max_body_size_audio_bytes: default_max_body_audio(),
            max_body_size_json_bytes: default_max_body_json(),
        }
    }
}

} // verus!
