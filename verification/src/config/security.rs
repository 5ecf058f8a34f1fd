//! Security settings: API keys, rate limiting, TLS and prompt-injection
//! defence.

use vstd::prelude::*;

use crate::api_key_hasher;
use crate::text;

verus! {

/// An API key entry: the Argon2 hash of the key and the user it belongs to.
#[derive(Debug, Clone)]
pub struct ApiKeyEntry {
    /// Argon2id hash of the key (PHC string).
    pub hash: String,
    /// User id the key maps to.
    pub user_id: String,
}

/// Security configuration.
#[derive(Debug, Clone)]
pub struct SecurityConfig {
    /// Phone numbers allowed to send messages (empty allows all).
    pub whitelisted_phones: Vec<String>,
    /// API keys with their users.
    pub api_keys: Vec<ApiKeyEntry>,
    /// Addresses of reverse proxies whose `X-Forwarded-For` is trusted, as text.
    pub trusted_proxies: Vec<String>,
    /// Whether rate limiting is enabled.
    pub rate_limit_enabled: bool,
    /// Requests per minute per client.
    pub rate_limit_rpm: u32,
    /// Interval between rate-limiter cleanups, in seconds.
    pub rate_limit_cleanup_interval_secs: u64,
    /// Age after which idle rate-limiter entries are dropped, in seconds.
    pub rate_limit_cleanup_max_age_secs: u64,
    /// Whether TLS certificates of outbound connections are verified.
    pub tls_verify_certs: bool,
    /// Timeout of outbound connections, in seconds.
    pub connection_timeout_secs: u64,
    /// Minimum TLS version.
    pub min_tls_version: String,
}

/// Default rate limit, requests per minute.
pub fn default_rate_limit() -> (n: u32)
    ensures
        n == 60,
{
    60
}

/// Default rate-limiter cleanup interval: 5 minutes.
pub fn default_cleanup_interval() -> (n: u64)
    ensures
        n == 300,
{
    300
}

/// Default age of rate-limiter entries before cleanup: 10 minutes.
pub fn default_cleanup_max_age() -> (n: u64)
    ensures
        n == 600,
{
    600
}

/// Default timeout of outbound connections, in seconds.
pub fn default_connection_timeout() -> (n: u64)
    ensures
        n == 30,
{
    30
}

/// Default minimum TLS version.
pub fn default_min_tls_version() -> (s: String)
    ensures
        s@ == "1.2"@,
{
    text::owned("1.2")
}

impl Default for SecurityConfig {
    fn default() -> (c: Self)
        ensures
            c.whitelisted_phones@.len() == 0,
            c.api_keys@.len() == 0,
            c.trusted_proxies@.len() == 0,
            c.rate_limit_enabled,
            c.rate_limit_rpm == 60,
            c.rate_limit_cleanup_interval_secs == 300,
            c.rate_limit_cleanup_max_age_secs == 600,
            c.tls_verify_certs,
            c.connection_timeout_secs == 30,
            c.min_tls_version@ == "1.2"@,
    {
        SecurityConfig {
            whitelisted_phones: Vec::new(),
            api_keys: Vec::new(),
            trusted_proxies: Vec::new(),
            rate_limit_enabled: true,
            rate_limit_rpm: default_rate_limit(),
            rate_limit_cleanup_interval_secs: default_cleanup_interval(),
            rate_limit_cleanup_max_age_secs: default_cleanup_max_age(),
            tls_verify_certs: true,
            connection_timeout_secs: default_connection_timeout(),
            min_tls_version: default_min_tls_version(),
        }
    }
}

/// The stored hashes of a list of key entries.
pub open spec fn entry_hashes(keys: Seq<ApiKeyEntry>) -> Seq<Seq<char>> {
    keys.map_values(|e: ApiKeyEntry| e.hash@)
}

impl SecurityConfig {
    /// Number of API keys stored in plaintext (not starting with `$argon2`).
    pub fn count_plaintext_keys(&self) -> (n: usize)
        ensures
            n == api_key_hasher::plaintext_count(entry_hashes(self.api_keys@)),
    {
        let ghost hashes = entry_hashes(self.api_keys@);
        let mut count: usize = 0;
        let mut i: usize = 0;
        while i < self.api_keys.len()
            invariant
                i <= self.api_keys@.len(),
                hashes == entry_hashes(self.api_keys@),
                count == api_key_hasher::plaintext_count(hashes.take(i as int)),
                count <= i,
            decreases self.api_keys@.len() - i,
        {
            let hashed = text::starts_with(self.api_keys[i].hash.as_str(), "$argon2");
            proof {
                assert(hashes.take(i + 1).drop_last() =~= hashes.take(i as int));
                assert(hashes.take(i + 1).last() == self.api_keys@[i as int].hash@);
            }
            if !hashed {
                count = count + 1;
            }
            i = i + 1;
        }
        proof {
            assert(hashes.take(i as int) =~= hashes);
        }
        count
    }

    /// Whether any API keys are configured.
    pub fn has_api_keys(&self) -> (r: bool)
        ensures
            r == (self.api_keys@.len() > 0),
    {
        self.api_keys.len() > 0
    }
}

/// Sensitivity of prompt-injection detection.
#[derive(Debug, Clone, Copy, PartialEq, Eq, Structural)]
pub enum SecuritySensitivity {
    /// Only obvious attacks are flagged.
    Low,
    /// Balanced detection.
    Medium,
    /// Aggressive detection.
    High,
}

/// Thresholds of the suspicious-activity tracker.
#[derive(Debug, Clone, Copy, PartialEq, Eq, Structural)]
pub struct SuspiciousActivityConfig {
    /// Violations within the window before an address is blocked.
    pub max_violations_before_block: u32,
    /// Length of the window in which violations are counted, in seconds.
    pub violation_window_secs: u64,
    /// How long a block lasts, in seconds.
    pub block_duration_secs: u64,
    /// Whether a single critical violation blocks at once.
    pub auto_block_on_critical: bool,
}

/// Prompt-injection defence configuration.
#[derive(Debug, Clone)]
pub struct PromptSecurityConfig {
    /// Whether prompt security analysis is enabled.
    pub enabled: bool,
    /// Sensitivity: `low`, `medium` or `high`.
    pub sensitivity: String,
    /// Whether requests with detected threats are blocked.
    pub block_on_detection: bool,
    /// Violations before an address is blocked.
    pub max_violations_before_block: u32,
    /// Window in which violations are counted, in seconds.
    pub violation_window_secs: u64,
    /// How long a block lasts, in seconds.
    pub block_duration_secs: u64,
    /// Whether critical threats block at once.
    pub auto_block_on_critical: bool,
    /// Additional patterns to detect.
    pub custom_patterns: Vec<String>,
}

/// Default sensitivity.
pub fn default_sensitivity() -> (s: String)
    ensures
        s@ == "medium"@,
{
    text::owned("medium")
}

/// Default number of violations before a block.
pub fn default_max_violations() -> (n: u32)
    ensures
        n == 3,
{
    3
}

/// Default violation window: 1 hour.
pub fn default_violation_window() -> (n: u64)
    ensures
        n == 3600,
{
    3600
}

/// Default block duration: 24 hours.
pub fn default_block_duration() -> (n: u64)
    ensures
        n == 86400,
{
    86400
}

impl Default for PromptSecurityConfig {
    fn default() -> (c: Self)
        ensures
            c.enabled,
            c.sensitivity@ == "medium"@,
            c.block_on_detection,
            c.max_violations_before_block == 3,
            c.violation_window_secs == 3600,
            c.block_duration_secs == 86400,
            c.auto_block_on_critical,
            c.custom_patterns@.len() == 0,
    {
        PromptSecurityConfig {
            enabled: true,
            sensitivity: default_sensitivity(),
            block_on_detection: true,
            max_violations_before_block: default_max_violations(),
            violation_window_secs: default_violation_window(),
            block_duration_secs: default_block_duration(),
            auto_block_on_critical: true,
            custom_patterns: Vec::new(),
        }
    }
}

/// The sensitivity that an already lowercased name stands for; anything
/// other than `low` and `high` is medium.
pub open spec fn sensitivity_named(lower: Seq<char>) -> SecuritySensitivity {
    if lower == "low"@ {
        SecuritySensitivity::Low
    } else if lower == "high"@ {
        SecuritySensitivity::High
    } else {
        SecuritySensitivity::Medium
    }
}

impl PromptSecurityConfig {
    /// The sensitivity level named by `sensitivity`, ignoring case.
    pub fn sensitivity_level(&self) -> (s: SecuritySensitivity)
        ensures
            s == sensitivity_named(text::unicode_lowercase(self.sensitivity@)),
            text::all_ascii(self.sensitivity@) ==> s == sensitivity_named(
                self.sensitivity@.map_values(|c: char| text::ascii_lower_char(c)),
            ),
    {
        let lower = text::to_lowercase(self.sensitivity.as_str());
        let l = lower.as_str();
        proof {
            reveal_strlit("low");
            reveal_strlit("high");
        }
        if text::str_eq(l, "low") {
            SecuritySensitivity::Low
        } else if text::str_eq(l, "high") {
            SecuritySensitivity::High
        } else {
            SecuritySensitivity::Medium
        }
    }

    /// The thresholds handed to the suspicious-activity tracker.
    pub fn to_suspicious_activity_config(&self) -> (c: SuspiciousActivityConfig)
        ensures
            c == (SuspiciousActivityConfig {
                max_violations_before_block: self.max_violations_before_block,
                violation_window_secs: self.violation_window_secs,
                block_duration_secs: self.block_duration_secs,
                auto_block_on_critical: self.auto_block_on_critical,
            }),
    {
        SuspiciousActivityConfig {
            max_violations_before_block: self.max_violations_before_block,
            violation_window_secs: self.violation_window_secs,
            block_duration_secs: self.block_duration_secs,
            auto_block_on_critical: self.auto_block_on_critical,
        }
    }
}

} // verus!
