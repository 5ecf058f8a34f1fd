//! Cache time-to-live settings.

use vstd::prelude::*;

use crate::duration;

verus! {

/// Cache configuration: whether caching is on, the TTL tiers and the size of
/// the in-memory layer.
#[derive(Debug, Clone)]
pub struct CacheConfig {
    /// Whether caching is enabled.
    pub enabled: bool,
    /// TTL for short-lived entries, in seconds.
    pub ttl_short_secs: u64,
    /// TTL for medium-lived entries, in seconds.
    pub ttl_medium_secs: u64,
    /// TTL for long-lived entries, in seconds.
    pub ttl_long_secs: u64,
    /// TTL for dynamic LLM answers, in seconds.
    pub ttl_llm_dynamic_secs: u64,
    /// TTL for stable LLM answers, in seconds.
    pub ttl_llm_stable_secs: u64,
    /// Maximum number of entries in the in-memory layer.
    pub l1_max_entries: u64,
}

/// Default short TTL: 5 minutes.
pub fn default_cache_ttl_short() -> (n: u64)
    ensures
        n == 5 * 60,
{
    5 * 60
}

/// Default medium TTL: 1 hour.
pub fn default_cache_ttl_medium() -> (n: u64)
    ensures
        n == 60 * 60,
{
    60 * 60
}

/// Default long TTL: 24 hours.
pub fn default_cache_ttl_long() -> (n: u64)
    ensures
        n == 24 * 60 * 60,
{
    24 * 60 * 60
}

/// Default size of the in-memory layer.
pub fn default_l1_max_entries() -> (n: u64)
    ensures
        n == 10_000,
{
    10_000
}

impl Default for CacheConfig {
    fn default() -> (c: Self)
        ensures
            c.enabled,
            c.ttl_short_secs == 5 * 60,
            c.ttl_medium_secs == 60 * 60,
            c.ttl_long_secs == 24 * 60 * 60,
            c.ttl_llm_dynamic_secs == 60 * 60,
            c.ttl_llm_stable_secs == 24 * 60 * 60,
            c.l1_max_entries == 10_000,
    {
        CacheConfig {
            enabled: true,
            ttl_short_secs: default_cache_ttl_short(),
            ttl_medium_secs: default_cache_ttl_medium(),
            ttl_long_secs: default_cache_ttl_long(),
            ttl_llm_dynamic_secs: default_cache_ttl_medium(),
            ttl_llm_stable_secs: default_cache_ttl_long(),
            l1_max_entries: default_l1_max_entries(),
        }
    }
}

impl CacheConfig {
    /// The short TTL as a duration.
    pub fn ttl_short(&self) -> (d: std::time::Duration)
        ensures
            d == duration::duration_of_secs(self.ttl_short_secs),
    {
        duration::from_secs(self.ttl_short_secs)
    }

    /// The medium TTL as a duration.
    pub fn ttl_medium(&self) -> (d: std::time::Duration)
        ensures
            d == duration::duration_of_secs(self.ttl_medium_secs),
    {
        duration::from_secs(self.ttl_medium_secs)
    }

    /// The long TTL as a duration.
    pub fn ttl_long(&self) -> (d: std::time::Duration)
        ensures
            d == duration::duration_of_secs(self.ttl_long_secs),
    {
        duration::from_secs(self.ttl_long_secs)
    }

    /// The TTL for dynamic LLM answers as a duration.
    pub fn ttl_llm_dynamic(&self) -> (d: std::time::Duration)
        ensures
            d == duration::duration_of_secs(self.ttl_llm_dynamic_secs),
    {
        duration::from_secs(self.ttl_llm_dynamic_secs)
    }

    /// The TTL for stable LLM answers as a duration.
    pub fn ttl_llm_stable(&self) -> (d: std::time::Duration)
        ensures
            d == duration::duration_of_secs(self.ttl_llm_stable_secs),
    {
        duration::from_secs(self.ttl_llm_stable_secs)
    }
}

} // verus!
