//! The in-memory cache layer on a `moka` cache.
//!
//! Moka evicts entries on its own (time to live, time to idle, capacity), so
//! what a read finds depends on time and on the cache's admission policy;
//! nothing is claimed of it here. What the layer decides itself is proved:
//! how reads are counted, which keys a pattern invalidates, and the
//! statistics it reports.

use vstd::prelude::*;

use crate::cache::{
    entry_weight, keys_to_invalidate, selected_keys, CacheStats, HitCounter, MokaCacheConfig,
};
use crate::degraded::inc;
use crate::duration::{duration_millis, duration_of_secs};

verus! {

#[verifier::external_type_specification]
#[verifier::external_body]
#[verifier::reject_recursive_types(K)]
#[verifier::reject_recursive_types(V)]
#[verifier::reject_recursive_types(S)]
pub struct ExMokaSyncCache<K, V, S>(moka::sync::Cache<K, V, S>);

/// The limits a cache was built with, as `Cache::policy` reports them:
/// maximum capacity, time to live and time to idle. They are fixed when the
/// cache is built.
pub uninterp spec fn moka_policy(cache: moka::sync::Cache<String, Vec<u8>>) -> (
    Option<u64>,
    Option<std::time::Duration>,
    Option<std::time::Duration>,
);

/// What the cache holds as far as writes go: under each key, the value last
/// stored with `insert` and not discarded since by `invalidate`. Moka may
/// already have dropped any of these entries (time to live, time to idle,
/// capacity), so a read finds such a value or nothing, never another one.
pub uninterp spec fn moka_stored(cache: moka::sync::Cache<String, Vec<u8>>) -> Map<Seq<char>, Seq<u8>>;

/// A store with nothing written to it.
pub open spec fn empty_store() -> Map<Seq<char>, Seq<u8>> {
    Map::empty()
}

/// The longest time to live or to idle that `CacheBuilder::build` accepts,
/// in milliseconds: 1000 years of 365 days. A longer one makes it panic.
pub open spec fn max_expiry_millis() -> u128 {
    31_536_000_000_000
}

/// Builds a cache with `Cache::builder`, a maximum capacity in bytes, a time
/// to live and a weigher that weighs each value by its length (`entry_weight`).
///
/// Claimed: the new cache holds nothing, and its policy reports that
/// capacity and time to live and no time to idle. `build` panics on a time to live over 1000 years; a
/// duration of exactly 1000 years, which it accepts, is left out as well,
/// since only whole milliseconds are stated of durations.
#[verifier::external_body]
fn moka_build(max_capacity_bytes: u64, ttl: std::time::Duration) -> (c: moka::sync::Cache<
    String,
    Vec<u8>,
>)
    requires
        duration_millis(ttl) < max_expiry_millis(),
    ensures
        moka_policy(c) == (Some(max_capacity_bytes), Some(ttl), None::<std::time::Duration>),
        moka_stored(c) == empty_store(),
{
    moka::sync::Cache::builder().max_capacity(max_capacity_bytes).time_to_live(ttl).weigher(
        |_key: &String, value: &Vec<u8>| -> u32 { entry_weight(value.len()) },
    ).build()
}

/// As `moka_build`, with a time to idle as well.
///
/// Claimed: the new cache holds nothing, and its policy reports the
/// capacity, the time to live and the time to idle. Durations of 1000 years or more are left out (see
/// `moka_build`).
#[verifier::external_body]
fn moka_build_with_idle(
    max_capacity_bytes: u64,
    ttl: std::time::Duration,
    tti: std::time::Duration,
) -> (c: moka::sync::Cache<String, Vec<u8>>)
    requires
        duration_millis(ttl) < max_expiry_millis(),
        duration_millis(tti) < max_expiry_millis(),
    ensures
        moka_policy(c) == (Some(max_capacity_bytes), Some(ttl), Some(tti)),
        moka_stored(c) == empty_store(),
{
    moka::sync::Cache::builder().max_capacity(max_capacity_bytes).time_to_live(ttl).time_to_idle(
        tti,
    ).weigher(|_key: &String, value: &Vec<u8>| -> u32 { entry_weight(value.len()) }).build()
}

/// `Cache::get`: a clone of the value stored under `key`, if it is still there.
///
/// Claimed: a value found is the one last stored under `key` (see
/// `moka_stored`). Whether one is found depends on time and on moka's
/// eviction, so nothing is claimed of that.
#[verifier::external_body]
fn moka_get(cache: &moka::sync::Cache<String, Vec<u8>>, key: &str) -> (r: Option<Vec<u8>>)
    ensures
        r matches Some(v) ==> moka_stored(*cache).contains_key(key@) && moka_stored(*cache)[key@]
            == v@,
{
    cache.get(key)
}

/// `Cache::insert`: stores `value` under `key` (moka may still decline to
/// admit it or evict it later).
///
/// Claimed: `value` is now the value last stored under `key`; the limits
/// stay as they were.
#[verifier::external_body]
fn moka_insert(cache: &mut moka::sync::Cache<String, Vec<u8>>, key: String, value: Vec<u8>)
    ensures
        moka_stored(*final(cache)) == moka_stored(*old(cache)).insert(key@, value@),
        moka_policy(*final(cache)) == moka_policy(*old(cache)),
{
    cache.insert(key, value)
}

/// `Cache::invalidate`: discards the value under `key`.
///
/// Claimed: nothing is stored under `key` any more; the limits stay as they
/// were.
#[verifier::external_body]
fn moka_invalidate(cache: &mut moka::sync::Cache<String, Vec<u8>>, key: &str)
    ensures
        moka_stored(*final(cache)) == moka_stored(*old(cache)).remove(key@),
        moka_policy(*final(cache)) == moka_policy(*old(cache)),
{
    cache.invalidate(key)
}

/// `Cache::contains_key`.
///
/// Claimed: a key that is present was stored (see `moka_stored`); whether a
/// stored key is still present depends on time and eviction.
#[verifier::external_body]
fn moka_contains(cache: &moka::sync::Cache<String, Vec<u8>>, key: &str) -> (r: bool)
    ensures
        r ==> moka_stored(*cache).contains_key(key@),
{
    cache.contains_key(key)
}

/// `Cache::entry_count`, an estimate by moka's own account.
#[verifier::external_body]
fn moka_entry_count(cache: &moka::sync::Cache<String, Vec<u8>>) -> u64 {
    cache.entry_count()
}

/// `Cache::run_pending_tasks`: lets moka finish its pending maintenance.
#[verifier::external_body]
fn moka_run_pending_tasks(cache: &moka::sync::Cache<String, Vec<u8>>) {
    cache.run_pending_tasks()
}

/// The keys that `Cache::iter` walks over, each cloned.
///
/// Claimed: every key walked is stored (see `moka_stored`). Which stored keys
/// are still present, and their order, is left open.
#[verifier::external_body]
fn moka_keys(cache: &moka::sync::Cache<String, Vec<u8>>) -> (ks: Vec<String>)
    ensures
        forall|i: int| 0 <= i < ks@.len() ==> moka_stored(*cache).contains_key(#[trigger] ks@[i]@),
{
    cache.iter().map(|(k, _)| (*k).clone()).collect()
}

/// The in-memory cache layer, with hit and miss counters.
pub struct MokaCache {
    cache: moka::sync::Cache<String, Vec<u8>>,
    counter: HitCounter,
    listed: Ghost<Seq<Seq<char>>>,
}

/// Memory estimate of `entries` entries at 512 bytes each, capped at `u64::MAX`.
pub open spec fn memory_estimate(entries: u64) -> u64 {
    if entries * 512 <= u64::MAX {
        (entries * 512) as u64
    } else {
        u64::MAX
    }
}

impl MokaCache {
    /// The read counters.
    pub closed spec fn spec_counter(self) -> HitCounter {
        self.counter
    }

    /// The limits the cache was built with: capacity in bytes, time to
    /// live, time to idle.
    pub closed spec fn spec_policy(self) -> (
        Option<u64>,
        Option<std::time::Duration>,
        Option<std::time::Duration>,
    ) {
        moka_policy(self.cache)
    }

    /// What the cache holds as far as writes go (see `moka_stored`).
    pub closed spec fn spec_stored(self) -> Map<Seq<char>, Seq<u8>> {
        moka_stored(self.cache)
    }

    /// The keys moka listed at the last invalidation by pattern.
    pub closed spec fn spec_listed(self) -> Seq<Seq<char>> {
        self.listed@
    }

    /// A cache with the default configuration (100 MB, one hour to live, 30
    /// minutes to idle).
    pub fn new() -> (c: Self)
        ensures
            c.spec_counter() == (HitCounter { hits: 0, misses: 0 }),
            c.spec_stored() == empty_store(),
            c.spec_policy() == (
                Some(104_857_600u64),
                Some(duration_of_secs(3600)),
                Some(duration_of_secs(1800)),
            ),
    {
        Self::with_config(MokaCacheConfig::default())
    }

    /// A cache with the given configuration: capacity in bytes, time to live
    /// and, if set, time to idle as configured.
    pub fn with_config(config: MokaCacheConfig) -> (c: Self)
        requires
            config.max_capacity_mb * 1024 * 1024 <= u64::MAX,
            duration_millis(config.default_ttl) < max_expiry_millis(),
            config.time_to_idle matches Some(t) ==> duration_millis(t) < max_expiry_millis(),
        ensures
            c.spec_counter() == (HitCounter { hits: 0, misses: 0 }),
            c.spec_stored() == empty_store(),
            c.spec_policy() == (
                Some((config.max_capacity_mb * 1024 * 1024) as u64),
                Some(config.default_ttl),
                config.time_to_idle,
            ),
    {
        let capacity = config.max_capacity_bytes();
        let cache = match config.time_to_idle {
            Some(tti) => moka_build_with_idle(capacity, config.default_ttl, tti),
            None => moka_build(capacity, config.default_ttl),
        };
        MokaCache { cache, counter: HitCounter::new(), listed: Ghost(Seq::empty()) }
    }

    /// A cache with the given configuration, when moka can build it: the
    /// capacity in bytes fits in a `u64` and both durations are shorter than
    /// 1000 years; `None` otherwise.
    pub fn checked_with_config(config: MokaCacheConfig) -> (r: Option<Self>)
        ensures
            r is Some <==> {
                &&& config.max_capacity_mb * 1024 * 1024 <= u64::MAX
                &&& duration_millis(config.default_ttl) < max_expiry_millis()
                &&& config.time_to_idle matches Some(t) ==> duration_millis(t) < max_expiry_millis()
            },
            r matches Some(c) ==> {
                &&& c.spec_counter() == (HitCounter { hits: 0, misses: 0 })
                &&& c.spec_stored() == empty_store()
                &&& c.spec_policy() == (
                    Some((config.max_capacity_mb * 1024 * 1024) as u64),
                    Some(config.default_ttl),
                    config.time_to_idle,
                )
            },
    {
        if config.max_capacity_mb > u64::MAX / (1024 * 1024) {
            return None;
        }
        if crate::duration::millis_of(config.default_ttl) >= 31_536_000_000_000 {
            return None;
        }
        match config.time_to_idle {
            Some(t) => {
                if crate::duration::millis_of(t) >= 31_536_000_000_000 {
                    return None;
                }
            },
            None => {},
        }
        Some(Self::with_config(config))
    }

    /// A cache sized for LLM responses (50 MB, one hour to live, 30 minutes
    /// to idle).
    pub fn for_llm_responses() -> (c: Self)
        ensures
            c.spec_counter() == (HitCounter { hits: 0, misses: 0 }),
            c.spec_stored() == empty_store(),
            c.spec_policy() == (
                Some(52_428_800u64),
                Some(duration_of_secs(3600)),
                Some(duration_of_secs(1800)),
            ),
    {
        Self::with_config(MokaCacheConfig::for_llm_responses())
    }

    /// Reads `key`; a value found is the one last stored under `key` and
    /// counts as a hit, none counts as a miss.
    pub fn get_bytes(&mut self, key: &str) -> (r: Option<Vec<u8>>)
        ensures
            r matches Some(v) ==> old(self).spec_stored().contains_key(key@)
                && old(self).spec_stored()[key@] == v@,
            final(self).spec_stored() == old(self).spec_stored(),
            final(self).spec_policy() == old(self).spec_policy(),
            r is Some ==> final(self).spec_counter() == (HitCounter {
                hits: inc(old(self).spec_counter().hits),
                misses: old(self).spec_counter().misses,
            }),
            r is None ==> final(self).spec_counter() == (HitCounter {
                hits: old(self).spec_counter().hits,
                misses: inc(old(self).spec_counter().misses),
            }),
    {
        let found = moka_get(&self.cache, key);
        match found {
            Some(bytes) => {
                self.counter.record(&crate::cache::CacheLookup::Hit(Vec::new()));
                Some(bytes)
            },
            None => {
                self.counter.record(&crate::cache::CacheLookup::Miss);
                None
            },
        }
    }

    /// Stores `value` under `key`. Entries live for the cache's configured
    /// time; the per-call TTL is not used.
    pub fn set_bytes(&mut self, key: &str, value: Vec<u8>, ttl: std::time::Duration)
        ensures
            final(self).spec_stored() == old(self).spec_stored().insert(key@, value@),
            final(self).spec_counter() == old(self).spec_counter(),
            final(self).spec_policy() == old(self).spec_policy(),
    {
        moka_insert(&mut self.cache, crate::text::owned(key), value);
    }

    /// Discards the value under `key`.
    pub fn invalidate(&mut self, key: &str)
        ensures
            final(self).spec_stored() == old(self).spec_stored().remove(key@),
            final(self).spec_counter() == old(self).spec_counter(),
            final(self).spec_policy() == old(self).spec_policy(),
    {
        moka_invalidate(&mut self.cache, key);
    }

    /// Discards every key that starts with `pattern` without its trailing
    /// `*`s, among the keys moka lists after pending maintenance (kept as
    /// `spec_listed`, each of them stored); returns how many keys were
    /// discarded.
    pub fn invalidate_pattern(&mut self, pattern: &str) -> (n: u64)
        ensures
            forall|i: int|
                0 <= i < final(self).spec_listed().len() ==> old(self).spec_stored().contains_key(
                    #[trigger] final(self).spec_listed()[i],
                ),
            n == selected_keys(final(self).spec_listed(), pattern@).len(),
            final(self).spec_stored() == old(self).spec_stored().remove_keys(
                selected_keys(final(self).spec_listed(), pattern@).to_set(),
            ),
            final(self).spec_counter() == old(self).spec_counter(),
            final(self).spec_policy() == old(self).spec_policy(),
    {
        moka_run_pending_tasks(&self.cache);
        let keys = moka_keys(&self.cache);
        let doomed = keys_to_invalidate(&keys, pattern);
        let ghost ks = keys@.map_values(|s: String| s@);
        let ghost dv = doomed@.map_values(|s: String| s@);
        let ghost start = moka_stored(self.cache);
        proof {
            assert forall|i: int| 0 <= i < ks.len() implies start.contains_key(#[trigger] ks[i]) by {
                assert(ks[i] == keys@[i]@);
            }
        }
        let mut count: u64 = 0;
        let mut i: usize = 0;
        while i < doomed.len()
            invariant
                i <= doomed@.len(),
                count == i,
                dv == doomed@.map_values(|s: String| s@),
                forall|k: Seq<char>|
                    #![trigger moka_stored(self.cache).contains_key(k)]
                    moka_stored(self.cache).contains_key(k) == (start.contains_key(k)
                        && !dv.take(i as int).contains(k)),
                forall|k: Seq<char>|
                    #![trigger moka_stored(self.cache)[k]]
                    moka_stored(self.cache).contains_key(k) ==> moka_stored(self.cache)[k]
                        == start[k],
                moka_policy(self.cache) == old(self).spec_policy(),
                self.counter == old(self).counter,
            decreases doomed@.len() - i,
        {
            let ghost before = moka_stored(self.cache);
            moka_invalidate(&mut self.cache, doomed[i].as_str());
            proof {
                assert(dv[i as int] == doomed@[i as int]@);
                let a = dv.take(i as int);
                let b = dv.take(i + 1);
                assert forall|k: Seq<char>| b.contains(k) == (a.contains(k) || k == dv[i as int]) by {
                    if b.contains(k) {
                        let j = choose|j: int| 0 <= j < b.len() && #[trigger] b[j] == k;
                        if j < i {
                            assert(a[j] == k);
                        }
                    }
                    if a.contains(k) {
                        let j = choose|j: int| 0 <= j < a.len() && #[trigger] a[j] == k;
                        assert(b[j] == k);
                    }
                    if k == dv[i as int] {
                        assert(b[i as int] == k);
                    }
                }
            }
            count = count + 1;
            i = i + 1;
        }
        proof {
            assert(dv.take(i as int) =~= dv);
            assert(dv == selected_keys(ks, pattern@));
            assert(moka_stored(self.cache) =~= start.remove_keys(dv.to_set()));
        }
        self.listed = Ghost(ks);
        count
    }

    /// Lets the cache finish its pending maintenance (expiry, eviction,
    /// counting), so that `stats` counts every entry written so far.
    pub fn run_pending_tasks(&mut self)
        ensures
            final(self).spec_stored() == old(self).spec_stored(),
            final(self).spec_counter() == old(self).spec_counter(),
            final(self).spec_policy() == old(self).spec_policy(),
    {
        moka_run_pending_tasks(&self.cache);
    }

    /// Whether a value is present under `key`; one that is was stored there
    /// (see `spec_stored`).
    pub fn contains_key(&self, key: &str) -> (r: bool)
        ensures
            r ==> self.spec_stored().contains_key(key@),
    {
        moka_contains(&self.cache, key)
    }

    /// Hits and misses so far, moka's entry count and the memory estimate
    /// derived from it.
    pub fn stats(&self) -> (s: CacheStats)
        ensures
            s.hits == self.spec_counter().hits,
            s.misses == self.spec_counter().misses,
            s.memory_bytes == memory_estimate(s.entries),
    {
        let entries = moka_entry_count(&self.cache);
        let memory = entries.checked_mul(512).unwrap_or(u64::MAX);
        CacheStats { hits: self.counter.hits, misses: self.counter.misses, entries, memory_bytes: memory }
    }
}

impl Default for MokaCache {
    /// A cache with the default settings (see `MokaCache::new`).
    fn default() -> (c: Self)
        ensures
            c.spec_counter() == (HitCounter { hits: 0, misses: 0 }),
    {
        MokaCache::new()
    }
}

} // verus!
