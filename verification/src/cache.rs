//! Cache keys, entry expiry, pattern invalidation and the statistics and read
//! protocol of the two-layer cache.
//!
//! The stores themselves (in memory, on disk) are driven by the caller; the
//! functions here decide keys, expiry and what each layer's answer means.

use vstd::prelude::*;

use vstd::string::StringSliceAdditionalSpecFns;

use crate::clock;
use crate::duration;
use crate::text;

verus! {

// ------------------------------------------------------------------
// Keys
// ------------------------------------------------------------------

/// What `blake3::hash(data).to_hex()` gives for the given bytes.
pub uninterp spec fn blake3_hex(data: Seq<u8>) -> Seq<char>;

/// Whether `c` is a lowercase hexadecimal digit.
pub open spec fn is_lower_hex(c: char) -> bool {
    ('0' <= c && c <= '9') || ('a' <= c && c <= 'f')
}

/// Hashes `data` with BLAKE3 and encodes the 32-byte digest in lowercase hex.
///
/// Claimed: the digest text depends on the bytes alone and is 64 lowercase
/// hexadecimal digits, as `Hash::to_hex` documents.
#[verifier::external_body]
fn blake3_hex_digest(data: &[u8]) -> (r: String)
    ensures
        r@ == blake3_hex(data@),
        r@.len() == 64,
        forall|i: int| 0 <= i < r@.len() ==> is_lower_hex(#[trigger] r@[i]),
{
    blake3::hash(data).to_hex().to_string()
}

/// The bytes hashed for a key: each component's UTF-8 bytes followed by `|`.
pub open spec fn key_material(components: Seq<Seq<u8>>) -> Seq<u8>
    decreases components.len(),
{
    if components.len() == 0 {
        Seq::empty()
    } else {
        key_material(components.drop_last()) + components.last() + seq![124u8]
    }
}

/// The cache key for a prefix and components: `{prefix}:{blake3 hex}`.
pub open spec fn cache_key(prefix: Seq<char>, components: Seq<Seq<u8>>) -> Seq<char> {
    prefix + ":"@ + blake3_hex(key_material(components))
}

/// The UTF-8 bytes of each component.
pub open spec fn component_bytes(components: Seq<&str>) -> Seq<Seq<u8>> {
    components.map_values(|c: &str| c.spec_bytes())
}

/// A cache key from a prefix and components.
///
/// Each component is followed by `|` before hashing, so that `["ab", "c"]`
/// and `["a", "bc"]` hash different bytes.
pub fn generate_cache_key(prefix: &str, components: &[&str]) -> (k: String)
    ensures
        k@ == cache_key(prefix@, component_bytes(components@)),
{
    let ghost comps = component_bytes(components@);
    let mut data: Vec<u8> = Vec::new();
    let mut i: usize = 0;
    while i < components.len()
        invariant
            i <= components.len(),
            comps == component_bytes(components@),
            data@ == key_material(comps.take(i as int)),
        decreases components.len() - i,
    {
        let bytes = components[i].as_bytes();
        let ghost before = data@;
        let mut j: usize = 0;
        while j < bytes.len()
            invariant
                j <= bytes.len(),
                data@ == before + bytes@.take(j as int),
            decreases bytes.len() - j,
        {
            data.push(bytes[j]);
            proof {
                assert(bytes@.take(j + 1) =~= bytes@.take(j as int).push(bytes@[j as int]));
            }
            j = j + 1;
        }
        data.push(124u8);
        proof {
            assert(bytes@.take(j as int) =~= bytes@);
            assert(comps.take(i + 1).drop_last() =~= comps.take(i as int));
            assert(comps.take(i + 1).last() == components@[i as int].spec_bytes());
            assert(data@ =~= key_material(comps.take(i as int)) + comps.take(i + 1).last() + seq![124u8]);
        }
        i = i + 1;
    }
    proof {
        assert(comps.take(i as int) =~= comps);
    }
    let hex = blake3_hex_digest(data.as_slice());
    text::owned(prefix).concat(":").concat(hex.as_str())
}

/// A cache key for an LLM request from the prompt, the model and the
/// temperature already formatted with two decimals.
pub fn llm_cache_key_from(prompt: &str, model: &str, temperature: &str) -> (k: String)
    ensures
        k@ == cache_key("llm"@, seq![prompt.spec_bytes(), model.spec_bytes(), temperature.spec_bytes()]),
{
    let parts: [&str; 3] = [prompt, model, temperature];
    let k = generate_cache_key("llm", parts.as_slice());
    proof {
        assert(component_bytes(parts@) =~= seq![prompt.spec_bytes(), model.spec_bytes(), temperature.spec_bytes()]);
    }
    k
}

/// Whether an entry that expires at `expires_at` has expired at `now`.
pub open spec fn expired_by(expires_at: u64, now: u64) -> bool {
    now >= expires_at
}

/// The current time in whole seconds since the Unix epoch, as entries'
/// expiry times are written.
pub fn now_timestamp() -> u64 {
    clock::now_secs()
}

/// Keys of the same prefix and components are equal, and every key starts with
/// its prefix and `:`.
pub proof fn lemma_cache_key_shape(prefix: Seq<char>, components: Seq<Seq<u8>>)
    ensures
        text::is_prefix(prefix + ":"@, cache_key(prefix, components)),
{
    let k = cache_key(prefix, components);
    assert(k.subrange(0, (prefix + ":"@).len() as int) =~= prefix + ":"@);
}

// ------------------------------------------------------------------
// Entries and expiry
// ------------------------------------------------------------------

/// A stored value with its expiry time.
#[derive(Debug, Clone, PartialEq, Eq)]
pub struct CacheEntry {
    /// The value's bytes.
    pub data: Vec<u8>,
    /// When the entry expires, in seconds since the Unix epoch.
    pub expires_at: u64,
}

impl CacheEntry {
    /// An entry written at `now` that lives `ttl_secs` seconds.
    pub fn new_at(data: Vec<u8>, now: u64, ttl_secs: u64) -> (e: Self)
        requires
            now + ttl_secs <= u64::MAX,
        ensures
            e.data@ == data@,
            e.expires_at == now + ttl_secs,
    {
        CacheEntry { data, expires_at: now + ttl_secs }
    }

    /// Whether the entry has expired at `now`.
    pub fn is_expired_at(&self, now: u64) -> (r: bool)
        ensures
            r == (now >= self.expires_at),
    {
        now >= self.expires_at
    }

    /// Whether the entry has expired by the clock's current second (see
    /// `is_expired_at`).
    pub fn is_expired(&self) -> (r: bool)
        ensures
            exists|now: u64| r == #[trigger] expired_by(self.expires_at, now),
    {
        let now = now_timestamp();
        let r = self.is_expired_at(now);
        assert(r == expired_by(self.expires_at, now));
        r
    }
}

/// What a read of one store found.
#[derive(Debug, Clone, PartialEq, Eq)]
pub enum CacheLookup {
    /// A live entry with these bytes.
    Hit(Vec<u8>),
    /// An entry that has expired; it should be removed.
    Expired,
    /// No entry.
    Miss,
}

/// What reading `entry` at `now` finds.
pub open spec fn lookup_of(entry: Option<CacheEntry>, now: u64) -> CacheLookup {
    match entry {
        Some(e) => if now >= e.expires_at {
            CacheLookup::Expired
        } else {
            CacheLookup::Hit(e.data)
        },
        None => CacheLookup::Miss,
    }
}

/// What reading a stored entry at `now` finds.
pub fn lookup_entry(entry: Option<CacheEntry>, now: u64) -> (r: CacheLookup)
    ensures
        r == lookup_of(entry, now),
{
    match entry {
        Some(e) => {
            if e.is_expired_at(now) {
                CacheLookup::Expired
            } else {
                CacheLookup::Hit(e.data)
            }
        },
        None => CacheLookup::Miss,
    }
}

/// A value written with a positive TTL is read back until the TTL has passed
/// and not after.
pub proof fn lemma_read_after_write(data: Vec<u8>, written: u64, ttl: u64, now: u64)
    requires
        written + ttl <= u64::MAX,
    ensures
        now < written + ttl ==> lookup_of(
            Some(CacheEntry { data: data, expires_at: (written + ttl) as u64 }),
            now,
        ) == CacheLookup::Hit(data),
        now >= written + ttl ==> lookup_of(
            Some(CacheEntry { data: data, expires_at: (written + ttl) as u64 }),
            now,
        ) == CacheLookup::Expired,
{
}

/// Hit and miss counts of one store.
#[derive(Debug, Clone, Copy, PartialEq, Eq, Structural)]
pub struct HitCounter {
    /// Reads that found a live entry.
    pub hits: u64,
    /// Reads that found nothing or an expired entry.
    pub misses: u64,
}

impl HitCounter {
    /// No reads yet.
    pub fn new() -> (c: Self)
        ensures
            c.hits == 0 && c.misses == 0,
    {
        HitCounter { hits: 0, misses: 0 }
    }

    /// Counts a read's outcome; the counters wrap like the atomic counters do.
    pub fn record(&mut self, lookup: &CacheLookup)
        ensures
            lookup is Hit ==> *final(self) == (HitCounter {
                hits: crate::degraded::inc(old(self).hits),
                misses: old(self).misses,
            }),
            !(lookup is Hit) ==> *final(self) == (HitCounter {
                hits: old(self).hits,
                misses: crate::degraded::inc(old(self).misses),
            }),
    {
        match lookup {
            CacheLookup::Hit(_) => {
                self.hits = self.hits.wrapping_add(1);
            },
            _ => {
                self.misses = self.misses.wrapping_add(1);
            },
        }
    }
}

/// `s` without its trailing `*` characters.
pub open spec fn without_trailing_stars(s: Seq<char>) -> Seq<char>
    decreases s.len(),
{
    if s.len() > 0 && s.last() == '*' {
        without_trailing_stars(s.drop_last())
    } else {
        s
    }
}

proof fn lemma_trailing_stars(s: Seq<char>, k: int)
    requires
        0 <= k <= s.len(),
        forall|j: int| k <= j < s.len() ==> s[j] == '*',
        k == 0 || s[k - 1] != '*',
    ensures
        without_trailing_stars(s) == s.take(k),
    decreases s.len(),
{
    if s.len() > k {
        assert(s.drop_last().take(k) =~= s.take(k));
        lemma_trailing_stars(s.drop_last(), k);
    } else {
        assert(s.take(k) =~= s);
    }
}

/// The key prefix a pattern selects: the pattern without trailing `*`.
pub fn pattern_prefix(pattern: &str) -> (p: String)
    ensures
        p@ == without_trailing_stars(pattern@),
{
    let chars = text::chars_of(pattern);
    let mut k: usize = chars.len();
    while k > 0 && chars[k - 1] == '*'
        invariant
            k <= chars.len(),
            chars@ == pattern@,
            forall|j: int| k <= j < chars.len() ==> chars@[j] == '*',
        decreases k,
    {
        k = k - 1;
    }
    proof {
        lemma_trailing_stars(chars@, k as int);
    }
    let mut out: Vec<char> = Vec::new();
    let mut i: usize = 0;
    while i < k
        invariant
            i <= k <= chars.len(),
            out@ == chars@.take(i as int),
        decreases k - i,
    {
        out.push(chars[i]);
        proof {
            assert(chars@.take(i + 1) =~= chars@.take(i as int).push(chars@[i as int]));
        }
        i = i + 1;
    }
    text::string_from_chars(out.as_slice())
}

/// Whether `key` is selected by the invalidation pattern (prefix match).
pub fn key_matches_pattern(key: &str, pattern: &str) -> (r: bool)
    ensures
        r == text::is_prefix(without_trailing_stars(pattern@), key@),
{
    let prefix = pattern_prefix(pattern);
    text::starts_with(key, prefix.as_str())
}

/// The keys among `keys` that the pattern selects, in order.
pub open spec fn selected_keys(keys: Seq<Seq<char>>, pattern: Seq<char>) -> Seq<Seq<char>> {
    keys.filter(|k: Seq<char>| text::is_prefix(without_trailing_stars(pattern), k))
}

/// The keys an invalidation by `pattern` removes from a store holding `keys`.
pub fn keys_to_invalidate(keys: &Vec<String>, pattern: &str) -> (r: Vec<String>)
    ensures
        r@.map_values(|s: String| s@) == selected_keys(keys@.map_values(|s: String| s@), pattern@),
{
    let ghost ks = keys@.map_values(|s: String| s@);
    let ghost pred = |k: Seq<char>| text::is_prefix(without_trailing_stars(pattern@), k);
    let mut out: Vec<String> = Vec::new();
    let mut i: usize = 0;
    while i < keys.len()
        invariant
            i <= keys.len(),
            ks == keys@.map_values(|s: String| s@),
            pred == (|k: Seq<char>| text::is_prefix(without_trailing_stars(pattern@), k)),
            out@.map_values(|s: String| s@) == ks.take(i as int).filter(pred),
        decreases keys.len() - i,
    {
        let m = key_matches_pattern(keys[i].as_str(), pattern);
        proof {
            reveal_with_fuel(Seq::filter, 1);
            assert(ks.take(i + 1).drop_last() =~= ks.take(i as int));
            assert(ks.take(i + 1).last() == keys@[i as int]@);
        }
        if m {
            let ghost before = out@;
            out.push(keys[i].clone());
            proof {
                assert(out@.map_values(|s: String| s@) =~= before.map_values(|s: String| s@).push(
                    keys@[i as int]@,
                ));
            }
        }
        i = i + 1;
    }
    proof {
        assert(ks.take(i as int) =~= ks);
    }
    out
}

// ------------------------------------------------------------------
// Statistics
// ------------------------------------------------------------------

/// Statistics of a cache.
#[derive(Debug, Clone, Copy, PartialEq, Eq, Structural)]
pub struct CacheStats {
    /// Reads that found a live entry.
    pub hits: u64,
    /// Reads that found nothing.
    pub misses: u64,
    /// Stored entries.
    pub entries: u64,
    /// Estimated memory use in bytes.
    pub memory_bytes: u64,
}

/// Statistics of the two-layer cache from its layers': hits, entries and memory
/// add up; a miss in the first layer is followed by a read of the second, so
/// the misses are the larger of the two counts.
pub fn combine_layer_stats(l1: CacheStats, l2: CacheStats) -> (s: CacheStats)
    requires
        l1.hits + l2.hits <= u64::MAX,
        l1.entries + l2.entries <= u64::MAX,
        l1.memory_bytes + l2.memory_bytes <= u64::MAX,
    ensures
        s.hits == l1.hits + l2.hits,
        s.misses == if l1.misses >= l2.misses {
            l1.misses
        } else {
            l2.misses
        },
        s.entries == l1.entries + l2.entries,
        s.memory_bytes == l1.memory_bytes + l2.memory_bytes,
{
    CacheStats {
        hits: l1.hits + l2.hits,
        misses: if l1.misses >= l2.misses {
            l1.misses
        } else {
            l2.misses
        },
        entries: l1.entries + l2.entries,
        memory_bytes: l1.memory_bytes + l2.memory_bytes,
    }
}

/// Number of keys removed from both layers by one pattern: the larger count,
/// since a key may live in both layers.
pub fn combined_invalidation_count(l1: u64, l2: u64) -> (n: u64)
    ensures
        n == if l1 >= l2 {
            l1
        } else {
            l2
        },
{
    if l1 >= l2 {
        l1
    } else {
        l2
    }
}

/// The estimated memory of the in-memory layer: 512 bytes per entry.
pub fn estimate_memory(entry_count: u64) -> (n: u64)
    requires
        entry_count * 512 <= u64::MAX,
    ensures
        n == entry_count * 512,
{
    entry_count * 512
}

/// Statistics of the persistent layer: its read counters, its entry count,
/// and 256 bytes per entry as the memory estimate.
pub fn persistent_layer_stats(counter: HitCounter, entries: u64) -> (s: CacheStats)
    requires
        entries * 256 <= u64::MAX,
    ensures
        s == (CacheStats {
            hits: counter.hits,
            misses: counter.misses,
            entries: entries,
            memory_bytes: (entries * 256) as u64,
        }),
{
    CacheStats { hits: counter.hits, misses: counter.misses, entries, memory_bytes: entries * 256 }
}

/// The weight of a value in the in-memory layer: its length, capped at `u32::MAX`.
pub fn entry_weight(len: usize) -> (w: u32)
    ensures
        w == if len <= u32::MAX {
            len as u32
        } else {
            u32::MAX
        },
{
    if len <= u32::MAX as usize {
        len as u32
    } else {
        u32::MAX
    }
}

// ------------------------------------------------------------------
// Two-layer reads
// ------------------------------------------------------------------

/// TTL, in seconds, of a value copied from the second layer into the first.
pub fn promotion_ttl_secs() -> (t: u64)
    ensures
        t == 1800,
{
    1800
}

/// What to do after a layer answered a read.
#[derive(Debug, Clone, PartialEq, Eq)]
pub enum LayerStep {
    /// Answer with these bytes.
    Return(Vec<u8>),
    /// Copy these bytes into the first layer with the promotion TTL, then answer with them.
    PromoteAndReturn(Vec<u8>),
    /// Ask the second layer.
    AskSecondLayer,
    /// Neither layer has the key.
    Miss,
}

/// The step after the first layer answered.
pub fn after_first_layer(found: Option<Vec<u8>>) -> (s: LayerStep)
    ensures
        match found {
            Some(v) => s == LayerStep::Return(v),
            None => s == LayerStep::AskSecondLayer,
        },
{
    match found {
        Some(v) => LayerStep::Return(v),
        None => LayerStep::AskSecondLayer,
    }
}

/// The step after the second layer answered.
pub fn after_second_layer(found: Option<Vec<u8>>) -> (s: LayerStep)
    ensures
        match found {
            Some(v) => s == LayerStep::PromoteAndReturn(v),
            None => s == LayerStep::Miss,
        },
{
    match found {
        Some(v) => LayerStep::PromoteAndReturn(v),
        None => LayerStep::Miss,
    }
}

// ------------------------------------------------------------------
// In-memory layer configuration
// ------------------------------------------------------------------

/// Configuration of the in-memory cache layer.
#[derive(Debug, Clone, Copy)]
pub struct MokaCacheConfig {
    /// Maximum capacity in megabytes.
    pub max_capacity_mb: u64,
    /// Time to live of entries.
    pub default_ttl: std::time::Duration,
    /// Time to idle before an entry is evicted.
    pub time_to_idle: Option<std::time::Duration>,
}

impl Default for MokaCacheConfig {
    fn default() -> (c: Self)
        ensures
            c.max_capacity_mb == 100,
            c.default_ttl == duration::duration_of_secs(3600),
            c.time_to_idle == Some(duration::duration_of_secs(1800)),
            duration::duration_millis(c.default_ttl) == 3_600_000,
            duration::duration_millis(duration::duration_of_secs(1800)) == 1_800_000,
    {
        MokaCacheConfig {
            max_capacity_mb: 100,
            default_ttl: duration::from_secs(3600),
            time_to_idle: Some(duration::from_secs(1800)),
        }
    }
}

impl MokaCacheConfig {
    /// The configuration for LLM responses: 50 MB, one hour to live, 30
    /// minutes to idle.
    pub fn for_llm_responses() -> (c: Self)
        ensures
            c.max_capacity_mb == 50,
            c.default_ttl == duration::duration_of_secs(3600),
            c.time_to_idle == Some(duration::duration_of_secs(1800)),
            duration::duration_millis(c.default_ttl) == 3_600_000,
            duration::duration_millis(duration::duration_of_secs(1800)) == 1_800_000,
    {
        MokaCacheConfig {
            max_capacity_mb: 50,
            default_ttl: duration::from_secs(3600),
            time_to_idle: Some(duration::from_secs(1800)),
        }
    }

    /// The capacity in bytes.
    pub fn max_capacity_bytes(&self) -> (n: u64)
        requires
            self.max_capacity_mb * 1024 * 1024 <= u64::MAX,
        ensures
            n == self.max_capacity_mb * 1024 * 1024,
    {
        self.max_capacity_mb * 1024 * 1024
    }
}

// ------------------------------------------------------------------
// Cleanup of persistent stores
// ------------------------------------------------------------------

/// The keys a cleanup at `now` removes from a store whose entries decode as
/// given (`None` for an entry that does not decode): those of entries that
/// have expired, in order. Entries that do not decode are left alone.
pub open spec fn expired_keys(entries: Seq<(Seq<u8>, Option<CacheEntry>)>, now: u64) -> Seq<Seq<u8>>
    decreases entries.len(),
{
    if entries.len() == 0 {
        Seq::empty()
    } else {
        let rest = expired_keys(entries.drop_last(), now);
        match entries.last().1 {
            Some(e) => if now >= e.expires_at {
                rest.push(entries.last().0)
            } else {
                rest
            },
            None => rest,
        }
    }
}

/// The model of a store's entries.
pub open spec fn stored_view(entries: Seq<(Vec<u8>, Option<CacheEntry>)>) -> Seq<(Seq<u8>, Option<CacheEntry>)> {
    entries.map_values(|p: (Vec<u8>, Option<CacheEntry>)| (p.0@, p.1))
}

/// The keys a cleanup at `now` removes (see `expired_keys`).
pub fn keys_to_expire(entries: &Vec<(Vec<u8>, Option<CacheEntry>)>, now: u64) -> (r: Vec<Vec<u8>>)
    ensures
        r@.map_values(|k: Vec<u8>| k@) == expired_keys(stored_view(entries@), now),
{
    let ghost ev = stored_view(entries@);
    let mut out: Vec<Vec<u8>> = Vec::new();
    let mut i: usize = 0;
    while i < entries.len()
        invariant
            i <= entries@.len(),
            ev == stored_view(entries@),
            out@.map_values(|k: Vec<u8>| k@) == expired_keys(ev.take(i as int), now),
        decreases entries@.len() - i,
    {
        proof {
            assert(ev.take(i + 1).drop_last() =~= ev.take(i as int));
            assert(ev.take(i + 1).last() == (entries@[i as int].0@, entries@[i as int].1));
        }
        let ghost before = out@;
        match &entries[i].1 {
            Some(e) => {
                if now >= e.expires_at {
                    out.push(entries[i].0.clone());
                    proof {
                        assert(out@.map_values(|k: Vec<u8>| k@) =~= before.map_values(
                            |k: Vec<u8>| k@,
                        ).push(entries@[i as int].0@));
                    }
                }
            },
            None => {},
        }
        i = i + 1;
    }
    proof {
        assert(ev.take(i as int) =~= ev);
    }
    out
}

} // verus!
