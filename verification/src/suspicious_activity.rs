//! Tracking of security violations per client address, and the blocking
//! decisions that follow from them.
//!
//! Each address has the violations recorded for it, in order, and possibly
//! the time until which it is blocked. An address is blocked when a critical
//! violation arrives (if so configured) or when the violations within the
//! counting window reach the configured maximum. Times are seconds since the
//! Unix epoch.

use vstd::prelude::*;

use crate::clock;
use crate::config::security::SuspiciousActivityConfig;
use crate::text;

verus! {

/// Severity of a detected threat, from least to most severe.
#[derive(Debug, Clone, Copy, PartialEq, Eq, Structural)]
pub enum ThreatLevel {
    /// Minor anomaly.
    Low,
    /// Likely attack attempt.
    Medium,
    /// Clear attack attempt.
    High,
    /// Attack that warrants an immediate block.
    Critical,
}

/// Position of a threat level in the order of severity.
pub open spec fn threat_rank(t: ThreatLevel) -> int {
    match t {
        ThreatLevel::Low => 0,
        ThreatLevel::Medium => 1,
        ThreatLevel::High => 2,
        ThreatLevel::Critical => 3,
    }
}

impl ThreatLevel {
    /// Position in the order of severity (0 for low up to 3 for critical).
    pub fn rank(&self) -> (r: u8)
        ensures
            r == threat_rank(*self),
    {
        match self {
            ThreatLevel::Low => 0,
            ThreatLevel::Medium => 1,
            ThreatLevel::High => 2,
            ThreatLevel::Critical => 3,
        }
    }
}

/// One recorded security violation.
#[derive(Debug, Clone)]
pub struct ViolationRecord {
    /// Category of the violation (e.g. `injection`).
    pub category: String,
    /// Severity.
    pub threat_level: ThreatLevel,
    /// When it happened, in seconds since the epoch.
    pub timestamp: u64,
    /// Optional free-form details.
    pub details: Option<String>,
}

impl ViolationRecord {
    /// A violation that happened at `timestamp`.
    pub fn new_at(category: &str, threat_level: ThreatLevel, timestamp: u64) -> (v: Self)
        ensures
            v.category@ == category@,
            v.threat_level == threat_level,
            v.timestamp == timestamp,
            v.details is None,
    {
        ViolationRecord { category: text::owned(category), threat_level, timestamp, details: None }
    }

    /// A violation that happens now, by the system clock.
    pub fn new(category: &str, threat_level: ThreatLevel) -> (v: Self)
        ensures
            v.category@ == category@,
            v.threat_level == threat_level,
            v.details is None,
    {
        Self::new_at(category, threat_level, clock::now_secs())
    }

    /// The same violation with details attached.
    pub fn with_details(self, details: &str) -> (v: Self)
        ensures
            v.category == self.category,
            v.threat_level == self.threat_level,
            v.timestamp == self.timestamp,
            v.details matches Some(d) && d@ == details@,
    {
        ViolationRecord { details: Some(text::owned(details)), ..self }
    }
}

/// What is known of an address: its violations and the end of its block.
#[derive(Debug, Clone, PartialEq, Eq, Structural)]
pub struct ViolationSummary {
    /// Violations recorded (and not yet cleaned up).
    pub total_violations: usize,
    /// Violations within the counting window.
    pub violations_in_window: usize,
    /// Whether the address is blocked now.
    pub is_blocked: bool,
    /// When the current block ends, if the address is blocked.
    pub block_expires_at: Option<u64>,
    /// The most severe threat level recorded.
    pub max_threat_level: Option<ThreatLevel>,
    /// Time of the first recorded violation.
    pub first_violation_at: Option<u64>,
    /// Time of the last recorded violation.
    pub last_violation_at: Option<u64>,
}

/// The summary of an address with no record.
pub open spec fn empty_summary() -> ViolationSummary {
    ViolationSummary {
        total_violations: 0,
        violations_in_window: 0,
        is_blocked: false,
        block_expires_at: None,
        max_threat_level: None,
        first_violation_at: None,
        last_violation_at: None,
    }
}

impl Default for ViolationSummary {
    fn default() -> (s: Self)
        ensures
            s == empty_summary(),
    {
        ViolationSummary {
            total_violations: 0,
            violations_in_window: 0,
            is_blocked: false,
            block_expires_at: None,
            max_threat_level: None,
            first_violation_at: None,
            last_violation_at: None,
        }
    }
}

impl Default for SuspiciousActivityConfig {
    /// Three violations within an hour block for a day; a critical violation
    /// blocks at once.
    fn default() -> (c: Self)
        ensures
            c.max_violations_before_block == 3,
            c.violation_window_secs == 3600,
            c.block_duration_secs == 86400,
            c.auto_block_on_critical,
    {
        SuspiciousActivityConfig {
            max_violations_before_block: 3,
            violation_window_secs: 3600,
            block_duration_secs: 86400,
            auto_block_on_critical: true,
        }
    }
}

// ------------------------------------------------------------------
// The model
// ------------------------------------------------------------------

/// Whether a violation lies in the window of `window` seconds that ends at `now`.
pub open spec fn within(v: ViolationRecord, now: u64, window: int) -> bool {
    v.timestamp + window >= now
}

/// Number of violations in the window of `window` seconds that ends at `now`.
pub open spec fn count_within(vs: Seq<ViolationRecord>, now: u64, window: int) -> nat
    decreases vs.len(),
{
    if vs.len() == 0 {
        0
    } else {
        count_within(vs.drop_last(), now, window) + if within(vs.last(), now, window) {
            1nat
        } else {
            0nat
        }
    }
}

/// The most severe threat level among the violations; of equally severe ones
/// the last.
pub open spec fn max_threat(vs: Seq<ViolationRecord>) -> Option<ThreatLevel>
    decreases vs.len(),
{
    if vs.len() == 0 {
        None
    } else {
        match max_threat(vs.drop_last()) {
            None => Some(vs.last().threat_level),
            Some(m) => if threat_rank(vs.last().threat_level) >= threat_rank(m) {
                Some(vs.last().threat_level)
            } else {
                Some(m)
            },
        }
    }
}

/// The end of a block of `duration` seconds starting at `now` (the largest
/// time when it lies beyond).
pub open spec fn expiry(now: u64, duration: u64) -> u64 {
    if now + duration <= u64::MAX {
        (now + duration) as u64
    } else {
        u64::MAX
    }
}

/// Whether a block that ends at `until` is in force at `now`.
pub open spec fn is_active(until: Option<u64>, now: u64) -> bool {
    match until {
        Some(e) => e > now,
        None => false,
    }
}

/// Whether a new violation blocks its address, given the earlier ones.
pub open spec fn blocks(
    cfg: SuspiciousActivityConfig,
    prior: Seq<ViolationRecord>,
    v: ViolationRecord,
    now: u64,
) -> bool {
    ||| cfg.auto_block_on_critical && v.threat_level == ThreatLevel::Critical
    ||| count_within(prior, now, cfg.violation_window_secs as int) + 1
        >= cfg.max_violations_before_block
}

/// An address with nothing recorded.
pub open spec fn no_activity() -> (Seq<ViolationRecord>, Option<u64>) {
    (Seq::empty(), None)
}

/// What is recorded for `ip`, or nothing.
pub open spec fn activity_of(
    m: Map<Seq<char>, (Seq<ViolationRecord>, Option<u64>)>,
    ip: Seq<char>,
) -> (Seq<ViolationRecord>, Option<u64>) {
    if m.dom().contains(ip) {
        m[ip]
    } else {
        no_activity()
    }
}

/// An address's record after a violation at `now`: the violation is appended,
/// and a block from `now` is set when it blocks.
pub open spec fn recorded(
    a: (Seq<ViolationRecord>, Option<u64>),
    cfg: SuspiciousActivityConfig,
    v: ViolationRecord,
    now: u64,
) -> (Seq<ViolationRecord>, Option<u64>) {
    (
        a.0.push(v),
        if blocks(cfg, a.0, v, now) {
            Some(expiry(now, cfg.block_duration_secs))
        } else {
            a.1
        },
    )
}

/// Whether a violation is still kept by a cleanup at `now`: it lies within
/// 24 counting windows.
pub open spec fn retention_kept(v: ViolationRecord, now: u64, window: int) -> bool {
    v.timestamp + 24 * window >= now
}

/// The violations that a cleanup at `now` keeps, in order.
pub open spec fn retained(vs: Seq<ViolationRecord>, now: u64, window: int) -> Seq<ViolationRecord>
    decreases vs.len(),
{
    if vs.len() == 0 {
        vs
    } else if retention_kept(vs.last(), now, window) {
        retained(vs.drop_last(), now, window).push(vs.last())
    } else {
        retained(vs.drop_last(), now, window)
    }
}

/// An address's record after a cleanup at `now`: old violations dropped,
/// a block that has ended cleared.
pub open spec fn cleaned(
    a: (Seq<ViolationRecord>, Option<u64>),
    cfg: SuspiciousActivityConfig,
    now: u64,
) -> (Seq<ViolationRecord>, Option<u64>) {
    (
        retained(a.0, now, cfg.violation_window_secs as int),
        if is_active(a.1, now) {
            a.1
        } else {
            None
        },
    )
}

/// Whether a record is kept at all: it has violations or a block.
pub open spec fn worth_keeping(a: (Seq<ViolationRecord>, Option<u64>)) -> bool {
    a.0.len() > 0 || a.1 is Some
}

/// All records after a cleanup at `now`.
pub open spec fn cleaned_map(
    m: Map<Seq<char>, (Seq<ViolationRecord>, Option<u64>)>,
    cfg: SuspiciousActivityConfig,
    now: u64,
) -> Map<Seq<char>, (Seq<ViolationRecord>, Option<u64>)> {
    Map::new(
        |k: Seq<char>| m.dom().contains(k) && worth_keeping(cleaned(m[k], cfg, now)),
        |k: Seq<char>| cleaned(m[k], cfg, now),
    )
}

/// The summary of an address's record at `now`.
pub open spec fn summary_of(
    a: Option<(Seq<ViolationRecord>, Option<u64>)>,
    cfg: SuspiciousActivityConfig,
    now: u64,
) -> ViolationSummary {
    match a {
        None => empty_summary(),
        Some(a) => ViolationSummary {
            total_violations: a.0.len() as usize,
            violations_in_window: count_within(a.0, now, cfg.violation_window_secs as int) as usize,
            is_blocked: is_active(a.1, now),
            block_expires_at: if is_active(a.1, now) {
                a.1
            } else {
                None
            },
            max_threat_level: max_threat(a.0),
            first_violation_at: if a.0.len() > 0 {
                Some(a.0[0].timestamp)
            } else {
                None
            },
            last_violation_at: if a.0.len() > 0 {
                Some(a.0.last().timestamp)
            } else {
                None
            },
        },
    }
}

/// The record of `ip` in `m`, if it has one.
pub open spec fn lookup(
    m: Map<Seq<char>, (Seq<ViolationRecord>, Option<u64>)>,
    ip: Seq<char>,
) -> Option<(Seq<ViolationRecord>, Option<u64>)> {
    if m.dom().contains(ip) {
        Some(m[ip])
    } else {
        None
    }
}

// ------------------------------------------------------------------
// Keyed lists
// ------------------------------------------------------------------

/// Whether no two entries of a keyed list have the same key.
pub open spec fn distinct_keys<A>(s: Seq<(Seq<char>, A)>) -> bool {
    forall|i: int, j: int|
        0 <= i < s.len() && 0 <= j < s.len() && i != j ==> #[trigger] s[i].0 != #[trigger] s[j].0
}

/// Whether `k` is a key of the list.
pub open spec fn has_key<A>(s: Seq<(Seq<char>, A)>, k: Seq<char>) -> bool {
    exists|i: int| 0 <= i < s.len() && #[trigger] s[i].0 == k
}

/// The map that a keyed list stands for.
pub open spec fn map_of<A>(s: Seq<(Seq<char>, A)>) -> Map<Seq<char>, A> {
    Map::new(
        |k: Seq<char>| has_key(s, k),
        |k: Seq<char>| s[choose|i: int| 0 <= i < s.len() && #[trigger] s[i].0 == k].1,
    )
}

proof fn lemma_map_of_at<A>(s: Seq<(Seq<char>, A)>, i: int)
    requires
        distinct_keys(s),
        0 <= i < s.len(),
    ensures
        map_of(s).dom().contains(s[i].0),
        map_of(s)[s[i].0] == s[i].1,
{
    assert(has_key(s, s[i].0));
    let j = choose|j: int| 0 <= j < s.len() && #[trigger] s[j].0 == s[i].0;
    assert(s[j].0 == s[i].0);
}

proof fn lemma_map_of_update<A>(s: Seq<(Seq<char>, A)>, i: int, a: A)
    requires
        distinct_keys(s),
        0 <= i < s.len(),
    ensures
        distinct_keys(s.update(i, (s[i].0, a))),
        map_of(s.update(i, (s[i].0, a))) == map_of(s).insert(s[i].0, a),
{
    let t = s.update(i, (s[i].0, a));
    assert forall|x: int, y: int|
        0 <= x < t.len() && 0 <= y < t.len() && x != y implies #[trigger] t[x].0
        != #[trigger] t[y].0 by {
        assert(t[x].0 == s[x].0);
        assert(t[y].0 == s[y].0);
    }
    lemma_map_of_at(t, i);
    assert forall|k: Seq<char>| #[trigger] has_key(t, k) == has_key(s, k) by {
        if has_key(t, k) {
            let j = choose|j: int| 0 <= j < t.len() && #[trigger] t[j].0 == k;
            assert(s[j].0 == k);
        }
        if has_key(s, k) {
            let j = choose|j: int| 0 <= j < s.len() && #[trigger] s[j].0 == k;
            assert(t[j].0 == k);
        }
    }
    assert forall|k: Seq<char>| k != s[i].0 && has_key(s, k) implies #[trigger] map_of(t)[k]
        == map_of(s)[k] by {
        let j = choose|j: int| 0 <= j < s.len() && #[trigger] s[j].0 == k;
        assert(t[j].0 == k);
        lemma_map_of_at(s, j);
        lemma_map_of_at(t, j);
    }
    assert(map_of(t) =~= map_of(s).insert(s[i].0, a));
}

proof fn lemma_map_of_push<A>(s: Seq<(Seq<char>, A)>, k: Seq<char>, a: A)
    requires
        distinct_keys(s),
        !has_key(s, k),
    ensures
        distinct_keys(s.push((k, a))),
        map_of(s.push((k, a))) == map_of(s).insert(k, a),
{
    let t = s.push((k, a));
    assert forall|x: int, y: int|
        0 <= x < t.len() && 0 <= y < t.len() && x != y implies #[trigger] t[x].0
        != #[trigger] t[y].0 by {
        if x < s.len() && y < s.len() {
            assert(t[x].0 == s[x].0);
            assert(t[y].0 == s[y].0);
        } else if x < s.len() {
            assert(t[x].0 == s[x].0);
        } else {
            assert(t[y].0 == s[y].0);
        }
    }
    lemma_map_of_at(t, s.len() as int);
    assert forall|q: Seq<char>| #[trigger] has_key(t, q) == (has_key(s, q) || q == k) by {
        if has_key(t, q) {
            let j = choose|j: int| 0 <= j < t.len() && #[trigger] t[j].0 == q;
            if j < s.len() {
                assert(s[j].0 == q);
            }
        }
        if has_key(s, q) {
            let j = choose|j: int| 0 <= j < s.len() && #[trigger] s[j].0 == q;
            assert(t[j].0 == q);
        }
    }
    assert forall|q: Seq<char>| q != k && has_key(s, q) implies #[trigger] map_of(t)[q]
        == map_of(s)[q] by {
        let j = choose|j: int| 0 <= j < s.len() && #[trigger] s[j].0 == q;
        assert(t[j].0 == q);
        lemma_map_of_at(s, j);
        lemma_map_of_at(t, j);
    }
    assert(map_of(t) =~= map_of(s).insert(k, a));
}

// ------------------------------------------------------------------
// The tracker
// ------------------------------------------------------------------

/// What is recorded for one address.
#[derive(Debug, Clone)]
pub struct IpActivity {
    /// Violations, in the order they were recorded.
    pub violations: Vec<ViolationRecord>,
    /// End of the current block, if one was set.
    pub blocked_until: Option<u64>,
}

/// Whether `ip` has a record in `m` with a block in force at `now`.
pub open spec fn blocked_in(
    m: Map<Seq<char>, (Seq<ViolationRecord>, Option<u64>)>,
    ip: Seq<char>,
    now: u64,
) -> bool {
    m.dom().contains(ip) && is_active(m[ip].1, now)
}

/// Whether `r` names exactly the addresses of `m` that are blocked at `now`.
pub open spec fn lists_blocked(
    r: Seq<String>,
    m: Map<Seq<char>, (Seq<ViolationRecord>, Option<u64>)>,
    now: u64,
) -> bool {
    forall|k: Seq<char>|
        (exists|i: int| 0 <= i < r.len() && #[trigger] r[i]@ == k) <==> (m.dom().contains(k)
            && is_active(m[k].1, now))
}

/// The model of an address's record.
pub open spec fn activity_view(a: IpActivity) -> (Seq<ViolationRecord>, Option<u64>) {
    (a.violations@, a.blocked_until)
}

/// The model of the tracker's list of records.
pub open spec fn entries_view(e: Seq<(String, IpActivity)>) -> Seq<
    (Seq<char>, (Seq<ViolationRecord>, Option<u64>)),
> {
    e.map_values(|p: (String, IpActivity)| (p.0@, activity_view(p.1)))
}

/// In-memory tracker of security violations per client address.
///
/// Addresses are held in their text form.
pub struct InMemorySuspiciousActivityTracker {
    entries: Vec<(String, IpActivity)>,
    config: SuspiciousActivityConfig,
}

impl View for InMemorySuspiciousActivityTracker {
    type V = Map<Seq<char>, (Seq<ViolationRecord>, Option<u64>)>;

    closed spec fn view(&self) -> Map<Seq<char>, (Seq<ViolationRecord>, Option<u64>)> {
        map_of(entries_view(self.entries@))
    }
}

impl InMemorySuspiciousActivityTracker {
    #[verifier::type_invariant]
    spec fn inv(self) -> bool {
        distinct_keys(entries_view(self.entries@))
    }

    /// The thresholds the tracker works with.
    pub closed spec fn spec_config(self) -> SuspiciousActivityConfig {
        self.config
    }

    /// A tracker with no records.
    pub fn new(config: SuspiciousActivityConfig) -> (t: Self)
        ensures
            t@ == Map::<Seq<char>, (Seq<ViolationRecord>, Option<u64>)>::empty(),
            t.spec_config() == config,
    {
        let t = InMemorySuspiciousActivityTracker { entries: Vec::new(), config };
        proof {
            assert(entries_view(t.entries@) =~= Seq::empty());
            assert(t@ =~= Map::<Seq<char>, (Seq<ViolationRecord>, Option<u64>)>::empty());
        }
        t
    }

    /// The thresholds the tracker works with.
    pub fn config(&self) -> (c: SuspiciousActivityConfig)
        ensures
            c == self.spec_config(),
    {
        self.config
    }

    fn find(&self, ip: &str) -> (r: Option<usize>)
        ensures
            match r {
                Some(i) => i < self.entries@.len() && self.entries@[i as int].0@ == ip@,
                None => !has_key(entries_view(self.entries@), ip@),
            },
    {
        let ghost ev = entries_view(self.entries@);
        let mut i: usize = 0;
        while i < self.entries.len()
            invariant
                i <= self.entries@.len(),
                ev == entries_view(self.entries@),
                forall|j: int| 0 <= j < i ==> #[trigger] ev[j].0 != ip@,
            decreases self.entries@.len() - i,
        {
            if text::str_eq(self.entries[i].0.as_str(), ip) {
                return Some(i);
            }
            assert(ev[i as int].0 == self.entries@[i as int].0@);
            i = i + 1;
        }
        proof {
            if has_key(ev, ip@) {
                let j = choose|j: int| 0 <= j < ev.len() && #[trigger] ev[j].0 == ip@;
                assert(ev[j].0 != ip@);
            }
        }
        None
    }

    /// The record of `ip`, or an empty one.
    fn activity_for(&self, ip: &str) -> (r: (Option<usize>, IpActivity))
        ensures
            activity_view(r.1) == activity_of(self@, ip@),
            match r.0 {
                Some(i) => i < self.entries@.len() && self.entries@[i as int].0@ == ip@
                    && self@.dom().contains(ip@),
                None => !self@.dom().contains(ip@),
            },
    {
        proof {
            use_type_invariant(self);
        }
        let ghost ev = entries_view(self.entries@);
        match self.find(ip) {
            Some(i) => {
                proof {
                    assert(ev[i as int].0 == ip@);
                    lemma_map_of_at(ev, i as int);
                }
                (Some(i), self.entries[i].1.clone_activity())
            },
            None => {
                let a = IpActivity { violations: Vec::new(), blocked_until: None };
                proof {
                    assert(a.violations@ =~= Seq::<ViolationRecord>::empty());
                }
                (None, a)
            },
        }
    }

    /// Stores `a` as the record of `ip` (at index `at` when it has one).
    fn store(&mut self, at: Option<usize>, ip: &str, a: IpActivity)
        requires
            match at {
                Some(i) => i < old(self).entries@.len() && old(self).entries@[i as int].0@ == ip@,
                None => !old(self)@.dom().contains(ip@),
            },
        ensures
            final(self)@ == old(self)@.insert(ip@, activity_view(a)),
            final(self).spec_config() == old(self).spec_config(),
    {
        proof {
            use_type_invariant(&*self);
        }
        let ghost ev = entries_view(self.entries@);
        let mut entries: Vec<(String, IpActivity)> = Vec::new();
        std::mem::swap(&mut entries, &mut self.entries);
        let ghost av = activity_view(a);
        match at {
            Some(i) => {
                let key = entries[i].0.clone();
                proof {
                    lemma_map_of_update(ev, i as int, av);
                }
                entries.set(i, (key, a));
                proof {
                    assert(entries_view(entries@) =~= ev.update(i as int, (ev[i as int].0, av)));
                }
            },
            None => {
                proof {
                    lemma_map_of_push(ev, ip@, av);
                }
                entries.push((text::owned(ip), a));
                proof {
                    assert(entries_view(entries@) =~= ev.push((ip@, av)));
                }
            },
        }
        self.entries = entries;
    }

    /// Number of violations in the counting window ending at `now`.
    fn count_in_window(&self, vs: &Vec<ViolationRecord>, now: u64) -> (n: usize)
        ensures
            n == count_within(vs@, now, self.config.violation_window_secs as int),
    {
        let window = self.config.violation_window_secs;
        let mut n: usize = 0;
        let mut i: usize = 0;
        while i < vs.len()
            invariant
                i <= vs@.len(),
                window == self.config.violation_window_secs,
                n == count_within(vs@.take(i as int), now, window as int),
                n <= i,
            decreases vs@.len() - i,
        {
            proof {
                assert(vs@.take(i + 1).drop_last() =~= vs@.take(i as int));
            }
            if vs[i].timestamp as u128 + window as u128 >= now as u128 {
                n = n + 1;
            }
            i = i + 1;
        }
        proof {
            assert(vs@.take(i as int) =~= vs@);
        }
        n
    }

    /// Records a violation of `ip` at `now`, and blocks the address when the
    /// violation is critical (and auto-blocking is on) or when the violations
    /// in the window, this one included, reach the maximum.
    pub fn record_violation_at(&mut self, ip: &str, violation: ViolationRecord, now: u64)
        ensures
            final(self)@ == old(self)@.insert(
                ip@,
                recorded(activity_of(old(self)@, ip@), old(self).spec_config(), violation, now),
            ),
            final(self).spec_config() == old(self).spec_config(),
    {
        let (at, mut a) = self.activity_for(ip);
        let in_window = self.count_in_window(&a.violations, now);
        let critical = self.config.auto_block_on_critical && violation.threat_level.rank() == 3;
        let should_block = critical || in_window as u128 + 1
            >= self.config.max_violations_before_block as u128;
        a.violations.push(violation);
        if should_block {
            a.blocked_until = Some(now.saturating_add(self.config.block_duration_secs));
        }
        self.store(at, ip, a);
    }

    /// Records a violation of `ip` now, by the system clock.
    pub fn record_violation(&mut self, ip: &str, violation: ViolationRecord)
        ensures
            exists|now: u64|
                final(self)@ == old(self)@.insert(
                    ip@,
                    recorded(activity_of(old(self)@, ip@), old(self).spec_config(), violation, now),
                ),
            final(self).spec_config() == old(self).spec_config(),
    {
        let now = clock::now_secs();
        self.record_violation_at(ip, violation, now);
    }

    /// The summary of `ip` at `now`.
    pub fn violation_summary_at(&self, ip: &str, now: u64) -> (s: ViolationSummary)
        ensures
            s == summary_of(lookup(self@, ip@), self.spec_config(), now),
    {
        let (at, a) = self.activity_for(ip);
        match at {
            None => ViolationSummary::default(),
            Some(_) => {
                let ghost vs = a.violations@;
                let in_window = self.count_in_window(&a.violations, now);
                let active = match a.blocked_until {
                    Some(e) => e > now,
                    None => false,
                };
                let n = a.violations.len();
                let max_level = max_threat_level(&a.violations);
                let first = if n > 0 {
                    Some(a.violations[0].timestamp)
                } else {
                    None
                };
                let last = if n > 0 {
                    Some(a.violations[n - 1].timestamp)
                } else {
                    None
                };
                ViolationSummary {
                    total_violations: n,
                    violations_in_window: in_window,
                    is_blocked: active,
                    block_expires_at: if active {
                        a.blocked_until
                    } else {
                        None
                    },
                    max_threat_level: max_level,
                    first_violation_at: first,
                    last_violation_at: last,
                }
            },
        }
    }

    /// The summary of `ip` now, by the system clock.
    pub fn get_violation_summary(&self, ip: &str) -> (s: ViolationSummary)
        ensures
            exists|now: u64| s == summary_of(lookup(self@, ip@), self.spec_config(), now),
    {
        self.violation_summary_at(ip, clock::now_secs())
    }

    /// Whether `ip` is blocked at `now`.
    pub fn is_blocked_at(&self, ip: &str, now: u64) -> (r: bool)
        ensures
            r == blocked_in(self@, ip@, now),
    {
        let (at, a) = self.activity_for(ip);
        match a.blocked_until {
            Some(e) => e > now,
            None => false,
        }
    }

    /// Whether `ip` is blocked now, by the system clock.
    pub fn is_blocked(&self, ip: &str) -> (r: bool)
        ensures
            exists|now: u64| r == #[trigger] blocked_in(self@, ip@, now),
    {
        let now = clock::now_secs();
        let r = self.is_blocked_at(ip, now);
        assert(r == blocked_in(self@, ip@, now));
        r
    }

    /// Blocks `ip` for `duration_secs` from `now`, replacing any earlier block.
    pub fn block_ip_at(&mut self, ip: &str, duration_secs: u64, now: u64)
        ensures
            final(self)@ == old(self)@.insert(
                ip@,
                (activity_of(old(self)@, ip@).0, Some(expiry(now, duration_secs))),
            ),
            final(self).spec_config() == old(self).spec_config(),
    {
        let (at, mut a) = self.activity_for(ip);
        a.blocked_until = Some(now.saturating_add(duration_secs));
        self.store(at, ip, a);
    }

    /// Blocks `ip` for `duration_secs` from now, by the system clock.
    pub fn block_ip(&mut self, ip: &str, duration_secs: u64)
        ensures
            exists|now: u64|
                final(self)@ == old(self)@.insert(
                    ip@,
                    (activity_of(old(self)@, ip@).0, Some(expiry(now, duration_secs))),
                ),
            final(self).spec_config() == old(self).spec_config(),
    {
        let now = clock::now_secs();
        self.block_ip_at(ip, duration_secs, now);
    }

    /// Lifts the block of `ip`; its violations stay.
    pub fn unblock_ip(&mut self, ip: &str)
        ensures
            old(self)@.dom().contains(ip@) ==> final(self)@ == old(self)@.insert(
                ip@,
                (old(self)@[ip@].0, None),
            ),
            !old(self)@.dom().contains(ip@) ==> final(self)@ == old(self)@,
            final(self).spec_config() == old(self).spec_config(),
    {
        let (at, mut a) = self.activity_for(ip);
        if at.is_some() {
            a.blocked_until = None;
            self.store(at, ip, a);
        }
    }

    /// Forgets the violations of `ip`; its block stays.
    pub fn clear_violations(&mut self, ip: &str)
        ensures
            old(self)@.dom().contains(ip@) ==> final(self)@ == old(self)@.insert(
                ip@,
                (Seq::<ViolationRecord>::empty(), old(self)@[ip@].1),
            ),
            !old(self)@.dom().contains(ip@) ==> final(self)@ == old(self)@,
            final(self).spec_config() == old(self).spec_config(),
    {
        let (at, mut a) = self.activity_for(ip);
        if at.is_some() {
            a.violations = Vec::new();
            proof {
                assert(a.violations@ =~= Seq::<ViolationRecord>::empty());
            }
            self.store(at, ip, a);
        }
    }

    /// The addresses blocked at `now`, each once.
    pub fn blocked_ips_at(&self, now: u64) -> (r: Vec<String>)
        ensures
            lists_blocked(r@, self@, now),
            forall|i: int, j: int|
                0 <= i < r@.len() && 0 <= j < r@.len() && i != j ==> #[trigger] r@[i]@
                    != #[trigger] r@[j]@,
    {
        proof {
            use_type_invariant(self);
        }
        let ghost ev = entries_view(self.entries@);
        let mut r: Vec<String> = Vec::new();
        let mut idx: Ghost<Seq<int>> = Ghost(Seq::empty());
        let mut i: usize = 0;
        while i < self.entries.len()
            invariant
                i <= self.entries@.len(),
                ev == entries_view(self.entries@),
                distinct_keys(ev),
                idx@.len() == r@.len(),
                forall|q: int|
                    0 <= q < r@.len() ==> 0 <= #[trigger] idx@[q] < i && r@[q]@ == ev[idx@[q]].0
                        && is_active(ev[idx@[q]].1.1, now),
                forall|q: int, w: int| 0 <= q < w < r@.len() ==> idx@[q] < idx@[w],
                forall|j: int|
                    0 <= j < i && is_active(#[trigger] ev[j].1.1, now) ==> exists|q: int|
                        0 <= q < r@.len() && idx@[q] == j,
            decreases self.entries@.len() - i,
        {
            let active = match self.entries[i].1.blocked_until {
                Some(e) => e > now,
                None => false,
            };
            let ghost old_idx = idx@;
            let ghost old_len = r@.len();
            assert(ev[i as int].1.1 == self.entries@[i as int].1.blocked_until);
            if active {
                r.push(self.entries[i].0.clone());
                proof {
                    idx@ = idx@.push(i as int);
                    assert(idx@[r@.len() - 1] == i);
                }
            }
            proof {
                assert forall|j: int|
                    0 <= j < i + 1 && is_active(#[trigger] ev[j].1.1, now) implies exists|q: int|
                    0 <= q < r@.len() && idx@[q] == j by {
                    if j < i {
                        let q = choose|q: int| 0 <= q < old_len && old_idx[q] == j;
                        assert(idx@[q] == j);
                    } else {
                        assert(idx@[old_len as int] == j);
                    }
                }
            }
            i = i + 1;
        }
        proof {
            assert forall|k: Seq<char>|
                (exists|q: int| 0 <= q < r@.len() && #[trigger] r@[q]@ == k) <==> (self@.dom().contains(
                    k,
                ) && is_active(self@[k].1, now)) by {
                if exists|q: int| 0 <= q < r@.len() && #[trigger] r@[q]@ == k {
                    let q = choose|q: int| 0 <= q < r@.len() && #[trigger] r@[q]@ == k;
                    lemma_map_of_at(ev, idx@[q]);
                }
                if self@.dom().contains(k) && is_active(self@[k].1, now) {
                    let j = choose|j: int| 0 <= j < ev.len() && #[trigger] ev[j].0 == k;
                    lemma_map_of_at(ev, j);
                    assert(is_active(ev[j].1.1, now));
                    let q = choose|q: int| 0 <= q < r@.len() && idx@[q] == j;
                    assert(r@[q]@ == k);
                }
            }
            assert forall|q: int, w: int|
                0 <= q < r@.len() && 0 <= w < r@.len() && q != w implies #[trigger] r@[q]@
                != #[trigger] r@[w]@ by {
                if q < w {
                    assert(idx@[q] < idx@[w]);
                } else {
                    assert(idx@[w] < idx@[q]);
                }
            }
        }
        r
    }

    /// Drops violations older than 24 counting windows, clears blocks that
    /// have ended, and forgets addresses left with neither.
    pub fn cleanup_expired_at(&mut self, now: u64)
        ensures
            final(self)@ == cleaned_map(old(self)@, old(self).spec_config(), now),
            final(self).spec_config() == old(self).spec_config(),
    {
        proof {
            use_type_invariant(&*self);
        }
        let ghost ev = entries_view(self.entries@);
        let ghost cfg = self.config;
        let window = self.config.violation_window_secs;
        let mut old_entries: Vec<(String, IpActivity)> = Vec::new();
        std::mem::swap(&mut old_entries, &mut self.entries);
        let mut kept: Vec<(String, IpActivity)> = Vec::new();
        let mut src: Ghost<Seq<int>> = Ghost(Seq::empty());
        let mut i: usize = 0;
        while i < old_entries.len()
            invariant
                i <= old_entries@.len(),
                ev == entries_view(old_entries@),
                distinct_keys(ev),
                window == cfg.violation_window_secs,
                src@.len() == kept@.len(),
                forall|q: int|
                    0 <= q < kept@.len() ==> 0 <= #[trigger] src@[q] < i && entries_view(
                        kept@,
                    )[q].0 == ev[src@[q]].0 && entries_view(kept@)[q].1 == cleaned(
                        ev[src@[q]].1,
                        cfg,
                        now,
                    ) && worth_keeping(entries_view(kept@)[q].1),
                forall|q: int, w: int| 0 <= q < w < kept@.len() ==> src@[q] < src@[w],
                forall|j: int|
                    0 <= j < i && worth_keeping(cleaned(#[trigger] ev[j].1, cfg, now)) ==> exists|
                        q: int,
                    | 0 <= q < kept@.len() && src@[q] == j,
            decreases old_entries@.len() - i,
        {
            let violations = retain_recent(&old_entries[i].1.violations, now, window);
            let blocked = match old_entries[i].1.blocked_until {
                Some(e) => if e > now {
                    Some(e)
                } else {
                    None
                },
                None => None,
            };
            let ghost old_src = src@;
            let ghost old_len = kept@.len();
            let ghost old_kept = entries_view(kept@);
            assert(ev[i as int] == (old_entries@[i as int].0@, activity_view(old_entries@[i as int].1)));
            if violations.len() > 0 || blocked.is_some() {
                let key = old_entries[i].0.clone();
                kept.push((key, IpActivity { violations, blocked_until: blocked }));
                proof {
                    src@ = src@.push(i as int);
                    assert(entries_view(kept@) =~= old_kept.push(entries_view(kept@).last()));
                }
            }
            proof {
                assert forall|q: int|
                    0 <= q < kept@.len() implies 0 <= #[trigger] src@[q] < i + 1 && entries_view(
                    kept@,
                )[q].0 == ev[src@[q]].0 && entries_view(kept@)[q].1 == cleaned(
                    ev[src@[q]].1,
                    cfg,
                    now,
                ) && worth_keeping(entries_view(kept@)[q].1) by {
                    if q < old_len {
                        assert(entries_view(kept@)[q] == old_kept[q]);
                    }
                }
                assert forall|j: int|
                    0 <= j < i + 1 && worth_keeping(cleaned(#[trigger] ev[j].1, cfg, now)) implies exists|
                    q: int,
                | 0 <= q < kept@.len() && src@[q] == j by {
                    if j < i {
                        let q = choose|q: int| 0 <= q < old_len && old_src[q] == j;
                        assert(src@[q] == j);
                    } else {
                        assert(src@[old_len as int] == j);
                    }
                }
            }
            i = i + 1;
        }
        let ghost kv = entries_view(kept@);
        proof {
            assert forall|x: int, y: int|
                0 <= x < kv.len() && 0 <= y < kv.len() && x != y implies #[trigger] kv[x].0
                != #[trigger] kv[y].0 by {
                if x < y {
                    assert(src@[x] < src@[y]);
                } else {
                    assert(src@[y] < src@[x]);
                }
            }
            let m = map_of(ev);
            let target = cleaned_map(m, cfg, now);
            assert forall|k: Seq<char>| #[trigger] has_key(kv, k) == target.dom().contains(k) by {
                if has_key(kv, k) {
                    let q = choose|q: int| 0 <= q < kv.len() && #[trigger] kv[q].0 == k;
                    lemma_map_of_at(ev, src@[q]);
                }
                if target.dom().contains(k) {
                    let j = choose|j: int| 0 <= j < ev.len() && #[trigger] ev[j].0 == k;
                    lemma_map_of_at(ev, j);
                    let q = choose|q: int| 0 <= q < kv.len() && src@[q] == j;
                    assert(kv[q].0 == k);
                }
            }
            assert forall|k: Seq<char>| target.dom().contains(k) implies #[trigger] map_of(kv)[k]
                == target[k] by {
                let q = choose|q: int| 0 <= q < kv.len() && #[trigger] kv[q].0 == k;
                lemma_map_of_at(kv, q);
                lemma_map_of_at(ev, src@[q]);
            }
            assert(map_of(kv) =~= target);
        }
        self.entries = kept;
    }

    /// Cleans up as of now, by the system clock.
    pub fn cleanup_expired(&mut self)
        ensures
            exists|now: u64| final(self)@ == #[trigger] cleaned_map(old(self)@, old(self).spec_config(), now),
            final(self).spec_config() == old(self).spec_config(),
    {
        let now = clock::now_secs();
        self.cleanup_expired_at(now);
    }

    /// The addresses blocked now, by the system clock.
    pub fn get_blocked_ips(&self) -> (r: Vec<String>)
        ensures
            exists|now: u64| #[trigger] lists_blocked(r@, self@, now),
    {
        self.blocked_ips_at(clock::now_secs())
    }
}

impl IpActivity {
    /// A copy of the record.
    fn clone_activity(&self) -> (c: IpActivity)
        ensures
            activity_view(c) == activity_view(*self),
    {
        let mut vs: Vec<ViolationRecord> = Vec::new();
        let mut i: usize = 0;
        while i < self.violations.len()
            invariant
                i <= self.violations@.len(),
                vs@ == self.violations@.take(i as int),
            decreases self.violations@.len() - i,
        {
            vs.push(self.violations[i].copy_record());
            proof {
                assert(self.violations@.take(i + 1) =~= self.violations@.take(i as int).push(
                    self.violations@[i as int],
                ));
            }
            i = i + 1;
        }
        proof {
            assert(self.violations@.take(i as int) =~= self.violations@);
        }
        IpActivity { violations: vs, blocked_until: self.blocked_until }
    }
}

impl ViolationRecord {
    fn copy_record(&self) -> (c: ViolationRecord)
        ensures
            c == *self,
    {
        ViolationRecord {
            category: self.category.clone(),
            threat_level: self.threat_level,
            timestamp: self.timestamp,
            details: match &self.details {
                Some(d) => Some(d.clone()),
                None => None,
            },
        }
    }
}

/// The violations that a cleanup at `now` keeps.
fn retain_recent(vs: &Vec<ViolationRecord>, now: u64, window: u64) -> (r: Vec<ViolationRecord>)
    ensures
        r@ == retained(vs@, now, window as int),
{
    let mut r: Vec<ViolationRecord> = Vec::new();
    let mut i: usize = 0;
    while i < vs.len()
        invariant
            i <= vs@.len(),
            r@ == retained(vs@.take(i as int), now, window as int),
        decreases vs@.len() - i,
    {
        proof {
            assert(vs@.take(i + 1).drop_last() =~= vs@.take(i as int));
        }
        if vs[i].timestamp as u128 + 24 * (window as u128) >= now as u128 {
            r.push(vs[i].copy_record());
        }
        i = i + 1;
    }
    proof {
        assert(vs@.take(i as int) =~= vs@);
    }
    r
}

/// The most severe threat level among the violations.
fn max_threat_level(vs: &Vec<ViolationRecord>) -> (m: Option<ThreatLevel>)
    ensures
        m == max_threat(vs@),
{
    let mut m: Option<ThreatLevel> = None;
    let mut i: usize = 0;
    while i < vs.len()
        invariant
            i <= vs@.len(),
            m == max_threat(vs@.take(i as int)),
        decreases vs@.len() - i,
    {
        proof {
            assert(vs@.take(i + 1).drop_last() =~= vs@.take(i as int));
        }
        let level = vs[i].threat_level;
        m = match m {
            None => Some(level),
            Some(cur) => if level.rank() >= cur.rank() {
                Some(level)
            } else {
                Some(cur)
            },
        };
        i = i + 1;
    }
    proof {
        assert(vs@.take(i as int) =~= vs@);
    }
    m
}

// ------------------------------------------------------------------
// Laws
// ------------------------------------------------------------------

/// A critical violation blocks its address at once when auto-blocking is on
/// and blocks last a while.
pub proof fn lemma_critical_blocks_at_once(
    a: (Seq<ViolationRecord>, Option<u64>),
    cfg: SuspiciousActivityConfig,
    v: ViolationRecord,
    now: u64,
)
    requires
        cfg.auto_block_on_critical,
        v.threat_level == ThreatLevel::Critical,
        cfg.block_duration_secs > 0,
        now < u64::MAX,
    ensures
        is_active(recorded(a, cfg, v, now).1, now),
{
}

/// An address's record after `n` violations like `v`, each recorded at `now`.
pub open spec fn recorded_times(
    a: (Seq<ViolationRecord>, Option<u64>),
    cfg: SuspiciousActivityConfig,
    v: ViolationRecord,
    now: u64,
    n: nat,
) -> (Seq<ViolationRecord>, Option<u64>)
    decreases n,
{
    if n == 0 {
        a
    } else {
        recorded(recorded_times(a, cfg, v, now, (n - 1) as nat), cfg, v, now)
    }
}

proof fn lemma_recorded_times_count(
    cfg: SuspiciousActivityConfig,
    v: ViolationRecord,
    now: u64,
    n: nat,
)
    requires
        v.timestamp == now,
    ensures
        recorded_times(no_activity(), cfg, v, now, n).0.len() == n,
        count_within(
            recorded_times(no_activity(), cfg, v, now, n).0,
            now,
            cfg.violation_window_secs as int,
        ) == n,
    decreases n,
{
    if n > 0 {
        lemma_recorded_times_count(cfg, v, now, (n - 1) as nat);
        let prior = recorded_times(no_activity(), cfg, v, now, (n - 1) as nat).0;
        assert(prior.push(v).drop_last() =~= prior);
    }
}

/// Violations that arrive at the same moment block their address as soon as
/// their number reaches the maximum.
pub proof fn lemma_repeated_violations_block(
    cfg: SuspiciousActivityConfig,
    v: ViolationRecord,
    now: u64,
    n: nat,
)
    requires
        v.timestamp == now,
        n >= 1,
        n >= cfg.max_violations_before_block,
        cfg.block_duration_secs > 0,
        now < u64::MAX,
    ensures
        is_active(recorded_times(no_activity(), cfg, v, now, n).1, now),
{
    lemma_recorded_times_count(cfg, v, now, (n - 1) as nat);
}

proof fn lemma_retained_keeps_window(vs: Seq<ViolationRecord>, now: u64, window: int)
    requires
        window >= 0,
    ensures
        count_within(retained(vs, now, window), now, window) == count_within(vs, now, window),
    decreases vs.len(),
{
    if vs.len() > 0 {
        lemma_retained_keeps_window(vs.drop_last(), now, window);
        let r = retained(vs.drop_last(), now, window);
        if retention_kept(vs.last(), now, window) {
            assert(r.push(vs.last()).drop_last() =~= r);
        }
    }
}

/// A cleanup changes neither how many of an address's violations lie in the
/// counting window, nor whether and until when it is blocked.
pub proof fn lemma_cleanup_keeps_window_and_blocks(
    m: Map<Seq<char>, (Seq<ViolationRecord>, Option<u64>)>,
    cfg: SuspiciousActivityConfig,
    now: u64,
    ip: Seq<char>,
)
    ensures
        summary_of(lookup(cleaned_map(m, cfg, now), ip), cfg, now).violations_in_window
            == summary_of(lookup(m, ip), cfg, now).violations_in_window,
        summary_of(lookup(cleaned_map(m, cfg, now), ip), cfg, now).is_blocked == summary_of(
            lookup(m, ip),
            cfg,
            now,
        ).is_blocked,
        summary_of(lookup(cleaned_map(m, cfg, now), ip), cfg, now).block_expires_at
            == summary_of(lookup(m, ip), cfg, now).block_expires_at,
{
    if m.dom().contains(ip) {
        lemma_retained_keeps_window(m[ip].0, now, cfg.violation_window_secs as int);
    }
}

/// A block set at `now` for a positive duration is in force at `now`, and a
/// lifted block is not.
pub proof fn lemma_block_and_unblock(
    m: Map<Seq<char>, (Seq<ViolationRecord>, Option<u64>)>,
    ip: Seq<char>,
    duration: u64,
    now: u64,
)
    requires
        duration > 0,
        now < u64::MAX,
    ensures
        blocked_in(m.insert(ip, (activity_of(m, ip).0, Some(expiry(now, duration)))), ip, now),
        !blocked_in(m.insert(ip, (activity_of(m, ip).0, None)), ip, now),
{
}

impl Default for InMemorySuspiciousActivityTracker {
    /// A tracker with no records and the default thresholds (three
    /// violations within an hour block for a day; a critical one at once).
    fn default() -> (t: Self)
        ensures
            t@ == Map::<Seq<char>, (Seq<ViolationRecord>, Option<u64>)>::empty(),
            t.spec_config() == (SuspiciousActivityConfig {
                max_violations_before_block: 3,
                violation_window_secs: 3600,
                block_duration_secs: 86400,
                auto_block_on_critical: true,
            }),
    {
        InMemorySuspiciousActivityTracker::new(SuspiciousActivityConfig::default())
    }
}

/// A violation below the critical level never blocks on its own: it blocks
/// its address only when the violations in the window, itself included,
/// reach `max_violations_before_block`. Before that the recorded block stays
/// as it was; from then on the address is blocked from `now`. Either way the
/// violation is appended to the address's record.
pub proof fn lemma_non_critical_blocks_only_at_limit(
    a: (Seq<ViolationRecord>, Option<u64>),
    cfg: SuspiciousActivityConfig,
    v: ViolationRecord,
    now: u64,
)
    requires
        threat_rank(v.threat_level) < 3,
    ensures
        recorded(a, cfg, v, now).0 == a.0.push(v),
        count_within(a.0, now, cfg.violation_window_secs as int) + 1
            < cfg.max_violations_before_block ==> recorded(a, cfg, v, now).1 == a.1,
        count_within(a.0, now, cfg.violation_window_secs as int) + 1
            >= cfg.max_violations_before_block ==> recorded(a, cfg, v, now).1 == Some(
            expiry(now, cfg.block_duration_secs),
        ),
{
}

} // verus!
