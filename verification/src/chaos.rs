//! Fault injection for resilience testing: the bookkeeping of injected
//! faults, the decision whether a call may get a fault, and the errors that
//! stand for injected faults.
//!
//! Whether a fault fires is decided by a random draw against the fault
//! rate; that draw is made by the caller and handed in.

use vstd::prelude::*;

use crate::clock;
use crate::duration;
use crate::text;

verus! {

/// The outcome of deciding on one call.
#[derive(Debug, Clone, Copy, PartialEq, Eq, Structural)]
pub enum InjectionResult {
    /// The draw said no.
    NoInjection,
    /// A fault was injected.
    Injected,
    /// Injection is disabled or cooling down.
    Skipped,
    /// The maximum number of faults was reached.
    LimitReached,
}

/// Counts of calls and injected faults.
#[derive(Debug, Clone, Copy, PartialEq, Eq, Structural)]
pub struct ChaosStats {
    /// Calls seen.
    pub total_calls: u64,
    /// Faults injected.
    pub faults_injected: u64,
    /// Calls that got no fault.
    pub calls_skipped: u64,
    /// Error faults injected.
    pub errors_injected: u64,
    /// Latency faults injected.
    pub latency_injected: u64,
    /// Timeout faults injected.
    pub timeouts_injected: u64,
    /// Latency added in total, in milliseconds.
    pub total_latency_added_ms: u64,
}

/// All counts zero.
pub open spec fn zero_stats() -> ChaosStats {
    ChaosStats {
        total_calls: 0,
        faults_injected: 0,
        calls_skipped: 0,
        errors_injected: 0,
        latency_injected: 0,
        timeouts_injected: 0,
        total_latency_added_ms: 0,
    }
}

impl Default for ChaosStats {
    fn default() -> (s: Self)
        ensures
            s == zero_stats(),
    {
        ChaosStats {
            total_calls: 0,
            faults_injected: 0,
            calls_skipped: 0,
            errors_injected: 0,
            latency_injected: 0,
            timeouts_injected: 0,
            total_latency_added_ms: 0,
        }
    }
}

/// State of fault injection: counts, when the last fault was injected, and
/// how many faults may still be injected (when limited).
#[derive(Debug)]
pub struct ChaosContext {
    stats: ChaosStats,
    last_injection_ms: Option<u64>,
    remaining_faults: Option<u64>,
}

impl Default for ChaosContext {
    fn default() -> (c: Self)
        ensures
            c.spec_stats() == zero_stats(),
            c.spec_last_injection() is None,
            c.spec_remaining() is None,
    {
        ChaosContext::new()
    }
}

impl ChaosContext {
    /// The counts.
    pub closed spec fn spec_stats(self) -> ChaosStats {
        self.stats
    }

    /// When the last fault was injected, in milliseconds since the epoch.
    pub closed spec fn spec_last_injection(self) -> Option<u64> {
        self.last_injection_ms
    }

    /// Faults that may still be injected, when limited.
    pub closed spec fn spec_remaining(self) -> Option<u64> {
        self.remaining_faults
    }

    /// No calls yet, no limit.
    pub fn new() -> (c: Self)
        ensures
            c.spec_stats() == zero_stats(),
            c.spec_last_injection() is None,
            c.spec_remaining() is None,
    {
        ChaosContext { stats: ChaosStats::default(), last_injection_ms: None, remaining_faults: None }
    }

    /// No calls yet; at most `max_faults` faults.
    pub fn with_max_faults(max_faults: u64) -> (c: Self)
        ensures
            c.spec_stats() == zero_stats(),
            c.spec_last_injection() is None,
            c.spec_remaining() == Some(max_faults),
    {
        ChaosContext {
            stats: ChaosStats::default(),
            last_injection_ms: None,
            remaining_faults: Some(max_faults),
        }
    }

    /// Counts a call.
    pub fn record_call(&mut self)
        requires
            old(self).spec_stats().total_calls < u64::MAX,
        ensures
            final(self).spec_stats() == (ChaosStats {
                total_calls: (old(self).spec_stats().total_calls + 1) as u64,
                ..old(self).spec_stats()
            }),
            final(self).spec_last_injection() == old(self).spec_last_injection(),
            final(self).spec_remaining() == old(self).spec_remaining(),
    {
        self.stats.total_calls = self.stats.total_calls + 1;
    }

    /// Counts a decision made at `now_ms`: an injected fault is counted,
    /// remembered as the last one and taken from the limit (which wraps below
    /// zero as the atomic counter does); any other outcome counts as skipped.
    pub fn record_injection_at(&mut self, result: InjectionResult, now_ms: u64)
        requires
            result is Injected ==> old(self).spec_stats().faults_injected < u64::MAX,
            !(result is Injected) ==> old(self).spec_stats().calls_skipped < u64::MAX,
        ensures
            result is Injected ==> {
                &&& final(self).spec_stats() == (ChaosStats {
                    faults_injected: (old(self).spec_stats().faults_injected + 1) as u64,
                    ..old(self).spec_stats()
                })
                &&& final(self).spec_last_injection() == Some(now_ms)
                &&& final(self).spec_remaining() == match old(self).spec_remaining() {
                    Some(r) => Some(if r == 0 {
                        u64::MAX
                    } else {
                        (r - 1) as u64
                    }),
                    None => None,
                }
            },
            !(result is Injected) ==> {
                &&& final(self).spec_stats() == (ChaosStats {
                    calls_skipped: (old(self).spec_stats().calls_skipped + 1) as u64,
                    ..old(self).spec_stats()
                })
                &&& final(self).spec_last_injection() == old(self).spec_last_injection()
                &&& final(self).spec_remaining() == old(self).spec_remaining()
            },
    {
        match result {
            InjectionResult::Injected => {
                self.stats.faults_injected = self.stats.faults_injected + 1;
                self.last_injection_ms = Some(now_ms);
                self.remaining_faults = match self.remaining_faults {
                    Some(r) => Some(r.wrapping_sub(1)),
                    None => None,
                };
            },
            _ => {
                self.stats.calls_skipped = self.stats.calls_skipped + 1;
            },
        }
    }

    /// Counts a decision made now, by the system clock.
    pub fn record_injection(&mut self, result: InjectionResult)
        requires
            result is Injected ==> old(self).spec_stats().faults_injected < u64::MAX,
            !(result is Injected) ==> old(self).spec_stats().calls_skipped < u64::MAX,
        ensures
            result is Injected ==> final(self).spec_stats() == (ChaosStats {
                faults_injected: (old(self).spec_stats().faults_injected + 1) as u64,
                ..old(self).spec_stats()
            }) && final(self).spec_last_injection() is Some,
            !(result is Injected) ==> final(self).spec_stats() == (ChaosStats {
                calls_skipped: (old(self).spec_stats().calls_skipped + 1) as u64,
                ..old(self).spec_stats()
            }),
    {
        self.record_injection_at(result, clock::now_millis());
    }

    /// Counts an error fault.
    pub fn record_error(&mut self)
        requires
            old(self).spec_stats().errors_injected < u64::MAX,
        ensures
            final(self).spec_stats() == (ChaosStats {
                errors_injected: (old(self).spec_stats().errors_injected + 1) as u64,
                ..old(self).spec_stats()
            }),
            final(self).spec_last_injection() == old(self).spec_last_injection(),
            final(self).spec_remaining() == old(self).spec_remaining(),
    {
        self.stats.errors_injected = self.stats.errors_injected + 1;
    }

    /// Counts a latency fault of `latency_ms` milliseconds.
    pub fn record_latency(&mut self, latency_ms: u64)
        requires
            old(self).spec_stats().latency_injected < u64::MAX,
            old(self).spec_stats().total_latency_added_ms + latency_ms <= u64::MAX,
        ensures
            final(self).spec_stats() == (ChaosStats {
                latency_injected: (old(self).spec_stats().latency_injected + 1) as u64,
                total_latency_added_ms: (old(self).spec_stats().total_latency_added_ms
                    + latency_ms) as u64,
                ..old(self).spec_stats()
            }),
            final(self).spec_last_injection() == old(self).spec_last_injection(),
            final(self).spec_remaining() == old(self).spec_remaining(),
    {
        self.stats.latency_injected = self.stats.latency_injected + 1;
        self.stats.total_latency_added_ms = self.stats.total_latency_added_ms + latency_ms;
    }

    /// Counts a timeout fault.
    pub fn record_timeout(&mut self)
        requires
            old(self).spec_stats().timeouts_injected < u64::MAX,
        ensures
            final(self).spec_stats() == (ChaosStats {
                timeouts_injected: (old(self).spec_stats().timeouts_injected + 1) as u64,
                ..old(self).spec_stats()
            }),
            final(self).spec_last_injection() == old(self).spec_last_injection(),
            final(self).spec_remaining() == old(self).spec_remaining(),
    {
        self.stats.timeouts_injected = self.stats.timeouts_injected + 1;
    }

    /// Whether another fault may be injected: always without a limit, else
    /// while some remain.
    pub fn can_inject(&self) -> (r: bool)
        ensures
            r == match self.spec_remaining() {
                Some(n) => n > 0,
                None => true,
            },
    {
        match self.remaining_faults {
            Some(n) => n > 0,
            None => true,
        }
    }

    /// Milliseconds from the last injected fault to `now_ms` (none when the
    /// clock reads earlier), if a fault was injected.
    pub fn time_since_last_injection_at(&self, now_ms: u64) -> (r: Option<u64>)
        ensures
            r == match self.spec_last_injection() {
                Some(t) => Some(if now_ms >= t {
                    (now_ms - t) as u64
                } else {
                    0u64
                }),
                None => None,
            },
    {
        match self.last_injection_ms {
            Some(t) => Some(if now_ms >= t {
                now_ms - t
            } else {
                0
            }),
            None => None,
        }
    }

    /// Milliseconds since the last injected fault, by the system clock.
    pub fn time_since_last_injection(&self) -> (r: Option<u64>)
        ensures
            r is Some <==> self.spec_last_injection() is Some,
    {
        self.time_since_last_injection_at(clock::now_millis())
    }

    /// The counts.
    pub fn stats(&self) -> (s: &ChaosStats)
        ensures
            *s == self.spec_stats(),
    {
        &self.stats
    }

    /// A copy of the counts.
    pub fn stats_snapshot(&self) -> (s: ChaosStats)
        ensures
            s == self.spec_stats(),
    {
        self.stats
    }

    /// Clears the counts and the time of the last fault; the limit stays.
    pub fn reset(&mut self)
        ensures
            final(self).spec_stats() == zero_stats(),
            final(self).spec_last_injection() is None,
            final(self).spec_remaining() == old(self).spec_remaining(),
    {
        self.stats = ChaosStats::default();
        self.last_injection_ms = None;
    }

    /// Faults that may still be injected, when limited.
    pub fn remaining_faults(&self) -> (r: Option<u64>)
        ensures
            r == self.spec_remaining(),
    {
        self.remaining_faults
    }
}

/// Configuration of a fault injector.
#[derive(Debug, Clone, Copy)]
pub struct FaultInjectorConfig {
    /// Whether faults are injected at all.
    pub enabled: bool,
    /// Least time between two injected faults.
    pub cooldown: Option<std::time::Duration>,
}

impl Default for FaultInjectorConfig {
    fn default() -> (c: Self)
        ensures
            c.enabled,
            c.cooldown is None,
    {
        FaultInjectorConfig { enabled: true, cooldown: None }
    }
}

impl FaultInjectorConfig {
    /// Injection on, no cooldown.
    pub fn enabled() -> (c: Self)
        ensures
            c.enabled,
            c.cooldown is None,
    {
        FaultInjectorConfig { enabled: true, cooldown: None }
    }

    /// Injection off.
    pub fn disabled() -> (c: Self)
        ensures
            !c.enabled,
            c.cooldown is None,
    {
        FaultInjectorConfig { enabled: false, cooldown: None }
    }

    /// The same configuration with a cooldown.
    pub fn with_cooldown(self, cooldown: std::time::Duration) -> (c: Self)
        ensures
            c.enabled == self.enabled,
            c.cooldown == Some(cooldown),
    {
        FaultInjectorConfig { enabled: self.enabled, cooldown: Some(cooldown) }
    }
}

/// What to do with a call at `now_ms`, given the random draw `draw_fires`
/// against the fault rate: skip when disabled, stop at the limit, skip
/// while cooling down after the last fault, else follow the draw.
pub open spec fn decision(
    enabled: bool,
    remaining: Option<u64>,
    cooldown_ms: Option<u128>,
    since_last_ms: Option<u64>,
    draw_fires: bool,
) -> InjectionResult {
    if !enabled {
        InjectionResult::Skipped
    } else if remaining matches Some(n) && n == 0 {
        InjectionResult::LimitReached
    } else if cooldown_ms matches Some(c) && since_last_ms matches Some(e) && e < c {
        InjectionResult::Skipped
    } else if draw_fires {
        InjectionResult::Injected
    } else {
        InjectionResult::NoInjection
    }
}

/// Once no faults remain, no fault is injected, whatever the draw; and a
/// disabled injector never injects.
pub proof fn lemma_no_fault_beyond_limit(
    enabled: bool,
    cooldown_ms: Option<u128>,
    since_last_ms: Option<u64>,
    draw_fires: bool,
)
    ensures
        decision(enabled, Some(0), cooldown_ms, since_last_ms, draw_fires) != InjectionResult::Injected,
        decision(false, None, cooldown_ms, since_last_ms, draw_fires) != InjectionResult::Injected,
{
}

/// Decides on a call at `now_ms` (see `decision`).
pub fn should_inject_at(
    config: &FaultInjectorConfig,
    context: &ChaosContext,
    now_ms: u64,
    draw_fires: bool,
) -> (r: InjectionResult)
    ensures
        r == decision(
            config.enabled,
            context.spec_remaining(),
            match config.cooldown {
                Some(d) => Some(duration::duration_millis(d)),
                None => None,
            },
            match context.spec_last_injection() {
                Some(t) => Some(if now_ms >= t {
                    (now_ms - t) as u64
                } else {
                    0u64
                }),
                None => None,
            },
            draw_fires,
        ),
{
    if !config.enabled {
        return InjectionResult::Skipped;
    }
    if !context.can_inject() {
        return InjectionResult::LimitReached;
    }
    match config.cooldown {
        Some(d) => {
            match context.time_since_last_injection_at(now_ms) {
                Some(elapsed) => {
                    if (elapsed as u128) < duration::millis_of(d) {
                        return InjectionResult::Skipped;
                    }
                },
                None => {},
            }
        },
        None => {},
    }
    if draw_fires {
        InjectionResult::Injected
    } else {
        InjectionResult::NoInjection
    }
}

/// An error that stands for an injected fault.
#[derive(Debug)]
pub enum InjectedError {
    /// A generic failure with a message.
    Generic(String),
    /// An I/O failure, with the I/O error's message.
    Io(String),
    /// A timeout after the given time.
    Timeout(std::time::Duration),
    /// A refused connection.
    ConnectionRefused,
    /// A reset connection.
    ConnectionReset,
    /// An exhausted resource.
    ResourceExhausted(String),
    /// A rate limit.
    RateLimited,
}

/// How `Debug` writes a duration (e.g. `5s`, `1.5ms`).
pub uninterp spec fn duration_debug(d: std::time::Duration) -> Seq<char>;

/// Writes a duration with its `Debug` implementation.
///
/// Claimed: the text depends on the duration alone.
#[verifier::external_body]
fn duration_debug_text(d: std::time::Duration) -> (s: String)
    ensures
        s@ == duration_debug(d),
{
    format!("{d:?}")
}

/// The message of an injected error.
pub open spec fn injected_error_text(e: InjectedError) -> Seq<char> {
    match e {
        InjectedError::Generic(m) => "Injected error: "@ + m@,
        InjectedError::Io(m) => "Injected I/O error: "@ + m@,
        InjectedError::Timeout(d) => "Injected timeout after "@ + duration_debug(d),
        InjectedError::ConnectionRefused => "Injected connection refused"@,
        InjectedError::ConnectionReset => "Injected connection reset"@,
        InjectedError::ResourceExhausted(m) => "Injected resource exhaustion: "@ + m@,
        InjectedError::RateLimited => "Injected rate limit"@,
    }
}

impl InjectedError {
    /// The error message.
    pub fn to_string(&self) -> (s: String)
        ensures
            s@ == injected_error_text(*self),
    {
        match self {
            InjectedError::Generic(m) => text::owned("Injected error: ").concat(m.as_str()),
            InjectedError::Io(m) => text::owned("Injected I/O error: ").concat(m.as_str()),
            InjectedError::Timeout(d) => text::owned("Injected timeout after ").concat(
                duration_debug_text(*d).as_str(),
            ),
            InjectedError::ConnectionRefused => text::owned("Injected connection refused"),
            InjectedError::ConnectionReset => text::owned("Injected connection reset"),
            InjectedError::ResourceExhausted(m) => text::owned(
                "Injected resource exhaustion: ",
            ).concat(m.as_str()),
            InjectedError::RateLimited => text::owned("Injected rate limit"),
        }
    }
}

// ------------------------------------------------------------------
// Faults
// ------------------------------------------------------------------

/// How an injected latency is drawn between its two bounds.
#[derive(Debug, Clone, Copy, PartialEq, Eq, Structural)]
pub enum LatencyDistributionType {
    /// Evenly between the minimum and the maximum.
    Uniform,
    /// Around a mean (held as the minimum) with a spread (held as the maximum).
    Normal,
    /// Exponentially around the middle of the bounds, clamped to them.
    Exponential,
}

impl Default for LatencyDistributionType {
    /// Uniform.
    fn default() -> (t: Self)
        ensures
            t == LatencyDistributionType::Uniform,
    {
        LatencyDistributionType::Uniform
    }
}

/// The latency a fault adds: two durations and how to draw between them.
/// Drawing a value is done by the application, with a random source.
#[derive(Debug, Clone, Copy)]
pub struct LatencyDistribution {
    /// Least latency (the mean for a normal distribution).
    pub min: std::time::Duration,
    /// Greatest latency (the spread for a normal distribution).
    pub max: std::time::Duration,
    /// How values are drawn.
    pub distribution: LatencyDistributionType,
}

impl LatencyDistribution {
    /// Always the same latency.
    pub fn constant(duration: std::time::Duration) -> (d: Self)
        ensures
            d.min == duration,
            d.max == duration,
            d.distribution == LatencyDistributionType::Uniform,
    {
        LatencyDistribution { min: duration, max: duration, distribution: LatencyDistributionType::Uniform }
    }

    /// Latencies evenly between `min` and `max`.
    pub fn uniform(min: std::time::Duration, max: std::time::Duration) -> (d: Self)
        ensures
            d.min == min,
            d.max == max,
            d.distribution == LatencyDistributionType::Uniform,
    {
        LatencyDistribution { min, max, distribution: LatencyDistributionType::Uniform }
    }

    /// Latencies around `mean` with spread `std_dev`.
    pub fn normal(mean: std::time::Duration, std_dev: std::time::Duration) -> (d: Self)
        ensures
            d.min == mean,
            d.max == std_dev,
            d.distribution == LatencyDistributionType::Normal,
    {
        LatencyDistribution { min: mean, max: std_dev, distribution: LatencyDistributionType::Normal }
    }
}

impl Default for LatencyDistribution {
    /// Evenly between 100 and 500 milliseconds.
    fn default() -> (d: Self)
        ensures
            d.min == duration::duration_of_millis(100),
            d.max == duration::duration_of_millis(500),
            d.distribution == LatencyDistributionType::Uniform,
    {
        LatencyDistribution {
            min: duration::from_millis(100),
            max: duration::from_millis(500),
            distribution: LatencyDistributionType::Uniform,
        }
    }
}

/// A kind of fault to inject.
#[derive(Debug, Clone)]
pub enum FaultType {
    /// An error with the given message.
    Error(String),
    /// Latency before the operation completes.
    Latency(LatencyDistribution),
    /// Latency, then an error with the given message.
    LatencyThenError {
        /// The latency.
        latency: LatencyDistribution,
        /// The message.
        error: String,
    },
    /// Waiting for the duration, then a timeout.
    Timeout(std::time::Duration),
    /// A corrupted response. How much of it is corrupted, a fraction, is kept
    /// with the application's policy.
    CorruptedResponse,
    /// A refused connection.
    ConnectionRefused,
    /// A reset connection.
    ConnectionReset,
    /// An exhausted resource, named.
    ResourceExhausted(String),
    /// A rate limit.
    RateLimited,
    /// A named fault of the user's own.
    Custom(String),
}

impl Default for FaultType {
    /// An error with the message `Injected fault`.
    fn default() -> (f: Self)
        ensures
            f matches FaultType::Error(m) && m@ == "Injected fault"@,
    {
        FaultType::Error(text::owned("Injected fault"))
    }
}

/// Whether `e` is the error that the fault `f` stands for: the fault's own
/// error where it has one, a generic error describing it otherwise.
pub open spec fn stands_for(f: FaultType, e: InjectedError) -> bool {
    match f {
        FaultType::Error(m) => e matches InjectedError::Generic(x) && x@ == m@,
        FaultType::Timeout(d) => e matches InjectedError::Timeout(x) && x == d,
        FaultType::ConnectionRefused => e is ConnectionRefused,
        FaultType::ConnectionReset => e is ConnectionReset,
        FaultType::ResourceExhausted(m) => e matches InjectedError::ResourceExhausted(x) && x@ == m@,
        FaultType::RateLimited => e is RateLimited,
        FaultType::Latency(_) => e matches InjectedError::Generic(x) && x@
            == "Unexpected latency fault"@,
        FaultType::LatencyThenError { error, .. } => e matches InjectedError::Generic(x) && x@
            == error@,
        FaultType::CorruptedResponse => e matches InjectedError::Generic(x) && x@
            == "Corrupted response"@,
        FaultType::Custom(n) => e matches InjectedError::Generic(x) && x@ == "Custom fault: "@
            + n@,
    }
}

impl InjectedError {
    /// The error a fault stands for (see `stands_for`).
    pub fn from_fault_type(fault_type: &FaultType) -> (e: Self)
        ensures
            stands_for(*fault_type, e),
    {
        match fault_type {
            FaultType::Error(m) => InjectedError::Generic(m.clone()),
            FaultType::Timeout(d) => InjectedError::Timeout(*d),
            FaultType::ConnectionRefused => InjectedError::ConnectionRefused,
            FaultType::ConnectionReset => InjectedError::ConnectionReset,
            FaultType::ResourceExhausted(m) => InjectedError::ResourceExhausted(m.clone()),
            FaultType::RateLimited => InjectedError::RateLimited,
            FaultType::Latency(_) => InjectedError::Generic(text::owned("Unexpected latency fault")),
            FaultType::LatencyThenError { error, .. } => InjectedError::Generic(error.clone()),
            FaultType::CorruptedResponse => InjectedError::Generic(text::owned("Corrupted response")),
            FaultType::Custom(n) => InjectedError::Generic(text::owned("Custom fault: ").concat(n.as_str())),
        }
    }
}

/// The views of strings.
pub open spec fn texts(v: Seq<String>) -> Seq<Seq<char>> {
    v.map_values(|s: String| s@)
}

/// Whether a fault policy with these target and excluded operations applies
/// to `operation`: it must not be excluded, and, when targets are given, it
/// must be one of them.
pub open spec fn targets_operation(targets: Seq<Seq<char>>, exclusions: Seq<Seq<char>>, operation: Seq<char>) -> bool {
    &&& !exclusions.contains(operation)
    &&& (targets.len() == 0 || targets.contains(operation))
}

fn listed_in(v: &Vec<String>, s: &str) -> (r: bool)
    ensures
        r == texts(v@).contains(s@),
{
    let mut i: usize = 0;
    while i < v.len()
        invariant
            i <= v@.len(),
            forall|j: int| 0 <= j < i ==> v@[j]@ != s@,
        decreases v@.len() - i,
    {
        if text::str_eq(v[i].as_str(), s) {
            proof {
                assert(texts(v@)[i as int] == s@);
            }
            return true;
        }
        i = i + 1;
    }
    proof {
        if texts(v@).contains(s@) {
            let k = choose|k: int| 0 <= k < texts(v@).len() && texts(v@)[k] == s@;
            assert(v@[k]@ == s@);
        }
    }
    false
}

/// Whether a policy with these targets and exclusions applies to an
/// operation (see `targets_operation`).
pub fn operation_targeted(targets: &Vec<String>, exclusions: &Vec<String>, operation: &str) -> (r: bool)
    ensures
        r == targets_operation(texts(targets@), texts(exclusions@), operation@),
{
    if listed_in(exclusions, operation) {
        return false;
    }
    if targets.len() > 0 && !listed_in(targets, operation) {
        return false;
    }
    true
}

fn copy_fault(f: &FaultType) -> (r: FaultType)
    ensures
        r == *f,
{
    match f {
        FaultType::Error(m) => FaultType::Error(m.clone()),
        FaultType::Latency(d) => FaultType::Latency(*d),
        FaultType::LatencyThenError { latency, error } => FaultType::LatencyThenError {
            latency: *latency,
            error: error.clone(),
        },
        FaultType::Timeout(d) => FaultType::Timeout(*d),
        FaultType::CorruptedResponse => FaultType::CorruptedResponse,
        FaultType::ConnectionRefused => FaultType::ConnectionRefused,
        FaultType::ConnectionReset => FaultType::ConnectionReset,
        FaultType::ResourceExhausted(m) => FaultType::ResourceExhausted(m.clone()),
        FaultType::RateLimited => FaultType::RateLimited,
        FaultType::Custom(n) => FaultType::Custom(n.clone()),
    }
}

// ------------------------------------------------------------------
// The injector
// ------------------------------------------------------------------

/// The counts after injecting the fault `f`, whose latency (for a latency
/// fault) was drawn as `latency_ms`: latency faults count their latency,
/// a latency followed by an error counts both, timeouts count as timeouts,
/// every other fault as an error.
pub open spec fn fault_counted(s: ChaosStats, f: FaultType, latency_ms: u64) -> ChaosStats {
    match f {
        FaultType::Latency(_) => ChaosStats {
            latency_injected: (s.latency_injected + 1) as u64,
            total_latency_added_ms: (s.total_latency_added_ms + latency_ms) as u64,
            ..s
        },
        FaultType::LatencyThenError { .. } => ChaosStats {
            latency_injected: (s.latency_injected + 1) as u64,
            total_latency_added_ms: (s.total_latency_added_ms + latency_ms) as u64,
            errors_injected: (s.errors_injected + 1) as u64,
            ..s
        },
        FaultType::Timeout(_) => ChaosStats {
            timeouts_injected: (s.timeouts_injected + 1) as u64,
            ..s
        },
        _ => ChaosStats { errors_injected: (s.errors_injected + 1) as u64, ..s },
    }
}

/// Whether every count can take one more call and fault, and the latency.
pub open spec fn counts_have_room(s: ChaosStats, latency_ms: u64) -> bool {
    &&& s.total_calls < u64::MAX
    &&& s.faults_injected < u64::MAX
    &&& s.calls_skipped < u64::MAX
    &&& s.errors_injected < u64::MAX
    &&& s.latency_injected < u64::MAX
    &&& s.timeouts_injected < u64::MAX
    &&& s.total_latency_added_ms + latency_ms <= u64::MAX
}

/// The cooldown in milliseconds, if any.
pub open spec fn cooldown_millis(c: FaultInjectorConfig) -> Option<u128> {
    match c.cooldown {
        Some(d) => Some(duration::duration_millis(d)),
        None => None,
    }
}

/// Milliseconds from the last fault to `now_ms` (0 when the clock reads
/// earlier), if there was one.
pub open spec fn since_last(last: Option<u64>, now_ms: u64) -> Option<u64> {
    match last {
        Some(t) => Some(if now_ms >= t {
            (now_ms - t) as u64
        } else {
            0u64
        }),
        None => None,
    }
}

/// Injects faults into calls: decides on each call by its configuration, its
/// state and a random draw against the policy's fault rate, and hands out
/// the policy's fault when one is injected.
#[derive(Debug)]
pub struct FaultInjector {
    config: FaultInjectorConfig,
    fault: Option<FaultType>,
    context: ChaosContext,
}

impl FaultInjector {
    /// The configuration.
    pub closed spec fn spec_config(self) -> FaultInjectorConfig {
        self.config
    }

    /// The fault the policy selects (none when the policy is off).
    pub closed spec fn spec_fault(self) -> Option<FaultType> {
        self.fault
    }

    /// The counts and limit.
    pub closed spec fn spec_context(self) -> ChaosContext {
        self.context
    }

    /// An injector with the default configuration for a policy that selects
    /// `fault` (none when the policy is off).
    pub fn new(fault: Option<FaultType>) -> (i: Self)
        ensures
            i.spec_config() == (FaultInjectorConfig { enabled: true, cooldown: None }),
            i.spec_fault() == fault,
            i.spec_context().spec_stats() == zero_stats(),
            i.spec_context().spec_last_injection() is None,
            i.spec_context().spec_remaining() is None,
    {
        FaultInjector { config: FaultInjectorConfig::default(), fault, context: ChaosContext::new() }
    }

    /// An injector with a configuration of its own.
    pub fn with_config(config: FaultInjectorConfig, fault: Option<FaultType>) -> (i: Self)
        ensures
            i.spec_config() == config,
            i.spec_fault() == fault,
            i.spec_context().spec_stats() == zero_stats(),
            i.spec_context().spec_last_injection() is None,
            i.spec_context().spec_remaining() is None,
    {
        FaultInjector { config, fault, context: ChaosContext::new() }
    }

    /// An injector that injects at most `max_faults` faults.
    pub fn with_max_faults(fault: Option<FaultType>, max_faults: u64) -> (i: Self)
        ensures
            i.spec_config() == (FaultInjectorConfig { enabled: true, cooldown: None }),
            i.spec_fault() == fault,
            i.spec_context().spec_stats() == zero_stats(),
            i.spec_context().spec_last_injection() is None,
            i.spec_context().spec_remaining() == Some(max_faults),
    {
        FaultInjector {
            config: FaultInjectorConfig::default(),
            fault,
            context: ChaosContext::with_max_faults(max_faults),
        }
    }

    /// An injector that never injects.
    pub fn disabled() -> (i: Self)
        ensures
            !i.spec_config().enabled,
            i.spec_fault() is None,
            i.spec_context().spec_stats() == zero_stats(),
            i.spec_context().spec_last_injection() is None,
            i.spec_context().spec_remaining() is None,
    {
        FaultInjector { config: FaultInjectorConfig::disabled(), fault: None, context: ChaosContext::new() }
    }

    /// Handles a call at `now_ms`. The call is counted and decided on (see
    /// `decision`, with `draw_fires` the policy's random draw). When a fault is
    /// injected and the policy selects one, it is counted (see
    /// `fault_counted`, with `latency_ms` the latency drawn for a latency
    /// fault), remembered as the last one, taken from the limit, and handed
    /// out; a decision against injecting is counted as skipped.
    pub fn maybe_inject_at(&mut self, now_ms: u64, draw_fires: bool, latency_ms: u64) -> (r: Option<
        FaultType,
    >)
        requires
            counts_have_room(old(self).spec_context().spec_stats(), latency_ms),
        ensures
            final(self).spec_config() == old(self).spec_config(),
            final(self).spec_fault() == old(self).spec_fault(),
            ({
                let ctx = old(self).spec_context();
                let called = ChaosStats {
                    total_calls: (ctx.spec_stats().total_calls + 1) as u64,
                    ..ctx.spec_stats()
                };
                let d = decision(
                    old(self).spec_config().enabled,
                    ctx.spec_remaining(),
                    cooldown_millis(old(self).spec_config()),
                    since_last(ctx.spec_last_injection(), now_ms),
                    draw_fires,
                );
                let fin = final(self).spec_context();
                if d == InjectionResult::Injected {
                    match old(self).spec_fault() {
                        Some(f) => {
                            &&& r == Some(f)
                            &&& fin.spec_stats() == fault_counted(
                                ChaosStats {
                                    faults_injected: (called.faults_injected + 1) as u64,
                                    ..called
                                },
                                f,
                                latency_ms,
                            )
                            &&& fin.spec_last_injection() == Some(now_ms)
                            &&& fin.spec_remaining() == match ctx.spec_remaining() {
                                Some(n) => Some(if n == 0 {
                                    u64::MAX
                                } else {
                                    (n - 1) as u64
                                }),
                                None => None,
                            }
                        },
                        None => {
                            &&& r is None
                            &&& fin.spec_stats() == called
                            &&& fin.spec_last_injection() == ctx.spec_last_injection()
                            &&& fin.spec_remaining() == ctx.spec_remaining()
                        },
                    }
                } else {
                    &&& r is None
                    &&& fin.spec_stats() == ChaosStats {
                        calls_skipped: (called.calls_skipped + 1) as u64,
                        ..called
                    }
                    &&& fin.spec_last_injection() == ctx.spec_last_injection()
                    &&& fin.spec_remaining() == ctx.spec_remaining()
                }
            }),
    {
        self.context.record_call();
        let result = should_inject_at(&self.config, &self.context, now_ms, draw_fires);
        if result == InjectionResult::Injected {
            match &self.fault {
                Some(f) => {
                    self.context.record_injection_at(InjectionResult::Injected, now_ms);
                    match f {
                        FaultType::Latency(_) => {
                            self.context.record_latency(latency_ms);
                        },
                        FaultType::LatencyThenError { .. } => {
                            self.context.record_latency(latency_ms);
                            self.context.record_error();
                        },
                        FaultType::Timeout(_) => {
                            self.context.record_timeout();
                        },
                        _ => {
                            self.context.record_error();
                        },
                    }
                    Some(copy_fault(f))
                },
                None => None,
            }
        } else {
            self.context.record_injection_at(result, now_ms);
            None
        }
    }

    /// Handles a call now, by the system clock (see `maybe_inject_at`).
    pub fn maybe_inject(&mut self, draw_fires: bool, latency_ms: u64) -> (r: Option<FaultType>)
        requires
            counts_have_room(old(self).spec_context().spec_stats(), latency_ms),
        ensures
            final(self).spec_config() == old(self).spec_config(),
            final(self).spec_fault() == old(self).spec_fault(),
            r is Some ==> r == old(self).spec_fault(),
            !old(self).spec_config().enabled ==> r is None,
            !draw_fires ==> r is None,
            final(self).spec_context().spec_stats().total_calls
                == old(self).spec_context().spec_stats().total_calls + 1,
    {
        self.maybe_inject_at(clock::now_millis(), draw_fires, latency_ms)
    }

    /// The counts.
    pub fn stats(&self) -> (s: &ChaosStats)
        ensures
            *s == self.spec_context().spec_stats(),
    {
        self.context.stats()
    }

    /// Clears the counts and the time of the last fault; the limit stays.
    pub fn reset(&mut self)
        ensures
            final(self).spec_config() == old(self).spec_config(),
            final(self).spec_fault() == old(self).spec_fault(),
            final(self).spec_context().spec_stats() == zero_stats(),
            final(self).spec_context().spec_last_injection() is None,
            final(self).spec_context().spec_remaining() == old(self).spec_context().spec_remaining(),
    {
        self.context.reset();
    }

    /// Faults that may still be injected, when limited.
    pub fn remaining_faults(&self) -> (r: Option<u64>)
        ensures
            r == self.spec_context().spec_remaining(),
    {
        self.context.remaining_faults()
    }
}

/// What a wrapped operation does, given the fault injected into it.
#[derive(Debug)]
pub enum WrapAction {
    /// Run the operation.
    Run,
    /// Wait a latency drawn from the distribution, then run the operation.
    DelayThenRun(LatencyDistribution),
    /// Wait a latency drawn from the distribution, then fail.
    DelayThenFail(LatencyDistribution, InjectedError),
    /// Wait the duration, then fail with a timeout.
    WaitThenFail(std::time::Duration, InjectedError),
    /// Fail at once.
    Fail(InjectedError),
}

/// What `wrap` does with an operation: run it when no fault was injected;
/// add latency before running it for a latency fault; add latency before
/// failing for a latency followed by an error; wait and time out for a
/// timeout; fail at once with the fault's error otherwise.
pub fn wrap_action(fault: Option<FaultType>) -> (a: WrapAction)
    ensures
        match fault {
            None => a is Run,
            Some(f) => match f {
                FaultType::Latency(d) => a == WrapAction::DelayThenRun(d),
                FaultType::LatencyThenError { latency, .. } => a matches WrapAction::DelayThenFail(
                    d,
                    e,
                ) && d == latency && stands_for(f, e),
                FaultType::Timeout(t) => a matches WrapAction::WaitThenFail(w, e) && w == t && (e
                    matches InjectedError::Timeout(x) && x == t),
                _ => a matches WrapAction::Fail(e) && stands_for(f, e),
            },
        },
{
    match fault {
        None => WrapAction::Run,
        Some(f) => match &f {
            FaultType::Latency(d) => WrapAction::DelayThenRun(*d),
            FaultType::LatencyThenError { latency, .. } => {
                let e = InjectedError::from_fault_type(&f);
                WrapAction::DelayThenFail(*latency, e)
            },
            FaultType::Timeout(t) => WrapAction::WaitThenFail(*t, InjectedError::Timeout(*t)),
            _ => WrapAction::Fail(InjectedError::from_fault_type(&f)),
        },
    }
}

/// What `wrap_errors_only` does with an operation: run it when no fault was
/// injected or the fault is a latency; fail at once with the fault's error
/// otherwise.
pub fn errors_only_action(fault: Option<FaultType>) -> (a: WrapAction)
    ensures
        match fault {
            None => a is Run,
            Some(f) => match f {
                FaultType::Latency(_) => a is Run,
                _ => a matches WrapAction::Fail(e) && stands_for(f, e),
            },
        },
{
    match fault {
        None => WrapAction::Run,
        Some(f) => match &f {
            FaultType::Latency(_) => WrapAction::Run,
            _ => WrapAction::Fail(InjectedError::from_fault_type(&f)),
        },
    }
}

} // verus!
