//! Circuit breaker for calls to external services.
//!
//! States: `Closed` (calls pass), `Open` (calls fail fast) and `HalfOpen`
//! (probing whether the service recovered). Times are milliseconds since the
//! Unix epoch; the `_at` methods take the time as an argument, the others read
//! the clock.
//!
//! A breaker created with a persistence path remembers that its state changed;
//! `take_state_to_persist` hands the state to store out and clears the mark.

use vstd::prelude::*;

use crate::clock;
use crate::text;

verus! {

/// Thresholds that drive the circuit breaker's transitions.
#[derive(Debug, Clone, Copy, PartialEq, Eq)]
pub struct CircuitBreakerConfig {
    /// Consecutive failures (while closed) that open the circuit.
    pub failure_threshold: u32,
    /// Consecutive successes (while half-open) that close the circuit.
    pub success_threshold: u32,
    /// Seconds an open circuit waits before it lets a probe through.
    pub half_open_timeout_secs: u64,
}

/// The default thresholds: 5 failures, 2 successes, 30 seconds.
pub open spec fn default_breaker_config() -> CircuitBreakerConfig {
    CircuitBreakerConfig { failure_threshold: 5, success_threshold: 2, half_open_timeout_secs: 30 }
}

impl CircuitBreakerConfig {
    /// The default thresholds: 5 failures, 2 successes, 30 seconds.
    pub fn default_config() -> (c: Self)
        ensures
            c == default_breaker_config(),
    {
        CircuitBreakerConfig { failure_threshold: 5, success_threshold: 2, half_open_timeout_secs: 30 }
    }

    /// Thresholds for a sensitive service: fail fast, recover quickly.
    pub fn sensitive() -> (c: Self)
        ensures
            c.failure_threshold == 3,
            c.success_threshold == 1,
            c.half_open_timeout_secs == 10,
    {
        CircuitBreakerConfig { failure_threshold: 3, success_threshold: 1, half_open_timeout_secs: 10 }
    }

    /// Thresholds for a resilient service: tolerate more failures.
    pub fn resilient() -> (c: Self)
        ensures
            c.failure_threshold == 10,
            c.success_threshold == 3,
            c.half_open_timeout_secs == 60,
    {
        CircuitBreakerConfig { failure_threshold: 10, success_threshold: 3, half_open_timeout_secs: 60 }
    }

    /// Thresholds given explicitly.
    pub fn custom(failure_threshold: u32, success_threshold: u32, half_open_timeout_secs: u64) -> (c:
        Self)
        ensures
            c.failure_threshold == failure_threshold,
            c.success_threshold == success_threshold,
            c.half_open_timeout_secs == half_open_timeout_secs,
    {
        CircuitBreakerConfig { failure_threshold, success_threshold, half_open_timeout_secs }
    }
}

impl Default for CircuitBreakerConfig {
    fn default() -> (c: Self)
        ensures
            c.failure_threshold == 5,
            c.success_threshold == 2,
            c.half_open_timeout_secs == 30,
    {
        Self::default_config()
    }
}

/// State of a circuit breaker.
#[derive(Debug, Clone, Copy, PartialEq, Eq, Structural)]
pub enum CircuitState {
    /// Normal operation, requests pass through.
    Closed,
    /// Service is down, requests fail fast.
    Open,
    /// Testing whether the service has recovered.
    HalfOpen,
}

/// Display text of a circuit state.
pub open spec fn state_text(s: CircuitState) -> Seq<char> {
    match s {
        CircuitState::Closed => "closed"@,
        CircuitState::Open => "open"@,
        CircuitState::HalfOpen => "half-open"@,
    }
}

/// The text under which a circuit state is stored.
pub open spec fn persisted_state_text(s: CircuitState) -> Seq<char> {
    match s {
        CircuitState::Closed => "closed"@,
        CircuitState::Open => "open"@,
        CircuitState::HalfOpen => "half_open"@,
    }
}

/// The circuit state that a stored text stands for; unknown text reads as closed.
pub open spec fn parse_persisted_state(t: Seq<char>) -> CircuitState {
    if t == "open"@ {
        CircuitState::Open
    } else if t == "half_open"@ {
        CircuitState::HalfOpen
    } else {
        CircuitState::Closed
    }
}

impl CircuitState {
    /// Display text: `closed`, `open` or `half-open`.
    pub fn to_string(&self) -> (s: String)
        ensures
            s@ == state_text(*self),
    {
        match self {
            CircuitState::Closed => text::owned("closed"),
            CircuitState::Open => text::owned("open"),
            CircuitState::HalfOpen => text::owned("half-open"),
        }
    }
}

/// The message of an open-circuit error for a service.
pub open spec fn open_error_text(service: Seq<char>) -> Seq<char> {
    "Circuit breaker open for service '"@ + service + "': service is temporarily unavailable"@
}

/// Error returned when the circuit is open.
#[derive(Debug, Clone)]
pub struct CircuitOpenError {
    /// Name of the service.
    pub service_name: String,
}

impl CircuitOpenError {
    /// The error message, naming the service.
    pub fn to_string(&self) -> (s: String)
        ensures
            s@ == open_error_text(self.service_name@),
    {
        let a = text::owned("Circuit breaker open for service '");
        let b = a.concat(self.service_name.as_str());
        b.concat("': service is temporarily unavailable")
    }
}

/// Error type for circuit breaker operations.
#[derive(Debug)]
pub enum CircuitBreakerError<E> {
    /// The circuit is open, preventing the call.
    CircuitOpen(CircuitOpenError),
    /// The underlying service returned an error.
    ServiceError(E),
}

impl<E> CircuitBreakerError<E> {
    /// Whether this is a circuit-open error.
    pub fn is_circuit_open(&self) -> (r: bool)
        ensures
            r == (self is CircuitOpen),
    {
        matches!(self, CircuitBreakerError::CircuitOpen(_))
    }

    /// Whether this is a service error.
    pub fn is_service_error(&self) -> (r: bool)
        ensures
            r == (self is ServiceError),
    {
        matches!(self, CircuitBreakerError::ServiceError(_))
    }

    /// The inner service error, if this is one.
    pub fn into_service_error(self) -> (r: Option<E>)
        ensures
            match self {
                CircuitBreakerError::ServiceError(e) => r == Some(e),
                CircuitBreakerError::CircuitOpen(_) => r is None,
            },
    {
        match self {
            CircuitBreakerError::ServiceError(e) => Some(e),
            CircuitBreakerError::CircuitOpen(_) => None,
        }
    }
}

/// The counters and timestamps of a circuit breaker.
#[derive(Debug, Clone, Copy, PartialEq, Eq, Structural)]
pub struct CircuitBreakerState {
    /// Current state.
    pub state: CircuitState,
    /// Consecutive failures.
    pub failure_count: u32,
    /// Consecutive successes.
    pub success_count: u32,
    /// When the circuit opened, in milliseconds since the Unix epoch.
    pub opened_at_ms: Option<u64>,
}

/// The state every circuit breaker starts in: closed, no counts.
pub open spec fn fresh_state() -> CircuitBreakerState {
    CircuitBreakerState {
        state: CircuitState::Closed,
        failure_count: 0,
        success_count: 0,
        opened_at_ms: None,
    }
}

/// The counters leave room for the increment that the next call may make.
pub open spec fn state_wf(s: CircuitBreakerState) -> bool {
    &&& s.state == CircuitState::Closed ==> s.failure_count < u32::MAX
    &&& s.state == CircuitState::HalfOpen ==> s.success_count < u32::MAX
}

/// Whether the open period has lasted the configured timeout at time `now`.
pub open spec fn timeout_elapsed(s: CircuitBreakerState, cfg: CircuitBreakerConfig, now: u64) -> bool {
    match s.opened_at_ms {
        Some(t) => now >= t + cfg.half_open_timeout_secs * 1000,
        None => false,
    }
}

/// The state observed at time `now`: an open circuit whose timeout has elapsed
/// is half-open, with its success count reset.
pub open spec fn advanced(s: CircuitBreakerState, cfg: CircuitBreakerConfig, now: u64) -> CircuitBreakerState {
    if s.state == CircuitState::Open && timeout_elapsed(s, cfg, now) {
        CircuitBreakerState {
            state: CircuitState::HalfOpen,
            failure_count: s.failure_count,
            success_count: 0,
            opened_at_ms: s.opened_at_ms,
        }
    } else {
        s
    }
}

/// Whether observing the state at `now` changes it (an open circuit turning
/// half-open).
pub open spec fn advance_transitions(s: CircuitBreakerState, cfg: CircuitBreakerConfig, now: u64) -> bool {
    advanced(s, cfg, now).state != s.state
}

/// The state after a successful call.
pub open spec fn after_success(s: CircuitBreakerState, cfg: CircuitBreakerConfig) -> CircuitBreakerState {
    match s.state {
        CircuitState::HalfOpen => {
            if s.success_count + 1 >= cfg.success_threshold {
                fresh_state()
            } else {
                CircuitBreakerState {
                    state: CircuitState::HalfOpen,
                    failure_count: 0,
                    success_count: (s.success_count + 1) as u32,
                    opened_at_ms: s.opened_at_ms,
                }
            }
        },
        _ => CircuitBreakerState {
            state: s.state,
            failure_count: 0,
            success_count: s.success_count,
            opened_at_ms: s.opened_at_ms,
        },
    }
}

/// The state of a circuit that opens at time `now`.
pub open spec fn opened_at(now: u64) -> CircuitBreakerState {
    CircuitBreakerState {
        state: CircuitState::Open,
        failure_count: 0,
        success_count: 0,
        opened_at_ms: Some(now),
    }
}

/// The state after a failed call at time `now`.
pub open spec fn after_failure(s: CircuitBreakerState, cfg: CircuitBreakerConfig, now: u64) -> CircuitBreakerState {
    match s.state {
        CircuitState::Closed => {
            if s.failure_count + 1 >= cfg.failure_threshold {
                opened_at(now)
            } else {
                CircuitBreakerState {
                    state: CircuitState::Closed,
                    failure_count: (s.failure_count + 1) as u32,
                    success_count: 0,
                    opened_at_ms: s.opened_at_ms,
                }
            }
        },
        CircuitState::HalfOpen => opened_at(now),
        CircuitState::Open => CircuitBreakerState {
            state: CircuitState::Open,
            failure_count: (s.failure_count + 1) as u32,
            success_count: 0,
            opened_at_ms: s.opened_at_ms,
        },
    }
}

/// Whether a success changes the circuit state (half-open to closed).
pub open spec fn success_transitions(s: CircuitBreakerState, cfg: CircuitBreakerConfig) -> bool {
    s.state == CircuitState::HalfOpen && s.success_count + 1 >= cfg.success_threshold
}

/// Whether a failure changes the circuit state (to open).
pub open spec fn failure_transitions(s: CircuitBreakerState, cfg: CircuitBreakerConfig) -> bool {
    ||| s.state == CircuitState::HalfOpen
    ||| s.state == CircuitState::Closed && s.failure_count + 1 >= cfg.failure_threshold
}

/// The state after `n` consecutive failed calls at time `now`.
pub open spec fn after_failures(s: CircuitBreakerState, cfg: CircuitBreakerConfig, now: u64, n: nat) -> CircuitBreakerState
    decreases n,
{
    if n == 0 {
        s
    } else {
        after_failure(after_failures(s, cfg, now, (n - 1) as nat), cfg, now)
    }
}

/// The state after `n` consecutive successful calls.
pub open spec fn after_successes(s: CircuitBreakerState, cfg: CircuitBreakerConfig, n: nat) -> CircuitBreakerState
    decreases n,
{
    if n == 0 {
        s
    } else {
        after_success(after_successes(s, cfg, (n - 1) as nat), cfg)
    }
}

/// A closed circuit stays closed, counting failures, until `failure_threshold`
/// consecutive failures; that failure opens it.
pub proof fn lemma_consecutive_failures_open(cfg: CircuitBreakerConfig, now: u64, n: nat)
    requires
        1 <= cfg.failure_threshold,
        n <= cfg.failure_threshold,
    ensures
        n < cfg.failure_threshold ==> after_failures(fresh_state(), cfg, now, n) == (CircuitBreakerState {
            state: CircuitState::Closed,
            failure_count: n as u32,
            success_count: 0,
            opened_at_ms: None,
        }),
        n == cfg.failure_threshold ==> after_failures(fresh_state(), cfg, now, n) == opened_at(now),
    decreases n,
{
    if n > 0 {
        lemma_consecutive_failures_open(cfg, now, (n - 1) as nat);
    }
}

/// A success on a closed circuit keeps it closed and forgets earlier failures.
pub proof fn lemma_success_resets_failures(s: CircuitBreakerState, cfg: CircuitBreakerConfig)
    requires
        s.state == CircuitState::Closed,
    ensures
        after_success(s, cfg).state == CircuitState::Closed,
        after_success(s, cfg).failure_count == 0,
{
}

/// The state after one call through the breaker at time `now` whose outcome
/// is `ok` (as `call_sync_at` states it): an open circuit at `now` refuses the
/// call and stays as it is; otherwise the outcome is recorded.
pub open spec fn after_call(s: CircuitBreakerState, cfg: CircuitBreakerConfig, ok: bool, now: u64) -> CircuitBreakerState {
    let pre = advanced(s, cfg, now);
    if pre.state == CircuitState::Open {
        pre
    } else if ok {
        after_success(pre, cfg)
    } else {
        after_failure(pre, cfg, now)
    }
}

/// The state after calls with the given outcomes (`true` for a success) at
/// the given times, in order.
pub open spec fn after_calls(
    s: CircuitBreakerState,
    cfg: CircuitBreakerConfig,
    calls: Seq<(bool, u64)>,
) -> CircuitBreakerState
    decreases calls.len(),
{
    if calls.len() == 0 {
        s
    } else {
        after_call(after_calls(s, cfg, calls.drop_last()), cfg, calls.last().0, calls.last().1)
    }
}

/// The number of failures at the end of `calls`, since the last success.
pub open spec fn trailing_failures(calls: Seq<(bool, u64)>) -> nat
    decreases calls.len(),
{
    if calls.len() == 0 || calls.last().0 {
        0
    } else {
        1 + trailing_failures(calls.drop_last())
    }
}

/// A closed circuit stays closed through any sequence of calls, at any
/// times, in which no run of consecutive failures reaches
/// `failure_threshold`: each success resets the count, so the count is
/// always the current run of failures.
pub proof fn lemma_short_failure_runs_keep_closed(cfg: CircuitBreakerConfig, calls: Seq<(bool, u64)>)
    requires
        forall|k: int|
            0 <= k <= calls.len() ==> #[trigger] trailing_failures(calls.take(k))
                < cfg.failure_threshold,
    ensures
        after_calls(fresh_state(), cfg, calls).state == CircuitState::Closed,
        after_calls(fresh_state(), cfg, calls).failure_count == trailing_failures(calls),
    decreases calls.len(),
{
    if calls.len() > 0 {
        let rest = calls.drop_last();
        assert forall|k: int| 0 <= k <= rest.len() implies #[trigger] trailing_failures(rest.take(k))
            < cfg.failure_threshold by {
            assert(rest.take(k) =~= calls.take(k));
        }
        lemma_short_failure_runs_keep_closed(cfg, rest);
        assert(calls.take(calls.len() as int) =~= calls);
        assert(trailing_failures(calls.take(calls.len() as int)) < cfg.failure_threshold);
    }
}

/// A circuit opened at `t` rejects calls until the timeout has passed and lets
/// a probe through (half-open, no successes yet) from then on.
pub proof fn lemma_open_until_timeout(cfg: CircuitBreakerConfig, t: u64, now: u64)
    ensures
        now < t + cfg.half_open_timeout_secs * 1000 ==> advanced(opened_at(t), cfg, now)
            == opened_at(t),
        now >= t + cfg.half_open_timeout_secs * 1000 ==> advanced(opened_at(t), cfg, now)
            == (CircuitBreakerState {
            state: CircuitState::HalfOpen,
            failure_count: 0,
            success_count: 0,
            opened_at_ms: Some(t),
        }),
{
}

/// A failed probe re-opens the circuit, restarting the timeout.
pub proof fn lemma_half_open_failure_reopens(s: CircuitBreakerState, cfg: CircuitBreakerConfig, now: u64)
    requires
        s.state == CircuitState::HalfOpen,
    ensures
        after_failure(s, cfg, now) == opened_at(now),
        failure_transitions(s, cfg),
{
}

/// A half-open circuit closes after `success_threshold` consecutive successes
/// and stays half-open before that.
pub proof fn lemma_consecutive_successes_close(cfg: CircuitBreakerConfig, t: Option<u64>, f: u32, n: nat)
    requires
        1 <= cfg.success_threshold,
        n <= cfg.success_threshold,
    ensures
        ({
            let probe = CircuitBreakerState {
                state: CircuitState::HalfOpen,
                failure_count: f,
                success_count: 0,
                opened_at_ms: t,
            };
            &&& 0 < n < cfg.success_threshold ==> after_successes(probe, cfg, n) == (CircuitBreakerState {
                state: CircuitState::HalfOpen,
                failure_count: 0,
                success_count: n as u32,
                opened_at_ms: t,
            })
            &&& n == cfg.success_threshold ==> after_successes(probe, cfg, n) == fresh_state()
        }),
    decreases n,
{
    if n > 0 {
        lemma_consecutive_successes_close(cfg, t, f, (n - 1) as nat);
    }
}

/// Every transition keeps the counters in range.
pub proof fn lemma_transitions_keep_wf(s: CircuitBreakerState, cfg: CircuitBreakerConfig, now: u64)
    requires
        state_wf(s),
    ensures
        state_wf(advanced(s, cfg, now)),
        s.state != CircuitState::Open ==> state_wf(after_success(s, cfg)),
        s.state != CircuitState::Open ==> state_wf(after_failure(s, cfg, now)),
{
}

/// Storing a state and restoring it gives back the state, with the opening
/// time rounded down to whole seconds.
pub proof fn lemma_persist_round_trip(s: CircuitBreakerState)
    ensures
        parse_persisted_state(persisted_state_text(s.state)) == s.state,
        restored_opened_at(
            match s.opened_at_ms {
                Some(t) => Some((t / 1000) as u64),
                None => None::<u64>,
            },
        ) == match s.opened_at_ms {
            Some(t) => Some(((t / 1000) * 1000) as u64),
            None => None::<u64>,
        },
{
    reveal_strlit("closed");
    reveal_strlit("open");
    reveal_strlit("half_open");
    assert("closed"@.len() != "open"@.len());
    assert("closed"@.len() != "half_open"@.len());
    assert("half_open"@.len() != "open"@.len());
}

/// Circuit breaker wrapper for external service calls.
#[derive(Debug)]
pub struct CircuitBreaker {
    name: String,
    config: CircuitBreakerConfig,
    core: CircuitBreakerState,
    persistence_path: Option<String>,
    unsaved: bool,
}

/// Stored form of a circuit breaker's state.
#[derive(Debug, Clone)]
pub struct PersistedCircuitState {
    /// Name of the circuit breaker.
    pub name: String,
    /// Current state: `closed`, `open` or `half_open`.
    pub state: String,
    /// Consecutive failures.
    pub failure_count: u32,
    /// Consecutive successes.
    pub success_count: u32,
    /// When the circuit opened, in seconds since the Unix epoch.
    pub opened_at_secs: Option<u64>,
}

/// The opening time that a stored state restores: whole seconds, as milliseconds.
pub open spec fn restored_opened_at(secs: Option<u64>) -> Option<u64> {
    match secs {
        Some(t) => if t * 1000 <= u64::MAX {
            Some((t * 1000) as u64)
        } else {
            None
        },
        None => None,
    }
}

impl PersistedCircuitState {
    /// The stored form of a breaker's state.
    pub fn from_internal(name: &str, state: &CircuitBreakerState) -> (p: Self)
        ensures
            p.name@ == name@,
            p.state@ == persisted_state_text(state.state),
            p.failure_count == state.failure_count,
            p.success_count == state.success_count,
            p.opened_at_secs == match state.opened_at_ms {
                Some(t) => Some((t / 1000) as u64),
                None => None::<u64>,
            },
    {
        let state_text = match state.state {
            CircuitState::Closed => text::owned("closed"),
            CircuitState::Open => text::owned("open"),
            CircuitState::HalfOpen => text::owned("half_open"),
        };
        let opened_at_secs = match state.opened_at_ms {
            Some(t) => Some(t / 1000),
            None => None,
        };
        PersistedCircuitState {
            name: text::owned(name),
            state: state_text,
            failure_count: state.failure_count,
            success_count: state.success_count,
            opened_at_secs,
        }
    }

    /// The breaker state that this stored form stands for.
    pub fn to_internal(&self) -> (s: CircuitBreakerState)
        ensures
            s.state == parse_persisted_state(self.state@),
            s.failure_count == self.failure_count,
            s.success_count == self.success_count,
            s.opened_at_ms == restored_opened_at(self.opened_at_secs),
    {
        let state = if text::str_eq(self.state.as_str(), "open") {
            CircuitState::Open
        } else if text::str_eq(self.state.as_str(), "half_open") {
            CircuitState::HalfOpen
        } else {
            CircuitState::Closed
        };
        let opened_at_ms = match self.opened_at_secs {
            Some(t) => t.checked_mul(1000),
            None => None,
        };
        CircuitBreakerState {
            state,
            failure_count: self.failure_count,
            success_count: self.success_count,
            opened_at_ms,
        }
    }
}

impl CircuitBreaker {
    #[verifier::type_invariant]
    spec fn inv(self) -> bool {
        state_wf(self.core)
    }

    /// Name of the breaker.
    pub closed spec fn spec_name(self) -> Seq<char> {
        self.name@
    }

    /// Thresholds of the breaker.
    pub closed spec fn spec_config(self) -> CircuitBreakerConfig {
        self.config
    }

    /// Counters and state of the breaker.
    pub closed spec fn spec_state(self) -> CircuitBreakerState {
        self.core
    }

    /// Where the breaker's state is stored, if it is.
    pub closed spec fn spec_persistence_path(self) -> Option<Seq<char>> {
        match self.persistence_path {
            Some(p) => Some(p@),
            None => None,
        }
    }

    /// Whether a state change has not been handed out for storing yet.
    pub closed spec fn spec_unsaved(self) -> bool {
        self.unsaved
    }

    /// A closed breaker with the default thresholds.
    pub fn new(name: &str) -> (cb: Self)
        ensures
            cb.spec_name() == name@,
            cb.spec_config() == default_breaker_config(),
            cb.spec_state() == fresh_state(),
            cb.spec_persistence_path() is None,
            !cb.spec_unsaved(),
    {
        Self::with_config(name, CircuitBreakerConfig::default_config())
    }

    /// A closed breaker with the given thresholds.
    pub fn with_config(name: &str, config: CircuitBreakerConfig) -> (cb: Self)
        ensures
            cb.spec_name() == name@,
            cb.spec_config() == config,
            cb.spec_state() == fresh_state(),
            cb.spec_persistence_path() is None,
            !cb.spec_unsaved(),
    {
        CircuitBreaker {
            name: text::owned(name),
            config,
            core: CircuitBreakerState {
                state: CircuitState::Closed,
                failure_count: 0,
                success_count: 0,
                opened_at_ms: None,
            },
            persistence_path: None,
            unsaved: false,
        }
    }

    /// The breaker state restored from a stored form, if the stored form is
    /// for the breaker called `name` and its counters are in range.
    pub fn load_state(stored: &PersistedCircuitState, name: &str) -> (r: Option<CircuitBreakerState>)
        ensures
            match r {
                Some(s) => {
                    &&& stored.name@ == name@
                    &&& s.state == parse_persisted_state(stored.state@)
                    &&& s.failure_count == stored.failure_count
                    &&& s.success_count == stored.success_count
                    &&& s.opened_at_ms == restored_opened_at(stored.opened_at_secs)
                    &&& state_wf(s)
                },
                None => stored.name@ != name@ || !state_wf(
                    CircuitBreakerState {
                        state: parse_persisted_state(stored.state@),
                        failure_count: stored.failure_count,
                        success_count: stored.success_count,
                        opened_at_ms: restored_opened_at(stored.opened_at_secs),
                    },
                ),
            },
    {
        if !text::str_eq(stored.name.as_str(), name) {
            return None;
        }
        let s = stored.to_internal();
        let ok = match s.state {
            CircuitState::Closed => s.failure_count < u32::MAX,
            CircuitState::HalfOpen => s.success_count < u32::MAX,
            CircuitState::Open => true,
        };
        if ok {
            Some(s)
        } else {
            None
        }
    }

    /// A breaker whose state is stored at `path`.
    ///
    /// `stored` is what the file at `path` held, if it could be read and
    /// parsed; the breaker resumes that state when it belongs to this breaker,
    /// and starts closed otherwise.
    pub fn with_persistence(
        name: &str,
        config: CircuitBreakerConfig,
        path: &str,
        stored: Option<PersistedCircuitState>,
    ) -> (cb: Self)
        ensures
            cb.spec_name() == name@,
            cb.spec_config() == config,
            cb.spec_persistence_path() == Some(path@),
            !cb.spec_unsaved(),
            match stored {
                Some(p) => if p.name@ == name@ && state_wf(
                    CircuitBreakerState {
                        state: parse_persisted_state(p.state@),
                        failure_count: p.failure_count,
                        success_count: p.success_count,
                        opened_at_ms: restored_opened_at(p.opened_at_secs),
                    },
                ) {
                    cb.spec_state() == CircuitBreakerState {
                        state: parse_persisted_state(p.state@),
                        failure_count: p.failure_count,
                        success_count: p.success_count,
                        opened_at_ms: restored_opened_at(p.opened_at_secs),
                    }
                } else {
                    cb.spec_state() == fresh_state()
                },
                None => cb.spec_state() == fresh_state(),
            },
    {
        let loaded = match &stored {
            Some(p) => Self::load_state(p, name),
            None => None,
        };
        let core = match loaded {
            Some(s) => s,
            None => CircuitBreakerState {
                state: CircuitState::Closed,
                failure_count: 0,
                success_count: 0,
                opened_at_ms: None,
            },
        };
        CircuitBreaker {
            name: text::owned(name),
            config,
            core,
            persistence_path: Some(text::owned(path)),
            unsaved: false,
        }
    }

    /// Name of the breaker.
    pub fn name(&self) -> (n: &str)
        ensures
            n@ == self.spec_name(),
    {
        self.name.as_str()
    }

    /// Where the breaker's state is stored, if it is.
    pub fn persistence_path(&self) -> (p: Option<&str>)
        ensures
            match p {
                Some(s) => self.spec_persistence_path() == Some(s@),
                None => self.spec_persistence_path() is None,
            },
    {
        match &self.persistence_path {
            Some(p) => Some(p.as_str()),
            None => None,
        }
    }

    /// The state at time `now_ms`; an open circuit whose timeout has elapsed
    /// becomes half-open, and that change is marked to be stored when the
    /// breaker is persisted.
    pub fn state_at(&mut self, now_ms: u64) -> (s: CircuitState)
        ensures
            final(self).spec_state() == advanced(old(self).spec_state(), old(self).spec_config(), now_ms),
            s == final(self).spec_state().state,
            final(self).spec_name() == old(self).spec_name(),
            final(self).spec_config() == old(self).spec_config(),
            final(self).spec_persistence_path() == old(self).spec_persistence_path(),
            final(self).spec_unsaved() == (old(self).spec_unsaved() || (advance_transitions(
                old(self).spec_state(),
                old(self).spec_config(),
                now_ms,
            ) && old(self).spec_persistence_path() is Some)),
    {
        proof {
            use_type_invariant(&*self);
        }
        if self.core.state == CircuitState::Open {
            if let Some(opened) = self.core.opened_at_ms {
                let timeout_ms = self.config.half_open_timeout_secs as u128 * 1000;
                if now_ms as u128 >= opened as u128 + timeout_ms {
                    self.core = CircuitBreakerState {
                        state: CircuitState::HalfOpen,
                        failure_count: self.core.failure_count,
                        success_count: 0,
                        opened_at_ms: self.core.opened_at_ms,
                    };
                    if self.persistence_path.is_some() {
                        self.unsaved = true;
                    }
                }
            }
        }
        self.core.state
    }

    /// The state now (see `state_at`).
    pub fn state(&mut self) -> (s: CircuitState)
        ensures
            exists|now: u64|
                {
                    &&& #[trigger] advanced(old(self).spec_state(), old(self).spec_config(), now)
                        == final(self).spec_state()
                    &&& final(self).spec_unsaved() == (old(self).spec_unsaved() || (
                    advance_transitions(old(self).spec_state(), old(self).spec_config(), now)
                        && old(self).spec_persistence_path() is Some))
                },
            s == final(self).spec_state().state,
            final(self).spec_name() == old(self).spec_name(),
            final(self).spec_config() == old(self).spec_config(),
            final(self).spec_persistence_path() == old(self).spec_persistence_path(),
    {
        let now = clock::now_millis();
        self.state_at(now)
    }

    /// Whether the circuit is closed at time `now_ms`.
    pub fn is_closed_at(&mut self, now_ms: u64) -> (r: bool)
        ensures
            final(self).spec_state() == advanced(old(self).spec_state(), old(self).spec_config(), now_ms),
            r == (final(self).spec_state().state == CircuitState::Closed),
            final(self).spec_name() == old(self).spec_name(),
            final(self).spec_config() == old(self).spec_config(),
            final(self).spec_persistence_path() == old(self).spec_persistence_path(),
            final(self).spec_unsaved() == (old(self).spec_unsaved() || (advance_transitions(
                old(self).spec_state(),
                old(self).spec_config(),
                now_ms,
            ) && old(self).spec_persistence_path() is Some)),
    {
        self.state_at(now_ms) == CircuitState::Closed
    }

    /// Whether the circuit is open at time `now_ms`.
    pub fn is_open_at(&mut self, now_ms: u64) -> (r: bool)
        ensures
            final(self).spec_state() == advanced(old(self).spec_state(), old(self).spec_config(), now_ms),
            r == (final(self).spec_state().state == CircuitState::Open),
            final(self).spec_name() == old(self).spec_name(),
            final(self).spec_config() == old(self).spec_config(),
            final(self).spec_persistence_path() == old(self).spec_persistence_path(),
            final(self).spec_unsaved() == (old(self).spec_unsaved() || (advance_transitions(
                old(self).spec_state(),
                old(self).spec_config(),
                now_ms,
            ) && old(self).spec_persistence_path() is Some)),
    {
        self.state_at(now_ms) == CircuitState::Open
    }

    /// Whether the circuit is closed now.
    pub fn is_closed(&mut self) -> (r: bool)
        ensures
            exists|now: u64|
                {
                    &&& #[trigger] advanced(old(self).spec_state(), old(self).spec_config(), now)
                        == final(self).spec_state()
                    &&& final(self).spec_unsaved() == (old(self).spec_unsaved() || (
                    advance_transitions(old(self).spec_state(), old(self).spec_config(), now)
                        && old(self).spec_persistence_path() is Some))
                },
            r == (final(self).spec_state().state == CircuitState::Closed),
            final(self).spec_name() == old(self).spec_name(),
            final(self).spec_config() == old(self).spec_config(),
            final(self).spec_persistence_path() == old(self).spec_persistence_path(),
    {
        self.state() == CircuitState::Closed
    }

    /// Whether the circuit is open now.
    pub fn is_open(&mut self) -> (r: bool)
        ensures
            exists|now: u64|
                {
                    &&& #[trigger] advanced(old(self).spec_state(), old(self).spec_config(), now)
                        == final(self).spec_state()
                    &&& final(self).spec_unsaved() == (old(self).spec_unsaved() || (
                    advance_transitions(old(self).spec_state(), old(self).spec_config(), now)
                        && old(self).spec_persistence_path() is Some))
                },
            r == (final(self).spec_state().state == CircuitState::Open),
            final(self).spec_name() == old(self).spec_name(),
            final(self).spec_config() == old(self).spec_config(),
            final(self).spec_persistence_path() == old(self).spec_persistence_path(),
    {
        self.state() == CircuitState::Open
    }

    /// Records a successful call.
    fn on_success(&mut self)
        requires
            old(self).spec_state().state != CircuitState::Open,
        ensures
            final(self).spec_state() == after_success(old(self).spec_state(), old(self).spec_config()),
            final(self).spec_unsaved() == (old(self).spec_unsaved() || (success_transitions(
                old(self).spec_state(),
                old(self).spec_config(),
            ) && old(self).spec_persistence_path() is Some)),
            final(self).spec_name() == old(self).spec_name(),
            final(self).spec_config() == old(self).spec_config(),
            final(self).spec_persistence_path() == old(self).spec_persistence_path(),
    {
        proof {
            use_type_invariant(&*self);
        }
        let s = self.core;
        match s.state {
            CircuitState::HalfOpen => {
                let count = s.success_count + 1;
                if count >= self.config.success_threshold {
                    self.core = CircuitBreakerState {
                        state: CircuitState::Closed,
                        failure_count: 0,
                        success_count: 0,
                        opened_at_ms: None,
                    };
                    if self.persistence_path.is_some() {
                        self.unsaved = true;
                    }
                } else {
                    self.core = CircuitBreakerState {
                        state: CircuitState::HalfOpen,
                        failure_count: 0,
                        success_count: count,
                        opened_at_ms: s.opened_at_ms,
                    };
                }
            },
            _ => {
                self.core = CircuitBreakerState {
                    state: s.state,
                    failure_count: 0,
                    success_count: s.success_count,
                    opened_at_ms: s.opened_at_ms,
                };
            },
        }
    }

    /// Records a failed call at time `now_ms`.
    fn on_failure(&mut self, now_ms: u64)
        requires
            old(self).spec_state().state != CircuitState::Open,
        ensures
            final(self).spec_state() == after_failure(old(self).spec_state(), old(self).spec_config(), now_ms),
            final(self).spec_unsaved() == (old(self).spec_unsaved() || (failure_transitions(
                old(self).spec_state(),
                old(self).spec_config(),
            ) && old(self).spec_persistence_path() is Some)),
            final(self).spec_name() == old(self).spec_name(),
            final(self).spec_config() == old(self).spec_config(),
            final(self).spec_persistence_path() == old(self).spec_persistence_path(),
    {
        proof {
            use_type_invariant(&*self);
        }
        let s = self.core;
        let open = CircuitBreakerState {
            state: CircuitState::Open,
            failure_count: 0,
            success_count: 0,
            opened_at_ms: Some(now_ms),
        };
        match s.state {
            CircuitState::Closed => {
                let count = s.failure_count + 1;
                if count >= self.config.failure_threshold {
                    self.core = open;
                    if self.persistence_path.is_some() {
                        self.unsaved = true;
                    }
                } else {
                    self.core = CircuitBreakerState {
                        state: CircuitState::Closed,
                        failure_count: count,
                        success_count: 0,
                        opened_at_ms: s.opened_at_ms,
                    };
                }
            },
            _ => {
                self.core = open;
                if self.persistence_path.is_some() {
                    self.unsaved = true;
                }
            },
        }
    }

    /// Calls `f` through the breaker at time `now_ms`.
    ///
    /// If the circuit is open at `now_ms`, `f` is not called and the result is a
    /// circuit-open error naming the service. Otherwise `f`'s success is recorded
    /// and its value returned, or its failure recorded and its error wrapped.
    pub fn call_sync_at<F, T, E>(&mut self, now_ms: u64, f: F) -> (r: Result<
        T,
        CircuitBreakerError<E>,
    >) where F: FnOnce() -> Result<T, E>
        requires
            f.requires(()),
        ensures
            final(self).spec_name() == old(self).spec_name(),
            final(self).spec_config() == old(self).spec_config(),
            final(self).spec_persistence_path() == old(self).spec_persistence_path(),
            final(self).spec_state() == after_call(
                old(self).spec_state(),
                old(self).spec_config(),
                r is Ok,
                now_ms,
            ),
            ({
                let pre = advanced(old(self).spec_state(), old(self).spec_config(), now_ms);
                let marked = old(self).spec_unsaved() || (advance_transitions(
                    old(self).spec_state(),
                    old(self).spec_config(),
                    now_ms,
                ) && old(self).spec_persistence_path() is Some);
                if pre.state == CircuitState::Open {
                    &&& r matches Err(CircuitBreakerError::CircuitOpen(e))
                    &&& e.service_name@ == old(self).spec_name()
                    &&& final(self).spec_state() == pre
                    &&& final(self).spec_unsaved() == old(self).spec_unsaved()
                } else {
                    exists|out: Result<T, E>|
                        #![trigger f.ensures((), out)]
                        {
                            &&& f.ensures((), out)
                            &&& match out {
                                Ok(v) => {
                                    &&& r == Ok::<T, CircuitBreakerError<E>>(v)
                                    &&& final(self).spec_state() == after_success(
                                        pre,
                                        old(self).spec_config(),
                                    )
                                    &&& final(self).spec_unsaved() == (marked
                                        || (success_transitions(pre, old(self).spec_config())
                                        && old(self).spec_persistence_path() is Some))
                                },
                                Err(e) => {
                                    &&& r == Err::<T, CircuitBreakerError<E>>(
                                        CircuitBreakerError::ServiceError(e),
                                    )
                                    &&& final(self).spec_state() == after_failure(
                                        pre,
                                        old(self).spec_config(),
                                        now_ms,
                                    )
                                    &&& final(self).spec_unsaved() == (marked
                                        || (failure_transitions(pre, old(self).spec_config())
                                        && old(self).spec_persistence_path() is Some))
                                },
                            }
                        }
                }
            }),
    {
        let current = self.state_at(now_ms);
        if current == CircuitState::Open {
            return Err(
                CircuitBreakerError::CircuitOpen(
                    CircuitOpenError { service_name: self.name.clone() },
                ),
            );
        }
        let out = f();
        match out {
            Ok(v) => {
                self.on_success();
                Ok(v)
            },
            Err(e) => {
                self.on_failure(now_ms);
                Err(CircuitBreakerError::ServiceError(e))
            },
        }
    }

    /// Calls `f` through the breaker now (see `call_sync_at`).
    pub fn call_sync<F, T, E>(&mut self, f: F) -> (r: Result<T, CircuitBreakerError<E>>) where
        F: FnOnce() -> Result<T, E>,
        requires
            f.requires(()),
        ensures
            final(self).spec_name() == old(self).spec_name(),
            final(self).spec_config() == old(self).spec_config(),
            final(self).spec_persistence_path() == old(self).spec_persistence_path(),
            exists|now_ms: u64|
                final(self).spec_state() == #[trigger] after_call(
                    old(self).spec_state(),
                    old(self).spec_config(),
                    r is Ok,
                    now_ms,
                ),
            exists|now_ms: u64|
                #![trigger advanced(old(self).spec_state(), old(self).spec_config(), now_ms)]
                {
                    let pre = advanced(old(self).spec_state(), old(self).spec_config(), now_ms);
                    let marked = old(self).spec_unsaved() || (advance_transitions(
                        old(self).spec_state(),
                        old(self).spec_config(),
                        now_ms,
                    ) && old(self).spec_persistence_path() is Some);
                    if pre.state == CircuitState::Open {
                        &&& r matches Err(CircuitBreakerError::CircuitOpen(e))
                        &&& e.service_name@ == old(self).spec_name()
                        &&& final(self).spec_state() == pre
                        &&& final(self).spec_unsaved() == old(self).spec_unsaved()
                    } else {
                        exists|out: Result<T, E>|
                            #![trigger f.ensures((), out)]
                            {
                                &&& f.ensures((), out)
                                &&& match out {
                                    Ok(v) => {
                                        &&& r == Ok::<T, CircuitBreakerError<E>>(v)
                                        &&& final(self).spec_state() == after_success(
                                            pre,
                                            old(self).spec_config(),
                                        )
                                        &&& final(self).spec_unsaved() == (marked
                                            || (success_transitions(pre, old(self).spec_config())
                                            && old(self).spec_persistence_path() is Some))
                                    },
                                    Err(e) => {
                                        &&& r == Err::<T, CircuitBreakerError<E>>(
                                            CircuitBreakerError::ServiceError(e),
                                        )
                                        &&& final(self).spec_state() == after_failure(
                                            pre,
                                            old(self).spec_config(),
                                            now_ms,
                                        )
                                        &&& final(self).spec_unsaved() == (marked
                                            || (failure_transitions(pre, old(self).spec_config())
                                            && old(self).spec_persistence_path() is Some))
                                    },
                                }
                            }
                    }
                },
    {
        let now = clock::now_millis();
        self.call_sync_at(now, f)
    }

    /// The stored form of the state, if a state change since the last call
    /// still has to be stored; clears that mark.
    pub fn take_state_to_persist(&mut self) -> (r: Option<PersistedCircuitState>)
        ensures
            final(self).spec_state() == old(self).spec_state(),
            final(self).spec_name() == old(self).spec_name(),
            final(self).spec_config() == old(self).spec_config(),
            final(self).spec_persistence_path() == old(self).spec_persistence_path(),
            !final(self).spec_unsaved(),
            match r {
                Some(p) => {
                    &&& old(self).spec_unsaved()
                    &&& p.name@ == old(self).spec_name()
                    &&& p.state@ == persisted_state_text(old(self).spec_state().state)
                    &&& p.failure_count == old(self).spec_state().failure_count
                    &&& p.success_count == old(self).spec_state().success_count
                    &&& p.opened_at_secs == match old(self).spec_state().opened_at_ms {
                        Some(t) => Some((t / 1000) as u64),
                        None => None::<u64>,
                    }
                },
                None => !old(self).spec_unsaved(),
            },
    {
        proof {
            use_type_invariant(&*self);
        }
        if self.unsaved {
            self.unsaved = false;
            Some(PersistedCircuitState::from_internal(self.name.as_str(), &self.core))
        } else {
            None
        }
    }
}

impl Clone for CircuitBreaker {
    fn clone(&self) -> (c: Self)
        ensures
            c.spec_name() == self.spec_name(),
            c.spec_config() == self.spec_config(),
            c.spec_state() == self.spec_state(),
            c.spec_persistence_path() == self.spec_persistence_path(),
            c.spec_unsaved() == self.spec_unsaved(),
    {
        proof {
            use_type_invariant(self);
        }
        let path = match &self.persistence_path {
            Some(p) => Some(p.clone()),
            None => None,
        };
        CircuitBreaker {
            name: self.name.clone(),
            config: self.config,
            core: self.core,
            persistence_path: path,
            unsaved: self.unsaved,
        }
    }
}

} // verus!
