//! Degraded mode for the inference backend.
//!
//! Tracks consecutive failures and successes of the primary backend, enters
//! degraded mode after enough failures and leaves it after enough successes.
//! While degraded, the primary is retried only after a cooldown; otherwise a
//! fallback answer is given. The controller decides; the caller performs the
//! calls it decides on and reports their outcome back.

use vstd::prelude::*;

use crate::clock;
use crate::inference::InferenceResult;
use crate::text;

verus! {

/// Configuration for degraded mode behavior.
#[derive(Debug, Clone)]
pub struct DegradedModeConfig {
    /// Enable degraded mode (if false, errors are passed through).
    pub enabled: bool,
    /// Message returned when the service is unavailable.
    pub unavailable_message: String,
    /// Cooldown before retrying the primary backend (seconds).
    pub retry_cooldown_secs: u64,
    /// Consecutive failures before entering degraded mode.
    pub failure_threshold: u32,
    /// Consecutive successes before exiting degraded mode.
    pub success_threshold: u32,
}

/// The default message shown while the backend is unavailable.
pub open spec fn default_unavailable_text() -> Seq<char> {
    "I'm currently experiencing technical difficulties. Please try again in a moment."@
}

/// Degraded mode is enabled by default.
pub fn default_enabled() -> (r: bool)
    ensures
        r,
{
    true
}

/// The default message shown while the backend is unavailable.
pub fn default_unavailable_message() -> (s: String)
    ensures
        s@ == default_unavailable_text(),
{
    text::owned(
        "I'm currently experiencing technical difficulties. Please try again in a moment.",
    )
}

/// The default cooldown: 30 seconds.
pub fn default_retry_cooldown() -> (r: u64)
    ensures
        r == 30,
{
    30
}

/// The default failure threshold: 3.
pub fn default_failure_threshold() -> (r: u32)
    ensures
        r == 3,
{
    3
}

/// The default success threshold: 2.
pub fn default_success_threshold() -> (r: u32)
    ensures
        r == 2,
{
    2
}

impl Default for DegradedModeConfig {
    fn default() -> (c: Self)
        ensures
            c.enabled,
            c.unavailable_message@ == default_unavailable_text(),
            c.retry_cooldown_secs == 30,
            c.failure_threshold == 3,
            c.success_threshold == 2,
    {
        DegradedModeConfig {
            enabled: default_enabled(),
            unavailable_message: default_unavailable_message(),
            retry_cooldown_secs: default_retry_cooldown(),
            failure_threshold: default_failure_threshold(),
            success_threshold: default_success_threshold(),
        }
    }
}

/// Service status for tracking health.
#[derive(Debug, Clone, Copy, PartialEq, Eq, Structural)]
pub enum ServiceStatus {
    /// Service is healthy and responding.
    Healthy,
    /// Service is degraded but functional.
    Degraded,
    /// Service is unavailable.
    Unavailable,
}

impl Default for ServiceStatus {
    fn default() -> (s: Self)
        ensures
            s == ServiceStatus::Healthy,
    {
        ServiceStatus::Healthy
    }
}

/// Statistics for degraded mode operation.
#[derive(Debug, Clone, Copy, PartialEq, Eq, Structural)]
pub struct DegradedModeStats {
    /// Total requests handled: those the primary answered or failed, and
    /// those answered without it during the cooldown.
    pub total_requests: u64,
    /// Requests handled in degraded mode: those the primary failed, and those
    /// answered without it during the cooldown.
    pub degraded_requests: u64,
    /// Fallback responses given.
    pub fallback_responses: u64,
    /// Current status.
    pub status: ServiceStatus,
}

/// Statistics before any request.
pub open spec fn empty_stats() -> DegradedModeStats {
    DegradedModeStats {
        total_requests: 0,
        degraded_requests: 0,
        fallback_responses: 0,
        status: ServiceStatus::Healthy,
    }
}

impl Default for DegradedModeStats {
    fn default() -> (s: Self)
        ensures
            s == empty_stats(),
    {
        DegradedModeStats {
            total_requests: 0,
            degraded_requests: 0,
            fallback_responses: 0,
            status: ServiceStatus::Healthy,
        }
    }
}

/// `x + 1`, wrapping to 0 after `u64::MAX` as the counters do.
pub open spec fn inc(x: u64) -> u64 {
    if x == u64::MAX {
        0
    } else {
        (x + 1) as u64
    }
}

fn inc_exec(x: u64) -> (r: u64)
    ensures
        r == inc(x),
{
    x.wrapping_add(1)
}

/// The counters of the controller.
#[derive(Debug, Clone, Copy, PartialEq, Eq, Structural)]
pub struct DegradedState {
    /// Whether degraded mode is active.
    pub is_degraded: bool,
    /// Consecutive failures of the primary.
    pub consecutive_failures: u64,
    /// Consecutive successes of the primary.
    pub consecutive_successes: u64,
    /// When the primary last failed, in milliseconds since the Unix epoch.
    pub last_failure_ms: Option<u64>,
    /// Statistics.
    pub stats: DegradedModeStats,
}

/// The state of a new controller.
pub open spec fn initial_state() -> DegradedState {
    DegradedState {
        is_degraded: false,
        consecutive_failures: 0,
        consecutive_successes: 0,
        last_failure_ms: None,
        stats: empty_stats(),
    }
}

/// Whether the primary should be tried at time `now`: always when degraded
/// mode is disabled (errors are then passed through) or not active,
/// otherwise once the cooldown since the last failure has passed.
pub open spec fn retry_allowed(s: DegradedState, enabled: bool, cooldown_secs: u64, now: u64) -> bool {
    if !enabled || !s.is_degraded {
        true
    } else {
        match s.last_failure_ms {
            None => true,
            Some(t) => now >= t + cooldown_secs * 1000,
        }
    }
}

/// The state after a successful call of the primary.
pub open spec fn after_success(s: DegradedState, success_threshold: u32) -> DegradedState {
    let successes = inc(s.consecutive_successes);
    let exits = s.is_degraded && successes >= success_threshold;
    DegradedState {
        is_degraded: if exits { false } else { s.is_degraded },
        consecutive_failures: 0,
        consecutive_successes: if exits { 0 } else { successes },
        last_failure_ms: s.last_failure_ms,
        stats: DegradedModeStats {
            total_requests: inc(s.stats.total_requests),
            degraded_requests: s.stats.degraded_requests,
            fallback_responses: s.stats.fallback_responses,
            status: if exits { ServiceStatus::Healthy } else { s.stats.status },
        },
    }
}

/// The state after a failed call of the primary at time `now`.
pub open spec fn after_failure(s: DegradedState, failure_threshold: u32, now: u64) -> DegradedState {
    let failures = inc(s.consecutive_failures);
    let enters = !s.is_degraded && failures >= failure_threshold;
    DegradedState {
        is_degraded: if enters { true } else { s.is_degraded },
        consecutive_failures: failures,
        consecutive_successes: 0,
        last_failure_ms: Some(now),
        stats: DegradedModeStats {
            total_requests: inc(s.stats.total_requests),
            degraded_requests: inc(s.stats.degraded_requests),
            fallback_responses: s.stats.fallback_responses,
            status: if enters { ServiceStatus::Degraded } else { s.stats.status },
        },
    }
}

/// The state after a request was answered during the cooldown without
/// asking the primary: one more request handled, in degraded mode, with a
/// fallback response.
pub open spec fn after_skipped(s: DegradedState) -> DegradedState {
    DegradedState {
        stats: DegradedModeStats {
            total_requests: inc(s.stats.total_requests),
            degraded_requests: inc(s.stats.degraded_requests),
            fallback_responses: inc(s.stats.fallback_responses),
            ..s.stats
        },
        ..s
    }
}

/// How a request proceeds.
#[derive(Debug)]
pub enum RequestPlan {
    /// Ask the primary, then hand its result to `handle_result_at`.
    CallPrimary,
    /// Degraded and cooling down: answer with this fallback without asking.
    Answer(FallbackResponse),
}

/// The state after a fallback response was given for a failure of the
/// primary that was already recorded.
pub open spec fn after_fallback(s: DegradedState) -> DegradedState {
    DegradedState {
        stats: DegradedModeStats {
            fallback_responses: inc(s.stats.fallback_responses),
            ..s.stats
        },
        ..s
    }
}

/// What to do with the primary's result.
#[derive(Debug, PartialEq, Eq)]
pub enum Handled<T, E> {
    /// The primary answered; pass its value on.
    Value(T),
    /// The primary failed while degraded mode is active; answer with the fallback.
    Fallback,
    /// The primary failed; pass its error on.
    Error(E),
}

/// The model name reported for fallback answers.
pub open spec fn fallback_model_text() -> Seq<char> {
    "fallback"@
}

/// The model name reported while degraded.
pub open spec fn degraded_model_text() -> Seq<char> {
    "fallback (degraded)"@
}

/// A fallback answer: the unavailable message, attributed to the fallback model.
#[derive(Debug, Clone)]
pub struct FallbackResponse {
    /// The unavailable message.
    pub content: String,
    /// Always `fallback`.
    pub model: String,
}

impl FallbackResponse {
    /// The inference result a fallback answer gives: its text and model, no
    /// token count and no latency.
    pub fn to_result(&self) -> (r: InferenceResult)
        ensures
            r.content@ == self.content@,
            r.model@ == self.model@,
            r.tokens_used is None,
            r.latency_ms == 0,
    {
        InferenceResult {
            content: self.content.clone(),
            model: self.model.clone(),
            tokens_used: None,
            latency_ms: 0,
        }
    }
}

/// How a health check proceeds.
#[derive(Debug, Clone, Copy, PartialEq, Eq, Structural)]
pub enum HealthCheckPlan {
    /// Ask the primary; report its answer without recording it.
    AskPrimary,
    /// Ask the primary, record the answer as a success or failure, report it.
    ProbePrimary,
    /// Degraded and cooling down: report unhealthy without asking.
    ReportUnhealthy,
}

/// Decides when to use the primary inference backend and when to degrade.
pub struct DegradedModeController {
    config: DegradedModeConfig,
    st: DegradedState,
}

impl DegradedModeController {
    /// The configuration.
    pub closed spec fn spec_config(self) -> DegradedModeConfig {
        self.config
    }

    /// The counters.
    pub closed spec fn spec_state(self) -> DegradedState {
        self.st
    }

    /// A controller in normal (not degraded) mode.
    pub fn new(config: DegradedModeConfig) -> (c: Self)
        ensures
            c.spec_config() == config,
            c.spec_state() == initial_state(),
    {
        DegradedModeController {
            config,
            st: DegradedState {
                is_degraded: false,
                consecutive_failures: 0,
                consecutive_successes: 0,
                last_failure_ms: None,
                stats: DegradedModeStats::default(),
            },
        }
    }

    /// A controller with the default configuration.
    pub fn with_defaults() -> (c: Self)
        ensures
            c.spec_config().enabled,
            c.spec_config().unavailable_message@ == default_unavailable_text(),
            c.spec_config().retry_cooldown_secs == 30,
            c.spec_config().failure_threshold == 3,
            c.spec_config().success_threshold == 2,
            c.spec_state() == initial_state(),
    {
        Self::new(DegradedModeConfig::default())
    }

    /// Whether degraded mode is active.
    pub fn is_degraded(&self) -> (r: bool)
        ensures
            r == self.spec_state().is_degraded,
    {
        self.st.is_degraded
    }

    /// Current service status.
    pub fn status(&self) -> (r: ServiceStatus)
        ensures
            r == self.spec_state().stats.status,
    {
        self.st.stats.status
    }

    /// Current statistics.
    pub fn stats(&self) -> (r: DegradedModeStats)
        ensures
            r == self.spec_state().stats,
    {
        self.st.stats
    }

    /// Whether the primary should be tried at time `now_ms` (see
    /// `retry_allowed`).
    pub fn should_retry_primary_at(&self, now_ms: u64) -> (r: bool)
        ensures
            r == retry_allowed(
                self.spec_state(),
                self.spec_config().enabled,
                self.spec_config().retry_cooldown_secs,
                now_ms,
            ),
    {
        if !self.config.enabled || !self.st.is_degraded {
            return true;
        }
        match self.st.last_failure_ms {
            None => true,
            Some(t) => now_ms as u128 >= t as u128 + self.config.retry_cooldown_secs as u128 * 1000,
        }
    }

    /// Whether the primary should be tried now.
    pub fn should_retry_primary(&self) -> (r: bool)
        ensures
            exists|now: u64|
                r == retry_allowed(
                    self.spec_state(),
                    self.spec_config().enabled,
                    self.spec_config().retry_cooldown_secs,
                    now,
                ),
    {
        let now = clock::now_millis();
        self.should_retry_primary_at(now)
    }

    /// Records a successful call of the primary.
    pub fn record_success(&mut self)
        ensures
            final(self).spec_config() == old(self).spec_config(),
            final(self).spec_state() == after_success(
                old(self).spec_state(),
                old(self).spec_config().success_threshold,
            ),
    {
        let successes = inc_exec(self.st.consecutive_successes);
        let exits = self.st.is_degraded && successes >= self.config.success_threshold as u64;
        let stats = DegradedModeStats {
            total_requests: inc_exec(self.st.stats.total_requests),
            degraded_requests: self.st.stats.degraded_requests,
            fallback_responses: self.st.stats.fallback_responses,
            status: if exits {
                ServiceStatus::Healthy
            } else {
                self.st.stats.status
            },
        };
        self.st = DegradedState {
            is_degraded: if exits {
                false
            } else {
                self.st.is_degraded
            },
            consecutive_failures: 0,
            consecutive_successes: if exits {
                0
            } else {
                successes
            },
            last_failure_ms: self.st.last_failure_ms,
            stats,
        };
    }

    /// Records a failed call of the primary at time `now_ms`.
    pub fn record_failure_at(&mut self, now_ms: u64)
        ensures
            final(self).spec_config() == old(self).spec_config(),
            final(self).spec_state() == after_failure(
                old(self).spec_state(),
                old(self).spec_config().failure_threshold,
                now_ms,
            ),
    {
        let failures = inc_exec(self.st.consecutive_failures);
        let enters = !self.st.is_degraded && failures >= self.config.failure_threshold as u64;
        let stats = DegradedModeStats {
            total_requests: inc_exec(self.st.stats.total_requests),
            degraded_requests: inc_exec(self.st.stats.degraded_requests),
            fallback_responses: self.st.stats.fallback_responses,
            status: if enters {
                ServiceStatus::Degraded
            } else {
                self.st.stats.status
            },
        };
        self.st = DegradedState {
            is_degraded: if enters {
                true
            } else {
                self.st.is_degraded
            },
            consecutive_failures: failures,
            consecutive_successes: 0,
            last_failure_ms: Some(now_ms),
            stats,
        };
    }

    /// Records a failed call of the primary now.
    pub fn record_failure(&mut self)
        ensures
            final(self).spec_config() == old(self).spec_config(),
            exists|now: u64|
                final(self).spec_state() == after_failure(
                    old(self).spec_state(),
                    old(self).spec_config().failure_threshold,
                    now,
                ),
    {
        let now = clock::now_millis();
        self.record_failure_at(now)
    }

    /// The fallback answer given after a failure that `handle_result_at`
    /// recorded; counts it as a fallback response.
    pub fn fallback_response(&mut self) -> (r: FallbackResponse)
        ensures
            final(self).spec_config() == old(self).spec_config(),
            final(self).spec_state() == after_fallback(old(self).spec_state()),
            r.content@ == old(self).spec_config().unavailable_message@,
            r.model@ == fallback_model_text(),
    {
        self.st = DegradedState {
            stats: DegradedModeStats {
                fallback_responses: inc_exec(self.st.stats.fallback_responses),
                ..self.st.stats
            },
            ..self.st
        };
        FallbackResponse {
            content: self.config.unavailable_message.clone(),
            model: text::owned("fallback"),
        }
    }

    /// Decides how a request at time `now_ms` proceeds: the primary is asked
    /// when `retry_allowed`; otherwise the request is answered with the
    /// fallback and counted as handled, in degraded mode, with a fallback
    /// response.
    pub fn plan_request_at(&mut self, now_ms: u64) -> (p: RequestPlan)
        ensures
            final(self).spec_config() == old(self).spec_config(),
            retry_allowed(
                old(self).spec_state(),
                old(self).spec_config().enabled,
                old(self).spec_config().retry_cooldown_secs,
                now_ms,
            ) ==> p is CallPrimary && final(self).spec_state() == old(self).spec_state(),
            !retry_allowed(
                old(self).spec_state(),
                old(self).spec_config().enabled,
                old(self).spec_config().retry_cooldown_secs,
                now_ms,
            ) ==> {
                &&& p matches RequestPlan::Answer(f)
                &&& f.content@ == old(self).spec_config().unavailable_message@
                &&& f.model@ == fallback_model_text()
                &&& final(self).spec_state() == after_skipped(old(self).spec_state())
            },
    {
        if self.should_retry_primary_at(now_ms) {
            return RequestPlan::CallPrimary;
        }
        self.st = DegradedState {
            stats: DegradedModeStats {
                total_requests: inc_exec(self.st.stats.total_requests),
                degraded_requests: inc_exec(self.st.stats.degraded_requests),
                fallback_responses: inc_exec(self.st.stats.fallback_responses),
                ..self.st.stats
            },
            ..self.st
        };
        RequestPlan::Answer(
            FallbackResponse {
                content: self.config.unavailable_message.clone(),
                model: text::owned("fallback"),
            },
        )
    }

    /// Records the primary's result at time `now_ms` and decides what to answer:
    /// its value on success; on failure the fallback if degraded mode is enabled
    /// and active after recording the failure, its error otherwise.
    pub fn handle_result_at<T, E>(&mut self, now_ms: u64, result: Result<T, E>) -> (r: Handled<T, E>)
        ensures
            final(self).spec_config() == old(self).spec_config(),
            match result {
                Ok(v) => {
                    &&& r == Handled::<T, E>::Value(v)
                    &&& final(self).spec_state() == after_success(
                        old(self).spec_state(),
                        old(self).spec_config().success_threshold,
                    )
                },
                Err(e) => {
                    &&& final(self).spec_state() == after_failure(
                        old(self).spec_state(),
                        old(self).spec_config().failure_threshold,
                        now_ms,
                    )
                    &&& if old(self).spec_config().enabled && final(self).spec_state().is_degraded {
                        r == Handled::<T, E>::Fallback
                    } else {
                        r == Handled::<T, E>::Error(e)
                    }
                },
            },
    {
        match result {
            Ok(v) => {
                self.record_success();
                Handled::Value(v)
            },
            Err(e) => {
                self.record_failure_at(now_ms);
                if self.config.enabled && self.st.is_degraded {
                    Handled::Fallback
                } else {
                    Handled::Error(e)
                }
            },
        }
    }

    /// How to run a health check at time `now_ms`.
    pub fn health_check_plan_at(&self, now_ms: u64) -> (p: HealthCheckPlan)
        ensures
            !self.spec_state().is_degraded ==> p == HealthCheckPlan::AskPrimary,
            self.spec_state().is_degraded ==> p == if retry_allowed(
                self.spec_state(),
                self.spec_config().enabled,
                self.spec_config().retry_cooldown_secs,
                now_ms,
            ) {
                HealthCheckPlan::ProbePrimary
            } else {
                HealthCheckPlan::ReportUnhealthy
            },
    {
        if self.st.is_degraded {
            if self.should_retry_primary_at(now_ms) {
                HealthCheckPlan::ProbePrimary
            } else {
                HealthCheckPlan::ReportUnhealthy
            }
        } else {
            HealthCheckPlan::AskPrimary
        }
    }

    /// The model to report: the primary's while not degraded, the fallback
    /// model's name while degraded.
    pub fn current_model(&self, primary_model: String) -> (m: String)
        ensures
            self.spec_state().is_degraded ==> m@ == degraded_model_text(),
            !self.spec_state().is_degraded ==> m@ == primary_model@,
    {
        if self.st.is_degraded {
            text::owned("fallback (degraded)")
        } else {
            primary_model
        }
    }
}

/// The model list reported while the primary is not used: just the fallback model.
pub fn fallback_models() -> (v: Vec<String>)
    ensures
        v@.len() == 1,
        v@[0]@ == fallback_model_text(),
{
    let mut v: Vec<String> = Vec::new();
    v.push(text::owned("fallback"));
    v
}

/// The error text when switching models is refused in degraded mode.
pub fn switch_refused_message() -> (s: String)
    ensures
        s@ == "Service unavailable in degraded mode"@,
{
    text::owned("Service unavailable in degraded mode")
}

/// The state after `n` consecutive failures at time `now`.
pub open spec fn after_failures(s: DegradedState, threshold: u32, now: u64, n: nat) -> DegradedState
    decreases n,
{
    if n == 0 {
        s
    } else {
        after_failure(after_failures(s, threshold, now, (n - 1) as nat), threshold, now)
    }
}

/// The state after `n` consecutive successes.
pub open spec fn after_successes(s: DegradedState, threshold: u32, n: nat) -> DegradedState
    decreases n,
{
    if n == 0 {
        s
    } else {
        after_success(after_successes(s, threshold, (n - 1) as nat), threshold)
    }
}

/// From normal mode, degraded mode starts exactly at the `failure_threshold`-th
/// consecutive failure; every failure is counted as a degraded request.
pub proof fn lemma_enters_after_threshold_failures(s: DegradedState, threshold: u32, now: u64, n: nat)
    requires
        !s.is_degraded,
        s.consecutive_failures == 0,
        s.stats.total_requests as int + threshold < u64::MAX,
        s.stats.degraded_requests as int + threshold < u64::MAX,
        1 <= threshold,
        n <= threshold,
    ensures
        after_failures(s, threshold, now, n).is_degraded == (n == threshold),
        after_failures(s, threshold, now, n).consecutive_failures == n,
        after_failures(s, threshold, now, n).stats.total_requests == s.stats.total_requests + n,
        after_failures(s, threshold, now, n).stats.degraded_requests == s.stats.degraded_requests + n,
        n > 0 ==> after_failures(s, threshold, now, n).last_failure_ms == Some(now),
        n == threshold ==> after_failures(s, threshold, now, n).stats.status == ServiceStatus::Degraded,
    decreases n,
{
    if n > 0 {
        lemma_enters_after_threshold_failures(s, threshold, now, (n - 1) as nat);
    }
}

/// In degraded mode, normal mode returns exactly at the `success_threshold`-th
/// consecutive success, with a healthy status.
pub proof fn lemma_exits_after_threshold_successes(s: DegradedState, threshold: u32, n: nat)
    requires
        s.is_degraded,
        s.consecutive_successes == 0,
        s.stats.total_requests as int + threshold < u64::MAX,
        1 <= threshold,
        n <= threshold,
    ensures
        after_successes(s, threshold, n).is_degraded == (n < threshold),
        n < threshold ==> after_successes(s, threshold, n).consecutive_successes == n,
        n == threshold ==> after_successes(s, threshold, n).consecutive_successes == 0,
        n == threshold ==> after_successes(s, threshold, n).stats.status == ServiceStatus::Healthy,
        after_successes(s, threshold, n).stats.total_requests == s.stats.total_requests + n,
    decreases n,
{
    if n > 0 {
        lemma_exits_after_threshold_successes(s, threshold, (n - 1) as nat);
    }
}

/// After a failure, a degraded controller does not try the primary again until
/// the cooldown has passed, and does from then on.
pub proof fn lemma_cooldown_after_failure(s: DegradedState, threshold: u32, cooldown: u64, t: u64, now: u64)
    requires
        after_failure(s, threshold, t).is_degraded,
    ensures
        retry_allowed(after_failure(s, threshold, t), true, cooldown, now) == (now >= t
            + cooldown * 1000),
{
}

/// With degraded mode disabled, the primary is always asked and a failure's
/// error is always passed on: the fallback is never chosen.
pub proof fn lemma_disabled_passes_errors(config: DegradedModeConfig, s: DegradedState, now: u64)
    requires
        !config.enabled,
    ensures
        retry_allowed(s, config.enabled, config.retry_cooldown_secs, now),
        !(config.enabled && after_failure(s, config.failure_threshold, now).is_degraded),
{
}

/// A success of the primary ends any run of failures: the consecutive-failure
/// count is 0 afterwards, so failures after it are counted from 1 again, and
/// fewer than `failure_threshold` of them after a success in normal mode do
/// not enter degraded mode, however many failures came before the success.
pub proof fn lemma_success_resets_failure_run(
    s: DegradedState,
    success_threshold: u32,
    failure_threshold: u32,
    now: u64,
    n: nat,
)
    requires
        n < failure_threshold,
    ensures
        after_success(s, success_threshold).consecutive_failures == 0,
        after_failures(after_success(s, success_threshold), failure_threshold, now, n).consecutive_failures
            == n,
        !s.is_degraded ==> !after_failures(
            after_success(s, success_threshold),
            failure_threshold,
            now,
            n,
        ).is_degraded,
    decreases n,
{
    if n > 0 {
        lemma_success_resets_failure_run(s, success_threshold, failure_threshold, now, (n - 1) as nat);
    }
}

} // verus!
