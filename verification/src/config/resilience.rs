//! Resilience settings: degraded mode and health checks.

use vstd::prelude::*;

use crate::text;

verus! {

/// Degraded-mode configuration: the fallback behaviour when inference is
/// unavailable.
#[derive(Debug, Clone)]
pub struct DegradedModeAppConfig {
    /// Whether degraded mode is enabled.
    pub enabled: bool,
    /// Message returned while the service is unavailable.
    pub unavailable_message: String,
    /// Cooldown before the primary is tried again, in seconds.
    pub retry_cooldown_secs: u64,
    /// Failures before degraded mode is entered.
    pub failure_threshold: u32,
    /// Successes before degraded mode is left.
    pub success_threshold: u32,
}

/// Default message while the service is unavailable.
pub fn default_unavailable_message() -> (s: String)
    ensures
        s@ == "I'm currently experiencing technical difficulties. Please try again in a moment."@,
{
    text::owned("I'm currently experiencing technical difficulties. Please try again in a moment.")
}

/// Default retry cooldown, in seconds.
pub fn default_retry_cooldown() -> (n: u64)
    ensures
        n == 30,
{
    30
}

/// Default failure threshold.
pub fn default_failure_threshold() -> (n: u32)
    ensures
        n == 3,
{
    3
}

/// Default success threshold.
pub fn default_success_threshold() -> (n: u32)
    ensures
        n == 2,
{
    2
}

impl Default for DegradedModeAppConfig {
    fn default() -> (c: Self)
        ensures
            c.enabled,
            c.unavailable_message@
                == "I'm currently experiencing technical difficulties. Please try again in a moment."@,
            c.retry_cooldown_secs == 30,
            c.failure_threshold == 3,
            c.success_threshold == 2,
    {
        DegradedModeAppConfig {
            enabled: true,
            unavailable_message: default_unavailable_message(),
            retry_cooldown_secs: default_retry_cooldown(),
            failure_threshold: default_failure_threshold(),
            success_threshold: default_success_threshold(),
        }
    }
}

/// Health check configuration: a global timeout and optional per-service
/// timeouts, in seconds.
#[derive(Debug, Clone)]
pub struct HealthAppConfig {
    /// Timeout of a health check, in seconds.
    pub global_timeout_secs: u64,
    /// Timeout for the inference service.
    pub inference_timeout_secs: Option<u64>,
    /// Timeout for the email service.
    pub email_timeout_secs: Option<u64>,
    /// Timeout for the calendar service.
    pub calendar_timeout_secs: Option<u64>,
    /// Timeout for the weather service.
    pub weather_timeout_secs: Option<u64>,
}

/// Default health check timeout, in seconds.
pub fn default_health_global_timeout() -> (n: u64)
    ensures
        n == 5,
{
    5
}

impl Default for HealthAppConfig {
    fn default() -> (c: Self)
        ensures
            c.global_timeout_secs == 5,
            c.inference_timeout_secs is None,
            c.email_timeout_secs is None,
            c.calendar_timeout_secs is None,
            c.weather_timeout_secs is None,
    {
        HealthAppConfig {
            global_timeout_secs: default_health_global_timeout(),
            inference_timeout_secs: None,
            email_timeout_secs: None,
            calendar_timeout_secs: None,
            weather_timeout_secs: None,
        }
    }
}

/// Health check settings as the health service takes them: the global timeout
/// and the services that have a timeout of their own, each named once.
#[derive(Debug, Clone)]
pub struct HealthConfig {
    /// Timeout of a health check, in seconds.
    pub global_timeout_secs: u64,
    /// Per-service timeouts: service name and seconds.
    pub service_timeouts: Vec<(String, u64)>,
}

/// The entry for a service whose timeout may be set.
pub open spec fn timeout_entry(name: Seq<char>, t: Option<u64>) -> Seq<(Seq<char>, u64)> {
    match t {
        Some(secs) => seq![(name, secs)],
        None => seq![],
    }
}

/// The per-service timeouts of a health configuration, in the order
/// inference, email, calendar, weather.
pub open spec fn service_timeout_entries(c: HealthAppConfig) -> Seq<(Seq<char>, u64)> {
    timeout_entry("inference"@, c.inference_timeout_secs) + timeout_entry(
        "email"@,
        c.email_timeout_secs,
    ) + timeout_entry("calendar"@, c.calendar_timeout_secs) + timeout_entry(
        "weather"@,
        c.weather_timeout_secs,
    )
}

/// The view of a list of per-service timeouts.
pub open spec fn timeouts_view(v: Seq<(String, u64)>) -> Seq<(Seq<char>, u64)> {
    v.map_values(|p: (String, u64)| (p.0@, p.1))
}

fn push_timeout(v: &mut Vec<(String, u64)>, name: &str, t: Option<u64>)
    ensures
        timeouts_view(final(v)@) == timeouts_view(old(v)@) + timeout_entry(name@, t),
{
    match t {
        Some(secs) => {
            v.push((text::owned(name), secs));
            assert(timeouts_view(v@) =~= timeouts_view(old(v)@) + seq![(name@, secs)]);
        },
        None => {
            assert(timeouts_view(old(v)@) + timeout_entry(name@, t) =~= timeouts_view(old(v)@));
        },
    }
}

impl HealthAppConfig {
    /// The settings for the health service.
    pub fn to_health_config(&self) -> (h: HealthConfig)
        ensures
            h.global_timeout_secs == self.global_timeout_secs,
            timeouts_view(h.service_timeouts@) == service_timeout_entries(*self),
    {
        let mut v: Vec<(String, u64)> = Vec::new();
        proof {
            assert(timeouts_view(v@) =~= Seq::<(Seq<char>, u64)>::empty());
        }
        push_timeout(&mut v, "inference", self.inference_timeout_secs);
        push_timeout(&mut v, "email", self.email_timeout_secs);
        push_timeout(&mut v, "calendar", self.calendar_timeout_secs);
        push_timeout(&mut v, "weather", self.weather_timeout_secs);
        proof {
            assert(Seq::<(Seq<char>, u64)>::empty() + timeout_entry(
                "inference"@,
                self.inference_timeout_secs,
            ) =~= timeout_entry("inference"@, self.inference_timeout_secs));
        }
        HealthConfig { global_timeout_secs: self.global_timeout_secs, service_timeouts: v }
    }
}

} // verus!
