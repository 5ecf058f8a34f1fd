use std::time::Duration;

use infrastructure::chaos::{
    errors_only_action, operation_targeted, should_inject_at, wrap_action, ChaosContext,
    ChaosStats, FaultInjector, FaultInjectorConfig, FaultType, InjectedError, InjectionResult,
    LatencyDistribution, LatencyDistributionType, WrapAction,
};

#[test]
fn chaos_stats_default() {
    let stats = ChaosStats::default();
    assert_eq!(stats.total_calls, 0);
    assert_eq!(stats.faults_injected, 0);
}

#[test]
fn chaos_context_new() {
    let ctx = ChaosContext::new();
    assert!(ctx.can_inject());
    assert!(ctx.time_since_last_injection().is_none());
}

#[test]
fn chaos_context_with_max_faults() {
    let ctx = ChaosContext::with_max_faults(5);
    assert!(ctx.can_inject());
    assert_eq!(ctx.remaining_faults(), Some(5));
}

#[test]
fn chaos_context_decrements_remaining() {
    let mut ctx = ChaosContext::with_max_faults(2);
    ctx.record_call();
    ctx.record_injection(InjectionResult::Injected);
    assert_eq!(ctx.remaining_faults(), Some(1));
    ctx.record_call();
    ctx.record_injection(InjectionResult::Injected);
    assert_eq!(ctx.remaining_faults(), Some(0));
    assert!(!ctx.can_inject());
}

#[test]
fn fault_injector_config_default() {
    let config = FaultInjectorConfig::default();
    assert!(config.enabled);
    assert!(config.cooldown.is_none());
}

#[test]
fn config_disabled() {
    let config = FaultInjectorConfig::disabled();
    assert!(!config.enabled);
}

#[test]
fn config_with_cooldown() {
    let config = FaultInjectorConfig::enabled().with_cooldown(Duration::from_secs(5));
    assert!(config.enabled);
    assert_eq!(config.cooldown, Some(Duration::from_secs(5)));
}

#[test]
fn injected_error_display() {
    assert_eq!(
        InjectedError::Generic("test".to_string()).to_string(),
        "Injected error: test"
    );
    assert_eq!(
        InjectedError::ConnectionRefused.to_string(),
        "Injected connection refused"
    );
    assert_eq!(
        InjectedError::Timeout(Duration::from_secs(5)).to_string(),
        "Injected timeout after 5s"
    );
}

#[test]
fn chaos_context_counts_and_reset() {
    let mut ctx = ChaosContext::new();
    ctx.record_call();
    ctx.record_call();
    ctx.record_injection_at(InjectionResult::NoInjection, 10);
    ctx.record_error();
    ctx.record_latency(100);
    ctx.record_latency(200);
    ctx.record_timeout();
    let stats = ctx.stats_snapshot();
    assert_eq!(stats.total_calls, 2);
    assert_eq!(stats.calls_skipped, 1);
    assert_eq!(stats.errors_injected, 1);
    assert_eq!(stats.latency_injected, 2);
    assert_eq!(stats.total_latency_added_ms, 300);
    assert_eq!(stats.timeouts_injected, 1);
    ctx.record_injection_at(InjectionResult::Injected, 1_000);
    assert_eq!(ctx.time_since_last_injection_at(1_250), Some(250));
    ctx.reset();
    assert_eq!(*ctx.stats(), ChaosStats::default());
    assert!(ctx.time_since_last_injection_at(2_000).is_none());
}

#[test]
fn injection_decisions() {
    let on = FaultInjectorConfig::enabled().with_cooldown(Duration::from_millis(500));
    let mut ctx = ChaosContext::with_max_faults(1);
    assert_eq!(should_inject_at(&FaultInjectorConfig::disabled(), &ctx, 0, true), InjectionResult::Skipped);
    assert_eq!(should_inject_at(&on, &ctx, 0, false), InjectionResult::NoInjection);
    assert_eq!(should_inject_at(&on, &ctx, 0, true), InjectionResult::Injected);
    ctx.record_injection_at(InjectionResult::Injected, 1_000);
    assert_eq!(should_inject_at(&on, &ctx, 1_100, true), InjectionResult::LimitReached);
    let mut unlimited = ChaosContext::new();
    unlimited.record_injection_at(InjectionResult::Injected, 1_000);
    assert_eq!(should_inject_at(&on, &unlimited, 1_100, true), InjectionResult::Skipped);
    assert_eq!(should_inject_at(&on, &unlimited, 1_500, true), InjectionResult::Injected);
}

#[test]
fn remaining_faults_wrap_below_zero() {
    let mut ctx = ChaosContext::with_max_faults(0);
    assert!(!ctx.can_inject());
    ctx.record_injection_at(InjectionResult::Injected, 0);
    assert_eq!(ctx.remaining_faults(), Some(u64::MAX));
}

#[test]
fn chaos_context_record_call() {
    let mut ctx = ChaosContext::new();
    ctx.record_call();
    ctx.record_call();
    assert_eq!(ctx.stats().total_calls, 2);
}

#[test]
fn chaos_context_record_injection() {
    let mut ctx = ChaosContext::new();
    ctx.record_call();
    ctx.record_injection(InjectionResult::Injected);
    assert_eq!(ctx.stats().faults_injected, 1);
    assert!(ctx.time_since_last_injection().is_some());
}

#[test]
fn chaos_context_record_no_injection() {
    let mut ctx = ChaosContext::new();
    ctx.record_call();
    ctx.record_injection(InjectionResult::NoInjection);
    assert_eq!(ctx.stats().calls_skipped, 1);
}

#[test]
fn chaos_context_reset() {
    let mut ctx = ChaosContext::new();
    ctx.record_call();
    ctx.record_injection(InjectionResult::Injected);
    ctx.reset();
    assert_eq!(ctx.stats().total_calls, 0);
    assert!(ctx.time_since_last_injection().is_none());
}

#[test]
fn chaos_context_record_error() {
    let mut ctx = ChaosContext::new();
    ctx.record_error();
    assert_eq!(ctx.stats().errors_injected, 1);
}

#[test]
fn chaos_context_record_latency() {
    let mut ctx = ChaosContext::new();
    ctx.record_latency(100);
    ctx.record_latency(200);
    assert_eq!(ctx.stats().latency_injected, 2);
    assert_eq!(ctx.stats().total_latency_added_ms, 300);
}

#[test]
fn chaos_context_record_timeout() {
    let mut ctx = ChaosContext::new();
    ctx.record_timeout();
    assert_eq!(ctx.stats().timeouts_injected, 1);
}

// ---------------------------------------------------------- faults and the injector

#[test]
fn fault_type_default() {
    let ft = FaultType::default();
    assert!(matches!(ft, FaultType::Error(_)));
}

#[test]
fn latency_distribution_default() {
    let dist = LatencyDistribution::default();
    assert_eq!(dist.min, Duration::from_millis(100));
    assert_eq!(dist.max, Duration::from_millis(500));
    assert_eq!(dist.distribution, LatencyDistributionType::Uniform);
}

#[test]
fn latency_distribution_type_default() {
    let dt = LatencyDistributionType::default();
    assert_eq!(dt, LatencyDistributionType::Uniform);
}

#[test]
fn fault_type_variants() {
    let _ = FaultType::Error("test".to_string());
    let _ = FaultType::Latency(LatencyDistribution::default());
    let _ = FaultType::LatencyThenError {
        latency: LatencyDistribution::default(),
        error: "test".to_string(),
    };
    let _ = FaultType::Timeout(Duration::from_secs(1));
    let _ = FaultType::CorruptedResponse;
    let _ = FaultType::ConnectionRefused;
    let _ = FaultType::ConnectionReset;
    let _ = FaultType::ResourceExhausted("memory".to_string());
    let _ = FaultType::RateLimited;
    let _ = FaultType::Custom("my_fault".to_string());
}

#[test]
fn fault_type_debug() {
    let ft = FaultType::Error("debug test".to_string());
    let debug = format!("{ft:?}");
    assert!(debug.contains("Error"));
    assert!(debug.contains("debug test"));
}

#[test]
fn fault_type_clone() {
    let ft = FaultType::ConnectionRefused;
    #[allow(clippy::redundant_clone)]
    let cloned = ft.clone();
    assert!(matches!(cloned, FaultType::ConnectionRefused));
}

#[test]
fn latency_distributions_keep_their_bounds() {
    let c = LatencyDistribution::constant(Duration::from_millis(100));
    assert_eq!((c.min, c.max), (Duration::from_millis(100), Duration::from_millis(100)));
    let u = LatencyDistribution::uniform(Duration::from_millis(100), Duration::from_millis(500));
    assert_eq!(u.max, Duration::from_millis(500));
    let n = LatencyDistribution::normal(Duration::from_millis(100), Duration::from_millis(10));
    assert_eq!(n.distribution, LatencyDistributionType::Normal);
    assert_eq!(n.max, Duration::from_millis(10));
}

/// The fault an always-on policy for `f` selects: the policy is on, so its
/// fault is handed to the injector, and every draw fires.
fn always(f: FaultType) -> Option<FaultType> {
    Some(f)
}

#[test]
fn injector_new() {
    let injector = FaultInjector::new(always(FaultType::Error("test".to_string())));
    assert_eq!(injector.stats().total_calls, 0);
}

#[test]
fn injector_disabled_never_injects() {
    let mut injector = FaultInjector::disabled();
    for _ in 0..10 {
        assert!(injector.maybe_inject(false, 0).is_none());
    }
    assert_eq!(injector.stats().total_calls, 10);
    assert_eq!(injector.stats().faults_injected, 0);
}

#[test]
fn injector_always_injects() {
    let mut injector = FaultInjector::new(always(FaultType::Error("test".to_string())));
    for _ in 0..10 {
        assert!(injector.maybe_inject(true, 0).is_some());
    }
    assert_eq!(injector.stats().faults_injected, 10);
    assert_eq!(injector.stats().errors_injected, 10);
}

#[test]
fn injector_respects_max_faults() {
    let mut injector = FaultInjector::with_max_faults(always(FaultType::Error("test".to_string())), 3);

    assert!(injector.maybe_inject(true, 0).is_some());
    assert!(injector.maybe_inject(true, 0).is_some());
    assert!(injector.maybe_inject(true, 0).is_some());

    assert!(injector.maybe_inject(true, 0).is_none());
    assert!(injector.maybe_inject(true, 0).is_none());

    assert_eq!(injector.stats().faults_injected, 3);
    assert_eq!(injector.remaining_faults(), Some(0));
}

#[test]
fn injector_reset() {
    let mut injector = FaultInjector::new(always(FaultType::Error("test".to_string())));
    injector.maybe_inject(true, 0);
    assert_eq!(injector.stats().faults_injected, 1);
    injector.reset();
    assert_eq!(injector.stats().faults_injected, 0);
}

#[test]
fn injector_counts_by_kind_of_fault() {
    let latency = LatencyDistribution::constant(Duration::from_millis(40));
    let mut inj = FaultInjector::new(Some(FaultType::LatencyThenError { latency, error: "x".to_string() }));
    assert!(inj.maybe_inject_at(1_000, true, 40).is_some());
    assert_eq!(inj.stats().latency_injected, 1);
    assert_eq!(inj.stats().total_latency_added_ms, 40);
    assert_eq!(inj.stats().errors_injected, 1);
    let mut t = FaultInjector::with_config(
        FaultInjectorConfig::enabled().with_cooldown(Duration::from_secs(5)),
        Some(FaultType::Timeout(Duration::from_secs(1))),
    );
    assert!(t.maybe_inject_at(10_000, true, 0).is_some());
    assert!(t.maybe_inject_at(12_000, true, 0).is_none());
    assert_eq!(t.stats().calls_skipped, 1);
    assert!(t.maybe_inject_at(15_000, true, 0).is_some());
    assert_eq!(t.stats().timeouts_injected, 2);
    let mut off = FaultInjector::new(None);
    assert!(off.maybe_inject_at(0, true, 0).is_none());
    assert_eq!(off.stats().calls_skipped, 0);
    assert_eq!(off.stats().total_calls, 1);
}

#[test]
fn faults_become_errors_and_actions() {
    assert_eq!(
        InjectedError::from_fault_type(&FaultType::Custom("disk".to_string())).to_string(),
        "Injected error: Custom fault: disk"
    );
    assert_eq!(
        InjectedError::from_fault_type(&FaultType::CorruptedResponse).to_string(),
        "Injected error: Corrupted response"
    );
    assert!(matches!(
        InjectedError::from_fault_type(&FaultType::RateLimited),
        InjectedError::RateLimited
    ));
    assert!(matches!(wrap_action(None), WrapAction::Run));
    let lat = LatencyDistribution::default();
    assert!(matches!(wrap_action(Some(FaultType::Latency(lat))), WrapAction::DelayThenRun(_)));
    assert!(matches!(errors_only_action(Some(FaultType::Latency(lat))), WrapAction::Run));
    assert!(matches!(
        wrap_action(Some(FaultType::Timeout(Duration::from_secs(2)))),
        WrapAction::WaitThenFail(_, InjectedError::Timeout(_))
    ));
    assert!(matches!(
        errors_only_action(Some(FaultType::ConnectionReset)),
        WrapAction::Fail(InjectedError::ConnectionReset)
    ));
}

#[test]
fn fault_policy_should_target_all() {
    let none: Vec<String> = vec![];
    assert!(operation_targeted(&none, &none, "any_operation"));
}

#[test]
fn fault_policy_should_target_specific() {
    let none: Vec<String> = vec![];
    let targets = vec!["op1".to_string(), "op2".to_string()];
    assert!(operation_targeted(&targets, &none, "op1"));
    assert!(operation_targeted(&targets, &none, "op2"));
    assert!(!operation_targeted(&targets, &none, "op3"));
}

#[test]
fn fault_policy_should_target_exclusions() {
    let none: Vec<String> = vec![];
    let excluded = vec!["excluded_op".to_string()];
    assert!(operation_targeted(&none, &excluded, "any_op"));
    assert!(!operation_targeted(&none, &excluded, "excluded_op"));
}

#[test]
fn fault_policy_targets_and_exclusions() {
    let targets = vec!["op1".to_string(), "op2".to_string()];
    let excluded = vec!["op2".to_string()];
    // op1 is targeted and not excluded
    assert!(operation_targeted(&targets, &excluded, "op1"));
    // op2 is targeted but also excluded
    assert!(!operation_targeted(&targets, &excluded, "op2"));
    // op3 is not in targets
    assert!(!operation_targeted(&targets, &excluded, "op3"));
}

#[test]
fn latency_distribution_type_eq() {
    assert_eq!(LatencyDistributionType::Uniform, LatencyDistributionType::Uniform);
    assert_eq!(LatencyDistributionType::Normal, LatencyDistributionType::Normal);
    assert_eq!(LatencyDistributionType::Exponential, LatencyDistributionType::Exponential);
    assert_ne!(LatencyDistributionType::Uniform, LatencyDistributionType::Normal);
}

#[test]
fn latency_distribution_copy() {
    let dist = LatencyDistributionType::Uniform;
    let copied = dist;
    assert_eq!(dist, copied);
}
