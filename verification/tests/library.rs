use std::time::Duration;

use infrastructure::cache::{
    after_first_layer, after_second_layer, combine_layer_stats, generate_cache_key,
    keys_to_expire, keys_to_invalidate, llm_cache_key_from, lookup_entry, persistent_layer_stats,
    CacheEntry,
    CacheLookup, CacheStats, HitCounter, LayerStep, MokaCacheConfig,
};
use infrastructure::circuit_breaker::{CircuitBreaker, CircuitBreakerConfig};
use infrastructure::config::security::SuspiciousActivityConfig;
use infrastructure::contacts::{
    birthday_in_window, choose_addressbook, contact_summary, display_name_for,
    names_for_new_contact, split_name, upcoming_birthdays, ContactError,
};
use infrastructure::encryption::ChaChaEncryptionAdapter;
use infrastructure::error::ApplicationError;
use infrastructure::integrations::{
    guard_circuit_at, map_caldav_error, map_carddav_error, map_condition, map_proton_error,
    map_search_error, map_weather_error, precipitation_probability, search_result_limit,
    task_not_found, CalDavError, CardDavError, EmailError, ProtonError, WeatherCode,
    WeatherCondition, WeatherError, WebSearchError,
};
use infrastructure::inference::{
    answer_from_cache, answer_to_store,
    circuit_state_desc_at, context_messages, conversation_cache_key, guarded_call_at,
    is_stable_system_prompt, map_inference_error, message_cache_key, model_invalidation_pattern,
    models_list_cache_key, system_cache_key, CachedResponse, InferenceError, InferenceMessage,
    InferenceResult,
};
use infrastructure::moka_cache::MokaCache;
use infrastructure::speech::{
    domain_to_ai_format, ai_to_domain_format, map_speech_error, AudioFormat,
    AiAudioFormat, SpeechError,
};
use infrastructure::suspicious_activity::{
    InMemorySuspiciousActivityTracker, ThreatLevel, ViolationRecord,
};
use infrastructure::tasks::{
    apply_updates, create_task, filter_tasks, find_task, get_task_in, list_selection,
    map_priority_from_caldav, map_priority_to_caldav, map_status_from_caldav,
    map_status_to_caldav, map_task, new_task, update_task_in, CalDavPriority, CalDavStatus,
    CalendarTask, NewTask, Priority, TaskQuery, TaskStatus, TaskUpdates,
};
use infrastructure::transit::{connection_from_legs, delay_notice, TransitLeg, TransitMode};

// ---------------------------------------------------------- suspicious activity

fn tracker_config() -> SuspiciousActivityConfig {
    SuspiciousActivityConfig {
        max_violations_before_block: 3,
        violation_window_secs: 3600,
        block_duration_secs: 86400,
        auto_block_on_critical: true,
    }
}

const IP: &str = "192.168.1.100";

#[test]
fn records_violations() {
    let mut t = InMemorySuspiciousActivityTracker::new(tracker_config());
    t.record_violation_at(IP, ViolationRecord::new_at("test", ThreatLevel::Medium, 1_000), 1_000);
    let s = t.violation_summary_at(IP, 1_000);
    assert_eq!(s.total_violations, 1);
    assert_eq!(s.violations_in_window, 1);
    assert!(!s.is_blocked);
}

#[test]
fn blocks_after_threshold() {
    let mut t = InMemorySuspiciousActivityTracker::new(tracker_config());
    for _ in 0..3 {
        t.record_violation_at(IP, ViolationRecord::new_at("test", ThreatLevel::Medium, 1_000), 1_000);
    }
    assert!(t.is_blocked_at(IP, 1_000));
    let s = t.violation_summary_at(IP, 1_000);
    assert!(s.is_blocked);
    assert_eq!(s.block_expires_at, Some(1_000 + 86_400));
    assert!(!t.is_blocked_at(IP, 1_000 + 86_400));
}

#[test]
fn old_violations_do_not_count_toward_block() {
    let mut t = InMemorySuspiciousActivityTracker::new(tracker_config());
    t.record_violation_at(IP, ViolationRecord::new_at("a", ThreatLevel::Low, 0), 0);
    t.record_violation_at(IP, ViolationRecord::new_at("b", ThreatLevel::Low, 10), 10);
    t.record_violation_at(IP, ViolationRecord::new_at("c", ThreatLevel::Low, 5_000), 5_000);
    assert!(!t.is_blocked_at(IP, 5_000));
    assert_eq!(t.violation_summary_at(IP, 5_000).violations_in_window, 1);
}

#[test]
fn auto_blocks_on_critical() {
    let mut t = InMemorySuspiciousActivityTracker::new(tracker_config());
    t.record_violation_at(IP, ViolationRecord::new_at("critical", ThreatLevel::Critical, 7), 7);
    assert!(t.is_blocked_at(IP, 7));
}

#[test]
fn no_auto_block_when_disabled() {
    let mut config = tracker_config();
    config.auto_block_on_critical = false;
    let mut t = InMemorySuspiciousActivityTracker::new(config);
    t.record_violation_at(IP, ViolationRecord::new_at("critical", ThreatLevel::Critical, 7), 7);
    assert!(!t.is_blocked_at(IP, 7));
}

#[test]
fn manual_block_unblock() {
    let mut t = InMemorySuspiciousActivityTracker::new(tracker_config());
    t.block_ip_at(IP, 3600, 100);
    assert!(t.is_blocked_at(IP, 100));
    t.unblock_ip(IP);
    assert!(!t.is_blocked_at(IP, 100));
}

#[test]
fn blocked_ips_are_listed_once() {
    let mut t = InMemorySuspiciousActivityTracker::new(tracker_config());
    t.block_ip_at("192.168.1.1", 3600, 0);
    t.block_ip_at("192.168.1.2", 3600, 0);
    t.block_ip_at("192.168.1.1", 7200, 0);
    t.record_violation_at("10.0.0.1", ViolationRecord::new_at("x", ThreatLevel::Low, 0), 0);
    let blocked = t.blocked_ips_at(10);
    assert_eq!(blocked.len(), 2);
    assert!(blocked.contains(&"192.168.1.1".to_string()));
    assert!(blocked.contains(&"192.168.1.2".to_string()));
}

#[test]
fn clear_violations_keeps_block() {
    let mut t = InMemorySuspiciousActivityTracker::new(tracker_config());
    t.record_violation_at(IP, ViolationRecord::new_at("c", ThreatLevel::Critical, 0), 0);
    t.clear_violations(IP);
    let s = t.violation_summary_at(IP, 1);
    assert_eq!(s.total_violations, 0);
    assert!(s.is_blocked);
}

#[test]
fn tracks_max_threat_level_and_times() {
    let mut t = InMemorySuspiciousActivityTracker::new(tracker_config());
    t.record_violation_at(IP, ViolationRecord::new_at("low", ThreatLevel::Low, 1), 1);
    t.record_violation_at(IP, ViolationRecord::new_at("high", ThreatLevel::High, 2), 2);
    let with_details = ViolationRecord::new_at("medium", ThreatLevel::Medium, 3).with_details("override");
    assert_eq!(with_details.details.as_deref(), Some("override"));
    t.record_violation_at(IP, with_details, 3);
    let s = t.violation_summary_at(IP, 3);
    assert_eq!(s.max_threat_level, Some(ThreatLevel::High));
    assert_eq!(s.first_violation_at, Some(1));
    assert_eq!(s.last_violation_at, Some(3));
    assert_eq!(t.violation_summary_at("10.9.9.9", 3), Default::default());
}

#[test]
fn cleanup_removes_expired() {
    let mut t = InMemorySuspiciousActivityTracker::new(tracker_config());
    t.block_ip_at(IP, 0, 500);
    t.cleanup_expired_at(500);
    assert!(!t.is_blocked_at(IP, 500));
    assert!(t.blocked_ips_at(0).is_empty());
}

#[test]
fn cleanup_keeps_recent_violations_and_active_blocks() {
    let mut t = InMemorySuspiciousActivityTracker::new(tracker_config());
    t.record_violation_at(IP, ViolationRecord::new_at("old", ThreatLevel::Low, 0), 0);
    t.record_violation_at(IP, ViolationRecord::new_at("new", ThreatLevel::Low, 90_000), 90_000);
    t.block_ip_at("10.0.0.2", 1_000, 90_000);
    t.cleanup_expired_at(90_000);
    assert_eq!(t.violation_summary_at(IP, 90_000).total_violations, 1);
    assert!(t.is_blocked_at("10.0.0.2", 90_000));
}

#[test]
fn default_config_does_not_block_on_one_violation() {
    let mut t = InMemorySuspiciousActivityTracker::new(SuspiciousActivityConfig::default());
    t.record_violation(IP, ViolationRecord::new("test", ThreatLevel::Medium));
    assert!(!t.is_blocked(IP));
    assert_eq!(t.get_violation_summary(IP).total_violations, 1);
}

// ---------------------------------------------------------- encryption

#[test]
fn encryption_round_trip() {
    let key = ChaChaEncryptionAdapter::generate_key();
    let adapter = ChaChaEncryptionAdapter::new(&key).unwrap();
    let plaintext = b"Top secret message";
    let sealed = adapter.encrypt(plaintext).unwrap();
    assert_eq!(sealed.len(), 24 + plaintext.len() + 16);
    assert_ne!(&sealed[24..24 + plaintext.len()], &plaintext[..]);
    assert_eq!(adapter.decrypt(&sealed).unwrap(), plaintext.to_vec());
}

#[test]
fn encryption_with_fixed_nonce_is_deterministic() {
    let adapter = ChaChaEncryptionAdapter::new(&[7u8; 32]).unwrap();
    let nonce = [1u8; 24];
    let a = adapter.encrypt_with_nonce(&nonce, b"hello").unwrap();
    let b = adapter.encrypt_with_nonce(&nonce, b"hello").unwrap();
    assert_eq!(a, b);
    assert_eq!(&a[..24], &nonce[..]);
    assert_eq!(adapter.decrypt(&a).unwrap(), b"hello".to_vec());
}

#[test]
fn encryption_rejects_wrong_key_length() {
    match ChaChaEncryptionAdapter::new(&[0u8; 16]) {
        Err(ApplicationError::Configuration(m)) => {
            assert_eq!(m, "Encryption key must be 32 bytes, got 16");
        },
        _ => panic!("expected a configuration error"),
    }
}

#[test]
fn decryption_failures() {
    let adapter = ChaChaEncryptionAdapter::new(&[3u8; 32]).unwrap();
    assert_eq!(
        adapter.decrypt(&[0u8; 10]).unwrap_err(),
        ApplicationError::Internal("Ciphertext too short - missing nonce".to_string())
    );
    let mut sealed = adapter.encrypt(b"data").unwrap();
    let last = sealed.len() - 1;
    sealed[last] ^= 0xff;
    assert_eq!(
        adapter.decrypt(&sealed).unwrap_err(),
        ApplicationError::Internal("Decryption failed: aead::Error".to_string())
    );
    let other = ChaChaEncryptionAdapter::new(&[4u8; 32]).unwrap();
    let sealed = adapter.encrypt(b"data").unwrap();
    assert!(other.decrypt(&sealed).is_err());
}

// ---------------------------------------------------------- inference

#[test]
fn stable_system_prompts() {
    assert!(is_stable_system_prompt("Classify the following text"));
    assert!(is_stable_system_prompt("Extract data as JSON"));
    assert!(!is_stable_system_prompt("Write a creative story"));
    assert!(!is_stable_system_prompt("Summarize and generate ideas"));
    assert!(!is_stable_system_prompt("You are a helpful assistant"));
}

#[test]
fn answer_cache_keys() {
    let a = message_cache_key("Hello", "qwen");
    assert_eq!(a, llm_cache_key_from("Hello", "qwen", "0.70"));
    assert!(a.starts_with("llm:"));
    assert_ne!(a, message_cache_key("Hello", "llama"));
    assert_eq!(
        system_cache_key("sys", "msg", "qwen"),
        llm_cache_key_from("sys|msg", "qwen", "0.70")
    );
    let conversation = vec![
        InferenceMessage { role: "User".to_string(), content: "hi".to_string() },
        InferenceMessage { role: "Assistant".to_string(), content: "hello".to_string() },
    ];
    assert_eq!(
        conversation_cache_key(&conversation, "qwen"),
        llm_cache_key_from("User:hi|Assistant:hello", "qwen", "0.70")
    );
    assert_eq!(models_list_cache_key(), "inference:models:list");
    assert_eq!(model_invalidation_pattern("qwen"), "inference:qwen:*");
}

#[test]
fn cached_response_round_trip() {
    let result = InferenceResult {
        content: "Hello".to_string(),
        model: "qwen".to_string(),
        tokens_used: Some(10),
        latency_ms: 50,
    };
    let back = CachedResponse::from_result(&result).to_result();
    assert_eq!(back.content, "Hello");
    assert_eq!(back.model, "qwen");
    assert_eq!(back.tokens_used, Some(10));
    assert_eq!(back.latency_ms, 0);
}

#[test]
fn context_messages_prefer_conversation_prompt() {
    let history = vec![InferenceMessage { role: "user".to_string(), content: "hi".to_string() }];
    let msgs = context_messages(Some("conv"), Some("adapter"), history.clone());
    assert_eq!(msgs.len(), 2);
    assert_eq!(msgs[0], InferenceMessage { role: "system".to_string(), content: "conv".to_string() });
    let msgs = context_messages(None, Some("adapter"), history.clone());
    assert_eq!(msgs[0].content, "adapter");
    let msgs = context_messages(None, None, history.clone());
    assert_eq!(msgs, history);
}

#[test]
fn inference_errors_are_mapped() {
    assert_eq!(map_inference_error(InferenceError::RateLimited), ApplicationError::RateLimited);
    assert_eq!(
        map_inference_error(InferenceError::ConnectionFailed("timeout".to_string())),
        ApplicationError::ExternalService("Hailo connection failed: timeout".to_string())
    );
    assert_eq!(
        map_inference_error(InferenceError::Timeout(5000)),
        ApplicationError::ExternalService("Inference timeout after 5000ms".to_string())
    );
    assert_eq!(
        map_inference_error(InferenceError::Other("bad".to_string())),
        ApplicationError::Inference("bad".to_string())
    );
}

#[test]
fn guarded_calls() {
    let mut none: Option<CircuitBreaker> = None;
    assert_eq!(circuit_state_desc_at(&mut none, 0), "disabled");
    let r: Result<u32, ApplicationError> = guarded_call_at(&mut none, 0, || Ok(3));
    assert_eq!(r, Ok(3));
    let mut cb = Some(CircuitBreaker::with_config("hailo", CircuitBreakerConfig::custom(1, 1, 60)));
    assert_eq!(circuit_state_desc_at(&mut cb, 0), "closed");
    let r: Result<u32, ApplicationError> =
        guarded_call_at(&mut cb, 0, || Err(InferenceError::RateLimited));
    assert_eq!(r, Err(ApplicationError::RateLimited));
    assert_eq!(circuit_state_desc_at(&mut cb, 1), "open");
    let r: Result<u32, ApplicationError> = guarded_call_at(&mut cb, 1, || Ok(4));
    assert_eq!(
        r,
        Err(ApplicationError::ExternalService(
            "Hailo inference service temporarily unavailable (circuit breaker open)".to_string()
        ))
    );
    assert_eq!(circuit_state_desc_at(&mut cb, 60_000), "half-open");
}

// ---------------------------------------------------------- contacts

#[test]
fn contact_names() {
    assert_eq!(display_name_for(""), "Unnamed");
    assert_eq!(display_name_for("Alice Smith"), "Alice Smith");
    assert_eq!(split_name("Alice Smith"), Some(("Alice".to_string(), "Smith".to_string())));
    assert_eq!(split_name("Anna Maria Berg"), Some(("Anna".to_string(), "Maria Berg".to_string())));
    assert_eq!(split_name("Madonna"), None);
    assert_eq!(
        names_for_new_contact("Bob Jones", None, None),
        (Some("Bob".to_string()), Some("Jones".to_string()))
    );
    assert_eq!(
        names_for_new_contact("Bob Jones", Some("Robert"), None),
        (Some("Robert".to_string()), None)
    );
    let s = contact_summary("uid-1", "", Some("a@b.c"), None, Some("Acme"));
    assert_eq!(s.display_name, "Unnamed");
    assert_eq!(s.email.as_deref(), Some("a@b.c"));
    assert!(s.phone.is_none());
}

#[test]
fn addressbook_choice() {
    assert_eq!(choose_addressbook(Some("/ab/"), &vec![]), Ok("/ab/".to_string()));
    assert_eq!(
        choose_addressbook(None, &vec!["/one/".to_string(), "/two/".to_string()]),
        Ok("/one/".to_string())
    );
    assert_eq!(
        choose_addressbook(None, &vec![]),
        Err(ContactError::AddressbookNotFound("No addressbooks available".to_string()))
    );
}

#[test]
fn birthdays_in_window() {
    assert!(birthday_in_window((1990, 5, 15), (2024, 5, 10), 7));
    assert!(!birthday_in_window((1990, 5, 20), (2024, 5, 10), 7));
    assert!(birthday_in_window((1985, 1, 2), (2024, 12, 30), 5));
    assert!(birthday_in_window((1992, 2, 29), (2024, 2, 28), 1));
    assert!(!birthday_in_window((1990, 5, 15), (2024, 2, 30), 400));
    let a = contact_summary("1", "A", None, None, None);
    let b = contact_summary("2", "B", None, None, None);
    let c = contact_summary("3", "C", None, None, None);
    let up = upcoming_birthdays(
        vec![(a, Some((1990, 5, 12))), (b, None), (c, Some((1990, 8, 1)))],
        (2024, 5, 10),
        30,
    );
    assert_eq!(up.len(), 1);
    assert_eq!(up[0].id, "1");
}

// ---------------------------------------------------------- tasks

fn task(id: &str, status: CalDavStatus, priority: Priority, due: Option<i64>) -> CalendarTask {
    let new = NewTask { summary: format!("task {id}"), description: None, due_date: due, priority };
    let mut t = new_task(id.to_string(), new, 0);
    t.status = status;
    t
}

#[test]
fn task_listing_filters_and_limits() {
    let tasks = vec![
        task("a", CalDavStatus::NeedsAction, Priority::High, Some(100)),
        task("b", CalDavStatus::Completed, Priority::High, Some(50)),
        task("c", CalDavStatus::InProgress, Priority::Low, None),
        task("d", CalDavStatus::NeedsAction, Priority::High, Some(500)),
    ];
    let q = TaskQuery {
        include_completed: false,
        status: None,
        priority: Some(Priority::High),
        due_before: Some(200),
        limit: None,
    };
    let ids: Vec<String> = list_selection(tasks.clone(), &q, 7).into_iter().map(|t| t.id).collect();
    assert_eq!(ids, vec!["a".to_string()]);
    let all = TaskQuery {
        include_completed: true,
        status: None,
        priority: None,
        due_before: None,
        limit: Some(2),
    };
    let listed = list_selection(tasks, &all, 7);
    let ids: Vec<String> = listed.iter().map(|t| t.id.clone()).collect();
    assert_eq!(ids, vec!["a".to_string(), "b".to_string()]);
    assert_eq!(listed[1].status, TaskStatus::Completed);
    assert_eq!(listed[1].created_at, 0);
}

#[test]
fn task_updates_apply() {
    let t = task("a", CalDavStatus::NeedsAction, Priority::Low, None);
    let u = TaskUpdates {
        summary: Some("new".to_string()),
        description: Some(Some("desc".to_string())),
        priority: Some(Priority::High),
        status: Some(TaskStatus::Completed),
        due_date: Some(Some(99)),
    };
    let r = apply_updates(t, u, 1_000);
    assert_eq!(r.summary, "new");
    assert_eq!(r.description.as_deref(), Some("desc"));
    assert_eq!(r.priority, CalDavPriority::High);
    assert_eq!(r.status, CalDavStatus::Completed);
    assert_eq!(r.completed, Some(1_000));
    assert_eq!(r.last_modified, Some(1_000));
    assert_eq!(r.due, Some(99));
    assert_eq!(r.created, Some(0));
}

#[test]
fn task_update_of_missing_task_is_not_found() {
    let tasks = vec![task("a", CalDavStatus::NeedsAction, Priority::Low, None)];
    let none = TaskUpdates { summary: None, description: None, priority: None, status: None, due_date: None };
    assert_eq!(
        update_task_in(&tasks, "zz", none.clone(), 5),
        Err(ApplicationError::NotFound("Task not found: zz".to_string()))
    );
    let r = update_task_in(&tasks, "a", none, 5).unwrap();
    assert_eq!(r.last_modified, Some(5));
    assert_eq!(r.completed, None);
}

#[test]
fn stored_tasks_are_shown_with_defaults() {
    let mut t = task("x", CalDavStatus::Cancelled, Priority::Medium, Some(9));
    t.created = None;
    t.last_modified = None;
    let shown = map_task(t.clone(), 42);
    assert_eq!(shown.created_at, 42);
    assert_eq!(shown.updated_at, 42);
    assert_eq!(shown.status, TaskStatus::Cancelled);
    assert_eq!(shown.priority, Priority::Medium);
    assert_eq!(shown.due_date, Some(9));
    assert_eq!(shown.calendar, None);
    let tasks = vec![t];
    assert_eq!(get_task_in(&tasks, "x", 1).map(|s| s.id), Some("x".to_string()));
    assert!(get_task_in(&tasks, "y", 1).is_none());
    assert!(find_task(&tasks, "x").is_some());
    let filtered = filter_tasks(tasks, &TaskQuery {
        include_completed: true,
        status: Some(TaskStatus::Cancelled),
        priority: None,
        due_before: Some(8),
        limit: None,
    });
    assert!(filtered.is_empty());
}

#[test]
fn created_tasks_get_fresh_ids() {
    let new = NewTask { summary: "buy milk".to_string(), description: None, due_date: None, priority: Priority::High };
    let a = create_task(new.clone(), 10);
    let b = create_task(new, 10);
    assert_eq!(a.id.len(), 36);
    assert_ne!(a.id, b.id);
    assert_eq!(a.status, CalDavStatus::NeedsAction);
    assert_eq!(a.priority, CalDavPriority::High);
    assert_eq!(a.created, Some(10));
}

#[test]
fn map_priority_roundtrip() {
    assert_eq!(map_priority_from_caldav(CalDavPriority::High), Priority::High);
    assert_eq!(map_priority_from_caldav(CalDavPriority::Medium), Priority::Medium);
    assert_eq!(map_priority_from_caldav(CalDavPriority::Low), Priority::Low);
    assert_eq!(map_priority_to_caldav(Priority::Low), CalDavPriority::Low);
}

#[test]
fn map_status_roundtrip() {
    assert_eq!(map_status_from_caldav(CalDavStatus::NeedsAction), TaskStatus::NeedsAction);
    assert_eq!(map_status_from_caldav(CalDavStatus::InProgress), TaskStatus::InProgress);
    assert_eq!(map_status_from_caldav(CalDavStatus::Completed), TaskStatus::Completed);
    assert_eq!(map_status_from_caldav(CalDavStatus::Cancelled), TaskStatus::Cancelled);
    assert_eq!(map_status_to_caldav(TaskStatus::InProgress), CalDavStatus::InProgress);
}

#[test]
fn task_adapter_map_error_connection() {
    let app_err = map_caldav_error(CalDavError::ConnectionFailed("timeout".into()));
    assert!(matches!(app_err, ApplicationError::ExternalService(_)));
}

#[test]
fn task_adapter_map_error_auth() {
    let app_err = map_caldav_error(CalDavError::AuthenticationFailed);
    assert!(matches!(app_err, ApplicationError::NotAuthorized(_)));
}

#[test]
fn map_error_not_found() {
    let app_err = map_caldav_error(CalDavError::CalendarNotFound("calendar not found".into()));
    assert!(matches!(app_err, ApplicationError::NotFound(_)));
}

// ---------------------------------------------------------- transit

fn leg(dep: i64, arr: i64, delay: Option<i64>) -> TransitLeg {
    TransitLeg {
        mode: TransitMode::Suburban,
        line_name: Some("S1".to_string()),
        direction: None,
        from_stop: "A".to_string(),
        to_stop: "B".to_string(),
        departure: dep,
        arrival: arr,
        platform: None,
        delay_seconds: delay,
    }
}

#[test]
fn transit_delay_notices() {
    assert_eq!(delay_notice(Some(300)), Some("⚠️ +5min".to_string()));
    assert_eq!(delay_notice(Some(59)), Some("⚠️ +0min".to_string()));
    assert_eq!(delay_notice(Some(0)), None);
    assert_eq!(delay_notice(Some(-60)), None);
    assert_eq!(delay_notice(None), None);
}

#[test]
fn transit_connection_spans_its_legs() {
    let c = connection_from_legs(vec![leg(100, 200, Some(120)), leg(250, 400, None)], 5, 1, 7);
    assert_eq!(c.departure_time, 100);
    assert_eq!(c.arrival_time, 400);
    assert_eq!(c.delay_info.as_deref(), Some("⚠️ +2min"));
    assert_eq!(c.legs.len(), 2);
    let empty = connection_from_legs(vec![], 0, 0, 7);
    assert_eq!((empty.departure_time, empty.arrival_time), (7, 7));
    assert!(empty.delay_info.is_none());
}

// ---------------------------------------------------------- speech

#[test]
fn audio_format_conversions() {
    for f in [AudioFormat::Opus, AudioFormat::Ogg, AudioFormat::Mp3, AudioFormat::Wav] {
        assert_eq!(ai_to_domain_format(domain_to_ai_format(f)), f);
    }
    assert_eq!(ai_to_domain_format(AiAudioFormat::Flac), AudioFormat::Mp3);
    assert_eq!(ai_to_domain_format(AiAudioFormat::Webm), AudioFormat::Mp3);
    assert_eq!(ai_to_domain_format(AiAudioFormat::M4a), AudioFormat::Mp3);
}

#[test]
fn speech_errors_are_mapped() {
    assert_eq!(
        map_speech_error(SpeechError::AudioTooLong { duration_ms: 70000, max_ms: 60000 }),
        ApplicationError::InvalidOperation("Audio too long: 70000ms exceeds max 60000ms".to_string())
    );
    assert_eq!(
        map_speech_error(SpeechError::Timeout(30000)),
        ApplicationError::ExternalService("Speech service timeout after 30000ms".to_string())
    );
    assert_eq!(map_speech_error(SpeechError::RateLimited), ApplicationError::RateLimited);
    assert_eq!(
        map_speech_error(SpeechError::VoiceNotFound("nova".to_string())),
        ApplicationError::InvalidOperation("Voice not found: nova".to_string())
    );
    assert_eq!(
        map_speech_error(SpeechError::Configuration("x".to_string())),
        ApplicationError::Configuration("x".to_string())
    );
}

// ---------------------------------------------------------- caches

#[test]
fn default_config_values() {
    let config = MokaCacheConfig::default();
    assert_eq!(config.max_capacity_mb, 100);
    assert_eq!(config.default_ttl, Duration::from_secs(3600));
}

#[test]
fn moka_config_copy() {
    let config = MokaCacheConfig::default();
    let copied = config;
    assert_eq!(config.max_capacity_mb, copied.max_capacity_mb);
}

#[test]
fn moka_cache_counts_hits_and_misses() {
    let mut cache = MokaCache::for_llm_responses();
    cache.set_bytes("llm:test", b"response".to_vec(), Duration::from_secs(60));
    assert_eq!(cache.get_bytes("llm:test"), Some(b"response".to_vec()));
    assert_eq!(cache.get_bytes("llm:none"), None);
    let stats = cache.stats();
    assert_eq!(stats.hits, 1);
    assert_eq!(stats.misses, 1);
    assert_eq!(stats.memory_bytes, stats.entries * 512);
    assert!(cache.contains_key("llm:test"));
    cache.invalidate("llm:test");
    assert!(!cache.contains_key("llm:test"));
}

#[test]
fn moka_cache_pattern_invalidation() {
    let mut cache = MokaCache::new();
    cache.set_bytes("prefix:a", vec![1], Duration::from_secs(60));
    cache.set_bytes("prefix:b", vec![2], Duration::from_secs(60));
    cache.set_bytes("other:c", vec![3], Duration::from_secs(60));
    assert_eq!(cache.invalidate_pattern("prefix:*"), 2);
    assert!(!cache.contains_key("prefix:a"));
    assert!(cache.contains_key("other:c"));
}

#[test]
fn cache_keys_and_entries() {
    let k = generate_cache_key("test", &["a", "b"]);
    assert!(k.starts_with("test:"));
    assert_eq!(k.len(), "test:".len() + 64);
    assert_eq!(k, generate_cache_key("test", &["a", "b"]));
    assert_ne!(k, generate_cache_key("test", &["ab", ""]));
    let e = CacheEntry::new_at(vec![1, 2], 100, 60);
    assert_eq!(lookup_entry(Some(e.clone()), 159), CacheLookup::Hit(vec![1, 2]));
    assert_eq!(lookup_entry(Some(e), 160), CacheLookup::Expired);
    assert_eq!(lookup_entry(None, 0), CacheLookup::Miss);
    let mut c = HitCounter::new();
    c.record(&CacheLookup::Miss);
    c.record(&CacheLookup::Hit(vec![]));
    assert_eq!((c.hits, c.misses), (1, 1));
}

#[test]
fn cache_cleanup_and_invalidation_keys() {
    let entries = vec![
        (b"a".to_vec(), Some(CacheEntry::new_at(vec![], 0, 10))),
        (b"b".to_vec(), None),
        (b"c".to_vec(), Some(CacheEntry::new_at(vec![], 0, 100))),
    ];
    assert_eq!(keys_to_expire(&entries, 50), vec![b"a".to_vec()]);
    let keys = vec!["prefix:a".to_string(), "other".to_string(), "prefix:b".to_string()];
    assert_eq!(
        keys_to_invalidate(&keys, "prefix:*"),
        vec!["prefix:a".to_string(), "prefix:b".to_string()]
    );
}

#[test]
fn two_layer_reads_and_stats() {
    assert_eq!(after_first_layer(Some(vec![1])), LayerStep::Return(vec![1]));
    assert_eq!(after_first_layer(None), LayerStep::AskSecondLayer);
    assert_eq!(after_second_layer(Some(vec![2])), LayerStep::PromoteAndReturn(vec![2]));
    assert_eq!(after_second_layer(None), LayerStep::Miss);
    let s = combine_layer_stats(
        CacheStats { hits: 1, misses: 3, entries: 2, memory_bytes: 10 },
        CacheStats { hits: 2, misses: 1, entries: 5, memory_bytes: 20 },
    );
    assert_eq!(s, CacheStats { hits: 3, misses: 3, entries: 7, memory_bytes: 30 });
}

#[test]
fn persistent_layer_stats_estimates_256_bytes_per_entry() {
    let s = persistent_layer_stats(HitCounter { hits: 4, misses: 2 }, 3);
    assert_eq!(s, CacheStats { hits: 4, misses: 2, entries: 3, memory_bytes: 768 });
}

// ---------------------------------------------------------- integrations

#[test]
fn guard_circuit_fails_fast_when_open() {
    let mut none: Option<CircuitBreaker> = None;
    assert!(guard_circuit_at(&mut none, 0, "Weather service circuit breaker is open").is_ok());
    let mut cb = Some(CircuitBreaker::with_config("weather", CircuitBreakerConfig::custom(1, 1, 30)));
    assert!(guard_circuit_at(&mut cb, 0, "x").is_ok());
    let _: Result<(), _> = cb.as_mut().unwrap().call_sync_at(0, || Err::<(), _>("down"));
    assert_eq!(
        guard_circuit_at(&mut cb, 1, "Weather service circuit breaker is open"),
        Err(ApplicationError::ExternalService(
            "Weather service circuit breaker is open".to_string()
        ))
    );
    assert!(guard_circuit_at(&mut cb, 30_000, "x").is_ok());
}

#[test]
fn search_errors_and_limits() {
    assert_eq!(
        map_search_error(WebSearchError::RateLimitExceeded { retry_after_secs: None }),
        ApplicationError::RateLimited
    );
    assert_eq!(
        map_search_error(WebSearchError::NoResults { query: "test".to_string() }),
        ApplicationError::NotFound("No search results for: test".to_string())
    );
    assert_eq!(
        map_search_error(WebSearchError::AuthenticationFailed("Invalid API key".to_string())),
        ApplicationError::InvalidOperation("Authentication failed: Invalid API key".to_string())
    );
    assert_eq!(
        map_search_error(WebSearchError::Timeout { timeout_secs: 30 }),
        ApplicationError::ExternalService("Request timed out after 30s".to_string())
    );
    assert_eq!(
        map_search_error(WebSearchError::ParseError("Invalid JSON".to_string())),
        ApplicationError::Internal("Invalid JSON".to_string())
    );
    assert_eq!(search_result_limit(None), 5);
    assert_eq!(search_result_limit(Some(8)), 8);
}

#[test]
fn weather_errors_and_conditions() {
    assert_eq!(
        map_weather_error(WeatherError::InvalidCoordinates),
        ApplicationError::InvalidOperation("Invalid coordinates".to_string())
    );
    assert_eq!(map_weather_error(WeatherError::RateLimitExceeded), ApplicationError::RateLimited);
    assert_eq!(
        map_weather_error(WeatherError::ParseError("p".to_string())),
        ApplicationError::Internal("p".to_string())
    );
    assert_eq!(map_condition(WeatherCode::FreezingDrizzle), WeatherCondition::Drizzle);
    assert_eq!(map_condition(WeatherCode::RainShowers), WeatherCondition::ModerateRain);
    assert_eq!(map_condition(WeatherCode::FreezingRain), WeatherCondition::HeavyRain);
    assert_eq!(map_condition(WeatherCode::SnowGrains), WeatherCondition::Snow);
    assert_eq!(map_condition(WeatherCode::ThunderstormWithHail), WeatherCondition::Thunderstorm);
    assert_eq!(map_condition(WeatherCode::ClearSky), WeatherCondition::ClearSky);
    assert_eq!(precipitation_probability(None), 0);
    assert_eq!(precipitation_probability(Some(40)), 40);
}

#[test]
fn calendar_contact_and_mail_errors() {
    assert_eq!(
        map_caldav_error(CalDavError::AuthenticationFailed),
        ApplicationError::NotAuthorized("CalDAV authentication failed".to_string())
    );
    assert_eq!(
        map_caldav_error(CalDavError::CalendarNotFound("cal".to_string())),
        ApplicationError::NotFound("cal".to_string())
    );
    assert_eq!(task_not_found("t1"), ApplicationError::NotFound("Task not found: t1".to_string()));
    assert_eq!(map_carddav_error(CardDavError::Timeout), ContactError::ServiceUnavailable);
    assert_eq!(
        map_carddav_error(CardDavError::RequestFailed("500".to_string())),
        ContactError::OperationFailed("Request failed: 500".to_string())
    );
    assert_eq!(
        map_proton_error(ProtonError::MailboxNotFound("INBOX".to_string())),
        EmailError::NotFound("INBOX".to_string())
    );
    assert_eq!(
        map_proton_error(ProtonError::BridgeUnavailable("x".to_string())),
        EmailError::ServiceUnavailable
    );
    assert_eq!(
        map_proton_error(ProtonError::Other("failed".to_string())),
        EmailError::OperationFailed("failed".to_string())
    );
}

#[test]
fn cached_answers_are_served_and_stored_while_enabled() {
    let cached = CachedResponse { content: "hi".to_string(), model: "m".to_string(), tokens_used: Some(3) };
    let hit = answer_from_cache(true, Ok(Some(cached.clone()))).unwrap();
    assert_eq!((hit.content.as_str(), hit.model.as_str(), hit.tokens_used, hit.latency_ms), ("hi", "m", Some(3), 0));
    assert!(answer_from_cache(false, Ok(Some(cached))).is_none());
    assert!(answer_from_cache(true, Ok(None)).is_none());
    assert!(answer_from_cache(true, Err(ApplicationError::Internal("read".to_string()))).is_none());
    let result = InferenceResult { content: "a".to_string(), model: "m".to_string(), tokens_used: None, latency_ms: 7 };
    let (c, ttl) = answer_to_store(true, &result, true).unwrap();
    assert_eq!((c.content.as_str(), ttl), ("a", 86_400));
    assert_eq!(answer_to_store(true, &result, false).unwrap().1, 3_600);
    assert!(answer_to_store(false, &result, true).is_none());
}
