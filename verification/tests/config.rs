use std::time::Duration;

use infrastructure::config::cache::CacheConfig;
use infrastructure::config::database::DatabaseConfig;
use infrastructure::config::integrations::{
    CalDavAppConfig, CardDavAppConfig, ProtonAppConfig, ProtonTlsAppConfig, TransitAppConfig,
    WeatherConfig, WebSearchAppConfig,
};
use infrastructure::config::memory::{EmbeddingAppConfig, ReminderAppConfig};
use infrastructure::config::messenger::{MessengerPersistenceConfig, SignalConfig, WhatsAppConfig};
use infrastructure::config::resilience::{DegradedModeAppConfig, HealthAppConfig};
use infrastructure::config::security::{ApiKeyEntry, PromptSecurityConfig, SecurityConfig, SecuritySensitivity};
use infrastructure::config::server::ServerConfig;
use infrastructure::config::vault::VaultAppConfig;
use infrastructure::integrations::WebSearchConfig;
use infrastructure::config::{fill_empty_secret, fill_missing_secret, Environment, MessengerSelection, MessengerSource};

#[test]
fn config_environment_default_is_development() {
    let env = Environment::default();
    assert_eq!(env, Environment::Development);
}

#[test]
fn config_environment_display() {
    assert_eq!(Environment::Development.to_string(), "development");
    assert_eq!(Environment::Production.to_string(), "production");
}

#[test]
fn config_environment_from_str() {
    assert_eq!(
        "development".parse::<Environment>().unwrap(),
        Environment::Development
    );
    assert_eq!(
        "production".parse::<Environment>().unwrap(),
        Environment::Production
    );
    assert_eq!("dev".parse::<Environment>().unwrap(), Environment::Development);
    assert_eq!("prod".parse::<Environment>().unwrap(), Environment::Production);
}

#[test]
fn config_environment_from_str_case_insensitive() {
    assert_eq!(
        "DEVELOPMENT".parse::<Environment>().unwrap(),
        Environment::Development
    );
    assert_eq!(
        "PRODUCTION".parse::<Environment>().unwrap(),
        Environment::Production
    );
}

#[test]
fn config_messenger_selection_default_is_whatsapp() {
    let selection = MessengerSelection::default();
    assert_eq!(selection, MessengerSelection::WhatsApp);
}

#[test]
fn config_messenger_selection_display() {
    assert_eq!(MessengerSelection::WhatsApp.to_string(), "whatsapp");
    assert_eq!(MessengerSelection::Signal.to_string(), "signal");
    assert_eq!(MessengerSelection::Disabled.to_string(), "none");
}

#[test]
fn config_messenger_selection_is_enabled() {
    assert!(MessengerSelection::WhatsApp.is_enabled());
    assert!(MessengerSelection::Signal.is_enabled());
    assert!(!MessengerSelection::Disabled.is_enabled());
}

#[test]
fn config_signal_config_default() {
    let config = SignalConfig::default();
    assert!(config.phone_number.is_empty());
    assert_eq!(config.socket_path, "/var/run/signal-cli/socket");
    assert!(config.data_path.is_none());
    assert_eq!(config.timeout_ms, 30_000);
    assert!(config.whitelist.is_empty());
}

#[test]
fn config_environment_from_str_invalid() {
    let result = "invalid".parse::<Environment>();
    assert!(result.is_err());
    assert!(result.unwrap_err().contains("Invalid environment"));
}

#[test]
fn config_server_config_default() {
    let config = ServerConfig::default();
    assert_eq!(config.host, "127.0.0.1");
    assert_eq!(config.port, 3000);
    assert!(config.cors_enabled);
}

#[test]
fn config_server_config_debug() {
    let config = ServerConfig::default();
    let debug = format!("{config:?}");
    assert!(debug.contains("ServerConfig"));
}

#[test]
fn config_cache_config_default() {
    let config = CacheConfig::default();
    assert!(config.enabled);
    assert_eq!(config.ttl_short_secs, 5 * 60);
    assert_eq!(config.ttl_medium_secs, 60 * 60);
    assert_eq!(config.ttl_long_secs, 24 * 60 * 60);
    assert_eq!(config.ttl_llm_dynamic_secs, 60 * 60);
    assert_eq!(config.ttl_llm_stable_secs, 24 * 60 * 60);
    assert_eq!(config.l1_max_entries, 10_000);
}

#[test]
fn config_cache_config_ttl_durations() {
    let config = CacheConfig::default();
    assert_eq!(config.ttl_short().as_secs(), 5 * 60);
    assert_eq!(config.ttl_medium().as_secs(), 60 * 60);
    assert_eq!(config.ttl_long().as_secs(), 24 * 60 * 60);
    assert_eq!(config.ttl_llm_dynamic().as_secs(), 60 * 60);
    assert_eq!(config.ttl_llm_stable().as_secs(), 24 * 60 * 60);
}

#[test]
fn config_websearch_config_default() {
    let config = WebSearchAppConfig::default();
    assert!(config.api_key.is_none());
    assert_eq!(config.max_results, 5);
    assert_eq!(config.timeout_secs, 30);
    assert!(config.fallback_enabled);
    assert_eq!(config.safe_search, "moderate");
    assert!(config.country.is_none());
    assert!(config.language.is_none());
    assert!(config.rate_limit_rpm.is_none());
    assert_eq!(config.cache_ttl_minutes, 30);
}

#[test]
fn config_embedding_config_default() {
    let config = EmbeddingAppConfig::default();
    assert_eq!(config.model, "nomic-embed-text");
    assert_eq!(config.dimension, 384);
    assert_eq!(config.timeout_ms, 30000);
}

#[test]
fn config_health_config_default() {
    let config = HealthAppConfig::default();
    assert_eq!(config.global_timeout_secs, 5);
    assert!(config.inference_timeout_secs.is_none());
}

#[test]
fn config_degraded_mode_config_default() {
    let config = DegradedModeAppConfig::default();
    assert!(config.enabled);
    assert_eq!(config.failure_threshold, 3);
    assert_eq!(config.retry_cooldown_secs, 30);
    assert_eq!(config.success_threshold, 2);
}

#[test]
fn config_prompt_security_config_default() {
    let config = PromptSecurityConfig::default();
    assert!(config.enabled);
    assert_eq!(config.sensitivity, "medium");
    assert!(config.block_on_detection);
    assert_eq!(config.max_violations_before_block, 3);
}

#[test]
fn config_database_config_default() {
    let config = DatabaseConfig::default();
    assert_eq!(config.path, "pisovereign.db");
    assert_eq!(config.max_connections, 5);
    assert!(config.run_migrations);
}

#[test]
fn config_signal_config_debug() {
    let config = SignalConfig::default();
    let debug = format!("{config:?}");
    assert!(debug.contains("SignalConfig"));
    assert!(debug.contains("phone_number"));
    assert!(debug.contains("socket_path"));
}

#[test]
fn mod_environment_default_is_development() {
    let env = Environment::default();
    assert_eq!(env, Environment::Development);
}

#[test]
fn mod_environment_display() {
    assert_eq!(Environment::Development.to_string(), "development");
    assert_eq!(Environment::Production.to_string(), "production");
}

#[test]
fn mod_environment_from_str() {
    assert_eq!(
        "development".parse::<Environment>().unwrap(),
        Environment::Development
    );
    assert_eq!(
        "production".parse::<Environment>().unwrap(),
        Environment::Production
    );
    assert_eq!("dev".parse::<Environment>().unwrap(), Environment::Development);
    assert_eq!("prod".parse::<Environment>().unwrap(), Environment::Production);
}

#[test]
fn mod_environment_from_str_case_insensitive() {
    assert_eq!(
        "DEVELOPMENT".parse::<Environment>().unwrap(),
        Environment::Development
    );
    assert_eq!(
        "PRODUCTION".parse::<Environment>().unwrap(),
        Environment::Production
    );
}

#[test]
fn mod_messenger_selection_default_is_whatsapp() {
    let selection = MessengerSelection::default();
    assert_eq!(selection, MessengerSelection::WhatsApp);
}

#[test]
fn mod_messenger_selection_display() {
    assert_eq!(MessengerSelection::WhatsApp.to_string(), "whatsapp");
    assert_eq!(MessengerSelection::Signal.to_string(), "signal");
    assert_eq!(MessengerSelection::Disabled.to_string(), "none");
}

#[test]
fn mod_messenger_selection_is_enabled() {
    assert!(MessengerSelection::WhatsApp.is_enabled());
    assert!(MessengerSelection::Signal.is_enabled());
    assert!(!MessengerSelection::Disabled.is_enabled());
}

#[test]
fn mod_signal_config_default() {
    let config = SignalConfig::default();
    assert!(config.phone_number.is_empty());
    assert_eq!(config.socket_path, "/var/run/signal-cli/socket");
    assert!(config.data_path.is_none());
    assert_eq!(config.timeout_ms, 30_000);
    assert!(config.whitelist.is_empty());
}

#[test]
fn mod_environment_from_str_invalid() {
    let result = "invalid".parse::<Environment>();
    assert!(result.is_err());
    assert!(result.unwrap_err().contains("Invalid environment"));
}

#[test]
fn mod_server_config_default() {
    let config = ServerConfig::default();
    assert_eq!(config.host, "127.0.0.1");
    assert_eq!(config.port, 3000);
    assert!(config.cors_enabled);
}

#[test]
fn mod_server_config_debug() {
    let config = ServerConfig::default();
    let debug = format!("{config:?}");
    assert!(debug.contains("ServerConfig"));
}

#[test]
fn mod_cache_config_default() {
    let config = CacheConfig::default();
    assert!(config.enabled);
    assert_eq!(config.ttl_short_secs, 5 * 60);
    assert_eq!(config.ttl_medium_secs, 60 * 60);
    assert_eq!(config.ttl_long_secs, 24 * 60 * 60);
    assert_eq!(config.ttl_llm_dynamic_secs, 60 * 60);
    assert_eq!(config.ttl_llm_stable_secs, 24 * 60 * 60);
    assert_eq!(config.l1_max_entries, 10_000);
}

#[test]
fn mod_cache_config_ttl_durations() {
    let config = CacheConfig::default();
    assert_eq!(config.ttl_short().as_secs(), 5 * 60);
    assert_eq!(config.ttl_medium().as_secs(), 60 * 60);
    assert_eq!(config.ttl_long().as_secs(), 24 * 60 * 60);
    assert_eq!(config.ttl_llm_dynamic().as_secs(), 60 * 60);
    assert_eq!(config.ttl_llm_stable().as_secs(), 24 * 60 * 60);
}

#[test]
fn mod_websearch_config_default() {
    let config = WebSearchAppConfig::default();
    assert!(config.api_key.is_none());
    assert_eq!(config.max_results, 5);
    assert_eq!(config.timeout_secs, 30);
    assert!(config.fallback_enabled);
    assert_eq!(config.safe_search, "moderate");
    assert!(config.country.is_none());
    assert!(config.language.is_none());
    assert!(config.rate_limit_rpm.is_none());
    assert_eq!(config.cache_ttl_minutes, 30);
}

#[test]
fn mod_embedding_config_default() {
    let config = EmbeddingAppConfig::default();
    assert_eq!(config.model, "nomic-embed-text");
    assert_eq!(config.dimension, 384);
    assert_eq!(config.timeout_ms, 30000);
}

#[test]
fn mod_health_config_default() {
    let config = HealthAppConfig::default();
    assert_eq!(config.global_timeout_secs, 5);
    assert!(config.inference_timeout_secs.is_none());
}

#[test]
fn mod_degraded_mode_config_default() {
    let config = DegradedModeAppConfig::default();
    assert!(config.enabled);
    assert_eq!(config.failure_threshold, 3);
    assert_eq!(config.retry_cooldown_secs, 30);
    assert_eq!(config.success_threshold, 2);
}

#[test]
fn mod_prompt_security_config_default() {
    let config = PromptSecurityConfig::default();
    assert!(config.enabled);
    assert_eq!(config.sensitivity, "medium");
    assert!(config.block_on_detection);
    assert_eq!(config.max_violations_before_block, 3);
}

#[test]
fn mod_database_config_default() {
    let config = DatabaseConfig::default();
    assert_eq!(config.path, "pisovereign.db");
    assert_eq!(config.max_connections, 5);
    assert!(config.run_migrations);
}

#[test]
fn mod_signal_config_debug() {
    let config = SignalConfig::default();
    let debug = format!("{config:?}");
    assert!(debug.contains("SignalConfig"));
    assert!(debug.contains("phone_number"));
    assert!(debug.contains("socket_path"));
}

#[test]
fn messenger_persistence_config_default() {
    let config = MessengerPersistenceConfig::default();
    assert!(config.enabled);
    assert!(config.enable_encryption);
    assert!(config.enable_rag);
    assert!(config.enable_learning);
    assert!(config.retention_days.is_none());
    assert!(config.max_messages_per_conversation.is_none());
    assert_eq!(config.context_window, 50);
}

#[test]
fn messenger_persistence_config_debug() {
    let config = MessengerPersistenceConfig::default();
    let debug = format!("{config:?}");
    assert!(debug.contains("MessengerPersistenceConfig"));
    assert!(debug.contains("enabled"));
    assert!(debug.contains("enable_rag"));
}

#[test]
fn environment_text_parses_back() {
    for env in [Environment::Development, Environment::Production] {
        assert_eq!(env.to_string().parse::<Environment>().unwrap(), env);
    }
}

#[test]
fn environment_parse_mixed_case_short_forms() {
    assert_eq!(Environment::parse("Dev").unwrap(), Environment::Development);
    assert_eq!(Environment::parse("PrOd").unwrap(), Environment::Production);
}

#[test]
fn environment_parse_invalid_message() {
    assert_eq!(
        Environment::parse("staging").unwrap_err(),
        "Invalid environment: staging. Use 'development' or 'production'"
    );
    assert!(Environment::parse("").is_err());
    assert!(Environment::parse(" dev").is_err());
}

#[test]
fn messenger_selection_sources() {
    assert_eq!(
        MessengerSelection::WhatsApp.to_source(),
        Some(MessengerSource::WhatsApp)
    );
    assert_eq!(MessengerSelection::Signal.to_source(), Some(MessengerSource::Signal));
    assert_eq!(MessengerSelection::Disabled.to_source(), None);
}

#[test]
fn security_config_default_values() {
    let config = SecurityConfig::default();
    assert!(config.whitelisted_phones.is_empty());
    assert!(config.api_keys.is_empty());
    assert!(config.trusted_proxies.is_empty());
    assert!(config.rate_limit_enabled);
    assert_eq!(config.rate_limit_rpm, 60);
    assert_eq!(config.rate_limit_cleanup_interval_secs, 300);
    assert_eq!(config.rate_limit_cleanup_max_age_secs, 600);
    assert!(config.tls_verify_certs);
    assert_eq!(config.connection_timeout_secs, 30);
    assert_eq!(config.min_tls_version, "1.2");
}

#[test]
fn security_config_counts_plaintext_keys() {
    let mut config = SecurityConfig::default();
    assert_eq!(config.count_plaintext_keys(), 0);
    assert!(!config.has_api_keys());
    config.api_keys.push(ApiKeyEntry {
        hash: "$argon2id$v=19$m=19456,t=2,p=1$valid".to_string(),
        user_id: "user1".to_string(),
    });
    config.api_keys.push(ApiKeyEntry {
        hash: "plaintext-key".to_string(),
        user_id: "user2".to_string(),
    });
    config.api_keys.push(ApiKeyEntry {
        hash: "$argon".to_string(),
        user_id: "user3".to_string(),
    });
    assert_eq!(config.count_plaintext_keys(), 2);
    assert!(config.has_api_keys());
}

#[test]
fn prompt_security_sensitivity_levels() {
    let mut config = PromptSecurityConfig::default();
    assert_eq!(config.sensitivity_level(), SecuritySensitivity::Medium);
    config.sensitivity = "low".to_string();
    assert_eq!(config.sensitivity_level(), SecuritySensitivity::Low);
    config.sensitivity = "HIGH".to_string();
    assert_eq!(config.sensitivity_level(), SecuritySensitivity::High);
    config.sensitivity = "unknown".to_string();
    assert_eq!(config.sensitivity_level(), SecuritySensitivity::Medium);
}

#[test]
fn prompt_security_to_tracker_thresholds() {
    let mut config = PromptSecurityConfig::default();
    config.max_violations_before_block = 5;
    config.violation_window_secs = 7200;
    config.block_duration_secs = 43200;
    config.auto_block_on_critical = false;
    let converted = config.to_suspicious_activity_config();
    assert_eq!(converted.max_violations_before_block, 5);
    assert_eq!(converted.violation_window_secs, 7200);
    assert_eq!(converted.block_duration_secs, 43200);
    assert!(!converted.auto_block_on_critical);
}

#[test]
fn existing_secret_is_never_overridden() {
    let kept = fill_missing_secret(Some("from-config".to_string()), Some("from-vault"));
    assert_eq!(kept, Some("from-config".to_string()));
    let kept = fill_empty_secret("from-config".to_string(), Some("from-vault"));
    assert_eq!(kept, "from-config");
}

#[test]
fn missing_secret_is_filled_from_store() {
    assert_eq!(
        fill_missing_secret(None, Some("from-vault")),
        Some("from-vault".to_string())
    );
    assert_eq!(fill_missing_secret(None, Some("")), None);
    assert_eq!(fill_missing_secret(None, None), None);
    assert_eq!(fill_empty_secret(String::new(), Some("pw")), "pw");
    assert_eq!(fill_empty_secret(String::new(), Some("")), "");
    assert_eq!(fill_empty_secret(String::new(), None), "");
}

#[test]
fn vault_app_config_defaults() {
    let config = VaultAppConfig::default();
    assert!(!config.enabled);
    assert_eq!(config.address, "http://127.0.0.1:8200");
    assert_eq!(config.mount_path, "secret");
    assert_eq!(config.secret_prefix, "pisovereign");
    assert_eq!(config.timeout_secs, 5);
    assert!(config.env_fallback);
    assert_eq!(config.env_prefix, Some("PISOVEREIGN".to_string()));
}

#[test]
fn vault_app_config_to_client_config() {
    let mut config = VaultAppConfig::default();
    config.address = "http://vault:8200".to_string();
    config.mount_path = "kv".to_string();
    config.timeout_secs = 10;
    config.token = Some("test-token".to_string());
    config.namespace = Some("engineering".to_string());
    config.role_id = Some("role-123".to_string());
    let client = config.to_vault_config();
    assert_eq!(client.address, "http://vault:8200");
    assert_eq!(client.mount_path, "kv");
    assert_eq!(client.timeout_secs, 10);
    assert_eq!(client.token.as_deref(), Some("test-token"));
    assert_eq!(client.namespace.as_deref(), Some("engineering"));
    assert!(client.role_id.is_none());
    assert!(client.secret_id.is_none());

    config.secret_id = Some("secret-456".to_string());
    let client = config.to_vault_config();
    assert_eq!(client.role_id.as_deref(), Some("role-123"));
    assert_eq!(client.secret_id.as_deref(), Some("secret-456"));
}

#[test]
fn vault_app_config_secret_paths() {
    let mut config = VaultAppConfig::default();
    assert_eq!(config.secret_path("whatsapp"), "pisovereign/whatsapp");
    config.secret_prefix = "myapp".to_string();
    assert_eq!(config.secret_path("proton"), "myapp/proton");
}

#[test]
fn health_config_service_timeouts_in_order() {
    let config = HealthAppConfig {
        global_timeout_secs: 30,
        inference_timeout_secs: Some(5),
        email_timeout_secs: None,
        calendar_timeout_secs: Some(8),
        weather_timeout_secs: Some(15),
    };
    let health = config.to_health_config();
    assert_eq!(health.global_timeout_secs, 30);
    assert_eq!(
        health.service_timeouts,
        vec![
            ("inference".to_string(), 5),
            ("calendar".to_string(), 8),
            ("weather".to_string(), 15)
        ]
    );
    assert!(HealthAppConfig::default().to_health_config().service_timeouts.is_empty());
}

#[test]
fn whatsapp_config_secret_accessors() {
    let mut config = WhatsAppConfig::default();
    assert!(config.access_token_str().is_none());
    assert!(config.app_secret_str().is_none());
    assert!(config.signature_required);
    assert_eq!(config.api_version, "v18.0");
    config.access_token = Some("test_token".to_string());
    config.app_secret = Some("test_secret".to_string());
    assert_eq!(config.access_token_str(), Some("test_token"));
    assert_eq!(config.app_secret_str(), Some("test_secret"));
}

#[test]
fn proton_tls_default_is_empty() {
    let tls = ProtonTlsAppConfig::default();
    assert!(!tls.verify_certificates);
    assert_eq!(tls.min_tls_version, "");
    assert!(tls.ca_cert_path.is_none());
}

#[test]
fn reminder_config_defaults() {
    let config = ReminderAppConfig::default();
    assert_eq!(config.max_snooze, 5);
    assert_eq!(config.default_snooze_minutes, 15);
    assert_eq!(config.caldav_reminder_lead_time_minutes, 30);
    assert_eq!(config.check_interval_secs, 60);
    assert_eq!(config.caldav_sync_interval_minutes, 15);
    assert_eq!(config.morning_briefing_time, "07:00");
    assert!(config.morning_briefing_enabled);
}

#[test]
fn server_config_body_limits() {
    let config = ServerConfig::default();
    assert_eq!(config.max_body_size_audio_bytes, 10 * 1024 * 1024);
    assert_eq!(config.max_body_size_json_bytes, 1024 * 1024);
    assert_eq!(config.shutdown_timeout_secs, Some(30));
    assert_eq!(config.log_format, "text");
    let ttl = CacheConfig::default().ttl_short();
    assert_eq!(ttl, Duration::from_secs(300));
}

#[test]
fn config_messenger_selection_to_source() {
    assert_eq!(MessengerSelection::WhatsApp.to_source(), Some(MessengerSource::WhatsApp));
    assert_eq!(MessengerSelection::Signal.to_source(), Some(MessengerSource::Signal));
    assert_eq!(MessengerSelection::Disabled.to_source(), None);
}

#[test]
fn config_security_config_default() {
    let config = SecurityConfig::default();
    assert!(config.whitelisted_phones.is_empty());
    assert!(config.api_keys.is_empty());
    assert!(config.trusted_proxies.is_empty());
    assert!(config.rate_limit_enabled);
    assert_eq!(config.rate_limit_rpm, 60);
}

#[test]
fn config_security_config_count_plaintext_keys() {
    let mut config = SecurityConfig::default();
    config.api_keys.push(ApiKeyEntry {
        hash: "$argon2id$v=19$m=19456,t=2,p=1$valid".to_string(),
        user_id: "user1".to_string(),
    });
    config.api_keys.push(ApiKeyEntry {
        hash: "plaintext-key".to_string(),
        user_id: "user2".to_string(),
    });
    assert_eq!(config.count_plaintext_keys(), 1);
}

#[test]
fn config_server_config_clone() {
    let config = ServerConfig::default();
    #[allow(clippy::redundant_clone)]
    let cloned = config.clone();
    assert_eq!(config.host, cloned.host);
}

#[test]
fn config_security_config_clone() {
    let config = SecurityConfig::default();
    #[allow(clippy::redundant_clone)]
    let cloned = config.clone();
    assert_eq!(config.rate_limit_enabled, cloned.rate_limit_enabled);
}

#[test]
fn config_security_config_debug() {
    let config = SecurityConfig::default();
    let debug = format!("{config:?}");
    assert!(debug.contains("SecurityConfig"));
}

#[test]
fn config_security_config_api_keys_default_empty() {
    let config = SecurityConfig::default();
    assert!(config.api_keys.is_empty());
}

#[test]
fn config_security_config_has_api_keys() {
    let mut config = SecurityConfig::default();
    assert!(!config.has_api_keys());

    config.api_keys.push(ApiKeyEntry {
        hash: "$argon2id$test".to_string(),
        user_id: "user".to_string(),
    });
    assert!(config.has_api_keys());
}

#[test]
fn config_health_config_to_health_config() {
    let config = HealthAppConfig {
        global_timeout_secs: 30,
        inference_timeout_secs: Some(5),
        email_timeout_secs: Some(10),
        calendar_timeout_secs: Some(8),
        weather_timeout_secs: Some(15),
    };
    let health_config = config.to_health_config();
    assert_eq!(health_config.global_timeout_secs, 30);
    assert_eq!(health_config.service_timeouts.len(), 4);
    assert_eq!(service_timeout(&health_config.service_timeouts, "inference"), Some(&5));
    assert_eq!(service_timeout(&health_config.service_timeouts, "email"), Some(&10));
}

#[test]
fn config_whatsapp_config_default_test() {
    let config = WhatsAppConfig::default();
    assert!(config.access_token.is_none());
    assert!(config.phone_number_id.is_none());
    assert!(config.app_secret.is_none());
    assert!(config.verify_token.is_none());
    assert!(config.signature_required);
}

#[test]
fn config_prompt_security_config_sensitivity_level() {
    let mut config = PromptSecurityConfig::default();

    config.sensitivity = "low".to_string();
    assert_eq!(config.sensitivity_level(), SecuritySensitivity::Low);

    config.sensitivity = "medium".to_string();
    assert_eq!(config.sensitivity_level(), SecuritySensitivity::Medium);

    config.sensitivity = "high".to_string();
    assert_eq!(config.sensitivity_level(), SecuritySensitivity::High);

    config.sensitivity = "unknown".to_string();
    assert_eq!(config.sensitivity_level(), SecuritySensitivity::Medium);
}

#[test]
fn config_prompt_security_config_to_suspicious_activity_config() {
    let config = PromptSecurityConfig {
        max_violations_before_block: 5,
        violation_window_secs: 7200,
        block_duration_secs: 43200,
        auto_block_on_critical: false,
        ..Default::default()
    };
    let converted = config.to_suspicious_activity_config();
    assert_eq!(converted.max_violations_before_block, 5);
    assert_eq!(converted.violation_window_secs, 7200);
    assert_eq!(converted.block_duration_secs, 43200);
    assert!(!converted.auto_block_on_critical);
}

#[test]
fn config_security_config_additional_fields() {
    let config = SecurityConfig::default();
    assert_eq!(config.rate_limit_cleanup_interval_secs, 300);
    assert_eq!(config.rate_limit_cleanup_max_age_secs, 600);
    assert!(config.tls_verify_certs);
    assert_eq!(config.connection_timeout_secs, 30);
    assert_eq!(config.min_tls_version, "1.2");
}

#[test]
fn mod_messenger_selection_to_source() {
    assert_eq!(MessengerSelection::WhatsApp.to_source(), Some(MessengerSource::WhatsApp));
    assert_eq!(MessengerSelection::Signal.to_source(), Some(MessengerSource::Signal));
    assert_eq!(MessengerSelection::Disabled.to_source(), None);
}

#[test]
fn mod_security_config_default() {
    let config = SecurityConfig::default();
    assert!(config.whitelisted_phones.is_empty());
    assert!(config.api_keys.is_empty());
    assert!(config.trusted_proxies.is_empty());
    assert!(config.rate_limit_enabled);
    assert_eq!(config.rate_limit_rpm, 60);
}

#[test]
fn mod_security_config_count_plaintext_keys() {
    let mut config = SecurityConfig::default();
    config.api_keys.push(ApiKeyEntry {
        hash: "$argon2id$v=19$m=19456,t=2,p=1$valid".to_string(),
        user_id: "user1".to_string(),
    });
    config.api_keys.push(ApiKeyEntry {
        hash: "plaintext-key".to_string(),
        user_id: "user2".to_string(),
    });
    assert_eq!(config.count_plaintext_keys(), 1);
}

#[test]
fn mod_server_config_clone() {
    let config = ServerConfig::default();
    #[allow(clippy::redundant_clone)]
    let cloned = config.clone();
    assert_eq!(config.host, cloned.host);
}

#[test]
fn mod_security_config_clone() {
    let config = SecurityConfig::default();
    #[allow(clippy::redundant_clone)]
    let cloned = config.clone();
    assert_eq!(config.rate_limit_enabled, cloned.rate_limit_enabled);
}

#[test]
fn mod_security_config_debug() {
    let config = SecurityConfig::default();
    let debug = format!("{config:?}");
    assert!(debug.contains("SecurityConfig"));
}

#[test]
fn mod_security_config_api_keys_default_empty() {
    let config = SecurityConfig::default();
    assert!(config.api_keys.is_empty());
}

#[test]
fn mod_security_config_has_api_keys() {
    let mut config = SecurityConfig::default();
    assert!(!config.has_api_keys());

    config.api_keys.push(ApiKeyEntry {
        hash: "$argon2id$test".to_string(),
        user_id: "user".to_string(),
    });
    assert!(config.has_api_keys());
}

#[test]
fn mod_health_config_to_health_config() {
    let config = HealthAppConfig {
        global_timeout_secs: 30,
        inference_timeout_secs: Some(5),
        email_timeout_secs: Some(10),
        calendar_timeout_secs: Some(8),
        weather_timeout_secs: Some(15),
    };
    let health_config = config.to_health_config();
    assert_eq!(health_config.global_timeout_secs, 30);
    assert_eq!(health_config.service_timeouts.len(), 4);
    assert_eq!(service_timeout(&health_config.service_timeouts, "inference"), Some(&5));
    assert_eq!(service_timeout(&health_config.service_timeouts, "email"), Some(&10));
}

#[test]
fn mod_whatsapp_config_default_test() {
    let config = WhatsAppConfig::default();
    assert!(config.access_token.is_none());
    assert!(config.phone_number_id.is_none());
    assert!(config.app_secret.is_none());
    assert!(config.verify_token.is_none());
    assert!(config.signature_required);
}

#[test]
fn mod_prompt_security_config_sensitivity_level() {
    let mut config = PromptSecurityConfig::default();

    config.sensitivity = "low".to_string();
    assert_eq!(config.sensitivity_level(), SecuritySensitivity::Low);

    config.sensitivity = "medium".to_string();
    assert_eq!(config.sensitivity_level(), SecuritySensitivity::Medium);

    config.sensitivity = "high".to_string();
    assert_eq!(config.sensitivity_level(), SecuritySensitivity::High);

    config.sensitivity = "unknown".to_string();
    assert_eq!(config.sensitivity_level(), SecuritySensitivity::Medium);
}

#[test]
fn mod_prompt_security_config_to_suspicious_activity_config() {
    let config = PromptSecurityConfig {
        max_violations_before_block: 5,
        violation_window_secs: 7200,
        block_duration_secs: 43200,
        auto_block_on_critical: false,
        ..Default::default()
    };
    let converted = config.to_suspicious_activity_config();
    assert_eq!(converted.max_violations_before_block, 5);
    assert_eq!(converted.violation_window_secs, 7200);
    assert_eq!(converted.block_duration_secs, 43200);
    assert!(!converted.auto_block_on_critical);
}

#[test]
fn mod_security_config_additional_fields() {
    let config = SecurityConfig::default();
    assert_eq!(config.rate_limit_cleanup_interval_secs, 300);
    assert_eq!(config.rate_limit_cleanup_max_age_secs, 600);
    assert!(config.tls_verify_certs);
    assert_eq!(config.connection_timeout_secs, 30);
    assert_eq!(config.min_tls_version, "1.2");
}

/// The timeout given for a service, if any.
fn service_timeout<'a>(timeouts: &'a [(String, u64)], service: &str) -> Option<&'a u64> {
    timeouts.iter().find(|(name, _)| name == service).map(|(_, secs)| secs)
}

#[test]
fn whatsapp_config_access_token_str() {
    let config = WhatsAppConfig {
        access_token: Some("test_token".to_string()),
        ..Default::default()
    };
    assert_eq!(config.access_token_str(), Some("test_token"));

    let config_no_token = WhatsAppConfig::default();
    assert!(config_no_token.access_token_str().is_none());
}

#[test]
fn whatsapp_config_app_secret_str() {
    let config = WhatsAppConfig {
        app_secret: Some("test_secret".to_string()),
        ..Default::default()
    };
    assert_eq!(config.app_secret_str(), Some("test_secret"));

    let config_no_secret = WhatsAppConfig::default();
    assert!(config_no_secret.app_secret_str().is_none());
}

// ---------------------------------------------------------------- vault

#[test]
fn default_config_is_disabled() {
    let config = VaultAppConfig::default();
    assert!(!config.enabled);
    assert_eq!(config.address, "http://127.0.0.1:8200");
    assert_eq!(config.mount_path, "secret");
    assert_eq!(config.secret_prefix, "pisovereign");
    assert_eq!(config.timeout_secs, 5);
    assert!(config.env_fallback);
    assert_eq!(config.env_prefix, Some("PISOVEREIGN".to_string()));
}

#[test]
fn to_vault_config_basic() {
    let config = VaultAppConfig {
        enabled: true,
        address: "http://vault:8200".to_string(),
        mount_path: "kv".to_string(),
        timeout_secs: 10,
        ..Default::default()
    };

    let vault_config = config.to_vault_config();
    assert_eq!(vault_config.address, "http://vault:8200");
    assert_eq!(vault_config.mount_path, "kv");
    assert_eq!(vault_config.timeout_secs, 10);
    assert!(vault_config.token.is_none());
}

#[test]
fn to_vault_config_with_token() {
    let config = VaultAppConfig {
        enabled: true,
        token: Some("test-token".to_string()),
        ..Default::default()
    };

    let vault_config = config.to_vault_config();
    assert_eq!(vault_config.token.as_deref(), Some("test-token"));
}

#[test]
fn to_vault_config_with_approle() {
    let config = VaultAppConfig {
        enabled: true,
        role_id: Some("role-123".to_string()),
        secret_id: Some("secret-456".to_string()),
        ..Default::default()
    };

    let vault_config = config.to_vault_config();
    assert_eq!(vault_config.role_id.as_deref(), Some("role-123"));
    assert_eq!(vault_config.secret_id.as_deref(), Some("secret-456"));
}

#[test]
fn secret_path_construction() {
    let config = VaultAppConfig::default();
    assert_eq!(config.secret_path("whatsapp"), "pisovereign/whatsapp");
    assert_eq!(config.secret_path("signal"), "pisovereign/signal");
}

#[test]
fn secret_path_custom_prefix() {
    let config = VaultAppConfig {
        secret_prefix: "myapp".to_string(),
        ..Default::default()
    };
    assert_eq!(config.secret_path("proton"), "myapp/proton");
}

#[test]
fn to_vault_config_with_namespace() {
    let config = VaultAppConfig {
        namespace: Some("engineering".to_string()),
        ..Default::default()
    };

    let vault_config = config.to_vault_config();
    assert_eq!(vault_config.namespace.as_deref(), Some("engineering"));
}

#[test]
fn config_websearch_config_to_integration_config() {
    let config = WebSearchAppConfig {
        api_key: Some("test-key".to_string()),
        max_results: 8,
        timeout_secs: 60,
        fallback_enabled: false,
        safe_search: "strict".to_string(),
        country: Some("US".to_string()),
        language: Some("en".to_string()),
        rate_limit_rpm: Some(30),
        cache_ttl_minutes: 15,
    };

    let integration_config = config.to_websearch_config(client_defaults());
    assert_eq!(integration_config.brave_api_key, Some("test-key".to_string()));
    assert_eq!(integration_config.max_results, 8);
    assert_eq!(integration_config.timeout_secs, 60);
    assert!(!integration_config.fallback_enabled);
    assert_eq!(integration_config.safe_search, "strict");
    assert_eq!(integration_config.result_country, "US");
    assert_eq!(integration_config.result_language, "en");
    assert_eq!(integration_config.cache_ttl_minutes, 15);
}

#[test]
fn mod_websearch_config_to_integration_config() {
    let config = WebSearchAppConfig {
        api_key: Some("test-key".to_string()),
        max_results: 8,
        timeout_secs: 60,
        fallback_enabled: false,
        safe_search: "strict".to_string(),
        country: Some("US".to_string()),
        language: Some("en".to_string()),
        rate_limit_rpm: Some(30),
        cache_ttl_minutes: 15,
    };

    let integration_config = config.to_websearch_config(client_defaults());
    assert_eq!(integration_config.brave_api_key, Some("test-key".to_string()));
    assert_eq!(integration_config.max_results, 8);
    assert_eq!(integration_config.timeout_secs, 60);
    assert!(!integration_config.fallback_enabled);
    assert_eq!(integration_config.safe_search, "strict");
    assert_eq!(integration_config.result_country, "US");
    assert_eq!(integration_config.result_language, "en");
    assert_eq!(integration_config.cache_ttl_minutes, 15);
}

/// Settings of the search client before the application's are laid over them.
fn client_defaults() -> WebSearchConfig {
    WebSearchConfig {
        brave_api_key: None,
        max_results: 5,
        timeout_secs: 10,
        fallback_enabled: true,
        safe_search: "moderate".to_string(),
        result_country: "DE".to_string(),
        result_language: "de".to_string(),
        rate_limit_daily: 2000,
        cache_ttl_minutes: 30,
    }
}

#[test]
fn websearch_settings_keep_unset_defaults() {
    let config = WebSearchAppConfig::default();
    let c = config.to_websearch_config(client_defaults());
    assert_eq!(c.result_country, "DE");
    assert_eq!(c.result_language, "de");
    assert_eq!(c.rate_limit_daily, 2000);
    assert_eq!(c.max_results, 5);
    let limited = WebSearchAppConfig { rate_limit_rpm: Some(2), ..WebSearchAppConfig::default() };
    assert_eq!(limited.to_websearch_config(client_defaults()).rate_limit_daily, 2880);
}

#[test]
fn config_weather_config_default() {
    let config = WeatherConfig::default();
    assert_eq!(config.base_url, "https://api.open-meteo.com/v1");
    assert_eq!(config.timeout_secs, 30);
    assert_eq!(config.forecast_days, 7);
    assert_eq!(config.cache_ttl_minutes, 30);
}

#[test]
fn mod_weather_config_default() {
    let config = WeatherConfig::default();
    assert_eq!(config.base_url, "https://api.open-meteo.com/v1");
    assert_eq!(config.timeout_secs, 30);
    assert_eq!(config.forecast_days, 7);
    assert_eq!(config.cache_ttl_minutes, 30);
}

fn caldav() -> CalDavAppConfig {
    CalDavAppConfig {
        server_url: "https://dav.example.com".to_string(),
        username: "user".to_string(),
        password: "pw".to_string(),
        calendar_path: Some("/cal/home".to_string()),
        verify_certs: true,
        timeout_secs: 30,
    }
}

#[test]
fn dav_settings_carry_over() {
    let cal = caldav();
    let c = cal.to_caldav_config();
    assert_eq!(c.server_url, "https://dav.example.com");
    assert_eq!(c.calendar_path.as_deref(), Some("/cal/home"));
    assert_eq!(cal.password_str(), "pw");
    let card = CardDavAppConfig::from_caldav(&cal);
    assert_eq!(card.addressbook_path, None);
    assert_eq!(card.username, "user");
    let cc = card.to_carddav_config();
    assert_eq!(cc.password, "pw");
    assert!(cc.verify_certs);
    assert_eq!(cc.timeout_secs, 30);
}

#[test]
fn proton_settings_state_certificate_checking() {
    let p = ProtonAppConfig {
        imap_host: "127.0.0.1".to_string(),
        imap_port: 1143,
        smtp_host: "127.0.0.1".to_string(),
        smtp_port: 1025,
        email: "me@proton.me".to_string(),
        password: "bridge".to_string(),
        tls: ProtonTlsAppConfig::default(),
    };
    let c = p.to_proton_config();
    assert_eq!(c.tls.verify_certificates, Some(false));
    assert_eq!(c.imap_port, 1143);
    assert_eq!(c.smtp_port, 1025);
    assert_eq!(p.password_str(), "bridge");
}

#[test]
fn transit_settings_defaults_and_conversion() {
    let t = TransitAppConfig::default();
    assert_eq!(t.base_url, "https://v6.db.transport.rest");
    assert_eq!(t.max_results, 3);
    assert!(!t.products_national);
    let c = t.to_transit_config();
    assert!(!c.products_national_express);
    assert!(c.products_bus);
    assert_eq!(c.cache_ttl_minutes, 5);
}
