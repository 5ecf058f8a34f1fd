use infrastructure::api_key_hasher::{ApiKeyHashError, ApiKeyHasher};
use infrastructure::circuit_breaker::{CircuitBreaker, CircuitBreakerError, CircuitState};
use infrastructure::config::MessengerSource;
use infrastructure::encryption::ChaChaEncryptionAdapter;
use infrastructure::error::ApplicationError;
use infrastructure::inference::{map_inference_error, InferenceError, InferenceResult};
use infrastructure::integrations::{
    convert_summaries, map_condition, map_proton_error, map_search_error,
    map_weather_error, EmailError, ProtonEmailSummary, ProtonError, WeatherCode,
    WeatherCondition, WeatherError, WebSearchError,
};
use infrastructure::model_registry::{
    convert_model, estimate_context_length, parse_model_name, OllamaModel,
};
use infrastructure::signal_adapter::{attachment_mime, attachment_not_found, read_receipt_timestamp};
use infrastructure::whatsapp_adapter::{
    audio_filename, first_message_id, map_download_error, WhatsAppError,
};
use infrastructure::speech::{
    ai_to_domain_format, default_output_format, domain_to_ai_format, map_speech_error,
    supports_format, AiAudioFormat, AudioFormat, SpeechError,
};

// ---------------------------------------------------------------- API keys

#[test]
fn hash_creates_valid_phc_format() {
    let hasher = ApiKeyHasher::new();
    let hash = hasher.hash("sk-test-key").unwrap();

    assert!(hash.starts_with("$argon2"));
    assert!(hash.contains("$v="));
    assert!(hash.contains("$m="));
}

#[test]
fn verify_correct_key_succeeds() {
    let hasher = ApiKeyHasher::new();
    let hash = hasher.hash("sk-test-key").unwrap();

    assert!(hasher.verify("sk-test-key", &hash).unwrap());
}

#[test]
fn verify_wrong_key_fails() {
    let hasher = ApiKeyHasher::new();
    let hash = hasher.hash("sk-test-key").unwrap();

    assert!(!hasher.verify("sk-wrong-key", &hash).unwrap());
}

#[test]
fn verify_invalid_hash_returns_error() {
    let hasher = ApiKeyHasher::new();
    let result = hasher.verify("sk-test-key", "invalid-hash");

    assert!(result.is_err());
    assert!(matches!(result, Err(ApiKeyHashError::InvalidHashFormat(_))));
}

#[test]
fn hash_produces_different_hashes_for_same_input() {
    let hasher = ApiKeyHasher::new();
    let hash1 = hasher.hash("sk-test-key").unwrap();
    let hash2 = hasher.hash("sk-test-key").unwrap();

    assert_ne!(hash1, hash2);

    assert!(hasher.verify("sk-test-key", &hash1).unwrap());
    assert!(hasher.verify("sk-test-key", &hash2).unwrap());
}

#[test]
fn default_creates_valid_hasher() {
    let hasher = ApiKeyHasher::default();
    let hash = hasher.hash("test").unwrap();
    assert!(hasher.verify("test", &hash).unwrap());
}

// ---------------------------------------------------------- circuit breaker

#[test]
fn circuit_breaker_creation() {
    let mut cb = CircuitBreaker::new("test-service");
    assert_eq!(cb.name(), "test-service");
    assert!(cb.is_closed());
}

#[test]
fn circuit_breaker_debug() {
    let cb = CircuitBreaker::new("test");
    let debug = format!("{cb:?}");
    assert!(debug.contains("CircuitBreaker"));
    assert!(debug.contains("test"));
}

#[test]
fn circuit_breaker_clone() {
    let cb1 = CircuitBreaker::new("test");
    #[allow(clippy::redundant_clone)]
    let cb2 = cb1.clone();
    assert_eq!(cb1.name(), cb2.name());
}

#[test]
fn initial_state_is_closed() {
    let mut cb = CircuitBreaker::new("test");
    assert_eq!(cb.state(), CircuitState::Closed);
}

#[test]
fn call_sync_succeeds() {
    let mut cb = CircuitBreaker::new("test");
    let result: Result<&str, CircuitBreakerError<std::io::Error>> = cb.call_sync(|| Ok("success"));
    assert!(result.is_ok());
}

#[test]
fn call_sync_returns_service_error() {
    let mut cb = CircuitBreaker::new("test");
    let result: Result<(), CircuitBreakerError<std::io::Error>> =
        cb.call_sync(|| Err(std::io::Error::other("test")));
    assert!(result.is_err());
    assert!(result.unwrap_err().is_service_error());
}

// ---------------------------------------------------------------- encryption

fn create_test_adapter() -> ChaChaEncryptionAdapter {
    let key = ChaChaEncryptionAdapter::generate_key();
    ChaChaEncryptionAdapter::new(&key).unwrap()
}

#[test]
fn encrypt_decrypt_roundtrip() {
    let adapter = create_test_adapter();
    let plaintext = b"Hello, World!";

    let encrypted = adapter.encrypt(plaintext).unwrap();
    let decrypted = adapter.decrypt(&encrypted).unwrap();

    assert_eq!(plaintext.as_slice(), decrypted.as_slice());
}

#[test]
fn encrypt_produces_different_ciphertext() {
    let adapter = create_test_adapter();
    let plaintext = b"Same message";

    let encrypted1 = adapter.encrypt(plaintext).unwrap();
    let encrypted2 = adapter.encrypt(plaintext).unwrap();

    assert_ne!(encrypted1, encrypted2);

    let decrypted1 = adapter.decrypt(&encrypted1).unwrap();
    let decrypted2 = adapter.decrypt(&encrypted2).unwrap();

    assert_eq!(decrypted1, decrypted2);
}

#[test]
fn decrypt_detects_tampering() {
    let adapter = create_test_adapter();
    let plaintext = b"Secret message";

    let mut encrypted = adapter.encrypt(plaintext).unwrap();
    if let Some(byte) = encrypted.last_mut() {
        *byte ^= 0xFF;
    }

    let result = adapter.decrypt(&encrypted);
    assert!(result.is_err());
}

#[test]
fn decrypt_rejects_short_input() {
    let adapter = create_test_adapter();
    let result = adapter.decrypt(&[0u8; 10]);
    assert!(result.is_err());
}

#[test]
fn encrypt_empty_data() {
    let adapter = create_test_adapter();
    let plaintext = b"";

    let encrypted = adapter.encrypt(plaintext).unwrap();
    let decrypted = adapter.decrypt(&encrypted).unwrap();

    assert!(decrypted.is_empty());
}

#[test]
fn encrypt_large_data() {
    let adapter = create_test_adapter();
    let plaintext = vec![0xABu8; 1024 * 1024];

    let encrypted = adapter.encrypt(&plaintext).unwrap();
    let decrypted = adapter.decrypt(&encrypted).unwrap();

    assert_eq!(plaintext, decrypted);
}

#[test]
fn generate_key_is_random() {
    let key1 = ChaChaEncryptionAdapter::generate_key();
    let key2 = ChaChaEncryptionAdapter::generate_key();

    assert_ne!(key1, key2);
    assert_eq!(key1.len(), 32);
}

#[test]
fn rejects_invalid_key_size() {
    let short_key = [0u8; 16];
    let result = ChaChaEncryptionAdapter::new(&short_key);
    assert!(result.is_err());

    let long_key = [0u8; 64];
    let result = ChaChaEncryptionAdapter::new(&long_key);
    assert!(result.is_err());
}

#[test]
fn is_enabled_returns_true() {
    let adapter = create_test_adapter();
    assert!(adapter.is_enabled());
}

// ---------------------------------------------------------- inference

#[test]
fn hailo_inference_adapter_map_error_rate_limited() {
    let mapped = map_inference_error(InferenceError::RateLimited);
    assert!(matches!(mapped, ApplicationError::RateLimited));
}

#[test]
fn hailo_inference_adapter_map_error_connection_failed() {
    let mapped = map_inference_error(InferenceError::ConnectionFailed("timeout".to_string()));
    let ApplicationError::ExternalService(msg) = mapped else {
        unreachable!("Expected ExternalService error");
    };
    assert!(msg.contains("connection failed"));
}

#[test]
fn hailo_inference_adapter_map_error_timeout() {
    let mapped = map_inference_error(InferenceError::Timeout(5000));
    let ApplicationError::ExternalService(msg) = mapped else {
        unreachable!("Expected ExternalService error");
    };
    assert!(msg.contains("5000"));
}

#[test]
fn hailo_inference_adapter_map_error_other() {
    let mapped = map_inference_error(InferenceError::Other("bad".to_string()));
    let ApplicationError::Inference(msg) = mapped else {
        unreachable!("Expected Inference error");
    };
    assert!(msg.contains("bad"));
}

#[test]
fn inference_result_creation() {
    let result = InferenceResult {
        content: "Hello".to_string(),
        model: "qwen".to_string(),
        tokens_used: Some(10),
        latency_ms: 50,
    };
    assert_eq!(result.content, "Hello");
    assert_eq!(result.model, "qwen");
    assert_eq!(result.tokens_used, Some(10));
    assert_eq!(result.latency_ms, 50);
}

#[test]
fn inference_result_without_tokens() {
    let result = InferenceResult {
        content: "Response".to_string(),
        model: "llama".to_string(),
        tokens_used: None,
        latency_ms: 100,
    };
    assert!(result.tokens_used.is_none());
}

#[test]
fn inference_result_clone() {
    let result = InferenceResult {
        content: "Test".to_string(),
        model: "model".to_string(),
        tokens_used: Some(5),
        latency_ms: 25,
    };
    #[allow(clippy::redundant_clone)]
    let cloned = result.clone();
    assert_eq!(result.content, cloned.content);
}

#[test]
fn inference_result_debug() {
    let result = InferenceResult {
        content: "Debug".to_string(),
        model: "test".to_string(),
        tokens_used: None,
        latency_ms: 10,
    };
    let debug = format!("{result:?}");
    assert!(debug.contains("InferenceResult"));
}

// ---------------------------------------------------------- model registry

fn listed_model(id: &str) -> OllamaModel {
    OllamaModel {
        id: id.to_string(),
        object: "model".to_string(),
        owned_by: "library".to_string(),
    }
}

#[test]
fn parse_model_name_with_variant() {
    let (name, variant) = parse_model_name("llama3:8b");
    assert_eq!(name, "Llama3");
    assert_eq!(variant, Some("8B".to_string()));
}

#[test]
fn parse_model_name_without_variant() {
    let (name, variant) = parse_model_name("mistral");
    assert_eq!(name, "Mistral");
    assert!(variant.is_none());
}

#[test]
fn estimate_context_llama3() {
    assert_eq!(estimate_context_length("llama3:8b"), 8_192);
}

#[test]
fn estimate_context_mistral() {
    assert_eq!(estimate_context_length("mistral:7b"), 32_768);
}

#[test]
fn estimate_context_explicit() {
    assert_eq!(estimate_context_length("model-128k"), 131_072);
}

#[test]
fn estimate_context_default() {
    assert_eq!(estimate_context_length("unknown-model"), 4_096);
}

#[test]
fn convert_model_basic() {
    let model = convert_model(&listed_model("llama3:8b"));
    assert_eq!(model.id, "llama3:8b");
    assert_eq!(model.name, "Llama3");
    assert_eq!(model.variant, Some("8B".to_string()));
    assert!(model.capabilities.text_generation);
    assert!(model.capabilities.chat);
    assert!(!model.capabilities.embeddings);
    assert!(model.available);
}

#[test]
fn convert_model_embeddings() {
    let model = convert_model(&listed_model("nomic-embed-text"));
    assert!(model.capabilities.embeddings);
}

#[test]
fn convert_model_code() {
    let model = convert_model(&listed_model("codellama:7b"));
    assert!(model.capabilities.code);
}

// ---------------------------------------------------------- messengers

#[test]
fn source_returns_signal() {
    assert_eq!(MessengerSource::Signal.display_name(), "Signal");
}

#[test]
fn source_returns_whatsapp() {
    assert_eq!(MessengerSource::WhatsApp.display_name(), "WhatsApp");
}

// ---------------------------------------------------------- speech

#[test]
fn adapter_has_debug() {
    let format = domain_to_ai_format(AudioFormat::Opus);
    assert_eq!(format, AiAudioFormat::Opus);
}

#[test]
fn domain_to_ai_format_conversion() {
    assert_eq!(domain_to_ai_format(AudioFormat::Opus), AiAudioFormat::Opus);
    assert_eq!(domain_to_ai_format(AudioFormat::Ogg), AiAudioFormat::Ogg);
    assert_eq!(domain_to_ai_format(AudioFormat::Mp3), AiAudioFormat::Mp3);
    assert_eq!(domain_to_ai_format(AudioFormat::Wav), AiAudioFormat::Wav);
}

#[test]
fn ai_to_domain_format_conversion() {
    assert_eq!(ai_to_domain_format(AiAudioFormat::Opus), AudioFormat::Opus);
    assert_eq!(ai_to_domain_format(AiAudioFormat::Ogg), AudioFormat::Ogg);
    assert_eq!(ai_to_domain_format(AiAudioFormat::Mp3), AudioFormat::Mp3);
    assert_eq!(ai_to_domain_format(AiAudioFormat::Wav), AudioFormat::Wav);
    assert_eq!(ai_to_domain_format(AiAudioFormat::Flac), AudioFormat::Mp3);
    assert_eq!(ai_to_domain_format(AiAudioFormat::Webm), AudioFormat::Mp3);
    assert_eq!(ai_to_domain_format(AiAudioFormat::M4a), AudioFormat::Mp3);
}

#[test]
fn error_mapping_configuration() {
    let err = map_speech_error(SpeechError::Configuration("bad config".to_string()));
    assert!(matches!(err, ApplicationError::Configuration(_)));
}

#[test]
fn error_mapping_connection() {
    let err = map_speech_error(SpeechError::ConnectionFailed("network error".to_string()));
    assert!(matches!(err, ApplicationError::ExternalService(_)));
}

#[test]
fn error_mapping_rate_limited() {
    let err = map_speech_error(SpeechError::RateLimited);
    assert!(matches!(err, ApplicationError::RateLimited));
}

#[test]
fn error_mapping_timeout() {
    let err = map_speech_error(SpeechError::Timeout(30000));
    assert!(matches!(err, ApplicationError::ExternalService(_)));
}

#[test]
fn error_mapping_audio_too_long() {
    let err = map_speech_error(SpeechError::AudioTooLong { duration_ms: 200_000, max_ms: 120_000 });
    assert!(matches!(err, ApplicationError::InvalidOperation(_)));
}

#[test]
fn error_mapping_transcription_failed() {
    let err = map_speech_error(SpeechError::TranscriptionFailed("API error".to_string()));
    assert!(matches!(err, ApplicationError::ExternalService(_)));
}

#[test]
fn error_mapping_synthesis_failed() {
    let err = map_speech_error(SpeechError::SynthesisFailed("TTS error".to_string()));
    assert!(matches!(err, ApplicationError::ExternalService(_)));
}

#[test]
fn error_mapping_voice_not_found() {
    let err = map_speech_error(SpeechError::VoiceNotFound("unknown".to_string()));
    assert!(matches!(err, ApplicationError::InvalidOperation(_)));
}

#[test]
fn error_mapping_audio_processing() {
    let err = map_speech_error(SpeechError::AudioProcessing("conversion failed".to_string()));
    assert!(matches!(err, ApplicationError::Internal(_)));
}

// ---------------------------------------------------------- weather

#[test]
fn map_condition_clear() {
    assert_eq!(map_condition(WeatherCode::ClearSky), WeatherCondition::ClearSky);
}

#[test]
fn map_condition_rain() {
    assert_eq!(map_condition(WeatherCode::Rain), WeatherCondition::ModerateRain);
}

#[test]
fn map_condition_thunderstorm() {
    assert_eq!(map_condition(WeatherCode::Thunderstorm), WeatherCondition::Thunderstorm);
}

#[test]
fn map_condition_unknown() {
    assert_eq!(map_condition(WeatherCode::Unknown), WeatherCondition::Unknown);
}

#[test]
fn weather_adapter_map_error_connection_failed() {
    let app_err = map_weather_error(WeatherError::ConnectionFailed("timeout".into()));
    assert!(matches!(app_err, ApplicationError::ExternalService(_)));
}

#[test]
fn weather_adapter_map_error_rate_limited() {
    let app_err = map_weather_error(WeatherError::RateLimitExceeded);
    assert!(matches!(app_err, ApplicationError::RateLimited));
}

#[test]
fn map_error_invalid_coords() {
    let app_err = map_weather_error(WeatherError::InvalidCoordinates);
    assert!(matches!(app_err, ApplicationError::InvalidOperation(_)));
}

// ---------------------------------------------------------- web search

#[test]
fn websearch_adapter_map_error_rate_limited() {
    let app_err = map_search_error(WebSearchError::RateLimitExceeded { retry_after_secs: None });
    assert!(matches!(app_err, ApplicationError::RateLimited));
}

#[test]
fn map_error_no_results() {
    let app_err = map_search_error(WebSearchError::NoResults { query: "test".to_string() });
    assert!(matches!(app_err, ApplicationError::NotFound(_)));
}

#[test]
fn map_error_authentication_failed() {
    let err = WebSearchError::AuthenticationFailed("Invalid API key".to_string());
    let app_err = map_search_error(err);
    assert!(matches!(app_err, ApplicationError::InvalidOperation(_)));
}

#[test]
fn websearch_adapter_map_error_request_failed() {
    let app_err = map_search_error(WebSearchError::RequestFailed("timeout".to_string()));
    assert!(matches!(app_err, ApplicationError::ExternalService(_)));
}

#[test]
fn websearch_adapter_map_error_timeout() {
    let app_err = map_search_error(WebSearchError::Timeout { timeout_secs: 30 });
    assert!(matches!(app_err, ApplicationError::ExternalService(_)));
    if let ApplicationError::ExternalService(msg) = app_err {
        assert!(msg.contains("30"));
    }
}

#[test]
fn map_error_service_unavailable() {
    let err = WebSearchError::ServiceUnavailable("503 Service Unavailable".to_string());
    let app_err = map_search_error(err);
    assert!(matches!(app_err, ApplicationError::ExternalService(_)));
}

#[test]
fn websearch_adapter_map_error_connection_failed() {
    let err = WebSearchError::ConnectionFailed("Connection refused".to_string());
    let app_err = map_search_error(err);
    assert!(matches!(app_err, ApplicationError::ExternalService(_)));
}

#[test]
fn map_error_parse_error() {
    let app_err = map_search_error(WebSearchError::ParseError("Invalid JSON".to_string()));
    assert!(matches!(app_err, ApplicationError::Internal(_)));
}

#[test]
fn map_error_configuration_error() {
    let err = WebSearchError::ConfigurationError("Missing API key".to_string());
    let app_err = map_search_error(err);
    assert!(matches!(app_err, ApplicationError::Internal(_)));
}

#[test]
fn map_error_invalid_query() {
    let app_err = map_search_error(WebSearchError::InvalidQuery("Query too long".to_string()));
    assert!(matches!(app_err, ApplicationError::InvalidOperation(_)));
}

// ---------------------------------------------------------- mail

#[test]
fn map_error_auth_failed() {
    let err = map_proton_error(ProtonError::AuthenticationFailed);
    assert!(matches!(err, EmailError::AuthenticationFailed));
}

#[test]
fn map_error_bridge_unavailable() {
    let err = map_proton_error(ProtonError::BridgeUnavailable("test".to_string()));
    assert!(matches!(err, EmailError::ServiceUnavailable));
}

#[test]
fn proton_email_adapter_map_error_connection_failed() {
    let err = map_proton_error(ProtonError::ConnectionFailed("test".to_string()));
    assert!(matches!(err, EmailError::ServiceUnavailable));
}

#[test]
fn map_error_mailbox_not_found() {
    let err = map_proton_error(ProtonError::MailboxNotFound("INBOX".to_string()));
    assert!(matches!(err, EmailError::NotFound(_)));
}

#[test]
fn map_error_message_not_found() {
    let err = map_proton_error(ProtonError::MessageNotFound("123".to_string()));
    assert!(matches!(err, EmailError::NotFound(_)));
}

#[test]
fn map_error_invalid_address() {
    let err = map_proton_error(ProtonError::InvalidAddress("bad".to_string()));
    assert!(matches!(err, EmailError::InvalidAddress(_)));
}

#[test]
fn proton_email_adapter_map_error_other() {
    let err = map_proton_error(ProtonError::Other("Request failed: test".to_string()));
    assert!(matches!(err, EmailError::OperationFailed(_)));
}

#[test]
fn convert_summary() {
    let proton_summary = ProtonEmailSummary {
        id: "123".to_string(),
        from: "sender@example.com".to_string(),
        subject: "Test Subject".to_string(),
        snippet: "Preview text".to_string(),
        received_at: String::new(),
        is_read: true,
    };

    let summary = infrastructure::integrations::convert_summary(&proton_summary);

    assert_eq!(summary.id, "123");
    assert_eq!(summary.from, "sender@example.com");
    assert_eq!(summary.subject, "Test Subject");
    assert_eq!(summary.snippet, "Preview text");
    assert!(summary.is_read);
}

#[test]
fn mailbox_listing_keeps_order() {
    let msg = |id: &str, read: bool| ProtonEmailSummary {
        id: id.to_string(),
        from: "a@b.c".to_string(),
        subject: format!("s{id}"),
        snippet: String::new(),
        received_at: "2024-01-01T00:00:00Z".to_string(),
        is_read: read,
    };
    let listed = convert_summaries(&vec![msg("1", false), msg("2", true)]);
    assert_eq!(listed.len(), 2);
    assert_eq!(listed[0].subject, "s1");
    assert!(!listed[0].is_read);
    assert_eq!(listed[1].received_at, "2024-01-01T00:00:00Z");
}

#[test]
fn speech_formats_offered() {
    assert_eq!(default_output_format(), AudioFormat::Opus);
    for f in [AudioFormat::Opus, AudioFormat::Ogg, AudioFormat::Mp3, AudioFormat::Wav] {
        assert!(supports_format(f));
    }
}

#[test]
fn whatsapp_upload_names_and_reply_ids() {
    assert_eq!(audio_filename("audio/ogg; codecs=opus"), "audio.ogg");
    assert_eq!(audio_filename("video/mp4"), "audio.bin");
    assert_eq!(first_message_id(&vec!["wamid.1".to_string(), "wamid.2".to_string()]), Ok("wamid.1".to_string()));
    assert_eq!(
        first_message_id(&vec![]),
        Err(ApplicationError::ExternalService("No message ID in response".to_string()))
    );
    assert_eq!(
        map_download_error(WhatsAppError::MediaNotFound("m1".to_string())),
        ApplicationError::NotFound("Media not found: m1".to_string())
    );
    assert_eq!(
        map_download_error(WhatsAppError::Other("HTTP 500".to_string())),
        ApplicationError::ExternalService("WhatsApp download failed: HTTP 500".to_string())
    );
}

#[test]
fn signal_receipts_and_attachments() {
    assert_eq!(read_receipt_timestamp("1700000000123"), Ok(1_700_000_000_123));
    assert_eq!(
        read_receipt_timestamp("abc"),
        Err(ApplicationError::InvalidOperation("Invalid Signal message ID: abc".to_string()))
    );
    assert_eq!(
        attachment_not_found("/tmp/x.ogg"),
        ApplicationError::NotFound("Signal attachment not found: /tmp/x.ogg".to_string())
    );
    assert_eq!(attachment_mime(Some("OGG")), "audio/ogg");
    assert_eq!(attachment_mime(None), "application/octet-stream");
}

#[test]
fn hash_writes_default_parameters() {
    let hasher = ApiKeyHasher::new();
    let hash = hasher.hash("sk-test-key").unwrap();
    assert!(hash.starts_with("$argon2id$v=19$m=19456,t=2,p=1$"));
    assert!(hash.contains("$v="));
    assert!(hash.contains("$m="));
}

#[test]
fn ciphertext_is_nonce_plaintext_and_tag() {
    let adapter = create_test_adapter();
    for len in [0usize, 1, 63, 64, 1000] {
        let plaintext = vec![7u8; len];
        let ciphertext = adapter.encrypt(&plaintext).unwrap();
        assert_eq!(ciphertext.len(), 24 + len + 16);
    }
}

#[test]
fn verify_rejects_text_without_leading_dollar() {
    let hasher = ApiKeyHasher::new();
    for stored in ["", "plaintext-key", "argon2id$v=19"] {
        assert_eq!(
            hasher.verify("sk-test-key", stored),
            Err(ApiKeyHashError::InvalidHashFormat("password hash string missing field".to_string()))
        );
    }
}
