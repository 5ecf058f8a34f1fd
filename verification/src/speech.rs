//! Speech processing: the audio formats exchanged with the speech engine and
//! the errors it reports.

use vstd::prelude::*;

use crate::error::ApplicationError;
use crate::text;

verus! {

/// Audio formats of voice messages.
#[derive(Debug, Clone, Copy, PartialEq, Eq, Structural)]
pub enum AudioFormat {
    /// Opus.
    Opus,
    /// Ogg container.
    Ogg,
    /// MP3.
    Mp3,
    /// WAV.
    Wav,
}

/// Audio formats the speech engine knows.
#[derive(Debug, Clone, Copy, PartialEq, Eq, Structural)]
pub enum AiAudioFormat {
    /// Opus.
    Opus,
    /// Ogg container.
    Ogg,
    /// MP3.
    Mp3,
    /// WAV.
    Wav,
    /// FLAC.
    Flac,
    /// WebM.
    Webm,
    /// MPEG-4 audio.
    M4a,
}

/// The engine format of a message format.
pub open spec fn engine_format_of(f: AudioFormat) -> AiAudioFormat {
    match f {
        AudioFormat::Opus => AiAudioFormat::Opus,
        AudioFormat::Ogg => AiAudioFormat::Ogg,
        AudioFormat::Mp3 => AiAudioFormat::Mp3,
        AudioFormat::Wav => AiAudioFormat::Wav,
    }
}

/// The message format of an engine format; formats that messages do not use
/// become MP3.
pub open spec fn message_format_of(f: AiAudioFormat) -> AudioFormat {
    match f {
        AiAudioFormat::Opus => AudioFormat::Opus,
        AiAudioFormat::Ogg => AudioFormat::Ogg,
        AiAudioFormat::Wav => AudioFormat::Wav,
        _ => AudioFormat::Mp3,
    }
}

/// The engine format of a message format.
pub fn domain_to_ai_format(format: AudioFormat) -> (r: AiAudioFormat)
    ensures
        r == engine_format_of(format),
{
    match format {
        AudioFormat::Opus => AiAudioFormat::Opus,
        AudioFormat::Ogg => AiAudioFormat::Ogg,
        AudioFormat::Mp3 => AiAudioFormat::Mp3,
        AudioFormat::Wav => AiAudioFormat::Wav,
    }
}

/// The message format of an engine format (see `message_format_of`).
pub fn ai_to_domain_format(format: AiAudioFormat) -> (r: AudioFormat)
    ensures
        r == message_format_of(format),
{
    match format {
        AiAudioFormat::Opus => AudioFormat::Opus,
        AiAudioFormat::Ogg => AudioFormat::Ogg,
        AiAudioFormat::Wav => AudioFormat::Wav,
        AiAudioFormat::Mp3 | AiAudioFormat::Flac | AiAudioFormat::Webm
        | AiAudioFormat::M4a => AudioFormat::Mp3,
    }
}

/// The format synthesized speech comes in: Opus.
pub fn default_output_format() -> (f: AudioFormat)
    ensures
        f == AudioFormat::Opus,
{
    AudioFormat::Opus
}

/// Whether the speech engine takes audio of this format without converting
/// it: every message format is one it reads.
pub fn supports_format(format: AudioFormat) -> (r: bool)
    ensures
        r,
{
    match format {
        AudioFormat::Mp3 | AudioFormat::Wav | AudioFormat::Opus | AudioFormat::Ogg => true,
    }
}

/// Converting a message format to the engine's and back gives it back.
pub proof fn lemma_format_round_trip(f: AudioFormat)
    ensures
        message_format_of(engine_format_of(f)) == f,
{
}

/// Failures of the speech engine.
#[derive(Debug, Clone, PartialEq, Eq)]
pub enum SpeechError {
    /// The engine is misconfigured.
    Configuration(String),
    /// The engine could not be reached.
    ConnectionFailed(String),
    /// A request to the engine failed.
    RequestFailed(String),
    /// The audio cannot be processed.
    InvalidAudio(String),
    /// The audio is longer than allowed.
    AudioTooLong {
        /// Length of the audio, in milliseconds.
        duration_ms: u64,
        /// Longest allowed, in milliseconds.
        max_ms: u64,
    },
    /// Transcription failed.
    TranscriptionFailed(String),
    /// Synthesis failed.
    SynthesisFailed(String),
    /// The engine's answer cannot be read.
    InvalidResponse(String),
    /// A request timed out after this many milliseconds.
    Timeout(u64),
    /// The engine rate-limited the request.
    RateLimited,
    /// The voice does not exist.
    VoiceNotFound(String),
    /// The model is not available.
    ModelNotAvailable(String),
    /// The engine is unavailable.
    ServiceUnavailable(String),
    /// Converting the audio failed.
    AudioProcessing(String),
}

/// Whether `r` is the error reported for a speech engine failure `e`.
pub open spec fn maps_speech_error(e: SpeechError, r: ApplicationError) -> bool {
    match e {
        SpeechError::Configuration(m) => r matches ApplicationError::Configuration(x) && x@ == m@,
        SpeechError::ConnectionFailed(m) => r matches ApplicationError::ExternalService(x) && x@
            == m@,
        SpeechError::RequestFailed(m) => r matches ApplicationError::ExternalService(x) && x@
            == m@,
        SpeechError::InvalidAudio(m) => r matches ApplicationError::InvalidOperation(x) && x@
            == "Invalid audio: "@ + m@,
        SpeechError::AudioTooLong { duration_ms, max_ms } => r matches ApplicationError::InvalidOperation(
            x,
        ) && x@ == "Audio too long: "@ + text::decimal(duration_ms as nat) + "ms exceeds max "@
            + text::decimal(max_ms as nat) + "ms"@,
        SpeechError::TranscriptionFailed(m) => r matches ApplicationError::ExternalService(x) && x@
            == "Transcription failed: "@ + m@,
        SpeechError::SynthesisFailed(m) => r matches ApplicationError::ExternalService(x) && x@
            == "Synthesis failed: "@ + m@,
        SpeechError::InvalidResponse(m) => r matches ApplicationError::Internal(x) && x@
            == "Invalid response: "@ + m@,
        SpeechError::Timeout(ms) => r matches ApplicationError::ExternalService(x) && x@
            == "Speech service timeout after "@ + text::decimal(ms as nat) + "ms"@,
        SpeechError::RateLimited => r == ApplicationError::RateLimited,
        SpeechError::VoiceNotFound(v) => r matches ApplicationError::InvalidOperation(x) && x@
            == "Voice not found: "@ + v@,
        SpeechError::ModelNotAvailable(m) => r matches ApplicationError::InvalidOperation(x) && x@
            == "Model not available: "@ + m@,
        SpeechError::ServiceUnavailable(m) => r matches ApplicationError::ExternalService(x) && x@
            == m@,
        SpeechError::AudioProcessing(m) => r matches ApplicationError::Internal(x) && x@
            == "Audio processing failed: "@ + m@,
    }
}

/// The error reported to the application for a speech engine failure.
pub fn map_speech_error(e: SpeechError) -> (r: ApplicationError)
    ensures
        maps_speech_error(e, r),
{
    match e {
        SpeechError::Configuration(m) => ApplicationError::Configuration(m),
        SpeechError::ConnectionFailed(m) => ApplicationError::ExternalService(m),
        SpeechError::RequestFailed(m) => ApplicationError::ExternalService(m),
        SpeechError::InvalidAudio(m) => ApplicationError::InvalidOperation(
            text::owned("Invalid audio: ").concat(m.as_str()),
        ),
        SpeechError::AudioTooLong { duration_ms, max_ms } => ApplicationError::InvalidOperation(
            text::owned("Audio too long: ").concat(text::decimal_text(duration_ms).as_str()).concat(
                "ms exceeds max ",
            ).concat(text::decimal_text(max_ms).as_str()).concat("ms"),
        ),
        SpeechError::TranscriptionFailed(m) => ApplicationError::ExternalService(
            text::owned("Transcription failed: ").concat(m.as_str()),
        ),
        SpeechError::SynthesisFailed(m) => ApplicationError::ExternalService(
            text::owned("Synthesis failed: ").concat(m.as_str()),
        ),
        SpeechError::InvalidResponse(m) => ApplicationError::Internal(
            text::owned("Invalid response: ").concat(m.as_str()),
        ),
        SpeechError::Timeout(ms) => ApplicationError::ExternalService(
            text::owned("Speech service timeout after ").concat(
                text::decimal_text(ms).as_str(),
            ).concat("ms"),
        ),
        SpeechError::RateLimited => ApplicationError::RateLimited,
        SpeechError::VoiceNotFound(v) => ApplicationError::InvalidOperation(
            text::owned("Voice not found: ").concat(v.as_str()),
        ),
        SpeechError::ModelNotAvailable(m) => ApplicationError::InvalidOperation(
            text::owned("Model not available: ").concat(m.as_str()),
        ),
        SpeechError::ServiceUnavailable(m) => ApplicationError::ExternalService(m),
        SpeechError::AudioProcessing(m) => ApplicationError::Internal(
            text::owned("Audio processing failed: ").concat(m.as_str()),
        ),
    }
}

} // verus!
