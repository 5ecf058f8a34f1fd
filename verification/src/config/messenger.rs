//! Messenger settings: WhatsApp, Signal and conversation persistence.

use vstd::prelude::*;

use crate::config::{opt_str_view, opt_view};
use crate::text;

verus! {

/// Conversation persistence settings of a messenger.
#[derive(Debug, Clone)]
pub struct MessengerPersistenceConfig {
    /// Whether conversations are stored.
    pub enabled: bool,
    /// Whether stored messages are encrypted.
    pub enable_encryption: bool,
    /// Whether stored messages feed retrieval-augmented answers.
    pub enable_rag: bool,
    /// Whether facts are learned from conversations.
    pub enable_learning: bool,
    /// Days to keep conversations (`None` keeps them forever).
    pub retention_days: Option<u32>,
    /// Maximum stored messages per conversation (`None` for no limit).
    pub max_messages_per_conversation: Option<usize>,
    /// Number of recent messages given to the model as context.
    pub context_window: usize,
}

/// Default context window.
pub fn default_context_window() -> (n: usize)
    ensures
        n == 50,
{
    50
}

impl Default for MessengerPersistenceConfig {
    fn default() -> (c: Self)
        ensures
            c.enabled,
            c.enable_encryption,
            c.enable_rag,
            c.enable_learning,
            c.retention_days is None,
            c.max_messages_per_conversation is None,
            c.context_window == 50,
    {
        MessengerPersistenceConfig {
            enabled: true,
            enable_encryption: true,
            enable_rag: true,
            enable_learning: true,
            retention_days: None,
            max_messages_per_conversation: None,
            context_window: default_context_window(),
        }
    }
}

/// WhatsApp Business API configuration.
///
/// The access token and the app secret are credentials; this type has no
/// `Debug` so that they cannot end up in logs.
#[derive(Clone)]
pub struct WhatsAppConfig {
    /// Meta Graph API access token.
    pub access_token: Option<String>,
    /// Phone number id.
    pub phone_number_id: Option<String>,
    /// App secret for webhook signature verification.
    pub app_secret: Option<String>,
    /// Token for webhook verification.
    pub verify_token: Option<String>,
    /// Whether webhook signatures are required.
    pub signature_required: bool,
    /// Graph API version.
    pub api_version: String,
    /// Phone numbers allowed to send messages (empty allows all).
    pub whitelist: Vec<String>,
    /// Conversation persistence.
    pub persistence: MessengerPersistenceConfig,
}

/// Default Graph API version.
pub fn default_api_version() -> (s: String)
    ensures
        s@ == "v18.0"@,
{
    text::owned("v18.0")
}

impl Default for WhatsAppConfig {
    fn default() -> (c: Self)
        ensures
            c.access_token is None,
            c.phone_number_id is None,
            c.app_secret is None,
            c.verify_token is None,
            c.signature_required,
            c.api_version@ == "v18.0"@,
            c.whitelist@.len() == 0,
            c.persistence.enabled,
            c.persistence.context_window == 50,
    {
        WhatsAppConfig {
            access_token: None,
            phone_number_id: None,
            app_secret: None,
            verify_token: None,
            signature_required: true,
            api_version: default_api_version(),
            whitelist: Vec::new(),
            persistence: MessengerPersistenceConfig::default(),
        }
    }
}

impl WhatsAppConfig {
    /// The access token, if set.
    pub fn access_token_str(&self) -> (r: Option<&str>)
        ensures
            opt_str_view(r) == opt_view(self.access_token),
    {
        match &self.access_token {
            Some(t) => Some(t.as_str()),
            None => None,
        }
    }

    /// The app secret, if set.
    pub fn app_secret_str(&self) -> (r: Option<&str>)
        ensures
            opt_str_view(r) == opt_view(self.app_secret),
    {
        match &self.app_secret {
            Some(t) => Some(t.as_str()),
            None => None,
        }
    }
}

/// Signal messenger configuration (signal-cli daemon over a Unix socket).
#[derive(Debug, Clone)]
pub struct SignalConfig {
    /// Phone number registered with Signal (E.164).
    pub phone_number: String,
    /// Path to the signal-cli socket.
    pub socket_path: String,
    /// Optional signal-cli data directory.
    pub data_path: Option<String>,
    /// Timeout of daemon requests, in milliseconds.
    pub timeout_ms: u64,
    /// Phone numbers allowed to send messages (empty allows all).
    pub whitelist: Vec<String>,
    /// Conversation persistence.
    pub persistence: MessengerPersistenceConfig,
}

/// Default signal-cli socket path.
pub fn default_signal_socket_path() -> (s: String)
    ensures
        s@ == "/var/run/signal-cli/socket"@,
{
    text::owned("/var/run/signal-cli/socket")
}

/// Default timeout of daemon requests, in milliseconds.
pub fn default_signal_timeout() -> (n: u64)
    ensures
        n == 30_000,
{
    30_000
}

impl Default for SignalConfig {
    fn default() -> (c: Self)
        ensures
            c.phone_number@.len() == 0,
            c.socket_path@ == "/var/run/signal-cli/socket"@,
            c.data_path is None,
            c.timeout_ms == 30_000,
            c.whitelist@.len() == 0,
            c.persistence.enabled,
            c.persistence.context_window == 50,
    {
        SignalConfig {
            phone_number: String::new(),
            socket_path: default_signal_socket_path(),
            data_path: None,
            timeout_ms: default_signal_timeout(),
            whitelist: Vec::new(),
            persistence: MessengerPersistenceConfig::default(),
        }
    }
}

} // verus!
