//! Infrastructure layer: resilience primitives, configuration, secret-store
//! path handling, cache keys and the other pure decisions of the adapters.

pub mod api_key_hasher;
pub mod cache;
pub mod chaos;
pub mod circuit_breaker;
mod clock;
pub mod config;
pub mod contacts;
pub mod degraded;
mod duration;
pub mod encryption;
pub mod error;
pub mod http;
mod ids;
pub mod inference;
pub mod integrations;
pub mod media;
pub mod model_registry;
pub mod moka_cache;
pub mod secret_store;
pub mod signal_adapter;
pub mod speech;
pub mod suspicious_activity;
pub mod tasks;
pub mod text;
pub mod transit;
pub mod whatsapp_adapter;
