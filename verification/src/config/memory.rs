//! Embedding and reminder settings.

use vstd::prelude::*;

use crate::text;

verus! {

/// Embedding model configuration.
#[derive(Debug, Clone)]
pub struct EmbeddingAppConfig {
    /// Embedding model name.
    pub model: String,
    /// Dimension of the embedding vectors.
    pub dimension: usize,
    /// Request timeout, in milliseconds.
    pub timeout_ms: u64,
}

/// Default embedding model.
pub fn default_embedding_model() -> (s: String)
    ensures
        s@ == "nomic-embed-text"@,
{
    text::owned("nomic-embed-text")
}

/// Default embedding dimension.
pub fn default_embedding_dimension() -> (n: usize)
    ensures
        n == 384,
{
    384
}

/// Default embedding timeout, in milliseconds.
pub fn default_embedding_timeout() -> (n: u64)
    ensures
        n == 30000,
{
    30000
}

impl Default for EmbeddingAppConfig {
    fn default() -> (c: Self)
        ensures
            c.model@ == "nomic-embed-text"@,
            c.dimension == 384,
            c.timeout_ms == 30000,
    {
        EmbeddingAppConfig {
            model: default_embedding_model(),
            dimension: default_embedding_dimension(),
            timeout_ms: default_embedding_timeout(),
        }
    }
}

/// Reminder system configuration.
#[derive(Debug, Clone)]
pub struct ReminderAppConfig {
    /// Maximum number of snoozes per reminder.
    pub max_snooze: u8,
    /// Default snooze duration, in minutes.
    pub default_snooze_minutes: u32,
    /// Lead time of reminders for calendar events, in minutes.
    pub caldav_reminder_lead_time_minutes: u32,
    /// Interval between checks for due reminders, in seconds.
    pub check_interval_secs: u64,
    /// Interval between calendar syncs, in minutes.
    pub caldav_sync_interval_minutes: u32,
    /// Time of the morning briefing (`HH:MM`).
    pub morning_briefing_time: String,
    /// Whether the morning briefing is sent.
    pub morning_briefing_enabled: bool,
}

/// Default maximum number of snoozes.
pub fn default_max_snooze() -> (n: u8)
    ensures
        n == 5,
{
    5
}

/// Default snooze duration, in minutes.
pub fn default_snooze_minutes() -> (n: u32)
    ensures
        n == 15,
{
    15
}

/// Default lead time of calendar reminders, in minutes.
pub fn default_caldav_reminder_lead_time() -> (n: u32)
    ensures
        n == 30,
{
    30
}

/// Default interval between reminder checks, in seconds.
pub fn default_reminder_check_interval() -> (n: u64)
    ensures
        n == 60,
{
    60
}

/// Default interval between calendar syncs, in minutes.
pub fn default_caldav_sync_interval() -> (n: u32)
    ensures
        n == 15,
{
    15
}

/// Default time of the morning briefing.
pub fn default_morning_briefing_time() -> (s: String)
    ensures
        s@ == "07:00"@,
{
    text::owned("07:00")
}

impl Default for ReminderAppConfig {
    fn default() -> (c: Self)
        ensures
            c.max_snooze == 5,
            c.default_snooze_minutes == 15,
            c.caldav_reminder_lead_time_minutes == 30,
            c.check_interval_secs == 60,
            c.caldav_sync_interval_minutes == 15,
            c.morning_briefing_time@ == "07:00"@,
            c.morning_briefing_enabled,
    {
        ReminderAppConfig {
            max_snooze: default_max_snooze(),
            default_snooze_minutes: default_snooze_minutes(),
            caldav_reminder_lead_time_minutes: default_caldav_reminder_lead_time(),
            check_interval_secs: default_reminder_check_interval(),
            caldav_sync_interval_minutes: default_caldav_sync_interval(),
            morning_briefing_time: default_morning_briefing_time(),
            morning_briefing_enabled: true,
        }
    }
}

} // verus!
