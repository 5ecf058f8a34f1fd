//! Wall-clock readings.

use vstd::prelude::*;

verus! {

/// Milliseconds since the Unix epoch, read from `SystemTime::now`.
///
/// Nothing is claimed of the value: it depends on the machine's clock, which
/// may also move backwards. A clock set before the epoch reads as 0.
#[verifier::external_body]
pub(crate) fn now_millis() -> u64 {
    std::time::SystemTime::now()
        .duration_since(std::time::UNIX_EPOCH)
        .map(|d| d.as_millis() as u64)
        .unwrap_or(0)
}

/// Seconds since the Unix epoch, read from `SystemTime::now`.
///
/// Nothing is claimed of the value (see `now_millis`).
#[verifier::external_body]
pub(crate) fn now_secs() -> u64 {
    std::time::SystemTime::now()
        .duration_since(std::time::UNIX_EPOCH)
        .map(|d| d.as_secs())
        .unwrap_or(0)
}

} // verus!
