//! Durations built from whole seconds or milliseconds.

use vstd::prelude::*;

verus! {

/// What `Duration::from_secs` returns for a number of seconds.
pub uninterp spec fn duration_of_secs(secs: u64) -> std::time::Duration;

/// `Duration::from_secs`.
///
/// Claimed: the duration depends on the number of seconds alone, and it is
/// `secs * 1000` whole milliseconds long.
#[verifier::external_body]
pub(crate) fn from_secs(secs: u64) -> (d: std::time::Duration)
    ensures
        d == duration_of_secs(secs),
        duration_millis(d) == secs * 1000,
{
    std::time::Duration::from_secs(secs)
}

/// What `Duration::from_millis` returns for a number of milliseconds.
pub uninterp spec fn duration_of_millis(millis: u64) -> std::time::Duration;

/// `Duration::from_millis`.
///
/// Claimed: the duration depends on the number of milliseconds alone, and
/// it is `millis` whole milliseconds long.
#[verifier::external_body]
pub(crate) fn from_millis(millis: u64) -> (d: std::time::Duration)
    ensures
        d == duration_of_millis(millis),
        duration_millis(d) == millis,
{
    std::time::Duration::from_millis(millis)
}

/// The whole milliseconds of a duration, as `Duration::as_millis` counts them.
pub uninterp spec fn duration_millis(d: std::time::Duration) -> u128;

/// `Duration::as_millis`.
///
/// Claimed: the result depends on the duration alone.
#[verifier::external_body]
pub(crate) fn millis_of(d: std::time::Duration) -> (r: u128)
    ensures
        r == duration_millis(d),
{
    d.as_millis()
}

/// `Clone` for `Duration`, which is `Copy`: the clone equals the value it was made from.
pub assume_specification[ <std::time::Duration as Clone>::clone ](d: &std::time::Duration) -> (r:
    std::time::Duration)
    ensures
        r == *d,
;

} // verus!
