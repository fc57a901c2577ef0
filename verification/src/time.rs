//! Durations, as `std::time::Duration` makes them.

use vstd::prelude::*;
use std::time::Duration;

verus! {

/// `Duration` is `Copy`: its `clone` hands back the same value.
pub assume_specification[ <Duration as Clone>::clone ](d: &Duration) -> (r: Duration)
    ensures
        r == *d,
;

/// The whole nanoseconds of a duration (`Duration::as_nanos`).
pub uninterp spec fn duration_nanos(d: Duration) -> u128;

/// The duration of a whole number of seconds (`Duration::from_secs`).
pub uninterp spec fn secs_duration(secs: u64) -> Duration;

/// The duration of a whole number of milliseconds (`Duration::from_millis`).
pub uninterp spec fn millis_duration(ms: u64) -> Duration;

/// `Duration::from_secs`.
///
/// Trusted: the result is `secs_duration` of the argument, a duration of
/// exactly `secs` seconds (so `as_nanos` gives `secs` times 10^9); the call
/// does not panic for any `u64`.
#[verifier::external_body]
pub fn duration_from_secs(secs: u64) -> (r: Duration)
    ensures
        r == secs_duration(secs),
        duration_nanos(r) == secs * 1_000_000_000,
{
    Duration::from_secs(secs)
}

/// `Duration::from_millis`.
///
/// Trusted: the result is `millis_duration` of the argument, a duration of
/// exactly `ms` milliseconds (so `as_nanos` gives `ms` times 10^6); the call
/// does not panic for any `u64`.
#[verifier::external_body]
pub fn duration_from_millis(ms: u64) -> (r: Duration)
    ensures
        r == millis_duration(ms),
        duration_nanos(r) == ms * 1_000_000,
{
    Duration::from_millis(ms)
}

/// `Duration::as_nanos`.
///
/// Trusted: the result is `duration_nanos` of the argument; the call does
/// not panic.
#[verifier::external_body]
pub(crate) fn duration_as_nanos(d: Duration) -> (r: u128)
    ensures
        r == duration_nanos(d),
{
    d.as_nanos()
}

}
