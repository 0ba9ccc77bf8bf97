//! What the pool reads of `std::time::Duration`.
use std::time::Duration;
use vstd::prelude::*;

verus! {

/// The length of a duration in nanoseconds, as `Duration::as_nanos` reports it.
pub uninterp spec fn duration_as_nanos(d: Duration) -> u128;

/// `u64::MAX` seconds and 999_999_999 nanoseconds in nanoseconds: the length
/// of `Duration::MAX`.
pub open spec fn max_duration_nanos() -> int {
    u64::MAX * 1_000_000_000 + 999_999_999
}

/// Reads `Duration::MAX`, which std documents as `u64::MAX` seconds and
/// 999_999_999 nanoseconds.
#[verifier::external_body]
pub(crate) fn max_duration() -> (d: Duration)
    ensures
        duration_as_nanos(d) == max_duration_nanos(),
{
    Duration::MAX
}

/// Calls `Duration::as_nanos`: the whole length of `d` in nanoseconds.
#[verifier::external_body]
pub(crate) fn nanos_of(d: &Duration) -> (n: u128)
    ensures
        n == duration_as_nanos(*d),
{
    d.as_nanos()
}

/// Calls `Duration::from_millis`, which documents a duration of `millis`
/// milliseconds.
#[verifier::external_body]
pub(crate) fn duration_from_millis(ms: u64) -> (d: Duration)
    ensures
        duration_as_nanos(d) == ms * 1_000_000,
{
    Duration::from_millis(ms)
}


} // verus!
