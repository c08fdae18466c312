//! Spans of time, as `std::time::Duration`.
use vstd::prelude::*;
use std::time::Duration;

verus! {

/// The value of `Duration::from_millis(ms)`.
pub uninterp spec fn duration_from_millis(ms: u64) -> Duration;

/// The value of `Duration::from_secs(secs)`.
pub uninterp spec fn duration_from_secs(secs: u64) -> Duration;

/// The value of `d.as_nanos()`: the whole span in nanoseconds.
pub uninterp spec fn duration_nanos(d: Duration) -> nat;

/// The longest span a `Duration` holds, in nanoseconds: `u64::MAX` seconds and
/// 999,999,999 nanoseconds.
pub const DURATION_MAX_NANOS: u128 = 18_446_744_073_709_551_615_999_999_999u128;

/// Calls `Duration::from_millis`. Its documentation defines the result as `ms`
/// milliseconds, so a whole number of seconds is the same value as
/// `Duration::from_secs` gives for it.
#[verifier::external_body]
pub fn millis(ms: u64) -> (d: Duration)
    ensures
        d == duration_from_millis(ms),
        duration_nanos(d) == ms * 1_000_000,
        ms % 1000 == 0 ==> d == duration_from_secs((ms / 1000) as u64),
{
    Duration::from_millis(ms)
}

/// Calls `Duration::from_secs`. Its documentation defines the result as `s`
/// whole seconds.
#[verifier::external_body]
pub fn secs(s: u64) -> (d: Duration)
    ensures
        d == duration_from_secs(s),
        duration_nanos(d) == s * 1_000_000_000,
{
    Duration::from_secs(s)
}

/// Calls `Duration::as_nanos`: the total number of nanoseconds the span holds,
/// which no `Duration` takes beyond `DURATION_MAX_NANOS`.
#[verifier::external_body]
pub fn nanos(d: &Duration) -> (r: u128)
    ensures
        r == duration_nanos(*d),
        r <= DURATION_MAX_NANOS,
{
    d.as_nanos()
}

} // verus!
