//! The current time, as seconds or milliseconds since the Unix epoch.

use vstd::prelude::*;
use std::time::{Duration, SystemTime};

verus! {

#[verifier::external_type_specification]
#[verifier::external_body]
pub struct ExSystemTime(SystemTime);

/// `SystemTime::now`. Nothing is stated: the clock is read as it is.
#[verifier::external_body]
fn system_now() -> (r: SystemTime)
{
    SystemTime::now()
}

/// `SystemTime::duration_since(UNIX_EPOCH)`: `None` when `t` is before the
/// epoch. Nothing is stated of the duration.
#[verifier::external_body]
fn duration_since_epoch(t: &SystemTime) -> (r: Option<Duration>)
{
    match t.duration_since(std::time::UNIX_EPOCH) {
        Ok(d) => Some(d),
        Err(_) => None,
    }
}

/// The total number of nanoseconds a duration spans (what
/// `Duration::as_nanos` returns).
pub uninterp spec fn duration_nanos(d: Duration) -> u128;

/// The whole seconds of a duration (what `Duration::as_secs` returns).
pub uninterp spec fn whole_seconds(d: Duration) -> u64;

/// `Duration::as_nanos`. Trusted: the count depends on the duration alone
/// and is named.
#[verifier::external_body]
fn duration_total_nanos(d: &Duration) -> (r: u128)
    ensures
        r == duration_nanos(*d),
{
    d.as_nanos()
}

/// `Duration::as_secs`. Trusted: the count depends on the duration alone
/// and is named.
#[verifier::external_body]
fn duration_secs(d: &Duration) -> (r: u64)
    ensures
        r == whole_seconds(*d),
{
    d.as_secs()
}

/// Milliseconds since the Unix epoch (0 when the clock reads earlier).
pub fn unix_millis() -> (r: u128)
{
    let now = system_now();
    match duration_since_epoch(&now) {
        Some(d) => duration_total_nanos(&d) / 1_000_000,
        None => 0,
    }
}

/// Whole seconds since the Unix epoch (0 when the clock reads earlier).
pub fn unix_secs() -> (r: u64)
{
    let now = system_now();
    match duration_since_epoch(&now) {
        Some(d) => duration_secs(&d),
        None => 0,
    }
}

} // verus!
