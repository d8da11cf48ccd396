//! The system clock, read as whole seconds since the unix epoch.

use vstd::prelude::*;
use std::time::{Duration, SystemTime, SystemTimeError, UNIX_EPOCH};

verus! {

/// `std::time::SystemTime`: an instant of the system clock. Nothing is
/// claimed of what a value holds.
#[verifier::external_type_specification]
#[verifier::external_body]
pub struct ExSystemTime(SystemTime);

/// `std::time::SystemTimeError`: what `SystemTime::duration_since` returns
/// where the second instant is later than the first.
#[verifier::external_type_specification]
#[verifier::external_body]
pub struct ExSystemTimeError(SystemTimeError);

/// `SystemTime::now`: the current instant. Nothing is claimed of it.
pub assume_specification[ SystemTime::now ]() -> SystemTime;

/// `Duration::as_secs`: the whole seconds in the span. Nothing is claimed of
/// the number.
pub assume_specification[ Duration::as_secs ](d: &Duration) -> u64;

/// `SystemTime::duration_since`, with `UNIX_EPOCH` as the earlier instant:
/// the span from the unix epoch to `t`, or the error where `t` lies before
/// it. Nothing is claimed of which it is.
#[verifier::external_body]
fn since_unix_epoch(t: &SystemTime) -> Result<Duration, SystemTimeError> {
    t.duration_since(UNIX_EPOCH)
}

/// Reads the clock: the seconds since the unix epoch, or `None` where the
/// clock stands before it.
pub fn unix_now() -> Option<u64> {
    let now = SystemTime::now();
    match since_unix_epoch(&now) {
        Ok(span) => Some(span.as_secs()),
        Err(_) => None,
    }
}

} // verus!
