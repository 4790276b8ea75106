//! The wall clock, read as milliseconds since the Unix epoch.

use vstd::prelude::*;
use std::time::{Duration, SystemTime, SystemTimeError};
use crate::error::Error;

verus! {

/// A point in time of the system clock, which nothing here looks into.
#[verifier::external_type_specification]
#[verifier::external_body]
pub struct ExSystemTime(SystemTime);

/// The error of a clock that reports a time before the one it is compared
/// with, which nothing here looks into.
#[verifier::external_type_specification]
#[verifier::external_body]
pub struct ExSystemTimeError(SystemTimeError);

/// Calls `SystemTime::now`. The result depends on the moment of the call, so
/// nothing is claimed of it.
#[verifier::external_body]
pub(crate) fn system_now() -> SystemTime {
    SystemTime::now()
}

/// Calls `SystemTime::duration_since` with `SystemTime::UNIX_EPOCH`. Nothing
/// is claimed of the result.
#[verifier::external_body]
pub(crate) fn since_epoch(now: &SystemTime) -> Result<Duration, SystemTimeError> {
    now.duration_since(SystemTime::UNIX_EPOCH)
}

/// Calls `Duration::as_millis`. Nothing is claimed of the result.
#[verifier::external_body]
pub(crate) fn whole_millis(elapsed: &Duration) -> u128 {
    elapsed.as_millis()
}

/// Reads the clock: the milliseconds since the Unix epoch, or `Error::Clock`
/// where the clock reports a time before the epoch.
pub fn epoch_millis() -> (res: Result<u128, Error>)
    ensures
        res matches Err(e) ==> e == Error::Clock,
{
    let now = system_now();
    match since_epoch(&now) {
        Ok(elapsed) => Ok(whole_millis(&elapsed)),
        Err(_) => Err(Error::Clock),
    }
}

} // verus!
