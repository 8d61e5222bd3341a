//! The wall clock.

use vstd::prelude::*;
use std::time::{Duration, SystemTime, SystemTimeError};

verus! {

#[verifier::external_type_specification]
#[verifier::external_body]
pub struct ExSystemTime(SystemTime);

#[verifier::external_type_specification]
#[verifier::external_body]
pub struct ExSystemTimeError(SystemTimeError);

/// Calls `SystemTime::now`. Nothing is assumed of the reading.
#[verifier::external_body]
fn system_now() -> (now: SystemTime) {
    SystemTime::now()
}

/// Calls `SystemTime::duration_since` with the Unix epoch, which fails for
/// a time before the epoch. Nothing is assumed of the result.
#[verifier::external_body]
fn since_epoch(time: &SystemTime) -> (elapsed: Result<Duration, SystemTimeError>) {
    time.duration_since(std::time::UNIX_EPOCH)
}

/// Calls `Duration::as_millis`. Nothing is assumed of the result.
#[verifier::external_body]
fn whole_millis(elapsed: &Duration) -> (millis: u128) {
    elapsed.as_millis()
}

/// The clock's reading in whole milliseconds since the Unix epoch; `None`
/// where the clock is set before the epoch.
///
/// Nothing is promised of a reading: it is whatever the clock says. The
/// operations that take one are proved for every value of it, the missing
/// reading included.
pub(crate) fn unix_millis() -> (now: Option<u128>) {
    match since_epoch(&system_now()) {
        Ok(elapsed) => Some(whole_millis(&elapsed)),
        Err(_) => None,
    }
}

} // verus!
