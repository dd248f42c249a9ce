//! The wall clock, read as nanoseconds since the Unix epoch.

use std::time::{Duration, SystemTime, SystemTimeError, UNIX_EPOCH};
use vstd::prelude::*;

verus! {

/// `std::time::SystemTime`, a reading of the system clock, carried as an
/// opaque value.
#[verifier::external_type_specification]
#[verifier::external_body]
pub struct ExSystemTime(SystemTime);

/// `std::time::SystemTimeError`, the failure of `SystemTime::duration_since`,
/// carried as an opaque value.
#[verifier::external_type_specification]
#[verifier::external_body]
pub struct ExSystemTimeError(SystemTimeError);

/// `std::time::SystemTime::now`: the current reading of the system clock.
/// Nothing is claimed of the reading.
#[verifier::external_body]
fn system_now() -> (now: SystemTime) {
    SystemTime::now()
}

/// `std::time::SystemTime::duration_since`, measured from `UNIX_EPOCH`. It
/// fails when the reading lies before the epoch. Nothing is claimed of the
/// result.
#[verifier::external_body]
fn since_unix_epoch(reading: &SystemTime) -> (elapsed: Result<Duration, SystemTimeError>) {
    reading.duration_since(UNIX_EPOCH)
}

/// `std::time::Duration::as_nanos`: the whole duration in nanoseconds.
/// Nothing is claimed of the number.
#[verifier::external_body]
fn whole_nanos(elapsed: &Duration) -> (nanos: u128) {
    elapsed.as_nanos()
}

/// The time stamp for a reading of the clock: the nanoseconds that have
/// elapsed since the Unix epoch, and zero for a clock set before the epoch.
pub(crate) fn unix_time_nanos() -> (nanos: u128) {
    let reading = system_now();
    let elapsed = match since_unix_epoch(&reading) {
        Ok(elapsed) => Some(whole_nanos(&elapsed)),
        Err(_) => None,
    };
    time_stamp_of(elapsed)
}

/// The time stamp that belongs to what the clock gave: the nanoseconds
/// elapsed since the epoch where there are any, and zero where the clock
/// stood before the epoch and so gave none.
pub fn time_stamp_of(elapsed: Option<u128>) -> (nanos: u128)
    ensures
        nanos == match elapsed {
            Some(since_epoch) => since_epoch,
            None => 0,
        },
{
    match elapsed {
        Some(since_epoch) => since_epoch,
        None => 0,
    }
}

} // verus!
