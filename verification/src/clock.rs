//! The wall clock that times a hold of the Hyper key.

use std::time::{Duration, SystemTime, SystemTimeError, UNIX_EPOCH};
use vstd::prelude::*;

verus! {

/// A point of the system clock.
#[verifier::external_type_specification]
#[verifier::external_body]
pub struct ExSystemTime(SystemTime);

/// The error of a clock that went backwards.
#[verifier::external_type_specification]
#[verifier::external_body]
pub struct ExSystemTimeError(SystemTimeError);

/// `SystemTime::now` reads the system clock. Nothing is claimed of what it
/// reads.
pub assume_specification[ SystemTime::now ]() -> (now: SystemTime);

/// `Duration::as_millis` gives a duration in whole milliseconds. Nothing is
/// claimed of the number.
pub assume_specification[ Duration::as_millis ](duration: &Duration) -> (millis: u128);

/// Calls `SystemTime::duration_since` with the Unix epoch: the time from the
/// epoch to `time`, or an error where `time` lies before the epoch. Nothing
/// is claimed of the duration.
#[verifier::external_body]
fn since_unix_epoch(time: &SystemTime) -> (elapsed: Result<Duration, SystemTimeError>) {
    time.duration_since(UNIX_EPOCH)
}

/// What the engine reads off a clock that answered `elapsed_millis`: the
/// whole milliseconds since the Unix epoch, of which the low 64 bits are
/// kept; zero where the clock gave no duration because it stands before the
/// epoch.
pub open spec fn clock_reading(elapsed_millis: Option<u128>) -> u64 {
    match elapsed_millis {
        Some(millis) => (millis % 0x1_0000_0000_0000_0000) as u64,
        None => 0,
    }
}

/// Turns the answer of a clock into the reading that times a hold.
pub fn millis_of_clock(elapsed_millis: Option<u128>) -> (millis: u64)
    ensures
        millis == clock_reading(elapsed_millis),
        elapsed_millis matches Some(whole) ==> (whole <= u64::MAX ==> millis == whole),
        elapsed_millis is None ==> millis == 0,
{
    match elapsed_millis {
        Some(whole) => {
            let low = whole % 0x1_0000_0000_0000_0000;
            low as u64
        },
        None => 0,
    }
}

/// Milliseconds since the Unix epoch by the system clock, cut to 64 bits;
/// zero where the clock stands before the epoch.
pub fn now_millis() -> (millis: u64) {
    let elapsed_millis = match since_unix_epoch(&SystemTime::now()) {
        Ok(elapsed) => Some(elapsed.as_millis()),
        Err(_) => None,
    };
    millis_of_clock(elapsed_millis)
}

} // verus!
