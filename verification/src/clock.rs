//! The system clock, read as a `Timestamp`.
//!
//! Nothing is believed of the time that the clock gives: it can be set to
//! any time, and back.

use crate::timestamp::{max_nanos, Timestamp};
use std::time::{Duration, SystemTime};
use vstd::prelude::*;

verus! {

/// `std::time::SystemTime`. Its inside is not looked at.
#[verifier::external_type_specification]
#[verifier::external_body]
pub struct ExSystemTime(SystemTime);

/// `SystemTime::now`: the system clock's present reading. Nothing is
/// believed of it.
pub assume_specification[ std::time::SystemTime::now ]() -> (time: SystemTime);

/// `Duration::as_secs`: the whole seconds in the duration. Nothing is
/// believed of them.
pub assume_specification[ std::time::Duration::as_secs ](duration: &Duration) -> (secs: u64);

/// `Duration::subsec_nanos`: the part of the duration beyond its whole
/// seconds, in nanoseconds. Believed: it is less than one second.
pub assume_specification[ std::time::Duration::subsec_nanos ](duration: &Duration) -> (nanos: u32)
    ensures
        nanos < 1_000_000_000,
;

/// `SystemTime::duration_since`, asked for the time from the Unix epoch to
/// `time`; an error, which `time` before the epoch gives, is handed on as
/// `None`. Nothing is believed of the result.
#[verifier::external_body]
fn since_epoch(time: &SystemTime) -> (elapsed: Option<Duration>) {
    time.duration_since(SystemTime::UNIX_EPOCH).ok()
}

/// Reads the system clock.
///
/// `None` where the clock stands before the Unix epoch, or later than a
/// timestamp can hold.
pub fn read_clock() -> (reading: Option<Timestamp>)
    ensures
        reading matches Some(time) ==> time@ <= max_nanos(),
{
    let time = SystemTime::now();
    match since_epoch(&time) {
        Some(elapsed) => Timestamp::new(elapsed.as_secs(), elapsed.subsec_nanos()),
        None => None,
    }
}

} // verus!
