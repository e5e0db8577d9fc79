//! The wall clock: reading it, and writing a reading out.

use crate::text::{format_timestamp, timestamp_text};
use crate::timestamp::{civil, clamp_seconds};
use std::time::{Duration, SystemTime, SystemTimeError};
use vstd::prelude::*;

verus! {

/// Why a time could not be shown.
#[derive(Clone, Copy, Debug, PartialEq, Eq, Structural)]
pub enum ClockError {
    /// The system clock gave no time since the Unix epoch.
    ClockUnavailable,
}

/// `std::time::SystemTime`, a reading of the system clock. Nothing is
/// claimed of what it holds.
#[verifier::external_type_specification]
#[verifier::external_body]
pub struct ExSystemTime(std::time::SystemTime);

/// `std::time::SystemTimeError`, the error of a reading that lies before the
/// time it is measured from. Nothing is claimed of what it holds.
#[verifier::external_type_specification]
#[verifier::external_body]
pub struct ExSystemTimeError(std::time::SystemTimeError);

/// `SystemTime::now` reads the system clock. Nothing is claimed of the
/// reading: it differs from call to call.
pub assume_specification[ std::time::SystemTime::now ]() -> (now: SystemTime)
;

/// `SystemTime::duration_since`, taken from the Unix epoch: the time that has
/// passed from the epoch to `time`, or an error where `time` lies before the
/// epoch. Nothing is claimed of which it is.
#[verifier::external_body]
fn since_unix_epoch(time: &SystemTime) -> (elapsed: Result<Duration, SystemTimeError>) {
    time.duration_since(SystemTime::UNIX_EPOCH)
}

/// `Duration::as_secs` gives the whole seconds of a duration. Nothing is
/// claimed of their number.
pub assume_specification[ std::time::Duration::as_secs ](duration: &Duration) -> (seconds: u64)
;

/// Reads the wall clock: whole seconds since the Unix epoch, or
/// `ClockUnavailable` where the system clock stands before the epoch. A
/// count beyond `i64` is given as `i64::MAX`.
pub fn read_wall_clock() -> (reading: Result<i64, ClockError>)
    ensures
        reading matches Ok(seconds) ==> seconds >= 0,
{
    let now = SystemTime::now();
    let elapsed: Option<u64> = match since_unix_epoch(&now) {
        Ok(elapsed) => Some(elapsed.as_secs()),
        Err(_) => None,
    };
    reading_from_elapsed(elapsed)
}

/// What a wall-clock reading shows as: the timestamp of a reading that was
/// made, the error of one that was not.
pub open spec fn wall_clock_text(reading: Result<i64, ClockError>) -> Result<Seq<char>, ClockError> {
    match reading {
        Ok(seconds) => Ok(timestamp_text(civil(clamp_seconds(seconds as int)))),
        Err(error) => Err(error),
    }
}

/// A `String` result and a text result that say the same.
pub open spec fn shows(shown: Result<String, ClockError>, text: Result<Seq<char>, ClockError>) -> bool {
    match shown {
        Ok(s) => text == Ok::<Seq<char>, ClockError>(s@),
        Err(error) => text == Err::<Seq<char>, ClockError>(error),
    }
}

/// Writes a wall-clock reading out as a timestamp; a reading that failed
/// stays the error it was.
pub fn current_wall_clock_display(reading: Result<i64, ClockError>) -> (shown: Result<
    String,
    ClockError,
>)
    ensures
        shows(shown, wall_clock_text(reading)),
{
    match reading {
        Ok(seconds) => Ok(format_timestamp(seconds)),
        Err(error) => Err(error),
    }
}

/// Reads the wall clock and writes the reading out as a timestamp.
pub fn get_current_time() -> (shown: Result<String, ClockError>)
    ensures
        shown matches Ok(s) ==> exists|seconds: i64|
            0 <= seconds && s@ == #[trigger] timestamp_text(civil(seconds as int)),
{
    let reading = read_wall_clock();
    let shown = current_wall_clock_display(reading);
    proof {
        if let Ok(seconds) = reading {
            assert(clamp_seconds(seconds as int) == seconds);
        }
    }
    shown
}

/// The reading that the system clock's answer stands for. The answer is the
/// count of whole seconds from the Unix epoch to now, or none where the
/// clock stands before the epoch. A count is the reading itself, held at
/// `i64::MAX` where it is larger; no count is `ClockUnavailable`.
pub open spec fn reading_of(elapsed: Option<u64>) -> Result<i64, ClockError> {
    match elapsed {
        Some(seconds) => if seconds > i64::MAX {
            Ok(i64::MAX)
        } else {
            Ok(seconds as i64)
        },
        None => Err(ClockError::ClockUnavailable),
    }
}

/// Turns the system clock's answer into a reading: the count of whole
/// seconds since the Unix epoch, held at `i64::MAX`, or `ClockUnavailable`
/// where the clock gave none.
pub fn reading_from_elapsed(elapsed: Option<u64>) -> (reading: Result<i64, ClockError>)
    ensures
        reading == reading_of(elapsed),
        reading matches Ok(seconds) ==> seconds >= 0,
        reading.is_ok() == elapsed.is_some(),
{
    match elapsed {
        Some(seconds) => {
            if seconds > i64::MAX as u64 {
                Ok(i64::MAX)
            } else {
                Ok(seconds as i64)
            }
        },
        None => Err(ClockError::ClockUnavailable),
    }
}

} // verus!
