//! Conversions between wall-clock time and millisecond timestamps.
use std::time::{Duration, SystemTime, UNIX_EPOCH};
use vstd::prelude::*;

use crate::radix::word_modulus;

verus! {

#[verifier::external_type_specification]
#[verifier::external_body]
pub struct ExSystemTime(std::time::SystemTime);

/// The largest timestamp that `timestamp_to_system_time` takes: about the
/// year 30,000, below what `SystemTime` can hold on every platform.
pub const SYSTEM_TIME_MILLIS_LIMIT: u64 = 900_000_000_000_000;

/// Relies on `SystemTime::now`: the current wall-clock time, of which
/// nothing is known.
pub assume_specification[ SystemTime::now ]() -> SystemTime;

/// What `SystemTime::duration_since(UNIX_EPOCH)` gives for `system_time`,
/// in whole milliseconds by `Duration::as_millis`; `None` for an instant
/// before the epoch.
pub uninterp spec fn millis_of(system_time: SystemTime) -> Option<u128>;

/// The instant `UNIX_EPOCH + Duration::from_millis(millis)`.
pub uninterp spec fn instant_of(millis: u64) -> SystemTime;

/// Relies on `SystemTime::duration_since` from `UNIX_EPOCH`: an error for an
/// instant before the epoch, else the time since the epoch, which
/// `Duration::as_millis` turns into whole milliseconds. The result depends
/// on the instant alone.
#[verifier::external_body]
fn millis_since_epoch(system_time: &SystemTime) -> (r: Option<u128>)
    ensures
        r == millis_of(*system_time),
{
    match system_time.duration_since(UNIX_EPOCH) {
        Ok(elapsed) => Some(elapsed.as_millis()),
        Err(_) => None,
    }
}

/// Relies on `SystemTime + Duration` from `UNIX_EPOCH`, with
/// `Duration::from_millis(millis)`: the addition panics only past what
/// `SystemTime` can hold, which `requires` leaves out.
#[verifier::external_body]
fn epoch_plus_millis(millis: u64) -> (r: SystemTime)
    requires
        millis <= SYSTEM_TIME_MILLIS_LIMIT,
    ensures
        r == instant_of(millis),
{
    UNIX_EPOCH + Duration::from_millis(millis)
}

/// The timestamp for `millis` milliseconds: the value cut to the width of
/// `usize`.
pub open spec fn timestamp_of_millis(millis: u128) -> usize {
    (millis as int % word_modulus()) as usize
}

/// The timestamp for an elapsed time in milliseconds, cut to the width of
/// `usize`.
pub fn millis_to_timestamp(millis: u128) -> (r: usize)
    ensures
        r == timestamp_of_millis(millis),
{
    let modulus: u128 = usize::MAX as u128 + 1;
    (millis % modulus) as usize
}

/// The timestamp of `system_time`, or `None` for an instant before the
/// epoch.
pub open spec fn timestamp_since_epoch_spec(system_time: SystemTime) -> Option<usize> {
    match millis_of(system_time) {
        Some(millis) => Some(timestamp_of_millis(millis)),
        None => None,
    }
}

/// The whole milliseconds from the Unix epoch to `system_time`, cut to the
/// width of `usize`, or `None` for an instant before the epoch.
pub(crate) fn timestamp_since_epoch(system_time: &SystemTime) -> (r: Option<usize>)
    ensures
        r == timestamp_since_epoch_spec(*system_time),
{
    match millis_since_epoch(system_time) {
        Some(millis) => Some(millis_to_timestamp(millis)),
        None => None,
    }
}

/// Converts a `SystemTime` to a timestamp in whole milliseconds since the
/// Unix epoch, dropping the rest; an instant before the epoch gives 0.
pub fn system_time_to_timestamp(system_time: SystemTime) -> (r: usize)
    ensures
        r == match millis_of(system_time) {
            Some(millis) => timestamp_of_millis(millis),
            None => 0,
        },
{
    match timestamp_since_epoch(&system_time) {
        Some(timestamp) => timestamp,
        None => 0,
    }
}

/// Converts a timestamp in milliseconds since the Unix epoch to a
/// `SystemTime`.
pub fn timestamp_to_system_time(timestamp: usize) -> (r: SystemTime)
    requires
        timestamp <= SYSTEM_TIME_MILLIS_LIMIT,
    ensures
        r == instant_of(timestamp as u64),
{
    epoch_plus_millis(timestamp as u64)
}

/// The current time as a timestamp.
pub(crate) fn now_timestamp() -> (r: usize) {
    system_time_to_timestamp(SystemTime::now())
}

} // verus!
