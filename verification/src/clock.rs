//! Readings of the clock, and the calendar rendering of a timestamp.

use std::time::Duration;
use vstd::prelude::*;
use crate::error::StorageError;

verus! {

/// The calendar rendering of the instant `secs` seconds after the epoch, in
/// universal time: `None` where the instant lies outside the years the
/// calendar covers.
///
/// Trusted: the name stands for what `chrono` computes, see
/// [`utc_rendering`]. The rendering depends on `secs` alone: universal time
/// has no zone rules and the format no locale.
pub uninterp spec fn utc_text(secs: i64) -> Option<Seq<char>>;

/// Renders the instant `secs` seconds after the epoch.
///
/// Trusted: calls `chrono::DateTime::<Utc>::from_timestamp(secs, 0)` and,
/// where that yields a value, its `Display` impl. The contract gives the
/// result its name and claims nothing else of it.
#[verifier::external_body]
pub(crate) fn utc_rendering(secs: i64) -> (text: Option<String>)
    ensures
        match text {
            Some(s) => utc_text(secs) == Some(s@),
            None => utc_text(secs) is None,
        },
{
    match chrono::DateTime::<chrono::Utc>::from_timestamp(secs, 0) {
        Some(instant) => Some(instant.to_string()),
        None => None,
    }
}

/// Reads the time that has passed since the epoch; `None` on a machine
/// whose clock stands before 1970.
///
/// Trusted: calls `std::time::SystemTime::elapsed` on `UNIX_EPOCH`. Nothing
/// is claimed of the reading.
#[verifier::external_body]
pub(crate) fn since_epoch() -> (elapsed: Option<Duration>) {
    match std::time::UNIX_EPOCH.elapsed() {
        Ok(since) => Some(since),
        Err(_) => None,
    }
}

/// Trusted: `Duration::as_millis` gives the whole milliseconds of a
/// duration. Nothing is claimed of the number.
pub assume_specification[ Duration::as_millis ](duration: &Duration) -> (millis: u128);

/// Reads the clock in milliseconds since the epoch; `None` on a machine
/// whose clock stands before 1970.
pub(crate) fn epoch_millis() -> (millis: Option<u128>) {
    match since_epoch() {
        Some(elapsed) => Some(elapsed.as_millis()),
        None => None,
    }
}

/// The timestamp that stands for a clock reading: the reading itself where
/// it fits the 64-bit column of a row.
pub open spec fn stamp_for(reading: Option<u128>) -> Option<i64> {
    match reading {
        Some(millis) if millis <= i64::MAX => Some(millis as i64),
        _ => None,
    }
}

/// Turns a clock reading into the timestamp of a row.
pub fn stamp_of(reading: Option<u128>) -> (stamp: Option<i64>)
    ensures
        stamp == stamp_for(reading),
{
    match reading {
        Some(millis) => {
            if millis <= 0x7fff_ffff_ffff_ffffu128 {
                Some(millis as i64)
            } else {
                None
            }
        },
        None => None,
    }
}

/// What a clock reading gives to an operation that needs the time: the
/// timestamp that stands for the reading, or `StorageFault` where the clock
/// gave no reading or one that no row can hold.
pub open spec fn reading_stamp(reading: Option<u128>) -> Result<i64, StorageError> {
    match stamp_for(reading) {
        Some(stamp) => Ok(stamp),
        None => Err(StorageError::StorageFault),
    }
}

/// Turns a clock reading into the timestamp of a row, or into the fault of
/// an operation that cannot go on without the time.
pub fn stamp_or_fault(reading: Option<u128>) -> (stamp: Result<i64, StorageError>)
    ensures
        stamp == reading_stamp(reading),
{
    match stamp_of(reading) {
        Some(stamp) => Ok(stamp),
        None => Err(StorageError::StorageFault),
    }
}

/// The whole seconds of a timestamp in milliseconds, rounded towards the
/// past.
pub open spec fn seconds_of(millis: i64) -> i64 {
    (millis as int / 1000) as i64
}

/// Turns a timestamp in milliseconds into whole seconds.
pub fn whole_seconds(millis: i64) -> (secs: i64)
    ensures
        secs == seconds_of(millis),
        secs as int == millis as int / 1000,
{
    let quotient: i64 = millis / 1000;
    let rest: i64 = millis % 1000;
    if rest < 0 {
        quotient - 1
    } else {
        quotient
    }
}

} // verus!
