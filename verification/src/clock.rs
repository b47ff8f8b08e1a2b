//! Reading the wall clock as milliseconds since the Unix epoch.
//!
//! What the clock says is decided outside the program, so nothing is claimed
//! of a reading. What becomes of a reading is decided here:
//! [`stamp_of_reading`] takes the reading as an argument and says which
//! timestamp, if any, comes out of it.

use std::time::{Duration, SystemTimeError, UNIX_EPOCH};
use vstd::prelude::*;

verus! {

/// `std::time::SystemTimeError`, carried as an opaque value.
#[verifier::external_type_specification]
#[verifier::external_body]
pub struct ExSystemTimeError(SystemTimeError);

/// Calls `SystemTime::elapsed` on the Unix epoch: the time from the epoch to
/// the clock's present reading. It fails where the clock is set before the
/// epoch. Nothing is claimed of the result.
#[verifier::external_body]
pub(crate) fn elapsed_since_epoch() -> Result<Duration, SystemTimeError> {
    UNIX_EPOCH.elapsed()
}

/// Calls `Duration::as_millis`. Nothing is claimed of the result.
#[verifier::external_body]
pub(crate) fn whole_millis(elapsed: &Duration) -> u128 {
    elapsed.as_millis()
}

/// The timestamp for a count of milliseconds: its low 64 bits.
pub open spec fn spec_epoch_millis(millis: u128) -> u64 {
    (millis % 0x1_0000_0000_0000_0000) as u64
}

/// Turns a count of milliseconds into a timestamp, keeping the low 64 bits.
pub fn epoch_millis(millis: u128) -> (stamp: u64)
    ensures
        stamp == spec_epoch_millis(millis),
        millis <= u64::MAX ==> stamp == millis,
{
    (millis % 0x1_0000_0000_0000_0000) as u64
}

/// The timestamp that comes out of a reading of the clock. A reading is the
/// count of whole milliseconds since the epoch, or nothing where the clock is
/// set before the epoch; such a reading gives no timestamp.
pub open spec fn spec_stamp(reading: Option<u128>) -> Option<u64> {
    match reading {
        Some(millis) => Some(spec_epoch_millis(millis)),
        None => None,
    }
}

/// Turns a reading of the clock into a timestamp: none for a failed reading,
/// else the low 64 bits of the count.
pub fn stamp_of_reading(reading: Option<u128>) -> (stamp: Option<u64>)
    ensures
        stamp == spec_stamp(reading),
{
    match reading {
        Some(millis) => Some(epoch_millis(millis)),
        None => None,
    }
}

} // verus!
