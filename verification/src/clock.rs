//! The time of the system clock, as version 1 needs it.

use vstd::prelude::*;
use crate::backend::elapsed_since_unix_epoch;
use crate::error::ClockError;

verus! {

/// A point in time: whole seconds since 1970-01-01T00:00:00Z and the
/// nanoseconds within the second.
#[derive(Clone, Copy, Debug, PartialEq, Eq)]
pub struct UnixTime {
    pub secs: u64,
    pub nanos: u32,
}

/// The number of 100-nanosecond ticks from 1582-10-15T00:00:00Z, the epoch of
/// the identifiers, to 1970-01-01T00:00:00Z.
pub open spec fn ticks_between_epochs() -> int {
    0x01B2_1DD2_1381_4000
}

/// The time in 100-nanosecond ticks since 1582-10-15T00:00:00Z.
pub open spec fn gregorian_ticks(time: UnixTime) -> int {
    ticks_between_epochs() + time.secs as int * 10_000_000 + time.nanos as int / 100
}

/// What a reading of the clock comes to: the time, where the clock gave the
/// seconds and nanoseconds since 1970-01-01T00:00:00Z, and the failure, where
/// it gave none.
pub open spec fn reading_outcome(elapsed: Option<(u64, u32)>) -> Result<UnixTime, ClockError> {
    match elapsed {
        Some((secs, nanos)) => Ok(UnixTime { secs, nanos }),
        None => Err(ClockError),
    }
}

/// Makes a point in time of what the clock gave, and a failure of a clock that
/// gave nothing. No other time is put in the place of a missing one.
pub fn clock_reading(elapsed: Option<(u64, u32)>) -> (result: Result<UnixTime, ClockError>)
    ensures
        result == reading_outcome(elapsed),
{
    match elapsed {
        Some((secs, nanos)) => Ok(UnixTime { secs, nanos }),
        None => Err(ClockError),
    }
}

/// Reads the system clock. The clock is unavailable where it stands before
/// 1970-01-01T00:00:00Z; no other time is put in its place.
pub fn read_clock() -> (result: Result<UnixTime, ClockError>)
    ensures
        result matches Ok(time) ==> time.nanos < 1_000_000_000,
{
    let elapsed: Option<(u64, u32)> = match elapsed_since_unix_epoch() {
        Some(duration) => Some((duration.as_secs(), duration.subsec_nanos())),
        None => None,
    };
    clock_reading(elapsed)
}

} // verus!
