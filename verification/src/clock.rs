//! The system clock as a source of candidate numbers.

use std::time::{Duration, SystemTime, SystemTimeError, UNIX_EPOCH};
use vstd::prelude::*;

verus! {

/// `std::time::SystemTime`, carried through as an opaque value.
#[verifier::external_type_specification]
#[verifier::external_body]
pub struct ExSystemTime(SystemTime);

/// `std::time::SystemTimeError`, carried through as an opaque value.
#[verifier::external_type_specification]
#[verifier::external_body]
pub struct ExSystemTimeError(SystemTimeError);

/// `SystemTime::now` reads the system clock; nothing is claimed of the
/// reading.
pub assume_specification[ SystemTime::now ]() -> SystemTime;

/// `SystemTime::duration_since` measures from `earlier` to `time`, and
/// reports an error where `earlier` is the later of the two; nothing is
/// claimed of which it is.
pub assume_specification[ SystemTime::duration_since ](
    time: &SystemTime,
    earlier: SystemTime,
) -> Result<Duration, SystemTimeError>;

/// `SystemTimeError::duration` gives the distance between the two times of
/// a failed measurement; nothing is claimed of it.
pub assume_specification[ SystemTimeError::duration ](error: &SystemTimeError) -> Duration;

/// `Duration::subsec_nanos` gives the part of a duration below one second,
/// in nanoseconds, which is less than one billion.
pub assume_specification[ Duration::subsec_nanos ](duration: &Duration) -> (nanos: u32)
    ensures
        nanos < 1_000_000_000,
;

/// Hands out the constant `std::time::UNIX_EPOCH`; nothing is claimed of
/// it.
#[verifier::external_body]
fn unix_epoch() -> SystemTime {
    UNIX_EPOCH
}

/// One sample of the clock: the nanoseconds within the current second,
/// counted from the Unix epoch. Two calls may give two different samples.
pub fn subsec_nanos_now() -> (nanos: u32)
    ensures
        nanos < 1_000_000_000,
{
    let now = SystemTime::now();
    match now.duration_since(unix_epoch()) {
        Ok(since) => since.subsec_nanos(),
        Err(before) => before.duration().subsec_nanos(),
    }
}

} // verus!
