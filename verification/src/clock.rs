//! Reading the wall clock.

use std::time::SystemTime;
use std::time::SystemTimeError;
use vstd::prelude::*;

verus! {

/// `std::time::SystemTime`, a moment on the machine's clock.
#[verifier::external_type_specification]
#[verifier::external_body]
pub struct ExSystemTime(SystemTime);

/// `std::time::SystemTimeError`, the report that one moment is not after
/// another.
#[verifier::external_type_specification]
#[verifier::external_body]
pub struct ExSystemTimeError(SystemTimeError);

/// `SystemTime::now` hands back the machine's current time; nothing is
/// claimed of the value.
pub assume_specification[ SystemTime::now ]() -> (t: SystemTime);

/// `SystemTime::duration_since` measures the time from `earlier` to `t`, or
/// fails when `earlier` is the later of the two; nothing is claimed of which.
pub assume_specification[ SystemTime::duration_since ](t: &SystemTime, earlier: SystemTime) -> (r:
    Result<core::time::Duration, SystemTimeError>);

/// The whole seconds of a duration, as `Duration::as_secs` gives them.
pub uninterp spec fn whole_seconds(duration: core::time::Duration) -> u64;

/// `Duration::as_secs` gives the whole seconds of a duration, which depend
/// on the duration alone.
pub assume_specification[ core::time::Duration::as_secs ](d: &core::time::Duration) -> (s: u64)
    ensures
        s == whole_seconds(*d),
;

/// The start of the Unix epoch, `SystemTime::UNIX_EPOCH`.
#[verifier::external_body]
fn unix_epoch() -> (t: SystemTime) {
    SystemTime::UNIX_EPOCH
}

/// The time stamp for what the clock measured since the Unix epoch: the
/// whole seconds of the time measured, or zero where the clock reported
/// that it stands before the epoch.
pub open spec fn seconds_measured(elapsed: Result<core::time::Duration, SystemTimeError>) -> u64 {
    match elapsed {
        Ok(duration) => whole_seconds(duration),
        Err(_) => 0,
    }
}

/// Turns what the clock measured since the Unix epoch into a time stamp.
pub fn time_stamp(elapsed: Result<core::time::Duration, SystemTimeError>) -> (s: u64)
    ensures
        s == seconds_measured(elapsed),
{
    match elapsed {
        Ok(duration) => duration.as_secs(),
        Err(_) => 0,
    }
}

/// Whole seconds elapsed since the Unix epoch, or zero when the clock is set
/// to a moment before it. The clock decides what comes back, so nothing is
/// promised of the value: see [`time_stamp`] for what is made of each
/// answer of the clock.
pub(crate) fn unix_seconds() -> (s: u64) {
    let now = SystemTime::now();
    time_stamp(now.duration_since(unix_epoch()))
}

} // verus!
