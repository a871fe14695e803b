//! Wall-clock time, read through the standard library.

use vstd::prelude::*;

use std::time::SystemTime;
use core::time::Duration;

verus! {

#[verifier::external_type_specification]
#[verifier::external_body]
pub struct ExSystemTime(SystemTime);

/// Calls `SystemTime::now`. The current time depends on the machine and the
/// moment of the call, so nothing is claimed of the result.
#[verifier::external_body]
fn system_now() -> SystemTime {
    SystemTime::now()
}

/// Calls `SystemTime::duration_since(UNIX_EPOCH)` on `t`, mapping the error
/// case (a time before the epoch) to `None`. Nothing is claimed of the value.
#[verifier::external_body]
fn since_unix_epoch(t: &SystemTime) -> Option<Duration> {
    t.duration_since(std::time::UNIX_EPOCH).ok()
}

/// Calls `Duration::as_secs`. Nothing is claimed of the value.
#[verifier::external_body]
fn whole_seconds(d: &Duration) -> u64 {
    d.as_secs()
}

/// The timestamp for a clock reading: its whole seconds since the Unix
/// epoch reinterpreted as `i64`, or 0 for a reading before the epoch
/// (`None`).
pub fn timestamp_of(seconds_since_epoch: Option<u64>) -> (t: i64)
    ensures
        t == match seconds_since_epoch {
            Some(s) => s as i64,
            None => 0,
        },
{
    match seconds_since_epoch {
        Some(s) => {
            #[verifier::truncate]
            let t = s as i64;
            t
        },
        None => 0,
    }
}

/// Seconds since the Unix epoch, or 0 when the clock reads a time before the
/// epoch; the count is reinterpreted as `i64`.
pub fn unix_timestamp() -> i64 {
    let now = system_now();
    let seconds = match since_unix_epoch(&now) {
        Some(d) => Some(whole_seconds(&d)),
        None => None,
    };
    timestamp_of(seconds)
}

} // verus!
