use vstd::prelude::*;

use std::time::{Duration, SystemTime, UNIX_EPOCH};

verus! {

/// `std::time::SystemTime`, a reading of the system clock.
#[verifier::external_type_specification]
#[verifier::external_body]
pub struct ExSystemTime(SystemTime);

/// Reads the system clock with `SystemTime::now`; nothing is promised of the
/// reading.
#[verifier::external_body]
fn system_now() -> SystemTime {
    SystemTime::now()
}

/// `SystemTime::duration_since(UNIX_EPOCH)`, with the error that a clock set
/// before 1970 gives turned into `None`. Nothing is promised of the duration.
#[verifier::external_body]
fn since_unix_epoch(t: &SystemTime) -> Option<Duration> {
    t.duration_since(UNIX_EPOCH).ok()
}

/// `Duration::as_millis`: the whole milliseconds of a duration. The duration
/// is opaque here, so nothing is promised of the number.
#[verifier::external_body]
fn whole_millis(d: &Duration) -> u128 {
    d.as_millis()
}

/// Milliseconds since the Unix epoch as the clock code keeps them: the count
/// cut to 64 bits, or 0 when the clock stands before the epoch.
pub fn epoch_millis_or_zero(elapsed: Option<u128>) -> (millis: u64)
    ensures
        millis == match elapsed {
            Some(m) => m as u64,
            None => 0u64,
        },
{
    match elapsed {
        Some(m) => m as u64,
        None => 0,
    }
}

/// The current time in milliseconds since the Unix epoch (0 when the clock
/// stands before the epoch). It depends on the clock, so nothing more is
/// promised.
pub fn now_millis() -> u64 {
    let now = system_now();
    let elapsed = match since_unix_epoch(&now) {
        Some(duration) => Some(whole_millis(&duration)),
        None => None,
    };
    epoch_millis_or_zero(elapsed)
}

} // verus!
