use vstd::prelude::*;

use crate::siem::forwarder::{valid_instant, MAX_INSTANT_NANOS};

verus! {

/// `std::time::SystemTime`, declared as an opaque type: a clock reading is
/// only handed from one clock wrapper to the other.
#[verifier::external_type_specification]
#[verifier::external_body]
pub struct ExSystemTime(std::time::SystemTime);

/// Reads the system clock through `std::time::SystemTime::now`. The reading
/// depends on the machine and the moment, so nothing is claimed of it.
#[verifier::external_body]
fn system_time_now() -> (t: std::time::SystemTime) {
    std::time::SystemTime::now()
}

/// The time from the Unix epoch to `t`, in nanoseconds, through
/// `SystemTime::duration_since(UNIX_EPOCH)`; `None` when `t` lies before
/// the epoch. The value depends on the opaque reading, so nothing more is
/// claimed of it.
#[verifier::external_body]
fn nanos_since_unix_epoch(t: &std::time::SystemTime) -> (nanos: Option<u128>) {
    match t.duration_since(std::time::UNIX_EPOCH) {
        Ok(elapsed) => Some(elapsed.as_nanos()),
        Err(_) => None,
    }
}

/// The instant of a clock reading given as nanoseconds since the Unix epoch
/// (`None` for a reading before the epoch): the epoch itself for `None`,
/// otherwise the nanoseconds, capped at the largest representable instant.
pub open spec fn clamped_instant(reading: Option<u128>) -> i128 {
    match reading {
        None => 0,
        Some(nanos) => if nanos > MAX_INSTANT_NANOS { MAX_INSTANT_NANOS } else { nanos as i128 },
    }
}

/// Turns a clock reading (nanoseconds since the Unix epoch, `None` before
/// the epoch) into an instant: see [`clamped_instant`].
pub fn instant_from_reading(reading: Option<u128>) -> (now: i128)
    ensures
        now == clamped_instant(reading),
        valid_instant(now),
        now >= 0,
{
    match reading {
        None => 0,
        Some(nanos) => if nanos > 400000000000000000000u128 {
            MAX_INSTANT_NANOS
        } else {
            nanos as i128
        },
    }
}

/// The current instant in nanoseconds from the Unix epoch, clamped to the
/// representable range; a clock set before the epoch reads as the epoch.
/// What the clock reads is the machine's; the result is the clamped instant
/// of some reading.
pub fn now_unix_nanos() -> (now: i128)
    ensures
        exists|reading: Option<u128>| now == clamped_instant(reading),
        valid_instant(now),
        now >= 0,
{
    let reading = system_time_now();
    let nanos = nanos_since_unix_epoch(&reading);
    let now = instant_from_reading(nanos);
    assert(now == clamped_instant(nanos));
    now
}

} // verus!
