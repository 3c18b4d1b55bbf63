//! Readings of the machine's clocks. Nothing is known of a reading before it
//! is taken, so none of these carries a promise.

use vstd::prelude::*;

verus! {

/// `std::time::Instant`, a reading of the monotonic clock; carried through
/// as an opaque value.
#[verifier::external_type_specification]
#[verifier::external_body]
pub struct ExInstant(std::time::Instant);

/// `std::time::SystemTime`, a reading of the wall clock; carried through as
/// an opaque value.
#[verifier::external_type_specification]
#[verifier::external_body]
pub struct ExSystemTime(std::time::SystemTime);

/// Calls `std::time::Instant::now`. Nothing is claimed of the reading.
#[verifier::external_body]
pub(crate) fn clock_now() -> std::time::Instant {
    std::time::Instant::now()
}

/// Calls `std::time::Instant::elapsed`. Nothing is claimed of the time that
/// has passed.
#[verifier::external_body]
pub(crate) fn time_since(start: &std::time::Instant) -> std::time::Duration {
    start.elapsed()
}

/// Calls `std::time::Duration::as_nanos`. Nothing is claimed of the number.
#[verifier::external_body]
pub(crate) fn whole_nanos(span: &std::time::Duration) -> u128 {
    span.as_nanos()
}

/// Calls `std::time::SystemTime::now`. Nothing is claimed of the reading.
#[verifier::external_body]
pub(crate) fn wall_clock_now() -> std::time::SystemTime {
    std::time::SystemTime::now()
}

/// Calls `std::time::SystemTime::duration_since` with the Unix epoch, which
/// fails where the reading lies before the epoch; the failure comes back as
/// `None`. Nothing is claimed of the time that has passed.
#[verifier::external_body]
pub(crate) fn since_unix_epoch(reading: &std::time::SystemTime) -> Option<std::time::Duration> {
    match reading.duration_since(std::time::UNIX_EPOCH) {
        Ok(span) => Some(span),
        Err(_) => None,
    }
}

/// A count of nanoseconds as a `u64`, held at the largest `u64` where it
/// would pass it.
pub fn clamp_nanos(nanos: u128) -> (clamped: u64)
    ensures
        clamped == if nanos > u64::MAX {
            u64::MAX
        } else {
            nanos as u64
        },
{
    if nanos > u64::MAX as u128 {
        u64::MAX
    } else {
        nanos as u64
    }
}

/// A reading of the monotonic clock, to measure from.
pub fn start_timer() -> std::time::Instant {
    clock_now()
}

/// Nanoseconds since `start`, as [`clamp_nanos`] holds them.
pub fn nanos_since(start: &std::time::Instant) -> u64 {
    let span = time_since(start);
    clamp_nanos(whole_nanos(&span))
}

} // verus!
