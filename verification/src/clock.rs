//! Host clock access used by the timer devices.
//!
//! The values handed out here depend on when they are read, so no contract
//! says what they are; the devices take them as plain arguments in their
//! verified `*_at` entry points.
use vstd::prelude::*;

verus! {

#[verifier::external_type_specification]
#[verifier::external_body]
pub struct ExInstant(std::time::Instant);

/// Calls `std::time::Instant::now`: the current monotonic instant. Nothing is
/// claimed of the value.
#[verifier::external_body]
pub(crate) fn instant_now() -> std::time::Instant {
    std::time::Instant::now()
}

/// Calls `std::time::Instant::elapsed` and converts the duration to whole
/// nanoseconds (truncated to 64 bits). Nothing is claimed of the value.
#[verifier::external_body]
pub(crate) fn elapsed_nanos(start: &std::time::Instant) -> u64 {
    start.elapsed().as_nanos() as u64
}

/// Calls `std::time::SystemTime::now` and returns the whole seconds since the
/// Unix epoch (0 for a clock set before the epoch). Nothing is claimed of the value.
#[verifier::external_body]
pub(crate) fn unix_time_secs() -> u64 {
    std::time::SystemTime::now().duration_since(std::time::UNIX_EPOCH).unwrap_or_default().as_secs()
}

/// Calls `chrono::Utc::now` and returns the milliseconds since the Unix
/// epoch. Nothing is claimed of the value.
#[verifier::external_body]
pub(crate) fn utc_now_millis() -> i64 {
    chrono::Utc::now().timestamp_millis()
}

} // verus!
