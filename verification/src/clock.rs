//! The clocks of the machine: the wall clock, read through `chrono`, and the
//! monotonic clock, read through `tokio`.
//!
//! Nothing is promised of a reading: whoever asks states what holds whatever
//! the clock said.

use vstd::prelude::*;

verus! {

#[verifier::external_type_specification]
#[verifier::external_body]
pub struct ExInstant(tokio::time::Instant);

/// Calls `tokio::time::Instant::now`: a point on the monotonic clock. Trusted,
/// with nothing claimed of the point.
#[verifier::external_body]
pub(crate) fn monotonic_now() -> tokio::time::Instant {
    tokio::time::Instant::now()
}

/// Calls `tokio::time::Instant::elapsed`, which reads the monotonic clock, and
/// gives the whole milliseconds that have passed since `origin` (none, where
/// `origin` lies ahead). Trusted, with nothing claimed of the number.
#[verifier::external_body]
pub(crate) fn millis_since(origin: &tokio::time::Instant) -> u128 {
    origin.elapsed().as_millis()
}

/// A span of milliseconds as an instant on a clock that counts in `u64`: the
/// span itself, or the last instant of the clock where the span reaches
/// further.
pub open spec fn instant_of(elapsed: u128) -> u64 {
    if elapsed > u64::MAX {
        u64::MAX
    } else {
        elapsed as u64
    }
}

/// Turns a span of milliseconds into an instant of the clock.
pub fn to_instant(elapsed: u128) -> (instant: u64)
    ensures
        instant == instant_of(elapsed),
{
    if elapsed > u64::MAX as u128 {
        u64::MAX
    } else {
        elapsed as u64
    }
}

/// Calls `chrono::Utc::now` and `timestamp_millis`: the milliseconds that have
/// passed since the start of 1970, as the system clock has it. Trusted, with
/// nothing claimed of the number. `chrono` gives up on a clock that stands
/// before 1970.
#[verifier::external_body]
pub(crate) fn wall_clock_millis() -> i64 {
    chrono::Utc::now().timestamp_millis()
}

/// Calls `chrono::Local::now` and `to_rfc2822`: the local date and time in the
/// form `Tue, 1 Jul 2003 10:52:37 +0200`. Trusted, with nothing claimed of the
/// text. `chrono` gives up on a clock that stands before 1970 or in a year of
/// more than four digits.
#[verifier::external_body]
pub(crate) fn local_timestamp() -> String {
    chrono::Local::now().to_rfc2822()
}

} // verus!
