//! A monotonic clock read as nanoseconds since it was made.

use std::time::Duration;
use std::time::Instant;
use vstd::prelude::*;

verus! {

/// `std::time::Instant`, a point in time that only the standard library can
/// read.
#[verifier::external_type_specification]
#[verifier::external_body]
pub struct ExInstant(std::time::Instant);

/// `Instant::now` of the standard library. Trusted to return; nothing is
/// claimed of the instant.
pub assume_specification[ std::time::Instant::now ]() -> (now: Instant);

/// `Instant::elapsed` of the standard library. Trusted to return; nothing is
/// claimed of the duration.
pub assume_specification[ std::time::Instant::elapsed ](start: &Instant) -> (elapsed: Duration);

/// `Duration::as_nanos` of the standard library. Trusted to return; nothing
/// is claimed of the number.
pub assume_specification[ std::time::Duration::as_nanos ](duration: &Duration) -> (nanos: u128);

/// A clock that counts nanoseconds from the moment it was made.
pub(crate) struct Clock {
    origin: Instant,
}

impl Clock {
    /// A clock that starts now.
    pub(crate) fn new() -> Clock {
        Clock { origin: Instant::now() }
    }

    /// Nanoseconds since the clock was made, `u64::MAX` once they no longer
    /// fit. The reading depends on when the call is made, so no two
    /// readings are related by contract.
    pub(crate) fn now(&self) -> u64 {
        let nanos: u128 = self.origin.elapsed().as_nanos();
        capped_nanos(nanos)
    }
}

/// A count of nanoseconds as a clock reading: the count itself, or
/// `u64::MAX` where it no longer fits.
pub open spec fn capped(nanos: u128) -> u64 {
    if nanos > u64::MAX {
        u64::MAX
    } else {
        nanos as u64
    }
}

/// A count of nanoseconds as a clock reading: the count itself, or
/// `u64::MAX` where it no longer fits.
pub fn capped_nanos(nanos: u128) -> (reading: u64)
    ensures
        reading == capped(nanos),
{
    if nanos > u64::MAX as u128 {
        u64::MAX
    } else {
        nanos as u64
    }
}

/// Nanoseconds from `start` to `now`, or 0 where `now` is the earlier one.
pub open spec fn elapsed_nanos(start: u64, now: u64) -> u64 {
    if now >= start {
        (now - start) as u64
    } else {
        0
    }
}

/// Nanoseconds from `start` to `now`, or 0 where `now` is the earlier one.
pub fn nanos_between(start: u64, now: u64) -> (nanos: u64)
    ensures
        nanos == elapsed_nanos(start, now),
{
    if now >= start {
        now - start
    } else {
        0
    }
}

} // verus!
