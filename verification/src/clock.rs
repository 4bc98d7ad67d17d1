//! The clock by which a breaker tells the time when it is not given one.

use std::time::{Duration, Instant};
use vstd::prelude::*;

verus! {

/// `std::time::Instant`, a moment on the machine's monotonic clock. Nothing
/// inside it is visible here.
#[verifier::external_type_specification]
#[verifier::external_body]
pub struct ExInstant(Instant);

/// `Instant::now` returns the present moment on the machine's monotonic
/// clock. Nothing is claimed of it.
pub assume_specification[ Instant::now ]() -> (instant: Instant);

/// `Instant::elapsed` returns the time that has passed since the instant.
/// Nothing is claimed of it.
pub assume_specification[ Instant::elapsed ](instant: &Instant) -> (elapsed: Duration);

/// `Duration::as_nanos` returns the whole duration in nanoseconds. Nothing is
/// claimed of the number.
pub assume_specification[ Duration::as_nanos ](duration: &Duration) -> (nanos: u128);

/// A clock that counts the nanoseconds since it was started.
pub struct Clock {
    origin: Instant,
}

impl Clock {
    /// A clock that starts now.
    pub fn start() -> Clock {
        Clock { origin: Instant::now() }
    }

    /// The nanoseconds since the clock was started; `u64::MAX` if they no
    /// longer fit in 64 bits. The reading depends on the machine's clock, so
    /// nothing is promised of it.
    pub fn now(&self) -> u64 {
        let elapsed = self.origin.elapsed();
        let nanos: u128 = elapsed.as_nanos();
        Clock::reading_of(nanos)
    }

    /// The reading for a number of nanoseconds since the start: the number
    /// itself where it fits in 64 bits, `u64::MAX` where it does not.
    pub open spec fn reading(nanos: u128) -> u64 {
        if nanos > u64::MAX {
            u64::MAX
        } else {
            nanos as u64
        }
    }

    /// The reading that the clock gives once `nanos` nanoseconds have passed
    /// since its start.
    pub fn reading_of(nanos: u128) -> (time: u64)
        ensures
            time == Clock::reading(nanos),
    {
        if nanos > 0xffff_ffff_ffff_ffff {
            u64::MAX
        } else {
            nanos as u64
        }
    }
}

} // verus!
