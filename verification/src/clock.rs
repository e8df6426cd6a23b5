//! The monotonic clock that the stopwatches read.
//!
//! The clock is `std::time::Instant`. This module holds everything that is
//! believed of it rather than proved, which is very little: the types of three
//! functions. What a reading of the clock is worth is not stated anywhere, so
//! every function that takes a reading is verified for all readings.

use vstd::prelude::*;

verus! {

/// `std::time::Instant`, a point on the monotonic clock. Nothing inside it is
/// visible to the verifier.
#[verifier::external_type_specification]
#[verifier::external_body]
pub struct ExInstant(std::time::Instant);

/// `Instant::now` returns the clock's present point. Nothing is claimed of it.
pub assume_specification[ std::time::Instant::now ]() -> (t: std::time::Instant);

/// `Instant::elapsed` returns the time from the given point to the present.
/// Nothing is claimed of it.
pub assume_specification[ std::time::Instant::elapsed ](t: &std::time::Instant) -> (d:
    std::time::Duration);

/// `Duration::as_nanos` returns the duration as a count of nanoseconds.
/// Nothing is claimed of the count.
pub assume_specification[ std::time::Duration::as_nanos ](d: &std::time::Duration) -> (n: u128);

/// A clock that counts nanoseconds from the moment it was made.
pub struct Clock {
    origin: std::time::Instant,
}

impl Clock {
    /// A clock whose count starts now.
    pub fn new() -> Clock {
        Clock { origin: std::time::Instant::now() }
    }

    /// The nanoseconds since this clock was made.
    pub fn now(&self) -> u128 {
        let since: std::time::Duration = self.origin.elapsed();
        since.as_nanos()
    }
}

} // verus!
