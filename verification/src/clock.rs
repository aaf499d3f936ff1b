//! The seam to the process's monotonic clock.
//!
//! Everything a [`crate::Timer`](crate::timer::Timer) knows about real time
//! enters through the items declared here. A clock reading depends on when it
//! is taken, so nothing can be promised about the value that comes back; the
//! timer's logic therefore lives in verified functions that take an elapsed
//! interval as an argument.

use vstd::prelude::*;

verus! {

/// Declares `std::time::Instant`: an opaque point on the process's monotonic
/// timeline, which never runs backward within a process.
#[verifier::external_type_specification]
#[verifier::external_body]
pub struct ExInstant(std::time::Instant);

/// Relies on `std::time::Instant::now`: a reading of the monotonic clock.
/// The value depends on when the call is made, so nothing is promised of it.
pub assume_specification[ std::time::Instant::now ]() -> std::time::Instant;

/// Relies on `std::time::Instant::elapsed`: the time from `self` to now on
/// the monotonic clock, saturating at zero. The value depends on when the
/// call is made, so nothing is promised of it.
pub assume_specification[ std::time::Instant::elapsed ](
    earlier: &std::time::Instant,
) -> std::time::Duration;

/// Relies on `std::time::Duration::as_nanos`: the duration's whole length in
/// nanoseconds, which always fits in a `u128`.
pub assume_specification[ std::time::Duration::as_nanos ](
    d: &std::time::Duration,
) -> u128;

} // verus!
