//! The monotonic clock, read through `std::time::Instant`.

use vstd::prelude::*;

verus! {

/// `std::time::Instant`, a reading of the monotonic clock, carried opaquely.
#[verifier::external_type_specification]
#[verifier::external_body]
pub struct ExInstant(std::time::Instant);

/// `Instant::now`: the current reading of the monotonic clock. Nothing is stated of
/// it.
#[verifier::external_body]
pub(crate) fn instant_now() -> std::time::Instant {
    std::time::Instant::now()
}

/// `Instant::elapsed` in whole nanoseconds (`Duration::as_nanos`): the time since
/// `start`. It depends on the clock, so nothing is stated of it.
#[verifier::external_body]
pub(crate) fn nanos_since(start: &std::time::Instant) -> u128 {
    start.elapsed().as_nanos()
}

} // verus!
