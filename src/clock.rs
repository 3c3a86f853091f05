//! The monotonic clock and the optimisation barrier that measurement uses.
use std::time::{Duration, Instant};
use vstd::prelude::*;

verus! {

/// `std::time::Instant`, a reading of the monotonic clock.
#[verifier::external_type_specification]
#[verifier::external_body]
pub struct ExInstant(Instant);

/// Relies on `Instant::now`: reads the monotonic clock. Nothing is known of
/// the value read.
pub assume_specification[ Instant::now ]() -> Instant;

/// Relies on `Instant::elapsed`: the time passed since the reading. Nothing
/// is known of it but its type.
pub assume_specification[ Instant::elapsed ](i: &Instant) -> Duration;

/// Relies on `Duration::as_nanos`: the whole nanoseconds of a duration.
pub assume_specification[ Duration::as_nanos ](d: &Duration) -> u128;

/// Relies on `std::hint::black_box`: an identity function that the
/// optimiser treats as an opaque use of its argument.
pub assume_specification<T>[ core::hint::black_box::<T> ](dummy: T) -> (r: T)
    ensures
        r == dummy,
;

} // verus!
