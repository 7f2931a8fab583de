use vstd::prelude::*;

verus! {

/// The monotonic clock of std, carried through as an opaque value.
#[verifier::external_type_specification]
#[verifier::external_body]
pub struct ExInstant(std::time::Instant);

/// Relies on `Instant::now`: the current reading of the monotonic clock.
/// Nothing is promised of its value.
pub assume_specification[ std::time::Instant::now ]() -> std::time::Instant;

/// Relies on `Instant::elapsed`: the time since `origin` was read.
/// Nothing is promised of its value.
pub assume_specification[ std::time::Instant::elapsed ](origin: &std::time::Instant) -> core::time::Duration;

/// Relies on `Duration::as_nanos`: the whole number of nanoseconds in a duration.
pub assume_specification[ core::time::Duration::as_nanos ](d: &core::time::Duration) -> u128;

/// Nanoseconds since `origin`, saturating at `u64::MAX` (about 584 years).
pub fn nanos_since(origin: &std::time::Instant) -> u64 {
    let elapsed = origin.elapsed();
    let nanos = elapsed.as_nanos();
    if nanos > u64::MAX as u128 {
        u64::MAX
    } else {
        nanos as u64
    }
}

} // verus!
