//! Readings of the monotonic clock.

use std::time::{Duration, Instant};
use vstd::prelude::*;

verus! {

/// `Instant` of std, a reading of the monotonic clock. Nothing is known of its
/// inside.
#[verifier::external_type_specification]
#[verifier::external_body]
pub struct ExInstant(std::time::Instant);

/// `Instant::now` of std: the current reading of the monotonic clock. Nothing
/// is claimed of the reading.
pub assume_specification[ Instant::now ]() -> (now: Instant)
;

/// `Instant::saturating_duration_since` of std: the time from `earlier` to
/// `later`, or no time at all where `earlier` is the later of the two. Nothing
/// is claimed of the length.
pub assume_specification[ Instant::saturating_duration_since ](later: &Instant, earlier: Instant) -> (gap: Duration)
;

/// `Duration::as_nanos` of std: the length in nanoseconds. Nothing is claimed
/// of the number.
pub assume_specification[ Duration::as_nanos ](length: &Duration) -> (nanos: u128)
;

/// The nanoseconds that have passed on the monotonic clock since `origin`.
pub(crate) fn nanos_since(origin: Instant) -> u128 {
    let now = Instant::now();
    let gap = now.saturating_duration_since(origin);
    gap.as_nanos()
}

} // verus!
