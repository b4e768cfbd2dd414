//! Durations and clock readings: what is taken on trust about `std::time`.

use vstd::prelude::*;
use std::time::Duration;
use std::time::Instant;

verus! {

/// A reading of the monotonic clock.
#[verifier::external_type_specification]
#[verifier::external_body]
pub struct ExInstant(Instant);

/// The length of a duration in whole nanoseconds.
pub uninterp spec fn duration_nanos(d: Duration) -> u128;

/// The nanoseconds that passed from `earlier` to `later`; zero where
/// `earlier` is the later of the two.
pub uninterp spec fn nanos_between(later: Instant, earlier: Instant) -> u128;

/// `Duration::as_nanos`: the total number of nanoseconds in the duration.
pub assume_specification[ Duration::as_nanos ](d: &Duration) -> (r: u128)
    ensures
        r == duration_nanos(*d),
;

/// `Duration::as_micros`: the total number of whole microseconds in the
/// duration, that is its nanoseconds divided by a thousand, rounded down.
pub assume_specification[ Duration::as_micros ](d: &Duration) -> (r: u128)
    ensures
        r == duration_nanos(*d) / 1000,
;

/// `Duration::from_secs`: a duration of that many whole seconds.
pub assume_specification[ Duration::from_secs ](secs: u64) -> (r: Duration)
    ensures
        duration_nanos(r) == secs * 1_000_000_000,
;

/// `Instant::now`: the current reading of the clock. Nothing is promised
/// of it: two readings may differ.
pub assume_specification[ Instant::now ]() -> (r: Instant)
;

/// `Instant::saturating_duration_since`: the time that passed from
/// `earlier` to the later reading, or zero if `earlier` is in fact the
/// later one. It depends on the two readings alone.
pub assume_specification[ Instant::saturating_duration_since ](
    later: &Instant,
    earlier: Instant,
) -> (r: Duration)
    ensures
        duration_nanos(r) == nanos_between(*later, earlier),
;

} // verus!
