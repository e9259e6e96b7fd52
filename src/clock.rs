//! Durations and instants, as the rest of the library speaks of them.
use std::time::{Duration, Instant};
use vstd::prelude::*;

verus! {

#[verifier::external_type_specification]
#[verifier::external_body]
pub struct ExInstant(Instant);

/// What `Duration::from_millis` builds from a count of milliseconds.
pub uninterp spec fn duration_of_millis(ms: u64) -> Duration;

/// The whole microseconds a duration spans, as `Duration::as_micros` counts them.
pub uninterp spec fn micros_of(d: Duration) -> u128;

/// Relies on `Duration::from_millis`: the value depends on the count alone, and
/// it spans `ms * 1000` microseconds as `Duration::as_micros` counts them.
#[verifier::external_body]
pub(crate) fn millis(ms: u64) -> (r: Duration)
    ensures
        r == duration_of_millis(ms),
        micros_of(r) == ms as u128 * 1000,
{
    Duration::from_millis(ms)
}

/// Relies on `Duration::as_micros`: the count depends on the duration alone.
#[verifier::external_body]
pub(crate) fn as_micros(d: &Duration) -> (r: u128)
    ensures
        r == micros_of(*d),
{
    d.as_micros()
}

/// Relies on `Instant::now`: the current instant; nothing is known of its value.
#[verifier::external_body]
pub(crate) fn now() -> Instant {
    Instant::now()
}

/// Relies on `Instant::elapsed`: the time passed since `i`; nothing is known of its value.
#[verifier::external_body]
pub(crate) fn elapsed_since(i: &Instant) -> Duration {
    i.elapsed()
}

} // verus!
