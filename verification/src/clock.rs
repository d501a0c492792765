//! The monotonic clock that direction changes are timed against.
//!
//! Nothing here is proved: these declarations tell the verifier which parts of
//! `std::time` the library relies on, and what it takes for granted about them.

use std::time::{Duration, Instant};
use vstd::prelude::*;

verus! {

/// `std::time::Instant`, a reading of the monotonic clock. Its inside is hidden from
/// the verifier; the library only stores readings and measures the time between two.
#[verifier::external_type_specification]
#[verifier::external_body]
pub struct ExInstant(Instant);

/// The span from `earlier` to `later` as `Instant::duration_since` measures it
/// (zero when `earlier` is in fact the later reading).
pub uninterp spec fn span_between(later: Instant, earlier: Instant) -> Duration;

/// The whole milliseconds in a span, as `Duration::as_millis` counts them.
pub uninterp spec fn whole_millis(span: Duration) -> u128;

/// `Instant::now` reads the clock. Nothing is assumed about the reading.
pub assume_specification[ Instant::now ]() -> (now: Instant);

/// `Instant::duration_since` subtracts two readings, giving a zero span rather than
/// failing when `earlier` is the later one. The only assumption is that the span
/// depends on the two readings alone, so it can be given a name.
pub assume_specification[ Instant::duration_since ](later: &Instant, earlier: Instant) -> (span: Duration)
    ensures
        span == span_between(*later, earlier),
;

/// `Duration::as_millis` converts a span to whole milliseconds. The only assumption
/// is that the count depends on the span alone, so it can be given a name.
pub assume_specification[ Duration::as_millis ](span: &Duration) -> (millis: u128)
    ensures
        millis == whole_millis(*span),
;

/// Whole milliseconds from `earlier` to `later`.
pub open spec fn millis_between(later: Instant, earlier: Instant) -> u128 {
    whole_millis(span_between(later, earlier))
}

/// Measures the whole milliseconds from `earlier` to `later`.
pub fn elapsed_millis(later: Instant, earlier: Instant) -> (millis: u128)
    ensures
        millis == millis_between(later, earlier),
{
    later.duration_since(earlier).as_millis()
}

} // verus!
