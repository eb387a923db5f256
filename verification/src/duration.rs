//! What this crate relies on of `std::time::Duration`.
//!
//! A `Duration` is opaque to the verifier. Its length in nanoseconds has a
//! name here, and the four methods of it that the crate calls are given the
//! contracts that the standard library documents for them. None of these
//! contracts is proved.

use std::time::Duration;
use vstd::prelude::*;

verus! {

/// Nanoseconds in a second.
pub const NANOS_PER_SECOND: u64 = 1_000_000_000;

/// Nanoseconds in a microsecond.
pub const NANOS_PER_MICRO: u64 = 1_000;

/// The total number of nanoseconds in a duration: what `Duration::as_nanos` returns.
pub uninterp spec fn nanoseconds(duration: Duration) -> u128;

/// `Duration::as_nanos` returns the total number of nanoseconds in the duration.
pub assume_specification[ Duration::as_nanos ](duration: &Duration) -> (nanos: u128)
    ensures
        nanos == nanoseconds(*duration),
;

/// `Duration::as_secs` returns the whole seconds in the duration; the
/// fractional part is dropped.
pub assume_specification[ Duration::as_secs ](duration: &Duration) -> (seconds: u64)
    ensures
        seconds == nanoseconds(*duration) / (NANOS_PER_SECOND as u128),
;

/// `Duration::from_secs` makes the duration of that many whole seconds.
pub assume_specification[ Duration::from_secs ](seconds: u64) -> (duration: Duration)
    ensures
        nanoseconds(duration) == seconds * NANOS_PER_SECOND,
;

/// `Duration::from_micros` makes the duration of that many microseconds.
pub assume_specification[ Duration::from_micros ](micros: u64) -> (duration: Duration)
    ensures
        nanoseconds(duration) == micros * NANOS_PER_MICRO,
;

} // verus!
