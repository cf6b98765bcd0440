//! What the library needs to know of `std::time::Duration`.

use std::time::Duration;
use vstd::prelude::*;

verus! {

/// The length of a `Duration` in whole nanoseconds.
pub uninterp spec fn duration_nanos(d: Duration) -> nat;

/// `Duration::as_nanos` returns the total number of nanoseconds that the
/// duration holds. Trusted: nothing here is proved of std; the contract only
/// gives that number its name.
pub assume_specification[ Duration::as_nanos ](d: &Duration) -> (n: u128)
    ensures
        n == duration_nanos(*d),
;

/// `Duration::from_millis` makes a duration of the given number of
/// milliseconds, each of them a million nanoseconds. Trusted.
pub assume_specification[ Duration::from_millis ](millis: u64) -> (d: Duration)
    ensures
        duration_nanos(d) == millis * 1_000_000,
;

} // verus!
