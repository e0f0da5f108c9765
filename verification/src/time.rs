//! Lengths of time.

use std::time::Duration;
use vstd::prelude::*;

verus! {

/// The nanoseconds of a second.
pub const NANOS_PER_SEC: u64 = 1_000_000_000;

/// The length of a duration in nanoseconds.
pub uninterp spec fn duration_nanos(duration: Duration) -> nat;

/// The text that `std` writes for a duration of so many nanoseconds, unit
/// included.
pub uninterp spec fn duration_debug(nanos: nat) -> Seq<char>;

/// `Duration::from_secs`: a duration of `secs` whole seconds.
pub assume_specification [std::time::Duration::from_secs] (secs: u64) -> (duration: Duration)
    ensures
        duration_nanos(duration) == secs * NANOS_PER_SEC,
;

/// `Duration::as_nanos`, under the name [`duration_nanos`].
pub assume_specification [std::time::Duration::as_nanos] (duration: &Duration) -> (nanos: u128)
    ensures
        nanos == duration_nanos(*duration),
;

/// `Debug` of `Duration`, under the name [`duration_debug`]: what it writes
/// depends on the length of the duration alone.
#[verifier::external_body]
pub(crate) fn duration_text(duration: Duration) -> (text: String)
    ensures
        text@ == duration_debug(duration_nanos(duration)),
{
    format!("{:?}", duration)
}

/// Whether `elapsed` is longer than `limit`.
pub(crate) fn longer_than(elapsed: Duration, limit: Duration) -> (longer: bool)
    ensures
        longer == (duration_nanos(elapsed) > duration_nanos(limit)),
{
    elapsed.as_nanos() > limit.as_nanos()
}

} // verus!
