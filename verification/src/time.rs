//! Durations of transfers on the bus.
use vstd::prelude::*;

use core::time::Duration;

verus! {

/// The duration of `secs` whole seconds and `nanos` additional nanoseconds.
pub uninterp spec fn spec_duration(secs: u64, nanos: u32) -> Duration;

/// Make a duration of `secs` whole seconds and `nanos` additional nanoseconds.
///
/// Calls `core::time::Duration::new`, which panics only when the carry of a nanosecond count of a whole second
/// or more overflows the seconds; the nanoseconds here are below one second, so it always returns.
/// The result is named by [`spec_duration`] of the arguments: `Duration::new` is a function of them alone.
#[verifier::external_body]
pub(crate) fn duration_new(secs: u64, nanos: u32) -> (d: Duration)
    requires
        nanos < 1_000_000_000,
    ensures
        d == spec_duration(secs, nanos),
{
    Duration::new(secs, nanos)
}

/// The duration of `total` nanoseconds.
pub open spec fn spec_duration_of_nanos(total: nat) -> Duration {
    spec_duration((total / 1_000_000_000) as u64, (total % 1_000_000_000) as u32)
}

/// Make a duration of `total` nanoseconds.
pub fn duration_from_nanos(total: u128) -> (d: Duration)
    requires
        total / 1_000_000_000 <= u64::MAX,
    ensures
        d == spec_duration_of_nanos(total as nat),
{
    let secs = (total / 1_000_000_000) as u64;
    let nanos = (total % 1_000_000_000) as u32;
    duration_new(secs, nanos)
}

} // verus!
