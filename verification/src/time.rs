use vstd::prelude::*;

use embassy_time::Duration;

verus! {

/// `embassy_time::Duration`, a span of timer ticks; the driver only stores it.
#[verifier::external_type_specification]
#[verifier::external_body]
pub struct ExDuration(Duration);

/// What `Duration::from_millis` gives for `ms` milliseconds at the crate's
/// configured tick rate.
pub uninterp spec fn millis_duration(ms: u64) -> Duration;

/// Calls `embassy_time::Duration::from_millis`.  Its result depends on `ms`
/// alone (the tick rate is fixed when the crate is built); the contract
/// names it and claims nothing about the tick count inside.  Its `requires`
/// keeps the multiplication by the tick rate from overflowing.
#[verifier::external_body]
pub(crate) fn duration_from_millis(ms: u64) -> (d: Duration)
    requires
        ms <= 1_000_000,
    ensures
        d == millis_duration(ms),
{
    Duration::from_millis(ms)
}

} // verus!
