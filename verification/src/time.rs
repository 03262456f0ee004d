//! Time spans of the timer service, made from microseconds.

use embassy_time::Duration;
use vstd::prelude::*;

verus! {

/// `embassy_time::Duration`, a span of time counted in ticks of the timer
/// service. Nothing of its inside is visible to the proofs.
#[verifier::external_type_specification]
#[verifier::external_body]
pub struct ExDuration(Duration);

/// The span that `embassy_time::Duration::from_micros` makes of `micros`
/// microseconds: that many microseconds in ticks, rounded up, at the tick
/// rate that the timer service is built with. Nothing more is claimed of it
/// than that equal numbers of microseconds give equal spans.
pub uninterp spec fn duration_from_micros(micros: u64) -> Duration;

/// The largest number of microseconds that [`span_of_micros`] takes. Up to
/// here the conversion to ticks stays inside `u64` at every tick rate that
/// the timer service can be built with, the fastest being 5.24288 GHz.
pub const MAX_MICROS: u64 = 1_000_000_000;

/// Calls `embassy_time::Duration::from_micros`. The result is a function of
/// `micros` alone, and the contract names it `duration_from_micros(micros)`.
/// The outside function multiplies `micros` by the tick rate in `u64`, which
/// `requires` keeps from overflowing.
#[verifier::external_body]
pub(crate) fn span_of_micros(micros: u64) -> (span: Duration)
    requires
        micros <= MAX_MICROS,
    ensures
        span == duration_from_micros(micros),
{
    Duration::from_micros(micros)
}

} // verus!
