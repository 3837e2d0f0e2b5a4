//! The engine's clock. Instants are opaque readings of the monotonic clock;
//! the engine works in whole milliseconds elapsed since its own epoch.

use vstd::prelude::*;

verus! {

#[verifier::external_type_specification]
#[verifier::external_body]
pub struct ExInstant(instant::Instant);

/// Relies on instant::Instant::now: an opaque reading of the monotonic
/// clock. The result depends on the clock, so nothing is promised of it.
#[verifier::external_body]
pub(crate) fn instant_now() -> (r: instant::Instant) {
    instant::Instant::now()
}

/// Relies on instant::Instant::elapsed and instant::Duration::as_millis: the
/// time since `epoch`, in whole milliseconds (truncated). The result depends
/// on the clock, so nothing is promised of it.
#[verifier::external_body]
pub(crate) fn elapsed_millis(epoch: &instant::Instant) -> (r: u64) {
    epoch.elapsed().as_millis() as u64
}

} // verus!
