//! The monotonic clock that time-dependent queries read `now` from.
use vstd::prelude::*;

use crate::state::Timestamp;

verus! {

#[verifier::external_type_specification]
#[verifier::external_body]
pub struct ExHostInstant(bevy::utils::Instant);

/// Relies on `bevy::utils::Instant::now`: a reading of the monotonic clock (std's on
/// native targets, the browser's on the web).
#[verifier::external_body]
fn monotonic_now() -> (r: bevy::utils::Instant) {
    bevy::utils::Instant::now()
}

/// Relies on `bevy::utils::Instant::elapsed`: the time since `origin`.
#[verifier::external_body]
fn time_since(origin: &bevy::utils::Instant) -> (r: bevy::utils::Duration) {
    origin.elapsed()
}

/// Relies on `bevy::utils::Duration::as_nanos`: a duration in whole nanoseconds.
#[verifier::external_body]
fn whole_nanos(d: &bevy::utils::Duration) -> (r: u128) {
    d.as_nanos()
}

/// The reading for `nanos` nanoseconds since the origin; past the largest `u64` it
/// stays there.
pub fn saturating_reading(nanos: u128) -> (r: Timestamp)
    ensures
        r.nanos == if nanos > u64::MAX as u128 { u64::MAX } else { nanos as u64 },
{
    if nanos > u64::MAX as u128 {
        Timestamp::from_nanos(u64::MAX)
    } else {
        Timestamp::from_nanos(nanos as u64)
    }
}

/// A monotonic clock whose readings count nanoseconds from the moment it was made.
pub struct Clock {
    origin: bevy::utils::Instant,
}

impl Clock {
    pub fn new() -> (r: Clock) {
        Clock { origin: monotonic_now() }
    }

    /// The current reading.
    pub fn now(&self) -> (r: Timestamp) {
        saturating_reading(whole_nanos(&time_since(&self.origin)))
    }
}

} // verus!
