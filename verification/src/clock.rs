//! The clock capability, and the clock of the platform.

use crate::time::{Duration, Instant};
use std::sync::Arc;
use vstd::prelude::*;

verus! {

/// Something that can be asked for the current instant.
///
/// A clock may change between two readings, through a handle that someone
/// else holds, so nothing ties one reading to the next. What an
/// implementation can promise of every reading it states in `reports`.
pub trait Clock {
    /// Whether `t` is an instant that this clock can report. A clock that
    /// says nothing here can report any instant.
    open spec fn reports(&self, t: Instant) -> bool {
        true
    }

    /// The current instant. Reading a clock changes nothing.
    fn now(&self) -> (t: Instant)
        ensures
            self.reports(t),
    ;
}

/// A shared handle to a clock is a clock: it reads the clock behind it.
impl<C: Clock> Clock for Arc<C> {
    open spec fn reports(&self, t: Instant) -> bool {
        (**self).reports(t)
    }

    fn now(&self) -> (t: Instant) {
        (**self).now()
    }
}

/// `std::time::Instant`, a reading of the monotonic clock of the platform.
/// It is carried through as an opaque value: nothing is known of what is
/// inside.
#[verifier::external_type_specification]
#[verifier::external_body]
pub struct ExPlatformInstant(std::time::Instant);

/// Calls `std::time::Instant::now`, which reads the monotonic clock of the
/// platform. Nothing is claimed of the reading.
#[verifier::external_body]
fn platform_now() -> std::time::Instant {
    std::time::Instant::now()
}

/// Calls `std::time::Instant::elapsed`, which gives the time that has passed
/// since `origin` was read. Nothing is claimed of the span.
#[verifier::external_body]
fn elapsed_since(origin: &std::time::Instant) -> core::time::Duration {
    origin.elapsed()
}

/// Calls `core::time::Duration::as_secs`, which gives the whole seconds of a
/// span of the standard library. Nothing is claimed of the number.
#[verifier::external_body]
fn whole_secs_of(span: &core::time::Duration) -> u64 {
    span.as_secs()
}

/// Calls `core::time::Duration::subsec_nanos`, which gives the fraction of a
/// second in a span of the standard library, in nanoseconds. The standard
/// library documents it as always less than one second, and that is all
/// that is claimed.
#[verifier::external_body]
fn subsec_nanos_of(span: &core::time::Duration) -> (nanos: u32)
    ensures
        nanos < 1_000_000_000,
{
    span.subsec_nanos()
}

/// The monotonic clock of the platform.
///
/// Its timeline starts when the clock is made: `now` reports the time that
/// has passed since then. Copies of one clock share that origin, so their
/// readings lie on one timeline. The platform decides what time it is, so
/// the clock promises nothing of a reading: it `reports` any instant.
#[derive(Clone, Copy, Debug)]
pub struct SystemClock {
    origin: std::time::Instant,
}

impl SystemClock {
    /// A clock whose timeline starts now.
    pub fn new() -> (clock: SystemClock) {
        SystemClock { origin: platform_now() }
    }
}

impl Clock for SystemClock {
    fn now(&self) -> (t: Instant) {
        let elapsed = elapsed_since(&self.origin);
        let secs: u64 = whole_secs_of(&elapsed);
        let nanos: u32 = subsec_nanos_of(&elapsed);
        Instant::after_origin(Duration::new(secs, nanos))
    }
}

} // verus!
