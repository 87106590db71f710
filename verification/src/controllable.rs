//! A clock for tests: it reports a fixed base plus an offset that anyone
//! holding a handle to it can set.
//!
//! The offset lives in an atomic cell, so readings of the shared clock are
//! not tied to one another by any contract: another holder may have advanced
//! it in between. What the clock does is therefore stated twice. [`ClockState`]
//! is the clock as a single owner sees it, with exact contracts, and the laws
//! of this module are proved of it. [`ControllableClock`] is the shared
//! clock: its base and its cell together hold a `ClockState`. It starts with
//! the offset that `ClockState::started_at` gives, an advance stores the
//! offset that `ClockState::advance_by` sets, and a reading is
//! `ClockState::now` of the base and the offset found in the cell.

use crate::clock::Clock;
use crate::time::{group_time_views, Duration, Instant, MAX_NANOS, NANOS_PER_SEC};
use std::sync::atomic::{AtomicU64, Ordering};
use std::sync::Arc;
use vstd::prelude::*;

verus! {

/// What a controllable clock holds between two calls: the base it was made
/// with and the offset that was last set, in whole seconds.
#[derive(Clone, Copy, Debug, PartialEq, Eq, Structural)]
pub struct ClockState {
    pub base: Instant,
    pub offset_secs: u64,
}

impl ClockState {
    /// The state of a clock that was made with `base` and never advanced.
    pub open spec fn spec_started_at(base: Instant) -> ClockState {
        ClockState { base, offset_secs: 0 }
    }

    /// The state after advancing by `d`: the whole seconds of `d` take the
    /// place of the offset, whatever it was.
    pub open spec fn spec_advanced_by(self, d: Duration) -> ClockState {
        ClockState { base: self.base, offset_secs: d.whole_secs() as u64 }
    }

    /// The instant that a clock in this state reports: the base plus the
    /// offset, or the last point of the timeline where the sum lies beyond
    /// it.
    pub open spec fn reading(self) -> Instant {
        match self.base.spec_checked_add(Duration::spec_from_secs(self.offset_secs)) {
            Some(t) => t,
            None => Instant::at(MAX_NANOS as nat),
        }
    }

    /// The state of a clock fixed at `base`, with no offset.
    pub fn started_at(base: Instant) -> (state: ClockState)
        ensures
            state == ClockState::spec_started_at(base),
    {
        ClockState { base, offset_secs: 0 }
    }

    /// Sets the offset to the whole seconds of `d`. The offset is replaced,
    /// not added to: to move a clock further, pass the total.
    pub fn advance_by(&mut self, d: Duration)
        ensures
            *final(self) == old(self).spec_advanced_by(d),
    {
        self.offset_secs = d.as_secs();
    }

    /// The instant that a clock in this state reports.
    pub fn now(&self) -> (t: Instant)
        ensures
            t == self.reading(),
            t@ == if self.base@ + self.offset_secs * NANOS_PER_SEC <= MAX_NANOS {
                self.base@ + self.offset_secs * NANOS_PER_SEC
            } else {
                MAX_NANOS as int
            },
    {
        broadcast use group_time_views;

        match self.base.checked_add(Duration::from_secs(self.offset_secs)) {
            Some(t) => t,
            None => Instant::latest(),
        }
    }
}

/// A clock that reports `base + offset`, where any holder of a handle can
/// set the offset while others read.
pub struct ControllableClock {
    base: Instant,
    offset_secs: AtomicU64,
}

impl ControllableClock {
    /// The instant that the clock was made with. It never changes.
    pub closed spec fn base(&self) -> Instant {
        self.base
    }

    /// A clock fixed at `base`, with no offset, behind a handle that can be
    /// cloned and shared between threads.
    pub fn with_time(base: Instant) -> (clock: Arc<ControllableClock>)
        ensures
            clock.base() == base,
    {
        Arc::new(ControllableClock { base, offset_secs: AtomicU64::new(0) })
    }

    /// Sets the offset to the whole seconds of `d`, for every holder of the
    /// clock. It takes a shared reference: whoever holds a handle can
    /// advance the clock while others read it. The store is sequentially
    /// consistent, so a reading that starts after this call has returned
    /// sees the new offset.
    pub fn advance_by(&self, d: Duration) {
        self.offset_secs.store(d.as_secs(), Ordering::SeqCst);
    }
}

impl Clock for ControllableClock {
    /// A reading is what some state with this clock's base reports: which
    /// offset the cell held is not known to the caller.
    open spec fn reports(&self, t: Instant) -> bool {
        exists|offset_secs: u64| t == (#[trigger] ClockState { base: self.base(), offset_secs }.reading())
    }

    fn now(&self) -> (t: Instant) {
        let state = ClockState { base: self.base, offset_secs: self.offset_secs.load(Ordering::SeqCst) };
        let t = state.now();
        assert(t == ClockState { base: self.base(), offset_secs: state.offset_secs }.reading());
        t
    }
}

/// Until it is advanced, a clock reports the instant it was made with.
pub proof fn lemma_reads_base_until_advanced(base: Instant)
    requires
        base.in_range(),
    ensures
        ClockState::spec_started_at(base).reading() == base,
{
    broadcast use group_time_views;

}

/// After an advance by `d`, a clock reports its base plus the whole seconds
/// of `d`, whatever offset it had before, and its base is what it was. This
/// holds wherever that instant lies on the timeline.
pub proof fn lemma_reads_base_plus_advance(state: ClockState, d: Duration)
    requires
        d.in_range(),
        state.base@ + d.whole_secs() * NANOS_PER_SEC <= MAX_NANOS,
    ensures
        state.spec_advanced_by(d).base == state.base,
        state.base.spec_checked_add(Duration::spec_from_secs(d.whole_secs() as u64)) == Some(
            state.spec_advanced_by(d).reading(),
        ),
        state.spec_advanced_by(d).reading()@ == state.base@ + d.whole_secs() * NANOS_PER_SEC,
{
    broadcast use group_time_views;

}

/// An advance replaces the offset and adds nothing to it: of two advances
/// in a row only the second one counts.
pub proof fn lemma_last_advance_counts(state: ClockState, first: Duration, second: Duration)
    ensures
        state.spec_advanced_by(first).spec_advanced_by(second) == state.spec_advanced_by(second),
{
}

/// A clock that was advanced further reports no earlier instant.
pub proof fn lemma_reading_grows_with_offset(base: Instant, earlier_offset: u64, later_offset: u64)
    requires
        base.in_range(),
        earlier_offset <= later_offset,
    ensures
        (ClockState { base, offset_secs: earlier_offset }).reading()@ <= (ClockState {
            base,
            offset_secs: later_offset,
        }).reading()@,
{
    broadcast use group_time_views;

}

} // verus!
