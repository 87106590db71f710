//! A repository that stamps each value it stores with the reading of its
//! clock.

use crate::clock::Clock;
use crate::controllable::{lemma_reading_grows_with_offset, ClockState};
use crate::time::Instant;
use std::sync::Arc;
use vstd::prelude::*;

verus! {

/// An append-only sequence of `(timestamp, value)` entries, bound to one
/// clock that it shares with whoever else holds a handle to it. The
/// repository only ever reads the clock.
///
/// Its view is the sequence of entries, oldest first.
pub struct TimestampingRepository<C: Clock, T> {
    clock: Arc<C>,
    storage: Vec<(Instant, T)>,
}

impl<C: Clock, T> View for TimestampingRepository<C, T> {
    type V = Seq<(Instant, T)>;

    closed spec fn view(&self) -> Seq<(Instant, T)> {
        self.storage@
    }
}

impl<C: Clock, T> TimestampingRepository<C, T> {
    /// The clock that the repository reads.
    pub closed spec fn clock(&self) -> Arc<C> {
        self.clock
    }

    /// An empty repository bound to `clock`.
    pub fn with_clock(clock: Arc<C>) -> (repository: Self)
        ensures
            repository@ == Seq::<(Instant, T)>::empty(),
            repository.clock() == clock,
    {
        TimestampingRepository { clock, storage: Vec::new() }
    }

    /// Reads the clock and appends `(now, value)`. Exactly one entry is
    /// added, at the end; the entries that were there stay as they were, in
    /// their order.
    pub fn store(&mut self, value: T)
        ensures
            final(self).clock() == old(self).clock(),
            exists|now: Instant| #[trigger]
                old(self).clock().reports(now) && final(self)@ == old(self)@.push((now, value)),
    {
        let now = self.clock.now();
        self.storage.push((now, value));
    }

    /// A copy of all entries, oldest first. The repository is not changed.
    pub fn all_stored(&self) -> (entries: Vec<(Instant, T)>) where T: Copy
        ensures
            entries@ == self@,
    {
        let mut entries: Vec<(Instant, T)> = Vec::new();
        let mut i: usize = 0;
        while i < self.storage.len()
            invariant
                i <= self.storage.len(),
                entries@ == self.storage@.take(i as int),
            decreases self.storage.len() - i,
        {
            entries.push(self.storage[i]);
            i += 1;
        }
        entries
    }
}

/// The entries after a run of stores: each store in turn appends its entry
/// to what was there.
pub open spec fn after_stores<T>(before: Seq<(Instant, T)>, stores: Seq<(Instant, T)>) -> Seq<
    (Instant, T),
>
    decreases stores.len(),
{
    if stores.len() == 0 {
        before
    } else {
        after_stores(before, stores.drop_last()).push(stores.last())
    }
}

/// After `n` stores, an empty repository holds exactly the `n` entries that
/// were stored, in the order of the calls.
pub proof fn lemma_stores_keep_call_order<T>(stores: Seq<(Instant, T)>)
    ensures
        after_stores(Seq::<(Instant, T)>::empty(), stores) == stores,
    decreases stores.len(),
{
    if stores.len() > 0 {
        lemma_stores_keep_call_order(stores.drop_last());
    }
}

/// Timestamps follow the clock. Where the entries were stamped by one
/// controllable clock, entry `k` while its offset was `offsets[k]`, and the
/// offset at a later store was no smaller than at an earlier one, the later
/// entry's timestamp is no earlier than the earlier entry's.
pub proof fn lemma_later_entry_is_not_earlier<T>(
    base: Instant,
    offsets: Seq<u64>,
    stored: Seq<(Instant, T)>,
    i: int,
    j: int,
)
    requires
        base.in_range(),
        stored.len() == offsets.len(),
        forall|k: int|
            0 <= k < stored.len() ==> (#[trigger] stored[k]).0 == (ClockState {
                base,
                offset_secs: offsets[k],
            }).reading(),
        0 <= i < j < stored.len(),
        offsets[i] <= offsets[j],
    ensures
        stored[i].0@ <= stored[j].0@,
{
    lemma_reading_grows_with_offset(base, offsets[i], offsets[j]);
}

/// Two snapshots of a repository that was not stored to in between hold
/// the same entries.
pub proof fn lemma_snapshots_agree<C: Clock, T: Copy>(
    repository: &TimestampingRepository<C, T>,
    first: Vec<(Instant, T)>,
    second: Vec<(Instant, T)>,
)
    requires
        call_ensures(TimestampingRepository::<C, T>::all_stored, (repository,), first),
        call_ensures(TimestampingRepository::<C, T>::all_stored, (repository,), second),
    ensures
        first@ == second@,
{
}

} // verus!
