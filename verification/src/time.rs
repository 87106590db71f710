//! Points and spans of monotonic time, counted in whole nanoseconds.
//!
//! A [`Duration`] is a span, an [`Instant`] a point on a timeline that starts
//! at an origin. Both are plain numbers underneath, so every statement about
//! them is a statement about natural numbers: the view of either is its
//! count of nanoseconds.

use std::cmp::Ordering;
use vstd::prelude::*;
use vstd::std_specs::ops::{AddSpec, SubSpec};

verus! {

/// Nanoseconds in one second.
pub const NANOS_PER_SEC: u32 = 1_000_000_000;

/// The longest span, and the distance of the latest point from the origin:
/// `u64::MAX` whole seconds and 999,999,999 nanoseconds.
pub const MAX_NANOS: u128 = 18_446_744_073_709_551_615_999_999_999;

/// A non-negative span of time, at most [`MAX_NANOS`] long.
#[derive(Clone, Copy, Debug, PartialEq, Eq, Structural, Ord, Hash)]
pub struct Duration {
    nanos: u128,
}

impl View for Duration {
    type V = nat;

    /// The length of the span in nanoseconds.
    closed spec fn view(&self) -> nat {
        self.nanos as nat
    }
}

impl Duration {
    /// Every span that the program holds is at most [`MAX_NANOS`] long.
    #[verifier::type_invariant]
    pub open spec fn in_range(self) -> bool {
        self@ <= MAX_NANOS
    }

    /// The span that is `n` nanoseconds long.
    pub closed spec fn of_nanos(n: nat) -> Duration {
        Duration { nanos: n as u128 }
    }

    /// The span of `secs` whole seconds.
    pub open spec fn spec_from_secs(secs: u64) -> Duration {
        Duration::of_nanos((secs * NANOS_PER_SEC) as nat)
    }

    /// The whole seconds in the span, the fraction dropped.
    pub open spec fn whole_secs(self) -> nat {
        self@ / (NANOS_PER_SEC as nat)
    }

    /// The fraction of a second that `whole_secs` drops, in nanoseconds.
    pub open spec fn subsec(self) -> nat {
        self@ % (NANOS_PER_SEC as nat)
    }

    /// A span of `secs` whole seconds and `nanos` nanoseconds more. The
    /// nanoseconds may exceed one second as long as the total stays in range.
    pub fn new(secs: u64, nanos: u32) -> (d: Duration)
        requires
            secs + nanos / NANOS_PER_SEC <= u64::MAX,
        ensures
            d == Duration::of_nanos((secs * NANOS_PER_SEC + nanos) as nat),
            d@ == secs * NANOS_PER_SEC + nanos,
    {
        assert(secs * NANOS_PER_SEC + nanos <= MAX_NANOS) by (nonlinear_arith)
            requires
                secs + nanos / NANOS_PER_SEC <= u64::MAX,
                NANOS_PER_SEC == 1_000_000_000,
                MAX_NANOS == 18_446_744_073_709_551_615_999_999_999,
        ;
        let total: u128 = (secs as u128) * (NANOS_PER_SEC as u128) + (nanos as u128);
        Duration { nanos: total }
    }

    /// A span of `secs` whole seconds.
    pub fn from_secs(secs: u64) -> (d: Duration)
        ensures
            d == Duration::spec_from_secs(secs),
            d@ == secs * NANOS_PER_SEC,
    {
        Duration::new(secs, 0)
    }

    /// The whole seconds in the span.
    pub fn as_secs(&self) -> (secs: u64)
        ensures
            secs == self.whole_secs(),
    {
        proof {
            use_type_invariant(self);
        }
        (self.nanos / (NANOS_PER_SEC as u128)) as u64
    }

    /// The part of the span beyond its whole seconds, in nanoseconds.
    pub fn subsec_nanos(&self) -> (nanos: u32)
        ensures
            nanos == self.subsec(),
    {
        (self.nanos % (NANOS_PER_SEC as u128)) as u32
    }
}

/// A point in monotonic time: so many nanoseconds after the origin of its
/// timeline, at most [`MAX_NANOS`]. It has no calendar meaning.
#[derive(Clone, Copy, Debug, PartialEq, Eq, Structural, Ord, Hash)]
pub struct Instant {
    nanos: u128,
}

impl View for Instant {
    type V = nat;

    /// The distance of the point from the origin in nanoseconds.
    closed spec fn view(&self) -> nat {
        self.nanos as nat
    }
}

impl Instant {
    /// Every point that the program holds lies on the timeline, at most
    /// [`MAX_NANOS`] after the origin.
    #[verifier::type_invariant]
    pub open spec fn in_range(self) -> bool {
        self@ <= MAX_NANOS
    }

    /// The point that lies `n` nanoseconds after the origin.
    pub closed spec fn at(n: nat) -> Instant {
        Instant { nanos: n as u128 }
    }

    /// The point `d` after `self`, where the timeline reaches that far.
    pub open spec fn spec_checked_add(self, d: Duration) -> Option<Instant> {
        if self@ + d@ <= MAX_NANOS {
            Some(Instant::at(self@ + d@))
        } else {
            None
        }
    }

    /// The span from `earlier` to `self`, zero where `earlier` is the later
    /// of the two.
    pub open spec fn spec_duration_since(self, earlier: Instant) -> Duration {
        if earlier@ <= self@ {
            Duration::of_nanos((self@ - earlier@) as nat)
        } else {
            Duration::of_nanos(0)
        }
    }

    /// The last point of the timeline.
    pub fn latest() -> (t: Instant)
        ensures
            t == Instant::at(MAX_NANOS as nat),
            t@ == MAX_NANOS,
    {
        Instant { nanos: MAX_NANOS }
    }

    /// The point that lies `elapsed` after the origin.
    pub fn after_origin(elapsed: Duration) -> (t: Instant)
        ensures
            t == Instant::at(elapsed@),
            t@ == elapsed@,
    {
        proof {
            use_type_invariant(elapsed);
        }
        Instant { nanos: elapsed.nanos }
    }

    /// The span from the origin to this point.
    pub fn since_origin(&self) -> (elapsed: Duration)
        ensures
            elapsed == Duration::of_nanos(self@),
            elapsed@ == self@,
    {
        proof {
            use_type_invariant(self);
        }
        Duration { nanos: self.nanos }
    }

    /// The point `d` after this one, or `None` where the timeline ends
    /// before it.
    pub fn checked_add(&self, d: Duration) -> (sum: Option<Instant>)
        ensures
            sum == self.spec_checked_add(d),
            sum matches Some(t) ==> t@ == self@ + d@,
    {
        proof {
            use_type_invariant(self);
            use_type_invariant(d);
        }
        let total: u128 = self.nanos + d.nanos;
        if total <= MAX_NANOS {
            Some(Instant { nanos: total })
        } else {
            None
        }
    }

    /// The span from `earlier` to this point. Where `earlier` is in fact the
    /// later of the two, the span is zero.
    pub fn duration_since(&self, earlier: Instant) -> (elapsed: Duration)
        ensures
            elapsed == self.spec_duration_since(earlier),
            elapsed@ == if earlier@ <= self@ {
                self@ - earlier@
            } else {
                0
            },
    {
        proof {
            use_type_invariant(self);
        }
        if earlier.nanos <= self.nanos {
            Duration { nanos: self.nanos - earlier.nanos }
        } else {
            Duration { nanos: 0 }
        }
    }
}

/// Spans are ordered by their length.
impl PartialOrd for Duration {
    fn partial_cmp(&self, other: &Duration) -> (order: Option<Ordering>) {
        if self.nanos < other.nanos {
            Some(Ordering::Less)
        } else if self.nanos == other.nanos {
            Some(Ordering::Equal)
        } else {
            Some(Ordering::Greater)
        }
    }
}

impl vstd::std_specs::cmp::PartialOrdSpecImpl for Duration {
    open spec fn obeys_partial_cmp_spec() -> bool {
        true
    }

    open spec fn partial_cmp_spec(&self, other: &Duration) -> Option<Ordering> {
        if self@ < other@ {
            Some(Ordering::Less)
        } else if self@ == other@ {
            Some(Ordering::Equal)
        } else {
            Some(Ordering::Greater)
        }
    }
}

/// Points are ordered by their distance from the origin: the earlier one is
/// the smaller.
impl PartialOrd for Instant {
    fn partial_cmp(&self, other: &Instant) -> (order: Option<Ordering>) {
        if self.nanos < other.nanos {
            Some(Ordering::Less)
        } else if self.nanos == other.nanos {
            Some(Ordering::Equal)
        } else {
            Some(Ordering::Greater)
        }
    }
}

impl vstd::std_specs::cmp::PartialOrdSpecImpl for Instant {
    open spec fn obeys_partial_cmp_spec() -> bool {
        true
    }

    open spec fn partial_cmp_spec(&self, other: &Instant) -> Option<Ordering> {
        if self@ < other@ {
            Some(Ordering::Less)
        } else if self@ == other@ {
            Some(Ordering::Equal)
        } else {
            Some(Ordering::Greater)
        }
    }
}

/// `t + d` is the point `d` after `t`. The sum has to lie on the timeline:
/// `checked_add` is there for a sum that may not.
impl core::ops::Add<Duration> for Instant {
    type Output = Instant;

    fn add(self, d: Duration) -> (sum: Instant)
        ensures
            sum@ == self@ + d@,
    {
        proof {
            use_type_invariant(self);
            use_type_invariant(d);
        }
        Instant { nanos: self.nanos + d.nanos }
    }
}

impl vstd::std_specs::ops::AddSpecImpl<Duration> for Instant {
    open spec fn obeys_add_spec() -> bool {
        true
    }

    open spec fn add_req(self, d: Duration) -> bool {
        self@ + d@ <= MAX_NANOS
    }

    open spec fn add_spec(self, d: Duration) -> Instant {
        Instant::at(self@ + d@)
    }
}

/// `later - earlier` is the span from `earlier` to `later`, zero where the
/// two come in the other order.
impl core::ops::Sub<Instant> for Instant {
    type Output = Duration;

    fn sub(self, earlier: Instant) -> (elapsed: Duration)
        ensures
            elapsed@ == if earlier@ <= self@ {
                self@ - earlier@
            } else {
                0
            },
    {
        self.duration_since(earlier)
    }
}

impl vstd::std_specs::ops::SubSpecImpl<Instant> for Instant {
    open spec fn obeys_sub_spec() -> bool {
        true
    }

    open spec fn sub_req(self, earlier: Instant) -> bool {
        true
    }

    open spec fn sub_spec(self, earlier: Instant) -> Duration {
        self.spec_duration_since(earlier)
    }
}

/// The span of `n` nanoseconds is `n` nanoseconds long.
pub broadcast proof fn lemma_of_nanos_view(n: nat)
    requires
        n <= MAX_NANOS,
    ensures
        (#[trigger] Duration::of_nanos(n))@ == n,
{
}

/// A span is the span of its own length: two spans of one length are equal.
pub broadcast proof fn lemma_duration_from_view(d: Duration)
    ensures
        Duration::of_nanos(#[trigger] d@) == d,
{
}

/// The point `n` nanoseconds after the origin lies `n` nanoseconds after it.
pub broadcast proof fn lemma_at_view(n: nat)
    requires
        n <= MAX_NANOS,
    ensures
        (#[trigger] Instant::at(n))@ == n,
{
}

/// A point is the point at its own distance from the origin: two points at
/// one distance are equal.
pub broadcast proof fn lemma_instant_from_view(t: Instant)
    ensures
        Instant::at(#[trigger] t@) == t,
{
}

pub broadcast group group_time_views {
    lemma_of_nanos_view,
    lemma_duration_from_view,
    lemma_at_view,
    lemma_instant_from_view,
}

/// Adding a span to a point and then taking the span back from the sum
/// gives the span that was added, whenever the sum is on the timeline.
pub proof fn lemma_add_then_since(a: Instant, d: Duration)
    requires
        a@ + d@ <= MAX_NANOS,
    ensures
        a.spec_checked_add(d) matches Some(sum) && sum.spec_duration_since(a) == d,
        a.add_req(d) && a.add_spec(d).sub_spec(a) == d,
{
    broadcast use group_time_views;

}

} // verus!
