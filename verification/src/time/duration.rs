//! Spans of time and points on a monotonic time line, counted in nanoseconds.
use vstd::prelude::*;

verus! {

pub const NANOS_PER_SEC: u128 = 1_000_000_000;

pub const NANOS_PER_MILLI: u128 = 1_000_000;

/// The longest span that can be told: `u64::MAX` seconds and 999 999 999 nanoseconds.
pub const MAX_NANOS: u128 = 18_446_744_073_709_551_615_999_999_999;

/// A span of time. Its view is the number of nanoseconds.
#[derive(Clone, Copy, Debug, PartialEq, Eq, PartialOrd, Ord, Hash, Structural)]
pub struct Duration {
    nanos: u128,
}

impl View for Duration {
    type V = nat;

    closed spec fn view(&self) -> nat {
        self.nanos as nat
    }
}

/// The sum of two spans, held at the longest span that can be told.
pub open spec fn saturating_sum(a: nat, b: nat) -> nat {
    if a + b <= MAX_NANOS {
        a + b
    } else {
        MAX_NANOS as nat
    }
}

impl Duration {
    #[verifier::type_invariant]
    spec fn in_range(self) -> bool {
        self.nanos <= MAX_NANOS
    }

    /// A span of whole seconds.
    pub fn from_secs(secs: u64) -> (d: Duration)
        ensures
            d@ == secs * NANOS_PER_SEC,
    {
        Duration { nanos: secs as u128 * NANOS_PER_SEC }
    }

    /// A span of whole milliseconds.
    pub fn from_millis(millis: u64) -> (d: Duration)
        ensures
            d@ == millis * NANOS_PER_MILLI,
    {
        Duration { nanos: millis as u128 * NANOS_PER_MILLI }
    }

    /// The span of the given number of nanoseconds, where it can be told.
    pub fn from_nanos(nanos: u128) -> (d: Option<Duration>)
        ensures
            d is Some <==> nanos <= MAX_NANOS,
            d is Some ==> d->0@ == nanos,
    {
        if nanos <= MAX_NANOS {
            Some(Duration { nanos })
        } else {
            None
        }
    }

    /// The number of nanoseconds.
    pub fn as_nanos(&self) -> (nanos: u128)
        ensures
            nanos == self@,
            nanos <= MAX_NANOS,
    {
        proof {
            use_type_invariant(self);
        }
        self.nanos
    }

    /// Whether the span is empty.
    pub fn is_zero(&self) -> (zero: bool)
        ensures
            zero <==> self@ == 0,
    {
        self.nanos == 0
    }

    /// Whether this span is at least as long as the other.
    pub fn reaches(&self, other: &Duration) -> (r: bool)
        ensures
            r <==> self@ >= other@,
    {
        self.nanos >= other.nanos
    }

    /// The sum, held at the longest span that can be told.
    pub fn saturating_add(self, other: Duration) -> (sum: Duration)
        ensures
            sum@ == saturating_sum(self@, other@),
    {
        proof {
            use_type_invariant(&self);
            use_type_invariant(&other);
        }
        let nanos: u128 = self.nanos + other.nanos;
        if nanos <= MAX_NANOS {
            Duration { nanos }
        } else {
            Duration { nanos: MAX_NANOS }
        }
    }

    /// The sum, where it can be told.
    pub fn checked_add(self, other: Duration) -> (sum: Option<Duration>)
        ensures
            sum is Some <==> self@ + other@ <= MAX_NANOS,
            sum is Some ==> sum->0@ == self@ + other@,
    {
        proof {
            use_type_invariant(&self);
            use_type_invariant(&other);
        }
        Duration::from_nanos(self.nanos + other.nanos)
    }
}

/// Two spans of the same length are the same span.
pub proof fn law_duration_is_its_length(a: Duration, b: Duration)
    ensures
        a == b <==> a@ == b@,
{
}

/// Holding a sum at the longest span does not depend on how the summands are grouped.
pub proof fn law_saturating_sum_is_associative(a: nat, b: nat, c: nat)
    ensures
        saturating_sum(saturating_sum(a, b), c) == saturating_sum(a, saturating_sum(b, c)),
{
}

/// A point on a monotonic time line, told by its distance from a reference point that the host
/// picked. Its view is that distance in nanoseconds.
#[derive(Clone, Copy, Debug, PartialEq, Eq, PartialOrd, Ord, Hash, Structural)]
pub struct Instant {
    since_reference: Duration,
}

impl View for Instant {
    type V = nat;

    closed spec fn view(&self) -> nat {
        self.since_reference@
    }
}

impl Instant {
    /// The point at the given distance from the reference point.
    pub fn at(since_reference: Duration) -> (i: Instant)
        ensures
            i@ == since_reference@,
    {
        Instant { since_reference }
    }

    /// The distance from the reference point.
    pub fn since_reference(&self) -> (d: Duration)
        ensures
            d@ == self@,
    {
        self.since_reference
    }

    /// The point `delta` later, where it can be told.
    pub fn checked_add(self, delta: Duration) -> (i: Option<Instant>)
        ensures
            i is Some <==> self@ + delta@ <= MAX_NANOS,
            i is Some ==> i->0@ == self@ + delta@,
    {
        match self.since_reference.checked_add(delta) {
            Some(since_reference) => Some(Instant { since_reference }),
            None => None,
        }
    }

    /// The span from `earlier` to this point; empty where `earlier` is not earlier.
    pub fn saturating_duration_since(&self, earlier: Instant) -> (d: Duration)
        ensures
            d@ == if self@ >= earlier@ { self@ - earlier@ } else { 0 },
    {
        let now: u128 = self.since_reference.as_nanos();
        let then_nanos: u128 = earlier.since_reference.as_nanos();
        if now >= then_nanos {
            Duration { nanos: now - then_nanos }
        } else {
            Duration { nanos: 0 }
        }
    }
}

} // verus!
