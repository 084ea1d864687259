//! Spans of time.
//!
//! A point in time is the span since the clock of the process was started.

use vstd::prelude::*;

verus! {

/// Nanoseconds in a second.
pub const NANOS_PER_SEC: u128 = 1_000_000_000;

/// Nanoseconds in a millisecond.
pub const NANOS_PER_MILLI: u128 = 1_000_000;

/// The longest span: the largest number of seconds, and one nanosecond less
/// than a second more.
pub const MAX_NANOS: u128 = 18_446_744_073_709_551_615_999_999_999;

/// A span of time in nanoseconds.
#[derive(Debug, Clone, Copy, PartialEq, Eq, Structural, PartialOrd, Ord, Hash)]
pub struct Duration {
    nanos: u128,
}

impl View for Duration {
    type V = nat;

    /// The length of the span in nanoseconds.
    closed spec fn view(&self) -> nat {
        self.nanos as nat
    }
}

impl Duration {
    #[verifier::type_invariant]
    spec fn in_range(self) -> bool {
        self.nanos <= MAX_NANOS
    }

    /// The whole seconds of a span of `nanos` nanoseconds.
    pub open spec fn secs_of(nanos: nat) -> nat {
        nanos / (NANOS_PER_SEC as nat)
    }

    /// The whole milliseconds of a span of `nanos` nanoseconds.
    pub open spec fn millis_of(nanos: nat) -> nat {
        nanos / (NANOS_PER_MILLI as nat)
    }

    /// `secs` seconds and `nanos` nanoseconds.
    pub fn new(secs: u64, nanos: u32) -> (r: Duration)
        requires
            nanos < NANOS_PER_SEC,
        ensures
            r@ == secs * NANOS_PER_SEC + nanos,
            Self::secs_of(r@) == secs,
    {
        Duration { nanos: secs as u128 * NANOS_PER_SEC + nanos as u128 }
    }

    /// `secs` seconds.
    pub fn from_secs(secs: u64) -> (r: Duration)
        ensures
            r@ == secs * NANOS_PER_SEC,
            Self::secs_of(r@) == secs,
    {
        Duration { nanos: secs as u128 * NANOS_PER_SEC }
    }

    /// `millis` milliseconds.
    pub fn from_millis(millis: u64) -> (r: Duration)
        ensures
            r@ == millis * NANOS_PER_MILLI,
            Self::millis_of(r@) == millis,
    {
        Duration { nanos: millis as u128 * NANOS_PER_MILLI }
    }

    /// The whole seconds of the span.
    pub fn as_secs(&self) -> (r: u64)
        ensures
            r == Self::secs_of(self@),
            self@ <= MAX_NANOS,
    {
        proof {
            use_type_invariant(self);
        }
        (self.nanos / NANOS_PER_SEC) as u64
    }

    /// The nanoseconds of the span beyond its whole seconds.
    pub fn subsec_nanos(&self) -> (r: u32)
        ensures
            r == self@ % (NANOS_PER_SEC as nat),
    {
        (self.nanos % NANOS_PER_SEC) as u32
    }

    /// The whole milliseconds of the span.
    pub fn as_millis(&self) -> (r: u128)
        ensures
            r == Self::millis_of(self@),
    {
        self.nanos / NANOS_PER_MILLI
    }

    /// Whether the span is at least as long as `other`.
    pub fn at_least(&self, other: Duration) -> (r: bool)
        ensures
            r == (self@ >= other@),
    {
        self.nanos >= other.nanos
    }

    /// What is left of the span without `other`, and nothing where `other` is longer.
    pub fn saturating_sub(&self, other: Duration) -> (r: Duration)
        ensures
            r@ == (if self@ >= other@ {
                self@ - other@
            } else {
                0
            }),
    {
        proof {
            use_type_invariant(self);
        }
        if self.nanos >= other.nanos {
            Duration { nanos: self.nanos - other.nanos }
        } else {
            Duration { nanos: 0 }
        }
    }

    /// The span together with `other`, if there is a span as long.
    pub fn checked_add(&self, other: Duration) -> (r: Option<Duration>)
        ensures
            match r {
                Some(d) => d@ == self@ + other@,
                None => self@ + other@ > MAX_NANOS,
            },
    {
        proof {
            use_type_invariant(self);
            use_type_invariant(&other);
        }
        let sum: u128 = self.nanos + other.nanos;
        if sum <= MAX_NANOS {
            Some(Duration { nanos: sum })
        } else {
            None
        }
    }

    /// `times` times the span, if there is a span as long.
    pub fn checked_mul(&self, times: u32) -> (r: Option<Duration>)
        ensures
            match r {
                Some(d) => d@ == self@ * times,
                None => self@ * times > MAX_NANOS,
            },
    {
        proof {
            use_type_invariant(self);
            assert(self.nanos * times <= MAX_NANOS * 0xffff_ffffu32) by (nonlinear_arith)
                requires
                    self.nanos <= MAX_NANOS,
                    times <= 0xffff_ffffu32,
            ;
        }
        let product: u128 = self.nanos * times as u128;
        if product <= MAX_NANOS {
            Some(Duration { nanos: product })
        } else {
            None
        }
    }
}

// ---------------------------------------------------------------------------
// What holds of spans
// ---------------------------------------------------------------------------

/// A span has as many whole seconds and milliseconds as fit into it. The longest has as
/// many seconds as fit into 64 bits.
pub proof fn law_spans_are_counted_in_whole_units(nanos: nat)
    ensures
        Duration::secs_of(nanos) * 1_000_000_000 <= nanos < (Duration::secs_of(nanos) + 1)
            * 1_000_000_000,
        Duration::millis_of(nanos) * 1_000_000 <= nanos < (Duration::millis_of(nanos) + 1)
            * 1_000_000,
        Duration::secs_of(nanos) == Duration::millis_of(nanos) / 1_000,
        MAX_NANOS == u64::MAX * 1_000_000_000 + 999_999_999,
{
}

} // verus!
