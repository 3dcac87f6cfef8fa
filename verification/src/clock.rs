//! Lengths of time and points on a monotonic clock, to the nanosecond.

use vstd::prelude::*;

verus! {

/// Nanoseconds in a second.
pub const NANOS_PER_SEC: u32 = 1_000_000_000;

/// The longest representable span, in nanoseconds.
pub open spec fn max_ns() -> nat {
    (u64::MAX * 1_000_000_000 + 999_999_999) as nat
}

/// A length of time.
#[derive(Debug, Clone, Copy, PartialEq, Eq, Structural)]
pub struct Span {
    secs: u64,
    nanos: u32,
}

impl Span {
    #[verifier::type_invariant]
    spec fn carried(self) -> bool {
        self.nanos < NANOS_PER_SEC
    }

    /// The span in nanoseconds.
    pub closed spec fn ns(self) -> nat {
        (self.secs * 1_000_000_000 + self.nanos) as nat
    }

    /// A span of whole seconds.
    pub fn from_secs(secs: u64) -> (s: Span)
        ensures
            s.ns() == secs * 1_000_000_000,
    {
        Span { secs, nanos: 0 }
    }

    /// A span of whole milliseconds.
    pub fn from_millis(millis: u64) -> (s: Span)
        ensures
            s.ns() == millis * 1_000_000,
    {
        Span { secs: millis / 1000, nanos: ((millis % 1000) * 1_000_000) as u32 }
    }

    /// The span between two readings of a nanosecond counter.
    pub fn from_nanos(nanos: u64) -> (s: Span)
        ensures
            s.ns() == nanos,
    {
        Span { secs: nanos / 1_000_000_000, nanos: (nanos % 1_000_000_000) as u32 }
    }

    /// The whole seconds of the span.
    pub fn as_secs(&self) -> (n: u64)
        ensures
            n == self.ns() / 1_000_000_000,
    {
        proof {
            use_type_invariant(self);
        }
        self.secs
    }

    /// The nanoseconds of the span beyond its whole seconds.
    pub fn subsec_nanos(&self) -> (n: u32)
        ensures
            n == self.ns() % 1_000_000_000,
    {
        proof {
            use_type_invariant(self);
        }
        self.nanos
    }

    /// The whole milliseconds of the span.
    pub fn as_millis(&self) -> (n: u128)
        ensures
            n == self.ns() / 1_000_000,
    {
        proof {
            use_type_invariant(self);
        }
        self.secs as u128 * 1000 + (self.nanos / 1_000_000) as u128
    }

    /// Whether this span is shorter than `other`.
    pub fn less_than(&self, other: &Span) -> (r: bool)
        ensures
            r == (self.ns() < other.ns()),
    {
        proof {
            use_type_invariant(self);
            use_type_invariant(other);
        }
        self.secs < other.secs || (self.secs == other.secs && self.nanos < other.nanos)
    }

    /// Two spans end to end.
    pub fn plus(&self, other: &Span) -> (s: Span)
        requires
            self.ns() + other.ns() <= max_ns(),
        ensures
            s.ns() == self.ns() + other.ns(),
    {
        proof {
            use_type_invariant(self);
            use_type_invariant(other);
        }
        let nanos: u32 = self.nanos + other.nanos;
        if nanos < NANOS_PER_SEC {
            Span { secs: self.secs + other.secs, nanos }
        } else {
            let secs: u64 = self.secs + other.secs;
            Span { secs: secs + 1, nanos: nanos - NANOS_PER_SEC }
        }
    }

    /// What this span has over `other`; nothing where it is the shorter.
    pub fn beyond(&self, other: &Span) -> (s: Span)
        ensures
            s.ns() == if self.ns() >= other.ns() {
                self.ns() - other.ns()
            } else {
                0
            },
    {
        proof {
            use_type_invariant(self);
            use_type_invariant(other);
        }
        if self.less_than(other) {
            Span { secs: 0, nanos: 0 }
        } else if self.nanos >= other.nanos {
            Span { secs: self.secs - other.secs, nanos: self.nanos - other.nanos }
        } else {
            Span {
                secs: self.secs - other.secs - 1,
                nanos: self.nanos + NANOS_PER_SEC - other.nanos,
            }
        }
    }
}

/// A point on a monotonic clock: how long after the clock's origin it lies.
#[derive(Debug, Clone, Copy, PartialEq, Eq, Structural)]
pub struct Moment {
    pub since_origin: Span,
}

impl Moment {
    /// The point, in nanoseconds after the origin.
    pub open spec fn ns(self) -> nat {
        self.since_origin.ns()
    }

    /// How long after `earlier` this point lies; nothing where it does not.
    pub fn saturating_since(&self, earlier: &Moment) -> (s: Span)
        ensures
            s.ns() == elapsed(earlier.ns(), self.ns()),
    {
        self.since_origin.beyond(&earlier.since_origin)
    }

    /// The point that lies `span` later.
    pub fn after(&self, span: Span) -> (m: Moment)
        requires
            self.ns() + span.ns() <= max_ns(),
        ensures
            m.ns() == self.ns() + span.ns(),
    {
        Moment { since_origin: self.since_origin.plus(&span) }
    }
}

/// The time from `from` to `to`, nothing where `to` is the earlier.
pub open spec fn elapsed(from: nat, to: nat) -> nat {
    if to >= from {
        (to - from) as nat
    } else {
        0
    }
}

/// A span is measured from the earlier of two points to the later: as long after a point as it
/// was gone forward, and nothing the other way round.
pub proof fn time_is_measured_forward(from: nat, to: nat, span: nat)
    ensures
        elapsed(from, from + span) == span,
        to <= from ==> elapsed(from, to) == 0,
        from <= to ==> from + elapsed(from, to) == to,
{
}

} // verus!
