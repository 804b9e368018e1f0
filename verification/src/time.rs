use vstd::prelude::*;

verus! {

/// Number of nanoseconds in one second.
pub const NANOS_PER_SEC: u32 = 1_000_000_000;

/// A span of time with nanosecond precision, kept as whole seconds plus a
/// sub-second nanosecond remainder.
#[derive(Clone, Copy, Debug, PartialEq, Eq, Hash)]
pub struct Duration {
    secs: u64,
    nanos: u32,
}

impl View for Duration {
    type V = nat;

    /// The total number of nanoseconds.
    open spec fn view(&self) -> nat {
        self.spec_secs() as nat * 1_000_000_000 + self.spec_subsec_nanos() as nat
    }
}

impl Duration {
    #[verifier::type_invariant]
    spec fn well_formed(self) -> bool {
        self.nanos < NANOS_PER_SEC
    }

    /// Whole seconds.
    pub closed spec fn spec_secs(self) -> u64 {
        self.secs
    }

    /// Sub-second nanoseconds.
    pub closed spec fn spec_subsec_nanos(self) -> u32 {
        self.nanos
    }

    /// The empty span.
    pub fn zero() -> (d: Duration)
        ensures
            d@ == 0,
    {
        Duration { secs: 0, nanos: 0 }
    }

    /// Creates a duration from whole seconds and extra nanoseconds, carrying
    /// whole seconds out of the nanosecond part.
    pub fn new(secs: u64, nanos: u32) -> (d: Duration)
        requires
            secs + nanos / NANOS_PER_SEC <= u64::MAX,
        ensures
            d@ == secs * 1_000_000_000 + nanos,
    {
        let extra = (nanos / NANOS_PER_SEC) as u64;
        let rest = nanos % NANOS_PER_SEC;
        assert(nanos == (nanos / NANOS_PER_SEC) * NANOS_PER_SEC + rest);
        Duration { secs: secs + extra, nanos: rest }
    }

    /// Creates a duration of whole seconds.
    pub fn from_secs(secs: u64) -> (d: Duration)
        ensures
            d@ == secs * 1_000_000_000,
    {
        Duration { secs, nanos: 0 }
    }

    /// Creates a duration of whole milliseconds.
    pub fn from_millis(millis: u64) -> (d: Duration)
        ensures
            d@ == millis * 1_000_000,
    {
        let secs = millis / 1000;
        let rest = (millis % 1000) as u32;
        assert(millis == secs * 1000 + rest);
        assert(rest * 1_000_000 < 1_000_000_000) by (nonlinear_arith)
            requires
                rest < 1000,
        ;
        let d = Duration { secs, nanos: rest * 1_000_000 };
        assert(d@ == millis * 1_000_000) by (nonlinear_arith)
            requires
                d@ == secs * 1_000_000_000 + rest * 1_000_000,
                millis == secs * 1000 + rest,
        ;
        d
    }

    /// Creates a duration of whole nanoseconds.
    pub fn from_nanos(nanos: u64) -> (d: Duration)
        ensures
            d@ == nanos,
    {
        let secs = nanos / 1_000_000_000;
        let rest = (nanos % 1_000_000_000) as u32;
        Duration { secs, nanos: rest }
    }

    /// Returns whether the span is empty.
    pub fn is_zero(&self) -> (zero: bool)
        ensures
            zero == (self@ == 0),
    {
        self.secs == 0 && self.nanos == 0
    }

    /// Returns the whole seconds.
    pub fn as_secs(&self) -> (secs: u64)
        ensures
            secs == self.spec_secs(),
            secs == self@ / 1_000_000_000,
    {
        proof {
            use_type_invariant(self);
        }
        self.secs
    }

    /// Returns the sub-second nanoseconds.
    pub fn subsec_nanos(&self) -> (nanos: u32)
        ensures
            nanos == self.spec_subsec_nanos(),
            nanos == self@ % 1_000_000_000,
            nanos < NANOS_PER_SEC,
    {
        proof {
            use_type_invariant(self);
        }
        self.nanos
    }

    /// Returns the total number of nanoseconds.
    pub fn as_nanos(&self) -> (nanos: u128)
        ensures
            nanos == self@,
    {
        proof {
            use_type_invariant(self);
        }
        self.secs as u128 * 1_000_000_000 + self.nanos as u128
    }

    /// Returns whether this span is strictly longer than `other`.
    pub fn longer_than(&self, other: &Duration) -> (longer: bool)
        ensures
            longer == (self@ > other@),
    {
        proof {
            use_type_invariant(self);
            use_type_invariant(other);
        }
        self.secs > other.secs || (self.secs == other.secs && self.nanos > other.nanos)
    }

    /// Returns the longer of two spans.
    pub fn max(self, other: Duration) -> (longest: Duration)
        ensures
            longest@ == if self@ >= other@ { self@ } else { other@ },
    {
        if other.longer_than(&self) {
            other
        } else {
            self
        }
    }
}

} // verus!
