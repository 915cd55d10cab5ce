//! Lengths of time with nanosecond resolution.

use vstd::prelude::*;

verus! {

/// Nanoseconds in one second.
pub const NANOS_PER_SEC: u32 = 1_000_000_000;

/// Nanoseconds in one millisecond.
pub const NANOS_PER_MILLI: u32 = 1_000_000;

/// Milliseconds in one second.
pub const MILLIS_PER_SEC: u64 = 1_000;

/// The largest number of nanoseconds a [`Duration`] can hold.
pub open spec fn max_nanos() -> nat {
    (u64::MAX as nat) * (NANOS_PER_SEC as nat) + (NANOS_PER_SEC as nat - 1) as nat
}

/// A span of time: whole seconds plus a sub-second part in nanoseconds.
///
/// The sub-second part is always below one second, so two durations are
/// equal exactly when they span the same number of nanoseconds.
#[derive(Clone, Copy, Debug, PartialEq, Eq, Structural)]
pub struct Duration {
    secs: u64,
    nanos: u32,
}

impl View for Duration {
    type V = nat;

    /// The span in nanoseconds.
    closed spec fn view(&self) -> nat {
        (self.secs as nat) * (NANOS_PER_SEC as nat) + (self.nanos as nat)
    }
}

impl Duration {
    #[verifier::type_invariant]
    closed spec fn inv(self) -> bool {
        self.nanos < NANOS_PER_SEC
    }

    /// The empty span.
    pub fn zero() -> (d: Duration)
        ensures
            d@ == 0,
    {
        Duration { secs: 0, nanos: 0 }
    }

    /// A span of `secs` whole seconds and `nanos` further nanoseconds.
    ///
    /// Nanoseconds beyond one second carry over into the seconds; `None` when
    /// the seconds then no longer fit.
    pub fn new(secs: u64, nanos: u32) -> (d: Option<Duration>)
        ensures
            match d {
                Some(d) => d@ == secs as nat * NANOS_PER_SEC as nat + nanos as nat,
                None => secs as nat * NANOS_PER_SEC as nat + nanos as nat > max_nanos(),
            },
    {
        let carry: u32 = nanos / NANOS_PER_SEC;
        let rest: u32 = nanos % NANOS_PER_SEC;
        if secs > u64::MAX - carry as u64 {
            None
        } else {
            Some(Duration { secs: secs + carry as u64, nanos: rest })
        }
    }

    /// A span of `secs` whole seconds.
    pub fn from_secs(secs: u64) -> (d: Duration)
        ensures
            d@ == secs as nat * NANOS_PER_SEC as nat,
    {
        Duration { secs, nanos: 0 }
    }

    /// A span of `millis` milliseconds.
    pub fn from_millis(millis: u64) -> (d: Duration)
        ensures
            d@ == millis as nat * NANOS_PER_MILLI as nat,
    {
        let secs: u64 = millis / MILLIS_PER_SEC;
        let rest: u64 = millis % MILLIS_PER_SEC;
        Duration { secs, nanos: (rest as u32) * NANOS_PER_MILLI }
    }

    /// The whole seconds of the span.
    pub fn as_secs(&self) -> (secs: u64)
        ensures
            secs as nat == self@ / NANOS_PER_SEC as nat,
    {
        proof {
            use_type_invariant(self);
        }
        self.secs
    }

    /// The part of the span below one second, in nanoseconds.
    pub fn subsec_nanos(&self) -> (nanos: u32)
        ensures
            nanos as nat == self@ % NANOS_PER_SEC as nat,
            nanos < NANOS_PER_SEC,
    {
        proof {
            use_type_invariant(self);
        }
        self.nanos
    }

    /// Whether the span is empty.
    pub fn is_zero(&self) -> (b: bool)
        ensures
            b == (self@ == 0),
    {
        self.secs == 0 && self.nanos == 0
    }

    /// Whether the two spans are equally long.
    pub fn equals(&self, other: &Duration) -> (b: bool)
        ensures
            b == (self@ == other@),
    {
        proof {
            use_type_invariant(self);
            use_type_invariant(other);
        }
        self.secs == other.secs && self.nanos == other.nanos
    }

    /// Whether `self` is strictly shorter than `other`.
    pub fn is_shorter_than(&self, other: &Duration) -> (b: bool)
        ensures
            b == (self@ < other@),
    {
        proof {
            use_type_invariant(self);
            use_type_invariant(other);
        }
        self.secs < other.secs || (self.secs == other.secs && self.nanos < other.nanos)
    }

    /// The sum of two spans, or `None` when it exceeds [`max_nanos`].
    pub fn checked_add(&self, rhs: &Duration) -> (sum: Option<Duration>)
        ensures
            match sum {
                Some(d) => d@ == self@ + rhs@,
                None => self@ + rhs@ > max_nanos(),
            },
    {
        proof {
            use_type_invariant(self);
            use_type_invariant(rhs);
        }
        let total: u32 = self.nanos + rhs.nanos;
        let carry: u64 = if total >= NANOS_PER_SEC { 1 } else { 0 };
        let nanos: u32 = if total >= NANOS_PER_SEC { total - NANOS_PER_SEC } else { total };
        if self.secs > u64::MAX - rhs.secs {
            return None;
        }
        let secs: u64 = self.secs + rhs.secs;
        if secs > u64::MAX - carry {
            return None;
        }
        Some(Duration { secs: secs + carry, nanos })
    }

    /// The sum of two spans, held at [`max_nanos`] when it would exceed it.
    pub fn saturating_add(&self, rhs: &Duration) -> (sum: Duration)
        ensures
            sum@ == if self@ + rhs@ <= max_nanos() { self@ + rhs@ } else { max_nanos() },
    {
        match self.checked_add(rhs) {
            Some(d) => {
                proof {
                    use_type_invariant(&d);
                }
                d
            },
            None => Duration { secs: u64::MAX, nanos: NANOS_PER_SEC - 1 },
        }
    }

    /// What remains of `self` after `rhs`, or `None` when `rhs` is the longer.
    pub fn checked_sub(&self, rhs: &Duration) -> (diff: Option<Duration>)
        ensures
            match diff {
                Some(d) => self@ >= rhs@ && d@ == self@ - rhs@,
                None => self@ < rhs@,
            },
    {
        proof {
            use_type_invariant(self);
            use_type_invariant(rhs);
        }
        if self.secs < rhs.secs {
            return None;
        }
        let secs: u64 = self.secs - rhs.secs;
        if self.nanos >= rhs.nanos {
            Some(Duration { secs, nanos: self.nanos - rhs.nanos })
        } else if secs > 0 {
            Some(Duration { secs: secs - 1, nanos: self.nanos + NANOS_PER_SEC - rhs.nanos })
        } else {
            None
        }
    }

    /// What remains of `self` after `rhs`, and nothing when `rhs` is the
    /// longer.
    pub fn saturating_sub(&self, rhs: &Duration) -> (diff: Duration)
        ensures
            diff@ == if self@ >= rhs@ { self@ - rhs@ } else { 0 },
    {
        match self.checked_sub(rhs) {
            Some(d) => d,
            None => Duration::zero(),
        }
    }
}

} // verus!
