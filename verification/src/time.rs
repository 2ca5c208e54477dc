//! Spans of time with nanosecond resolution.

use vstd::prelude::*;

verus! {

/// Nanoseconds in one second.
pub const NANOS_PER_SEC: u32 = 1_000_000_000;

/// Nanoseconds in one millisecond.
pub const NANOS_PER_MILLI: u32 = 1_000_000;

/// Nanoseconds in one microsecond.
pub const NANOS_PER_MICRO: u32 = 1_000;

/// A span of time: whole seconds and the nanoseconds beyond them.
///
/// The view of a span is its length in nanoseconds. Two spans are equal
/// exactly when their views are, and the derived order is the order of the
/// views.
#[derive(Clone, Copy, Debug, PartialEq, Eq, PartialOrd, Ord, Hash)]
pub struct Duration {
    secs: u64,
    nanos: u32,
}

impl View for Duration {
    type V = nat;

    closed spec fn view(&self) -> nat {
        (self.secs as nat) * 1_000_000_000 + (self.nanos as nat)
    }
}

impl Duration {
    #[verifier::type_invariant]
    spec fn subsec_in_range(self) -> bool {
        self.nanos < 1_000_000_000
    }

    /// The empty span.
    pub fn zero() -> (d: Duration)
        ensures
            d@ == 0,
    {
        Duration { secs: 0, nanos: 0 }
    }

    /// The span of `secs` seconds and `nanos` nanoseconds.
    pub fn new(secs: u64, nanos: u32) -> (d: Duration)
        requires
            nanos < NANOS_PER_SEC,
        ensures
            d@ == secs * 1_000_000_000 + nanos,
    {
        Duration { secs, nanos }
    }

    /// The span of `secs` seconds.
    pub fn from_secs(secs: u64) -> (d: Duration)
        ensures
            d@ == secs * 1_000_000_000,
    {
        Duration { secs, nanos: 0 }
    }

    /// The span of `millis` milliseconds.
    pub fn from_millis(millis: u64) -> (d: Duration)
        ensures
            d@ == millis * 1_000_000,
    {
        let secs: u64 = millis / 1_000;
        let rest: u64 = millis % 1_000;
        let nanos: u32 = (rest as u32) * NANOS_PER_MILLI;
        Duration { secs, nanos }
    }

    /// The span of `micros` microseconds.
    pub fn from_micros(micros: u64) -> (d: Duration)
        ensures
            d@ == micros * 1_000,
    {
        let secs: u64 = micros / 1_000_000;
        let rest: u64 = micros % 1_000_000;
        let nanos: u32 = (rest as u32) * NANOS_PER_MICRO;
        Duration { secs, nanos }
    }

    /// The whole seconds of the span.
    pub fn as_secs(&self) -> (s: u64)
        ensures
            s == self@ / 1_000_000_000,
    {
        proof {
            use_type_invariant(self);
        }
        self.secs
    }

    /// The nanoseconds beyond the whole seconds.
    pub fn subsec_nanos(&self) -> (n: u32)
        ensures
            n == self@ % 1_000_000_000,
            n < NANOS_PER_SEC,
    {
        proof {
            use_type_invariant(self);
        }
        self.nanos
    }

    /// The length of the span in nanoseconds.
    pub fn as_nanos(&self) -> (n: u128)
        ensures
            n == self@,
            n < 0x1_0000_0000_0000_0000 * 1_000_000_000,
    {
        proof {
            use_type_invariant(self);
        }
        (self.secs as u128) * 1_000_000_000 + (self.nanos as u128)
    }

    /// The whole microseconds of the span.
    pub fn as_micros(&self) -> (n: u128)
        ensures
            n == self@ / 1_000,
    {
        proof {
            use_type_invariant(self);
        }
        (self.secs as u128) * 1_000_000 + ((self.nanos / NANOS_PER_MICRO) as u128)
    }

    /// The whole milliseconds of the span.
    pub fn as_millis(&self) -> (n: u128)
        ensures
            n == self@ / 1_000_000,
    {
        proof {
            use_type_invariant(self);
        }
        (self.secs as u128) * 1_000 + ((self.nanos / NANOS_PER_MILLI) as u128)
    }

    /// Whether the span is longer than `limit`.
    pub fn exceeds(&self, limit: &Duration) -> (longer: bool)
        ensures
            longer == (self@ > limit@),
    {
        self.as_nanos() > limit.as_nanos()
    }
}

} // verus!
