//! A span of time with nanosecond resolution.

use vstd::prelude::*;

verus! {

/// Number of nanoseconds in one second.
pub const NANOS_PER_SEC: u128 = 1_000_000_000;

/// Number of nanoseconds in one millisecond.
pub const NANOS_PER_MILLI: u128 = 1_000_000;

/// The largest span a `Duration` holds: `u64::MAX` seconds and
/// 999 999 999 nanoseconds, the same range as the standard library's span.
pub const MAX_NANOS: u128 = 18_446_744_073_709_551_615 * 1_000_000_000 + 999_999_999;

/// A span of time, counted in whole nanoseconds.
#[derive(Debug, Clone, Copy, PartialEq, Eq, Structural, PartialOrd, Ord, Hash, Default)]
pub struct Duration {
    nanos: u128,
}

impl Duration {
    #[verifier::type_invariant]
    spec fn in_range(self) -> bool {
        self.nanos <= MAX_NANOS
    }

    /// The span in nanoseconds (never more than `MAX_NANOS`).
    pub closed spec fn spec_nanos(self) -> nat {
        if self.nanos <= MAX_NANOS {
            self.nanos as nat
        } else {
            MAX_NANOS as nat
        }
    }

    /// Every span is at most `MAX_NANOS` nanoseconds long, so its length
    /// fits a `u128` and `spec_nanos() as u128` is the length itself.
    pub proof fn law_nanos_in_range(self)
        ensures
            self.spec_nanos() <= MAX_NANOS,
            self.spec_nanos() as u128 as nat == self.spec_nanos(),
    {
    }

    /// A span of zero length.
    pub fn zero() -> (d: Duration)
        ensures
            d.spec_nanos() == 0,
    {
        Duration { nanos: 0 }
    }

    /// A span of `secs` whole seconds.
    pub fn from_secs(secs: u64) -> (d: Duration)
        ensures
            d.spec_nanos() == secs * NANOS_PER_SEC,
    {
        Duration { nanos: (secs as u128) * NANOS_PER_SEC }
    }

    /// A span of `millis` milliseconds.
    pub fn from_millis(millis: u64) -> (d: Duration)
        ensures
            d.spec_nanos() == millis * NANOS_PER_MILLI,
    {
        Duration { nanos: (millis as u128) * NANOS_PER_MILLI }
    }

    /// A span of `nanos` nanoseconds.
    pub fn from_nanos(nanos: u64) -> (d: Duration)
        ensures
            d.spec_nanos() == nanos,
    {
        Duration { nanos: nanos as u128 }
    }

    /// A span of `secs` seconds and `nanos` nanoseconds; nanoseconds beyond
    /// one second carry into the seconds.
    pub fn new(secs: u64, nanos: u32) -> (d: Duration)
        requires
            secs + (nanos as int) / 1_000_000_000 <= u64::MAX,
        ensures
            d.spec_nanos() == secs * NANOS_PER_SEC + nanos,
    {
        Duration { nanos: (secs as u128) * NANOS_PER_SEC + (nanos as u128) }
    }

    /// The whole number of seconds in the span.
    pub fn as_secs(&self) -> (s: u64)
        ensures
            s == self.spec_nanos() / (NANOS_PER_SEC as nat),
    {
        proof { use_type_invariant(self); }
        (self.nanos / NANOS_PER_SEC) as u64
    }

    /// The fractional part of the span, in nanoseconds.
    pub fn subsec_nanos(&self) -> (n: u32)
        ensures
            n == self.spec_nanos() % (NANOS_PER_SEC as nat),
    {
        proof { use_type_invariant(self); }
        (self.nanos % NANOS_PER_SEC) as u32
    }

    /// The whole number of milliseconds in the span.
    pub fn as_millis(&self) -> (m: u128)
        ensures
            m == self.spec_nanos() / (NANOS_PER_MILLI as nat),
    {
        proof { use_type_invariant(self); }
        self.nanos / NANOS_PER_MILLI
    }

    /// The span in nanoseconds.
    pub fn as_nanos(&self) -> (n: u128)
        ensures
            n == self.spec_nanos(),
            n <= MAX_NANOS,
    {
        proof { use_type_invariant(self); }
        self.nanos
    }

    /// `self - earlier`, or zero when `earlier` is the longer span.
    pub fn saturating_sub(&self, earlier: Duration) -> (d: Duration)
        ensures
            d.spec_nanos() == (if self.spec_nanos() >= earlier.spec_nanos() {
                self.spec_nanos() - earlier.spec_nanos()
            } else {
                0
            }),
    {
        proof { use_type_invariant(self); }
        if self.nanos >= earlier.nanos {
            Duration { nanos: self.nanos - earlier.nanos }
        } else {
            Duration { nanos: 0 }
        }
    }
}

} // verus!
