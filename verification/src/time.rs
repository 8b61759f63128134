//! Spans of time with nanosecond resolution.

use vstd::prelude::*;

verus! {

/// Nanoseconds in one second.
pub const NANOS_PER_SEC: u128 = 1_000_000_000;

/// Nanoseconds in one millisecond.
pub const NANOS_PER_MILLI: u128 = 1_000_000;

/// The longest span that can be held: `u64::MAX` seconds and 999,999,999 nanoseconds.
pub const MAX_NANOS: u128 = 18_446_744_073_709_551_615_999_999_999;

/// A non-negative span of time, at most [`MAX_NANOS`] nanoseconds long.
///
/// Its view is its length in nanoseconds.
#[derive(Debug, Clone, Copy, PartialEq, Eq, Structural)]
pub struct TimeSpan {
    nanos: u128,
}

impl View for TimeSpan {
    type V = nat;

    closed spec fn view(&self) -> nat {
        self.nanos as nat
    }
}

/// `n` nanoseconds, cut off at the longest span.
pub open spec fn saturate(n: int) -> int {
    if n <= MAX_NANOS {
        n
    } else {
        MAX_NANOS as int
    }
}

impl TimeSpan {
    #[verifier::type_invariant]
    pub closed spec fn bounded(self) -> bool {
        self.nanos <= MAX_NANOS
    }

    /// The empty span.
    pub fn zero() -> (out: TimeSpan)
        ensures
            out@ == 0,
    {
        TimeSpan { nanos: 0 }
    }

    /// A span of `nanos` nanoseconds, cut off at the longest span.
    pub fn from_nanos(nanos: u128) -> (out: TimeSpan)
        ensures
            out@ == saturate(nanos as int),
    {
        if nanos <= MAX_NANOS {
            TimeSpan { nanos }
        } else {
            TimeSpan { nanos: MAX_NANOS }
        }
    }

    /// A span of `millis` milliseconds.
    pub fn from_millis(millis: u64) -> (out: TimeSpan)
        ensures
            out@ == millis * NANOS_PER_MILLI,
    {
        let wide: u128 = millis as u128;
        assert(wide * NANOS_PER_MILLI <= MAX_NANOS) by (nonlinear_arith)
            requires
                wide <= u64::MAX,
        ;
        TimeSpan { nanos: wide * NANOS_PER_MILLI }
    }

    /// A span of `secs` seconds.
    pub fn from_secs(secs: u64) -> (out: TimeSpan)
        ensures
            out@ == secs * NANOS_PER_SEC,
    {
        let wide: u128 = secs as u128;
        assert(wide * NANOS_PER_SEC <= MAX_NANOS) by (nonlinear_arith)
            requires
                wide <= u64::MAX,
        ;
        TimeSpan { nanos: wide * NANOS_PER_SEC }
    }

    /// The length of the span in nanoseconds.
    pub fn as_nanos(&self) -> (out: u128)
        ensures
            out == self@,
            out <= MAX_NANOS,
    {
        proof {
            use_type_invariant(self);
        }
        self.nanos
    }

    /// The span `factor` times as long, cut off at the longest span.
    pub fn saturating_mul(&self, factor: u32) -> (out: TimeSpan)
        ensures
            out@ == saturate(self@ * factor),
    {
        proof {
            use_type_invariant(self);
        }
        let wide: u128 = factor as u128;
        assert(self.nanos * wide <= MAX_NANOS * 0xFFFF_FFFF) by (nonlinear_arith)
            requires
                self.nanos <= MAX_NANOS,
                wide <= 0xFFFF_FFFF,
        ;
        TimeSpan::from_nanos(self.nanos * wide)
    }
}

} // verus!
