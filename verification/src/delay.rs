//! Time spans in whole nanoseconds.

use vstd::prelude::*;

verus! {

pub const NANOS_PER_MILLI: u64 = 1_000_000;

pub const NANOS_PER_SEC: u64 = 1_000_000_000;

/// A span of time, held in whole nanoseconds. The longest span that fits is
/// a little over 584 years; the constructors saturate there.
#[derive(Debug, Clone, Copy, PartialEq, Eq, Structural, PartialOrd, Ord, Hash)]
pub struct Delay {
    pub nanos: u64,
}

/// `value` where it fits in 64 bits, the largest 64-bit number otherwise.
pub open spec fn clamp_u64(value: int) -> u64 {
    if value > u64::MAX {
        u64::MAX
    } else if value < 0 {
        0
    } else {
        value as u64
    }
}

impl Delay {
    pub fn zero() -> (d: Delay)
        ensures
            d.nanos == 0,
    {
        Delay { nanos: 0 }
    }

    pub fn from_nanos(nanos: u64) -> (d: Delay)
        ensures
            d.nanos == nanos,
    {
        Delay { nanos }
    }

    pub fn from_millis(millis: u64) -> (d: Delay)
        ensures
            d.nanos == clamp_u64(millis * NANOS_PER_MILLI),
    {
        if millis > u64::MAX / NANOS_PER_MILLI {
            Delay { nanos: u64::MAX }
        } else {
            assert(millis * NANOS_PER_MILLI <= u64::MAX) by (nonlinear_arith)
                requires
                    millis <= u64::MAX / NANOS_PER_MILLI,
                    NANOS_PER_MILLI == 1_000_000,
            ;
            Delay { nanos: millis * NANOS_PER_MILLI }
        }
    }

    pub fn from_secs(secs: u64) -> (d: Delay)
        ensures
            d.nanos == clamp_u64(secs * NANOS_PER_SEC),
    {
        if secs > u64::MAX / NANOS_PER_SEC {
            Delay { nanos: u64::MAX }
        } else {
            assert(secs * NANOS_PER_SEC <= u64::MAX) by (nonlinear_arith)
                requires
                    secs <= u64::MAX / NANOS_PER_SEC,
                    NANOS_PER_SEC == 1_000_000_000,
            ;
            Delay { nanos: secs * NANOS_PER_SEC }
        }
    }

    pub fn as_nanos(&self) -> (n: u64)
        ensures
            n == self.nanos,
    {
        self.nanos
    }

    /// Whole milliseconds in the span, rounded down.
    pub fn as_millis(&self) -> (n: u64)
        ensures
            n == self.nanos / NANOS_PER_MILLI,
    {
        self.nanos / NANOS_PER_MILLI
    }

    /// The sum of two spans, saturating at the longest span.
    pub fn saturating_add(&self, other: Delay) -> (d: Delay)
        ensures
            d.nanos == clamp_u64(self.nanos + other.nanos),
    {
        Delay { nanos: self.nanos.saturating_add(other.nanos) }
    }
}

} // verus!
