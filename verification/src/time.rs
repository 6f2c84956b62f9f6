//! Spans of time, held as plain numbers so that a contract can speak about
//! them.

use vstd::prelude::*;

verus! {

/// Nanoseconds in one millisecond.
pub const NANOS_PER_MILLI: u128 = 1_000_000;

/// Nanoseconds in one second.
pub const NANOS_PER_SEC: u128 = 1_000_000_000;

/// A span of time, counted in nanoseconds.
#[derive(Clone, Copy, Debug, PartialEq, Eq, Hash, Structural)]
pub struct TimeSpan {
    pub nanos: u128,
}

impl TimeSpan {
    /// Whether the span has no length.
    pub open spec fn spec_is_zero(self) -> bool {
        self.nanos == 0
    }

    pub fn from_nanos(nanos: u128) -> (span: TimeSpan)
        ensures
            span.nanos == nanos,
    {
        TimeSpan { nanos }
    }

    pub fn from_millis(millis: u64) -> (span: TimeSpan)
        ensures
            span.nanos == millis * NANOS_PER_MILLI,
    {
        let millis: u128 = millis as u128;
        TimeSpan { nanos: millis * NANOS_PER_MILLI }
    }

    pub fn from_secs(secs: u64) -> (span: TimeSpan)
        ensures
            span.nanos == secs * NANOS_PER_SEC,
    {
        let secs: u128 = secs as u128;
        TimeSpan { nanos: secs * NANOS_PER_SEC }
    }

    #[verifier::when_used_as_spec(spec_is_zero)]
    pub fn is_zero(self) -> (zero: bool)
        ensures
            zero == self.spec_is_zero(),
    {
        self.nanos == 0
    }
}

} // verus!
