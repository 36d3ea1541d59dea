//! Points in time and lengths of time, counted in nanoseconds.

use vstd::prelude::*;

verus! {

/// Nanoseconds in one second.
pub const NANOS_PER_SEC: u128 = 1_000_000_000;

/// A length of time in nanoseconds.
#[derive(Clone, Copy, Debug, PartialEq, Eq)]
pub struct Span {
    pub nanos: u128,
}

/// A reading of a clock: `secs` seconds and `nanos` nanoseconds after the
/// origin of that clock (the Unix epoch for the wall clock), or before it
/// where `secs` is negative.
#[derive(Clone, Copy, Debug, PartialEq, Eq)]
pub struct Timestamp {
    pub secs: i64,
    pub nanos: u32,
}

impl Span {
    /// The span of `secs` whole seconds.
    pub open spec fn of_secs(secs: u64) -> Span {
        Span { nanos: (secs * NANOS_PER_SEC) as u128 }
    }

    /// A span of `secs` whole seconds.
    pub fn from_secs(secs: u64) -> (s: Span)
        ensures
            s == Span::of_secs(secs),
            s.nanos == secs * 1_000_000_000,
    {
        assert(secs * 1_000_000_000 <= 0xffff_ffff_ffff_ffff * 1_000_000_000) by (nonlinear_arith)
            requires
                secs <= 0xffff_ffff_ffff_ffff,
        ;
        Span { nanos: secs as u128 * NANOS_PER_SEC }
    }

    /// The whole seconds of the span; `u64::MAX` for a span that holds more.
    pub open spec fn secs(self) -> u64 {
        if self.nanos / NANOS_PER_SEC <= u64::MAX {
            (self.nanos / NANOS_PER_SEC) as u64
        } else {
            u64::MAX
        }
    }

    /// The whole seconds of the span; `u64::MAX` for a span that holds more.
    pub fn whole_secs(&self) -> (secs: u64)
        ensures
            secs == self.secs(),
    {
        let secs = self.nanos / NANOS_PER_SEC;
        if secs <= u64::MAX as u128 {
            secs as u64
        } else {
            u64::MAX
        }
    }

    /// Whether this span is strictly longer than `other`.
    pub fn longer_than(&self, other: &Span) -> (b: bool)
        ensures
            b == (self.nanos > other.nanos),
    {
        self.nanos > other.nanos
    }

    /// Whether this span is strictly shorter than `other`.
    pub fn shorter_than(&self, other: &Span) -> (b: bool)
        ensures
            b == (self.nanos < other.nanos),
    {
        self.nanos < other.nanos
    }
}

impl Timestamp {
    /// The reading in nanoseconds after the origin.
    pub open spec fn at(self) -> int {
        self.secs * NANOS_PER_SEC + self.nanos
    }

    /// The reading `secs` seconds and `nanos` nanoseconds after the origin.
    pub fn new(secs: i64, nanos: u32) -> (t: Timestamp)
        ensures
            t == (Timestamp { secs, nanos }),
            t.at() == secs * 1_000_000_000 + nanos,
    {
        Timestamp { secs, nanos }
    }

    /// The time from `earlier` to `self` where `earlier` is not the later one.
    pub open spec fn elapsed_since(self, earlier: Timestamp) -> Option<Span> {
        if earlier.at() <= self.at() {
            Some(Span { nanos: (self.at() - earlier.at()) as u128 })
        } else {
            None
        }
    }

    /// The time that passed from `earlier` to `self`, or `None` when `earlier`
    /// lies after `self`.
    pub fn since(&self, earlier: &Timestamp) -> (r: Option<Span>)
        ensures
            r == self.elapsed_since(*earlier),
            r is Some <==> earlier.at() <= self.at(),
            r matches Some(s) ==> s.nanos == self.at() - earlier.at(),
    {
        let end = nanos_of(self);
        let start = nanos_of(earlier);
        if end < start {
            None
        } else {
            Some(Span { nanos: (end - start) as u128 })
        }
    }
}

/// The reading in nanoseconds after the origin.
fn nanos_of(t: &Timestamp) -> (n: i128)
    ensures
        n == t.at(),
        -0x8000_0000_0000_0000 * 1_000_000_000 <= n < 0x8000_0000_0000_0000 * 1_000_000_000
            + 0x1_0000_0000,
{
    let secs = t.secs as i128;
    assert(-0x8000_0000_0000_0000 * 1_000_000_000 <= secs * 1_000_000_000
        <= 0x8000_0000_0000_0000 * 1_000_000_000) by (nonlinear_arith)
        requires
            -0x8000_0000_0000_0000 <= secs <= 0x8000_0000_0000_0000,
    ;
    secs * 1_000_000_000 + t.nanos as i128
}

} // verus!
