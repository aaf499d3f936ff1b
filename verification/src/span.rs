//! Non-negative time intervals, counted in whole nanoseconds.

use vstd::prelude::*;

verus! {

/// A non-negative length of time, counted in whole nanoseconds.
///
/// `Span` is the interval type of this crate: timer durations and elapsed
/// times are all `Span` values. Negative intervals are not representable,
/// and subtraction is offered only in checked and saturating forms.
#[derive(Clone, Copy, Debug, PartialEq, Eq, Structural)]
pub struct Span {
    pub nanos: u128,
}

/// `a - b`, clamped at zero when `b` exceeds `a`.
pub open spec fn spec_saturating_sub(a: nat, b: nat) -> nat {
    if b >= a {
        0
    } else {
        (a - b) as nat
    }
}

impl View for Span {
    type V = nat;

    open spec fn view(&self) -> nat {
        self.nanos as nat
    }
}

impl Span {
    /// The zero-length interval.
    pub fn zero() -> (s: Span)
        ensures
            s@ == 0,
    {
        Span { nanos: 0 }
    }

    /// An interval of exactly `nanos` nanoseconds.
    pub fn from_nanos(nanos: u128) -> (s: Span)
        ensures
            s@ == nanos,
    {
        Span { nanos }
    }

    /// An interval of `millis` milliseconds.
    pub fn from_millis(millis: u64) -> (s: Span)
        ensures
            s@ == millis * 1_000_000,
    {
        Span { nanos: (millis as u128) * 1_000_000 }
    }

    /// An interval of `secs` seconds.
    pub fn from_secs(secs: u64) -> (s: Span)
        ensures
            s@ == secs * 1_000_000_000,
    {
        Span { nanos: (secs as u128) * 1_000_000_000 }
    }

    /// The interval's length in nanoseconds.
    pub fn as_nanos(&self) -> (n: u128)
        ensures
            n == self@,
    {
        self.nanos
    }

    /// The interval's length in whole milliseconds, rounded down.
    pub fn as_millis(&self) -> (n: u128)
        ensures
            n == self@ / 1_000_000,
    {
        self.nanos / 1_000_000
    }

    /// Whether the interval is zero.
    pub fn is_zero(&self) -> (r: bool)
        ensures
            r == (self@ == 0),
    {
        self.nanos == 0
    }

    /// Whether `self` is no longer than `other`.
    pub fn le(&self, other: &Span) -> (r: bool)
        ensures
            r == (self@ <= other@),
    {
        self.nanos <= other.nanos
    }

    /// `self - other`, or `None` when `other` exceeds `self`.
    pub fn checked_sub(&self, other: &Span) -> (r: Option<Span>)
        ensures
            match r {
                Some(d) => self@ >= other@ && d@ == self@ - other@,
                None => self@ < other@,
            },
    {
        if self.nanos >= other.nanos {
            Some(Span { nanos: self.nanos - other.nanos })
        } else {
            None
        }
    }

    /// `self - other`, clamped at zero when `other` exceeds `self`.
    pub fn saturating_sub(&self, other: &Span) -> (r: Span)
        ensures
            r@ == spec_saturating_sub(self@, other@),
    {
        if self.nanos >= other.nanos {
            Span { nanos: self.nanos - other.nanos }
        } else {
            Span { nanos: 0 }
        }
    }
}

} // verus!
