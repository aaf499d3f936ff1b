//! The timer: one configured duration, one resettable reference point.

use vstd::cell::invcell::InvCell;
use vstd::predicate::Predicate;
use vstd::prelude::*;

use crate::span::Span;
use crate::span::spec_saturating_sub;

verus! {

/// The invariant of the timer's reference cell: any reading of the monotonic
/// clock is a valid reference point.
pub struct AnyInstant {}

impl Predicate<std::time::Instant> for AnyInstant {
    open spec fn predicate(&self, v: std::time::Instant) -> bool {
        true
    }
}

/// Whether a window of length `duration` is over once `elapsed` time has
/// passed. The boundary is inclusive: the window is over the moment the
/// elapsed time reaches the duration, and a zero duration is over at once.
pub open spec fn spec_expired(duration: nat, elapsed: nat) -> bool {
    elapsed >= duration
}

/// How much of a window of length `duration` is left once `elapsed` time has
/// passed: zero when the window is already over.
pub open spec fn spec_remaining(duration: nat, elapsed: nat) -> nat {
    spec_saturating_sub(duration, elapsed)
}

/// A polling timer: a fixed duration and a reference point on the monotonic
/// clock, set at construction and moved to "now" by [`Timer::reset`].
///
/// The duration never changes after construction; the abstract view of a
/// `Timer` is that duration, in nanoseconds. The reference point is kept in
/// a shared-writable cell so that a timer embedded in a larger object can be
/// reset through a read-only reference, without exclusive access to its
/// owner. The cell makes no cross-thread guarantee: callers sharing one
/// timer across threads must serialize their calls themselves.
pub struct Timer {
    reference: InvCell<std::time::Instant, AnyInstant>,
    duration: Span,
}

impl View for Timer {
    type V = nat;

    closed spec fn view(&self) -> nat {
        self.duration@
    }
}

impl Timer {
    /// A timer of zero duration, born expired: useful only for measuring
    /// elapsed time since construction or the last reset.
    pub fn new() -> (t: Timer)
        ensures
            t@ == 0,
    {
        Timer::with_duration(Span::zero())
    }

    /// A timer whose window is `duration` long, measured from now.
    pub fn with_duration(duration: Span) -> (t: Timer)
        ensures
            t@ == duration@,
    {
        Timer {
            reference: InvCell::new(std::time::Instant::now(), Ghost(AnyInstant {})),
            duration,
        }
    }

    /// Restart the window: move the reference point to now. The configured
    /// duration is untouched — `reset` has no access to it.
    ///
    /// Takes only a read-only reference, by design: an object holding a
    /// `Timer` field can reset it without being mutably borrowed itself.
    pub fn reset(&self) {
        self.reference.set(std::time::Instant::now());
    }

    /// The configured duration, exactly as given at construction.
    pub fn duration(&self) -> (d: Span)
        ensures
            d@ == self@,
    {
        self.duration
    }

    /// The time elapsed since construction or the last reset, read from the
    /// monotonic clock. The value depends on when the call is made, so no
    /// more can be promised of it; it never decreases between resets because
    /// the clock never runs backward.
    pub fn elapsed(&self) -> (e: Span) {
        let reference: std::time::Instant = self.reference.get();
        let d: std::time::Duration = reference.elapsed();
        Span::from_nanos(d.as_nanos())
    }

    /// Whether a timer with this duration is expired once `elapsed` time has
    /// passed: true exactly when `elapsed` reaches the duration.
    pub fn expired_at(&self, elapsed: Span) -> (r: bool)
        ensures
            r == spec_expired(self@, elapsed@),
    {
        self.duration.le(&elapsed)
    }

    /// Whether the timer is expired now: whether the time elapsed since the
    /// last reset has reached the configured duration. Whatever the clock
    /// returns, a zero-duration timer is expired.
    pub fn expired(&self) -> (r: bool)
        ensures
            self@ == 0 ==> r,
    {
        self.expired_at(self.elapsed())
    }

    /// How much of the window is left once `elapsed` time has passed:
    /// the duration less `elapsed`, clamped at zero when the window is
    /// already over.
    pub fn remaining_at(&self, elapsed: Span) -> (r: Span)
        ensures
            r@ == spec_remaining(self@, elapsed@),
    {
        self.duration.saturating_sub(&elapsed)
    }

    /// How much of the window is left now. This is the bounded interval a
    /// blocking wait sleeps for: zero — no sleep at all — whenever the timer
    /// is already expired, and never more than the configured duration.
    pub fn remaining(&self) -> (r: Span)
        ensures
            r@ <= self@,
            self@ == 0 ==> r@ == 0,
    {
        self.remaining_at(self.elapsed())
    }
}

/// A freshly started window has elapsed time zero, so a timer is expired
/// immediately exactly when its duration is zero; and any timer is expired
/// once the elapsed time reaches its duration.
pub proof fn lemma_fresh_expiry(duration: nat, elapsed: nat)
    ensures
        spec_expired(duration, 0) <==> duration == 0,
        elapsed >= duration ==> spec_expired(duration, elapsed),
{
}

/// Expiry is inclusive at the boundary: a window of length `duration` is
/// expired at elapsed time exactly `duration`, not only strictly after.
pub proof fn lemma_expiry_boundary(duration: nat)
    ensures
        spec_expired(duration, duration),
{
}

/// A reset restarts the window: at the moment of a reset the elapsed time is
/// zero again, so a timer with a positive duration is pending once more and
/// its whole duration is left.
pub proof fn lemma_reset_restarts_window(duration: nat)
    ensures
        duration > 0 ==> !spec_expired(duration, 0),
        spec_remaining(duration, 0) == duration,
{
}

/// As elapsed time grows, expiry never reverts and the remaining time never
/// grows: with the clock monotone between resets, once a timer is expired it
/// stays expired until reset.
pub proof fn lemma_expiry_monotonic(duration: nat, elapsed1: nat, elapsed2: nat)
    requires
        elapsed1 <= elapsed2,
    ensures
        spec_expired(duration, elapsed1) ==> spec_expired(duration, elapsed2),
        spec_remaining(duration, elapsed2) <= spec_remaining(duration, elapsed1),
{
}

/// An expired timer has nothing left to wait for: a blocking wait on it
/// sleeps for zero time and returns at once.
pub proof fn lemma_expired_leaves_no_remainder(duration: nat, elapsed: nat)
    requires
        spec_expired(duration, elapsed),
    ensures
        spec_remaining(duration, elapsed) == 0,
{
}

/// A pending timer waits only for what is left of the window, not the whole
/// duration over again: the time already elapsed plus the remainder is
/// exactly the configured duration.
pub proof fn lemma_wait_accounts_for_elapsed(duration: nat, elapsed: nat)
    requires
        elapsed < duration,
    ensures
        elapsed + spec_remaining(duration, elapsed) == duration,
{
}

} // verus!
