//! The engine's timer, as far as the rules use it.
//!
//! A [`Timer`] is the engine's own and opaque here. The five spec functions
//! below name what its accessors return, [`TimerState`] gathers them, and the
//! three functions at the end are the only places where a timer is made,
//! advanced or asked. Their contracts are taken from the engine's source and
//! are not proved.

use vstd::prelude::*;
use bevy::time::Timer;
use std::time::Duration;

verus! {

/// Declares the engine's `Timer`, so that it can stand in fields and
/// signatures. Nothing inside it is visible here.
#[verifier::external_type_specification]
#[verifier::external_body]
pub struct ExTimer(bevy::time::Timer);

/// The nanoseconds in a millisecond.
pub const NANOS_PER_MILLI: u64 = 1_000_000;

/// What `Timer::duration` returns for this timer, in nanoseconds.
pub uninterp spec fn timer_duration(timer: Timer) -> nat;

/// What `Timer::elapsed` returns for this timer, in nanoseconds.
pub uninterp spec fn timer_elapsed(timer: Timer) -> nat;

/// What `Timer::repeating` returns for this timer.
pub uninterp spec fn timer_repeating(timer: Timer) -> bool;

/// What `Timer::paused` returns for this timer.
pub uninterp spec fn timer_paused(timer: Timer) -> bool;

/// What `Timer::just_finished` returns for this timer.
pub uninterp spec fn timer_just_finished(timer: Timer) -> bool;

/// What the rules read of a timer. Times are in nanoseconds.
pub struct TimerState {
    pub duration: nat,
    pub elapsed: nat,
    pub repeating: bool,
    pub paused: bool,
    pub just_finished: bool,
}

/// The state of a timer, through the names of its accessors.
pub open spec fn timer_state(timer: Timer) -> TimerState {
    TimerState {
        duration: timer_duration(timer),
        elapsed: timer_elapsed(timer),
        repeating: timer_repeating(timer),
        paused: timer_paused(timer),
        just_finished: timer_just_finished(timer),
    }
}

impl TimerState {
    /// A timer of `millis` milliseconds on which no time has passed.
    pub open spec fn fresh(millis: nat, repeating: bool) -> TimerState {
        TimerState {
            duration: millis * (NANOS_PER_MILLI as nat),
            elapsed: 0,
            repeating,
            paused: false,
            just_finished: false,
        }
    }

    /// A repeating timer that runs: it has a period, is not paused, and is
    /// part way through its period.
    pub open spec fn runs(self) -> bool {
        &&& self.repeating
        &&& !self.paused
        &&& 0 < self.duration <= u64::MAX
        &&& self.elapsed < self.duration
    }

    /// Whether the period ends within the next `delta` nanoseconds.
    pub open spec fn expires_within(self, delta: nat) -> bool {
        self.elapsed + delta >= self.duration
    }

    /// How many periods end within the next `delta` nanoseconds.
    pub open spec fn periods_within(self, delta: nat) -> nat {
        (self.elapsed + delta) / self.duration
    }

    /// A running timer `delta` nanoseconds later: what lies beyond the last
    /// full period is carried into the next one, and the timer has just
    /// finished if a period ended on the way, however many did.
    pub open spec fn after(self, delta: nat) -> TimerState {
        TimerState {
            duration: self.duration,
            elapsed: (self.elapsed + delta) % self.duration,
            repeating: self.repeating,
            paused: self.paused,
            just_finished: self.expires_within(delta),
        }
    }
}

/// Calls `Timer::new` with a duration of `millis` milliseconds. The engine
/// starts such a timer unpaused, with no time elapsed and not finished.
#[verifier::external_body]
pub(crate) fn new_timer(millis: u32, repeating: bool) -> (timer: Timer)
    ensures
        timer_duration(timer) == millis * NANOS_PER_MILLI,
        timer_elapsed(timer) == 0,
        timer_repeating(timer) == repeating,
        !timer_paused(timer),
        !timer_just_finished(timer),
{
    Timer::new(Duration::from_millis(millis as u64), repeating)
}

/// Calls `Timer::tick` with a step of `delta` nanoseconds, on a running
/// repeating timer. The engine adds the step to the elapsed time, counts the
/// full periods in that sum in 32 bits, keeps what is left beyond them as
/// the new elapsed time, and reports the timer as just finished if it
/// counted at least one. It divides by the duration, so the duration must
/// not be zero, and the contract holds only where the count fits.
#[verifier::external_body]
pub(crate) fn tick_timer(timer: &mut Timer, delta: u64)
    requires
        timer_state(*old(timer)).runs(),
        timer_state(*old(timer)).periods_within(delta as nat) <= u32::MAX,
    ensures
        timer_duration(*final(timer)) == timer_duration(*old(timer)),
        timer_elapsed(*final(timer)) == timer_state(*old(timer)).after(delta as nat).elapsed,
        timer_repeating(*final(timer)) == timer_repeating(*old(timer)),
        timer_paused(*final(timer)) == timer_paused(*old(timer)),
        timer_just_finished(*final(timer)) == timer_state(*old(timer)).expires_within(delta as nat),
{
    timer.tick(Duration::from_nanos(delta));
}

/// Calls `Timer::just_finished`.
#[verifier::external_body]
pub(crate) fn just_finished(timer: &Timer) -> (finished: bool)
    ensures
        finished == timer_just_finished(*timer),
{
    timer.just_finished()
}

} // verus!
