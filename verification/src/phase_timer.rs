//! A single countdown: a fixed duration, the time elapsed so far and a pause flag.
//!
//! All times are whole nanoseconds.

use bevy::time::{Timer, TimerMode};
use std::time::Duration;
use vstd::prelude::*;

verus! {

/// Nanoseconds in one second.
pub const NANOS_PER_SEC: u64 = 1_000_000_000;

/// The mathematical value of a [`PhaseTimer`].
pub struct PhaseTimerView {
    pub duration: nat,
    pub elapsed: nat,
    pub paused: bool,
}

impl PhaseTimerView {
    /// The elapsed time never runs past the duration.
    pub open spec fn wf(self) -> bool {
        self.elapsed <= self.duration
    }

    /// The countdown has run out.
    pub open spec fn finished(self) -> bool {
        self.elapsed >= self.duration
    }

    /// Time left on the countdown, never negative.
    pub open spec fn remaining(self) -> nat {
        if self.elapsed >= self.duration {
            0
        } else {
            (self.duration - self.elapsed) as nat
        }
    }

    /// The timer after `delta` has passed: a paused timer stands still, a running
    /// one moves forward and stops at its duration.
    pub open spec fn advance(self, delta: nat) -> Self {
        if self.paused {
            self
        } else if self.elapsed + delta >= self.duration {
            PhaseTimerView { elapsed: self.duration, ..self }
        } else {
            PhaseTimerView { elapsed: self.elapsed + delta, ..self }
        }
    }

    /// The timer with its countdown started over; the pause flag stays.
    pub open spec fn reset(self) -> Self {
        PhaseTimerView { elapsed: 0, ..self }
    }

    /// The timer, paused.
    pub open spec fn pause(self) -> Self {
        PhaseTimerView { paused: true, ..self }
    }

    /// The timer, running.
    pub open spec fn unpause(self) -> Self {
        PhaseTimerView { paused: false, ..self }
    }
}

/// A countdown over a fixed duration.
#[derive(Clone, Copy, Debug)]
pub struct PhaseTimer {
    duration: u64,
    elapsed: u64,
    paused: bool,
}

impl View for PhaseTimer {
    type V = PhaseTimerView;

    closed spec fn view(&self) -> PhaseTimerView {
        PhaseTimerView {
            duration: self.duration as nat,
            elapsed: self.elapsed as nat,
            paused: self.paused,
        }
    }
}

/// One tick of a running countdown, computed by `bevy::time::Timer::tick`.
///
/// The body makes a bevy timer of `duration` nanoseconds in `TimerMode::Once`,
/// puts `elapsed` nanoseconds on it, ticks it by `delta` nanoseconds and reads
/// the elapsed time back. The contract is taken on trust from bevy: a one-shot
/// timer that is neither paused nor finished adds the delta to its elapsed time
/// and, once that reaches the duration, stops there. Sums of nanosecond counts
/// that fit in a `u64` are far below what a `Duration` can hold, so the tick
/// does not overflow.
#[verifier::external_body]
fn tick_once(duration: u64, elapsed: u64, delta: u64) -> (after: u64)
    ensures
        after == if elapsed + delta >= duration {
            duration as int
        } else {
            elapsed + delta
        },
{
    let mut timer = Timer::new(Duration::from_nanos(duration), TimerMode::Once);
    timer.set_elapsed(Duration::from_nanos(elapsed));
    timer.tick(Duration::from_nanos(delta));
    timer.elapsed().as_nanos() as u64
}

impl PhaseTimer {
    /// Holds of every timer that exists.
    #[verifier::type_invariant]
    pub open spec fn well_formed(self) -> bool {
        self@.wf()
    }

    /// A fresh, running timer over `duration` nanoseconds.
    pub fn new(duration: u64) -> (timer: Self)
        ensures
            timer@ == (PhaseTimerView { duration: duration as nat, elapsed: 0, paused: false }),
            timer@.wf(),
    {
        PhaseTimer { duration, elapsed: 0, paused: false }
    }

    /// Moves the timer forward by `delta` nanoseconds unless it is paused.
    pub fn advance(&mut self, delta: u64)
        ensures
            final(self)@ == old(self)@.advance(delta as nat),
            final(self)@.wf(),
    {
        proof {
            use_type_invariant(&*self);
        }
        if !self.paused {
            self.elapsed = tick_once(self.duration, self.elapsed, delta);
        }
    }

    /// Whether the whole duration has elapsed.
    pub fn finished(&self) -> (done: bool)
        ensures
            done == self@.finished(),
    {
        proof {
            use_type_invariant(self);
        }
        self.elapsed >= self.duration
    }

    /// Starts the countdown over; the pause flag stays as it is.
    pub fn reset(&mut self)
        ensures
            final(self)@ == old(self)@.reset(),
            final(self)@.wf(),
    {
        self.elapsed = 0;
    }

    /// Stops the countdown where it is. Pausing a paused timer changes nothing.
    pub fn pause(&mut self)
        ensures
            final(self)@ == old(self)@.pause(),
            final(self)@.wf(),
    {
        proof {
            use_type_invariant(&*self);
        }
        self.paused = true;
    }

    /// Lets the countdown run again. Resuming a running timer changes nothing.
    pub fn unpause(&mut self)
        ensures
            final(self)@ == old(self)@.unpause(),
            final(self)@.wf(),
    {
        proof {
            use_type_invariant(&*self);
        }
        self.paused = false;
    }

    /// Whether the countdown is paused.
    pub fn paused(&self) -> (paused: bool)
        ensures
            paused == self@.paused,
    {
        self.paused
    }

    /// Nanoseconds left on the countdown.
    pub fn remaining(&self) -> (left: u64)
        ensures
            left == self@.remaining(),
    {
        proof {
            use_type_invariant(self);
        }
        self.duration - self.elapsed
    }

    /// Whole seconds left on the countdown, rounded down.
    pub fn remaining_secs(&self) -> (secs: u64)
        ensures
            secs == self@.remaining() / (NANOS_PER_SEC as nat),
    {
        self.remaining() / NANOS_PER_SEC
    }

    /// Nanoseconds elapsed since the countdown last started over.
    pub fn elapsed(&self) -> (elapsed: u64)
        ensures
            elapsed == self@.elapsed,
    {
        self.elapsed
    }

    /// The length of the countdown in nanoseconds.
    pub fn duration(&self) -> (duration: u64)
        ensures
            duration == self@.duration,
    {
        self.duration
    }
}

/// Every operation leads from a timer whose elapsed time is within its duration
/// to another such timer, and none of them changes the duration.
pub proof fn lemma_operations_keep_wf(timer: PhaseTimerView, delta: nat)
    requires
        timer.wf(),
    ensures
        timer.advance(delta).wf(),
        timer.reset().wf(),
        timer.pause().wf(),
        timer.unpause().wf(),
        timer.advance(delta).duration == timer.duration,
        timer.reset().duration == timer.duration,
        timer.pause().duration == timer.duration,
        timer.unpause().duration == timer.duration,
{
}

/// Time only moves a countdown forward, and two ticks in a row do what one tick
/// of their sum does.
pub proof fn lemma_advance_adds_up(timer: PhaseTimerView, first: nat, second: nat)
    requires
        timer.wf(),
    ensures
        timer.advance(first).elapsed >= timer.elapsed,
        timer.advance(first).advance(second) == timer.advance(first + second),
{
}

/// Pausing a paused timer and resuming a running one change nothing.
pub proof fn lemma_pause_is_idempotent(timer: PhaseTimerView)
    ensures
        timer.pause().pause() == timer.pause(),
        timer.unpause().unpause() == timer.unpause(),
        timer.paused ==> timer.pause() == timer,
        !timer.paused ==> timer.unpause() == timer,
{
}

/// A timer is finished exactly when no time remains on it.
pub proof fn lemma_finished_means_nothing_remains(timer: PhaseTimerView)
    ensures
        timer.finished() <==> timer.remaining() == 0,
{
}

} // verus!
