//! Countdown and repeating timers over whole nanoseconds.
//!
//! The arithmetic of a tick is done by the engine's own timer; this module
//! keeps the timer's state as plain integers and says what each tick does to
//! them.

use std::time::Duration;
use vstd::prelude::*;

verus! {

/// What a timer does when it reaches its duration.
#[derive(Debug, Clone, Copy, PartialEq, Eq, Hash, Structural)]
pub enum TimerMode {
    /// Stop at the duration and stay finished.
    Once,
    /// Wrap around and keep counting.
    Repeating,
}

/// The elapsed time of an unfinished timer after `delta` more nanoseconds:
/// clamped at the duration for a one-shot timer, wrapped for a repeating one.
pub open spec fn elapsed_after(duration: nat, elapsed: nat, mode: TimerMode, delta: nat) -> nat {
    let total = elapsed + delta;
    if total < duration {
        total
    } else if mode == TimerMode::Repeating {
        total % duration
    } else {
        duration
    }
}

/// How often an unfinished timer reaches its duration within `delta` more
/// nanoseconds: at most once for a one-shot timer, once per whole period for
/// a repeating one.
pub open spec fn finishes_after(duration: nat, elapsed: nat, mode: TimerMode, delta: nat) -> nat {
    let total = elapsed + delta;
    if total < duration {
        0
    } else if mode == TimerMode::Repeating {
        total / duration
    } else {
        1
    }
}

/// Runs `bevy::time::Timer::tick` once, on a timer built by `Timer::new` with
/// the given duration and mode and set to `elapsed` by `set_elapsed`, and
/// reads back `elapsed()` and `times_finished_this_tick()`.
///
/// Trusted: a timer built this way has not finished, so the tick adds `delta`
/// to the elapsed time; a one-shot timer then clamps at its duration and
/// counts one finish, a repeating timer wraps and counts the whole periods.
/// The engine divides by the duration and keeps the count in a `u32`, which
/// is why the duration is positive and the count is bounded here.
#[verifier::external_body]
fn tick_unfinished(duration: u64, elapsed: u64, mode: TimerMode, delta: u64) -> (r: (u64, u32))
    requires
        duration > 0,
        mode == TimerMode::Repeating ==> (elapsed as nat + delta as nat) / (duration as nat)
            <= u32::MAX,
    ensures
        r.0 == elapsed_after(duration as nat, elapsed as nat, mode, delta as nat),
        r.1 == finishes_after(duration as nat, elapsed as nat, mode, delta as nat),
{
    let mode = match mode {
        TimerMode::Once => bevy::time::TimerMode::Once,
        TimerMode::Repeating => bevy::time::TimerMode::Repeating,
    };
    let mut timer = bevy::time::Timer::new(Duration::from_nanos(duration), mode);
    timer.set_elapsed(Duration::from_nanos(elapsed));
    timer.tick(Duration::from_nanos(delta));
    (timer.elapsed().as_nanos() as u64, timer.times_finished_this_tick())
}

/// The state of a [`Timer`], in nanoseconds.
pub struct TimerView {
    /// The period of the timer; positive.
    pub duration: nat,
    /// Time counted so far in the current period.
    pub elapsed: nat,
    pub mode: TimerMode,
    /// Whether the last tick that advanced the timer reached the duration.
    pub finished: bool,
    /// How often the last tick reached the duration.
    pub times_finished: nat,
}

impl TimerView {
    /// What holds of every timer: its duration is positive.
    pub open spec fn wf(self) -> bool {
        self.duration > 0
    }

    /// A timer as `Timer::new` makes it.
    pub open spec fn fresh(duration: nat, mode: TimerMode) -> TimerView {
        TimerView { duration, elapsed: 0, mode, finished: false, times_finished: 0 }
    }

    /// A one-shot timer that has finished ignores further ticks.
    pub open spec fn stopped(self) -> bool {
        self.mode == TimerMode::Once && self.finished
    }

    /// Whether a tick of `delta` can be counted: the number of periods that a
    /// repeating timer completes in one tick has to fit in a `u32`.
    pub open spec fn fits(self, delta: nat) -> bool {
        self.mode == TimerMode::Repeating ==> (self.elapsed + delta) / self.duration <= u32::MAX
    }

    /// The timer after a tick of `delta`.
    pub open spec fn tick(self, delta: nat) -> TimerView {
        if self.stopped() {
            TimerView { times_finished: 0, ..self }
        } else {
            let times = finishes_after(self.duration, self.elapsed, self.mode, delta);
            TimerView {
                elapsed: elapsed_after(self.duration, self.elapsed, self.mode, delta),
                finished: times > 0,
                times_finished: times,
                ..self
            }
        }
    }

    /// True only after the tick that reached the duration.
    pub open spec fn just_finished(self) -> bool {
        self.times_finished > 0
    }

    /// Whether more than half of the duration has elapsed.
    pub open spec fn past_half(self) -> bool {
        2 * self.elapsed > self.duration
    }
}

/// A countdown (`Once`) or a metronome (`Repeating`).
#[derive(Debug, Clone, Copy)]
pub struct Timer {
    duration: u64,
    elapsed: u64,
    mode: TimerMode,
    finished: bool,
    times_finished_this_tick: u32,
}

impl View for Timer {
    type V = TimerView;

    closed spec fn view(&self) -> TimerView {
        TimerView {
            duration: self.duration as nat,
            elapsed: self.elapsed as nat,
            mode: self.mode,
            finished: self.finished,
            times_finished: self.times_finished_this_tick as nat,
        }
    }
}

impl Timer {
    #[verifier::type_invariant]
    pub open spec fn inv(self) -> bool {
        self@.wf()
    }

    /// A timer of `duration` nanoseconds with nothing elapsed.
    pub fn new(duration: u64, mode: TimerMode) -> (timer: Timer)
        requires
            duration > 0,
        ensures
            timer@ == TimerView::fresh(duration as nat, mode),
    {
        Timer { duration, elapsed: 0, mode, finished: false, times_finished_this_tick: 0 }
    }

    pub fn duration(&self) -> (nanos: u64)
        ensures
            nanos == self@.duration,
    {
        self.duration
    }

    pub fn elapsed(&self) -> (nanos: u64)
        ensures
            nanos == self@.elapsed,
    {
        self.elapsed
    }

    pub fn mode(&self) -> (mode: TimerMode)
        ensures
            mode == self@.mode,
    {
        self.mode
    }

    pub fn finished(&self) -> (b: bool)
        ensures
            b == self@.finished,
    {
        self.finished
    }

    pub fn just_finished(&self) -> (b: bool)
        ensures
            b == self@.just_finished(),
    {
        self.times_finished_this_tick > 0
    }

    pub fn times_finished_this_tick(&self) -> (n: u32)
        ensures
            n == self@.times_finished,
    {
        self.times_finished_this_tick
    }

    /// Whether the elapsed fraction of the duration is above one half.
    pub fn past_half(&self) -> (b: bool)
        ensures
            b == self@.past_half(),
    {
        self.elapsed > self.duration / 2
    }

    /// Whether `tick(delta)` may be called.
    pub fn fits(&self, delta: u64) -> (b: bool)
        ensures
            b == self@.fits(delta as nat),
    {
        proof {
            use_type_invariant(self);
        }
        match self.mode {
            TimerMode::Once => true,
            TimerMode::Repeating => {
                let periods: u128 = (self.elapsed as u128 + delta as u128) / (self.duration as u128);
                periods <= u32::MAX as u128
            },
        }
    }

    /// Changes the period; the elapsed time and the flags stay.
    pub fn set_duration(&mut self, duration: u64)
        requires
            duration > 0,
        ensures
            final(self)@ == (TimerView { duration: duration as nat, ..old(self)@ }),
    {
        self.duration = duration;
    }

    /// Advances the timer by `delta` nanoseconds.
    pub fn tick(&mut self, delta: u64)
        requires
            old(self)@.fits(delta as nat),
        ensures
            final(self)@ == old(self)@.tick(delta as nat),
    {
        proof {
            use_type_invariant(&*self);
        }
        if self.mode == TimerMode::Once && self.finished {
            self.times_finished_this_tick = 0;
        } else {
            let (elapsed, times) = tick_unfinished(self.duration, self.elapsed, self.mode, delta);
            self.elapsed = elapsed;
            self.times_finished_this_tick = times;
            self.finished = times > 0;
        }
    }
}

/// A tick that counts leaves no more elapsed than the duration: a repeating
/// timer stays below it, a one-shot timer stops at it.
pub proof fn lemma_tick_bounds(timer: TimerView, delta: nat)
    requires
        timer.wf(),
        !timer.stopped(),
    ensures
        timer.tick(delta).elapsed <= timer.duration,
        timer.mode == TimerMode::Repeating ==> timer.tick(delta).elapsed < timer.duration,
        timer.tick(delta).just_finished() <==> timer.elapsed + delta >= timer.duration,
        timer.tick(delta).duration == timer.duration,
        timer.tick(delta).mode == timer.mode,
{
    let total = timer.elapsed + delta;
    if total >= timer.duration {
        assert(total / timer.duration >= 1 && total % timer.duration < timer.duration)
            by (nonlinear_arith)
            requires
                total >= timer.duration,
                timer.duration > 0,
        ;
    }
}

/// A one-shot timer reports its end in one tick only: once it has finished,
/// no later tick finds it just finished, and its elapsed time stays.
pub proof fn lemma_one_shot_ends_once(timer: TimerView, delta: nat)
    requires
        timer.mode == TimerMode::Once,
        timer.finished,
    ensures
        !timer.tick(delta).just_finished(),
        timer.tick(delta).finished,
        timer.tick(delta).elapsed == timer.elapsed,
{
}

} // verus!
