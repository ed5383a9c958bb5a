//! Countdown timers driven by the frame's time step, in milliseconds.

use vstd::prelude::*;

verus! {

/// What a timer does once its period has elapsed.
#[derive(Clone, Copy, Debug, PartialEq, Eq, Structural)]
pub enum TimerMode {
    /// Finishes once and stays finished until it is reset.
    Once,
    /// Finishes, keeps the time that ran over, and starts again.
    Repeating,
}

/// A timer that is advanced by `tick` and reports, for the tick just made,
/// whether its period ran out.
#[derive(Clone, Copy, Debug, PartialEq, Eq, Structural)]
pub struct Timer {
    pub duration: u64,
    pub elapsed: u64,
    pub mode: TimerMode,
    pub paused: bool,
    pub finished: bool,
    pub times_finished: u64,
}

/// The sum of `a` and `b`, kept at the largest `u64` where it does not fit.
pub open spec fn sat_add(a: u64, b: u64) -> u64 {
    if a + b > u64::MAX { u64::MAX } else { (a + b) as u64 }
}

/// A timer with the given period that has not run yet.
pub open spec fn fresh(duration: u64, mode: TimerMode) -> Timer {
    Timer { duration, elapsed: 0, mode, paused: false, finished: false, times_finished: 0 }
}

/// The timer after a tick of `delta` milliseconds.
///
/// A paused timer keeps its elapsed time and reports nothing; so does a
/// one-shot timer that has finished. Otherwise the time is added. A one-shot
/// timer that reaches its period stops there and reports one completion. A
/// repeating timer reports how many whole periods have passed and keeps the
/// remainder.
pub open spec fn tick_spec(t: Timer, delta: u64) -> Timer {
    let total = sat_add(t.elapsed, delta);
    if t.paused {
        Timer {
            times_finished: 0,
            finished: if t.mode == TimerMode::Repeating { false } else { t.finished },
            ..t
        }
    } else if t.mode == TimerMode::Once && t.finished {
        Timer { times_finished: 0, ..t }
    } else if total < t.duration {
        Timer { elapsed: total, finished: false, times_finished: 0, ..t }
    } else if t.mode == TimerMode::Once {
        Timer { elapsed: t.duration, finished: true, times_finished: 1, ..t }
    } else {
        Timer {
            elapsed: (total % t.duration) as u64,
            finished: true,
            times_finished: (total / t.duration) as u64,
            ..t
        }
    }
}

/// The timer set back to zero elapsed time; whether it is paused stays.
pub open spec fn reset_spec(t: Timer) -> Timer {
    Timer { elapsed: 0, finished: false, times_finished: 0, ..t }
}

/// Thousandths of the period that have elapsed, at most 1000.
pub open spec fn fraction_spec(t: Timer) -> int {
    if t.elapsed >= t.duration { 1000 } else { t.elapsed * 1000 / (t.duration as int) }
}

impl Timer {
    /// A timer is valid when its period is not zero.
    pub open spec fn wf(self) -> bool {
        self.duration > 0
    }

    /// Whether the last tick completed the period at least once.
    pub open spec fn fired(self) -> bool {
        self.times_finished > 0
    }

    /// A running timer with a period of `duration` milliseconds.
    pub fn new(duration: u64, mode: TimerMode) -> (t: Timer)
        requires
            duration > 0,
        ensures
            t == fresh(duration, mode),
            t.wf(),
    {
        Timer { duration, elapsed: 0, mode, paused: false, finished: false, times_finished: 0 }
    }

    /// Whether the timer is valid: its period is not zero.
    pub fn is_valid(&self) -> (r: bool)
        ensures
            r == self.wf(),
    {
        self.duration > 0
    }

    /// Advances the timer by `delta` milliseconds.
    pub fn tick(&mut self, delta: u64)
        requires
            old(self).wf(),
        ensures
            *final(self) == tick_spec(*old(self), delta),
            final(self).wf(),
    {
        if self.paused {
            self.times_finished = 0;
            if self.mode == TimerMode::Repeating {
                self.finished = false;
            }
            return ;
        }
        if self.mode == TimerMode::Once && self.finished {
            self.times_finished = 0;
            return ;
        }
        let total: u64 = self.elapsed.saturating_add(delta);
        if total < self.duration {
            self.elapsed = total;
            self.finished = false;
            self.times_finished = 0;
        } else if self.mode == TimerMode::Once {
            self.elapsed = self.duration;
            self.finished = true;
            self.times_finished = 1;
        } else {
            self.elapsed = total % self.duration;
            self.finished = true;
            self.times_finished = total / self.duration;
        }
    }

    /// Whether the last tick completed the period.
    pub fn just_finished(&self) -> (r: bool)
        ensures
            r == self.fired(),
    {
        self.times_finished > 0
    }

    /// Whether the period has run out.
    pub fn finished(&self) -> (r: bool)
        ensures
            r == self.finished,
    {
        self.finished
    }

    /// Whether the timer is paused.
    pub fn paused(&self) -> (r: bool)
        ensures
            r == self.paused,
    {
        self.paused
    }

    /// The period, in milliseconds.
    pub fn duration(&self) -> (r: u64)
        ensures
            r == self.duration,
    {
        self.duration
    }

    /// The time that has run in the current period, in milliseconds.
    pub fn elapsed(&self) -> (r: u64)
        ensures
            r == self.elapsed,
    {
        self.elapsed
    }

    /// Stops the timer: ticks leave its elapsed time alone.
    pub fn pause(&mut self)
        ensures
            *final(self) == (Timer { paused: true, ..*old(self) }),
    {
        self.paused = true;
    }

    /// Lets the timer run again.
    pub fn unpause(&mut self)
        ensures
            *final(self) == (Timer { paused: false, ..*old(self) }),
    {
        self.paused = false;
    }

    /// Sets the elapsed time back to zero. A paused timer stays paused.
    pub fn reset(&mut self)
        ensures
            *final(self) == reset_spec(*old(self)),
    {
        self.elapsed = 0;
        self.finished = false;
        self.times_finished = 0;
    }

    /// Changes the period and keeps the elapsed time.
    pub fn set_duration(&mut self, duration: u64)
        requires
            duration > 0,
        ensures
            *final(self) == (Timer { duration, ..*old(self) }),
            final(self).wf(),
    {
        self.duration = duration;
    }

    /// Thousandths of the period that have elapsed, from 0 to 1000.
    pub fn fraction(&self) -> (r: u32)
        requires
            self.wf(),
        ensures
            r == fraction_spec(*self),
            r <= 1000,
    {
        if self.elapsed >= self.duration {
            1000
        } else {
            let scaled: u128 = self.elapsed as u128 * 1000;
            let q: u128 = scaled / (self.duration as u128);
            assert(q < 1000) by (nonlinear_arith)
                requires
                    q == scaled / (self.duration as u128),
                    scaled == self.elapsed * 1000,
                    self.elapsed < self.duration,
            ;
            q as u32
        }
    }

    /// Thousandths of the period that are still to run, from 0 to 1000.
    pub fn fraction_left(&self) -> (r: u32)
        requires
            self.wf(),
        ensures
            r == 1000 - fraction_spec(*self),
            r <= 1000,
    {
        1000 - self.fraction()
    }
}

/// A one-shot timer that is ticked again and again fires on exactly one of
/// those ticks: once it has finished, no later tick reports a completion.
pub proof fn lemma_once_fires_once(t: Timer, delta: u64)
    requires
        t.wf(),
        t.mode == TimerMode::Once,
        t.finished,
    ensures
        !tick_spec(t, delta).fired(),
        tick_spec(t, delta).finished,
{
}

/// A paused timer does not advance and does not fire.
pub proof fn lemma_paused_is_inert(t: Timer, delta: u64)
    requires
        t.paused,
    ensures
        !tick_spec(t, delta).fired(),
        tick_spec(t, delta).elapsed == t.elapsed,
        tick_spec(t, delta).paused,
{
}

} // verus!
