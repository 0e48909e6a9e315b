//! Timers over nanoseconds, ticked by the engine's own timer.

use std::time::Duration;
use vstd::prelude::*;

verus! {

/// Nanoseconds in a second.
pub const NANOS_PER_SEC: u64 = 1_000_000_000;

/// What a timer does when its time is up.
#[derive(Clone, Copy, Debug, PartialEq, Eq, Structural)]
pub enum TimerMode {
    /// It stays finished until it is reset.
    Once,
    /// It starts over, keeping the time that went beyond its end.
    Repeating,
}

/// A timer as plain values. All times are in nanoseconds.
#[derive(Clone, Copy, Debug, PartialEq, Eq, Structural)]
pub struct GameTimer {
    /// The time from start to finish.
    pub duration: u64,
    /// The time that has passed since the start.
    pub elapsed: u64,
    pub mode: TimerMode,
    /// Whether the timer was finished after the last tick.
    pub finished: bool,
    /// Whether the last tick finished the timer.
    pub just_finished: bool,
}

/// How often a repeating timer of `duration` ends within `total`, as the
/// engine's 32-bit counter holds it.
pub open spec fn spec_rounds(total: int, duration: int) -> int
    recommends
        duration > 0,
{
    (total / duration) % 0x1_0000_0000
}

/// Ticks a new `bevy::time::Timer` in `TimerMode::Once` that has `duration`
/// and has run for `elapsed`, by `delta`, and gives its elapsed time and
/// whether it is finished. `Timer::tick` adds `delta` to the elapsed time;
/// where the sum reaches the duration, the timer is finished and its elapsed
/// time is set to the duration.
#[verifier::external_body]
fn tick_once(duration: u64, elapsed: u64, delta: u64) -> (r: (u64, bool))
    ensures
        r.1 == (elapsed + delta >= duration),
        r.1 ==> r.0 == duration,
        !r.1 ==> r.0 == elapsed + delta,
{
    let mut timer = bevy::time::Timer::new(
        Duration::from_nanos(duration),
        bevy::time::TimerMode::Once,
    );
    timer.set_elapsed(Duration::from_nanos(elapsed));
    timer.tick(Duration::from_nanos(delta));
    (timer.elapsed().as_nanos() as u64, timer.finished())
}

/// Ticks a new `bevy::time::Timer` in `TimerMode::Repeating` that has
/// `duration` and has run for `elapsed`, by `delta`, and gives its elapsed
/// time, whether it is finished and whether it just finished. `Timer::tick`
/// adds `delta` to the elapsed time; where the sum reaches the duration, the
/// timer is finished, its elapsed time becomes the remainder of the sum by the
/// duration, and it counts the quotient in 32 bits: it just finished where
/// that count is not zero. With a duration of zero the elapsed time becomes
/// zero and the count is the largest.
#[verifier::external_body]
fn tick_repeating(duration: u64, elapsed: u64, delta: u64) -> (r: (u64, bool, bool))
    ensures
        r.1 == (elapsed + delta >= duration),
        !r.1 ==> r.0 == elapsed + delta && !r.2,
        r.1 && duration == 0 ==> r.0 == 0 && r.2,
        r.1 && duration > 0 ==> r.0 == (elapsed + delta) % (duration as int) && r.2 == (spec_rounds(
            elapsed + delta,
            duration as int,
        ) != 0),
{
    let mut timer = bevy::time::Timer::new(
        Duration::from_nanos(duration),
        bevy::time::TimerMode::Repeating,
    );
    timer.set_elapsed(Duration::from_nanos(elapsed));
    timer.tick(Duration::from_nanos(delta));
    (timer.elapsed().as_nanos() as u64, timer.finished(), timer.just_finished())
}

impl GameTimer {
    /// The elapsed time never exceeds the duration.
    pub open spec fn wf(self) -> bool {
        self.elapsed <= self.duration
    }

    /// The timer after a tick of `delta`.
    pub open spec fn spec_tick(self, delta: u64) -> GameTimer {
        let total = self.elapsed + delta;
        match self.mode {
            TimerMode::Once => if self.finished {
                GameTimer { just_finished: false, ..self }
            } else if total >= self.duration {
                GameTimer { elapsed: self.duration, finished: true, just_finished: true, ..self }
            } else {
                GameTimer {
                    elapsed: total as u64,
                    finished: false,
                    just_finished: false,
                    ..self
                }
            },
            TimerMode::Repeating => if total < self.duration {
                GameTimer {
                    elapsed: total as u64,
                    finished: false,
                    just_finished: false,
                    ..self
                }
            } else if self.duration == 0 {
                GameTimer { elapsed: 0, finished: true, just_finished: true, ..self }
            } else {
                GameTimer {
                    elapsed: (total % (self.duration as int)) as u64,
                    finished: true,
                    just_finished: spec_rounds(total, self.duration as int) != 0,
                    ..self
                }
            },
        }
    }

    /// A timer of `duration` that has not started.
    pub open spec fn spec_new(duration: u64, mode: TimerMode) -> GameTimer {
        GameTimer { duration, elapsed: 0, mode, finished: false, just_finished: false }
    }

    /// The timer after a reset: nothing elapsed, not finished.
    pub open spec fn spec_reset(self) -> GameTimer {
        GameTimer { elapsed: 0, finished: false, just_finished: false, ..self }
    }

    /// A timer of `duration` that has not started.
    pub fn new(duration: u64, mode: TimerMode) -> (r: Self)
        ensures
            r == GameTimer::spec_new(duration, mode),
            r.wf(),
    {
        GameTimer { duration, elapsed: 0, mode, finished: false, just_finished: false }
    }

    /// Advances the timer by `delta`.
    pub fn tick(&mut self, delta: u64)
        ensures
            *final(self) == old(self).spec_tick(delta),
            old(self).wf() ==> final(self).wf(),
    {
        match self.mode {
            TimerMode::Once => {
                if self.finished {
                    self.just_finished = false;
                } else {
                    let (elapsed, finished) = tick_once(self.duration, self.elapsed, delta);
                    self.elapsed = elapsed;
                    self.finished = finished;
                    self.just_finished = finished;
                }
            },
            TimerMode::Repeating => {
                let (elapsed, finished, just_finished) = tick_repeating(
                    self.duration,
                    self.elapsed,
                    delta,
                );
                self.elapsed = elapsed;
                self.finished = finished;
                self.just_finished = just_finished;
            },
        }
    }

    /// Starts the timer over.
    pub fn reset(&mut self)
        ensures
            *final(self) == old(self).spec_reset(),
            final(self).wf(),
    {
        self.elapsed = 0;
        self.finished = false;
        self.just_finished = false;
    }

    /// The time that is left until the timer finishes.
    pub fn remaining(&self) -> (r: u64)
        requires
            self.wf(),
        ensures
            r == self.duration - self.elapsed,
    {
        self.duration - self.elapsed
    }
}

/// A timer that runs once finishes with the first tick that brings its
/// elapsed time to its duration, is then full, and reports that it just
/// finished on that tick alone.
pub proof fn once_finishes_once(t: GameTimer, first: u64, second: u64)
    requires
        t.mode == TimerMode::Once,
        !t.finished,
        t.elapsed + first >= t.duration,
    ensures
        t.spec_tick(first).finished,
        t.spec_tick(first).just_finished,
        t.spec_tick(first).elapsed == t.duration,
        t.spec_tick(first).spec_tick(second).finished,
        !t.spec_tick(first).spec_tick(second).just_finished,
{
}

/// A repeating timer that is ticked by less than its duration at a time
/// loses no time: what it has counted, taken modulo its duration, is the time
/// that was put in.
pub proof fn repeating_keeps_time(t: GameTimer, delta: u64)
    requires
        t.mode == TimerMode::Repeating,
        t.wf(),
        t.duration > 0,
        t.elapsed < t.duration,
        delta < t.duration,
    ensures
        t.spec_tick(delta).elapsed < t.duration,
        t.spec_tick(delta).just_finished == (t.elapsed + delta >= t.duration),
        t.spec_tick(delta).elapsed == if t.elapsed + delta >= t.duration {
            t.elapsed + delta - t.duration
        } else {
            t.elapsed + delta
        },
{
    let total = t.elapsed + delta;
    let d = t.duration as int;
    if total >= d {
        assert(total / d == 1 && total % d == total - d) by (nonlinear_arith)
            requires
                d <= total < 2 * d,
                d > 0,
        ;
    }
}

} // verus!
