//! The countdown timer that paces the co-op pause heartbeat and its grace
//! window, held as plain nanosecond counts. Ticking it runs bevy_time's
//! `Timer::tick` (the timer is never paused): a one-shot timer that has
//! finished stays put; otherwise the frame time is added, and when the elapsed
//! time reaches the duration a one-shot timer stops at its duration and a
//! repeating one wraps around, counting how often it finished.

use vstd::prelude::*;
use std::time::Duration;
use bevy::time::{Timer, TimerMode};

verus! {

#[derive(PartialEq, Eq, Structural, Clone, Copy, Debug)]
pub struct CountdownTimer {
    pub duration_nanos: u64,
    pub elapsed_nanos: u64,
    pub repeating: bool,
    pub finished: bool,
    /// How often the timer finished during the last tick.
    pub times_finished_this_tick: u32,
}

/// A timer that has just been made: nothing elapsed, not finished.
pub open spec fn fresh_timer(duration_nanos: u64, repeating: bool) -> CountdownTimer {
    CountdownTimer {
        duration_nanos,
        elapsed_nanos: 0,
        repeating,
        finished: false,
        times_finished_this_tick: 0,
    }
}

/// The timer after a tick of `delta_nanos`.
pub open spec fn ticked(t: CountdownTimer, delta_nanos: u64) -> CountdownTimer {
    if !t.repeating && t.finished {
        CountdownTimer { times_finished_this_tick: 0, ..t }
    } else {
        let e: int = t.elapsed_nanos + delta_nanos;
        if e >= t.duration_nanos {
            if t.repeating {
                CountdownTimer {
                    finished: true,
                    times_finished_this_tick: if t.duration_nanos == 0 {
                        u32::MAX
                    } else {
                        (e / (t.duration_nanos as int)) as u32
                    },
                    elapsed_nanos: if t.duration_nanos == 0 {
                        0
                    } else {
                        (e % (t.duration_nanos as int)) as u64
                    },
                    ..t
                }
            } else {
                CountdownTimer {
                    finished: true,
                    times_finished_this_tick: 1,
                    elapsed_nanos: t.duration_nanos,
                    ..t
                }
            }
        } else {
            CountdownTimer { finished: false, times_finished_this_tick: 0, elapsed_nanos: e as u64, ..t }
        }
    }
}

/// `bevy::time::Timer::tick` on the timer these values describe: a `Timer`
/// with their duration and mode is made, finished when they say so, and set to
/// their elapsed time; it is ticked by `delta_nanos` and read back. The claim
/// is that the values read back are `ticked(t, delta_nanos)`, as the
/// `Timer::tick` and `Stopwatch::tick` source computes them.
#[verifier::external_body]
fn bevy_tick(t: CountdownTimer, delta_nanos: u64) -> (r: CountdownTimer)
    ensures
        r == ticked(t, delta_nanos),
{
    let mode = if t.repeating { TimerMode::Repeating } else { TimerMode::Once };
    let mut timer = Timer::new(Duration::from_nanos(t.duration_nanos), mode);
    if t.finished {
        timer.finish();
    }
    timer.set_elapsed(Duration::from_nanos(t.elapsed_nanos));
    timer.tick(Duration::from_nanos(delta_nanos));
    CountdownTimer {
        duration_nanos: t.duration_nanos,
        elapsed_nanos: timer.elapsed().as_nanos() as u64,
        repeating: t.repeating,
        finished: timer.is_finished(),
        times_finished_this_tick: timer.times_finished_this_tick(),
    }
}

/// The timer after a reset: nothing elapsed, not finished.
pub open spec fn reset_timer(t: CountdownTimer) -> CountdownTimer {
    CountdownTimer { elapsed_nanos: 0, finished: false, times_finished_this_tick: 0, ..t }
}

/// Whether the timer finished during its last tick.
pub open spec fn fired(t: CountdownTimer) -> bool {
    t.times_finished_this_tick > 0
}

impl CountdownTimer {
    pub fn new(duration_nanos: u64, repeating: bool) -> (t: Self)
        ensures
            t == fresh_timer(duration_nanos, repeating),
    {
        CountdownTimer {
            duration_nanos,
            elapsed_nanos: 0,
            repeating,
            finished: false,
            times_finished_this_tick: 0,
        }
    }

    pub fn tick(&mut self, delta_nanos: u64)
        ensures
            *final(self) == ticked(*old(self), delta_nanos),
    {
        *self = bevy_tick(*self, delta_nanos);
    }

    pub fn reset(&mut self)
        ensures
            *final(self) == reset_timer(*old(self)),
    {
        self.elapsed_nanos = 0;
        self.finished = false;
        self.times_finished_this_tick = 0;
    }

    pub fn just_finished(&self) -> (r: bool)
        ensures
            r == fired(*self),
    {
        self.times_finished_this_tick > 0
    }

    pub fn is_finished(&self) -> (r: bool)
        ensures
            r == self.finished,
    {
        self.finished
    }
}

} // verus!
