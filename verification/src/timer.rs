//! A one-shot timer: a plain counter that is advanced by the time that has
//! passed and stays finished once it has run out.

use vstd::prelude::*;

verus! {

/// A one-shot timer. Times are whole nanoseconds.
#[derive(Clone, Copy, Debug, PartialEq, Eq, Structural)]
pub struct Timer {
    /// The time after which the timer is finished.
    pub duration: u64,
    /// The time counted so far, never counted past `duration`.
    pub elapsed: u64,
    /// Whether a tick has brought `elapsed` up to `duration`.
    pub finished: bool,
}

impl Timer {
    /// A timer of the given duration that has counted nothing yet.
    pub open spec fn fresh(duration: u64) -> Timer {
        Timer { duration, elapsed: 0, finished: false }
    }

    /// The timer after `delta` more nanoseconds. A finished timer stays as
    /// it is; another one finishes as soon as the time counted reaches its
    /// duration, and then holds exactly its duration.
    pub open spec fn ticked(self, delta: u64) -> Timer {
        if self.finished {
            self
        } else if self.elapsed + delta >= self.duration {
            Timer { duration: self.duration, elapsed: self.duration, finished: true }
        } else {
            Timer { duration: self.duration, elapsed: (self.elapsed + delta) as u64, finished: false }
        }
    }

    /// The timer set back to its start.
    pub open spec fn rewound(self) -> Timer {
        Timer::fresh(self.duration)
    }

    /// Makes a timer of the given duration that has counted nothing yet.
    pub fn new(duration: u64) -> (timer: Timer)
        ensures
            timer == Timer::fresh(duration),
    {
        Timer { duration, elapsed: 0, finished: false }
    }

    /// Advances the timer by `delta` nanoseconds.
    pub fn tick(&mut self, delta: u64)
        ensures
            *final(self) == old(self).ticked(delta),
    {
        if self.finished {
            return;
        }
        if self.elapsed >= self.duration || delta >= self.duration - self.elapsed {
            self.elapsed = self.duration;
            self.finished = true;
        } else {
            self.elapsed = self.elapsed + delta;
        }
    }

    /// Tells whether the timer has run out.
    pub fn finished(&self) -> (done: bool)
        ensures
            done == self.finished,
    {
        self.finished
    }

    /// Sets the timer back to its start.
    pub fn reset(&mut self)
        ensures
            *final(self) == old(self).rewound(),
    {
        self.elapsed = 0;
        self.finished = false;
    }
}

/// The sum of a sequence of times.
pub open spec fn total(deltas: Seq<u64>) -> int
    decreases deltas.len(),
{
    if deltas.len() == 0 {
        0
    } else {
        total(deltas.drop_last()) + deltas.last()
    }
}

/// The timer after one tick for each of the times, in their order.
pub open spec fn ticked_through(timer: Timer, deltas: Seq<u64>) -> Timer
    decreases deltas.len(),
{
    if deltas.len() == 0 {
        timer
    } else {
        ticked_through(timer, deltas.drop_last()).ticked(deltas.last())
    }
}

/// A timer runs for its duration: started anew and ticked through a
/// sequence of times, a timer of some duration is finished exactly when
/// the times add up to the duration or more. Until then it has counted
/// their sum.
pub proof fn lemma_timer_runs_for_its_duration(duration: u64, deltas: Seq<u64>)
    requires
        duration > 0,
    ensures
        ticked_through(Timer::fresh(duration), deltas).finished <==> total(deltas) >= duration,
        ticked_through(Timer::fresh(duration), deltas).duration == duration,
        !ticked_through(Timer::fresh(duration), deltas).finished ==> ticked_through(
            Timer::fresh(duration),
            deltas,
        ).elapsed == total(deltas),
        total(deltas) >= 0,
    decreases deltas.len(),
{
    if deltas.len() > 0 {
        lemma_timer_runs_for_its_duration(duration, deltas.drop_last());
    }
}

} // verus!
