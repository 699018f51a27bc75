use vstd::prelude::*;

verus! {

/// A one-shot timer over a millisecond clock that the caller reads and hands
/// in. Created on construction and whenever it fires; never mutated
/// otherwise.
#[derive(Clone, Copy, PartialEq, Eq, Structural, Debug)]
pub struct Timer {
    /// Clock reading at which the timer was started, in milliseconds.
    pub start_time: u64,
    /// How long the timer runs, in milliseconds.
    pub life_time: u64,
    /// Whether this is the first timer of its series.
    pub first_time: bool,
}

/// The timer is done once at least `life_time` milliseconds have elapsed
/// since `start_time`.
pub open spec fn timer_done(t: Timer, now: u64) -> bool {
    now >= t.start_time + t.life_time
}

impl Timer {
    /// Starts a timer at clock reading `now` that runs for `time`
    /// milliseconds.
    pub fn new(now: u64, time: u64, initial: bool) -> (t: Timer)
        ensures
            t == (Timer { start_time: now, life_time: time, first_time: initial }),
    {
        Timer { start_time: now, life_time: time, first_time: initial }
    }

    /// True when at least `life_time` milliseconds have elapsed between the
    /// start of the timer and the clock reading `now`.
    pub fn is_timer_done(&self, now: u64) -> (r: bool)
        ensures
            r == timer_done(*self, now),
    {
        now >= self.start_time && now - self.start_time >= self.life_time
    }
}

} // verus!
