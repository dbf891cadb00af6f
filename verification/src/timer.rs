//! A tick-driven repeating countdown, used to dismiss transient popups.

use vstd::prelude::*;

verus! {

/// The mathematical state of a [`Timer`].
pub struct TimerState {
    /// Number of ticks in one countdown.
    pub threshold: nat,
    /// Ticks left until time has passed.
    pub counter: nat,
    /// Whether ticking has any effect.
    pub running: bool,
}

/// The state after one tick.
///
/// A stopped timer ignores the tick. A running timer counts one down; where
/// it stands at zero it cannot, and the tick reloads it to its threshold
/// instead. So a full cycle, from zero to zero, takes one tick more than the
/// threshold.
pub open spec fn tick(s: TimerState) -> TimerState {
    if !s.running {
        s
    } else if s.counter == 0 {
        TimerState { counter: s.threshold, ..s }
    } else {
        TimerState { counter: (s.counter - 1) as nat, ..s }
    }
}

/// The state after `n` ticks.
pub open spec fn ticks(s: TimerState, n: nat) -> TimerState
    decreases n,
{
    if n == 0 {
        s
    } else {
        tick(ticks(s, (n - 1) as nat))
    }
}

/// A repeating countdown measured in ticks.
#[derive(Debug)]
pub struct Timer {
    threshold: usize,
    counter: usize,
    running: bool,
}

impl View for Timer {
    type V = TimerState;

    closed spec fn view(&self) -> TimerState {
        TimerState {
            threshold: self.threshold as nat,
            counter: self.counter as nat,
            running: self.running,
        }
    }
}

impl Timer {
    /// A stopped timer at zero that will count `threshold` ticks per cycle.
    pub fn new(threshold: usize) -> (t: Timer)
        ensures
            t@ == (TimerState { threshold: threshold as nat, counter: 0, running: false }),
    {
        Timer { threshold, counter: 0, running: false }
    }

    /// Starts the countdown; the counter keeps its value.
    pub fn unlock(&mut self)
        ensures
            final(self)@ == (TimerState { running: true, ..old(self)@ }),
    {
        self.running = true;
    }

    /// Stops the countdown; the counter keeps its value.
    pub fn lock(&mut self)
        ensures
            final(self)@ == (TimerState { running: false, ..old(self)@ }),
    {
        self.running = false;
    }

    /// Advances the timer by one tick.
    pub fn dec(&mut self)
        ensures
            final(self)@ == tick(old(self)@),
    {
        if self.running {
            if self.counter == 0 {
                self.counter = self.threshold;
            } else {
                self.counter = self.counter - 1;
            }
        }
    }

    /// Whether the counter stands at zero.
    pub fn has_time_passed(&self) -> (passed: bool)
        ensures
            passed == (self@.counter == 0),
    {
        self.counter == 0
    }
}

/// A stopped timer is unaffected by ticking.
pub proof fn lemma_stopped_timer_ignores_ticks(s: TimerState, n: nat)
    requires
        !s.running,
    ensures
        ticks(s, n) == s,
    decreases n,
{
    if n > 0 {
        lemma_stopped_timer_ignores_ticks(s, (n - 1) as nat);
    }
}

/// A running timer that stands at zero is reloaded by the first tick and
/// counts down from the second: after `n` ticks, `n` from one up to one more
/// than the threshold, `threshold + 1 - n` ticks are left.
pub proof fn lemma_countdown(s: TimerState, n: nat)
    requires
        s.running,
        s.counter == 0,
        1 <= n <= s.threshold + 1,
    ensures
        ticks(s, n) == (TimerState { counter: (s.threshold + 1 - n) as nat, ..s }),
    decreases n,
{
    if n > 1 {
        lemma_countdown(s, (n - 1) as nat);
    } else {
        assert(ticks(s, 0) == s);
    }
}

/// A running timer that stands at zero has time passed again after exactly
/// one tick more than its threshold, and not before.
pub proof fn lemma_cycle(s: TimerState, n: nat)
    requires
        s.running,
        s.counter == 0,
        1 <= n <= s.threshold + 1,
    ensures
        (ticks(s, n).counter == 0) == (n == s.threshold + 1),
{
    lemma_countdown(s, n);
}

/// The tick after time has passed reloads a running timer to its threshold.
pub proof fn lemma_reload(s: TimerState)
    requires
        s.running,
        s.counter == 0,
    ensures
        ticks(s, s.threshold + 1).counter == 0,
        ticks(s, s.threshold + 2).counter == s.threshold,
{
    lemma_countdown(s, s.threshold + 1);
}

} // verus!
