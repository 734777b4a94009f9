//! A one-shot countdown over whole nanoseconds.

use vstd::prelude::*;

verus! {

/// The nanoseconds in one second.
pub const NANOS_PER_SECOND: u64 = 1_000_000_000;

/// The longest time in whole seconds that fits the nanosecond clock.
pub const MAX_SECONDS: u64 = 18_446_744_073;

/// The nanoseconds in `seconds` seconds.
pub open spec fn nanos(seconds: nat) -> nat {
    seconds * (NANOS_PER_SECOND as nat)
}

/// Converts whole seconds to nanoseconds.
pub fn seconds_to_nanos(seconds: u64) -> (ns: u64)
    requires
        seconds <= MAX_SECONDS,
    ensures
        ns == nanos(seconds as nat),
{
    seconds * NANOS_PER_SECOND
}

/// What a timer is: how long it runs, how much of that has passed, and
/// whether it has finished.
pub struct TimerView {
    pub duration: nat,
    pub elapsed: nat,
    pub finished: bool,
}

impl TimerView {
    /// Holds of every timer that was made by `fresh` and then only ticked
    /// and reset: the elapsed time never passes the duration, and a finished
    /// timer stands at its duration.
    pub open spec fn wf(self) -> bool {
        &&& self.elapsed <= self.duration
        &&& self.finished ==> self.elapsed == self.duration
    }

    /// A timer of `duration` that has not run yet.
    pub open spec fn fresh(duration: nat) -> TimerView {
        TimerView { duration, elapsed: 0, finished: false }
    }

    /// The timer after `delta` more nanoseconds. A finished timer stays as
    /// it is. Otherwise the time is added, and the timer finishes, clamped
    /// to its duration, as soon as the sum reaches the duration.
    pub open spec fn tick(self, delta: nat) -> TimerView {
        if self.finished {
            self
        } else if self.elapsed + delta >= self.duration {
            TimerView { elapsed: self.duration, finished: true, ..self }
        } else {
            TimerView { elapsed: self.elapsed + delta, ..self }
        }
    }

    /// The timer set back to its start.
    pub open spec fn reset(self) -> TimerView {
        TimerView { elapsed: 0, finished: false, ..self }
    }

    /// The time left until the duration is reached.
    pub open spec fn remaining(self) -> nat {
        if self.elapsed <= self.duration {
            (self.duration - self.elapsed) as nat
        } else {
            0
        }
    }
}

/// The sum of the frame times in `deltas`.
pub open spec fn total(deltas: Seq<nat>) -> nat
    decreases deltas.len(),
{
    if deltas.len() == 0 {
        0
    } else {
        deltas[0] + total(deltas.drop_first())
    }
}

/// The timer after one tick for each frame time in `deltas`, in order.
pub open spec fn ticked(timer: TimerView, deltas: Seq<nat>) -> TimerView
    decreases deltas.len(),
{
    if deltas.len() == 0 {
        timer
    } else {
        ticked(timer.tick(deltas[0]), deltas.drop_first())
    }
}

/// A one-shot countdown. It is ticked with the time each frame took and
/// finishes once, when the time ticked reaches its duration.
#[derive(Debug, Clone, Copy, PartialEq, Eq, Hash)]
pub struct Timer {
    duration: u64,
    elapsed: u64,
    finished: bool,
}

impl View for Timer {
    type V = TimerView;

    closed spec fn view(&self) -> TimerView {
        TimerView {
            duration: self.duration as nat,
            elapsed: self.elapsed as nat,
            finished: self.finished,
        }
    }
}

impl Timer {
    /// A timer that runs for `duration` nanoseconds. A duration of zero is
    /// fine: such a timer finishes on its first tick.
    pub fn new(duration: u64) -> (timer: Timer)
        ensures
            timer@ == TimerView::fresh(duration as nat),
    {
        Timer { duration, elapsed: 0, finished: false }
    }

    /// A timer that runs for `seconds` seconds.
    pub fn from_seconds(seconds: u64) -> (timer: Timer)
        requires
            seconds <= MAX_SECONDS,
        ensures
            timer@ == TimerView::fresh(nanos(seconds as nat)),
    {
        Timer::new(seconds_to_nanos(seconds))
    }

    /// Advances the timer by `delta` nanoseconds and says whether it has
    /// finished. Ticking a finished timer changes nothing.
    pub fn tick(&mut self, delta: u64) -> (finished: bool)
        ensures
            final(self)@ == old(self)@.tick(delta as nat),
            finished == final(self)@.finished,
    {
        if !self.finished {
            if self.elapsed >= self.duration || delta >= self.duration - self.elapsed {
                self.elapsed = self.duration;
                self.finished = true;
            } else {
                self.elapsed = self.elapsed + delta;
            }
        }
        self.finished
    }

    /// Whether the timer has finished. Asking changes nothing.
    pub fn finished(&self) -> (finished: bool)
        ensures
            finished == self@.finished,
    {
        self.finished
    }

    /// The nanoseconds ticked so far, at most the duration.
    pub fn elapsed(&self) -> (elapsed: u64)
        ensures
            elapsed == self@.elapsed,
    {
        self.elapsed
    }

    /// The nanoseconds the timer runs for.
    pub fn duration(&self) -> (duration: u64)
        ensures
            duration == self@.duration,
    {
        self.duration
    }

    /// The nanoseconds left until the timer finishes.
    pub fn remaining(&self) -> (remaining: u64)
        ensures
            remaining == self@.remaining(),
    {
        if self.elapsed <= self.duration {
            self.duration - self.elapsed
        } else {
            0
        }
    }

    /// Sets the timer back to its start, unfinished.
    pub fn reset(&mut self)
        ensures
            final(self)@ == old(self)@.reset(),
    {
        self.elapsed = 0;
        self.finished = false;
    }
}

/// Ticking keeps a well-formed timer well-formed.
pub proof fn lemma_tick_keeps_wf(timer: TimerView, delta: nat)
    requires
        timer.wf(),
    ensures
        timer.tick(delta).wf(),
{
}

/// A timer finishes once and stays finished: ticking a finished timer
/// leaves it exactly as it was.
pub proof fn lemma_finished_stays(timer: TimerView, deltas: Seq<nat>)
    requires
        timer.finished,
    ensures
        ticked(timer, deltas) == timer,
    decreases deltas.len(),
{
    if deltas.len() > 0 {
        lemma_finished_stays(timer, deltas.drop_first());
    }
}

/// A fresh timer that has been ticked at least once is finished exactly if
/// the frame times ticked add up to its duration or more; until then it
/// shows their sum as elapsed.
pub proof fn lemma_finishes_when_due(duration: nat, deltas: Seq<nat>)
    ensures
        ticked(TimerView::fresh(duration), deltas).finished <==> deltas.len() > 0 && total(deltas)
            >= duration,
        !ticked(TimerView::fresh(duration), deltas).finished ==> ticked(
            TimerView::fresh(duration),
            deltas,
        ).elapsed == total(deltas),
        ticked(TimerView::fresh(duration), deltas).wf(),
{
    lemma_ticked_from(TimerView::fresh(duration), deltas);
}

/// The general form of `lemma_finishes_when_due`, for a timer that is
/// already under way.
pub proof fn lemma_ticked_from(timer: TimerView, deltas: Seq<nat>)
    requires
        timer.wf(),
        !timer.finished,
    ensures
        ticked(timer, deltas) == if deltas.len() > 0 && timer.elapsed + total(deltas)
            >= timer.duration {
            TimerView { elapsed: timer.duration, finished: true, ..timer }
        } else {
            TimerView { elapsed: timer.elapsed + total(deltas), ..timer }
        },
    decreases deltas.len(),
{
    if deltas.len() > 0 {
        let next = timer.tick(deltas[0]);
        if next.finished {
            lemma_finished_stays(next, deltas.drop_first());
        } else {
            lemma_ticked_from(next, deltas.drop_first());
        }
    }
}

} // verus!
