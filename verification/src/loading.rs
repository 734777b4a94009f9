//! What happens while the loading scene is shown: a spinner turns, a long
//! task reports, and progress is announced when it grows.

use vstd::prelude::*;
use crate::progress::{Progress, ProgressCounter};

verus! {

/// A full turn, in billionths of a degree.
pub const FULL_TURN: u64 = 360_000_000_000;

/// How fast the loading spinner turns, in degrees per second.
pub const SPINNER_SPEED: u32 = 200;

/// How long the stand-in for real loading takes, in nanoseconds.
pub const DURATION_LONG_TASK: u64 = 5_000_000_000;

/// The id under which the stand-in task reports.
pub const LONG_TASK: u64 = 0;

/// What a rotation is: degrees per second, and the angle reached, in
/// billionths of a degree.
pub struct RotateView {
    pub speed: nat,
    pub angle: nat,
}

impl RotateView {
    /// The rotation after `delta` nanoseconds: the angle grows by speed
    /// times time and wraps at the full turn. Degrees per second times
    /// nanoseconds are billionths of a degree.
    pub open spec fn turned(self, delta: nat) -> RotateView {
        RotateView { angle: (self.angle + self.speed * delta) % (FULL_TURN as nat), ..self }
    }
}

/// Something that turns at a constant speed.
#[derive(Debug, Clone, Copy, PartialEq, Eq, Hash)]
pub struct Rotate {
    speed: u32,
    angle: u64,
}

impl View for Rotate {
    type V = RotateView;

    closed spec fn view(&self) -> RotateView {
        RotateView { speed: self.speed as nat, angle: self.angle as nat }
    }
}

impl Rotate {
    /// A rotation at `speed` degrees per second, starting at angle zero.
    pub fn angle_per_second(speed: u32) -> (rotate: Rotate)
        ensures
            rotate@ == (RotateView { speed: speed as nat, angle: 0 }),
    {
        Rotate { speed, angle: 0 }
    }

    /// Turns on for the `delta` nanoseconds the frame took.
    pub fn tick(&mut self, delta: u64)
        ensures
            final(self)@ == old(self)@.turned(delta as nat),
            final(self)@.angle < FULL_TURN,
    {
        assert((self.speed as u128) * (delta as u128) <= 0xffff_ffff * 0xffff_ffff_ffff_ffff)
            by (nonlinear_arith)
            requires
                self.speed <= 0xffff_ffff,
                delta <= 0xffff_ffff_ffff_ffff,
        ;
        let swept: u128 = (self.speed as u128) * (delta as u128);
        let angle: u128 = ((self.angle as u128) + swept) % (FULL_TURN as u128);
        self.angle = angle as u64;
    }

    /// The angle reached, in billionths of a degree.
    pub fn angle(&self) -> (angle: u64)
        ensures
            angle == self@.angle,
    {
        self.angle
    }

    /// The speed, in degrees per second.
    pub fn speed(&self) -> (speed: u32)
        ensures
            speed == self@.speed,
    {
        self.speed
    }
}

/// Whether the stand-in task is done after `elapsed` nanoseconds of
/// loading: once the time has passed its duration, not at the instant it
/// reaches it.
pub open spec fn long_task_done(elapsed: nat) -> bool {
    elapsed > DURATION_LONG_TASK
}

/// Stands in for real loading: reports, under the id `LONG_TASK`, a task
/// that is done once loading has gone on for longer than
/// `DURATION_LONG_TASK`.
pub fn fake_long_task(elapsed: u64, progress: &mut ProgressCounter)
    requires
        old(progress).wf(),
    ensures
        final(progress).wf(),
        final(progress)@ == old(progress)@.insert(LONG_TASK, long_task_done(elapsed as nat)),
{
    if elapsed > DURATION_LONG_TASK {
        progress.report(LONG_TASK, true);
    } else {
        progress.report(LONG_TASK, false);
    }
}

/// Decides whether progress is worth announcing: it is when more tasks are
/// done than at the last announcement, and then the new count is noted.
pub fn print_progress(progress: Progress, last_done: &mut usize) -> (changed: bool)
    ensures
        changed == (progress.done > *old(last_done)),
        *final(last_done) == if changed {
            progress.done
        } else {
            *old(last_done)
        },
{
    if progress.done > *last_done {
        *last_done = progress.done;
        true
    } else {
        false
    }
}

} // verus!
