//! Fading a sprite in and out.

use vstd::prelude::*;
use crate::effects::{delay, INVISIBLE, VISIBLE};
use crate::timer::{nanos, seconds_to_nanos, MAX_SECONDS};
use crate::tween::{tail_duration, total_duration, Animator, AnimatorView, EaseFunction, Step};

verus! {

/// What a fade works on: how opaque the sprite is, in millionths.
#[derive(Debug, Clone, Copy, PartialEq, Eq, Hash, Structural)]
pub struct Sprite {
    pub alpha: u32,
}

/// The step that fades in over `seconds` seconds.
pub open spec fn fade_in_step(seconds: nat) -> Step {
    Step::Tween {
        ease: EaseFunction::QuadraticIn,
        duration: nanos(seconds) as u64,
        start: INVISIBLE,
        end: VISIBLE,
    }
}

/// The step that fades out over `seconds` seconds.
pub open spec fn fade_out_step(seconds: nat) -> Step {
    Step::Tween {
        ease: EaseFunction::QuadraticOut,
        duration: nanos(seconds) as u64,
        start: VISIBLE,
        end: INVISIBLE,
    }
}

/// The steps of a fade in, a pause and a fade out, in seconds.
pub open spec fn fade_steps(time_in: nat, pause: nat, time_out: nat) -> Seq<Step> {
    seq![
        fade_in_step(time_in),
        Step::Delay { duration: nanos(pause) as u64 },
        fade_out_step(time_out),
    ]
}

/// A fade in: from invisible to visible over `seconds` seconds, slowly at
/// first.
pub fn sprite_in(seconds: u64) -> (step: Step)
    requires
        seconds <= MAX_SECONDS,
    ensures
        step == fade_in_step(seconds as nat),
        step.span() == nanos(seconds as nat),
{
    Step::Tween {
        ease: EaseFunction::QuadraticIn,
        duration: seconds_to_nanos(seconds),
        start: INVISIBLE,
        end: VISIBLE,
    }
}

/// A fade out: from visible to invisible over `seconds` seconds, slowly at
/// the end.
pub fn sprite_out(seconds: u64) -> (step: Step)
    requires
        seconds <= MAX_SECONDS,
    ensures
        step == fade_out_step(seconds as nat),
        step.span() == nanos(seconds as nat),
{
    Step::Tween {
        ease: EaseFunction::QuadraticOut,
        duration: seconds_to_nanos(seconds),
        start: VISIBLE,
        end: INVISIBLE,
    }
}

/// A sprite that cannot be seen yet.
pub fn out_sprite() -> (sprite: Sprite)
    ensures
        sprite.alpha == INVISIBLE,
{
    Sprite { alpha: INVISIBLE }
}

/// A fade in, a pause and a fade out take as long as the three together.
pub proof fn lemma_fade_duration(time_in: nat, pause: nat, time_out: nat)
    requires
        time_in + pause + time_out <= MAX_SECONDS,
    ensures
        total_duration(fade_steps(time_in, pause, time_out)) == nanos(time_in + pause + time_out),
{
    reveal_with_fuel(tail_duration, 4);
    assert(nanos(time_in + pause + time_out) == nanos(time_in) + nanos(pause) + nanos(time_out))
        by (nonlinear_arith);
}

/// The animation of a sprite that starts invisible, fades in, stays, and
/// fades out again, each over the given number of seconds.
pub fn in_out_sprite(time_in: u64, pause: u64, time_out: u64) -> (animator: Animator)
    requires
        time_in + pause + time_out <= MAX_SECONDS,
    ensures
        animator.wf(),
        animator@ == AnimatorView::fresh(
            fade_steps(time_in as nat, pause as nat, time_out as nat),
            INVISIBLE,
        ),
{
    let fade_in = sprite_in(time_in);
    let pause_step = delay(pause);
    let fade_out = sprite_out(time_out);
    let mut steps: Vec<Step> = Vec::new();
    steps.push(fade_in);
    steps.push(pause_step);
    steps.push(fade_out);
    proof {
        assert(steps@ == fade_steps(time_in as nat, pause as nat, time_out as nat));
        lemma_fade_duration(time_in as nat, pause as nat, time_out as nat);
    }
    Animator::new(out_sprite().alpha, steps)
}

} // verus!
