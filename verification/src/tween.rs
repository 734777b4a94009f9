//! Timed interpolation: steps that ease a value from a start to an end, and
//! the animator that runs a list of them one after the other.
//!
//! Times are whole nanoseconds. Values, and the fractions that the easing
//! curves work on, are fixed-point numbers in millionths, so that `SCALE`
//! stands for one.

use vstd::prelude::*;

verus! {

/// One, in the fixed-point millionths that fractions are counted in.
pub const SCALE: u64 = 1_000_000;

/// The easing curves.
#[derive(Debug, Clone, Copy, PartialEq, Eq, Hash, Structural)]
pub enum EaseFunction {
    /// Starts slowly: the square of the fraction.
    QuadraticIn,
    /// Ends slowly: the mirror image of `QuadraticIn`.
    QuadraticOut,
}

/// One timed step of an animation.
#[derive(Debug, Clone, Copy, PartialEq, Eq, Hash, Structural)]
pub enum Step {
    /// Moves the value from `start` to `end` along an easing curve.
    Tween { ease: EaseFunction, duration: u64, start: u32, end: u32 },
    /// Leaves the value where it is.
    Delay { duration: u64 },
}

impl Step {
    /// How long the step takes, in nanoseconds.
    pub open spec fn span(self) -> nat {
        match self {
            Step::Tween { duration, .. } => duration as nat,
            Step::Delay { duration } => duration as nat,
        }
    }

    /// How long the step takes, in nanoseconds.
    pub fn duration(&self) -> (duration: u64)
        ensures
            duration == self.span(),
    {
        match self {
            Step::Tween { duration, .. } => *duration,
            Step::Delay { duration } => *duration,
        }
    }
}

/// The fraction of `duration` that `local` is, in millionths, rounded down
/// and never more than one. A step of no duration is complete at once.
pub open spec fn progress(local: nat, duration: nat) -> nat {
    if duration == 0 || local >= duration {
        SCALE as nat
    } else {
        local * (SCALE as nat) / duration
    }
}

/// A fraction in millionths, cut off at one.
pub open spec fn clamped(p: nat) -> nat {
    if p > SCALE {
        SCALE as nat
    } else {
        p
    }
}

/// The easing curve at a fraction `p`, both in millionths. The fraction is
/// cut off at one; then it is squared for quadratic-in, and multiplied by
/// two minus itself for quadratic-out.
pub open spec fn eased(ease: EaseFunction, p: nat) -> nat {
    let q = clamped(p);
    match ease {
        EaseFunction::QuadraticIn => q * q / (SCALE as nat),
        EaseFunction::QuadraticOut => (q * (2 * SCALE - q)) as nat / (SCALE as nat),
    }
}

/// The value a fraction `f` of the way from `start` to `end`.
pub open spec fn lerp(start: nat, end: nat, f: nat) -> nat {
    if end >= start {
        (start + (end - start) * f / (SCALE as int)) as nat
    } else {
        (start - (start - end) * f / (SCALE as int)) as nat
    }
}

/// The value of a tween `local` nanoseconds into it:
/// `start + easing(local / duration) * (end - start)`.
pub open spec fn tween_value(
    ease: EaseFunction,
    duration: nat,
    start: nat,
    end: nat,
    local: nat,
) -> nat {
    lerp(start, end, eased(ease, progress(local, duration)))
}

/// The time the steps from index `from` on take together.
pub open spec fn tail_duration(steps: Seq<Step>, from: nat) -> nat
    decreases steps.len() - from,
{
    if from >= steps.len() {
        0
    } else {
        steps[from as int].span() + tail_duration(steps, from + 1)
    }
}

/// The time all the steps take: the sum of their durations.
pub open spec fn total_duration(steps: Seq<Step>) -> nat {
    tail_duration(steps, 0)
}

/// The time at which step `index` starts: the sum of the durations of the
/// steps before it.
pub open spec fn start_time(steps: Seq<Step>, index: nat) -> nat
    decreases index,
{
    if index == 0 || index > steps.len() {
        0
    } else {
        start_time(steps, (index - 1) as nat) + steps[index - 1].span()
    }
}

/// Where the animation stands when step `index` has `local` nanoseconds on
/// its clock: while the clock has reached the step's duration, the step is
/// over and the overflow is carried to the next. The result is the active
/// step and its clock, or the number of steps and zero when all are over.
pub open spec fn locate_from(steps: Seq<Step>, index: nat, local: nat) -> (nat, nat)
    decreases steps.len() - index,
{
    if index >= steps.len() {
        (steps.len(), 0)
    } else if local < steps[index as int].span() {
        (index, local)
    } else {
        locate_from(steps, index + 1, (local - steps[index as int].span()) as nat)
    }
}

/// The active step and its clock at time `t` of the animation.
pub open spec fn locate(steps: Seq<Step>, t: nat) -> (nat, nat) {
    locate_from(steps, 0, t)
}

/// The value once the first `count` steps are over: the end of the last
/// tween among them, or `initial` if no tween is among them.
pub open spec fn settled(steps: Seq<Step>, initial: u32, count: nat) -> u32
    decreases count,
{
    if count == 0 || count > steps.len() {
        initial
    } else {
        match steps[count - 1] {
            Step::Tween { end, .. } => end,
            Step::Delay { .. } => settled(steps, initial, (count - 1) as nat),
        }
    }
}

/// The value of step `index` when it is active with `local` on its clock.
pub open spec fn step_value(steps: Seq<Step>, initial: u32, index: nat, local: nat) -> nat {
    match steps[index as int] {
        Step::Tween { ease, duration, start, end } => tween_value(
            ease,
            duration as nat,
            start as nat,
            end as nat,
            local,
        ),
        Step::Delay { .. } => settled(steps, initial, index) as nat,
    }
}

/// The value of the animation at time `t`: that of the active step, or the
/// settled value when all steps are over.
pub open spec fn value_at(steps: Seq<Step>, initial: u32, t: nat) -> nat {
    let (index, local) = locate(steps, t);
    if index < steps.len() {
        step_value(steps, initial, index, local)
    } else {
        settled(steps, initial, steps.len()) as nat
    }
}

/// What an animator is: its steps, the value before the first of them, and
/// the time it has run, which stops at the total duration.
pub struct AnimatorView {
    pub steps: Seq<Step>,
    pub initial: u32,
    pub elapsed: nat,
}

impl AnimatorView {
    /// The animation at its start.
    pub open spec fn fresh(steps: Seq<Step>, initial: u32) -> AnimatorView {
        AnimatorView { steps, initial, elapsed: 0 }
    }

    /// The time all steps take.
    pub open spec fn duration(self) -> nat {
        total_duration(self.steps)
    }

    /// The current value.
    pub open spec fn value(self) -> nat {
        value_at(self.steps, self.initial, self.elapsed)
    }

    /// Whether all steps are over.
    pub open spec fn completed(self) -> bool {
        self.elapsed >= self.duration()
    }

    /// The animation `delta` nanoseconds later. Once all steps are over it
    /// rests at the total duration.
    pub open spec fn advanced(self, delta: nat) -> AnimatorView {
        AnimatorView {
            elapsed: if self.elapsed + delta >= self.duration() {
                self.duration()
            } else {
                self.elapsed + delta
            },
            ..self
        }
    }
}

/// From step `index` on, a clock that covers all that is left finds every
/// step over.
pub proof fn lemma_locate_past_end(steps: Seq<Step>, index: nat, local: nat)
    requires
        local >= tail_duration(steps, index),
    ensures
        locate_from(steps, index, local) == (steps.len(), 0nat),
    decreases steps.len() - index,
{
    if index < steps.len() {
        lemma_locate_past_end(steps, index + 1, (local - steps[index as int].span()) as nat);
    }
}

/// The steps before `index` and those from `index` on make up the whole.
pub proof fn lemma_start_plus_tail(steps: Seq<Step>, index: nat)
    requires
        index <= steps.len(),
    ensures
        start_time(steps, index) + tail_duration(steps, index) == total_duration(steps),
    decreases index,
{
    if index > 0 {
        lemma_start_plus_tail(steps, (index - 1) as nat);
    }
}

/// What `locate_from` finds is the one step whose span of time holds the
/// clock: if a step is found, the clock it is given is within its duration
/// and, counted from the start of the animation, the time is the same as
/// before; if none is found, the clock covered all that was left.
pub proof fn lemma_locate_from_exact(steps: Seq<Step>, index: nat, local: nat)
    requires
        index <= steps.len(),
    ensures
        ({
            let (found, clock) = locate_from(steps, index, local);
            &&& index <= found <= steps.len()
            &&& found < steps.len() ==> {
                &&& clock < steps[found as int].span()
                &&& start_time(steps, found) + clock == start_time(steps, index) + local
            }
            &&& found == steps.len() ==> clock == 0 && local >= tail_duration(steps, index)
        }),
    decreases steps.len() - index,
{
    if index < steps.len() && local >= steps[index as int].span() {
        lemma_locate_from_exact(steps, index + 1, (local - steps[index as int].span()) as nat);
    }
}

/// Steps are never active at once and none is skipped: at time `t` the
/// active step is the one that `t` falls in, with the time since that step
/// started on its clock; and once `t` has reached the total duration, no
/// step is active.
pub proof fn lemma_locate_exact(steps: Seq<Step>, t: nat)
    ensures
        ({
            let (found, clock) = locate(steps, t);
            &&& found <= steps.len()
            &&& found < steps.len() ==> {
                &&& start_time(steps, found) <= t < start_time(steps, found) + steps[found as int].span()
                &&& clock == t - start_time(steps, found)
                &&& t < total_duration(steps)
            }
            &&& found == steps.len() <==> t >= total_duration(steps)
        }),
{
    lemma_locate_from_exact(steps, 0, t);
    let (found, clock) = locate(steps, t);
    if found < steps.len() {
        lemma_start_plus_tail(steps, found);
        assert(tail_duration(steps, found) >= steps[found as int].span());
    } else {
        lemma_locate_past_end(steps, 0, t);
    }
    if t >= total_duration(steps) {
        lemma_locate_past_end(steps, 0, t);
    }
}

/// Running on from where the animation stands is the same as looking the
/// later time up from the start.
pub proof fn lemma_locate_continues(steps: Seq<Step>, index: nat, local: nat, more: nat)
    requires
        index <= steps.len(),
    ensures
        ({
            let (found, clock) = locate_from(steps, index, local);
            locate_from(steps, index, local + more) == locate_from(steps, found, clock + more)
        }),
    decreases steps.len() - index,
{
    if index < steps.len() && local >= steps[index as int].span() {
        lemma_locate_continues(
            steps,
            index + 1,
            (local - steps[index as int].span()) as nat,
            more,
        );
    }
}

/// An eased fraction is a fraction: the curves map zero to zero, one to
/// one, and nothing in between to more than one.
pub proof fn lemma_eased_bounds(ease: EaseFunction, p: nat)
    ensures
        eased(ease, p) <= SCALE,
        eased(ease, 0) == 0,
        p >= SCALE ==> eased(ease, p) == SCALE,
{
    let s = SCALE as int;
    assert(clamped(0) == 0);
    assert(0int * 0int / s == 0 && (0int * (2 * s - 0)) / s == 0);
    let p = clamped(p) as int;
    assert(p * p <= s * s) by (nonlinear_arith)
        requires
            0 <= p <= s,
    ;
    assert(p * (2 * s - p) <= s * s) by (nonlinear_arith)
        requires
            0 <= p <= s,
    ;
    assert(0 <= p * (2 * s - p)) by (nonlinear_arith)
        requires
            0 <= p <= s,
    ;
}

/// The easing curves never go backwards: a later fraction is eased to at
/// least as much as an earlier one.
pub proof fn lemma_eased_monotonic(ease: EaseFunction, p: nat, q: nat)
    requires
        p <= q,
    ensures
        eased(ease, p) <= eased(ease, q),
{
    let s = SCALE as int;
    let p = clamped(p) as int;
    let q = clamped(q) as int;
    assert(p * p <= q * q) by (nonlinear_arith)
        requires
            0 <= p <= q,
    ;
    assert(p * (2 * s - p) <= q * (2 * s - q)) by (nonlinear_arith)
        requires
            0 <= p <= q <= s,
    ;
    assert(0 <= p * (2 * s - p)) by (nonlinear_arith)
        requires
            0 <= p <= s,
    ;
}

/// Interpolation does not overshoot: for a fraction of at most one the
/// value lies between the start and the end; at zero it is the start and
/// at one it is the end.
pub proof fn lemma_lerp_bounds(start: nat, end: nat, f: nat)
    requires
        f <= SCALE,
    ensures
        start <= end ==> start <= lerp(start, end, f) <= end,
        end <= start ==> end <= lerp(start, end, f) <= start,
        lerp(start, end, 0) == start,
        lerp(start, end, SCALE as nat) == end,
{
    let s = SCALE as int;
    let f = f as int;
    if end >= start {
        let d = end - start;
        assert(0 <= d * f <= d * s) by (nonlinear_arith)
            requires
                0 <= f <= s,
                0 <= d,
        ;
        assert(d * s / s == d) by (nonlinear_arith)
            requires
                s == 1_000_000,
        ;
        assert(d * f / s <= d * s / s) by (nonlinear_arith)
            requires
                d * f <= d * s,
                s > 0,
        ;
        assert(d * 0 == 0);
    } else {
        let d = start - end;
        assert(0 <= d * f <= d * s) by (nonlinear_arith)
            requires
                0 <= f <= s,
                0 <= d,
        ;
        assert(d * s / s == d) by (nonlinear_arith)
            requires
                s == 1_000_000,
        ;
        assert(d * f / s <= d * s / s) by (nonlinear_arith)
            requires
                d * f <= d * s,
                s > 0,
        ;
        assert(d * 0 == 0);
    }
}

/// A tween does not overshoot either: its value is always between its
/// start and its end, is its start at the beginning, and is its end once
/// its duration is up.
pub proof fn lemma_tween_bounds(ease: EaseFunction, duration: nat, start: nat, end: nat, local: nat)
    ensures
        start <= end ==> start <= tween_value(ease, duration, start, end, local) <= end,
        end <= start ==> end <= tween_value(ease, duration, start, end, local) <= start,
        duration > 0 ==> tween_value(ease, duration, start, end, 0) == start,
        local >= duration ==> tween_value(ease, duration, start, end, local) == end,
{
    let p = progress(local, duration);
    assert(p <= SCALE) by {
        if duration != 0 && local < duration {
            let l = local as int;
            let d = duration as int;
            let s = SCALE as int;
            assert(l * s / d <= s) by (nonlinear_arith)
                requires
                    0 <= l < d,
                    0 < s,
            ;
        }
    }
    lemma_eased_bounds(ease, p);
    lemma_lerp_bounds(start, end, eased(ease, p));
    if duration > 0 {
        assert(progress(0, duration) == 0) by {
            let d = duration as int;
            assert(0 * (SCALE as int) / d == 0) by (nonlinear_arith)
                requires
                    d > 0,
            ;
        }
        lemma_eased_bounds(ease, 0);
        lemma_lerp_bounds(start, end, 0);
    }
}

/// Holds of steps that take up where the ones before them left off: every
/// tween starts at the value that was settled when its turn came.
pub open spec fn joined(steps: Seq<Step>, initial: u32) -> bool {
    forall|k: int|
        0 <= k < steps.len() ==> (#[trigger] steps[k] matches Step::Tween { start, .. }
            ==> start == settled(steps, initial, k as nat))
}

/// Skipping whole steps: with the durations of steps `from` up to `to` on
/// the clock and `more` besides, those steps are over and step `to` has
/// `more` on its clock.
pub proof fn lemma_locate_skips(steps: Seq<Step>, from: nat, to: nat, more: nat)
    requires
        from <= to <= steps.len(),
    ensures
        start_time(steps, from) <= start_time(steps, to),
        locate_from(steps, from, (start_time(steps, to) - start_time(steps, from) + more) as nat)
            == locate_from(steps, to, more),
    decreases to - from,
{
    if from < to {
        lemma_locate_skips(steps, from + 1, to, more);
    }
}

/// At time zero an animation whose first step is a tween that takes time
/// has that tween's start value.
pub proof fn lemma_starts_at_first_start(steps: Seq<Step>, initial: u32)
    requires
        steps.len() > 0,
        steps[0] is Tween,
        steps[0].span() > 0,
    ensures
        value_at(steps, initial, 0) == steps[0]->start,
{
    match steps[0] {
        Step::Tween { ease, duration, start, end } => {
            lemma_tween_bounds(ease, duration as nat, start as nat, end as nat, 0);
        },
        Step::Delay { .. } => {},
    }
}

/// From the total duration on, an animation holds its settled value: the
/// end value of its last step, where that is a tween.
pub proof fn lemma_ends_at_last_end(steps: Seq<Step>, initial: u32, t: nat)
    requires
        steps.len() > 0,
        t >= total_duration(steps),
    ensures
        value_at(steps, initial, t) == settled(steps, initial, steps.len()),
        steps.last() is Tween ==> value_at(steps, initial, t) == steps.last()->end,
{
    lemma_locate_past_end(steps, 0, t);
}

/// An animation of joined steps is continuous where one step hands over to
/// the next. At the instant step `k` is over, the value of the animation
/// is the value settled by then, and that is also the value that step `k`
/// itself arrives at as its time runs out: nothing jumps.
pub proof fn lemma_continuous_at_boundaries(steps: Seq<Step>, initial: u32, k: nat)
    requires
        k < steps.len(),
        joined(steps, initial),
        k + 1 < steps.len() ==> steps[k as int + 1].span() > 0,
    ensures
        value_at(steps, initial, start_time(steps, k + 1)) == settled(steps, initial, k + 1),
        step_value(steps, initial, k, steps[k as int].span()) == settled(steps, initial, k + 1),
{
    lemma_locate_skips(steps, 0, k + 1, 0);
    match steps[k as int] {
        Step::Tween { ease, duration, start, end } => {
            lemma_tween_bounds(ease, duration as nat, start as nat, end as nat, duration as nat);
        },
        Step::Delay { .. } => {},
    }
    if k + 1 < steps.len() {
        match steps[k as int + 1] {
            Step::Tween { ease, duration, start, end } => {
                lemma_tween_bounds(ease, duration as nat, start as nat, end as nat, 0);
            },
            Step::Delay { .. } => {},
        }
    }
}

impl EaseFunction {
    /// The curve at the fraction `p`, both in millionths.
    pub fn sample(self, p: u64) -> (e: u64)
        ensures
            e == eased(self, p as nat),
            e <= SCALE,
    {
        let q: u64 = if p > SCALE {
            SCALE
        } else {
            p
        };
        proof {
            lemma_eased_bounds(self, p as nat);
            assert(q * q <= SCALE * SCALE) by (nonlinear_arith)
                requires
                    0 <= q <= SCALE,
            ;
            assert(0 <= q * (2 * SCALE - q) <= SCALE * SCALE) by (nonlinear_arith)
                requires
                    0 <= q <= SCALE,
            ;
        }
        match self {
            EaseFunction::QuadraticIn => q * q / SCALE,
            EaseFunction::QuadraticOut => q * (2 * SCALE - q) / SCALE,
        }
    }
}

/// The fraction of `duration` that `local` is, in millionths.
pub fn fraction(local: u64, duration: u64) -> (p: u64)
    ensures
        p == progress(local as nat, duration as nat),
        p <= SCALE,
{
    if duration == 0 || local >= duration {
        SCALE
    } else {
        assert((local as u128) * (SCALE as u128) <= u128::MAX) by (nonlinear_arith)
            requires
                local <= u64::MAX,
                SCALE == 1_000_000,
        ;
        let wide: u128 = (local as u128) * (SCALE as u128) / (duration as u128);
        proof {
            let l = local as int;
            let d = duration as int;
            let s = SCALE as int;
            assert(l * s / d <= s) by (nonlinear_arith)
                requires
                    0 <= l < d,
                    0 < s,
            ;
        }
        wide as u64
    }
}

/// The value a fraction `f` of the way from `start` to `end`, with `f` in
/// millionths and cut off at one.
pub fn interpolate(start: u32, end: u32, f: u64) -> (value: u32)
    ensures
        value == lerp(start as nat, end as nat, clamped(f as nat)),
{
    let f: u64 = if f > SCALE {
        SCALE
    } else {
        f
    };
    proof {
        lemma_lerp_bounds(start as nat, end as nat, f as nat);
    }
    if end >= start {
        let d: u64 = (end - start) as u64;
        assert(d * f <= d * SCALE) by (nonlinear_arith)
            requires
                0 <= f <= SCALE,
                0 <= d,
        ;
        let part: u64 = d * f / SCALE;
        start + (part as u32)
    } else {
        let d: u64 = (start - end) as u64;
        assert(d * f <= d * SCALE) by (nonlinear_arith)
            requires
                0 <= f <= SCALE,
                0 <= d,
        ;
        let part: u64 = d * f / SCALE;
        start - (part as u32)
    }
}

impl Step {
    /// The value of the step `local` nanoseconds into it, given the value
    /// `held` that the steps before it left: a tween interpolates, a delay
    /// keeps what it found.
    pub fn value_at(&self, local: u64, held: u32) -> (value: u32)
        ensures
            value == match *self {
                Step::Tween { ease, duration, start, end } => tween_value(
                    ease,
                    duration as nat,
                    start as nat,
                    end as nat,
                    local as nat,
                ),
                Step::Delay { .. } => held as nat,
            },
    {
        match self {
            Step::Tween { ease, duration, start, end } => {
                let p = fraction(local, *duration);
                let e = ease.sample(p);
                interpolate(*start, *end, e)
            },
            Step::Delay { .. } => held,
        }
    }
}

/// Runs a list of steps one after the other, each to its end, carrying any
/// time left over into the next step. When the steps are over it holds the
/// last value.
#[derive(Debug)]
pub struct Animator {
    steps: Vec<Step>,
    initial: u32,
    duration: u64,
    elapsed: u64,
    index: usize,
    local: u64,
    value: u32,
}

impl View for Animator {
    type V = AnimatorView;

    closed spec fn view(&self) -> AnimatorView {
        AnimatorView { steps: self.steps@, initial: self.initial, elapsed: self.elapsed as nat }
    }
}

impl Animator {
    /// The animator's invariant: it has steps, knows their total duration,
    /// and its active step, that step's clock and its value are those of
    /// the time it has run.
    pub closed spec fn wf(&self) -> bool {
        &&& self.steps@.len() > 0
        &&& self.duration == total_duration(self.steps@)
        &&& self.elapsed <= self.duration
        &&& locate(self.steps@, self.elapsed as nat) == (self.index as nat, self.local as nat)
        &&& self.value == value_at(self.steps@, self.initial, self.elapsed as nat)
    }

    /// What `run` needs to start from: a step and a clock that has not run
    /// past it, and a value that is the settled one wherever no tween is
    /// about to overwrite it.
    spec fn poised(&self) -> bool {
        &&& self.index <= self.steps@.len()
        &&& self.index < self.steps@.len() ==> self.local <= self.steps@[self.index as int].span()
        &&& self.index == self.steps@.len() ==> self.local == 0
        &&& self.index == self.steps@.len() || self.steps@[self.index as int] is Delay
            ==> self.value == settled(self.steps@, self.initial, self.index as nat)
    }

    /// An animator at the start of `steps`, for a value that is `initial`
    /// before the first step touches it. There must be at least one step,
    /// and the total duration must fit the clock.
    pub fn new(initial: u32, steps: Vec<Step>) -> (animator: Animator)
        requires
            steps@.len() > 0,
            total_duration(steps@) <= u64::MAX,
        ensures
            animator.wf(),
            animator@ == AnimatorView::fresh(steps@, initial),
    {
        let mut duration: u64 = 0;
        let mut i: usize = 0;
        while i < steps.len()
            invariant
                i <= steps.len(),
                duration == start_time(steps@, i as nat),
                total_duration(steps@) <= u64::MAX,
            decreases steps.len() - i,
        {
            proof {
                lemma_start_plus_tail(steps@, (i + 1) as nat);
            }
            duration = duration + steps[i].duration();
            i = i + 1;
        }
        proof {
            lemma_start_plus_tail(steps@, steps@.len());
        }
        let mut animator = Animator {
            steps,
            initial,
            duration,
            elapsed: 0,
            index: 0,
            local: 0,
            value: initial,
        };
        animator.run(0);
        animator
    }

    /// Moves on by `delta` nanoseconds from the step and clock the
    /// animator stands at.
    fn run(&mut self, delta: u64)
        requires
            old(self).poised(),
        ensures
            final(self).steps == old(self).steps,
            final(self).initial == old(self).initial,
            final(self).duration == old(self).duration,
            final(self).elapsed == old(self).elapsed,
            (final(self).index as nat, final(self).local as nat) == locate_from(
                old(self).steps@,
                old(self).index as nat,
                (old(self).local + delta) as nat,
            ),
            final(self).value == if final(self).index < final(self).steps@.len() {
                step_value(
                    final(self).steps@,
                    final(self).initial,
                    final(self).index as nat,
                    final(self).local as nat,
                )
            } else {
                settled(final(self).steps@, final(self).initial, final(self).steps@.len()) as nat
            },
    {
        let mut remaining = delta;
        while self.index < self.steps.len()
            invariant
                self.steps == old(self).steps,
                self.initial == old(self).initial,
                self.duration == old(self).duration,
                self.elapsed == old(self).elapsed,
                self.poised(),
                locate_from(self.steps@, self.index as nat, (self.local + remaining) as nat)
                    == locate_from(
                    old(self).steps@,
                    old(self).index as nat,
                    (old(self).local + delta) as nat,
                ),
            decreases self.steps.len() - self.index,
        {
            let step = self.steps[self.index];
            let left = step.duration() - self.local;
            if remaining < left {
                self.local = self.local + remaining;
                self.value = step.value_at(self.local, self.value);
                return ;
            }
            remaining = remaining - left;
            self.local = 0;
            self.value = match step {
                Step::Tween { end, .. } => end,
                Step::Delay { .. } => self.value,
            };
            self.index = self.index + 1;
        }
    }

    /// Advances the animation by the time the frame took and returns the
    /// value it now has.
    pub fn tick(&mut self, delta: u64) -> (value: u32)
        requires
            old(self).wf(),
        ensures
            final(self).wf(),
            final(self)@ == old(self)@.advanced(delta as nat),
            value == final(self)@.value(),
    {
        let ghost goal = (self.elapsed + delta) as nat;
        proof {
            lemma_locate_from_exact(self.steps@, 0, self.elapsed as nat);
            lemma_locate_continues(self.steps@, 0, self.elapsed as nat, delta as nat);
            lemma_locate_exact(self.steps@, goal);
            if goal >= self.duration {
                lemma_locate_past_end(self.steps@, 0, goal);
                lemma_locate_past_end(self.steps@, 0, self.duration as nat);
            }
        }
        self.run(delta);
        assert((self.index as nat, self.local as nat) == locate(self.steps@, goal));
        self.elapsed = if delta >= self.duration - self.elapsed {
            self.duration
        } else {
            self.elapsed + delta
        };
        self.value
    }

    /// The current value.
    pub fn value(&self) -> (value: u32)
        requires
            self.wf(),
        ensures
            value == self@.value(),
    {
        self.value
    }

    /// The time the animation has run, at most its total duration.
    pub fn elapsed(&self) -> (elapsed: u64)
        ensures
            elapsed == self@.elapsed,
    {
        self.elapsed
    }

    /// The total duration: the sum of the durations of the steps.
    pub fn duration(&self) -> (duration: u64)
        requires
            self.wf(),
        ensures
            duration == self@.duration(),
    {
        self.duration
    }

    /// Whether all steps are over, so that the animator only holds its
    /// last value.
    pub fn completed(&self) -> (completed: bool)
        requires
            self.wf(),
        ensures
            completed == self@.completed(),
    {
        self.elapsed >= self.duration
    }
}

} // verus!
