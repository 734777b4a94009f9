//! Deferred scene changes: a target scene and the countdown that leads to it.

use vstd::prelude::*;
use crate::scenes::State;
use crate::timer::{nanos, seconds_to_nanos, total, Timer, TimerView, MAX_SECONDS};
use crate::tween::Step;

verus! {

/// The opacity of what cannot be seen, in millionths.
pub const INVISIBLE: u32 = 0;

/// The opacity of what is fully there, in millionths.
pub const VISIBLE: u32 = 1_000_000;

/// A step that waits for `seconds` seconds and changes nothing.
pub fn delay(seconds: u64) -> (step: Step)
    requires
        seconds <= MAX_SECONDS,
    ensures
        step == (Step::Delay { duration: nanos(seconds as nat) as u64 }),
        step.span() == nanos(seconds as nat),
{
    Step::Delay { duration: seconds_to_nanos(seconds) }
}

/// What a scheduled transition is: where it leads and its countdown.
pub struct GoToStateView {
    pub state: State,
    pub timer: TimerView,
}

/// A scheduled transition: when the timer finishes, the game goes to
/// `state` and the transition is gone.
#[derive(Debug, Clone, Copy, PartialEq, Eq, Hash)]
pub struct GoToState {
    state: State,
    timer: Timer,
}

impl View for GoToState {
    type V = GoToStateView;

    closed spec fn view(&self) -> GoToStateView {
        GoToStateView { state: self.state, timer: self.timer@ }
    }
}

impl GoToState {
    /// A transition to `state` when `timer` finishes.
    pub fn new(state: State, timer: Timer) -> (goto: GoToState)
        ensures
            goto@ == (GoToStateView { state, timer: timer@ }),
    {
        GoToState { state, timer }
    }

    /// The scene this transition leads to.
    pub fn state(&self) -> (state: State)
        ensures
            state == self@.state,
    {
        self.state
    }

    /// The countdown of this transition.
    pub fn timer(&self) -> (timer: Timer)
        ensures
            timer@ == self@.timer,
    {
        self.timer
    }
}

/// The first half of scheduling: names the scene to go to.
#[derive(Debug, Clone, Copy, PartialEq, Eq, Hash, Structural)]
pub struct Go {
    pub state: State,
}

impl Go {
    /// Names the scene to go to.
    pub fn to(state: State) -> (go: Go)
        ensures
            go.state == state,
    {
        Go { state }
    }

    /// The transition to the named scene after `seconds` seconds.
    pub fn after(&self, seconds: u64) -> (goto: GoToState)
        requires
            seconds <= MAX_SECONDS,
        ensures
            goto@ == scheduled(self.state, nanos(seconds as nat)),
    {
        GoToState::new(self.state, Timer::from_seconds(seconds))
    }
}

/// The view of a `GoToState`, for the pending transition if there is one.
pub open spec fn pending_view(pending: Option<GoToState>) -> Option<GoToStateView> {
    match pending {
        Some(goto) => Some(goto@),
        None => None,
    }
}

/// A transition to `state` that was just scheduled with a delay.
pub open spec fn scheduled(state: State, delay: nat) -> GoToStateView {
    GoToStateView { state, timer: TimerView::fresh(delay) }
}

/// One frame of the pending transition, if any: its timer is ticked, and
/// if that finishes it, the transition fires and nothing is pending any
/// more. The result is what stays pending and the scene to go to now.
pub open spec fn drained(pending: Option<GoToStateView>, delta: nat) -> (
    Option<GoToStateView>,
    Option<State>,
) {
    match pending {
        Some(goto) => {
            let timer = goto.timer.tick(delta);
            if timer.finished {
                (None, Some(goto.state))
            } else {
                (Some(GoToStateView { timer, ..goto }), None)
            }
        },
        None => (None, None),
    }
}

/// Several frames of the pending transition with nothing scheduled in
/// between: what stays pending, and the scenes it fired for, in order.
pub open spec fn drained_all(pending: Option<GoToStateView>, deltas: Seq<nat>) -> (
    Option<GoToStateView>,
    Seq<State>,
)
    decreases deltas.len(),
{
    if deltas.len() == 0 {
        (pending, Seq::empty())
    } else {
        let (next, fired) = drained(pending, deltas[0]);
        let (last, later) = drained_all(next, deltas.drop_first());
        (
            last,
            match fired {
                Some(state) => seq![state] + later,
                None => later,
            },
        )
    }
}

/// Ticks the pending transition by the time the frame took. When its timer
/// finishes, the transition is taken out and its target is returned for the
/// caller to go to; otherwise nothing is returned and it stays pending.
pub fn go_to_state_system(pending: &mut Option<GoToState>, delta: u64) -> (fired: Option<State>)
    ensures
        (pending_view(*final(pending)), fired) == drained(pending_view(*old(pending)), delta as nat),
{
    match *pending {
        Some(goto) => {
            let mut timer = goto.timer;
            if timer.tick(delta) {
                *pending = None;
                Some(goto.state)
            } else {
                *pending = Some(GoToState { state: goto.state, timer });
                None
            }
        },
        None => None,
    }
}

/// With nothing pending, nothing ever fires.
pub proof fn lemma_nothing_pending(deltas: Seq<nat>)
    ensures
        drained_all(None, deltas) == (None::<GoToStateView>, Seq::<State>::empty()),
    decreases deltas.len(),
{
    if deltas.len() > 0 {
        lemma_nothing_pending(deltas.drop_first());
    }
}

/// A pending transition whose timer is under way fires exactly once, at the
/// first frame at which the time ticked reaches what was left of its delay,
/// and not before: over any run of frames it has fired, once and for its
/// own target, if the frame times add up to the rest of the delay or more,
/// and has not fired and is still pending with the time added otherwise.
pub proof fn lemma_drained_from(goto: GoToStateView, deltas: Seq<nat>)
    requires
        goto.timer.wf(),
        !goto.timer.finished,
    ensures
        drained_all(Some(goto), deltas) == if deltas.len() > 0 && goto.timer.elapsed + total(deltas)
            >= goto.timer.duration {
            (None::<GoToStateView>, seq![goto.state])
        } else {
            (
                Some(
                    GoToStateView {
                        timer: TimerView {
                            elapsed: goto.timer.elapsed + total(deltas),
                            ..goto.timer
                        },
                        ..goto
                    },
                ),
                Seq::<State>::empty(),
            )
        },
    decreases deltas.len(),
{
    if deltas.len() > 0 {
        let (next, fired) = drained(Some(goto), deltas[0]);
        let rest = deltas.drop_first();
        if fired is Some {
            lemma_nothing_pending(rest);
            assert(seq![goto.state] + Seq::<State>::empty() =~= seq![goto.state]);
        } else {
            lemma_drained_from(next->0, rest);
        }
    }
}

/// A transition scheduled with a delay fires exactly once, and never early:
/// over the first `frames` frames of any run it has fired, once and for its
/// target, exactly if at least one frame has passed and the frame times so
/// far add up to the delay or more. Until then it is pending and has fired
/// nothing; from then on nothing is pending, so it cannot fire again.
pub proof fn lemma_fires_once_when_due(state: State, delay: nat, deltas: Seq<nat>, frames: int)
    requires
        0 <= frames <= deltas.len(),
    ensures
        ({
            let so_far = deltas.take(frames);
            let (pending, fired) = drained_all(Some(scheduled(state, delay)), so_far);
            if frames > 0 && total(so_far) >= delay {
                pending is None && fired == seq![state]
            } else {
                pending is Some && fired == Seq::<State>::empty()
            }
        }),
{
    lemma_drained_from(scheduled(state, delay), deltas.take(frames));
}

/// Scheduling is last-write-wins. When a second transition is scheduled
/// before the first has fired, the first is discarded: over the frames
/// before and after the second scheduling together, the only transition
/// that ever fires is the second one, once, when its own delay is up.
pub proof fn lemma_reschedule_last_wins(
    first: State,
    first_delay: nat,
    before: Seq<nat>,
    second: State,
    second_delay: nat,
    after: Seq<nat>,
)
    requires
        before.len() == 0 || total(before) < first_delay,
    ensures
        ({
            let (_, fired_before) = drained_all(Some(scheduled(first, first_delay)), before);
            let (pending, fired_after) = drained_all(Some(scheduled(second, second_delay)), after);
            let fired = fired_before + fired_after;
            if after.len() > 0 && total(after) >= second_delay {
                pending is None && fired == seq![second]
            } else {
                pending is Some && pending->0.state == second && fired == Seq::<State>::empty()
            }
        }),
{
    lemma_drained_from(scheduled(first, first_delay), before);
    lemma_drained_from(scheduled(second, second_delay), after);
    let (_, fired_before) = drained_all(Some(scheduled(first, first_delay)), before);
    let (_, fired_after) = drained_all(Some(scheduled(second, second_delay)), after);
    assert(fired_before + fired_after =~= fired_after);
}

} // verus!
