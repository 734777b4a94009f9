use dice_master::effects::{delay, go_to_state_system, Go, GoToState, INVISIBLE, VISIBLE};
use dice_master::scenes::State;
use dice_master::timer::{Timer, NANOS_PER_SECOND};
use dice_master::tween::Step;

const SECOND: u64 = NANOS_PER_SECOND;

#[test]
fn go_after_schedules_the_target() {
    let goto = Go::to(State::Menu).after(6);
    assert_eq!(goto.state(), State::Menu);
    assert_eq!(goto.timer().duration(), 6 * SECOND);
    assert_eq!(goto.timer().elapsed(), 0);
    assert!(!goto.timer().finished());
    assert_eq!(Go::to(State::Hello).state, State::Hello);
}

#[test]
fn scheduled_transition_fires_exactly_once_when_due() {
    let mut pending = Some(Go::to(State::Menu).after(3));
    assert_eq!(go_to_state_system(&mut pending, SECOND), None);
    assert_eq!(go_to_state_system(&mut pending, SECOND), None);
    assert!(pending.is_some());
    assert_eq!(pending.unwrap().timer().elapsed(), 2 * SECOND);
    assert_eq!(go_to_state_system(&mut pending, SECOND), Some(State::Menu));
    assert!(pending.is_none());
    assert_eq!(go_to_state_system(&mut pending, SECOND), None);
    assert_eq!(go_to_state_system(&mut pending, 10 * SECOND), None);
}

#[test]
fn scheduled_transition_does_not_fire_one_nanosecond_early() {
    let mut pending = Some(Go::to(State::Loading).after(1));
    assert_eq!(go_to_state_system(&mut pending, SECOND - 1), None);
    assert_eq!(go_to_state_system(&mut pending, 1), Some(State::Loading));
}

#[test]
fn scheduled_transition_with_no_delay_fires_on_first_tick() {
    let mut pending = Some(Go::to(State::Hello).after(0));
    assert!(pending.is_some());
    assert_eq!(go_to_state_system(&mut pending, 0), Some(State::Hello));
    assert!(pending.is_none());
}

#[test]
fn rescheduling_overwrites_the_pending_transition() {
    let mut pending = Some(Go::to(State::Loading).after(2));
    assert_eq!(go_to_state_system(&mut pending, SECOND), None);
    pending = Some(Go::to(State::Hello).after(2));
    assert_eq!(go_to_state_system(&mut pending, SECOND), None);
    assert_eq!(go_to_state_system(&mut pending, SECOND), Some(State::Hello));
    assert_eq!(go_to_state_system(&mut pending, SECOND), None);
    assert!(pending.is_none());
}

#[test]
fn nothing_pending_nothing_fires() {
    let mut pending: Option<GoToState> = None;
    assert_eq!(go_to_state_system(&mut pending, SECOND), None);
    assert!(pending.is_none());
}

#[test]
fn go_to_state_with_a_finished_timer_fires_at_once() {
    let mut timer = Timer::new(5);
    assert!(timer.tick(5));
    let mut pending = Some(GoToState::new(State::Menu, timer));
    assert_eq!(go_to_state_system(&mut pending, 0), Some(State::Menu));
}

#[test]
fn delay_is_a_step_that_only_waits() {
    assert_eq!(delay(2), Step::Delay { duration: 2 * SECOND });
    assert_eq!(delay(2).duration(), 2_000_000_000);
    assert_eq!(delay(0).duration(), 0);
}

#[test]
fn opacity_constants() {
    assert_eq!(INVISIBLE, 0);
    assert_eq!(VISIBLE, 1_000_000);
}
