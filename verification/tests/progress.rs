use dice_master::loading::{
    fake_long_task, print_progress, Rotate, DURATION_LONG_TASK, FULL_TURN, LONG_TASK, SPINNER_SPEED,
};
use dice_master::progress::{Progress, ProgressCounter};
use dice_master::scenes::Loading;
use dice_master::timer::NANOS_PER_SECOND;

const SECOND: u64 = NANOS_PER_SECOND;

#[test]
fn progress_is_not_complete_without_tasks() {
    let counter = ProgressCounter::new();
    assert_eq!(counter.total_count(), 0);
    assert_eq!(counter.done_count(), 0);
    assert!(!counter.is_complete());
}

#[test]
fn progress_counts_each_task_once() {
    let mut counter = ProgressCounter::new();
    counter.report(1, false);
    counter.report(1, false);
    counter.report(2, true);
    counter.report(2, true);
    assert_eq!(counter.total_count(), 2);
    assert_eq!(counter.done_count(), 1);
    assert_eq!(counter.progress(), Progress { done: 1, total: 2 });
    assert!(!counter.is_complete());
    counter.report(1, true);
    assert_eq!(counter.done_count(), 2);
    assert!(counter.is_complete());
}

#[test]
fn progress_goes_back_when_a_task_is_no_longer_done() {
    let mut counter = ProgressCounter::new();
    counter.report(7, true);
    assert!(counter.is_complete());
    counter.report(7, false);
    assert_eq!(counter.done_count(), 0);
    assert_eq!(counter.total_count(), 1);
    assert!(!counter.is_complete());
    counter.report(7, true);
    assert!(counter.is_complete());
}

#[test]
fn progress_of_one_task_completes_only_when_it_reports_done() {
    let mut counter = ProgressCounter::new();
    for _ in 0..5 {
        counter.report(3, false);
        assert!(!counter.is_complete());
    }
    counter.report(3, true);
    assert!(counter.is_complete());
}

#[test]
fn fake_long_task_is_done_only_after_its_duration() {
    let mut counter = ProgressCounter::new();
    fake_long_task(0, &mut counter);
    assert_eq!(counter.progress(), Progress { done: 0, total: 1 });
    fake_long_task(DURATION_LONG_TASK, &mut counter);
    assert!(!counter.is_complete());
    fake_long_task(DURATION_LONG_TASK + 1, &mut counter);
    assert!(counter.is_complete());
    assert_eq!(counter.progress(), Progress { done: 1, total: 1 });
    assert_eq!(DURATION_LONG_TASK, 5 * SECOND);
    assert_eq!(LONG_TASK, 0);
}

#[test]
fn print_progress_announces_only_growth() {
    let mut last_done = 0;
    assert!(!print_progress(Progress { done: 0, total: 3 }, &mut last_done));
    assert_eq!(last_done, 0);
    assert!(print_progress(Progress { done: 2, total: 3 }, &mut last_done));
    assert_eq!(last_done, 2);
    assert!(!print_progress(Progress { done: 2, total: 3 }, &mut last_done));
    assert!(!print_progress(Progress { done: 1, total: 3 }, &mut last_done));
    assert_eq!(last_done, 2);
    assert!(print_progress(Progress { done: 3, total: 3 }, &mut last_done));
    assert_eq!(last_done, 3);
}

#[test]
fn rotate_turns_by_speed_times_time() {
    let mut spinner = Rotate::angle_per_second(200);
    assert_eq!(spinner.angle(), 0);
    assert_eq!(spinner.speed(), 200);
    spinner.tick(SECOND / 2);
    assert_eq!(spinner.angle(), 100 * SECOND);
    spinner.tick(SECOND);
    assert_eq!(spinner.angle(), 300 * SECOND);
}

#[test]
fn rotate_wraps_at_the_full_turn() {
    let mut spinner = Rotate::angle_per_second(200);
    spinner.tick(2 * SECOND);
    assert_eq!(spinner.angle(), 40 * SECOND);
    spinner.tick(SECOND * 8 / 5);
    assert_eq!(spinner.angle(), 0);
    assert_eq!(FULL_TURN, 360 * SECOND);
    let mut fast = Rotate::angle_per_second(u32::MAX);
    fast.tick(u64::MAX);
    assert!(fast.angle() < FULL_TURN);
    assert_eq!(
        fast.angle() as u128,
        (u32::MAX as u128 * u64::MAX as u128) % FULL_TURN as u128
    );
}

#[test]
fn loading_scene_updates_until_complete() {
    let mut loading = Loading::setup();
    assert_eq!(loading.elapsed(), 0);
    assert_eq!(loading.angle(), 0);
    assert!(!loading.is_complete());
    assert_eq!(loading.progress(), Progress { done: 0, total: 0 });
    assert!(!loading.update(5 * SECOND));
    assert_eq!(loading.progress(), Progress { done: 0, total: 1 });
    assert_eq!(loading.angle(), (5 * SPINNER_SPEED as u64 * SECOND) % FULL_TURN);
    assert!(!loading.update(1));
    assert!(loading.is_complete());
    assert_eq!(loading.elapsed(), 5 * SECOND + 1);
    let angle = loading.angle();
    assert!(loading.update(SECOND));
    assert_eq!(loading.elapsed(), 5 * SECOND + 1);
    assert_eq!(loading.angle(), angle);
}

#[test]
fn loading_scene_waits_for_every_reported_task() {
    let mut loading = Loading::setup();
    loading.report(9, false);
    assert!(!loading.update(6 * SECOND));
    assert_eq!(loading.progress(), Progress { done: 1, total: 2 });
    assert!(!loading.update(SECOND));
    loading.report(9, true);
    assert!(loading.is_complete());
    assert!(loading.update(SECOND));
}

#[test]
fn loading_clock_stops_at_the_most_it_can_hold() {
    let mut loading = Loading::setup();
    loading.report(9, false);
    assert!(!loading.update(u64::MAX));
    assert!(!loading.update(u64::MAX));
    assert_eq!(loading.elapsed(), u64::MAX);
}
