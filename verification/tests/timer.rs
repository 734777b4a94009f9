use dice_master::timer::{seconds_to_nanos, Timer, NANOS_PER_SECOND};

#[test]
fn timer_finishes_when_the_time_is_up() {
    let mut timer = Timer::new(3 * NANOS_PER_SECOND);
    assert!(!timer.finished());
    assert!(!timer.tick(NANOS_PER_SECOND));
    assert_eq!(timer.elapsed(), NANOS_PER_SECOND);
    assert_eq!(timer.remaining(), 2 * NANOS_PER_SECOND);
    assert!(!timer.tick(NANOS_PER_SECOND));
    assert!(timer.tick(NANOS_PER_SECOND));
    assert!(timer.finished());
    assert_eq!(timer.elapsed(), timer.duration());
}

#[test]
fn timer_of_zero_finishes_on_first_tick() {
    let mut timer = Timer::new(0);
    assert!(!timer.finished());
    assert!(timer.tick(0));
    assert!(timer.finished());
}

#[test]
fn timer_stays_finished_and_clamped() {
    let mut timer = Timer::from_seconds(1);
    assert!(timer.tick(5 * NANOS_PER_SECOND));
    assert_eq!(timer.elapsed(), NANOS_PER_SECOND);
    assert!(timer.tick(7));
    assert_eq!(timer.elapsed(), NANOS_PER_SECOND);
    assert_eq!(timer.remaining(), 0);
}

#[test]
fn timer_reset_starts_over() {
    let mut timer = Timer::from_seconds(2);
    assert!(timer.tick(seconds_to_nanos(2)));
    timer.reset();
    assert!(!timer.finished());
    assert_eq!(timer.elapsed(), 0);
    assert_eq!(timer.duration(), 2_000_000_000);
    assert!(!timer.tick(1_999_999_999));
    assert!(timer.tick(1));
}
