use pomodoro::phase_timer::{PhaseTimer, NANOS_PER_SEC};

#[test]
fn new_timer_is_fresh_and_running() {
    let timer = PhaseTimer::new(100);
    assert_eq!(timer.duration(), 100);
    assert_eq!(timer.elapsed(), 0);
    assert!(!timer.paused());
    assert!(!timer.finished());
    assert_eq!(timer.remaining(), 100);
}

#[test]
fn advance_adds_the_delta() {
    let mut timer = PhaseTimer::new(100);
    timer.advance(3);
    assert_eq!(timer.elapsed(), 3);
    timer.advance(5);
    assert_eq!(timer.elapsed(), 8);
    assert_eq!(timer.remaining(), 92);
    assert!(!timer.finished());
}

#[test]
fn advance_by_nothing_changes_nothing() {
    let mut timer = PhaseTimer::new(100);
    timer.advance(40);
    timer.advance(0);
    assert_eq!(timer.elapsed(), 40);
}

#[test]
fn advance_stops_at_the_duration() {
    let mut timer = PhaseTimer::new(100);
    timer.advance(60);
    timer.advance(1000);
    assert_eq!(timer.elapsed(), 100);
    assert_eq!(timer.remaining(), 0);
    assert!(timer.finished());
}

#[test]
fn advance_to_exactly_the_duration_finishes() {
    let mut timer = PhaseTimer::new(100);
    timer.advance(99);
    assert!(!timer.finished());
    timer.advance(1);
    assert!(timer.finished());
    assert_eq!(timer.elapsed(), 100);
}

#[test]
fn advance_by_the_largest_delta_stops_at_the_duration() {
    let mut timer = PhaseTimer::new(u64::MAX);
    timer.advance(u64::MAX - 1);
    assert_eq!(timer.elapsed(), u64::MAX - 1);
    timer.advance(u64::MAX);
    assert_eq!(timer.elapsed(), u64::MAX);
    assert!(timer.finished());
}

#[test]
fn finished_timer_stays_at_its_duration() {
    let mut timer = PhaseTimer::new(10);
    timer.advance(10);
    timer.advance(5);
    assert_eq!(timer.elapsed(), 10);
    assert!(timer.finished());
}

#[test]
fn timer_of_no_duration_is_finished_at_once() {
    let timer = PhaseTimer::new(0);
    assert!(timer.finished());
    assert_eq!(timer.remaining(), 0);
}

#[test]
fn paused_timer_stands_still() {
    let mut timer = PhaseTimer::new(100);
    timer.advance(10);
    timer.pause();
    assert!(timer.paused());
    timer.advance(50);
    assert_eq!(timer.elapsed(), 10);
    timer.unpause();
    assert!(!timer.paused());
    timer.advance(50);
    assert_eq!(timer.elapsed(), 60);
}

#[test]
fn pause_and_unpause_are_idempotent() {
    let mut timer = PhaseTimer::new(100);
    timer.pause();
    timer.pause();
    assert!(timer.paused());
    timer.unpause();
    timer.unpause();
    assert!(!timer.paused());
}

#[test]
fn reset_starts_over_and_keeps_the_pause() {
    let mut timer = PhaseTimer::new(100);
    timer.advance(70);
    timer.pause();
    timer.reset();
    assert_eq!(timer.elapsed(), 0);
    assert_eq!(timer.duration(), 100);
    assert!(timer.paused());
    timer.unpause();
    timer.advance(100);
    assert!(timer.finished());
    timer.reset();
    assert!(!timer.finished());
    assert!(!timer.paused());
    assert_eq!(timer.remaining(), 100);
}

#[test]
fn remaining_secs_rounds_down() {
    let mut timer = PhaseTimer::new(10 * NANOS_PER_SEC);
    assert_eq!(timer.remaining_secs(), 10);
    timer.advance(1);
    assert_eq!(timer.remaining_secs(), 9);
    timer.advance(NANOS_PER_SEC - 1);
    assert_eq!(timer.remaining_secs(), 9);
    timer.advance(NANOS_PER_SEC / 2);
    assert_eq!(timer.remaining(), 8_500_000_000);
    assert_eq!(timer.remaining_secs(), 8);
    timer.advance(20 * NANOS_PER_SEC);
    assert_eq!(timer.remaining_secs(), 0);
}
