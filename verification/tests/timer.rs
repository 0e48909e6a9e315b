use bevy::time::{Timer, TimerMode as EngineMode};
use std::time::Duration;
use undefended::timer::{GameTimer, TimerMode, NANOS_PER_SEC};

fn engine_timer(duration: u64, mode: EngineMode, elapsed: u64) -> Timer {
    let mut timer = Timer::new(Duration::from_nanos(duration), mode);
    timer.set_elapsed(Duration::from_nanos(elapsed));
    timer
}

#[test]
fn new_timer_has_not_started() {
    let timer = GameTimer::new(5 * NANOS_PER_SEC, TimerMode::Once);
    assert_eq!(timer.duration, 5_000_000_000);
    assert_eq!(timer.elapsed, 0);
    assert!(!timer.finished);
    assert!(!timer.just_finished);
    assert_eq!(timer.remaining(), 5_000_000_000);
}

#[test]
fn once_timer_counts_up() {
    let mut timer = GameTimer::new(10, TimerMode::Once);
    timer.tick(4);
    assert_eq!(timer.elapsed, 4);
    assert!(!timer.finished);
    assert!(!timer.just_finished);
    assert_eq!(timer.remaining(), 6);
}

#[test]
fn once_timer_stops_at_its_duration() {
    let mut timer = GameTimer::new(10, TimerMode::Once);
    timer.tick(4);
    timer.tick(500);
    assert_eq!(timer.elapsed, 10);
    assert!(timer.finished);
    assert!(timer.just_finished);
    timer.tick(1);
    assert_eq!(timer.elapsed, 10);
    assert!(timer.finished);
    assert!(!timer.just_finished);
}

#[test]
fn once_timer_with_huge_delta() {
    let mut timer = GameTimer::new(u64::MAX, TimerMode::Once);
    timer.tick(u64::MAX - 1);
    assert!(!timer.finished);
    timer.tick(u64::MAX);
    assert!(timer.finished);
    assert_eq!(timer.elapsed, u64::MAX);
}

#[test]
fn repeating_timer_keeps_the_rest() {
    let mut timer = GameTimer::new(2_000, TimerMode::Repeating);
    timer.tick(750);
    assert_eq!(timer.elapsed, 750);
    assert!(!timer.finished);
    timer.tick(1_500);
    assert_eq!(timer.elapsed, 250);
    assert!(timer.finished);
    assert!(timer.just_finished);
    timer.tick(1_000);
    assert_eq!(timer.elapsed, 1_250);
    assert!(!timer.finished);
    assert!(!timer.just_finished);
}

#[test]
fn repeating_timer_of_no_duration() {
    let mut timer = GameTimer::new(0, TimerMode::Repeating);
    timer.tick(1_000);
    assert_eq!(timer.elapsed, 0);
    assert!(timer.finished);
    assert!(timer.just_finished);
}

#[test]
fn repeating_timer_counts_rounds_in_32_bits() {
    let mut timer = GameTimer::new(1, TimerMode::Repeating);
    timer.tick(1 << 32);
    assert!(timer.finished);
    assert!(!timer.just_finished);
    assert_eq!(timer.elapsed, 0);
    timer.tick((1 << 32) + 1);
    assert!(timer.just_finished);
}

#[test]
fn reset_starts_over() {
    let mut timer = GameTimer::new(10, TimerMode::Once);
    timer.tick(10);
    timer.reset();
    assert_eq!(timer, GameTimer::new(10, TimerMode::Once));
}

#[test]
fn once_timer_agrees_with_the_engine() {
    let durations = [0u64, 1, 7, 1_000, 2_500_000_000];
    let deltas = [0u64, 1, 6, 7, 8, 999, 16_666_667, 3_000_000_000];
    for duration in durations {
        let mut ours = GameTimer::new(duration, TimerMode::Once);
        let mut theirs = engine_timer(duration, EngineMode::Once, 0);
        for round in 0..3 {
            for delta in deltas {
                ours.tick(delta);
                theirs.tick(Duration::from_nanos(delta));
                assert_eq!(ours.elapsed as u128, theirs.elapsed().as_nanos());
                assert_eq!(ours.finished, theirs.finished());
                assert_eq!(ours.just_finished, theirs.just_finished());
            }
            if round == 1 {
                ours.reset();
                theirs.reset();
            }
        }
    }
}

#[test]
fn repeating_timer_agrees_with_the_engine() {
    let durations = [0u64, 1, 7, 1_000, 4_000_000_000];
    let deltas = [0u64, 1, 6, 7, 8, 999, 16_666_667, 9_000_000_001];
    for duration in durations {
        let mut ours = GameTimer::new(duration, TimerMode::Repeating);
        let mut theirs = engine_timer(duration, EngineMode::Repeating, 0);
        for _ in 0..3 {
            for delta in deltas {
                ours.tick(delta);
                theirs.tick(Duration::from_nanos(delta));
                assert_eq!(ours.elapsed as u128, theirs.elapsed().as_nanos());
                assert_eq!(ours.finished, theirs.finished());
                assert_eq!(ours.just_finished, theirs.just_finished());
            }
        }
    }
}
