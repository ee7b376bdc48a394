use bevpg::timer::{Timer, TimerMode};

#[test]
fn one_shot_timer_clamps_at_its_duration() {
    let mut t = Timer::new(10_000_000_000, TimerMode::Once);
    t.tick(250_000_000);
    assert_eq!(t.elapsed(), 250_000_000);
    assert!(!t.finished());
    assert!(!t.just_finished());
    t.tick(500_000_000_000);
    assert_eq!(t.elapsed(), 10_000_000_000);
    assert!(t.finished());
    assert!(t.just_finished());
    assert_eq!(t.times_finished_this_tick(), 1);
    t.tick(1_000_000_000);
    assert_eq!(t.elapsed(), 10_000_000_000);
    assert!(t.finished());
    assert!(!t.just_finished());
    assert_eq!(t.times_finished_this_tick(), 0);
}

#[test]
fn repeating_timer_wraps_around() {
    let mut t = Timer::new(2_000_000_000, TimerMode::Repeating);
    t.tick(750_000_000);
    assert_eq!(t.elapsed(), 750_000_000);
    assert!(!t.just_finished());
    t.tick(1_500_000_000);
    assert_eq!(t.elapsed(), 250_000_000);
    assert!(t.finished());
    assert!(t.just_finished());
    assert_eq!(t.times_finished_this_tick(), 1);
    t.tick(1_000_000_000);
    assert_eq!(t.elapsed(), 1_250_000_000);
    assert!(!t.finished());
    assert!(!t.just_finished());
}

#[test]
fn repeating_timer_counts_whole_periods() {
    let mut t = Timer::new(1_000_000_000, TimerMode::Repeating);
    t.tick(3_500_000_000);
    assert_eq!(t.times_finished_this_tick(), 3);
    assert_eq!(t.elapsed(), 500_000_000);
}
