//! The timers every cadence rests on, and the global options.

use barrage::shared::GameOptions;
use barrage::timer::{Timer, TimerMode};

#[test]
fn one_shot_timer_saturates_and_stays_finished() {
    let mut t = Timer::new(200, TimerMode::Once);
    t.tick(150);
    assert!(!t.finished());
    assert_eq!(t.remaining(), 50);
    t.tick(150);
    assert!(t.finished());
    // Once finished it stays finished, however long the ticks.
    t.tick(1000);
    assert!(t.finished());
    assert_eq!(t.remaining(), 0);
    t.reset();
    assert!(!t.finished());
    assert_eq!(t.remaining(), 200);
}

#[test]
fn repeating_timer_reads_finished_only_on_the_wrapping_tick() {
    let mut t = Timer::new(500, TimerMode::Repeating);
    t.tick(400);
    assert!(!t.finished());
    t.tick(200);
    assert!(t.finished());
    assert_eq!(t.elapsed_ms, 100);
    t.tick(100);
    assert!(!t.finished());
}

#[test]
fn shortening_a_run_down_timer_leaves_it_finished() {
    let mut t = Timer::new(1600, TimerMode::Once);
    t.tick(1200);
    t.set_duration(1100);
    assert!(t.finished());
    assert_eq!(t.duration(), 1100);
}

#[test]
fn volume_clamps_to_the_unit_range() {
    let mut o = GameOptions::default();
    assert_eq!(o.get_volume(), 500);
    o.set_volume(1500);
    assert_eq!(o.get_volume(), 1000);
    o.set_volume(-3);
    assert_eq!(o.get_volume(), 0);
    o.set_volume(700);
    assert_eq!(o.get_volume(), 700);
    assert!(!o.get_focus());
    o.set_invert_focus();
    assert!(o.get_focus());
}
