//! Behavioral tests of the interpolation engine and the small utilities.

use snake_core::Tween;
use snake_core::Tweened;
use snake_core::get_tick_length;
use snake_core::str_eq;

#[test]
fn tween_rests_at_initial_value() {
    let t = Tween::new(42);
    assert_eq!(t.current, 42);
    assert_eq!(t.target, 42);
    assert!(!t.active);
}

#[test]
fn tween_midpoint_is_half_way() {
    let mut t = Tween::new(0);
    t.retarget(100, 0, 150);
    assert!(t.active);
    assert_eq!(t.current, 0);
    t.sample(75);
    assert_eq!(t.current, 50);
    assert!(t.active);
}

#[test]
fn tween_reaches_target_exactly_at_end() {
    let mut t = Tween::new(0);
    t.retarget(100, 0, 150);
    t.sample(150);
    assert_eq!(t.current, 100);
}

#[test]
fn tween_snaps_and_cancels_past_end() {
    let mut t = Tween::new(0);
    t.retarget(100, 0, 150);
    t.sample(151);
    assert_eq!(t.current, 100);
    assert!(!t.active);
}

#[test]
fn tween_is_monotone_and_never_overshoots() {
    let mut t = Tween::new(0);
    t.retarget(100, 0, 150);
    let mut last = t.current;
    for now in 0..=200u64 {
        t.sample(now);
        assert!(t.current >= last, "value moved away from the target");
        assert!(t.current <= 100, "value passed the target");
        last = t.current;
    }
    assert_eq!(t.current, 100);
}

#[test]
fn tween_descends_toward_smaller_target() {
    let mut t = Tween::new(100);
    t.retarget(-60, 0, 160);
    t.sample(40);
    assert_eq!(t.current, 60);
    t.sample(80);
    assert_eq!(t.current, 20);
    let mut last = t.current;
    for now in 80..=200u64 {
        t.sample(now);
        assert!(t.current <= last, "value moved away from the target");
        assert!(t.current >= -60, "value passed the target");
        last = t.current;
    }
    assert_eq!(t.current, -60);
}

#[test]
fn tween_unchanged_target_starts_no_animation() {
    let mut t = Tween::new(25);
    t.retarget(25, 0, 150);
    assert!(!t.active);
    assert_eq!(t.current, 25);
    t.sample(1000);
    assert_eq!(t.current, 25);
}

#[test]
fn tween_retarget_supersedes_in_flight() {
    let mut t = Tween::new(0);
    t.retarget(100, 0, 100);
    t.sample(50);
    assert_eq!(t.current, 50);
    // A new target restarts from the present value.
    t.retarget(0, 50, 100);
    assert_eq!(t.start_value, 50);
    assert_eq!(t.target, 0);
    t.sample(100);
    assert_eq!(t.current, 25);
    t.sample(151);
    assert_eq!(t.current, 0);
    assert!(!t.active);
}

#[test]
fn tween_before_interval_reads_start_value() {
    let mut t = Tween::new(10);
    t.retarget(90, 1000, 100);
    t.sample(500);
    assert_eq!(t.current, 10);
}

#[test]
fn tweened_chases_observed_value() {
    let mut v = Tweened::new(5);
    assert_eq!(v.current(), 5);
    v.set_target(5, 150);
    assert_eq!(v.current(), 5);
    v.set_target(30, 1);
    assert_eq!(v.current(), 5);
    loop {
        v.sample_now();
        let c = v.current();
        assert!((5..=30).contains(&c));
        if c == 30 {
            break;
        }
    }
    assert_eq!(v.current(), 30);
}

#[test]
fn tick_length_table() {
    assert_eq!(get_tick_length(None), 150);
    assert_eq!(get_tick_length(Some("/sped")), 100);
    assert_eq!(get_tick_length(Some("/ahhh")), 50);
    assert_eq!(get_tick_length(Some("/")), 150);
    assert_eq!(get_tick_length(Some("/other")), 150);
}

#[test]
fn str_eq_compares_characters() {
    assert!(str_eq("", ""));
    assert!(str_eq("arrowup", "arrowup"));
    assert!(!str_eq("arrowup", "arrowdown"));
    assert!(!str_eq("w", "W"));
    assert!(!str_eq("w", "ww"));
}
