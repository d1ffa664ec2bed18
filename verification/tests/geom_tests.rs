use horror_core::geom::{dir_milli, dist_milli, dist_sq, isqrt, scale_milli, vel_from_dir, Vec2i};
use horror_core::timer::TickTimer;

fn p(x: i64, y: i64) -> Vec2i {
    Vec2i { x, y }
}

#[test]
fn squared_distance_is_exact() {
    assert_eq!(dist_sq(p(0, 0), p(3, 4)), 25);
    assert_eq!(dist_sq(p(-1_000, 2_000), p(2_000, -2_000)), 25_000_000);
    assert_eq!(dist_sq(p(7, 7), p(7, 7)), 0);
}

#[test]
fn integer_square_root_rounds_down() {
    assert_eq!(isqrt(0), 0);
    assert_eq!(isqrt(1), 1);
    assert_eq!(isqrt(10), 3);
    assert_eq!(isqrt(25), 5);
    assert_eq!(isqrt(24), 4);
    assert_eq!(isqrt(1_000_000_000_000), 1_000_000);
}

#[test]
fn distance_on_a_pythagorean_triple() {
    assert_eq!(dist_milli(p(0, 0), p(3_000, 4_000)), 5_000);
    assert_eq!(dist_milli(p(0, 0), p(3_001, 4_000)), 5_000);
}

#[test]
fn unit_direction_is_scaled_by_a_thousand() {
    let d = dir_milli(p(0, 0), p(3_000, 4_000));
    assert_eq!(d, p(600, 800));
    let d = dir_milli(p(0, 0), p(-5_000, 0));
    assert_eq!(d, p(-1000, 0));
    // Coincident points give the zero direction.
    assert_eq!(dir_milli(p(9, 9), p(9, 9)), p(0, 0));
    // Distinct points never do.
    let d = dir_milli(p(0, 0), p(1, 1));
    assert!(d != p(0, 0));
}

#[test]
fn velocity_keeps_direction_and_magnitude() {
    let v = vel_from_dir(p(600, 800), 100_000);
    assert_eq!(v, p(60_000, 80_000));
    let v = vel_from_dir(p(-1000, 0), 250_000);
    assert_eq!(v, p(-250_000, 0));
}

#[test]
fn signed_scaling_truncates_toward_zero() {
    assert_eq!(scale_milli(999, 1, 1000), 0);
    assert_eq!(scale_milli(-999, 1, 1000), 0);
    assert_eq!(scale_milli(70_000, 100, 1000), 7_000);
    assert_eq!(scale_milli(-70_000, 100, 1000), -7_000);
}

#[test]
fn one_shot_timer_fires_once() {
    let mut t = TickTimer::new(1_000, false);
    assert!(!t.finished());
    assert!(!t.tick(400));
    assert!(t.tick(600));
    assert!(t.finished());
    // Already finished: no second completion.
    assert!(!t.tick(1_000));
    t.reset();
    assert!(!t.finished());
}

#[test]
fn repeating_timer_wraps_its_remainder() {
    let mut t = TickTimer::new(1_000, true);
    assert!(!t.tick(999));
    assert!(t.tick(2));
    assert_eq!(t.elapsed_ms, 1);
    assert!(t.tick(1_999));
    assert_eq!(t.elapsed_ms, 0);
}

#[test]
fn retiming_keeps_accumulated_time() {
    let mut t = TickTimer::new(2_000, true);
    t.tick(1_500);
    t.retime(1_800);
    assert_eq!(t.elapsed_ms, 1_500);
    t.retime(1_200);
    assert_eq!(t.elapsed_ms, 1_200);
}
