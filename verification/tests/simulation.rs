//! Tests of the double-pendulum simulation: construction, the stepping
//! function, and the behaviours the system is meant to keep over whole
//! runs.

use double_pendulum::Pendulum;
use double_pendulum::SCALE;

/// One unit mass, in fixed-point units.
const M: i64 = 1_000_000;

/// One metre of rod, in fixed-point units.
const L: i64 = 1_000_000;

/// Standard gravity, 9.81, in fixed-point units.
const G: i64 = 9_810_000;

/// Euclidean distance between two fixed-point points, in real units.
fn dist(ax: i64, ay: i64, bx: i64, by: i64) -> f64 {
    let dx = (ax - bx) as f64 / SCALE as f64;
    let dy = (ay - by) as f64 / SCALE as f64;
    (dx * dx + dy * dy).sqrt()
}

/// Total mechanical energy of the system, potential plus kinetic, in
/// real units, with heights measured from the origin.
fn energy(p: &Pendulum) -> f64 {
    let s = SCALE as f64;
    let a1 = p.top.angle as f64 / s;
    let a2 = p.bottom.angle as f64 / s;
    let w1 = p.top.angle_velocity as f64 / s;
    let w2 = p.bottom.angle_velocity as f64 / s;
    let l1 = p.top.length as f64 / s;
    let l2 = p.bottom.length as f64 / s;
    let m1 = p.top.mass as f64 / s;
    let m2 = p.bottom.mass as f64 / s;
    let g = p.gravity as f64 / s;
    let v1s = (l1 * w1) * (l1 * w1);
    let v2s = v1s + (l2 * w2) * (l2 * w2) + 2.0 * l1 * l2 * w1 * w2 * (a1 - a2).cos();
    let ke = 0.5 * m1 * v1s + 0.5 * m2 * v2s;
    let y1 = -l1 * a1.cos();
    let y2 = y1 - l2 * a2.cos();
    let pe = g * (m1 * y1 + m2 * y2);
    ke + pe
}

#[test]
fn initial_placement_hangs_both_bobs_straight_down() {
    let p = Pendulum::new(0, 0, G, M, 150 * SCALE, 0, M, 150 * SCALE, 0);
    assert_eq!(p.top.x, 0);
    assert_eq!(p.top.y, -150 * SCALE);
    assert_eq!(p.bottom.x, 0);
    assert_eq!(p.bottom.y, -300 * SCALE);
}

#[test]
fn initial_placement_from_an_offset_origin() {
    let p = Pendulum::new(3_000_000, 7_000_000, G, M, 2 * SCALE, 0, M, 5 * SCALE, 0);
    assert_eq!(p.top.x, 3_000_000);
    assert_eq!(p.top.y, 5_000_000);
    assert_eq!(p.bottom.x, 3_000_000);
    assert_eq!(p.bottom.y, 0);
}

#[test]
fn initial_velocities_and_accelerations_are_zero() {
    let p = Pendulum::new(0, 0, G, M, L, 500_000, 2 * M, 3 * L, -300_000);
    assert_eq!(p.top.angle_velocity, 0);
    assert_eq!(p.bottom.angle_velocity, 0);
    assert_eq!(p.top.angle_acceleration, 0);
    assert_eq!(p.bottom.angle_acceleration, 0);
    assert_eq!(p.top.angle, 500_000);
    assert_eq!(p.bottom.angle, -300_000);
    assert_eq!(p.gravity, G);
    assert_eq!(p.top.mass, M);
    assert_eq!(p.bottom.mass, 2 * M);
    assert_eq!(p.top.length, L);
    assert_eq!(p.bottom.length, 3 * L);
}

#[test]
fn zero_gravity_rest_is_a_fixed_point() {
    let mut p = Pendulum::new(0, 0, 0, M, L, 1_000_000, M, L, -2_500_000);
    let a1 = p.top.angle;
    let a2 = p.bottom.angle;
    let (tx, ty, bx, by) = (p.top.x, p.top.y, p.bottom.x, p.bottom.y);
    for i in 0..100 {
        // step sizes of every parity and sign, including zero
        p.update((i % 7) * 5_000 - 10_000);
    }
    assert_eq!(p.top.angle, a1);
    assert_eq!(p.bottom.angle, a2);
    assert_eq!(p.top.angle_velocity, 0);
    assert_eq!(p.bottom.angle_velocity, 0);
    assert_eq!(p.top.x, tx);
    assert_eq!(p.top.y, ty);
    assert_eq!(p.bottom.x, bx);
    assert_eq!(p.bottom.y, by);
}

#[test]
fn gravity_swings_a_raised_pendulum_toward_the_vertical() {
    let mut p = Pendulum::new(0, 0, G, M, L, 500_000, M, L, 500_000);
    for _ in 0..50 {
        p.update(10_000);
    }
    assert!(p.top.angle < 500_000);
    assert!(p.top.angle_velocity < 0);
}

#[test]
fn energy_stays_bounded_over_a_short_horizon() {
    let mut p = Pendulum::new(0, 0, G, M, L, 500_000, M, L, 500_000);
    let e0 = energy(&p);
    for _ in 0..200 {
        p.update(1_000);
        let e = energy(&p);
        assert!((e - e0).abs() < 0.01 * e0.abs());
    }
}

#[test]
fn rod_length_constraint_never_drifts() {
    let mut p = Pendulum::new(0, 0, G, M, 1_500_000, 1_570_796, M, L, 500_000);
    for _ in 0..300 {
        p.update(5_000);
        let rod = dist(p.bottom.x, p.bottom.y, p.top.x, p.top.y);
        assert!((rod - p.bottom.length as f64 / SCALE as f64).abs() < 1e-4);
        let top_rod = dist(p.top.x, p.top.y, p.origin_x, p.origin_y);
        assert!((top_rod - p.top.length as f64 / SCALE as f64).abs() < 1e-4);
    }
}

#[test]
fn tiny_angle_difference_diverges_faster_than_linearly() {
    let mut a = Pendulum::new(0, 0, G, M, L, 3_141_592, M, L, 3_000_000);
    let mut b = Pendulum::new(0, 0, G, M, L, 3_141_592, M, L, 3_000_001);
    let mut d_100: f64 = 0.0;
    let mut d_800: f64 = 0.0;
    for i in 1..=800 {
        a.update(5_000);
        b.update(5_000);
        if i == 100 {
            d_100 = dist(a.bottom.x, a.bottom.y, b.bottom.x, b.bottom.y);
        }
        if i == 800 {
            d_800 = dist(a.bottom.x, a.bottom.y, b.bottom.x, b.bottom.y);
        }
    }
    // the runs separate at all ...
    assert!(d_100 > 0.0);
    // ... and eight times the horizon grows the gap far more than
    // eight-fold: the coupling amplifies, it does not damp
    assert!(d_800 > 20.0 * d_100);
}

#[test]
fn identical_runs_agree_bit_for_bit() {
    let mut a = Pendulum::new(10, -20, G, M, L, 777_777, 2 * M, 3 * L, -123_456);
    let mut b = Pendulum::new(10, -20, G, M, L, 777_777, 2 * M, 3 * L, -123_456);
    for i in 0..120 {
        let dt = 3_000 + (i % 11) * 1_000;
        a.update(dt);
        b.update(dt);
        assert_eq!(a.top.angle, b.top.angle);
        assert_eq!(a.bottom.angle, b.bottom.angle);
        assert_eq!(a.top.angle_velocity, b.top.angle_velocity);
        assert_eq!(a.bottom.angle_velocity, b.bottom.angle_velocity);
        assert_eq!(a.top.x, b.top.x);
        assert_eq!(a.top.y, b.top.y);
        assert_eq!(a.bottom.x, b.bottom.x);
        assert_eq!(a.bottom.y, b.bottom.y);
    }
}

#[test]
fn acceleration_matches_the_equations_of_motion() {
    let p = Pendulum::new(0, 0, G, M, L, 500_000, 2 * M, 1_500_000, -300_000);
    assert_eq!(p.calc_top_acceleration(500_000, -300_000, false), -8_943_948);
    assert_eq!(p.calc_top_acceleration(500_000, -300_000, true), -18_149_078);
    assert_eq!(p.calc_bottom_acceleration(500_000, -300_000), 6_086_906);
}

#[test]
fn denominator_variants_agree_when_the_angles_agree() {
    let p = Pendulum::new(0, 0, G, M, L, 700_000, 2 * M, 1_500_000, 700_000);
    assert_eq!(
        p.calc_top_acceleration(700_000, 700_000, true),
        p.calc_top_acceleration(700_000, 700_000, false),
    );
}

#[test]
fn bottom_bob_hangs_from_the_fresh_top_position() {
    let mut p = Pendulum::new(0, 0, G, M, L, 1_000_000, M, L, 2_000_000);
    for _ in 0..10 {
        p.update(8_000);
        // recomputing the bottom anchor from the already-updated top
        // position reproduces the stored bottom position exactly
        let sin_b = (p.bottom.angle as f64 / SCALE as f64).sin();
        let cos_b = (p.bottom.angle as f64 / SCALE as f64).cos();
        let l2 = p.bottom.length as f64 / SCALE as f64;
        let want_x = p.top.x as f64 / SCALE as f64 + l2 * sin_b;
        let want_y = p.top.y as f64 / SCALE as f64 - l2 * cos_b;
        assert!((p.bottom.x as f64 / SCALE as f64 - want_x).abs() < 1e-4);
        assert!((p.bottom.y as f64 / SCALE as f64 - want_y).abs() < 1e-4);
    }
}

#[test]
fn euler_zero_gravity_rest_is_a_fixed_point() {
    let mut p = Pendulum::new(0, 0, 0, M, L, 1_000_000, M, L, -2_500_000);
    let a1 = p.top.angle;
    let a2 = p.bottom.angle;
    let (tx, ty, bx, by) = (p.top.x, p.top.y, p.bottom.x, p.bottom.y);
    for _ in 0..60 {
        p.update_euler(12_345);
    }
    assert_eq!(p.top.angle, a1);
    assert_eq!(p.bottom.angle, a2);
    assert_eq!(p.top.angle_velocity, 0);
    assert_eq!(p.bottom.angle_velocity, 0);
    assert_eq!((p.top.x, p.top.y, p.bottom.x, p.bottom.y), (tx, ty, bx, by));
}

#[test]
fn euler_step_matches_its_formula_exactly() {
    let mut p = Pendulum::new(0, 0, G, M, L, 500_000, 2 * M, 1_500_000, -300_000);
    p.update_euler(16_000);
    assert_eq!(p.top.angle, 356_897);
    assert_eq!(p.bottom.angle, -202_610);
    assert_eq!(p.top.angle_velocity, -143_103);
    assert_eq!(p.bottom.angle_velocity, 97_390);
    assert_eq!(p.top.angle_acceleration, -8_943_948);
    assert_eq!(p.bottom.angle_acceleration, 6_086_906);
    assert_eq!(p.top.x, 349_369);
    assert_eq!(p.top.y, -936_987);
    assert_eq!(p.bottom.x, 47_530);
    assert_eq!(p.bottom.y, -2_406_304);
}

#[test]
fn euler_also_swings_a_raised_pendulum_downward() {
    let mut p = Pendulum::new(0, 0, G, M, L, 500_000, M, L, 500_000);
    for _ in 0..20 {
        p.update_euler(10_000);
    }
    assert!(p.top.angle < 500_000);
}
