//! Tests for the Yoshida-4 pendulum integrator and its trajectory driver.
//! Inputs are ordinary doubles converted to bit patterns at the boundary.
use rust_maps::a_pendulum;
use rust_maps::pendulum_tracking;
use rust_maps::yoshida_n4_coefficients;
use rust_maps::yoshida_n4_pendulum;
use rust_maps::yoshida_n4_sub_step;

fn cube_root_of_two() -> f64 {
    2.0_f64.powf(1.0 / 3.0)
}

#[test]
fn pendulum_lengths_match_n() {
    for n in [0usize, 1, 2, 5, 17] {
        let (theta, theta_dot) = pendulum_tracking(
            (0.1f64).to_bits(),
            (0.0f64).to_bits(),
            (1.0f64).to_bits(),
            (0.01f64).to_bits(),
            n,
        );
        assert_eq!(theta.len(), n);
        assert_eq!(theta_dot.len(), n);
    }
}

#[test]
fn pendulum_zero_steps_is_empty() {
    let (theta, theta_dot) = pendulum_tracking(
        (0.4f64).to_bits(),
        (-0.2f64).to_bits(),
        (2.0f64).to_bits(),
        (0.05f64).to_bits(),
        0,
    );
    assert!(theta.is_empty());
    assert!(theta_dot.is_empty());
}

#[test]
fn pendulum_first_sample_is_initial_state() {
    let t0 = (0.123f64).to_bits();
    let td0 = (-0.456f64).to_bits();
    let (theta, theta_dot) = pendulum_tracking(
        t0,
        td0,
        (3.0f64).to_bits(),
        (0.01f64).to_bits(),
        1,
    );
    assert_eq!(theta, vec![t0]);
    assert_eq!(theta_dot, vec![td0]);
    let (theta3, theta_dot3) = pendulum_tracking(
        t0,
        td0,
        (3.0f64).to_bits(),
        (0.01f64).to_bits(),
        3,
    );
    assert_eq!(theta3[0], t0);
    assert_eq!(theta_dot3[0], td0);
}

#[test]
fn pendulum_driver_samples_then_advances() {
    let t0 = (0.2f64).to_bits();
    let td0 = (0.1f64).to_bits();
    let w = (1.5f64).to_bits();
    let dt = (0.01f64).to_bits();
    let (theta, theta_dot) = pendulum_tracking(t0, td0, w, dt, 4);
    let mut x = t0;
    let mut p = td0;
    for i in 0..4 {
        assert_eq!(theta[i], x);
        assert_eq!(theta_dot[i], p);
        let s = yoshida_n4_pendulum(x, p, dt, w);
        x = s.0;
        p = s.1;
    }
}

#[test]
fn pendulum_energy_stays_bounded() {
    let w = 2.0 * std::f64::consts::PI * 0.5;
    let (theta, theta_dot) = pendulum_tracking(
        (0.1f64).to_bits(),
        (0.0f64).to_bits(),
        w.to_bits(),
        (1e-2f64).to_bits(),
        10000,
    );
    let energy = |t: u64, td: u64| -> f64 {
        let t = f64::from_bits(t);
        let td = f64::from_bits(td);
        0.5 * td * td - w * w * t.cos()
    };
    let e0 = energy(theta[0], theta_dot[0]);
    for i in 0..10000 {
        let e = energy(theta[i], theta_dot[i]);
        assert!(
            (e - e0).abs() < 1e-5,
            "energy drifted at step {}: {} vs {}",
            i,
            e,
            e0
        );
    }
}

#[test]
fn acceleration_matches_reference() {
    let x = 0.7f64;
    let w = 2.3f64;
    let got = f64::from_bits(a_pendulum(x.to_bits(), w.to_bits()));
    let want = -w.powf(2.0) * x.sin();
    assert!((got - want).abs() < 1e-12, "{} vs {}", got, want);
}

#[test]
fn sub_step_is_exact_ieee_arithmetic() {
    for (term, cd, ap, dt) in [
        (0.25f64, 0.6756f64, 0.1f64, 0.01f64),
        (-1.5f64, -0.1756f64, 2.0f64, 1e-3f64),
        (3.75f64, 1.3512f64, -9.81f64, 0.5f64),
    ] {
        let got = yoshida_n4_sub_step(term.to_bits(), cd.to_bits(), ap.to_bits(), dt.to_bits());
        let want = term + cd * ap * dt;
        assert_eq!(got, want.to_bits());
    }
}

#[test]
fn coefficients_match_closed_form() {
    let (c, d) = yoshida_n4_coefficients();
    assert_eq!(c.len(), 4);
    assert_eq!(d.len(), 4);
    let cbrt2 = cube_root_of_two();
    let c1 = 1.0 / 2.0 / (2.0 - cbrt2);
    let c2 = (1.0 - cbrt2) * c1;
    let d1 = 1.0 / (2.0 - cbrt2);
    let d2 = -cbrt2 / (2.0 - cbrt2);
    let want_c = [c1, c2, c2, c1];
    let want_d = [d1, d2, d1, 0.0];
    for i in 0..4 {
        assert!((f64::from_bits(c[i]) - want_c[i]).abs() < 1e-12);
        assert!((f64::from_bits(d[i]) - want_d[i]).abs() < 1e-12);
    }
    assert_eq!(d[3], (0.0f64).to_bits());
}

#[test]
fn coefficient_sums_are_one() {
    let (c, d) = yoshida_n4_coefficients();
    let c_sum: f64 = c.iter().map(|b| f64::from_bits(*b)).sum();
    let d_sum: f64 = d.iter().map(|b| f64::from_bits(*b)).sum();
    assert!((c_sum - 1.0).abs() < 1e-12, "c sum {}", c_sum);
    assert!((d_sum - 1.0).abs() < 1e-12, "d sum {}", d_sum);
}

#[test]
fn tiny_step_is_near_identity() {
    let x = 0.3f64;
    let p = -0.2f64;
    let s = yoshida_n4_pendulum(
        x.to_bits(),
        p.to_bits(),
        (1e-9f64).to_bits(),
        (1.5f64).to_bits(),
    );
    assert!((f64::from_bits(s.0) - x).abs() < 1e-8);
    assert!((f64::from_bits(s.1) - p).abs() < 1e-8);
}

#[test]
fn full_step_matches_reference() {
    let x0 = 0.1f64;
    let p0 = 0.25f64;
    let dt = 0.01f64;
    let w = 2.0f64;
    let got = yoshida_n4_pendulum(x0.to_bits(), p0.to_bits(), dt.to_bits(), w.to_bits());
    let cbrt2 = cube_root_of_two();
    let c1 = 1.0 / 2.0 / (2.0 - cbrt2);
    let c2 = (1.0 - cbrt2) * c1;
    let d1 = 1.0 / (2.0 - cbrt2);
    let d2 = -cbrt2 / (2.0 - cbrt2);
    let accel = |x: f64| -> f64 { -w.powf(2.0) * x.sin() };
    let mut x = x0;
    let mut p = p0;
    for (c, d) in [(c1, d1), (c2, d2), (c2, d1), (c1, 0.0)] {
        x = x + c * p * dt;
        p = p + d * accel(x) * dt;
    }
    assert!((f64::from_bits(got.0) - x).abs() < 1e-12);
    assert!((f64::from_bits(got.1) - p).abs() < 1e-12);
}
