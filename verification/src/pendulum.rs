//! The driven pendulum: its acceleration law, a single fourth-order
//! symplectic (Yoshida) integration step built from four drift/kick
//! stages, and the trajectory driver that samples the state before each
//! step.
use vstd::prelude::*;

use crate::ieee::F_ONE;
use crate::ieee::F_PZERO;
use crate::ieee::F_THREE;
use crate::ieee::F_TWO;
use crate::ieee::add_bits;
use crate::ieee::add_f;
use crate::ieee::div_bits;
use crate::ieee::div_f;
use crate::ieee::mul_bits;
use crate::ieee::mul_f;
use crate::ieee::neg_bits;
use crate::ieee::neg_f;
use crate::ieee::pow_bits;
use crate::ieee::pow_f;
use crate::ieee::sin_bits;
use crate::ieee::sin_f;
use crate::ieee::sub_bits;
use crate::ieee::sub_f;

verus! {

/// The pendulum's acceleration at angle `x` under frequency `w`: the
/// negated square of `w` times the sine of `x`.
pub open spec fn accel_bits(x: u64, w: u64) -> u64 {
    mul_bits(neg_bits(pow_bits(w, F_TWO)), sin_bits(x))
}

/// One drift or kick sub-step: `term` advanced by the product of the
/// coefficient `cd`, the applied rate `ap` and the step size `dt`.
pub open spec fn sub_step_bits(term: u64, cd: u64, ap: u64, dt: u64) -> u64 {
    add_bits(term, mul_bits(mul_bits(cd, ap), dt))
}

/// One drift-then-kick stage of the Yoshida composition: the position
/// drifts by the momentum under coefficient `c`, then the momentum is
/// kicked by the acceleration at the new position under coefficient `d`.
pub open spec fn stage_bits(x: u64, p: u64, c: u64, d: u64, dt: u64, w: u64) -> (u64, u64) {
    let nx = sub_step_bits(x, c, p, dt);
    let np = sub_step_bits(p, d, accel_bits(nx, w), dt);
    (nx, np)
}

/// The cube root of two, computed as a power.
pub open spec fn cbrt2_bits() -> u64 {
    pow_bits(F_TWO, div_bits(F_ONE, F_THREE))
}

/// The common denominator of the Yoshida coefficients: two minus the cube
/// root of two.
pub open spec fn yoshida_denom_bits() -> u64 {
    sub_bits(F_TWO, cbrt2_bits())
}

/// First and fourth position coefficient: one half over the denominator.
pub open spec fn c1_bits() -> u64 {
    div_bits(div_bits(F_ONE, F_TWO), yoshida_denom_bits())
}

/// Second and third position coefficient: one minus the cube root of two,
/// times the first coefficient.
pub open spec fn c2_bits() -> u64 {
    mul_bits(sub_bits(F_ONE, cbrt2_bits()), c1_bits())
}

/// First and third momentum coefficient: one over the denominator.
pub open spec fn d1_bits() -> u64 {
    div_bits(F_ONE, yoshida_denom_bits())
}

/// Second momentum coefficient: the negated cube root of two over the
/// denominator.
pub open spec fn d2_bits() -> u64 {
    div_bits(neg_bits(cbrt2_bits()), yoshida_denom_bits())
}

/// One full fourth-order step: the four stages applied in sequence with
/// coefficient pairs (c1,d1), (c2,d2), (c3,d3), (c4,d4), where c3 = c2,
/// c4 = c1, d3 = d1 and d4 = 0.
pub open spec fn yoshida_step_bits(x: u64, p: u64, dt: u64, w: u64) -> (u64, u64) {
    let s1 = stage_bits(x, p, c1_bits(), d1_bits(), dt, w);
    let s2 = stage_bits(s1.0, s1.1, c2_bits(), d2_bits(), dt, w);
    let s3 = stage_bits(s2.0, s2.1, c2_bits(), d1_bits(), dt, w);
    stage_bits(s3.0, s3.1, c1_bits(), F_PZERO, dt, w)
}

/// The pendulum state after `i` full steps from `(x0, p0)`.
pub open spec fn pendulum_state(x0: u64, p0: u64, dt: u64, w: u64, i: int) -> (u64, u64)
    decreases i,
{
    if i <= 0 {
        (x0, p0)
    } else {
        let prev = pendulum_state(x0, p0, dt, w, i - 1);
        yoshida_step_bits(prev.0, prev.1, dt, w)
    }
}

/// The pendulum's acceleration at angle `x` under frequency `w`.
pub fn a_pendulum(x: u64, w: u64) -> (r: u64)
    ensures
        r == accel_bits(x, w),
{
    let s: u64 = sin_f(x);
    let w2: u64 = pow_f(w, F_TWO);
    mul_f(neg_f(w2), s)
}

/// One drift or kick sub-step of the integrator.
pub fn yoshida_n4_sub_step(term: u64, cd: u64, ap: u64, dt: u64) -> (r: u64)
    ensures
        r == sub_step_bits(term, cd, ap, dt),
{
    let scaled: u64 = mul_f(mul_f(cd, ap), dt);
    add_f(term, scaled)
}

/// One drift-then-kick stage of the Yoshida composition.
pub fn yoshida_n4_step_pendulum(x: u64, p: u64, c: u64, d: u64, dt: u64, w: u64) -> (r: (
    u64,
    u64,
))
    ensures
        r == stage_bits(x, p, c, d, dt, w),
{
    let nx: u64 = yoshida_n4_sub_step(x, c, p, dt);
    let anx: u64 = a_pendulum(nx, w);
    let np: u64 = yoshida_n4_sub_step(p, d, anx, dt);
    (nx, np)
}

/// The four position coefficients and the four momentum coefficients of
/// the fourth-order composition, in application order.
pub fn yoshida_n4_coefficients() -> (cd: (Vec<u64>, Vec<u64>))
    ensures
        cd.0@ =~= seq![c1_bits(), c2_bits(), c2_bits(), c1_bits()],
        cd.1@ =~= seq![d1_bits(), d2_bits(), d1_bits(), F_PZERO],
{
    let third: u64 = div_f(F_ONE, F_THREE);
    let cbrt2: u64 = pow_f(F_TWO, third);
    let den: u64 = sub_f(F_TWO, cbrt2);
    let half: u64 = div_f(F_ONE, F_TWO);
    let c1: u64 = div_f(half, den);
    let c2: u64 = mul_f(sub_f(F_ONE, cbrt2), c1);
    let d1: u64 = div_f(F_ONE, den);
    let d2: u64 = div_f(neg_f(cbrt2), den);
    let mut cv: Vec<u64> = Vec::new();
    cv.push(c1);
    cv.push(c2);
    cv.push(c2);
    cv.push(c1);
    let mut dv: Vec<u64> = Vec::new();
    dv.push(d1);
    dv.push(d2);
    dv.push(d1);
    dv.push(F_PZERO);
    (cv, dv)
}

/// One full fourth-order symplectic step of the pendulum.
pub fn yoshida_n4_pendulum(x: u64, p: u64, dt: u64, w: u64) -> (r: (u64, u64))
    ensures
        r == yoshida_step_bits(x, p, dt, w),
{
    let (cv, dv) = yoshida_n4_coefficients();
    let s1: (u64, u64) = yoshida_n4_step_pendulum(x, p, cv[0], dv[0], dt, w);
    let s2: (u64, u64) = yoshida_n4_step_pendulum(s1.0, s1.1, cv[1], dv[1], dt, w);
    let s3: (u64, u64) = yoshida_n4_step_pendulum(s2.0, s2.1, cv[2], dv[2], dt, w);
    yoshida_n4_step_pendulum(s3.0, s3.1, cv[3], dv[3], dt, w)
}

/// The pendulum trajectory: two sequences of length `n` holding the angle
/// and the angular velocity observed before each of the `n` steps, so the
/// entry at index `i` is the state after `i` full steps.
pub fn pendulum_tracking(theta: u64, theta_dot: u64, w: u64, dt: u64, n: usize) -> (out: (
    Vec<u64>,
    Vec<u64>,
))
    ensures
        out.0@.len() == n,
        out.1@.len() == n,
        forall|i: int|
            0 <= i < n ==> #[trigger] out.0@[i] == pendulum_state(theta, theta_dot, dt, w, i).0,
        forall|i: int|
            0 <= i < n ==> #[trigger] out.1@[i] == pendulum_state(theta, theta_dot, dt, w, i).1,
        n == 0 ==> out.0@ =~= Seq::<u64>::empty() && out.1@ =~= Seq::<u64>::empty(),
        n >= 1 ==> out.0@[0] == theta && out.1@[0] == theta_dot,
{
    let mut theta_out: Vec<u64> = Vec::new();
    let mut theta_dot_out: Vec<u64> = Vec::new();
    let mut x: u64 = theta;
    let mut p: u64 = theta_dot;
    let mut i: usize = 0;
    while i < n
        invariant
            i <= n,
            theta_out@.len() == i,
            theta_dot_out@.len() == i,
            x == pendulum_state(theta, theta_dot, dt, w, i as int).0,
            p == pendulum_state(theta, theta_dot, dt, w, i as int).1,
            forall|j: int|
                0 <= j < i ==> #[trigger] theta_out@[j] == pendulum_state(
                    theta,
                    theta_dot,
                    dt,
                    w,
                    j,
                ).0,
            forall|j: int|
                0 <= j < i ==> #[trigger] theta_dot_out@[j] == pendulum_state(
                    theta,
                    theta_dot,
                    dt,
                    w,
                    j,
                ).1,
        decreases n - i,
    {
        theta_out.push(x);
        theta_dot_out.push(p);
        let s: (u64, u64) = yoshida_n4_pendulum(x, p, dt, w);
        x = s.0;
        p = s.1;
        i = i + 1;
    }
    (theta_out, theta_dot_out)
}

} // verus!
