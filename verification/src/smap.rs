//! The Chirikov standard map: one kick-then-drift iteration and the
//! trajectory driver that samples the state before each iteration.
use vstd::prelude::*;

use crate::ieee::F_PZERO;
use crate::ieee::F_TWO_PI;
use crate::ieee::add_bits;
use crate::ieee::add_f;
use crate::ieee::bits_finite;
use crate::ieee::fmod_bits;
use crate::ieee::fmod_f;
use crate::ieee::mul_bits;
use crate::ieee::mul_f;
use crate::ieee::sin_bits;
use crate::ieee::sin_f;

verus! {

/// One iteration of the standard map. The momentum is kicked first, using
/// the old angle; the angle then drifts by the new momentum. Both results
/// are reduced by the remainder operation with divisor two pi, which keeps
/// the sign of its dividend, so the range is the open interval from minus
/// two pi to two pi rather than a canonical wrapped range.
pub open spec fn standard_map_step_bits(theta: u64, p: u64, k: u64) -> (u64, u64) {
    let np = fmod_bits(add_bits(p, mul_bits(k, sin_bits(theta))), F_TWO_PI);
    let nt = fmod_bits(add_bits(theta, np), F_TWO_PI);
    (nt, np)
}

/// The standard-map state after `i` iterations from `(theta0, p0)`.
pub open spec fn standard_map_state(theta0: u64, p0: u64, k: u64, i: int) -> (u64, u64)
    decreases i,
{
    if i <= 0 {
        (theta0, p0)
    } else {
        let prev = standard_map_state(theta0, p0, k, i - 1);
        standard_map_step_bits(prev.0, prev.1, k)
    }
}

/// One iteration of the standard map with kick strength `k`.
///
/// The origin is a fixed point: from angle and momentum both +0.0, with a
/// finite `k`, one iteration returns angle and momentum both +0.0, since
/// the sine of +0.0 is +0.0 and a finite number times +0.0 is a zero that
/// the following sum and remainder turn back into +0.0.
pub fn standard_map(theta: u64, p: u64, k: u64) -> (r: (u64, u64))
    ensures
        r == standard_map_step_bits(theta, p, k),
        theta == F_PZERO && p == F_PZERO && bits_finite(k) ==> (r == (F_PZERO, F_PZERO)),
{
    let s: u64 = sin_f(theta);
    let kick: u64 = mul_f(k, s);
    let np: u64 = fmod_f(add_f(p, kick), F_TWO_PI);
    let nt: u64 = fmod_f(add_f(theta, np), F_TWO_PI);
    (nt, np)
}

/// The standard-map trajectory: two sequences of length `n` holding the
/// angle and the momentum observed before each of the `n` iterations, so
/// the entry at index `i` is the state after `i` iterations.
///
/// When both starting values are +0.0 and `k` is finite, every entry of
/// both sequences is +0.0: the origin is a fixed point of the map.
pub fn standard_map_tracking(theta: u64, p: u64, k: u64, n: usize) -> (out: (Vec<u64>, Vec<u64>))
    ensures
        out.0@.len() == n,
        out.1@.len() == n,
        forall|i: int|
            0 <= i < n ==> #[trigger] out.0@[i] == standard_map_state(theta, p, k, i).0,
        forall|i: int|
            0 <= i < n ==> #[trigger] out.1@[i] == standard_map_state(theta, p, k, i).1,
        n == 0 ==> out.0@ =~= Seq::<u64>::empty() && out.1@ =~= Seq::<u64>::empty(),
        n >= 1 ==> out.0@[0] == theta && out.1@[0] == p,
        theta == F_PZERO && p == F_PZERO && bits_finite(k) ==> forall|i: int|
            0 <= i < n ==> #[trigger] out.0@[i] == F_PZERO,
        theta == F_PZERO && p == F_PZERO && bits_finite(k) ==> forall|i: int|
            0 <= i < n ==> #[trigger] out.1@[i] == F_PZERO,
{
    let mut theta_out: Vec<u64> = Vec::new();
    let mut p_out: Vec<u64> = Vec::new();
    let mut x: u64 = theta;
    let mut y: u64 = p;
    let mut i: usize = 0;
    while i < n
        invariant
            i <= n,
            theta_out@.len() == i,
            p_out@.len() == i,
            x == standard_map_state(theta, p, k, i as int).0,
            y == standard_map_state(theta, p, k, i as int).1,
            forall|j: int|
                0 <= j < i ==> #[trigger] theta_out@[j] == standard_map_state(theta, p, k, j).0,
            forall|j: int|
                0 <= j < i ==> #[trigger] p_out@[j] == standard_map_state(theta, p, k, j).1,
            theta == F_PZERO && p == F_PZERO && bits_finite(k) ==> x == F_PZERO && y == F_PZERO,
            theta == F_PZERO && p == F_PZERO && bits_finite(k) ==> forall|j: int|
                0 <= j < i ==> #[trigger] theta_out@[j] == F_PZERO,
            theta == F_PZERO && p == F_PZERO && bits_finite(k) ==> forall|j: int|
                0 <= j < i ==> #[trigger] p_out@[j] == F_PZERO,
        decreases n - i,
    {
        theta_out.push(x);
        p_out.push(y);
        let s: (u64, u64) = standard_map(x, y, k);
        x = s.0;
        y = s.1;
        i = i + 1;
    }
    (theta_out, p_out)
}

} // verus!
