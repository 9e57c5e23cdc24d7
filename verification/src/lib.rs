//! Discrete-time trajectories for two classical dynamical systems: a driven
//! pendulum advanced by a fourth-order symplectic (Yoshida) scheme, and the
//! Chirikov standard map iterated directly.
//!
//! Every real number is carried as the 64 bits of its IEEE double-precision
//! encoding; the `ieee` module supplies the primitive operations on those
//! bit patterns. A host-facing front end converts ordinary doubles to and
//! from bit patterns at the boundary.
pub mod ieee;
pub mod pendulum;
pub mod smap;

pub use smap::standard_map;
pub use smap::standard_map_tracking;

pub use pendulum::a_pendulum;
pub use pendulum::pendulum_tracking;
pub use pendulum::yoshida_n4_coefficients;
pub use pendulum::yoshida_n4_pendulum;
pub use pendulum::yoshida_n4_step_pendulum;
pub use pendulum::yoshida_n4_sub_step;

pub use ieee::F_NZERO;
pub use ieee::F_ONE;
pub use ieee::F_PZERO;
pub use ieee::F_THREE;
pub use ieee::F_TWO;
pub use ieee::F_TWO_PI;
