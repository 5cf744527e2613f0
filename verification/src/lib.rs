//! A verified double-pendulum simulator.
//!
//! Two rigid massless rods, each ending in a point mass, swing under
//! gravity: the upper rod from a fixed origin, the lower rod from the
//! upper mass.  The library integrates the coupled equations of motion
//! one time step at a time and reports both masses' Cartesian positions.
//!
//! All scalars are fixed-point numbers held in `i64`: a value `n` stands
//! for the real number `n / 1_000_000`.  Every arithmetic step saturates
//! at the `i64` range instead of overflowing, and every executable
//! function is proved to compute exactly the value its specification
//! mirror describes.

pub mod fixed;
pub mod trig;
pub mod pendulum;
pub mod laws;

pub use pendulum::Bob;
pub use pendulum::Pendulum;
pub use fixed::SCALE;
