//! Verified 2D kinematics: exact rational scalars, componentwise vectors,
//! and a fixed-timestep integrator (velocity += acceleration, velocity *=
//! 1 - damping, position += velocity). Drawing and the event loop live
//! outside the library; it only computes.

pub mod line;
pub mod movable;
pub mod rat;
pub mod xy;

pub use line::Line;
pub use movable::Movable;
pub use rat::Rat;
pub use xy::Xy;
