//! A wall of anchored particles, the transient particles thrown at it, and the
//! frame-by-frame rules that move both.
//!
//! [`physics::PhysicsSystem`] owns the particles and runs the frame;
//! [`particle::Particle`] and [`vector::Vec3`] are what it is made of;
//! [`input::InputSystem`] keeps the hands that throw. All of it is written
//! against [`scalar::Scalar`], the arithmetic of the caller's choice;
//! [`fixed::Fixed`] is one such arithmetic.

pub mod collisions;
pub mod fixed;
pub mod input;
pub mod neighbors;
pub mod particle;
pub mod physics;
pub mod scalar;
pub mod simple_renderer;
pub mod spawn;
pub mod vector;
