//! A fixed-timestep physics/control testbed: a deterministic numerical
//! integrator that advances a dynamical system's state forward in time under a
//! pluggable control law.
//!
//! The integrator is a classical fourth-order Runge-Kutta stepper, generic
//! over the [`runge_kutta_four::Differentiable`] capability (derivative
//! computation, state addition, scaling by a time increment).  Two concrete
//! models implement it: a one-degree-of-freedom point mass
//! ([`simulation::State`]) and a six-degree-of-freedom rigid-body flight
//! model ([`rigid_body::RigidBodyState`]).
//!
//! All quantities are carried in a binary fixed-point scalar ([`fixed::Fx`])
//! so that every arithmetic step has an exact, machine-checkable meaning and
//! two runs from the same initial state are bitwise identical.

pub mod fixed;
pub mod oscillator;
pub mod rigid_body;
pub mod runge_kutta_four;
pub mod simulation;
pub mod trig;
