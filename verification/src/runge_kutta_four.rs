//! The generic fourth-order Runge-Kutta stepper.
//!
//! The integrator knows nothing about any concrete model: it works through
//! the [`Differentiable`] capability, which supplies derivative computation,
//! field-wise addition, and scaling by a time increment.  Scaling takes the
//! step divisor together with the time step, so each integrable field is
//! rounded once per stage rather than once for the divisor and once for the
//! product.
//!
//! Every executable method is pinned to a specification-level twin, so the
//! next state is a mathematical function of the current state, the held
//! control, and the step — the root of the determinism guarantee.

use crate::fixed::Fx;
use vstd::prelude::*;

verus! {

/// What a state type must supply to be integrated.
///
/// `add` and `scale_frac` act field-wise on the integrable fields only;
/// bookkeeping fields (tick counter, time step) are carried from the left
/// operand of `add` and kept by `scale_frac`, and the three operations are
/// pure: the `_spec` twins define their exact values.
pub trait Differentiable<C>: Sized {
    /// The value `derivative` computes.
    spec fn derivative_spec(self, control: C) -> Self;

    /// The value `add` computes.
    spec fn add_spec(self, rhs: Self) -> Self;

    /// The value `scale_frac` computes.
    spec fn scale_frac_spec(self, num: Fx, den: u64) -> Self;

    /// Time-derivative of every integrable field, with the control held
    /// constant over the step.
    fn derivative(&self, control: &C) -> (r: Self)
        ensures
            r == self.derivative_spec(*control),
    ;

    /// Field-wise sum on the integrable fields; bookkeeping fields come from
    /// `self`.
    fn add(self, rhs: Self) -> (r: Self)
        ensures
            r == self.add_spec(rhs),
    ;

    /// Field-wise scaling of the integrable fields by `num / den`.
    fn scale_frac(self, num: Fx, den: u64) -> (r: Self)
        requires
            den >= 1,
        ensures
            r == self.scale_frac_spec(num, den),
    ;
}

/// One classical Runge-Kutta step of size `dt` from state `s` under the held
/// control `c`:
///
/// ```text
/// k1 = derivative(s, c)
/// k2 = derivative(s + k1 * (dt/2), c)
/// k3 = derivative(s + k2 * (dt/2), c)
/// k4 = derivative(s + k3 * dt, c)
/// s' = s + (k1 + 2*k2 + 2*k3 + k4) * (dt/6)
/// ```
pub open spec fn rk4_next<S: Differentiable<C>, C>(s: S, c: C, dt: Fx) -> S {
    let k1 = s.derivative_spec(c);
    let k2 = s.add_spec(k1.scale_frac_spec(dt, 2)).derivative_spec(c);
    let k3 = s.add_spec(k2.scale_frac_spec(dt, 2)).derivative_spec(c);
    let k4 = s.add_spec(k3.scale_frac_spec(dt, 1)).derivative_spec(c);
    let sum = k1.add_spec(k2).add_spec(k2).add_spec(k3).add_spec(k3).add_spec(k4);
    s.add_spec(sum.scale_frac_spec(dt, 6))
}

/// The integrator: a state being integrated together with its fixed step.
pub struct RungeKutta4<S> {
    pub integrand: S,
    pub delta_time: Fx,
}

impl<S> RungeKutta4<S> {
    /// Packs a state and a fixed step for integration.
    pub fn build(state: S, delta_time: Fx) -> (r: RungeKutta4<S>)
        ensures
            r.integrand == state,
            r.delta_time == delta_time,
    {
        RungeKutta4 { integrand: state, delta_time }
    }

    /// Advances the integrand by one unconditional step under the held
    /// control `impulse`.  The four derivative evaluations all read the same
    /// base state; the integrand is replaced wholesale at the end.
    pub fn step<C: Copy>(&mut self, impulse: &C) where S: Differentiable<C> + Copy
        ensures
            final(self).integrand == rk4_next(old(self).integrand, *impulse, old(self).delta_time),
            final(self).delta_time == old(self).delta_time,
    {
        let dt = self.delta_time;
        let s = self.integrand;
        let k1 = s.derivative(impulse);
        let k2 = s.add(k1.scale_frac(dt, 2)).derivative(impulse);
        let k3 = s.add(k2.scale_frac(dt, 2)).derivative(impulse);
        let k4 = s.add(k3.scale_frac(dt, 1)).derivative(impulse);
        let sum = k1.add(k2).add(k2).add(k3).add(k3).add(k4);
        self.integrand = s.add(sum.scale_frac(dt, 6));
    }
}

} // verus!
