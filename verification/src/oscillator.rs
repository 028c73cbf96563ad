//! A forced harmonic oscillator: the smooth test derivative used to probe
//! the integrator's convergence order.
//!
//! Position rate is the velocity; velocity rate is the applied force minus
//! the position (unit mass, unit stiffness).  With zero force this is the
//! simple harmonic oscillator, whose closed form pins the integrator's
//! error behaviour.

use crate::fixed::{fxadd, fxmulfrac, fxsub, Fx};
use crate::runge_kutta_four::Differentiable;
use crate::simulation::Control;
use vstd::prelude::*;

verus! {

/// Oscillator state: position and velocity, both integrable.
#[derive(Clone, Copy, PartialEq, Eq, Structural, Debug)]
pub struct Oscillator {
    pub pos: Fx,
    pub vel: Fx,
}

impl Differentiable<Control> for Oscillator {
    /// A unit restoring force toward the origin plus the external force.
    open spec fn derivative_spec(self, control: Control) -> Oscillator {
        Oscillator { pos: self.vel, vel: fxsub(control.force, self.pos) }
    }

    open spec fn add_spec(self, rhs: Oscillator) -> Oscillator {
        Oscillator { pos: fxadd(self.pos, rhs.pos), vel: fxadd(self.vel, rhs.vel) }
    }

    open spec fn scale_frac_spec(self, num: Fx, den: u64) -> Oscillator {
        Oscillator { pos: fxmulfrac(self.pos, num, den), vel: fxmulfrac(self.vel, num, den) }
    }

    fn derivative(&self, control: &Control) -> Oscillator {
        Oscillator { pos: self.vel, vel: control.force.sub(self.pos) }
    }

    fn add(self, rhs: Oscillator) -> Oscillator {
        Oscillator { pos: self.pos.add(rhs.pos), vel: self.vel.add(rhs.vel) }
    }

    fn scale_frac(self, num: Fx, den: u64) -> Oscillator {
        Oscillator { pos: self.pos.mul_frac(num, den), vel: self.vel.mul_frac(num, den) }
    }
}

} // verus!
