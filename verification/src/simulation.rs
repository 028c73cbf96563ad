//! The point-mass model and the simulation driver.
//!
//! [`State`] is the one-degree-of-freedom point mass: a position and a
//! velocity, plus the bookkeeping fields every integrable state carries (the
//! tick counter and the fixed time step).  [`Control`] is a single scalar
//! force, mapped directly to the velocity rate (unit mass).
//!
//! [`Simulation`] owns exactly one state and one control, both by value, and
//! exposes one operation per tick: [`Simulation::step`], which hands the pair
//! to the integrator once, replaces the state wholesale, and increments the
//! tick counter by exactly one.  The controller is an external, pluggable
//! function of the state; the driver commits its latest output through
//! [`Simulation::tick`] before the step, and the control is held constant for
//! the duration of the step's four derivative evaluations.

use crate::fixed::{
    fxadd, fxmul, fxmulfrac, iabs, lemma_fxadd_zero, lemma_fxmulfrac_zero, lemma_tdiv_scale_cancel,
    sat64, Fx, SCALE,
};
use crate::runge_kutta_four::{rk4_next, Differentiable, RungeKutta4};
use vstd::arithmetic::mul::lemma_mul_inequality;
use vstd::prelude::*;

verus! {

/// The point-mass state: position and velocity are the integrable fields;
/// tick and time step are bookkeeping, carried unchanged through the
/// integrator's vector operations.
#[derive(Clone, Copy, PartialEq, Eq, Structural, Debug)]
pub struct State {
    pub position: Fx,
    pub velocity: Fx,
    pub tick: i64,
    pub delta_time: Fx,
}

/// The point-mass control: a single scalar force on a unit mass.
#[derive(Clone, Copy, PartialEq, Eq, Structural, Debug)]
pub struct Control {
    pub force: Fx,
}

impl Differentiable<Control> for State {
    /// Position changes at the current velocity; velocity changes at the
    /// applied force (unit mass).  This model has no singularities.
    open spec fn derivative_spec(self, control: Control) -> State {
        State {
            position: self.velocity,
            velocity: control.force,
            tick: self.tick,
            delta_time: self.delta_time,
        }
    }

    open spec fn add_spec(self, rhs: State) -> State {
        State {
            position: fxadd(self.position, rhs.position),
            velocity: fxadd(self.velocity, rhs.velocity),
            tick: self.tick,
            delta_time: self.delta_time,
        }
    }

    open spec fn scale_frac_spec(self, num: Fx, den: u64) -> State {
        State {
            position: fxmulfrac(self.position, num, den),
            velocity: fxmulfrac(self.velocity, num, den),
            tick: self.tick,
            delta_time: self.delta_time,
        }
    }

    fn derivative(&self, control: &Control) -> State {
        State {
            position: self.velocity,
            velocity: control.force,
            tick: self.tick,
            delta_time: self.delta_time,
        }
    }

    fn add(self, rhs: State) -> State {
        State {
            position: self.position.add(rhs.position),
            velocity: self.velocity.add(rhs.velocity),
            tick: self.tick,
            delta_time: self.delta_time,
        }
    }

    fn scale_frac(self, num: Fx, den: u64) -> State {
        State {
            position: self.position.mul_frac(num, den),
            velocity: self.velocity.mul_frac(num, den),
            tick: self.tick,
            delta_time: self.delta_time,
        }
    }
}

impl Default for State {
    /// The all-zero state: at the origin, at rest, tick zero, zero step.
    fn default() -> (r: State)
        ensures
            r == (State {
                position: Fx { raw: 0i64 },
                velocity: Fx { raw: 0i64 },
                tick: 0i64,
                delta_time: Fx { raw: 0i64 },
            }),
    {
        State {
            position: Fx { raw: 0 },
            velocity: Fx { raw: 0 },
            tick: 0,
            delta_time: Fx { raw: 0 },
        }
    }
}

impl Default for Control {
    /// No force.
    fn default() -> (r: Control)
        ensures
            r == (Control { force: Fx { raw: 0i64 } }),
    {
        Control { force: Fx { raw: 0 } }
    }
}

impl Default for Simulation {
    /// The all-zero simulation: default state under default control.
    fn default() -> (r: Simulation)
        ensures
            r.state == (State {
                position: Fx { raw: 0i64 },
                velocity: Fx { raw: 0i64 },
                tick: 0i64,
                delta_time: Fx { raw: 0i64 },
            }),
            r.control == (Control { force: Fx { raw: 0i64 } }),
    {
        Simulation { state: State::default(), control: Control::default() }
    }
}

/// The state after one completed tick: one integration step of the state's
/// own fixed time step, then the tick counter moves up by one.
pub open spec fn step_spec(s: State, c: Control) -> State {
    let n = rk4_next(s, c, s.delta_time);
    State { position: n.position, velocity: n.velocity, tick: (n.tick + 1) as i64, delta_time: n.delta_time }
}

/// The simulation driver: exactly one state and one control, both by value.
#[derive(Clone, Copy, PartialEq, Eq, Structural, Debug)]
pub struct Simulation {
    pub state: State,
    pub control: Control,
}

impl Simulation {
    /// One tick's integration step.  The current control is held constant
    /// for the whole step; the state is replaced wholesale by the
    /// integrator's output and the tick counter increments by exactly one,
    /// from whatever value it held.
    pub fn step(&mut self)
        requires
            old(self).state.tick < i64::MAX,
        ensures
            final(self).state == step_spec(old(self).state, old(self).control),
            final(self).control == old(self).control,
            final(self).state.tick == old(self).state.tick + 1,
    {
        let mut rk4 = RungeKutta4::build(self.state, self.state.delta_time);
        rk4.step(&self.control);
        self.state = rk4.integrand;
        self.state.tick = self.state.tick + 1;
    }

    /// One full tick at the controller boundary: commit the controller's
    /// latest output, then take one step under it.
    pub fn tick(&mut self, control: Control)
        requires
            old(self).state.tick < i64::MAX,
        ensures
            final(self).state == step_spec(old(self).state, control),
            final(self).control == control,
    {
        self.control = control;
        self.step();
    }
}

/// The state after `n` completed ticks under a fixed control.
pub open spec fn run_spec(s: State, c: Control, n: nat) -> State
    decreases n,
{
    if n == 0 {
        s
    } else {
        step_spec(run_spec(s, c, (n - 1) as nat), c)
    }
}

/// The state after `n` completed ticks when the control is recomputed at the
/// top of every tick by a pure controller function of the state.
pub open spec fn run_ctrl_spec(s: State, ctrl: spec_fn(State) -> Control, n: nat) -> State
    decreases n,
{
    if n == 0 {
        s
    } else {
        let prev = run_ctrl_spec(s, ctrl, (n - 1) as nat);
        step_spec(prev, ctrl(prev))
    }
}

/// With zero force, one step is exactly constant-velocity motion: the
/// velocity is unchanged and the position advances by velocity times the
/// step.  The bound keeps the stage sum of the four (equal) derivative
/// evaluations inside the representable range.
pub proof fn lemma_zero_control_constant_velocity(s: State, c: Control)
    requires
        c.force.raw == 0,
        6 * s.velocity.raw <= i64::MAX,
        -i64::MAX <= 6 * s.velocity.raw,
    ensures
        step_spec(s, c).velocity == s.velocity,
        step_spec(s, c).position == fxadd(s.position, fxmul(s.velocity, s.delta_time)),
        step_spec(s, c).delta_time == s.delta_time,
{
    let dt = s.delta_time;
    let v = s.velocity;
    lemma_fxmulfrac_zero(dt, 2);
    lemma_fxmulfrac_zero(dt, 1);
    lemma_fxmulfrac_zero(dt, 6);
    lemma_fxadd_zero(v);
    let k1 = s.derivative_spec(c);
    assert(k1.velocity.raw == 0);
    assert(s.add_spec(k1.scale_frac_spec(dt, 2)).velocity == v);
    let k2 = s.add_spec(k1.scale_frac_spec(dt, 2)).derivative_spec(c);
    assert(k2.position == v && k2.velocity.raw == 0 && k2.tick == s.tick
        && k2.delta_time == s.delta_time);
    let k3 = s.add_spec(k2.scale_frac_spec(dt, 2)).derivative_spec(c);
    assert(k3 == k2);
    let k4 = s.add_spec(k3.scale_frac_spec(dt, 1)).derivative_spec(c);
    assert(k4 == k2);
    let sum = k1.add_spec(k2).add_spec(k2).add_spec(k3).add_spec(k3).add_spec(k4);
    assert(sum.position.raw == 6 * v.raw);
    assert(sum.velocity.raw == 0);
    let inc = sum.scale_frac_spec(dt, 6);
    assert(inc.position == fxmul(v, dt)) by {
        assert((sum.position.raw as int) * (dt.raw as int) == 6 * ((v.raw as int) * (dt.raw
            as int))) by (nonlinear_arith)
            requires
                sum.position.raw == 6 * v.raw,
        ;
        lemma_tdiv_scale_cancel(6, (v.raw as int) * (dt.raw as int), SCALE as int);
        assert((SCALE as int) * 6u64 == 6 * (SCALE as int));
        assert((SCALE as int) * 1u64 == SCALE as int);
    }
    assert(inc.velocity.raw == 0);
    lemma_fxadd_zero(v);
    assert(rk4_next(s, c, dt).velocity == v);
}

/// With a constant nonzero force, one step changes the velocity by exactly
/// force times the step: uniformly accelerated motion, step by step.  The
/// velocity rate is the force at every stage, whatever the stage states are,
/// so only the force needs to stay clear of the representable bound.
pub proof fn lemma_constant_force_accelerates(s: State, c: Control)
    requires
        6 * c.force.raw <= i64::MAX,
        -i64::MAX <= 6 * c.force.raw,
    ensures
        step_spec(s, c).velocity == fxadd(s.velocity, fxmul(c.force, s.delta_time)),
{
    let dt = s.delta_time;
    let f = c.force;
    let k1 = s.derivative_spec(c);
    let k2 = s.add_spec(k1.scale_frac_spec(dt, 2)).derivative_spec(c);
    let k3 = s.add_spec(k2.scale_frac_spec(dt, 2)).derivative_spec(c);
    let k4 = s.add_spec(k3.scale_frac_spec(dt, 1)).derivative_spec(c);
    assert(k1.velocity == f && k2.velocity == f && k3.velocity == f && k4.velocity == f);
    let sum = k1.add_spec(k2).add_spec(k2).add_spec(k3).add_spec(k3).add_spec(k4);
    assert(sum.velocity.raw == 6 * f.raw);
    let inc = sum.scale_frac_spec(dt, 6);
    assert(inc.velocity == fxmul(f, dt)) by {
        assert((sum.velocity.raw as int) * (dt.raw as int) == 6 * ((f.raw as int) * (dt.raw
            as int))) by (nonlinear_arith)
            requires
                sum.velocity.raw == 6 * f.raw,
        ;
        lemma_tdiv_scale_cancel(6, (f.raw as int) * (dt.raw as int), SCALE as int);
        assert((SCALE as int) * 6u64 == 6 * (SCALE as int));
        assert((SCALE as int) * 1u64 == SCALE as int);
    }
}

/// Over any number of ticks with zero force, the trajectory is exactly
/// `position(n) = position(0) + n * (velocity * dt)`, the velocity never
/// moves, and the tick counter advances by one per tick.  The bounds rule
/// out saturation of the position and overflow of the tick counter along the
/// whole run.
pub proof fn lemma_zero_control_trajectory(s: State, c: Control, n: nat)
    requires
        c.force.raw == 0,
        6 * s.velocity.raw <= i64::MAX,
        -i64::MAX <= 6 * s.velocity.raw,
        iabs(s.position.raw as int) + n * iabs(fxmul(s.velocity, s.delta_time).raw as int)
            <= i64::MAX,
        s.tick + n <= i64::MAX,
    ensures
        run_spec(s, c, n).velocity == s.velocity,
        run_spec(s, c, n).position.raw as int == s.position.raw + n * fxmul(
            s.velocity,
            s.delta_time,
        ).raw,
        run_spec(s, c, n).tick == s.tick + n,
        run_spec(s, c, n).delta_time == s.delta_time,
    decreases n,
{
    let inc = fxmul(s.velocity, s.delta_time);
    if n > 0 {
        let p0 = s.position.raw as int;
        let d = iabs(inc.raw as int);
        let m = n as int;
        lemma_mul_inequality(m - 1, m, d);
        lemma_zero_control_trajectory(s, c, (n - 1) as nat);
        let prev = run_spec(s, c, (n - 1) as nat);
        lemma_zero_control_constant_velocity(prev, c);
        assert(fxmul(prev.velocity, prev.delta_time) == inc);
        assert(prev.position.raw == p0 + (m - 1) * inc.raw);
        assert((m - 1) * (inc.raw as int) + inc.raw == m * inc.raw) by (nonlinear_arith);
        assert(iabs(m * inc.raw) <= m * d) by (nonlinear_arith)
            requires
                m >= 1,
                d == iabs(inc.raw as int),
        ;
        assert(iabs(p0 + m * inc.raw) <= iabs(p0) + iabs(m * inc.raw));
        assert(sat64(p0 + m * inc.raw) == p0 + m * inc.raw);
    }
}

/// Over any number of ticks under a constant force, the velocity is exactly
/// `velocity(n) = velocity(0) + n * (force * dt)`: the discrete closed form
/// of uniformly accelerated motion.  The bounds rule out saturation of the
/// velocity along the whole run.
pub proof fn lemma_constant_force_velocity_trajectory(s: State, c: Control, n: nat)
    requires
        6 * c.force.raw <= i64::MAX,
        -i64::MAX <= 6 * c.force.raw,
        iabs(s.velocity.raw as int) + n * iabs(fxmul(c.force, s.delta_time).raw as int)
            <= i64::MAX,
    ensures
        run_spec(s, c, n).velocity.raw as int == s.velocity.raw + n * fxmul(
            c.force,
            s.delta_time,
        ).raw,
        run_spec(s, c, n).delta_time == s.delta_time,
    decreases n,
{
    let inc = fxmul(c.force, s.delta_time);
    if n > 0 {
        let v0 = s.velocity.raw as int;
        let d = iabs(inc.raw as int);
        let m = n as int;
        lemma_mul_inequality(m - 1, m, d);
        lemma_constant_force_velocity_trajectory(s, c, (n - 1) as nat);
        let prev = run_spec(s, c, (n - 1) as nat);
        lemma_constant_force_accelerates(prev, c);
        assert(fxmul(c.force, prev.delta_time) == inc);
        assert(prev.velocity.raw == v0 + (m - 1) * inc.raw);
        assert((m - 1) * (inc.raw as int) + inc.raw == m * inc.raw) by (nonlinear_arith);
        assert(iabs(m * inc.raw) <= m * d) by (nonlinear_arith)
            requires
                m >= 1,
                d == iabs(inc.raw as int),
        ;
        assert(iabs(v0 + m * inc.raw) <= iabs(v0) + iabs(m * inc.raw));
        assert(sat64(v0 + m * inc.raw) == v0 + m * inc.raw);
    }
}

/// Determinism: two runs from identical initial states, with the same fixed
/// time step carried in the state and the same pure controller function,
/// produce identical states after any number of ticks.  Every tick is the
/// same mathematical function of the pair (state, control), so the two state
/// sequences agree everywhere.
pub proof fn lemma_deterministic_runs(
    s1: State,
    s2: State,
    ctrl: spec_fn(State) -> Control,
    n: nat,
)
    requires
        s1 == s2,
    ensures
        run_ctrl_spec(s1, ctrl, n) == run_ctrl_spec(s2, ctrl, n),
    decreases n,
{
    if n > 0 {
        lemma_deterministic_runs(s1, s2, ctrl, (n - 1) as nat);
    }
}

} // verus!
