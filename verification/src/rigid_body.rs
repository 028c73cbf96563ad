//! The six-degree-of-freedom rigid-body flight model.
//!
//! The state carries world position, Euler orientation (roll `phi`, pitch
//! `theta`, yaw `psi` — aerospace z-y-x convention), body-frame linear
//! velocity and body-frame angular velocity, plus the tick and time-step
//! bookkeeping.  The control is the four normalized actuator inputs; the
//! core enforces no range clamping — callers are responsible for physically
//! plausible ranges.
//!
//! The derivative works in five stages: Euler-angle kinematics and the
//! body-to-world rotation; aerodynamic forces from dynamic pressure, angle
//! of attack and affine coefficient laws; thrust along the body x-axis;
//! gravity rotated into the body frame; and the Newton-Euler equations with
//! a diagonal inertia tensor.  The integrator never wraps or normalizes the
//! Euler angles — wrapping is a presentation concern.
//!
//! Two boundary conventions are deliberate saturation policies, not
//! numerically robust treatments: at exact gimbal lock (cosine of pitch
//! exactly zero) the yaw rate and the pitch-tangent term are defined to be
//! zero, and the angle of attack is defined to be zero when the forward
//! body velocity is exactly zero.

use crate::fixed::{
    fxadd, fxdiv, fxdivn, fxmul, fxmulfrac, fxneg, fxsub, lemma_fxadd_zero, lemma_fxdiv_zero,
    lemma_fxmul_zero, lemma_fxmulfrac_zero, Fx,
};
use crate::runge_kutta_four::{rk4_next, Differentiable, RungeKutta4};
use crate::trig::{
    atan, atan_spec, cos, cos_spec, fxsqrt, lemma_cos_half_pi_zero, lemma_fxmul_square_nonneg,
    sin, sin_spec, sqrt, HALF_PI_RAW,
};
use vstd::prelude::*;

verus! {

/// Vehicle mass, 10 units.
pub const MASS_RAW: i64 = 42949672960;

/// Gravitational acceleration, 9.81 units.
pub const GRAVITY_RAW: i64 = 42133629173;

/// Air density, 1.225 units.
pub const RHO_RAW: i64 = 5261334937;

/// Reference wing area, 1 unit.
pub const WING_AREA_RAW: i64 = 4294967296;

/// Wing span, 2 units.
pub const SPAN_RAW: i64 = 8589934592;

/// Mean chord, 0.5 units.
pub const CHORD_RAW: i64 = 2147483648;

/// Maximum thrust at full throttle, 50 units.
pub const MAX_THRUST_RAW: i64 = 214748364800;

/// Zero-incidence lift coefficient, 0.2.
pub const CL0_RAW: i64 = 858993459;

/// Lift-curve slope per radian of angle of attack, 5.0.
pub const CL_ALPHA_RAW: i64 = 21474836480;

/// Zero-lift drag coefficient, 0.02.
pub const CD0_RAW: i64 = 85899345;

/// Induced-drag factor, 0.05.
pub const K_INDUCED_RAW: i64 = 214748364;

/// Side-force effectiveness of the rudder, 0.2.
pub const CY_RUDDER_RAW: i64 = 858993459;

/// Roll-moment effectiveness of the aileron, 0.08.
pub const C_AILERON_RAW: i64 = 343597383;

/// Pitch-moment effectiveness of the elevator, 0.1.
pub const C_ELEVATOR_RAW: i64 = 429496729;

/// Yaw-moment effectiveness of the rudder, 0.06.
pub const C_RUDDER_RAW: i64 = 257698037;

/// Principal moment of inertia about the body x-axis, 2 units.
pub const INERTIA_X_RAW: i64 = 8589934592;

/// Principal moment of inertia about the body y-axis, 4 units.
pub const INERTIA_Y_RAW: i64 = 17179869184;

/// Principal moment of inertia about the body z-axis, 5 units.
pub const INERTIA_Z_RAW: i64 = 21474836480;

/// The rigid-body state: twelve integrable fields and the two bookkeeping
/// fields.  `u`, `v`, `w` are body-frame linear velocity; `p`, `q`, `r` are
/// body-frame angular velocity.
#[derive(Clone, Copy, PartialEq, Eq, Structural, Debug)]
pub struct RigidBodyState {
    pub x: Fx,
    pub y: Fx,
    pub z: Fx,
    pub phi: Fx,
    pub theta: Fx,
    pub psi: Fx,
    pub u: Fx,
    pub v: Fx,
    pub w: Fx,
    pub p: Fx,
    pub q: Fx,
    pub r: Fx,
    pub tick: i64,
    pub delta_time: Fx,
}

/// The four normalized actuator inputs.
#[derive(Clone, Copy, PartialEq, Eq, Structural, Debug)]
pub struct RigidBodyControl {
    pub aileron: Fx,
    pub elevator: Fx,
    pub rudder: Fx,
    pub throttle: Fx,
}

/// Euler-angle rates from the body angular velocity, via the standard
/// kinematic transform with the pitch tangent and secant.  At exact gimbal
/// lock both guarded terms are defined to be zero.
pub open spec fn euler_rates_spec(s: RigidBodyState) -> (Fx, Fx, Fx) {
    let sp = sin_spec(s.phi);
    let cp = cos_spec(s.phi);
    let st = sin_spec(s.theta);
    let ct = cos_spec(s.theta);
    let sway = fxadd(fxmul(s.q, sp), fxmul(s.r, cp));
    let tan_t = if ct.raw == 0 {
        Fx { raw: 0i64 }
    } else {
        fxdiv(st, ct)
    };
    let phi_dot = fxadd(s.p, fxmul(tan_t, sway));
    let theta_dot = fxsub(fxmul(s.q, cp), fxmul(s.r, sp));
    let psi_dot = if ct.raw == 0 {
        Fx { raw: 0i64 }
    } else {
        fxdiv(sway, ct)
    };
    (phi_dot, theta_dot, psi_dot)
}

fn euler_rates(s: &RigidBodyState) -> (rates: (Fx, Fx, Fx))
    ensures
        rates == euler_rates_spec(*s),
{
    let sp = sin(s.phi);
    let cp = cos(s.phi);
    let st = sin(s.theta);
    let ct = cos(s.theta);
    let sway = s.q.mul(sp).add(s.r.mul(cp));
    let tan_t = if ct.raw == 0 {
        Fx { raw: 0 }
    } else {
        st.div(ct)
    };
    let phi_dot = s.p.add(tan_t.mul(sway));
    let theta_dot = s.q.mul(cp).sub(s.r.mul(sp));
    let psi_dot = if ct.raw == 0 {
        Fx { raw: 0 }
    } else {
        sway.div(ct)
    };
    (phi_dot, theta_dot, psi_dot)
}

/// World-frame velocity: the body-to-world rotation matrix built from the
/// Euler angles (z-y-x convention), applied to the body-frame velocity.
pub open spec fn world_velocity_spec(s: RigidBodyState) -> (Fx, Fx, Fx) {
    let sp = sin_spec(s.phi);
    let cp = cos_spec(s.phi);
    let st = sin_spec(s.theta);
    let ct = cos_spec(s.theta);
    let ss = sin_spec(s.psi);
    let cs = cos_spec(s.psi);
    let r11 = fxmul(ct, cs);
    let r12 = fxsub(fxmul(fxmul(sp, st), cs), fxmul(cp, ss));
    let r13 = fxadd(fxmul(fxmul(cp, st), cs), fxmul(sp, ss));
    let r21 = fxmul(ct, ss);
    let r22 = fxadd(fxmul(fxmul(sp, st), ss), fxmul(cp, cs));
    let r23 = fxsub(fxmul(fxmul(cp, st), ss), fxmul(sp, cs));
    let r31 = fxneg(st);
    let r32 = fxmul(sp, ct);
    let r33 = fxmul(cp, ct);
    let xd = fxadd(fxadd(fxmul(r11, s.u), fxmul(r12, s.v)), fxmul(r13, s.w));
    let yd = fxadd(fxadd(fxmul(r21, s.u), fxmul(r22, s.v)), fxmul(r23, s.w));
    let zd = fxadd(fxadd(fxmul(r31, s.u), fxmul(r32, s.v)), fxmul(r33, s.w));
    (xd, yd, zd)
}

fn world_velocity(s: &RigidBodyState) -> (vel: (Fx, Fx, Fx))
    ensures
        vel == world_velocity_spec(*s),
{
    let sp = sin(s.phi);
    let cp = cos(s.phi);
    let st = sin(s.theta);
    let ct = cos(s.theta);
    let ss = sin(s.psi);
    let cs = cos(s.psi);
    let r11 = ct.mul(cs);
    let r12 = sp.mul(st).mul(cs).sub(cp.mul(ss));
    let r13 = cp.mul(st).mul(cs).add(sp.mul(ss));
    let r21 = ct.mul(ss);
    let r22 = sp.mul(st).mul(ss).add(cp.mul(cs));
    let r23 = cp.mul(st).mul(ss).sub(sp.mul(cs));
    let r31 = st.neg();
    let r32 = sp.mul(ct);
    let r33 = cp.mul(ct);
    let xd = r11.mul(s.u).add(r12.mul(s.v)).add(r13.mul(s.w));
    let yd = r21.mul(s.u).add(r22.mul(s.v)).add(r23.mul(s.w));
    let zd = r31.mul(s.u).add(r32.mul(s.v)).add(r33.mul(s.w));
    (xd, yd, zd)
}

/// Squared airspeed from the body velocity components: a sum of squares,
/// never negative.
pub open spec fn airspeed_sq_spec(s: RigidBodyState) -> Fx {
    fxadd(fxadd(fxmul(s.u, s.u), fxmul(s.v, s.v)), fxmul(s.w, s.w))
}

/// The squared airspeed has a non-negative raw value, so its square root is
/// defined.
pub proof fn lemma_airspeed_sq_nonneg(s: RigidBodyState)
    ensures
        airspeed_sq_spec(s).raw >= 0,
{
    lemma_fxmul_square_nonneg(s.u);
    lemma_fxmul_square_nonneg(s.v);
    lemma_fxmul_square_nonneg(s.w);
}

/// Dynamic pressure: half the air density times the squared airspeed
/// magnitude.
pub open spec fn dynamic_pressure_spec(s: RigidBodyState) -> Fx {
    let speed = fxsqrt(airspeed_sq_spec(s));
    fxdivn(fxmul(Fx { raw: RHO_RAW }, fxmul(speed, speed)), 2)
}

fn dynamic_pressure(s: &RigidBodyState) -> (qbar: Fx)
    ensures
        qbar == dynamic_pressure_spec(*s),
{
    let sq = s.u.mul(s.u).add(s.v.mul(s.v)).add(s.w.mul(s.w));
    proof {
        lemma_airspeed_sq_nonneg(*s);
    }
    let speed = sqrt(sq);
    Fx { raw: RHO_RAW }.mul(speed.mul(speed)).divn(2)
}

/// Angle of attack: the arctangent of the vertical-to-forward body velocity
/// ratio, defined as zero when the forward velocity is exactly zero.
pub open spec fn angle_of_attack_spec(s: RigidBodyState) -> Fx {
    if s.u.raw == 0 {
        Fx { raw: 0i64 }
    } else {
        atan_spec(fxdiv(s.w, s.u))
    }
}

fn angle_of_attack(s: &RigidBodyState) -> (alpha: Fx)
    ensures
        alpha == angle_of_attack_spec(*s),
{
    if s.u.raw == 0 {
        Fx { raw: 0 }
    } else {
        atan(s.w.div(s.u))
    }
}

/// Body-frame linear acceleration: aerodynamic, thrust and gravity forces
/// over the mass, minus the Coriolis term of the rotating frame.
pub open spec fn linear_accel_spec(s: RigidBodyState, c: RigidBodyControl) -> (Fx, Fx, Fx) {
    let qbar = dynamic_pressure_spec(s);
    let alpha = angle_of_attack_spec(s);
    let cl = fxadd(Fx { raw: CL0_RAW }, fxmul(Fx { raw: CL_ALPHA_RAW }, alpha));
    let cd = fxadd(Fx { raw: CD0_RAW }, fxmul(Fx { raw: K_INDUCED_RAW }, fxmul(cl, cl)));
    let cy = fxmul(Fx { raw: CY_RUDDER_RAW }, c.rudder);
    let lift = fxmul(qbar, fxmul(Fx { raw: WING_AREA_RAW }, cl));
    let drag = fxmul(qbar, fxmul(Fx { raw: WING_AREA_RAW }, cd));
    let side = fxmul(qbar, fxmul(Fx { raw: WING_AREA_RAW }, cy));
    let thrust = fxmul(c.throttle, Fx { raw: MAX_THRUST_RAW });
    let sp = sin_spec(s.phi);
    let cp = cos_spec(s.phi);
    let st = sin_spec(s.theta);
    let ct = cos_spec(s.theta);
    let mg = fxmul(Fx { raw: MASS_RAW }, Fx { raw: GRAVITY_RAW });
    let gx = fxneg(fxmul(st, mg));
    let gy = fxmul(fxmul(sp, ct), mg);
    let gz = fxmul(fxmul(cp, ct), mg);
    let fx_b = fxadd(fxsub(thrust, drag), gx);
    let fy_b = fxadd(side, gy);
    let fz_b = fxadd(fxneg(lift), gz);
    let cor_x = fxsub(fxmul(s.q, s.w), fxmul(s.r, s.v));
    let cor_y = fxsub(fxmul(s.r, s.u), fxmul(s.p, s.w));
    let cor_z = fxsub(fxmul(s.p, s.v), fxmul(s.q, s.u));
    let ud = fxsub(fxdiv(fx_b, Fx { raw: MASS_RAW }), cor_x);
    let vd = fxsub(fxdiv(fy_b, Fx { raw: MASS_RAW }), cor_y);
    let wd = fxsub(fxdiv(fz_b, Fx { raw: MASS_RAW }), cor_z);
    (ud, vd, wd)
}

fn linear_accel(s: &RigidBodyState, c: &RigidBodyControl) -> (acc: (Fx, Fx, Fx))
    ensures
        acc == linear_accel_spec(*s, *c),
{
    let qbar = dynamic_pressure(s);
    let alpha = angle_of_attack(s);
    let cl = Fx { raw: CL0_RAW }.add(Fx { raw: CL_ALPHA_RAW }.mul(alpha));
    let cd = Fx { raw: CD0_RAW }.add(Fx { raw: K_INDUCED_RAW }.mul(cl.mul(cl)));
    let cy = Fx { raw: CY_RUDDER_RAW }.mul(c.rudder);
    let lift = qbar.mul(Fx { raw: WING_AREA_RAW }.mul(cl));
    let drag = qbar.mul(Fx { raw: WING_AREA_RAW }.mul(cd));
    let side = qbar.mul(Fx { raw: WING_AREA_RAW }.mul(cy));
    let thrust = c.throttle.mul(Fx { raw: MAX_THRUST_RAW });
    let sp = sin(s.phi);
    let cp = cos(s.phi);
    let st = sin(s.theta);
    let ct = cos(s.theta);
    let mg = Fx { raw: MASS_RAW }.mul(Fx { raw: GRAVITY_RAW });
    let gx = st.mul(mg).neg();
    let gy = sp.mul(ct).mul(mg);
    let gz = cp.mul(ct).mul(mg);
    let fx_b = thrust.sub(drag).add(gx);
    let fy_b = side.add(gy);
    let fz_b = lift.neg().add(gz);
    let cor_x = s.q.mul(s.w).sub(s.r.mul(s.v));
    let cor_y = s.r.mul(s.u).sub(s.p.mul(s.w));
    let cor_z = s.p.mul(s.v).sub(s.q.mul(s.u));
    let ud = fx_b.div(Fx { raw: MASS_RAW }).sub(cor_x);
    let vd = fy_b.div(Fx { raw: MASS_RAW }).sub(cor_y);
    let wd = fz_b.div(Fx { raw: MASS_RAW }).sub(cor_z);
    (ud, vd, wd)
}

/// Body-frame angular acceleration: actuator moments minus the gyroscopic
/// term, each over its principal moment of inertia (diagonal inertia
/// tensor).
pub open spec fn angular_accel_spec(s: RigidBodyState, c: RigidBodyControl) -> (Fx, Fx, Fx) {
    let qbar = dynamic_pressure_spec(s);
    let l_m = fxmul(
        qbar,
        fxmul(Fx { raw: WING_AREA_RAW }, fxmul(Fx { raw: SPAN_RAW }, fxmul(Fx { raw: C_AILERON_RAW }, c.aileron))),
    );
    let m_m = fxmul(
        qbar,
        fxmul(Fx { raw: WING_AREA_RAW }, fxmul(Fx { raw: CHORD_RAW }, fxmul(Fx { raw: C_ELEVATOR_RAW }, c.elevator))),
    );
    let n_m = fxmul(
        qbar,
        fxmul(Fx { raw: WING_AREA_RAW }, fxmul(Fx { raw: SPAN_RAW }, fxmul(Fx { raw: C_RUDDER_RAW }, c.rudder))),
    );
    let gyro_x = fxmul(fxsub(Fx { raw: INERTIA_Z_RAW }, Fx { raw: INERTIA_Y_RAW }), fxmul(s.q, s.r));
    let gyro_y = fxmul(fxsub(Fx { raw: INERTIA_X_RAW }, Fx { raw: INERTIA_Z_RAW }), fxmul(s.p, s.r));
    let gyro_z = fxmul(fxsub(Fx { raw: INERTIA_Y_RAW }, Fx { raw: INERTIA_X_RAW }), fxmul(s.p, s.q));
    let pd = fxdiv(fxsub(l_m, gyro_x), Fx { raw: INERTIA_X_RAW });
    let qd = fxdiv(fxsub(m_m, gyro_y), Fx { raw: INERTIA_Y_RAW });
    let rd = fxdiv(fxsub(n_m, gyro_z), Fx { raw: INERTIA_Z_RAW });
    (pd, qd, rd)
}

fn angular_accel(s: &RigidBodyState, c: &RigidBodyControl) -> (acc: (Fx, Fx, Fx))
    ensures
        acc == angular_accel_spec(*s, *c),
{
    let qbar = dynamic_pressure(s);
    let l_m = qbar.mul(
        Fx { raw: WING_AREA_RAW }.mul(Fx { raw: SPAN_RAW }.mul(Fx { raw: C_AILERON_RAW }.mul(c.aileron))),
    );
    let m_m = qbar.mul(
        Fx { raw: WING_AREA_RAW }.mul(Fx { raw: CHORD_RAW }.mul(Fx { raw: C_ELEVATOR_RAW }.mul(c.elevator))),
    );
    let n_m = qbar.mul(
        Fx { raw: WING_AREA_RAW }.mul(Fx { raw: SPAN_RAW }.mul(Fx { raw: C_RUDDER_RAW }.mul(c.rudder))),
    );
    let gyro_x = Fx { raw: INERTIA_Z_RAW }.sub(Fx { raw: INERTIA_Y_RAW }).mul(s.q.mul(s.r));
    let gyro_y = Fx { raw: INERTIA_X_RAW }.sub(Fx { raw: INERTIA_Z_RAW }).mul(s.p.mul(s.r));
    let gyro_z = Fx { raw: INERTIA_Y_RAW }.sub(Fx { raw: INERTIA_X_RAW }).mul(s.p.mul(s.q));
    let pd = l_m.sub(gyro_x).div(Fx { raw: INERTIA_X_RAW });
    let qd = m_m.sub(gyro_y).div(Fx { raw: INERTIA_Y_RAW });
    let rd = n_m.sub(gyro_z).div(Fx { raw: INERTIA_Z_RAW });
    (pd, qd, rd)
}

impl Differentiable<RigidBodyControl> for RigidBodyState {
    /// Position rates are the world-frame velocity; orientation rates come
    /// from the Euler kinematic transform; velocity and angular-velocity
    /// rates come from the Newton-Euler equations.
    open spec fn derivative_spec(self, control: RigidBodyControl) -> RigidBodyState {
        let wv = world_velocity_spec(self);
        let er = euler_rates_spec(self);
        let la = linear_accel_spec(self, control);
        let aa = angular_accel_spec(self, control);
        RigidBodyState {
            x: wv.0,
            y: wv.1,
            z: wv.2,
            phi: er.0,
            theta: er.1,
            psi: er.2,
            u: la.0,
            v: la.1,
            w: la.2,
            p: aa.0,
            q: aa.1,
            r: aa.2,
            tick: self.tick,
            delta_time: self.delta_time,
        }
    }

    open spec fn add_spec(self, rhs: RigidBodyState) -> RigidBodyState {
        RigidBodyState {
            x: fxadd(self.x, rhs.x),
            y: fxadd(self.y, rhs.y),
            z: fxadd(self.z, rhs.z),
            phi: fxadd(self.phi, rhs.phi),
            theta: fxadd(self.theta, rhs.theta),
            psi: fxadd(self.psi, rhs.psi),
            u: fxadd(self.u, rhs.u),
            v: fxadd(self.v, rhs.v),
            w: fxadd(self.w, rhs.w),
            p: fxadd(self.p, rhs.p),
            q: fxadd(self.q, rhs.q),
            r: fxadd(self.r, rhs.r),
            tick: self.tick,
            delta_time: self.delta_time,
        }
    }

    open spec fn scale_frac_spec(self, num: Fx, den: u64) -> RigidBodyState {
        RigidBodyState {
            x: fxmulfrac(self.x, num, den),
            y: fxmulfrac(self.y, num, den),
            z: fxmulfrac(self.z, num, den),
            phi: fxmulfrac(self.phi, num, den),
            theta: fxmulfrac(self.theta, num, den),
            psi: fxmulfrac(self.psi, num, den),
            u: fxmulfrac(self.u, num, den),
            v: fxmulfrac(self.v, num, den),
            w: fxmulfrac(self.w, num, den),
            p: fxmulfrac(self.p, num, den),
            q: fxmulfrac(self.q, num, den),
            r: fxmulfrac(self.r, num, den),
            tick: self.tick,
            delta_time: self.delta_time,
        }
    }

    fn derivative(&self, control: &RigidBodyControl) -> RigidBodyState {
        let wv = world_velocity(self);
        let er = euler_rates(self);
        let la = linear_accel(self, control);
        let aa = angular_accel(self, control);
        RigidBodyState {
            x: wv.0,
            y: wv.1,
            z: wv.2,
            phi: er.0,
            theta: er.1,
            psi: er.2,
            u: la.0,
            v: la.1,
            w: la.2,
            p: aa.0,
            q: aa.1,
            r: aa.2,
            tick: self.tick,
            delta_time: self.delta_time,
        }
    }

    fn add(self, rhs: RigidBodyState) -> RigidBodyState {
        RigidBodyState {
            x: self.x.add(rhs.x),
            y: self.y.add(rhs.y),
            z: self.z.add(rhs.z),
            phi: self.phi.add(rhs.phi),
            theta: self.theta.add(rhs.theta),
            psi: self.psi.add(rhs.psi),
            u: self.u.add(rhs.u),
            v: self.v.add(rhs.v),
            w: self.w.add(rhs.w),
            p: self.p.add(rhs.p),
            q: self.q.add(rhs.q),
            r: self.r.add(rhs.r),
            tick: self.tick,
            delta_time: self.delta_time,
        }
    }

    fn scale_frac(self, num: Fx, den: u64) -> RigidBodyState {
        RigidBodyState {
            x: self.x.mul_frac(num, den),
            y: self.y.mul_frac(num, den),
            z: self.z.mul_frac(num, den),
            phi: self.phi.mul_frac(num, den),
            theta: self.theta.mul_frac(num, den),
            psi: self.psi.mul_frac(num, den),
            u: self.u.mul_frac(num, den),
            v: self.v.mul_frac(num, den),
            w: self.w.mul_frac(num, den),
            p: self.p.mul_frac(num, den),
            q: self.q.mul_frac(num, den),
            r: self.r.mul_frac(num, den),
            tick: self.tick,
            delta_time: self.delta_time,
        }
    }
}

/// The rigid-body state after one completed tick: one integration step of
/// the state's own fixed time step, then the tick counter moves up by one.
pub open spec fn rigid_body_step_spec(s: RigidBodyState, c: RigidBodyControl) -> RigidBodyState {
    let n = rk4_next(s, c, s.delta_time);
    RigidBodyState { tick: (n.tick + 1) as i64, ..n }
}

/// The simulation driver for the rigid-body model: one state and one
/// control, both by value.
#[derive(Clone, Copy, PartialEq, Eq, Structural, Debug)]
pub struct RigidBodySimulation {
    pub state: RigidBodyState,
    pub control: RigidBodyControl,
}

impl RigidBodySimulation {
    /// One tick's integration step under the held control; the tick counter
    /// increments by exactly one.
    pub fn step(&mut self)
        requires
            old(self).state.tick < i64::MAX,
        ensures
            final(self).state == rigid_body_step_spec(old(self).state, old(self).control),
            final(self).control == old(self).control,
            final(self).state.tick == old(self).state.tick + 1,
    {
        let mut rk4 = RungeKutta4::build(self.state, self.state.delta_time);
        rk4.step(&self.control);
        self.state = rk4.integrand;
        self.state.tick = self.state.tick + 1;
    }

    /// One full tick at the controller boundary: commit the controller's
    /// latest output, then take one step under it.
    pub fn tick(&mut self, control: RigidBodyControl)
        requires
            old(self).state.tick < i64::MAX,
        ensures
            final(self).state == rigid_body_step_spec(old(self).state, control),
            final(self).control == control,
    {
        self.control = control;
        self.step();
    }
}

/// With all four actuators at zero and the body not rotating, the
/// derivative carries no attitude motion at all: the three Euler-angle
/// rates and the three angular accelerations are all exactly zero.  The
/// actuator moments vanish because every moment coefficient is a multiple
/// of its actuator input, and the gyroscopic terms vanish with the angular
/// velocity.
pub proof fn lemma_derivative_attitude_at_rest(s: RigidBodyState, c: RigidBodyControl)
    requires
        c.aileron.raw == 0,
        c.elevator.raw == 0,
        c.rudder.raw == 0,
        s.p.raw == 0,
        s.q.raw == 0,
        s.r.raw == 0,
    ensures
        s.derivative_spec(c).phi.raw == 0,
        s.derivative_spec(c).theta.raw == 0,
        s.derivative_spec(c).psi.raw == 0,
        s.derivative_spec(c).p.raw == 0,
        s.derivative_spec(c).q.raw == 0,
        s.derivative_spec(c).r.raw == 0,
{
    let sp = sin_spec(s.phi);
    let cp = cos_spec(s.phi);
    let st = sin_spec(s.theta);
    let ct = cos_spec(s.theta);
    lemma_fxmul_zero(sp);
    lemma_fxmul_zero(cp);
    let sway = fxadd(fxmul(s.q, sp), fxmul(s.r, cp));
    assert(sway.raw == 0);
    let tan_t = if ct.raw == 0 {
        Fx { raw: 0i64 }
    } else {
        fxdiv(st, ct)
    };
    lemma_fxmul_zero(tan_t);
    if ct.raw != 0 {
        lemma_fxdiv_zero(ct);
    }
    let qbar = dynamic_pressure_spec(s);
    lemma_fxmul_zero(Fx { raw: C_AILERON_RAW });
    lemma_fxmul_zero(Fx { raw: C_ELEVATOR_RAW });
    lemma_fxmul_zero(Fx { raw: C_RUDDER_RAW });
    lemma_fxmul_zero(Fx { raw: SPAN_RAW });
    lemma_fxmul_zero(Fx { raw: CHORD_RAW });
    lemma_fxmul_zero(Fx { raw: WING_AREA_RAW });
    lemma_fxmul_zero(qbar);
    lemma_fxmul_zero(Fx { raw: 0i64 });
    lemma_fxmul_zero(fxsub(Fx { raw: INERTIA_Z_RAW }, Fx { raw: INERTIA_Y_RAW }));
    lemma_fxmul_zero(fxsub(Fx { raw: INERTIA_X_RAW }, Fx { raw: INERTIA_Z_RAW }));
    lemma_fxmul_zero(fxsub(Fx { raw: INERTIA_Y_RAW }, Fx { raw: INERTIA_X_RAW }));
    lemma_fxdiv_zero(Fx { raw: INERTIA_X_RAW });
    lemma_fxdiv_zero(Fx { raw: INERTIA_Y_RAW });
    lemma_fxdiv_zero(Fx { raw: INERTIA_Z_RAW });
}

/// Straight-and-level sanity check: with zero actuator input and zero
/// initial angular velocity, a whole integration step leaves the three
/// Euler angles and the three angular-velocity components exactly
/// unchanged — every stage state keeps the same attitude and stays
/// rotation-free, so all four derivative evaluations carry zero attitude
/// rates.
pub proof fn lemma_level_flight_attitude_constant(s: RigidBodyState, c: RigidBodyControl)
    requires
        c.aileron.raw == 0,
        c.elevator.raw == 0,
        c.rudder.raw == 0,
        s.p.raw == 0,
        s.q.raw == 0,
        s.r.raw == 0,
    ensures
        rigid_body_step_spec(s, c).phi == s.phi,
        rigid_body_step_spec(s, c).theta == s.theta,
        rigid_body_step_spec(s, c).psi == s.psi,
        rigid_body_step_spec(s, c).p == s.p,
        rigid_body_step_spec(s, c).q == s.q,
        rigid_body_step_spec(s, c).r == s.r,
{
    let dt = s.delta_time;
    lemma_fxmulfrac_zero(dt, 1);
    lemma_fxmulfrac_zero(dt, 2);
    lemma_fxmulfrac_zero(dt, 6);
    lemma_fxadd_zero(s.phi);
    lemma_fxadd_zero(s.theta);
    lemma_fxadd_zero(s.psi);
    lemma_fxadd_zero(s.p);
    lemma_fxadd_zero(s.q);
    lemma_fxadd_zero(s.r);
    lemma_fxadd_zero(Fx { raw: 0i64 });
    lemma_derivative_attitude_at_rest(s, c);
    let k1 = s.derivative_spec(c);
    let s2 = s.add_spec(k1.scale_frac_spec(dt, 2));
    assert(s2.phi == s.phi && s2.theta == s.theta && s2.psi == s.psi);
    assert(s2.p.raw == 0 && s2.q.raw == 0 && s2.r.raw == 0);
    lemma_derivative_attitude_at_rest(s2, c);
    let k2 = s2.derivative_spec(c);
    let s3 = s.add_spec(k2.scale_frac_spec(dt, 2));
    assert(s3.phi == s.phi && s3.theta == s.theta && s3.psi == s.psi);
    assert(s3.p.raw == 0 && s3.q.raw == 0 && s3.r.raw == 0);
    lemma_derivative_attitude_at_rest(s3, c);
    let k3 = s3.derivative_spec(c);
    let s4 = s.add_spec(k3.scale_frac_spec(dt, 1));
    assert(s4.phi == s.phi && s4.theta == s.theta && s4.psi == s.psi);
    assert(s4.p.raw == 0 && s4.q.raw == 0 && s4.r.raw == 0);
    lemma_derivative_attitude_at_rest(s4, c);
    let k4 = s4.derivative_spec(c);
    let sum = k1.add_spec(k2).add_spec(k2).add_spec(k3).add_spec(k3).add_spec(k4);
    assert(sum.phi.raw == 0 && sum.theta.raw == 0 && sum.psi.raw == 0);
    assert(sum.p.raw == 0 && sum.q.raw == 0 && sum.r.raw == 0);
    let inc = sum.scale_frac_spec(dt, 6);
    assert(inc.phi.raw == 0 && inc.theta.raw == 0 && inc.psi.raw == 0);
    assert(inc.p.raw == 0 && inc.q.raw == 0 && inc.r.raw == 0);
}

/// The rigid-body state after `n` completed ticks when the control is
/// recomputed at the top of every tick by a pure controller function of the
/// state.
pub open spec fn rigid_body_run_ctrl_spec(
    s: RigidBodyState,
    ctrl: spec_fn(RigidBodyState) -> RigidBodyControl,
    n: nat,
) -> RigidBodyState
    decreases n,
{
    if n == 0 {
        s
    } else {
        let prev = rigid_body_run_ctrl_spec(s, ctrl, (n - 1) as nat);
        rigid_body_step_spec(prev, ctrl(prev))
    }
}

/// Determinism for the rigid-body model: two runs from identical initial
/// states under the same pure controller function produce identical state
/// sequences.
pub proof fn lemma_rigid_body_deterministic_runs(
    s1: RigidBodyState,
    s2: RigidBodyState,
    ctrl: spec_fn(RigidBodyState) -> RigidBodyControl,
    n: nat,
)
    requires
        s1 == s2,
    ensures
        rigid_body_run_ctrl_spec(s1, ctrl, n) == rigid_body_run_ctrl_spec(s2, ctrl, n),
    decreases n,
{
    if n > 0 {
        lemma_rigid_body_deterministic_runs(s1, s2, ctrl, (n - 1) as nat);
    }
}

/// Gimbal-lock guard: at a pitch of exactly a quarter turn the cosine of the
/// pitch is exactly zero, and the yaw rate of the derivative is defined to
/// be exactly zero rather than a division by zero — for every state and
/// every control input.
pub proof fn lemma_gimbal_lock_yaw_rate_zero(s: RigidBodyState, c: RigidBodyControl)
    requires
        s.theta == (Fx { raw: HALF_PI_RAW }),
    ensures
        s.derivative_spec(c).psi == (Fx { raw: 0i64 }),
{
    lemma_cos_half_pi_zero();
}

} // verus!
