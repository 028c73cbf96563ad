use simcore::fixed::{Fx, SCALE};
use simcore::rigid_body::{RigidBodyControl, RigidBodySimulation, RigidBodyState};
use simcore::runge_kutta_four::Differentiable;
use simcore::trig::HALF_PI_RAW;

/// Raw fixed-point value of 0.01 seconds (floor of SCALE / 100).
const DT_RAW: i64 = 42949672;

fn rb_state(
    pose: (i64, i64, i64, i64, i64, i64),
    vels: (i64, i64, i64, i64, i64, i64),
    tick: i64,
) -> RigidBodyState {
    RigidBodyState {
        x: Fx { raw: pose.0 },
        y: Fx { raw: pose.1 },
        z: Fx { raw: pose.2 },
        phi: Fx { raw: pose.3 },
        theta: Fx { raw: pose.4 },
        psi: Fx { raw: pose.5 },
        u: Fx { raw: vels.0 },
        v: Fx { raw: vels.1 },
        w: Fx { raw: vels.2 },
        p: Fx { raw: vels.3 },
        q: Fx { raw: vels.4 },
        r: Fx { raw: vels.5 },
        tick,
        delta_time: Fx { raw: DT_RAW },
    }
}

fn zero_control() -> RigidBodyControl {
    RigidBodyControl {
        aileron: Fx { raw: 0 },
        elevator: Fx { raw: 0 },
        rudder: Fx { raw: 0 },
        throttle: Fx { raw: 0 },
    }
}

#[test]
fn level_flight_keeps_attitude_constant() {
    // Zero actuator input and zero initial angular velocity: over three full
    // steps the Euler angles and angular rates stay bitwise constant while
    // the body still translates and accelerates under gravity and drag.
    let s = rb_state(
        (0, 0, -100 * SCALE, 214748364, 429496729, 858993459),
        (30 * SCALE, 0, 2 * SCALE, 0, 0, 0),
        5,
    );
    let mut sim = RigidBodySimulation { state: s, control: zero_control() };
    for _ in 0..3 {
        sim.step();
    }
    assert_eq!(sim.state.phi.raw, 214748364);
    assert_eq!(sim.state.theta.raw, 429496729);
    assert_eq!(sim.state.psi.raw, 858993459);
    assert_eq!(sim.state.p.raw, 0);
    assert_eq!(sim.state.q.raw, 0);
    assert_eq!(sim.state.r.raw, 0);
    assert_eq!(sim.state.tick, 8);
    // The translational state did move: this is flight, not a frozen state.
    assert_eq!(sim.state.u.raw, 128495692695);
    assert_eq!(sim.state.v.raw, 62853003);
    assert_eq!(sim.state.w.raw, 6374335200);
}

#[test]
fn gimbal_lock_yaw_rate_is_zero() {
    // Pitch at exactly a quarter turn: the yaw rate of the derivative is
    // exactly zero instead of a division fault, even with every angular
    // rate nonzero.
    let s = rb_state(
        (0, 0, 0, 214748364, HALF_PI_RAW, 429496729),
        (30 * SCALE, SCALE, 2 * SCALE, SCALE / 10, SCALE / 20, SCALE / 30),
        0,
    );
    let d = s.derivative(&zero_control());
    assert_eq!(d.psi.raw, 0);
}

#[test]
fn gimbal_lock_step_completes() {
    // A whole integration step from exact gimbal lock completes and yields
    // finite values: the saturation policy, not a fault.
    let s = rb_state(
        (0, 0, 0, 0, HALF_PI_RAW, 0),
        (10 * SCALE, 0, 0, 0, SCALE / 10, 0),
        0,
    );
    let mut sim = RigidBodySimulation { state: s, control: zero_control() };
    sim.step();
    assert_eq!(sim.state.tick, 1);
}

#[test]
fn actuated_step_matches_model() {
    // One step from straight flight with all four actuators deflected: the
    // exact state the five-stage model prescribes.
    let s = rb_state((0, 0, 0, 0, 0, 0), (20 * SCALE, 0, 0, 0, 0, 0), 0);
    let c = RigidBodyControl {
        aileron: Fx { raw: SCALE / 10 },
        elevator: Fx { raw: SCALE / 5 },
        rudder: Fx { raw: -(SCALE / 10) },
        throttle: Fx { raw: SCALE / 2 },
    };
    let mut sim = RigidBodySimulation { state: s, control: c };
    sim.step();
    assert_eq!(sim.state.x.raw, 859144401);
    assert_eq!(sim.state.y.raw, -105247);
    assert_eq!(sim.state.z.raw, 1031417);
    assert_eq!(sim.state.phi.raw, 421180);
    assert_eq!(sim.state.theta.raw, 131601);
    assert_eq!(sim.state.psi.raw, -126349);
    assert_eq!(sim.state.u.raw, 85983409218);
    assert_eq!(sim.state.v.raw, -18509865);
    assert_eq!(sim.state.w.raw, 206802033);
    assert_eq!(sim.state.p.raw, 84264243);
    assert_eq!(sim.state.q.raw, 26331255);
    assert_eq!(sim.state.r.raw, -25279883);
    assert_eq!(sim.state.tick, 1);
}

#[test]
fn angle_of_attack_zero_forward_velocity_is_guarded() {
    // The forward body velocity is exactly zero: the angle of attack falls
    // back to zero and the derivative still evaluates.
    let s = rb_state((0, 0, 0, 0, 0, 0), (0, 0, 5 * SCALE, 0, 0, 0), 0);
    let d = s.derivative(&zero_control());
    // With zero angle of attack the lift coefficient is exactly CL0, so the
    // same state with w = 0 gives the same pitch-plane force balance.
    let s2 = rb_state((0, 0, 0, 0, 0, 0), (0, 0, 5 * SCALE, 0, 0, 0), 3);
    let d2 = s2.derivative(&zero_control());
    assert_eq!(d.u.raw, d2.u.raw);
    assert_eq!(d.w.raw, d2.w.raw);
    assert_eq!(d.tick, 0);
    assert_eq!(d2.tick, 3);
}

fn damping_controller(state: &RigidBodyState) -> RigidBodyControl {
    // A pure rate-damping control law.
    let gain = Fx { raw: -(SCALE / 4) };
    RigidBodyControl {
        aileron: state.p.mul(gain),
        elevator: state.q.mul(gain),
        rudder: state.r.mul(gain),
        throttle: Fx { raw: SCALE / 2 },
    }
}

#[test]
fn rigid_body_runs_are_bitwise_identical() {
    // Determinism holds for the full flight model as well: two runs under
    // the same pure controller never diverge by a single bit.
    let s = rb_state(
        (0, 0, -50 * SCALE, SCALE / 50, SCALE / 40, 0),
        (25 * SCALE, 0, SCALE, SCALE / 100, 0, SCALE / 200),
        0,
    );
    let mut a = RigidBodySimulation { state: s, control: zero_control() };
    let mut b = RigidBodySimulation { state: s, control: zero_control() };
    for _ in 0..20 {
        let ca = damping_controller(&a.state);
        let cb = damping_controller(&b.state);
        a.tick(ca);
        b.tick(cb);
        assert!(a.state == b.state);
        assert!(a.control == b.control);
    }
}
