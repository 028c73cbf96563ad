use simcore::fixed::{Fx, SCALE};
use simcore::simulation::{Control, Simulation, State};

/// Raw fixed-point value of 0.01 seconds (floor of SCALE / 100).
const DT_RAW: i64 = 42949672;

fn pm_sim(position: i64, velocity: i64, tick: i64, force: i64) -> Simulation {
    Simulation {
        state: State {
            position: Fx { raw: position },
            velocity: Fx { raw: velocity },
            tick,
            delta_time: Fx { raw: DT_RAW },
        },
        control: Control { force: Fx { raw: force } },
    }
}

#[test]
fn zero_control_is_constant_velocity() {
    // Point mass at 70 units moving at 3 units/s under zero force: after ten
    // ticks the position has advanced by exactly ten times (velocity * dt)
    // and the velocity is untouched.
    let mut sim = pm_sim(70 * SCALE, 3 * SCALE, 0, 0);
    let inc: i64 = ((3 * SCALE as i128 * DT_RAW as i128) >> 32) as i64;
    assert_eq!(inc, 128849016);
    for _ in 0..10 {
        sim.step();
    }
    assert_eq!(sim.state.position.raw, 70 * SCALE + 10 * inc);
    assert_eq!(sim.state.position.raw, 301936200880);
    assert_eq!(sim.state.velocity.raw, 3 * SCALE);
    assert_eq!(sim.state.tick, 10);
    assert_eq!(sim.state.delta_time.raw, DT_RAW);
}

#[test]
fn constant_force_accelerates_uniformly() {
    // Unit mass under a constant force of 2 units: each tick adds exactly
    // (force * dt) to the velocity, the discrete analogue of v = F * t.
    let mut sim = pm_sim(0, 0, 7, 2 * SCALE);
    let vel_inc: i64 = ((2 * SCALE as i128 * DT_RAW as i128) >> 32) as i64;
    assert_eq!(vel_inc, 85899344);
    for _ in 0..5 {
        sim.step();
    }
    assert_eq!(sim.state.velocity.raw, 5 * vel_inc);
    assert_eq!(sim.state.velocity.raw, 429496720);
    assert_eq!(sim.state.position.raw, 10737415);
    assert_eq!(sim.state.tick, 12);
}

#[test]
fn tick_increments_by_one_per_step() {
    // The counter starts from whatever value was supplied and moves up by
    // exactly one per completed step.
    let mut sim = pm_sim(SCALE, -SCALE, 41, 3 * SCALE);
    sim.step();
    assert_eq!(sim.state.tick, 42);
    sim.step();
    sim.step();
    assert_eq!(sim.state.tick, 44);
}

fn spring_controller(state: &State) -> Control {
    // A pure function of the state: a restoring force of -0.5 * position.
    let half = Fx { raw: -(SCALE / 2) };
    Control { force: state.position.mul(half) }
}

#[test]
fn identical_runs_are_bitwise_identical() {
    // Two independent simulations from the same initial state, driven by the
    // same pure controller, agree bitwise at every tick.
    let mut a = pm_sim(5 * SCALE, -2 * SCALE, 0, 0);
    let mut b = pm_sim(5 * SCALE, -2 * SCALE, 0, 0);
    for _ in 0..30 {
        let ca = spring_controller(&a.state);
        let cb = spring_controller(&b.state);
        a.tick(ca);
        b.tick(cb);
        assert_eq!(a.state.position.raw, b.state.position.raw);
        assert_eq!(a.state.velocity.raw, b.state.velocity.raw);
        assert_eq!(a.state.tick, b.state.tick);
        assert_eq!(a.control.force.raw, b.control.force.raw);
    }
}

#[test]
fn default_simulation_is_at_rest() {
    // The default pair is all zeros; overriding position and step, as a
    // driver would, leaves the rest at rest.
    let sim = Simulation::default();
    assert_eq!(sim.state.position.raw, 0);
    assert_eq!(sim.state.velocity.raw, 0);
    assert_eq!(sim.state.tick, 0);
    assert_eq!(sim.state.delta_time.raw, 0);
    assert_eq!(sim.control.force.raw, 0);
    let started = Simulation {
        state: State {
            position: Fx::from_int(70),
            delta_time: Fx { raw: DT_RAW },
            ..State::default()
        },
        ..Simulation::default()
    };
    assert_eq!(started.state.position.raw, 70 * SCALE);
    assert_eq!(started.state.velocity.raw, 0);
}

#[test]
fn tick_commits_the_control_before_stepping() {
    // `tick` overwrites the held control with the controller's latest output
    // and only then steps: the committed force is what accelerates.
    let mut sim = pm_sim(0, 0, 0, 0);
    sim.tick(Control { force: Fx { raw: 2 * SCALE } });
    assert_eq!(sim.control.force.raw, 2 * SCALE);
    assert_eq!(sim.state.velocity.raw, 85899344);
}
