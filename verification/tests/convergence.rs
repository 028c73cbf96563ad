use simcore::fixed::{Fx, SCALE};
use simcore::oscillator::Oscillator;
use simcore::runge_kutta_four::RungeKutta4;
use simcore::simulation::Control;

fn to_f64(raw: i64) -> f64 {
    raw as f64 / SCALE as f64
}

/// Integrates the oscillator from (1, 0) to t = 1 with `steps` steps and
/// returns the absolute error against the closed form cos(t).
fn oscillator_error(steps: u32) -> f64 {
    let dt = Fx { raw: SCALE / steps as i64 };
    let mut rk4 = RungeKutta4::build(
        Oscillator { pos: Fx { raw: SCALE }, vel: Fx { raw: 0 } },
        dt,
    );
    let free = Control { force: Fx { raw: 0 } };
    for _ in 0..steps {
        rk4.step(&free);
    }
    let t = to_f64(dt.raw) * steps as f64;
    (to_f64(rk4.integrand.pos.raw) - t.cos()).abs()
}

#[test]
fn halving_the_step_divides_the_error_by_about_sixteen() {
    // Fourth-order convergence: each halving of dt shrinks the error by a
    // factor close to 2^4 until rounding noise takes over.
    let e1 = oscillator_error(4);
    let e2 = oscillator_error(8);
    let e3 = oscillator_error(16);
    assert!(e1 > e2 && e2 > e3);
    let r12 = e1 / e2;
    let r23 = e2 / e3;
    assert!(r12 > 10.0 && r12 < 22.0, "ratio {}", r12);
    assert!(r23 > 10.0 && r23 < 22.0, "ratio {}", r23);
}

#[test]
fn oscillator_quarter_steps_track_the_cosine() {
    // Absolute accuracy at the coarsest step is already a few parts in a
    // hundred thousand.
    let e1 = oscillator_error(4);
    assert!(e1 < 5e-5, "error {}", e1);
}
