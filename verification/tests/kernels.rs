use simcore::fixed::{Fx, SCALE};
use simcore::trig::{atan, cos, sin, sqrt, HALF_PI_RAW, PI_RAW, TWO_PI_RAW};

#[test]
fn scalar_arithmetic_exact_values() {
    let a = Fx::from_int(3);
    let b = Fx::from_int(-2);
    assert_eq!(a.raw, 3 * SCALE);
    assert_eq!(b.raw, -2 * SCALE);
    assert_eq!(a.add(b).raw, SCALE);
    assert_eq!(a.sub(b).raw, 5 * SCALE);
    assert_eq!(a.mul(b).raw, -6 * SCALE);
    assert_eq!(a.neg().raw, -3 * SCALE);
    assert_eq!(a.div(b).raw, -(3 * SCALE / 2));
    assert_eq!(Fx::from_int(7).divn(2).raw, 7 * SCALE / 2);
}

#[test]
fn multiplication_rounds_toward_zero() {
    // 1/3 of one raw unit truncates to zero from both sides.
    let third = Fx { raw: SCALE / 3 };
    assert_eq!(third.mul(Fx { raw: 1 }).raw, 0);
    assert_eq!(third.neg().mul(Fx { raw: 1 }).raw, 0);
    // mul_frac folds the divisor into a single rounding step:
    // (1.5 * 1.5) / 2 = 1.125 exactly.
    let x = Fx { raw: SCALE + SCALE / 2 };
    assert_eq!(x.mul_frac(x, 2).raw, SCALE + SCALE / 8);
}

#[test]
fn sums_saturate_instead_of_wrapping() {
    let top = Fx { raw: i64::MAX };
    assert_eq!(top.add(Fx { raw: 1 }).raw, i64::MAX);
    let bottom = Fx { raw: i64::MIN };
    assert_eq!(bottom.sub(Fx { raw: 1 }).raw, i64::MIN);
    assert_eq!(bottom.neg().raw, i64::MAX);
    assert_eq!(Fx { raw: i64::MAX }.mul(Fx::from_int(2)).raw, i64::MAX);
}

#[test]
fn sine_and_cosine_landmarks() {
    assert_eq!(sin(Fx { raw: 0 }).raw, 0);
    assert_eq!(sin(Fx { raw: PI_RAW }).raw, 0);
    assert_eq!(cos(Fx { raw: HALF_PI_RAW }).raw, 0);
    // The degree-seven polynomial at the quarter turn: 0.999843... of one.
    assert_eq!(sin(Fx { raw: HALF_PI_RAW }).raw, 4294293423);
    assert_eq!(cos(Fx { raw: 0 }).raw, 4294293423);
    // One radian, exact kernel value; true sine is 0.8414709848.
    assert_eq!(sin(Fx { raw: SCALE }).raw, 3614078632);
    // Reduction: a full turn lands back on the same values.
    assert_eq!(
        sin(Fx { raw: SCALE + TWO_PI_RAW }).raw,
        sin(Fx { raw: SCALE }).raw
    );
    assert_eq!(
        sin(Fx { raw: SCALE - TWO_PI_RAW }).raw,
        sin(Fx { raw: SCALE }).raw
    );
    // Odd symmetry across the half turn.
    assert_eq!(
        sin(Fx { raw: PI_RAW + SCALE }).raw,
        -sin(Fx { raw: SCALE }).raw
    );
}

#[test]
fn arctangent_landmarks() {
    assert_eq!(atan(Fx { raw: 0 }).raw, 0);
    // Kernel value at slope one; true arctangent is pi/4 = 0.785398...
    assert_eq!(atan(Fx { raw: SCALE }).raw, 3352169596);
    // Odd symmetry.
    assert_eq!(atan(Fx { raw: -SCALE }).raw, -3352169596);
    // Large slopes go through the reciprocal identity and stay below a
    // quarter turn.
    let big = atan(Fx::from_int(1000));
    assert!(big.raw < HALF_PI_RAW);
    assert!(big.raw > HALF_PI_RAW - SCALE / 100);
}

#[test]
fn square_root_exact_values() {
    assert_eq!(sqrt(Fx { raw: 0 }).raw, 0);
    assert_eq!(sqrt(Fx::from_int(4)).raw, 2 * SCALE);
    assert_eq!(sqrt(Fx::from_int(144)).raw, 12 * SCALE);
    // Floor of sqrt(2) in raw units.
    assert_eq!(sqrt(Fx::from_int(2)).raw, 6074000999);
    // The defining inequality of the integer square root.
    let x = Fx::from_int(7);
    let r = sqrt(x).raw as i128;
    let v = x.raw as i128 * SCALE as i128;
    assert!(r * r <= v);
    assert!(v < (r + 1) * (r + 1));
}
