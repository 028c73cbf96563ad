//! Trigonometric and square-root kernels on the fixed-point scalar.
//!
//! The flight model needs a sine, cosine, arctangent and square root.  Each
//! is a deterministic fixed-point approximation whose contract pins the exact
//! value computed: sine reduces its argument to a quarter turn and evaluates
//! a degree-seven polynomial, cosine is the sine a quarter turn ahead (so the
//! cosine of [`HALF_PI_RAW`] is exactly zero, which the gimbal-lock guard of
//! the rigid-body model relies on), arctangent is a rational approximation,
//! and the square root is the exact integer square root of the scaled value.

use crate::fixed::{
    fxadd, fxdiv, fxdivn, fxmul, fxneg, fxsub, iabs, split_sign, tdiv, Fx, SCALE,
};
use vstd::arithmetic::div_mod::{
    lemma_fundamental_div_mod, lemma_fundamental_div_mod_converse_mod, lemma_multiply_divide_lt,
};
use vstd::prelude::*;

verus! {

/// A quarter turn: the floor of pi/2 times `SCALE`.
pub const HALF_PI_RAW: i64 = 6746518852;

/// Half a turn, exactly twice the quarter turn.
pub const PI_RAW: i64 = 2 * HALF_PI_RAW;

/// A full turn, exactly four quarter turns.
pub const TWO_PI_RAW: i64 = 4 * HALF_PI_RAW;

/// Coefficient 9/32 of the arctangent approximation.
pub const ATAN_C_RAW: i64 = 1207959552;

/// Degree-seven sine polynomial for arguments within a quarter turn:
/// `t - t^3/6 + t^5/120 - t^7/5040`.
pub open spec fn sinp_spec(t: Fx) -> Fx {
    let t2 = fxmul(t, t);
    let t3 = fxmul(t2, t);
    let t5 = fxmul(t3, t2);
    let t7 = fxmul(t5, t2);
    fxsub(fxadd(fxsub(t, fxdivn(t3, 6)), fxdivn(t5, 120)), fxdivn(t7, 5040))
}

fn sinp(t: Fx) -> (r: Fx)
    ensures
        r == sinp_spec(t),
{
    let t2 = t.mul(t);
    let t3 = t2.mul(t);
    let t5 = t3.mul(t2);
    let t7 = t5.mul(t2);
    t.sub(t3.divn(6)).add(t5.divn(120)).sub(t7.divn(5040))
}

/// The angle reduced to one turn: the Euclidean remainder of the raw value by
/// `TWO_PI_RAW`, always in `[0, TWO_PI_RAW)`.
pub open spec fn reduced(x: Fx) -> int {
    (x.raw as int) % (TWO_PI_RAW as int)
}

fn reduce(x: Fx) -> (r: i64)
    ensures
        r as int == reduced(x),
        0 <= r < TWO_PI_RAW,
{
    let v: i128 = x.raw as i128;
    let (neg, mag) = split_sign(v);
    let rem: u128 = mag % (TWO_PI_RAW as u128);
    proof {
        let m = TWO_PI_RAW as int;
        lemma_fundamental_div_mod(mag as int, m);
        if neg {
            let qm = (mag as int) / m;
            if rem == 0 {
                lemma_fundamental_div_mod_converse_mod(x.raw as int, m, -qm, 0);
            } else {
                assert(x.raw as int == (-qm - 1) * m + (m - rem));
                lemma_fundamental_div_mod_converse_mod(x.raw as int, m, -qm - 1, m - rem);
            }
        }
    }
    if neg {
        if rem == 0 {
            0
        } else {
            (TWO_PI_RAW as u128 - rem) as i64
        }
    } else {
        rem as i64
    }
}

/// Sine of an arbitrary angle: the argument is reduced to one turn, split
/// into a quadrant and a residue, and the quadrant selects sign and
/// reflection of the quarter-turn polynomial.
pub open spec fn sin_spec(x: Fx) -> Fx {
    let r = reduced(x);
    let q = r / (HALF_PI_RAW as int);
    let t = Fx { raw: (r % (HALF_PI_RAW as int)) as i64 };
    if q == 0 {
        sinp_spec(t)
    } else if q == 1 {
        sinp_spec(Fx { raw: (HALF_PI_RAW - t.raw) as i64 })
    } else if q == 2 {
        fxneg(sinp_spec(t))
    } else {
        fxneg(sinp_spec(Fx { raw: (HALF_PI_RAW - t.raw) as i64 }))
    }
}

pub fn sin(x: Fx) -> (r: Fx)
    ensures
        r == sin_spec(x),
{
    let red: u64 = reduce(x) as u64;
    let q: u64 = red / (HALF_PI_RAW as u64);
    let t: u64 = red % (HALF_PI_RAW as u64);
    proof {
        lemma_multiply_divide_lt(red as int, HALF_PI_RAW as int, 4);
        lemma_fundamental_div_mod(red as int, HALF_PI_RAW as int);
    }
    let tf = Fx { raw: t as i64 };
    if q == 0 {
        sinp(tf)
    } else if q == 1 {
        sinp(Fx { raw: HALF_PI_RAW - tf.raw })
    } else if q == 2 {
        sinp(tf).neg()
    } else {
        sinp(Fx { raw: HALF_PI_RAW - tf.raw }).neg()
    }
}

/// Cosine as the sine a quarter turn ahead of the reduced angle.
pub open spec fn cos_spec(x: Fx) -> Fx {
    sin_spec(Fx { raw: (reduced(x) + HALF_PI_RAW) as i64 })
}

pub fn cos(x: Fx) -> (r: Fx)
    ensures
        r == cos_spec(x),
{
    let red: i64 = reduce(x);
    sin(Fx { raw: red + HALF_PI_RAW })
}

/// Rational arctangent kernel `z / (1 + (9/32) z^2)`, adequate within one
/// unit of slope.  The denominator is at least one, so the quotient is
/// always defined.
pub open spec fn atanp_spec(z: Fx) -> Fx {
    fxdiv(z, fxadd(Fx { raw: SCALE }, fxmul(fxmul(z, z), Fx { raw: ATAN_C_RAW })))
}

/// The raw value of a product of scalars with non-negative raw values is
/// non-negative.
pub proof fn lemma_fxmul_nonneg(a: Fx, b: Fx)
    requires
        a.raw >= 0,
        b.raw >= 0,
    ensures
        fxmul(a, b).raw >= 0,
{
    vstd::arithmetic::mul::lemma_mul_nonnegative(a.raw as int, b.raw as int);
    assert(iabs((a.raw as int) * (b.raw as int)) == (a.raw as int) * (b.raw as int));
}

/// The square of any scalar has a non-negative raw value.
pub proof fn lemma_fxmul_square_nonneg(z: Fx)
    ensures
        fxmul(z, z).raw >= 0,
{
    if z.raw >= 0 {
        lemma_fxmul_nonneg(z, z);
    } else {
        assert((z.raw as int) * (z.raw as int) >= 0) by (nonlinear_arith);
        assert(iabs((z.raw as int) * (z.raw as int)) == (z.raw as int) * (z.raw as int));
    }
}

fn atanp(z: Fx) -> (r: Fx)
    ensures
        r == atanp_spec(z),
{
    let z2 = z.mul(z);
    let den = Fx { raw: SCALE }.add(z2.mul(Fx { raw: ATAN_C_RAW }));
    proof {
        lemma_fxmul_square_nonneg(z);
        lemma_fxmul_nonneg(z2, Fx { raw: ATAN_C_RAW });
        assert(den.raw > 0);
    }
    z.div(den)
}

/// Arctangent of a slope.  Within one unit of slope the kernel is applied
/// directly; outside, the identity `atan(z) = sign(z) * pi/2 - atan(1/z)`
/// brings the argument back into the kernel's range.
pub open spec fn atan_spec(z: Fx) -> Fx {
    if -SCALE <= z.raw && z.raw <= SCALE {
        atanp_spec(z)
    } else if z.raw > 0 {
        fxsub(Fx { raw: HALF_PI_RAW }, atanp_spec(fxdiv(Fx { raw: SCALE }, z)))
    } else {
        fxsub(Fx { raw: (-HALF_PI_RAW) as i64 }, atanp_spec(fxdiv(Fx { raw: SCALE }, z)))
    }
}

pub fn atan(z: Fx) -> (r: Fx)
    ensures
        r == atan_spec(z),
{
    if -SCALE <= z.raw && z.raw <= SCALE {
        atanp(z)
    } else {
        let inv = Fx { raw: SCALE }.div(z);
        let a = atanp(inv);
        if z.raw > 0 {
            Fx { raw: HALF_PI_RAW }.sub(a)
        } else {
            Fx { raw: -HALF_PI_RAW }.sub(a)
        }
    }
}

/// What it means for `r` to be the integer square root of `v`.
pub open spec fn is_sqrt(v: int, r: int) -> bool {
    r >= 0 && r * r <= v && v < (r + 1) * (r + 1)
}

/// The integer square root itself, defined as the unique value that
/// `is_sqrt` admits.
pub open spec fn sqrt_raw(v: int) -> int {
    choose|r: int| is_sqrt(v, r)
}

/// Square root of a non-negative scalar: the integer square root of the raw
/// value re-scaled so the result is again a scalar.
pub open spec fn fxsqrt(x: Fx) -> Fx {
    Fx { raw: sqrt_raw(x.raw * SCALE) as i64 }
}

/// At most one integer satisfies `is_sqrt` for a given radicand.
pub proof fn lemma_sqrt_unique(v: int, r1: int, r2: int)
    requires
        is_sqrt(v, r1),
        is_sqrt(v, r2),
    ensures
        r1 == r2,
{
    assert(r1 == r2) by (nonlinear_arith)
        requires
            r1 >= 0,
            r2 >= 0,
            r1 * r1 <= v,
            v < (r1 + 1) * (r1 + 1),
            r2 * r2 <= v,
            v < (r2 + 1) * (r2 + 1),
    ;
}

pub fn sqrt(x: Fx) -> (r: Fx)
    requires
        x.raw >= 0,
    ensures
        r == fxsqrt(x),
        r.raw >= 0,
        is_sqrt(x.raw * SCALE, r.raw as int),
{
    let v: u128 = x.raw as u128 * SCALE as u128;
    let mut lo: u128 = 0;
    let mut hi: u128 = 281474976710656;
    proof {
        assert((x.raw as int) * (SCALE as int) < 281474976710656i128 * 281474976710656i128)
            by (nonlinear_arith)
            requires
                0 <= x.raw <= 0x7fffffffffffffffi64,
        ;
    }
    while lo + 1 < hi
        invariant
            v == (x.raw as int) * (SCALE as int),
            lo < hi <= 281474976710656,
            (lo as int) * (lo as int) <= v as int,
            (v as int) < (hi as int) * (hi as int),
        decreases hi - lo,
    {
        let mid: u128 = lo + (hi - lo) / 2;
        proof {
            assert((mid as int) * (mid as int) <= 281474976710656i128 * 281474976710656i128)
                by (nonlinear_arith)
                requires
                    0 <= mid <= 281474976710656u128,
            ;
        }
        if mid * mid <= v {
            lo = mid;
        } else {
            hi = mid;
        }
    }
    proof {
        assert(is_sqrt(v as int, lo as int));
        let w = sqrt_raw((x.raw as int) * (SCALE as int));
        assert(is_sqrt(v as int, w)) by {
            assert(exists|r: int| #[trigger] is_sqrt((x.raw as int) * (SCALE as int), r));
        }
        lemma_sqrt_unique(v as int, lo as int, w);
    }
    Fx { raw: lo as i64 }
}

/// The quarter-turn polynomial vanishes at zero: every term carries a factor
/// of the argument.
pub proof fn lemma_sinp_zero()
    ensures
        sinp_spec(Fx { raw: 0i64 }) == (Fx { raw: 0i64 }),
{
    crate::fixed::lemma_fxmul_zero(Fx { raw: 0i64 });
    assert(tdiv(0, 6) == 0);
    assert(tdiv(0, 120) == 0);
    assert(tdiv(0, 5040) == 0);
}

/// The cosine of the quarter turn is exactly zero: the reduced argument
/// lands on the half-turn boundary, whose residue is zero.
pub proof fn lemma_cos_half_pi_zero()
    ensures
        cos_spec(Fx { raw: HALF_PI_RAW }) == (Fx { raw: 0i64 }),
{
    let h = HALF_PI_RAW as int;
    vstd::arithmetic::div_mod::lemma_small_mod(HALF_PI_RAW as nat, TWO_PI_RAW as nat);
    assert(reduced(Fx { raw: HALF_PI_RAW }) == h);
    let s = Fx { raw: (h + HALF_PI_RAW) as i64 };
    assert(s.raw == PI_RAW);
    vstd::arithmetic::div_mod::lemma_small_mod(PI_RAW as nat, TWO_PI_RAW as nat);
    assert(reduced(s) == 2 * h);
    lemma_fundamental_div_mod_converse_mod(2 * h, h, 2, 0);
    vstd::arithmetic::div_mod::lemma_fundamental_div_mod_converse_div(2 * h, h, 2, 0);
    lemma_sinp_zero();
    assert(sin_spec(s) == fxneg(sinp_spec(Fx { raw: 0i64 })));
}

} // verus!
