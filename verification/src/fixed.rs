//! Fixed-point scalar arithmetic for the simulation core.
//!
//! Every physical quantity (position, velocity, angle, force, time step) is a
//! [`Fx`]: a signed 64-bit integer interpreted as a real number scaled by
//! [`SCALE`] (two to the thirty-second power).  Multiplication and division
//! round toward zero; sums that leave the 64-bit range saturate, the closest
//! analogue of the silently-propagating overflow the model accepts.  Each
//! operation's contract pins the result exactly, so a whole integration step
//! is a mathematical function of its inputs.

use vstd::arithmetic::div_mod::{lemma_div_denominator, lemma_div_multiples_vanish};
use vstd::prelude::*;

verus! {

/// Number of raw units per unit value: 2^32.
pub const SCALE: i64 = 4294967296;

/// Saturation of a mathematical integer to the `i64` range.
pub open spec fn sat64(x: int) -> int {
    if x > i64::MAX {
        i64::MAX as int
    } else if x < i64::MIN {
        i64::MIN as int
    } else {
        x
    }
}

/// Absolute value of a mathematical integer.
pub open spec fn iabs(x: int) -> int {
    if x >= 0 {
        x
    } else {
        -x
    }
}

/// Division rounding toward zero, the rounding used by every scalar product
/// and quotient of the core.
pub open spec fn tdiv(a: int, d: int) -> int
    recommends
        d != 0,
{
    let q = iabs(a) / iabs(d);
    if (a >= 0) == (d > 0) {
        q
    } else {
        -q
    }
}

/// A fixed-point scalar: the real number `raw / SCALE`.
#[derive(Clone, Copy, PartialEq, Eq, Structural, Debug)]
pub struct Fx {
    pub raw: i64,
}

/// Saturating addition.
pub open spec fn fxadd(a: Fx, b: Fx) -> Fx {
    Fx { raw: sat64(a.raw + b.raw) as i64 }
}

/// Saturating subtraction.
pub open spec fn fxsub(a: Fx, b: Fx) -> Fx {
    Fx { raw: sat64(a.raw - b.raw) as i64 }
}

/// Saturating negation.
pub open spec fn fxneg(a: Fx) -> Fx {
    Fx { raw: sat64(-a.raw) as i64 }
}

/// Saturating product of `a` and the fraction `k / den`, rounded toward zero
/// in a single step so the fraction loses no precision of its own.
pub open spec fn fxmulfrac(a: Fx, k: Fx, den: u64) -> Fx
    recommends
        den >= 1,
{
    Fx { raw: sat64(tdiv(a.raw * k.raw, SCALE * den)) as i64 }
}

/// Saturating product of two scalars.
pub open spec fn fxmul(a: Fx, b: Fx) -> Fx {
    fxmulfrac(a, b, 1)
}

/// Division of a scalar by a positive machine integer.
pub open spec fn fxdivn(a: Fx, den: u64) -> Fx
    recommends
        den >= 1,
{
    Fx { raw: tdiv(a.raw as int, den as int) as i64 }
}

/// Saturating quotient of two scalars.
pub open spec fn fxdiv(a: Fx, b: Fx) -> Fx
    recommends
        b.raw != 0,
{
    Fx { raw: sat64(tdiv(a.raw * SCALE, b.raw as int)) as i64 }
}

/// Clamps a 128-bit intermediate back into the `i64` range.
fn sat_from_i128(s: i128) -> (r: i64)
    ensures
        r as int == sat64(s as int),
{
    if s > i64::MAX as i128 {
        i64::MAX
    } else if s < i64::MIN as i128 {
        i64::MIN
    } else {
        s as i64
    }
}

/// Unsigned magnitude and sign of a 128-bit intermediate.  The magnitude is
/// exact even for the most negative representable inputs used here.
pub(crate) fn split_sign(p: i128) -> (r: (bool, u128))
    requires
        p > i128::MIN,
    ensures
        r.1 as int == iabs(p as int),
        r.0 == (p < 0),
{
    if p >= 0 {
        (false, p as u128)
    } else {
        (true, (-p) as u128)
    }
}

/// Rebuilds a saturated `i64` from a sign and an unsigned magnitude.
fn sat_signed(neg: bool, q: u128) -> (r: i64)
    ensures
        r as int == sat64(if neg { -(q as int) } else { q as int }),
{
    if neg {
        if q >= 9223372036854775808u128 {
            i64::MIN
        } else {
            -(q as i64)
        }
    } else {
        if q > i64::MAX as u128 {
            i64::MAX
        } else {
            q as i64
        }
    }
}

impl Fx {
    /// The scalar of a whole number, saturated to the representable range.
    pub fn from_int(n: i64) -> (r: Fx)
        ensures
            r.raw as int == sat64(n * SCALE),
    {
        proof {
            assert(-0x40000000000000000000000000i128 <= (n as int) * (SCALE as int)
                <= 0x40000000000000000000000000i128) by (nonlinear_arith)
                requires
                    -0x8000000000000000i128 <= n <= 0x7fffffffffffffffi128,
            ;
        }
        let p: i128 = n as i128 * SCALE as i128;
        Fx { raw: sat_from_i128(p) }
    }

    /// Saturating addition.
    pub fn add(self, rhs: Fx) -> (r: Fx)
        ensures
            r == fxadd(self, rhs),
    {
        let s: i128 = self.raw as i128 + rhs.raw as i128;
        Fx { raw: sat_from_i128(s) }
    }

    /// Saturating subtraction.
    pub fn sub(self, rhs: Fx) -> (r: Fx)
        ensures
            r == fxsub(self, rhs),
    {
        let s: i128 = self.raw as i128 - rhs.raw as i128;
        Fx { raw: sat_from_i128(s) }
    }

    /// Saturating negation.
    pub fn neg(self) -> (r: Fx)
        ensures
            r == fxneg(self),
    {
        let s: i128 = -(self.raw as i128);
        Fx { raw: sat_from_i128(s) }
    }

    /// Saturating product with the fraction `num / den`: the scaling
    /// operation of the integrator, with the time step as numerator and the
    /// stage divisor as denominator.
    pub fn mul_frac(self, num: Fx, den: u64) -> (r: Fx)
        requires
            den >= 1,
        ensures
            r == fxmulfrac(self, num, den),
    {
        proof {
            assert(-0x40000000000000000000000000000000i128 <= (self.raw as int) * (num.raw
                as int) <= 0x40000000000000000000000000000000i128) by (nonlinear_arith)
                requires
                    -0x8000000000000000i128 <= self.raw <= 0x7fffffffffffffffi128,
                    -0x8000000000000000i128 <= num.raw <= 0x7fffffffffffffffi128,
            ;
            assert((SCALE as int) * (den as int) >= SCALE) by (nonlinear_arith)
                requires
                    den >= 1,
            ;
            assert((SCALE as int) * (den as int) <= 0x100000000_00000000_00000000i128)
                by (nonlinear_arith)
                requires
                    den <= 0xffffffffffffffffu64,
            ;
        }
        let p: i128 = self.raw as i128 * num.raw as i128;
        let (neg, mag) = split_sign(p);
        let d: u128 = SCALE as u128 * den as u128;
        let q: u128 = mag / d;
        proof {
            assert(iabs((SCALE as int) * (den as int)) == (SCALE as int) * (den as int));
        }
        Fx { raw: sat_signed(neg, q) }
    }

    /// Saturating product of two scalars.
    pub fn mul(self, rhs: Fx) -> (r: Fx)
        ensures
            r == fxmul(self, rhs),
    {
        self.mul_frac(rhs, 1)
    }

    /// Division by a positive machine integer.
    pub fn divn(self, den: u64) -> (r: Fx)
        requires
            den >= 1,
        ensures
            r == fxdivn(self, den),
    {
        let a: i128 = self.raw as i128;
        let (neg, mag) = split_sign(a);
        let q: u128 = mag / den as u128;
        proof {
            assert(q <= mag) by {
                vstd::arithmetic::div_mod::lemma_div_is_ordered_by_denominator(
                    mag as int,
                    1,
                    den as int,
                );
            }
            assert(iabs(den as int) == den as int);
            assert(sat64(if neg { -(q as int) } else { q as int }) == tdiv(
                self.raw as int,
                den as int,
            ));
        }
        Fx { raw: sat_signed(neg, q) }
    }

    /// Saturating quotient of two scalars.
    pub fn div(self, rhs: Fx) -> (r: Fx)
        requires
            rhs.raw != 0,
        ensures
            r == fxdiv(self, rhs),
    {
        proof {
            assert(-0x4000000000000000000000000000000i128 <= (self.raw as int) * (SCALE as int)
                <= 0x4000000000000000000000000000000i128) by (nonlinear_arith)
                requires
                    -0x8000000000000000i128 <= self.raw <= 0x7fffffffffffffffi128,
            ;
        }
        let a: i128 = self.raw as i128 * SCALE as i128;
        let b: i128 = rhs.raw as i128;
        let (nega, maga) = split_sign(a);
        let (negb, magb) = split_sign(b);
        let q: u128 = maga / magb;
        let neg: bool = nega != negb;
        proof {
            assert(sat64(if neg { -(q as int) } else { q as int }) == sat64(
                tdiv((self.raw as int) * (SCALE as int), rhs.raw as int),
            ));
        }
        Fx { raw: sat_signed(neg, q) }
    }
}

/// Addition of scalars is commutative, saturation included.
pub proof fn lemma_fxadd_commutative(a: Fx, b: Fx)
    ensures
        fxadd(a, b) == fxadd(b, a),
{
}

/// Addition of scalars is associative wherever the partial sums stay in the
/// representable range, so the integrator's stage sums do not depend on
/// grouping.
pub proof fn lemma_fxadd_associative(a: Fx, b: Fx, c: Fx)
    requires
        i64::MIN <= a.raw + b.raw <= i64::MAX,
        i64::MIN <= b.raw + c.raw <= i64::MAX,
        i64::MIN <= a.raw + b.raw + c.raw <= i64::MAX,
    ensures
        fxadd(fxadd(a, b), c) == fxadd(a, fxadd(b, c)),
{
}

/// Division rounding toward zero is unchanged by scaling numerator and
/// denominator by the same positive factor.
pub proof fn lemma_tdiv_scale_cancel(n: int, a: int, d: int)
    requires
        n > 0,
        d > 0,
    ensures
        tdiv(n * a, n * d) == tdiv(a, d),
{
    assert(iabs(n * a) == n * iabs(a)) by (nonlinear_arith)
        requires
            n > 0,
    ;
    assert(iabs(n * d) == n * d) by (nonlinear_arith)
        requires
            n > 0,
            d > 0,
    ;
    assert((n * iabs(a)) / (n * d) == iabs(a) / d) by {
        lemma_div_denominator(n * iabs(a), n, d);
        lemma_div_multiples_vanish(iabs(a), n);
    }
    assert((n * a >= 0) == (a >= 0)) by (nonlinear_arith)
        requires
            n > 0,
    ;
    assert((n * d > 0) == (d > 0)) by (nonlinear_arith)
        requires
            n > 0,
    ;
}

/// Scaling the scalar zero by any fraction leaves exactly zero.
pub proof fn lemma_fxmulfrac_zero(k: Fx, den: u64)
    requires
        den >= 1,
    ensures
        fxmulfrac(Fx { raw: 0i64 }, k, den) == (Fx { raw: 0i64 }),
{
    vstd::arithmetic::mul::lemma_mul_strictly_positive(SCALE as int, den as int);
    vstd::arithmetic::div_mod::lemma_div_of0((SCALE as int) * (den as int));
    assert(iabs(0) == 0);
    assert(0int * (k.raw as int) == 0);
}

/// A product with the scalar zero is exactly zero, whatever the other factor.
pub proof fn lemma_fxmul_zero(a: Fx)
    ensures
        fxmul(a, Fx { raw: 0i64 }) == (Fx { raw: 0i64 }),
        fxmul(Fx { raw: 0i64 }, a) == (Fx { raw: 0i64 }),
{
    assert(a.raw as int * 0 == 0);
    assert(0int / (SCALE as int) == 0);
}

/// The quotient of the scalar zero by any nonzero scalar is exactly zero.
pub proof fn lemma_fxdiv_zero(b: Fx)
    requires
        b.raw != 0,
    ensures
        fxdiv(Fx { raw: 0i64 }, b) == (Fx { raw: 0i64 }),
{
    assert(0int * (SCALE as int) == 0);
    vstd::arithmetic::div_mod::lemma_div_of0(iabs(b.raw as int));
}

/// Adding the scalar zero changes nothing: saturation never fires on a value
/// already in range.
pub proof fn lemma_fxadd_zero(a: Fx)
    ensures
        fxadd(a, Fx { raw: 0i64 }) == a,
        fxadd(Fx { raw: 0i64 }, a) == a,
{
}

} // verus!
