//! 16.16 fixed-point scalars: the unit `ONE` stands for 1.0, and a raw value
//! `v` stands for the real number `v / 65536`. All scene geometry uses this
//! representation so that arithmetic is exact and verifiable.
//!
//! The sine here is the rational half-wave approximation
//! `16 q / (5 PI^2 - 4 q)` with `q = x (PI - x)` on `[0, PI]`, extended by
//! odd symmetry and periodicity. `PI_FX` is rounded to an even raw value so
//! that the sine is exact at 0, `HALF_PI_FX` and `PI_FX`.

use vstd::prelude::*;
use vstd::arithmetic::div_mod::{
    lemma_div_is_ordered, lemma_div_multiples_vanish, lemma_div_nonincreasing,
    lemma_div_pos_is_pos, lemma_fundamental_div_mod, lemma_fundamental_div_mod_converse,
    lemma_add_mod_noop, lemma_small_mod, lemma_mod_division_less_than_divisor, lemma_div_of0,
};

verus! {

/// The fixed-point unit: the raw integer standing for 1.0.
pub const ONE: i64 = 65536;

/// Half a turn (pi radians) in raw units, rounded to the nearest even value
/// so that a quarter turn is exact.
pub const PI_FX: i64 = 205888;

/// A quarter turn in raw units.
pub const HALF_PI_FX: i64 = 102944;

/// A full turn in raw units.
pub const TWO_PI_FX: i64 = 411776;

/// `PI_FX * PI_FX`, written out.
pub const PI_SQ: i64 = 42_389_868_544;

/// Largest magnitude a raw double-width product may have when `fx_mul` is
/// called; keeps the rescaled result inside `i64`.
pub const FX_PROD_MAX: i64 = 0x4000_0000_0000_0000;

/// Largest magnitude accepted for an angle argument.
pub const ANGLE_LIMIT: i64 = 0x1000_0000_0000_0000;

/// Largest magnitude accepted for the dividend of `fx_div`.
pub const FX_DIV_MAX: i64 = 0x2000_0000_0000;

/// Magnitude of an integer.
pub open spec fn abs_int(a: int) -> int {
    if a >= 0 {
        a
    } else {
        -a
    }
}

/// Division of a raw double-width product by the unit, rounding the
/// magnitude down (symmetric around zero).
pub open spec fn div_one(p: int) -> int {
    if p >= 0 {
        p / (ONE as int)
    } else {
        -((-p) / (ONE as int))
    }
}

/// Fixed-point multiplication: the raw product rescaled by the unit.
pub open spec fn fx_mul_spec(a: int, b: int) -> int {
    div_one(a * b)
}

/// Truncating integer division: the magnitude quotient with the usual sign.
pub open spec fn tdiv_spec(a: int, b: int) -> int {
    if (a >= 0) == (b >= 0) {
        abs_int(a) / abs_int(b)
    } else {
        -(abs_int(a) / abs_int(b))
    }
}

/// Fixed-point division: the dividend widened by the unit, then divided.
pub open spec fn fx_div_spec(a: int, b: int) -> int {
    tdiv_spec(a * (ONE as int), b)
}

/// An angle reduced to `[0, TWO_PI_FX)` (Euclidean remainder).
pub open spec fn norm_spec(a: int) -> int {
    a % (TWO_PI_FX as int)
}

/// The half-wave rational sine on `[0, PI_FX]`, in raw units.
pub open spec fn sin_half_spec(x: int) -> int {
    let q = x * ((PI_FX as int) - x);
    16 * (ONE as int) * q / (5 * (PI_SQ as int) - 4 * q)
}

/// Fixed-point sine of a raw angle.
pub open spec fn sin_spec(a: int) -> int {
    if norm_spec(a) <= PI_FX as int {
        sin_half_spec(norm_spec(a))
    } else {
        -sin_half_spec(norm_spec(a) - (PI_FX as int))
    }
}

/// Fixed-point cosine of a raw angle: the sine a quarter turn ahead.
pub open spec fn cos_spec(a: int) -> int {
    sin_spec(a + (HALF_PI_FX as int))
}

/// The product of two values bounded in magnitude is bounded by the
/// product of the bounds.
pub proof fn lemma_prod_bound(x: int, y: int, mx: int, my: int)
    by (nonlinear_arith)
    requires
        -mx <= x <= mx,
        -my <= y <= my,
        0 <= mx,
        0 <= my,
    ensures
        -(mx * my) <= x * y <= mx * my,
{
}

/// Fixed-point product of two raw values.
pub fn fx_mul(a: i64, b: i64) -> (r: i64)
    requires
        -(FX_PROD_MAX as int) <= a * b <= FX_PROD_MAX as int,
    ensures
        r == fx_mul_spec(a as int, b as int),
        abs_int(r as int) * (ONE as int) <= abs_int((a as int) * (b as int)),
{
    let p: i128 = (a as i128) * (b as i128);
    proof {
        if p >= 0 {
            lemma_fundamental_div_mod(p as int, ONE as int);
        } else {
            lemma_fundamental_div_mod(-(p as int), ONE as int);
        }
    }
    if p >= 0 {
        ((p as u128) / (ONE as u128)) as i64
    } else {
        -((((-p) as u128) / (ONE as u128)) as i64)
    }
}

/// Truncating division of raw values.
pub fn tdiv(a: i64, b: i64) -> (r: i64)
    requires
        b != 0,
        a > i64::MIN,
        b > i64::MIN,
    ensures
        r == tdiv_spec(a as int, b as int),
        abs_int(r as int) <= abs_int(a as int),
{
    let ua: u64 = if a >= 0 { a as u64 } else { (-a) as u64 };
    let ub: u64 = if b >= 0 { b as u64 } else { (-b) as u64 };
    let q: u64 = ua / ub;
    proof {
        lemma_div_pos_is_pos(ua as int, ub as int);
        lemma_div_nonincreasing(ua as int, ub as int);
    }
    if (a >= 0) == (b >= 0) {
        q as i64
    } else {
        -(q as i64)
    }
}

/// Fixed-point quotient of two raw values.
pub fn fx_div(a: i64, b: i64) -> (r: i64)
    requires
        b != 0,
        b > i64::MIN,
        -(FX_DIV_MAX as int) <= a <= FX_DIV_MAX as int,
    ensures
        r == fx_div_spec(a as int, b as int),
        abs_int(r as int) <= abs_int(a as int) * (ONE as int),
{
    let p: i128 = (a as i128) * 65536i128;
    let up: u128 = if p >= 0 { p as u128 } else { (-p) as u128 };
    let ub: u128 = if b >= 0 { b as u128 } else { ((-b) as u64) as u128 };
    let q: u128 = up / ub;
    proof {
        lemma_div_pos_is_pos(up as int, ub as int);
        lemma_div_nonincreasing(up as int, ub as int);
    }
    if (p >= 0) == (b >= 0) {
        q as i64
    } else {
        -(q as i64)
    }
}

/// An angle reduced to one turn.
pub fn norm_angle(a: i64) -> (r: i64)
    requires
        a > i64::MIN,
    ensures
        r == norm_spec(a as int),
        0 <= r < TWO_PI_FX,
{
    let n: u64 = TWO_PI_FX as u64;
    if a >= 0 {
        let r: i64 = ((a as u64) % n) as i64;
        proof {
            lemma_mod_division_less_than_divisor(a as int, TWO_PI_FX as int);
        }
        r
    } else {
        let m: i64 = (((-a) as u64) % n) as i64;
        proof {
            lemma_mod_division_less_than_divisor(-(a as int), TWO_PI_FX as int);
            lemma_fundamental_div_mod(-(a as int), TWO_PI_FX as int);
        }
        if m == 0 {
            proof {
                let q = -(a as int) / (TWO_PI_FX as int);
                lemma_fundamental_div_mod_converse(a as int, TWO_PI_FX as int, -q, 0);
            }
            0
        } else {
            proof {
                let q = -(a as int) / (TWO_PI_FX as int);
                lemma_fundamental_div_mod_converse(
                    a as int,
                    TWO_PI_FX as int,
                    -q - 1,
                    TWO_PI_FX as int - m,
                );
            }
            TWO_PI_FX - m
        }
    }
}

/// The half-wave sine on `[0, PI_FX]`.
fn sin_half(x: i64) -> (r: i64)
    requires
        0 <= x <= PI_FX,
    ensures
        r == sin_half_spec(x as int),
        0 <= r <= ONE,
{
    proof {
        assert(PI_SQ as int == (PI_FX as int) * (PI_FX as int));
        assert(0 <= (x as int) * ((PI_FX as int) - x)) by (nonlinear_arith)
            requires
                0 <= x <= PI_FX,
        ;
        assert(4 * ((x as int) * ((PI_FX as int) - x)) <= (PI_FX as int) * (PI_FX as int))
            by (nonlinear_arith)
            requires
                0 <= x <= PI_FX,
        ;
    }
    let q: i64 = x * (PI_FX - x);
    let num: i64 = 16 * ONE * q;
    let den: i64 = 5 * PI_SQ - 4 * q;
    let r: i64 = ((num as u64) / (den as u64)) as i64;
    proof {
        lemma_div_pos_is_pos(num as int, den as int);
        assert(num <= ONE * den);
        lemma_div_is_ordered(num as int, (ONE as int) * (den as int), den as int);
        assert((ONE as int) * (den as int) == (den as int) * (ONE as int));
        lemma_div_multiples_vanish(ONE as int, den as int);
    }
    r
}

/// Fixed-point sine.
pub fn fx_sin(a: i64) -> (r: i64)
    requires
        -ANGLE_LIMIT <= a <= ANGLE_LIMIT,
    ensures
        r == sin_spec(a as int),
        -ONE <= r <= ONE,
{
    let x: i64 = norm_angle(a);
    if x <= PI_FX {
        sin_half(x)
    } else {
        -sin_half(x - PI_FX)
    }
}

/// Fixed-point cosine.
pub fn fx_cos(a: i64) -> (r: i64)
    requires
        -ANGLE_LIMIT <= a <= ANGLE_LIMIT,
    ensures
        r == cos_spec(a as int),
        -ONE <= r <= ONE,
{
    let x: i64 = norm_angle(a);
    proof {
        lemma_sin_periodic_shift(a as int, x as int);
    }
    fx_sin(x + HALF_PI_FX)
}

/// Shifting an angle by a quarter turn commutes with reduction to one turn,
/// so the cosine may be taken at the reduced angle.
proof fn lemma_sin_periodic_shift(a: int, x: int)
    requires
        x == norm_spec(a),
    ensures
        sin_spec(x + (HALF_PI_FX as int)) == sin_spec(a + (HALF_PI_FX as int)),
{
    let n = TWO_PI_FX as int;
    let h = HALF_PI_FX as int;
    lemma_mod_division_less_than_divisor(a, n);
    lemma_add_mod_noop(a, h, n);
    lemma_add_mod_noop(x, h, n);
    lemma_small_mod(x as nat, n as nat);
}

/// The library's sine vanishes at angle zero.
pub proof fn lemma_sin_zero()
    ensures
        sin_spec(0) == 0,
{
    lemma_small_mod(0nat, TWO_PI_FX as nat);
    assert(norm_spec(0) == 0);
    assert(0 * ((PI_FX as int) - 0) == 0) by (nonlinear_arith);
    assert(16 * (ONE as int) * (0 * ((PI_FX as int) - 0)) == 0) by (nonlinear_arith);
    lemma_div_of0(5 * (PI_SQ as int) - 4 * (0 * ((PI_FX as int) - 0)));
    assert(sin_half_spec(0) == 0);
}

/// The library's cosine is exactly `ONE` at angle zero.
pub proof fn lemma_cos_zero()
    ensures
        cos_spec(0) == ONE,
{
    lemma_small_mod(HALF_PI_FX as nat, TWO_PI_FX as nat);
    let q = (HALF_PI_FX as int) * ((PI_FX as int) - HALF_PI_FX);
    let den = 5 * (PI_SQ as int) - 4 * q;
    assert(q == 10_597_467_136);
    assert(16 * (ONE as int) * q == (den as int) * (ONE as int));
    lemma_div_multiples_vanish(ONE as int, den);
}

} // verus!
