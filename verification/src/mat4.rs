//! 4x4 fixed-point matrices, row-major, and the 3-vectors they act on.
//!
//! Matrices carry raw 16.16 values; the product of two matrices rescales
//! each entry by the unit, so a matrix of real values corresponds directly
//! to a matrix of raw values. Every executable product is range-checked
//! against `MAT_MAX`, so no arithmetic here can overflow.

use vstd::prelude::*;
use vstd::arithmetic::div_mod::lemma_div_multiples_vanish;
use crate::fixed::{ONE, ANGLE_LIMIT, div_one, sin_spec, cos_spec, fx_sin, fx_cos};

verus! {

/// Largest magnitude a matrix entry may have.
pub const MAT_MAX: i64 = 0x4000_0000_0000_0000;

/// A 3-vector of raw fixed-point values.
#[derive(Clone, Copy, PartialEq, Eq, Structural, Debug)]
pub struct Vec3 {
    pub x: i64,
    pub y: i64,
    pub z: i64,
}

impl Vec3 {
    /// A vector from its three raw components.
    pub fn new(x: i64, y: i64, z: i64) -> (v: Vec3)
        ensures
            v == (Vec3 { x, y, z }),
    {
        Vec3 { x, y, z }
    }

    /// The zero vector.
    pub fn zero() -> (v: Vec3)
        ensures
            v == (Vec3 { x: 0, y: 0, z: 0 }),
    {
        Vec3 { x: 0, y: 0, z: 0 }
    }
}

/// All three components within `b` in magnitude.
pub open spec fn v3_bounded(v: Vec3, b: int) -> bool {
    &&& -b <= v.x <= b
    &&& -b <= v.y <= b
    &&& -b <= v.z <= b
}

/// A 4x4 matrix of raw fixed-point values; `mRC` is row `R`, column `C`.
#[derive(Clone, Copy, PartialEq, Eq, Structural, Debug)]
pub struct Mat4 {
    pub m00: i64, pub m01: i64, pub m02: i64, pub m03: i64,
    pub m10: i64, pub m11: i64, pub m12: i64, pub m13: i64,
    pub m20: i64, pub m21: i64, pub m22: i64, pub m23: i64,
    pub m30: i64, pub m31: i64, pub m32: i64, pub m33: i64,
}

/// The unbounded integer image of a matrix; all specifications speak of it.
pub ghost struct Mat4i {
    pub m00: int, pub m01: int, pub m02: int, pub m03: int,
    pub m10: int, pub m11: int, pub m12: int, pub m13: int,
    pub m20: int, pub m21: int, pub m22: int, pub m23: int,
    pub m30: int, pub m31: int, pub m32: int, pub m33: int,
}

impl View for Mat4 {
    type V = Mat4i;

    open spec fn view(&self) -> Mat4i {
        Mat4i {
            m00: self.m00 as int, m01: self.m01 as int, m02: self.m02 as int, m03: self.m03 as int,
            m10: self.m10 as int, m11: self.m11 as int, m12: self.m12 as int, m13: self.m13 as int,
            m20: self.m20 as int, m21: self.m21 as int, m22: self.m22 as int, m23: self.m23 as int,
            m30: self.m30 as int, m31: self.m31 as int, m32: self.m32 as int, m33: self.m33 as int,
        }
    }
}

/// Every entry within `MAT_MAX` in magnitude.
pub open spec fn m_bounded(m: Mat4i) -> bool {
    &&& -(MAT_MAX as int) <= m.m00 <= MAT_MAX as int
    &&& -(MAT_MAX as int) <= m.m01 <= MAT_MAX as int
    &&& -(MAT_MAX as int) <= m.m02 <= MAT_MAX as int
    &&& -(MAT_MAX as int) <= m.m03 <= MAT_MAX as int
    &&& -(MAT_MAX as int) <= m.m10 <= MAT_MAX as int
    &&& -(MAT_MAX as int) <= m.m11 <= MAT_MAX as int
    &&& -(MAT_MAX as int) <= m.m12 <= MAT_MAX as int
    &&& -(MAT_MAX as int) <= m.m13 <= MAT_MAX as int
    &&& -(MAT_MAX as int) <= m.m20 <= MAT_MAX as int
    &&& -(MAT_MAX as int) <= m.m21 <= MAT_MAX as int
    &&& -(MAT_MAX as int) <= m.m22 <= MAT_MAX as int
    &&& -(MAT_MAX as int) <= m.m23 <= MAT_MAX as int
    &&& -(MAT_MAX as int) <= m.m30 <= MAT_MAX as int
    &&& -(MAT_MAX as int) <= m.m31 <= MAT_MAX as int
    &&& -(MAT_MAX as int) <= m.m32 <= MAT_MAX as int
    &&& -(MAT_MAX as int) <= m.m33 <= MAT_MAX as int
}

/// One rescaled inner product: an entry of a matrix product.
pub open spec fn dot_spec(
    a0: int, a1: int, a2: int, a3: int,
    b0: int, b1: int, b2: int, b3: int,
) -> int {
    div_one(a0 * b0 + a1 * b1 + a2 * b2 + a3 * b3)
}

/// The fixed-point matrix product.
pub open spec fn mul_spec(a: Mat4i, b: Mat4i) -> Mat4i {
    Mat4i {
        m00: dot_spec(a.m00, a.m01, a.m02, a.m03, b.m00, b.m10, b.m20, b.m30),
        m01: dot_spec(a.m00, a.m01, a.m02, a.m03, b.m01, b.m11, b.m21, b.m31),
        m02: dot_spec(a.m00, a.m01, a.m02, a.m03, b.m02, b.m12, b.m22, b.m32),
        m03: dot_spec(a.m00, a.m01, a.m02, a.m03, b.m03, b.m13, b.m23, b.m33),
        m10: dot_spec(a.m10, a.m11, a.m12, a.m13, b.m00, b.m10, b.m20, b.m30),
        m11: dot_spec(a.m10, a.m11, a.m12, a.m13, b.m01, b.m11, b.m21, b.m31),
        m12: dot_spec(a.m10, a.m11, a.m12, a.m13, b.m02, b.m12, b.m22, b.m32),
        m13: dot_spec(a.m10, a.m11, a.m12, a.m13, b.m03, b.m13, b.m23, b.m33),
        m20: dot_spec(a.m20, a.m21, a.m22, a.m23, b.m00, b.m10, b.m20, b.m30),
        m21: dot_spec(a.m20, a.m21, a.m22, a.m23, b.m01, b.m11, b.m21, b.m31),
        m22: dot_spec(a.m20, a.m21, a.m22, a.m23, b.m02, b.m12, b.m22, b.m32),
        m23: dot_spec(a.m20, a.m21, a.m22, a.m23, b.m03, b.m13, b.m23, b.m33),
        m30: dot_spec(a.m30, a.m31, a.m32, a.m33, b.m00, b.m10, b.m20, b.m30),
        m31: dot_spec(a.m30, a.m31, a.m32, a.m33, b.m01, b.m11, b.m21, b.m31),
        m32: dot_spec(a.m30, a.m31, a.m32, a.m33, b.m02, b.m12, b.m22, b.m32),
        m33: dot_spec(a.m30, a.m31, a.m32, a.m33, b.m03, b.m13, b.m23, b.m33),
    }
}

/// The identity matrix.
pub open spec fn ident_spec() -> Mat4i {
    Mat4i {
        m00: ONE as int, m01: 0, m02: 0, m03: 0,
        m10: 0, m11: ONE as int, m12: 0, m13: 0,
        m20: 0, m21: 0, m22: ONE as int, m23: 0,
        m30: 0, m31: 0, m32: 0, m33: ONE as int,
    }
}

/// A translation by `(x, y, z)`.
pub open spec fn translation_spec(x: int, y: int, z: int) -> Mat4i {
    Mat4i {
        m00: ONE as int, m01: 0, m02: 0, m03: x,
        m10: 0, m11: ONE as int, m12: 0, m13: y,
        m20: 0, m21: 0, m22: ONE as int, m23: z,
        m30: 0, m31: 0, m32: 0, m33: ONE as int,
    }
}

/// A non-uniform scaling by `(x, y, z)`.
pub open spec fn scaling_spec(x: int, y: int, z: int) -> Mat4i {
    Mat4i {
        m00: x, m01: 0, m02: 0, m03: 0,
        m10: 0, m11: y, m12: 0, m13: 0,
        m20: 0, m21: 0, m22: z, m23: 0,
        m30: 0, m31: 0, m32: 0, m33: ONE as int,
    }
}

/// A rotation about the x axis by a raw angle.
pub open spec fn rotation_x_spec(a: int) -> Mat4i {
    Mat4i {
        m00: ONE as int, m01: 0, m02: 0, m03: 0,
        m10: 0, m11: cos_spec(a), m12: -sin_spec(a), m13: 0,
        m20: 0, m21: sin_spec(a), m22: cos_spec(a), m23: 0,
        m30: 0, m31: 0, m32: 0, m33: ONE as int,
    }
}

/// A rotation about the y axis by a raw angle.
pub open spec fn rotation_y_spec(a: int) -> Mat4i {
    Mat4i {
        m00: cos_spec(a), m01: 0, m02: sin_spec(a), m03: 0,
        m10: 0, m11: ONE as int, m12: 0, m13: 0,
        m20: -sin_spec(a), m21: 0, m22: cos_spec(a), m23: 0,
        m30: 0, m31: 0, m32: 0, m33: ONE as int,
    }
}

/// A rotation about the z axis by a raw angle.
pub open spec fn rotation_z_spec(a: int) -> Mat4i {
    Mat4i {
        m00: cos_spec(a), m01: -sin_spec(a), m02: 0, m03: 0,
        m10: sin_spec(a), m11: cos_spec(a), m12: 0, m13: 0,
        m20: 0, m21: 0, m22: ONE as int, m23: 0,
        m30: 0, m31: 0, m32: 0, m33: ONE as int,
    }
}

impl Mat4 {
    /// The identity matrix.
    pub fn identity() -> (m: Mat4)
        ensures
            m@ == ident_spec(),
            m_bounded(m@),
    {
        Mat4 {
            m00: ONE, m01: 0, m02: 0, m03: 0,
            m10: 0, m11: ONE, m12: 0, m13: 0,
            m20: 0, m21: 0, m22: ONE, m23: 0,
            m30: 0, m31: 0, m32: 0, m33: ONE,
        }
    }

    /// A translation matrix.
    pub fn translation(v: &Vec3) -> (m: Mat4)
        requires
            v3_bounded(*v, MAT_MAX as int),
        ensures
            m@ == translation_spec(v.x as int, v.y as int, v.z as int),
            m_bounded(m@),
    {
        Mat4 {
            m00: ONE, m01: 0, m02: 0, m03: v.x,
            m10: 0, m11: ONE, m12: 0, m13: v.y,
            m20: 0, m21: 0, m22: ONE, m23: v.z,
            m30: 0, m31: 0, m32: 0, m33: ONE,
        }
    }

    /// A scaling matrix.
    pub fn scaling(v: &Vec3) -> (m: Mat4)
        requires
            v3_bounded(*v, MAT_MAX as int),
        ensures
            m@ == scaling_spec(v.x as int, v.y as int, v.z as int),
            m_bounded(m@),
    {
        Mat4 {
            m00: v.x, m01: 0, m02: 0, m03: 0,
            m10: 0, m11: v.y, m12: 0, m13: 0,
            m20: 0, m21: 0, m22: v.z, m23: 0,
            m30: 0, m31: 0, m32: 0, m33: ONE,
        }
    }

    /// A rotation about the x axis.
    pub fn rotation_x(a: i64) -> (m: Mat4)
        requires
            -ANGLE_LIMIT <= a <= ANGLE_LIMIT,
        ensures
            m@ == rotation_x_spec(a as int),
            m_bounded(m@),
    {
        let s: i64 = fx_sin(a);
        let c: i64 = fx_cos(a);
        Mat4 {
            m00: ONE, m01: 0, m02: 0, m03: 0,
            m10: 0, m11: c, m12: -s, m13: 0,
            m20: 0, m21: s, m22: c, m23: 0,
            m30: 0, m31: 0, m32: 0, m33: ONE,
        }
    }

    /// A rotation about the y axis.
    pub fn rotation_y(a: i64) -> (m: Mat4)
        requires
            -ANGLE_LIMIT <= a <= ANGLE_LIMIT,
        ensures
            m@ == rotation_y_spec(a as int),
            m_bounded(m@),
    {
        let s: i64 = fx_sin(a);
        let c: i64 = fx_cos(a);
        Mat4 {
            m00: c, m01: 0, m02: s, m03: 0,
            m10: 0, m11: ONE, m12: 0, m13: 0,
            m20: -s, m21: 0, m22: c, m23: 0,
            m30: 0, m31: 0, m32: 0, m33: ONE,
        }
    }

    /// A rotation about the z axis.
    pub fn rotation_z(a: i64) -> (m: Mat4)
        requires
            -ANGLE_LIMIT <= a <= ANGLE_LIMIT,
        ensures
            m@ == rotation_z_spec(a as int),
            m_bounded(m@),
    {
        let s: i64 = fx_sin(a);
        let c: i64 = fx_cos(a);
        Mat4 {
            m00: c, m01: -s, m02: 0, m03: 0,
            m10: s, m11: c, m12: 0, m13: 0,
            m20: 0, m21: 0, m22: ONE, m23: 0,
            m30: 0, m31: 0, m32: 0, m33: ONE,
        }
    }
}

/// A product of two values each within `m` stays within `m * m`.
proof fn lemma_prod_bound(x: int, y: int, m: int)
    by (nonlinear_arith)
    requires
        -m <= x <= m,
        -m <= y <= m,
        0 <= m,
    ensures
        -(m * m) <= x * y <= m * m,
{
}

/// One range-checked entry of a matrix product.
fn fx_dot4(
    a0: i64, a1: i64, a2: i64, a3: i64,
    b0: i64, b1: i64, b2: i64, b3: i64,
) -> (r: Option<i64>)
    requires
        -MAT_MAX <= a0 <= MAT_MAX, -MAT_MAX <= a1 <= MAT_MAX,
        -MAT_MAX <= a2 <= MAT_MAX, -MAT_MAX <= a3 <= MAT_MAX,
        -MAT_MAX <= b0 <= MAT_MAX, -MAT_MAX <= b1 <= MAT_MAX,
        -MAT_MAX <= b2 <= MAT_MAX, -MAT_MAX <= b3 <= MAT_MAX,
    ensures
        match r {
            Some(v) => v == dot_spec(
                a0 as int, a1 as int, a2 as int, a3 as int,
                b0 as int, b1 as int, b2 as int, b3 as int,
            ) && -MAT_MAX <= v <= MAT_MAX,
            None => !(-(MAT_MAX as int) <= dot_spec(
                a0 as int, a1 as int, a2 as int, a3 as int,
                b0 as int, b1 as int, b2 as int, b3 as int,
            ) <= MAT_MAX as int),
        },
{
    proof {
        lemma_prod_bound(a0 as int, b0 as int, MAT_MAX as int);
        lemma_prod_bound(a1 as int, b1 as int, MAT_MAX as int);
        lemma_prod_bound(a2 as int, b2 as int, MAT_MAX as int);
        lemma_prod_bound(a3 as int, b3 as int, MAT_MAX as int);
    }
    let s: i128 = (a0 as i128) * (b0 as i128) + (a1 as i128) * (b1 as i128)
        + (a2 as i128) * (b2 as i128) + (a3 as i128) * (b3 as i128);
    let t: i128 = if s >= 0 {
        ((s as u128) / 65536u128) as i128
    } else {
        -((((-s) as u128) / 65536u128) as i128)
    };
    proof {
        vstd::arithmetic::div_mod::lemma_div_nonincreasing(
            if s >= 0 { s as int } else { -(s as int) },
            65536,
        );
        vstd::arithmetic::div_mod::lemma_div_pos_is_pos(
            if s >= 0 { s as int } else { -(s as int) },
            65536,
        );
    }
    if -MAT_MAX as i128 <= t && t <= MAT_MAX as i128 {
        Some(t as i64)
    } else {
        None
    }
}

/// The range-checked matrix product; `None` exactly when some entry of the
/// mathematical product falls outside `MAT_MAX`.
pub fn mat_mul_checked(a: &Mat4, b: &Mat4) -> (r: Option<Mat4>)
    requires
        m_bounded(a@),
        m_bounded(b@),
    ensures
        match r {
            Some(m) => m@ == mul_spec(a@, b@) && m_bounded(m@),
            None => !m_bounded(mul_spec(a@, b@)),
        },
{
    let e00 = fx_dot4(a.m00, a.m01, a.m02, a.m03, b.m00, b.m10, b.m20, b.m30);
    let e01 = fx_dot4(a.m00, a.m01, a.m02, a.m03, b.m01, b.m11, b.m21, b.m31);
    let e02 = fx_dot4(a.m00, a.m01, a.m02, a.m03, b.m02, b.m12, b.m22, b.m32);
    let e03 = fx_dot4(a.m00, a.m01, a.m02, a.m03, b.m03, b.m13, b.m23, b.m33);
    let e10 = fx_dot4(a.m10, a.m11, a.m12, a.m13, b.m00, b.m10, b.m20, b.m30);
    let e11 = fx_dot4(a.m10, a.m11, a.m12, a.m13, b.m01, b.m11, b.m21, b.m31);
    let e12 = fx_dot4(a.m10, a.m11, a.m12, a.m13, b.m02, b.m12, b.m22, b.m32);
    let e13 = fx_dot4(a.m10, a.m11, a.m12, a.m13, b.m03, b.m13, b.m23, b.m33);
    let e20 = fx_dot4(a.m20, a.m21, a.m22, a.m23, b.m00, b.m10, b.m20, b.m30);
    let e21 = fx_dot4(a.m20, a.m21, a.m22, a.m23, b.m01, b.m11, b.m21, b.m31);
    let e22 = fx_dot4(a.m20, a.m21, a.m22, a.m23, b.m02, b.m12, b.m22, b.m32);
    let e23 = fx_dot4(a.m20, a.m21, a.m22, a.m23, b.m03, b.m13, b.m23, b.m33);
    let e30 = fx_dot4(a.m30, a.m31, a.m32, a.m33, b.m00, b.m10, b.m20, b.m30);
    let e31 = fx_dot4(a.m30, a.m31, a.m32, a.m33, b.m01, b.m11, b.m21, b.m31);
    let e32 = fx_dot4(a.m30, a.m31, a.m32, a.m33, b.m02, b.m12, b.m22, b.m32);
    let e33 = fx_dot4(a.m30, a.m31, a.m32, a.m33, b.m03, b.m13, b.m23, b.m33);
    match (e00, e01, e02, e03, e10, e11, e12, e13, e20, e21, e22, e23, e30, e31, e32, e33) {
        (
            Some(m00), Some(m01), Some(m02), Some(m03),
            Some(m10), Some(m11), Some(m12), Some(m13),
            Some(m20), Some(m21), Some(m22), Some(m23),
            Some(m30), Some(m31), Some(m32), Some(m33),
        ) => Some(Mat4 {
            m00, m01, m02, m03,
            m10, m11, m12, m13,
            m20, m21, m22, m23,
            m30, m31, m32, m33,
        }),
        _ => None,
    }
}

/// Multiplying by the identity on the left changes nothing: the unit entry
/// rescales away exactly, whatever the other matrix holds.
pub proof fn lemma_ident_mul_left(m: Mat4i)
    ensures
        mul_spec(ident_spec(), m) == m,
{
    broadcast use vstd::arithmetic::mul::group_mul_basics;
    broadcast use vstd::arithmetic::mul::lemma_mul_by_zero_is_zero;

    lemma_div_one_unit(m.m00);
    lemma_div_one_unit(m.m01);
    lemma_div_one_unit(m.m02);
    lemma_div_one_unit(m.m03);
    lemma_div_one_unit(m.m10);
    lemma_div_one_unit(m.m11);
    lemma_div_one_unit(m.m12);
    lemma_div_one_unit(m.m13);
    lemma_div_one_unit(m.m20);
    lemma_div_one_unit(m.m21);
    lemma_div_one_unit(m.m22);
    lemma_div_one_unit(m.m23);
    lemma_div_one_unit(m.m30);
    lemma_div_one_unit(m.m31);
    lemma_div_one_unit(m.m32);
    lemma_div_one_unit(m.m33);
}

/// Multiplying by the identity on the right changes nothing.
pub proof fn lemma_ident_mul_right(m: Mat4i)
    ensures
        mul_spec(m, ident_spec()) == m,
{
    broadcast use vstd::arithmetic::mul::group_mul_basics;
    broadcast use vstd::arithmetic::mul::lemma_mul_by_zero_is_zero;

    lemma_div_one_unit(m.m00);
    lemma_div_one_unit(m.m01);
    lemma_div_one_unit(m.m02);
    lemma_div_one_unit(m.m03);
    lemma_div_one_unit(m.m10);
    lemma_div_one_unit(m.m11);
    lemma_div_one_unit(m.m12);
    lemma_div_one_unit(m.m13);
    lemma_div_one_unit(m.m20);
    lemma_div_one_unit(m.m21);
    lemma_div_one_unit(m.m22);
    lemma_div_one_unit(m.m23);
    lemma_div_one_unit(m.m30);
    lemma_div_one_unit(m.m31);
    lemma_div_one_unit(m.m32);
    lemma_div_one_unit(m.m33);
}

/// Rescaling the product of the unit with any value gives that value back.
pub proof fn lemma_div_one_unit(x: int)
    ensures
        div_one((ONE as int) * x) == x,
        div_one(x * (ONE as int)) == x,
{
    broadcast use vstd::arithmetic::mul::lemma_mul_is_commutative;

    if x >= 0 {
        lemma_div_multiples_vanish(x, ONE as int);
    } else {
        lemma_div_multiples_vanish(-x, ONE as int);
        assert(-((ONE as int) * x) == (ONE as int) * (-x))
            by (nonlinear_arith);
    }
}

} // verus!
