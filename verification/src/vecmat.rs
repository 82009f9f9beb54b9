//! Fixed-point vectors and matrices for the transform pipeline.
//!
//! Every operation is total (it saturates instead of overflowing) and its
//! result is stated exactly, entry by entry, over the scalar spec functions
//! of [`crate::fixed`].

use vstd::prelude::*;
use crate::fixed::{fx_add, fx_sub, fx_mul, fx_add_spec, fx_sub_spec, fx_mul_spec, FX_ONE};

verus! {

/// A 2-vector of 16.16 fixed-point scalars.
#[derive(Clone, Copy, PartialEq, Eq, Structural, Debug)]
pub struct V2 {
    pub x: i64,
    pub y: i64,
}

/// A 3-vector of 16.16 fixed-point scalars.
#[derive(Clone, Copy, PartialEq, Eq, Structural, Debug)]
pub struct V3 {
    pub x: i64,
    pub y: i64,
    pub z: i64,
}

/// A 4-vector of 16.16 fixed-point scalars.
#[derive(Clone, Copy, PartialEq, Eq, Structural, Debug)]
pub struct V4 {
    pub x: i64,
    pub y: i64,
    pub z: i64,
    pub w: i64,
}

/// A row-major 3x3 matrix of 16.16 fixed-point scalars.
#[derive(Clone, Copy, PartialEq, Eq, Structural, Debug)]
pub struct M3 {
    pub m00: i64, pub m01: i64, pub m02: i64,
    pub m10: i64, pub m11: i64, pub m12: i64,
    pub m20: i64, pub m21: i64, pub m22: i64,
}

/// A row-major 4x4 matrix of 16.16 fixed-point scalars.
#[derive(Clone, Copy, PartialEq, Eq, Structural, Debug)]
pub struct M4 {
    pub m00: i64, pub m01: i64, pub m02: i64, pub m03: i64,
    pub m10: i64, pub m11: i64, pub m12: i64, pub m13: i64,
    pub m20: i64, pub m21: i64, pub m22: i64, pub m23: i64,
    pub m30: i64, pub m31: i64, pub m32: i64, pub m33: i64,
}

/// Fixed-point dot product of two 3-element rows, accumulated left to right.
pub open spec fn dot3_spec(a0: int, b0: int, a1: int, b1: int, a2: int, b2: int) -> int {
    fx_add_spec(fx_add_spec(fx_mul_spec(a0, b0), fx_mul_spec(a1, b1)), fx_mul_spec(a2, b2))
}

/// Fixed-point dot product of two 4-element rows, accumulated left to right.
pub open spec fn dot4_spec(
    a0: int, b0: int, a1: int, b1: int, a2: int, b2: int, a3: int, b3: int,
) -> int {
    fx_add_spec(dot3_spec(a0, b0, a1, b1, a2, b2), fx_mul_spec(a3, b3))
}

pub fn dot3(a0: i64, b0: i64, a1: i64, b1: i64, a2: i64, b2: i64) -> (r: i64)
    ensures
        r as int == dot3_spec(a0 as int, b0 as int, a1 as int, b1 as int, a2 as int, b2 as int),
{
    fx_add(fx_add(fx_mul(a0, b0), fx_mul(a1, b1)), fx_mul(a2, b2))
}

pub fn dot4(a0: i64, b0: i64, a1: i64, b1: i64, a2: i64, b2: i64, a3: i64, b3: i64) -> (r: i64)
    ensures
        r as int == dot4_spec(
            a0 as int, b0 as int, a1 as int, b1 as int,
            a2 as int, b2 as int, a3 as int, b3 as int,
        ),
{
    fx_add(dot3(a0, b0, a1, b1, a2, b2), fx_mul(a3, b3))
}

pub fn v3_dot(a: V3, b: V3) -> (r: i64)
    ensures
        r as int == dot3_spec(
            a.x as int, b.x as int, a.y as int, b.y as int, a.z as int, b.z as int,
        ),
{
    dot3(a.x, b.x, a.y, b.y, a.z, b.z)
}

/// One component of a cross product: `a * b - c * d` in fixed point.
pub open spec fn cross_term_spec(a: int, b: int, c: int, d: int) -> int {
    fx_sub_spec(fx_mul_spec(a, b), fx_mul_spec(c, d))
}

pub fn cross_term(a: i64, b: i64, c: i64, d: i64) -> (r: i64)
    ensures
        r as int == cross_term_spec(a as int, b as int, c as int, d as int),
{
    fx_sub(fx_mul(a, b), fx_mul(c, d))
}

pub fn v3_cross(a: V3, b: V3) -> (r: V3)
    ensures
        r.x as int == cross_term_spec(a.y as int, b.z as int, a.z as int, b.y as int),
        r.y as int == cross_term_spec(a.z as int, b.x as int, a.x as int, b.z as int),
        r.z as int == cross_term_spec(a.x as int, b.y as int, a.y as int, b.x as int),
{
    V3 {
        x: cross_term(a.y, b.z, a.z, b.y),
        y: cross_term(a.z, b.x, a.x, b.z),
        z: cross_term(a.x, b.y, a.y, b.x),
    }
}

pub fn m4_identity() -> (r: M4)
    ensures
        r == m4_identity_spec(),
{
    M4 {
        m00: FX_ONE, m01: 0, m02: 0, m03: 0,
        m10: 0, m11: FX_ONE, m12: 0, m13: 0,
        m20: 0, m21: 0, m22: FX_ONE, m23: 0,
        m30: 0, m31: 0, m32: 0, m33: FX_ONE,
    }
}

pub open spec fn m4_identity_spec() -> M4 {
    M4 {
        m00: FX_ONE, m01: 0, m02: 0, m03: 0,
        m10: 0, m11: FX_ONE, m12: 0, m13: 0,
        m20: 0, m21: 0, m22: FX_ONE, m23: 0,
        m30: 0, m31: 0, m32: 0, m33: FX_ONE,
    }
}

pub open spec fn m3_identity_spec() -> M3 {
    M3 {
        m00: FX_ONE, m01: 0, m02: 0,
        m10: 0, m11: FX_ONE, m12: 0,
        m20: 0, m21: 0, m22: FX_ONE,
    }
}

pub fn m3_identity() -> (r: M3)
    ensures
        r == m3_identity_spec(),
{
    M3 {
        m00: FX_ONE, m01: 0, m02: 0,
        m10: 0, m11: FX_ONE, m12: 0,
        m20: 0, m21: 0, m22: FX_ONE,
    }
}

/// Entry `(i, j)` of a matrix product is the fixed-point dot product of row
/// `i` of the left factor with column `j` of the right factor.
pub open spec fn m4_mul_entry_spec(
    a0: int, a1: int, a2: int, a3: int, b0: int, b1: int, b2: int, b3: int,
) -> int {
    dot4_spec(a0, b0, a1, b1, a2, b2, a3, b3)
}

/// The full fixed-point matrix product, entry by entry.
pub open spec fn m4_mul_spec(a: M4, b: M4) -> M4 {
    M4 {
        m00: m4_mul_entry_spec(a.m00 as int, a.m01 as int, a.m02 as int, a.m03 as int, b.m00 as int, b.m10 as int, b.m20 as int, b.m30 as int) as i64,
        m01: m4_mul_entry_spec(a.m00 as int, a.m01 as int, a.m02 as int, a.m03 as int, b.m01 as int, b.m11 as int, b.m21 as int, b.m31 as int) as i64,
        m02: m4_mul_entry_spec(a.m00 as int, a.m01 as int, a.m02 as int, a.m03 as int, b.m02 as int, b.m12 as int, b.m22 as int, b.m32 as int) as i64,
        m03: m4_mul_entry_spec(a.m00 as int, a.m01 as int, a.m02 as int, a.m03 as int, b.m03 as int, b.m13 as int, b.m23 as int, b.m33 as int) as i64,
        m10: m4_mul_entry_spec(a.m10 as int, a.m11 as int, a.m12 as int, a.m13 as int, b.m00 as int, b.m10 as int, b.m20 as int, b.m30 as int) as i64,
        m11: m4_mul_entry_spec(a.m10 as int, a.m11 as int, a.m12 as int, a.m13 as int, b.m01 as int, b.m11 as int, b.m21 as int, b.m31 as int) as i64,
        m12: m4_mul_entry_spec(a.m10 as int, a.m11 as int, a.m12 as int, a.m13 as int, b.m02 as int, b.m12 as int, b.m22 as int, b.m32 as int) as i64,
        m13: m4_mul_entry_spec(a.m10 as int, a.m11 as int, a.m12 as int, a.m13 as int, b.m03 as int, b.m13 as int, b.m23 as int, b.m33 as int) as i64,
        m20: m4_mul_entry_spec(a.m20 as int, a.m21 as int, a.m22 as int, a.m23 as int, b.m00 as int, b.m10 as int, b.m20 as int, b.m30 as int) as i64,
        m21: m4_mul_entry_spec(a.m20 as int, a.m21 as int, a.m22 as int, a.m23 as int, b.m01 as int, b.m11 as int, b.m21 as int, b.m31 as int) as i64,
        m22: m4_mul_entry_spec(a.m20 as int, a.m21 as int, a.m22 as int, a.m23 as int, b.m02 as int, b.m12 as int, b.m22 as int, b.m32 as int) as i64,
        m23: m4_mul_entry_spec(a.m20 as int, a.m21 as int, a.m22 as int, a.m23 as int, b.m03 as int, b.m13 as int, b.m23 as int, b.m33 as int) as i64,
        m30: m4_mul_entry_spec(a.m30 as int, a.m31 as int, a.m32 as int, a.m33 as int, b.m00 as int, b.m10 as int, b.m20 as int, b.m30 as int) as i64,
        m31: m4_mul_entry_spec(a.m30 as int, a.m31 as int, a.m32 as int, a.m33 as int, b.m01 as int, b.m11 as int, b.m21 as int, b.m31 as int) as i64,
        m32: m4_mul_entry_spec(a.m30 as int, a.m31 as int, a.m32 as int, a.m33 as int, b.m02 as int, b.m12 as int, b.m22 as int, b.m32 as int) as i64,
        m33: m4_mul_entry_spec(a.m30 as int, a.m31 as int, a.m32 as int, a.m33 as int, b.m03 as int, b.m13 as int, b.m23 as int, b.m33 as int) as i64,
    }
}

pub fn m4_mul(a: &M4, b: &M4) -> (r: M4)
    ensures
        r == m4_mul_spec(*a, *b),
        r.m00 as int == m4_mul_entry_spec(a.m00 as int, a.m01 as int, a.m02 as int, a.m03 as int, b.m00 as int, b.m10 as int, b.m20 as int, b.m30 as int),
        r.m01 as int == m4_mul_entry_spec(a.m00 as int, a.m01 as int, a.m02 as int, a.m03 as int, b.m01 as int, b.m11 as int, b.m21 as int, b.m31 as int),
        r.m02 as int == m4_mul_entry_spec(a.m00 as int, a.m01 as int, a.m02 as int, a.m03 as int, b.m02 as int, b.m12 as int, b.m22 as int, b.m32 as int),
        r.m03 as int == m4_mul_entry_spec(a.m00 as int, a.m01 as int, a.m02 as int, a.m03 as int, b.m03 as int, b.m13 as int, b.m23 as int, b.m33 as int),
        r.m10 as int == m4_mul_entry_spec(a.m10 as int, a.m11 as int, a.m12 as int, a.m13 as int, b.m00 as int, b.m10 as int, b.m20 as int, b.m30 as int),
        r.m11 as int == m4_mul_entry_spec(a.m10 as int, a.m11 as int, a.m12 as int, a.m13 as int, b.m01 as int, b.m11 as int, b.m21 as int, b.m31 as int),
        r.m12 as int == m4_mul_entry_spec(a.m10 as int, a.m11 as int, a.m12 as int, a.m13 as int, b.m02 as int, b.m12 as int, b.m22 as int, b.m32 as int),
        r.m13 as int == m4_mul_entry_spec(a.m10 as int, a.m11 as int, a.m12 as int, a.m13 as int, b.m03 as int, b.m13 as int, b.m23 as int, b.m33 as int),
        r.m20 as int == m4_mul_entry_spec(a.m20 as int, a.m21 as int, a.m22 as int, a.m23 as int, b.m00 as int, b.m10 as int, b.m20 as int, b.m30 as int),
        r.m21 as int == m4_mul_entry_spec(a.m20 as int, a.m21 as int, a.m22 as int, a.m23 as int, b.m01 as int, b.m11 as int, b.m21 as int, b.m31 as int),
        r.m22 as int == m4_mul_entry_spec(a.m20 as int, a.m21 as int, a.m22 as int, a.m23 as int, b.m02 as int, b.m12 as int, b.m22 as int, b.m32 as int),
        r.m23 as int == m4_mul_entry_spec(a.m20 as int, a.m21 as int, a.m22 as int, a.m23 as int, b.m03 as int, b.m13 as int, b.m23 as int, b.m33 as int),
        r.m30 as int == m4_mul_entry_spec(a.m30 as int, a.m31 as int, a.m32 as int, a.m33 as int, b.m00 as int, b.m10 as int, b.m20 as int, b.m30 as int),
        r.m31 as int == m4_mul_entry_spec(a.m30 as int, a.m31 as int, a.m32 as int, a.m33 as int, b.m01 as int, b.m11 as int, b.m21 as int, b.m31 as int),
        r.m32 as int == m4_mul_entry_spec(a.m30 as int, a.m31 as int, a.m32 as int, a.m33 as int, b.m02 as int, b.m12 as int, b.m22 as int, b.m32 as int),
        r.m33 as int == m4_mul_entry_spec(a.m30 as int, a.m31 as int, a.m32 as int, a.m33 as int, b.m03 as int, b.m13 as int, b.m23 as int, b.m33 as int),
{
    M4 {
        m00: dot4(a.m00, b.m00, a.m01, b.m10, a.m02, b.m20, a.m03, b.m30),
        m01: dot4(a.m00, b.m01, a.m01, b.m11, a.m02, b.m21, a.m03, b.m31),
        m02: dot4(a.m00, b.m02, a.m01, b.m12, a.m02, b.m22, a.m03, b.m32),
        m03: dot4(a.m00, b.m03, a.m01, b.m13, a.m02, b.m23, a.m03, b.m33),
        m10: dot4(a.m10, b.m00, a.m11, b.m10, a.m12, b.m20, a.m13, b.m30),
        m11: dot4(a.m10, b.m01, a.m11, b.m11, a.m12, b.m21, a.m13, b.m31),
        m12: dot4(a.m10, b.m02, a.m11, b.m12, a.m12, b.m22, a.m13, b.m32),
        m13: dot4(a.m10, b.m03, a.m11, b.m13, a.m12, b.m23, a.m13, b.m33),
        m20: dot4(a.m20, b.m00, a.m21, b.m10, a.m22, b.m20, a.m23, b.m30),
        m21: dot4(a.m20, b.m01, a.m21, b.m11, a.m22, b.m21, a.m23, b.m31),
        m22: dot4(a.m20, b.m02, a.m21, b.m12, a.m22, b.m22, a.m23, b.m32),
        m23: dot4(a.m20, b.m03, a.m21, b.m13, a.m22, b.m23, a.m23, b.m33),
        m30: dot4(a.m30, b.m00, a.m31, b.m10, a.m32, b.m20, a.m33, b.m30),
        m31: dot4(a.m30, b.m01, a.m31, b.m11, a.m32, b.m21, a.m33, b.m31),
        m32: dot4(a.m30, b.m02, a.m31, b.m12, a.m32, b.m22, a.m33, b.m32),
        m33: dot4(a.m30, b.m03, a.m31, b.m13, a.m32, b.m23, a.m33, b.m33),
    }
}

/// The image of a 4-vector under a matrix, component by component.
pub open spec fn m4_apply_x_spec(m: M4, v: V4) -> int {
    dot4_spec(m.m00 as int, v.x as int, m.m01 as int, v.y as int, m.m02 as int, v.z as int, m.m03 as int, v.w as int)
}

pub open spec fn m4_apply_y_spec(m: M4, v: V4) -> int {
    dot4_spec(m.m10 as int, v.x as int, m.m11 as int, v.y as int, m.m12 as int, v.z as int, m.m13 as int, v.w as int)
}

pub open spec fn m4_apply_z_spec(m: M4, v: V4) -> int {
    dot4_spec(m.m20 as int, v.x as int, m.m21 as int, v.y as int, m.m22 as int, v.z as int, m.m23 as int, v.w as int)
}

pub open spec fn m4_apply_w_spec(m: M4, v: V4) -> int {
    dot4_spec(m.m30 as int, v.x as int, m.m31 as int, v.y as int, m.m32 as int, v.z as int, m.m33 as int, v.w as int)
}

/// The image of a 4-vector under a matrix, as one spec value.
pub open spec fn m4_apply_spec(m: M4, v: V4) -> V4 {
    V4 {
        x: m4_apply_x_spec(m, v) as i64,
        y: m4_apply_y_spec(m, v) as i64,
        z: m4_apply_z_spec(m, v) as i64,
        w: m4_apply_w_spec(m, v) as i64,
    }
}

pub fn m4_apply(m: &M4, v: V4) -> (r: V4)
    ensures
        r == m4_apply_spec(*m, v),
        r.x as int == m4_apply_x_spec(*m, v),
        r.y as int == m4_apply_y_spec(*m, v),
        r.z as int == m4_apply_z_spec(*m, v),
        r.w as int == m4_apply_w_spec(*m, v),
{
    V4 {
        x: dot4(m.m00, v.x, m.m01, v.y, m.m02, v.z, m.m03, v.w),
        y: dot4(m.m10, v.x, m.m11, v.y, m.m12, v.z, m.m13, v.w),
        z: dot4(m.m20, v.x, m.m21, v.y, m.m22, v.z, m.m23, v.w),
        w: dot4(m.m30, v.x, m.m31, v.y, m.m32, v.z, m.m33, v.w),
    }
}

/// The image of a 3-vector under a 3x3 matrix, as one spec value.
pub open spec fn m3_apply_spec(m: M3, v: V3) -> V3 {
    V3 {
        x: dot3_spec(m.m00 as int, v.x as int, m.m01 as int, v.y as int, m.m02 as int, v.z as int) as i64,
        y: dot3_spec(m.m10 as int, v.x as int, m.m11 as int, v.y as int, m.m12 as int, v.z as int) as i64,
        z: dot3_spec(m.m20 as int, v.x as int, m.m21 as int, v.y as int, m.m22 as int, v.z as int) as i64,
    }
}

pub fn m3_apply(m: &M3, v: V3) -> (r: V3)
    ensures
        r == m3_apply_spec(*m, v),
        r.x as int == dot3_spec(m.m00 as int, v.x as int, m.m01 as int, v.y as int, m.m02 as int, v.z as int),
        r.y as int == dot3_spec(m.m10 as int, v.x as int, m.m11 as int, v.y as int, m.m12 as int, v.z as int),
        r.z as int == dot3_spec(m.m20 as int, v.x as int, m.m21 as int, v.y as int, m.m22 as int, v.z as int),
{
    V3 {
        x: dot3(m.m00, v.x, m.m01, v.y, m.m02, v.z),
        y: dot3(m.m10, v.x, m.m11, v.y, m.m12, v.z),
        z: dot3(m.m20, v.x, m.m21, v.y, m.m22, v.z),
    }
}

/// The upper-left 3x3 block of a 4x4 matrix.
pub fn m4_to_m3(m: &M4) -> (r: M3)
    ensures
        r == (M3 {
            m00: m.m00, m01: m.m01, m02: m.m02,
            m10: m.m10, m11: m.m11, m12: m.m12,
            m20: m.m20, m21: m.m21, m22: m.m22,
        }),
{
    M3 {
        m00: m.m00, m01: m.m01, m02: m.m02,
        m10: m.m10, m11: m.m11, m12: m.m12,
        m20: m.m20, m21: m.m21, m22: m.m22,
    }
}

pub fn m3_transpose(m: &M3) -> (r: M3)
    ensures
        r == (M3 {
            m00: m.m00, m01: m.m10, m02: m.m20,
            m10: m.m01, m11: m.m11, m12: m.m21,
            m20: m.m02, m21: m.m12, m22: m.m22,
        }),
{
    M3 {
        m00: m.m00, m01: m.m10, m02: m.m20,
        m10: m.m01, m11: m.m11, m12: m.m21,
        m20: m.m02, m21: m.m12, m22: m.m22,
    }
}

/// The fixed-point determinant of a 3x3 matrix, expanded along the first row.
pub open spec fn m3_det_spec(m: M3) -> int {
    fx_add_spec(
        fx_sub_spec(
            fx_mul_spec(m.m00 as int, cross_term_spec(m.m11 as int, m.m22 as int, m.m12 as int, m.m21 as int)),
            fx_mul_spec(m.m01 as int, cross_term_spec(m.m10 as int, m.m22 as int, m.m12 as int, m.m20 as int)),
        ),
        fx_mul_spec(m.m02 as int, cross_term_spec(m.m10 as int, m.m21 as int, m.m11 as int, m.m20 as int)),
    )
}

pub fn m3_det(m: &M3) -> (r: i64)
    ensures
        r as int == m3_det_spec(*m),
{
    fx_add(
        fx_sub(
            fx_mul(m.m00, cross_term(m.m11, m.m22, m.m12, m.m21)),
            fx_mul(m.m01, cross_term(m.m10, m.m22, m.m12, m.m20)),
        ),
        fx_mul(m.m02, cross_term(m.m10, m.m21, m.m11, m.m20)),
    )
}

/// The fixed-point inverse of a 3x3 matrix: the adjugate divided entrywise
/// by the determinant. A singular matrix (zero fixed-point determinant)
/// falls back to the identity — the safe default for degenerate transforms.
pub open spec fn m3_inverse_spec(m: M3) -> M3 {
    let det = m3_det_spec(m);
    if det == 0 {
        m3_identity_spec()
    } else {
        M3 {
            m00: crate::fixed::fx_div_spec(cross_term_spec(m.m11 as int, m.m22 as int, m.m12 as int, m.m21 as int), det) as i64,
            m01: crate::fixed::fx_div_spec(cross_term_spec(m.m02 as int, m.m21 as int, m.m01 as int, m.m22 as int), det) as i64,
            m02: crate::fixed::fx_div_spec(cross_term_spec(m.m01 as int, m.m12 as int, m.m02 as int, m.m11 as int), det) as i64,
            m10: crate::fixed::fx_div_spec(cross_term_spec(m.m12 as int, m.m20 as int, m.m10 as int, m.m22 as int), det) as i64,
            m11: crate::fixed::fx_div_spec(cross_term_spec(m.m00 as int, m.m22 as int, m.m02 as int, m.m20 as int), det) as i64,
            m12: crate::fixed::fx_div_spec(cross_term_spec(m.m02 as int, m.m10 as int, m.m00 as int, m.m12 as int), det) as i64,
            m20: crate::fixed::fx_div_spec(cross_term_spec(m.m10 as int, m.m21 as int, m.m11 as int, m.m20 as int), det) as i64,
            m21: crate::fixed::fx_div_spec(cross_term_spec(m.m01 as int, m.m20 as int, m.m00 as int, m.m21 as int), det) as i64,
            m22: crate::fixed::fx_div_spec(cross_term_spec(m.m00 as int, m.m11 as int, m.m01 as int, m.m10 as int), det) as i64,
        }
    }
}

/// Invert a 3x3 matrix in fixed point, falling back to the identity when
/// the fixed-point determinant vanishes.
pub fn m3_inverse(m: &M3) -> (r: M3)
    ensures
        r == m3_inverse_spec(*m),
{
    let det = m3_det(m);
    if det == 0 {
        m3_identity()
    } else {
        M3 {
            m00: crate::fixed::fx_div(cross_term(m.m11, m.m22, m.m12, m.m21), det),
            m01: crate::fixed::fx_div(cross_term(m.m02, m.m21, m.m01, m.m22), det),
            m02: crate::fixed::fx_div(cross_term(m.m01, m.m12, m.m02, m.m11), det),
            m10: crate::fixed::fx_div(cross_term(m.m12, m.m20, m.m10, m.m22), det),
            m11: crate::fixed::fx_div(cross_term(m.m00, m.m22, m.m02, m.m20), det),
            m12: crate::fixed::fx_div(cross_term(m.m02, m.m10, m.m00, m.m12), det),
            m20: crate::fixed::fx_div(cross_term(m.m10, m.m21, m.m11, m.m20), det),
            m21: crate::fixed::fx_div(cross_term(m.m01, m.m20, m.m00, m.m21), det),
            m22: crate::fixed::fx_div(cross_term(m.m00, m.m11, m.m01, m.m10), det),
        }
    }
}

} // verus!
