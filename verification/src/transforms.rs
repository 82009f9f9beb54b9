//! Pure builders for the transform chain: model, view (look-at),
//! perspective and orthographic projection, and the viewport map.
//!
//! Angles enter as fixed-point (cosine, sine) pairs — trigonometric
//! evaluation happens at the caller's numeric edge — and every matrix entry
//! is pinned down exactly over the fixed-point spec functions.

use vstd::prelude::*;
use vstd::math::abs;
use crate::fixed::{fx_add, fx_sub, fx_mul, fx_div, fx_add_spec, fx_sub_spec, fx_mul_spec,
    fx_div_spec, div_trunc, FX_ONE, FX_HALF};
use crate::vecmat::{V3, M4, m4_mul, m4_mul_spec, v3_dot, dot3_spec, cross_term, cross_term_spec};
use crate::norm::{v3_normalize, v3_normalize_spec};

verus! {

/// Fixed-point cotangent of half the vertical field of view (45 degrees).
pub const COT_HALF_FOV: i64 = 158218;

/// Near clipping plane distance (one tenth of a unit, in raw fixed-point).
pub const NEAR_PLANE: i64 = 6554;

/// Far clipping plane distance (a thousand units, in raw fixed-point).
pub const FAR_PLANE: i64 = 1000 * 65536;

/// The fixed-point sine/cosine pairs of the three model rotation angles.
#[derive(Clone, Copy, PartialEq, Eq, Structural, Debug)]
pub struct RotSinCos {
    pub cos_x: i64,
    pub sin_x: i64,
    pub cos_y: i64,
    pub sin_y: i64,
    pub cos_z: i64,
    pub sin_z: i64,
}

/// Rotation about the x axis (right-handed).
pub open spec fn rot_x_spec(c: i64, s: i64) -> M4 {
    M4 {
        m00: FX_ONE, m01: 0, m02: 0, m03: 0,
        m10: 0, m11: c, m12: (-s) as i64, m13: 0,
        m20: 0, m21: s, m22: c, m23: 0,
        m30: 0, m31: 0, m32: 0, m33: FX_ONE,
    }
}

/// Rotation about the y axis (right-handed).
pub open spec fn rot_y_spec(c: i64, s: i64) -> M4 {
    M4 {
        m00: c, m01: 0, m02: s, m03: 0,
        m10: 0, m11: FX_ONE, m12: 0, m13: 0,
        m20: (-s) as i64, m21: 0, m22: c, m23: 0,
        m30: 0, m31: 0, m32: 0, m33: FX_ONE,
    }
}

/// Rotation about the z axis (right-handed).
pub open spec fn rot_z_spec(c: i64, s: i64) -> M4 {
    M4 {
        m00: c, m01: (-s) as i64, m02: 0, m03: 0,
        m10: s, m11: c, m12: 0, m13: 0,
        m20: 0, m21: 0, m22: FX_ONE, m23: 0,
        m30: 0, m31: 0, m32: 0, m33: FX_ONE,
    }
}

/// Uniform scale combined with a translation in one matrix.
pub open spec fn scale_translate_spec(t: V3, s: i64) -> M4 {
    M4 {
        m00: s, m01: 0, m02: 0, m03: t.x,
        m10: 0, m11: s, m12: 0, m13: t.y,
        m20: 0, m21: 0, m22: s, m23: t.z,
        m30: 0, m31: 0, m32: 0, m33: FX_ONE,
    }
}

/// The model matrix: translation and uniform scale applied over rotations
/// about z, y, then x (`T*S * (Rz * Ry * Rx)`).
pub open spec fn model_matrix_spec(translation: V3, scale: i64, rot: RotSinCos) -> M4 {
    m4_mul_spec(
        scale_translate_spec(translation, scale),
        m4_mul_spec(
            rot_z_spec(rot.cos_z, rot.sin_z),
            m4_mul_spec(rot_y_spec(rot.cos_y, rot.sin_y), rot_x_spec(rot.cos_x, rot.sin_x)),
        ),
    )
}

/// Compose the model matrix from a translation, a uniform scale, and the
/// sine/cosine pairs of rotations about the three axes, applied in
/// z-after-y-after-x order.
pub fn create_model_matrix(translation: V3, scale: i64, rot: RotSinCos) -> (r: M4)
    requires
        -FX_ONE < rot.sin_x <= FX_ONE,
        -FX_ONE < rot.sin_y <= FX_ONE,
        -FX_ONE < rot.sin_z <= FX_ONE,
    ensures
        r == model_matrix_spec(translation, scale, rot),
{
    let rotation_x = M4 {
        m00: FX_ONE, m01: 0, m02: 0, m03: 0,
        m10: 0, m11: rot.cos_x, m12: -rot.sin_x, m13: 0,
        m20: 0, m21: rot.sin_x, m22: rot.cos_x, m23: 0,
        m30: 0, m31: 0, m32: 0, m33: FX_ONE,
    };
    let rotation_y = M4 {
        m00: rot.cos_y, m01: 0, m02: rot.sin_y, m03: 0,
        m10: 0, m11: FX_ONE, m12: 0, m13: 0,
        m20: -rot.sin_y, m21: 0, m22: rot.cos_y, m23: 0,
        m30: 0, m31: 0, m32: 0, m33: FX_ONE,
    };
    let rotation_z = M4 {
        m00: rot.cos_z, m01: -rot.sin_z, m02: 0, m03: 0,
        m10: rot.sin_z, m11: rot.cos_z, m12: 0, m13: 0,
        m20: 0, m21: 0, m22: FX_ONE, m23: 0,
        m30: 0, m31: 0, m32: 0, m33: FX_ONE,
    };
    let rotation = m4_mul(&rotation_z, &m4_mul(&rotation_y, &rotation_x));
    let transform = M4 {
        m00: scale, m01: 0, m02: 0, m03: translation.x,
        m10: 0, m11: scale, m12: 0, m13: translation.y,
        m20: 0, m21: 0, m22: scale, m23: translation.z,
        m30: 0, m31: 0, m32: 0, m33: FX_ONE,
    };
    m4_mul(&transform, &rotation)
}

/// A cross-product term of a unit-bounded vector against a scene-bounded
/// one stays far inside the normalization range.
proof fn lemma_cross_term_bound(a: int, b: int, c: int, d: int)
    requires
        abs(a) <= FX_ONE,
        abs(c) <= FX_ONE,
        abs(b) <= 0x1_0000_0000_0000,
        abs(d) <= 0x1_0000_0000_0000,
    ensures
        abs(cross_term_spec(a, b, c, d)) <= 0x2_0000_0000_0000,
{
    assert(abs(a) * abs(b) <= 0x1_0000_0000_0000_0000) by (nonlinear_arith)
        requires
            0 <= abs(a) <= FX_ONE,
            0 <= abs(b) <= 0x1_0000_0000_0000,
    ;
    assert(abs(c) * abs(d) <= 0x1_0000_0000_0000_0000) by (nonlinear_arith)
        requires
            0 <= abs(c) <= FX_ONE,
            0 <= abs(d) <= 0x1_0000_0000_0000,
    ;
    crate::fixed::lemma_fx_mul_bound(a, b, 0x1_0000_0000_0000_0000);
    crate::fixed::lemma_fx_mul_bound(c, d, 0x1_0000_0000_0000_0000);
}

/// The look-at view matrix: rows are the camera's right, true-up and
/// negated forward axes (forward and right normalized in fixed point),
/// with the eye projected onto each as the translation column.
pub open spec fn view_matrix_spec(eye: V3, center: V3, up: V3) -> M4 {
    let f = v3_normalize_spec(
        V3 {
            x: (center.x - eye.x) as i64,
            y: (center.y - eye.y) as i64,
            z: (center.z - eye.z) as i64,
        },
    );
    let s = v3_normalize_spec(
        V3 {
            x: cross_term_spec(f.y as int, up.z as int, f.z as int, up.y as int) as i64,
            y: cross_term_spec(f.z as int, up.x as int, f.x as int, up.z as int) as i64,
            z: cross_term_spec(f.x as int, up.y as int, f.y as int, up.x as int) as i64,
        },
    );
    let u = V3 {
        x: cross_term_spec(s.y as int, f.z as int, s.z as int, f.y as int) as i64,
        y: cross_term_spec(s.z as int, f.x as int, s.x as int, f.z as int) as i64,
        z: cross_term_spec(s.x as int, f.y as int, s.y as int, f.x as int) as i64,
    };
    M4 {
        m00: s.x, m01: s.y, m02: s.z,
        m03: (-dot3_spec(s.x as int, eye.x as int, s.y as int, eye.y as int, s.z as int, eye.z as int)) as i64,
        m10: u.x, m11: u.y, m12: u.z,
        m13: (-dot3_spec(u.x as int, eye.x as int, u.y as int, eye.y as int, u.z as int, eye.z as int)) as i64,
        m20: (-f.x) as i64, m21: (-f.y) as i64, m22: (-f.z) as i64,
        m23: dot3_spec(f.x as int, eye.x as int, f.y as int, eye.y as int, f.z as int, eye.z as int) as i64,
        m30: 0, m31: 0, m32: 0, m33: FX_ONE,
    }
}

/// Build the look-at view matrix from eye, target center, and up vector.
pub fn create_view_matrix(eye: V3, center: V3, up: V3) -> (r: M4)
    requires
        crate::norm::v3_bounded(eye, 0x1_0000_0000_0000),
        crate::norm::v3_bounded(center, 0x1_0000_0000_0000),
        crate::norm::v3_bounded(up, 0x1_0000_0000_0000),
    ensures
        r == view_matrix_spec(eye, center, up),
{
    let f = v3_normalize(
        V3 { x: center.x - eye.x, y: center.y - eye.y, z: center.z - eye.z },
    );
    proof {
        lemma_cross_term_bound(f.y as int, up.z as int, f.z as int, up.y as int);
        lemma_cross_term_bound(f.z as int, up.x as int, f.x as int, up.z as int);
        lemma_cross_term_bound(f.x as int, up.y as int, f.y as int, up.x as int);
    }
    let s = v3_normalize(
        V3 {
            x: cross_term(f.y, up.z, f.z, up.y),
            y: cross_term(f.z, up.x, f.x, up.z),
            z: cross_term(f.x, up.y, f.y, up.x),
        },
    );
    let u = V3 {
        x: cross_term(s.y, f.z, s.z, f.y),
        y: cross_term(s.z, f.x, s.x, f.z),
        z: cross_term(s.x, f.y, s.y, f.x),
    };
    M4 {
        m00: s.x, m01: s.y, m02: s.z, m03: -v3_dot(s, eye),
        m10: u.x, m11: u.y, m12: u.z, m13: -v3_dot(u, eye),
        m20: -f.x, m21: -f.y, m22: -f.z, m23: v3_dot(f, eye),
        m30: 0, m31: 0, m32: 0, m33: FX_ONE,
    }
}

/// The perspective projection with a 45-degree vertical field of view and
/// the fixed near/far planes, for the given window aspect ratio.
pub open spec fn perspective_matrix_spec(window_width: i64, window_height: i64) -> M4 {
    let aspect = fx_div_spec(window_width as int, window_height as int);
    let depth_scale = fx_div_spec(
        fx_add_spec(FAR_PLANE as int, NEAR_PLANE as int),
        (FAR_PLANE - NEAR_PLANE) as int,
    );
    let depth_offset = fx_div_spec(
        fx_mul_spec(fx_mul_spec(2 * FX_ONE, FAR_PLANE as int), NEAR_PLANE as int),
        (FAR_PLANE - NEAR_PLANE) as int,
    );
    M4 {
        m00: fx_div_spec(COT_HALF_FOV as int, aspect) as i64,
        m01: 0, m02: 0, m03: 0,
        m10: 0, m11: COT_HALF_FOV, m12: 0, m13: 0,
        m20: 0, m21: 0,
        m22: (-depth_scale) as i64,
        m23: (-depth_offset) as i64,
        m30: 0, m31: 0, m32: (-FX_ONE) as i64, m33: 0,
    }
}

/// Build the perspective projection for a window of the given fixed-point
/// dimensions.
pub fn create_perspective_matrix(window_width: i64, window_height: i64) -> (r: M4)
    ensures
        r == perspective_matrix_spec(window_width, window_height),
{
    let aspect: i64 = fx_div(window_width, window_height);
    let depth_scale: i64 = fx_div(fx_add(FAR_PLANE, NEAR_PLANE), FAR_PLANE - NEAR_PLANE);
    let depth_offset: i64 = fx_div(
        fx_mul(fx_mul(2 * FX_ONE, FAR_PLANE), NEAR_PLANE),
        FAR_PLANE - NEAR_PLANE,
    );
    M4 {
        m00: fx_div(COT_HALF_FOV, aspect), m01: 0, m02: 0, m03: 0,
        m10: 0, m11: COT_HALF_FOV, m12: 0, m13: 0,
        m20: 0, m21: 0, m22: -depth_scale, m23: -depth_offset,
        m30: 0, m31: 0, m32: -FX_ONE, m33: 0,
    }
}

/// The orthographic projection mapping window pixel coordinates (origin
/// top-left) straight to clip space with depth range [-1, 1].
pub open spec fn ortho_matrix_spec(window_width: i64, window_height: i64) -> M4 {
    M4 {
        m00: fx_div_spec(2 * FX_ONE, window_width as int) as i64,
        m01: 0, m02: 0, m03: (-FX_ONE) as i64,
        m10: 0,
        m11: fx_div_spec(-2 * FX_ONE, window_height as int) as i64,
        m12: 0, m13: FX_ONE,
        m20: 0, m21: 0, m22: (-FX_ONE) as i64, m23: 0,
        m30: 0, m31: 0, m32: 0, m33: FX_ONE,
    }
}

/// Build the HUD orthographic projection for a window of the given
/// fixed-point dimensions.
pub fn create_ortho_projection(window_width: i64, window_height: i64) -> (r: M4)
    ensures
        r == ortho_matrix_spec(window_width, window_height),
{
    M4 {
        m00: fx_div(2 * FX_ONE, window_width), m01: 0, m02: 0, m03: -FX_ONE,
        m10: 0, m11: fx_div(-2 * FX_ONE, window_height), m12: 0, m13: FX_ONE,
        m20: 0, m21: 0, m22: -FX_ONE, m23: 0,
        m30: 0, m31: 0, m32: 0, m33: FX_ONE,
    }
}

/// The viewport map from normalized device coordinates in [-1, 1] to pixel
/// coordinates: x scaled and shifted by half the width, y flipped (screen
/// origin top-left) and shifted by half the height, depth passed through.
pub open spec fn viewport_matrix_spec(width: i64, height: i64) -> M4 {
    let half_w = fx_mul_spec(width as int, FX_HALF as int);
    let half_h = fx_mul_spec(height as int, FX_HALF as int);
    M4 {
        m00: half_w as i64, m01: 0, m02: 0, m03: half_w as i64,
        m10: 0, m11: (-half_h) as i64, m12: 0, m13: half_h as i64,
        m20: 0, m21: 0, m22: FX_ONE, m23: 0,
        m30: 0, m31: 0, m32: 0, m33: FX_ONE,
    }
}

/// Build the viewport matrix for a framebuffer of the given fixed-point
/// dimensions.
pub fn create_viewport_matrix(width: i64, height: i64) -> (r: M4)
    ensures
        r == viewport_matrix_spec(width, height),
{
    let half_w: i64 = fx_mul(width, FX_HALF);
    let half_h: i64 = fx_mul(height, FX_HALF);
    M4 {
        m00: half_w, m01: 0, m02: 0, m03: half_w,
        m10: 0, m11: -half_h, m12: 0, m13: half_h,
        m20: 0, m21: 0, m22: FX_ONE, m23: 0,
        m30: 0, m31: 0, m32: 0, m33: FX_ONE,
    }
}

/// The inverse of the viewport map on a screen-space point: x shifted and
/// rescaled by half the width, y un-flipped by half the height, depth
/// passed through. Composing with the viewport map recovers a point in
/// normalized device coordinates up to fixed-point rounding.
pub open spec fn viewport_unmap_spec(width: int, height: int, s: V3) -> V3 {
    let half_w = fx_mul_spec(width, FX_HALF as int);
    let half_h = fx_mul_spec(height, FX_HALF as int);
    V3 {
        x: fx_div_spec(fx_sub_spec(s.x as int, half_w), half_w) as i64,
        y: fx_div_spec(fx_sub_spec(half_h, s.y as int), half_h) as i64,
        z: s.z,
    }
}

/// Map a screen-space point back to normalized device coordinates.
pub fn viewport_unmap(width: i64, height: i64, s: V3) -> (r: V3)
    ensures
        r == viewport_unmap_spec(width as int, height as int, s),
{
    let half_w: i64 = fx_mul(width, FX_HALF);
    let half_h: i64 = fx_mul(height, FX_HALF);
    V3 {
        x: fx_div(fx_sub(s.x, half_w), half_w),
        y: fx_div(fx_sub(half_h, s.y), half_h),
        z: s.z,
    }
}

/// The inverse of the perspective division: normalized device coordinates
/// rescaled by the recorded clip-space w recover the clip-space position
/// up to fixed-point rounding.
pub open spec fn unproject_to_clip_spec(ndc: V3, w: i64) -> V3 {
    V3 {
        x: fx_mul_spec(ndc.x as int, w as int) as i64,
        y: fx_mul_spec(ndc.y as int, w as int) as i64,
        z: fx_mul_spec(ndc.z as int, w as int) as i64,
    }
}

/// Map a point in normalized device coordinates back to clip space, given
/// the clip-space w it was divided by.
pub fn unproject_to_clip(ndc: V3, w: i64) -> (r: V3)
    ensures
        r == unproject_to_clip_spec(ndc, w),
{
    V3 { x: fx_mul(ndc.x, w), y: fx_mul(ndc.y, w), z: fx_mul(ndc.z, w) }
}

/// The magnitude of a truncating quotient is the quotient of magnitudes.
proof fn lemma_div_trunc_mag(a: int, b: int)
    requires
        b >= 1,
    ensures
        abs(div_trunc(a, b)) == abs(a) as int / b,
{
    vstd::arithmetic::div_mod::lemma_div_pos_is_pos(abs(a) as int, b);
}

/// Mapping a point in normalized device coordinates through the viewport
/// and back through its inverse recovers each coordinate within two raw
/// fixed-point units, and the depth exactly: the viewport stage is
/// invertible up to truncation.
pub proof fn lemma_viewport_round_trip(width: i64, height: i64, ndc: V3)
    requires
        2 * FX_ONE <= width <= 0x400_0000_0000,
        2 * FX_ONE <= height <= 0x400_0000_0000,
        -0x1_0000_0000 <= ndc.x <= 0x1_0000_0000,
        -0x1_0000_0000 <= ndc.y <= 0x1_0000_0000,
        -0x7fff_ffff_ffff_ffff <= ndc.z,
    ensures
        ({
            let s = crate::vecmat::m4_apply_spec(
                viewport_matrix_spec(width, height),
                crate::vecmat::V4 { x: ndc.x, y: ndc.y, z: ndc.z, w: FX_ONE },
            );
            let back = viewport_unmap_spec(
                width as int,
                height as int,
                V3 { x: s.x, y: s.y, z: s.z },
            );
            &&& abs(back.x - ndc.x) <= 2
            &&& abs(back.y - ndc.y) <= 2
            &&& back.z == ndc.z
        }),
{
    let hw = fx_mul_spec(width as int, FX_HALF as int);
    let hh = fx_mul_spec(height as int, FX_HALF as int);
    let fo = FX_ONE as int;
    lemma_div_trunc_mag(width * FX_HALF, fo);
    lemma_div_trunc_mag(height * FX_HALF, fo);
    assert(width * FX_HALF == width * 32768) by (nonlinear_arith);
    assert(2 * FX_ONE * 32768 <= width * 32768 <= 0x400_0000_0000i64 * 32768)
        by (nonlinear_arith)
        requires
            2 * FX_ONE <= width <= 0x400_0000_0000i64,
    ;
    vstd::arithmetic::div_mod::lemma_div_is_ordered(2 * fo * 32768, width * 32768, fo);
    vstd::arithmetic::div_mod::lemma_div_is_ordered(
        width * 32768,
        0x400_0000_0000int * 32768int,
        fo,
    );
    assert(fo <= hw <= 0x200_0000_0000);
    assert(2 * FX_ONE * 32768 <= height * 32768 <= 0x400_0000_0000i64 * 32768)
        by (nonlinear_arith)
        requires
            2 * FX_ONE <= height <= 0x400_0000_0000i64,
    ;
    vstd::arithmetic::div_mod::lemma_div_is_ordered(2 * fo * 32768, height * 32768, fo);
    vstd::arithmetic::div_mod::lemma_div_is_ordered(
        height * 32768,
        0x400_0000_0000int * 32768int,
        fo,
    );
    assert(fo <= hh <= 0x200_0000_0000);
    // the scale entry applied to the coordinate, with its magnitude bound
    let mx = fx_mul_spec(hw, ndc.x as int);
    let my = fx_mul_spec((-hh) as i64 as int, ndc.y as int);
    assert(abs(hw * ndc.x) <= 0x200_0000_0000 * 0x1_0000_0000) by (nonlinear_arith)
        requires
            0 <= hw <= 0x200_0000_0000,
            -0x1_0000_0000 <= ndc.x <= 0x1_0000_0000,
    ;
    assert(abs((-hh) * ndc.y) <= 0x200_0000_0000 * 0x1_0000_0000) by (nonlinear_arith)
        requires
            0 <= hh <= 0x200_0000_0000,
            -0x1_0000_0000 <= ndc.y <= 0x1_0000_0000,
    ;
    lemma_div_trunc_mag(hw * ndc.x, fo);
    lemma_div_trunc_mag((-hh) * ndc.y, fo);
    vstd::arithmetic::div_mod::lemma_div_is_ordered(
        abs(hw * ndc.x) as int,
        0x200_0000_0000int * 0x1_0000_0000int,
        fo,
    );
    vstd::arithmetic::div_mod::lemma_div_is_ordered(
        abs((-hh) * ndc.y) as int,
        0x200_0000_0000int * 0x1_0000_0000int,
        fo,
    );
    // the translation entries reproduce the half extents exactly
    vstd::arithmetic::div_mod::lemma_div_multiples_vanish(hw, fo);
    vstd::arithmetic::div_mod::lemma_div_multiples_vanish(hh, fo);
    assert(hw * fo == fo * hw) by (nonlinear_arith);
    assert(hh * fo == fo * hh) by (nonlinear_arith);
    assert(fx_mul_spec(hw, fo) == hw);
    assert(fx_mul_spec(hh, fo) == hh);
    // x: scaled, shifted, un-shifted, un-scaled
    let sx = fx_add_spec(mx, hw);
    assert(fx_sub_spec(sx, hw) == mx);
    assert(ndc.x * hw == hw * ndc.x) by (nonlinear_arith);
    crate::fixed::lemma_rescale_round_trip(ndc.x as int, hw, fo);
    lemma_div_trunc_mag(mx * fo, hw);
    assert(abs(mx * fo) <= 0x200_0000_0000_0000 * 0x1_0000) by (nonlinear_arith)
        requires
            abs(mx) <= 0x200_0000_0000_0000,
            fo == 0x1_0000,
    ;
    vstd::arithmetic::div_mod::lemma_div_is_ordered(
        abs(mx * fo) as int,
        0x200_0000_0000_0000int * 0x1_0000int,
        hw,
    );
    assert(fo / hw + 1 <= 2) by {
        vstd::arithmetic::div_mod::lemma_div_is_ordered(fo, hw, hw);
        vstd::arithmetic::div_mod::lemma_div_by_self(hw);
    }
    // y: the flipped sign cancels in the inverse
    assert(div_trunc((-hh) * ndc.y, fo) == -div_trunc(hh * ndc.y, fo)) by {
        assert((-hh) * ndc.y == -(hh * ndc.y)) by (nonlinear_arith);
    }
    let myp = fx_mul_spec(hh, ndc.y as int);
    assert(my == -myp);
    let sy = fx_add_spec(my, hh);
    assert(fx_sub_spec(hh, sy) == myp);
    assert(ndc.y * hh == hh * ndc.y) by (nonlinear_arith);
    crate::fixed::lemma_rescale_round_trip(ndc.y as int, hh, fo);
    lemma_div_trunc_mag(myp * fo, hh);
    assert(abs(myp * fo) <= 0x200_0000_0000_0000 * 0x1_0000) by (nonlinear_arith)
        requires
            abs(myp) <= 0x200_0000_0000_0000,
            fo == 0x1_0000,
    ;
    vstd::arithmetic::div_mod::lemma_div_is_ordered(
        abs(myp * fo) as int,
        0x200_0000_0000_0000int * 0x1_0000int,
        hh,
    );
    assert(fo / hh + 1 <= 2) by {
        vstd::arithmetic::div_mod::lemma_div_is_ordered(fo, hh, hh);
        vstd::arithmetic::div_mod::lemma_div_by_self(hh);
    }
    // z passes through the identity row in both directions
    let mz = fx_mul_spec(fo, ndc.z as int);
    assert(abs(fo * (ndc.z as int)) == fo * abs(ndc.z as int)) by (nonlinear_arith)
        requires
            fo > 0,
    ;
    vstd::arithmetic::div_mod::lemma_div_multiples_vanish(abs(ndc.z as int) as int, fo);
    assert((fo * abs(ndc.z as int)) as int / fo == abs(ndc.z as int));
    if ndc.z < 0 {
        assert(fo * ndc.z < 0) by (nonlinear_arith)
            requires
                fo > 0,
                ndc.z < 0,
        ;
    } else {
        assert(fo * ndc.z >= 0) by (nonlinear_arith)
            requires
                fo > 0,
                ndc.z >= 0,
        ;
    }
    assert(mz == ndc.z as int);
}

/// Rescaling normalized device coordinates by the recorded clip-space w
/// undoes the perspective division within `w` rescaled by one fixed-point
/// unit, plus one: the perspective divide is invertible up to truncation.
pub proof fn lemma_perspective_divide_round_trip(clip: V3, w: i64)
    requires
        1 <= w <= 0x8000_0000_0000,
        -0x4000_0000_0000 <= clip.x <= 0x4000_0000_0000,
        -0x4000_0000_0000 <= clip.y <= 0x4000_0000_0000,
        -0x4000_0000_0000 <= clip.z <= 0x4000_0000_0000,
    ensures
        ({
            let ndc = V3 {
                x: fx_div_spec(clip.x as int, w as int) as i64,
                y: fx_div_spec(clip.y as int, w as int) as i64,
                z: fx_div_spec(clip.z as int, w as int) as i64,
            };
            let back = unproject_to_clip_spec(ndc, w);
            &&& abs(back.x - clip.x) <= w / FX_ONE + 1
            &&& abs(back.y - clip.y) <= w / FX_ONE + 1
            &&& abs(back.z - clip.z) <= w / FX_ONE + 1
        }),
{
    lemma_unproject_axis(clip.x as int, w as int);
    lemma_unproject_axis(clip.y as int, w as int);
    lemma_unproject_axis(clip.z as int, w as int);
}

/// One axis of the perspective-divide round trip.
proof fn lemma_unproject_axis(c: int, w: int)
    requires
        1 <= w <= 0x8000_0000_0000,
        -0x4000_0000_0000 <= c <= 0x4000_0000_0000,
    ensures
        abs(fx_mul_spec(fx_div_spec(c, w), w) - c) <= w / (FX_ONE as int) + 1,
{
    let fo = FX_ONE as int;
    let m = div_trunc(c * fo, w);
    lemma_div_trunc_mag(c * fo, w);
    assert(abs(c * fo) <= 0x4000_0000_0000 * 0x1_0000) by (nonlinear_arith)
        requires
            -0x4000_0000_0000 <= c <= 0x4000_0000_0000,
            fo == 0x1_0000,
    ;
    vstd::arithmetic::div_mod::lemma_div_is_ordered(
        abs(c * fo) as int,
        0x4000_0000_0000int * 0x1_0000int,
        1,
    );
    vstd::arithmetic::div_mod::lemma_div_is_ordered_by_denominator(abs(c * fo) as int, 1, w);
    assert(abs(m) <= 0x4000_0000_0000 * 0x1_0000);
    assert(fx_div_spec(c, w) == m);
    lemma_div_trunc_mag(m * w, fo);
    crate::fixed::lemma_div_trunc_close(c * fo, w);
    assert(abs(m * w) <= abs(c * fo) + w) by {
        assert(abs(c * fo - m * w) < w);
    }
    vstd::arithmetic::div_mod::lemma_div_is_ordered(
        abs(m * w) as int,
        0x4000_0000_0000int * 0x1_0000int + 0x8000_0000_0000int,
        fo,
    );
    assert(fx_mul_spec(m, w) == div_trunc(m * w, fo));
    crate::fixed::lemma_rescale_round_trip(c, fo, w);
}

} // verus!
