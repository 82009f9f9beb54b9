//! Frustum visibility culling.
//!
//! Six half-space planes are extracted from the combined view-projection
//! matrix by adding or subtracting its rows against the fourth row, then
//! each plane's normal is rescaled toward unit fixed-point length. A
//! bounding sphere passes the visibility test exactly when it is not
//! entirely on the negative side of any plane — a conservative gate: a
//! sphere that overlaps a plane still passes.

use vstd::prelude::*;
use crate::vecmat::{V3, M4, v3_dot, dot3_spec};
use crate::fixed::{fx_add, fx_add_spec, fx_div, fx_div_spec};
use crate::norm::{isqrt, sqrt_floor, dist_sq};

verus! {

/// One clipping half-space: the fixed-point normal `(a, b, c)` and offset
/// `d`; points with nonnegative signed distance are inside.
#[derive(Clone, Copy, PartialEq, Eq, Structural, Debug)]
pub struct Plane {
    pub a: i64,
    pub b: i64,
    pub c: i64,
    pub d: i64,
}

/// The six clipping planes of a camera's viewing volume, rebuilt from the
/// view-projection matrix once per frame.
#[derive(Clone, Copy, PartialEq, Eq, Structural, Debug)]
pub struct Frustum {
    pub left: Plane,
    pub right: Plane,
    pub bottom: Plane,
    pub top: Plane,
    pub near: Plane,
    pub far: Plane,
}

/// The fixed-point signed distance from a point to a plane (exact over the
/// saturating dot product).
pub open spec fn plane_dist_spec(p: Plane, v: V3) -> int {
    fx_add_spec(
        dot3_spec(p.a as int, v.x as int, p.b as int, v.y as int, p.c as int, v.z as int),
        p.d as int,
    )
}

/// A plane rescaled toward a unit fixed-point normal: all four components
/// divided by the floor length of the normal (a zero normal stays as it
/// is).
pub open spec fn plane_normalize_spec(p: Plane) -> Plane {
    let l = sqrt_floor(
        (p.a * p.a + p.b * p.b + p.c * p.c) as int,
    );
    if l == 0 {
        p
    } else {
        Plane {
            a: fx_div_spec(p.a as int, l) as i64,
            b: fx_div_spec(p.b as int, l) as i64,
            c: fx_div_spec(p.c as int, l) as i64,
            d: fx_div_spec(p.d as int, l) as i64,
        }
    }
}

/// Every matrix entry within the range frustum extraction accepts.
pub open spec fn m4_bounded(m: M4, k: int) -> bool {
    &&& -k <= m.m00 <= k && -k <= m.m01 <= k && -k <= m.m02 <= k && -k <= m.m03 <= k
    &&& -k <= m.m10 <= k && -k <= m.m11 <= k && -k <= m.m12 <= k && -k <= m.m13 <= k
    &&& -k <= m.m20 <= k && -k <= m.m21 <= k && -k <= m.m22 <= k && -k <= m.m23 <= k
    &&& -k <= m.m30 <= k && -k <= m.m31 <= k && -k <= m.m32 <= k && -k <= m.m33 <= k
}

/// The plane made of row 3 of the matrix plus (`sign` = 1) or minus
/// (`sign` = -1) row `i`, before normalization.
pub open spec fn raw_plane_spec(r3: (int, int, int, int), ri: (int, int, int, int), sign: int) -> Plane {
    Plane {
        a: fx_add_spec(r3.0, sign * ri.0) as i64,
        b: fx_add_spec(r3.1, sign * ri.1) as i64,
        c: fx_add_spec(r3.2, sign * ri.2) as i64,
        d: fx_add_spec(r3.3, sign * ri.3) as i64,
    }
}

/// The six normalized planes of a view-projection matrix.
pub open spec fn frustum_from_spec(m: M4) -> Frustum {
    let r0 = (m.m00 as int, m.m01 as int, m.m02 as int, m.m03 as int);
    let r1 = (m.m10 as int, m.m11 as int, m.m12 as int, m.m13 as int);
    let r2 = (m.m20 as int, m.m21 as int, m.m22 as int, m.m23 as int);
    let r3 = (m.m30 as int, m.m31 as int, m.m32 as int, m.m33 as int);
    Frustum {
        left: plane_normalize_spec(raw_plane_spec(r3, r0, 1)),
        right: plane_normalize_spec(raw_plane_spec(r3, r0, -1)),
        bottom: plane_normalize_spec(raw_plane_spec(r3, r1, 1)),
        top: plane_normalize_spec(raw_plane_spec(r3, r1, -1)),
        near: plane_normalize_spec(raw_plane_spec(r3, r2, 1)),
        far: plane_normalize_spec(raw_plane_spec(r3, r2, -1)),
    }
}

/// Whether a bounding sphere passes the visibility test: on or over the
/// inside boundary of every plane, with `radius` of slack.
pub open spec fn contains_spec(f: Frustum, center: V3, radius: i64) -> bool {
    &&& plane_dist_spec(f.left, center) >= -(radius as int)
    &&& plane_dist_spec(f.right, center) >= -(radius as int)
    &&& plane_dist_spec(f.bottom, center) >= -(radius as int)
    &&& plane_dist_spec(f.top, center) >= -(radius as int)
    &&& plane_dist_spec(f.near, center) >= -(radius as int)
    &&& plane_dist_spec(f.far, center) >= -(radius as int)
}

fn plane_normalize(p: Plane) -> (r: Plane)
    requires
        -0x2000_0000_0000_0000 <= p.a <= 0x2000_0000_0000_0000,
        -0x2000_0000_0000_0000 <= p.b <= 0x2000_0000_0000_0000,
        -0x2000_0000_0000_0000 <= p.c <= 0x2000_0000_0000_0000,
    ensures
        r == plane_normalize_spec(p),
{
    let d2: u128 = dist_sq(
        V3 { x: p.a, y: p.b, z: p.c },
        V3 { x: 0, y: 0, z: 0 },
    );
    let l: u64 = isqrt(d2);
    proof {
        assert((p.a - 0) * (p.a - 0) == p.a * p.a) by (nonlinear_arith);
        assert((p.b - 0) * (p.b - 0) == p.b * p.b) by (nonlinear_arith);
        assert((p.c - 0) * (p.c - 0) == p.c * p.c) by (nonlinear_arith);
    }
    if l == 0 {
        p
    } else {
        proof {
            assert(p.a * p.a <= 0x2000_0000_0000_0000 * 0x2000_0000_0000_0000)
                by (nonlinear_arith)
                requires
                    -0x2000_0000_0000_0000 <= p.a <= 0x2000_0000_0000_0000,
            ;
            assert(p.b * p.b <= 0x2000_0000_0000_0000 * 0x2000_0000_0000_0000)
                by (nonlinear_arith)
                requires
                    -0x2000_0000_0000_0000 <= p.b <= 0x2000_0000_0000_0000,
            ;
            assert(p.c * p.c <= 0x2000_0000_0000_0000 * 0x2000_0000_0000_0000)
                by (nonlinear_arith)
                requires
                    -0x2000_0000_0000_0000 <= p.c <= 0x2000_0000_0000_0000,
            ;
            assert(p.a * p.a >= 0) by (nonlinear_arith);
            assert(p.b * p.b >= 0) by (nonlinear_arith);
            assert(p.c * p.c >= 0) by (nonlinear_arith);
            assert(l < 0x4000_0000_0000_0000u64) by (nonlinear_arith)
                requires
                    (l as int) * (l as int) <= d2,
                    d2 < 0x1000_0000_0000_0000_0000_0000_0000_0000u128,
                    l >= 0,
            ;
        }
        Plane {
            a: fx_div(p.a, l as i64),
            b: fx_div(p.b, l as i64),
            c: fx_div(p.c, l as i64),
            d: fx_div(p.d, l as i64),
        }
    }
}

impl Frustum {
    /// Extract and normalize the six clipping planes of a view-projection
    /// matrix.
    pub fn from_matrix(m: &M4) -> (r: Frustum)
        requires
            m4_bounded(*m, 0x1000_0000_0000_0000),
        ensures
            r == frustum_from_spec(*m),
    {
        Frustum {
            left: plane_normalize(
                Plane {
                    a: fx_add(m.m30, m.m00),
                    b: fx_add(m.m31, m.m01),
                    c: fx_add(m.m32, m.m02),
                    d: fx_add(m.m33, m.m03),
                },
            ),
            right: plane_normalize(
                Plane {
                    a: fx_add(m.m30, -m.m00),
                    b: fx_add(m.m31, -m.m01),
                    c: fx_add(m.m32, -m.m02),
                    d: fx_add(m.m33, -m.m03),
                },
            ),
            bottom: plane_normalize(
                Plane {
                    a: fx_add(m.m30, m.m10),
                    b: fx_add(m.m31, m.m11),
                    c: fx_add(m.m32, m.m12),
                    d: fx_add(m.m33, m.m13),
                },
            ),
            top: plane_normalize(
                Plane {
                    a: fx_add(m.m30, -m.m10),
                    b: fx_add(m.m31, -m.m11),
                    c: fx_add(m.m32, -m.m12),
                    d: fx_add(m.m33, -m.m13),
                },
            ),
            near: plane_normalize(
                Plane {
                    a: fx_add(m.m30, m.m20),
                    b: fx_add(m.m31, m.m21),
                    c: fx_add(m.m32, m.m22),
                    d: fx_add(m.m33, m.m23),
                },
            ),
            far: plane_normalize(
                Plane {
                    a: fx_add(m.m30, -m.m20),
                    b: fx_add(m.m31, -m.m21),
                    c: fx_add(m.m32, -m.m22),
                    d: fx_add(m.m33, -m.m23),
                },
            ),
        }
    }

    /// Test a bounding sphere: visible exactly when its center's signed
    /// distance to every plane is at least `-radius`.
    pub fn contains(&self, center: V3, radius: i64) -> (r: bool)
        requires
            radius >= 0,
        ensures
            r == contains_spec(*self, center, radius),
    {
        plane_inside(&self.left, center, radius) && plane_inside(&self.right, center, radius)
            && plane_inside(&self.bottom, center, radius)
            && plane_inside(&self.top, center, radius)
            && plane_inside(&self.near, center, radius)
            && plane_inside(&self.far, center, radius)
    }
}

fn plane_inside(p: &Plane, center: V3, radius: i64) -> (r: bool)
    requires
        radius >= 0,
    ensures
        r == (plane_dist_spec(*p, center) >= -(radius as int)),
{
    let dist: i64 = fx_add(v3_dot(V3 { x: p.a, y: p.b, z: p.c }, center), p.d);
    dist >= -radius
}

/// A bounding sphere entirely on the negative side of any single plane is
/// reported invisible: one separating plane suffices to cull.
pub proof fn lemma_separating_plane_culls(f: Frustum, center: V3, radius: i64)
    requires
        radius >= 0,
        plane_dist_spec(f.left, center) < -(radius as int)
            || plane_dist_spec(f.right, center) < -(radius as int)
            || plane_dist_spec(f.bottom, center) < -(radius as int)
            || plane_dist_spec(f.top, center) < -(radius as int)
            || plane_dist_spec(f.near, center) < -(radius as int)
            || plane_dist_spec(f.far, center) < -(radius as int),
    ensures
        !contains_spec(f, center, radius),
{
}

/// A sphere whose center lies on the inside of every plane — a nonnegative
/// signed distance, as the camera's look-at target has — is visible for
/// every radius: the test is conservative and can only err toward
/// visibility.
pub proof fn lemma_inside_center_visible(f: Frustum, center: V3, radius: i64)
    requires
        radius >= 0,
        plane_dist_spec(f.left, center) >= 0,
        plane_dist_spec(f.right, center) >= 0,
        plane_dist_spec(f.bottom, center) >= 0,
        plane_dist_spec(f.top, center) >= 0,
        plane_dist_spec(f.near, center) >= 0,
        plane_dist_spec(f.far, center) >= 0,
    ensures
        contains_spec(f, center, radius),
{
}

} // verus!
