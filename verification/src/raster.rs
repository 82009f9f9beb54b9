//! Barycentric triangle rasterization.
//!
//! A triangle of three shaded vertices yields one fragment for every pixel
//! whose center passes all three edge functions, evaluated in exact integer
//! arithmetic on the fixed-point screen coordinates. Winding decides
//! facing: a positive doubled area is front-facing; a back-facing triangle
//! contributes no fragments unless culling is disabled. Depth, object-space
//! position and normal are interpolated by the barycentric edge weights,
//! and the lighting intensity comes from the interpolated normal against a
//! fixed light direction. The returned fragment list is pinned down
//! exactly: it is the row-major sequence of covered pixels within the
//! given bounds.

use vstd::prelude::*;
use vstd::arithmetic::div_mod::lemma_fundamental_div_mod_converse;
use crate::fixed::{div_trunc, div_trunc_i128, clamp_spec, clamp_i128, FX_ONE, FX_HALF};
use crate::vecmat::{V3, dot3, dot3_spec};
use crate::vertex::{Vertex, Fragment};
use crate::norm::{v3_bounded, v3_normalize, v3_normalize_spec};

verus! {

/// Magnitude bound for interpolated attributes; interpolation clamps here.
pub const ATTR_LIMIT: i64 = 0x8000_0000_0000;

/// Magnitude bound on screen-space coordinates the rasterizer accepts.
pub const SCREEN_LIMIT: i64 = 0x8000_0000;

/// Largest framebuffer dimension the rasterizer scans.
pub const RASTER_MAX_DIM: usize = 32768;

/// x component of the fixed unit light direction (from (1, 1, 3)).
pub const LIGHT_X: i64 = 19760;

/// y component of the fixed unit light direction.
pub const LIGHT_Y: i64 = 19760;

/// z component of the fixed unit light direction.
pub const LIGHT_Z: i64 = 59280;

/// The fixed-point coordinate of a pixel's center.
pub open spec fn center_coord(p: int) -> int {
    p * (FX_ONE as int) + FX_HALF as int
}

/// The edge function: the cross product of the directed edge from `a` to
/// `b` with the vector from `a` to the query point `q`; positive when `q`
/// lies to the edge's left.
pub open spec fn edge_val(ax: int, ay: int, bx: int, by: int, qx: int, qy: int) -> int {
    (bx - ax) * (qy - ay) - (by - ay) * (qx - ax)
}

/// Twice the signed screen-space area of the triangle; its sign is the
/// winding (positive = front-facing).
pub open spec fn tri_area_spec(v0: Vertex, v1: Vertex, v2: Vertex) -> int {
    edge_val(
        v0.transformed_position.x as int,
        v0.transformed_position.y as int,
        v1.transformed_position.x as int,
        v1.transformed_position.y as int,
        v2.transformed_position.x as int,
        v2.transformed_position.y as int,
    )
}

/// The barycentric edge weight opposite vertex 0 at pixel `(px, py)`.
pub open spec fn tri_w0_spec(v0: Vertex, v1: Vertex, v2: Vertex, px: int, py: int) -> int {
    edge_val(
        v1.transformed_position.x as int,
        v1.transformed_position.y as int,
        v2.transformed_position.x as int,
        v2.transformed_position.y as int,
        center_coord(px),
        center_coord(py),
    )
}

/// The barycentric edge weight opposite vertex 1 at pixel `(px, py)`.
pub open spec fn tri_w1_spec(v0: Vertex, v1: Vertex, v2: Vertex, px: int, py: int) -> int {
    edge_val(
        v2.transformed_position.x as int,
        v2.transformed_position.y as int,
        v0.transformed_position.x as int,
        v0.transformed_position.y as int,
        center_coord(px),
        center_coord(py),
    )
}

/// The barycentric edge weight opposite vertex 2 at pixel `(px, py)`.
pub open spec fn tri_w2_spec(v0: Vertex, v1: Vertex, v2: Vertex, px: int, py: int) -> int {
    edge_val(
        v0.transformed_position.x as int,
        v0.transformed_position.y as int,
        v1.transformed_position.x as int,
        v1.transformed_position.y as int,
        center_coord(px),
        center_coord(py),
    )
}

/// Whether the center of pixel `(px, py)` is covered by the triangle: all
/// three edge weights on the triangle's winding side (boundaries
/// inclusive). A degenerate triangle covers nothing; a back-facing one
/// covers nothing unless culling is disabled.
pub open spec fn tri_covered_spec(
    v0: Vertex, v1: Vertex, v2: Vertex, disable_culling: bool, px: int, py: int,
) -> bool {
    let area = tri_area_spec(v0, v1, v2);
    let w0 = tri_w0_spec(v0, v1, v2, px, py);
    let w1 = tri_w1_spec(v0, v1, v2, px, py);
    let w2 = tri_w2_spec(v0, v1, v2, px, py);
    if area > 0 {
        w0 >= 0 && w1 >= 0 && w2 >= 0
    } else if area < 0 && disable_culling {
        w0 <= 0 && w1 <= 0 && w2 <= 0
    } else {
        false
    }
}

/// An attribute interpolated by the barycentric weights: the weighted sum
/// divided by the doubled area (rounded toward zero), clamped to the
/// attribute range.
pub open spec fn interp_spec(
    w0: int, a0: int, w1: int, a1: int, w2: int, a2: int, area: int,
) -> int {
    clamp_spec(div_trunc(w0 * a0 + w1 * a1 + w2 * a2, area), ATTR_LIMIT as int)
}

/// The lighting intensity of a fragment: the interpolated normal rescaled
/// to unit length, dotted with the fixed light direction, clamped to
/// `[0, FX_ONE]`.
pub open spec fn light_intensity_spec(n: V3) -> int {
    let u = v3_normalize_spec(n);
    let d = dot3_spec(
        u.x as int,
        LIGHT_X as int,
        u.y as int,
        LIGHT_Y as int,
        u.z as int,
        LIGHT_Z as int,
    );
    if d < 0 {
        0
    } else if d > FX_ONE {
        FX_ONE as int
    } else {
        d
    }
}

/// The fragment the triangle produces at a covered pixel.
pub open spec fn tri_frag_spec(
    v0: Vertex, v1: Vertex, v2: Vertex, px: int, py: int,
) -> Fragment {
    let area = tri_area_spec(v0, v1, v2);
    let w0 = tri_w0_spec(v0, v1, v2, px, py);
    let w1 = tri_w1_spec(v0, v1, v2, px, py);
    let w2 = tri_w2_spec(v0, v1, v2, px, py);
    let nrm = V3 {
        x: interp_spec(w0, v0.transformed_normal.x as int, w1, v1.transformed_normal.x as int, w2, v2.transformed_normal.x as int, area) as i64,
        y: interp_spec(w0, v0.transformed_normal.y as int, w1, v1.transformed_normal.y as int, w2, v2.transformed_normal.y as int, area) as i64,
        z: interp_spec(w0, v0.transformed_normal.z as int, w1, v1.transformed_normal.z as int, w2, v2.transformed_normal.z as int, area) as i64,
    };
    Fragment {
        x: px as usize,
        y: py as usize,
        depth: interp_spec(w0, v0.transformed_position.z as int, w1, v1.transformed_position.z as int, w2, v2.transformed_position.z as int, area) as i64,
        vertex_position: V3 {
            x: interp_spec(w0, v0.position.x as int, w1, v1.position.x as int, w2, v2.position.x as int, area) as i64,
            y: interp_spec(w0, v0.position.y as int, w1, v1.position.y as int, w2, v2.position.y as int, area) as i64,
            z: interp_spec(w0, v0.position.z as int, w1, v1.position.z as int, w2, v2.position.z as int, area) as i64,
        },
        normal: nrm,
        intensity: light_intensity_spec(nrm) as i64,
    }
}

/// The fragments of the first `n` pixels in row-major order (width `w`):
/// each covered pixel appends its fragment.
pub open spec fn tri_frags_upto(
    v0: Vertex, v1: Vertex, v2: Vertex, disable_culling: bool, w: int, n: int,
) -> Seq<Fragment>
    decreases n,
{
    if n <= 0 {
        Seq::empty()
    } else {
        let prev = tri_frags_upto(v0, v1, v2, disable_culling, w, n - 1);
        let px = (n - 1) % w;
        let py = (n - 1) / w;
        if tri_covered_spec(v0, v1, v2, disable_culling, px, py) {
            prev.push(tri_frag_spec(v0, v1, v2, px, py))
        } else {
            prev
        }
    }
}

/// All fragments of the triangle within a `w` by `h` pixel grid, row-major.
pub open spec fn tri_frags_spec(
    v0: Vertex, v1: Vertex, v2: Vertex, disable_culling: bool, w: int, h: int,
) -> Seq<Fragment> {
    tri_frags_upto(v0, v1, v2, disable_culling, w, w * h)
}

/// What the rasterizer asks of a shaded vertex: screen x/y within the
/// addressable screen range, and every other attribute within the
/// interpolation range.
pub open spec fn raster_vertex_ok(v: Vertex) -> bool {
    &&& -SCREEN_LIMIT <= v.transformed_position.x <= SCREEN_LIMIT
    &&& -SCREEN_LIMIT <= v.transformed_position.y <= SCREEN_LIMIT
    &&& -ATTR_LIMIT <= v.transformed_position.z <= ATTR_LIMIT
    &&& v3_bounded(v.position, ATTR_LIMIT as int)
    &&& v3_bounded(v.transformed_normal, ATTR_LIMIT as int)
}

/// The edge function evaluated exactly in wide integers.
fn edge_i128(ax: i64, ay: i64, bx: i64, by: i64, qx: i64, qy: i64) -> (e: i128)
    requires
        -0x1_0000_0000 <= ax <= 0x1_0000_0000,
        -0x1_0000_0000 <= ay <= 0x1_0000_0000,
        -0x1_0000_0000 <= bx <= 0x1_0000_0000,
        -0x1_0000_0000 <= by <= 0x1_0000_0000,
        -0x1_0000_0000 <= qx <= 0x1_0000_0000,
        -0x1_0000_0000 <= qy <= 0x1_0000_0000,
    ensures
        e as int == edge_val(ax as int, ay as int, bx as int, by as int, qx as int, qy as int),
        -0x8_0000_0000_0000_0000i128 <= e <= 0x8_0000_0000_0000_0000i128,
{
    let u: i128 = bx as i128 - ax as i128;
    let v: i128 = qy as i128 - ay as i128;
    let s: i128 = by as i128 - ay as i128;
    let t: i128 = qx as i128 - ax as i128;
    proof {
        assert(-0x4_0000_0000_0000_0000i128 <= u * v <= 0x4_0000_0000_0000_0000i128)
            by (nonlinear_arith)
            requires
                -0x2_0000_0000i128 <= u <= 0x2_0000_0000i128,
                -0x2_0000_0000i128 <= v <= 0x2_0000_0000i128,
        ;
        assert(-0x4_0000_0000_0000_0000i128 <= s * t <= 0x4_0000_0000_0000_0000i128)
            by (nonlinear_arith)
            requires
                -0x2_0000_0000i128 <= s <= 0x2_0000_0000i128,
                -0x2_0000_0000i128 <= t <= 0x2_0000_0000i128,
        ;
    }
    u * v - s * t
}

/// One interpolated attribute, exactly as `interp_spec` says.
fn interp3(w0: i128, a0: i64, w1: i128, a1: i64, w2: i128, a2: i64, area: i128) -> (r: i64)
    requires
        area != 0,
        -0x8_0000_0000_0000_0000i128 <= w0 <= 0x8_0000_0000_0000_0000i128,
        -0x8_0000_0000_0000_0000i128 <= w1 <= 0x8_0000_0000_0000_0000i128,
        -0x8_0000_0000_0000_0000i128 <= w2 <= 0x8_0000_0000_0000_0000i128,
        -ATTR_LIMIT <= a0 <= ATTR_LIMIT,
        -ATTR_LIMIT <= a1 <= ATTR_LIMIT,
        -ATTR_LIMIT <= a2 <= ATTR_LIMIT,
        area > i128::MIN,
    ensures
        r as int == interp_spec(
            w0 as int, a0 as int, w1 as int, a1 as int, w2 as int, a2 as int, area as int,
        ),
        -ATTR_LIMIT <= r <= ATTR_LIMIT,
{
    proof {
        assert(-0x4_0000_0000_0000_0000_0000_0000_0000i128 <= w0 * (a0 as i128)
            <= 0x4_0000_0000_0000_0000_0000_0000_0000i128) by (nonlinear_arith)
            requires
                -0x8_0000_0000_0000_0000i128 <= w0 <= 0x8_0000_0000_0000_0000i128,
                -0x8000_0000_0000i128 <= a0 as i128 <= 0x8000_0000_0000i128,
        ;
        assert(-0x4_0000_0000_0000_0000_0000_0000_0000i128 <= w1 * (a1 as i128)
            <= 0x4_0000_0000_0000_0000_0000_0000_0000i128) by (nonlinear_arith)
            requires
                -0x8_0000_0000_0000_0000i128 <= w1 <= 0x8_0000_0000_0000_0000i128,
                -0x8000_0000_0000i128 <= a1 as i128 <= 0x8000_0000_0000i128,
        ;
        assert(-0x4_0000_0000_0000_0000_0000_0000_0000i128 <= w2 * (a2 as i128)
            <= 0x4_0000_0000_0000_0000_0000_0000_0000i128) by (nonlinear_arith)
            requires
                -0x8_0000_0000_0000_0000i128 <= w2 <= 0x8_0000_0000_0000_0000i128,
                -0x8000_0000_0000i128 <= a2 as i128 <= 0x8000_0000_0000i128,
        ;
    }
    let num: i128 = w0 * (a0 as i128) + w1 * (a1 as i128) + w2 * (a2 as i128);
    let q: i128 = div_trunc_i128(num, area);
    clamp_i128(q, ATTR_LIMIT)
}

/// Lighting intensity of the interpolated normal against the fixed light.
fn light_intensity(n: V3) -> (r: i64)
    requires
        v3_bounded(n, ATTR_LIMIT as int),
    ensures
        r as int == light_intensity_spec(n),
        0 <= r <= FX_ONE,
{
    let u = v3_normalize(n);
    let d = dot3(u.x, LIGHT_X, u.y, LIGHT_Y, u.z, LIGHT_Z);
    if d < 0 {
        0
    } else if d > FX_ONE {
        FX_ONE
    } else {
        d
    }
}

/// Rasterize one triangle into the row-major fragment list of all covered
/// pixel centers within a `limit_w` by `limit_h` grid.
pub fn triangle(
    v0: &Vertex, v1: &Vertex, v2: &Vertex, disable_culling: bool, limit_w: usize, limit_h: usize,
) -> (r: Vec<Fragment>)
    requires
        raster_vertex_ok(*v0),
        raster_vertex_ok(*v1),
        raster_vertex_ok(*v2),
        limit_w <= RASTER_MAX_DIM,
        limit_h <= RASTER_MAX_DIM,
    ensures
        r@ == tri_frags_spec(*v0, *v1, *v2, disable_culling, limit_w as int, limit_h as int),
{
    let mut frags: Vec<Fragment> = Vec::new();
    if limit_w == 0 || limit_h == 0 {
        proof {
            assert(limit_w as int * limit_h as int == 0) by (nonlinear_arith)
                requires
                    limit_w == 0 || limit_h == 0,
            ;
        }
        return frags;
    }
    let p0 = v0.transformed_position;
    let p1 = v1.transformed_position;
    let p2 = v2.transformed_position;
    let area: i128 = edge_i128(p0.x, p0.y, p1.x, p1.y, p2.x, p2.y);
    let ghost gv0 = *v0;
    let ghost gv1 = *v1;
    let ghost gv2 = *v2;
    let mut py: usize = 0;
    while py < limit_h
        invariant
            raster_vertex_ok(gv0),
            raster_vertex_ok(gv1),
            raster_vertex_ok(gv2),
            p0 == gv0.transformed_position,
            p1 == gv1.transformed_position,
            p2 == gv2.transformed_position,
            gv0 == *v0 && gv1 == *v1 && gv2 == *v2,
            0 < limit_w <= RASTER_MAX_DIM,
            0 < limit_h <= RASTER_MAX_DIM,
            py <= limit_h,
            area as int == tri_area_spec(gv0, gv1, gv2),
            -0x8_0000_0000_0000_0000i128 <= area <= 0x8_0000_0000_0000_0000i128,
            frags@ == tri_frags_upto(
                gv0, gv1, gv2, disable_culling, limit_w as int, py as int * limit_w as int,
            ),
        decreases limit_h - py,
    {
        let mut px: usize = 0;
        while px < limit_w
            invariant
                raster_vertex_ok(gv0),
                raster_vertex_ok(gv1),
                raster_vertex_ok(gv2),
                p0 == gv0.transformed_position,
                p1 == gv1.transformed_position,
                p2 == gv2.transformed_position,
                gv0 == *v0 && gv1 == *v1 && gv2 == *v2,
                0 < limit_w <= RASTER_MAX_DIM,
                0 < limit_h <= RASTER_MAX_DIM,
                py < limit_h,
                px <= limit_w,
                area as int == tri_area_spec(gv0, gv1, gv2),
                -0x8_0000_0000_0000_0000i128 <= area <= 0x8_0000_0000_0000_0000i128,
                frags@ == tri_frags_upto(
                    gv0,
                    gv1,
                    gv2,
                    disable_culling,
                    limit_w as int,
                    py as int * limit_w as int + px as int,
                ),
            decreases limit_w - px,
        {
            let ghost n: int = py as int * limit_w as int + px as int;
            proof {
                assert(0 <= py as int * limit_w as int <= 32768 * 32768) by (nonlinear_arith)
                    requires
                        0 <= py as int <= 32768,
                        0 < limit_w as int <= 32768,
                ;
                lemma_fundamental_div_mod_converse(n, limit_w as int, py as int, px as int);
            }
            let qx: i64 = (px as i64) * 65536 + 32768;
            let qy: i64 = (py as i64) * 65536 + 32768;
            let w0: i128 = edge_i128(p1.x, p1.y, p2.x, p2.y, qx, qy);
            let w1: i128 = edge_i128(p2.x, p2.y, p0.x, p0.y, qx, qy);
            let w2: i128 = edge_i128(p0.x, p0.y, p1.x, p1.y, qx, qy);
            let covered: bool = if area > 0 {
                w0 >= 0 && w1 >= 0 && w2 >= 0
            } else if area < 0 && disable_culling {
                w0 <= 0 && w1 <= 0 && w2 <= 0
            } else {
                false
            };
            if covered {
                let nrm = V3 {
                    x: interp3(
                        w0, v0.transformed_normal.x, w1, v1.transformed_normal.x,
                        w2, v2.transformed_normal.x, area,
                    ),
                    y: interp3(
                        w0, v0.transformed_normal.y, w1, v1.transformed_normal.y,
                        w2, v2.transformed_normal.y, area,
                    ),
                    z: interp3(
                        w0, v0.transformed_normal.z, w1, v1.transformed_normal.z,
                        w2, v2.transformed_normal.z, area,
                    ),
                };
                let frag = Fragment {
                    x: px,
                    y: py,
                    depth: interp3(w0, p0.z, w1, p1.z, w2, p2.z, area),
                    vertex_position: V3 {
                        x: interp3(
                            w0, v0.position.x, w1, v1.position.x, w2, v2.position.x, area,
                        ),
                        y: interp3(
                            w0, v0.position.y, w1, v1.position.y, w2, v2.position.y, area,
                        ),
                        z: interp3(
                            w0, v0.position.z, w1, v1.position.z, w2, v2.position.z, area,
                        ),
                    },
                    normal: nrm,
                    intensity: light_intensity(nrm),
                };
                proof {
                    assert(frag == tri_frag_spec(gv0, gv1, gv2, px as int, py as int));
                }
                frags.push(frag);
            }
            px = px + 1;
        }
        proof {
            assert((py as int + 1) * limit_w as int == py as int * limit_w as int + limit_w as int)
                by (nonlinear_arith);
        }
        py = py + 1;
    }
    proof {
        assert(limit_w as int * limit_h as int == limit_h as int * limit_w as int)
            by (nonlinear_arith);
    }
    frags
}

} // verus!
