//! The per-draw-call render pass: vertex shading, triangle assembly,
//! rasterization, fragment shading, and depth-tested compositing into the
//! framebuffer — plus the depth-tested orbit-line overlay pass.
//!
//! The render pass's effect on the framebuffer is pinned down exactly as a
//! fold: shade every vertex, gather consecutive triples, rasterize each
//! triple, and write every in-bounds fragment through the framebuffer's
//! depth test with the color the selected shader returns. Input vertices
//! and uniforms are never mutated.

use vstd::prelude::*;
use vstd::arithmetic::div_mod::lemma_fundamental_div_mod;
use crate::framebuffer::{Framebuffer, FbView, line_pixel_ok, bres_points, fold_line_writes};
use crate::shaders::{Uniforms, vertex_shader, vertex_shader_spec, fragment_shader,
    fragment_shader_spec};
use crate::raster::{triangle, tri_frags_spec, raster_vertex_ok, ATTR_LIMIT, SCREEN_LIMIT,
    RASTER_MAX_DIM};
use crate::vertex::{Vertex, Fragment};
use crate::vecmat::{V2, V4, m4_apply};
use crate::color::Color;
use crate::fixed::{fx_mul, fx_div, FX_ONE};

verus! {

/// The fixed depth at which orbit overlay lines are drawn: farther than
/// the bodies on them, nearer than the far background.
pub const ORBIT_DEPTH: i64 = 62259;

/// One fragment composited into the framebuffer: dropped when off the
/// pixel grid, otherwise shaded by the selected shader and written through
/// the strict depth test with zero emission.
pub open spec fn apply_fragment_spec(fb: FbView, f: Fragment, u: Uniforms) -> FbView {
    if (f.x as int) < fb.width && (f.y as int) < fb.height {
        fb.with_current(fragment_shader_spec(f, u).to_hex_spec()).write_point(
            f.x as int,
            f.y as int,
            f.depth,
            0u32,
        )
    } else {
        fb
    }
}

/// The first `n` fragments of a list composited in order.
pub open spec fn apply_frags_upto(fb: FbView, frags: Seq<Fragment>, u: Uniforms, n: int) -> FbView
    decreases n,
{
    if n <= 0 {
        fb
    } else {
        apply_fragment_spec(apply_frags_upto(fb, frags, u, n - 1), frags[n - 1], u)
    }
}

/// One assembled triangle composited into the framebuffer: the three
/// shaded vertices rasterized over the framebuffer's grid and every
/// fragment applied in row-major order. A triangle whose shaded attributes
/// leave the rasterizer's range — or a framebuffer beyond its grid bound —
/// contributes nothing.
pub open spec fn render_tri_spec(
    fb: FbView, verts: Seq<Vertex>, u: Uniforms, disable_culling: bool, t: int,
) -> FbView {
    let a = vertex_shader_spec(verts[3 * t], u);
    let b = vertex_shader_spec(verts[3 * t + 1], u);
    let c = vertex_shader_spec(verts[3 * t + 2], u);
    if raster_vertex_ok(a) && raster_vertex_ok(b) && raster_vertex_ok(c)
        && fb.width <= RASTER_MAX_DIM && fb.height <= RASTER_MAX_DIM {
        let frags = tri_frags_spec(a, b, c, disable_culling, fb.width as int, fb.height as int);
        apply_frags_upto(fb, frags, u, frags.len() as int)
    } else {
        fb
    }
}

/// The first `t` triangles of the buffer composited in order.
pub open spec fn render_upto(
    fb: FbView, verts: Seq<Vertex>, u: Uniforms, disable_culling: bool, t: int,
) -> FbView
    decreases t,
{
    if t <= 0 {
        fb
    } else {
        render_tri_spec(
            render_upto(fb, verts, u, disable_culling, t - 1),
            verts,
            u,
            disable_culling,
            t - 1,
        )
    }
}

/// The whole render pass: every complete vertex triple, in order; a
/// trailing partial triple is dropped.
pub open spec fn render_spec(
    fb: FbView, verts: Seq<Vertex>, u: Uniforms, disable_culling: bool,
) -> FbView {
    render_upto(fb, verts, u, disable_culling, verts.len() as int / 3)
}

/// Whether a shaded vertex is within the rasterizer's coordinate ranges.
fn raster_vertex_ok_exec(v: &Vertex) -> (r: bool)
    ensures
        r == raster_vertex_ok(*v),
{
    -SCREEN_LIMIT <= v.transformed_position.x && v.transformed_position.x <= SCREEN_LIMIT
        && -SCREEN_LIMIT <= v.transformed_position.y && v.transformed_position.y <= SCREEN_LIMIT
        && -ATTR_LIMIT <= v.transformed_position.z && v.transformed_position.z <= ATTR_LIMIT
        && -ATTR_LIMIT <= v.position.x && v.position.x <= ATTR_LIMIT
        && -ATTR_LIMIT <= v.position.y && v.position.y <= ATTR_LIMIT
        && -ATTR_LIMIT <= v.position.z && v.position.z <= ATTR_LIMIT
        && -ATTR_LIMIT <= v.transformed_normal.x && v.transformed_normal.x <= ATTR_LIMIT
        && -ATTR_LIMIT <= v.transformed_normal.y && v.transformed_normal.y <= ATTR_LIMIT
        && -ATTR_LIMIT <= v.transformed_normal.z && v.transformed_normal.z <= ATTR_LIMIT
}

/// Run one draw call: shade every vertex, assemble consecutive triples,
/// rasterize each triangle, shade each in-bounds fragment with the
/// selected shader, and composite it through the depth test. Mutates only
/// the framebuffer.
#[verifier::rlimit(60)]
pub fn render(
    framebuffer: &mut Framebuffer,
    uniforms: &Uniforms,
    vertex_array: &Vec<Vertex>,
    disable_culling: bool,
)
    requires
        old(framebuffer)@.wf(),
    ensures
        final(framebuffer)@ == render_spec(
            old(framebuffer)@, vertex_array@, *uniforms, disable_culling,
        ),
        final(framebuffer)@.wf(),
{
    let ghost fb0: FbView = framebuffer@;
    let ghost u: Uniforms = *uniforms;
    let mut transformed: Vec<Vertex> = Vec::new();
    let mut i: usize = 0;
    let n = vertex_array.len();
    while i < n
        invariant
            n == vertex_array.len(),
            i <= n,
            u == *uniforms,
            transformed.len() == i,
            forall|k: int|
                0 <= k < i ==> transformed@[k] == vertex_shader_spec(vertex_array@[k], u),
        decreases n - i,
    {
        let shaded = vertex_shader(&vertex_array[i], uniforms);
        transformed.push(shaded);
        i = i + 1;
    }
    let n_tris: usize = n / 3;
    proof {
        lemma_fundamental_div_mod(n as int, 3);
    }
    let mut t: usize = 0;
    while t < n_tris
        invariant
            n == vertex_array.len(),
            n_tris == n as int / 3,
            3 * n_tris <= n,
            u == *uniforms,
            t <= n_tris,
            transformed.len() == n,
            forall|k: int|
                0 <= k < n ==> transformed@[k] == vertex_shader_spec(vertex_array@[k], u),
            framebuffer@.wf(),
            framebuffer@ == render_upto(fb0, vertex_array@, u, disable_culling, t as int),
        decreases n_tris - t,
    {
        let a = transformed[3 * t];
        let b = transformed[3 * t + 1];
        let c = transformed[3 * t + 2];
        let ok = raster_vertex_ok_exec(&a) && raster_vertex_ok_exec(&b)
            && raster_vertex_ok_exec(&c) && framebuffer.width <= 32768
            && framebuffer.height <= 32768;
        if ok {
            let ghost fb_tri: FbView = framebuffer@;
            let frags = triangle(
                &a,
                &b,
                &c,
                disable_culling,
                framebuffer.width,
                framebuffer.height,
            );
            let mut j: usize = 0;
            let m = frags.len();
            while j < m
                invariant
                    m == frags@.len(),
                    j <= m,
                    u == *uniforms,
                    framebuffer@.wf(),
                    framebuffer@ == apply_frags_upto(fb_tri, frags@, u, j as int),
                    framebuffer@.width == fb_tri.width,
                    framebuffer@.height == fb_tri.height,
                decreases m - j,
            {
                let f = frags[j];
                if f.x < framebuffer.width && f.y < framebuffer.height {
                    let color = fragment_shader(&f, uniforms);
                    let hex = color.to_hex();
                    framebuffer.set_current_color(hex);
                    framebuffer.point(f.x, f.y, f.depth, 0);
                }
                j = j + 1;
            }
        }
        t = t + 1;
    }
}

/// Where one orbit point lands on screen: scaled into the horizontal
/// plane, transformed through view and projection, divided by the clip w,
/// mapped by the viewport, and truncated to pixel coordinates.
pub open spec fn orbit_point_spec(orbit_radius: i64, p: V2, u: Uniforms) -> (int, int) {
    let wx = crate::fixed::fx_mul_spec(orbit_radius as int, p.x as int);
    let wz = crate::fixed::fx_mul_spec(orbit_radius as int, p.y as int);
    let world = V4 { x: wx as i64, y: 0i64, z: wz as i64, w: FX_ONE };
    let seen = crate::vecmat::m4_apply_spec(u.view_matrix, world);
    let clip = crate::vecmat::m4_apply_spec(u.projection_matrix, seen);
    let ndc = V4 {
        x: crate::fixed::fx_div_spec(clip.x as int, clip.w as int) as i64,
        y: crate::fixed::fx_div_spec(clip.y as int, clip.w as int) as i64,
        z: ORBIT_DEPTH,
        w: FX_ONE,
    };
    let screen = crate::vecmat::m4_apply_spec(u.viewport_matrix, ndc);
    (to_pixel_spec(screen.x), to_pixel_spec(screen.y))
}

/// A fixed-point screen coordinate truncated to a pixel index: negative
/// values saturate to zero, oversized ones to the largest addressable
/// pixel.
pub open spec fn to_pixel_spec(v: i64) -> int {
    if v < 0 {
        0
    } else if v as int / (FX_ONE as int) > 0x3fff_ffff {
        0x3fff_ffff
    } else {
        v as int / (FX_ONE as int)
    }
}

/// One orbit segment composited: the lines pass joining consecutive
/// projected points (wrapping at the end), drawn only when both endpoints
/// are on the framebuffer.
pub open spec fn orbit_segment_spec(
    fb: FbView, orbit_radius: i64, pts: Seq<V2>, u: Uniforms, i: int,
) -> FbView {
    let s1 = orbit_point_spec(orbit_radius, pts[i], u);
    let s2 = orbit_point_spec(
        orbit_radius,
        pts[if i + 1 < pts.len() { i + 1 } else { 0 }],
        u,
    );
    if s1.0 < fb.width && s1.1 < fb.height && s2.0 < fb.width && s2.1 < fb.height {
        fold_line_writes(fb, bres_points(s1.0, s1.1, s2.0, s2.1), ORBIT_DEPTH)
    } else {
        fb
    }
}

/// The first `n` orbit segments composited in order.
pub open spec fn orbit_upto(
    fb: FbView, orbit_radius: i64, pts: Seq<V2>, u: Uniforms, n: int,
) -> FbView
    decreases n,
{
    if n <= 0 {
        fb
    } else {
        orbit_segment_spec(
            orbit_upto(fb, orbit_radius, pts, u, n - 1),
            orbit_radius,
            pts,
            u,
            n - 1,
        )
    }
}

/// The whole orbit overlay pass: the current color switched to the orbit
/// color, then every segment of the point loop composited in order.
pub open spec fn render_orbit_spec(
    fb: FbView, orbit_radius: i64, color_hex: u32, pts: Seq<V2>, u: Uniforms,
) -> FbView {
    orbit_upto(fb.with_current(color_hex), orbit_radius, pts, u, pts.len() as int)
}

/// Draw the depth-tested orbit overlay: consecutive points of a unit
/// circle, scaled by the orbit radius into the horizontal plane,
/// transformed through view and projection, and joined by lines at the
/// fixed orbit depth in the given color. Every touched pixel went through
/// the strict depth test against that depth with zero emission; segments
/// that leave the framebuffer are dropped whole.
pub fn render_orbit_lines(
    framebuffer: &mut Framebuffer,
    orbit_radius: i64,
    color: &Color,
    points: &Vec<V2>,
    uniforms: &Uniforms,
)
    requires
        old(framebuffer)@.wf(),
        old(framebuffer)@.width <= 0x4000_0000,
        old(framebuffer)@.height <= 0x4000_0000,
    ensures
        final(framebuffer)@.wf(),
        final(framebuffer)@.width == old(framebuffer)@.width,
        final(framebuffer)@.height == old(framebuffer)@.height,
        final(framebuffer)@.background == old(framebuffer)@.background,
        final(framebuffer)@.current == color.to_hex_spec(),
        final(framebuffer)@.colors.len() == old(framebuffer)@.colors.len(),
        final(framebuffer)@.depths.len() == old(framebuffer)@.depths.len(),
        final(framebuffer)@.emissive.len() == old(framebuffer)@.emissive.len(),
        forall|i: int|
            0 <= i < old(framebuffer)@.depths.len() ==> line_pixel_ok(
                old(framebuffer)@.with_current(color.to_hex_spec()),
                final(framebuffer)@,
                i,
                ORBIT_DEPTH,
            ),
        final(framebuffer)@ == render_orbit_spec(
            old(framebuffer)@, orbit_radius, color.to_hex_spec(), points@, *uniforms,
        ),
{
    let hex = color.to_hex();
    framebuffer.set_current_color(hex);
    let ghost orig: FbView = framebuffer@;
    let n = points.len();
    let mut i: usize = 0;
    while i < n
        invariant
            n == points.len(),
            i <= n,
            framebuffer@.wf(),
            framebuffer@.width == orig.width,
            framebuffer@.height == orig.height,
            framebuffer@.background == orig.background,
            framebuffer@.current == orig.current,
            framebuffer@.colors.len() == orig.colors.len(),
            framebuffer@.depths.len() == orig.depths.len(),
            framebuffer@.emissive.len() == orig.emissive.len(),
            orig.width <= 0x4000_0000,
            orig.height <= 0x4000_0000,
            forall|k: int|
                0 <= k < orig.depths.len() ==> line_pixel_ok(
                    orig,
                    framebuffer@,
                    k,
                    ORBIT_DEPTH,
                ),
            framebuffer@ == orbit_upto(orig, orbit_radius, points@, *uniforms, i as int),
        decreases n - i,
    {
        let p1 = points[i];
        let p2 = points[if i + 1 < n { i + 1 } else { 0 }];
        let s1 = project_orbit_point(orbit_radius, p1, uniforms);
        let s2 = project_orbit_point(orbit_radius, p2, uniforms);
        let ghost pre: FbView = framebuffer@;
        if s1.0 < framebuffer.width && s1.1 < framebuffer.height && s2.0 < framebuffer.width
            && s2.1 < framebuffer.height {
            framebuffer.line_with_depth(s1.0, s1.1, s2.0, s2.1, ORBIT_DEPTH);
            proof {
                assert forall|k: int| 0 <= k < orig.depths.len() implies line_pixel_ok(
                    orig,
                    framebuffer@,
                    k,
                    ORBIT_DEPTH,
                ) by {
                    assert(line_pixel_ok(orig, pre, k, ORBIT_DEPTH));
                    assert(line_pixel_ok(pre, framebuffer@, k, ORBIT_DEPTH));
                }
            }
        }
        i = i + 1;
    }
}

/// Scale a unit-circle point by the orbit radius into the horizontal
/// plane, run it through view, projection, perspective division and the
/// viewport map, and truncate to pixel coordinates (negative coordinates
/// saturate to zero and are caught by the caller's bounds check).
fn project_orbit_point(orbit_radius: i64, p: V2, uniforms: &Uniforms) -> (r: (usize, usize))
    ensures
        (r.0 as int, r.1 as int) == orbit_point_spec(orbit_radius, p, *uniforms),
        r.0 < 0x4000_0000,
        r.1 < 0x4000_0000,
{
    let wx: i64 = fx_mul(orbit_radius, p.x);
    let wz: i64 = fx_mul(orbit_radius, p.y);
    let world = V4 { x: wx, y: 0, z: wz, w: FX_ONE };
    let seen = m4_apply(&uniforms.view_matrix, world);
    let clip = m4_apply(&uniforms.projection_matrix, seen);
    let ndc = V4 {
        x: fx_div(clip.x, clip.w),
        y: fx_div(clip.y, clip.w),
        z: ORBIT_DEPTH,
        w: FX_ONE,
    };
    let screen = m4_apply(&uniforms.viewport_matrix, ndc);
    (to_pixel(screen.x), to_pixel(screen.y))
}

/// Truncate a fixed-point screen coordinate to a pixel index, saturating
/// negative values at zero.
fn to_pixel(v: i64) -> (r: usize)
    ensures
        r as int == to_pixel_spec(v),
        r < 0x4000_0000,
{
    if v < 0 {
        0
    } else {
        let q: u64 = (v as u64) / 65536u64;
        if q > 0x3fff_ffff {
            0x3fff_ffff
        } else {
            q as usize
        }
    }
}

} // verus!
