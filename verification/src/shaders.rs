//! The programmable-shader model: per-draw-call uniforms, the vertex stage,
//! and the tag-dispatched fragment shading the library ships.
//!
//! Fragment coloring is polymorphic over a selector tag resolved once per
//! draw call. The built-in shadings are exact integer computations: a flat
//! material color, the same color modulated by the fragment's lighting
//! intensity, and a time-driven color cycle. Richer procedural materials
//! live outside the verified core and consume the same `Fragment` records.

use vstd::prelude::*;
use crate::fixed::{fx_div, fx_div_spec, FX_ONE};
use crate::vecmat::{V3, V4, M3, M4, m4_apply, m4_apply_spec, m3_apply, m3_apply_spec, m4_to_m3,
    m3_transpose, m3_inverse, m3_inverse_spec};
use crate::vertex::{Vertex, Fragment};
use crate::color::Color;

verus! {

/// Selector for the flat material color.
pub const SHADER_FLAT: u8 = 0;

/// Selector for the material color modulated by lighting intensity.
pub const SHADER_LIT: u8 = 1;

/// Selector for the time-driven color cycle.
pub const SHADER_TIME_CYCLING: u8 = 2;

/// Per-draw-call configuration: the four transform matrices, the frame
/// time counter, the flat material color, and the shader selector tag.
/// Rebuilt or partially replaced by the scene driver between draw calls;
/// never mutated by the render pass itself.
#[derive(Clone, Copy, PartialEq, Eq, Structural, Debug)]
pub struct Uniforms {
    pub model_matrix: M4,
    pub view_matrix: M4,
    pub projection_matrix: M4,
    pub viewport_matrix: M4,
    pub time: u32,
    pub base_color: u32,
    pub current_shader: u8,
}

/// The normal matrix: the inverse of the transposed upper-left 3x3 block
/// of the model matrix (identity when that block is singular).
pub open spec fn normal_matrix_spec(m: M4) -> M3 {
    m3_inverse_spec(
        M3 {
            m00: m.m00, m01: m.m10, m02: m.m20,
            m10: m.m01, m11: m.m11, m12: m.m21,
            m20: m.m02, m21: m.m12, m22: m.m22,
        },
    )
}

/// The vertex stage as one value: position through model, view and
/// projection, perspective division by the clip w, the viewport map, and
/// the normal through the normal matrix.
pub open spec fn vertex_shader_spec(v: Vertex, u: Uniforms) -> Vertex {
    let pos = V4 { x: v.position.x, y: v.position.y, z: v.position.z, w: FX_ONE };
    let world = m4_apply_spec(u.model_matrix, pos);
    let seen = m4_apply_spec(u.view_matrix, world);
    let clip = m4_apply_spec(u.projection_matrix, seen);
    let ndc = V4 {
        x: fx_div_spec(clip.x as int, clip.w as int) as i64,
        y: fx_div_spec(clip.y as int, clip.w as int) as i64,
        z: fx_div_spec(clip.z as int, clip.w as int) as i64,
        w: FX_ONE,
    };
    let screen = m4_apply_spec(u.viewport_matrix, ndc);
    Vertex {
        position: v.position,
        normal: v.normal,
        tex_coords: v.tex_coords,
        color: v.color,
        transformed_position: V3 { x: screen.x, y: screen.y, z: screen.z },
        transformed_normal: m3_apply_spec(normal_matrix_spec(u.model_matrix), v.normal),
    }
}

/// Transform one vertex: model, view and projection, perspective division,
/// viewport mapping, and the normal through the inverse-transpose of the
/// model matrix's upper 3x3 block (identity fallback when singular). The
/// input vertex is copied, never mutated.
pub fn vertex_shader(vertex: &Vertex, uniforms: &Uniforms) -> (r: Vertex)
    ensures
        r == vertex_shader_spec(*vertex, *uniforms),
{
    let pos = V4 {
        x: vertex.position.x,
        y: vertex.position.y,
        z: vertex.position.z,
        w: FX_ONE,
    };
    let world = m4_apply(&uniforms.model_matrix, pos);
    let seen = m4_apply(&uniforms.view_matrix, world);
    let clip = m4_apply(&uniforms.projection_matrix, seen);
    let ndc = V4 {
        x: fx_div(clip.x, clip.w),
        y: fx_div(clip.y, clip.w),
        z: fx_div(clip.z, clip.w),
        w: FX_ONE,
    };
    let screen = m4_apply(&uniforms.viewport_matrix, ndc);
    let model3 = m4_to_m3(&uniforms.model_matrix);
    let normal_matrix = m3_inverse(&m3_transpose(&model3));
    let transformed_normal = m3_apply(&normal_matrix, vertex.normal);
    Vertex {
        position: vertex.position,
        normal: vertex.normal,
        tex_coords: vertex.tex_coords,
        color: vertex.color,
        transformed_position: V3 { x: screen.x, y: screen.y, z: screen.z },
        transformed_normal,
    }
}

/// The time-cycling palette, by index (wrapping past the sixth entry).
pub open spec fn cycle_color_spec(i: int) -> Color {
    if i == 0 {
        Color { r: 255, g: 0, b: 0 }
    } else if i == 1 {
        Color { r: 0, g: 255, b: 0 }
    } else if i == 2 {
        Color { r: 0, g: 0, b: 255 }
    } else if i == 3 {
        Color { r: 255, g: 255, b: 0 }
    } else if i == 4 {
        Color { r: 255, g: 0, b: 255 }
    } else {
        Color { r: 0, g: 255, b: 255 }
    }
}

/// The time-cycling shade: every hundred time units advance one palette
/// entry, blending linearly toward the next entry within the window, then
/// modulated by the fragment's lighting intensity.
pub open spec fn time_cycling_spec(f: Fragment, u: Uniforms) -> Color {
    let index = ((u.time / 100) % 6) as int;
    let t = ((u.time % 100) as int * FX_ONE) / 100;
    let blended = cycle_color_spec(index).lerp_spec(cycle_color_spec((index + 1) % 6), t);
    blended.scale_spec(f.intensity as int)
}

/// Cycle through a six-color palette over time, blending between
/// consecutive colors and modulating by the fragment intensity.
pub fn time_based_color_cycling_shader(fragment: &Fragment, uniforms: &Uniforms) -> (c: Color)
    ensures
        c == time_cycling_spec(*fragment, *uniforms),
{
    let index: u32 = (uniforms.time / 100) % 6;
    let t: i64 = (((uniforms.time % 100) as u64 * 65536) / 100) as i64;
    let current = cycle_color(index);
    let next = cycle_color((index + 1) % 6);
    let blended = current.lerp(&next, t);
    blended.scale(fragment.intensity)
}

fn cycle_color(i: u32) -> (c: Color)
    ensures
        c == cycle_color_spec((i % 6) as int),
{
    if i % 6 == 0 {
        Color { r: 255, g: 0, b: 0 }
    } else if i % 6 == 1 {
        Color { r: 0, g: 255, b: 0 }
    } else if i % 6 == 2 {
        Color { r: 0, g: 0, b: 255 }
    } else if i % 6 == 3 {
        Color { r: 255, g: 255, b: 0 }
    } else if i % 6 == 4 {
        Color { r: 255, g: 0, b: 255 }
    } else {
        Color { r: 0, g: 255, b: 255 }
    }
}

/// What the dispatched fragment shading returns for each selector tag.
pub open spec fn fragment_shader_spec(f: Fragment, u: Uniforms) -> Color {
    if u.current_shader == SHADER_LIT {
        Color::from_hex_spec(u.base_color).scale_spec(f.intensity as int)
    } else if u.current_shader == SHADER_TIME_CYCLING {
        time_cycling_spec(f, u)
    } else {
        Color::from_hex_spec(u.base_color)
    }
}

/// Resolve the shader selector tag and color one fragment.
pub fn fragment_shader(fragment: &Fragment, uniforms: &Uniforms) -> (c: Color)
    ensures
        c == fragment_shader_spec(*fragment, *uniforms),
{
    if uniforms.current_shader == SHADER_LIT {
        Color::from_hex(uniforms.base_color).scale(fragment.intensity)
    } else if uniforms.current_shader == SHADER_TIME_CYCLING {
        time_based_color_cycling_shader(fragment, uniforms)
    } else {
        Color::from_hex(uniforms.base_color)
    }
}

} // verus!
