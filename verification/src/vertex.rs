//! The two records that flow through the pipeline: mesh vertices and the
//! rasterizer's per-pixel fragments.

use vstd::prelude::*;
use crate::vecmat::{V2, V3};

verus! {

/// An immutable mesh vertex: object-space position, normal, texture
/// coordinates and an intrinsic color, plus the derived screen-space
/// position and transformed normal that vertex shading fills in. The
/// derived fields carry no meaning until the vertex stage has produced a
/// shaded copy; the raw vertex itself is never mutated.
#[derive(Clone, Copy, PartialEq, Eq, Structural, Debug)]
pub struct Vertex {
    pub position: V3,
    pub normal: V3,
    pub tex_coords: V2,
    pub color: u32,
    pub transformed_position: V3,
    pub transformed_normal: V3,
}

/// One rasterizer sample covering exactly one pixel of one triangle:
/// integer pixel coordinates, the interpolated depth, the interpolated
/// object-space position and normal, and a lighting intensity in
/// `[0, FX_ONE]`.
#[derive(Clone, Copy, PartialEq, Eq, Structural, Debug)]
pub struct Fragment {
    pub x: usize,
    pub y: usize,
    pub depth: i64,
    pub vertex_position: V3,
    pub normal: V3,
    pub intensity: i64,
}

} // verus!
