//! A software 3D rendering core: a color/depth/emissive framebuffer with
//! depth-tested writes, fixed-point matrix and vector algebra for the
//! model/view/projection/viewport transform chain, barycentric triangle
//! rasterization, frustum visibility culling, and an orbiting camera
//! controller with collision avoidance.
//!
//! All geometry is carried in signed 16.16 fixed-point scalars (`i64` raw
//! values, `FX_ONE` units per whole unit), so that every arithmetic step has
//! an exact integer meaning. Floating-point concerns (trigonometric tables,
//! procedural noise, window I/O) live outside this crate and hand values in
//! as fixed-point integers.

pub mod camera;
pub mod color;
pub mod fixed;
pub mod framebuffer;
pub mod frustum;
pub mod input;
pub mod norm;
pub mod raster;
pub mod render;
pub mod shaders;
pub mod transforms;
pub mod vecmat;
pub mod vertex;
