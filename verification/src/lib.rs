//! A verified ray-casting core for curved triangular surface patches.
//!
//! Geometry is carried in a saturating Q16.16 fixed-point scalar type, so
//! every numeric step has an exact integer semantics that contracts can pin
//! down. The library covers flat triangles with barycentric projection,
//! axis-aligned boxes, bounding shells, curved patches with a radial
//! root-finding intersector, a quaternion camera, and the per-pixel cast
//! loops that fill a colour buffer.

pub mod aabb;
pub mod camera;
pub mod cpu_buffer;
pub mod curve_triangle;
pub mod fx;
pub mod rasterisator;
pub mod ray;
pub mod render;
pub mod shapes;
pub mod triangle;
pub mod triangle_shell;
pub mod vec3;
