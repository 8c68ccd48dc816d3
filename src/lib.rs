//! Turns solid-geometry descriptions (parametric collider shapes or explicit
//! triangle meshes) into one uniform triangle representation, ready for a
//! navigation-mesh builder.

pub mod conversion;
pub mod geometry;
pub mod shapes;
