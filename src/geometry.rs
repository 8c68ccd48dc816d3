//! The data this library converts from and to.

use vstd::prelude::*;

use bevy::prelude::Transform;
use parry3d::shape::{Ball, Capsule, Cone, Cuboid, Cylinder};

verus! {

/// A point in the local frame of a shape. Each coordinate is held as the bit
/// pattern of an IEEE-754 single-precision number; this library moves
/// coordinates around but never computes with them.
#[derive(Clone, Copy, Debug, PartialEq, Eq, Structural)]
pub struct Vertex {
    pub x: u32,
    pub y: u32,
    pub z: u32,
}

/// Every index of every triangle names one of the first `n` vertices.
pub open spec fn indices_within(triangles: Seq<[u32; 3]>, n: nat) -> bool {
    forall|t: int|
        0 <= t < triangles.len() ==> {
            &&& (#[trigger] triangles[t])[0] < n
            &&& triangles[t][1] < n
            &&& triangles[t][2] < n
        }
}

/// A triangle given by its three corners, in order.
#[derive(Clone, Copy, Debug, PartialEq, Eq, Structural)]
pub struct Triangle {
    pub a: Vertex,
    pub b: Vertex,
    pub c: Vertex,
}

/// An opaque traversal-cost label, carried unchanged through a conversion.
#[derive(Clone, Copy, Debug, PartialEq, Eq, Structural)]
pub struct Area(pub u16);

/// A primitive collider shape.
pub enum ColliderType {
    Cuboid(Cuboid),
    Ball(Ball),
    Capsule(Capsule),
    Cylinder(Cylinder),
    Cone(Cone),
    Triangle(Triangle),
}

/// A solid to convert: a primitive collider, or an explicit mesh given by
/// its vertices and its triangles (three indices into the vertices each).
pub enum GeometryToConvert {
    Collider(ColliderType),
    ParryTriMesh(Vec<Vertex>, Vec<[u32; 3]>),
}

/// The uniform result of a conversion: a single bare triangle, or an indexed
/// mesh.
pub enum Triangles {
    Triangle([Vertex; 3]),
    TriMesh(Vec<Vertex>, Vec<[u32; 3]>),
}

/// One solid to convert, with its placement and its optional area label.
pub struct GeometryCollection {
    pub transform: Transform,
    pub geometry_to_convert: GeometryToConvert,
    pub area: Option<Area>,
}

/// One converted solid. The transform is not applied to the vertices: they
/// stay in the shape's local frame.
pub struct TriangleCollection {
    pub transform: Transform,
    pub triangles: Triangles,
    pub area: Option<Area>,
}

} // verus!
