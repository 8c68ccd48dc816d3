//! The collider shapes of parry3d and the transform of bevy, as this library
//! sees them, and the parry3d tessellation routines it relies on.
//!
//! Shape parameters (extents, radii, heights) are never read here: a shape is
//! carried unchanged to its tessellation routine.

use vstd::prelude::*;

use crate::geometry::{indices_within, Vertex};

verus! {

#[verifier::external_type_specification]
#[verifier::external_body]
pub struct ExTransform(bevy::prelude::Transform);

#[verifier::external_type_specification]
#[verifier::external_body]
pub struct ExCuboid(parry3d::shape::Cuboid);

#[verifier::external_type_specification]
#[verifier::external_body]
pub struct ExBall(parry3d::shape::Ball);

#[verifier::external_type_specification]
#[verifier::external_body]
pub struct ExCapsule(parry3d::shape::Capsule);

#[verifier::external_type_specification]
#[verifier::external_body]
pub struct ExCylinder(parry3d::shape::Cylinder);

#[verifier::external_type_specification]
#[verifier::external_body]
pub struct ExCone(parry3d::shape::Cone);

/// Number of vertices and of triangles in parry3d's cuboid tessellation.
pub open spec fn cuboid_mesh_size() -> (nat, nat) {
    (8, 12)
}

/// Number of vertices and of triangles in parry3d's ball tessellation: a
/// vertex at each pole and `nphi - 1` rings of `ntheta` vertices.
pub open spec fn ball_mesh_size(ntheta: nat, nphi: nat) -> (nat, nat) {
    (((nphi - 1) as nat * ntheta + 2) as nat, 2 * ntheta * (nphi - 1) as nat)
}

/// Number of vertices and of triangles in parry3d's capsule tessellation:
/// two hemispheres of `nphi / 2` rings each, plus their poles, joined by a
/// band of triangles.
pub open spec fn capsule_mesh_size(ntheta: nat, nphi: nat) -> (nat, nat) {
    (2 * ((nphi / 2) * ntheta + 1), 4 * (nphi / 2) * ntheta)
}

/// Number of vertices and of triangles in parry3d's cylinder tessellation:
/// two rings of `nsubdiv` vertices, a band between them and two fan-filled caps.
pub open spec fn cylinder_mesh_size(nsubdiv: nat) -> (nat, nat) {
    (2 * nsubdiv, (4 * nsubdiv - 4) as nat)
}

/// Number of vertices and of triangles in parry3d's cone tessellation: one
/// ring of `nsubdiv` vertices and the apex, the side fan and a fan-filled base.
pub open spec fn cone_mesh_size(nsubdiv: nat) -> (nat, nat) {
    ((nsubdiv + 1) as nat, (2 * nsubdiv - 2) as nat)
}

/// A tessellation with `size.0` vertices and `size.1` triangles, each of whose
/// indices names one of those vertices.
pub open spec fn mesh_has_size(r: (Vec<Vertex>, Vec<[u32; 3]>), size: (nat, nat)) -> bool {
    &&& r.0@.len() == size.0
    &&& r.1@.len() == size.1
    &&& indices_within(r.1@, size.0)
}

/// Relies on parry3d's `Cuboid::to_trimesh`: eight corners and two triangles
/// per face, every index naming one of the eight corners.
#[verifier::external_body]
pub(crate) fn cuboid_to_trimesh(cuboid: &parry3d::shape::Cuboid) -> (r: (Vec<Vertex>, Vec<[u32; 3]>))
    ensures
        mesh_has_size(r, cuboid_mesh_size()),
{
    let (points, triangles) = cuboid.to_trimesh();
    (points.iter().map(|p| Vertex { x: p.x.to_bits(), y: p.y.to_bits(), z: p.z.to_bits() }).collect(), triangles)
}

/// Relies on parry3d's `Ball::to_trimesh`: a UV sphere with `ntheta` vertices
/// per ring and `nphi` bands from pole to pole. Fewer subdivisions make parry3d
/// panic, and the bound keeps its `u32` index arithmetic from overflowing.
#[verifier::external_body]
pub(crate) fn ball_to_trimesh(ball: &parry3d::shape::Ball, ntheta: u32, nphi: u32) -> (r: (Vec<Vertex>, Vec<[u32; 3]>))
    requires
        ntheta >= 1,
        nphi >= 2,
        ntheta * nphi <= 0x1000_0000,
    ensures
        mesh_has_size(r, ball_mesh_size(ntheta as nat, nphi as nat)),
{
    let (points, triangles) = ball.to_trimesh(ntheta, nphi);
    (points.iter().map(|p| Vertex { x: p.x.to_bits(), y: p.y.to_bits(), z: p.z.to_bits() }).collect(), triangles)
}

/// Relies on parry3d's `Capsule::to_trimesh`: two hemispheres of `nphi / 2`
/// bands with `ntheta` vertices per ring. Fewer subdivisions make parry3d
/// panic, and the bound keeps its `u32` index arithmetic from overflowing.
#[verifier::external_body]
pub(crate) fn capsule_to_trimesh(capsule: &parry3d::shape::Capsule, ntheta: u32, nphi: u32) -> (r: (Vec<Vertex>, Vec<[u32; 3]>))
    requires
        ntheta >= 1,
        nphi >= 2,
        ntheta * nphi <= 0x1000_0000,
    ensures
        mesh_has_size(r, capsule_mesh_size(ntheta as nat, nphi as nat)),
{
    let (points, triangles) = capsule.to_trimesh(ntheta, nphi);
    (points.iter().map(|p| Vertex { x: p.x.to_bits(), y: p.y.to_bits(), z: p.z.to_bits() }).collect(), triangles)
}

/// Relies on parry3d's `Cylinder::to_trimesh`: two rings of `nsubdiv`
/// vertices. Fewer than two subdivisions make parry3d panic, and the bound
/// keeps its `u32` index arithmetic from overflowing.
#[verifier::external_body]
pub(crate) fn cylinder_to_trimesh(cylinder: &parry3d::shape::Cylinder, nsubdiv: u32) -> (r: (Vec<Vertex>, Vec<[u32; 3]>))
    requires
        2 <= nsubdiv <= 0x1000_0000,
    ensures
        mesh_has_size(r, cylinder_mesh_size(nsubdiv as nat)),
{
    let (points, triangles) = cylinder.to_trimesh(nsubdiv);
    (points.iter().map(|p| Vertex { x: p.x.to_bits(), y: p.y.to_bits(), z: p.z.to_bits() }).collect(), triangles)
}

/// Relies on parry3d's `Cone::to_trimesh`: a base ring of `nsubdiv` vertices
/// and the apex. The counts below hold from two subdivisions up, and the bound
/// keeps parry3d's `u32` index arithmetic from overflowing.
#[verifier::external_body]
pub(crate) fn cone_to_trimesh(cone: &parry3d::shape::Cone, nsubdiv: u32) -> (r: (Vec<Vertex>, Vec<[u32; 3]>))
    requires
        2 <= nsubdiv <= 0x1000_0000,
    ensures
        mesh_has_size(r, cone_mesh_size(nsubdiv as nat)),
{
    let (points, triangles) = cone.to_trimesh(nsubdiv);
    (points.iter().map(|p| Vertex { x: p.x.to_bits(), y: p.y.to_bits(), z: p.z.to_bits() }).collect(), triangles)
}

} // verus!
