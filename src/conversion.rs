//! Conversion of solids into triangles: primitive colliders are tessellated,
//! explicit meshes pass through, and batches keep their order and labels.

use vstd::prelude::*;

use crate::geometry::{
    indices_within, ColliderType, Triangle, Vertex, GeometryCollection, GeometryToConvert, TriangleCollection,
    Triangles,
};
use crate::shapes::{
    ball_mesh_size, ball_to_trimesh, capsule_mesh_size, capsule_to_trimesh, cone_mesh_size,
    cone_to_trimesh, cuboid_mesh_size, cuboid_to_trimesh, cylinder_mesh_size,
    cylinder_to_trimesh,
};

verus! {

/// Subdivision count used for every curved shape, in each angular direction
/// that the shape has.
pub const SUBDIVISIONS: u32 = 5;

/// Number of vertices and of triangles that tessellating `collider` at
/// `SUBDIVISIONS` gives. A triangle collider is not tessellated and has none.
pub open spec fn tessellation_size(collider: ColliderType) -> (nat, nat) {
    let n = SUBDIVISIONS as nat;
    match collider {
        ColliderType::Cuboid(_) => cuboid_mesh_size(),
        ColliderType::Ball(_) => ball_mesh_size(n, n),
        ColliderType::Capsule(_) => capsule_mesh_size(n, n),
        ColliderType::Cylinder(_) => cylinder_mesh_size(n),
        ColliderType::Cone(_) => cone_mesh_size(n),
        ColliderType::Triangle(_) => (0, 0),
    }
}

/// `triangles` is what converting `geometry` gives: a triangle collider's
/// corners in order; for another collider an indexed mesh of
/// `tessellation_size` whose indices all name one of its vertices; for an
/// explicit mesh, its vertices and triangles unchanged.
pub open spec fn converts_to(geometry: GeometryToConvert, triangles: Triangles) -> bool {
    match geometry {
        GeometryToConvert::Collider(ColliderType::Triangle(t)) => {
            &&& triangles matches Triangles::Triangle(corners)
            &&& corners@ == seq![t.a, t.b, t.c]
        },
        GeometryToConvert::Collider(collider) => {
            &&& triangles matches Triangles::TriMesh(vertices, indices)
            &&& vertices@.len() == tessellation_size(collider).0
            &&& indices@.len() == tessellation_size(collider).1
            &&& indices_within(indices@, vertices@.len())
        },
        GeometryToConvert::ParryTriMesh(vertices, indices) => {
            &&& triangles matches Triangles::TriMesh(out_vertices, out_indices)
            &&& out_vertices@ == vertices@
            &&& out_indices@ == indices@
        },
    }
}

/// `output` is `input` converted: same transform, same area label, and its
/// triangles are what converting the input's geometry gives.
pub open spec fn collection_converts_to(input: GeometryCollection, output: TriangleCollection) -> bool {
    &&& output.transform == input.transform
    &&& output.area == input.area
    &&& converts_to(input.geometry_to_convert, output.triangles)
}

/// Number of vertices and of triangles of an indexed mesh; a bare triangle
/// counts as three vertices and one triangle.
pub open spec fn mesh_size(triangles: Triangles) -> (nat, nat) {
    match triangles {
        Triangles::Triangle(_) => (3, 1),
        Triangles::TriMesh(vertices, indices) => (vertices@.len(), indices@.len()),
    }
}

/// `a` and `b` are the same kind of collider, whatever their parameters.
pub open spec fn same_kind(a: ColliderType, b: ColliderType) -> bool {
    ||| a is Cuboid && b is Cuboid
    ||| a is Ball && b is Ball
    ||| a is Capsule && b is Capsule
    ||| a is Cylinder && b is Cylinder
    ||| a is Cone && b is Cone
    ||| a is Triangle && b is Triangle
}

/// Converts one solid into triangles.
pub fn convert_geometry(geometry_to_convert: GeometryToConvert) -> (r: Triangles)
    ensures
        converts_to(geometry_to_convert, r),
{
    match geometry_to_convert {
        GeometryToConvert::Collider(collider) => {
            let (vertices, triangles) = match collider {
                ColliderType::Cuboid(cuboid) => cuboid_to_trimesh(&cuboid),
                ColliderType::Ball(ball) => ball_to_trimesh(&ball, SUBDIVISIONS, SUBDIVISIONS),
                ColliderType::Capsule(capsule) => capsule_to_trimesh(&capsule, SUBDIVISIONS, SUBDIVISIONS),
                ColliderType::Cylinder(cylinder) => cylinder_to_trimesh(&cylinder, SUBDIVISIONS),
                ColliderType::Cone(cone) => cone_to_trimesh(&cone, SUBDIVISIONS),
                ColliderType::Triangle(triangle) => {
                    let corners = [triangle.a, triangle.b, triangle.c];
                    assert(corners@ =~= seq![triangle.a, triangle.b, triangle.c]);
                    return Triangles::Triangle(corners);
                },
            };
            Triangles::TriMesh(vertices, triangles)
        },
        GeometryToConvert::ParryTriMesh(vertices, triangles) => Triangles::TriMesh(vertices, triangles),
    }
}

/// Converts a batch of solids, one output per input, in the same order.
pub fn convert_geometry_collections(geometry_collections: Vec<GeometryCollection>) -> (r: Vec<TriangleCollection>)
    ensures
        r.len() == geometry_collections.len(),
        forall|i: int|
            0 <= i < r.len() ==> collection_converts_to(geometry_collections[i], #[trigger] r[i]),
{
    let ghost input = geometry_collections@;
    let mut converted: Vec<TriangleCollection> = Vec::new();
    for collection in it: geometry_collections.into_iter()
        invariant
            it.seq() == input,
            converted.len() == it.index(),
            forall|j: int|
                0 <= j < it.index() ==> collection_converts_to(input[j], #[trigger] converted[j]),
    {
        let GeometryCollection { transform, geometry_to_convert, area } = collection;
        let triangles = convert_geometry(geometry_to_convert);
        converted.push(TriangleCollection { transform, triangles, area });
    }
    converted
}

/// Tessellating a collider other than a triangle gives an indexed mesh each of
/// whose indices is less than its number of vertices.
pub proof fn lemma_tessellation_indices_in_range(collider: ColliderType, triangles: Triangles)
    requires
        converts_to(GeometryToConvert::Collider(collider), triangles),
        !(collider is Triangle),
    ensures
        triangles matches Triangles::TriMesh(vertices, indices) && indices_within(
            indices@,
            vertices@.len(),
        ),
{
}

/// A cuboid, whatever its extents, is tessellated into 8 vertices and 12
/// triangles.
pub proof fn lemma_cuboid_size(cuboid: parry3d::shape::Cuboid, triangles: Triangles)
    requires
        converts_to(GeometryToConvert::Collider(ColliderType::Cuboid(cuboid)), triangles),
    ensures
        triangles is TriMesh,
        mesh_size(triangles) == (8nat, 12nat),
{
}

/// Two colliders of the same kind, converted, give meshes of the same size,
/// whatever their parameters: the size depends on the kind of shape and the
/// fixed resolution alone, so repeating a conversion repeats the size.
pub proof fn lemma_tessellation_size_by_kind(
    a: ColliderType,
    a_triangles: Triangles,
    b: ColliderType,
    b_triangles: Triangles,
)
    requires
        same_kind(a, b),
        converts_to(GeometryToConvert::Collider(a), a_triangles),
        converts_to(GeometryToConvert::Collider(b), b_triangles),
    ensures
        mesh_size(a_triangles) == mesh_size(b_triangles),
{
}

/// Converting a triangle collider gives its three corners, in order, as a
/// bare triangle with no index list.
pub proof fn lemma_triangle_passes_through(triangle: Triangle, triangles: Triangles)
    requires
        converts_to(GeometryToConvert::Collider(ColliderType::Triangle(triangle)), triangles),
    ensures
        triangles matches Triangles::Triangle(corners) && corners[0] == triangle.a && corners[1]
            == triangle.b && corners[2] == triangle.c,
{
    if let Triangles::Triangle(corners) = triangles {
        assert(corners[0] == corners@[0]);
        assert(corners[1] == corners@[1]);
        assert(corners[2] == corners@[2]);
    }
}

/// An explicit mesh passes through unchanged: the same vertices in the same
/// order, and exactly the same triangles.
pub proof fn lemma_mesh_passes_through(vertices: Vec<Vertex>, indices: Vec<[u32; 3]>, triangles: Triangles)
    requires
        converts_to(GeometryToConvert::ParryTriMesh(vertices, indices), triangles),
    ensures
        triangles matches Triangles::TriMesh(out_vertices, out_indices) && out_vertices@
            == vertices@ && out_indices@ == indices@,
{
}

} // verus!
