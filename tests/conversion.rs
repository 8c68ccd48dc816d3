use bevy::prelude::Transform;
use parry3d::math::Vector;
use parry3d::shape::{Ball, Capsule, Cone, Cuboid, Cylinder};
use shape_conversion::conversion::{convert_geometry, convert_geometry_collections, SUBDIVISIONS};
use shape_conversion::geometry::{
    Area, ColliderType, GeometryCollection, GeometryToConvert, Triangle, Triangles, Vertex,
};

fn vertex(x: f32, y: f32, z: f32) -> Vertex {
    Vertex { x: x.to_bits(), y: y.to_bits(), z: z.to_bits() }
}

fn coords(v: &Vertex) -> [f32; 3] {
    [f32::from_bits(v.x), f32::from_bits(v.y), f32::from_bits(v.z)]
}

fn mesh_of(triangles: Triangles) -> (Vec<Vertex>, Vec<[u32; 3]>) {
    match triangles {
        Triangles::TriMesh(vertices, indices) => (vertices, indices),
        Triangles::Triangle(_) => panic!("expected an indexed mesh"),
    }
}

fn convert_collider(collider: ColliderType) -> (Vec<Vertex>, Vec<[u32; 3]>) {
    mesh_of(convert_geometry(GeometryToConvert::Collider(collider)))
}

fn assert_indices_in_range(vertices: &[Vertex], indices: &[[u32; 3]]) {
    for triangle in indices {
        for &i in triangle {
            assert!((i as usize) < vertices.len());
        }
    }
}

#[test]
fn resolution_is_five() {
    assert_eq!(SUBDIVISIONS, 5);
}

#[test]
fn cuboid_end_to_end() {
    let input = vec![GeometryCollection {
        transform: Transform::IDENTITY,
        geometry_to_convert: GeometryToConvert::Collider(ColliderType::Cuboid(Cuboid::new(
            Vector::new(1.0, 1.0, 1.0),
        ))),
        area: None,
    }];
    let output = convert_geometry_collections(input);
    assert_eq!(output.len(), 1);
    assert_eq!(output[0].transform, Transform::IDENTITY);
    assert_eq!(output[0].area, None);
    match &output[0].triangles {
        Triangles::TriMesh(vertices, indices) => {
            assert_eq!(vertices.len(), 8);
            assert_eq!(indices.len(), 12);
            for v in vertices {
                for c in coords(v) {
                    assert!(c == 1.0 || c == -1.0);
                }
            }
            assert_indices_in_range(vertices, indices);
        }
        Triangles::Triangle(_) => panic!("expected an indexed mesh"),
    }
}

#[test]
fn triangle_end_to_end() {
    let a = vertex(0.0, 0.0, 0.0);
    let b = vertex(1.0, 0.0, 0.0);
    let c = vertex(0.0, 2.5, -1.0);
    let transform = Transform::from_xyz(3.0, -4.0, 5.0);
    let input = vec![GeometryCollection {
        transform,
        geometry_to_convert: GeometryToConvert::Collider(ColliderType::Triangle(Triangle {
            a,
            b,
            c,
        })),
        area: Some(Area(7)),
    }];
    let output = convert_geometry_collections(input);
    assert_eq!(output.len(), 1);
    assert_eq!(output[0].transform, transform);
    assert_eq!(output[0].area, Some(Area(7)));
    match &output[0].triangles {
        Triangles::Triangle(corners) => assert_eq!(*corners, [a, b, c]),
        Triangles::TriMesh(..) => panic!("expected a bare triangle"),
    }
}

#[test]
fn cuboid_size_does_not_depend_on_extents() {
    for extents in [(0.5, 2.0, 3.0), (100.0, 0.25, 7.0), (0.0, 0.0, 0.0)] {
        let (vertices, indices) = convert_collider(ColliderType::Cuboid(Cuboid::new(
            Vector::new(extents.0, extents.1, extents.2),
        )));
        assert_eq!(vertices.len(), 8);
        assert_eq!(indices.len(), 12);
        assert_indices_in_range(&vertices, &indices);
        for v in &vertices {
            let [x, y, z] = coords(v);
            assert_eq!(x.abs(), extents.0);
            assert_eq!(y.abs(), extents.1);
            assert_eq!(z.abs(), extents.2);
        }
    }
}

#[test]
fn ball_tessellation_size() {
    let (vertices, indices) = convert_collider(ColliderType::Ball(Ball::new(2.0)));
    assert_eq!(vertices.len(), 22);
    assert_eq!(indices.len(), 40);
    assert_indices_in_range(&vertices, &indices);
    let [x, y, z] = coords(&vertices[0]);
    assert_eq!((x, y, z), (0.0, -2.0, 0.0));
}

#[test]
fn capsule_tessellation_size() {
    let (vertices, indices) = convert_collider(ColliderType::Capsule(Capsule::new_y(1.5, 0.5)));
    assert_eq!(vertices.len(), 22);
    assert_eq!(indices.len(), 40);
    assert_indices_in_range(&vertices, &indices);
}

#[test]
fn cylinder_tessellation_size() {
    let (vertices, indices) = convert_collider(ColliderType::Cylinder(Cylinder::new(1.0, 0.5)));
    assert_eq!(vertices.len(), 10);
    assert_eq!(indices.len(), 16);
    assert_indices_in_range(&vertices, &indices);
}

#[test]
fn cone_tessellation_size() {
    let (vertices, indices) = convert_collider(ColliderType::Cone(Cone::new(1.0, 0.5)));
    assert_eq!(vertices.len(), 6);
    assert_eq!(indices.len(), 8);
    assert_indices_in_range(&vertices, &indices);
}

#[test]
fn repeated_conversion_repeats_the_mesh() {
    let first = convert_collider(ColliderType::Capsule(Capsule::new_y(0.75, 0.25)));
    let second = convert_collider(ColliderType::Capsule(Capsule::new_y(0.75, 0.25)));
    assert_eq!(first, second);
    let other = convert_collider(ColliderType::Capsule(Capsule::new_y(9.0, 4.0)));
    assert_eq!(other.0.len(), first.0.len());
    assert_eq!(other.1, first.1);
}

#[test]
fn explicit_mesh_passes_through() {
    let vertices = vec![
        vertex(0.0, 0.0, 0.0),
        vertex(1.0, 0.0, 0.0),
        vertex(1.0, 1.0, 0.0),
        vertex(0.0, 1.0, 0.25),
    ];
    let indices = vec![[0, 1, 2], [2, 3, 0]];
    let (out_vertices, out_indices) = mesh_of(convert_geometry(GeometryToConvert::ParryTriMesh(
        vertices.clone(),
        indices.clone(),
    )));
    assert_eq!(out_vertices, vertices);
    assert_eq!(out_indices, indices);
}

#[test]
fn explicit_mesh_is_not_validated() {
    let vertices = vec![vertex(0.0, 0.0, 0.0)];
    let indices = vec![[0, 5, 9]];
    let (out_vertices, out_indices) = mesh_of(convert_geometry(GeometryToConvert::ParryTriMesh(
        vertices.clone(),
        indices.clone(),
    )));
    assert_eq!(out_vertices, vertices);
    assert_eq!(out_indices, indices);
}

#[test]
fn batch_keeps_order_transforms_and_areas() {
    let transforms = [
        Transform::from_xyz(1.0, 0.0, 0.0),
        Transform::from_xyz(0.0, 2.0, 0.0),
        Transform::from_xyz(0.0, 0.0, 3.0),
    ];
    let corner = vertex(1.0, 2.0, 3.0);
    let input = vec![
        GeometryCollection {
            transform: transforms[0],
            geometry_to_convert: GeometryToConvert::Collider(ColliderType::Cone(Cone::new(
                1.0, 1.0,
            ))),
            area: Some(Area(1)),
        },
        GeometryCollection {
            transform: transforms[1],
            geometry_to_convert: GeometryToConvert::ParryTriMesh(vec![corner], vec![]),
            area: None,
        },
        GeometryCollection {
            transform: transforms[2],
            geometry_to_convert: GeometryToConvert::Collider(ColliderType::Triangle(Triangle {
                a: corner,
                b: corner,
                c: corner,
            })),
            area: Some(Area(u16::MAX)),
        },
    ];
    let output = convert_geometry_collections(input);
    assert_eq!(output.len(), 3);
    for i in 0..3 {
        assert_eq!(output[i].transform, transforms[i]);
    }
    assert_eq!(output[0].area, Some(Area(1)));
    assert_eq!(output[1].area, None);
    assert_eq!(output[2].area, Some(Area(u16::MAX)));
    assert!(matches!(&output[0].triangles, Triangles::TriMesh(v, i) if v.len() == 6 && i.len() == 8));
    assert!(matches!(&output[1].triangles, Triangles::TriMesh(v, i) if v.len() == 1 && i.is_empty()));
    assert!(matches!(&output[2].triangles, Triangles::Triangle(c) if *c == [corner; 3]));
}

#[test]
fn empty_batch_gives_empty_output() {
    assert!(convert_geometry_collections(Vec::new()).is_empty());
}
