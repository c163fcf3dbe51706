//! Meshes: immutable vertex lists with an optional index list.

use vstd::prelude::*;
use crate::vertex::{Vec2h, Vec3h, Vertex};

verus! {

/// An immutable list of vertices plus an optional index list.
#[derive(Debug)]
pub struct Mesh {
    pub vertices: Vec<Vertex>,
    pub indices: Option<Vec<u32>>,
}

/// Whether a mesh carries an index list.
pub open spec fn mesh_indexed(m: Mesh) -> bool {
    m.indices is Some
}

/// The three vertices of the built-in triangle, counter-clockwise,
/// in half units.
pub open spec fn triangle_vertices() -> Seq<Vertex> {
    seq![
        Vertex {
            position: Vec3h { x: -1i32, y: -1i32, z: 0i32 },
            normal: Vec3h { x: 0i32, y: 0i32, z: 2i32 },
            color: Vec3h { x: 2i32, y: 0i32, z: 0i32 },
            texcoord: Vec2h { x: 0i32, y: 0i32 },
        },
        Vertex {
            position: Vec3h { x: 1i32, y: -1i32, z: 0i32 },
            normal: Vec3h { x: 0i32, y: 0i32, z: 2i32 },
            color: Vec3h { x: 0i32, y: 2i32, z: 0i32 },
            texcoord: Vec2h { x: 1i32, y: 2i32 },
        },
        Vertex {
            position: Vec3h { x: 0i32, y: 1i32, z: 0i32 },
            normal: Vec3h { x: 0i32, y: 0i32, z: 2i32 },
            color: Vec3h { x: 0i32, y: 0i32, z: 2i32 },
            texcoord: Vec2h { x: 2i32, y: 0i32 },
        },
    ]
}

/// The six vertices of the built-in unit quad (two clockwise triangles),
/// in half units: corners at one unit from the origin.
pub open spec fn quad_vertices() -> Seq<Vertex> {
    seq![
        Vertex {
            position: Vec3h { x: 2i32, y: 2i32, z: 0i32 },
            normal: Vec3h { x: 0i32, y: 2i32, z: 0i32 },
            color: Vec3h { x: 2i32, y: 0i32, z: 0i32 },
            texcoord: Vec2h { x: 0i32, y: 0i32 },
        },
        Vertex {
            position: Vec3h { x: -2i32, y: -2i32, z: 0i32 },
            normal: Vec3h { x: 0i32, y: 2i32, z: 0i32 },
            color: Vec3h { x: 0i32, y: 2i32, z: 0i32 },
            texcoord: Vec2h { x: 2i32, y: 0i32 },
        },
        Vertex {
            position: Vec3h { x: -2i32, y: 2i32, z: 0i32 },
            normal: Vec3h { x: 0i32, y: 2i32, z: 0i32 },
            color: Vec3h { x: 0i32, y: 0i32, z: 2i32 },
            texcoord: Vec2h { x: 0i32, y: 2i32 },
        },
        Vertex {
            position: Vec3h { x: -2i32, y: -2i32, z: 0i32 },
            normal: Vec3h { x: 0i32, y: 2i32, z: 0i32 },
            color: Vec3h { x: 0i32, y: 2i32, z: 0i32 },
            texcoord: Vec2h { x: 2i32, y: 0i32 },
        },
        Vertex {
            position: Vec3h { x: 2i32, y: 2i32, z: 0i32 },
            normal: Vec3h { x: 0i32, y: 2i32, z: 0i32 },
            color: Vec3h { x: 2i32, y: 0i32, z: 2i32 },
            texcoord: Vec2h { x: 2i32, y: 2i32 },
        },
        Vertex {
            position: Vec3h { x: 2i32, y: -2i32, z: 0i32 },
            normal: Vec3h { x: 0i32, y: 2i32, z: 0i32 },
            color: Vec3h { x: 0i32, y: 0i32, z: 2i32 },
            texcoord: Vec2h { x: 0i32, y: 2i32 },
        },
    ]
}

impl Mesh {
    pub fn new(vertices: Vec<Vertex>, indices: Option<Vec<u32>>) -> (m: Mesh)
        ensures
            m.vertices == vertices,
            m.indices == indices,
    {
        Mesh { vertices, indices }
    }

    /// The built-in triangle, indexed 0, 1, 2.
    pub fn new_triangle() -> (m: Mesh)
        ensures
            m.vertices@ == triangle_vertices(),
            m.indices matches Some(ix) && ix@ == seq![0u32, 1u32, 2u32],
    {
        let mut vertices: Vec<Vertex> = Vec::new();
        vertices.push(Vertex {
            position: Vec3h { x: -1, y: -1, z: 0 },
            normal: Vec3h { x: 0, y: 0, z: 2 },
            color: Vec3h { x: 2, y: 0, z: 0 },
            texcoord: Vec2h { x: 0, y: 0 },
        });
        vertices.push(Vertex {
            position: Vec3h { x: 1, y: -1, z: 0 },
            normal: Vec3h { x: 0, y: 0, z: 2 },
            color: Vec3h { x: 0, y: 2, z: 0 },
            texcoord: Vec2h { x: 1, y: 2 },
        });
        vertices.push(Vertex {
            position: Vec3h { x: 0, y: 1, z: 0 },
            normal: Vec3h { x: 0, y: 0, z: 2 },
            color: Vec3h { x: 0, y: 0, z: 2 },
            texcoord: Vec2h { x: 2, y: 0 },
        });
        let mut indices: Vec<u32> = Vec::new();
        indices.push(0);
        indices.push(1);
        indices.push(2);
        proof {
            assert(vertices@ =~= triangle_vertices());
            assert(indices@ =~= seq![0u32, 1u32, 2u32]);
        }
        Mesh { vertices, indices: Some(indices) }
    }

    /// The built-in unit quad, two triangles, indexed 0..6.
    pub fn new_quad() -> (m: Mesh)
        ensures
            m.vertices@ == quad_vertices(),
            m.indices matches Some(ix) && ix@ == seq![0u32, 1u32, 2u32, 3u32, 4u32, 5u32],
    {
        let mut vertices: Vec<Vertex> = Vec::new();
        vertices.push(Vertex {
            position: Vec3h { x: 2, y: 2, z: 0 },
            normal: Vec3h { x: 0, y: 2, z: 0 },
            color: Vec3h { x: 2, y: 0, z: 0 },
            texcoord: Vec2h { x: 0, y: 0 },
        });
        vertices.push(Vertex {
            position: Vec3h { x: -2, y: -2, z: 0 },
            normal: Vec3h { x: 0, y: 2, z: 0 },
            color: Vec3h { x: 0, y: 2, z: 0 },
            texcoord: Vec2h { x: 2, y: 0 },
        });
        vertices.push(Vertex {
            position: Vec3h { x: -2, y: 2, z: 0 },
            normal: Vec3h { x: 0, y: 2, z: 0 },
            color: Vec3h { x: 0, y: 0, z: 2 },
            texcoord: Vec2h { x: 0, y: 2 },
        });
        vertices.push(Vertex {
            position: Vec3h { x: -2, y: -2, z: 0 },
            normal: Vec3h { x: 0, y: 2, z: 0 },
            color: Vec3h { x: 0, y: 2, z: 0 },
            texcoord: Vec2h { x: 2, y: 0 },
        });
        vertices.push(Vertex {
            position: Vec3h { x: 2, y: 2, z: 0 },
            normal: Vec3h { x: 0, y: 2, z: 0 },
            color: Vec3h { x: 2, y: 0, z: 2 },
            texcoord: Vec2h { x: 2, y: 2 },
        });
        vertices.push(Vertex {
            position: Vec3h { x: 2, y: -2, z: 0 },
            normal: Vec3h { x: 0, y: 2, z: 0 },
            color: Vec3h { x: 0, y: 0, z: 2 },
            texcoord: Vec2h { x: 0, y: 2 },
        });
        let mut indices: Vec<u32> = Vec::new();
        indices.push(0);
        indices.push(1);
        indices.push(2);
        indices.push(3);
        indices.push(4);
        indices.push(5);
        proof {
            assert(vertices@ =~= quad_vertices());
            assert(indices@ =~= seq![0u32, 1u32, 2u32, 3u32, 4u32, 5u32]);
        }
        Mesh { vertices, indices: Some(indices) }
    }
}

} // verus!
