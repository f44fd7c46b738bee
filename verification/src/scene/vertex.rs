//! Vertices and the bits packed into them.

use vstd::prelude::*;

use crate::scalar::Scalar;
use crate::scene::bounds::{
    box_around, box_reaches_its_points, every_face_touches_a_point, Aabb, Vec3,
};

verus! {

#[derive(Clone, Copy, Debug, PartialEq, Eq, Hash, Structural)]
pub struct Vec2 {
    pub x: Scalar,
    pub y: Scalar,
}

/// One vertex of rasterised geometry.
#[derive(Clone, Copy, Debug, PartialEq, Eq, Structural)]
pub struct Vertex {
    pub position: Vec3,
    pub normal: Vec3,
    pub material: u32,
    pub feature_id: u32,
    pub uv: Vec2,
    pub ao: Scalar,
    pub semantic_channels: u32,
}

/// The type of a vertex attribute.
#[derive(Clone, Copy, Debug, PartialEq, Eq, Structural)]
pub enum VertexFormat {
    Float32,
    Float32x2,
    Float32x3,
    Uint32,
}

impl VertexFormat {
    /// The size in bytes.
    pub open spec fn size(self) -> nat {
        match self {
            VertexFormat::Float32 => 4,
            VertexFormat::Float32x2 => 8,
            VertexFormat::Float32x3 => 12,
            VertexFormat::Uint32 => 4,
        }
    }
}

#[derive(Clone, Copy, Debug, PartialEq, Eq, Structural)]
pub struct VertexAttribute {
    pub format: VertexFormat,
    pub offset: u64,
    pub shader_location: u32,
}

/// How vertices lie in a buffer.
#[derive(Debug)]
pub struct VertexLayout {
    /// The bytes from one vertex to the next.
    pub array_stride: u64,
    pub attributes: Vec<VertexAttribute>,
}

/// The bytes of a vertex.
pub const VERTEX_STRIDE: u64 = 48;

/// The fields of a vertex in order, one after the other.
pub open spec fn vertex_attributes() -> Seq<VertexAttribute> {
    seq![
        VertexAttribute { format: VertexFormat::Float32x3, offset: 0, shader_location: 0 },
        VertexAttribute { format: VertexFormat::Float32x3, offset: 12, shader_location: 1 },
        VertexAttribute { format: VertexFormat::Uint32, offset: 24, shader_location: 2 },
        VertexAttribute { format: VertexFormat::Uint32, offset: 28, shader_location: 3 },
        VertexAttribute { format: VertexFormat::Float32x2, offset: 32, shader_location: 4 },
        VertexAttribute { format: VertexFormat::Float32, offset: 40, shader_location: 5 },
        VertexAttribute { format: VertexFormat::Uint32, offset: 44, shader_location: 6 },
    ]
}

impl Vertex {
    /// Where shaders find the fields of a vertex.
    pub fn layout() -> (layout: VertexLayout)
        ensures
            layout.array_stride == VERTEX_STRIDE,
            layout.attributes@ == vertex_attributes(),
    {
        VertexLayout {
            array_stride: VERTEX_STRIDE,
            attributes: vec![
                VertexAttribute { format: VertexFormat::Float32x3, offset: 0, shader_location: 0 },
                VertexAttribute { format: VertexFormat::Float32x3, offset: 12, shader_location: 1 },
                VertexAttribute { format: VertexFormat::Uint32, offset: 24, shader_location: 2 },
                VertexAttribute { format: VertexFormat::Uint32, offset: 28, shader_location: 3 },
                VertexAttribute { format: VertexFormat::Float32x2, offset: 32, shader_location: 4 },
                VertexAttribute { format: VertexFormat::Float32, offset: 40, shader_location: 5 },
                VertexAttribute { format: VertexFormat::Uint32, offset: 44, shader_location: 6 },
            ],
        }
    }
}

/// Attributes follow each other without gap, and the last one ends where the next vertex begins.
pub proof fn vertex_attributes_fill_a_vertex(i: int)
    requires
        0 <= i < 7,
    ensures
        vertex_attributes()[i].shader_location == i,
        vertex_attributes()[i].offset + vertex_attributes()[i].format.size() == if i == 6 {
            VERTEX_STRIDE
        } else {
            vertex_attributes()[i + 1].offset
        },
        vertex_attributes()[0].offset == 0,
{
}

pub const MATERIAL_TRUNK: u32 = 0;

pub const MATERIAL_FOLIAGE: u32 = 1;

pub const MATERIAL_GROUND: u32 = 2;

pub const MATERIAL_SKIN: u32 = 3;

pub const MATERIAL_EMISSIVE: u32 = 4;

/// The positions of a list of vertices.
pub open spec fn positions(vertices: Seq<Vertex>) -> Seq<Vec3> {
    vertices.map_values(|v: Vertex| v.position)
}

/// The box around the positions of a mesh.
pub fn compute_mesh_bounds(vertices: &[Vertex]) -> (b: Aabb)
    ensures
        b == box_around(positions(vertices@)),
{
    let mut bounds = Aabb::empty();
    let mut i: usize = 0;
    while i < vertices.len()
        invariant
            i <= vertices.len(),
            bounds == box_around(positions(vertices@).take(i as int)),
        decreases vertices.len() - i,
    {
        let ghost all = positions(vertices@);
        assert(all.take(i + 1).drop_last() == all.take(i as int));
        bounds.expand_point(vertices[i].position);
        i = i + 1;
    }
    assert(positions(vertices@).take(i as int) == positions(vertices@));
    bounds
}

/// The box of a mesh reaches every vertex, and each of its faces goes through one.
pub proof fn mesh_bounds_hold_every_vertex(vertices: Seq<Vertex>, i: int) -> (at: Seq<int>)
    requires
        0 <= i < vertices.len(),
        forall|k: int| 0 <= k < vertices.len() ==> (#[trigger] vertices[k]).position.is_number(),
    ensures
        box_around(positions(vertices)).reaches(vertices[i].position),
        at.len() == 6,
        forall|j: int| 0 <= j < 6 ==> 0 <= #[trigger] at[j] < vertices.len(),
        box_around(positions(vertices)).min.x == vertices[at[0]].position.x,
        box_around(positions(vertices)).min.y == vertices[at[1]].position.y,
        box_around(positions(vertices)).min.z == vertices[at[2]].position.z,
        box_around(positions(vertices)).max.x == vertices[at[3]].position.x,
        box_around(positions(vertices)).max.y == vertices[at[4]].position.y,
        box_around(positions(vertices)).max.z == vertices[at[5]].position.z,
{
    let points = positions(vertices);
    assert forall|k: int| 0 <= k < points.len() implies (#[trigger] points[k]).is_number() by {
        assert(points[k] == vertices[k].position);
    }
    box_reaches_its_points(points);
    assert(points[i] == vertices[i].position);
    every_face_touches_a_point(points)
}

/// Positions and normals have three numbers, texture coordinates two, occlusion one; material, feature
/// and channels are whole numbers.
pub proof fn vertex_attributes_have_their_types()
    ensures
        vertex_attributes().len() == 7,
        vertex_attributes()[0].format == VertexFormat::Float32x3,
        vertex_attributes()[1].format == VertexFormat::Float32x3,
        vertex_attributes()[2].format == VertexFormat::Uint32,
        vertex_attributes()[3].format == VertexFormat::Uint32,
        vertex_attributes()[4].format == VertexFormat::Float32x2,
        vertex_attributes()[5].format == VertexFormat::Float32,
        vertex_attributes()[6].format == VertexFormat::Uint32,
        VERTEX_STRIDE == 48,
{
}

} // verus!
