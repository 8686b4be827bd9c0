//! The vertex buffer layout handed to the pipeline: how the GPU walks
//! the vertex buffer and where each attribute lies inside a vertex.

use vstd::prelude::*;

verus! {

/// The data format of one vertex attribute.
#[derive(Clone, Copy, PartialEq, Eq, Structural, Debug)]
pub enum AttributeFormat {
    /// Two single-precision floats, eight bytes.
    Float32x2,
    /// Three single-precision floats, twelve bytes.
    Float32x3,
}

impl AttributeFormat {
    /// The attribute's size in bytes.
    pub open spec fn spec_size(self) -> u64 {
        match self {
            AttributeFormat::Float32x2 => 8,
            AttributeFormat::Float32x3 => 12,
        }
    }

    /// Returns the attribute's size in bytes.
    pub fn size(&self) -> (n: u64)
        ensures
            n == self.spec_size(),
    {
        match self {
            AttributeFormat::Float32x2 => 8,
            AttributeFormat::Float32x3 => 12,
        }
    }
}

/// One attribute of a vertex buffer layout: where it starts inside a
/// vertex and which shader input slot receives it.
#[derive(Clone, Copy, PartialEq, Eq, Structural, Debug)]
pub struct VertexAttribute {
    pub format: AttributeFormat,
    pub offset: u64,
    pub shader_location: u32,
}

/// How the GPU walks the vertex buffer: the distance between vertices
/// and the attributes inside each.
#[derive(Clone, Debug)]
pub struct VertexBufferLayout {
    pub array_stride: u64,
    pub attributes: Vec<VertexAttribute>,
}

impl VertexBufferLayout {
    /// A layout is well formed when every attribute lies whole inside
    /// the stride, no two attributes overlap, and no two attributes feed
    /// the same shader input slot.
    pub open spec fn wf(self) -> bool {
        &&& forall|i: int|
            0 <= i < self.attributes@.len() ==> self.attributes@[i].offset
                + self.attributes@[i].format.spec_size() <= self.array_stride
        &&& forall|i: int, j: int|
            0 <= i < j < self.attributes@.len() ==> self.attributes@[i].offset
                + self.attributes@[i].format.spec_size() <= self.attributes@[j].offset
        &&& forall|i: int, j: int|
            0 <= i < j < self.attributes@.len() ==> self.attributes@[i].shader_location
                != self.attributes@[j].shader_location
    }
}

/// Builds the layout of the demo's vertex: a three-float position at the
/// start of each vertex, a two-float texture coordinate behind it,
/// twenty bytes per vertex.
pub fn demo_vertex_layout() -> (l: VertexBufferLayout)
    ensures
        l.array_stride == 20,
        l.attributes@.len() == 2,
        l.attributes@[0] == (VertexAttribute {
            format: AttributeFormat::Float32x3,
            offset: 0,
            shader_location: 0,
        }),
        l.attributes@[1] == (VertexAttribute {
            format: AttributeFormat::Float32x2,
            offset: 12,
            shader_location: 1,
        }),
        l.wf(),
{
    let position = VertexAttribute { format: AttributeFormat::Float32x3, offset: 0, shader_location: 0 };
    let tex_coord = VertexAttribute {
        format: AttributeFormat::Float32x2,
        offset: position.format.size(),
        shader_location: 1,
    };
    let mut attributes: Vec<VertexAttribute> = Vec::new();
    attributes.push(position);
    attributes.push(tex_coord);
    VertexBufferLayout { array_stride: 20, attributes }
}

} // verus!
