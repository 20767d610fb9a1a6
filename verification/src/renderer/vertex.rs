//! Vertex records and their buffer layouts.

use vstd::prelude::*;
use crate::renderer::plan::{VertexAttribute, VertexBufferLayout, VertexFormat};

verus! {

/// One corner of the mesh. Every component is a binary32 encoding.
#[derive(Clone, Copy, PartialEq, Eq, Debug)]
pub struct Vertex {
    pub position: [u32; 3],
    pub normal: [u32; 3],
    pub texcoord: [u32; 2],
}

impl Vertex {
    /// The record as it lies in a vertex buffer: position, normal, texture
    /// coordinate.
    pub open spec fn words(self) -> Seq<u32> {
        self.position@ + self.normal@ + self.texcoord@
    }

    /// The attributes of the layout, in shader-location order.
    pub open spec fn attributes() -> Seq<VertexAttribute> {
        seq![
            VertexAttribute { offset: 0, shader_location: 0, format: VertexFormat::Float32x3 },
            VertexAttribute { offset: 12, shader_location: 1, format: VertexFormat::Float32x3 },
            VertexAttribute { offset: 24, shader_location: 2, format: VertexFormat::Float32x2 },
        ]
    }

    /// Component `j` of the attribute at shader location `location`.
    pub open spec fn component(self, location: int, j: int) -> u32 {
        if location == 0 {
            self.position@[j]
        } else if location == 1 {
            self.normal@[j]
        } else {
            self.texcoord@[j]
        }
    }

    /// A corner at `position` with this normal and texture coordinate.
    pub fn new(position: [u32; 3], normal: [u32; 3], texcoord: [u32; 2]) -> (v: Vertex)
        ensures
            v.position == position,
            v.normal == normal,
            v.texcoord == texcoord,
    {
        Vertex { position, normal, texcoord }
    }

    /// The layout of a buffer of such records.
    pub fn desc() -> (layout: VertexBufferLayout)
        ensures
            layout.array_stride == 32,
            layout.attributes@ == Self::attributes(),
            layout.packed(),
    {
        let mut attributes: Vec<VertexAttribute> = Vec::new();
        attributes.push(
            VertexAttribute { offset: 0, shader_location: 0, format: VertexFormat::Float32x3 },
        );
        attributes.push(
            VertexAttribute { offset: 12, shader_location: 1, format: VertexFormat::Float32x3 },
        );
        attributes.push(
            VertexAttribute { offset: 24, shader_location: 2, format: VertexFormat::Float32x2 },
        );
        let layout = VertexBufferLayout { array_stride: 32, attributes };
        proof {
            reveal_with_fuel(crate::renderer::plan::end_of, 4);
        }
        layout
    }
}

/// The contents of a vertex buffer in words: eight for each vertex.
pub open spec fn mesh_words(vertices: Seq<Vertex>) -> Seq<u32> {
    Seq::new(8 * vertices.len(), |i: int| vertices[i / 8].words()[i % 8])
}

/// Lays the vertices out one after another.
pub fn vertex_words(vertices: &Vec<Vertex>) -> (words: Vec<u32>)
    ensures
        words@ == mesh_words(vertices@),
{
    let mut words: Vec<u32> = Vec::new();
    let mut k: usize = 0;
    while k < vertices.len()
        invariant
            k <= vertices@.len(),
            words@ == mesh_words(vertices@.take(k as int)),
        decreases vertices@.len() - k,
    {
        let v = vertices[k];
        words.push(v.position[0]);
        words.push(v.position[1]);
        words.push(v.position[2]);
        words.push(v.normal[0]);
        words.push(v.normal[1]);
        words.push(v.normal[2]);
        words.push(v.texcoord[0]);
        words.push(v.texcoord[1]);
        k += 1;
        assert(words@ =~= mesh_words(vertices@.take(k as int)));
    }
    assert(vertices@.take(k as int) =~= vertices@);
    words
}

/// The layout addresses the fields. In a buffer of vertices, component `j`
/// of the attribute at shader location `location` of vertex `i` is the word
/// at the byte offset that the layout gives it: `i` strides, then the
/// attribute's offset, then `j` components.
pub proof fn lemma_layout_addresses_fields(vertices: Seq<Vertex>, i: int, location: int, j: int)
    requires
        0 <= i < vertices.len(),
        0 <= location < 3,
        0 <= j < Vertex::attributes()[location].format.components(),
    ensures
        (32 * i + Vertex::attributes()[location].offset + 4 * j) % 4 == 0,
        mesh_words(vertices)[(32 * i + Vertex::attributes()[location].offset + 4 * j) / 4]
            == vertices[i].component(location, j),
{
}

} // verus!
