//! The unit quad that every instance stretches over its bounds.

use vstd::prelude::*;
use crate::primitive::{Float, ONE_BITS, ZERO_BITS};
use crate::wire::{is_memory_image, memory_image};

verus! {

/// One corner of the quad.
#[derive(Clone, Copy, Debug)]
pub struct Vertex {
    /// The position of the corner, `x` then `y`.
    pub _position: [Float; 2],
}

/// The number of corners of the quad.
pub const QUAD_VERTEX_COUNT: usize = 4;

/// The number of indices of the quad: two triangles.
pub const QUAD_INDEX_COUNT: u32 = 6;

/// The corners of the unit quad, clockwise from the origin, as the words of
/// the vertex buffer: `(0, 0)`, `(1, 0)`, `(1, 1)`, `(0, 1)`.
pub open spec fn quad_vertex_words() -> Seq<u32> {
    seq![ZERO_BITS, ZERO_BITS, ONE_BITS, ZERO_BITS, ONE_BITS, ONE_BITS, ZERO_BITS, ONE_BITS]
}

/// The corners of the two triangles that make the quad.
pub open spec fn quad_indices() -> Seq<u16> {
    seq![0u16, 1u16, 2u16, 0u16, 2u16, 3u16]
}

impl Vertex {
    /// The two words of the vertex.
    pub open spec fn words(&self) -> Seq<u32> {
        seq![self._position[0].bits, self._position[1].bits]
    }
}

/// The words of a sequence of vertices, one vertex after the other.
pub open spec fn vertex_words(vertices: Seq<Vertex>) -> Seq<u32> {
    Seq::new(2 * vertices.len(), |i: int| vertices[i / 2].words()[i % 2])
}

/// The four corners of the unit quad.
pub fn quad_vertices() -> (vertices: [Vertex; 4])
    ensures
        vertex_words(vertices@) == quad_vertex_words(),
{
    let zero = Float::zero();
    let one = Float::one();
    let vertices = [
        Vertex { _position: [zero, zero] },
        Vertex { _position: [one, zero] },
        Vertex { _position: [one, one] },
        Vertex { _position: [zero, one] },
    ];
    assert(vertex_words(vertices@) =~= quad_vertex_words());
    vertices
}

/// The indices of the quad: the triangle of the corners 0, 1, 2 and the
/// triangle of the corners 0, 2, 3.
pub fn quad_index_list() -> (indices: [u16; 6])
    ensures
        indices@ == quad_indices(),
        forall|k: int| 0 <= k < 6 ==> indices@[k] < QUAD_VERTEX_COUNT,
{
    let indices: [u16; 6] = [0, 1, 2, 0, 2, 3];
    assert(indices@ =~= quad_indices());
    indices
}

/// The content of the vertex buffer: the corners of the quad as this machine
/// stores them.
pub fn quad_vertex_bytes() -> (bytes: Vec<u8>)
    ensures
        is_memory_image(bytes@, quad_vertex_words()),
        bytes@.len() == 32,
{
    let vertices = quad_vertices();
    let mut words: Vec<u32> = Vec::new();
    let mut k: usize = 0;
    while k < 4
        invariant
            k <= 4,
            words@ == vertex_words(vertices@).take(2 * k as int),
        decreases 4 - k,
    {
        words.push(vertices[k]._position[0].bits);
        words.push(vertices[k]._position[1].bits);
        k += 1;
        assert(words@ =~= vertex_words(vertices@).take(2 * k as int));
    }
    assert(words@ =~= quad_vertex_words());
    memory_image(words.as_slice())
}

} // verus!
