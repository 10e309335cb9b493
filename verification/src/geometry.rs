//! Index data of the shared geometry, and the checks on its parameters.

use vstd::prelude::*;
use crate::bytes::{cast_words, is_memory_image};

verus! {

/// The indices of a closed line loop over `segments` vertices:
/// `0, 1, .., segments - 1` and then `0` again.
pub open spec fn circle_indices(segments: nat) -> Seq<u32> {
    Seq::new(segments + 1, |i: int| if i < segments { i as u32 } else { 0u32 })
}

/// Builds the index list of a circle outline, to be drawn as one line strip.
///
/// Every vertex is visited once, in order, and the strip ends where it began.
pub fn generate_circle_indices(segments: usize) -> (indices: Vec<u32>)
    requires
        segments <= u32::MAX,
    ensures
        indices@ == circle_indices(segments as nat),
        indices@.len() == segments + 1,
        forall|i: int| 0 <= i < segments ==> indices@[i] == i,
        indices@.last() == 0,
        indices@.first() == indices@.last(),
{
    let mut indices: Vec<u32> = Vec::new();
    let mut i: usize = 0;
    while i < segments
        invariant
            i <= segments <= u32::MAX,
            indices@.len() == i,
            forall|j: int| 0 <= j < i ==> indices@[j] == j,
        decreases segments - i,
    {
        indices.push(i as u32);
        i = i + 1;
    }
    indices.push(0);
    assert(indices@ =~= circle_indices(segments as nat));
    indices
}

/// The number of vertices of the triangle.
pub const TRIANGLE_VERTEX_COUNT: u32 = 3;

/// The bit pattern of the single-precision value `0.5`.
pub const HALF: u32 = 0x3f00_0000;

/// The bit pattern of the single-precision value `-0.5`.
pub const MINUS_HALF: u32 = 0xbf00_0000;

/// Why a geometry cannot be generated.
#[derive(Clone, Copy, PartialEq, Eq, Debug, Structural)]
pub enum DomainError {
    /// A circle needs at least one segment: the angle between two vertices is
    /// a full turn divided by their number.
    ZeroSegments,
    /// The closed loop over the circle has more indices than one indexed draw
    /// can take.
    TooManySegments,
}

/// The positions of the triangle's vertices, three coordinates each:
/// `(0, 0.5, 0)`, `(-0.5, -0.5, 0)`, `(0.5, -0.5, 0)`, counter-clockwise, as
/// single-precision bit patterns.
pub open spec fn triangle_positions() -> Seq<u32> {
    seq![0u32, HALF, 0u32, MINUS_HALF, MINUS_HALF, 0u32, HALF, MINUS_HALF, 0u32]
}

/// Builds the vertex data of the triangle, drawn without an index buffer.
pub fn triangle_vertices() -> (vertices: Vec<u32>)
    ensures
        vertices@ == triangle_positions(),
        vertices@.len() == 3 * TRIANGLE_VERTEX_COUNT,
{
    let mut vertices: Vec<u32> = Vec::new();
    vertices.push(0);
    vertices.push(HALF);
    vertices.push(0);
    vertices.push(MINUS_HALF);
    vertices.push(MINUS_HALF);
    vertices.push(0);
    vertices.push(HALF);
    vertices.push(MINUS_HALF);
    vertices.push(0);
    assert(vertices@ =~= triangle_positions());
    vertices
}

/// The number of indices of the closed loop over a circle of `segments`
/// vertices, where there is one.
pub open spec fn checked_index_count(segments: nat) -> Result<u32, DomainError> {
    if segments == 0 {
        Err(DomainError::ZeroSegments)
    } else if segments >= u32::MAX {
        Err(DomainError::TooManySegments)
    } else {
        Ok((segments + 1) as u32)
    }
}

/// Validates the number of segments of a circle and gives the number of
/// indices that one draw of it covers: one per vertex and one to close the
/// loop.
pub fn circle_index_count(segments: usize) -> (count: Result<u32, DomainError>)
    ensures
        count == checked_index_count(segments as nat),
        count is Ok <==> 1 <= segments < u32::MAX,
        count matches Ok(n) ==> n == circle_indices(segments as nat).len(),
{
    if segments == 0 {
        Err(DomainError::ZeroSegments)
    } else if segments >= u32::MAX as usize {
        Err(DomainError::TooManySegments)
    } else {
        Ok((segments + 1) as u32)
    }
}

/// The contents of a vertex or index buffer: the in-memory image of its
/// 32-bit entries.
pub fn buffer_bytes(words: &Vec<u32>) -> (bytes: Vec<u8>)
    ensures
        is_memory_image(words@, bytes@),
        bytes@.len() == 4 * words@.len(),
{
    cast_words(words)
}

} // verus!
