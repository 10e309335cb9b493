//! Shapes and the instance record each of them owns.

use vstd::prelude::*;
use crate::bytes::{cast_words, is_memory_image};

verus! {

/// The size in bytes of one instance record: sixteen 32-bit entries.
pub const INSTANCE_SIZE: u64 = 64;

/// The kinds of shape. The kind selects the shared geometry and the pipeline.
#[derive(Clone, Copy, PartialEq, Eq, Debug, Structural)]
pub enum ShapeType {
    Circle,
    Triangle,
}

/// A shape: its kind and where it stands. Position and scale are
/// single-precision bit patterns.
#[derive(Clone, Copy, PartialEq, Eq, Debug)]
pub struct Shape {
    pub shape_type: ShapeType,
    pub position: [u32; 3],
    pub scale: u32,
}

impl Shape {
    /// A circle at `position`, scaled uniformly by `scale`.
    pub fn new_circle(position: [u32; 3], scale: u32) -> (shape: Shape)
        ensures
            shape == (Shape { shape_type: ShapeType::Circle, position, scale }),
    {
        Shape { shape_type: ShapeType::Circle, position, scale }
    }

    /// A triangle at `position`, scaled uniformly by `scale`.
    pub fn new_triangle(position: [u32; 3], scale: u32) -> (shape: Shape)
        ensures
            shape == (Shape { shape_type: ShapeType::Triangle, position, scale }),
    {
        Shape { shape_type: ShapeType::Triangle, position, scale }
    }
}

/// The per-shape record read by the vertex stage: a 4x4 model matrix as four
/// columns of four single-precision bit patterns.
#[derive(Clone, Copy, PartialEq, Eq, Debug)]
pub struct InstanceData {
    pub model_matrix: [[u32; 4]; 4],
}

impl InstanceData {
    /// The sixteen entries column after column, without padding.
    pub open spec fn words(self) -> Seq<u32> {
        Seq::new(16, |i: int| self.model_matrix[i / 4][i % 4])
    }

    /// Serializes the record as the GPU reads it: column-major, 64 bytes.
    pub fn to_bytes(&self) -> (bytes: Vec<u8>)
        ensures
            is_memory_image(self.words(), bytes@),
            bytes@.len() == INSTANCE_SIZE,
    {
        let mut words: Vec<u32> = Vec::new();
        let mut column: usize = 0;
        while column < 4
            invariant
                column <= 4,
                words@.len() == 4 * column,
                forall|i: int| 0 <= i < words@.len() ==> words@[i] == self.model_matrix[i / 4][i % 4],
            decreases 4 - column,
        {
            let entries: [u32; 4] = self.model_matrix[column];
            words.push(entries[0]);
            words.push(entries[1]);
            words.push(entries[2]);
            words.push(entries[3]);
            column = column + 1;
        }
        assert(words@ =~= self.words());
        cast_words(&words)
    }
}

} // verus!
