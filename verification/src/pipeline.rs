//! The table that fixes, for each kind of shape, how it is rasterized.

use vstd::prelude::*;
use crate::shape::ShapeType;

verus! {

/// How the vertices of a draw are assembled into primitives.
#[derive(Clone, Copy, PartialEq, Eq, Debug, Structural)]
pub enum Topology {
    /// Each vertex after the first is joined to the one before it.
    LineStrip,
    /// Every three vertices make one triangle.
    TriangleList,
}

/// How a primitive is filled.
#[derive(Clone, Copy, PartialEq, Eq, Debug, Structural)]
pub enum PolygonMode {
    /// The whole primitive.
    Fill,
    /// Its edges only: a wireframe.
    Line,
}

/// What a pipeline is compiled with for one kind of shape.
#[derive(Clone, Copy, PartialEq, Eq, Debug, Structural)]
pub struct PipelineConfig {
    pub topology: Topology,
    pub polygon_mode: PolygonMode,
    /// Draws go through a 32-bit index buffer.
    pub indexed: bool,
}

/// The pipeline table. The circle's row is fixed; how triangles are filled is
/// the caller's choice.
pub open spec fn pipeline_table(kind: ShapeType, triangle_mode: PolygonMode) -> PipelineConfig {
    match kind {
        ShapeType::Circle => PipelineConfig {
            topology: Topology::LineStrip,
            polygon_mode: PolygonMode::Fill,
            indexed: true,
        },
        ShapeType::Triangle => PipelineConfig {
            topology: Topology::TriangleList,
            polygon_mode: triangle_mode,
            indexed: false,
        },
    }
}

/// Looks a kind up in the pipeline table.
pub fn pipeline_config(kind: ShapeType, triangle_mode: PolygonMode) -> (config: PipelineConfig)
    ensures
        config == pipeline_table(kind, triangle_mode),
{
    match kind {
        ShapeType::Circle => PipelineConfig {
            topology: Topology::LineStrip,
            polygon_mode: PolygonMode::Fill,
            indexed: true,
        },
        ShapeType::Triangle => PipelineConfig {
            topology: Topology::TriangleList,
            polygon_mode: triangle_mode,
            indexed: false,
        },
    }
}

/// Looks a kind up in the table with triangles drawn as wireframes.
pub fn default_pipeline_config(kind: ShapeType) -> (config: PipelineConfig)
    ensures
        config == pipeline_table(kind, PolygonMode::Line),
{
    pipeline_config(kind, PolygonMode::Line)
}

} // verus!
