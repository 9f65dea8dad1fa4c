//! Configuration of the three shader pipelines.
//!
//! The renderer draws with three pipelines built once at construction: two
//! coverage pipelines for the first pass (flat triangles and quadratic
//! curve correction, told apart by opposite front-face winding) and one
//! resolve pipeline for the output pass. This module fixes each pipeline's
//! primitive topology, winding, blending and targets as plain data; the
//! embedder turns each description into a real GPU pipeline object.

use vstd::prelude::*;

verus! {

/// Winding order that counts as a front face.
#[derive(Debug, Clone, Copy, PartialEq, Eq, Structural)]
pub enum FrontFace {
    /// Clockwise.
    Cw,
    /// Counter-clockwise.
    Ccw,
}

/// How vertices are assembled into primitives.
#[derive(Debug, Clone, Copy, PartialEq, Eq, Structural)]
pub enum PrimitiveTopology {
    /// Every three vertices form one triangle.
    TriangleList,
    /// Each vertex after the second extends a strip of triangles.
    TriangleStrip,
}

/// How a fragment's channel combines with the value already in the target.
#[derive(Debug, Clone, Copy, PartialEq, Eq, Structural)]
pub enum Blend {
    /// Source plus destination, both weighted by one: accumulation.
    Additive,
    /// The source overwrites the destination.
    Replace,
    /// Standard alpha blending: source over destination.
    Alpha,
}

/// Which texture the pipeline renders into.
#[derive(Debug, Clone, Copy, PartialEq, Eq, Structural)]
pub enum RenderTarget {
    /// The intermediate low-precision texture that accumulates samples.
    SampleTexture,
    /// The final output texture.
    OutputTexture,
}

/// Everything the embedder needs to build one GPU pipeline.
#[derive(Debug, Clone, Copy, PartialEq, Eq, Structural)]
pub struct PipelineSpec {
    /// Winding order of front faces.
    pub front_face: FrontFace,
    /// Primitive assembly.
    pub topology: PrimitiveTopology,
    /// Blend behavior of the color channels.
    pub color_blend: Blend,
    /// Blend behavior of the alpha channel.
    pub alpha_blend: Blend,
    /// Texture the pipeline writes to.
    pub target: RenderTarget,
    /// Whether the curve-instance buffer feeds the pipeline one record per
    /// instance.
    pub instance_input: bool,
    /// Whether the pipeline's uniform block is selected by a per-draw
    /// dynamic offset.
    pub dynamic_uniform_offset: bool,
}

/// The three pipelines the renderer draws with.
#[derive(Debug, Clone, Copy, PartialEq, Eq, Structural)]
pub struct Pipelines {
    /// First-pass pipeline rasterizing the flat triangle of each curve.
    pub render_triangles: PipelineSpec,
    /// First-pass pipeline rasterizing the curve-interior correction.
    pub render_beziers: PipelineSpec,
    /// Output-pass resolve pipeline.
    pub render_output: PipelineSpec,
}

/// A first-pass coverage pipeline: one triangle per curve instance,
/// accumulated additively into the sample texture, with the alpha channel
/// overwritten to carry per-sample metadata instead of coverage.
pub open spec fn spec_first_pass_pipeline(front_face: FrontFace) -> PipelineSpec {
    PipelineSpec {
        front_face,
        topology: PrimitiveTopology::TriangleList,
        color_blend: Blend::Additive,
        alpha_blend: Blend::Replace,
        target: RenderTarget::SampleTexture,
        instance_input: true,
        dynamic_uniform_offset: true,
    }
}

/// The output-pass pipeline: a full-screen triangle strip with no vertex
/// buffer, resolving the sample texture with standard alpha blending.
pub open spec fn spec_output_pass_pipeline() -> PipelineSpec {
    PipelineSpec {
        front_face: FrontFace::Ccw,
        topology: PrimitiveTopology::TriangleStrip,
        color_blend: Blend::Alpha,
        alpha_blend: Blend::Alpha,
        target: RenderTarget::OutputTexture,
        instance_input: false,
        dynamic_uniform_offset: false,
    }
}

/// The full pipeline set. The two coverage pipelines differ only in their
/// front-face winding: the sign difference lets the resolve shader combine
/// the flat-triangle fill and the curve correction term.
pub open spec fn spec_pipelines() -> Pipelines {
    Pipelines {
        render_triangles: spec_first_pass_pipeline(FrontFace::Cw),
        render_beziers: spec_first_pass_pipeline(FrontFace::Ccw),
        render_output: spec_output_pass_pipeline(),
    }
}

/// Builds the description of one first-pass coverage pipeline.
pub fn first_pass_pipeline(front_face: FrontFace) -> (r: PipelineSpec)
    ensures
        r == spec_first_pass_pipeline(front_face),
{
    PipelineSpec {
        front_face,
        topology: PrimitiveTopology::TriangleList,
        color_blend: Blend::Additive,
        alpha_blend: Blend::Replace,
        target: RenderTarget::SampleTexture,
        instance_input: true,
        dynamic_uniform_offset: true,
    }
}

/// Builds the description of the output-pass resolve pipeline.
pub fn output_pass_pipeline() -> (r: PipelineSpec)
    ensures
        r == spec_output_pass_pipeline(),
{
    PipelineSpec {
        front_face: FrontFace::Ccw,
        topology: PrimitiveTopology::TriangleStrip,
        color_blend: Blend::Alpha,
        alpha_blend: Blend::Alpha,
        target: RenderTarget::OutputTexture,
        instance_input: false,
        dynamic_uniform_offset: false,
    }
}

impl Pipelines {
    /// Builds all three pipeline descriptions, once, at renderer
    /// construction.
    pub fn new() -> (r: Pipelines)
        ensures
            r == spec_pipelines(),
            r.render_triangles.front_face == FrontFace::Cw,
            r.render_beziers.front_face == FrontFace::Ccw,
    {
        Pipelines {
            render_triangles: first_pass_pipeline(FrontFace::Cw),
            render_beziers: first_pass_pipeline(FrontFace::Ccw),
            render_output: output_pass_pipeline(),
        }
    }
}

} // verus!
