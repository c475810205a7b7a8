//! Drawable shapes and the pipelines that render them.

use crate::surface::SurfaceConfiguration;
use vstd::prelude::*;

verus! {

/// A shape drawn without vertex buffers: the vertex stage named by
/// `vertex_fn` produces `vertex_count` vertices procedurally, and the
/// fragment stage named by `fragment_fn` shades them.
#[derive(Debug, Clone, Copy)]
pub struct DrawShape {
    pub vertex_fn: &'static str,
    pub fragment_fn: &'static str,
    pub vertex_count: u32,
}

/// How vertices are assembled into primitives.
#[derive(Debug, Clone, Copy, PartialEq, Eq, Structural)]
pub enum PrimitiveTopology {
    PointList,
    LineList,
    LineStrip,
    TriangleList,
    TriangleStrip,
}

/// The winding order of a front-facing triangle.
#[derive(Debug, Clone, Copy, PartialEq, Eq, Structural)]
pub enum FrontFace {
    Ccw,
    Cw,
}

/// A side of a triangle.
#[derive(Debug, Clone, Copy, PartialEq, Eq, Structural)]
pub enum Face {
    Front,
    Back,
}

/// How a fragment is combined with what the target holds.
#[derive(Debug, Clone, Copy, PartialEq, Eq, Structural)]
pub enum BlendMode {
    /// The fragment replaces the target's value.
    Replace,
    /// The fragment is laid over the target's value by its alpha.
    AlphaBlending,
}

/// The fixed state of a render pipeline. Every pipeline uses the shared
/// shader module and the shared pipeline layout, reads no vertex buffer and
/// tests no depth: what is drawn later covers what was drawn earlier.
#[derive(Debug, Clone, Copy)]
pub struct PipelineDescriptor {
    pub label: Option<&'static str>,
    pub vertex_entry: &'static str,
    pub fragment_entry: &'static str,
    /// The target's texture format, as an index into the adapter's list.
    pub target_format: usize,
    pub topology: PrimitiveTopology,
    pub front_face: FrontFace,
    pub cull_mode: Option<Face>,
    pub blend: BlendMode,
    pub sample_count: u32,
}

impl PipelineDescriptor {
    /// The state of the pipeline that draws `shape` onto a surface
    /// configured as `config`.
    pub open spec fn is_for_shape(self, config: SurfaceConfiguration, shape: DrawShape) -> bool {
        &&& self.label.is_none()
        &&& self.vertex_entry@ == shape.vertex_fn@
        &&& self.fragment_entry@ == shape.fragment_fn@
        &&& self.target_format == config.format
        &&& self.topology == PrimitiveTopology::TriangleList
        &&& self.front_face == FrontFace::Ccw
        &&& self.cull_mode == Some(Face::Back)
        &&& self.blend == BlendMode::AlphaBlending
        &&& self.sample_count == 1
    }

    /// The state of the pipeline that draws the sky onto a surface
    /// configured as `config`.
    pub open spec fn is_for_sky(self, config: SurfaceConfiguration) -> bool {
        &&& self.label matches Some(label) && label@ == "Sky"@
        &&& self.vertex_entry@ == "vs_sky"@
        &&& self.fragment_entry@ == "fs_sky"@
        &&& self.target_format == config.format
        &&& self.topology == PrimitiveTopology::TriangleList
        &&& self.front_face == FrontFace::Cw
        &&& self.cull_mode.is_none()
        &&& self.blend == BlendMode::Replace
        &&& self.sample_count == 1
    }

    /// The pipeline of the sky: a full-screen triangle wound clockwise,
    /// neither culled nor blended.
    pub fn sky(config: &SurfaceConfiguration) -> (descriptor: PipelineDescriptor)
        ensures
            descriptor.is_for_sky(*config),
    {
        PipelineDescriptor {
            label: Some("Sky"),
            vertex_entry: "vs_sky",
            fragment_entry: "fs_sky",
            target_format: config.format,
            topology: PrimitiveTopology::TriangleList,
            front_face: FrontFace::Cw,
            cull_mode: None,
            blend: BlendMode::Replace,
            sample_count: 1,
        }
    }
}

/// A shape together with the pipeline that draws it.
#[derive(Debug, Clone, Copy)]
pub struct DrawShapePipeline {
    pub pipeline: PipelineDescriptor,
    pub shape: DrawShape,
}

impl DrawShapePipeline {
    /// Describes the pipeline of a shape: a list of counter-clockwise
    /// triangles whose back faces are culled, blended over the target by
    /// alpha, with the shape's own entry points.
    pub fn new(config: &SurfaceConfiguration, shape: DrawShape) -> (built: DrawShapePipeline)
        ensures
            built.shape == shape,
            built.pipeline.is_for_shape(*config, shape),
    {
        let pipeline = PipelineDescriptor {
            label: None,
            vertex_entry: shape.vertex_fn,
            fragment_entry: shape.fragment_fn,
            target_format: config.format,
            topology: PrimitiveTopology::TriangleList,
            front_face: FrontFace::Ccw,
            cull_mode: Some(Face::Back),
            blend: BlendMode::AlphaBlending,
            sample_count: 1,
        };
        DrawShapePipeline { pipeline, shape }
    }
}

} // verus!
