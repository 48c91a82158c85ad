//! The graphics pipeline description and the command-recording plan.
//!
//! The pipeline is immutable once built: two shader stages with a fixed
//! entry point, no vertex input (geometry is generated in-shader), point
//! list topology, one viewport and scissor matching the swapchain extent,
//! fill rasterization with no culling, one sample, and standard alpha
//! blending on all four channels. Each swapchain image gets one command
//! buffer, recorded once against the framebuffer of the same index. The
//! device calls that build and record live outside the library.

use vstd::prelude::*;

use crate::swapchain::Extent2d;

verus! {

/// The primitive topology the pipeline assembles.
#[derive(Clone, Copy, Debug, PartialEq, Eq, Structural)]
pub enum Topology {
    PointList,
    TriangleList,
}

/// Which faces rasterization culls.
#[derive(Clone, Copy, Debug, PartialEq, Eq, Structural)]
pub enum CullMode {
    NoCulling,
    Back,
}

/// How polygon interiors are rasterized.
#[derive(Clone, Copy, Debug, PartialEq, Eq, Structural)]
pub enum PolygonMode {
    Fill,
    Line,
}

/// Which winding counts as front-facing.
#[derive(Clone, Copy, Debug, PartialEq, Eq, Structural)]
pub enum FrontFace {
    CounterClockwise,
    Clockwise,
}

/// A blend factor of the color-blend attachment.
#[derive(Clone, Copy, Debug, PartialEq, Eq, Structural)]
pub enum BlendFactor {
    SrcAlpha,
    OneMinusSrcAlpha,
}

/// Every fixed-function and stage decision of the graphics pipeline.
#[derive(Clone, Copy, Debug, PartialEq, Eq, Structural)]
pub struct PipelineDescription {
    /// No vertex input bindings: the vertex stage generates its geometry.
    pub vertex_input_bindings: u32,
    pub topology: Topology,
    /// Viewport and scissor both cover exactly this extent.
    pub viewport_extent: Extent2d,
    pub polygon_mode: PolygonMode,
    pub cull_mode: CullMode,
    pub front_face: FrontFace,
    pub sample_count: u32,
    /// Standard alpha blending, enabled on all four channels.
    pub blend_enable: bool,
    pub src_blend_factor: BlendFactor,
    pub dst_blend_factor: BlendFactor,
    /// The layout is empty: no descriptor sets and no push constants.
    pub descriptor_set_count: u32,
    pub push_constant_count: u32,
    /// The pipeline binds to this subpass of the render-target pass.
    pub subpass: u32,
}

/// The entry point both shader stages expose.
pub fn shader_entry_point() -> (r: &'static str)
    ensures
        r@ == "main"@,
{
    "main"
}

/// Describes the pipeline for the negotiated extent.
pub fn describe_pipeline(extent: Extent2d) -> (d: PipelineDescription)
    ensures
        d.vertex_input_bindings == 0,
        d.topology == Topology::PointList,
        d.viewport_extent == extent,
        d.polygon_mode == PolygonMode::Fill,
        d.cull_mode == CullMode::NoCulling,
        d.front_face == FrontFace::CounterClockwise,
        d.sample_count == 1,
        d.blend_enable,
        d.src_blend_factor == BlendFactor::SrcAlpha,
        d.dst_blend_factor == BlendFactor::OneMinusSrcAlpha,
        d.descriptor_set_count == 0,
        d.push_constant_count == 0,
        d.subpass == 0,
{
    PipelineDescription {
        vertex_input_bindings: 0,
        topology: Topology::PointList,
        viewport_extent: extent,
        polygon_mode: PolygonMode::Fill,
        cull_mode: CullMode::NoCulling,
        front_face: FrontFace::CounterClockwise,
        sample_count: 1,
        blend_enable: true,
        src_blend_factor: BlendFactor::SrcAlpha,
        dst_blend_factor: BlendFactor::OneMinusSrcAlpha,
        descriptor_set_count: 0,
        push_constant_count: 0,
        subpass: 0,
    }
}

/// What one command buffer records, once, at setup.
#[derive(Clone, Copy, Debug, PartialEq, Eq, Structural)]
pub struct RecordingPlan {
    /// The framebuffer the render pass begins on: the one of the same index
    /// as the buffer itself.
    pub framebuffer_index: usize,
    /// The render area covers the full extent.
    pub render_area: Extent2d,
    pub vertex_count: u32,
    pub instance_count: u32,
    pub first_vertex: u32,
    pub first_instance: u32,
}

/// Plans the recording of one command buffer per swapchain image: buffer `i`
/// draws one point, one instance, into framebuffer `i`, over the full
/// extent.
pub fn command_recording_plan(image_count: usize, extent: Extent2d) -> (plans: Vec<RecordingPlan>)
    ensures
        plans@.len() == image_count,
        forall|i: int|
            0 <= i < image_count ==> {
                &&& (#[trigger] plans@[i]).framebuffer_index == i
                &&& plans@[i].render_area == extent
                &&& plans@[i].vertex_count == 1
                &&& plans@[i].instance_count == 1
                &&& plans@[i].first_vertex == 0
                &&& plans@[i].first_instance == 0
            },
{
    let mut plans: Vec<RecordingPlan> = Vec::new();
    let mut i: usize = 0;
    while i < image_count
        invariant
            i <= image_count,
            plans@.len() == i,
            forall|j: int|
                0 <= j < i ==> {
                    &&& (#[trigger] plans@[j]).framebuffer_index == j
                    &&& plans@[j].render_area == extent
                    &&& plans@[j].vertex_count == 1
                    &&& plans@[j].instance_count == 1
                    &&& plans@[j].first_vertex == 0
                    &&& plans@[j].first_instance == 0
                },
        decreases image_count - i,
    {
        plans.push(
            RecordingPlan {
                framebuffer_index: i,
                render_area: extent,
                vertex_count: 1,
                instance_count: 1,
                first_vertex: 0,
                first_instance: 0,
            },
        );
        i = i + 1;
    }
    plans
}

} // verus!
