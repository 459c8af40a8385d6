//! The fixed rendering configuration: one render pass with a single color
//! attachment, and one graphics pipeline with no vertex input and an empty
//! layout.
//!
//! The library fixes every configuration decision as plain data; the front
//! end translates the fields into the platform's creation structures. Shader
//! stages come from two precompiled binary blobs supplied from outside, both
//! entered at a fixed entry-point name; the shader modules built from them
//! are transient and must be released as soon as pipeline creation returns,
//! whether it succeeded or failed.

use crate::swapchain::Extent;
use vstd::prelude::*;

verus! {

/// Failure to build the render pass or the graphics pipeline.
#[derive(Clone, Copy, PartialEq, Eq, Structural, Debug)]
pub enum PipelineCreationError {
    /// The device rejected the render-pass or pipeline configuration.
    RejectedByDevice,
}

/// The one color attachment of the render pass: cleared on load, kept on
/// store, entered in an undefined layout and left in a presentable one.
#[derive(Clone, Copy, PartialEq, Eq, Structural, Debug)]
pub struct ColorAttachment {
    /// Pixel format; must match the negotiated swapchain format.
    pub format: u32,
    /// Samples per pixel (no multisampling).
    pub sample_count: u32,
    /// Clear the attachment at the start of the pass.
    pub clear_on_load: bool,
    /// Keep the rendered contents for presentation.
    pub store_results: bool,
    /// The previous contents are irrelevant: entered in an undefined layout.
    pub initial_layout_undefined: bool,
    /// Left in the presentation engine's source layout.
    pub final_layout_presentable: bool,
}

/// The render pass: one color attachment and one subpass referencing it.
#[derive(Clone, Copy, PartialEq, Eq, Structural, Debug)]
pub struct RenderPassConfig {
    pub color_attachment: ColorAttachment,
    pub subpass_count: usize,
}

/// Builds the render-pass configuration for the negotiated color format.
pub fn render_pass_config(format: u32) -> (r: RenderPassConfig)
    ensures
        r.color_attachment.format == format,
        r.color_attachment.sample_count == 1,
        r.color_attachment.clear_on_load,
        r.color_attachment.store_results,
        r.color_attachment.initial_layout_undefined,
        r.color_attachment.final_layout_presentable,
        r.subpass_count == 1,
{
    RenderPassConfig {
        color_attachment: ColorAttachment {
            format,
            sample_count: 1,
            clear_on_load: true,
            store_results: true,
            initial_layout_undefined: true,
            final_layout_presentable: true,
        },
        subpass_count: 1,
    }
}

/// The fixed-function state of the graphics pipeline. Geometry is a
/// hardcoded triangle generated inside the vertex stage, so there are no
/// vertex input bindings; the layout is empty (no resource bindings).
#[derive(Clone, Copy, PartialEq, Eq, Structural, Debug)]
pub struct PipelineConfig {
    /// Viewport and scissor match the negotiated resolution exactly.
    pub viewport_width: u32,
    pub viewport_height: u32,
    /// Triangle-list topology.
    pub triangle_list_topology: bool,
    /// Back faces are culled.
    pub cull_back_faces: bool,
    /// Front faces wind clockwise.
    pub clockwise_front_face: bool,
    /// Alpha blending with standard over-compositing factors.
    pub alpha_blending: bool,
    /// No vertex input bindings.
    pub vertex_binding_count: usize,
    /// Empty pipeline layout: no descriptor sets.
    pub descriptor_set_count: usize,
    /// Two stages: vertex and fragment.
    pub shader_stage_count: usize,
}

/// Builds the pipeline configuration for the negotiated resolution.
pub fn pipeline_config(extent: Extent) -> (r: PipelineConfig)
    ensures
        r.viewport_width == extent.width,
        r.viewport_height == extent.height,
        r.triangle_list_topology,
        r.cull_back_faces,
        r.clockwise_front_face,
        r.alpha_blending,
        r.vertex_binding_count == 0,
        r.descriptor_set_count == 0,
        r.shader_stage_count == 2,
{
    PipelineConfig {
        viewport_width: extent.width,
        viewport_height: extent.height,
        triangle_list_topology: true,
        cull_back_faces: true,
        clockwise_front_face: true,
        alpha_blending: true,
        vertex_binding_count: 0,
        descriptor_set_count: 0,
        shader_stage_count: 2,
    }
}

/// The entry point both shader blobs are entered at.
pub fn shader_entry_point() -> (r: &'static str)
    ensures
        r@ == "main"@,
{
    "main"
}

} // verus!
