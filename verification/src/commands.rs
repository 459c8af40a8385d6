//! The static draw sequence recorded once into every command buffer.
//!
//! Content never varies between frames, so each buffer is recorded exactly
//! once and marked reusable while pending. The library fixes the sequence;
//! the unverified front end replays it through the device, command for
//! command.

use vstd::prelude::*;

verus! {

/// Vertices of the hardcoded triangle (generated inside the vertex stage
/// from its invocation index; no vertex buffers are bound).
pub const TRIANGLE_VERTEX_COUNT: u32 = 3;

/// One instance: the scene is a single static triangle.
pub const TRIANGLE_INSTANCE_COUNT: u32 = 1;

/// One recorded command. The begin command carries the index of the
/// swapchain image whose framebuffer the pass renders into.
#[derive(Clone, Copy, PartialEq, Eq, Structural, Debug)]
pub enum RenderCommand {
    /// Begin the render pass on the framebuffer of image `image`, clearing
    /// the color attachment to the constant clear color.
    BeginRenderPass { image: usize },
    /// Bind the fixed graphics pipeline.
    BindPipeline,
    /// Draw `vertex_count` vertices in `instance_count` instances.
    Draw { vertex_count: u32, instance_count: u32 },
    /// End the render pass.
    EndRenderPass,
    /// Finish recording the buffer.
    FinishBuffer,
}

/// The sequence recorded into the command buffer of image `image`: begin the
/// pass with a clear, bind the pipeline, draw the triangle once, end the
/// pass, end recording.
pub open spec fn spec_buffer_plan(image: usize) -> Seq<RenderCommand> {
    seq![
        RenderCommand::BeginRenderPass { image },
        RenderCommand::BindPipeline,
        RenderCommand::Draw {
            vertex_count: TRIANGLE_VERTEX_COUNT,
            instance_count: TRIANGLE_INSTANCE_COUNT,
        },
        RenderCommand::EndRenderPass,
        RenderCommand::FinishBuffer,
    ]
}

/// Records the plan for one image's command buffer.
pub fn buffer_plan(image: usize) -> (r: Vec<RenderCommand>)
    ensures
        r@ =~= spec_buffer_plan(image),
{
    let mut cmds: Vec<RenderCommand> = Vec::new();
    cmds.push(RenderCommand::BeginRenderPass { image });
    cmds.push(RenderCommand::BindPipeline);
    cmds.push(
        RenderCommand::Draw {
            vertex_count: TRIANGLE_VERTEX_COUNT,
            instance_count: TRIANGLE_INSTANCE_COUNT,
        },
    );
    cmds.push(RenderCommand::EndRenderPass);
    cmds.push(RenderCommand::FinishBuffer);
    cmds
}

/// Records the plans for all command buffers: one buffer per swapchain
/// image, each holding exactly the static draw sequence for its own image.
pub fn record_plan(image_count: usize) -> (r: Vec<Vec<RenderCommand>>)
    ensures
        r@.len() == image_count,
        forall|i: int| 0 <= i < image_count ==> r@[i]@ =~= spec_buffer_plan(i as usize),
{
    let mut plans: Vec<Vec<RenderCommand>> = Vec::new();
    let mut i: usize = 0;
    while i < image_count
        invariant
            i <= image_count,
            plans@.len() == i,
            forall|j: int| 0 <= j < i ==> plans@[j]@ =~= spec_buffer_plan(j as usize),
        decreases image_count - i,
    {
        let cmds = buffer_plan(i);
        plans.push(cmds);
        i = i + 1;
    }
    plans
}

} // verus!
