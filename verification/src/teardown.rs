//! Dependency-ordered teardown.
//!
//! Every created object is destroyed in strict reverse order of creation, so
//! no dependency is destroyed before its dependents. The front end must first
//! drain the device (a full idle wait) — destroying in-use resources is
//! undefined behavior — then walk [`teardown_order`] and issue the matching
//! destroy call for each step.

use vstd::prelude::*;

verus! {

/// One class of created objects, in the granularity the destroy calls take
/// (the per-image objects are destroyed as a group; the command pool frees
/// its buffers with it).
#[derive(Clone, Copy, PartialEq, Eq, Structural, Debug)]
pub enum ResourceKind {
    Instance,
    DebugSink,
    Surface,
    Device,
    Swapchain,
    ImageViews,
    RenderPass,
    PipelineLayout,
    Pipeline,
    Framebuffers,
    CommandPool,
}

/// The order in which setup creates the objects, earliest first. Each entry
/// depends only on entries before it.
pub open spec fn creation_order() -> Seq<ResourceKind> {
    seq![
        ResourceKind::Instance,
        ResourceKind::DebugSink,
        ResourceKind::Surface,
        ResourceKind::Device,
        ResourceKind::Swapchain,
        ResourceKind::ImageViews,
        ResourceKind::RenderPass,
        ResourceKind::PipelineLayout,
        ResourceKind::Pipeline,
        ResourceKind::Framebuffers,
        ResourceKind::CommandPool,
    ]
}

/// The teardown sequence: exactly the creation order reversed, so every
/// object goes away before anything it depends on.
pub fn teardown_order() -> (r: Vec<ResourceKind>)
    ensures
        r@ =~= creation_order().reverse(),
{
    let mut order: Vec<ResourceKind> = Vec::new();
    order.push(ResourceKind::CommandPool);
    order.push(ResourceKind::Framebuffers);
    order.push(ResourceKind::Pipeline);
    order.push(ResourceKind::PipelineLayout);
    order.push(ResourceKind::RenderPass);
    order.push(ResourceKind::ImageViews);
    order.push(ResourceKind::Swapchain);
    order.push(ResourceKind::Device);
    order.push(ResourceKind::Surface);
    order.push(ResourceKind::DebugSink);
    order.push(ResourceKind::Instance);
    order
}

} // verus!
