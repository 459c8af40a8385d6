use swapsync::commands::{
    buffer_plan, record_plan, RenderCommand, TRIANGLE_INSTANCE_COUNT, TRIANGLE_VERTEX_COUNT,
};
use swapsync::teardown::{teardown_order, ResourceKind};

#[test]
fn one_buffer_records_the_static_draw_sequence() {
    let cmds = buffer_plan(1);
    assert_eq!(
        cmds,
        vec![
            RenderCommand::BeginRenderPass { image: 1 },
            RenderCommand::BindPipeline,
            RenderCommand::Draw { vertex_count: 3, instance_count: 1 },
            RenderCommand::EndRenderPass,
            RenderCommand::FinishBuffer,
        ]
    );
}

#[test]
fn one_plan_per_swapchain_image() {
    let plans = record_plan(3);
    assert_eq!(plans.len(), 3);
    for (i, plan) in plans.iter().enumerate() {
        assert_eq!(plan.len(), 5);
        assert_eq!(plan[0], RenderCommand::BeginRenderPass { image: i });
        assert_eq!(
            plan[2],
            RenderCommand::Draw {
                vertex_count: TRIANGLE_VERTEX_COUNT,
                instance_count: TRIANGLE_INSTANCE_COUNT,
            }
        );
    }
}

#[test]
fn triangle_is_three_vertices_one_instance() {
    assert_eq!(TRIANGLE_VERTEX_COUNT, 3);
    assert_eq!(TRIANGLE_INSTANCE_COUNT, 1);
}

#[test]
fn teardown_reverses_creation() {
    assert_eq!(
        teardown_order(),
        vec![
            ResourceKind::CommandPool,
            ResourceKind::Framebuffers,
            ResourceKind::Pipeline,
            ResourceKind::PipelineLayout,
            ResourceKind::RenderPass,
            ResourceKind::ImageViews,
            ResourceKind::Swapchain,
            ResourceKind::Device,
            ResourceKind::Surface,
            ResourceKind::DebugSink,
            ResourceKind::Instance,
        ]
    );
}
