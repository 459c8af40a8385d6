use swapsync::frame::{FramePhase, FrameSynchronizer};
use swapsync::resources::SwapchainResources;
use swapsync::swapchain::DeviceError;

#[test]
fn out_of_date_surface_triggers_full_rebuild() {
    // Acquisition reports "surface out of date" on frame 10: the swapchain,
    // framebuffers and command buffers are rebuilt before frame 11 proceeds,
    // and the rebuilt counts satisfy the one-per-image invariant.
    let mut resources = SwapchainResources::assemble(
        vec![10, 11, 12],
        vec![20, 21, 22],
        vec![30, 31, 32],
        vec![40, 41, 42],
    )
    .unwrap();
    let mut fs = FrameSynchronizer::new(2, resources.count());

    // Frames 1 through 9 run normally.
    for frame in 0..9usize {
        fs.wait_current();
        fs.note_acquired(frame % 3);
        fs.submit_and_present();
    }
    assert_eq!(fs.frame_counter, 9);

    // Frame 10: the wait succeeds, then acquisition reports out-of-date.
    fs.wait_current();
    // The loop drains the device and rebuilds everything that depends on the
    // swapchain, without touching the device. The new surface yields four
    // images.
    fs.drain();
    resources = SwapchainResources::assemble(
        vec![50, 51, 52, 53],
        vec![60, 61, 62, 63],
        vec![70, 71, 72, 73],
        vec![80, 81, 82, 83],
    )
    .unwrap();
    fs.rebuild(resources.count());
    assert_eq!(fs.image_count, 4);
    assert_eq!(fs.phase, FramePhase::Ready);
    // One framebuffer and one command buffer per swapchain image.
    assert_eq!(resources.framebuffers.len(), resources.images.len());
    assert_eq!(resources.command_buffers.len(), resources.images.len());
    assert_eq!(resources.image_views.len(), resources.images.len());

    // Frame 11 proceeds against the rebuilt chain.
    fs.wait_current();
    fs.note_acquired(3);
    let (_, image) = fs.submit_and_present();
    assert_eq!(image, 3);
    assert_eq!(resources.command_buffer_for(image), 83);
}

#[test]
fn assembly_rejects_mismatched_counts() {
    let r = SwapchainResources::assemble(
        vec![10, 11, 12],
        vec![20, 21, 22],
        vec![30, 31],
        vec![40, 41, 42],
    );
    match r {
        Err(DeviceError::RejectedConfiguration) => {}
        _ => panic!("a framebuffer count that differs from the image count must be rejected"),
    }
}
