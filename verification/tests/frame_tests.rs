use swapsync::frame::{FramePhase, FrameSynchronizer, MAX_FRAMES_IN_FLIGHT};
use swapsync::resources::SwapchainResources;

fn in_flight_total(fs: &FrameSynchronizer) -> usize {
    fs.in_flight.iter().filter(|&&b| b).count()
}

#[test]
fn slot_sequence_is_periodic_with_period_two() {
    // With F = 2 the slot sequence over time is 0, 1, 0, 1, 0, 1, ...
    let mut fs = FrameSynchronizer::new(2, 3);
    let mut slots = Vec::new();
    let images = [0usize, 1, 2, 0, 1, 2];
    for &img in images.iter() {
        let s = fs.wait_current();
        fs.note_acquired(img);
        let (slot, _) = fs.submit_and_present();
        assert_eq!(slot, s);
        slots.push(slot);
    }
    assert_eq!(slots, vec![0, 1, 0, 1, 0, 1]);
}

#[test]
fn six_cycles_cover_every_image_and_reuse_waited_slots() {
    // F = 2, 3 swapchain images, 6 submit/present cycles: every image index
    // serves as a command-buffer target at least once, and a slot's fence is
    // observed signaled (waited) before the slot is reused two cycles later.
    assert_eq!(MAX_FRAMES_IN_FLIGHT, 2);
    let resources = SwapchainResources::assemble(
        vec![10, 11, 12],
        vec![20, 21, 22],
        vec![30, 31, 32],
        vec![40, 41, 42],
    )
    .unwrap();
    let mut fs = FrameSynchronizer::new(MAX_FRAMES_IN_FLIGHT, resources.count());
    let mut used = [0usize; 3];
    let images = [0usize, 1, 2, 0, 1, 2];
    for (cycle, &img) in images.iter().enumerate() {
        let s = fs.wait_current();
        // After the wait the slot has no outstanding submission: its objects
        // are safe to reuse.
        assert!(!fs.in_flight[s]);
        fs.note_acquired(img);
        let (slot, image) = fs.submit_and_present();
        assert_eq!(slot, s);
        assert_eq!(image, img);
        // The command buffer is indexed by the acquired image, not the slot.
        let cb = resources.command_buffer_for(image);
        assert_eq!(cb, 40 + image as u64);
        assert_eq!(resources.framebuffer_for(image), 30 + image as u64);
        used[image] += 1;
        // The slot just used is in flight again.
        assert!(fs.in_flight[slot]);
        // Two cycles later the same slot comes up: the fence submitted in
        // this cycle is still marked outstanding until that wait.
        if cycle >= 2 {
            assert_eq!(slot, cycle % 2);
        }
    }
    assert!(used.iter().all(|&u| u >= 1));
    assert_eq!(fs.frame_counter, 6);
}

#[test]
fn outstanding_submissions_never_exceed_the_bound() {
    let mut fs = FrameSynchronizer::new(2, 3);
    assert_eq!(in_flight_total(&fs), 0);
    for frame in 0..8usize {
        fs.wait_current();
        assert!(in_flight_total(&fs) <= 2);
        fs.note_acquired(frame % 3);
        fs.submit_and_present();
        assert!(in_flight_total(&fs) <= 2);
    }
    // In steady state both slots are in flight, never more.
    assert_eq!(in_flight_total(&fs), 2);
}

#[test]
fn drain_settles_every_fence() {
    let mut fs = FrameSynchronizer::new(2, 3);
    for frame in 0..3usize {
        fs.wait_current();
        fs.note_acquired(frame % 3);
        fs.submit_and_present();
    }
    assert!(in_flight_total(&fs) > 0);
    fs.drain();
    assert_eq!(in_flight_total(&fs), 0);
    assert_eq!(fs.phase, FramePhase::Ready);
}

#[test]
fn new_synchronizer_starts_at_slot_zero() {
    let fs = FrameSynchronizer::new(2, 3);
    assert_eq!(fs.current_slot, 0);
    assert_eq!(fs.frame_counter, 0);
    assert_eq!(fs.frames_in_flight, 2);
    assert_eq!(fs.image_count, 3);
    assert_eq!(fs.in_flight, vec![false, false]);
    assert_eq!(fs.phase, FramePhase::Ready);
}
