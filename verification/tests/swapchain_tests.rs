use swapsync::format::{SurfaceFormat, COLOR_SPACE_SRGB_NONLINEAR, FORMAT_B8G8R8A8_SRGB};
use swapsync::swapchain::{
    image_count, negotiate_swapchain, DeviceError, Extent, SurfaceCapabilities, PRESENT_MODE_FIFO,
};

#[test]
fn image_count_exact_when_bounds_meet() {
    // minImageCount == maxImageCount == 2: the request must be exactly 2,
    // never 3.
    assert_eq!(image_count(2, 2), 2);
}

#[test]
fn image_count_one_over_minimum_when_unbounded() {
    // maxImageCount == 0 means unbounded.
    assert_eq!(image_count(2, 0), 3);
    assert_eq!(image_count(1, 0), 2);
}

#[test]
fn image_count_clamped_to_maximum() {
    assert_eq!(image_count(2, 5), 3);
    assert_eq!(image_count(4, 4), 4);
}

#[test]
fn negotiation_carries_all_decisions() {
    let caps = SurfaceCapabilities {
        min_image_count: 2,
        max_image_count: 3,
        current_width: 820,
        current_height: 640,
    };
    let formats = vec![
        SurfaceFormat { format: 43, color_space: 7 },
        SurfaceFormat { format: FORMAT_B8G8R8A8_SRGB, color_space: COLOR_SPACE_SRGB_NONLINEAR },
    ];
    let config = negotiate_swapchain(&caps, &formats).unwrap();
    assert_eq!(config.format.format, FORMAT_B8G8R8A8_SRGB);
    assert_eq!(config.format.color_space, COLOR_SPACE_SRGB_NONLINEAR);
    assert_eq!(config.extent, Extent { width: 820, height: 640 });
    assert_eq!(config.image_count, 3);
    assert_eq!(config.present_mode, PRESENT_MODE_FIFO);
}

#[test]
fn negotiation_fails_without_formats() {
    let caps = SurfaceCapabilities {
        min_image_count: 2,
        max_image_count: 0,
        current_width: 820,
        current_height: 640,
    };
    let formats: Vec<SurfaceFormat> = Vec::new();
    assert_eq!(negotiate_swapchain(&caps, &formats), Err(DeviceError::NoSurfaceFormat));
}
