//! Swapchain negotiation: image count, extent, format and present mode.

use crate::format::{spec_choose_format, choose_surface_format, SurfaceFormat};
use vstd::prelude::*;

verus! {

/// Present-mode code for the vertical-sync-locked mode (first-in first-out):
/// no tearing, at most one extra frame of latency over a mailbox mode.
pub const PRESENT_MODE_FIFO: u32 = 2;

/// A surface extent in pixels.
#[derive(Clone, Copy, PartialEq, Eq, Structural, Debug)]
pub struct Extent {
    pub width: u32,
    pub height: u32,
}

/// Failure of device-level negotiation or creation. Creation itself is the
/// platform's to refuse; negotiation fails only when the surface reports no
/// formats to choose from.
#[derive(Clone, Copy, PartialEq, Eq, Structural, Debug)]
pub enum DeviceError {
    /// The surface reported an empty format list.
    NoSurfaceFormat,
    /// The platform rejected the requested swapchain configuration.
    RejectedConfiguration,
}

/// Surface capability report, as the platform hands it out: image-count
/// bounds (a `max_image_count` of zero means unbounded) and the current
/// surface extent in pixels.
pub struct SurfaceCapabilities {
    pub min_image_count: u32,
    pub max_image_count: u32,
    pub current_width: u32,
    pub current_height: u32,
}

/// A capability report is well formed when the platform's bounds are
/// consistent: either unbounded, or the minimum does not exceed the maximum.
/// The presentation API guarantees this of every report it returns.
pub open spec fn caps_wf(caps: SurfaceCapabilities) -> bool {
    &&& caps.max_image_count == 0 || caps.min_image_count <= caps.max_image_count
    &&& caps.min_image_count < u32::MAX
}

/// The number of images to request for the swapchain: one more than the
/// minimum the platform demands (so acquisition never has to wait for the
/// presentation engine), clamped to the maximum where one is set.
pub open spec fn spec_image_count(min_count: u32, max_count: u32) -> u32 {
    if max_count > 0 && min_count + 1 > max_count {
        max_count
    } else {
        (min_count + 1) as u32
    }
}

/// Picks the swapchain image count from the platform's bounds.
pub fn image_count(min_count: u32, max_count: u32) -> (r: u32)
    requires
        max_count == 0 || min_count <= max_count,
        min_count < u32::MAX,
    ensures
        r == spec_image_count(min_count, max_count),
        r >= min_count,
        max_count > 0 ==> r <= max_count,
        max_count == 0 ==> r == min_count + 1,
{
    if max_count > 0 && min_count + 1 > max_count {
        max_count
    } else {
        min_count + 1
    }
}

/// Everything the platform needs to create the swapchain: the negotiated
/// format, the surface's current extent, the requested image count, and the
/// fixed vertical-sync-locked present mode.
#[derive(Clone, Copy, PartialEq, Eq, Structural, Debug)]
pub struct SwapchainConfig {
    pub format: SurfaceFormat,
    pub extent: Extent,
    pub image_count: u32,
    pub present_mode: u32,
}

/// Negotiates the swapchain configuration from the surface's capability
/// report and format list. Fails exactly when the surface reports no formats;
/// otherwise the result carries the preferred (or first reported) format, the
/// current extent, the clamped image count, and the vertical-sync present
/// mode.
pub fn negotiate_swapchain(caps: &SurfaceCapabilities, formats: &Vec<SurfaceFormat>) -> (r: Result<
    SwapchainConfig,
    DeviceError,
>)
    requires
        caps_wf(*caps),
    ensures
        r is Ok <==> formats@.len() > 0,
        formats@.len() == 0 ==> r == Err::<SwapchainConfig, DeviceError>(
            DeviceError::NoSurfaceFormat,
        ),
        r matches Ok(c) ==> {
            &&& c.format == spec_choose_format(formats@)
            &&& c.extent == (Extent { width: caps.current_width, height: caps.current_height })
            &&& c.image_count == spec_image_count(caps.min_image_count, caps.max_image_count)
            &&& c.present_mode == PRESENT_MODE_FIFO
        },
{
    let format = match choose_surface_format(formats) {
        Some(f) => f,
        None => {
            return Err(DeviceError::NoSurfaceFormat);
        },
    };
    let count: u32 = image_count(caps.min_image_count, caps.max_image_count);
    Ok(
        SwapchainConfig {
            format,
            extent: Extent { width: caps.current_width, height: caps.current_height },
            image_count: count,
            present_mode: PRESENT_MODE_FIFO,
        },
    )
}

} // verus!
