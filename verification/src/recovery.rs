//! Steady-state failure handling.
//!
//! A surface-changed condition from acquisition or presentation — out of
//! date, or suboptimal — is the only recoverable condition: it triggers a
//! rebuild of the swapchain-dependent set, without touching the device. Any
//! other acquire, submit or present failure is fatal for this design; the
//! loop terminates after an idle-drain teardown. No per-frame retries.

use vstd::prelude::*;

verus! {

/// What acquisition reported, reduced to plain values.
#[derive(Clone, Copy, PartialEq, Eq, Structural, Debug)]
pub enum AcquireReport {
    /// An image was handed out; `suboptimal` flags a surface that no longer
    /// matches the swapchain exactly.
    Acquired { image: usize, suboptimal: bool },
    /// The surface is out of date: no image was handed out.
    OutOfDate,
    /// Any other failure.
    OtherError,
}

/// What the loop does with an acquisition report.
#[derive(Clone, Copy, PartialEq, Eq, Structural, Debug)]
pub enum AcquireDecision {
    /// Render into the acquired image.
    Render { image: usize },
    /// Drain, rebuild the swapchain-dependent set, retry the frame.
    RebuildSwapchain,
    /// Unrecoverable: drain and tear down.
    Fatal,
}

/// The decision an acquisition report demands: render on a clean acquisition
/// of an in-range image, rebuild on any surface-changed condition, fail on
/// everything else (an out-of-range index means the platform broke its own
/// contract).
pub open spec fn spec_acquire_decision(report: AcquireReport, image_count: nat) -> AcquireDecision {
    match report {
        AcquireReport::Acquired { image, suboptimal } => {
            if suboptimal {
                AcquireDecision::RebuildSwapchain
            } else if image < image_count {
                AcquireDecision::Render { image }
            } else {
                AcquireDecision::Fatal
            }
        },
        AcquireReport::OutOfDate => AcquireDecision::RebuildSwapchain,
        AcquireReport::OtherError => AcquireDecision::Fatal,
    }
}

/// Decides what to do with an acquisition report.
pub fn acquire_decision(report: &AcquireReport, image_count: usize) -> (r: AcquireDecision)
    ensures
        r == spec_acquire_decision(*report, image_count as nat),
{
    match *report {
        AcquireReport::Acquired { image, suboptimal } => {
            if suboptimal {
                AcquireDecision::RebuildSwapchain
            } else if image < image_count {
                AcquireDecision::Render { image }
            } else {
                AcquireDecision::Fatal
            }
        },
        AcquireReport::OutOfDate => AcquireDecision::RebuildSwapchain,
        AcquireReport::OtherError => AcquireDecision::Fatal,
    }
}

/// What presentation reported, reduced to plain values.
#[derive(Clone, Copy, PartialEq, Eq, Structural, Debug)]
pub enum PresentReport {
    /// The image was queued for presentation; `suboptimal` flags a surface
    /// that no longer matches the swapchain exactly.
    Presented { suboptimal: bool },
    /// The surface is out of date.
    OutOfDate,
    /// Any other failure.
    OtherError,
}

/// What the loop does with a presentation report.
#[derive(Clone, Copy, PartialEq, Eq, Structural, Debug)]
pub enum PresentDecision {
    /// Go on to the next frame.
    Continue,
    /// Drain and rebuild the swapchain-dependent set before the next frame.
    RebuildSwapchain,
    /// Unrecoverable: drain and tear down.
    Fatal,
}

/// The decision a presentation report demands: continue on success, rebuild
/// on any surface-changed condition, fail on everything else.
pub open spec fn spec_present_decision(report: PresentReport) -> PresentDecision {
    match report {
        PresentReport::Presented { suboptimal } => {
            if suboptimal {
                PresentDecision::RebuildSwapchain
            } else {
                PresentDecision::Continue
            }
        },
        PresentReport::OutOfDate => PresentDecision::RebuildSwapchain,
        PresentReport::OtherError => PresentDecision::Fatal,
    }
}

/// Decides what to do with a presentation report.
pub fn present_decision(report: &PresentReport) -> (r: PresentDecision)
    ensures
        r == spec_present_decision(*report),
{
    match *report {
        PresentReport::Presented { suboptimal } => {
            if suboptimal {
                PresentDecision::RebuildSwapchain
            } else {
                PresentDecision::Continue
            }
        },
        PresentReport::OutOfDate => PresentDecision::RebuildSwapchain,
        PresentReport::OtherError => PresentDecision::Fatal,
    }
}

} // verus!
