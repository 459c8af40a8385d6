//! Verified core of a swapchain-based presentation loop.
//!
//! The library models the decisions of the rendering loop — surface-format
//! negotiation, swapchain image-count clamping, command recording, the
//! frame-in-flight synchronization protocol, and dependency-ordered teardown —
//! as verified functions over plain values. The unverified front end performs
//! the actual GPU and window calls and consults this library for every
//! decision.

pub mod commands;
pub mod device;
pub mod diagnostics;
pub mod events;
pub mod format;
pub mod frame;
pub mod pipeline;
pub mod recovery;
pub mod resources;
pub mod swapchain;
pub mod teardown;
