//! Swapchain-dependent resources: images, image views, framebuffers and
//! command buffers, one of each per swapchain image.
//!
//! The handles are the platform's opaque 64-bit object ids; the library never
//! looks inside them, it only keeps the one-to-one correspondence that makes
//! indexing by an acquired image index safe.

use crate::swapchain::DeviceError;
use vstd::prelude::*;

verus! {

/// The resources whose lifetime is tied to one swapchain: for every swapchain
/// image, its view, the framebuffer binding that view to the render pass, and
/// the command buffer recorded against that framebuffer.
pub struct SwapchainResources {
    /// Swapchain image handles, as handed out by the presentation engine.
    pub images: Vec<u64>,
    /// One image view per image.
    pub image_views: Vec<u64>,
    /// One framebuffer per image view.
    pub framebuffers: Vec<u64>,
    /// One pre-recorded command buffer per framebuffer.
    pub command_buffers: Vec<u64>,
}

impl SwapchainResources {
    /// The counts agree: one view, one framebuffer and one command buffer per
    /// swapchain image.
    pub open spec fn wf(self) -> bool {
        &&& self.image_views@.len() == self.images@.len()
        &&& self.framebuffers@.len() == self.images@.len()
        &&& self.command_buffers@.len() == self.images@.len()
    }

    /// Number of swapchain images.
    pub open spec fn spec_count(self) -> nat {
        self.images@.len()
    }

    /// Assembles the resource set from the created handles. Succeeds exactly
    /// when there is one view, one framebuffer and one command buffer per
    /// image; a mismatch means creation went wrong and the set must not be
    /// used.
    pub fn assemble(
        images: Vec<u64>,
        image_views: Vec<u64>,
        framebuffers: Vec<u64>,
        command_buffers: Vec<u64>,
    ) -> (r: Result<Self, DeviceError>)
        ensures
            r is Ok <==> {
                &&& image_views@.len() == images@.len()
                &&& framebuffers@.len() == images@.len()
                &&& command_buffers@.len() == images@.len()
            },
            r matches Ok(set) ==> {
                &&& set.wf()
                &&& set.images@ == images@
                &&& set.image_views@ == image_views@
                &&& set.framebuffers@ == framebuffers@
                &&& set.command_buffers@ == command_buffers@
            },
            r is Err ==> r == Err::<Self, DeviceError>(DeviceError::RejectedConfiguration),
    {
        if image_views.len() != images.len() || framebuffers.len() != images.len()
            || command_buffers.len() != images.len() {
            return Err(DeviceError::RejectedConfiguration);
        }
        Ok(
            SwapchainResources { images, image_views, framebuffers, command_buffers },
        )
    }

    /// Number of swapchain images (and so of views, framebuffers and command
    /// buffers).
    pub fn count(&self) -> (r: usize)
        ensures
            r == self.spec_count(),
    {
        self.images.len()
    }

    /// The command buffer to submit for an acquired image index. Indexing by
    /// the image — never by the frame slot — is what the one-to-one invariant
    /// is for.
    pub fn command_buffer_for(&self, image: usize) -> (r: u64)
        requires
            self.wf(),
            image < self.spec_count(),
        ensures
            r == self.command_buffers@[image as int],
    {
        self.command_buffers[image]
    }

    /// The framebuffer bound to an image's view.
    pub fn framebuffer_for(&self, image: usize) -> (r: u64)
        requires
            self.wf(),
            image < self.spec_count(),
        ensures
            r == self.framebuffers@[image as int],
    {
        self.framebuffers[image]
    }
}

/// For every valid swapchain state the framebuffer count, the command-buffer
/// count and the swapchain image count are all equal.
pub proof fn lemma_counts_agree(set: SwapchainResources)
    requires
        set.wf(),
    ensures
        set.framebuffers@.len() == set.command_buffers@.len(),
        set.framebuffers@.len() == set.images@.len(),
        set.image_views@.len() == set.images@.len(),
{
}

} // verus!
