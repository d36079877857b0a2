use vstd::prelude::*;

verus! {

/// The kinds of failure of the GPU core.
#[derive(Clone, Copy, Debug, PartialEq, Eq, Structural)]
pub enum GpuError {
    /// No adapter has a queue family that supports graphics and presentation.
    AdapterSelectionFailed,
    /// The device could not be opened, or its queue group holds no queue.
    DeviceOpenFailed,
    /// No memory type satisfies both the type mask and the desired properties.
    NoCompatibleMemoryType,
    /// A buffer, image, view, render pass, framebuffer or pool could not be made.
    ResourceCreationFailed,
    /// The mapping of a buffer's memory could not be acquired.
    MappingAcquireFailed,
    /// The mapping of a buffer's memory could not be released.
    MappingReleaseFailed,
    /// A fence or a semaphore could not be made.
    FenceOrSemaphoreCreationFailed,
    /// No presentable image could be acquired from the swapchain.
    SwapchainAcquireFailed,
    /// The image could not be handed to the presentation engine.
    SwapchainPresentFailed,
    /// The surface offers no usable present mode, composite alpha or color usage.
    SurfaceCapabilityUnsupported,
}

/// The message of each kind of failure, naming the stage that failed.
pub open spec fn message_text(e: GpuError) -> &'static str {
    match e {
        GpuError::AdapterSelectionFailed => "Couldn't find a graphical adapter!",
        GpuError::DeviceOpenFailed => "Couldn't open the physical device!",
        GpuError::NoCompatibleMemoryType => "Couldn't find a compatible memory type!",
        GpuError::ResourceCreationFailed => "Couldn't create a GPU resource!",
        GpuError::MappingAcquireFailed => "Couldn't acquire a mapping of the buffer memory!",
        GpuError::MappingReleaseFailed => "Couldn't release the mapping of the buffer memory!",
        GpuError::FenceOrSemaphoreCreationFailed => "Couldn't create a fence or a semaphore!",
        GpuError::SwapchainAcquireFailed => "Couldn't acquire an image from the swapchain!",
        GpuError::SwapchainPresentFailed => "Failed to present into the swapchain!",
        GpuError::SurfaceCapabilityUnsupported => "The surface lacks a required capability!",
    }
}

/// Different kinds of failure have different messages.
pub proof fn lemma_messages_distinct(a: GpuError, b: GpuError)
    requires
        a != b,
    ensures
        message_text(a)@ != message_text(b)@,
{
    reveal_strlit("Couldn't find a graphical adapter!");
    reveal_strlit("Couldn't open the physical device!");
    reveal_strlit("Couldn't find a compatible memory type!");
    reveal_strlit("Couldn't create a GPU resource!");
    reveal_strlit("Couldn't acquire a mapping of the buffer memory!");
    reveal_strlit("Couldn't release the mapping of the buffer memory!");
    reveal_strlit("Couldn't create a fence or a semaphore!");
    reveal_strlit("Couldn't acquire an image from the swapchain!");
    reveal_strlit("Failed to present into the swapchain!");
    reveal_strlit("The surface lacks a required capability!");
    let (ma, mb) = (message_text(a)@, message_text(b)@);
    if ma.len() == mb.len() {
        assert(ma[0] != mb[0] || ma[6] != mb[6] || ma[17] != mb[17] || ma[ma.len() - 3] != mb[mb.len() - 3]);
    }
}

impl GpuError {
    /// A message naming the stage that failed; each kind has its own.
    pub fn message(&self) -> (r: &'static str)
        ensures
            r == message_text(*self),
    {
        match self {
            GpuError::AdapterSelectionFailed => "Couldn't find a graphical adapter!",
            GpuError::DeviceOpenFailed => "Couldn't open the physical device!",
            GpuError::NoCompatibleMemoryType => "Couldn't find a compatible memory type!",
            GpuError::ResourceCreationFailed => "Couldn't create a GPU resource!",
            GpuError::MappingAcquireFailed => "Couldn't acquire a mapping of the buffer memory!",
            GpuError::MappingReleaseFailed => "Couldn't release the mapping of the buffer memory!",
            GpuError::FenceOrSemaphoreCreationFailed => "Couldn't create a fence or a semaphore!",
            GpuError::SwapchainAcquireFailed => "Couldn't acquire an image from the swapchain!",
            GpuError::SwapchainPresentFailed => "Failed to present into the swapchain!",
            GpuError::SurfaceCapabilityUnsupported => "The surface lacks a required capability!",
        }
    }
}

} // verus!
