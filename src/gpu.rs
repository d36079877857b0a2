use vstd::prelude::*;

use crate::context::Context;
use crate::error::GpuError;
use crate::swapchain::{surface_usable, FrameAction, SlotState, SurfaceSupport, Swapchain};

verus! {

/// What the caller does after presenting a frame through the façade.
#[derive(Clone, Copy, Debug, PartialEq, Eq, Structural)]
pub enum GpuAction {
    /// The frame was presented; carry on with the next slot as told.
    Frame(FrameAction),
    /// Presenting failed: wait for the device to go idle, destroy the
    /// swapchain, and call `rebuild` with the surface's current support.
    Rebuild,
}

/// What `Swapchain::present` returned, given what the façade returned.
pub open spec fn inner_present_result(acquired: bool, r: GpuAction) -> Result<FrameAction, GpuError> {
    match r {
        GpuAction::Frame(a) => Ok(a),
        GpuAction::Rebuild => Err(
            if !acquired {
                GpuError::SwapchainAcquireFailed
            } else {
                GpuError::SwapchainPresentFailed
            },
        ),
    }
}

/// The façade over the device context and the swapchain. A failure to
/// present is never passed on: the swapchain is rebuilt whole instead.
pub struct Gpu {
    context: Context,
    swapchain: Swapchain,
    needs_rebuild: bool,
}

impl Gpu {
    pub closed spec fn spec_context(&self) -> Context {
        self.context
    }

    pub closed spec fn spec_swapchain(&self) -> Swapchain {
        self.swapchain
    }

    pub closed spec fn spec_needs_rebuild(&self) -> bool {
        self.needs_rebuild
    }

    /// Builds the façade on an opened context, with a swapchain negotiated
    /// with the surface's support.
    pub fn new(context: Context, support: &SurfaceSupport) -> (r: Result<Gpu, GpuError>)
        ensures
            match r {
                Ok(g) => {
                    &&& g.spec_context() == context
                    &&& g.spec_swapchain().built_from(*support)
                    &&& !g.spec_needs_rebuild()
                },
                Err(e) => e == GpuError::SurfaceCapabilityUnsupported && !surface_usable(*support),
            },
    {
        let swapchain = Swapchain::new(support)?;
        Ok(Gpu { context, swapchain, needs_rebuild: false })
    }

    /// The slot a clear is recorded into.
    pub fn clear(&self) -> (r: usize)
        requires
            self.spec_swapchain().wf(),
            self.spec_swapchain().spec_slots()[self.spec_swapchain().spec_current_frame()] == SlotState::Recording,
        ensures
            r == self.spec_swapchain().spec_current_frame(),
    {
        self.swapchain.clear()
    }

    /// Presents the current frame, given whether the image was acquired and
    /// presented. Any failure asks for a rebuild and is not returned.
    pub fn present(&mut self, acquired: bool, presented: bool) -> (r: GpuAction)
        requires
            old(self).spec_swapchain().wf(),
            old(self).spec_swapchain().spec_slots()[old(self).spec_swapchain().spec_current_frame()] == SlotState::Recording,
            !old(self).spec_needs_rebuild(),
        ensures
            final(self).spec_swapchain().wf(),
            final(self).spec_context() == old(self).spec_context(),
            (r == GpuAction::Rebuild) == !(acquired && presented),
            final(self).spec_needs_rebuild() == !(acquired && presented),
            Swapchain::present_step(
                old(self).spec_swapchain(),
                final(self).spec_swapchain(),
                acquired,
                presented,
                inner_present_result(acquired, r),
            ),
    {
        match self.swapchain.present(acquired, presented) {
            Ok(action) => GpuAction::Frame(action),
            Err(_) => {
                self.needs_rebuild = true;
                GpuAction::Rebuild
            },
        }
    }

    /// Replaces the swapchain by one built anew against the surface's
    /// current support, after a failed present.
    pub fn rebuild(&mut self, support: &SurfaceSupport) -> (r: Result<(), GpuError>)
        requires
            old(self).spec_swapchain().wf(),
        ensures
            final(self).spec_swapchain().wf(),
            final(self).spec_context() == old(self).spec_context(),
            match r {
                Ok(()) => final(self).spec_swapchain().built_from(*support) && !final(self).spec_needs_rebuild(),
                Err(e) => {
                    &&& e == GpuError::SurfaceCapabilityUnsupported
                    &&& !surface_usable(*support)
                    &&& final(self).spec_swapchain() == old(self).spec_swapchain()
                    &&& final(self).spec_needs_rebuild() == old(self).spec_needs_rebuild()
                },
            },
    {
        let swapchain = Swapchain::new(support)?;
        self.swapchain = swapchain;
        self.needs_rebuild = false;
        Ok(())
    }

    /// Prepares the current slot for recording, as the swapchain does.
    pub fn prepare_current_frame(&mut self) -> (r: FrameAction)
        requires
            old(self).spec_swapchain().wf(),
            old(self).spec_swapchain().spec_slots()[old(self).spec_swapchain().spec_current_frame()] != SlotState::Recording,
            old(self).spec_swapchain().spec_slots()[old(self).spec_swapchain().spec_current_frame()] != SlotState::Abandoned,
        ensures
            final(self).spec_swapchain().wf(),
            final(self).spec_context() == old(self).spec_context(),
            final(self).spec_needs_rebuild() == old(self).spec_needs_rebuild(),
            Swapchain::prepare_step(old(self).spec_swapchain(), final(self).spec_swapchain(), r),
    {
        self.swapchain.prepare_current_frame()
    }

    /// Reports that the fence of `slot` has signaled.
    pub fn signal_fence(&mut self, slot: usize)
        requires
            old(self).spec_swapchain().wf(),
            slot < old(self).spec_swapchain().spec_frames_in_flight(),
            old(self).spec_swapchain().spec_slots()[slot as int] != SlotState::Recording,
            old(self).spec_swapchain().spec_slots()[slot as int] != SlotState::Abandoned,
        ensures
            final(self).spec_swapchain().wf(),
            final(self).spec_context() == old(self).spec_context(),
            final(self).spec_needs_rebuild() == old(self).spec_needs_rebuild(),
            Swapchain::signal_step(old(self).spec_swapchain(), final(self).spec_swapchain(), slot as int),
    {
        self.swapchain.signal_fence(slot)
    }

    /// Reports that waiting for a slot's fence failed: the swapchain can no
    /// longer be trusted, and is to be rebuilt like after a failed present.
    pub fn report_wait_failure(&mut self)
        ensures
            final(self).spec_needs_rebuild(),
            final(self).spec_context() == old(self).spec_context(),
            final(self).spec_swapchain() == old(self).spec_swapchain(),
    {
        self.needs_rebuild = true;
    }

    /// The device context.
    pub fn context(&self) -> (r: &Context)
        ensures
            *r == self.spec_context(),
    {
        &self.context
    }

    /// The current swapchain.
    pub fn swapchain(&self) -> (r: &Swapchain)
        ensures
            *r == self.spec_swapchain(),
    {
        &self.swapchain
    }

    /// Whether a failed present is waiting for `rebuild`.
    pub fn needs_rebuild(&self) -> (r: bool)
        ensures
            r == self.spec_needs_rebuild(),
    {
        self.needs_rebuild
    }
}

} // verus!
