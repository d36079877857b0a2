use vstd::prelude::*;

use crate::error::GpuError;

verus! {

/// How presented images are handed to the display.
#[derive(Clone, Copy, Debug, PartialEq, Eq, Structural)]
pub enum PresentMode {
    /// Never wait for vertical sync.
    Immediate,
    /// Wait for vertical sync and overwrite the image queued last.
    Mailbox,
    /// Present images in the order they were rendered.
    Fifo,
    /// Like `Fifo`, but do not wait when the last sync was just missed.
    Relaxed,
}

/// How the window system composes the images' alpha channel.
#[derive(Clone, Copy, Debug, PartialEq, Eq, Structural)]
pub enum CompositeAlpha {
    /// Alpha is ignored and taken as one.
    Opaque,
    /// Colors are already multiplied by alpha.
    PreMultiplied,
    /// The compositor multiplies colors by alpha.
    PostMultiplied,
    /// The system's own setting.
    Inherit,
}

/// The channel type of an image format.
#[derive(Clone, Copy, Debug, PartialEq, Eq, Structural)]
pub enum ChannelKind {
    Unorm,
    Snorm,
    Uint,
    Sint,
    Ufloat,
    Sfloat,
    Uscaled,
    Sscaled,
    Srgb,
}

/// Image usage flag: the image can be a color attachment of a render pass.
pub const COLOR_ATTACHMENT: u32 = 0x10;

/// What a surface reports it supports on the chosen adapter.
#[derive(Clone, Debug)]
pub struct SurfaceSupport {
    /// The largest number of presentable images a swapchain may hold.
    pub max_image_count: u32,
    /// The usage flags the presentable images support.
    pub usage: u32,
    /// The supported present modes.
    pub present_modes: Vec<PresentMode>,
    /// The supported composite alpha modes.
    pub composite_alphas: Vec<CompositeAlpha>,
    /// The channel type of each advertised format, in the advertised order;
    /// `None` when the surface states no preference.
    pub formats: Option<Vec<ChannelKind>>,
}

/// The format the swapchain's images use.
#[derive(Clone, Copy, Debug, PartialEq, Eq, Structural)]
pub enum FormatChoice {
    /// The advertised format at this index.
    Advertised(usize),
    /// The fixed default format, four normalized sRGB channels.
    Default,
}

/// The settings a swapchain is built with.
#[derive(Clone, Copy, Debug, PartialEq, Eq, Structural)]
pub struct SwapchainConfig {
    pub present_mode: PresentMode,
    pub composite_alpha: CompositeAlpha,
    pub format: FormatChoice,
    /// The number of presentable images requested, which is also the number
    /// of frames in flight.
    pub image_count: u32,
    pub image_usage: u32,
}

/// Preference of a present mode: lower is preferred.
pub open spec fn present_mode_rank(m: PresentMode) -> int {
    match m {
        PresentMode::Mailbox => 0,
        PresentMode::Fifo => 1,
        PresentMode::Relaxed => 2,
        PresentMode::Immediate => 3,
    }
}

/// Preference of a composite alpha mode: lower is preferred.
pub open spec fn composite_alpha_rank(a: CompositeAlpha) -> int {
    match a {
        CompositeAlpha::Opaque => 0,
        CompositeAlpha::Inherit => 1,
        CompositeAlpha::PreMultiplied => 2,
        CompositeAlpha::PostMultiplied => 3,
    }
}

fn has_present_mode(modes: &Vec<PresentMode>, m: PresentMode) -> (r: bool)
    ensures
        r == modes@.contains(m),
{
    let mut i: usize = 0;
    while i < modes.len()
        invariant
            i <= modes@.len(),
            forall|j: int| 0 <= j < i ==> modes@[j] != m,
        decreases modes@.len() - i,
    {
        if modes[i] == m {
            return true;
        }
        i = i + 1;
    }
    false
}

fn has_composite_alpha(alphas: &Vec<CompositeAlpha>, a: CompositeAlpha) -> (r: bool)
    ensures
        r == alphas@.contains(a),
{
    let mut i: usize = 0;
    while i < alphas.len()
        invariant
            i <= alphas@.len(),
            forall|j: int| 0 <= j < i ==> alphas@[j] != a,
        decreases alphas@.len() - i,
    {
        if alphas[i] == a {
            return true;
        }
        i = i + 1;
    }
    false
}

/// The supported present mode that comes first in the order Mailbox, Fifo,
/// Relaxed, Immediate.
pub fn pick_present_mode(modes: &Vec<PresentMode>) -> (r: Result<PresentMode, GpuError>)
    ensures
        match r {
            Ok(m) => {
                &&& modes@.contains(m)
                &&& forall|o: PresentMode| modes@.contains(o) ==> present_mode_rank(m) <= present_mode_rank(o)
            },
            Err(e) => e == GpuError::SurfaceCapabilityUnsupported && modes@.len() == 0,
        },
{
    if has_present_mode(modes, PresentMode::Mailbox) {
        Ok(PresentMode::Mailbox)
    } else if has_present_mode(modes, PresentMode::Fifo) {
        Ok(PresentMode::Fifo)
    } else if has_present_mode(modes, PresentMode::Relaxed) {
        Ok(PresentMode::Relaxed)
    } else if has_present_mode(modes, PresentMode::Immediate) {
        Ok(PresentMode::Immediate)
    } else {
        proof {
            if modes@.len() > 0 {
                assert(modes@.contains(modes@[0]));
            }
        }
        Err(GpuError::SurfaceCapabilityUnsupported)
    }
}

/// The supported composite alpha mode that comes first in the order Opaque,
/// Inherit, PreMultiplied, PostMultiplied.
pub fn pick_composite_alpha(alphas: &Vec<CompositeAlpha>) -> (r: Result<CompositeAlpha, GpuError>)
    ensures
        match r {
            Ok(a) => {
                &&& alphas@.contains(a)
                &&& forall|o: CompositeAlpha| alphas@.contains(o) ==> composite_alpha_rank(a) <= composite_alpha_rank(o)
            },
            Err(e) => e == GpuError::SurfaceCapabilityUnsupported && alphas@.len() == 0,
        },
{
    if has_composite_alpha(alphas, CompositeAlpha::Opaque) {
        Ok(CompositeAlpha::Opaque)
    } else if has_composite_alpha(alphas, CompositeAlpha::Inherit) {
        Ok(CompositeAlpha::Inherit)
    } else if has_composite_alpha(alphas, CompositeAlpha::PreMultiplied) {
        Ok(CompositeAlpha::PreMultiplied)
    } else if has_composite_alpha(alphas, CompositeAlpha::PostMultiplied) {
        Ok(CompositeAlpha::PostMultiplied)
    } else {
        proof {
            if alphas@.len() > 0 {
                assert(alphas@.contains(alphas@[0]));
            }
        }
        Err(GpuError::SurfaceCapabilityUnsupported)
    }
}

/// No advertised format has sRGB channels.
pub open spec fn no_srgb(v: Seq<ChannelKind>) -> bool {
    forall|j: int| 0 <= j < v.len() ==> v[j] != ChannelKind::Srgb
}

/// Index `i` holds the first advertised sRGB format.
pub open spec fn first_srgb_at(v: Seq<ChannelKind>, i: int) -> bool {
    &&& 0 <= i < v.len()
    &&& v[i] == ChannelKind::Srgb
    &&& forall|j: int| 0 <= j < i ==> v[j] != ChannelKind::Srgb
}

/// The format choice for the advertised formats: the first sRGB format, else
/// the first advertised format, else the fixed default.
pub open spec fn format_choice_ok(formats: Option<Seq<ChannelKind>>, r: FormatChoice) -> bool {
    match formats {
        None => r == FormatChoice::Default,
        Some(v) => match r {
            FormatChoice::Advertised(i) => first_srgb_at(v, i as int) || (no_srgb(v) && i == 0 && v.len() > 0),
            FormatChoice::Default => no_srgb(v) && v.len() == 0,
        },
    }
}

/// Chooses the swapchain's format among the advertised ones.
pub fn pick_format(formats: &Option<Vec<ChannelKind>>) -> (r: FormatChoice)
    ensures
        format_choice_ok(
            match formats {
                Some(v) => Some(v@),
                None => None,
            },
            r,
        ),
{
    match formats {
        None => FormatChoice::Default,
        Some(v) => {
            let mut i: usize = 0;
            while i < v.len()
                invariant
                    *formats == Some(*v),
                    i <= v@.len(),
                    forall|j: int| 0 <= j < i ==> v@[j] != ChannelKind::Srgb,
                decreases v@.len() - i,
            {
                if v[i] == ChannelKind::Srgb {
                    return FormatChoice::Advertised(i);
                }
                i = i + 1;
            }
            if v.len() > 0 {
                FormatChoice::Advertised(0)
            } else {
                FormatChoice::Default
            }
        },
    }
}

/// The number of presentable images: three with Mailbox, else two, and never
/// more than the surface allows.
pub open spec fn image_count_for(mode: PresentMode, max_image_count: u32) -> u32 {
    let wanted: u32 = if mode == PresentMode::Mailbox { 3 } else { 2 };
    if max_image_count < wanted { max_image_count } else { wanted }
}

/// The number of presentable images to request for this present mode.
pub fn image_count(mode: PresentMode, max_image_count: u32) -> (r: u32)
    ensures
        r == image_count_for(mode, max_image_count),
{
    let wanted: u32 = if mode == PresentMode::Mailbox { 3 } else { 2 };
    if max_image_count < wanted { max_image_count } else { wanted }
}

/// The surface supports everything a swapchain needs.
pub open spec fn surface_usable(s: SurfaceSupport) -> bool {
    &&& s.present_modes@.len() > 0
    &&& s.composite_alphas@.len() > 0
    &&& s.usage & COLOR_ATTACHMENT == COLOR_ATTACHMENT
    &&& s.max_image_count > 0
}

/// `c` is what negotiation gives for this surface: the preferred present
/// mode and composite alpha among the supported ones, the preferred format,
/// the image count for the present mode, and color-attachment usage.
pub open spec fn config_ok(support: SurfaceSupport, c: SwapchainConfig) -> bool {
    &&& support.present_modes@.contains(c.present_mode)
    &&& forall|o: PresentMode| support.present_modes@.contains(o)
            ==> present_mode_rank(c.present_mode) <= present_mode_rank(o)
    &&& support.composite_alphas@.contains(c.composite_alpha)
    &&& forall|o: CompositeAlpha| support.composite_alphas@.contains(o)
            ==> composite_alpha_rank(c.composite_alpha) <= composite_alpha_rank(o)
    &&& format_choice_ok(
        match support.formats {
            Some(v) => Some(v@),
            None => None,
        },
        c.format,
    )
    &&& c.image_count == image_count_for(c.present_mode, support.max_image_count)
    &&& c.image_count > 0
    &&& c.image_usage == COLOR_ATTACHMENT
}

/// Negotiates the settings of a swapchain with what the surface supports.
pub fn negotiate(support: &SurfaceSupport) -> (r: Result<SwapchainConfig, GpuError>)
    ensures
        match r {
            Ok(c) => surface_usable(*support) && config_ok(*support, c),
            Err(e) => e == GpuError::SurfaceCapabilityUnsupported && !surface_usable(*support),
        },
{
    let present_mode = pick_present_mode(&support.present_modes)?;
    let composite_alpha = pick_composite_alpha(&support.composite_alphas)?;
    let format = pick_format(&support.formats);
    let count = image_count(present_mode, support.max_image_count);
    if count == 0 {
        return Err(GpuError::SurfaceCapabilityUnsupported);
    }
    if support.usage & COLOR_ATTACHMENT != COLOR_ATTACHMENT {
        return Err(GpuError::SurfaceCapabilityUnsupported);
    }
    Ok(SwapchainConfig { present_mode, composite_alpha, format, image_count: count, image_usage: COLOR_ATTACHMENT })
}

/// Where the work of one frame slot stands.
#[derive(Clone, Copy, Debug, PartialEq, Eq, Structural)]
pub enum SlotState {
    /// The GPU is done with the slot; its command buffer may be recorded.
    Idle,
    /// The CPU is recording the slot's command buffer.
    Recording,
    /// The command buffer was submitted and its fence is armed.
    Submitted,
    /// Recording ended but no image could be acquired, so nothing was
    /// submitted: the slot's fence was reset and will never signal. Only a
    /// rebuild of the swapchain recovers the slot.
    Abandoned,
    /// The slot's image was handed to the presentation engine.
    Presented,
}

/// What the caller does next for the current frame slot.
#[derive(Clone, Copy, Debug, PartialEq, Eq, Structural)]
pub enum FrameAction {
    /// Wait until the slot's fence signals, then report it with `signal_fence`.
    WaitFence(usize),
    /// The slot's fence was reset: begin recording its command buffer.
    Begin(usize),
}

/// What one teardown step of a swapchain destroys.
#[derive(Clone, Copy, Debug, PartialEq, Eq, Structural)]
pub enum TeardownStep {
    CommandPool,
    RenderPass,
    Fence(usize),
    RenderFinishedSemaphore(usize),
    ImageAvailableSemaphore(usize),
    Framebuffer(usize),
    ImageView(usize),
    SwapchainHandle,
}

/// The teardown of a swapchain with `frames` frame slots and `images`
/// presentable images, in the order it must happen.
pub open spec fn teardown_sequence(frames: nat, images: nat) -> Seq<TeardownStep> {
    seq![TeardownStep::CommandPool, TeardownStep::RenderPass]
        + Seq::new(frames, |i: int| TeardownStep::Fence(i as usize))
        + Seq::new(frames, |i: int| TeardownStep::RenderFinishedSemaphore(i as usize))
        + Seq::new(frames, |i: int| TeardownStep::ImageAvailableSemaphore(i as usize))
        + Seq::new(images, |i: int| TeardownStep::Framebuffer(i as usize))
        + Seq::new(images, |i: int| TeardownStep::ImageView(i as usize))
        + seq![TeardownStep::SwapchainHandle]
}

/// The slot after `current` in a ring of `frames` slots.
pub open spec fn next_frame(current: int, frames: int) -> int {
    (current + 1) % frames
}

/// The slot reached from `current` after `k` successful presents.
pub open spec fn frame_after(current: int, frames: int, k: nat) -> int
    decreases k,
{
    if k == 0 {
        current
    } else {
        next_frame(frame_after(current, frames, (k - 1) as nat), frames)
    }
}

/// A swapchain's negotiated settings and the state of its frames in flight:
/// one slot per frame, each with a command buffer, a pair of semaphores and
/// a fence.
pub struct Swapchain {
    config: SwapchainConfig,
    slots: Vec<SlotState>,
    fences: Vec<bool>,
    current_frame: usize,
}

impl Swapchain {
    pub closed spec fn spec_config(&self) -> SwapchainConfig {
        self.config
    }

    /// The state of each frame slot.
    pub closed spec fn spec_slots(&self) -> Seq<SlotState> {
        self.slots@
    }

    /// Whether each slot's fence is signaled.
    pub closed spec fn spec_fences(&self) -> Seq<bool> {
        self.fences@
    }

    pub closed spec fn spec_current_frame(&self) -> int {
        self.current_frame as int
    }

    pub open spec fn spec_frames_in_flight(&self) -> int {
        self.spec_config().image_count as int
    }

    /// One slot per frame in flight; only the current slot records, and a
    /// slot's fence is unsignaled while the GPU may still use its command
    /// buffer.
    pub open spec fn wf(&self) -> bool {
        &&& self.spec_frames_in_flight() > 0
        &&& self.spec_slots().len() == self.spec_frames_in_flight()
        &&& self.spec_fences().len() == self.spec_frames_in_flight()
        &&& 0 <= self.spec_current_frame() < self.spec_frames_in_flight()
        &&& forall|i: int| 0 <= i < self.spec_slots().len() ==> {
            &&& (self.spec_slots()[i] == SlotState::Recording ==> i == self.spec_current_frame() && !self.spec_fences()[i])
            &&& (self.spec_slots()[i] == SlotState::Submitted ==> !self.spec_fences()[i])
            &&& (self.spec_slots()[i] == SlotState::Presented ==> !self.spec_fences()[i])
            &&& (self.spec_slots()[i] == SlotState::Abandoned ==> i == self.spec_current_frame() && !self.spec_fences()[i])
        }
    }

    /// The swapchain is the one `new` builds for `support`: negotiated with
    /// it, frame 0 current and recording, every other slot idle with its
    /// fence signaled.
    pub open spec fn built_from(&self, support: SurfaceSupport) -> bool {
        &&& self.wf()
        &&& surface_usable(support)
        &&& config_ok(support, self.spec_config())
        &&& self.spec_current_frame() == 0
        &&& self.spec_slots() == Seq::new(
            self.spec_frames_in_flight() as nat,
            |i: int| if i == 0 { SlotState::Recording } else { SlotState::Idle },
        )
        &&& self.spec_fences() == Seq::new(self.spec_frames_in_flight() as nat, |i: int| i != 0)
    }

    /// `new` is `old` after `prepare_current_frame` returned `r`: the current
    /// slot begins recording, its fence reset, when the fence was signaled;
    /// otherwise nothing changes and the caller waits.
    pub open spec fn prepare_step(old: Swapchain, new: Swapchain, r: FrameAction) -> bool {
        let c = old.spec_current_frame();
        &&& new.spec_config() == old.spec_config()
        &&& new.spec_current_frame() == c
        &&& if old.spec_fences()[c] {
            &&& r == FrameAction::Begin(c as usize)
            &&& new.spec_slots() == old.spec_slots().update(c, SlotState::Recording)
            &&& new.spec_fences() == old.spec_fences().update(c, false)
        } else {
            &&& r == FrameAction::WaitFence(c as usize)
            &&& new.spec_slots() == old.spec_slots()
            &&& new.spec_fences() == old.spec_fences()
        }
    }

    /// `new` is `old` after the fence of `slot` signaled.
    pub open spec fn signal_step(old: Swapchain, new: Swapchain, slot: int) -> bool {
        &&& new.spec_config() == old.spec_config()
        &&& new.spec_current_frame() == old.spec_current_frame()
        &&& new.spec_fences() == old.spec_fences().update(slot, true)
        &&& new.spec_slots() == old.spec_slots().update(slot, SlotState::Idle)
    }

    /// `new` is `old` after `present` returned `r` for this outcome of
    /// acquiring (`acquired`) and presenting (`presented`).
    pub open spec fn present_step(
        old: Swapchain,
        new: Swapchain,
        acquired: bool,
        presented: bool,
        r: Result<FrameAction, GpuError>,
    ) -> bool {
        let c = old.spec_current_frame();
        let c2 = next_frame(c, old.spec_frames_in_flight());
        let slots1 = old.spec_slots().update(c, SlotState::Presented);
        &&& new.spec_config() == old.spec_config()
        &&& if !acquired {
            &&& r == Err::<FrameAction, GpuError>(GpuError::SwapchainAcquireFailed)
            &&& new.spec_current_frame() == c
            &&& new.spec_slots() == old.spec_slots().update(c, SlotState::Abandoned)
            &&& new.spec_fences() == old.spec_fences()
        } else if !presented {
            &&& r == Err::<FrameAction, GpuError>(GpuError::SwapchainPresentFailed)
            &&& new.spec_current_frame() == c
            &&& new.spec_slots() == old.spec_slots().update(c, SlotState::Submitted)
            &&& new.spec_fences() == old.spec_fences()
        } else if old.spec_fences()[c2] {
            &&& r == Ok::<FrameAction, GpuError>(FrameAction::Begin(c2 as usize))
            &&& new.spec_current_frame() == c2
            &&& new.spec_slots() == slots1.update(c2, SlotState::Recording)
            &&& new.spec_fences() == old.spec_fences().update(c2, false)
        } else {
            &&& r == Ok::<FrameAction, GpuError>(FrameAction::WaitFence(c2 as usize))
            &&& new.spec_current_frame() == c2
            &&& new.spec_slots() == slots1
            &&& new.spec_fences() == old.spec_fences()
        }
    }

    /// Negotiates the settings with the surface and sets up the frame slots,
    /// their fences created signaled; frame 0 is then prepared at once, so
    /// that its command buffer is recording when `new` returns.
    pub fn new(support: &SurfaceSupport) -> (r: Result<Swapchain, GpuError>)
        ensures
            match r {
                Ok(s) => s.built_from(*support),
                Err(e) => e == GpuError::SurfaceCapabilityUnsupported && !surface_usable(*support),
            },
    {
        let config = negotiate(support)?;
        let n = config.image_count as usize;
        let mut slots: Vec<SlotState> = Vec::new();
        let mut fences: Vec<bool> = Vec::new();
        let mut i: usize = 0;
        while i < n
            invariant
                i <= n,
                slots@ == Seq::new(i as nat, |j: int| SlotState::Idle),
                fences@ == Seq::new(i as nat, |j: int| true),
            decreases n - i,
        {
            slots.push(SlotState::Idle);
            fences.push(true);
            i = i + 1;
            assert(slots@ =~= Seq::new(i as nat, |j: int| SlotState::Idle));
            assert(fences@ =~= Seq::new(i as nat, |j: int| true));
        }
        let mut s = Swapchain { config, slots, fences, current_frame: 0 };
        s.prepare_current_frame();
        assert(s.spec_slots() =~= Seq::new(n as nat, |i: int| if i == 0 { SlotState::Recording } else { SlotState::Idle }));
        assert(s.spec_fences() =~= Seq::new(n as nat, |i: int| i != 0));
        Ok(s)
    }

    /// Prepares the current slot for recording. Its command buffer is
    /// recorded again only once its fence has signaled: then the fence is
    /// reset and recording begins; otherwise the caller must wait for it.
    pub fn prepare_current_frame(&mut self) -> (r: FrameAction)
        requires
            old(self).wf(),
            old(self).spec_slots()[old(self).spec_current_frame()] != SlotState::Recording,
            old(self).spec_slots()[old(self).spec_current_frame()] != SlotState::Abandoned,
        ensures
            final(self).wf(),
            Swapchain::prepare_step(*old(self), *final(self), r),
    {
        let c = self.current_frame;
        if self.fences[c] {
            self.fences.set(c, false);
            self.slots.set(c, SlotState::Recording);
            FrameAction::Begin(c)
        } else {
            FrameAction::WaitFence(c)
        }
    }

    /// Reports that the fence of `slot` has signaled: the GPU is done with
    /// the slot's command buffer.
    pub fn signal_fence(&mut self, slot: usize)
        requires
            old(self).wf(),
            slot < old(self).spec_frames_in_flight(),
            old(self).spec_slots()[slot as int] != SlotState::Recording,
            old(self).spec_slots()[slot as int] != SlotState::Abandoned,
        ensures
            final(self).wf(),
            Swapchain::signal_step(*old(self), *final(self), slot as int),
    {
        self.fences.set(slot, true);
        self.slots.set(slot, SlotState::Idle);
    }

    /// The slot whose command buffer and framebuffer a clear is recorded into.
    pub fn clear(&self) -> (r: usize)
        requires
            self.wf(),
            self.spec_slots()[self.spec_current_frame()] == SlotState::Recording,
        ensures
            r == self.spec_current_frame(),
    {
        self.current_frame
    }

    /// Ends the current frame after the caller finished its command buffer and
    /// tried to acquire an image (`acquired`), submit it, and present it
    /// (`presented`). A failure leaves the frame index where it was and asks
    /// for the swapchain to be rebuilt. On success the next slot becomes
    /// current and is prepared at once, as `prepare_current_frame` does.
    pub fn present(&mut self, acquired: bool, presented: bool) -> (r: Result<FrameAction, GpuError>)
        requires
            old(self).wf(),
            old(self).spec_slots()[old(self).spec_current_frame()] == SlotState::Recording,
        ensures
            final(self).wf(),
            Swapchain::present_step(*old(self), *final(self), acquired, presented, r),
    {
        let c = self.current_frame;
        if !acquired {
            self.slots.set(c, SlotState::Abandoned);
            return Err(GpuError::SwapchainAcquireFailed);
        }
        if !presented {
            self.slots.set(c, SlotState::Submitted);
            return Err(GpuError::SwapchainPresentFailed);
        }
        self.slots.set(c, SlotState::Presented);
        let n = self.config.image_count as usize;
        self.current_frame = (c + 1) % n;
        Ok(self.prepare_current_frame())
    }

    /// The teardown order of the swapchain's objects, given the number of
    /// presentable images it was built with: command pool, render pass, each
    /// fence, each render-finished semaphore, each image-available semaphore,
    /// each framebuffer, each image view, then the swapchain itself.
    pub fn teardown(&self, images: usize) -> (r: Vec<TeardownStep>)
        requires
            self.wf(),
        ensures
            r@ == teardown_sequence(self.spec_frames_in_flight() as nat, images as nat),
    {
        let n = self.config.image_count as usize;
        let mut out: Vec<TeardownStep> = Vec::new();
        out.push(TeardownStep::CommandPool);
        out.push(TeardownStep::RenderPass);
        push_indexed(&mut out, n, TeardownKind::Fence);
        push_indexed(&mut out, n, TeardownKind::RenderFinishedSemaphore);
        push_indexed(&mut out, n, TeardownKind::ImageAvailableSemaphore);
        push_indexed(&mut out, images, TeardownKind::Framebuffer);
        push_indexed(&mut out, images, TeardownKind::ImageView);
        out.push(TeardownStep::SwapchainHandle);
        assert(out@ =~= teardown_sequence(n as nat, images as nat));
        out
    }

    /// The negotiated settings.
    pub fn config(&self) -> (r: SwapchainConfig)
        ensures
            r == self.spec_config(),
    {
        self.config
    }

    /// The number of frames in flight.
    pub fn frames_in_flight(&self) -> (r: usize)
        ensures
            r == self.spec_frames_in_flight(),
    {
        self.config.image_count as usize
    }

    /// The index of the current frame slot.
    pub fn current_frame(&self) -> (r: usize)
        ensures
            r == self.spec_current_frame(),
    {
        self.current_frame
    }

    /// The state of slot `i`.
    pub fn slot_state(&self, i: usize) -> (r: SlotState)
        requires
            self.wf(),
            i < self.spec_frames_in_flight(),
        ensures
            r == self.spec_slots()[i as int],
    {
        self.slots[i]
    }

    /// Whether the fence of slot `i` is signaled.
    pub fn is_fence_signaled(&self, i: usize) -> (r: bool)
        requires
            self.wf(),
            i < self.spec_frames_in_flight(),
        ensures
            r == self.spec_fences()[i as int],
    {
        self.fences[i]
    }
}

/// The kind of per-slot or per-image object a teardown step destroys.
#[derive(Clone, Copy, Debug, PartialEq, Eq, Structural)]
enum TeardownKind {
    Fence,
    RenderFinishedSemaphore,
    ImageAvailableSemaphore,
    Framebuffer,
    ImageView,
}

spec fn teardown_step(kind: TeardownKind, i: usize) -> TeardownStep {
    match kind {
        TeardownKind::Fence => TeardownStep::Fence(i),
        TeardownKind::RenderFinishedSemaphore => TeardownStep::RenderFinishedSemaphore(i),
        TeardownKind::ImageAvailableSemaphore => TeardownStep::ImageAvailableSemaphore(i),
        TeardownKind::Framebuffer => TeardownStep::Framebuffer(i),
        TeardownKind::ImageView => TeardownStep::ImageView(i),
    }
}

fn push_indexed(out: &mut Vec<TeardownStep>, count: usize, kind: TeardownKind)
    ensures
        final(out)@ == old(out)@ + Seq::new(count as nat, |i: int| teardown_step(kind, i as usize)),
{
    let mut i: usize = 0;
    while i < count
        invariant
            i <= count,
            out@ == old(out)@ + Seq::new(i as nat, |j: int| teardown_step(kind, j as usize)),
        decreases count - i,
    {
        let step = match kind {
            TeardownKind::Fence => TeardownStep::Fence(i),
            TeardownKind::RenderFinishedSemaphore => TeardownStep::RenderFinishedSemaphore(i),
            TeardownKind::ImageAvailableSemaphore => TeardownStep::ImageAvailableSemaphore(i),
            TeardownKind::Framebuffer => TeardownStep::Framebuffer(i),
            TeardownKind::ImageView => TeardownStep::ImageView(i),
        };
        out.push(step);
        i = i + 1;
        assert(out@ =~= old(out)@ + Seq::new(i as nat, |j: int| teardown_step(kind, j as usize)));
    }
}

/// A slot whose command buffer was submitted, or whose image was presented,
/// is not recorded again before its fence signals: its fence is unsignaled,
/// so preparing it asks the caller to wait.
pub proof fn lemma_fence_guards_recording(s: Swapchain)
    requires
        s.wf(),
        s.spec_slots()[s.spec_current_frame()] == SlotState::Submitted
            || s.spec_slots()[s.spec_current_frame()] == SlotState::Presented,
    ensures
        !s.spec_fences()[s.spec_current_frame()],
{
}

/// After as many successful presents as there are frames in flight, the
/// frame index is back where it started.
pub proof fn lemma_frame_index_cycles(start: int, frames: int)
    requires
        0 <= start < frames,
    ensures
        frame_after(start, frames, frames as nat) == start,
{
    lemma_frame_after_is_mod(start, frames, frames as nat);
    vstd::arithmetic::div_mod::lemma_mod_self_0(frames);
    vstd::arithmetic::div_mod::lemma_mod_add_multiples_vanish(start, frames);
    vstd::arithmetic::div_mod::lemma_small_mod(start as nat, frames as nat);
}

/// After `k` successful presents the frame index is `(start + k) mod frames`.
pub proof fn lemma_frame_after_is_mod(start: int, frames: int, k: nat)
    requires
        0 <= start < frames,
    ensures
        frame_after(start, frames, k) == (start + k) % frames,
    decreases k,
{
    if k == 0 {
        vstd::arithmetic::div_mod::lemma_small_mod(start as nat, frames as nat);
    } else {
        lemma_frame_after_is_mod(start, frames, (k - 1) as nat);
        vstd::arithmetic::div_mod::lemma_add_mod_noop_right(1, start + k - 1, frames);
    }
}

} // verus!
