use vstd::prelude::*;
use vulkano::swapchain::{CompositeAlpha, CompositeAlphas};

verus! {

/// How many frames the CPU may record ahead of the GPU.
pub const FRAMES_IN_FLIGHT: usize = 2;

/// The frame slot that follows `frame` in the ring of frames in flight.
pub open spec fn next_frame_index(frame: int) -> int {
    (frame + 1) % (FRAMES_IN_FLIGHT as int)
}

// ---------------------------------------------------------------------------
// Present mode
// ---------------------------------------------------------------------------

/// The presentation modes a surface can offer; `Unrecognized` stands for any
/// mode this library does not name.
#[derive(Clone, Copy, Debug, PartialEq, Eq, Structural)]
pub enum PresentModeKind {
    Immediate,
    Mailbox,
    Fifo,
    FifoRelaxed,
    Unrecognized,
}

/// Preference order of present modes: lower is better.
pub open spec fn present_mode_rank(mode: PresentModeKind) -> int {
    match mode {
        PresentModeKind::Mailbox => 0,
        PresentModeKind::Fifo => 1,
        _ => 2,
    }
}

/// The present mode the renderer settles on: `Mailbox` when offered, else
/// `Fifo` when offered, else the first mode offered, and `Fifo` (which every
/// device supports) when nothing is listed.
pub open spec fn spec_choose_present_mode(modes: Seq<PresentModeKind>) -> PresentModeKind {
    if modes.contains(PresentModeKind::Mailbox) {
        PresentModeKind::Mailbox
    } else if modes.contains(PresentModeKind::Fifo) {
        PresentModeKind::Fifo
    } else if modes.len() > 0 {
        modes[0]
    } else {
        PresentModeKind::Fifo
    }
}

fn present_mode_key(mode: PresentModeKind) -> (key: u8)
    ensures
        key == present_mode_rank(mode),
{
    match mode {
        PresentModeKind::Mailbox => 0,
        PresentModeKind::Fifo => 1,
        _ => 2,
    }
}

/// Picks the first mode of least rank, as `min_by_key` does, falling back to
/// `Fifo` on an empty list.
pub fn choose_present_mode(modes: &Vec<PresentModeKind>) -> (chosen: PresentModeKind)
    ensures
        chosen == spec_choose_present_mode(modes@),
{
    if modes.len() == 0 {
        return PresentModeKind::Fifo;
    }
    let mut best: usize = 0;
    let mut best_key = present_mode_key(modes[0]);
    let mut i: usize = 1;
    while i < modes.len()
        invariant
            1 <= i <= modes.len(),
            best < i,
            best_key == present_mode_rank(modes@[best as int]),
            forall|j: int| 0 <= j < i ==> present_mode_rank(modes@[best as int]) <= present_mode_rank(#[trigger] modes@[j]),
            forall|j: int| 0 <= j < best ==> present_mode_rank(#[trigger] modes@[j]) > present_mode_rank(modes@[best as int]),
        decreases modes.len() - i,
    {
        let key: u8 = present_mode_key(modes[i]);
        if key < best_key {
            best = i;
            best_key = key;
        }
        i = i + 1;
    }
    let chosen = modes[best];
    proof {
        let s = modes@;
        if s.contains(PresentModeKind::Mailbox) {
            let j = choose|j: int| 0 <= j < s.len() && s[j] == PresentModeKind::Mailbox;
            assert(present_mode_rank(s[j]) == 0);
        } else if s.contains(PresentModeKind::Fifo) {
            let j = choose|j: int| 0 <= j < s.len() && s[j] == PresentModeKind::Fifo;
            assert(present_mode_rank(s[j]) == 1);
            assert(s[best as int] != PresentModeKind::Mailbox);
        } else {
            assert(present_mode_rank(s[0]) == 2);
            if best > 0 {
                assert(present_mode_rank(s[0]) > present_mode_rank(s[best as int]));
                assert(s[best as int] != PresentModeKind::Mailbox);
                assert(s[best as int] != PresentModeKind::Fifo);
                assert(false);
            }
        }
    }
    chosen
}


/// The chosen present mode is one the surface offers, or `Fifo`, which every
/// surface supports; and it is the first offered mode of least rank.
pub proof fn law_present_mode_offered_and_first_best(modes: Seq<PresentModeKind>)
    ensures
        modes.contains(spec_choose_present_mode(modes))
            || spec_choose_present_mode(modes) == PresentModeKind::Fifo,
        modes.len() > 0 ==> exists|i: int|
            {
                &&& 0 <= i < modes.len()
                &&& #[trigger] modes[i] == spec_choose_present_mode(modes)
                &&& forall|j: int| 0 <= j < modes.len() ==> present_mode_rank(modes[i]) <= present_mode_rank(#[trigger] modes[j])
                &&& forall|j: int| 0 <= j < i ==> present_mode_rank(#[trigger] modes[j]) > present_mode_rank(modes[i])
            },
{
    let chosen = spec_choose_present_mode(modes);
    if modes.len() > 0 {
        if modes.contains(PresentModeKind::Mailbox) {
            let m = choose|m: int| 0 <= m < modes.len() && modes[m] == PresentModeKind::Mailbox;
            let i = first_index_of(modes, PresentModeKind::Mailbox, m);
            assert(modes[i] == chosen);
        } else if modes.contains(PresentModeKind::Fifo) {
            let m = choose|m: int| 0 <= m < modes.len() && modes[m] == PresentModeKind::Fifo;
            let i = first_index_of(modes, PresentModeKind::Fifo, m);
            assert forall|j: int| 0 <= j < modes.len() implies present_mode_rank(modes[i]) <= present_mode_rank(#[trigger] modes[j]) by {
                assert(modes[j] != PresentModeKind::Mailbox);
            }
            assert(modes[i] == chosen);
        } else {
            assert forall|j: int| 0 <= j < modes.len() implies present_mode_rank(modes[0]) <= present_mode_rank(#[trigger] modes[j]) by {
                assert(modes[j] != PresentModeKind::Mailbox);
                assert(modes[j] != PresentModeKind::Fifo);
            }
            assert(modes[0] == chosen);
        }
    }
}

/// The first position of `mode` in `modes`, given that it occurs at `at`.
proof fn first_index_of(modes: Seq<PresentModeKind>, mode: PresentModeKind, at: int) -> (i: int)
    requires
        0 <= at < modes.len(),
        modes[at] == mode,
    ensures
        0 <= i <= at,
        modes[i] == mode,
        forall|j: int| 0 <= j < i ==> #[trigger] modes[j] != mode,
    decreases at,
{
    if exists|j: int| 0 <= j < at && #[trigger] modes[j] == mode {
        let j = choose|j: int| 0 <= j < at && #[trigger] modes[j] == mode;
        first_index_of(modes, mode, j)
    } else {
        at
    }
}

// ---------------------------------------------------------------------------
// Surface format
// ---------------------------------------------------------------------------

/// Vulkan's code of the `B8G8R8A8_SRGB` image format.
pub const FORMAT_B8G8R8A8_SRGB: i32 = 50;

/// Vulkan's code of the `EXTENDED_SRGB_NONLINEAR` color space.
pub const COLOR_SPACE_EXTENDED_SRGB_NONLINEAR: i32 = 1000104014;

/// A (format, color space) pair a surface supports, by Vulkan's codes.
#[derive(Clone, Copy, Debug, PartialEq, Eq, Structural)]
pub struct SurfaceFormat {
    pub format: i32,
    pub color_space: i32,
}

/// The pair the renderer prefers.
pub open spec fn is_preferred_surface_format(f: SurfaceFormat) -> bool {
    f.format == FORMAT_B8G8R8A8_SRGB && f.color_space == COLOR_SPACE_EXTENDED_SRGB_NONLINEAR
}

/// `index` is the pair the renderer settles on: the first preferred pair, or
/// the first pair when none is preferred.
pub open spec fn is_chosen_surface_format(formats: Seq<SurfaceFormat>, index: int) -> bool {
    &&& 0 <= index < formats.len()
    &&& forall|j: int| 0 <= j < index ==> !is_preferred_surface_format(#[trigger] formats[j])
    &&& (is_preferred_surface_format(formats[index]) || (index == 0 && forall|j: int|
        0 <= j < formats.len() ==> !is_preferred_surface_format(#[trigger] formats[j])))
}

/// Picks the index of the surface format to use, as `min_by_key` with key 0
/// for the preferred pair and 1 otherwise; `None` when the list is empty.
pub fn choose_surface_format(formats: &Vec<SurfaceFormat>) -> (chosen: Option<usize>)
    ensures
        chosen is None <==> formats@.len() == 0,
        chosen matches Some(i) ==> is_chosen_surface_format(formats@, i as int),
{
    if formats.len() == 0 {
        return None;
    }
    let mut i: usize = 0;
    while i < formats.len()
        invariant
            i <= formats.len(),
            forall|j: int| 0 <= j < i ==> !is_preferred_surface_format(#[trigger] formats@[j]),
        decreases formats.len() - i,
    {
        let f = formats[i];
        if f.format == FORMAT_B8G8R8A8_SRGB && f.color_space == COLOR_SPACE_EXTENDED_SRGB_NONLINEAR {
            return Some(i);
        }
        i = i + 1;
    }
    Some(0)
}

/// The surface format choice is determined: two indices that both meet it
/// are the same.
pub proof fn law_surface_format_choice_unique(formats: Seq<SurfaceFormat>, i: int, k: int)
    requires
        is_chosen_surface_format(formats, i),
        is_chosen_surface_format(formats, k),
    ensures
        i == k,
{
    if i < k {
        assert(!is_preferred_surface_format(formats[i]));
    } else if k < i {
        assert(!is_preferred_surface_format(formats[k]));
    }
}

// ---------------------------------------------------------------------------
// Composite alpha
// ---------------------------------------------------------------------------

/// How a surface blends presented images with what is behind it.
#[derive(Clone, Copy, Debug, PartialEq, Eq, Structural)]
pub enum CompositeAlphaKind {
    Opaque,
    PreMultiplied,
    PostMultiplied,
    Inherit,
}

/// The first mode, in Vulkan's bit order, of a set of supported modes given
/// as Vulkan's `VkCompositeAlphaFlagsKHR` bits (1, 2, 4, 8); other bits are
/// ignored.
pub open spec fn spec_first_composite_alpha(supported: u32) -> Option<CompositeAlphaKind> {
    if supported & 1 != 0 {
        Some(CompositeAlphaKind::Opaque)
    } else if supported & 2 != 0 {
        Some(CompositeAlphaKind::PreMultiplied)
    } else if supported & 4 != 0 {
        Some(CompositeAlphaKind::PostMultiplied)
    } else if supported & 8 != 0 {
        Some(CompositeAlphaKind::Inherit)
    } else {
        None
    }
}

/// Calls vulkano's `IntoIterator for CompositeAlphas` and takes the first item.
/// Claimed: vulkano builds the set by masking the bits with the four known
/// flags and iterates them in declaration order (`Opaque`, `PreMultiplied`,
/// `PostMultiplied`, `Inherit`), so the first item is the lowest supported
/// bit, as `spec_first_composite_alpha` states.
#[verifier::external_body]
fn first_composite_alpha(supported: u32) -> (first: Option<CompositeAlphaKind>)
    ensures
        first == spec_first_composite_alpha(supported),
{
    let set = CompositeAlphas::from(ash::vk::CompositeAlphaFlagsKHR::from_raw(supported));
    match set.into_iter().next() {
        Some(CompositeAlpha::Opaque) => Some(CompositeAlphaKind::Opaque),
        Some(CompositeAlpha::PreMultiplied) => Some(CompositeAlphaKind::PreMultiplied),
        Some(CompositeAlpha::PostMultiplied) => Some(CompositeAlphaKind::PostMultiplied),
        Some(CompositeAlpha::Inherit) => Some(CompositeAlphaKind::Inherit),
        _ => None,
    }
}

// ---------------------------------------------------------------------------
// Swapchain creation plan
// ---------------------------------------------------------------------------

/// What the renderer reads of a surface's capabilities.
pub struct SurfaceCapabilitiesInfo {
    /// The least number of images a swapchain on the surface may have.
    pub min_image_count: u32,
    /// The supported composite alpha modes, as Vulkan's flag bits.
    pub supported_composite_alpha: u32,
    /// The present modes the surface reports as compatible, in its order.
    pub compatible_present_modes: Vec<PresentModeKind>,
}

/// How the swapchain is to be created.
#[derive(Clone, Copy, Debug)]
pub struct SwapchainPlan {
    /// Index of the chosen pair in the surface's format list.
    pub format_index: usize,
    /// One image more than the surface's minimum.
    pub min_image_count: u32,
    pub composite_alpha: CompositeAlphaKind,
    pub present_mode: PresentModeKind,
    /// The window's inner size.
    pub image_extent: [u32; 2],
}

/// Why no swapchain can be planned.
#[derive(Clone, Copy, Debug, PartialEq, Eq, Structural)]
pub enum SwapchainPlanError {
    /// The surface lists no format.
    NoSurfaceFormat,
    /// The surface supports no known composite alpha mode.
    NoCompositeAlpha,
    /// The surface's minimum image count is `u32::MAX`, so one more overflows.
    ImageCountOverflow,
}

/// Decides the swapchain's parameters from the surface's capabilities and
/// formats and the window's size, failing as the renderer does, in its order.
pub fn plan_swapchain(
    caps: &SurfaceCapabilitiesInfo,
    formats: &Vec<SurfaceFormat>,
    window_extent: [u32; 2],
) -> (plan: Result<SwapchainPlan, SwapchainPlanError>)
    ensures
        plan == Err::<SwapchainPlan, _>(SwapchainPlanError::NoSurfaceFormat) <==> formats@.len() == 0,
        plan == Err::<SwapchainPlan, _>(SwapchainPlanError::NoCompositeAlpha) <==> (formats@.len() > 0
            && spec_first_composite_alpha(caps.supported_composite_alpha) is None),
        plan == Err::<SwapchainPlan, _>(SwapchainPlanError::ImageCountOverflow) <==> (formats@.len() > 0
            && spec_first_composite_alpha(caps.supported_composite_alpha) is Some
            && caps.min_image_count == u32::MAX),
        plan matches Ok(p) ==> {
            &&& is_chosen_surface_format(formats@, p.format_index as int)
            &&& p.min_image_count == caps.min_image_count + 1
            &&& Some(p.composite_alpha) == spec_first_composite_alpha(caps.supported_composite_alpha)
            &&& p.present_mode == spec_choose_present_mode(caps.compatible_present_modes@)
            &&& p.image_extent == window_extent
        },
{
    let format_index: usize = match choose_surface_format(formats) {
        Some(i) => i,
        None => {
            return Err(SwapchainPlanError::NoSurfaceFormat);
        },
    };
    let composite_alpha = match first_composite_alpha(caps.supported_composite_alpha) {
        Some(c) => c,
        None => {
            return Err(SwapchainPlanError::NoCompositeAlpha);
        },
    };
    let present_mode = choose_present_mode(&caps.compatible_present_modes);
    let min_image_count: u32 = match caps.min_image_count.checked_add(1) {
        Some(n) => n,
        None => {
            return Err(SwapchainPlanError::ImageCountOverflow);
        },
    };
    Ok(SwapchainPlan {
        format_index,
        min_image_count,
        composite_alpha,
        present_mode,
        image_extent: window_extent,
    })
}

/// A swapchain is rebuilt only for a window with no zero side; a minimised
/// window keeps the old one.
pub fn extent_allows_rebuild(extent: [u32; 2]) -> (allowed: bool)
    ensures
        allowed <==> (extent@[0] != 0 && extent@[1] != 0),
{
    extent[0] != 0 && extent[1] != 0
}

// ---------------------------------------------------------------------------
// Frame state machine
// ---------------------------------------------------------------------------

/// What acquiring the next swapchain image reported.
#[derive(Clone, Copy, Debug, PartialEq, Eq, Structural)]
pub enum AcquireOutcome {
    /// An image was acquired; `suboptimal` says the swapchain no longer matches
    /// the surface exactly.
    Acquired { image_index: u32, suboptimal: bool },
    /// The swapchain no longer matches the surface and cannot be used.
    OutOfDate,
    /// Any other error.
    Failed,
}

/// What the renderer does after an acquire.
pub enum AcquireStep<F> {
    /// Record the frame; it must wait on `previous_frame_end` (the fence of the
    /// last frame that used this slot) when there is one, else start now.
    Proceed { previous_frame_end: Option<F> },
    /// Skip this frame; the swapchain is recreated at the next acquire.
    SkipFrame,
    /// The error cannot be recovered from.
    Fatal,
}

/// What flushing a presented frame reported.
pub enum PresentOutcome<F> {
    /// The frame was submitted; `F` signals when it is done.
    Flushed(F),
    /// The swapchain no longer matches the surface.
    OutOfDate,
    /// Any other error.
    Failed,
}

/// What the renderer does after a present.
#[derive(Clone, Copy, Debug, PartialEq, Eq, Structural)]
pub enum PresentStep {
    /// The frame slot advanced.
    Presented,
    /// The error cannot be recovered from.
    Fatal,
}

/// Mathematical model of [`SwapchainState`].
pub struct SwapchainStateView<F> {
    /// The swapchain must be rebuilt before the next acquire.
    pub recreate_swapchain: bool,
    /// The image acquired last.
    pub image_index: u32,
    /// The frame slot in use.
    pub current_frame: int,
    /// Per frame slot, the fence of the last frame submitted from it.
    pub previous_frame_ends: Seq<Option<F>>,
}

impl<F> SwapchainStateView<F> {
    /// One fence slot per frame in flight, and the current frame is one of them.
    pub open spec fn wf(self) -> bool {
        &&& self.previous_frame_ends.len() == FRAMES_IN_FLIGHT
        &&& 0 <= self.current_frame < FRAMES_IN_FLIGHT
    }
}

/// A resize (or any other cause) asks for the swapchain to be rebuilt.
pub open spec fn spec_request_recreate<F>(v: SwapchainStateView<F>) -> SwapchainStateView<F> {
    SwapchainStateView { recreate_swapchain: true, ..v }
}

/// Before acquiring, a pending rebuild is taken (and cleared); the second
/// component says whether to rebuild now.
pub open spec fn spec_begin_acquire<F>(v: SwapchainStateView<F>) -> (SwapchainStateView<F>, bool) {
    (SwapchainStateView { recreate_swapchain: false, ..v }, v.recreate_swapchain)
}

/// The state and step after an acquire reported `outcome`.
pub open spec fn spec_finish_acquire<F>(v: SwapchainStateView<F>, outcome: AcquireOutcome) -> (
    SwapchainStateView<F>,
    AcquireStep<F>,
) {
    match outcome {
        AcquireOutcome::Acquired { image_index, suboptimal } => (
            SwapchainStateView {
                recreate_swapchain: v.recreate_swapchain || suboptimal,
                image_index: image_index,
                current_frame: v.current_frame,
                previous_frame_ends: v.previous_frame_ends.update(v.current_frame, None),
            },
            AcquireStep::Proceed { previous_frame_end: v.previous_frame_ends[v.current_frame] },
        ),
        AcquireOutcome::OutOfDate => (
            SwapchainStateView { recreate_swapchain: true, ..v },
            AcquireStep::SkipFrame,
        ),
        AcquireOutcome::Failed => (v, AcquireStep::Fatal),
    }
}

/// The state and step after flushing a present reported `outcome`.
pub open spec fn spec_finish_present<F>(v: SwapchainStateView<F>, outcome: PresentOutcome<F>) -> (
    SwapchainStateView<F>,
    PresentStep,
) {
    match outcome {
        PresentOutcome::Flushed(fence) => (
            SwapchainStateView {
                recreate_swapchain: v.recreate_swapchain,
                image_index: v.image_index,
                current_frame: next_frame_index(v.current_frame),
                previous_frame_ends: v.previous_frame_ends.update(v.current_frame, Some(fence)),
            },
            PresentStep::Presented,
        ),
        PresentOutcome::OutOfDate => (
            SwapchainStateView {
                recreate_swapchain: true,
                image_index: v.image_index,
                current_frame: next_frame_index(v.current_frame),
                previous_frame_ends: v.previous_frame_ends.update(v.current_frame, None),
            },
            PresentStep::Presented,
        ),
        PresentOutcome::Failed => (v, PresentStep::Fatal),
    }
}

/// The bookkeeping of a swapchain across frames: whether it must be rebuilt,
/// the acquired image, the frame slot in use and each slot's last fence.
pub struct SwapchainState<F> {
    recreate_swapchain: bool,
    image_index: u32,
    current_frame: usize,
    previous_frame_ends: Vec<Option<F>>,
}

impl<F> View for SwapchainState<F> {
    type V = SwapchainStateView<F>;

    closed spec fn view(&self) -> SwapchainStateView<F> {
        SwapchainStateView {
            recreate_swapchain: self.recreate_swapchain,
            image_index: self.image_index,
            current_frame: self.current_frame as int,
            previous_frame_ends: self.previous_frame_ends@,
        }
    }
}

impl<F> SwapchainState<F> {
    /// A fresh swapchain: nothing to rebuild, image 0, frame slot 0, no fences.
    pub fn new() -> (state: Self)
        ensures
            state@.wf(),
            !state@.recreate_swapchain,
            state@.image_index == 0,
            state@.current_frame == 0,
            forall|i: int| 0 <= i < FRAMES_IN_FLIGHT ==> #[trigger] state@.previous_frame_ends[i] is None,
    {
        let mut ends: Vec<Option<F>> = Vec::new();
        let mut i: usize = 0;
        while i < FRAMES_IN_FLIGHT
            invariant
                i <= FRAMES_IN_FLIGHT,
                ends@.len() == i,
                forall|j: int| 0 <= j < i ==> #[trigger] ends@[j] is None,
            decreases FRAMES_IN_FLIGHT - i,
        {
            ends.push(None);
            i = i + 1;
        }
        SwapchainState {
            recreate_swapchain: false,
            image_index: 0,
            current_frame: 0,
            previous_frame_ends: ends,
        }
    }

    /// Asks for the swapchain to be rebuilt before the next acquire.
    pub fn request_recreate(&mut self)
        requires
            old(self)@.wf(),
        ensures
            final(self)@ == spec_request_recreate(old(self)@),
            final(self)@.wf(),
    {
        self.recreate_swapchain = true;
    }

    /// Takes a pending rebuild request: returns whether the swapchain must be
    /// rebuilt now, and clears the request.
    pub fn begin_acquire(&mut self) -> (rebuild: bool)
        requires
            old(self)@.wf(),
        ensures
            (final(self)@, rebuild) == spec_begin_acquire(old(self)@),
            final(self)@.wf(),
    {
        let rebuild = self.recreate_swapchain;
        self.recreate_swapchain = false;
        rebuild
    }

    /// Records what the acquire reported and says how the frame goes on.
    pub fn finish_acquire(&mut self, outcome: AcquireOutcome) -> (step: AcquireStep<F>)
        requires
            old(self)@.wf(),
        ensures
            (final(self)@, step) == spec_finish_acquire(old(self)@, outcome),
            final(self)@.wf(),
    {
        match outcome {
            AcquireOutcome::Acquired { image_index, suboptimal } => {
                if suboptimal {
                    self.recreate_swapchain = true;
                }
                self.image_index = image_index;
                let cur: usize = self.current_frame;
                let previous_frame_end = self.previous_frame_ends[cur].take();
                AcquireStep::Proceed { previous_frame_end }
            },
            AcquireOutcome::OutOfDate => {
                self.recreate_swapchain = true;
                AcquireStep::SkipFrame
            },
            AcquireOutcome::Failed => AcquireStep::Fatal,
        }
    }

    /// Records what flushing the present reported and moves to the next frame
    /// slot, unless the error is fatal.
    pub fn finish_present(&mut self, outcome: PresentOutcome<F>) -> (step: PresentStep)
        requires
            old(self)@.wf(),
        ensures
            (final(self)@, step) == spec_finish_present(old(self)@, outcome),
            final(self)@.wf(),
    {
        let cur: usize = self.current_frame;
        match outcome {
            PresentOutcome::Flushed(fence) => {
                self.previous_frame_ends.set(cur, Some(fence));
            },
            PresentOutcome::OutOfDate => {
                self.recreate_swapchain = true;
                self.previous_frame_ends.set(cur, None);
            },
            PresentOutcome::Failed => {
                return PresentStep::Fatal;
            },
        }
        self.current_frame = (cur + 1) % FRAMES_IN_FLIGHT;
        PresentStep::Presented
    }

    /// The frame slot in use.
    pub fn current_frame(&self) -> (frame: usize)
        ensures
            frame == self@.current_frame,
    {
        self.current_frame
    }

    /// The image acquired last.
    pub fn image_index(&self) -> (index: u32)
        ensures
            index == self@.image_index,
    {
        self.image_index
    }

    /// Whether a rebuild is pending.
    pub fn recreate_requested(&self) -> (pending: bool)
        ensures
            pending == self@.recreate_swapchain,
    {
        self.recreate_swapchain
    }

    /// The fence of the last frame submitted from the current slot, if it is
    /// still held.
    pub fn current_frame_end(&self) -> (fence: Option<&F>)
        requires
            self@.wf(),
        ensures
            fence is Some <==> self@.previous_frame_ends[self@.current_frame] is Some,
            fence matches Some(f) ==> self@.previous_frame_ends[self@.current_frame] == Some(*f),
    {
        self.previous_frame_ends[self.current_frame].as_ref()
    }
}


// ---------------------------------------------------------------------------
// Laws of the frame state machine
// ---------------------------------------------------------------------------

/// Every transition keeps one fence slot per frame in flight and a current
/// frame among them.
pub proof fn law_transitions_keep_wf<F>(
    v: SwapchainStateView<F>,
    acquired: AcquireOutcome,
    presented: PresentOutcome<F>,
)
    requires
        v.wf(),
    ensures
        spec_request_recreate(v).wf(),
        spec_begin_acquire(v).0.wf(),
        spec_finish_acquire(v, acquired).0.wf(),
        spec_finish_present(v, presented).0.wf(),
{
}

/// The frame slots are used in turn: after as many presents as there are
/// frames in flight, the renderer is back at the slot it started from.
pub proof fn law_frame_slots_cycle(frame: int)
    requires
        0 <= frame < FRAMES_IN_FLIGHT,
    ensures
        0 <= next_frame_index(frame) < FRAMES_IN_FLIGHT,
        next_frame_index(frame) != frame,
        next_frame_index(next_frame_index(frame)) == frame,
{
}

/// A resize is honoured: the next acquire rebuilds the swapchain.
pub proof fn law_resize_rebuilds_at_next_acquire<F>(v: SwapchainStateView<F>)
    ensures
        spec_begin_acquire(spec_request_recreate(v)).1,
{
}

/// A rebuild request is taken once: a second acquire does not rebuild again
/// unless something asked for it in between.
pub proof fn law_rebuild_request_taken_once<F>(v: SwapchainStateView<F>)
    ensures
        !spec_begin_acquire(spec_begin_acquire(v).0).1,
{
}

/// An out-of-date swapchain at acquire skips the frame and is rebuilt at the
/// next acquire.
pub proof fn law_out_of_date_acquire_skips_and_rebuilds<F>(v: SwapchainStateView<F>)
    ensures
        spec_finish_acquire(v, AcquireOutcome::OutOfDate).1 is SkipFrame,
        spec_begin_acquire(spec_finish_acquire(v, AcquireOutcome::OutOfDate).0).1,
{
}

/// A suboptimal image is still drawn, and the swapchain is rebuilt at the
/// next acquire.
pub proof fn law_suboptimal_draws_then_rebuilds<F>(v: SwapchainStateView<F>, image_index: u32)
    ensures
        ({
            let (after, step) = spec_finish_acquire(
                v,
                AcquireOutcome::Acquired { image_index, suboptimal: true },
            );
            &&& step is Proceed
            &&& after.image_index == image_index
            &&& spec_begin_acquire(after).1
        }),
{
}

/// An out-of-date swapchain at present drops the frame's fence, moves on to
/// the next slot and is rebuilt at the next acquire.
pub proof fn law_out_of_date_present_rebuilds<F>(v: SwapchainStateView<F>)
    requires
        v.wf(),
    ensures
        ({
            let (after, step) = spec_finish_present(v, PresentOutcome::OutOfDate);
            &&& step is Presented
            &&& after.current_frame == next_frame_index(v.current_frame)
            &&& after.previous_frame_ends[v.current_frame] is None
            &&& spec_begin_acquire(after).1
        }),
{
}

/// A frame presents the image it acquired: presenting does not change the
/// acquired image, whatever the present reports.
pub proof fn law_present_targets_acquired_image<F>(
    v: SwapchainStateView<F>,
    image_index: u32,
    suboptimal: bool,
    presented: PresentOutcome<F>,
)
    ensures
        ({
            let (acquired, _) = spec_finish_acquire(v, AcquireOutcome::Acquired { image_index, suboptimal });
            &&& acquired.image_index == image_index
            &&& spec_finish_present(acquired, presented).0.image_index == image_index
        }),
{
}

/// A fatal error changes nothing.
pub proof fn law_fatal_errors_change_nothing<F>(v: SwapchainStateView<F>)
    ensures
        spec_finish_acquire(v, AcquireOutcome::Failed) == (v, AcquireStep::<F>::Fatal),
        spec_finish_present(v, PresentOutcome::<F>::Failed) == (v, PresentStep::Fatal),
{
}

/// Right after an image is acquired, the current slot holds no fence (it was
/// handed to the frame being recorded), so waiting on it does nothing.
pub proof fn law_acquire_empties_current_slot<F>(v: SwapchainStateView<F>, outcome: AcquireOutcome)
    requires
        v.wf(),
        outcome is Acquired,
    ensures
        spec_finish_acquire(v, outcome).0.previous_frame_ends[v.current_frame] is None,
        spec_finish_acquire(v, outcome).0.current_frame == v.current_frame,
{
}

/// A frame's fence is kept until its slot comes round again: the fence of a
/// flushed frame is what the acquire on the same slot, one full cycle later,
/// hands back to be waited on; the frame in between does not touch it.
pub proof fn law_fence_returned_one_cycle_later<F>(
    v: SwapchainStateView<F>,
    fence: F,
    other_fence: F,
    first_image: u32,
    second_image: u32,
)
    requires
        v.wf(),
    ensures
        ({
            let (v1, _) = spec_finish_present(v, PresentOutcome::Flushed(fence));
            let (v2, _) = spec_finish_acquire(
                spec_begin_acquire(v1).0,
                AcquireOutcome::Acquired { image_index: first_image, suboptimal: false },
            );
            let (v3, _) = spec_finish_present(v2, PresentOutcome::Flushed(other_fence));
            let (v4, step) = spec_finish_acquire(
                spec_begin_acquire(v3).0,
                AcquireOutcome::Acquired { image_index: second_image, suboptimal: false },
            );
            &&& v3.current_frame == v.current_frame
            &&& step == AcquireStep::Proceed { previous_frame_end: Some(fence) }
            &&& v4.image_index == second_image
        }),
{
    let (v1, _) = spec_finish_present(v, PresentOutcome::Flushed(fence));
    assert(v1.previous_frame_ends[v.current_frame] == Some(fence));
    assert(v1.current_frame != v.current_frame);
}


// ---------------------------------------------------------------------------
// What each transition does, field by field
// ---------------------------------------------------------------------------

/// Asking for a rebuild sets the request and touches nothing else.
pub proof fn law_request_recreate_sets_only_the_request<F>(v: SwapchainStateView<F>)
    ensures
        spec_request_recreate(v).recreate_swapchain,
        spec_request_recreate(v).image_index == v.image_index,
        spec_request_recreate(v).current_frame == v.current_frame,
        spec_request_recreate(v).previous_frame_ends == v.previous_frame_ends,
{
}

/// Beginning an acquire reports whether a rebuild was pending, clears the
/// request, and touches nothing else.
pub proof fn law_begin_acquire_takes_the_request<F>(v: SwapchainStateView<F>)
    ensures
        spec_begin_acquire(v).1 == v.recreate_swapchain,
        !spec_begin_acquire(v).0.recreate_swapchain,
        spec_begin_acquire(v).0.image_index == v.image_index,
        spec_begin_acquire(v).0.current_frame == v.current_frame,
        spec_begin_acquire(v).0.previous_frame_ends == v.previous_frame_ends,
{
}

/// A successful acquire, suboptimal or not, records the image, stays on the
/// same frame slot, hands back the fence that slot held (the last frame that
/// used it) and empties that slot, leaving the other slots as they were.
pub proof fn law_acquire_hands_back_slot_fence<F>(
    v: SwapchainStateView<F>,
    image_index: u32,
    suboptimal: bool,
)
    requires
        v.wf(),
    ensures
        ({
            let (after, step) = spec_finish_acquire(v, AcquireOutcome::Acquired { image_index, suboptimal });
            &&& step == AcquireStep::Proceed { previous_frame_end: v.previous_frame_ends[v.current_frame] }
            &&& after.image_index == image_index
            &&& after.current_frame == v.current_frame
            &&& after.previous_frame_ends.len() == v.previous_frame_ends.len()
            &&& after.previous_frame_ends[v.current_frame] is None
            &&& forall|i: int|
                0 <= i < v.previous_frame_ends.len() && i != v.current_frame
                    ==> #[trigger] after.previous_frame_ends[i] == v.previous_frame_ends[i]
        }),
{
}

/// A rebuild is asked for by a suboptimal image and only by it: an optimal
/// image leaves the request as it was, a suboptimal one sets it.
pub proof fn law_acquire_flags_rebuild_only_when_suboptimal<F>(
    v: SwapchainStateView<F>,
    image_index: u32,
    suboptimal: bool,
)
    ensures
        !suboptimal ==> spec_finish_acquire(
            v,
            AcquireOutcome::Acquired { image_index, suboptimal },
        ).0.recreate_swapchain == v.recreate_swapchain,
        suboptimal ==> spec_finish_acquire(
            v,
            AcquireOutcome::Acquired { image_index, suboptimal },
        ).0.recreate_swapchain,
{
}

/// From a state with no pending rebuild, an optimal image leads to no rebuild
/// at the next acquire.
pub proof fn law_optimal_image_needs_no_rebuild<F>(v: SwapchainStateView<F>, image_index: u32)
    ensures
        !spec_begin_acquire(
            spec_finish_acquire(
                spec_begin_acquire(v).0,
                AcquireOutcome::Acquired { image_index, suboptimal: false },
            ).0,
        ).1,
{
}

/// An out-of-date acquire changes only the rebuild request, which it sets.
pub proof fn law_out_of_date_acquire_changes_only_the_request<F>(v: SwapchainStateView<F>)
    ensures
        spec_finish_acquire(v, AcquireOutcome::OutOfDate).0.recreate_swapchain,
        spec_finish_acquire(v, AcquireOutcome::OutOfDate).0.image_index == v.image_index,
        spec_finish_acquire(v, AcquireOutcome::OutOfDate).0.current_frame == v.current_frame,
        spec_finish_acquire(v, AcquireOutcome::OutOfDate).0.previous_frame_ends == v.previous_frame_ends,
{
}

/// A flushed present stores its fence in the current slot, moves to the next
/// slot, keeps the other slots, the acquired image and the rebuild request as
/// they were.
pub proof fn law_flushed_present_stores_fence_and_keeps_request<F>(v: SwapchainStateView<F>, fence: F)
    requires
        v.wf(),
    ensures
        ({
            let (after, step) = spec_finish_present(v, PresentOutcome::Flushed(fence));
            &&& step == PresentStep::Presented
            &&& after.recreate_swapchain == v.recreate_swapchain
            &&& after.image_index == v.image_index
            &&& after.current_frame == (v.current_frame + 1) % (FRAMES_IN_FLIGHT as int)
            &&& after.previous_frame_ends.len() == v.previous_frame_ends.len()
            &&& after.previous_frame_ends[v.current_frame] == Some(fence)
            &&& forall|i: int|
                0 <= i < v.previous_frame_ends.len() && i != v.current_frame
                    ==> #[trigger] after.previous_frame_ends[i] == v.previous_frame_ends[i]
        }),
{
}

/// A rebuild asked for by a suboptimal image survives a successful present:
/// the next acquire rebuilds the swapchain.
pub proof fn law_suboptimal_rebuild_survives_present<F>(
    v: SwapchainStateView<F>,
    image_index: u32,
    fence: F,
)
    requires
        v.wf(),
    ensures
        ({
            let (acquired, _) = spec_finish_acquire(
                spec_begin_acquire(v).0,
                AcquireOutcome::Acquired { image_index, suboptimal: true },
            );
            let (presented, _) = spec_finish_present(acquired, PresentOutcome::Flushed(fence));
            &&& presented.recreate_swapchain
            &&& spec_begin_acquire(presented).1
        }),
{
}

/// An out-of-date present drops the current slot's fence, moves to the next
/// slot, sets the rebuild request and keeps the other slots and the image.
pub proof fn law_out_of_date_present_drops_fence<F>(v: SwapchainStateView<F>)
    requires
        v.wf(),
    ensures
        ({
            let (after, step) = spec_finish_present(v, PresentOutcome::OutOfDate);
            &&& step == PresentStep::Presented
            &&& after.recreate_swapchain
            &&& after.image_index == v.image_index
            &&& after.current_frame == (v.current_frame + 1) % (FRAMES_IN_FLIGHT as int)
            &&& after.previous_frame_ends.len() == v.previous_frame_ends.len()
            &&& after.previous_frame_ends[v.current_frame] is None
            &&& forall|i: int|
                0 <= i < v.previous_frame_ends.len() && i != v.current_frame
                    ==> #[trigger] after.previous_frame_ends[i] == v.previous_frame_ends[i]
        }),
{
}

// ---------------------------------------------------------------------------
// What the choices prefer
// ---------------------------------------------------------------------------

/// Mailbox is preferred to Fifo, Fifo to every other mode, and all other
/// modes are equal; so Mailbox wins whenever it is offered, and Fifo whenever
/// it is offered without Mailbox.
pub proof fn law_present_mode_preferences(modes: Seq<PresentModeKind>, other: PresentModeKind)
    requires
        other != PresentModeKind::Mailbox,
        other != PresentModeKind::Fifo,
    ensures
        present_mode_rank(PresentModeKind::Mailbox) < present_mode_rank(PresentModeKind::Fifo),
        present_mode_rank(PresentModeKind::Fifo) < present_mode_rank(other),
        present_mode_rank(other) == present_mode_rank(PresentModeKind::Immediate),
        modes.contains(PresentModeKind::Mailbox) ==> spec_choose_present_mode(modes) == PresentModeKind::Mailbox,
        !modes.contains(PresentModeKind::Mailbox) && modes.contains(PresentModeKind::Fifo)
            ==> spec_choose_present_mode(modes) == PresentModeKind::Fifo,
        modes.len() == 0 ==> spec_choose_present_mode(modes) == PresentModeKind::Fifo,
{
}

/// The preferred surface format is exactly `B8G8R8A8_SRGB` (Vulkan code 50)
/// in the `EXTENDED_SRGB_NONLINEAR` color space (code 1000104014); a list
/// whose first pair is preferred yields index 0.
pub proof fn law_preferred_surface_format(f: SurfaceFormat, formats: Seq<SurfaceFormat>)
    ensures
        is_preferred_surface_format(f) <==> (f.format == 50 && f.color_space == 1000104014),
        formats.len() > 0 ==> is_chosen_surface_format(formats, 0) == (is_preferred_surface_format(formats[0])
            || forall|j: int| 0 <= j < formats.len() ==> !is_preferred_surface_format(#[trigger] formats[j])),
{
}

/// The first composite alpha mode is a supported one, and no supported mode
/// comes before it in bit order; none is found only when none of the four
/// bits is set.
pub proof fn law_first_composite_alpha_is_lowest_bit(supported: u32)
    ensures
        spec_first_composite_alpha(supported) is None <==> supported & 0xf == 0,
        spec_first_composite_alpha(supported) == Some(CompositeAlphaKind::Opaque) <==> supported & 1 != 0,
        spec_first_composite_alpha(supported) == Some(CompositeAlphaKind::PreMultiplied) <==> (supported & 1 == 0
            && supported & 2 != 0),
        spec_first_composite_alpha(supported) == Some(CompositeAlphaKind::PostMultiplied) <==> (supported & 3 == 0
            && supported & 4 != 0),
        spec_first_composite_alpha(supported) == Some(CompositeAlphaKind::Inherit) <==> (supported & 7 == 0
            && supported & 8 != 0),
{
    assert(supported & 0xf == 0 <==> (supported & 1 == 0 && supported & 2 == 0 && supported & 4 == 0
        && supported & 8 == 0)) by (bit_vector);
    assert(supported & 3 == 0 <==> (supported & 1 == 0 && supported & 2 == 0)) by (bit_vector);
    assert(supported & 7 == 0 <==> (supported & 1 == 0 && supported & 2 == 0 && supported & 4 == 0))
        by (bit_vector);
}

// ---------------------------------------------------------------------------
// Runs of calls
// ---------------------------------------------------------------------------

/// One call on the frame state machine, with what the outside work reported.
pub enum FrameCall<F> {
    RequestRecreate,
    BeginAcquire,
    FinishAcquire(AcquireOutcome),
    FinishPresent(PresentOutcome<F>),
}

/// The state after one call.
pub open spec fn spec_step<F>(v: SwapchainStateView<F>, call: FrameCall<F>) -> SwapchainStateView<F> {
    match call {
        FrameCall::RequestRecreate => spec_request_recreate(v),
        FrameCall::BeginAcquire => spec_begin_acquire(v).0,
        FrameCall::FinishAcquire(outcome) => spec_finish_acquire(v, outcome).0,
        FrameCall::FinishPresent(outcome) => spec_finish_present(v, outcome).0,
    }
}

/// The state after a run of calls, in order.
pub open spec fn spec_run<F>(v: SwapchainStateView<F>, calls: Seq<FrameCall<F>>) -> SwapchainStateView<F>
    decreases calls.len(),
{
    if calls.len() == 0 {
        v
    } else {
        spec_step(spec_run(v, calls.drop_last()), calls.last())
    }
}

/// A call whose outcome is an error the renderer cannot recover from.
pub open spec fn call_is_fatal<F>(call: FrameCall<F>) -> bool {
    ||| call matches FrameCall::FinishAcquire(AcquireOutcome::Failed)
    ||| call matches FrameCall::FinishPresent(PresentOutcome::Failed)
}

/// How many presents a run of calls holds.
pub open spec fn present_count<F>(calls: Seq<FrameCall<F>>) -> nat
    decreases calls.len(),
{
    if calls.len() == 0 {
        0
    } else {
        present_count(calls.drop_last()) + if calls.last() is FinishPresent {
            1nat
        } else {
            0nat
        }
    }
}

/// Over any run of calls with no fatal error, the state stays well formed and
/// the frame slot moves on by one per present, modulo the frames in flight.
pub proof fn law_frame_slot_counts_presents<F>(v: SwapchainStateView<F>, calls: Seq<FrameCall<F>>)
    requires
        v.wf(),
        forall|i: int| 0 <= i < calls.len() ==> !call_is_fatal(#[trigger] calls[i]),
    ensures
        spec_run(v, calls).wf(),
        spec_run(v, calls).current_frame == (v.current_frame + present_count(calls)) % (
        FRAMES_IN_FLIGHT as int),
    decreases calls.len(),
{
    if calls.len() > 0 {
        let prefix = calls.drop_last();
        assert forall|i: int| 0 <= i < prefix.len() implies !call_is_fatal(#[trigger] prefix[i]) by {
            assert(prefix[i] == calls[i]);
        }
        law_frame_slot_counts_presents(v, prefix);
        let before = spec_run(v, prefix);
        let k = present_count(prefix);
        assert(!call_is_fatal(calls[calls.len() - 1]));
        assert(before.current_frame == (v.current_frame + k) % 2);
        if calls.last() is FinishPresent {
            assert(((v.current_frame + k) % 2 + 1) % 2 == (v.current_frame + k + 1) % 2);
        }
    }
}

/// From a fresh swapchain, after any run of calls with no fatal error, the
/// frame slot in use is the number of presents modulo the frames in flight.
pub proof fn law_frame_slot_from_fresh_state<F>(v: SwapchainStateView<F>, calls: Seq<FrameCall<F>>)
    requires
        v.wf(),
        v.current_frame == 0,
        forall|i: int| 0 <= i < calls.len() ==> !call_is_fatal(#[trigger] calls[i]),
    ensures
        spec_run(v, calls).wf(),
        spec_run(v, calls).current_frame == (present_count(calls) as int) % (FRAMES_IN_FLIGHT as int),
{
    law_frame_slot_counts_presents(v, calls);
}

} // verus!
