use vstd::prelude::*;

verus! {

/// How acquiring the next swapchain image went.
#[derive(Debug, Clone, Copy, PartialEq, Eq, Structural)]
pub enum AcquireResult {
    /// An image was acquired; `suboptimal` when the swapchain no longer
    /// matches the surface exactly.
    Acquired { image_index: u32, suboptimal: bool },
    /// The swapchain is out of date.
    OutOfDate,
    /// Acquiring failed with this Vulkan result code.
    Failed(i32),
}

/// What a frame does after acquiring.
#[derive(Debug, Clone, Copy, PartialEq, Eq, Structural)]
pub enum AcquireAction {
    /// Record and submit into this image.
    Render { image_index: u32 },
    /// Give up this frame and report that the swapchain needs recreating.
    SkipFrame,
    /// Fail the frame with this Vulkan result code.
    Fail(i32),
}

/// What a frame does with the result of acquiring an image.
pub open spec fn acquire_decision(result: AcquireResult) -> AcquireAction {
    match result {
        AcquireResult::Acquired { image_index, suboptimal } => if suboptimal {
            AcquireAction::SkipFrame
        } else {
            AcquireAction::Render { image_index }
        },
        AcquireResult::OutOfDate => AcquireAction::SkipFrame,
        AcquireResult::Failed(code) => AcquireAction::Fail(code),
    }
}

/// Decide what a frame does with the result of acquiring an image: render into
/// it when acquired and optimal; skip the frame, asking for a new swapchain,
/// when suboptimal or out of date; fail on any other error.
pub fn acquire_action(result: AcquireResult) -> (a: AcquireAction)
    ensures
        a == acquire_decision(result),
{
    match result {
        AcquireResult::Acquired { image_index, suboptimal: false } => AcquireAction::Render { image_index },
        AcquireResult::Acquired { suboptimal: true, .. } | AcquireResult::OutOfDate => AcquireAction::SkipFrame,
        AcquireResult::Failed(code) => AcquireAction::Fail(code),
    }
}

/// How presenting an image went.
#[derive(Debug, Clone, Copy, PartialEq, Eq, Structural)]
pub enum PresentResult {
    /// The image was queued; `suboptimal` as for acquiring.
    Presented { suboptimal: bool },
    /// The swapchain is out of date.
    OutOfDate,
    /// Presenting failed with this Vulkan result code.
    Failed(i32),
}

/// What a frame does after presenting.
#[derive(Debug, Clone, Copy, PartialEq, Eq, Structural)]
pub enum PresentAction {
    /// Move on to the next frame slot.
    Advance,
    /// Recreate the swapchain, then move on to the next frame slot.
    RecreateThenAdvance,
    /// Fail the frame with this Vulkan result code.
    Fail(i32),
}

/// What a frame does with the result of presenting.
pub open spec fn present_decision(result: PresentResult) -> PresentAction {
    match result {
        PresentResult::Presented { suboptimal } => if suboptimal {
            PresentAction::RecreateThenAdvance
        } else {
            PresentAction::Advance
        },
        PresentResult::OutOfDate => PresentAction::RecreateThenAdvance,
        PresentResult::Failed(code) => PresentAction::Fail(code),
    }
}

/// Decide what a frame does with the result of presenting: recreate the
/// swapchain when it is suboptimal or out of date, fail on any other error.
pub fn present_action(result: PresentResult) -> (a: PresentAction)
    ensures
        a == present_decision(result),
{
    match result {
        PresentResult::Presented { suboptimal: false } => PresentAction::Advance,
        PresentResult::Presented { suboptimal: true } | PresentResult::OutOfDate => PresentAction::RecreateThenAdvance,
        PresentResult::Failed(code) => PresentAction::Fail(code),
    }
}

/// After the swapchain was recreated: the command buffers are re-allocated
/// when their number differs from the new image count.
pub fn needs_command_buffers(allocated: usize, image_count: u32) -> (realloc: bool)
    ensures
        realloc == (allocated != image_count),
{
    allocated != image_count as usize
}

/// The slot after `slot` when there are `frames` slots.
pub open spec fn next_slot(slot: int, frames: int) -> int {
    (slot + 1) % frames
}

/// The slot reached from `slot` after `n` completed frames.
pub open spec fn slot_after(slot: int, frames: int, n: nat) -> int
    decreases n,
{
    if n == 0 {
        slot
    } else {
        next_slot(slot_after(slot, frames, (n - 1) as nat), frames)
    }
}

/// Where the drawing of a frame stands.
#[derive(Debug, Clone, Copy, PartialEq, Eq, Structural)]
pub enum FramePhase {
    /// No frame is being drawn.
    Idle,
    /// Rebuilding a swapchain that an earlier frame found out of date.
    RebuildingFirst,
    /// Waiting for the previous use of the frame slot to finish.
    AwaitingFence,
    /// Acquiring the next swapchain image.
    Acquiring,
    /// Recording the commands that draw into this image.
    Recording { image: u32 },
    /// Submitting the recorded commands.
    Submitting { image: u32 },
    /// Presenting this image.
    Presenting { image: u32 },
    /// Rebuilding a swapchain that presenting found suboptimal or out of date.
    RebuildingAfterPresent,
}

/// What happened in the step the renderer last took.
#[derive(Debug, Clone, Copy, PartialEq, Eq, Structural)]
pub enum FrameEvent {
    /// A new frame is asked for.
    Begin,
    /// The swapchain was rebuilt; the renderer now holds this many command
    /// buffers and framebuffers.
    SwapchainRebuilt { command_buffers: usize, framebuffers: usize },
    /// Rebuilding the swapchain was skipped: the window is minimized.
    RebuildSkipped,
    /// The frame slot's fence signaled.
    FenceSignaled,
    /// Acquiring an image gave this result.
    Acquired(AcquireResult),
    /// The commands were recorded.
    Recorded,
    /// The commands were submitted.
    Submitted,
    /// Presenting gave this result.
    Presented(PresentResult),
    /// The step failed (its error is reported by the renderer itself).
    StepFailed,
}

/// The step the renderer takes next.
#[derive(Debug, Clone, Copy, PartialEq, Eq, Structural)]
pub enum FrameAction {
    /// Rebuild the swapchain (and what depends on it).
    RebuildSwapchain,
    /// Wait for the fence of this frame slot.
    WaitFence { slot: usize },
    /// Acquire an image, signaling this slot's semaphore.
    Acquire { slot: usize },
    /// Reset this slot's fence and record its commands into this image.
    Record { slot: usize, image: u32 },
    /// Submit this slot's commands.
    Submit { slot: usize, image: u32 },
    /// Present this image once this slot's rendering is done.
    Present { slot: usize, image: u32 },
    /// The frame is over; `needs_recreate` when the swapchain still needs recreating.
    Finish { needs_recreate: bool },
    /// The frame failed with this Vulkan result code.
    Fail(i32),
    /// The frame was given up after a failed step.
    Abandon,
}

/// The state of the frame loop.
#[derive(Debug, Clone, Copy, PartialEq, Eq, Structural)]
pub struct FrameState {
    pub phase: FramePhase,
    /// The slot of the frame being drawn, or of the next one.
    pub slot: usize,
    /// The number of frames in flight.
    pub frames: usize,
    /// The number of command buffers (one per swapchain image).
    pub command_buffers: usize,
    /// The number of framebuffers (one per swapchain image view).
    pub framebuffers: usize,
    /// An earlier frame found the swapchain out of date and it is not rebuilt yet.
    pub rebuild_pending: bool,
}

/// The events the frame loop accepts in a phase.
pub open spec fn accepts(phase: FramePhase, e: FrameEvent) -> bool {
    match phase {
        FramePhase::Idle => e == FrameEvent::Begin,
        FramePhase::RebuildingFirst | FramePhase::RebuildingAfterPresent => e is SwapchainRebuilt
            || e == FrameEvent::RebuildSkipped || e == FrameEvent::StepFailed,
        FramePhase::AwaitingFence => e == FrameEvent::FenceSignaled || e == FrameEvent::StepFailed,
        FramePhase::Acquiring => e is Acquired || e == FrameEvent::StepFailed,
        FramePhase::Recording { .. } => e == FrameEvent::Recorded || e == FrameEvent::StepFailed,
        FramePhase::Submitting { .. } => e == FrameEvent::Submitted || e == FrameEvent::StepFailed,
        FramePhase::Presenting { .. } => e is Presented || e == FrameEvent::StepFailed,
    }
}

/// The inputs on which drawing indexes within the renderer's resources: a
/// frame indexes the command buffer of its slot and the framebuffer of its
/// image (where an out-of-range index panics). So a frame that starts without
/// a rebuild needs a command buffer for its slot, one that starts by
/// rebuilding needs it after the rebuild, and an acquired image needs a
/// framebuffer.
pub open spec fn in_range(s: FrameState, e: FrameEvent) -> bool {
    match (s.phase, e) {
        (FramePhase::Idle, FrameEvent::Begin) => s.rebuild_pending || s.slot < s.command_buffers,
        (FramePhase::RebuildingFirst, FrameEvent::SwapchainRebuilt { command_buffers, .. }) => s.slot < command_buffers,
        (FramePhase::Acquiring, FrameEvent::Acquired(r)) => acquire_decision(r) matches AcquireAction::Render {
            image_index,
        } ==> image_index < s.framebuffers,
        _ => true,
    }
}

/// `s` in phase `phase`.
pub open spec fn in_phase(s: FrameState, phase: FramePhase) -> FrameState {
    FrameState { phase, ..s }
}

/// `s` idle again, its slot moved on to the next one.
pub open spec fn advanced(s: FrameState, rebuild_pending: bool) -> FrameState {
    FrameState {
        phase: FramePhase::Idle,
        slot: next_slot(s.slot as int, s.frames as int) as usize,
        rebuild_pending,
        ..s
    }
}

/// One step of the frame loop: the state after event `e`, and the action to take.
///
/// A frame waits for its slot's fence, acquires an image, records, submits and
/// presents, in this order. A swapchain found out of date when acquiring skips
/// the frame (nothing is recorded or submitted) and is rebuilt at the start of
/// the next frame; one found suboptimal or out of date when presenting is
/// rebuilt right away. The frame reports that the swapchain needs recreating
/// while a rebuild is still owed (skipped because the window is minimized).
/// Only a presented frame moves the slot on; a skipped or failed one keeps it.
pub open spec fn frame_step(s: FrameState, e: FrameEvent) -> (FrameState, FrameAction) {
    match (s.phase, e) {
        (FramePhase::Idle, FrameEvent::Begin) => if s.rebuild_pending {
            (in_phase(s, FramePhase::RebuildingFirst), FrameAction::RebuildSwapchain)
        } else {
            (in_phase(s, FramePhase::AwaitingFence), FrameAction::WaitFence { slot: s.slot })
        },
        (FramePhase::RebuildingFirst, FrameEvent::SwapchainRebuilt { command_buffers, framebuffers }) => (
            FrameState { phase: FramePhase::AwaitingFence, rebuild_pending: false, command_buffers, framebuffers, ..s },
            FrameAction::WaitFence { slot: s.slot },
        ),
        (FramePhase::RebuildingFirst, FrameEvent::RebuildSkipped) => (
            in_phase(s, FramePhase::Idle),
            FrameAction::Finish { needs_recreate: true },
        ),
        (FramePhase::AwaitingFence, FrameEvent::FenceSignaled) => (
            in_phase(s, FramePhase::Acquiring),
            FrameAction::Acquire { slot: s.slot },
        ),
        (FramePhase::Acquiring, FrameEvent::Acquired(r)) => match acquire_decision(r) {
            AcquireAction::Render { image_index } => (
                in_phase(s, FramePhase::Recording { image: image_index }),
                FrameAction::Record { slot: s.slot, image: image_index },
            ),
            AcquireAction::SkipFrame => (
                FrameState { phase: FramePhase::Idle, rebuild_pending: true, ..s },
                FrameAction::Finish { needs_recreate: true },
            ),
            AcquireAction::Fail(code) => (in_phase(s, FramePhase::Idle), FrameAction::Fail(code)),
        },
        (FramePhase::Recording { image }, FrameEvent::Recorded) => (
            in_phase(s, FramePhase::Submitting { image }),
            FrameAction::Submit { slot: s.slot, image },
        ),
        (FramePhase::Submitting { image }, FrameEvent::Submitted) => (
            in_phase(s, FramePhase::Presenting { image }),
            FrameAction::Present { slot: s.slot, image },
        ),
        (FramePhase::Presenting { .. }, FrameEvent::Presented(r)) => match present_decision(r) {
            PresentAction::Advance => (advanced(s, s.rebuild_pending), FrameAction::Finish { needs_recreate: false }),
            PresentAction::RecreateThenAdvance => (
                in_phase(s, FramePhase::RebuildingAfterPresent),
                FrameAction::RebuildSwapchain,
            ),
            PresentAction::Fail(code) => (in_phase(s, FramePhase::Idle), FrameAction::Fail(code)),
        },
        (FramePhase::RebuildingAfterPresent, FrameEvent::SwapchainRebuilt { command_buffers, framebuffers }) => (
            advanced(FrameState { command_buffers, framebuffers, ..s }, false),
            FrameAction::Finish { needs_recreate: false },
        ),
        (FramePhase::RebuildingAfterPresent, FrameEvent::RebuildSkipped) => (
            advanced(s, true),
            FrameAction::Finish { needs_recreate: true },
        ),
        (_, FrameEvent::StepFailed) => (in_phase(s, FramePhase::Idle), FrameAction::Abandon),
        _ => (s, FrameAction::Abandon),
    }
}

/// The states the loop can be in: the slot is below the number of frames; a
/// frame that starts by rebuilding does so because a rebuild is owed; once a
/// frame is under way no rebuild is owed (one owed is done first), its slot
/// has a command buffer, and its image has a framebuffer.
pub open spec fn consistent(s: FrameState) -> bool {
    &&& s.slot < s.frames
    &&& (s.phase != FramePhase::Idle && s.phase != FramePhase::RebuildingFirst) ==> !s.rebuild_pending
    &&& s.phase == FramePhase::RebuildingFirst ==> s.rebuild_pending
    &&& (s.phase != FramePhase::Idle && s.phase != FramePhase::RebuildingFirst
        && s.phase != FramePhase::RebuildingAfterPresent) ==> s.slot < s.command_buffers
    &&& match s.phase {
        FramePhase::Recording { image } | FramePhase::Submitting { image } | FramePhase::Presenting { image } =>
            image < s.framebuffers,
        _ => true,
    }
}

/// The frame loop: the state machine that decides each step of drawing frames.
pub struct FrameLoop {
    state: FrameState,
}

impl View for FrameLoop {
    type V = FrameState;

    closed spec fn view(&self) -> FrameState {
        self.state
    }
}

impl FrameLoop {
    #[verifier::type_invariant]
    spec fn inv(&self) -> bool {
        consistent(self.state)
    }

    /// An idle loop over `frames_in_flight` slots, starting at slot 0, owing no
    /// rebuild, for a renderer with this many command buffers and framebuffers.
    pub fn new(frames_in_flight: usize, command_buffers: usize, framebuffers: usize) -> (l: Self)
        requires
            frames_in_flight > 0,
        ensures
            l@ == (FrameState {
                phase: FramePhase::Idle,
                slot: 0,
                frames: frames_in_flight,
                command_buffers,
                framebuffers,
                rebuild_pending: false,
            }),
    {
        FrameLoop {
            state: FrameState {
                phase: FramePhase::Idle,
                slot: 0,
                frames: frames_in_flight,
                command_buffers,
                framebuffers,
                rebuild_pending: false,
            },
        }
    }

    /// The current state.
    pub fn state(&self) -> (s: FrameState)
        ensures
            s == self@,
            consistent(s),
    {
        proof {
            use_type_invariant(self);
        }
        self.state
    }

    /// Whether the loop accepts `e` now, with the indices it leads to in range.
    pub fn accepts(&self, e: FrameEvent) -> (r: bool)
        ensures
            r == (accepts(self@.phase, e) && in_range(self@, e)),
    {
        let s = self.state;
        match (s.phase, e) {
            (FramePhase::Idle, FrameEvent::Begin) => s.rebuild_pending || s.slot < s.command_buffers,
            (FramePhase::Idle, _) => false,
            (FramePhase::RebuildingFirst, FrameEvent::SwapchainRebuilt { command_buffers, .. }) => s.slot
                < command_buffers,
            (FramePhase::RebuildingFirst, FrameEvent::RebuildSkipped)
            | (FramePhase::RebuildingAfterPresent, FrameEvent::SwapchainRebuilt { .. })
            | (FramePhase::RebuildingAfterPresent, FrameEvent::RebuildSkipped) => true,
            (FramePhase::AwaitingFence, FrameEvent::FenceSignaled) => true,
            (FramePhase::Acquiring, FrameEvent::Acquired(r)) => match acquire_action(r) {
                AcquireAction::Render { image_index } => (image_index as usize) < s.framebuffers,
                _ => true,
            },
            (FramePhase::Recording { .. }, FrameEvent::Recorded) => true,
            (FramePhase::Submitting { .. }, FrameEvent::Submitted) => true,
            (FramePhase::Presenting { .. }, FrameEvent::Presented(_)) => true,
            (_, FrameEvent::StepFailed) => true,
            _ => false,
        }
    }

    /// Take one step: record event `e` and return the next action.
    pub fn step(&mut self, e: FrameEvent) -> (a: FrameAction)
        requires
            accepts(old(self)@.phase, e),
            in_range(old(self)@, e),
        ensures
            (final(self)@, a) == frame_step(old(self)@, e),
            consistent(final(self)@),
            (old(self)@.phase == FramePhase::RebuildingAfterPresent && e is SwapchainRebuilt) ==> {
                &&& a == FrameAction::Finish { needs_recreate: false }
                &&& final(self)@.phase == FramePhase::Idle
                &&& !final(self)@.rebuild_pending
                &&& final(self)@.slot == (old(self)@.slot + 1) % (old(self)@.frames as int)
            },
            (old(self)@.phase == FramePhase::RebuildingAfterPresent && e == FrameEvent::RebuildSkipped) ==> {
                &&& a == FrameAction::Finish { needs_recreate: true }
                &&& final(self)@.phase == FramePhase::Idle
                &&& final(self)@.rebuild_pending
                &&& final(self)@.slot == (old(self)@.slot + 1) % (old(self)@.frames as int)
            },
    {
        proof {
            use_type_invariant(&*self);
        }
        let s = self.state;
        let (next, action) = match (s.phase, e) {
            (FramePhase::Idle, FrameEvent::Begin) => if s.rebuild_pending {
                (FrameState { phase: FramePhase::RebuildingFirst, ..s }, FrameAction::RebuildSwapchain)
            } else {
                (FrameState { phase: FramePhase::AwaitingFence, ..s }, FrameAction::WaitFence { slot: s.slot })
            },
            (FramePhase::RebuildingFirst, FrameEvent::SwapchainRebuilt { command_buffers, framebuffers }) => (
                FrameState {
                    phase: FramePhase::AwaitingFence,
                    rebuild_pending: false,
                    command_buffers,
                    framebuffers,
                    ..s
                },
                FrameAction::WaitFence { slot: s.slot },
            ),
            (FramePhase::RebuildingFirst, FrameEvent::RebuildSkipped) => (
                FrameState { phase: FramePhase::Idle, ..s },
                FrameAction::Finish { needs_recreate: true },
            ),
            (FramePhase::AwaitingFence, FrameEvent::FenceSignaled) => (
                FrameState { phase: FramePhase::Acquiring, ..s },
                FrameAction::Acquire { slot: s.slot },
            ),
            (FramePhase::Acquiring, FrameEvent::Acquired(r)) => match acquire_action(r) {
                AcquireAction::Render { image_index } => (
                    FrameState { phase: FramePhase::Recording { image: image_index }, ..s },
                    FrameAction::Record { slot: s.slot, image: image_index },
                ),
                AcquireAction::SkipFrame => (
                    FrameState { phase: FramePhase::Idle, rebuild_pending: true, ..s },
                    FrameAction::Finish { needs_recreate: true },
                ),
                AcquireAction::Fail(code) => (FrameState { phase: FramePhase::Idle, ..s }, FrameAction::Fail(code)),
            },
            (FramePhase::Recording { image }, FrameEvent::Recorded) => (
                FrameState { phase: FramePhase::Submitting { image }, ..s },
                FrameAction::Submit { slot: s.slot, image },
            ),
            (FramePhase::Submitting { image }, FrameEvent::Submitted) => (
                FrameState { phase: FramePhase::Presenting { image }, ..s },
                FrameAction::Present { slot: s.slot, image },
            ),
            (FramePhase::Presenting { .. }, FrameEvent::Presented(r)) => match present_action(r) {
                PresentAction::Advance => (
                    FrameState { phase: FramePhase::Idle, slot: (s.slot + 1) % s.frames, ..s },
                    FrameAction::Finish { needs_recreate: false },
                ),
                PresentAction::RecreateThenAdvance => (
                    FrameState { phase: FramePhase::RebuildingAfterPresent, ..s },
                    FrameAction::RebuildSwapchain,
                ),
                PresentAction::Fail(code) => (FrameState { phase: FramePhase::Idle, ..s }, FrameAction::Fail(code)),
            },
            (FramePhase::RebuildingAfterPresent, FrameEvent::SwapchainRebuilt { command_buffers, framebuffers }) => (
                FrameState {
                    phase: FramePhase::Idle,
                    slot: (s.slot + 1) % s.frames,
                    rebuild_pending: false,
                    command_buffers,
                    framebuffers,
                    ..s
                },
                FrameAction::Finish { needs_recreate: false },
            ),
            (FramePhase::RebuildingAfterPresent, FrameEvent::RebuildSkipped) => (
                FrameState { phase: FramePhase::Idle, slot: (s.slot + 1) % s.frames, rebuild_pending: true, ..s },
                FrameAction::Finish { needs_recreate: true },
            ),
            (_, FrameEvent::StepFailed) => (FrameState { phase: FramePhase::Idle, ..s }, FrameAction::Abandon),
            _ => (s, FrameAction::Abandon),
        };
        proof {
            vstd::arithmetic::div_mod::lemma_mod_bound(s.slot + 1, s.frames as int);
        }
        self.state = next;
        action
    }
}

/// After `n` completed frames the slot is the starting slot plus `n`, modulo
/// the number of frames; so every `frames` completed frames bring the cycle
/// back to the slot it started from.
pub proof fn lemma_slot_after(slot: int, frames: int, n: nat)
    requires
        0 <= slot < frames,
    ensures
        slot_after(slot, frames, n) == (slot + n) % frames,
        slot_after(slot, frames, frames as nat) == slot,
        0 <= slot_after(slot, frames, n) < frames,
{
    lemma_slot_after_mod(slot, frames, n);
    lemma_slot_after_full(slot, frames);
    vstd::arithmetic::div_mod::lemma_mod_bound(slot + n, frames);
}

proof fn lemma_slot_after_full(slot: int, frames: int)
    requires
        0 <= slot < frames,
    ensures
        slot_after(slot, frames, frames as nat) == slot,
{
    lemma_slot_after_mod(slot, frames, frames as nat);
    vstd::arithmetic::div_mod::lemma_mod_add_multiples_vanish(slot, frames);
    vstd::arithmetic::div_mod::lemma_small_mod(slot as nat, frames as nat);
}

proof fn lemma_slot_after_mod(slot: int, frames: int, n: nat)
    requires
        0 <= slot < frames,
    ensures
        slot_after(slot, frames, n) == (slot + n) % frames,
    decreases n,
{
    if n == 0 {
        vstd::arithmetic::div_mod::lemma_small_mod(slot as nat, frames as nat);
    } else {
        lemma_slot_after_mod(slot, frames, (n - 1) as nat);
        let x = slot + n - 1;
        vstd::arithmetic::div_mod::lemma_add_mod_noop(x, 1, frames);
        vstd::arithmetic::div_mod::lemma_add_mod_noop(x % frames, 1, frames);
        vstd::arithmetic::div_mod::lemma_mod_twice(x, frames);
    }
}

} // verus!

verus! {

/// The order of a frame's steps: commands are recorded only into an acquired
/// image, submitted only once recorded, and presented only once submitted;
/// so a frame skipped at acquisition records and submits nothing.
pub proof fn lemma_frame_step_order(s: FrameState, e: FrameEvent)
    requires
        accepts(s.phase, e),
    ensures
        frame_step(s, e).1 matches FrameAction::Record { slot, image } ==> s.phase == FramePhase::Acquiring
            && e == FrameEvent::Acquired(AcquireResult::Acquired { image_index: image, suboptimal: false })
            && slot == s.slot,
        frame_step(s, e).1 matches FrameAction::Submit { slot, image } ==> s.phase == (FramePhase::Recording { image })
            && e == FrameEvent::Recorded && slot == s.slot,
        frame_step(s, e).1 matches FrameAction::Present { slot, image } ==> s.phase == (FramePhase::Submitting { image })
            && e == FrameEvent::Submitted && slot == s.slot,
        frame_step(s, e).1 matches FrameAction::WaitFence { slot } ==> slot == s.slot,
        frame_step(s, e).1 matches FrameAction::Acquire { slot } ==> slot == s.slot,
{
}

/// Only a presented frame moves the slot on, to the next slot; a frame that is
/// skipped, fails or is abandoned keeps its slot. Each finished or failed frame
/// leaves the loop idle, and the slot stays below the number of frames.
pub proof fn lemma_frame_slot(s: FrameState, e: FrameEvent)
    requires
        accepts(s.phase, e),
        s.slot < s.frames,
    ensures
        frame_step(s, e).0.frames == s.frames,
        frame_step(s, e).0.slot < s.frames,
        frame_step(s, e).0.slot != s.slot ==> (s.phase is Presenting || s.phase == FramePhase::RebuildingAfterPresent),
        frame_step(s, e).0.slot == s.slot || frame_step(s, e).0.slot == next_slot(s.slot as int, s.frames as int),
        (s.phase is Presenting || s.phase == FramePhase::RebuildingAfterPresent) && frame_step(s, e).1 is Finish
            ==> frame_step(s, e).0.slot == next_slot(s.slot as int, s.frames as int),
        (frame_step(s, e).1 is Finish || frame_step(s, e).1 is Fail || frame_step(s, e).1 is Abandon)
            ==> frame_step(s, e).0.phase == FramePhase::Idle,
{
    vstd::arithmetic::div_mod::lemma_mod_bound(s.slot + 1, s.frames as int);
}

/// A frame reports that the swapchain needs recreating exactly when, at its
/// end, a rebuild is still owed.
pub proof fn lemma_finish_flag(s: FrameState, e: FrameEvent)
    requires
        accepts(s.phase, e),
        in_range(s, e),
        consistent(s),
    ensures
        consistent(frame_step(s, e).0),
        frame_step(s, e).1 matches FrameAction::Finish { needs_recreate } ==> needs_recreate
            == frame_step(s, e).0.rebuild_pending,
{
    vstd::arithmetic::div_mod::lemma_mod_bound(s.slot + 1, s.frames as int);
}

/// Drawing recovers from an out-of-date swapchain: after a frame skipped at
/// acquisition, the next frame first rebuilds the swapchain, and when the
/// rebuild and the frame's steps succeed that frame is presented, its slot
/// moves on and no rebuild is owed any more.
pub proof fn lemma_recovers_after_skip(
    s: FrameState,
    r: AcquireResult,
    image: u32,
    command_buffers: usize,
    framebuffers: usize,
)
    requires
        s.phase == FramePhase::Acquiring,
        s.slot < s.frames,
        acquire_decision(r) == AcquireAction::SkipFrame,
        s.slot < command_buffers,
        image < framebuffers,
    ensures
        ({
            let (s0, a0) = frame_step(s, FrameEvent::Acquired(r));
            let (s1, a1) = frame_step(s0, FrameEvent::Begin);
            let (s2, a2) = frame_step(s1, FrameEvent::SwapchainRebuilt { command_buffers, framebuffers });
            let (s3, a3) = frame_step(s2, FrameEvent::FenceSignaled);
            let (s4, a4) = frame_step(
                s3,
                FrameEvent::Acquired(AcquireResult::Acquired { image_index: image, suboptimal: false }),
            );
            let (s5, a5) = frame_step(s4, FrameEvent::Recorded);
            let (s6, a6) = frame_step(s5, FrameEvent::Submitted);
            let (s7, a7) = frame_step(s6, FrameEvent::Presented(PresentResult::Presented { suboptimal: false }));
            &&& a0 == FrameAction::Finish { needs_recreate: true }
            &&& s0.slot == s.slot && s0.rebuild_pending
            &&& a1 == FrameAction::RebuildSwapchain
            &&& a2 == FrameAction::WaitFence { slot: s.slot }
            &&& a3 == FrameAction::Acquire { slot: s.slot }
            &&& a4 == FrameAction::Record { slot: s.slot, image }
            &&& a5 == FrameAction::Submit { slot: s.slot, image }
            &&& a6 == FrameAction::Present { slot: s.slot, image }
            &&& a7 == FrameAction::Finish { needs_recreate: false }
            &&& s7.phase == FramePhase::Idle
            &&& s7.slot == next_slot(s.slot as int, s.frames as int)
            &&& !s7.rebuild_pending
            &&& in_range(s1, FrameEvent::SwapchainRebuilt { command_buffers, framebuffers })
            &&& in_range(
                s3,
                FrameEvent::Acquired(AcquireResult::Acquired { image_index: image, suboptimal: false }),
            )
        }),
{
}

/// A swapchain that presenting finds suboptimal or out of date is rebuilt right
/// away. Once the rebuild succeeds the frame finishes reporting that nothing
/// needs recreating: no rebuild is owed, the slot moves on, the renderer holds
/// the command buffers and framebuffers the rebuild reported, and the next
/// frame starts by waiting for the fence of its slot. When the rebuild is
/// skipped (the window is minimized) the frame reports that the swapchain
/// still needs recreating, the rebuild stays owed, and the next frame starts
/// by rebuilding.
pub proof fn law_rebuild_after_present(
    s: FrameState,
    image: u32,
    r: PresentResult,
    command_buffers: usize,
    framebuffers: usize,
)
    requires
        s.phase == (FramePhase::Presenting { image }),
        s.slot < s.frames,
        r == PresentResult::OutOfDate || r == (PresentResult::Presented { suboptimal: true }),
    ensures
        ({
            let (s0, a0) = frame_step(s, FrameEvent::Presented(r));
            let (s1, a1) = frame_step(s0, FrameEvent::SwapchainRebuilt { command_buffers, framebuffers });
            let (s2, a2) = frame_step(s1, FrameEvent::Begin);
            let (t1, b1) = frame_step(s0, FrameEvent::RebuildSkipped);
            let (t2, b2) = frame_step(t1, FrameEvent::Begin);
            &&& a0 == FrameAction::RebuildSwapchain
            &&& a1 == FrameAction::Finish { needs_recreate: false }
            &&& s1.phase == FramePhase::Idle
            &&& !s1.rebuild_pending
            &&& s1.slot == (s.slot + 1) % (s.frames as int)
            &&& s1.frames == s.frames
            &&& s1.command_buffers == command_buffers
            &&& s1.framebuffers == framebuffers
            &&& a2 == FrameAction::WaitFence { slot: s1.slot }
            &&& b1 == FrameAction::Finish { needs_recreate: true }
            &&& t1.phase == FramePhase::Idle
            &&& t1.rebuild_pending
            &&& t1.slot == (s.slot + 1) % (s.frames as int)
            &&& b2 == FrameAction::RebuildSwapchain
        }),
{
}

/// Drawing stays within the renderer's resources: every slot a step names has
/// a frame's synchronization objects, every slot recorded, submitted or
/// presented has a command buffer, and every image recorded into or presented
/// has a framebuffer; the number of frames never changes, and after a rebuild
/// the counts are those the rebuild reported.
pub proof fn lemma_frame_resources(s: FrameState, e: FrameEvent)
    requires
        accepts(s.phase, e),
        in_range(s, e),
        consistent(s),
    ensures
        consistent(frame_step(s, e).0),
        frame_step(s, e).0.frames == s.frames,
        frame_step(s, e).1 matches FrameAction::WaitFence { slot } ==> slot < s.frames
            && slot < frame_step(s, e).0.command_buffers,
        frame_step(s, e).1 matches FrameAction::Acquire { slot } ==> slot < s.frames,
        frame_step(s, e).1 matches FrameAction::Record { slot, image } ==> slot < s.frames
            && slot < frame_step(s, e).0.command_buffers && image < frame_step(s, e).0.framebuffers,
        frame_step(s, e).1 matches FrameAction::Submit { slot, image } ==> slot < s.frames
            && slot < frame_step(s, e).0.command_buffers && image < frame_step(s, e).0.framebuffers,
        frame_step(s, e).1 matches FrameAction::Present { slot, image } ==> slot < s.frames
            && image < frame_step(s, e).0.framebuffers,
        e matches FrameEvent::SwapchainRebuilt { command_buffers, framebuffers } ==> frame_step(s, e).0.command_buffers
            == command_buffers && frame_step(s, e).0.framebuffers == framebuffers,
        !(e is SwapchainRebuilt) ==> frame_step(s, e).0.command_buffers == s.command_buffers
            && frame_step(s, e).0.framebuffers == s.framebuffers,
{
    vstd::arithmetic::div_mod::lemma_mod_bound(s.slot + 1, s.frames as int);
}

} // verus!

verus! {

/// After a rebuild the renderer holds one command buffer per swapchain image:
/// it keeps its buffers when their number already matches the image count,
/// and re-allocates `image_count` of them otherwise.
pub proof fn lemma_command_buffers_follow_images(allocated: usize, image_count: u32)
    ensures
        (if allocated != image_count { image_count as int } else { allocated as int }) == image_count,
{
}

} // verus!
