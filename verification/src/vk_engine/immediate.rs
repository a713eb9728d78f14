//! Submissions outside the frame loop: one command buffer, recorded by the
//! caller, submitted, and waited for before anything else happens.

use crate::vk;
use crate::vk_descriptors::{DescriptorPoolCreateInfo, DescriptorPoolSize};
use crate::vk_engine::frame_data::FRAME_OVERLAP;
use crate::vk_engine::FrameEvent;
use crate::vk_init;
use crate::vk_types::{classify, error_of, VulkanError};
use vstd::prelude::*;

verus! {

/// Nanoseconds that the host waits for an immediate submission.
pub const IMMEDIATE_TIMEOUT_NS: u64 = 9_999_999_999;

/// Descriptors of each type in the pool of the overlay, and sets in it.
pub const OVERLAY_POOL_COUNT: u32 = 1000;

/// Where an immediate submission stands: which call has been handed out
/// and awaits its result.
#[derive(Clone, Copy, Debug, PartialEq, Eq, Structural)]
pub enum ImmediatePhase {
    /// No submission is under way.
    Idle,
    ResettingFence,
    ResettingPool,
    Beginning,
    Recording,
    Ending,
    Submitting,
    WaitingFence,
}

/// The call that the host is to perform next for an immediate submission.
#[derive(Clone, Copy, Debug, PartialEq, Eq, Structural)]
pub enum ImmediateAction {
    ResetFence { fence: vk::Handle },
    ResetCommandPool { command_pool: vk::Handle },
    BeginCommandBuffer { command_buffer: vk::Handle, info: vk::CommandBufferBeginInfo },
    /// Let the caller record its commands into the command buffer.
    Record { command_buffer: vk::Handle },
    EndCommandBuffer { command_buffer: vk::Handle },
    /// Submit the batch to the queue; the fence is signalled on completion.
    Submit { queue: vk::Handle, submit: vk::SubmitInfo2, fence: vk::Handle },
    /// Block until the fence is signalled or the timeout has passed.
    WaitForFence { fence: vk::Handle, timeout: u64 },
    /// The device has finished what was submitted.
    Completed,
}

/// Why an immediate submission was given up.
#[derive(Clone, Copy, Debug, PartialEq, Eq, Structural)]
pub enum ImmediateError {
    /// The event does not answer the call that was handed out last; a
    /// `Start` while a submission is under way is of this kind.
    UnexpectedEvent,
    /// The fence was not signalled in time.
    FenceTimeout,
    /// A device call failed in the given phase.
    Device { phase: ImmediatePhase, error: VulkanError },
}

/// The command pool, command buffer and fence that serve submissions
/// outside the frame loop, and the queue they go to.
#[derive(Clone, Copy, Debug, PartialEq, Eq, Structural)]
pub struct ImmediateContext {
    pub fence: vk::Handle,
    pub command_pool: vk::Handle,
    pub command_buffer: vk::Handle,
    pub queue: vk::Handle,
    pub phase: ImmediatePhase,
}

impl ImmediateContext {
    /// A context with no submission under way.
    pub fn new(
        fence: vk::Handle,
        command_pool: vk::Handle,
        command_buffer: vk::Handle,
        queue: vk::Handle,
    ) -> (c: ImmediateContext)
        ensures
            c == (ImmediateContext {
                fence,
                command_pool,
                command_buffer,
                queue,
                phase: ImmediatePhase::Idle,
            }),
    {
        ImmediateContext { fence, command_pool, command_buffer, queue, phase: ImmediatePhase::Idle }
    }

    /// The context in another phase.
    pub open spec fn in_phase(self, phase: ImmediatePhase) -> ImmediateContext {
        ImmediateContext { phase, ..self }
    }

    /// The batch of an immediate submission: the command buffer alone,
    /// with no semaphore to wait on or to signal.
    pub open spec fn batch(self) -> vk::SubmitInfo2 {
        vk::SubmitInfo2 {
            wait_semaphore_info: None,
            command_buffer_info: vk::CommandBufferSubmitInfo {
                command_buffer: self.command_buffer,
                device_mask: 0,
            },
            signal_semaphore_info: None,
        }
    }

    /// The call of a phase, handed out when the phase before it succeeded.
    pub open spec fn call_of(self, phase: ImmediatePhase) -> ImmediateAction {
        match phase {
            ImmediatePhase::Idle => ImmediateAction::Completed,
            ImmediatePhase::ResettingFence => ImmediateAction::ResetFence { fence: self.fence },
            ImmediatePhase::ResettingPool => ImmediateAction::ResetCommandPool {
                command_pool: self.command_pool,
            },
            ImmediatePhase::Beginning => ImmediateAction::BeginCommandBuffer {
                command_buffer: self.command_buffer,
                info: vk::CommandBufferBeginInfo { flags: vk::COMMAND_BUFFER_USAGE_ONE_TIME_SUBMIT },
            },
            ImmediatePhase::Recording => ImmediateAction::Record {
                command_buffer: self.command_buffer,
            },
            ImmediatePhase::Ending => ImmediateAction::EndCommandBuffer {
                command_buffer: self.command_buffer,
            },
            ImmediatePhase::Submitting => ImmediateAction::Submit {
                queue: self.queue,
                submit: self.batch(),
                fence: self.fence,
            },
            ImmediatePhase::WaitingFence => ImmediateAction::WaitForFence {
                fence: self.fence,
                timeout: IMMEDIATE_TIMEOUT_NS,
            },
        }
    }

    /// What `immediate_submit` makes of a context and an event: the context
    /// afterwards, and the call it hands out or the error it reports.
    ///
    /// The phases follow one another in the order of `ImmediatePhase`, each
    /// entered when the call before it reports success; after the wait for
    /// the fence the context is idle again. Any other result gives the
    /// submission up and leaves the context idle. An event that does not
    /// belong to the phase changes nothing.
    pub open spec fn submit_spec(self, event: FrameEvent) -> (
        ImmediateContext,
        Result<ImmediateAction, ImmediateError>,
    ) {
        match (self.phase, event) {
            (ImmediatePhase::Idle, FrameEvent::Start) => self.enter(ImmediatePhase::ResettingFence),
            (ImmediatePhase::Idle, _) => (self, Err(ImmediateError::UnexpectedEvent)),
            (phase, FrameEvent::Done(code)) => if code == vk::SUCCESS {
                self.enter(next_phase(phase))
            } else if phase is WaitingFence && code == vk::TIMEOUT {
                (self.in_phase(ImmediatePhase::Idle), Err(ImmediateError::FenceTimeout))
            } else {
                (
                    self.in_phase(ImmediatePhase::Idle),
                    Err(ImmediateError::Device { phase, error: error_of(code) }),
                )
            },
            _ => (self, Err(ImmediateError::UnexpectedEvent)),
        }
    }

    /// The context in `phase`, with the call of that phase.
    pub open spec fn enter(self, phase: ImmediatePhase) -> (
        ImmediateContext,
        Result<ImmediateAction, ImmediateError>,
    ) {
        (self.in_phase(phase), Ok(self.call_of(phase)))
    }

    /// Hands out the call of `phase`.
    fn call(&self, phase: ImmediatePhase) -> (action: ImmediateAction)
        ensures
            action == self.call_of(phase),
    {
        match phase {
            ImmediatePhase::Idle => ImmediateAction::Completed,
            ImmediatePhase::ResettingFence => ImmediateAction::ResetFence { fence: self.fence },
            ImmediatePhase::ResettingPool => ImmediateAction::ResetCommandPool {
                command_pool: self.command_pool,
            },
            ImmediatePhase::Beginning => ImmediateAction::BeginCommandBuffer {
                command_buffer: self.command_buffer,
                info: vk_init::command_buffer_begin_info(vk::COMMAND_BUFFER_USAGE_ONE_TIME_SUBMIT),
            },
            ImmediatePhase::Recording => ImmediateAction::Record {
                command_buffer: self.command_buffer,
            },
            ImmediatePhase::Ending => ImmediateAction::EndCommandBuffer {
                command_buffer: self.command_buffer,
            },
            ImmediatePhase::Submitting => {
                let cmd_submit_info = vk_init::command_buffer_submit_info(self.command_buffer);
                let submit = vk_init::submit_info(&cmd_submit_info, None, None);
                ImmediateAction::Submit { queue: self.queue, submit, fence: self.fence }
            },
            ImmediatePhase::WaitingFence => ImmediateAction::WaitForFence {
                fence: self.fence,
                timeout: IMMEDIATE_TIMEOUT_NS,
            },
        }
    }

    /// Moves an immediate submission on by one device call.
    ///
    /// The host begins with `Start`, performs the call that comes back and
    /// reports its result code, until `Completed` comes back or an error.
    /// The calls, in order: reset the fence, reset the command pool, begin
    /// the command buffer, let the caller record, end the command buffer,
    /// submit it with the fence, wait for the fence. `Completed` is the
    /// answer to a successful wait and to nothing else.
    pub fn immediate_submit(&mut self, event: FrameEvent) -> (r: Result<
        ImmediateAction,
        ImmediateError,
    >)
        ensures
            (*final(self), r) == old(self).submit_spec(event),
    {
        match (self.phase, event) {
            (ImmediatePhase::Idle, FrameEvent::Start) => {
                self.phase = ImmediatePhase::ResettingFence;
                Ok(self.call(ImmediatePhase::ResettingFence))
            },
            (ImmediatePhase::Idle, _) => Err(ImmediateError::UnexpectedEvent),
            (phase, FrameEvent::Done(code)) => {
                if code == vk::SUCCESS {
                    let next = following(phase);
                    self.phase = next;
                    Ok(self.call(next))
                } else {
                    self.phase = ImmediatePhase::Idle;
                    let waiting = match phase {
                        ImmediatePhase::WaitingFence => true,
                        _ => false,
                    };
                    if waiting && code == vk::TIMEOUT {
                        Err(ImmediateError::FenceTimeout)
                    } else {
                        Err(ImmediateError::Device { phase, error: classify(code) })
                    }
                }
            },
            _ => Err(ImmediateError::UnexpectedEvent),
        }
    }
}

/// The phase that follows `phase` when its call succeeded.
pub open spec fn next_phase(phase: ImmediatePhase) -> ImmediatePhase {
    match phase {
        ImmediatePhase::Idle => ImmediatePhase::ResettingFence,
        ImmediatePhase::ResettingFence => ImmediatePhase::ResettingPool,
        ImmediatePhase::ResettingPool => ImmediatePhase::Beginning,
        ImmediatePhase::Beginning => ImmediatePhase::Recording,
        ImmediatePhase::Recording => ImmediatePhase::Ending,
        ImmediatePhase::Ending => ImmediatePhase::Submitting,
        ImmediatePhase::Submitting => ImmediatePhase::WaitingFence,
        ImmediatePhase::WaitingFence => ImmediatePhase::Idle,
    }
}

/// Computes the phase that follows `phase` when its call succeeded.
pub fn following(phase: ImmediatePhase) -> (next: ImmediatePhase)
    ensures
        next == next_phase(phase),
{
    match phase {
        ImmediatePhase::Idle => ImmediatePhase::ResettingFence,
        ImmediatePhase::ResettingFence => ImmediatePhase::ResettingPool,
        ImmediatePhase::ResettingPool => ImmediatePhase::Beginning,
        ImmediatePhase::Beginning => ImmediatePhase::Recording,
        ImmediatePhase::Recording => ImmediatePhase::Ending,
        ImmediatePhase::Ending => ImmediatePhase::Submitting,
        ImmediatePhase::Submitting => ImmediatePhase::WaitingFence,
        ImmediatePhase::WaitingFence => ImmediatePhase::Idle,
    }
}

/// The context after the host has reported `events`, one by one.
pub open spec fn after_all(c: ImmediateContext, events: Seq<FrameEvent>) -> ImmediateContext
    decreases events.len(),
{
    if events.len() == 0 {
        c
    } else {
        after_all(c, events.drop_last()).submit_spec(events.last()).0
    }
}

/// An immediate submission is complete only once the host has seen its
/// fence signalled.
///
/// Over any run of `immediate_submit`: where the answer to the last event
/// is `Completed`, the call handed out before it was the wait for the
/// fence, and the last event reports that this wait succeeded.
pub proof fn lemma_completed_after_fence(c: ImmediateContext, events: Seq<FrameEvent>)
    requires
        events.len() > 0,
    ensures
        ({
            let before = after_all(c, events.drop_last());
            let answer = before.submit_spec(events.last()).1;
            answer == Ok::<ImmediateAction, ImmediateError>(ImmediateAction::Completed) ==> {
                &&& before.phase is WaitingFence
                &&& events.last() == FrameEvent::Done(vk::SUCCESS)
                &&& after_all(c, events).phase is Idle
            }
        }),
{
}

/// The wait for the fence is handed out only in answer to a successful
/// submission with that fence, and a second submission cannot begin while
/// one is under way.
pub proof fn lemma_one_submission_at_a_time(c: ImmediateContext, event: FrameEvent)
    ensures
        ({
            let (after, answer) = c.submit_spec(event);
            &&& answer is Ok && answer->Ok_0 is WaitForFence ==> c.phase is Submitting && event
                == FrameEvent::Done(vk::SUCCESS) && answer->Ok_0->WaitForFence_fence == c.fence
            &&& !(c.phase is Idle) && event == FrameEvent::Start ==> answer == Err::<
                ImmediateAction,
                ImmediateError,
            >(ImmediateError::UnexpectedEvent) && after == c
        }),
{
}

/// What the overlay is set up with.
#[derive(Clone, Debug, PartialEq, Eq)]
pub struct OverlaySetup {
    /// The descriptor pool that the overlay draws its sets from.
    pub pool_info: DescriptorPoolCreateInfo,
    /// The format of the images that the overlay renders to.
    pub color_attachment_format: i32,
    /// How many frames the overlay keeps resources for.
    pub in_flight_frames: usize,
}

/// Plans the setup of the overlay for a swapchain of the given format: a
/// pool of a thousand sets that can be freed one by one, with room for a
/// thousand descriptors of each of the eleven basic types, and resources
/// for as many frames as are in flight.
pub fn init_imgui(swapchain_format: i32) -> (setup: OverlaySetup)
    ensures
        setup.color_attachment_format == swapchain_format,
        setup.in_flight_frames == FRAME_OVERLAP,
        setup.pool_info.flags == vk::DESCRIPTOR_POOL_CREATE_FREE_DESCRIPTOR_SET,
        setup.pool_info.max_sets == OVERLAY_POOL_COUNT,
        setup.pool_info.pool_sizes@.len() == 11,
        forall|i: int|
            0 <= i < 11 ==> #[trigger] setup.pool_info.pool_sizes@[i] == (DescriptorPoolSize {
                ty: (vk::DESCRIPTOR_TYPE_SAMPLER + i) as i32,
                descriptor_count: OVERLAY_POOL_COUNT,
            }),
{
    let mut pool_sizes: Vec<DescriptorPoolSize> = Vec::new();
    let mut ty: i32 = vk::DESCRIPTOR_TYPE_SAMPLER;
    while ty <= vk::DESCRIPTOR_TYPE_INPUT_ATTACHMENT
        invariant
            0 <= ty <= 11,
            pool_sizes@.len() == ty,
            forall|i: int|
                0 <= i < ty ==> #[trigger] pool_sizes@[i] == (DescriptorPoolSize {
                    ty: i as i32,
                    descriptor_count: OVERLAY_POOL_COUNT,
                }),
        decreases 11 - ty,
    {
        pool_sizes.push(DescriptorPoolSize { ty, descriptor_count: OVERLAY_POOL_COUNT });
        ty += 1;
    }
    OverlaySetup {
        pool_info: DescriptorPoolCreateInfo {
            flags: vk::DESCRIPTOR_POOL_CREATE_FREE_DESCRIPTOR_SET,
            max_sets: OVERLAY_POOL_COUNT,
            pool_sizes,
        },
        color_attachment_format: swapchain_format,
        in_flight_frames: FRAME_OVERLAP,
    }
}

} // verus!
