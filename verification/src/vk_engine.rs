//! The engine: what it owns, the main loop, and the frame as a sequence of
//! device calls that the host performs one at a time.
//!
//! The engine never touches the device. `draw` hands out the next call of
//! the frame; the host performs it and reports the result code with the
//! next call of `draw`. The order of the calls, and what each is given, is
//! decided here.

pub mod destructors;
pub mod frame_data;
pub mod immediate;
pub mod pacing;

use crate::vk;
use crate::vk_commands::{record, transitions_of, Command, PushData, Transition};
use crate::vk_compute::{ComputeEffect, COMPUTE_PUSH_CONSTANTS_SIZE};
use crate::vk_descriptors::DescriptorAllocator;
use crate::vk_images::{
    copy_image_to_image, extent_fits_offsets, spec_copy_image_to_image, spec_transition_image,
    transition_image,
};
use crate::vk_init;
use crate::vk_loader::MeshAsset;
use crate::vk_types::{classify, error_of, AllocatedImage, VulkanError};
use frame_data::{next_frame, slot_index, FrameData, FRAME_OVERLAP};
use vstd::array::spec_array_update;
use vstd::prelude::*;

verus! {

pub const WINDOW_TITLE: &'static str = "Vulkan Engine";

pub const WINDOW_WIDTH: u32 = 1700;

pub const WINDOW_HEIGHT: u32 = 900;

/// Nanoseconds that the host waits for the fence of a frame: long enough
/// that a healthy device never runs into it, short enough that a hung one
/// shows as an error.
pub const FENCE_TIMEOUT_NS: u64 = 1_000_000_000;

/// Nanoseconds that the host waits for the next swapchain image.
pub const ACQUIRE_TIMEOUT_NS: u64 = 1_000_000_000;

/// Milliseconds that the main loop sleeps in each pass while the window
/// is minimized.
pub const MINIMIZED_SLEEP_MS: u64 = 10;

/// The mesh among the loaded ones that every frame draws.
pub const DRAWN_MESH: usize = 2;

/// Bytes of the push constants of a mesh draw: a four-by-four matrix of
/// floats and the 64-bit address of the vertices.
pub const MESH_PUSH_CONSTANTS_SIZE: u32 = 72;

/// Side of the square of pixels that one workgroup of a background effect
/// covers.
pub const WORKGROUP_SIZE: u32 = 16;

/// Where the engine stands within a frame: which device call it has handed
/// out and awaits the result of.
#[derive(Clone, Copy, Debug, PartialEq, Eq, Structural)]
pub enum FramePhase {
    /// Between frames.
    Idle,
    WaitingFence,
    ResettingFence,
    Acquiring,
    ResettingCommands,
    Beginning,
    Recording,
    Ending,
    Submitting,
    Presenting,
}

/// What the host reports to `draw`.
#[derive(Clone, Copy, Debug, PartialEq, Eq, Structural)]
pub enum FrameEvent {
    /// A new frame is to begin.
    Start,
    /// The call handed out last returned this result code.
    Done(i32),
    /// The acquisition of a swapchain image returned this result code and,
    /// where it succeeded, this image index.
    Acquired { code: i32, image_index: u32 },
}

/// The device call that the host is to perform next.
#[derive(Clone, Copy, Debug, PartialEq, Eq, Structural)]
pub enum FrameAction {
    /// Block until the fence is signalled or the timeout has passed.
    WaitForFence { fence: vk::Handle, timeout: u64 },
    ResetFence { fence: vk::Handle },
    /// Acquire the next image of the swapchain; the semaphore is signalled
    /// when the image may be written.
    AcquireNextImage { swapchain: vk::Handle, timeout: u64, semaphore: vk::Handle },
    ResetCommandBuffer { command_buffer: vk::Handle },
    BeginCommandBuffer { command_buffer: vk::Handle, info: vk::CommandBufferBeginInfo },
    /// Record the commands of the frame, as `record_frame` lists them.
    Record { command_buffer: vk::Handle },
    EndCommandBuffer { command_buffer: vk::Handle },
    /// Submit the batch to the queue; the fence is signalled on completion.
    Submit { queue: vk::Handle, submit: vk::SubmitInfo2, fence: vk::Handle },
    Present {
        queue: vk::Handle,
        swapchain: vk::Handle,
        wait_semaphore: vk::Handle,
        image_index: u32,
    },
    /// The frame is complete; the next `Start` begins the frame after it.
    FrameDone,
}

/// Why a frame was given up.
#[derive(Clone, Copy, Debug, PartialEq, Eq, Structural)]
pub enum FrameError {
    /// The engine has been shut down, or was never set up.
    NotInitialized,
    /// The event does not answer the call that was handed out last.
    UnexpectedEvent,
    /// The fence of the frame was not signalled in time.
    FenceTimeout,
    /// The swapchain no longer fits the surface: rebuild it, then draw
    /// again. Where the fence of the slot was reset before the frame was
    /// given up, the next frame on the slot begins with the acquisition and
    /// does not wait for that fence.
    SwapchainOutOfDate,
    /// The swapchain handed out an image that it does not have.
    ImageIndexOutOfRange(u32),
    /// A device call failed in the given phase.
    Device { phase: FramePhase, error: VulkanError },
}

impl FrameError {
    /// Whether drawing can go on once the swapchain has been rebuilt. Of
    /// all errors only an outdated swapchain is of that kind.
    pub fn is_recoverable(&self) -> (recoverable: bool)
        ensures
            recoverable <==> *self == FrameError::SwapchainOutOfDate,
    {
        match self {
            FrameError::SwapchainOutOfDate => true,
            _ => false,
        }
    }
}

/// Why the engine could not be assembled.
#[derive(Clone, Copy, Debug, PartialEq, Eq, Structural)]
pub enum InitError {
    /// The swapchain has another number of views than of images.
    ImageViewMismatch,
    /// An extent is too large to be written as signed offsets.
    ExtentTooLarge,
    /// A render target came without its memory.
    TargetWithoutMemory,
    /// There is no background effect to run.
    NoBackgroundEffect,
    /// The mesh that every frame draws is missing, has no surface, or has
    /// lost the memory of a buffer.
    MissingMesh,
}

/// What the window system reports to the main loop.
#[derive(Clone, Copy, Debug, PartialEq, Eq, Structural)]
pub enum WindowEvent {
    Quit,
    Minimized,
    Restored,
    Other,
}

/// What the host does in one pass of the main loop, once the events are
/// handled.
#[derive(Clone, Copy, Debug, PartialEq, Eq, Structural)]
pub enum LoopAction {
    /// Sleep this long; touch neither device nor swapchain.
    Sleep { millis: u64 },
    /// Prepare the user interface and draw a frame.
    Render,
}

/// The device the engine runs on and the queue it submits to.
#[derive(Clone, Copy, Debug, PartialEq, Eq, Structural)]
pub struct DeviceContext {
    pub physical_device: vk::Handle,
    pub graphics_queue: vk::Handle,
    pub graphics_queue_family: u32,
}

/// The frame slots and the extra command pool, command buffer and fence
/// for submissions outside the frame loop.
#[derive(Clone, Copy, Debug, PartialEq, Eq)]
pub struct FrameRing {
    pub frames: [FrameData; FRAME_OVERLAP],
    pub immediate_command_pool: vk::Handle,
    pub immediate_command_buffer: vk::Handle,
    pub immediate_fence: vk::Handle,
}

/// The swapchain with its images and their views.
#[derive(Clone, Debug, PartialEq, Eq)]
pub struct SwapchainState {
    pub swapchain: vk::Handle,
    pub surface_format: vk::SurfaceFormatKHR,
    pub images: Vec<vk::Handle>,
    pub image_views: Vec<vk::Handle>,
    pub extent: vk::Extent2D,
}

/// The descriptor pool and the one set that shows the draw image to the
/// background effects.
#[derive(Clone, Copy, Debug, PartialEq, Eq, Structural)]
pub struct Descriptors {
    pub global_descriptor_allocator: DescriptorAllocator,
    pub draw_image_descriptors: vk::Handle,
    pub draw_image_descriptor_layout: vk::Handle,
}

/// The pipelines that a frame binds.
#[derive(Clone, Debug, PartialEq, Eq)]
pub struct Pipelines {
    pub background_effects: Vec<ComputeEffect>,
    pub mesh_pipeline: vk::Handle,
    pub mesh_pipeline_layout: vk::Handle,
}

/// Everything the engine owns on the device, and where it stands in the
/// frame loop.
#[derive(Debug)]
pub struct VulkanEngine {
    pub is_initialized: bool,
    /// Counts the frames drawn; the slot of a frame is this number modulo
    /// `FRAME_OVERLAP`.
    pub frame_number: u64,
    pub stop_rendering: bool,
    /// Set once the window system has asked the program to end.
    pub quit_requested: bool,
    pub window_extent: vk::Extent2D,
    pub surface: vk::Handle,
    pub physical_device: vk::Handle,
    pub swapchain_extent: vk::Extent2D,
    pub swapchain: vk::Handle,
    pub swapchain_image_format: vk::SurfaceFormatKHR,
    pub swapchain_images: Vec<vk::Handle>,
    pub swapchain_image_views: Vec<vk::Handle>,
    pub frames: [FrameData; FRAME_OVERLAP],
    pub graphics_queue: vk::Handle,
    pub graphics_queue_family: u32,
    pub draw_image: AllocatedImage,
    pub depth_image: AllocatedImage,
    pub draw_extent: vk::Extent2D,
    pub global_descriptor_allocator: DescriptorAllocator,
    pub draw_image_descriptors: vk::Handle,
    pub draw_image_descriptor_layout: vk::Handle,
    pub immediate_fence: vk::Handle,
    pub immediate_command_pool: vk::Handle,
    pub immediate_command_buffer: vk::Handle,
    pub imgui_pool: vk::Handle,
    pub background_effects: Vec<ComputeEffect>,
    pub current_background_effect: usize,
    pub mesh_pipeline_layout: vk::Handle,
    pub mesh_pipeline: vk::Handle,
    pub test_meshes: Vec<MeshAsset>,
    /// The call of the frame that has been handed out last.
    pub phase: FramePhase,
    /// The swapchain image that the frame in progress renders to.
    pub image_index: u32,
    /// For each slot, whether its command buffer has been submitted and the
    /// host has not yet seen the fence of that submission signalled.
    pub in_flight: [bool; FRAME_OVERLAP],
    /// For each slot, whether its fence has been reset and no submission
    /// carries it yet. Nothing will signal such a fence, so the next frame
    /// on the slot does not wait for it.
    pub fence_reset: [bool; FRAME_OVERLAP],
}

/// Whether the phase lies between the acquisition of a swapchain image and
/// the end of the frame.
pub open spec fn holds_image(phase: FramePhase) -> bool {
    phase is ResettingCommands || phase is Beginning || phase is Recording || phase is Ending
        || phase is Submitting || phase is Presenting
}

/// Whether the phase lies between the successful wait for the fence of the
/// slot and the submission of its command buffer.
pub open spec fn owns_slot(phase: FramePhase) -> bool {
    phase is ResettingFence || phase is Acquiring || phase is ResettingCommands
        || phase is Beginning || phase is Recording || phase is Ending || phase is Submitting
}

/// Whether the call makes the device forget or overwrite what a command
/// buffer holds.
pub open spec fn rerecords(action: FrameAction) -> bool {
    action is ResetCommandBuffer || action is BeginCommandBuffer || action is Record
}

/// The command buffer that a call forgets or overwrites.
pub open spec fn rerecorded_buffer(action: FrameAction) -> vk::Handle {
    match action {
        FrameAction::ResetCommandBuffer { command_buffer } => command_buffer,
        FrameAction::BeginCommandBuffer { command_buffer, .. } => command_buffer,
        FrameAction::Record { command_buffer } => command_buffer,
        _ => vk::NULL_HANDLE,
    }
}

/// Width and height of a three-dimensional extent.
pub open spec fn flat(extent: vk::Extent3D) -> vk::Extent2D {
    vk::Extent2D { width: extent.width, height: extent.height }
}

/// Workgroups that cover `pixels` pixels along one side.
pub open spec fn group_count(pixels: u32) -> int {
    (pixels + WORKGROUP_SIZE - 1) / (WORKGROUP_SIZE as int)
}

/// Computes the workgroups that cover `pixels` pixels along one side.
pub fn workgroups(pixels: u32) -> (n: u32)
    ensures
        n == group_count(pixels),
{
    let whole: u32 = pixels / WORKGROUP_SIZE;
    if pixels % WORKGROUP_SIZE == 0 {
        whole
    } else {
        whole + 1
    }
}

/// Whether window events leave the loop pausing: the last of a minimize
/// or restore decides, and without either the flag stays.
pub open spec fn stopped_after(stopped: bool, events: Seq<WindowEvent>) -> bool
    decreases events.len(),
{
    if events.len() == 0 {
        stopped
    } else {
        match events.last() {
            WindowEvent::Minimized => true,
            WindowEvent::Restored => false,
            _ => stopped_after(stopped, events.drop_last()),
        }
    }
}

/// Whether the program has been asked to end, before or among the events.
pub open spec fn quit_after(quit: bool, events: Seq<WindowEvent>) -> bool {
    quit || events.contains(WindowEvent::Quit)
}

impl VulkanEngine {
    /// What must hold of an engine between any two calls.
    pub open spec fn wf(self) -> bool {
        &&& self.swapchain_images@.len() == self.swapchain_image_views@.len()
        &&& self.current_background_effect < self.background_effects@.len()
        &&& self.test_meshes@.len() > DRAWN_MESH
        &&& self.test_meshes@[DRAWN_MESH as int].surfaces@.len() > 0
        &&& extent_fits_offsets(flat(self.draw_image.image_extent))
        &&& extent_fits_offsets(self.swapchain_extent)
        &&& holds_image(self.phase) ==> self.image_index < self.swapchain_images@.len()
        &&& owns_slot(self.phase) ==> !self.in_flight[self.slot()]
        &&& forall|k: int|
            0 <= k < FRAME_OVERLAP ==> #[trigger] self.fence_reset[k] ==> !self.in_flight[k]
        &&& (self.phase is Beginning || self.phase is Recording) ==> self.draw_extent == flat(
            self.draw_image.image_extent,
        )
        &&& self.is_initialized ==> self.holds_all_memory()
    }

    /// Whether every image and buffer of the engine still owns its memory.
    pub open spec fn holds_all_memory(self) -> bool {
        &&& self.draw_image.allocation.is_set()
        &&& self.depth_image.allocation.is_set()
        &&& forall|i: int|
            0 <= i < self.test_meshes@.len() ==> (#[trigger] self.test_meshes@[i]).mesh_buffers.is_live()
    }

    /// The engine with the frame in progress given up.
    pub open spec fn abandoned(self) -> VulkanEngine {
        VulkanEngine { phase: FramePhase::Idle, ..self }
    }

    /// The engine in another phase of the same frame.
    pub open spec fn in_phase(self, phase: FramePhase) -> VulkanEngine {
        VulkanEngine { phase, ..self }
    }

    /// The batch of the frame in progress: it waits for the swapchain image
    /// where colour is written, and signals the end once all graphics
    /// stages are through.
    pub open spec fn frame_submit(self) -> vk::SubmitInfo2 {
        vk::SubmitInfo2 {
            wait_semaphore_info: Some(
                vk_init::spec_semaphore_submit_info(
                    vk::PIPELINE_STAGE_2_COLOR_ATTACHMENT_OUTPUT,
                    self.current().swapchain_semaphore,
                ),
            ),
            command_buffer_info: vk::CommandBufferSubmitInfo {
                command_buffer: self.current().main_command_buffer,
                device_mask: 0,
            },
            signal_semaphore_info: Some(
                vk_init::spec_semaphore_submit_info(
                    vk::PIPELINE_STAGE_2_ALL_GRAPHICS,
                    self.current().render_semaphore,
                ),
            ),
        }
    }

    /// What `draw` makes of an engine and an event: the engine afterwards,
    /// and the call it hands out or the error it reports.
    ///
    /// A frame runs through its phases in one fixed order. Each phase hands
    /// out one call and moves on when that call reports success. Any other
    /// result gives the frame up: the engine returns to `Idle` with the
    /// frame number unchanged. An event that does not belong to the phase
    /// changes nothing.
    pub open spec fn draw_spec(self, event: FrameEvent) -> (
        VulkanEngine,
        Result<FrameAction, FrameError>,
    ) {
        let cur = self.current();
        if !self.is_initialized {
            (self, Err(FrameError::NotInitialized))
        } else {
            match (self.phase, event) {
                (FramePhase::Idle, FrameEvent::Start) => if self.fence_reset[self.slot()] {
                    (
                        self.in_phase(FramePhase::Acquiring),
                        Ok(
                            FrameAction::AcquireNextImage {
                                swapchain: self.swapchain,
                                timeout: ACQUIRE_TIMEOUT_NS,
                                semaphore: cur.swapchain_semaphore,
                            },
                        ),
                    )
                } else {
                    (
                        self.in_phase(FramePhase::WaitingFence),
                        Ok(
                            FrameAction::WaitForFence {
                                fence: cur.render_fence,
                                timeout: FENCE_TIMEOUT_NS,
                            },
                        ),
                    )
                },
                (FramePhase::WaitingFence, FrameEvent::Done(code)) => if code == vk::SUCCESS {
                    (
                        VulkanEngine {
                            phase: FramePhase::ResettingFence,
                            in_flight: spec_array_update(self.in_flight, self.slot(), false),
                            ..self
                        },
                        Ok(FrameAction::ResetFence { fence: cur.render_fence }),
                    )
                } else if code == vk::TIMEOUT {
                    (self.abandoned(), Err(FrameError::FenceTimeout))
                } else {
                    (self.abandoned(), Err(self.device_error(code)))
                },
                (FramePhase::ResettingFence, FrameEvent::Done(code)) => if code == vk::SUCCESS {
                    (
                        VulkanEngine {
                            phase: FramePhase::Acquiring,
                            fence_reset: spec_array_update(self.fence_reset, self.slot(), true),
                            ..self
                        },
                        Ok(
                            FrameAction::AcquireNextImage {
                                swapchain: self.swapchain,
                                timeout: ACQUIRE_TIMEOUT_NS,
                                semaphore: cur.swapchain_semaphore,
                            },
                        ),
                    )
                } else {
                    (self.abandoned(), Err(self.device_error(code)))
                },
                (FramePhase::Acquiring, FrameEvent::Acquired { code, image_index }) => if code
                    == vk::SUCCESS || code == vk::SUBOPTIMAL_KHR {
                    if image_index < self.swapchain_images@.len() {
                        (
                            VulkanEngine {
                                phase: FramePhase::ResettingCommands,
                                image_index,
                                ..self
                            },
                            Ok(
                                FrameAction::ResetCommandBuffer {
                                    command_buffer: cur.main_command_buffer,
                                },
                            ),
                        )
                    } else {
                        (self.abandoned(), Err(FrameError::ImageIndexOutOfRange(image_index)))
                    }
                } else if code == vk::ERROR_OUT_OF_DATE_KHR {
                    (self.abandoned(), Err(FrameError::SwapchainOutOfDate))
                } else {
                    (self.abandoned(), Err(self.device_error(code)))
                },
                (FramePhase::ResettingCommands, FrameEvent::Done(code)) => if code == vk::SUCCESS {
                    (
                        VulkanEngine {
                            phase: FramePhase::Beginning,
                            draw_extent: flat(self.draw_image.image_extent),
                            ..self
                        },
                        Ok(
                            FrameAction::BeginCommandBuffer {
                                command_buffer: cur.main_command_buffer,
                                info: vk::CommandBufferBeginInfo {
                                    flags: vk::COMMAND_BUFFER_USAGE_ONE_TIME_SUBMIT,
                                },
                            },
                        ),
                    )
                } else {
                    (self.abandoned(), Err(self.device_error(code)))
                },
                (FramePhase::Beginning, FrameEvent::Done(code)) => if code == vk::SUCCESS {
                    (
                        self.in_phase(FramePhase::Recording),
                        Ok(FrameAction::Record { command_buffer: cur.main_command_buffer }),
                    )
                } else {
                    (self.abandoned(), Err(self.device_error(code)))
                },
                (FramePhase::Recording, FrameEvent::Done(code)) => if code == vk::SUCCESS {
                    (
                        self.in_phase(FramePhase::Ending),
                        Ok(
                            FrameAction::EndCommandBuffer {
                                command_buffer: cur.main_command_buffer,
                            },
                        ),
                    )
                } else {
                    (self.abandoned(), Err(self.device_error(code)))
                },
                (FramePhase::Ending, FrameEvent::Done(code)) => if code == vk::SUCCESS {
                    (
                        self.in_phase(FramePhase::Submitting),
                        Ok(
                            FrameAction::Submit {
                                queue: self.graphics_queue,
                                submit: self.frame_submit(),
                                fence: cur.render_fence,
                            },
                        ),
                    )
                } else {
                    (self.abandoned(), Err(self.device_error(code)))
                },
                (FramePhase::Submitting, FrameEvent::Done(code)) => if code == vk::SUCCESS {
                    (
                        VulkanEngine {
                            phase: FramePhase::Presenting,
                            in_flight: spec_array_update(self.in_flight, self.slot(), true),
                            fence_reset: spec_array_update(self.fence_reset, self.slot(), false),
                            ..self
                        },
                        Ok(
                            FrameAction::Present {
                                queue: self.graphics_queue,
                                swapchain: self.swapchain,
                                wait_semaphore: cur.render_semaphore,
                                image_index: self.image_index,
                            },
                        ),
                    )
                } else {
                    (self.abandoned(), Err(self.device_error(code)))
                },
                (FramePhase::Presenting, FrameEvent::Done(code)) => if code == vk::SUCCESS || code
                    == vk::SUBOPTIMAL_KHR {
                    (
                        VulkanEngine {
                            phase: FramePhase::Idle,
                            frame_number: next_frame(self.frame_number),
                            ..self
                        },
                        Ok(FrameAction::FrameDone),
                    )
                } else if code == vk::ERROR_OUT_OF_DATE_KHR {
                    (self.abandoned(), Err(FrameError::SwapchainOutOfDate))
                } else {
                    (self.abandoned(), Err(self.device_error(code)))
                },
                _ => (self, Err(FrameError::UnexpectedEvent)),
            }
        }
    }

    /// The error for a device call that failed with `code` in the phase
    /// the engine is in.
    pub open spec fn device_error(self, code: i32) -> FrameError {
        FrameError::Device { phase: self.phase, error: error_of(code) }
    }

    /// Gives the frame up after a device call failed with `code`.
    fn fail(&mut self, code: i32) -> (r: Result<FrameAction, FrameError>)
        ensures
            *final(self) == old(self).abandoned(),
            r == Err::<FrameAction, FrameError>(old(self).device_error(code)),
    {
        let phase = self.phase;
        self.phase = FramePhase::Idle;
        Err(FrameError::Device { phase, error: classify(code) })
    }

    /// Moves the frame on by one device call.
    ///
    /// The host begins a frame with `Start`, performs the call that comes
    /// back, and reports its result code with the next call of `draw`,
    /// until `FrameDone` comes back or an error. The calls of a frame, in
    /// order: wait for the fence of the slot, reset that fence, acquire a
    /// swapchain image, reset the command buffer, begin it, record the
    /// frame, end the command buffer, submit it, present the image. With
    /// `FrameDone` the frame number has advanced to the next slot.
    ///
    /// A frame that is given up after its fence was reset leaves that fence
    /// unsignalled with no submission to signal it. The next frame on the
    /// slot therefore begins with the acquisition: nothing of the slot is on
    /// the device, and a wait could only run out of time.
    pub fn draw(&mut self, event: FrameEvent) -> (r: Result<FrameAction, FrameError>)
        requires
            old(self).wf(),
        ensures
            (*final(self), r) == old(self).draw_spec(event),
            final(self).wf(),
    {
        if !self.is_initialized {
            return Err(FrameError::NotInitialized);
        }
        let cur: FrameData = *self.get_current_frame();
        let slot: usize = slot_index(self.frame_number);
        match (self.phase, event) {
            (FramePhase::Idle, FrameEvent::Start) => {
                if self.fence_reset[slot] {
                    // An earlier frame on this slot was given up between the
                    // reset of the fence and the submission.
                    self.phase = FramePhase::Acquiring;
                    Ok(
                        FrameAction::AcquireNextImage {
                            swapchain: self.swapchain,
                            timeout: ACQUIRE_TIMEOUT_NS,
                            semaphore: cur.swapchain_semaphore,
                        },
                    )
                } else {
                    self.phase = FramePhase::WaitingFence;
                    Ok(
                        FrameAction::WaitForFence {
                            fence: cur.render_fence,
                            timeout: FENCE_TIMEOUT_NS,
                        },
                    )
                }
            },
            (FramePhase::WaitingFence, FrameEvent::Done(code)) => {
                if code == vk::SUCCESS {
                    self.get_current_frame_mut().dealloc_last_frame();
                    self.in_flight[slot] = false;
                    self.phase = FramePhase::ResettingFence;
                    proof {
                        assert(self.in_flight =~= spec_array_update(
                            old(self).in_flight,
                            old(self).slot(),
                            false,
                        ));
                        assert(self.frames =~= old(self).frames);
                    }
                    Ok(FrameAction::ResetFence { fence: cur.render_fence })
                } else if code == vk::TIMEOUT {
                    self.phase = FramePhase::Idle;
                    Err(FrameError::FenceTimeout)
                } else {
                    self.fail(code)
                }
            },
            (FramePhase::ResettingFence, FrameEvent::Done(code)) => {
                if code == vk::SUCCESS {
                    self.fence_reset[slot] = true;
                    self.phase = FramePhase::Acquiring;
                    proof {
                        assert(self.fence_reset =~= spec_array_update(
                            old(self).fence_reset,
                            old(self).slot(),
                            true,
                        ));
                    }
                    Ok(
                        FrameAction::AcquireNextImage {
                            swapchain: self.swapchain,
                            timeout: ACQUIRE_TIMEOUT_NS,
                            semaphore: cur.swapchain_semaphore,
                        },
                    )
                } else {
                    self.fail(code)
                }
            },
            (FramePhase::Acquiring, FrameEvent::Acquired { code, image_index }) => {
                if code == vk::SUCCESS || code == vk::SUBOPTIMAL_KHR {
                    if (image_index as usize) < self.swapchain_images.len() {
                        self.image_index = image_index;
                        self.phase = FramePhase::ResettingCommands;
                        Ok(
                            FrameAction::ResetCommandBuffer {
                                command_buffer: cur.main_command_buffer,
                            },
                        )
                    } else {
                        self.phase = FramePhase::Idle;
                        Err(FrameError::ImageIndexOutOfRange(image_index))
                    }
                } else if code == vk::ERROR_OUT_OF_DATE_KHR {
                    self.phase = FramePhase::Idle;
                    Err(FrameError::SwapchainOutOfDate)
                } else {
                    self.fail(code)
                }
            },
            (FramePhase::ResettingCommands, FrameEvent::Done(code)) => {
                if code == vk::SUCCESS {
                    self.draw_extent =
                    vk::Extent2D {
                        width: self.draw_image.image_extent.width,
                        height: self.draw_image.image_extent.height,
                    };
                    self.phase = FramePhase::Beginning;
                    Ok(
                        FrameAction::BeginCommandBuffer {
                            command_buffer: cur.main_command_buffer,
                            info: vk_init::command_buffer_begin_info(
                                vk::COMMAND_BUFFER_USAGE_ONE_TIME_SUBMIT,
                            ),
                        },
                    )
                } else {
                    self.fail(code)
                }
            },
            (FramePhase::Beginning, FrameEvent::Done(code)) => {
                if code == vk::SUCCESS {
                    self.phase = FramePhase::Recording;
                    Ok(FrameAction::Record { command_buffer: cur.main_command_buffer })
                } else {
                    self.fail(code)
                }
            },
            (FramePhase::Recording, FrameEvent::Done(code)) => {
                if code == vk::SUCCESS {
                    self.phase = FramePhase::Ending;
                    Ok(FrameAction::EndCommandBuffer { command_buffer: cur.main_command_buffer })
                } else {
                    self.fail(code)
                }
            },
            (FramePhase::Ending, FrameEvent::Done(code)) => {
                if code == vk::SUCCESS {
                    let cmd_info = vk_init::command_buffer_submit_info(cur.main_command_buffer);
                    let wait_info = vk_init::semaphore_submit_info(
                        vk::PIPELINE_STAGE_2_COLOR_ATTACHMENT_OUTPUT,
                        cur.swapchain_semaphore,
                    );
                    let signal_info = vk_init::semaphore_submit_info(
                        vk::PIPELINE_STAGE_2_ALL_GRAPHICS,
                        cur.render_semaphore,
                    );
                    let submit = vk_init::submit_info(
                        &cmd_info,
                        Some(&signal_info),
                        Some(&wait_info),
                    );
                    self.phase = FramePhase::Submitting;
                    Ok(
                        FrameAction::Submit {
                            queue: self.graphics_queue,
                            submit,
                            fence: cur.render_fence,
                        },
                    )
                } else {
                    self.fail(code)
                }
            },
            (FramePhase::Submitting, FrameEvent::Done(code)) => {
                if code == vk::SUCCESS {
                    self.in_flight[slot] = true;
                    self.fence_reset[slot] = false;
                    self.phase = FramePhase::Presenting;
                    proof {
                        assert(self.in_flight =~= spec_array_update(
                            old(self).in_flight,
                            old(self).slot(),
                            true,
                        ));
                    }
                    Ok(
                        FrameAction::Present {
                            queue: self.graphics_queue,
                            swapchain: self.swapchain,
                            wait_semaphore: cur.render_semaphore,
                            image_index: self.image_index,
                        },
                    )
                } else {
                    self.fail(code)
                }
            },
            (FramePhase::Presenting, FrameEvent::Done(code)) => {
                if code == vk::SUCCESS || code == vk::SUBOPTIMAL_KHR {
                    self.frame_number = self.frame_number.wrapping_add(1);
                    self.phase = FramePhase::Idle;
                    Ok(FrameAction::FrameDone)
                } else if code == vk::ERROR_OUT_OF_DATE_KHR {
                    self.phase = FramePhase::Idle;
                    Err(FrameError::SwapchainOutOfDate)
                } else {
                    self.fail(code)
                }
            },
            _ => Err(FrameError::UnexpectedEvent),
        }
    }
}

// Recording.
impl VulkanEngine {
    /// The background effect that is switched on.
    pub open spec fn active_effect(self) -> ComputeEffect {
        self.background_effects@[self.current_background_effect as int]
    }

    /// The mesh that every frame draws.
    pub open spec fn drawn_mesh(self) -> MeshAsset {
        self.test_meshes@[DRAWN_MESH as int]
    }

    /// The commands of the background pass: the active effect with the
    /// draw image bound and its parameters pushed, dispatched in enough
    /// workgroups to cover the draw extent.
    pub open spec fn background_commands(self) -> Seq<Command> {
        let effect = self.active_effect();
        seq![
            Command::BindPipeline {
                bind_point: vk::PIPELINE_BIND_POINT_COMPUTE,
                pipeline: effect.pipeline,
            },
            Command::BindDescriptorSet {
                bind_point: vk::PIPELINE_BIND_POINT_COMPUTE,
                layout: effect.layout,
                set: self.draw_image_descriptors,
            },
            Command::PushConstants {
                layout: effect.layout,
                stage_flags: vk::SHADER_STAGE_COMPUTE,
                offset: 0,
                size: COMPUTE_PUSH_CONSTANTS_SIZE,
                data: PushData::Effect(self.current_background_effect),
            },
            Command::Dispatch {
                group_count_x: group_count(self.draw_extent.width) as u32,
                group_count_y: group_count(self.draw_extent.height) as u32,
                group_count_z: 1,
            },
        ]
    }

    /// The render pass of the mesh: colour is loaded, depth is cleared. Both
    /// attachments are in the layouts that the barriers before the pass
    /// left them in.
    pub open spec fn geometry_pass(self) -> vk::RenderingInfo {
        vk_init::spec_rendering_info(
            self.draw_extent,
            vk_init::spec_attachment_info(
                self.draw_image.image_view,
                None,
                vk::IMAGE_LAYOUT_COLOR_ATTACHMENT_OPTIMAL,
            ),
            Some(
                vk_init::spec_depth_attachment_info(
                    self.depth_image.image_view,
                    vk::IMAGE_LAYOUT_DEPTH_ATTACHMENT_OPTIMAL,
                ),
            ),
        )
    }

    /// The commands of the mesh pass: a render pass over the colour and
    /// depth targets, viewport and scissor over the whole draw extent, and
    /// one indexed draw of the first surface of the drawn mesh.
    pub open spec fn geometry_commands(self) -> Seq<Command> {
        let mesh = self.drawn_mesh();
        seq![
            Command::BeginRendering(self.geometry_pass()),
            Command::SetViewport {
                width: self.draw_extent.width,
                height: self.draw_extent.height,
            },
            Command::SetScissor(
                vk::Rect2D { offset: vk::Offset2D { x: 0, y: 0 }, extent: self.draw_extent },
            ),
            Command::BindPipeline {
                bind_point: vk::PIPELINE_BIND_POINT_GRAPHICS,
                pipeline: self.mesh_pipeline,
            },
            Command::PushConstants {
                layout: self.mesh_pipeline_layout,
                stage_flags: vk::SHADER_STAGE_VERTEX,
                offset: 0,
                size: MESH_PUSH_CONSTANTS_SIZE,
                data: PushData::MeshDraw {
                    vertex_buffer: mesh.mesh_buffers.vertex_buffer_address,
                },
            },
            Command::BindIndexBuffer {
                buffer: mesh.mesh_buffers.index_buffer.buffer,
                buffer_offset: 0,
                index_type: vk::INDEX_TYPE_UINT32,
            },
            Command::DrawIndexed {
                index_count: mesh.surfaces@[0].count,
                instance_count: 1,
                first_index: mesh.surfaces@[0].start_index,
                vertex_offset: 0,
                first_instance: 0,
            },
            Command::EndRendering,
        ]
    }

    /// The commands of the overlay pass: a render pass over the given view
    /// of a swapchain image, in which the overlay draws itself. The image
    /// is a colour attachment by then.
    pub open spec fn overlay_commands(self, target_image_view: vk::Handle) -> Seq<Command> {
        seq![
            Command::BeginRendering(
                vk_init::spec_rendering_info(
                    self.swapchain_extent,
                    vk_init::spec_attachment_info(
                        target_image_view,
                        None,
                        vk::IMAGE_LAYOUT_COLOR_ATTACHMENT_OPTIMAL,
                    ),
                    None,
                ),
            ),
            Command::DrawOverlay,
            Command::EndRendering,
        ]
    }

    /// The swapchain image that the frame in progress renders to.
    pub open spec fn target_image(self) -> vk::Handle {
        self.swapchain_images@[self.image_index as int]
    }

    /// A barrier as a command.
    pub open spec fn barrier(image: vk::Handle, old_layout: i32, new_layout: i32) -> Command {
        Command::PipelineBarrier(spec_transition_image(image, old_layout, new_layout))
    }

    /// All commands of one frame, in recording order.
    pub open spec fn frame_commands(self) -> Seq<Command> {
        let draw = self.draw_image.image;
        let target = self.target_image();
        seq![Self::barrier(draw, vk::IMAGE_LAYOUT_UNDEFINED, vk::IMAGE_LAYOUT_GENERAL)]
            + self.background_commands() + seq![
            Self::barrier(
                draw,
                vk::IMAGE_LAYOUT_GENERAL,
                vk::IMAGE_LAYOUT_COLOR_ATTACHMENT_OPTIMAL,
            ),
            Self::barrier(
                self.depth_image.image,
                vk::IMAGE_LAYOUT_UNDEFINED,
                vk::IMAGE_LAYOUT_DEPTH_ATTACHMENT_OPTIMAL,
            ),
        ] + self.geometry_commands() + seq![
            Self::barrier(
                draw,
                vk::IMAGE_LAYOUT_COLOR_ATTACHMENT_OPTIMAL,
                vk::IMAGE_LAYOUT_TRANSFER_SRC_OPTIMAL,
            ),
            Self::barrier(
                target,
                vk::IMAGE_LAYOUT_UNDEFINED,
                vk::IMAGE_LAYOUT_TRANSFER_DST_OPTIMAL,
            ),
            Command::BlitImage(
                spec_copy_image_to_image(draw, target, self.draw_extent, self.swapchain_extent),
            ),
            Self::barrier(
                target,
                vk::IMAGE_LAYOUT_TRANSFER_DST_OPTIMAL,
                vk::IMAGE_LAYOUT_COLOR_ATTACHMENT_OPTIMAL,
            ),
        ] + self.overlay_commands(self.swapchain_image_views@[self.image_index as int]) + seq![
            Self::barrier(
                target,
                vk::IMAGE_LAYOUT_COLOR_ATTACHMENT_OPTIMAL,
                vk::IMAGE_LAYOUT_PRESENT_SRC_KHR,
            ),
        ]
    }

    /// The layout changes of one frame, in recording order.
    ///
    /// The draw image becomes general for the background pass and a colour
    /// attachment for the mesh pass, next to the depth image as depth
    /// attachment. Then the draw image becomes the source and the swapchain
    /// image the destination of the copy. The swapchain image becomes a
    /// colour attachment for the overlay and, last, presentable.
    pub open spec fn frame_transitions(self) -> Seq<Transition> {
        let draw = self.draw_image.image;
        let target = self.target_image();
        seq![
            Transition {
                image: draw,
                old_layout: vk::IMAGE_LAYOUT_UNDEFINED,
                new_layout: vk::IMAGE_LAYOUT_GENERAL,
            },
            Transition {
                image: draw,
                old_layout: vk::IMAGE_LAYOUT_GENERAL,
                new_layout: vk::IMAGE_LAYOUT_COLOR_ATTACHMENT_OPTIMAL,
            },
            Transition {
                image: self.depth_image.image,
                old_layout: vk::IMAGE_LAYOUT_UNDEFINED,
                new_layout: vk::IMAGE_LAYOUT_DEPTH_ATTACHMENT_OPTIMAL,
            },
            Transition {
                image: draw,
                old_layout: vk::IMAGE_LAYOUT_COLOR_ATTACHMENT_OPTIMAL,
                new_layout: vk::IMAGE_LAYOUT_TRANSFER_SRC_OPTIMAL,
            },
            Transition {
                image: target,
                old_layout: vk::IMAGE_LAYOUT_UNDEFINED,
                new_layout: vk::IMAGE_LAYOUT_TRANSFER_DST_OPTIMAL,
            },
            Transition {
                image: target,
                old_layout: vk::IMAGE_LAYOUT_TRANSFER_DST_OPTIMAL,
                new_layout: vk::IMAGE_LAYOUT_COLOR_ATTACHMENT_OPTIMAL,
            },
            Transition {
                image: target,
                old_layout: vk::IMAGE_LAYOUT_COLOR_ATTACHMENT_OPTIMAL,
                new_layout: vk::IMAGE_LAYOUT_PRESENT_SRC_KHR,
            },
        ]
    }

    /// Records the background pass.
    pub fn draw_background(&self, cmd: &mut Vec<Command>)
        requires
            self.wf(),
        ensures
            final(cmd)@ == old(cmd)@ + self.background_commands(),
            transitions_of(final(cmd)@) == transitions_of(old(cmd)@),
    {
        let effect = &self.background_effects[self.current_background_effect];
        record(
            cmd,
            Command::BindPipeline {
                bind_point: vk::PIPELINE_BIND_POINT_COMPUTE,
                pipeline: effect.pipeline,
            },
        );
        record(
            cmd,
            Command::BindDescriptorSet {
                bind_point: vk::PIPELINE_BIND_POINT_COMPUTE,
                layout: effect.layout,
                set: self.draw_image_descriptors,
            },
        );
        record(
            cmd,
            Command::PushConstants {
                layout: effect.layout,
                stage_flags: vk::SHADER_STAGE_COMPUTE,
                offset: 0,
                size: COMPUTE_PUSH_CONSTANTS_SIZE,
                data: PushData::Effect(self.current_background_effect),
            },
        );
        record(
            cmd,
            Command::Dispatch {
                group_count_x: workgroups(self.draw_extent.width),
                group_count_y: workgroups(self.draw_extent.height),
                group_count_z: 1,
            },
        );
        proof {
            assert(cmd@ =~= old(cmd)@ + self.background_commands());
        }
    }

    /// Records the overlay pass onto the given view of a swapchain image.
    pub fn draw_imgui(&self, cmd: &mut Vec<Command>, target_image_view: vk::Handle)
        ensures
            final(cmd)@ == old(cmd)@ + self.overlay_commands(target_image_view),
            transitions_of(final(cmd)@) == transitions_of(old(cmd)@),
    {
        let color_attachment = vk_init::attachment_info(
            target_image_view,
            None,
            vk::IMAGE_LAYOUT_COLOR_ATTACHMENT_OPTIMAL,
        );
        let render_info = vk_init::rendering_info(self.swapchain_extent, color_attachment, None);
        record(cmd, Command::BeginRendering(render_info));
        record(cmd, Command::DrawOverlay);
        record(cmd, Command::EndRendering);
        proof {
            assert(cmd@ =~= old(cmd)@ + self.overlay_commands(target_image_view));
        }
    }

    /// Records the mesh pass.
    pub fn draw_geometry(&self, cmd: &mut Vec<Command>)
        requires
            self.wf(),
        ensures
            final(cmd)@ == old(cmd)@ + self.geometry_commands(),
            transitions_of(final(cmd)@) == transitions_of(old(cmd)@),
    {
        let color_attachment = vk_init::attachment_info(
            self.draw_image.image_view,
            None,
            vk::IMAGE_LAYOUT_COLOR_ATTACHMENT_OPTIMAL,
        );
        let depth_attachment = vk_init::depth_attachment_info(
            self.depth_image.image_view,
            vk::IMAGE_LAYOUT_DEPTH_ATTACHMENT_OPTIMAL,
        );
        let render_info = vk_init::rendering_info(
            self.draw_extent,
            color_attachment,
            Some(&depth_attachment),
        );
        record(cmd, Command::BeginRendering(render_info));
        record(
            cmd,
            Command::SetViewport {
                width: self.draw_extent.width,
                height: self.draw_extent.height,
            },
        );
        record(
            cmd,
            Command::SetScissor(
                vk::Rect2D { offset: vk::Offset2D { x: 0, y: 0 }, extent: self.draw_extent },
            ),
        );
        record(
            cmd,
            Command::BindPipeline {
                bind_point: vk::PIPELINE_BIND_POINT_GRAPHICS,
                pipeline: self.mesh_pipeline,
            },
        );
        let mesh = &self.test_meshes[DRAWN_MESH];
        record(
            cmd,
            Command::PushConstants {
                layout: self.mesh_pipeline_layout,
                stage_flags: vk::SHADER_STAGE_VERTEX,
                offset: 0,
                size: MESH_PUSH_CONSTANTS_SIZE,
                data: PushData::MeshDraw {
                    vertex_buffer: mesh.mesh_buffers.vertex_buffer_address,
                },
            },
        );
        record(
            cmd,
            Command::BindIndexBuffer {
                buffer: mesh.mesh_buffers.index_buffer.buffer,
                buffer_offset: 0,
                index_type: vk::INDEX_TYPE_UINT32,
            },
        );
        let surface = mesh.surfaces[0];
        record(
            cmd,
            Command::DrawIndexed {
                index_count: surface.count,
                instance_count: 1,
                first_index: surface.start_index,
                vertex_offset: 0,
                first_instance: 0,
            },
        );
        record(cmd, Command::EndRendering);
        proof {
            assert(cmd@ =~= old(cmd)@ + self.geometry_commands());
        }
    }

    /// Records the commands of the frame in progress at the end of `cmd`.
    ///
    /// This answers the call `Record`: it records, and returns `true`,
    /// exactly when the engine is in the phase `Recording`. The layout
    /// changes among the commands are those of `frame_transitions`, in that
    /// order.
    pub fn record_frame(&self, cmd: &mut Vec<Command>) -> (recorded: bool)
        requires
            self.wf(),
        ensures
            recorded <==> self.phase is Recording,
            recorded ==> final(cmd)@ == old(cmd)@ + self.frame_commands(),
            recorded ==> transitions_of(final(cmd)@) == transitions_of(old(cmd)@)
                + self.frame_transitions(),
            !recorded ==> final(cmd)@ == old(cmd)@,
    {
        match self.phase {
            FramePhase::Recording => {},
            _ => {
                return false;
            },
        }
        let draw: vk::Handle = self.draw_image.image;
        let index: usize = self.image_index as usize;
        let target: vk::Handle = self.swapchain_images[index];
        let target_view: vk::Handle = self.swapchain_image_views[index];

        // The background pass writes the whole image: what it held is of no interest.
        transition_image(cmd, draw, vk::IMAGE_LAYOUT_UNDEFINED, vk::IMAGE_LAYOUT_GENERAL);
        self.draw_background(cmd);

        transition_image(
            cmd,
            draw,
            vk::IMAGE_LAYOUT_GENERAL,
            vk::IMAGE_LAYOUT_COLOR_ATTACHMENT_OPTIMAL,
        );
        transition_image(
            cmd,
            self.depth_image.image,
            vk::IMAGE_LAYOUT_UNDEFINED,
            vk::IMAGE_LAYOUT_DEPTH_ATTACHMENT_OPTIMAL,
        );
        self.draw_geometry(cmd);

        transition_image(
            cmd,
            draw,
            vk::IMAGE_LAYOUT_COLOR_ATTACHMENT_OPTIMAL,
            vk::IMAGE_LAYOUT_TRANSFER_SRC_OPTIMAL,
        );
        transition_image(
            cmd,
            target,
            vk::IMAGE_LAYOUT_UNDEFINED,
            vk::IMAGE_LAYOUT_TRANSFER_DST_OPTIMAL,
        );
        let copied = copy_image_to_image(
            cmd,
            draw,
            target,
            self.draw_extent,
            self.swapchain_extent,
        );
        assert(copied);

        transition_image(
            cmd,
            target,
            vk::IMAGE_LAYOUT_TRANSFER_DST_OPTIMAL,
            vk::IMAGE_LAYOUT_COLOR_ATTACHMENT_OPTIMAL,
        );
        self.draw_imgui(cmd, target_view);

        transition_image(
            cmd,
            target,
            vk::IMAGE_LAYOUT_COLOR_ATTACHMENT_OPTIMAL,
            vk::IMAGE_LAYOUT_PRESENT_SRC_KHR,
        );
        proof {
            assert(cmd@ =~= old(cmd)@ + self.frame_commands());
            assert(transitions_of(cmd@) =~= transitions_of(old(cmd)@) + self.frame_transitions());
        }
        true
    }
}

/// What stands in the way of assembling an engine from these parts, if
/// anything; of several obstacles the first in the order of `InitError`.
pub open spec fn init_obstacle(
    swapchain: SwapchainState,
    draw_image: AllocatedImage,
    depth_image: AllocatedImage,
    pipelines: Pipelines,
    test_meshes: Seq<MeshAsset>,
) -> Option<InitError> {
    if swapchain.images@.len() != swapchain.image_views@.len() {
        Some(InitError::ImageViewMismatch)
    } else if !extent_fits_offsets(flat(draw_image.image_extent)) || !extent_fits_offsets(
        swapchain.extent,
    ) {
        Some(InitError::ExtentTooLarge)
    } else if !draw_image.allocation.is_set() || !depth_image.allocation.is_set() {
        Some(InitError::TargetWithoutMemory)
    } else if pipelines.background_effects@.len() == 0 {
        Some(InitError::NoBackgroundEffect)
    } else if test_meshes.len() <= DRAWN_MESH || test_meshes[DRAWN_MESH as int].surfaces@.len()
        == 0 || exists|i: int|
        0 <= i < test_meshes.len() && !(#[trigger] test_meshes[i]).mesh_buffers.is_live() {
        Some(InitError::MissingMesh)
    } else {
        None
    }
}

/// Whether every mesh still owns the memory of both its buffers.
fn all_live(meshes: &Vec<MeshAsset>) -> (live: bool)
    ensures
        live <==> forall|i: int|
            0 <= i < meshes@.len() ==> (#[trigger] meshes@[i]).mesh_buffers.is_live(),
{
    let mut i: usize = 0;
    while i < meshes.len()
        invariant
            i <= meshes@.len(),
            forall|j: int| 0 <= j < i ==> (#[trigger] meshes@[j]).mesh_buffers.is_live(),
        decreases meshes@.len() - i,
    {
        let buffers = &meshes[i].mesh_buffers;
        if !buffers.vertex_buffer.allocation.holds() || !buffers.index_buffer.allocation.holds() {
            return false;
        }
        i += 1;
    }
    true
}

// Setup and main loop.
impl VulkanEngine {
    /// Assembles the engine from what the host has created on the device.
    ///
    /// The engine starts between frames at frame zero, rendering, with the
    /// first background effect switched on and no slot in flight: every
    /// fence was created signalled, so the first wait on each returns at
    /// once.
    ///
    /// Fails exactly when `init_obstacle` names an obstacle, with that
    /// obstacle as the error.
    pub fn init(
        window_extent: vk::Extent2D,
        surface: vk::Handle,
        device: DeviceContext,
        ring: FrameRing,
        swapchain: SwapchainState,
        draw_image: AllocatedImage,
        depth_image: AllocatedImage,
        descriptors: Descriptors,
        pipelines: Pipelines,
        imgui_pool: vk::Handle,
        test_meshes: Vec<MeshAsset>,
    ) -> (r: Result<VulkanEngine, InitError>)
        ensures
            match init_obstacle(swapchain, draw_image, depth_image, pipelines, test_meshes@) {
                Some(e) => r == Err::<VulkanEngine, InitError>(e),
                None => r is Ok,
            },
            r is Ok ==> {
                let e = r->Ok_0;
                &&& e.wf()
                &&& e.is_initialized
                &&& e.frame_number == 0
                &&& !e.stop_rendering
                &&& !e.quit_requested
                &&& e.phase is Idle
                &&& forall|k: int| 0 <= k < FRAME_OVERLAP ==> !#[trigger] e.in_flight[k]
                &&& forall|k: int| 0 <= k < FRAME_OVERLAP ==> !#[trigger] e.fence_reset[k]
                &&& e.current_background_effect == 0
                &&& e.image_index == 0
                &&& e.window_extent == window_extent
                &&& e.draw_extent == window_extent
                &&& e.surface == surface
                &&& e.physical_device == device.physical_device
                &&& e.graphics_queue == device.graphics_queue
                &&& e.graphics_queue_family == device.graphics_queue_family
                &&& e.frames == ring.frames
                &&& e.immediate_command_pool == ring.immediate_command_pool
                &&& e.immediate_command_buffer == ring.immediate_command_buffer
                &&& e.immediate_fence == ring.immediate_fence
                &&& e.swapchain == swapchain.swapchain
                &&& e.swapchain_image_format == swapchain.surface_format
                &&& e.swapchain_images == swapchain.images
                &&& e.swapchain_image_views == swapchain.image_views
                &&& e.swapchain_extent == swapchain.extent
                &&& e.draw_image == draw_image
                &&& e.depth_image == depth_image
                &&& e.global_descriptor_allocator == descriptors.global_descriptor_allocator
                &&& e.draw_image_descriptors == descriptors.draw_image_descriptors
                &&& e.draw_image_descriptor_layout == descriptors.draw_image_descriptor_layout
                &&& e.background_effects == pipelines.background_effects
                &&& e.mesh_pipeline == pipelines.mesh_pipeline
                &&& e.mesh_pipeline_layout == pipelines.mesh_pipeline_layout
                &&& e.imgui_pool == imgui_pool
                &&& e.test_meshes == test_meshes
            },
    {
        let limit: u32 = 0x7FFF_FFFF;
        if swapchain.images.len() != swapchain.image_views.len() {
            return Err(InitError::ImageViewMismatch);
        }
        if draw_image.image_extent.width > limit || draw_image.image_extent.height > limit
            || swapchain.extent.width > limit || swapchain.extent.height > limit {
            return Err(InitError::ExtentTooLarge);
        }
        if !draw_image.allocation.holds() || !depth_image.allocation.holds() {
            return Err(InitError::TargetWithoutMemory);
        }
        if pipelines.background_effects.len() == 0 {
            return Err(InitError::NoBackgroundEffect);
        }
        if test_meshes.len() <= DRAWN_MESH || test_meshes[DRAWN_MESH].surfaces.len() == 0
            || !all_live(&test_meshes) {
            return Err(InitError::MissingMesh);
        }
        Ok(
            VulkanEngine {
                is_initialized: true,
                frame_number: 0,
                stop_rendering: false,
                quit_requested: false,
                window_extent,
                surface,
                physical_device: device.physical_device,
                swapchain_extent: swapchain.extent,
                swapchain: swapchain.swapchain,
                swapchain_image_format: swapchain.surface_format,
                swapchain_images: swapchain.images,
                swapchain_image_views: swapchain.image_views,
                frames: ring.frames,
                graphics_queue: device.graphics_queue,
                graphics_queue_family: device.graphics_queue_family,
                draw_image,
                depth_image,
                draw_extent: window_extent,
                global_descriptor_allocator: descriptors.global_descriptor_allocator,
                draw_image_descriptors: descriptors.draw_image_descriptors,
                draw_image_descriptor_layout: descriptors.draw_image_descriptor_layout,
                immediate_fence: ring.immediate_fence,
                immediate_command_pool: ring.immediate_command_pool,
                immediate_command_buffer: ring.immediate_command_buffer,
                imgui_pool,
                background_effects: pipelines.background_effects,
                current_background_effect: 0,
                mesh_pipeline_layout: pipelines.mesh_pipeline_layout,
                mesh_pipeline: pipelines.mesh_pipeline,
                test_meshes,
                phase: FramePhase::Idle,
                image_index: 0,
                in_flight: [false, false],
                fence_reset: [false, false],
            },
        )
    }

    /// Switches to the background effect at `index`. An index beyond the
    /// effects changes nothing and gives `false`.
    pub fn select_effect(&mut self, index: usize) -> (selected: bool)
        requires
            old(self).wf(),
        ensures
            selected <==> index < old(self).background_effects@.len(),
            selected ==> *final(self) == (VulkanEngine {
                current_background_effect: index,
                ..*old(self)
            }),
            !selected ==> *final(self) == *old(self),
            final(self).wf(),
    {
        if index < self.background_effects.len() {
            self.current_background_effect = index;
            true
        } else {
            false
        }
    }

    /// The engine after one pass of the main loop over these events.
    pub open spec fn after_events(self, events: Seq<WindowEvent>) -> VulkanEngine {
        VulkanEngine {
            stop_rendering: stopped_after(self.stop_rendering, events),
            quit_requested: quit_after(self.quit_requested, events),
            ..self
        }
    }

    /// What the host does in a pass of the main loop that the engine
    /// enters in this state: nothing but sleep while rendering is stopped,
    /// a frame otherwise.
    pub open spec fn loop_action(self) -> LoopAction {
        if self.stop_rendering {
            LoopAction::Sleep { millis: MINIMIZED_SLEEP_MS }
        } else {
            LoopAction::Render
        }
    }

    /// One pass of the main loop: takes in the window events that arrived,
    /// in order, and says what the host does next.
    ///
    /// Minimizing the window stops rendering and restoring it resumes. A
    /// request to quit is noted in `quit_requested`; the host leaves the
    /// loop after the pass in which it finds the flag set. While rendering
    /// is stopped the pass asks for a short sleep and for nothing else.
    pub fn run(&mut self, events: &Vec<WindowEvent>) -> (action: LoopAction)
        ensures
            *final(self) == old(self).after_events(events@),
            action == final(self).loop_action(),
    {
        let mut i: usize = 0;
        while i < events.len()
            invariant
                i <= events@.len(),
                *self == old(self).after_events(events@.take(i as int)),
            decreases events@.len() - i,
        {
            proof {
                let upto = events@.take(i + 1);
                assert(upto.drop_last() =~= events@.take(i as int));
                assert(upto.last() == events@[i as int]);
                assert(upto.contains(WindowEvent::Quit) <==> events@.take(i as int).contains(
                    WindowEvent::Quit,
                ) || events@[i as int] == WindowEvent::Quit) by {
                    if upto.contains(WindowEvent::Quit) {
                        let j = choose|j: int| 0 <= j < upto.len() && upto[j] == WindowEvent::Quit;
                        if j < i {
                            assert(events@.take(i as int)[j] == WindowEvent::Quit);
                        }
                    }
                    if events@.take(i as int).contains(WindowEvent::Quit) {
                        let j = choose|j: int|
                            0 <= j < i && events@.take(i as int)[j] == WindowEvent::Quit;
                        assert(upto[j] == WindowEvent::Quit);
                    }
                    if events@[i as int] == WindowEvent::Quit {
                        assert(upto[i as int] == WindowEvent::Quit);
                    }
                }
            }
            match events[i] {
                WindowEvent::Quit => {
                    self.quit_requested = true;
                },
                WindowEvent::Minimized => {
                    self.stop_rendering = true;
                },
                WindowEvent::Restored => {
                    self.stop_rendering = false;
                },
                WindowEvent::Other => {},
            }
            i += 1;
        }
        proof {
            assert(events@.take(events@.len() as int) =~= events@);
        }
        if self.stop_rendering {
            LoopAction::Sleep { millis: MINIMIZED_SLEEP_MS }
        } else {
            LoopAction::Render
        }
    }
}

} // verus!
