//! The resources of one frame in flight, and the rotation over them.

use crate::vk;
use crate::vk_engine::VulkanEngine;
use vstd::array::spec_array_update;
use vstd::prelude::*;

verus! {

/// How many frames the host may have in flight: while the device works on
/// one, the host records the other.
pub const FRAME_OVERLAP: usize = 2;

/// What one frame in flight owns: a command pool with its one command
/// buffer, and the three primitives that order it against the swapchain,
/// the presentation and the host.
#[derive(Clone, Copy, Debug, PartialEq, Eq, Structural)]
pub struct FrameData {
    pub command_pool: vk::Handle,
    pub main_command_buffer: vk::Handle,
    /// Signalled when the acquired swapchain image may be written.
    pub swapchain_semaphore: vk::Handle,
    /// Signalled when the device has finished rendering the frame.
    pub render_semaphore: vk::Handle,
    /// Signalled when the device has finished with the command buffer.
    pub render_fence: vk::Handle,
}

impl FrameData {
    /// The frame data with every handle null.
    pub open spec fn null() -> FrameData {
        FrameData {
            command_pool: vk::NULL_HANDLE,
            main_command_buffer: vk::NULL_HANDLE,
            swapchain_semaphore: vk::NULL_HANDLE,
            render_semaphore: vk::NULL_HANDLE,
            render_fence: vk::NULL_HANDLE,
        }
    }

    /// Releases what the host allocated for the previous use of this slot.
    /// A slot holds nothing of that kind, so nothing changes.
    pub fn dealloc_last_frame(&mut self)
        ensures
            *final(self) == *old(self),
    {
    }
}

impl Default for FrameData {
    fn default() -> (f: FrameData)
        ensures
            f == FrameData::null(),
    {
        FrameData {
            command_pool: vk::NULL_HANDLE,
            main_command_buffer: vk::NULL_HANDLE,
            swapchain_semaphore: vk::NULL_HANDLE,
            render_semaphore: vk::NULL_HANDLE,
            render_fence: vk::NULL_HANDLE,
        }
    }
}

/// The slot that the frame with this number uses.
pub open spec fn slot_of(frame_number: u64) -> int {
    frame_number as int % FRAME_OVERLAP as int
}

/// The number of the frame after this one. The counter wraps around at the
/// end of its range.
pub open spec fn next_frame(frame_number: u64) -> u64 {
    if frame_number == u64::MAX {
        0
    } else {
        (frame_number + 1) as u64
    }
}

/// Computes the slot that the frame with this number uses.
pub fn slot_index(frame_number: u64) -> (slot: usize)
    ensures
        slot == slot_of(frame_number),
        slot < FRAME_OVERLAP,
{
    (frame_number % (FRAME_OVERLAP as u64)) as usize
}

/// A frame uses the slot that the frame `FRAME_OVERLAP` frames later uses
/// again, wherever both numbers lie in the counter's range.
pub proof fn lemma_slot_repeats(frame_number: u64)
    requires
        frame_number + FRAME_OVERLAP <= u64::MAX,
    ensures
        slot_of(frame_number) == slot_of((frame_number + FRAME_OVERLAP) as u64),
{
}

/// Two frames in a row never use the same slot, not even where the
/// counter wraps around.
pub proof fn lemma_slot_alternates(frame_number: u64)
    ensures
        slot_of(frame_number) != slot_of(next_frame(frame_number)),
        0 <= slot_of(frame_number) < FRAME_OVERLAP,
{
}

/// The slot comes round again after `FRAME_OVERLAP` frames, also across
/// the wrap of the counter.
pub proof fn lemma_slot_period(frame_number: u64)
    ensures
        slot_of(next_frame(next_frame(frame_number))) == slot_of(frame_number),
{
}

impl VulkanEngine {
    /// The slot of the frame being drawn.
    pub open spec fn slot(self) -> int {
        slot_of(self.frame_number)
    }

    /// The resources of the frame being drawn.
    pub open spec fn current(self) -> FrameData {
        self.frames[self.slot()]
    }

    /// The resources of the frame being drawn.
    pub fn get_current_frame(&self) -> (frame: &FrameData)
        ensures
            *frame == self.current(),
    {
        &self.frames[slot_index(self.frame_number)]
    }

    /// The resources of the frame being drawn, for change. Only that slot
    /// of the ring can change through the reference.
    pub fn get_current_frame_mut(&mut self) -> (frame: &mut FrameData)
        ensures
            *frame == old(self).current(),
            *final(self) == (VulkanEngine {
                frames: spec_array_update(old(self).frames, old(self).slot(), *final(frame)),
                ..*old(self)
            }),
    {
        &mut self.frames[slot_index(self.frame_number)]
    }
}

} // verus!
