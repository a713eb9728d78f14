//! Buffers and the memory behind them.

use crate::vk;
use crate::vk_types::{
    AllocationCreateDesc, AllocationScheme, AllocationSlot, MemoryLocation, Release,
};
use vstd::prelude::*;

verus! {

/// A buffer and the memory behind it.
#[derive(Debug)]
pub struct AllocatedBuffer {
    pub buffer: vk::Handle,
    pub allocation: AllocationSlot,
}

/// What is needed to create one buffer: the buffer itself and where its
/// memory is to live.
#[derive(Clone, Copy, Debug, PartialEq, Eq, Structural)]
pub struct BufferPlan {
    pub info: vk::BufferCreateInfo,
    pub memory_location: MemoryLocation,
}

/// Plans a buffer of `allocation_size` bytes for the given usage, with its
/// memory at `memory_location`.
pub fn create_buffer(allocation_size: u64, usage: u32, memory_location: MemoryLocation) -> (plan:
    BufferPlan)
    ensures
        plan == (BufferPlan {
            info: vk::BufferCreateInfo { size: allocation_size, usage },
            memory_location,
        }),
{
    BufferPlan { info: vk::BufferCreateInfo { size: allocation_size, usage }, memory_location }
}

impl BufferPlan {
    /// The memory request for the buffer once it exists: linear memory at
    /// the planned location, dedicated to this buffer, with the
    /// requirements that the device reported for it.
    pub fn allocation_desc(&self, buffer: vk::Handle, requirements: vk::MemoryRequirements) -> (desc:
        AllocationCreateDesc)
        ensures
            desc == (AllocationCreateDesc {
                requirements,
                location: self.memory_location,
                linear: true,
                allocation_scheme: AllocationScheme::DedicatedBuffer(buffer),
            }),
    {
        AllocationCreateDesc {
            requirements,
            location: self.memory_location,
            linear: true,
            allocation_scheme: AllocationScheme::DedicatedBuffer(buffer),
        }
    }
}

impl BufferPlan {
    /// What is to be done when the buffer exists but its memory could not
    /// be had: the buffer is destroyed, and nothing is left behind.
    pub fn on_allocation_failed(&self, buffer: vk::Handle) -> (steps: Vec<Release>)
        ensures
            steps@ == seq![Release::DestroyBuffer(buffer)],
    {
        let mut steps: Vec<Release> = Vec::new();
        steps.push(Release::DestroyBuffer(buffer));
        steps
    }
}

impl AllocatedBuffer {
    /// Pairs a buffer with the memory that was bound to it.
    pub fn new(buffer: vk::Handle, allocation: gpu_allocator::vulkan::Allocation) -> (b:
        AllocatedBuffer)
        ensures
            b.buffer == buffer,
            b.allocation.value == Some(allocation),
    {
        AllocatedBuffer { buffer, allocation: AllocationSlot::filled(allocation) }
    }

    /// The steps that release a buffer whose slot holds `allocation`: the
    /// buffer is destroyed first, then the memory behind it is handed back.
    pub open spec fn release_steps(
        self,
        allocation: gpu_allocator::vulkan::Allocation,
    ) -> Seq<Release> {
        seq![Release::DestroyBuffer(self.buffer), Release::FreeMemory(allocation)]
    }

    /// The buffer without its memory.
    pub open spec fn emptied(self) -> AllocatedBuffer {
        AllocatedBuffer { allocation: AllocationSlot { value: None }, ..self }
    }
}

/// Gives up a buffer that owns its memory: empties its allocation slot and
/// returns the steps that destroy the buffer and then free the memory, in
/// that order.
///
/// A buffer is given up once, and only when no work of the device refers
/// to it any more. To give it up again, or before it got its memory, is an
/// error of the caller.
pub fn destroy_buffer(buffer: &mut AllocatedBuffer) -> (steps: Vec<Release>)
    requires
        old(buffer).allocation.is_set(),
    ensures
        steps@ == old(buffer).release_steps(old(buffer).allocation.value->Some_0),
        *final(buffer) == old(buffer).emptied(),
{
    let allocation = buffer.allocation.take();
    let mut steps: Vec<Release> = Vec::new();
    steps.push(Release::DestroyBuffer(buffer.buffer));
    steps.push(Release::FreeMemory(allocation));
    proof {
        assert(steps@ =~= old(buffer).release_steps(allocation));
    }
    steps
}

} // verus!
