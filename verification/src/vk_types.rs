//! The resources that own device memory: images and buffers, each paired
//! with the allocation that backs it.

pub mod buffers;
pub mod gpu_mesh_buffers;
pub mod vertex;

use crate::vk;
use vstd::prelude::*;

verus! {

/// A block of device memory handed out by the allocator. Nothing of its
/// contents is read here: a value is carried from where it was allocated to
/// where it is freed.
#[verifier::external_type_specification]
#[verifier::external_body]
pub struct ExAllocation(gpu_allocator::vulkan::Allocation);

/// Where an allocation lives.
#[derive(Clone, Copy, Debug, PartialEq, Eq, Structural)]
pub enum MemoryLocation {
    /// Left to the driver.
    Unknown,
    /// Device-local memory that the host cannot reach.
    GpuOnly,
    /// Host-visible memory for staging uploads.
    CpuToGpu,
    /// Host-visible memory for reading results back.
    GpuToCpu,
}

/// The resource that an allocation is dedicated to.
#[derive(Clone, Copy, Debug, PartialEq, Eq, Structural)]
pub enum AllocationScheme {
    DedicatedBuffer(vk::Handle),
    DedicatedImage(vk::Handle),
}

/// A request for device memory.
#[derive(Clone, Copy, Debug, PartialEq, Eq, Structural)]
pub struct AllocationCreateDesc {
    pub requirements: vk::MemoryRequirements,
    pub location: MemoryLocation,
    /// Whether the resource is laid out linearly (a buffer) or not (an
    /// optimally tiled image).
    pub linear: bool,
    pub allocation_scheme: AllocationScheme,
}

/// What a device call reported when it did not simply succeed.
#[derive(Clone, Copy, Debug, PartialEq, Eq, Structural)]
pub enum VulkanError {
    /// A fence or query has not completed yet.
    NotReady,
    /// A wait ran out of time.
    Timeout,
    /// The swapchain still presents, but no longer matches the surface.
    Suboptimal,
    /// The swapchain no longer fits the surface and must be rebuilt.
    OutOfDate,
    OutOfHostMemory,
    OutOfDeviceMemory,
    DeviceLost,
    SurfaceLost,
    /// Any other code, as reported.
    Other(i32),
}

/// The error that a result code other than success stands for.
pub open spec fn error_of(code: i32) -> VulkanError {
    if code == vk::NOT_READY {
        VulkanError::NotReady
    } else if code == vk::TIMEOUT {
        VulkanError::Timeout
    } else if code == vk::SUBOPTIMAL_KHR {
        VulkanError::Suboptimal
    } else if code == vk::ERROR_OUT_OF_DATE_KHR {
        VulkanError::OutOfDate
    } else if code == vk::ERROR_OUT_OF_HOST_MEMORY {
        VulkanError::OutOfHostMemory
    } else if code == vk::ERROR_OUT_OF_DEVICE_MEMORY {
        VulkanError::OutOfDeviceMemory
    } else if code == vk::ERROR_DEVICE_LOST {
        VulkanError::DeviceLost
    } else if code == vk::ERROR_SURFACE_LOST_KHR {
        VulkanError::SurfaceLost
    } else {
        VulkanError::Other(code)
    }
}

/// `ash::vk::Result::result` on the result with this raw code: the one
/// code for success gives `Ok`, every other code comes back as the error.
#[verifier::external_body]
fn result_is_ok(code: i32) -> (ok: bool)
    ensures
        ok == (code == vk::SUCCESS),
{
    ash::vk::Result::from_raw(code).result().is_ok()
}

/// Names the error behind a result code other than success.
pub fn classify(code: i32) -> (e: VulkanError)
    ensures
        e == error_of(code),
{
    if code == vk::NOT_READY {
        VulkanError::NotReady
    } else if code == vk::TIMEOUT {
        VulkanError::Timeout
    } else if code == vk::SUBOPTIMAL_KHR {
        VulkanError::Suboptimal
    } else if code == vk::ERROR_OUT_OF_DATE_KHR {
        VulkanError::OutOfDate
    } else if code == vk::ERROR_OUT_OF_HOST_MEMORY {
        VulkanError::OutOfHostMemory
    } else if code == vk::ERROR_OUT_OF_DEVICE_MEMORY {
        VulkanError::OutOfDeviceMemory
    } else if code == vk::ERROR_DEVICE_LOST {
        VulkanError::DeviceLost
    } else if code == vk::ERROR_SURFACE_LOST_KHR {
        VulkanError::SurfaceLost
    } else {
        VulkanError::Other(code)
    }
}

/// Checks the result code of a device call: success passes, every other
/// code is returned as the error it stands for.
pub fn vk_check(code: i32) -> (r: Result<(), VulkanError>)
    ensures
        r is Ok <==> code == vk::SUCCESS,
        r is Err ==> r->Err_0 == error_of(code),
{
    if result_is_ok(code) {
        Ok(())
    } else {
        Err(classify(code))
    }
}

/// Why a set-once slot refused an operation.
#[derive(Clone, Copy, Debug, PartialEq, Eq, Structural)]
pub enum SlotError {
    /// The slot was filled before and has not been emptied since.
    AlreadySet,
}

/// A slot that is filled once after construction and emptied once at
/// destruction. Whoever holds the slot owns the allocation in it.
#[derive(Debug)]
pub struct AllocationSlot {
    pub value: Option<gpu_allocator::vulkan::Allocation>,
}

impl AllocationSlot {
    /// Whether the slot holds an allocation.
    pub open spec fn is_set(&self) -> bool {
        self.value is Some
    }

    /// The empty slot.
    pub fn new() -> (slot: AllocationSlot)
        ensures
            slot.value is None,
    {
        AllocationSlot { value: None }
    }

    /// A slot that holds `allocation`.
    pub fn filled(allocation: gpu_allocator::vulkan::Allocation) -> (slot: AllocationSlot)
        ensures
            slot.value == Some(allocation),
    {
        AllocationSlot { value: Some(allocation) }
    }

    /// Whether the slot holds an allocation.
    pub fn holds(&self) -> (set: bool)
        ensures
            set == self.is_set(),
    {
        self.value.is_some()
    }

    /// Fills the slot. A slot that is already filled keeps what it holds,
    /// and the allocation offered comes back with the error.
    pub fn set(&mut self, allocation: gpu_allocator::vulkan::Allocation) -> (r: Result<
        (),
        (SlotError, gpu_allocator::vulkan::Allocation),
    >)
        ensures
            r is Ok <==> !old(self).is_set(),
            r is Ok ==> final(self).value == Some(allocation),
            r is Err ==> *final(self) == *old(self) && r->Err_0 == (
                SlotError::AlreadySet,
                allocation,
            ),
    {
        if self.value.is_some() {
            Err((SlotError::AlreadySet, allocation))
        } else {
            self.value = Some(allocation);
            Ok(())
        }
    }

    /// Empties a filled slot and hands out what it held.
    ///
    /// To take from an empty slot is an error of the caller: the allocation
    /// was never made, or has been handed back already.
    pub fn take(&mut self) -> (allocation: gpu_allocator::vulkan::Allocation)
        requires
            old(self).is_set(),
        ensures
            final(self).value is None,
            old(self).value == Some(allocation),
    {
        self.value.take().unwrap()
    }
}

/// One step of tearing down what the engine owns.
#[derive(Debug)]
pub enum Release {
    /// Wait until the device has finished all submitted work.
    WaitIdle,
    /// Hand an allocation back to the allocator.
    FreeMemory(gpu_allocator::vulkan::Allocation),
    DestroyImageView(vk::Handle),
    DestroyImage(vk::Handle),
    DestroyBuffer(vk::Handle),
    DestroySwapchain(vk::Handle),
    DestroyCommandPool(vk::Handle),
    DestroyFence(vk::Handle),
    DestroySemaphore(vk::Handle),
    DestroyPipeline(vk::Handle),
    DestroyPipelineLayout(vk::Handle),
    DestroyDescriptorSetLayout(vk::Handle),
    DestroyDescriptorPool(vk::Handle),
    /// Drop the renderer of the user-interface overlay.
    DropOverlayRenderer,
    DestroySurface(vk::Handle),
    /// Let go of the allocator, and with it of every block of device
    /// memory that it still holds.
    ReleaseAllocator,
    DestroyDevice,
    DestroyDebugMessenger,
    DestroyInstance,
}

/// How many of `steps` hand an allocation back.
pub open spec fn count_frees(steps: Seq<Release>) -> nat
    decreases steps.len(),
{
    if steps.len() == 0 {
        0
    } else {
        count_frees(steps.drop_last()) + if steps.last() is FreeMemory {
            1nat
        } else {
            0nat
        }
    }
}

/// An image, its view and the memory behind it.
#[derive(Debug)]
pub struct AllocatedImage {
    pub image: vk::Handle,
    pub image_view: vk::Handle,
    pub allocation: AllocationSlot,
    pub image_extent: vk::Extent3D,
    pub image_format: i32,
}

impl AllocatedImage {
    /// The steps that release an image whose slot holds `allocation`: the
    /// view and the image are destroyed first, then the memory behind them
    /// is handed back.
    pub open spec fn release_steps(
        self,
        allocation: gpu_allocator::vulkan::Allocation,
    ) -> Seq<Release> {
        seq![
            Release::DestroyImageView(self.image_view),
            Release::DestroyImage(self.image),
            Release::FreeMemory(allocation),
        ]
    }

    /// The image without its memory.
    pub open spec fn emptied(self) -> AllocatedImage {
        AllocatedImage { allocation: AllocationSlot { value: None }, ..self }
    }

    /// Gives up an image that owns its memory: empties the allocation slot
    /// and returns the steps that destroy view and image and then free the
    /// memory, in that order.
    ///
    /// An image is given up once. To give it up again, or before it got
    /// its memory, is an error of the caller.
    pub fn dealloc(&mut self) -> (steps: Vec<Release>)
        requires
            old(self).allocation.is_set(),
        ensures
            steps@ == old(self).release_steps(old(self).allocation.value->Some_0),
            *final(self) == old(self).emptied(),
    {
        let allocation = self.allocation.take();
        let mut steps: Vec<Release> = Vec::new();
        steps.push(Release::DestroyImageView(self.image_view));
        steps.push(Release::DestroyImage(self.image));
        steps.push(Release::FreeMemory(allocation));
        proof {
            assert(steps@ =~= old(self).release_steps(allocation));
        }
        steps
    }
}

} // verus!
