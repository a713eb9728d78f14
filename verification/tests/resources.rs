use vulkan_engine::vk;
use vulkan_engine::vk_commands::{record, transitions, Command, Transition};
use vulkan_engine::vk_images::{copy_image_to_image, transition_image};
use vulkan_engine::vk_init;
use vulkan_engine::vk_types::buffers::{create_buffer, destroy_buffer, AllocatedBuffer};
use vulkan_engine::vk_types::gpu_mesh_buffers::{
    upload_mesh, GPUMeshBuffers, MeshUploader, UploadAction, UploadError, UploadEvent,
    UploadPhase, INDEX_SIZE, VERTEX_SIZE,
};
use vulkan_engine::vk_engine::immediate::{
    ImmediateAction, ImmediateContext, ImmediateError, ImmediatePhase,
};
use vulkan_engine::vk_engine::FrameEvent;
use vulkan_engine::vk_types::{
    AllocatedImage, AllocationCreateDesc, AllocationScheme, AllocationSlot, MemoryLocation,
    Release, SlotError, VulkanError,
};

fn allocation() -> gpu_allocator::vulkan::Allocation {
    gpu_allocator::vulkan::Allocation::default()
}

/// Stands in for an allocator: counts what is handed out and handed back.
struct Ledger {
    live: usize,
    double_free: bool,
}

impl Ledger {
    fn new() -> Ledger {
        Ledger { live: 0, double_free: false }
    }

    fn allocate(&mut self) -> gpu_allocator::vulkan::Allocation {
        self.live += 1;
        allocation()
    }

    fn free(&mut self, _allocation: gpu_allocator::vulkan::Allocation) {
        if self.live == 0 {
            self.double_free = true;
        } else {
            self.live -= 1;
        }
    }

    fn carry_out(&mut self, steps: Vec<Release>) {
        for step in steps {
            if let Release::FreeMemory(a) = step {
                self.free(a);
            }
        }
    }
}

#[test]
fn slot_is_set_once_and_taken_once() {
    let mut slot = AllocationSlot::new();
    assert!(!slot.holds());
    assert!(slot.set(allocation()).is_ok());
    assert!(slot.holds());
    match slot.set(allocation()) {
        Err((e, _returned)) => assert_eq!(e, SlotError::AlreadySet),
        Ok(()) => panic!("a filled slot took a second allocation"),
    }
    assert!(slot.holds());
    let _taken = slot.take();
    assert!(!slot.holds());
    assert!(AllocationSlot::filled(allocation()).holds());
}

#[test]
fn image_is_destroyed_before_its_memory_is_freed() {
    let mut image = AllocatedImage {
        image: 5,
        image_view: 6,
        allocation: AllocationSlot::filled(allocation()),
        image_extent: vk::Extent3D { width: 4, height: 3, depth: 1 },
        image_format: vk::FORMAT_D32_SFLOAT,
    };
    let steps = image.dealloc();
    assert_eq!(steps.len(), 3);
    assert!(matches!(steps[0], Release::DestroyImageView(6)));
    assert!(matches!(steps[1], Release::DestroyImage(5)));
    assert!(matches!(steps[2], Release::FreeMemory(_)));
    assert!(!image.allocation.holds());
    assert_eq!(image.image, 5);
    assert_eq!(image.image_view, 6);
    assert_eq!(image.image_extent, vk::Extent3D { width: 4, height: 3, depth: 1 });
    assert_eq!(image.image_format, vk::FORMAT_D32_SFLOAT);
}

#[test]
fn buffer_is_destroyed_before_its_memory_is_freed() {
    let mut buffer = AllocatedBuffer::new(9, allocation());
    let steps = destroy_buffer(&mut buffer);
    assert_eq!(steps.len(), 2);
    assert!(matches!(steps[0], Release::DestroyBuffer(9)));
    assert!(matches!(steps[1], Release::FreeMemory(_)));
    assert!(!buffer.allocation.holds());
    assert_eq!(buffer.buffer, 9);
}

#[test]
fn mesh_buffers_are_released_vertex_first() {
    let mut mesh = GPUMeshBuffers {
        index_buffer: AllocatedBuffer::new(1, allocation()),
        vertex_buffer: AllocatedBuffer::new(2, allocation()),
        vertex_buffer_address: 0xABCD,
    };
    let steps = mesh.dealloc();
    assert_eq!(steps.len(), 4);
    assert!(matches!(steps[0], Release::DestroyBuffer(2)));
    assert!(matches!(steps[1], Release::FreeMemory(_)));
    assert!(matches!(steps[2], Release::DestroyBuffer(1)));
    assert!(matches!(steps[3], Release::FreeMemory(_)));
    assert!(!mesh.vertex_buffer.allocation.holds());
    assert!(!mesh.index_buffer.allocation.holds());
    assert_eq!(mesh.vertex_buffer_address, 0xABCD);
}

#[test]
fn every_allocation_is_freed_exactly_once() {
    let mut ledger = Ledger::new();
    let mut image = AllocatedImage {
        image: 1,
        image_view: 2,
        allocation: AllocationSlot::filled(ledger.allocate()),
        image_extent: vk::Extent3D { width: 1, height: 1, depth: 1 },
        image_format: 0,
    };
    let mut mesh = GPUMeshBuffers {
        index_buffer: AllocatedBuffer::new(3, ledger.allocate()),
        vertex_buffer: AllocatedBuffer::new(4, ledger.allocate()),
        vertex_buffer_address: 0,
    };
    assert_eq!(ledger.live, 3);
    ledger.carry_out(image.dealloc());
    ledger.carry_out(mesh.dealloc());
    assert_eq!(ledger.live, 0);
    assert!(!ledger.double_free);
    // What was given up holds nothing that could be freed again.
    assert!(!image.allocation.holds());
    assert!(!mesh.vertex_buffer.allocation.holds());
    assert!(!mesh.index_buffer.allocation.holds());
}

#[test]
fn a_buffer_without_memory_is_destroyed() {
    let plan = create_buffer(16, vk::BUFFER_USAGE_TRANSFER_SRC, MemoryLocation::CpuToGpu);
    let steps = plan.on_allocation_failed(44);
    assert_eq!(steps.len(), 1);
    assert!(matches!(steps[0], Release::DestroyBuffer(44)));
}

fn uploader() -> MeshUploader {
    MeshUploader::new(upload_mesh(6, 4).unwrap(), ImmediateContext::new(1, 2, 3, 4))
}

fn created(buffer: u64, address: u64) -> UploadEvent {
    UploadEvent::Created { buffer: AllocatedBuffer::new(buffer, allocation()), address }
}

fn ok() -> UploadEvent {
    UploadEvent::Device(FrameEvent::Done(vk::SUCCESS))
}

/// Drives an upload up to the start of its immediate submission.
fn filled() -> MeshUploader {
    let mut u = uploader();
    let plan = u.plan;
    assert_eq!(u.next(UploadEvent::Start), Ok(UploadAction::CreateVertexBuffer(plan.vertex_buffer)));
    assert_eq!(u.next(created(11, 0xA000)), Ok(UploadAction::CreateIndexBuffer(plan.index_buffer)));
    assert_eq!(u.next(created(12, 7)), Ok(UploadAction::CreateStagingBuffer(plan.staging_buffer)));
    assert_eq!(u.next(created(10, 7)), Ok(UploadAction::Fill { index_offset: 192 }));
    assert_eq!(
        u.next(UploadEvent::Filled),
        Ok(UploadAction::Immediate(ImmediateAction::ResetFence { fence: 1 }))
    );
    assert_eq!(u.phase, UploadPhase::Submitting);
    u
}

/// Drives an upload up to the wait for the fence of its copies.
fn waiting() -> MeshUploader {
    let mut u = filled();
    let mut last = u.next(ok());
    for _ in 0..5 {
        assert!(matches!(last, Ok(UploadAction::Immediate(_))));
        last = u.next(ok());
    }
    assert_eq!(
        last,
        Ok(UploadAction::Immediate(ImmediateAction::WaitForFence {
            fence: 1,
            timeout: 9_999_999_999
        }))
    );
    assert_eq!(u.phase, UploadPhase::Submitting);
    u
}

#[test]
fn upload_in_order() {
    let mut ledger = Ledger::new();
    for _ in 0..3 {
        ledger.allocate();
    }
    let mut u = filled();
    assert_eq!(
        u.next(ok()),
        Ok(UploadAction::Immediate(ImmediateAction::ResetCommandPool { command_pool: 2 }))
    );
    assert!(matches!(
        u.next(ok()),
        Ok(UploadAction::Immediate(ImmediateAction::BeginCommandBuffer { command_buffer: 3, .. }))
    ));
    assert_eq!(
        u.next(ok()),
        Ok(UploadAction::Immediate(ImmediateAction::Record { command_buffer: 3 }))
    );
    assert_eq!(
        u.copy_commands(),
        vec![
            Command::CopyBuffer { src: 10, dst: 11, region: u.plan.vertex_copy },
            Command::CopyBuffer { src: 10, dst: 12, region: u.plan.index_copy },
        ]
    );
    assert_eq!(
        u.next(ok()),
        Ok(UploadAction::Immediate(ImmediateAction::EndCommandBuffer { command_buffer: 3 }))
    );
    assert!(matches!(
        u.next(ok()),
        Ok(UploadAction::Immediate(ImmediateAction::Submit { queue: 4, fence: 1, .. }))
    ));
    assert!(matches!(
        u.next(ok()),
        Ok(UploadAction::Immediate(ImmediateAction::WaitForFence { fence: 1, .. }))
    ));
    assert_eq!(u.next(ok()), Ok(UploadAction::ReleaseStaging));
    assert_eq!(u.phase, UploadPhase::Releasing);
    let steps = u.release_staging();
    assert_eq!(steps.len(), 2);
    assert!(matches!(steps[0], Release::DestroyBuffer(10)));
    assert!(matches!(steps[1], Release::FreeMemory(_)));
    ledger.carry_out(steps);
    assert_eq!(u.phase, UploadPhase::Finished);
    let mesh = u.finish();
    // Three allocations were made, one was freed, two belong to the mesh.
    assert_eq!(ledger.live, 2);
    assert_eq!(mesh.vertex_buffer.buffer, 11);
    assert_eq!(mesh.index_buffer.buffer, 12);
    assert_eq!(mesh.vertex_buffer_address, 0xA000);
    assert!(mesh.vertex_buffer.allocation.holds());
    assert!(mesh.index_buffer.allocation.holds());
}

#[test]
fn staging_is_released_only_after_the_fence_of_the_copies() {
    // Before the wait no outcome leads to the release.
    for calls_done in 0..6 {
        for code in [vk::SUCCESS, vk::TIMEOUT, vk::NOT_READY, vk::ERROR_DEVICE_LOST] {
            let mut u = filled();
            for _ in 0..calls_done {
                u.next(ok()).unwrap();
            }
            let answer = u.next(UploadEvent::Device(FrameEvent::Done(code)));
            assert_ne!(answer, Ok(UploadAction::ReleaseStaging));
            assert_ne!(u.phase, UploadPhase::Releasing);
            assert!(u.staging_buffer.is_some());
        }
    }
    // At the wait only success does, and no other event.
    for attempt in 0..8 {
        let mut u = waiting();
        let event = match attempt {
            0 => UploadEvent::Start,
            1 => created(99, 0),
            2 => UploadEvent::CreationFailed,
            3 => UploadEvent::Filled,
            4 => UploadEvent::FillFailed,
            5 => UploadEvent::DeviceIdle,
            6 => UploadEvent::Device(FrameEvent::Done(vk::TIMEOUT)),
            _ => UploadEvent::Device(FrameEvent::Start),
        };
        assert_ne!(u.next(event), Ok(UploadAction::ReleaseStaging));
        assert!(u.staging_buffer.is_some());
    }
    // And it is handed out once.
    let mut u = waiting();
    assert_eq!(u.next(ok()), Ok(UploadAction::ReleaseStaging));
    assert_eq!(u.next(ok()), Err(UploadError::UnexpectedEvent));
    assert_eq!(u.phase, UploadPhase::Releasing);
}

#[test]
fn a_failed_wait_keeps_the_buffers_until_the_device_is_idle() {
    let mut u = waiting();
    assert_eq!(
        u.next(UploadEvent::Device(FrameEvent::Done(vk::TIMEOUT))),
        Err(UploadError::Stranded(ImmediateError::FenceTimeout))
    );
    assert_eq!(u.phase, UploadPhase::Stranded);
    assert!(u.staging_buffer.as_ref().unwrap().allocation.holds());
    assert_eq!(u.next(ok()), Err(UploadError::UnexpectedEvent));
    assert_eq!(u.next(UploadEvent::DeviceIdle), Ok(UploadAction::Abandon));
    assert_eq!(u.phase, UploadPhase::Failed);
    let steps = u.abandon();
    assert_eq!(steps.len(), 6);
    assert!(matches!(steps[0], Release::DestroyBuffer(11)));
    assert!(matches!(steps[1], Release::FreeMemory(_)));
    assert!(matches!(steps[2], Release::DestroyBuffer(12)));
    assert!(matches!(steps[4], Release::DestroyBuffer(10)));
    assert!(matches!(steps[5], Release::FreeMemory(_)));
    assert_eq!(u.phase, UploadPhase::Abandoned);
    assert!(u.vertex_buffer.is_none() && u.index_buffer.is_none() && u.staging_buffer.is_none());
}

#[test]
fn a_submission_that_never_reached_the_device_is_abandoned_at_once() {
    let mut u = filled();
    assert_eq!(
        u.next(UploadEvent::Device(FrameEvent::Done(vk::ERROR_DEVICE_LOST))),
        Err(UploadError::SubmissionFailed(ImmediateError::Device {
            phase: ImmediatePhase::ResettingFence,
            error: VulkanError::DeviceLost,
        }))
    );
    assert_eq!(u.phase, UploadPhase::Failed);
    assert_eq!(u.abandon().len(), 6);
    // An immediate context that is busy refuses the copies before they start.
    let mut busy = ImmediateContext::new(1, 2, 3, 4);
    busy.immediate_submit(FrameEvent::Start).unwrap();
    let mut u = MeshUploader::new(upload_mesh(6, 4).unwrap(), busy);
    u.next(UploadEvent::Start).unwrap();
    u.next(created(1, 0)).unwrap();
    u.next(created(2, 0)).unwrap();
    u.next(created(3, 0)).unwrap();
    assert_eq!(
        u.next(UploadEvent::Filled),
        Err(UploadError::SubmissionFailed(ImmediateError::UnexpectedEvent))
    );
    assert_eq!(u.phase, UploadPhase::Failed);
}

#[test]
fn a_failed_creation_releases_what_exists() {
    let mut u = uploader();
    u.next(UploadEvent::Start).unwrap();
    u.next(created(11, 1)).unwrap();
    assert_eq!(u.next(UploadEvent::CreationFailed), Err(UploadError::CreationFailed));
    assert_eq!(u.phase, UploadPhase::Failed);
    let steps = u.abandon();
    assert_eq!(steps.len(), 2);
    assert!(matches!(steps[0], Release::DestroyBuffer(11)));
    assert!(matches!(steps[1], Release::FreeMemory(_)));

    let mut first = uploader();
    first.next(UploadEvent::Start).unwrap();
    assert_eq!(first.next(UploadEvent::CreationFailed), Err(UploadError::CreationFailed));
    assert!(first.abandon().is_empty());

    let mut filling = uploader();
    filling.next(UploadEvent::Start).unwrap();
    filling.next(created(1, 0)).unwrap();
    filling.next(created(2, 0)).unwrap();
    filling.next(created(3, 0)).unwrap();
    assert_eq!(filling.next(UploadEvent::FillFailed), Err(UploadError::FillFailed));
    assert_eq!(filling.abandon().len(), 6);
}

#[test]
fn upload_events_out_of_turn() {
    let mut u = uploader();
    assert_eq!(u.next(UploadEvent::Filled), Err(UploadError::UnexpectedEvent));
    assert_eq!(u.next(ok()), Err(UploadError::UnexpectedEvent));
    assert_eq!(u.phase, UploadPhase::Idle);
    u.next(UploadEvent::Start).unwrap();
    assert_eq!(u.next(UploadEvent::Start), Err(UploadError::UnexpectedEvent));
    assert_eq!(u.phase, UploadPhase::CreatingVertex);
}

#[test]
fn buffer_plan_and_memory_request() {
    let plan = create_buffer(256, vk::BUFFER_USAGE_TRANSFER_SRC, MemoryLocation::CpuToGpu);
    assert_eq!(plan.info, vk::BufferCreateInfo { size: 256, usage: 1 });
    assert_eq!(plan.memory_location, MemoryLocation::CpuToGpu);
    let requirements = vk::MemoryRequirements { size: 256, alignment: 64, memory_type_bits: 0b1010 };
    assert_eq!(
        plan.allocation_desc(77, requirements),
        AllocationCreateDesc {
            requirements,
            location: MemoryLocation::CpuToGpu,
            linear: true,
            allocation_scheme: AllocationScheme::DedicatedBuffer(77),
        }
    );
}

#[test]
fn mesh_upload_sizes_and_copies() {
    assert_eq!(VERTEX_SIZE as usize, std::mem::size_of::<[f32; 12]>());
    assert_eq!(INDEX_SIZE as usize, std::mem::size_of::<u32>());
    let plan = upload_mesh(6, 4).unwrap();
    assert_eq!(plan.vertex_buffer.info.size, 192);
    assert_eq!(plan.index_buffer.info.size, 24);
    assert_eq!(plan.staging_buffer.info.size, 216);
    assert_eq!(plan.index_staging_offset, 192);
    assert_eq!(plan.vertex_copy, vk::BufferCopy { src_offset: 0, dst_offset: 0, size: 192 });
    assert_eq!(plan.index_copy, vk::BufferCopy { src_offset: 192, dst_offset: 0, size: 24 });
    assert_eq!(
        plan.vertex_buffer.info.usage,
        vk::BUFFER_USAGE_STORAGE_BUFFER
            | vk::BUFFER_USAGE_TRANSFER_DST
            | vk::BUFFER_USAGE_SHADER_DEVICE_ADDRESS
    );
    assert_eq!(plan.vertex_buffer.info.usage, 0x20022);
    assert_eq!(plan.index_buffer.info.usage, 0x42);
    assert_eq!(plan.staging_buffer.info.usage, 0x1);
    assert_eq!(plan.vertex_buffer.memory_location, MemoryLocation::GpuOnly);
    assert_eq!(plan.index_buffer.memory_location, MemoryLocation::GpuOnly);
    assert_eq!(plan.staging_buffer.memory_location, MemoryLocation::CpuToGpu);
    assert_eq!(
        plan.commands(10, 11, 12),
        vec![
            Command::CopyBuffer { src: 10, dst: 11, region: plan.vertex_copy },
            Command::CopyBuffer { src: 10, dst: 12, region: plan.index_copy },
        ]
    );
    let empty = upload_mesh(0, 0).unwrap();
    assert_eq!(empty.staging_buffer.info.size, 0);
}

#[test]
fn mesh_upload_refuses_what_does_not_fit() {
    assert!(upload_mesh(0, usize::MAX).is_none());
    assert!(upload_mesh(usize::MAX, 0).is_none());
    // Each part fits, the staging buffer does not.
    let vertices = (u64::MAX / 48) as usize;
    assert!(upload_mesh(0, vertices).is_some());
    assert!(upload_mesh(1 << 40, vertices).is_none());
}

#[test]
fn transition_records_a_full_barrier() {
    let mut cmd = Vec::new();
    transition_image(&mut cmd, 42, vk::IMAGE_LAYOUT_UNDEFINED, vk::IMAGE_LAYOUT_GENERAL);
    assert_eq!(
        cmd,
        vec![Command::PipelineBarrier(vk::ImageMemoryBarrier2 {
            src_stage_mask: 0x1_0000,
            src_access_mask: 0x1_0000,
            dst_stage_mask: 0x1_0000,
            dst_access_mask: 0x1_8000,
            old_layout: 0,
            new_layout: 1,
            image: 42,
            subresource_range: vk::ImageSubresourceRange {
                aspect_mask: vk::IMAGE_ASPECT_COLOR,
                base_mip_level: 0,
                level_count: u32::MAX,
                base_array_layer: 0,
                layer_count: u32::MAX,
            },
        })]
    );
}

#[test]
fn transition_to_depth_touches_the_depth_aspect() {
    let mut cmd = Vec::new();
    transition_image(
        &mut cmd,
        7,
        vk::IMAGE_LAYOUT_UNDEFINED,
        vk::IMAGE_LAYOUT_DEPTH_ATTACHMENT_OPTIMAL,
    );
    transition_image(
        &mut cmd,
        7,
        vk::IMAGE_LAYOUT_DEPTH_ATTACHMENT_OPTIMAL,
        vk::IMAGE_LAYOUT_GENERAL,
    );
    let aspects: Vec<u32> = cmd
        .iter()
        .map(|c| match c {
            Command::PipelineBarrier(b) => b.subresource_range.aspect_mask,
            _ => 0,
        })
        .collect();
    assert_eq!(aspects, vec![vk::IMAGE_ASPECT_DEPTH, vk::IMAGE_ASPECT_COLOR]);
    assert_eq!(
        transitions(&cmd),
        vec![
            Transition { image: 7, old_layout: 0, new_layout: 1_000_241_000 },
            Transition { image: 7, old_layout: 1_000_241_000, new_layout: 1 },
        ]
    );
}

#[test]
fn copy_scales_between_the_two_extents() {
    let mut cmd = Vec::new();
    assert!(copy_image_to_image(
        &mut cmd,
        1,
        2,
        vk::Extent2D { width: 1700, height: 900 },
        vk::Extent2D { width: 800, height: 600 },
    ));
    let layers = vk::ImageSubresourceLayers {
        aspect_mask: vk::IMAGE_ASPECT_COLOR,
        mip_level: 0,
        base_array_layer: 0,
        layer_count: 1,
    };
    assert_eq!(
        cmd,
        vec![Command::BlitImage(vk::BlitImageInfo2 {
            src_image: 1,
            src_image_layout: vk::IMAGE_LAYOUT_TRANSFER_SRC_OPTIMAL,
            dst_image: 2,
            dst_image_layout: vk::IMAGE_LAYOUT_TRANSFER_DST_OPTIMAL,
            region: vk::ImageBlit2 {
                src_subresource: layers,
                src_offset_min: vk::Offset3D { x: 0, y: 0, z: 0 },
                src_offset_max: vk::Offset3D { x: 1700, y: 900, z: 1 },
                dst_subresource: layers,
                dst_offset_min: vk::Offset3D { x: 0, y: 0, z: 0 },
                dst_offset_max: vk::Offset3D { x: 800, y: 600, z: 1 },
            },
            filter: vk::FILTER_LINEAR,
        })]
    );
}

#[test]
fn copy_refuses_extents_beyond_signed_offsets() {
    let ok = vk::Extent2D { width: i32::MAX as u32, height: 1 };
    let wide = vk::Extent2D { width: i32::MAX as u32 + 1, height: 1 };
    let tall = vk::Extent2D { width: 1, height: u32::MAX };
    let mut cmd = Vec::new();
    assert!(!copy_image_to_image(&mut cmd, 1, 2, wide, ok));
    assert!(!copy_image_to_image(&mut cmd, 1, 2, ok, tall));
    assert!(cmd.is_empty());
    assert!(copy_image_to_image(&mut cmd, 1, 2, ok, ok));
    assert_eq!(cmd.len(), 1);
}

#[test]
fn record_appends_and_transitions_filters() {
    let mut cmd = Vec::new();
    record(&mut cmd, Command::EndRendering);
    record(&mut cmd, Command::DrawOverlay);
    assert_eq!(cmd, vec![Command::EndRendering, Command::DrawOverlay]);
    assert!(transitions(&cmd).is_empty());
    assert!(transitions(&Vec::new()).is_empty());
}

#[test]
fn info_builders_fill_in_the_fixed_members() {
    assert_eq!(
        vk_init::command_pool_create_info(3, vk::COMMAND_POOL_CREATE_RESET_COMMAND_BUFFER),
        vk::CommandPoolCreateInfo { flags: 2, queue_family_index: 3 }
    );
    assert_eq!(
        vk_init::command_buffer_allocate_info(9, 1),
        vk::CommandBufferAllocateInfo { command_pool: 9, level: 0, command_buffer_count: 1 }
    );
    assert_eq!(vk_init::fence_create_info(1), vk::FenceCreateInfo { flags: 1 });
    assert_eq!(vk_init::semaphore_create_info(0), vk::SemaphoreCreateInfo { flags: 0 });
    assert_eq!(vk_init::command_buffer_begin_info(1), vk::CommandBufferBeginInfo { flags: 1 });
    assert_eq!(
        vk_init::image_subresource_range(vk::IMAGE_ASPECT_DEPTH),
        vk::ImageSubresourceRange {
            aspect_mask: 2,
            base_mip_level: 0,
            level_count: 0xFFFF_FFFF,
            base_array_layer: 0,
            layer_count: 0xFFFF_FFFF,
        }
    );
    assert_eq!(
        vk_init::semaphore_submit_info(0x400, 5),
        vk::SemaphoreSubmitInfo { semaphore: 5, value: 1, stage_mask: 0x400, device_index: 0 }
    );
    assert_eq!(
        vk_init::command_buffer_submit_info(8),
        vk::CommandBufferSubmitInfo { command_buffer: 8, device_mask: 0 }
    );
    let extent = vk::Extent3D { width: 10, height: 20, depth: 1 };
    assert_eq!(
        vk_init::image_create_info(vk::FORMAT_D32_SFLOAT, 0x20, extent),
        vk::ImageCreateInfo {
            image_type: 1,
            format: 126,
            extent,
            mip_levels: 1,
            array_layers: 1,
            samples: 1,
            tiling: 0,
            usage: 0x20,
        }
    );
    assert_eq!(
        vk_init::image_view_create_info(97, 4, vk::IMAGE_ASPECT_COLOR),
        vk::ImageViewCreateInfo {
            image: 4,
            view_type: 1,
            format: 97,
            components: vk::ComponentMapping { r: 0, g: 0, b: 0, a: 0 },
            subresource_range: vk::ImageSubresourceRange {
                aspect_mask: 1,
                base_mip_level: 0,
                level_count: 1,
                base_array_layer: 0,
                layer_count: 1,
            },
        }
    );
}

#[test]
fn submit_info_takes_the_semaphores_it_is_given() {
    let cmd = vk_init::command_buffer_submit_info(8);
    let wait = vk_init::semaphore_submit_info(1, 2);
    let signal = vk_init::semaphore_submit_info(3, 4);
    let both = vk_init::submit_info(&cmd, Some(&signal), Some(&wait));
    assert_eq!(both.wait_semaphore_info, Some(wait));
    assert_eq!(both.signal_semaphore_info, Some(signal));
    assert_eq!(both.command_buffer_info, cmd);
    let none = vk_init::submit_info(&cmd, None, None);
    assert_eq!(none.wait_semaphore_info, None);
    assert_eq!(none.signal_semaphore_info, None);
    let only_wait = vk_init::submit_info(&cmd, None, Some(&wait));
    assert_eq!(only_wait.wait_semaphore_info, Some(wait));
    assert_eq!(only_wait.signal_semaphore_info, None);
}

#[test]
fn attachments_clear_or_load() {
    let clear = vk::ClearValue { word0: 1, word1: 2, word2: 3, word3: 4 };
    let cleared = vk_init::attachment_info(5, Some(clear), vk::IMAGE_LAYOUT_GENERAL);
    assert_eq!(cleared.load_op, vk::ATTACHMENT_LOAD_OP_CLEAR);
    assert_eq!(cleared.clear_value, clear);
    assert_eq!(cleared.store_op, vk::ATTACHMENT_STORE_OP_STORE);
    let loaded = vk_init::attachment_info(5, None, vk::IMAGE_LAYOUT_GENERAL);
    assert_eq!(loaded.load_op, vk::ATTACHMENT_LOAD_OP_LOAD);
    assert_eq!(loaded.clear_value, vk::ClearValue::default());
    assert_eq!(loaded.image_view, 5);
    assert_eq!(loaded.image_layout, 1);
    let depth = vk_init::depth_attachment_info(6, vk::IMAGE_LAYOUT_DEPTH_ATTACHMENT_OPTIMAL);
    assert_eq!(depth.load_op, vk::ATTACHMENT_LOAD_OP_CLEAR);
    assert_eq!(depth.store_op, vk::ATTACHMENT_STORE_OP_STORE);
    assert_eq!(depth.clear_value, vk::ClearValue::default());
    let extent = vk::Extent2D { width: 3, height: 4 };
    let pass = vk_init::rendering_info(extent, loaded, Some(&depth));
    assert_eq!(pass.render_area, vk::Rect2D { offset: vk::Offset2D { x: 0, y: 0 }, extent });
    assert_eq!(pass.layer_count, 1);
    assert_eq!(pass.color_attachment, loaded);
    assert_eq!(pass.depth_attachment, Some(depth));
    assert_eq!(vk_init::rendering_info(extent, loaded, None).depth_attachment, None);
}
