use ash::vk as avk;
use vulkan_engine::vk;
use vulkan_engine::vk_bootstrap::device::{
    features_supported, is_physical_device_suitable, pick_physical_device_and_queue,
    surface_supported, DeviceFeatures, PhysicalDeviceInfo, QueueFamily,
};
use vulkan_engine::vk_bootstrap::{
    background_pipeline, background_pipeline_layout, command_buffer_request,
    create_debug_messenger, create_device,
    create_instance, create_swapchain, draw_image_write, init_background_pipelines,
    init_commands, init_descriptors, init_frames, init_mesh_pipeline, init_pipelines,
    init_sync_structures, mesh_pipeline_layout, swapchain_image_views, Create,
    PipelineLayoutCreateInfo, WriteDescriptorSet, F32_FIFTH, F32_NEARLY_ONE, F32_TENTH,
    F32_TWO_FIFTHS, SHADER_ENTRY,
};
use vulkan_engine::vk_compute::{ComputePushConstants, Vector4, COMPUTE_PUSH_CONSTANTS_SIZE};
use vulkan_engine::vk_debug::{vulkan_debug_callback, DebugVerdict, LogLevel};
use vulkan_engine::vk_descriptors::{
    DescriptorAllocator, DescriptorPoolSize, DescriptorSetAllocateInfo,
    DescriptorSetLayoutBinding, DescriptorSetLayoutBuilder, PoolSizeRatio,
};
use vulkan_engine::vk_engine::frame_data::FrameData;
use vulkan_engine::vk_engine::immediate::{
    following, init_imgui, ImmediateAction, ImmediateContext, ImmediateError, ImmediatePhase,
    IMMEDIATE_TIMEOUT_NS,
};
use vulkan_engine::vk_engine::FrameEvent;
use vulkan_engine::vk_loader::{
    load_gltf_meshes, merge_primitives, GeoSurface, MeshGeometry, PrimitiveData,
};
use vulkan_engine::vk_pipelines::{
    load_shader_module, DepthStencilState, PipelineBuilder, ShaderError, ShaderStage,
    StencilOpState, SPIRV_MAGIC,
};
use vulkan_engine::vk_types::{AllocationCreateDesc, AllocationScheme, MemoryLocation, Release, VulkanError};

#[test]
fn defaults() {
    let foo = avk::StencilOpState::default();
    println!("{}", foo.fail_op.as_raw());
    println!("{}", foo.pass_op.as_raw());
    println!("{}", foo.depth_fail_op.as_raw());
    let ours = StencilOpState::default();
    assert_eq!(ours.fail_op, foo.fail_op.as_raw());
    assert_eq!(ours.pass_op, foo.pass_op.as_raw());
    assert_eq!(ours.depth_fail_op, foo.depth_fail_op.as_raw());
    assert_eq!(ours.compare_op, foo.compare_op.as_raw());
    assert_eq!(ours.compare_mask, foo.compare_mask);
    assert_eq!(ours.write_mask, foo.write_mask);
    assert_eq!(ours.reference, foo.reference);
}

#[test]
fn instance_versions_come_from_the_binding() {
    let config = create_instance(vec![String::from("VK_KHR_surface")], true);
    assert_eq!(config.application_name, "Vulkan Application");
    assert_eq!(config.engine_name, "No Engine");
    assert_eq!(config.application_version, avk::make_api_version(0, 0, 1, 0));
    assert_eq!(config.engine_version, avk::make_api_version(0, 0, 1, 0));
    assert_eq!(config.api_version, avk::make_api_version(0, 1, 3, 0));
    assert_eq!(config.application_version, 4096);
    assert_eq!(config.api_version, 4_206_592);
    assert_eq!(config.window_extensions, vec![String::from("VK_KHR_surface")]);
    assert!(config.debug_utils);
    assert!(config.validation);
    let release = create_instance(Vec::new(), false);
    assert!(!release.debug_utils);
    assert!(!release.validation);
}

#[test]
fn debug_messenger_passes_errors_warnings_and_information() {
    let config = create_debug_messenger();
    assert_eq!(config.message_severity, 0x1110);
    assert_eq!(config.message_type, 0x7);
}

#[test]
fn device_asks_for_what_the_engine_needs() {
    let config = create_device(2);
    assert_eq!(config.queue_family_index, 2);
    assert_eq!(config.queue_count, 1);
    assert_eq!(f32::from_bits(config.queue_priority), 1.0);
    assert!(features_supported(&config.features));
    assert!(config.swapchain_extension);
}

fn caps(min: u32, max: u32, width: u32, supported: u32, current: u32) -> vk::SurfaceCapabilitiesKHR {
    vk::SurfaceCapabilitiesKHR {
        min_image_count: min,
        max_image_count: max,
        current_extent: vk::Extent2D { width, height: 777 },
        supported_transforms: supported,
        current_transform: current,
    }
}

#[test]
fn swapchain_plan() {
    let extent = vk::Extent2D { width: 1700, height: 900 };
    let plan = create_swapchain(&caps(2, 0, u32::MAX, 0x1, 0x4), 55, extent);
    assert_eq!(
        plan.create_info,
        vk::SwapchainCreateInfoKHR {
            surface: 55,
            min_image_count: 3,
            image_format: vk::FORMAT_B8G8R8A8_UNORM,
            image_color_space: vk::COLOR_SPACE_SRGB_NONLINEAR,
            image_extent: extent,
            image_array_layers: 1,
            image_usage: 0x12,
            image_sharing_mode: vk::SHARING_MODE_EXCLUSIVE,
            pre_transform: vk::SURFACE_TRANSFORM_IDENTITY,
            composite_alpha: vk::COMPOSITE_ALPHA_OPAQUE,
            present_mode: vk::PRESENT_MODE_FIFO,
            clipped: true,
        }
    );
    assert_eq!(plan.surface_format.format, 44);
    assert_eq!(plan.extent, extent);
    let target_extent = vk::Extent3D { width: 1700, height: 900, depth: 1 };
    assert_eq!(plan.draw_image.info.format, vk::FORMAT_R16G16B16A16_SFLOAT);
    assert_eq!(plan.draw_image.info.usage, 0x1B);
    assert_eq!(plan.draw_image.info.extent, target_extent);
    assert_eq!(plan.draw_image.aspect, vk::IMAGE_ASPECT_COLOR);
    assert_eq!(plan.depth_image.info.format, vk::FORMAT_D32_SFLOAT);
    assert_eq!(plan.depth_image.info.usage, 0x20);
    assert_eq!(plan.depth_image.info.extent, target_extent);
    assert_eq!(plan.depth_image.aspect, vk::IMAGE_ASPECT_DEPTH);
}

#[test]
fn swapchain_image_count_is_clamped() {
    let extent = vk::Extent2D { width: 1, height: 1 };
    let count = |min, max| create_swapchain(&caps(min, max, 0, 1, 1), 0, extent).create_info.min_image_count;
    assert_eq!(count(2, 0), 3);
    assert_eq!(count(2, 8), 3);
    assert_eq!(count(2, 3), 3);
    assert_eq!(count(2, 2), 2);
    assert_eq!(count(0, 0), 1);
    assert_eq!(count(u32::MAX, 0), u32::MAX);
    assert_eq!(count(u32::MAX, 5), 5);
}

#[test]
fn swapchain_extent_and_transform_follow_the_surface() {
    let asked = vk::Extent2D { width: 1700, height: 900 };
    let fixed = create_swapchain(&caps(2, 0, 640, 0x1, 0x1), 0, asked);
    assert_eq!(fixed.extent, vk::Extent2D { width: 640, height: 777 });
    // The extent kept is the extent that the images are created with.
    assert_eq!(fixed.create_info.image_extent, vk::Extent2D { width: 640, height: 777 });
    let open = create_swapchain(&caps(2, 0, u32::MAX, 0x1, 0x1), 0, asked);
    assert_eq!(open.extent, asked);
    assert_eq!(open.create_info.image_extent, asked);
    // The render targets keep the extent asked for.
    assert_eq!(fixed.draw_image.info.extent, vk::Extent3D { width: 1700, height: 900, depth: 1 });
    let rotated = create_swapchain(&caps(2, 0, 640, 0x6, 0x4), 0, asked);
    assert_eq!(rotated.create_info.pre_transform, 0x4);
    let either = create_swapchain(&caps(2, 0, 640, 0x7, 0x4), 0, asked);
    assert_eq!(either.create_info.pre_transform, 0x1);
}

#[test]
fn render_target_follows_its_plan() {
    let extent = vk::Extent2D { width: 8, height: 4 };
    let plan = create_swapchain(&caps(2, 0, 0, 1, 1), 0, extent).depth_image;
    let requirements = vk::MemoryRequirements { size: 128, alignment: 16, memory_type_bits: 0b100 };
    assert_eq!(
        plan.allocation_desc(31, requirements),
        AllocationCreateDesc {
            requirements: vk::MemoryRequirements {
                size: 128,
                alignment: 16,
                memory_type_bits: 0b101
            },
            location: MemoryLocation::GpuOnly,
            linear: false,
            allocation_scheme: AllocationScheme::DedicatedImage(31),
        }
    );
    let failed = plan.on_allocation_failed(31);
    assert_eq!(failed.len(), 1);
    assert!(matches!(failed[0], Release::DestroyImage(31)));
    let view = plan.view_info(31);
    assert_eq!(view.image, 31);
    assert_eq!(view.format, vk::FORMAT_D32_SFLOAT);
    assert_eq!(view.subresource_range.aspect_mask, vk::IMAGE_ASPECT_DEPTH);
    let target = plan.finish(31, 32, gpu_allocator::vulkan::Allocation::default());
    assert_eq!(target.image, 31);
    assert_eq!(target.image_view, 32);
    assert!(target.allocation.holds());
    assert_eq!(target.image_extent, vk::Extent3D { width: 8, height: 4, depth: 1 });
    assert_eq!(target.image_format, vk::FORMAT_D32_SFLOAT);
    let views = swapchain_image_views(&vec![7, 8], 44);
    assert_eq!(views.len(), 2);
    assert_eq!(views[1].image, 8);
    assert_eq!(views[1].format, 44);
    assert_eq!(views[1].subresource_range.aspect_mask, vk::IMAGE_ASPECT_COLOR);
    assert_eq!(views[1].subresource_range.level_count, 1);
}

#[test]
fn startup_creates_two_slots_and_one_immediate_set() {
    let commands = init_commands(4);
    let sync = init_sync_structures();
    let pools = commands.iter().filter(|c| matches!(c, Create::CommandPool(_))).count();
    let buffers = commands.iter().filter(|c| matches!(c, Create::CommandBuffers { .. })).count();
    let fences = sync.iter().filter(|c| matches!(c, Create::Fence(_))).count();
    let semaphores = sync.iter().filter(|c| matches!(c, Create::Semaphore(_))).count();
    // Two for the frame slots and one for immediate submissions.
    assert_eq!(pools, 2 + 1);
    assert_eq!(buffers, 2 + 1);
    assert_eq!(fences, 2 + 1);
    assert_eq!(semaphores, 4);
    for c in &commands {
        if let Create::CommandPool(info) = c {
            assert_eq!(info.queue_family_index, 4);
            assert_eq!(info.flags, vk::COMMAND_POOL_CREATE_RESET_COMMAND_BUFFER);
        }
    }
    for c in &sync {
        if let Create::Fence(info) = c {
            assert_eq!(info.flags, vk::FENCE_CREATE_SIGNALED);
        }
    }
    assert_eq!(
        sync,
        vec![
            Create::Fence(vk::FenceCreateInfo { flags: 1 }),
            Create::Semaphore(vk::SemaphoreCreateInfo { flags: 0 }),
            Create::Semaphore(vk::SemaphoreCreateInfo { flags: 0 }),
            Create::Fence(vk::FenceCreateInfo { flags: 1 }),
            Create::Semaphore(vk::SemaphoreCreateInfo { flags: 0 }),
            Create::Semaphore(vk::SemaphoreCreateInfo { flags: 0 }),
            Create::Fence(vk::FenceCreateInfo { flags: 1 }),
        ]
    );
    // Each pool is followed by one primary command buffer from that pool.
    let pool = Create::CommandPool(vk::CommandPoolCreateInfo { flags: 2, queue_family_index: 4 });
    let buffer = |pool_step| Create::CommandBuffers {
        pool_step,
        level: vk::COMMAND_BUFFER_LEVEL_PRIMARY,
        count: 1,
    };
    assert_eq!(commands, vec![pool, buffer(0), pool, buffer(2), pool, buffer(4)]);
    // The request names the pool that the step before it created.
    let created = vec![70, 71, 80];
    assert_eq!(
        command_buffer_request(&commands[3], &created),
        Some(vk::CommandBufferAllocateInfo { command_pool: 80, level: 0, command_buffer_count: 1 })
    );
    assert_eq!(
        command_buffer_request(&commands[1], &created),
        Some(vk::CommandBufferAllocateInfo { command_pool: 70, level: 0, command_buffer_count: 1 })
    );
    assert_eq!(command_buffer_request(&commands[5], &created), None);
    assert_eq!(command_buffer_request(&commands[0], &created), None);
    assert_eq!(command_buffer_request(&sync[0], &created), None);
}

#[test]
fn frame_ring_is_assembled_in_plan_order() {
    let commands = vec![10, 11, 20, 21, 30, 31];
    let sync = vec![100, 101, 102, 200, 201, 202, 300];
    let ring = init_frames(&commands, &sync).unwrap();
    assert_eq!(
        ring.frames[0],
        FrameData {
            command_pool: 10,
            main_command_buffer: 11,
            swapchain_semaphore: 101,
            render_semaphore: 102,
            render_fence: 100,
        }
    );
    assert_eq!(
        ring.frames[1],
        FrameData {
            command_pool: 20,
            main_command_buffer: 21,
            swapchain_semaphore: 201,
            render_semaphore: 202,
            render_fence: 200,
        }
    );
    assert_eq!(ring.immediate_command_pool, 30);
    assert_eq!(ring.immediate_command_buffer, 31);
    assert_eq!(ring.immediate_fence, 300);
    assert!(init_frames(&vec![10, 11, 20, 21, 30], &sync).is_none());
    assert!(init_frames(&commands, &vec![100, 101, 102, 200, 201, 202]).is_none());
    assert!(init_frames(&Vec::new(), &Vec::new()).is_none());
}

#[test]
fn descriptors_of_the_engine() {
    let setup = init_descriptors();
    assert_eq!(setup.pool_info.flags, 0);
    assert_eq!(setup.pool_info.max_sets, 10);
    assert_eq!(
        setup.pool_info.pool_sizes,
        vec![DescriptorPoolSize { ty: vk::DESCRIPTOR_TYPE_STORAGE_IMAGE, descriptor_count: 10 }]
    );
    assert_eq!(setup.layout_info.flags, 0);
    assert_eq!(
        setup.layout_info.bindings,
        vec![DescriptorSetLayoutBinding {
            binding: 0,
            descriptor_type: vk::DESCRIPTOR_TYPE_STORAGE_IMAGE,
            descriptor_count: 1,
            stage_flags: vk::SHADER_STAGE_COMPUTE,
        }]
    );
    assert_eq!(
        draw_image_write(3, 4),
        WriteDescriptorSet {
            dst_set: 3,
            dst_binding: 0,
            descriptor_type: vk::DESCRIPTOR_TYPE_STORAGE_IMAGE,
            image_view: 4,
            image_layout: vk::IMAGE_LAYOUT_GENERAL,
        }
    );
}

#[test]
fn layout_builder_adds_stages_to_every_binding() {
    let mut builder = DescriptorSetLayoutBuilder::new();
    builder.add_binding(0, vk::DESCRIPTOR_TYPE_STORAGE_IMAGE);
    builder.add_binding(3, vk::DESCRIPTOR_TYPE_UNIFORM_BUFFER);
    builder.bindings[1].stage_flags = vk::SHADER_STAGE_VERTEX;
    let info = builder.clone().build(vk::SHADER_STAGE_FRAGMENT);
    assert_eq!(info.flags, 0);
    assert_eq!(
        info.bindings,
        vec![
            DescriptorSetLayoutBinding {
                binding: 0,
                descriptor_type: 3,
                descriptor_count: 1,
                stage_flags: 0x10,
            },
            DescriptorSetLayoutBinding {
                binding: 3,
                descriptor_type: 6,
                descriptor_count: 1,
                stage_flags: 0x11,
            },
        ]
    );
    builder.clear();
    assert!(builder.bindings.is_empty());
    assert!(builder.build(1).bindings.is_empty());
}

#[test]
fn pool_ratio_is_a_floor_of_the_fraction() {
    let ratio = |numerator, denominator| PoolSizeRatio { descriptor_type: 0, numerator, denominator };
    assert_eq!(ratio(1, 1).count(10), 10);
    assert_eq!(ratio(3, 2).count(10), 15);
    assert_eq!(ratio(1, 3).count(10), 3);
    assert_eq!(ratio(2, 3).count(10), 6);
    assert_eq!(ratio(0, 5).count(10), 0);
    assert_eq!(ratio(1, 0).count(10), 0);
    assert_eq!(ratio(u32::MAX, 1).count(2), u32::MAX);
    assert_eq!(ratio(u32::MAX, u32::MAX).count(u32::MAX), u32::MAX);
    assert_eq!(ratio(7, 2).count(0), 0);
    // The same counts as the floor of the product in floating point.
    assert_eq!(ratio(3, 2).count(10), (1.5f32 * 10f32).floor() as u32);
    assert_eq!(ratio(1, 4).count(10), (0.25f32 * 10f32).floor() as u32);
}

#[test]
fn descriptor_pool_and_sets() {
    let ratios = vec![
        PoolSizeRatio { descriptor_type: 3, numerator: 1, denominator: 1 },
        PoolSizeRatio { descriptor_type: 6, numerator: 5, denominator: 2 },
    ];
    let info = DescriptorAllocator::init_pool(4, &ratios);
    assert_eq!(info.flags, 0);
    assert_eq!(info.max_sets, 4);
    assert_eq!(
        info.pool_sizes,
        vec![
            DescriptorPoolSize { ty: 3, descriptor_count: 4 },
            DescriptorPoolSize { ty: 6, descriptor_count: 10 },
        ]
    );
    assert!(DescriptorAllocator::init_pool(4, &Vec::new()).pool_sizes.is_empty());
    let allocator = DescriptorAllocator::new(77);
    assert_eq!(
        allocator.allocate(5),
        DescriptorSetAllocateInfo { descriptor_pool: 77, set_layout: 5 }
    );
    assert!(matches!(allocator.destroy_pool(), Release::DestroyDescriptorPool(77)));
    assert_eq!(DescriptorAllocator::default().pool, vk::NULL_HANDLE);
}

fn spirv(words: &[u32], big_endian: bool) -> Vec<u8> {
    let mut bytes = Vec::new();
    for w in words {
        if big_endian {
            bytes.extend_from_slice(&w.to_be_bytes());
        } else {
            bytes.extend_from_slice(&w.to_le_bytes());
        }
    }
    bytes
}

#[test]
fn shader_words_are_read_in_the_order_of_the_module() {
    let words = [SPIRV_MAGIC, 0x0001_0300, 0xDEAD_BEEF, 7];
    let little = load_shader_module(&spirv(&words, false)).unwrap();
    assert_eq!(little.code, words.to_vec());
    let big = load_shader_module(&spirv(&words, true)).unwrap();
    assert_eq!(big.code, words.to_vec());
    let only_magic = load_shader_module(&[0x03, 0x02, 0x23, 0x07]).unwrap();
    assert_eq!(only_magic.code, vec![0x0723_0203]);
    assert_eq!(SPIRV_MAGIC, 0x0723_0203);
}

#[test]
fn shader_bytes_are_refused() {
    assert_eq!(load_shader_module(&[]).err(), Some(ShaderError::MissingMagic));
    assert_eq!(load_shader_module(&[0x03, 0x02, 0x23]).err(), Some(ShaderError::RaggedLength));
    assert_eq!(
        load_shader_module(&[0x03, 0x02, 0x23, 0x07, 0x00]).err(),
        Some(ShaderError::RaggedLength)
    );
    assert_eq!(load_shader_module(&[0, 0, 0, 0]).err(), Some(ShaderError::MissingMagic));
    assert_eq!(
        load_shader_module(&[0x02, 0x03, 0x23, 0x07, 1, 2, 3, 4]).err(),
        Some(ShaderError::MissingMagic)
    );
    // The magic number must come first.
    assert_eq!(
        load_shader_module(&spirv(&[1, SPIRV_MAGIC], false)).err(),
        Some(ShaderError::MissingMagic)
    );
}

#[test]
fn pipeline_builder_setters() {
    let mut b = PipelineBuilder::default();
    assert!(b.shader_stages.is_empty());
    assert_eq!(b.pipeline_layout, vk::NULL_HANDLE);
    assert_eq!(b.color_attachment_format, vk::FORMAT_UNDEFINED);
    assert_eq!(b.rasterizer.line_width, 0);

    b.set_shaders(1, 2, "main", "frag_main");
    b.set_shaders(3, 4, "main", "frag_main");
    assert_eq!(
        b.shader_stages,
        vec![
            ShaderStage { stage: vk::SHADER_STAGE_VERTEX, module: 3, entry: "main" },
            ShaderStage { stage: vk::SHADER_STAGE_FRAGMENT, module: 4, entry: "frag_main" },
        ]
    );
    b.input_assembly.primitive_restart_enable = true;
    b.set_input_topology(vk::PRIMITIVE_TOPOLOGY_TRIANGLE_LIST);
    assert_eq!(b.input_assembly.topology, 3);
    assert!(!b.input_assembly.primitive_restart_enable);

    b.set_polygon_mode(vk::POLYGON_MODE_FILL);
    assert_eq!(b.rasterizer.polygon_mode, 0);
    assert_eq!(f32::from_bits(b.rasterizer.line_width), 1.0);
    b.set_cull_mode(0x2, vk::FRONT_FACE_CLOCKWISE);
    assert_eq!(b.rasterizer.cull_mode, 0x2);
    assert_eq!(b.rasterizer.front_face, 1);
    assert_eq!(f32::from_bits(b.rasterizer.line_width), 1.0);

    b.multisampling.has_sample_mask = true;
    b.set_multisampling_none();
    assert_eq!(b.multisampling.rasterization_samples, vk::SAMPLE_COUNT_1);
    assert!(!b.multisampling.sample_shading_enable);
    assert_eq!(f32::from_bits(b.multisampling.min_sample_shading), 1.0);
    assert!(!b.multisampling.has_sample_mask);
    assert!(!b.multisampling.alpha_to_coverage_enable);
    assert!(!b.multisampling.alpha_to_one_enable);

    b.enable_blending_additive();
    assert!(b.color_blend_attachment.blend_enable);
    assert_eq!(b.color_blend_attachment.src_color_blend_factor, vk::BLEND_FACTOR_SRC_ALPHA);
    assert_eq!(b.color_blend_attachment.dst_color_blend_factor, vk::BLEND_FACTOR_ONE);
    assert_eq!(b.color_blend_attachment.src_alpha_blend_factor, vk::BLEND_FACTOR_ONE);
    assert_eq!(b.color_blend_attachment.dst_alpha_blend_factor, vk::BLEND_FACTOR_ZERO);
    b.disable_blending();
    assert!(!b.color_blend_attachment.blend_enable);
    assert_eq!(b.color_blend_attachment.color_write_mask, 0xF);
    assert_eq!(b.color_blend_attachment.src_color_blend_factor, vk::BLEND_FACTOR_SRC_ALPHA);

    b.set_color_attachment_format(97);
    assert_eq!(b.color_attachment_format, 97);
    assert_eq!(b.render_info.color_attachment_count, 1);
    assert_eq!(b.render_info.color_attachment_format, 97);
    b.set_depth_format(126);
    assert_eq!(b.render_info.depth_attachment_format, 126);
    assert_eq!(b.render_info.color_attachment_format, 97);

    b.enable_depth_test(false, vk::COMPARE_OP_GREATER_OR_EQUAL);
    assert!(b.depth_stencil.depth_test_enable);
    assert!(!b.depth_stencil.depth_write_enable);
    assert_eq!(b.depth_stencil.depth_compare_op, 6);
    b.disable_depth_test();
    assert_eq!(
        b.depth_stencil,
        DepthStencilState {
            depth_test_enable: false,
            depth_write_enable: false,
            depth_compare_op: vk::COMPARE_OP_NEVER,
            depth_bounds_test_enable: false,
            stencil_test_enable: false,
            front: StencilOpState::default(),
            back: StencilOpState::default(),
            min_depth_bounds: 0.0f32.to_bits(),
            max_depth_bounds: 1.0f32.to_bits(),
        }
    );

    b.pipeline_layout = 9;
    let info = b.clone().build_pipeline();
    assert_eq!(info.stages, b.shader_stages);
    assert_eq!(info.layout, 9);
    assert_eq!(info.viewport_count, 1);
    assert_eq!(info.scissor_count, 1);
    assert!(!info.logic_op_enable);
    assert_eq!(info.logic_op, vk::LOGIC_OP_COPY);
    assert_eq!(info.dynamic_state_first, vk::DYNAMIC_STATE_VIEWPORT);
    assert_eq!(info.dynamic_state_second, vk::DYNAMIC_STATE_SCISSOR);
    assert_eq!(info.rasterizer, b.rasterizer);
    assert_eq!(info.depth_stencil, b.depth_stencil);
    assert_eq!(info.render_info, b.render_info);
}

#[test]
fn mesh_pipeline() {
    let info = init_mesh_pipeline(1, 2, 3, 97, 126);
    assert_eq!(
        info.stages,
        vec![
            ShaderStage { stage: vk::SHADER_STAGE_VERTEX, module: 1, entry: "main" },
            ShaderStage { stage: vk::SHADER_STAGE_FRAGMENT, module: 2, entry: "main" },
        ]
    );
    assert_eq!(info.layout, 3);
    assert_eq!(info.input_assembly.topology, vk::PRIMITIVE_TOPOLOGY_TRIANGLE_LIST);
    assert_eq!(info.rasterizer.polygon_mode, vk::POLYGON_MODE_FILL);
    assert_eq!(info.rasterizer.cull_mode, vk::CULL_MODE_NONE);
    assert_eq!(info.rasterizer.front_face, vk::FRONT_FACE_CLOCKWISE);
    assert_eq!(info.multisampling.rasterization_samples, 1);
    assert!(info.color_blend_attachment.blend_enable);
    assert!(info.depth_stencil.depth_test_enable);
    assert!(info.depth_stencil.depth_write_enable);
    assert_eq!(info.depth_stencil.depth_compare_op, vk::COMPARE_OP_GREATER_OR_EQUAL);
    assert_eq!(info.render_info.color_attachment_format, 97);
    assert_eq!(info.render_info.depth_attachment_format, 126);
    assert_eq!(info.render_info.color_attachment_count, 1);
    assert_eq!(
        mesh_pipeline_layout(),
        PipelineLayoutCreateInfo {
            set_layout: None,
            push_constant_range: vk::PushConstantRange {
                stage_flags: vk::SHADER_STAGE_VERTEX,
                offset: 0,
                size: 72
            },
        }
    );
}

#[test]
fn background_effects() {
    assert_eq!(COMPUTE_PUSH_CONSTANTS_SIZE as usize, std::mem::size_of::<[f32; 16]>());
    assert_eq!(
        background_pipeline_layout(5),
        PipelineLayoutCreateInfo {
            set_layout: Some(5),
            push_constant_range: vk::PushConstantRange {
                stage_flags: vk::SHADER_STAGE_COMPUTE,
                offset: 0,
                size: 64
            },
        }
    );
    let pipeline = background_pipeline(5, 6);
    assert_eq!(pipeline.layout, 5);
    assert_eq!(pipeline.module, 6);
    assert_eq!(pipeline.entry, SHADER_ENTRY);
    assert_eq!(SHADER_ENTRY, "main");

    let effects = init_background_pipelines(1, 2, 3);
    assert_eq!(effects.len(), 2);
    assert_eq!(effects[0].name, "gradient");
    assert_eq!(effects[0].pipeline, 2);
    assert_eq!(effects[0].layout, 1);
    assert_eq!(effects[1].name, "sky");
    assert_eq!(effects[1].pipeline, 3);
    assert_eq!(effects[1].layout, 1);
    let floats = |v: Vector4| [f32::from_bits(v.x), f32::from_bits(v.y), f32::from_bits(v.z), f32::from_bits(v.w)];
    assert_eq!(floats(effects[0].data.data1), [1.0, 0.0, 0.0, 1.0]);
    assert_eq!(floats(effects[0].data.data2), [0.0, 0.0, 1.0, 1.0]);
    assert_eq!(floats(effects[0].data.data3), [0.0; 4]);
    assert_eq!(floats(effects[1].data.data1), [0.1, 0.2, 0.4, 0.97]);
    assert_eq!(floats(effects[1].data.data2), [0.0; 4]);
    assert_eq!(F32_TENTH, 0.1f32.to_bits());
    assert_eq!(F32_FIFTH, 0.2f32.to_bits());
    assert_eq!(F32_TWO_FIFTHS, 0.4f32.to_bits());
    assert_eq!(F32_NEARLY_ONE, 0.97f32.to_bits());
    assert_eq!(floats(ComputePushConstants::default().data4), [0.0; 4]);

    let pipelines = init_pipelines(effects.clone(), 8, 9);
    assert_eq!(pipelines.background_effects, effects);
    assert_eq!(pipelines.mesh_pipeline, 8);
    assert_eq!(pipelines.mesh_pipeline_layout, 9);
}

fn features(all: bool) -> DeviceFeatures {
    DeviceFeatures {
        buffer_device_address: true,
        descriptor_indexing: true,
        dynamic_rendering: all,
        synchronization2: true,
    }
}

fn family(queue_flags: u32, surface_support: bool) -> QueueFamily {
    QueueFamily { queue_flags, surface_support }
}

#[test]
fn queue_family_is_the_first_that_fits() {
    let families = vec![family(0x2, true), family(0x1, false), family(0x7, true), family(0x1, true)];
    assert_eq!(surface_supported(&families), Some(2));
    assert_eq!(surface_supported(&vec![family(0x6, true), family(0x1, false)]), None);
    assert_eq!(surface_supported(&Vec::new()), None);
    assert_eq!(surface_supported(&vec![family(0x1, true)]), Some(0));
}

#[test]
fn features_are_all_needed() {
    assert!(features_supported(&features(true)));
    assert!(!features_supported(&features(false)));
    for missing in 0..4 {
        let f = DeviceFeatures {
            buffer_device_address: missing != 0,
            descriptor_indexing: missing != 1,
            dynamic_rendering: missing != 2,
            synchronization2: missing != 3,
        };
        assert!(!features_supported(&f));
    }
}

#[test]
fn physical_device_is_the_first_suitable() {
    let device = |handle, all, families| PhysicalDeviceInfo {
        handle,
        features: features(all),
        queue_families: families,
    };
    let devices = vec![
        device(1, false, vec![family(0x1, true)]),
        device(2, true, vec![family(0x2, true)]),
        device(3, true, vec![family(0x4, true), family(0x1, true)]),
        device(4, true, vec![family(0x1, true)]),
    ];
    assert_eq!(is_physical_device_suitable(&devices[0]), None);
    assert_eq!(is_physical_device_suitable(&devices[1]), None);
    assert_eq!(is_physical_device_suitable(&devices[2]), Some(1));
    assert_eq!(pick_physical_device_and_queue(&devices), Some((3, 1)));
    assert_eq!(pick_physical_device_and_queue(&devices[..2].to_vec()), None);
    assert_eq!(pick_physical_device_and_queue(&Vec::new()), None);
}

#[test]
fn primitives_are_merged_into_one_mesh() {
    let primitives = vec![
        PrimitiveData { indices: vec![0, 1, 2, 2, 1, 3], vertex_count: 4 },
        PrimitiveData { indices: vec![0, 1, 2], vertex_count: 3 },
        PrimitiveData { indices: Vec::new(), vertex_count: 5 },
        PrimitiveData { indices: vec![1, 0], vertex_count: 2 },
    ];
    assert_eq!(
        merge_primitives(&primitives),
        Some(MeshGeometry {
            indices: vec![0, 1, 2, 2, 1, 3, 4, 5, 6, 13, 12],
            surfaces: vec![
                GeoSurface { start_index: 0, count: 6 },
                GeoSurface { start_index: 6, count: 3 },
                GeoSurface { start_index: 9, count: 0 },
                GeoSurface { start_index: 9, count: 2 },
            ],
            vertex_count: 14,
        })
    );
    assert_eq!(
        merge_primitives(&Vec::new()),
        Some(MeshGeometry { indices: Vec::new(), surfaces: Vec::new(), vertex_count: 0 })
    );
    assert_eq!(GeoSurface::default(), GeoSurface { start_index: 0, count: 0 });
}

#[test]
fn merging_refuses_indices_beyond_32_bits() {
    let overflowing = vec![
        PrimitiveData { indices: vec![0], vertex_count: 10 },
        PrimitiveData { indices: vec![u32::MAX - 9], vertex_count: 1 },
    ];
    assert_eq!(merge_primitives(&overflowing), None);
    let fitting = vec![
        PrimitiveData { indices: vec![0], vertex_count: 10 },
        PrimitiveData { indices: vec![u32::MAX - 10], vertex_count: 1 },
    ];
    assert_eq!(merge_primitives(&fitting).unwrap().indices, vec![0, u32::MAX]);
    let too_many_vertices = vec![
        PrimitiveData { indices: Vec::new(), vertex_count: usize::MAX },
        PrimitiveData { indices: Vec::new(), vertex_count: 1 },
    ];
    assert_eq!(merge_primitives(&too_many_vertices), None);
    // Vertices beyond 32 bits are no obstacle while no index points past them.
    let unindexed = vec![
        PrimitiveData { indices: Vec::new(), vertex_count: 1 << 40 },
        PrimitiveData { indices: Vec::new(), vertex_count: 1 },
    ];
    assert!(merge_primitives(&unindexed).is_some());
}

#[test]
fn meshes_of_an_asset_are_merged_one_by_one() {
    let cube = vec![PrimitiveData { indices: vec![0, 1, 2], vertex_count: 3 }];
    let pair = vec![
        PrimitiveData { indices: vec![0], vertex_count: 1 },
        PrimitiveData { indices: vec![0], vertex_count: 1 },
    ];
    let loaded = load_gltf_meshes(&vec![cube.clone(), pair.clone()]).unwrap();
    assert_eq!(loaded.len(), 2);
    assert_eq!(loaded[0].indices, vec![0, 1, 2]);
    assert_eq!(loaded[1].indices, vec![0, 1]);
    assert_eq!(loaded[1].surfaces[1], GeoSurface { start_index: 1, count: 1 });
    let bad = vec![
        PrimitiveData { indices: vec![5], vertex_count: 1 },
        PrimitiveData { indices: vec![u32::MAX], vertex_count: 1 },
    ];
    assert_eq!(load_gltf_meshes(&vec![cube, bad, pair]), None);
    assert_eq!(load_gltf_meshes(&Vec::new()), Some(Vec::new()));
}

#[test]
fn debug_messages_are_logged_by_severity() {
    let level = |s| vulkan_debug_callback(s).level;
    assert_eq!(level(vk::DEBUG_SEVERITY_VERBOSE), LogLevel::Debug);
    assert_eq!(level(vk::DEBUG_SEVERITY_INFO), LogLevel::Info);
    assert_eq!(level(vk::DEBUG_SEVERITY_WARNING), LogLevel::Warn);
    assert_eq!(level(vk::DEBUG_SEVERITY_ERROR), LogLevel::Error);
    assert_eq!(level(0), LogLevel::Error);
    assert_eq!(level(0x1100), LogLevel::Error);
    assert_eq!(
        vulkan_debug_callback(vk::DEBUG_SEVERITY_ERROR),
        DebugVerdict { level: LogLevel::Error, abort_call: false }
    );
    assert_eq!(avk::FALSE, 0);
}

fn immediate() -> ImmediateContext {
    ImmediateContext::new(1, 2, 3, 4)
}

#[test]
fn immediate_submission_in_order() {
    let mut c = immediate();
    assert_eq!(c.phase, ImmediatePhase::Idle);
    let mut actions = vec![c.immediate_submit(FrameEvent::Start).unwrap()];
    while *actions.last().unwrap() != ImmediateAction::Completed {
        actions.push(c.immediate_submit(FrameEvent::Done(vk::SUCCESS)).unwrap());
    }
    assert_eq!(
        actions,
        vec![
            ImmediateAction::ResetFence { fence: 1 },
            ImmediateAction::ResetCommandPool { command_pool: 2 },
            ImmediateAction::BeginCommandBuffer {
                command_buffer: 3,
                info: vk::CommandBufferBeginInfo { flags: vk::COMMAND_BUFFER_USAGE_ONE_TIME_SUBMIT },
            },
            ImmediateAction::Record { command_buffer: 3 },
            ImmediateAction::EndCommandBuffer { command_buffer: 3 },
            ImmediateAction::Submit {
                queue: 4,
                submit: vk::SubmitInfo2 {
                    wait_semaphore_info: None,
                    command_buffer_info: vk::CommandBufferSubmitInfo {
                        command_buffer: 3,
                        device_mask: 0
                    },
                    signal_semaphore_info: None,
                },
                fence: 1,
            },
            ImmediateAction::WaitForFence { fence: 1, timeout: 9_999_999_999 },
            ImmediateAction::Completed,
        ]
    );
    assert_eq!(c.phase, ImmediatePhase::Idle);
    assert_eq!(IMMEDIATE_TIMEOUT_NS, 9_999_999_999);
}

#[test]
fn immediate_submission_completes_only_after_the_fence() {
    // A device that signals the fence late: the wait times out twice before
    // it succeeds. Until then the submission is not complete.
    let mut c = immediate();
    c.immediate_submit(FrameEvent::Start).unwrap();
    let mut last = ImmediateAction::Completed;
    for _ in 0..6 {
        last = c.immediate_submit(FrameEvent::Done(vk::SUCCESS)).unwrap();
        assert_ne!(last, ImmediateAction::Completed);
    }
    assert!(matches!(last, ImmediateAction::WaitForFence { .. }));
    assert_eq!(c.phase, ImmediatePhase::WaitingFence);
    assert_eq!(c.immediate_submit(FrameEvent::Done(vk::TIMEOUT)), Err(ImmediateError::FenceTimeout));
    assert_eq!(c.phase, ImmediatePhase::Idle);
    // No event reaches completion from any phase but the wait.
    let phases = [
        ImmediatePhase::ResettingFence,
        ImmediatePhase::ResettingPool,
        ImmediatePhase::Beginning,
        ImmediatePhase::Recording,
        ImmediatePhase::Ending,
        ImmediatePhase::Submitting,
    ];
    for phase in phases {
        for code in [vk::SUCCESS, vk::TIMEOUT, vk::NOT_READY, -4] {
            let mut c = immediate();
            c.phase = phase;
            assert_ne!(
                c.immediate_submit(FrameEvent::Done(code)),
                Ok(ImmediateAction::Completed)
            );
        }
    }
    let mut c = immediate();
    c.phase = ImmediatePhase::WaitingFence;
    assert_eq!(c.immediate_submit(FrameEvent::Done(vk::SUCCESS)), Ok(ImmediateAction::Completed));
}

#[test]
fn immediate_submission_errors() {
    let mut c = immediate();
    assert_eq!(c.immediate_submit(FrameEvent::Done(0)), Err(ImmediateError::UnexpectedEvent));
    c.immediate_submit(FrameEvent::Start).unwrap();
    // One submission at a time.
    assert_eq!(c.immediate_submit(FrameEvent::Start), Err(ImmediateError::UnexpectedEvent));
    assert_eq!(c.phase, ImmediatePhase::ResettingFence);
    assert_eq!(
        c.immediate_submit(FrameEvent::Acquired { code: 0, image_index: 0 }),
        Err(ImmediateError::UnexpectedEvent)
    );
    assert_eq!(
        c.immediate_submit(FrameEvent::Done(vk::ERROR_DEVICE_LOST)),
        Err(ImmediateError::Device {
            phase: ImmediatePhase::ResettingFence,
            error: VulkanError::DeviceLost
        })
    );
    assert_eq!(c.phase, ImmediatePhase::Idle);
    let mut c = immediate();
    c.phase = ImmediatePhase::Submitting;
    assert_eq!(
        c.immediate_submit(FrameEvent::Done(vk::TIMEOUT)),
        Err(ImmediateError::Device { phase: ImmediatePhase::Submitting, error: VulkanError::Timeout })
    );
    assert_eq!(following(ImmediatePhase::WaitingFence), ImmediatePhase::Idle);
    assert_eq!(following(ImmediatePhase::Idle), ImmediatePhase::ResettingFence);
}

#[test]
fn overlay_setup() {
    let setup = init_imgui(44);
    assert_eq!(setup.color_attachment_format, 44);
    assert_eq!(setup.in_flight_frames, 2);
    assert_eq!(setup.pool_info.flags, vk::DESCRIPTOR_POOL_CREATE_FREE_DESCRIPTOR_SET);
    assert_eq!(setup.pool_info.max_sets, 1000);
    let expected: Vec<DescriptorPoolSize> =
        (0..11).map(|ty| DescriptorPoolSize { ty, descriptor_count: 1000 }).collect();
    assert_eq!(setup.pool_info.pool_sizes, expected);
    assert_eq!(setup.pool_info.pool_sizes[10].ty, avk::DescriptorType::INPUT_ATTACHMENT.as_raw());
}
