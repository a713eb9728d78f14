//! Setup: what the engine asks of the device before the first frame.
//!
//! Each function here plans one part of the setup. The host creates what
//! a plan names and hands the handles back for the next part.

pub mod device;

use crate::vk;
use crate::vk_compute::{ComputeEffect, ComputePushConstants, Vector4, COMPUTE_PUSH_CONSTANTS_SIZE};
use crate::vk_descriptors::{
    DescriptorAllocator, DescriptorPoolCreateInfo, DescriptorSetLayoutBuilder,
    DescriptorSetLayoutCreateInfo, PoolSizeRatio,
};
use crate::vk_engine::frame_data::{FrameData, FRAME_OVERLAP};
use crate::vk_engine::{FrameRing, Pipelines, MESH_PUSH_CONSTANTS_SIZE};
use crate::vk_init;
use crate::vk_pipelines::{
    ColorBlendAttachmentState, GraphicsPipelineCreateInfo, InputAssemblyState, MultisampleState,
    PipelineBuilder, PipelineRenderingInfo, RasterizationState, ShaderStage,
};
use crate::vk_types::{
    AllocatedImage, AllocationCreateDesc, AllocationScheme, AllocationSlot, MemoryLocation,
    Release,
};
use vstd::prelude::*;

verus! {

pub const APPLICATION_NAME: &'static str = "Vulkan Application";

pub const ENGINE_NAME: &'static str = "No Engine";

/// The instance extension that carries the messages of the validation
/// layers.
pub const DEBUG_UTILS_EXTENSION: &'static str = "VK_EXT_debug_utils";

/// The layer that validates every call.
pub const VALIDATION_LAYER: &'static str = "VK_LAYER_KHRONOS_validation";

/// The device extension that presents images to a surface.
pub const SWAPCHAIN_EXTENSION: &'static str = "VK_KHR_swapchain";

/// The entry point of every shader.
pub const SHADER_ENTRY: &'static str = "main";

pub const GRADIENT_SHADER_PATH: &'static str = "./shaders/gradient_color_comp.spv";

pub const SKY_SHADER_PATH: &'static str = "./shaders/sky_comp.spv";

pub const MESH_FRAGMENT_SHADER_PATH: &'static str = "shaders/colored_triangle_frag.spv";

pub const MESH_VERTEX_SHADER_PATH: &'static str = "shaders/colored_triangle_mesh_vert.spv";

/// The asset that the meshes of the engine are loaded from.
pub const DEFAULT_MESHES_PATH: &'static str = "./assets/basicmesh.glb";

/// Sets in the descriptor pool of the engine.
pub const GLOBAL_POOL_SETS: u32 = 10;

/// A version number of the API as it packs variant, major, minor and patch
/// into 32 bits.
pub open spec fn api_version(variant: u32, major: u32, minor: u32, patch: u32) -> u32 {
    (variant << 29) | (major << 22) | (minor << 12) | patch
}

/// `ash::vk::make_api_version`: shifts the variant by 29 bits, the major
/// number by 22 and the minor number by 12, and joins them with the patch
/// number bit by bit.
#[verifier::external_body]
fn make_api_version(variant: u32, major: u32, minor: u32, patch: u32) -> (version: u32)
    ensures
        version == api_version(variant, major, minor, patch),
{
    ash::vk::make_api_version(variant, major, minor, patch)
}

/// What the instance is created with.
#[derive(Clone, Debug, PartialEq, Eq)]
pub struct InstanceConfig {
    pub application_name: &'static str,
    pub application_version: u32,
    pub engine_name: &'static str,
    pub engine_version: u32,
    pub api_version: u32,
    /// The extensions that the window needs.
    pub window_extensions: Vec<String>,
    /// Whether the debug extension is enabled besides them.
    pub debug_utils: bool,
    /// Whether the validation layer is enabled.
    pub validation: bool,
}

/// Plans the instance: version 0.1.0 of application and engine on version
/// 1.3 of the API, with the extensions that the window asks for. A debug
/// build adds the debug extension and the validation layer.
pub fn create_instance(window_extensions: Vec<String>, debug: bool) -> (config: InstanceConfig)
    ensures
        config.application_name == APPLICATION_NAME,
        config.engine_name == ENGINE_NAME,
        config.application_version == api_version(0, 0, 1, 0),
        config.engine_version == api_version(0, 0, 1, 0),
        config.api_version == api_version(0, 1, 3, 0),
        config.window_extensions == window_extensions,
        config.debug_utils == debug,
        config.validation == debug,
{
    InstanceConfig {
        application_name: APPLICATION_NAME,
        application_version: make_api_version(0, 0, 1, 0),
        engine_name: ENGINE_NAME,
        engine_version: make_api_version(0, 0, 1, 0),
        api_version: make_api_version(0, 1, 3, 0),
        window_extensions,
        debug_utils: debug,
        validation: debug,
    }
}

/// The version numbers of the instance, written out.
pub proof fn lemma_instance_versions()
    ensures
        api_version(0, 0, 1, 0) == 0x1000,
        api_version(0, 1, 3, 0) == 0x40_3000,
{
    assert((0u32 << 29) | (0u32 << 22) | (1u32 << 12) | 0u32 == 0x1000u32) by (bit_vector);
    assert((0u32 << 29) | (1u32 << 22) | (3u32 << 12) | 0u32 == 0x40_3000u32) by (bit_vector);
}

/// Which messages the debug messenger passes on.
#[derive(Clone, Copy, Debug, PartialEq, Eq, Structural)]
pub struct DebugMessengerConfig {
    pub message_severity: u32,
    pub message_type: u32,
}

/// Plans the debug messenger: errors, warnings and information, of every
/// type of message.
pub fn create_debug_messenger() -> (config: DebugMessengerConfig)
    ensures
        config == (DebugMessengerConfig {
            message_severity: vk::DEBUG_SEVERITY_ERROR | vk::DEBUG_SEVERITY_WARNING
                | vk::DEBUG_SEVERITY_INFO,
            message_type: vk::DEBUG_TYPE_GENERAL | vk::DEBUG_TYPE_VALIDATION
                | vk::DEBUG_TYPE_PERFORMANCE,
        }),
{
    DebugMessengerConfig {
        message_severity: vk::DEBUG_SEVERITY_ERROR | vk::DEBUG_SEVERITY_WARNING
            | vk::DEBUG_SEVERITY_INFO,
        message_type: vk::DEBUG_TYPE_GENERAL | vk::DEBUG_TYPE_VALIDATION
            | vk::DEBUG_TYPE_PERFORMANCE,
    }
}

/// What the logical device is created with. The priority is the bit
/// pattern of a float.
#[derive(Clone, Copy, Debug, PartialEq, Eq, Structural)]
pub struct DeviceConfig {
    pub queue_family_index: u32,
    pub queue_count: u32,
    pub queue_priority: u32,
    pub features: device::DeviceFeatures,
    pub swapchain_extension: bool,
}

/// Plans the logical device: one queue of the chosen family at full
/// priority, the swapchain extension, and every capability that the engine
/// needs switched on.
pub fn create_device(queue_family_index: u32) -> (config: DeviceConfig)
    ensures
        config == (DeviceConfig {
            queue_family_index,
            queue_count: 1,
            queue_priority: vk::F32_ONE,
            features: device::DeviceFeatures {
                buffer_device_address: true,
                descriptor_indexing: true,
                dynamic_rendering: true,
                synchronization2: true,
            },
            swapchain_extension: true,
        }),
        device::spec_features_supported(config.features),
{
    DeviceConfig {
        queue_family_index,
        queue_count: 1,
        queue_priority: vk::F32_ONE,
        features: device::DeviceFeatures {
            buffer_device_address: true,
            descriptor_indexing: true,
            dynamic_rendering: true,
            synchronization2: true,
        },
        swapchain_extension: true,
    }
}

/// One of the two images that the engine renders to before it copies to
/// the swapchain.
#[derive(Clone, Copy, Debug, PartialEq, Eq, Structural)]
pub struct TargetPlan {
    pub info: vk::ImageCreateInfo,
    /// The aspect that the view of the image shows.
    pub aspect: u32,
}

/// The swapchain and the two render targets.
#[derive(Clone, Copy, Debug, PartialEq, Eq, Structural)]
pub struct SwapchainPlan {
    pub create_info: vk::SwapchainCreateInfoKHR,
    pub surface_format: vk::SurfaceFormatKHR,
    /// The extent of the images of the swapchain.
    pub extent: vk::Extent2D,
    pub draw_image: TargetPlan,
    pub depth_image: TargetPlan,
}

/// Images to ask of the swapchain: one more than the surface needs at
/// least, but no more than it allows where it sets a limit.
pub open spec fn desired_image_count(caps: vk::SurfaceCapabilitiesKHR) -> u32 {
    let wanted = if caps.min_image_count == u32::MAX {
        u32::MAX
    } else {
        (caps.min_image_count + 1) as u32
    };
    if caps.max_image_count > 0 && wanted > caps.max_image_count {
        caps.max_image_count
    } else {
        wanted
    }
}

/// The extent of the surface: its own where it has one, the extent asked
/// for where the surface leaves it open.
pub open spec fn surface_extent(
    caps: vk::SurfaceCapabilitiesKHR,
    extent: vk::Extent2D,
) -> vk::Extent2D {
    if caps.current_extent.width == u32::MAX {
        extent
    } else {
        caps.current_extent
    }
}

/// The transform to present with: none where the surface supports that,
/// else the one it is in.
pub open spec fn pre_transform(caps: vk::SurfaceCapabilitiesKHR) -> u32 {
    if caps.supported_transforms & vk::SURFACE_TRANSFORM_IDENTITY
        == vk::SURFACE_TRANSFORM_IDENTITY {
        vk::SURFACE_TRANSFORM_IDENTITY
    } else {
        caps.current_transform
    }
}

/// What the draw image is used for.
pub open spec fn draw_image_usage() -> u32 {
    vk::IMAGE_USAGE_TRANSFER_SRC | vk::IMAGE_USAGE_TRANSFER_DST | vk::IMAGE_USAGE_STORAGE
        | vk::IMAGE_USAGE_COLOR_ATTACHMENT
}

/// The plan of the swapchain and the render targets for a surface with
/// these capabilities and a window of this extent.
pub open spec fn spec_create_swapchain(
    caps: vk::SurfaceCapabilitiesKHR,
    surface: vk::Handle,
    extent: vk::Extent2D,
) -> SwapchainPlan {
    let target_extent = vk::Extent3D { width: extent.width, height: extent.height, depth: 1 };
    SwapchainPlan {
        create_info: vk::SwapchainCreateInfoKHR {
            surface,
            min_image_count: desired_image_count(caps),
            image_format: vk::FORMAT_B8G8R8A8_UNORM,
            image_color_space: vk::COLOR_SPACE_SRGB_NONLINEAR,
            image_extent: surface_extent(caps, extent),
            image_array_layers: 1,
            image_usage: vk::IMAGE_USAGE_TRANSFER_DST | vk::IMAGE_USAGE_COLOR_ATTACHMENT,
            image_sharing_mode: vk::SHARING_MODE_EXCLUSIVE,
            pre_transform: pre_transform(caps),
            composite_alpha: vk::COMPOSITE_ALPHA_OPAQUE,
            present_mode: vk::PRESENT_MODE_FIFO,
            clipped: true,
        },
        surface_format: vk::SurfaceFormatKHR {
            format: vk::FORMAT_B8G8R8A8_UNORM,
            color_space: vk::COLOR_SPACE_SRGB_NONLINEAR,
        },
        extent: surface_extent(caps, extent),
        draw_image: TargetPlan {
            info: vk_init::spec_image_create_info(
                vk::FORMAT_R16G16B16A16_SFLOAT,
                draw_image_usage(),
                target_extent,
            ),
            aspect: vk::IMAGE_ASPECT_COLOR,
        },
        depth_image: TargetPlan {
            info: vk_init::spec_image_create_info(
                vk::FORMAT_D32_SFLOAT,
                vk::IMAGE_USAGE_DEPTH_STENCIL_ATTACHMENT,
                target_extent,
            ),
            aspect: vk::IMAGE_ASPECT_DEPTH,
        },
    }
}

/// Plans the swapchain and the two render targets.
///
/// The swapchain presents in FIFO order, in eight-bit BGRA, with images
/// that are copied to and rendered to. Its images have the extent of the
/// surface, or the extent asked for where the surface leaves that open; the
/// same extent is kept as the extent of the swapchain. The draw image is a
/// sixteen-bit float image and the depth image a 32-bit float image, both
/// of the extent asked for.
pub fn create_swapchain(
    caps: &vk::SurfaceCapabilitiesKHR,
    surface: vk::Handle,
    extent: vk::Extent2D,
) -> (plan: SwapchainPlan)
    ensures
        plan == spec_create_swapchain(*caps, surface, extent),
        plan.extent == plan.create_info.image_extent,
{
    let surface_format = vk::SurfaceFormatKHR {
        format: vk::FORMAT_B8G8R8A8_UNORM,
        color_space: vk::COLOR_SPACE_SRGB_NONLINEAR,
    };
    let mut desired_image_count: u32 = caps.min_image_count.saturating_add(1);
    if caps.max_image_count > 0 && desired_image_count > caps.max_image_count {
        desired_image_count = caps.max_image_count;
    }
    let surface_extent = if caps.current_extent.width == 0xFFFF_FFFF {
        extent
    } else {
        caps.current_extent
    };
    let pre_transform = if caps.supported_transforms & vk::SURFACE_TRANSFORM_IDENTITY
        == vk::SURFACE_TRANSFORM_IDENTITY {
        vk::SURFACE_TRANSFORM_IDENTITY
    } else {
        caps.current_transform
    };
    let create_info = vk::SwapchainCreateInfoKHR {
        surface,
        min_image_count: desired_image_count,
        image_format: surface_format.format,
        image_color_space: surface_format.color_space,
        image_extent: surface_extent,
        image_array_layers: 1,
        image_usage: vk::IMAGE_USAGE_TRANSFER_DST | vk::IMAGE_USAGE_COLOR_ATTACHMENT,
        image_sharing_mode: vk::SHARING_MODE_EXCLUSIVE,
        pre_transform,
        composite_alpha: vk::COMPOSITE_ALPHA_OPAQUE,
        present_mode: vk::PRESENT_MODE_FIFO,
        clipped: true,
    };
    let draw_image_extent = vk::Extent3D { width: extent.width, height: extent.height, depth: 1 };
    let draw_image_usage_flags = vk::IMAGE_USAGE_TRANSFER_SRC | vk::IMAGE_USAGE_TRANSFER_DST
        | vk::IMAGE_USAGE_STORAGE | vk::IMAGE_USAGE_COLOR_ATTACHMENT;
    let draw_image = TargetPlan {
        info: vk_init::image_create_info(
            vk::FORMAT_R16G16B16A16_SFLOAT,
            draw_image_usage_flags,
            draw_image_extent,
        ),
        aspect: vk::IMAGE_ASPECT_COLOR,
    };
    let depth_image = TargetPlan {
        info: vk_init::image_create_info(
            vk::FORMAT_D32_SFLOAT,
            vk::IMAGE_USAGE_DEPTH_STENCIL_ATTACHMENT,
            draw_image_extent,
        ),
        aspect: vk::IMAGE_ASPECT_DEPTH,
    };
    SwapchainPlan { create_info, surface_format, extent: surface_extent, draw_image, depth_image }
}

/// Lists a view for each image of the swapchain, in order: the colour of
/// the first mip level and first layer, in the format of the swapchain.
pub fn swapchain_image_views(images: &Vec<vk::Handle>, format: i32) -> (views: Vec<
    vk::ImageViewCreateInfo,
>)
    ensures
        views@.len() == images@.len(),
        forall|i: int|
            0 <= i < images@.len() ==> #[trigger] views@[i] == vk_init::spec_image_view_create_info(
                format,
                images@[i],
                vk::IMAGE_ASPECT_COLOR,
            ),
{
    let mut views: Vec<vk::ImageViewCreateInfo> = Vec::new();
    let mut i: usize = 0;
    while i < images.len()
        invariant
            i <= images@.len(),
            views@.len() == i,
            forall|j: int|
                0 <= j < i ==> #[trigger] views@[j] == vk_init::spec_image_view_create_info(
                    format,
                    images@[j],
                    vk::IMAGE_ASPECT_COLOR,
                ),
        decreases images@.len() - i,
    {
        views.push(vk_init::image_view_create_info(format, images[i], vk::IMAGE_ASPECT_COLOR));
        i += 1;
    }
    views
}

impl TargetPlan {
    /// The memory request for the image once it exists: device-local
    /// memory that the host cannot reach, not linear, dedicated to this
    /// image. The device-local bit is added to the memory types that the
    /// device reported.
    pub fn allocation_desc(&self, image: vk::Handle, requirements: vk::MemoryRequirements) -> (desc:
        AllocationCreateDesc)
        ensures
            desc == (AllocationCreateDesc {
                requirements: vk::MemoryRequirements {
                    memory_type_bits: requirements.memory_type_bits
                        | vk::MEMORY_PROPERTY_DEVICE_LOCAL,
                    ..requirements
                },
                location: MemoryLocation::GpuOnly,
                linear: false,
                allocation_scheme: AllocationScheme::DedicatedImage(image),
            }),
    {
        AllocationCreateDesc {
            requirements: vk::MemoryRequirements {
                size: requirements.size,
                alignment: requirements.alignment,
                memory_type_bits: requirements.memory_type_bits | vk::MEMORY_PROPERTY_DEVICE_LOCAL,
            },
            location: MemoryLocation::GpuOnly,
            linear: false,
            allocation_scheme: AllocationScheme::DedicatedImage(image),
        }
    }

    /// What is to be done when the image exists but its memory could not
    /// be had: the image is destroyed, and nothing is left behind.
    pub fn on_allocation_failed(&self, image: vk::Handle) -> (steps: Vec<Release>)
        ensures
            steps@ == seq![Release::DestroyImage(image)],
    {
        let mut steps: Vec<Release> = Vec::new();
        steps.push(Release::DestroyImage(image));
        steps
    }

    /// The view of the image once it exists and has its memory.
    pub fn view_info(&self, image: vk::Handle) -> (info: vk::ImageViewCreateInfo)
        ensures
            info == vk_init::spec_image_view_create_info(self.info.format, image, self.aspect),
    {
        vk_init::image_view_create_info(self.info.format, image, self.aspect)
    }

    /// The finished render target: image, view and memory, with the extent
    /// and format of the plan.
    pub fn finish(
        &self,
        image: vk::Handle,
        image_view: vk::Handle,
        allocation: gpu_allocator::vulkan::Allocation,
    ) -> (target: AllocatedImage)
        ensures
            target == (AllocatedImage {
                image,
                image_view,
                allocation: AllocationSlot { value: Some(allocation) },
                image_extent: self.info.extent,
                image_format: self.info.format,
            }),
    {
        AllocatedImage {
            image,
            image_view,
            allocation: AllocationSlot::filled(allocation),
            image_extent: self.info.extent,
            image_format: self.info.format,
        }
    }
}

/// An object that the host is to create for the frame ring.
#[derive(Clone, Copy, Debug, PartialEq, Eq, Structural)]
pub enum Create {
    CommandPool(vk::CommandPoolCreateInfo),
    /// Command buffers from the command pool that the step at position
    /// `pool_step` of the same plan created.
    CommandBuffers { pool_step: usize, level: i32, count: u32 },
    Fence(vk::FenceCreateInfo),
    Semaphore(vk::SemaphoreCreateInfo),
}

/// The request for the command buffers of a step, once the steps before it
/// have been carried out and `created` holds their handles in order.
pub open spec fn spec_command_buffer_request(
    step: Create,
    created: Seq<vk::Handle>,
) -> Option<vk::CommandBufferAllocateInfo> {
    match step {
        Create::CommandBuffers { pool_step, level, count } => if pool_step < created.len() {
            Some(
                vk::CommandBufferAllocateInfo {
                    command_pool: created[pool_step as int],
                    level,
                    command_buffer_count: count,
                },
            )
        } else {
            None
        },
        _ => None,
    }
}

/// Builds the request for the command buffers of a step from the handles
/// created so far.
///
/// Returns `None` for a step that creates something else, and for one
/// whose pool does not exist yet.
pub fn command_buffer_request(step: &Create, created: &Vec<vk::Handle>) -> (info: Option<
    vk::CommandBufferAllocateInfo,
>)
    ensures
        info == spec_command_buffer_request(*step, created@),
{
    match step {
        Create::CommandBuffers { pool_step, level, count } => {
            if *pool_step < created.len() {
                Some(
                    vk::CommandBufferAllocateInfo {
                        command_pool: created[*pool_step],
                        level: *level,
                        command_buffer_count: *count,
                    },
                )
            } else {
                None
            }
        },
        _ => None,
    }
}

/// The command pools and command buffers of the frame ring: a pool and
/// one primary command buffer from that pool for each frame slot, then a
/// pool and a buffer for immediate submissions. Each pool lets its buffer
/// be reset by itself.
pub open spec fn command_plan(graphics_queue_family: u32) -> Seq<Create> {
    Seq::new(
        (2 * (FRAME_OVERLAP + 1)) as nat,
        |i: int|
            if i % 2 == 0 {
                Create::CommandPool(
                    vk::CommandPoolCreateInfo {
                        flags: vk::COMMAND_POOL_CREATE_RESET_COMMAND_BUFFER,
                        queue_family_index: graphics_queue_family,
                    },
                )
            } else {
                Create::CommandBuffers {
                    pool_step: (i - 1) as usize,
                    level: vk::COMMAND_BUFFER_LEVEL_PRIMARY,
                    count: 1,
                }
            },
    )
}

/// The fences and semaphores of the frame ring: for each frame slot the
/// render fence, the swapchain semaphore and the render semaphore, then the
/// fence for immediate submissions. Every fence starts signalled, so that
/// the first wait on it returns at once.
pub open spec fn sync_plan() -> Seq<Create> {
    Seq::new(
        (3 * FRAME_OVERLAP + 1) as nat,
        |i: int|
            if i % 3 == 0 {
                Create::Fence(vk::FenceCreateInfo { flags: vk::FENCE_CREATE_SIGNALED })
            } else {
                Create::Semaphore(vk::SemaphoreCreateInfo { flags: 0 })
            },
    )
}

/// Lists the command pools and command buffers to create, in order.
pub fn init_commands(graphics_queue_family: u32) -> (plan: Vec<Create>)
    ensures
        plan@ == command_plan(graphics_queue_family),
{
    let command_pool_info = vk_init::command_pool_create_info(
        graphics_queue_family,
        vk::COMMAND_POOL_CREATE_RESET_COMMAND_BUFFER,
    );
    let mut plan: Vec<Create> = Vec::new();
    let mut k: usize = 0;
    while k < FRAME_OVERLAP + 1
        invariant
            k <= FRAME_OVERLAP + 1,
            plan@.len() == 2 * k,
            command_pool_info == (vk::CommandPoolCreateInfo {
                flags: vk::COMMAND_POOL_CREATE_RESET_COMMAND_BUFFER,
                queue_family_index: graphics_queue_family,
            }),
            forall|i: int|
                0 <= i < 2 * k ==> #[trigger] plan@[i] == command_plan(graphics_queue_family)[i],
        decreases FRAME_OVERLAP + 1 - k,
    {
        plan.push(Create::CommandPool(command_pool_info));
        plan.push(
            Create::CommandBuffers {
                pool_step: 2 * k,
                level: vk::COMMAND_BUFFER_LEVEL_PRIMARY,
                count: 1,
            },
        );
        k += 1;
    }
    proof {
        assert(plan@ =~= command_plan(graphics_queue_family));
    }
    plan
}

/// Lists the fences and semaphores to create, in order.
pub fn init_sync_structures() -> (plan: Vec<Create>)
    ensures
        plan@ == sync_plan(),
{
    let fence_create_info = vk_init::fence_create_info(vk::FENCE_CREATE_SIGNALED);
    let semaphore_create_info = vk_init::semaphore_create_info(0);
    let mut plan: Vec<Create> = Vec::new();
    let mut k: usize = 0;
    while k < FRAME_OVERLAP
        invariant
            k <= FRAME_OVERLAP,
            plan@.len() == 3 * k,
            fence_create_info == (vk::FenceCreateInfo { flags: vk::FENCE_CREATE_SIGNALED }),
            semaphore_create_info == (vk::SemaphoreCreateInfo { flags: 0 }),
            forall|i: int| 0 <= i < 3 * k ==> #[trigger] plan@[i] == sync_plan()[i],
        decreases FRAME_OVERLAP - k,
    {
        plan.push(Create::Fence(fence_create_info));
        plan.push(Create::Semaphore(semaphore_create_info));
        plan.push(Create::Semaphore(semaphore_create_info));
        k += 1;
    }
    plan.push(Create::Fence(fence_create_info));
    proof {
        assert(plan@ =~= sync_plan());
    }
    plan
}

/// The slot `k` of the frame ring, from the handles that the host created
/// after `command_plan` and `sync_plan`.
pub open spec fn frame_from(commands: Seq<vk::Handle>, sync: Seq<vk::Handle>, k: int) -> FrameData {
    FrameData {
        command_pool: commands[2 * k],
        main_command_buffer: commands[2 * k + 1],
        swapchain_semaphore: sync[3 * k + 1],
        render_semaphore: sync[3 * k + 2],
        render_fence: sync[3 * k],
    }
}

/// Assembles the frame ring from the handles that the host created after
/// the plans of `init_commands` and `init_sync_structures`, in the order
/// of the plans.
///
/// Returns `None` exactly when a list of handles has another length than
/// its plan.
pub fn init_frames(commands: &Vec<vk::Handle>, sync: &Vec<vk::Handle>) -> (ring: Option<FrameRing>)
    ensures
        ring is Some <==> commands@.len() == 2 * (FRAME_OVERLAP + 1) && sync@.len() == 3
            * FRAME_OVERLAP + 1,
        ring is Some ==> {
            let r = ring->Some_0;
            &&& forall|k: int|
                0 <= k < FRAME_OVERLAP ==> #[trigger] r.frames[k] == frame_from(
                    commands@,
                    sync@,
                    k,
                )
            &&& r.immediate_command_pool == commands@[2 * FRAME_OVERLAP as int]
            &&& r.immediate_command_buffer == commands@[2 * FRAME_OVERLAP + 1]
            &&& r.immediate_fence == sync@[3 * FRAME_OVERLAP as int]
        },
{
    if commands.len() != 2 * (FRAME_OVERLAP + 1) || sync.len() != 3 * FRAME_OVERLAP + 1 {
        return None;
    }
    let mut frames: [FrameData; FRAME_OVERLAP] = [FrameData::default();FRAME_OVERLAP];
    let mut k: usize = 0;
    while k < FRAME_OVERLAP
        invariant
            k <= FRAME_OVERLAP,
            commands@.len() == 2 * (FRAME_OVERLAP + 1),
            sync@.len() == 3 * FRAME_OVERLAP + 1,
            forall|j: int| 0 <= j < k ==> #[trigger] frames[j] == frame_from(commands@, sync@, j),
        decreases FRAME_OVERLAP - k,
    {
        frames[k] =
        FrameData {
            command_pool: commands[2 * k],
            main_command_buffer: commands[2 * k + 1],
            swapchain_semaphore: sync[3 * k + 1],
            render_semaphore: sync[3 * k + 2],
            render_fence: sync[3 * k],
        };
        k += 1;
    }
    Some(
        FrameRing {
            frames,
            immediate_command_pool: commands[2 * FRAME_OVERLAP],
            immediate_command_buffer: commands[2 * FRAME_OVERLAP + 1],
            immediate_fence: sync[3 * FRAME_OVERLAP],
        },
    )
}

/// The descriptor pool and the descriptor set layout of the engine.
#[derive(Clone, Debug, PartialEq, Eq)]
pub struct DescriptorSetup {
    pub pool_info: DescriptorPoolCreateInfo,
    pub layout_info: DescriptorSetLayoutCreateInfo,
}

/// The write that points a descriptor set at an image view.
#[derive(Clone, Copy, Debug, PartialEq, Eq, Structural)]
pub struct WriteDescriptorSet {
    pub dst_set: vk::Handle,
    pub dst_binding: u32,
    pub descriptor_type: i32,
    pub image_view: vk::Handle,
    pub image_layout: i32,
}

/// Plans the descriptors of the engine: a pool of ten sets with one
/// storage image for each set, and a layout of one storage image at
/// binding zero that compute shaders see.
pub fn init_descriptors() -> (setup: DescriptorSetup)
    ensures
        setup.pool_info.flags == 0,
        setup.pool_info.max_sets == GLOBAL_POOL_SETS,
        setup.pool_info.pool_sizes@.len() == 1,
        setup.pool_info.pool_sizes@[0].ty == vk::DESCRIPTOR_TYPE_STORAGE_IMAGE,
        setup.pool_info.pool_sizes@[0].descriptor_count == GLOBAL_POOL_SETS,
        setup.layout_info.flags == 0,
        setup.layout_info.bindings@.len() == 1,
        setup.layout_info.bindings@[0].binding == 0,
        setup.layout_info.bindings@[0].descriptor_type == vk::DESCRIPTOR_TYPE_STORAGE_IMAGE,
        setup.layout_info.bindings@[0].descriptor_count == 1,
        setup.layout_info.bindings@[0].stage_flags == vk::SHADER_STAGE_COMPUTE,
{
    let mut sizes: Vec<PoolSizeRatio> = Vec::new();
    sizes.push(
        PoolSizeRatio {
            descriptor_type: vk::DESCRIPTOR_TYPE_STORAGE_IMAGE,
            numerator: 1,
            denominator: 1,
        },
    );
    let pool_info = DescriptorAllocator::init_pool(GLOBAL_POOL_SETS, &sizes);
    let mut dsl_builder = DescriptorSetLayoutBuilder::new();
    dsl_builder.add_binding(0, vk::DESCRIPTOR_TYPE_STORAGE_IMAGE);
    let ghost added = dsl_builder.bindings@[0];
    let layout_info = dsl_builder.build(vk::SHADER_STAGE_COMPUTE);
    proof {
        assert(0u32 | 0x20u32 == 0x20u32) by (bit_vector);
        assert(layout_info.bindings@[0] == crate::vk_descriptors::with_stages(
            added,
            vk::SHADER_STAGE_COMPUTE,
        ));
    }
    DescriptorSetup { pool_info, layout_info }
}

/// The write that shows the draw image to the background effects: a
/// storage image in the general layout at binding zero of the set.
pub fn draw_image_write(set: vk::Handle, draw_image_view: vk::Handle) -> (write:
    WriteDescriptorSet)
    ensures
        write == (WriteDescriptorSet {
            dst_set: set,
            dst_binding: 0,
            descriptor_type: vk::DESCRIPTOR_TYPE_STORAGE_IMAGE,
            image_view: draw_image_view,
            image_layout: vk::IMAGE_LAYOUT_GENERAL,
        }),
{
    WriteDescriptorSet {
        dst_set: set,
        dst_binding: 0,
        descriptor_type: vk::DESCRIPTOR_TYPE_STORAGE_IMAGE,
        image_view: draw_image_view,
        image_layout: vk::IMAGE_LAYOUT_GENERAL,
    }
}

/// A pipeline layout: at most one descriptor set layout, and one range of
/// push constants.
#[derive(Clone, Copy, Debug, PartialEq, Eq, Structural)]
pub struct PipelineLayoutCreateInfo {
    pub set_layout: Option<vk::Handle>,
    pub push_constant_range: vk::PushConstantRange,
}

/// A compute pipeline of one shader.
#[derive(Clone, Copy, Debug, PartialEq, Eq)]
pub struct ComputePipelineCreateInfo {
    pub layout: vk::Handle,
    pub module: vk::Handle,
    pub entry: &'static str,
}

/// The bit pattern of the single-precision number nearest to 0.1.
pub const F32_TENTH: u32 = 0x3DCC_CCCD;

/// The bit pattern of the single-precision number nearest to 0.2.
pub const F32_FIFTH: u32 = 0x3E4C_CCCD;

/// The bit pattern of the single-precision number nearest to 0.4.
pub const F32_TWO_FIFTHS: u32 = 0x3ECC_CCCD;

/// The bit pattern of the single-precision number nearest to 0.97.
pub const F32_NEARLY_ONE: u32 = 0x3F78_51EC;

/// The parameters that the gradient starts with: from opaque red to
/// opaque blue.
pub open spec fn gradient_data() -> ComputePushConstants {
    ComputePushConstants {
        data1: Vector4 { x: vk::F32_ONE, y: 0, z: 0, w: vk::F32_ONE },
        data2: Vector4 { x: 0, y: 0, z: vk::F32_ONE, w: vk::F32_ONE },
        data3: Vector4 { x: 0, y: 0, z: 0, w: 0 },
        data4: Vector4 { x: 0, y: 0, z: 0, w: 0 },
    }
}

/// The parameters that the sky starts with.
pub open spec fn sky_data() -> ComputePushConstants {
    ComputePushConstants {
        data1: Vector4 { x: F32_TENTH, y: F32_FIFTH, z: F32_TWO_FIFTHS, w: F32_NEARLY_ONE },
        data2: Vector4 { x: 0, y: 0, z: 0, w: 0 },
        data3: Vector4 { x: 0, y: 0, z: 0, w: 0 },
        data4: Vector4 { x: 0, y: 0, z: 0, w: 0 },
    }
}

/// The layout that the background effects share: the descriptor set of
/// the draw image, and the parameters of an effect as push constants of
/// the compute stage.
pub fn background_pipeline_layout(descriptor_set_layout: vk::Handle) -> (info:
    PipelineLayoutCreateInfo)
    ensures
        info == (PipelineLayoutCreateInfo {
            set_layout: Some(descriptor_set_layout),
            push_constant_range: vk::PushConstantRange {
                stage_flags: vk::SHADER_STAGE_COMPUTE,
                offset: 0,
                size: COMPUTE_PUSH_CONSTANTS_SIZE,
            },
        }),
{
    PipelineLayoutCreateInfo {
        set_layout: Some(descriptor_set_layout),
        push_constant_range: vk::PushConstantRange {
            stage_flags: vk::SHADER_STAGE_COMPUTE,
            offset: 0,
            size: COMPUTE_PUSH_CONSTANTS_SIZE,
        },
    }
}

/// The compute pipeline of one effect: the shader of the effect, entered
/// at `main`, with the layout that the effects share.
pub fn background_pipeline(layout: vk::Handle, shader: vk::Handle) -> (info:
    ComputePipelineCreateInfo)
    ensures
        info.layout == layout,
        info.module == shader,
        info.entry == SHADER_ENTRY,
{
    ComputePipelineCreateInfo { layout, module: shader, entry: SHADER_ENTRY }
}

/// Assembles the background effects from their pipelines: the gradient
/// first, then the sky, both with the layout that they share and each with
/// the parameters it starts with.
pub fn init_background_pipelines(
    layout: vk::Handle,
    gradient_pipeline: vk::Handle,
    sky_pipeline: vk::Handle,
) -> (effects: Vec<ComputeEffect>)
    ensures
        effects@.len() == 2,
        effects@[0].name == "gradient",
        effects@[0].pipeline == gradient_pipeline,
        effects@[0].layout == layout,
        effects@[0].data == gradient_data(),
        effects@[1].name == "sky",
        effects@[1].pipeline == sky_pipeline,
        effects@[1].layout == layout,
        effects@[1].data == sky_data(),
{
    let zero = Vector4 { x: 0, y: 0, z: 0, w: 0 };
    let gradient_effect = ComputeEffect {
        name: "gradient",
        pipeline: gradient_pipeline,
        layout,
        data: ComputePushConstants {
            data1: Vector4 { x: vk::F32_ONE, y: 0, z: 0, w: vk::F32_ONE },
            data2: Vector4 { x: 0, y: 0, z: vk::F32_ONE, w: vk::F32_ONE },
            data3: zero,
            data4: zero,
        },
    };
    let sky_effect = ComputeEffect {
        name: "sky",
        pipeline: sky_pipeline,
        layout,
        data: ComputePushConstants {
            data1: Vector4 { x: F32_TENTH, y: F32_FIFTH, z: F32_TWO_FIFTHS, w: F32_NEARLY_ONE },
            data2: zero,
            data3: zero,
            data4: zero,
        },
    };
    let mut effects: Vec<ComputeEffect> = Vec::new();
    effects.push(gradient_effect);
    effects.push(sky_effect);
    effects
}

/// The layout of the mesh pipeline: no descriptor set, and the constants
/// of a mesh draw as push constants of the vertex stage.
pub fn mesh_pipeline_layout() -> (info: PipelineLayoutCreateInfo)
    ensures
        info == (PipelineLayoutCreateInfo {
            set_layout: None,
            push_constant_range: vk::PushConstantRange {
                stage_flags: vk::SHADER_STAGE_VERTEX,
                offset: 0,
                size: MESH_PUSH_CONSTANTS_SIZE,
            },
        }),
{
    PipelineLayoutCreateInfo {
        set_layout: None,
        push_constant_range: vk::PushConstantRange {
            stage_flags: vk::SHADER_STAGE_VERTEX,
            offset: 0,
            size: MESH_PUSH_CONSTANTS_SIZE,
        },
    }
}

/// Plans the mesh pipeline: filled triangles from a triangle list, no
/// culling, one sample per pixel, additive blending, and a depth test that
/// passes what is at least as deep as what is there and writes it.
pub fn init_mesh_pipeline(
    vertex_shader: vk::Handle,
    fragment_shader: vk::Handle,
    mesh_pipeline_layout: vk::Handle,
    draw_image_format: i32,
    depth_image_format: i32,
) -> (info: GraphicsPipelineCreateInfo)
    ensures
        info.stages@ == seq![
            ShaderStage {
                stage: vk::SHADER_STAGE_VERTEX,
                module: vertex_shader,
                entry: SHADER_ENTRY,
            },
            ShaderStage {
                stage: vk::SHADER_STAGE_FRAGMENT,
                module: fragment_shader,
                entry: SHADER_ENTRY,
            },
        ],
        info.layout == mesh_pipeline_layout,
        info.input_assembly == (InputAssemblyState {
            topology: vk::PRIMITIVE_TOPOLOGY_TRIANGLE_LIST,
            primitive_restart_enable: false,
        }),
        info.rasterizer == (RasterizationState {
            polygon_mode: vk::POLYGON_MODE_FILL,
            line_width: vk::F32_ONE,
            cull_mode: vk::CULL_MODE_NONE,
            front_face: vk::FRONT_FACE_CLOCKWISE,
        }),
        info.multisampling == (MultisampleState {
            rasterization_samples: vk::SAMPLE_COUNT_1,
            sample_shading_enable: false,
            min_sample_shading: vk::F32_ONE,
            has_sample_mask: false,
            alpha_to_coverage_enable: false,
            alpha_to_one_enable: false,
        }),
        info.color_blend_attachment == (ColorBlendAttachmentState {
            blend_enable: true,
            src_color_blend_factor: vk::BLEND_FACTOR_SRC_ALPHA,
            dst_color_blend_factor: vk::BLEND_FACTOR_ONE,
            color_blend_op: vk::BLEND_OP_ADD,
            src_alpha_blend_factor: vk::BLEND_FACTOR_ONE,
            dst_alpha_blend_factor: vk::BLEND_FACTOR_ZERO,
            alpha_blend_op: vk::BLEND_OP_ADD,
            color_write_mask: vk::COLOR_COMPONENT_RGBA,
        }),
        info.depth_stencil == PipelineBuilder::depth_state(
            true,
            true,
            vk::COMPARE_OP_GREATER_OR_EQUAL,
        ),
        info.render_info == (PipelineRenderingInfo {
            color_attachment_count: 1,
            color_attachment_format: draw_image_format,
            depth_attachment_format: depth_image_format,
        }),
        info.viewport_count == 1,
        info.scissor_count == 1,
        info.dynamic_state_first == vk::DYNAMIC_STATE_VIEWPORT,
        info.dynamic_state_second == vk::DYNAMIC_STATE_SCISSOR,
        !info.logic_op_enable,
        info.logic_op == vk::LOGIC_OP_COPY,
{
    let mut pipeline_builder = PipelineBuilder::default();
    pipeline_builder.pipeline_layout = mesh_pipeline_layout;
    pipeline_builder.set_shaders(vertex_shader, fragment_shader, SHADER_ENTRY, SHADER_ENTRY);
    pipeline_builder.set_input_topology(vk::PRIMITIVE_TOPOLOGY_TRIANGLE_LIST);
    pipeline_builder.set_polygon_mode(vk::POLYGON_MODE_FILL);
    pipeline_builder.set_cull_mode(vk::CULL_MODE_NONE, vk::FRONT_FACE_CLOCKWISE);
    pipeline_builder.set_multisampling_none();
    pipeline_builder.enable_blending_additive();
    pipeline_builder.enable_depth_test(true, vk::COMPARE_OP_GREATER_OR_EQUAL);
    pipeline_builder.set_color_attachment_format(draw_image_format);
    pipeline_builder.set_depth_format(depth_image_format);
    pipeline_builder.build_pipeline()
}

/// Puts the pipelines of the engine together.
pub fn init_pipelines(
    background_effects: Vec<ComputeEffect>,
    mesh_pipeline: vk::Handle,
    mesh_pipeline_layout: vk::Handle,
) -> (pipelines: Pipelines)
    ensures
        pipelines.background_effects == background_effects,
        pipelines.mesh_pipeline == mesh_pipeline,
        pipelines.mesh_pipeline_layout == mesh_pipeline_layout,
{
    Pipelines { background_effects, mesh_pipeline, mesh_pipeline_layout }
}

} // verus!
