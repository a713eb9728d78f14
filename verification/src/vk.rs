//! Plain values of the graphics API: raw handles, codes of enumerations,
//! bits of flag sets, and the structures the engine fills in.
//!
//! A handle is its raw 64-bit value, an enumeration its signed code, a flag
//! set its bit mask. Floating-point members are kept as their IEEE-754 bit
//! patterns, so that every structure here can be compared exactly.

use vstd::prelude::*;

verus! {

/// Raw value of an API handle; zero is the null handle.
pub type Handle = u64;

/// The null handle.
pub const NULL_HANDLE: Handle = 0;

// ---------------------------------------------------------------------
// Result codes
// ---------------------------------------------------------------------
pub const SUCCESS: i32 = 0;
pub const NOT_READY: i32 = 1;
pub const TIMEOUT: i32 = 2;
pub const ERROR_OUT_OF_HOST_MEMORY: i32 = -1;
pub const ERROR_OUT_OF_DEVICE_MEMORY: i32 = -2;
pub const ERROR_DEVICE_LOST: i32 = -4;
pub const ERROR_SURFACE_LOST_KHR: i32 = -1_000_000_000;
pub const SUBOPTIMAL_KHR: i32 = 1_000_001_003;
pub const ERROR_OUT_OF_DATE_KHR: i32 = -1_000_001_004;

// ---------------------------------------------------------------------
// Image layouts
// ---------------------------------------------------------------------
pub const IMAGE_LAYOUT_UNDEFINED: i32 = 0;
pub const IMAGE_LAYOUT_GENERAL: i32 = 1;
pub const IMAGE_LAYOUT_COLOR_ATTACHMENT_OPTIMAL: i32 = 2;
pub const IMAGE_LAYOUT_TRANSFER_SRC_OPTIMAL: i32 = 6;
pub const IMAGE_LAYOUT_TRANSFER_DST_OPTIMAL: i32 = 7;
pub const IMAGE_LAYOUT_PRESENT_SRC_KHR: i32 = 1_000_001_002;
pub const IMAGE_LAYOUT_DEPTH_ATTACHMENT_OPTIMAL: i32 = 1_000_241_000;

// ---------------------------------------------------------------------
// Flag bits
// ---------------------------------------------------------------------
pub const IMAGE_ASPECT_COLOR: u32 = 0x1;
pub const IMAGE_ASPECT_DEPTH: u32 = 0x2;

pub const PIPELINE_STAGE_2_COLOR_ATTACHMENT_OUTPUT: u64 = 0x400;
pub const PIPELINE_STAGE_2_ALL_GRAPHICS: u64 = 0x8000;
pub const PIPELINE_STAGE_2_ALL_COMMANDS: u64 = 0x1_0000;

pub const ACCESS_2_MEMORY_READ: u64 = 0x8000;
pub const ACCESS_2_MEMORY_WRITE: u64 = 0x1_0000;

pub const COMMAND_POOL_CREATE_RESET_COMMAND_BUFFER: u32 = 0x2;
pub const FENCE_CREATE_SIGNALED: u32 = 0x1;
pub const COMMAND_BUFFER_USAGE_ONE_TIME_SUBMIT: u32 = 0x1;

pub const IMAGE_USAGE_TRANSFER_SRC: u32 = 0x1;
pub const IMAGE_USAGE_TRANSFER_DST: u32 = 0x2;
pub const IMAGE_USAGE_STORAGE: u32 = 0x8;
pub const IMAGE_USAGE_COLOR_ATTACHMENT: u32 = 0x10;
pub const IMAGE_USAGE_DEPTH_STENCIL_ATTACHMENT: u32 = 0x20;

pub const BUFFER_USAGE_TRANSFER_SRC: u32 = 0x1;
pub const BUFFER_USAGE_TRANSFER_DST: u32 = 0x2;
pub const BUFFER_USAGE_STORAGE_BUFFER: u32 = 0x20;
pub const BUFFER_USAGE_INDEX_BUFFER: u32 = 0x40;
pub const BUFFER_USAGE_SHADER_DEVICE_ADDRESS: u32 = 0x2_0000;

pub const MEMORY_PROPERTY_DEVICE_LOCAL: u32 = 0x1;
pub const SAMPLE_COUNT_1: u32 = 0x1;
pub const QUEUE_GRAPHICS: u32 = 0x1;
pub const SURFACE_TRANSFORM_IDENTITY: u32 = 0x1;
pub const COMPOSITE_ALPHA_OPAQUE: u32 = 0x1;
pub const DESCRIPTOR_POOL_CREATE_FREE_DESCRIPTOR_SET: u32 = 0x1;

pub const SHADER_STAGE_VERTEX: u32 = 0x1;
pub const SHADER_STAGE_FRAGMENT: u32 = 0x10;
pub const SHADER_STAGE_COMPUTE: u32 = 0x20;

pub const CULL_MODE_NONE: u32 = 0;
pub const COLOR_COMPONENT_RGBA: u32 = 0xF;

pub const DEBUG_SEVERITY_VERBOSE: u32 = 0x1;
pub const DEBUG_SEVERITY_INFO: u32 = 0x10;
pub const DEBUG_SEVERITY_WARNING: u32 = 0x100;
pub const DEBUG_SEVERITY_ERROR: u32 = 0x1000;
pub const DEBUG_TYPE_GENERAL: u32 = 0x1;
pub const DEBUG_TYPE_VALIDATION: u32 = 0x2;
pub const DEBUG_TYPE_PERFORMANCE: u32 = 0x4;

// ---------------------------------------------------------------------
// Enumeration codes
// ---------------------------------------------------------------------
pub const FORMAT_UNDEFINED: i32 = 0;
pub const FORMAT_B8G8R8A8_UNORM: i32 = 44;
pub const FORMAT_R16G16B16A16_SFLOAT: i32 = 97;
pub const FORMAT_D32_SFLOAT: i32 = 126;

pub const COLOR_SPACE_SRGB_NONLINEAR: i32 = 0;
pub const PRESENT_MODE_FIFO: i32 = 2;
pub const SHARING_MODE_EXCLUSIVE: i32 = 0;
pub const COMPONENT_SWIZZLE_IDENTITY: i32 = 0;

pub const COMMAND_BUFFER_LEVEL_PRIMARY: i32 = 0;
pub const IMAGE_TYPE_2D: i32 = 1;
pub const IMAGE_VIEW_TYPE_2D: i32 = 1;
pub const IMAGE_TILING_OPTIMAL: i32 = 0;

pub const ATTACHMENT_LOAD_OP_LOAD: i32 = 0;
pub const ATTACHMENT_LOAD_OP_CLEAR: i32 = 1;
pub const ATTACHMENT_STORE_OP_STORE: i32 = 0;

pub const FILTER_LINEAR: i32 = 1;
pub const PIPELINE_BIND_POINT_GRAPHICS: i32 = 0;
pub const PIPELINE_BIND_POINT_COMPUTE: i32 = 1;
pub const INDEX_TYPE_UINT32: i32 = 1;

pub const DESCRIPTOR_TYPE_SAMPLER: i32 = 0;
pub const DESCRIPTOR_TYPE_COMBINED_IMAGE_SAMPLER: i32 = 1;
pub const DESCRIPTOR_TYPE_SAMPLED_IMAGE: i32 = 2;
pub const DESCRIPTOR_TYPE_STORAGE_IMAGE: i32 = 3;
pub const DESCRIPTOR_TYPE_UNIFORM_TEXEL_BUFFER: i32 = 4;
pub const DESCRIPTOR_TYPE_STORAGE_TEXEL_BUFFER: i32 = 5;
pub const DESCRIPTOR_TYPE_UNIFORM_BUFFER: i32 = 6;
pub const DESCRIPTOR_TYPE_STORAGE_BUFFER: i32 = 7;
pub const DESCRIPTOR_TYPE_UNIFORM_BUFFER_DYNAMIC: i32 = 8;
pub const DESCRIPTOR_TYPE_STORAGE_BUFFER_DYNAMIC: i32 = 9;
pub const DESCRIPTOR_TYPE_INPUT_ATTACHMENT: i32 = 10;

pub const PRIMITIVE_TOPOLOGY_TRIANGLE_LIST: i32 = 3;
pub const POLYGON_MODE_FILL: i32 = 0;
pub const FRONT_FACE_CLOCKWISE: i32 = 1;
pub const COMPARE_OP_NEVER: i32 = 0;
pub const COMPARE_OP_GREATER_OR_EQUAL: i32 = 6;
pub const BLEND_FACTOR_ZERO: i32 = 0;
pub const BLEND_FACTOR_ONE: i32 = 1;
pub const BLEND_FACTOR_SRC_ALPHA: i32 = 6;
pub const BLEND_OP_ADD: i32 = 0;
pub const LOGIC_OP_COPY: i32 = 3;
pub const DYNAMIC_STATE_VIEWPORT: i32 = 0;
pub const DYNAMIC_STATE_SCISSOR: i32 = 1;
pub const STENCIL_OP_KEEP: i32 = 0;

// ---------------------------------------------------------------------
// Other constants
// ---------------------------------------------------------------------
/// Stands for "all mip levels from the base level on".
pub const REMAINING_MIP_LEVELS: u32 = 0xFFFF_FFFF;
/// Stands for "all array layers from the base layer on".
pub const REMAINING_ARRAY_LAYERS: u32 = 0xFFFF_FFFF;
/// The bit pattern of the single-precision number one.
pub const F32_ONE: u32 = 0x3F80_0000;
/// The bit pattern of the single-precision number zero.
pub const F32_ZERO: u32 = 0;

// ---------------------------------------------------------------------
// Geometry
// ---------------------------------------------------------------------
/// Width and height of a surface or image, in pixels.
#[derive(Clone, Copy, Debug, PartialEq, Eq, Structural)]
pub struct Extent2D {
    pub width: u32,
    pub height: u32,
}

/// Width, height and depth of an image, in texels.
#[derive(Clone, Copy, Debug, PartialEq, Eq, Structural)]
pub struct Extent3D {
    pub width: u32,
    pub height: u32,
    pub depth: u32,
}

/// A signed position in an image.
#[derive(Clone, Copy, Debug, PartialEq, Eq, Structural)]
pub struct Offset3D {
    pub x: i32,
    pub y: i32,
    pub z: i32,
}

/// A signed position on a surface.
#[derive(Clone, Copy, Debug, PartialEq, Eq, Structural)]
pub struct Offset2D {
    pub x: i32,
    pub y: i32,
}

/// A rectangle on a surface.
#[derive(Clone, Copy, Debug, PartialEq, Eq, Structural)]
pub struct Rect2D {
    pub offset: Offset2D,
    pub extent: Extent2D,
}

/// Pixel format and colour space of a presentable surface.
#[derive(Clone, Copy, Debug, PartialEq, Eq, Structural)]
pub struct SurfaceFormatKHR {
    pub format: i32,
    pub color_space: i32,
}

/// What a surface reports of itself, as far as the engine reads it.
#[derive(Clone, Copy, Debug, PartialEq, Eq, Structural)]
pub struct SurfaceCapabilitiesKHR {
    pub min_image_count: u32,
    /// Zero means that the surface sets no upper limit.
    pub max_image_count: u32,
    pub current_extent: Extent2D,
    pub supported_transforms: u32,
    pub current_transform: u32,
}

/// Size, alignment and admissible memory types of a resource.
#[derive(Clone, Copy, Debug, PartialEq, Eq, Structural)]
pub struct MemoryRequirements {
    pub size: u64,
    pub alignment: u64,
    pub memory_type_bits: u32,
}

/// A clear value, as the four 32-bit words that its union occupies.
#[derive(Clone, Copy, Debug, PartialEq, Eq, Structural)]
pub struct ClearValue {
    pub word0: u32,
    pub word1: u32,
    pub word2: u32,
    pub word3: u32,
}

impl ClearValue {
    /// The clear value with every word zero.
    pub open spec fn zero() -> ClearValue {
        ClearValue { word0: 0, word1: 0, word2: 0, word3: 0 }
    }
}

impl Default for ClearValue {
    fn default() -> (r: ClearValue)
        ensures
            r == ClearValue::zero(),
    {
        ClearValue { word0: 0, word1: 0, word2: 0, word3: 0 }
    }
}

// ---------------------------------------------------------------------
// Structures of the command and synchronisation setup
// ---------------------------------------------------------------------
#[derive(Clone, Copy, Debug, PartialEq, Eq, Structural)]
pub struct CommandPoolCreateInfo {
    pub flags: u32,
    pub queue_family_index: u32,
}

#[derive(Clone, Copy, Debug, PartialEq, Eq, Structural)]
pub struct CommandBufferAllocateInfo {
    pub command_pool: Handle,
    pub level: i32,
    pub command_buffer_count: u32,
}

#[derive(Clone, Copy, Debug, PartialEq, Eq, Structural)]
pub struct FenceCreateInfo {
    pub flags: u32,
}

#[derive(Clone, Copy, Debug, PartialEq, Eq, Structural)]
pub struct SemaphoreCreateInfo {
    pub flags: u32,
}

#[derive(Clone, Copy, Debug, PartialEq, Eq, Structural)]
pub struct CommandBufferBeginInfo {
    pub flags: u32,
}

#[derive(Clone, Copy, Debug, PartialEq, Eq, Structural)]
pub struct ImageSubresourceRange {
    pub aspect_mask: u32,
    pub base_mip_level: u32,
    pub level_count: u32,
    pub base_array_layer: u32,
    pub layer_count: u32,
}

#[derive(Clone, Copy, Debug, PartialEq, Eq, Structural)]
pub struct ImageSubresourceLayers {
    pub aspect_mask: u32,
    pub mip_level: u32,
    pub base_array_layer: u32,
    pub layer_count: u32,
}

#[derive(Clone, Copy, Debug, PartialEq, Eq, Structural)]
pub struct SemaphoreSubmitInfo {
    pub semaphore: Handle,
    pub value: u64,
    pub stage_mask: u64,
    pub device_index: u32,
}

#[derive(Clone, Copy, Debug, PartialEq, Eq, Structural)]
pub struct CommandBufferSubmitInfo {
    pub command_buffer: Handle,
    pub device_mask: u32,
}

/// One batch for the queue: at most one semaphore to wait on, one command
/// buffer, at most one semaphore to signal.
#[derive(Clone, Copy, Debug, PartialEq, Eq, Structural)]
pub struct SubmitInfo2 {
    pub wait_semaphore_info: Option<SemaphoreSubmitInfo>,
    pub command_buffer_info: CommandBufferSubmitInfo,
    pub signal_semaphore_info: Option<SemaphoreSubmitInfo>,
}

// ---------------------------------------------------------------------
// Structures of images and rendering
// ---------------------------------------------------------------------
#[derive(Clone, Copy, Debug, PartialEq, Eq, Structural)]
pub struct ImageCreateInfo {
    pub image_type: i32,
    pub format: i32,
    pub extent: Extent3D,
    pub mip_levels: u32,
    pub array_layers: u32,
    pub samples: u32,
    pub tiling: i32,
    pub usage: u32,
}

#[derive(Clone, Copy, Debug, PartialEq, Eq, Structural)]
pub struct ComponentMapping {
    pub r: i32,
    pub g: i32,
    pub b: i32,
    pub a: i32,
}

#[derive(Clone, Copy, Debug, PartialEq, Eq, Structural)]
pub struct ImageViewCreateInfo {
    pub image: Handle,
    pub view_type: i32,
    pub format: i32,
    pub components: ComponentMapping,
    pub subresource_range: ImageSubresourceRange,
}

#[derive(Clone, Copy, Debug, PartialEq, Eq, Structural)]
pub struct RenderingAttachmentInfo {
    pub image_view: Handle,
    pub image_layout: i32,
    pub load_op: i32,
    pub store_op: i32,
    pub clear_value: ClearValue,
}

/// A dynamic render pass over one colour attachment and, where present, one
/// depth attachment.
#[derive(Clone, Copy, Debug, PartialEq, Eq, Structural)]
pub struct RenderingInfo {
    pub render_area: Rect2D,
    pub layer_count: u32,
    pub color_attachment: RenderingAttachmentInfo,
    pub depth_attachment: Option<RenderingAttachmentInfo>,
}

/// A full barrier on one image that moves it from one layout to another.
#[derive(Clone, Copy, Debug, PartialEq, Eq, Structural)]
pub struct ImageMemoryBarrier2 {
    pub src_stage_mask: u64,
    pub src_access_mask: u64,
    pub dst_stage_mask: u64,
    pub dst_access_mask: u64,
    pub old_layout: i32,
    pub new_layout: i32,
    pub image: Handle,
    pub subresource_range: ImageSubresourceRange,
}

/// One region of a scaled copy: two corners in the source, two in the destination.
#[derive(Clone, Copy, Debug, PartialEq, Eq, Structural)]
pub struct ImageBlit2 {
    pub src_subresource: ImageSubresourceLayers,
    pub src_offset_min: Offset3D,
    pub src_offset_max: Offset3D,
    pub dst_subresource: ImageSubresourceLayers,
    pub dst_offset_min: Offset3D,
    pub dst_offset_max: Offset3D,
}

/// A scaled copy of one region between two images.
#[derive(Clone, Copy, Debug, PartialEq, Eq, Structural)]
pub struct BlitImageInfo2 {
    pub src_image: Handle,
    pub src_image_layout: i32,
    pub dst_image: Handle,
    pub dst_image_layout: i32,
    pub region: ImageBlit2,
    pub filter: i32,
}

/// A copy of `size` bytes between two buffers.
#[derive(Clone, Copy, Debug, PartialEq, Eq, Structural)]
pub struct BufferCopy {
    pub src_offset: u64,
    pub dst_offset: u64,
    pub size: u64,
}

#[derive(Clone, Copy, Debug, PartialEq, Eq, Structural)]
pub struct BufferCreateInfo {
    pub size: u64,
    pub usage: u32,
}

#[derive(Clone, Copy, Debug, PartialEq, Eq, Structural)]
pub struct PushConstantRange {
    pub stage_flags: u32,
    pub offset: u32,
    pub size: u32,
}

#[derive(Clone, Copy, Debug, PartialEq, Eq, Structural)]
pub struct SwapchainCreateInfoKHR {
    pub surface: Handle,
    pub min_image_count: u32,
    pub image_format: i32,
    pub image_color_space: i32,
    pub image_extent: Extent2D,
    pub image_array_layers: u32,
    pub image_usage: u32,
    pub image_sharing_mode: i32,
    pub pre_transform: u32,
    pub composite_alpha: u32,
    pub present_mode: i32,
    pub clipped: bool,
}

} // verus!
