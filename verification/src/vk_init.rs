//! Fills in the structures that the engine hands to the device, with the
//! members it never varies set to their fixed values.

use crate::vk;
use vstd::prelude::*;

verus! {

/// A command pool for one queue family.
pub fn command_pool_create_info(queue_family_index: u32, flags: u32) -> (info:
    vk::CommandPoolCreateInfo)
    ensures
        info == (vk::CommandPoolCreateInfo { flags, queue_family_index }),
{
    vk::CommandPoolCreateInfo { flags, queue_family_index }
}

/// `count` primary command buffers from `pool`.
pub fn command_buffer_allocate_info(pool: vk::Handle, count: u32) -> (info:
    vk::CommandBufferAllocateInfo)
    ensures
        info == (vk::CommandBufferAllocateInfo {
            command_pool: pool,
            level: vk::COMMAND_BUFFER_LEVEL_PRIMARY,
            command_buffer_count: count,
        }),
{
    vk::CommandBufferAllocateInfo {
        command_pool: pool,
        level: vk::COMMAND_BUFFER_LEVEL_PRIMARY,
        command_buffer_count: count,
    }
}

pub fn fence_create_info(flags: u32) -> (info: vk::FenceCreateInfo)
    ensures
        info == (vk::FenceCreateInfo { flags }),
{
    vk::FenceCreateInfo { flags }
}

pub fn semaphore_create_info(flags: u32) -> (info: vk::SemaphoreCreateInfo)
    ensures
        info == (vk::SemaphoreCreateInfo { flags }),
{
    vk::SemaphoreCreateInfo { flags }
}

pub fn command_buffer_begin_info(flags: u32) -> (info: vk::CommandBufferBeginInfo)
    ensures
        info == (vk::CommandBufferBeginInfo { flags }),
{
    vk::CommandBufferBeginInfo { flags }
}

/// Every mip level and every array layer of the given aspects.
pub open spec fn spec_image_subresource_range(aspect_mask: u32) -> vk::ImageSubresourceRange {
    vk::ImageSubresourceRange {
        aspect_mask,
        base_mip_level: 0,
        level_count: vk::REMAINING_MIP_LEVELS,
        base_array_layer: 0,
        layer_count: vk::REMAINING_ARRAY_LAYERS,
    }
}

/// Every mip level and every array layer of the given aspects.
pub fn image_subresource_range(aspect_mask: u32) -> (range: vk::ImageSubresourceRange)
    ensures
        range == spec_image_subresource_range(aspect_mask),
{
    vk::ImageSubresourceRange {
        aspect_mask,
        base_mip_level: 0,
        level_count: vk::REMAINING_MIP_LEVELS,
        base_array_layer: 0,
        layer_count: vk::REMAINING_ARRAY_LAYERS,
    }
}

/// A binary semaphore at the given stages: value one, on device zero.
pub open spec fn spec_semaphore_submit_info(
    stage_mask: u64,
    semaphore: vk::Handle,
) -> vk::SemaphoreSubmitInfo {
    vk::SemaphoreSubmitInfo { semaphore, value: 1, stage_mask, device_index: 0 }
}

/// A binary semaphore at the given stages: value one, on device zero.
pub fn semaphore_submit_info(stage_mask: u64, semaphore: vk::Handle) -> (info:
    vk::SemaphoreSubmitInfo)
    ensures
        info == spec_semaphore_submit_info(stage_mask, semaphore),
{
    vk::SemaphoreSubmitInfo { semaphore, value: 1, stage_mask, device_index: 0 }
}

pub fn command_buffer_submit_info(cmd: vk::Handle) -> (info: vk::CommandBufferSubmitInfo)
    ensures
        info == (vk::CommandBufferSubmitInfo { command_buffer: cmd, device_mask: 0 }),
{
    vk::CommandBufferSubmitInfo { command_buffer: cmd, device_mask: 0 }
}

/// One batch: the command buffer, the semaphore it signals and the one it
/// waits on, where there is one.
pub fn submit_info(
    cmd_submit_info: &vk::CommandBufferSubmitInfo,
    signal_semaphore_info: Option<&vk::SemaphoreSubmitInfo>,
    wait_semaphore_info: Option<&vk::SemaphoreSubmitInfo>,
) -> (info: vk::SubmitInfo2)
    ensures
        info.command_buffer_info == *cmd_submit_info,
        info.signal_semaphore_info == match signal_semaphore_info {
            Some(s) => Some(*s),
            None => None,
        },
        info.wait_semaphore_info == match wait_semaphore_info {
            Some(w) => Some(*w),
            None => None,
        },
{
    let wait = match wait_semaphore_info {
        Some(w) => Some(*w),
        None => None,
    };
    let signal = match signal_semaphore_info {
        Some(s) => Some(*s),
        None => None,
    };
    vk::SubmitInfo2 {
        wait_semaphore_info: wait,
        command_buffer_info: *cmd_submit_info,
        signal_semaphore_info: signal,
    }
}

/// A two-dimensional image with one mip level, one layer, one sample per
/// texel and optimal tiling.
pub open spec fn spec_image_create_info(
    format: i32,
    usage_flags: u32,
    extent: vk::Extent3D,
) -> vk::ImageCreateInfo {
    vk::ImageCreateInfo {
        image_type: vk::IMAGE_TYPE_2D,
        format,
        extent,
        mip_levels: 1,
        array_layers: 1,
        samples: vk::SAMPLE_COUNT_1,
        tiling: vk::IMAGE_TILING_OPTIMAL,
        usage: usage_flags,
    }
}

/// A two-dimensional image with one mip level, one layer, one sample per
/// texel and optimal tiling.
pub fn image_create_info(format: i32, usage_flags: u32, extent: vk::Extent3D) -> (info:
    vk::ImageCreateInfo)
    ensures
        info == spec_image_create_info(format, usage_flags, extent),
{
    vk::ImageCreateInfo {
        image_type: vk::IMAGE_TYPE_2D,
        format,
        extent,
        mip_levels: 1,
        array_layers: 1,
        samples: vk::SAMPLE_COUNT_1,
        tiling: vk::IMAGE_TILING_OPTIMAL,
        usage: usage_flags,
    }
}

/// The channels of an image as they are stored.
pub open spec fn identity_components() -> vk::ComponentMapping {
    vk::ComponentMapping {
        r: vk::COMPONENT_SWIZZLE_IDENTITY,
        g: vk::COMPONENT_SWIZZLE_IDENTITY,
        b: vk::COMPONENT_SWIZZLE_IDENTITY,
        a: vk::COMPONENT_SWIZZLE_IDENTITY,
    }
}

/// A two-dimensional view of the first mip level and first layer of `image`.
pub open spec fn spec_image_view_create_info(
    format: i32,
    image: vk::Handle,
    aspect_flags: u32,
) -> vk::ImageViewCreateInfo {
    vk::ImageViewCreateInfo {
        image,
        view_type: vk::IMAGE_VIEW_TYPE_2D,
        format,
        components: identity_components(),
        subresource_range: vk::ImageSubresourceRange {
            aspect_mask: aspect_flags,
            base_mip_level: 0,
            level_count: 1,
            base_array_layer: 0,
            layer_count: 1,
        },
    }
}

/// A two-dimensional view of the first mip level and first layer of `image`.
pub fn image_view_create_info(format: i32, image: vk::Handle, aspect_flags: u32) -> (info:
    vk::ImageViewCreateInfo)
    ensures
        info == spec_image_view_create_info(format, image, aspect_flags),
{
    vk::ImageViewCreateInfo {
        image,
        view_type: vk::IMAGE_VIEW_TYPE_2D,
        format,
        components: vk::ComponentMapping {
            r: vk::COMPONENT_SWIZZLE_IDENTITY,
            g: vk::COMPONENT_SWIZZLE_IDENTITY,
            b: vk::COMPONENT_SWIZZLE_IDENTITY,
            a: vk::COMPONENT_SWIZZLE_IDENTITY,
        },
        subresource_range: vk::ImageSubresourceRange {
            aspect_mask: aspect_flags,
            base_mip_level: 0,
            level_count: 1,
            base_array_layer: 0,
            layer_count: 1,
        },
    }
}

/// A colour attachment that is stored after the pass. With a clear value it
/// is cleared to that value first; without one its contents are loaded.
pub open spec fn spec_attachment_info(
    view: vk::Handle,
    clear_value: Option<vk::ClearValue>,
    layout: i32,
) -> vk::RenderingAttachmentInfo {
    vk::RenderingAttachmentInfo {
        image_view: view,
        image_layout: layout,
        load_op: if clear_value is Some {
            vk::ATTACHMENT_LOAD_OP_CLEAR
        } else {
            vk::ATTACHMENT_LOAD_OP_LOAD
        },
        store_op: vk::ATTACHMENT_STORE_OP_STORE,
        clear_value: match clear_value {
            Some(c) => c,
            None => vk::ClearValue::zero(),
        },
    }
}

/// A colour attachment that is stored after the pass. With a clear value it
/// is cleared to that value first; without one its contents are loaded.
pub fn attachment_info(view: vk::Handle, clear_value: Option<vk::ClearValue>, layout: i32) -> (info:
    vk::RenderingAttachmentInfo)
    ensures
        info == spec_attachment_info(view, clear_value, layout),
{
    let (load_op, value) = match clear_value {
        Some(c) => (vk::ATTACHMENT_LOAD_OP_CLEAR, c),
        None => (vk::ATTACHMENT_LOAD_OP_LOAD, vk::ClearValue::default()),
    };
    vk::RenderingAttachmentInfo {
        image_view: view,
        image_layout: layout,
        load_op,
        store_op: vk::ATTACHMENT_STORE_OP_STORE,
        clear_value: value,
    }
}

/// A render pass of one layer over the whole of `render_extent`.
pub open spec fn spec_rendering_info(
    render_extent: vk::Extent2D,
    color_attachment: vk::RenderingAttachmentInfo,
    depth_attachment: Option<vk::RenderingAttachmentInfo>,
) -> vk::RenderingInfo {
    vk::RenderingInfo {
        render_area: vk::Rect2D { offset: vk::Offset2D { x: 0, y: 0 }, extent: render_extent },
        layer_count: 1,
        color_attachment,
        depth_attachment,
    }
}

/// A render pass of one layer over the whole of `render_extent`.
pub fn rendering_info(
    render_extent: vk::Extent2D,
    color_attachment: vk::RenderingAttachmentInfo,
    depth_attachment: Option<&vk::RenderingAttachmentInfo>,
) -> (info: vk::RenderingInfo)
    ensures
        info == spec_rendering_info(
            render_extent,
            color_attachment,
            match depth_attachment {
                Some(d) => Some(*d),
                None => None,
            },
        ),
{
    let depth = match depth_attachment {
        Some(d) => Some(*d),
        None => None,
    };
    vk::RenderingInfo {
        render_area: vk::Rect2D { offset: vk::Offset2D { x: 0, y: 0 }, extent: render_extent },
        layer_count: 1,
        color_attachment,
        depth_attachment: depth,
    }
}

/// A depth attachment that is cleared to depth zero before the pass and
/// stored after it.
pub open spec fn spec_depth_attachment_info(view: vk::Handle, layout: i32) -> vk::RenderingAttachmentInfo {
    vk::RenderingAttachmentInfo {
        image_view: view,
        image_layout: layout,
        load_op: vk::ATTACHMENT_LOAD_OP_CLEAR,
        store_op: vk::ATTACHMENT_STORE_OP_STORE,
        clear_value: vk::ClearValue::zero(),
    }
}

/// A depth attachment that is cleared to depth zero before the pass and
/// stored after it.
pub fn depth_attachment_info(view: vk::Handle, layout: i32) -> (info: vk::RenderingAttachmentInfo)
    ensures
        info == spec_depth_attachment_info(view, layout),
{
    vk::RenderingAttachmentInfo {
        image_view: view,
        image_layout: layout,
        load_op: vk::ATTACHMENT_LOAD_OP_CLEAR,
        store_op: vk::ATTACHMENT_STORE_OP_STORE,
        clear_value: vk::ClearValue::default(),
    }
}

} // verus!
