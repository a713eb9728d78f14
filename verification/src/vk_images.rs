//! Layout transitions and scaled copies of images, recorded as commands.

use crate::vk;
use crate::vk_commands::{record, transitions_of, Command, Transition};
use crate::vk_init;
use vstd::prelude::*;

verus! {

/// The aspect that a transition into `new_layout` touches: depth for the
/// depth-attachment layout, colour for every other.
pub open spec fn transition_aspect(new_layout: i32) -> u32 {
    if new_layout == vk::IMAGE_LAYOUT_DEPTH_ATTACHMENT_OPTIMAL {
        vk::IMAGE_ASPECT_DEPTH
    } else {
        vk::IMAGE_ASPECT_COLOR
    }
}

/// The barrier that moves `image` from `current_layout` to `new_layout`.
///
/// It blocks all commands on both sides: every earlier command has written
/// its memory before any later command reads or writes.
pub open spec fn spec_transition_image(
    image: vk::Handle,
    current_layout: i32,
    new_layout: i32,
) -> vk::ImageMemoryBarrier2 {
    vk::ImageMemoryBarrier2 {
        src_stage_mask: vk::PIPELINE_STAGE_2_ALL_COMMANDS,
        src_access_mask: vk::ACCESS_2_MEMORY_WRITE,
        dst_stage_mask: vk::PIPELINE_STAGE_2_ALL_COMMANDS,
        dst_access_mask: vk::ACCESS_2_MEMORY_WRITE | vk::ACCESS_2_MEMORY_READ,
        old_layout: current_layout,
        new_layout,
        image,
        subresource_range: vk_init::spec_image_subresource_range(transition_aspect(new_layout)),
    }
}

/// Records the barrier that moves `image` from `current_layout` to
/// `new_layout`, over all its mip levels and layers.
pub fn transition_image(
    cmd: &mut Vec<Command>,
    image: vk::Handle,
    current_layout: i32,
    new_layout: i32,
)
    ensures
        final(cmd)@ == old(cmd)@.push(
            Command::PipelineBarrier(spec_transition_image(image, current_layout, new_layout)),
        ),
        transitions_of(final(cmd)@) == transitions_of(old(cmd)@).push(
            Transition { image, old_layout: current_layout, new_layout },
        ),
{
    let aspect_mask: u32 = if new_layout == vk::IMAGE_LAYOUT_DEPTH_ATTACHMENT_OPTIMAL {
        vk::IMAGE_ASPECT_DEPTH
    } else {
        vk::IMAGE_ASPECT_COLOR
    };
    let barrier = vk::ImageMemoryBarrier2 {
        src_stage_mask: vk::PIPELINE_STAGE_2_ALL_COMMANDS,
        src_access_mask: vk::ACCESS_2_MEMORY_WRITE,
        dst_stage_mask: vk::PIPELINE_STAGE_2_ALL_COMMANDS,
        dst_access_mask: vk::ACCESS_2_MEMORY_WRITE | vk::ACCESS_2_MEMORY_READ,
        old_layout: current_layout,
        new_layout,
        image,
        subresource_range: vk_init::image_subresource_range(aspect_mask),
    };
    record(cmd, Command::PipelineBarrier(barrier));
}

/// Whether both sides of an extent can be written as signed 32-bit offsets.
pub open spec fn extent_fits_offsets(size: vk::Extent2D) -> bool {
    size.width <= i32::MAX && size.height <= i32::MAX
}

/// The first mip level and first layer of the colour aspect.
pub open spec fn color_layers() -> vk::ImageSubresourceLayers {
    vk::ImageSubresourceLayers {
        aspect_mask: vk::IMAGE_ASPECT_COLOR,
        mip_level: 0,
        base_array_layer: 0,
        layer_count: 1,
    }
}

/// The copy of the whole of `source` (of size `src_size`) onto the whole of
/// `destination` (of size `dst_size`), scaled with linear filtering.
pub open spec fn spec_copy_image_to_image(
    source: vk::Handle,
    destination: vk::Handle,
    src_size: vk::Extent2D,
    dst_size: vk::Extent2D,
) -> vk::BlitImageInfo2 {
    vk::BlitImageInfo2 {
        src_image: source,
        src_image_layout: vk::IMAGE_LAYOUT_TRANSFER_SRC_OPTIMAL,
        dst_image: destination,
        dst_image_layout: vk::IMAGE_LAYOUT_TRANSFER_DST_OPTIMAL,
        region: vk::ImageBlit2 {
            src_subresource: color_layers(),
            src_offset_min: vk::Offset3D { x: 0, y: 0, z: 0 },
            src_offset_max: vk::Offset3D {
                x: src_size.width as i32,
                y: src_size.height as i32,
                z: 1,
            },
            dst_subresource: color_layers(),
            dst_offset_min: vk::Offset3D { x: 0, y: 0, z: 0 },
            dst_offset_max: vk::Offset3D {
                x: dst_size.width as i32,
                y: dst_size.height as i32,
                z: 1,
            },
        },
        filter: vk::FILTER_LINEAR,
    }
}

/// Records the scaled copy of the whole of `source` onto the whole of
/// `destination`. The source is expected in the transfer-source layout, the
/// destination in the transfer-destination layout.
///
/// Records nothing and returns `false` exactly when a side of either
/// extent exceeds the largest signed 32-bit offset.
pub fn copy_image_to_image(
    cmd: &mut Vec<Command>,
    source: vk::Handle,
    destination: vk::Handle,
    src_size: vk::Extent2D,
    dst_size: vk::Extent2D,
) -> (recorded: bool)
    ensures
        recorded <==> extent_fits_offsets(src_size) && extent_fits_offsets(dst_size),
        recorded ==> final(cmd)@ == old(cmd)@.push(
            Command::BlitImage(spec_copy_image_to_image(source, destination, src_size, dst_size)),
        ),
        !recorded ==> final(cmd)@ == old(cmd)@,
        transitions_of(final(cmd)@) == transitions_of(old(cmd)@),
{
    let limit: u32 = 0x7FFF_FFFF;
    if src_size.width > limit || src_size.height > limit || dst_size.width > limit
        || dst_size.height > limit {
        return false;
    }
    let layers = vk::ImageSubresourceLayers {
        aspect_mask: vk::IMAGE_ASPECT_COLOR,
        mip_level: 0,
        base_array_layer: 0,
        layer_count: 1,
    };
    let blit = vk::BlitImageInfo2 {
        src_image: source,
        src_image_layout: vk::IMAGE_LAYOUT_TRANSFER_SRC_OPTIMAL,
        dst_image: destination,
        dst_image_layout: vk::IMAGE_LAYOUT_TRANSFER_DST_OPTIMAL,
        region: vk::ImageBlit2 {
            src_subresource: layers,
            src_offset_min: vk::Offset3D { x: 0, y: 0, z: 0 },
            src_offset_max: vk::Offset3D {
                x: src_size.width as i32,
                y: src_size.height as i32,
                z: 1,
            },
            dst_subresource: layers,
            dst_offset_min: vk::Offset3D { x: 0, y: 0, z: 0 },
            dst_offset_max: vk::Offset3D {
                x: dst_size.width as i32,
                y: dst_size.height as i32,
                z: 1,
            },
        },
        filter: vk::FILTER_LINEAR,
    };
    record(cmd, Command::BlitImage(blit));
    true
}

} // verus!
