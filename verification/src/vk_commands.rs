//! The commands that the engine records into a command buffer, as values.
//!
//! The recording side walks a list of these in order and issues one device
//! call for each.

use crate::vk;
use vstd::prelude::*;

verus! {

/// The data of a push-constant update, as far as the engine decides it.
/// The floating-point members are filled in by the recording side.
#[derive(Clone, Copy, Debug, PartialEq, Eq, Structural)]
pub enum PushData {
    /// The parameters of the background effect at this index.
    Effect(usize),
    /// The transform of a mesh draw and the device address of its vertices.
    MeshDraw { vertex_buffer: u64 },
}

/// One recorded command.
#[derive(Clone, Copy, Debug, PartialEq, Eq, Structural)]
pub enum Command {
    /// An image barrier, issued alone.
    PipelineBarrier(vk::ImageMemoryBarrier2),
    BindPipeline { bind_point: i32, pipeline: vk::Handle },
    /// Binds one descriptor set as set zero.
    BindDescriptorSet { bind_point: i32, layout: vk::Handle, set: vk::Handle },
    PushConstants { layout: vk::Handle, stage_flags: u32, offset: u32, size: u32, data: PushData },
    Dispatch { group_count_x: u32, group_count_y: u32, group_count_z: u32 },
    BeginRendering(vk::RenderingInfo),
    /// A viewport at the origin with depth from zero to one.
    SetViewport { width: u32, height: u32 },
    SetScissor(vk::Rect2D),
    BindIndexBuffer { buffer: vk::Handle, buffer_offset: u64, index_type: i32 },
    DrawIndexed {
        index_count: u32,
        instance_count: u32,
        first_index: u32,
        vertex_offset: i32,
        first_instance: u32,
    },
    EndRendering,
    BlitImage(vk::BlitImageInfo2),
    CopyBuffer { src: vk::Handle, dst: vk::Handle, region: vk::BufferCopy },
    /// The user-interface overlay draws itself.
    DrawOverlay,
}

/// A layout change of one image: the image, the layout it leaves and the
/// layout it enters.
#[derive(Clone, Copy, Debug, PartialEq, Eq, Structural)]
pub struct Transition {
    pub image: vk::Handle,
    pub old_layout: i32,
    pub new_layout: i32,
}

/// The layout changes among `commands`, in the order in which they are recorded.
pub open spec fn transitions_of(commands: Seq<Command>) -> Seq<Transition>
    decreases commands.len(),
{
    if commands.len() == 0 {
        Seq::empty()
    } else {
        let rest = transitions_of(commands.drop_last());
        match commands.last() {
            Command::PipelineBarrier(b) => rest.push(
                Transition { image: b.image, old_layout: b.old_layout, new_layout: b.new_layout },
            ),
            _ => rest,
        }
    }
}

/// What recording one more command does to the layout changes on record.
pub open spec fn transitions_after(before: Seq<Transition>, command: Command) -> Seq<Transition> {
    match command {
        Command::PipelineBarrier(b) => before.push(
            Transition { image: b.image, old_layout: b.old_layout, new_layout: b.new_layout },
        ),
        _ => before,
    }
}

/// Records `command` at the end of `cmd`.
pub fn record(cmd: &mut Vec<Command>, command: Command)
    ensures
        final(cmd)@ == old(cmd)@.push(command),
        transitions_of(final(cmd)@) == transitions_after(transitions_of(old(cmd)@), command),
{
    cmd.push(command);
    proof {
        assert(cmd@.drop_last() =~= old(cmd)@);
    }
}

/// Collects the layout changes among `commands`, in recording order.
pub fn transitions(commands: &Vec<Command>) -> (list: Vec<Transition>)
    ensures
        list@ == transitions_of(commands@),
{
    let mut list: Vec<Transition> = Vec::new();
    let mut i: usize = 0;
    while i < commands.len()
        invariant
            i <= commands.len(),
            list@ == transitions_of(commands@.take(i as int)),
        decreases commands.len() - i,
    {
        proof {
            assert(commands@.take(i + 1).drop_last() =~= commands@.take(i as int));
        }
        match commands[i] {
            Command::PipelineBarrier(b) => {
                list.push(
                    Transition {
                        image: b.image,
                        old_layout: b.old_layout,
                        new_layout: b.new_layout,
                    },
                );
            },
            _ => {},
        }
        i += 1;
    }
    proof {
        assert(commands@.take(commands.len() as int) =~= commands@);
    }
    list
}

} // verus!
