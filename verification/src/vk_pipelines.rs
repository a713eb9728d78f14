//! Shader modules and the fixed-function state of the graphics pipeline.

use crate::vk;
use vstd::prelude::*;

verus! {

/// The first word of every SPIR-V module.
pub const SPIRV_MAGIC: u32 = 0x0723_0203;

/// The word that four bytes spell, least significant byte first.
pub open spec fn le_word(bytes: Seq<u8>, at: int) -> u32 {
    (bytes[at] as int + 0x100 * bytes[at + 1] as int + 0x1_0000 * bytes[at + 2] as int + 0x100_0000
        * bytes[at + 3] as int) as u32
}

/// The word that four bytes spell, most significant byte first.
pub open spec fn be_word(bytes: Seq<u8>, at: int) -> u32 {
    (bytes[at + 3] as int + 0x100 * bytes[at + 2] as int + 0x1_0000 * bytes[at + 1] as int
        + 0x100_0000 * bytes[at] as int) as u32
}

/// Whether the input begins with the magic number, least significant byte
/// first.
pub open spec fn little_endian_module(bytes: Seq<u8>) -> bool {
    bytes.len() >= 4 && bytes[0] == 0x03 && bytes[1] == 0x02 && bytes[2] == 0x23 && bytes[3]
        == 0x07
}

/// Whether the input begins with the magic number, most significant byte
/// first.
pub open spec fn big_endian_module(bytes: Seq<u8>) -> bool {
    bytes.len() >= 4 && bytes[0] == 0x07 && bytes[1] == 0x23 && bytes[2] == 0x02 && bytes[3]
        == 0x03
}

/// Whether the input is a whole number of words behind the magic number.
pub open spec fn is_spirv(bytes: Seq<u8>) -> bool {
    bytes.len() % 4 == 0 && (little_endian_module(bytes) || big_endian_module(bytes))
}

/// The words of a module, read in the byte order that its magic number
/// shows.
pub open spec fn spirv_words(bytes: Seq<u8>) -> Seq<u32> {
    Seq::new(
        bytes.len() / 4,
        |i: int|
            if little_endian_module(bytes) {
                le_word(bytes, 4 * i)
            } else {
                be_word(bytes, 4 * i)
            },
    )
}

/// `ash::util::read_spv` on a cursor over the bytes.
///
/// It accepts an input whose length is a multiple of four and whose first
/// word is the magic number in either byte order, and returns its words in
/// the byte order of the module, so that the first word returned is the
/// magic number. Every other input is refused.
#[verifier::external_body]
fn read_spv(bytes: &[u8]) -> (words: Option<Vec<u32>>)
    ensures
        words is Some <==> is_spirv(bytes@),
        words is Some ==> words->Some_0@ == spirv_words(bytes@),
{
    ash::util::read_spv(&mut std::io::Cursor::new(bytes)).ok()
}

/// Why bytes are no shader module.
#[derive(Clone, Copy, Debug, PartialEq, Eq, Structural)]
pub enum ShaderError {
    /// The length is no multiple of four.
    RaggedLength,
    /// The input is empty or does not begin with the magic number.
    MissingMagic,
}

/// A shader module ready to be created.
#[derive(Clone, Debug, PartialEq, Eq)]
pub struct ShaderModuleCreateInfo {
    pub code: Vec<u32>,
}

/// Decodes the bytes of a compiled shader into the words of a module.
///
/// Succeeds exactly on a whole number of words behind the magic number, in
/// either byte order.
pub fn load_shader_module(bytes: &[u8]) -> (r: Result<ShaderModuleCreateInfo, ShaderError>)
    ensures
        r is Ok <==> is_spirv(bytes@),
        r is Ok ==> r->Ok_0.code@ == spirv_words(bytes@),
        r is Err ==> r->Err_0 == if bytes@.len() % 4 != 0 {
            ShaderError::RaggedLength
        } else {
            ShaderError::MissingMagic
        },
{
    match read_spv(bytes) {
        Some(code) => Ok(ShaderModuleCreateInfo { code }),
        None => {
            if bytes.len() % 4 != 0 {
                Err(ShaderError::RaggedLength)
            } else {
                Err(ShaderError::MissingMagic)
            }
        },
    }
}

/// A module of a well-formed input begins with the magic number, whichever
/// byte order the input is in.
pub proof fn lemma_module_begins_with_magic(bytes: Seq<u8>)
    requires
        is_spirv(bytes),
    ensures
        spirv_words(bytes).len() >= 1,
        spirv_words(bytes)[0] == SPIRV_MAGIC,
{
}

/// One programmable stage of a pipeline.
#[derive(Clone, Copy, Debug, PartialEq, Eq)]
pub struct ShaderStage {
    pub stage: u32,
    pub module: vk::Handle,
    pub entry: &'static str,
}

#[derive(Clone, Copy, Debug, PartialEq, Eq, Structural)]
pub struct InputAssemblyState {
    pub topology: i32,
    pub primitive_restart_enable: bool,
}

/// Rasterization state; the line width is the bit pattern of a float.
#[derive(Clone, Copy, Debug, PartialEq, Eq, Structural)]
pub struct RasterizationState {
    pub polygon_mode: i32,
    pub line_width: u32,
    pub cull_mode: u32,
    pub front_face: i32,
}

#[derive(Clone, Copy, Debug, PartialEq, Eq, Structural)]
pub struct ColorBlendAttachmentState {
    pub blend_enable: bool,
    pub src_color_blend_factor: i32,
    pub dst_color_blend_factor: i32,
    pub color_blend_op: i32,
    pub src_alpha_blend_factor: i32,
    pub dst_alpha_blend_factor: i32,
    pub alpha_blend_op: i32,
    pub color_write_mask: u32,
}

/// Multisample state; the minimum sample shading is the bit pattern of a
/// float.
#[derive(Clone, Copy, Debug, PartialEq, Eq, Structural)]
pub struct MultisampleState {
    pub rasterization_samples: u32,
    pub sample_shading_enable: bool,
    pub min_sample_shading: u32,
    pub has_sample_mask: bool,
    pub alpha_to_coverage_enable: bool,
    pub alpha_to_one_enable: bool,
}

#[derive(Clone, Copy, Debug, PartialEq, Eq, Structural)]
pub struct StencilOpState {
    pub fail_op: i32,
    pub pass_op: i32,
    pub depth_fail_op: i32,
    pub compare_op: i32,
    pub compare_mask: u32,
    pub write_mask: u32,
    pub reference: u32,
}

/// Depth and stencil state; the depth bounds are bit patterns of floats.
#[derive(Clone, Copy, Debug, PartialEq, Eq, Structural)]
pub struct DepthStencilState {
    pub depth_test_enable: bool,
    pub depth_write_enable: bool,
    pub depth_compare_op: i32,
    pub depth_bounds_test_enable: bool,
    pub stencil_test_enable: bool,
    pub front: StencilOpState,
    pub back: StencilOpState,
    pub min_depth_bounds: u32,
    pub max_depth_bounds: u32,
}

/// The formats of the attachments that a pipeline renders to.
#[derive(Clone, Copy, Debug, PartialEq, Eq, Structural)]
pub struct PipelineRenderingInfo {
    pub color_attachment_count: u32,
    pub color_attachment_format: i32,
    pub depth_attachment_format: i32,
}

/// A graphics pipeline ready to be created: one viewport and one scissor,
/// both set while recording, no vertex input, and no logic operation on
/// the one colour attachment.
#[derive(Clone, Debug, PartialEq, Eq)]
pub struct GraphicsPipelineCreateInfo {
    pub stages: Vec<ShaderStage>,
    pub input_assembly: InputAssemblyState,
    pub viewport_count: u32,
    pub scissor_count: u32,
    pub rasterizer: RasterizationState,
    pub multisampling: MultisampleState,
    pub logic_op_enable: bool,
    pub logic_op: i32,
    pub color_blend_attachment: ColorBlendAttachmentState,
    pub depth_stencil: DepthStencilState,
    pub layout: vk::Handle,
    pub dynamic_state_first: i32,
    pub dynamic_state_second: i32,
    pub render_info: PipelineRenderingInfo,
}

impl StencilOpState {
    /// The stencil state that keeps everything and never passes.
    pub open spec fn zero() -> StencilOpState {
        StencilOpState {
            fail_op: vk::STENCIL_OP_KEEP,
            pass_op: vk::STENCIL_OP_KEEP,
            depth_fail_op: vk::STENCIL_OP_KEEP,
            compare_op: vk::COMPARE_OP_NEVER,
            compare_mask: 0,
            write_mask: 0,
            reference: 0,
        }
    }
}

impl Default for StencilOpState {
    fn default() -> (s: StencilOpState)
        ensures
            s == StencilOpState::zero(),
    {
        StencilOpState {
            fail_op: vk::STENCIL_OP_KEEP,
            pass_op: vk::STENCIL_OP_KEEP,
            depth_fail_op: vk::STENCIL_OP_KEEP,
            compare_op: vk::COMPARE_OP_NEVER,
            compare_mask: 0,
            write_mask: 0,
            reference: 0,
        }
    }
}

/// Collects the state of a graphics pipeline.
#[derive(Clone, Debug, PartialEq, Eq)]
pub struct PipelineBuilder {
    pub shader_stages: Vec<ShaderStage>,
    pub input_assembly: InputAssemblyState,
    pub rasterizer: RasterizationState,
    pub color_blend_attachment: ColorBlendAttachmentState,
    pub multisampling: MultisampleState,
    pub pipeline_layout: vk::Handle,
    pub depth_stencil: DepthStencilState,
    pub render_info: PipelineRenderingInfo,
    pub color_attachment_format: i32,
}

impl PipelineBuilder {
    /// The builder with no stage and every member zero.
    pub open spec fn blank(self) -> bool {
        &&& self.shader_stages@.len() == 0
        &&& self.input_assembly == (InputAssemblyState {
            topology: 0,
            primitive_restart_enable: false,
        })
        &&& self.rasterizer == (RasterizationState {
            polygon_mode: 0,
            line_width: 0,
            cull_mode: 0,
            front_face: 0,
        })
        &&& self.color_blend_attachment == (ColorBlendAttachmentState {
            blend_enable: false,
            src_color_blend_factor: 0,
            dst_color_blend_factor: 0,
            color_blend_op: 0,
            src_alpha_blend_factor: 0,
            dst_alpha_blend_factor: 0,
            alpha_blend_op: 0,
            color_write_mask: 0,
        })
        &&& self.multisampling == (MultisampleState {
            rasterization_samples: 0,
            sample_shading_enable: false,
            min_sample_shading: 0,
            has_sample_mask: false,
            alpha_to_coverage_enable: false,
            alpha_to_one_enable: false,
        })
        &&& self.pipeline_layout == vk::NULL_HANDLE
        &&& self.depth_stencil == (DepthStencilState {
            depth_test_enable: false,
            depth_write_enable: false,
            depth_compare_op: 0,
            depth_bounds_test_enable: false,
            stencil_test_enable: false,
            front: StencilOpState::zero(),
            back: StencilOpState::zero(),
            min_depth_bounds: 0,
            max_depth_bounds: 0,
        })
        &&& self.render_info == (PipelineRenderingInfo {
            color_attachment_count: 0,
            color_attachment_format: vk::FORMAT_UNDEFINED,
            depth_attachment_format: vk::FORMAT_UNDEFINED,
        })
        &&& self.color_attachment_format == vk::FORMAT_UNDEFINED
    }
}

impl Default for PipelineBuilder {
    fn default() -> (b: PipelineBuilder)
        ensures
            b.blank(),
    {
        PipelineBuilder {
            shader_stages: Vec::new(),
            input_assembly: InputAssemblyState { topology: 0, primitive_restart_enable: false },
            rasterizer: RasterizationState {
                polygon_mode: 0,
                line_width: 0,
                cull_mode: 0,
                front_face: 0,
            },
            color_blend_attachment: ColorBlendAttachmentState {
                blend_enable: false,
                src_color_blend_factor: 0,
                dst_color_blend_factor: 0,
                color_blend_op: 0,
                src_alpha_blend_factor: 0,
                dst_alpha_blend_factor: 0,
                alpha_blend_op: 0,
                color_write_mask: 0,
            },
            multisampling: MultisampleState {
                rasterization_samples: 0,
                sample_shading_enable: false,
                min_sample_shading: 0,
                has_sample_mask: false,
                alpha_to_coverage_enable: false,
                alpha_to_one_enable: false,
            },
            pipeline_layout: vk::NULL_HANDLE,
            depth_stencil: DepthStencilState {
                depth_test_enable: false,
                depth_write_enable: false,
                depth_compare_op: 0,
                depth_bounds_test_enable: false,
                stencil_test_enable: false,
                front: StencilOpState::default(),
                back: StencilOpState::default(),
                min_depth_bounds: 0,
                max_depth_bounds: 0,
            },
            render_info: PipelineRenderingInfo {
                color_attachment_count: 0,
                color_attachment_format: vk::FORMAT_UNDEFINED,
                depth_attachment_format: vk::FORMAT_UNDEFINED,
            },
            color_attachment_format: vk::FORMAT_UNDEFINED,
        }
    }
}

impl PipelineBuilder {
    /// The pipeline that the builder describes.
    pub open spec fn built(self, info: GraphicsPipelineCreateInfo) -> bool {
        &&& info.stages == self.shader_stages
        &&& info.input_assembly == self.input_assembly
        &&& info.viewport_count == 1
        &&& info.scissor_count == 1
        &&& info.rasterizer == self.rasterizer
        &&& info.multisampling == self.multisampling
        &&& !info.logic_op_enable
        &&& info.logic_op == vk::LOGIC_OP_COPY
        &&& info.color_blend_attachment == self.color_blend_attachment
        &&& info.depth_stencil == self.depth_stencil
        &&& info.layout == self.pipeline_layout
        &&& info.dynamic_state_first == vk::DYNAMIC_STATE_VIEWPORT
        &&& info.dynamic_state_second == vk::DYNAMIC_STATE_SCISSOR
        &&& info.render_info == self.render_info
    }

    /// Finishes the pipeline: the collected state, one viewport and one
    /// scissor that are both set while recording, and colours written as
    /// they are blended.
    pub fn build_pipeline(self) -> (info: GraphicsPipelineCreateInfo)
        ensures
            self.built(info),
    {
        GraphicsPipelineCreateInfo {
            stages: self.shader_stages,
            input_assembly: self.input_assembly,
            viewport_count: 1,
            scissor_count: 1,
            rasterizer: self.rasterizer,
            multisampling: self.multisampling,
            logic_op_enable: false,
            logic_op: vk::LOGIC_OP_COPY,
            color_blend_attachment: self.color_blend_attachment,
            depth_stencil: self.depth_stencil,
            layout: self.pipeline_layout,
            dynamic_state_first: vk::DYNAMIC_STATE_VIEWPORT,
            dynamic_state_second: vk::DYNAMIC_STATE_SCISSOR,
            render_info: self.render_info,
        }
    }

    /// Replaces the stages by a vertex stage and a fragment stage, in that
    /// order.
    pub fn set_shaders(
        &mut self,
        vertex_shader: vk::Handle,
        fragment_shader: vk::Handle,
        vertex_entry: &'static str,
        fragment_entry: &'static str,
    )
        ensures
            final(self).shader_stages@ == seq![
                ShaderStage {
                    stage: vk::SHADER_STAGE_VERTEX,
                    module: vertex_shader,
                    entry: vertex_entry,
                },
                ShaderStage {
                    stage: vk::SHADER_STAGE_FRAGMENT,
                    module: fragment_shader,
                    entry: fragment_entry,
                },
            ],
            *final(self) == (PipelineBuilder {
                shader_stages: final(self).shader_stages,
                ..*old(self)
            }),
    {
        self.shader_stages.clear();
        self.shader_stages.push(
            ShaderStage { stage: vk::SHADER_STAGE_VERTEX, module: vertex_shader, entry: vertex_entry },
        );
        self.shader_stages.push(
            ShaderStage {
                stage: vk::SHADER_STAGE_FRAGMENT,
                module: fragment_shader,
                entry: fragment_entry,
            },
        );
        proof {
            assert(self.shader_stages@ =~= seq![
                ShaderStage {
                    stage: vk::SHADER_STAGE_VERTEX,
                    module: vertex_shader,
                    entry: vertex_entry,
                },
                ShaderStage {
                    stage: vk::SHADER_STAGE_FRAGMENT,
                    module: fragment_shader,
                    entry: fragment_entry,
                },
            ]);
        }
    }

    /// Sets the topology; primitives are never restarted.
    pub fn set_input_topology(&mut self, topology: i32)
        ensures
            *final(self) == (PipelineBuilder {
                input_assembly: InputAssemblyState { topology, primitive_restart_enable: false },
                ..*old(self)
            }),
    {
        self.input_assembly.topology = topology;
        self.input_assembly.primitive_restart_enable = false;
    }

    /// Sets the polygon mode; lines are one pixel wide.
    pub fn set_polygon_mode(&mut self, mode: i32)
        ensures
            *final(self) == (PipelineBuilder {
                rasterizer: RasterizationState {
                    polygon_mode: mode,
                    line_width: vk::F32_ONE,
                    ..old(self).rasterizer
                },
                ..*old(self)
            }),
    {
        self.rasterizer.polygon_mode = mode;
        self.rasterizer.line_width = vk::F32_ONE;
    }

    /// Sets which faces are culled and which winding is the front.
    pub fn set_cull_mode(&mut self, cull_mode: u32, front_face: i32)
        ensures
            *final(self) == (PipelineBuilder {
                rasterizer: RasterizationState { cull_mode, front_face, ..old(self).rasterizer },
                ..*old(self)
            }),
    {
        self.rasterizer.cull_mode = cull_mode;
        self.rasterizer.front_face = front_face;
    }

    /// Switches multisampling off: one sample per pixel, no sample mask,
    /// no use of alpha for coverage.
    pub fn set_multisampling_none(&mut self)
        ensures
            *final(self) == (PipelineBuilder {
                multisampling: MultisampleState {
                    rasterization_samples: vk::SAMPLE_COUNT_1,
                    sample_shading_enable: false,
                    min_sample_shading: vk::F32_ONE,
                    has_sample_mask: false,
                    alpha_to_coverage_enable: false,
                    alpha_to_one_enable: false,
                },
                ..*old(self)
            }),
    {
        self.multisampling.sample_shading_enable = false;
        self.multisampling.rasterization_samples = vk::SAMPLE_COUNT_1;
        self.multisampling.min_sample_shading = vk::F32_ONE;
        self.multisampling.has_sample_mask = false;
        self.multisampling.alpha_to_coverage_enable = false;
        self.multisampling.alpha_to_one_enable = false;
    }

    /// Writes all four channels without blending.
    pub fn disable_blending(&mut self)
        ensures
            *final(self) == (PipelineBuilder {
                color_blend_attachment: ColorBlendAttachmentState {
                    color_write_mask: vk::COLOR_COMPONENT_RGBA,
                    blend_enable: false,
                    ..old(self).color_blend_attachment
                },
                ..*old(self)
            }),
    {
        self.color_blend_attachment.color_write_mask = vk::COLOR_COMPONENT_RGBA;
        self.color_blend_attachment.blend_enable = false;
    }

    /// Writes all four channels, adding the new colour, weighted by its
    /// alpha, to what the attachment holds.
    pub fn enable_blending_additive(&mut self)
        ensures
            *final(self) == (PipelineBuilder {
                color_blend_attachment: ColorBlendAttachmentState {
                    blend_enable: true,
                    src_color_blend_factor: vk::BLEND_FACTOR_SRC_ALPHA,
                    dst_color_blend_factor: vk::BLEND_FACTOR_ONE,
                    color_blend_op: vk::BLEND_OP_ADD,
                    src_alpha_blend_factor: vk::BLEND_FACTOR_ONE,
                    dst_alpha_blend_factor: vk::BLEND_FACTOR_ZERO,
                    alpha_blend_op: vk::BLEND_OP_ADD,
                    color_write_mask: vk::COLOR_COMPONENT_RGBA,
                },
                ..*old(self)
            }),
    {
        self.color_blend_attachment.color_write_mask = vk::COLOR_COMPONENT_RGBA;
        self.color_blend_attachment.blend_enable = true;
        self.color_blend_attachment.src_color_blend_factor = vk::BLEND_FACTOR_SRC_ALPHA;
        self.color_blend_attachment.dst_color_blend_factor = vk::BLEND_FACTOR_ONE;
        self.color_blend_attachment.color_blend_op = vk::BLEND_OP_ADD;
        self.color_blend_attachment.src_alpha_blend_factor = vk::BLEND_FACTOR_ONE;
        self.color_blend_attachment.dst_alpha_blend_factor = vk::BLEND_FACTOR_ZERO;
        self.color_blend_attachment.alpha_blend_op = vk::BLEND_OP_ADD;
    }

    /// Renders to one colour attachment of the given format.
    pub fn set_color_attachment_format(&mut self, format: i32)
        ensures
            *final(self) == (PipelineBuilder {
                color_attachment_format: format,
                render_info: PipelineRenderingInfo {
                    color_attachment_count: 1,
                    color_attachment_format: format,
                    ..old(self).render_info
                },
                ..*old(self)
            }),
    {
        self.color_attachment_format = format;
        self.render_info.color_attachment_count = 1;
        self.render_info.color_attachment_format = format;
    }

    /// Renders to a depth attachment of the given format.
    pub fn set_depth_format(&mut self, format: i32)
        ensures
            *final(self) == (PipelineBuilder {
                render_info: PipelineRenderingInfo {
                    depth_attachment_format: format,
                    ..old(self).render_info
                },
                ..*old(self)
            }),
    {
        self.render_info.depth_attachment_format = format;
    }

    /// The depth and stencil state with the stencil test off and the depth
    /// bounds from zero to one.
    pub open spec fn depth_state(test: bool, write: bool, op: i32) -> DepthStencilState {
        DepthStencilState {
            depth_test_enable: test,
            depth_write_enable: write,
            depth_compare_op: op,
            depth_bounds_test_enable: false,
            stencil_test_enable: false,
            front: StencilOpState::zero(),
            back: StencilOpState::zero(),
            min_depth_bounds: vk::F32_ZERO,
            max_depth_bounds: vk::F32_ONE,
        }
    }

    /// Switches the depth test off: depth is neither tested nor written.
    pub fn disable_depth_test(&mut self)
        ensures
            *final(self) == (PipelineBuilder {
                depth_stencil: Self::depth_state(false, false, vk::COMPARE_OP_NEVER),
                ..*old(self)
            }),
    {
        self.depth_stencil =
        DepthStencilState {
            depth_test_enable: false,
            depth_write_enable: false,
            depth_compare_op: vk::COMPARE_OP_NEVER,
            depth_bounds_test_enable: false,
            stencil_test_enable: false,
            front: StencilOpState::default(),
            back: StencilOpState::default(),
            min_depth_bounds: vk::F32_ZERO,
            max_depth_bounds: vk::F32_ONE,
        };
    }

    /// Switches the depth test on with the given comparison; depth is
    /// written where `depth_write_enable` says so.
    pub fn enable_depth_test(&mut self, depth_write_enable: bool, op: i32)
        ensures
            *final(self) == (PipelineBuilder {
                depth_stencil: Self::depth_state(true, depth_write_enable, op),
                ..*old(self)
            }),
    {
        self.depth_stencil =
        DepthStencilState {
            depth_test_enable: true,
            depth_write_enable,
            depth_compare_op: op,
            depth_bounds_test_enable: false,
            stencil_test_enable: false,
            front: StencilOpState::default(),
            back: StencilOpState::default(),
            min_depth_bounds: vk::F32_ZERO,
            max_depth_bounds: vk::F32_ONE,
        };
    }
}

} // verus!
