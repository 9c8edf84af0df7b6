//! The graphics pipeline: two shader stages and a fixed-function state that
//! draws filled triangles over the whole swapchain image.

use vstd::prelude::*;
use vstd::string::StringExecFns;

use crate::render_pass::SampleCount;
use crate::swapchain::Extent2D;

verus! {

/// The stage of the pipeline that a shader module runs in.
#[derive(Clone, Copy, Debug, PartialEq, Eq)]
pub enum ShaderStage {
    Vertex,
    Geometry,
    Fragment,
    Compute,
}

/// How consecutive vertices are assembled into primitives.
#[derive(Clone, Copy, Debug, PartialEq, Eq)]
pub enum PrimitiveTopology {
    PointList,
    LineList,
    LineStrip,
    TriangleList,
    TriangleStrip,
    TriangleFan,
}

/// How polygons are rasterized.
#[derive(Clone, Copy, Debug, PartialEq, Eq)]
pub enum PolygonMode {
    Fill,
    Line,
    Point,
}

/// Which faces are discarded.
#[derive(Clone, Copy, Debug, PartialEq, Eq)]
pub enum CullMode {
    Neither,
    Front,
    Back,
    FrontAndBack,
}

/// The winding of the triangles that count as facing the viewer.
#[derive(Clone, Copy, Debug, PartialEq, Eq)]
pub enum FrontFace {
    CounterClockwise,
    Clockwise,
}

/// A bitwise operation between what a fragment holds and what the
/// framebuffer holds.
#[derive(Clone, Copy, Debug, PartialEq, Eq)]
pub enum LogicOp {
    Clear,
    And,
    Copy,
    NoOp,
    Xor,
    Or,
}

/// What a shader module is created with.
#[derive(Clone, Debug, PartialEq, Eq)]
pub struct ShaderModuleCreateInfo {
    /// Length of the code in bytes.
    pub code_size: usize,
    /// The compiled shader, handed to the driver as it is.
    pub code: Vec<u8>,
}

/// One programmable stage of the pipeline.
#[derive(Clone, Debug, PartialEq, Eq)]
pub struct ShaderStageCreateInfo {
    pub stage: ShaderStage,
    /// Handle of the shader module.
    pub module: u64,
    /// Name of the function at which the stage starts.
    pub name: String,
}

/// The vertex buffers that the pipeline reads from.
#[derive(Clone, Copy, Debug, PartialEq, Eq)]
pub struct VertexInputState {
    pub vertex_binding_description_count: u32,
    pub vertex_attribute_description_count: u32,
}

/// How vertices become primitives.
#[derive(Clone, Copy, Debug, PartialEq, Eq)]
pub struct InputAssemblyState {
    pub topology: PrimitiveTopology,
    pub primitive_restart_enable: bool,
}

/// The part of the framebuffer that is drawn to, and the depth range. Every
/// number is whole; the driver takes them as floating point.
#[derive(Clone, Copy, Debug, PartialEq, Eq)]
pub struct Viewport {
    pub x: u32,
    pub y: u32,
    pub width: u32,
    pub height: u32,
    pub min_depth: u32,
    pub max_depth: u32,
}

/// A rectangle of pixels.
#[derive(Clone, Copy, Debug, PartialEq, Eq)]
pub struct Rect2D {
    pub x: i32,
    pub y: i32,
    pub extent: Extent2D,
}

/// The viewports and the scissor rectangles of the pipeline.
#[derive(Clone, Debug, PartialEq, Eq)]
pub struct ViewportState {
    pub viewports: Vec<Viewport>,
    pub scissors: Vec<Rect2D>,
}

/// How primitives become fragments. The line width is a whole number; the
/// driver takes it as floating point.
#[derive(Clone, Copy, Debug, PartialEq, Eq)]
pub struct RasterizationState {
    pub depth_clamp_enable: bool,
    pub rasterizer_discard_enable: bool,
    pub polygon_mode: PolygonMode,
    pub cull_mode: CullMode,
    pub front_face: FrontFace,
    pub depth_bias_enable: bool,
    pub line_width: u32,
}

/// How many samples are taken for each pixel.
#[derive(Clone, Copy, Debug, PartialEq, Eq)]
pub struct MultisampleState {
    pub rasterization_samples: SampleCount,
    pub sample_shading_enable: bool,
}

/// The channels of an attachment that are written.
#[derive(Clone, Copy, Debug, PartialEq, Eq)]
pub struct ColorComponents {
    pub r: bool,
    pub g: bool,
    pub b: bool,
    pub a: bool,
}

/// How a fragment's color is combined with one color attachment.
#[derive(Clone, Copy, Debug, PartialEq, Eq)]
pub struct ColorBlendAttachmentState {
    pub blend_enable: bool,
    pub color_write_mask: ColorComponents,
}

/// How fragments are combined with the color attachments.
#[derive(Clone, Debug, PartialEq, Eq)]
pub struct ColorBlendState {
    pub logic_op_enable: bool,
    pub logic_op: LogicOp,
    pub attachments: Vec<ColorBlendAttachmentState>,
}

/// What a pipeline layout is created with.
#[derive(Clone, Copy, Debug, PartialEq, Eq)]
pub struct PipelineLayoutCreateInfo {
    pub set_layout_count: u32,
    pub push_constant_range_count: u32,
}

/// What a graphics pipeline is created with.
#[derive(Clone, Debug, PartialEq, Eq)]
pub struct GraphicsPipelineCreateInfo {
    pub stages: Vec<ShaderStageCreateInfo>,
    pub vertex_input_state: VertexInputState,
    pub input_assembly_state: InputAssemblyState,
    pub viewport_state: ViewportState,
    pub rasterization_state: RasterizationState,
    pub multisample_state: MultisampleState,
    pub color_blend_state: ColorBlendState,
    /// Handle of the pipeline layout.
    pub layout: u64,
    /// Handle of the render pass.
    pub render_pass: u64,
    /// Index of the subpass that the pipeline is used in.
    pub subpass: u32,
}

/// `info` is the stage `stage` run by `module`, starting at `main`.
pub open spec fn is_stage(info: ShaderStageCreateInfo, stage: ShaderStage, module: u64) -> bool {
    info.stage == stage && info.module == module && info.name@ == "main"@
}

/// No vertex buffer is read: the vertices are written in the vertex shader.
pub open spec fn no_vertex_input() -> VertexInputState {
    VertexInputState { vertex_binding_description_count: 0, vertex_attribute_description_count: 0 }
}

/// Every three vertices make a triangle, and no index restarts a primitive.
pub open spec fn triangle_list() -> InputAssemblyState {
    InputAssemblyState {
        topology: PrimitiveTopology::TriangleList,
        primitive_restart_enable: false,
    }
}

/// The viewport that covers an image of the given extent, over the full
/// depth range from zero to one.
pub open spec fn full_viewport(extent: Extent2D) -> Viewport {
    Viewport {
        x: 0,
        y: 0,
        width: extent.width,
        height: extent.height,
        min_depth: 0,
        max_depth: 1,
    }
}

/// The scissor rectangle that cuts nothing off an image of the given extent.
pub open spec fn full_scissor(extent: Extent2D) -> Rect2D {
    Rect2D { x: 0, y: 0, extent }
}

/// Filled polygons, back faces culled, clockwise triangles facing the
/// viewer, lines one pixel wide, no depth clamp, no depth bias, nothing
/// discarded before rasterization.
pub open spec fn fill_rasterization() -> RasterizationState {
    RasterizationState {
        depth_clamp_enable: false,
        rasterizer_discard_enable: false,
        polygon_mode: PolygonMode::Fill,
        cull_mode: CullMode::Back,
        front_face: FrontFace::Clockwise,
        depth_bias_enable: false,
        line_width: 1,
    }
}

/// One sample for each pixel, and no sample shading.
pub open spec fn single_sample() -> MultisampleState {
    MultisampleState { rasterization_samples: SampleCount::One, sample_shading_enable: false }
}

/// All four channels are written, and nothing is blended.
pub open spec fn opaque_write() -> ColorBlendAttachmentState {
    ColorBlendAttachmentState {
        blend_enable: false,
        color_write_mask: ColorComponents { r: true, g: true, b: true, a: true },
    }
}

/// A layout without descriptor sets and without push constants.
pub open spec fn empty_layout() -> PipelineLayoutCreateInfo {
    PipelineLayoutCreateInfo { set_layout_count: 0, push_constant_range_count: 0 }
}

/// `info` describes the pipeline that draws with the two given shader modules
/// over the whole of an image of the given extent: the vertex stage and then
/// the fragment stage, the fixed-function state above, one viewport, one
/// scissor rectangle and one color attachment, in the first subpass of the
/// render pass.
pub open spec fn is_triangle_pipeline(
    info: GraphicsPipelineCreateInfo,
    vert_shader_module: u64,
    frag_shader_module: u64,
    pipeline_layout: u64,
    render_pass: u64,
    swapchain_extent: Extent2D,
) -> bool {
    &&& info.stages@.len() == 2
    &&& is_stage(info.stages@[0], ShaderStage::Vertex, vert_shader_module)
    &&& is_stage(info.stages@[1], ShaderStage::Fragment, frag_shader_module)
    &&& info.vertex_input_state == no_vertex_input()
    &&& info.input_assembly_state == triangle_list()
    &&& info.viewport_state.viewports@ == seq![full_viewport(swapchain_extent)]
    &&& info.viewport_state.scissors@ == seq![full_scissor(swapchain_extent)]
    &&& info.rasterization_state == fill_rasterization()
    &&& info.multisample_state == single_sample()
    &&& !info.color_blend_state.logic_op_enable
    &&& info.color_blend_state.logic_op == LogicOp::Copy
    &&& info.color_blend_state.attachments@ == seq![opaque_write()]
    &&& info.layout == pipeline_layout
    &&& info.render_pass == render_pass
    &&& info.subpass == 0
}

/// Describes the shader module that holds the given compiled code.
pub fn shader_module_create_info(code: Vec<u8>) -> (r: ShaderModuleCreateInfo)
    ensures
        r.code_size == code@.len(),
        r.code@ == code@,
{
    ShaderModuleCreateInfo { code_size: code.len(), code }
}

/// Describes the pipeline layout: nothing is bound to the pipeline.
pub fn pipeline_layout_create_info() -> (r: PipelineLayoutCreateInfo)
    ensures
        r == empty_layout(),
{
    PipelineLayoutCreateInfo { set_layout_count: 0, push_constant_range_count: 0 }
}

/// Describes the graphics pipeline. The shader modules, the layout and the
/// render pass are named by their handles.
pub fn graphics_pipeline_create_info(
    vert_shader_module: u64,
    frag_shader_module: u64,
    pipeline_layout: u64,
    render_pass: u64,
    swapchain_extent: Extent2D,
) -> (r: GraphicsPipelineCreateInfo)
    ensures
        is_triangle_pipeline(
            r,
            vert_shader_module,
            frag_shader_module,
            pipeline_layout,
            render_pass,
            swapchain_extent,
        ),
{
    let mut shader_stages: Vec<ShaderStageCreateInfo> = Vec::new();
    shader_stages.push(
        ShaderStageCreateInfo {
            stage: ShaderStage::Vertex,
            module: vert_shader_module,
            name: String::from_str("main"),
        },
    );
    shader_stages.push(
        ShaderStageCreateInfo {
            stage: ShaderStage::Fragment,
            module: frag_shader_module,
            name: String::from_str("main"),
        },
    );

    let vertex_input_info = VertexInputState {
        vertex_binding_description_count: 0,
        vertex_attribute_description_count: 0,
    };

    let input_assembly = InputAssemblyState {
        topology: PrimitiveTopology::TriangleList,
        primitive_restart_enable: false,
    };

    let mut viewports: Vec<Viewport> = Vec::new();
    viewports.push(
        Viewport {
            x: 0,
            y: 0,
            width: swapchain_extent.width,
            height: swapchain_extent.height,
            min_depth: 0,
            max_depth: 1,
        },
    );
    let mut scissors: Vec<Rect2D> = Vec::new();
    scissors.push(Rect2D { x: 0, y: 0, extent: swapchain_extent });
    assert(viewports@ == seq![full_viewport(swapchain_extent)]);
    assert(scissors@ == seq![full_scissor(swapchain_extent)]);
    let viewport_state = ViewportState { viewports, scissors };

    let rasterizer = RasterizationState {
        depth_clamp_enable: false,
        rasterizer_discard_enable: false,
        polygon_mode: PolygonMode::Fill,
        cull_mode: CullMode::Back,
        front_face: FrontFace::Clockwise,
        depth_bias_enable: false,
        line_width: 1,
    };

    let multisampling = MultisampleState {
        rasterization_samples: SampleCount::One,
        sample_shading_enable: false,
    };

    let mut color_blend_attachments: Vec<ColorBlendAttachmentState> = Vec::new();
    color_blend_attachments.push(
        ColorBlendAttachmentState {
            blend_enable: false,
            color_write_mask: ColorComponents { r: true, g: true, b: true, a: true },
        },
    );
    assert(color_blend_attachments@ == seq![opaque_write()]);
    let color_blending = ColorBlendState {
        logic_op_enable: false,
        logic_op: LogicOp::Copy,
        attachments: color_blend_attachments,
    };

    GraphicsPipelineCreateInfo {
        stages: shader_stages,
        vertex_input_state: vertex_input_info,
        input_assembly_state: input_assembly,
        viewport_state,
        rasterization_state: rasterizer,
        multisample_state: multisampling,
        color_blend_state: color_blending,
        layout: pipeline_layout,
        render_pass,
        subpass: 0,
    }
}

} // verus!
