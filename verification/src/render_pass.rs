//! The render pass: one color attachment in the swapchain's format, drawn to
//! by one subpass.

use vstd::prelude::*;

verus! {

/// How many samples an image holds for each pixel.
#[derive(Clone, Copy, Debug, PartialEq, Eq)]
pub enum SampleCount {
    One,
    Two,
    Four,
    Eight,
    Sixteen,
    ThirtyTwo,
    SixtyFour,
}

/// What happens to an attachment's contents when the render pass begins.
#[derive(Clone, Copy, Debug, PartialEq, Eq)]
pub enum AttachmentLoadOp {
    Load,
    Clear,
    DontCare,
}

/// What happens to an attachment's contents when the render pass ends.
#[derive(Clone, Copy, Debug, PartialEq, Eq)]
pub enum AttachmentStoreOp {
    Store,
    DontCare,
}

/// The layout of an image in memory.
#[derive(Clone, Copy, Debug, PartialEq, Eq)]
pub enum ImageLayout {
    Undefined,
    General,
    ColorAttachmentOptimal,
    PresentSrc,
}

/// The kind of pipeline that a subpass runs.
#[derive(Clone, Copy, Debug, PartialEq, Eq)]
pub enum PipelineBindPoint {
    Graphics,
    Compute,
}

/// One attachment of a render pass.
#[derive(Clone, Copy, Debug, PartialEq, Eq)]
pub struct AttachmentDescription {
    /// Raw format.
    pub format: i32,
    pub samples: SampleCount,
    pub load_op: AttachmentLoadOp,
    pub store_op: AttachmentStoreOp,
    pub stencil_load_op: AttachmentLoadOp,
    pub stencil_store_op: AttachmentStoreOp,
    pub initial_layout: ImageLayout,
    pub final_layout: ImageLayout,
}

/// A subpass's use of one attachment of its render pass.
#[derive(Clone, Copy, Debug, PartialEq, Eq)]
pub struct AttachmentReference {
    /// Index into the render pass's attachments.
    pub attachment: u32,
    pub layout: ImageLayout,
}

/// One subpass of a render pass.
#[derive(Clone, Debug, PartialEq, Eq)]
pub struct SubpassDescription {
    pub pipeline_bind_point: PipelineBindPoint,
    pub color_attachments: Vec<AttachmentReference>,
}

/// What a render pass is created with.
#[derive(Clone, Debug, PartialEq, Eq)]
pub struct RenderPassCreateInfo {
    pub attachments: Vec<AttachmentDescription>,
    pub subpasses: Vec<SubpassDescription>,
}

/// The color attachment: one sample per pixel, cleared when the pass begins
/// and stored when it ends, no stencil, coming in any layout and leaving
/// ready to be presented.
pub open spec fn color_attachment(format: i32) -> AttachmentDescription {
    AttachmentDescription {
        format,
        samples: SampleCount::One,
        load_op: AttachmentLoadOp::Clear,
        store_op: AttachmentStoreOp::Store,
        stencil_load_op: AttachmentLoadOp::DontCare,
        stencil_store_op: AttachmentStoreOp::DontCare,
        initial_layout: ImageLayout::Undefined,
        final_layout: ImageLayout::PresentSrc,
    }
}

/// The subpass's reference to the color attachment: the first attachment,
/// laid out for being drawn to.
pub open spec fn color_attachment_reference() -> AttachmentReference {
    AttachmentReference { attachment: 0, layout: ImageLayout::ColorAttachmentOptimal }
}

/// `info` describes the render pass for images of `format`: the color
/// attachment alone, and one graphics subpass that draws to it alone.
pub open spec fn is_render_pass_for(info: RenderPassCreateInfo, format: i32) -> bool {
    &&& info.attachments@ == seq![color_attachment(format)]
    &&& info.subpasses@.len() == 1
    &&& info.subpasses@[0].pipeline_bind_point == PipelineBindPoint::Graphics
    &&& info.subpasses@[0].color_attachments@ == seq![color_attachment_reference()]
}

/// Describes the render pass for swapchain images of the given format.
pub fn render_pass_create_info(swapchain_image_format: i32) -> (r: RenderPassCreateInfo)
    ensures
        is_render_pass_for(r, swapchain_image_format),
{
    let mut attachments: Vec<AttachmentDescription> = Vec::new();
    attachments.push(
        AttachmentDescription {
            format: swapchain_image_format,
            samples: SampleCount::One,
            load_op: AttachmentLoadOp::Clear,
            store_op: AttachmentStoreOp::Store,
            stencil_load_op: AttachmentLoadOp::DontCare,
            stencil_store_op: AttachmentStoreOp::DontCare,
            initial_layout: ImageLayout::Undefined,
            final_layout: ImageLayout::PresentSrc,
        },
    );
    let mut color_attachment_refs: Vec<AttachmentReference> = Vec::new();
    color_attachment_refs.push(
        AttachmentReference { attachment: 0, layout: ImageLayout::ColorAttachmentOptimal },
    );
    let mut subpasses: Vec<SubpassDescription> = Vec::new();
    subpasses.push(
        SubpassDescription {
            pipeline_bind_point: PipelineBindPoint::Graphics,
            color_attachments: color_attachment_refs,
        },
    );
    assert(attachments@ == seq![color_attachment(swapchain_image_format)]);
    assert(subpasses@[0].color_attachments@ == seq![color_attachment_reference()]);
    RenderPassCreateInfo { attachments, subpasses }
}

} // verus!
