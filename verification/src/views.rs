//! Image views on the swapchain images, and the framebuffers built on those
//! views.

use vstd::prelude::*;

use crate::swapchain::Extent2D;

verus! {

/// The shape of an image as a view shows it.
#[derive(Clone, Copy, Debug, PartialEq, Eq)]
pub enum ImageViewType {
    Type1D,
    Type2D,
    Type3D,
    Cube,
}

/// Where a view takes one channel from.
#[derive(Clone, Copy, Debug, PartialEq, Eq)]
pub enum ComponentSwizzle {
    Identity,
    Zero,
    One,
    R,
    G,
    B,
    A,
}

/// Where a view takes each of its four channels from.
#[derive(Clone, Copy, Debug, PartialEq, Eq)]
pub struct ComponentMapping {
    pub r: ComponentSwizzle,
    pub g: ComponentSwizzle,
    pub b: ComponentSwizzle,
    pub a: ComponentSwizzle,
}

/// The aspects of an image that a view shows.
#[derive(Clone, Copy, Debug, PartialEq, Eq)]
pub struct ImageAspects {
    pub color: bool,
    pub depth: bool,
    pub stencil: bool,
}

/// The mip levels and array layers of an image that a view shows.
#[derive(Clone, Copy, Debug, PartialEq, Eq)]
pub struct ImageSubresourceRange {
    pub aspect_mask: ImageAspects,
    pub base_mip_level: u32,
    pub level_count: u32,
    pub base_array_layer: u32,
    pub layer_count: u32,
}

/// What an image view is created with.
#[derive(Clone, Copy, Debug, PartialEq, Eq)]
pub struct ImageViewCreateInfo {
    /// Handle of the image.
    pub image: u64,
    pub view_type: ImageViewType,
    /// Raw format.
    pub format: i32,
    pub components: ComponentMapping,
    pub subresource_range: ImageSubresourceRange,
}

/// What a framebuffer is created with.
#[derive(Clone, Debug, PartialEq, Eq)]
pub struct FramebufferCreateInfo {
    /// Handle of the render pass.
    pub render_pass: u64,
    /// Handles of the image views, one for each attachment of the render pass.
    pub attachments: Vec<u64>,
    pub width: u32,
    pub height: u32,
    pub layers: u32,
}

/// The view on one swapchain image: two-dimensional, in the image's own
/// format, every channel taken from itself, showing the color of the one mip
/// level and the one layer there is.
pub open spec fn color_view(format: i32, image: u64) -> ImageViewCreateInfo {
    ImageViewCreateInfo {
        image,
        view_type: ImageViewType::Type2D,
        format,
        components: ComponentMapping {
            r: ComponentSwizzle::Identity,
            g: ComponentSwizzle::Identity,
            b: ComponentSwizzle::Identity,
            a: ComponentSwizzle::Identity,
        },
        subresource_range: ImageSubresourceRange {
            aspect_mask: ImageAspects { color: true, depth: false, stencil: false },
            base_mip_level: 0,
            level_count: 1,
            base_array_layer: 0,
            layer_count: 1,
        },
    }
}

/// `info` describes the framebuffer on `image_view`: that view as the only
/// attachment of `render_pass`, as large as `extent`, one layer deep.
pub open spec fn is_framebuffer_on(
    info: FramebufferCreateInfo,
    render_pass: u64,
    image_view: u64,
    extent: Extent2D,
) -> bool {
    &&& info.render_pass == render_pass
    &&& info.attachments@ == seq![image_view]
    &&& info.width == extent.width
    &&& info.height == extent.height
    &&& info.layers == 1
}

/// Describes the view to create on one swapchain image.
pub fn image_view_create_info(surface_format: i32, image: u64) -> (r: ImageViewCreateInfo)
    ensures
        r == color_view(surface_format, image),
{
    ImageViewCreateInfo {
        image,
        view_type: ImageViewType::Type2D,
        format: surface_format,
        components: ComponentMapping {
            r: ComponentSwizzle::Identity,
            g: ComponentSwizzle::Identity,
            b: ComponentSwizzle::Identity,
            a: ComponentSwizzle::Identity,
        },
        subresource_range: ImageSubresourceRange {
            aspect_mask: ImageAspects { color: true, depth: false, stencil: false },
            base_mip_level: 0,
            level_count: 1,
            base_array_layer: 0,
            layer_count: 1,
        },
    }
}

/// Describes the views to create on the swapchain images: one for each image,
/// in the order of the images.
pub fn image_view_create_infos(surface_format: i32, images: &Vec<u64>) -> (r: Vec<
    ImageViewCreateInfo,
>)
    ensures
        r@.len() == images@.len(),
        forall|i: int|
            0 <= i < images@.len() ==> #[trigger] r@[i] == color_view(surface_format, images@[i]),
{
    let mut swapchain_imageviews: Vec<ImageViewCreateInfo> = Vec::new();
    let mut i: usize = 0;
    while i < images.len()
        invariant
            i <= images.len(),
            swapchain_imageviews@.len() == i,
            forall|k: int|
                0 <= k < i ==> #[trigger] swapchain_imageviews@[k] == color_view(
                    surface_format,
                    images@[k],
                ),
        decreases images.len() - i,
    {
        swapchain_imageviews.push(image_view_create_info(surface_format, images[i]));
        i += 1;
    }
    swapchain_imageviews
}

/// Describes the framebuffer to create on one image view.
pub fn framebuffer_create_info(
    render_pass: u64,
    image_view: u64,
    swapchain_extent: &Extent2D,
) -> (r: FramebufferCreateInfo)
    ensures
        is_framebuffer_on(r, render_pass, image_view, *swapchain_extent),
{
    let mut attachments: Vec<u64> = Vec::new();
    attachments.push(image_view);
    assert(attachments@ == seq![image_view]);
    FramebufferCreateInfo {
        render_pass,
        attachments,
        width: swapchain_extent.width,
        height: swapchain_extent.height,
        layers: 1,
    }
}

/// Describes the framebuffers to create: one on each image view, in the
/// order of the views, all bound to the same render pass and as large as the
/// swapchain images.
pub fn framebuffer_create_infos(
    render_pass: u64,
    image_views: &Vec<u64>,
    swapchain_extent: &Extent2D,
) -> (r: Vec<FramebufferCreateInfo>)
    ensures
        r@.len() == image_views@.len(),
        forall|i: int|
            0 <= i < image_views@.len() ==> is_framebuffer_on(
                #[trigger] r@[i],
                render_pass,
                image_views@[i],
                *swapchain_extent,
            ),
{
    let mut framebuffers: Vec<FramebufferCreateInfo> = Vec::new();
    let mut i: usize = 0;
    while i < image_views.len()
        invariant
            i <= image_views.len(),
            framebuffers@.len() == i,
            forall|k: int|
                0 <= k < i ==> is_framebuffer_on(
                    #[trigger] framebuffers@[k],
                    render_pass,
                    image_views@[k],
                    *swapchain_extent,
                ),
        decreases image_views.len() - i,
    {
        framebuffers.push(framebuffer_create_info(render_pass, image_views[i], swapchain_extent));
        i += 1;
    }
    framebuffers
}

} // verus!
