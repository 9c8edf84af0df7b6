//! Negotiating the swapchain: surface format, present mode, extent, image
//! count and sharing mode, and the create-info they add up to.

use vstd::prelude::*;

use crate::error::BootstrapError;
use crate::queue::QueueFamilyIndices;
use crate::vk;

verus! {

/// Width asked for where the surface leaves the extent open.
pub const WIDTH: u32 = 800;

/// Height asked for where the surface leaves the extent open.
pub const HEIGHT: u32 = 600;

/// Width by which a surface says that its extent is not fixed.
pub const UNDEFINED_EXTENT: u32 = 0xFFFF_FFFF;

/// A size in pixels.
#[derive(Clone, Copy, Debug, PartialEq, Eq)]
pub struct Extent2D {
    pub width: u32,
    pub height: u32,
}

/// A pixel format with the color space it is shown in, both as the raw
/// numbers of the API.
#[derive(Clone, Copy, Debug, PartialEq, Eq)]
pub struct SurfaceFormat {
    pub format: i32,
    pub color_space: i32,
}

/// What a surface can do on a given device, as far as the negotiation reads it.
#[derive(Clone, Copy, Debug, PartialEq, Eq)]
pub struct SurfaceCapabilities {
    pub min_image_count: u32,
    /// Zero where the surface sets no upper bound.
    pub max_image_count: u32,
    pub current_extent: Extent2D,
    pub min_image_extent: Extent2D,
    pub max_image_extent: Extent2D,
    /// The raw transform bit the surface currently has.
    pub current_transform: u32,
}

/// Everything a device reports of its support for a surface.
#[derive(Clone, Debug, PartialEq, Eq)]
pub struct SwapChainSupportDetails {
    pub capabilities: SurfaceCapabilities,
    pub formats: Vec<SurfaceFormat>,
    /// Raw present modes.
    pub present_modes: Vec<i32>,
}

/// Whether the swapchain images belong to one queue family or are shared.
#[derive(Clone, Copy, Debug, PartialEq, Eq)]
pub enum SharingMode {
    Exclusive,
    Concurrent,
}

/// What the swapchain images are used for.
#[derive(Clone, Copy, Debug, PartialEq, Eq)]
pub struct ImageUsage {
    pub transfer_src: bool,
    pub transfer_dst: bool,
    pub sampled: bool,
    pub storage: bool,
    pub color_attachment: bool,
}

/// How the alpha channel is treated when the image is composited.
#[derive(Clone, Copy, Debug, PartialEq, Eq)]
pub enum CompositeAlpha {
    Opaque,
    PreMultiplied,
    PostMultiplied,
    Inherit,
}

/// What the swapchain is created with.
#[derive(Clone, Debug, PartialEq, Eq)]
pub struct SwapchainCreateInfo {
    pub min_image_count: u32,
    pub image_format: i32,
    pub image_color_space: i32,
    pub image_extent: Extent2D,
    pub image_array_layers: u32,
    pub image_usage: ImageUsage,
    pub image_sharing_mode: SharingMode,
    /// The families that share the images; empty under exclusive sharing.
    pub queue_family_indices: Vec<u32>,
    pub pre_transform: u32,
    pub composite_alpha: CompositeAlpha,
    pub present_mode: i32,
    pub clipped: bool,
    /// The swapchain that this one replaces; zero for none.
    pub old_swapchain: u64,
}

/// The format and color space that are taken wherever they are offered.
pub open spec fn preferred_format() -> SurfaceFormat {
    SurfaceFormat {
        format: vk::FORMAT_R8G8B8A8_UNORM,
        color_space: vk::COLOR_SPACE_SRGB_NONLINEAR,
    }
}

/// The format selected from the reported ones: the preferred pair where it is
/// among them, else the first one reported.
pub open spec fn chosen_format(formats: Seq<SurfaceFormat>) -> SurfaceFormat {
    if formats.contains(preferred_format()) {
        preferred_format()
    } else {
        formats[0]
    }
}

/// The present mode selected from the reported ones: mailbox where it is
/// among them, else FIFO.
pub open spec fn chosen_present_mode(present_modes: Seq<i32>) -> i32 {
    if present_modes.contains(vk::PRESENT_MODE_MAILBOX) {
        vk::PRESENT_MODE_MAILBOX
    } else {
        vk::PRESENT_MODE_FIFO
    }
}

/// `requested` raised to `min` and then lowered to `max`.
pub open spec fn clamped(requested: u32, min: u32, max: u32) -> u32 {
    let raised = if min > requested {
        min
    } else {
        requested
    };
    if raised > max {
        max
    } else {
        raised
    }
}

/// The extent selected: the surface's own where it has one, else the
/// requested size clamped into the surface's bounds, each axis by itself.
pub open spec fn chosen_extent(capabilities: SurfaceCapabilities) -> Extent2D {
    if capabilities.current_extent.width != UNDEFINED_EXTENT {
        capabilities.current_extent
    } else {
        Extent2D {
            width: clamped(
                WIDTH,
                capabilities.min_image_extent.width,
                capabilities.max_image_extent.width,
            ),
            height: clamped(
                HEIGHT,
                capabilities.min_image_extent.height,
                capabilities.max_image_extent.height,
            ),
        }
    }
}

/// The number of images asked for: one more than the minimum, lowered to the
/// maximum where the surface sets one.
pub open spec fn chosen_image_count(capabilities: SurfaceCapabilities) -> int {
    let wanted = capabilities.min_image_count + 1;
    if capabilities.max_image_count > 0 && wanted > capabilities.max_image_count {
        capabilities.max_image_count as int
    } else {
        wanted
    }
}

/// The sharing mode selected: concurrent where graphics and presentation use
/// different families, else exclusive.
pub open spec fn chosen_sharing_mode(indices: QueueFamilyIndices) -> SharingMode {
    if indices.graphics_family != indices.present_family {
        SharingMode::Concurrent
    } else {
        SharingMode::Exclusive
    }
}

/// The families named in the create-info: the graphics and the present
/// family under concurrent sharing, none under exclusive sharing.
pub open spec fn sharing_families(indices: QueueFamilyIndices) -> Seq<u32> {
    if indices.graphics_family != indices.present_family {
        seq![indices.graphics_family.unwrap(), indices.present_family.unwrap()]
    } else {
        Seq::empty()
    }
}

/// The images are rendered into as color attachments, and used for nothing
/// else.
pub open spec fn color_attachment_only() -> ImageUsage {
    ImageUsage {
        transfer_src: false,
        transfer_dst: false,
        sampled: false,
        storage: false,
        color_attachment: true,
    }
}

/// Selects the surface format: the 8-bit RGBA format in the non-linear sRGB
/// color space where the surface offers it, else the first format offered.
pub fn choose_swapchain_format(available_formats: &Vec<SurfaceFormat>) -> (r: SurfaceFormat)
    requires
        available_formats.len() > 0,
    ensures
        r == chosen_format(available_formats@),
{
    let format: i32 = vk::format_r8g8b8a8_unorm();
    let color_space: i32 = vk::color_space_srgb_nonlinear();
    let mut i: usize = 0;
    while i < available_formats.len()
        invariant
            i <= available_formats.len(),
            format == vk::FORMAT_R8G8B8A8_UNORM,
            color_space == vk::COLOR_SPACE_SRGB_NONLINEAR,
            forall|k: int| 0 <= k < i ==> available_formats@[k] != preferred_format(),
        decreases available_formats.len() - i,
    {
        let available_format = available_formats[i];
        if available_format.format == format && available_format.color_space == color_space {
            assert(available_formats@[i as int] == preferred_format());
            return available_format;
        }
        i += 1;
    }
    available_formats[0]
}

/// Selects the present mode: mailbox where the surface offers it, else FIFO,
/// which every surface has.
pub fn choose_swapchain_present_mode(available_present_modes: &Vec<i32>) -> (r: i32)
    ensures
        r == chosen_present_mode(available_present_modes@),
{
    let mailbox: i32 = vk::present_mode_mailbox();
    let mut i: usize = 0;
    while i < available_present_modes.len()
        invariant
            i <= available_present_modes.len(),
            mailbox == vk::PRESENT_MODE_MAILBOX,
            forall|k: int| 0 <= k < i ==> available_present_modes@[k] != vk::PRESENT_MODE_MAILBOX,
        decreases available_present_modes.len() - i,
    {
        let available_present_mode: i32 = available_present_modes[i];
        if available_present_mode == mailbox {
            assert(available_present_modes@[i as int] == vk::PRESENT_MODE_MAILBOX);
            return available_present_mode;
        }
        i += 1;
    }
    vk::present_mode_fifo()
}

/// Raises `requested` to `min`, then lowers it to `max`.
pub fn clamp(requested: u32, min: u32, max: u32) -> (r: u32)
    ensures
        r == clamped(requested, min, max),
{
    min.max(requested).min(max)
}

/// Selects the extent of the swapchain images: the surface's current extent
/// where it is defined, else `WIDTH` by `HEIGHT` clamped into the bounds the
/// surface gives.
pub fn choose_swap_extent(capabilities: &SurfaceCapabilities) -> (r: Extent2D)
    ensures
        r == chosen_extent(*capabilities),
{
    if capabilities.current_extent.width != UNDEFINED_EXTENT {
        capabilities.current_extent
    } else {
        Extent2D {
            width: clamp(
                WIDTH,
                capabilities.min_image_extent.width,
                capabilities.max_image_extent.width,
            ),
            height: clamp(
                HEIGHT,
                capabilities.min_image_extent.height,
                capabilities.max_image_extent.height,
            ),
        }
    }
}

/// The number of images to ask for: one more than the surface's minimum, so
/// that rendering need not wait for the driver, but no more than its maximum
/// where it has one.
pub fn choose_image_count(capabilities: &SurfaceCapabilities) -> (r: u32)
    requires
        chosen_image_count(*capabilities) <= u32::MAX,
    ensures
        r == chosen_image_count(*capabilities),
{
    if capabilities.max_image_count > 0 && capabilities.min_image_count
        >= capabilities.max_image_count {
        capabilities.max_image_count
    } else {
        capabilities.min_image_count + 1
    }
}

/// Selects how the images are shared between queue families: concurrently
/// where graphics and presentation use different families, else exclusively.
pub fn choose_sharing_mode(indices: &QueueFamilyIndices) -> (r: SharingMode)
    ensures
        r == chosen_sharing_mode(*indices),
{
    let same = match (indices.graphics_family, indices.present_family) {
        (Some(graphics), Some(present)) => graphics == present,
        (None, None) => true,
        _ => false,
    };
    if same {
        SharingMode::Exclusive
    } else {
        SharingMode::Concurrent
    }
}

/// The inputs from which a swapchain can be described: a format is on offer,
/// the image count fits the machine, and both families are known wherever
/// they are not the same.
pub open spec fn can_describe_swapchain(
    support: SwapChainSupportDetails,
    indices: QueueFamilyIndices,
) -> bool {
    &&& support.formats@.len() > 0
    &&& chosen_image_count(support.capabilities) <= u32::MAX
    &&& (indices.graphics_family == indices.present_family || indices.complete())
}

/// Describes the swapchain to create for a surface, from what the device
/// reports of its support for that surface and from the queue families in
/// use. The images have one layer, are color attachments, keep the surface's
/// current transform, ignore alpha when composited, and may leave hidden
/// pixels out; no earlier swapchain is replaced. Fails where the surface
/// offers no format, where the image count leaves the machine's range, or
/// where the families differ and one of them is not known.
pub fn swapchain_create_info(
    support: &SwapChainSupportDetails,
    indices: &QueueFamilyIndices,
) -> (r: Result<SwapchainCreateInfo, BootstrapError>)
    ensures
        r.is_ok() == can_describe_swapchain(*support, *indices),
        r matches Err(error) ==> error == BootstrapError::SwapchainCreationFailed,
        r matches Ok(info) ==> {
            &&& info.min_image_count == chosen_image_count(support.capabilities)
            &&& info.image_format == chosen_format(support.formats@).format
            &&& info.image_color_space == chosen_format(support.formats@).color_space
            &&& info.image_extent == chosen_extent(support.capabilities)
            &&& info.image_array_layers == 1
            &&& info.image_usage == color_attachment_only()
            &&& info.image_sharing_mode == chosen_sharing_mode(*indices)
            &&& info.queue_family_indices@ == sharing_families(*indices)
            &&& info.pre_transform == support.capabilities.current_transform
            &&& info.composite_alpha == CompositeAlpha::Opaque
            &&& info.present_mode == chosen_present_mode(support.present_modes@)
            &&& info.clipped
            &&& info.old_swapchain == 0
        },
{
    let image_sharing_mode = choose_sharing_mode(indices);
    let families_known = match image_sharing_mode {
        SharingMode::Concurrent => indices.is_complete(),
        SharingMode::Exclusive => true,
    };
    let count_fits = support.capabilities.max_image_count > 0
        || support.capabilities.min_image_count < u32::MAX;
    if support.formats.len() == 0 || !count_fits || !families_known {
        return Err(BootstrapError::SwapchainCreationFailed);
    }
    let surface_format = choose_swapchain_format(&support.formats);
    let present_mode: i32 = choose_swapchain_present_mode(&support.present_modes);
    let extent = choose_swap_extent(&support.capabilities);
    let image_count: u32 = choose_image_count(&support.capabilities);
    let mut queue_family_indices: Vec<u32> = Vec::new();
    match image_sharing_mode {
        SharingMode::Concurrent => {
            queue_family_indices.push(indices.graphics_family.unwrap());
            queue_family_indices.push(indices.present_family.unwrap());
        },
        SharingMode::Exclusive => {},
    }
    assert(queue_family_indices@ == sharing_families(*indices));
    Ok(
        SwapchainCreateInfo {
            min_image_count: image_count,
            image_format: surface_format.format,
            image_color_space: surface_format.color_space,
            image_extent: extent,
            image_array_layers: 1,
            image_usage: ImageUsage {
                transfer_src: false,
                transfer_dst: false,
                sampled: false,
                storage: false,
                color_attachment: true,
            },
            image_sharing_mode,
            queue_family_indices,
            pre_transform: support.capabilities.current_transform,
            composite_alpha: CompositeAlpha::Opaque,
            present_mode,
            clipped: true,
            old_swapchain: 0,
        },
    )
}

/// A surface that offers the preferred format gets it, wherever in the list
/// it stands; any other surface gets the first format it offers, however
/// short the list is.
pub proof fn lemma_format_selection(formats: Seq<SurfaceFormat>)
    requires
        formats.len() > 0,
    ensures
        formats.contains(preferred_format()) ==> chosen_format(formats) == preferred_format(),
        !formats.contains(preferred_format()) ==> chosen_format(formats) == formats[0],
        formats.contains(chosen_format(formats)),
{
    assert(formats.contains(formats[0]));
}

/// A surface that offers mailbox gets it; any other surface gets FIFO, even
/// one that offers no mode at all.
pub proof fn lemma_present_mode_selection(present_modes: Seq<i32>)
    ensures
        present_modes.contains(vk::PRESENT_MODE_MAILBOX) ==> chosen_present_mode(present_modes)
            == vk::PRESENT_MODE_MAILBOX,
        !present_modes.contains(vk::PRESENT_MODE_MAILBOX) ==> chosen_present_mode(present_modes)
            == vk::PRESENT_MODE_FIFO,
        chosen_present_mode(Seq::<i32>::empty()) == vk::PRESENT_MODE_FIFO,
{
}

/// A clamped value lies within the bounds where the bounds are in order, and
/// is the requested value itself where that lies within them.
pub proof fn lemma_clamped_within_bounds(requested: u32, min: u32, max: u32)
    requires
        min <= max,
    ensures
        min <= clamped(requested, min, max) <= max,
        min <= requested <= max ==> clamped(requested, min, max) == requested,
{
}

/// A surface that has an extent of its own keeps it, whatever its bounds
/// are; for any other surface each axis is clamped by itself.
pub proof fn lemma_extent_selection(capabilities: SurfaceCapabilities)
    ensures
        capabilities.current_extent.width != UNDEFINED_EXTENT ==> chosen_extent(capabilities)
            == capabilities.current_extent,
        capabilities.current_extent.width == UNDEFINED_EXTENT ==> {
            &&& chosen_extent(capabilities).width == clamped(
                WIDTH,
                capabilities.min_image_extent.width,
                capabilities.max_image_extent.width,
            )
            &&& chosen_extent(capabilities).height == clamped(
                HEIGHT,
                capabilities.min_image_extent.height,
                capabilities.max_image_extent.height,
            )
        },
{
}

/// The image count is one more than the minimum unless the maximum forbids
/// it, and never more than a maximum that is set.
pub proof fn lemma_image_count_bounds(capabilities: SurfaceCapabilities)
    ensures
        capabilities.max_image_count == 0 ==> chosen_image_count(capabilities)
            == capabilities.min_image_count + 1,
        capabilities.max_image_count > 0 ==> chosen_image_count(capabilities)
            <= capabilities.max_image_count,
        capabilities.max_image_count > capabilities.min_image_count ==> chosen_image_count(
            capabilities,
        ) == capabilities.min_image_count + 1,
        chosen_image_count(capabilities) <= capabilities.min_image_count + 1,
{
}

/// Sharing is exclusive exactly where one family does both graphics and
/// presentation, and then no family is named; else exactly the two families
/// are named.
pub proof fn lemma_sharing_selection(indices: QueueFamilyIndices)
    requires
        indices.complete(),
    ensures
        (chosen_sharing_mode(indices) == SharingMode::Exclusive) == (indices.graphics_family
            == indices.present_family),
        chosen_sharing_mode(indices) == SharingMode::Exclusive ==> sharing_families(indices).len()
            == 0,
        chosen_sharing_mode(indices) == SharingMode::Concurrent ==> sharing_families(indices)
            == seq![indices.graphics_family.unwrap(), indices.present_family.unwrap()],
{
}

} // verus!
