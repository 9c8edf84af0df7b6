//! What the library takes from the `ash` bindings and from `std` without
//! proof: the numbers and names that `ash` gives to the Vulkan values the
//! selection rules look for, and the decoding of UTF-8.
//!
//! Each function below only makes the call; its contract records what the
//! called code returns. The constants are the same numbers, for use in
//! contracts.

use vstd::prelude::*;
use vstd::utf8::{decode_utf8, valid_utf8};

use crate::device::DeviceType;
use crate::diagnostics::{MessageSeverity, MessageType};

verus! {

/// `VK_QUEUE_GRAPHICS_BIT`: the family takes graphics commands.
pub const QUEUE_GRAPHICS_BIT: u32 = 0x1;

/// `VK_FORMAT_R8G8B8A8_UNORM`.
pub const FORMAT_R8G8B8A8_UNORM: i32 = 37;

/// `VK_COLOR_SPACE_SRGB_NONLINEAR_KHR`.
pub const COLOR_SPACE_SRGB_NONLINEAR: i32 = 0;

/// `VK_PRESENT_MODE_MAILBOX_KHR`.
pub const PRESENT_MODE_MAILBOX: i32 = 1;

/// `VK_PRESENT_MODE_FIFO_KHR`.
pub const PRESENT_MODE_FIFO: i32 = 2;

/// `VK_DEBUG_UTILS_MESSAGE_SEVERITY_VERBOSE_BIT_EXT`.
pub const SEVERITY_VERBOSE: u32 = 0x1;

/// `VK_DEBUG_UTILS_MESSAGE_SEVERITY_INFO_BIT_EXT`.
pub const SEVERITY_INFO: u32 = 0x10;

/// `VK_DEBUG_UTILS_MESSAGE_SEVERITY_WARNING_BIT_EXT`.
pub const SEVERITY_WARNING: u32 = 0x100;

/// `VK_DEBUG_UTILS_MESSAGE_SEVERITY_ERROR_BIT_EXT`.
pub const SEVERITY_ERROR: u32 = 0x1000;

/// `VK_DEBUG_UTILS_MESSAGE_TYPE_GENERAL_BIT_EXT`.
pub const TYPE_GENERAL: u32 = 0x1;

/// `VK_DEBUG_UTILS_MESSAGE_TYPE_VALIDATION_BIT_EXT`.
pub const TYPE_VALIDATION: u32 = 0x2;

/// `VK_DEBUG_UTILS_MESSAGE_TYPE_PERFORMANCE_BIT_EXT`.
pub const TYPE_PERFORMANCE: u32 = 0x4;

/// `VK_PHYSICAL_DEVICE_TYPE_OTHER`.
pub const DEVICE_TYPE_OTHER: i32 = 0;

/// `VK_PHYSICAL_DEVICE_TYPE_INTEGRATED_GPU`.
pub const DEVICE_TYPE_INTEGRATED_GPU: i32 = 1;

/// `VK_PHYSICAL_DEVICE_TYPE_DISCRETE_GPU`.
pub const DEVICE_TYPE_DISCRETE_GPU: i32 = 2;

/// `VK_PHYSICAL_DEVICE_TYPE_VIRTUAL_GPU`.
pub const DEVICE_TYPE_VIRTUAL_GPU: i32 = 3;

/// `VK_PHYSICAL_DEVICE_TYPE_CPU`.
pub const DEVICE_TYPE_CPU: i32 = 4;

/// The severity that a raw severity value stands for: one of the four single
/// bits, and `Unknown` for every other value.
pub open spec fn severity_of(raw: u32) -> MessageSeverity {
    if raw == SEVERITY_VERBOSE {
        MessageSeverity::Verbose
    } else if raw == SEVERITY_WARNING {
        MessageSeverity::Warning
    } else if raw == SEVERITY_ERROR {
        MessageSeverity::Error
    } else if raw == SEVERITY_INFO {
        MessageSeverity::Info
    } else {
        MessageSeverity::Unknown
    }
}

/// The category that a raw message type stands for: one of the three single
/// bits, and `Unknown` for every other value.
pub open spec fn message_type_of(raw: u32) -> MessageType {
    if raw == TYPE_GENERAL {
        MessageType::General
    } else if raw == TYPE_PERFORMANCE {
        MessageType::Performance
    } else if raw == TYPE_VALIDATION {
        MessageType::Validation
    } else {
        MessageType::Unknown
    }
}

/// The kind of device that a raw device type stands for, and nothing for a
/// value that names none.
pub open spec fn device_type_of(raw: i32) -> Option<DeviceType> {
    if raw == DEVICE_TYPE_CPU {
        Some(DeviceType::Cpu)
    } else if raw == DEVICE_TYPE_INTEGRATED_GPU {
        Some(DeviceType::IntegratedGpu)
    } else if raw == DEVICE_TYPE_DISCRETE_GPU {
        Some(DeviceType::DiscreteGpu)
    } else if raw == DEVICE_TYPE_VIRTUAL_GPU {
        Some(DeviceType::VirtualGpu)
    } else if raw == DEVICE_TYPE_OTHER {
        Some(DeviceType::Other)
    } else {
        None
    }
}

/// `ash::vk::QueueFlags::contains`, asked of `queue_flags` for
/// `ash::vk::QueueFlags::GRAPHICS`: whether the graphics bit is set.
#[verifier::external_body]
pub(crate) fn queue_flags_contain_graphics(queue_flags: u32) -> (r: bool)
    ensures
        r == (queue_flags & QUEUE_GRAPHICS_BIT == QUEUE_GRAPHICS_BIT),
{
    ash::vk::QueueFlags::from_raw(queue_flags).contains(ash::vk::QueueFlags::GRAPHICS)
}

/// `ash::vk::Format::as_raw` of `ash::vk::Format::R8G8B8A8_UNORM`: the number
/// of that format.
#[verifier::external_body]
pub(crate) fn format_r8g8b8a8_unorm() -> (r: i32)
    ensures
        r == FORMAT_R8G8B8A8_UNORM,
{
    ash::vk::Format::R8G8B8A8_UNORM.as_raw()
}

/// `ash::vk::ColorSpaceKHR::as_raw` of `ash::vk::ColorSpaceKHR::SRGB_NONLINEAR`:
/// the number of that color space.
#[verifier::external_body]
pub(crate) fn color_space_srgb_nonlinear() -> (r: i32)
    ensures
        r == COLOR_SPACE_SRGB_NONLINEAR,
{
    ash::vk::ColorSpaceKHR::SRGB_NONLINEAR.as_raw()
}

/// `ash::vk::PresentModeKHR::as_raw` of `ash::vk::PresentModeKHR::MAILBOX`: the
/// number of the mailbox mode.
#[verifier::external_body]
pub(crate) fn present_mode_mailbox() -> (r: i32)
    ensures
        r == PRESENT_MODE_MAILBOX,
{
    ash::vk::PresentModeKHR::MAILBOX.as_raw()
}

/// `ash::vk::PresentModeKHR::as_raw` of `ash::vk::PresentModeKHR::FIFO`: the
/// number of the FIFO mode.
#[verifier::external_body]
pub(crate) fn present_mode_fifo() -> (r: i32)
    ensures
        r == PRESENT_MODE_FIFO,
{
    ash::vk::PresentModeKHR::FIFO.as_raw()
}

/// The constants `VERBOSE`, `WARNING`, `ERROR` and `INFO` of
/// `ash::vk::DebugUtilsMessageSeverityFlagsEXT`, told apart: which of them
/// `raw` equals, if any.
#[verifier::external_body]
pub(crate) fn message_severity(raw: u32) -> (r: MessageSeverity)
    ensures
        r == severity_of(raw),
{
    match ash::vk::DebugUtilsMessageSeverityFlagsEXT::from_raw(raw) {
        ash::vk::DebugUtilsMessageSeverityFlagsEXT::VERBOSE => MessageSeverity::Verbose,
        ash::vk::DebugUtilsMessageSeverityFlagsEXT::WARNING => MessageSeverity::Warning,
        ash::vk::DebugUtilsMessageSeverityFlagsEXT::ERROR => MessageSeverity::Error,
        ash::vk::DebugUtilsMessageSeverityFlagsEXT::INFO => MessageSeverity::Info,
        _ => MessageSeverity::Unknown,
    }
}

/// The constants `GENERAL`, `PERFORMANCE` and `VALIDATION` of
/// `ash::vk::DebugUtilsMessageTypeFlagsEXT`, told apart: which of them `raw`
/// equals, if any.
#[verifier::external_body]
pub(crate) fn message_type(raw: u32) -> (r: MessageType)
    ensures
        r == message_type_of(raw),
{
    match ash::vk::DebugUtilsMessageTypeFlagsEXT::from_raw(raw) {
        ash::vk::DebugUtilsMessageTypeFlagsEXT::GENERAL => MessageType::General,
        ash::vk::DebugUtilsMessageTypeFlagsEXT::PERFORMANCE => MessageType::Performance,
        ash::vk::DebugUtilsMessageTypeFlagsEXT::VALIDATION => MessageType::Validation,
        _ => MessageType::Unknown,
    }
}

/// The constants of `ash::vk::PhysicalDeviceType`, told apart: which of the
/// five `raw` equals, if any.
#[verifier::external_body]
pub(crate) fn device_type(raw: i32) -> (r: Option<DeviceType>)
    ensures
        r == device_type_of(raw),
{
    match ash::vk::PhysicalDeviceType::from_raw(raw) {
        ash::vk::PhysicalDeviceType::CPU => Some(DeviceType::Cpu),
        ash::vk::PhysicalDeviceType::INTEGRATED_GPU => Some(DeviceType::IntegratedGpu),
        ash::vk::PhysicalDeviceType::DISCRETE_GPU => Some(DeviceType::DiscreteGpu),
        ash::vk::PhysicalDeviceType::VIRTUAL_GPU => Some(DeviceType::VirtualGpu),
        ash::vk::PhysicalDeviceType::OTHER => Some(DeviceType::Other),
        _ => None,
    }
}

/// `ash::extensions::khr::Surface::name`: the name of the surface extension.
#[verifier::external_body]
pub(crate) fn surface_extension_name() -> (r: String)
    ensures
        r@ == "VK_KHR_surface"@,
{
    ash::extensions::khr::Surface::name().to_string_lossy().into_owned()
}

/// `ash::extensions::khr::XlibSurface::name`: the name of the Xlib surface
/// extension.
#[verifier::external_body]
pub(crate) fn xlib_surface_extension_name() -> (r: String)
    ensures
        r@ == "VK_KHR_xlib_surface"@,
{
    ash::extensions::khr::XlibSurface::name().to_string_lossy().into_owned()
}

/// `ash::extensions::ext::DebugUtils::name`: the name of the debug utilities
/// extension.
#[verifier::external_body]
pub(crate) fn debug_utils_extension_name() -> (r: String)
    ensures
        r@ == "VK_EXT_debug_utils"@,
{
    ash::extensions::ext::DebugUtils::name().to_string_lossy().into_owned()
}

/// `ash::extensions::khr::Swapchain::name`: the name of the swapchain
/// extension.
#[verifier::external_body]
pub(crate) fn swapchain_extension_name() -> (r: String)
    ensures
        r@ == "VK_KHR_swapchain"@,
{
    ash::extensions::khr::Swapchain::name().to_string_lossy().into_owned()
}

/// `String::from_utf8`: the text that `bytes` encode where they are valid
/// UTF-8, and nothing where they are not.
#[verifier::external_body]
pub(crate) fn string_from_utf8(bytes: Vec<u8>) -> (r: Option<String>)
    ensures
        r.is_some() == valid_utf8(bytes@),
        r matches Some(text) ==> text@ == decode_utf8(bytes@),
{
    String::from_utf8(bytes).ok()
}

} // verus!
