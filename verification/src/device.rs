//! Choosing the physical device, and describing the logical device made on
//! it.

use vstd::prelude::*;
use vstd::string::StringExecFns;

use crate::error::BootstrapError;
use crate::instance::{enabled_validation_layer_names, validation_layers};
use crate::names::{contains_all_names, lists_all, names_of};
use crate::queue::{
    find_queue_family,
    has_capable,
    is_first_capable,
    lemma_complete_iff_capable,
    unique_families,
    unique_queue_families,
    QueueFamily,
    QueueFamilyIndices,
    QueueRole,
};
use crate::swapchain::{can_describe_swapchain, chosen_image_count, SwapChainSupportDetails};
use crate::vk;

verus! {

/// The kind of a physical device.
#[derive(Clone, Copy, Debug, PartialEq, Eq)]
pub enum DeviceType {
    Other,
    IntegratedGpu,
    DiscreteGpu,
    VirtualGpu,
    Cpu,
}

/// What the driver reports of one physical device and of its support for the
/// surface at hand.
#[derive(Clone, Debug, PartialEq, Eq)]
pub struct PhysicalDevice {
    pub queue_families: Vec<QueueFamily>,
    /// Names of the device extensions on offer.
    pub extension_names: Vec<String>,
    pub swapchain_support: SwapChainSupportDetails,
}

/// The queues that one family is asked for. A priority is a whole number;
/// the driver takes it as floating point.
#[derive(Clone, Debug, PartialEq, Eq)]
pub struct DeviceQueueCreateInfo {
    pub queue_family_index: u32,
    /// One priority for each queue asked for.
    pub queue_priorities: Vec<u32>,
}

/// Optional abilities of a device that a logical device can switch on. One
/// that is not named here is never switched on.
#[derive(Clone, Copy, Debug, PartialEq, Eq)]
pub struct DeviceFeatures {
    pub geometry_shader: bool,
    pub tessellation_shader: bool,
    pub sampler_anisotropy: bool,
    pub fill_mode_non_solid: bool,
    pub wide_lines: bool,
}

/// What the logical device is created with.
#[derive(Clone, Debug, PartialEq, Eq)]
pub struct DeviceCreateInfo {
    pub queue_create_infos: Vec<DeviceQueueCreateInfo>,
    pub enabled_layer_names: Vec<String>,
    pub enabled_extension_names: Vec<String>,
    pub enabled_features: DeviceFeatures,
}

/// Where a queue of the logical device is found.
#[derive(Clone, Copy, Debug, PartialEq, Eq)]
pub struct QueueLocation {
    pub queue_family_index: u32,
    pub queue_index: u32,
}

/// The device extensions that a device must offer.
pub open spec fn device_extensions() -> Seq<Seq<char>> {
    seq!["VK_KHR_swapchain"@]
}

/// What a kind of device is called when the devices are listed.
pub open spec fn device_type_name_of(device_type: DeviceType) -> Seq<char> {
    match device_type {
        DeviceType::Cpu => "Cpu"@,
        DeviceType::IntegratedGpu => "Integrated GPU"@,
        DeviceType::DiscreteGpu => "Discrete GPU"@,
        DeviceType::VirtualGpu => "Virtual GPU"@,
        DeviceType::Other => "Unknown"@,
    }
}

/// The surface can be presented to: the device reports a format and a
/// present mode for it.
pub open spec fn swapchain_adequate(support: SwapChainSupportDetails) -> bool {
    support.formats@.len() > 0 && support.present_modes@.len() > 0
}

/// A device is suitable where both queue families are known, every required
/// extension is on offer, and the surface can be presented to.
pub open spec fn suitable(
    indices: QueueFamilyIndices,
    extension_names: Seq<Seq<char>>,
    support: SwapChainSupportDetails,
) -> bool {
    &&& indices.complete()
    &&& lists_all(extension_names, device_extensions())
    &&& swapchain_adequate(support)
}

/// The device can be used: it has a family for graphics and one for
/// presentation, offers every required extension, and can present to the
/// surface.
pub open spec fn usable(device: PhysicalDevice) -> bool {
    &&& has_capable(device.queue_families@, QueueRole::Graphics)
    &&& has_capable(device.queue_families@, QueueRole::Present)
    &&& lists_all(names_of(device.extension_names@), device_extensions())
    &&& swapchain_adequate(device.swapchain_support)
}

/// `chosen` is the place of the first of `devices` that can be used.
pub open spec fn is_first_usable(devices: Seq<PhysicalDevice>, chosen: int) -> bool {
    &&& 0 <= chosen < devices.len()
    &&& usable(devices[chosen])
    &&& forall|j: int| 0 <= j < chosen ==> !usable(#[trigger] devices[j])
}

/// No optional ability is switched on.
pub open spec fn no_features() -> DeviceFeatures {
    DeviceFeatures {
        geometry_shader: false,
        tessellation_shader: false,
        sampler_anisotropy: false,
        fill_mode_non_solid: false,
        wide_lines: false,
    }
}

/// `info` asks `family` for one queue, at priority one.
pub open spec fn is_single_queue(info: DeviceQueueCreateInfo, family: u32) -> bool {
    info.queue_family_index == family && info.queue_priorities@ == seq![1u32]
}

/// `info` describes the logical device for the given queue families: one
/// queue from the graphics family and, where it is another one, one from the
/// present family; the validation layers; the swapchain extension; and no
/// optional ability.
pub open spec fn is_device_for(info: DeviceCreateInfo, indices: QueueFamilyIndices) -> bool {
    &&& info.queue_create_infos@.len() == unique_families(indices).len()
    &&& forall|i: int|
        0 <= i < info.queue_create_infos@.len() ==> is_single_queue(
            #[trigger] info.queue_create_infos@[i],
            unique_families(indices)[i],
        )
    &&& names_of(info.enabled_layer_names@) == validation_layers()
    &&& names_of(info.enabled_extension_names@) == device_extensions()
    &&& info.enabled_features == no_features()
}

/// What a device of the given raw type is called when the devices are
/// listed. Nothing for a raw type that names no kind of device.
pub fn device_type_name(device_type: i32) -> (r: Option<String>)
    ensures
        r.is_some() == vk::device_type_of(device_type).is_some(),
        r matches Some(name) ==> name@ == device_type_name_of(
            vk::device_type_of(device_type).unwrap(),
        ),
{
    match vk::device_type(device_type) {
        Some(DeviceType::Cpu) => Some(String::from_str("Cpu")),
        Some(DeviceType::IntegratedGpu) => Some(String::from_str("Integrated GPU")),
        Some(DeviceType::DiscreteGpu) => Some(String::from_str("Discrete GPU")),
        Some(DeviceType::VirtualGpu) => Some(String::from_str("Virtual GPU")),
        Some(DeviceType::Other) => Some(String::from_str("Unknown")),
        None => None,
    }
}

/// The names of the device extensions to enable.
pub fn required_device_extensions() -> (r: Vec<String>)
    ensures
        names_of(r@) == device_extensions(),
{
    let mut names: Vec<String> = Vec::new();
    names.push(vk::swapchain_extension_name());
    assert(names_of(names@) =~= device_extensions());
    names
}

/// Whether the device offers every required extension. `extension_names`
/// holds the names of the extensions that the device lists.
pub fn check_device_extension_support(extension_names: &Vec<String>) -> (r: bool)
    ensures
        r == lists_all(names_of(extension_names@), device_extensions()),
{
    let required_extensions = required_device_extensions();
    contains_all_names(extension_names, &required_extensions)
}

/// Whether a device can be used, given the queue families found on it, the
/// names of the extensions it offers and its support for the surface. What
/// it reports for the surface counts only where it offers the extensions.
pub fn is_device_suitable(
    indices: &QueueFamilyIndices,
    extension_names: &Vec<String>,
    swapchain_support: &SwapChainSupportDetails,
) -> (r: bool)
    ensures
        r == suitable(*indices, names_of(extension_names@), *swapchain_support),
{
    let is_queue_family_supported = indices.is_complete();
    let is_device_extension_supported = check_device_extension_support(extension_names);
    let is_swapchain_adequate = if is_device_extension_supported {
        swapchain_support.formats.len() > 0 && swapchain_support.present_modes.len() > 0
    } else {
        false
    };
    is_queue_family_supported && is_device_extension_supported && is_swapchain_adequate
}

/// Picks the physical device: the first one, in the order in which the
/// driver lists them, that can be used. Returns its place in the list and
/// the queue families found on it. No later device is looked at, and no
/// device is preferred over an earlier one that can be used.
pub fn pick_physical_device(physical_devices: &Vec<PhysicalDevice>) -> (r: Result<
    (usize, QueueFamilyIndices),
    BootstrapError,
>)
    requires
        forall|i: int|
            0 <= i < physical_devices@.len() ==> (
            #[trigger] physical_devices@[i]).queue_families@.len() <= u32::MAX,
    ensures
        match r {
            Ok((chosen, indices)) => {
                &&& is_first_usable(physical_devices@, chosen as int)
                &&& indices.complete()
                &&& is_first_capable(
                    physical_devices@[chosen as int].queue_families@,
                    QueueRole::Graphics,
                    indices.graphics_family,
                )
                &&& is_first_capable(
                    physical_devices@[chosen as int].queue_families@,
                    QueueRole::Present,
                    indices.present_family,
                )
            },
            Err(error) => {
                &&& error == BootstrapError::NoSuitableDevice
                &&& forall|j: int|
                    0 <= j < physical_devices@.len() ==> !usable(#[trigger] physical_devices@[j])
            },
        },
{
    let mut i: usize = 0;
    while i < physical_devices.len()
        invariant
            i <= physical_devices.len(),
            forall|k: int|
                0 <= k < physical_devices@.len() ==> (
                #[trigger] physical_devices@[k]).queue_families@.len() <= u32::MAX,
            forall|j: int| 0 <= j < i ==> !usable(#[trigger] physical_devices@[j]),
        decreases physical_devices.len() - i,
    {
        let physical_device = &physical_devices[i];
        let indices = find_queue_family(&physical_device.queue_families);
        let found = is_device_suitable(
            &indices,
            &physical_device.extension_names,
            &physical_device.swapchain_support,
        );
        proof {
            lemma_usable_is_suitable(*physical_device, indices);
        }
        if found {
            return Ok((i, indices));
        }
        i += 1;
    }
    Err(BootstrapError::NoSuitableDevice)
}

/// A device can be used exactly where it is suitable with the queue families
/// found on it.
pub proof fn lemma_usable_is_suitable(device: PhysicalDevice, indices: QueueFamilyIndices)
    requires
        is_first_capable(device.queue_families@, QueueRole::Graphics, indices.graphics_family),
        is_first_capable(device.queue_families@, QueueRole::Present, indices.present_family),
    ensures
        usable(device) == suitable(
            indices,
            names_of(device.extension_names@),
            device.swapchain_support,
        ),
{
    lemma_complete_iff_capable(device.queue_families@, indices);
}

/// The choice depends on the devices up to the chosen one alone: whatever is
/// listed behind it, the same device is chosen.
pub proof fn lemma_choice_ignores_later_devices(
    devices: Seq<PhysicalDevice>,
    other: Seq<PhysicalDevice>,
    chosen: int,
)
    requires
        is_first_usable(devices, chosen),
        other.len() > chosen,
        other.take(chosen + 1) == devices.take(chosen + 1),
    ensures
        is_first_usable(other, chosen),
{
    assert forall|j: int| 0 <= j <= chosen implies #[trigger] other[j] == devices[j] by {
        assert(other.take(chosen + 1)[j] == other[j]);
        assert(devices.take(chosen + 1)[j] == devices[j]);
    }
}

/// At most one place is that of the first device that can be used.
pub proof fn lemma_choice_is_unique(devices: Seq<PhysicalDevice>, chosen: int, other: int)
    requires
        is_first_usable(devices, chosen),
        is_first_usable(devices, other),
    ensures
        chosen == other,
{
}

/// On a device that can be used, with the queue families found on it, the
/// swapchain can be described, unless the image count leaves the machine's
/// range.
pub proof fn lemma_suitable_device_takes_swapchain(
    indices: QueueFamilyIndices,
    extension_names: Seq<Seq<char>>,
    support: SwapChainSupportDetails,
)
    requires
        suitable(indices, extension_names, support),
        chosen_image_count(support.capabilities) <= u32::MAX,
    ensures
        can_describe_swapchain(support, indices),
{
}

/// Describes the logical device to create on the chosen physical device.
pub fn device_create_info(indices: &QueueFamilyIndices) -> (r: DeviceCreateInfo)
    requires
        indices.complete(),
    ensures
        is_device_for(r, *indices),
{
    let unique_queue_families = unique_queue_families(indices);
    let mut queue_create_infos: Vec<DeviceQueueCreateInfo> = Vec::new();
    let mut i: usize = 0;
    while i < unique_queue_families.len()
        invariant
            i <= unique_queue_families.len(),
            queue_create_infos@.len() == i,
            forall|k: int|
                0 <= k < i ==> is_single_queue(
                    #[trigger] queue_create_infos@[k],
                    unique_queue_families@[k],
                ),
        decreases unique_queue_families.len() - i,
    {
        let mut queue_priorities: Vec<u32> = Vec::new();
        queue_priorities.push(1);
        assert(queue_priorities@ == seq![1u32]);
        queue_create_infos.push(
            DeviceQueueCreateInfo {
                queue_family_index: unique_queue_families[i],
                queue_priorities,
            },
        );
        i += 1;
    }
    DeviceCreateInfo {
        queue_create_infos,
        enabled_layer_names: enabled_validation_layer_names(),
        enabled_extension_names: required_device_extensions(),
        enabled_features: DeviceFeatures {
            geometry_shader: false,
            tessellation_shader: false,
            sampler_anisotropy: false,
            fill_mode_non_solid: false,
            wide_lines: false,
        },
    }
}

/// Where the graphics queue and the present queue are found on the logical
/// device: the first queue of the graphics family and the first queue of the
/// present family. They are one queue where the families are one.
pub fn queue_locations(indices: &QueueFamilyIndices) -> (r: (QueueLocation, QueueLocation))
    requires
        indices.complete(),
    ensures
        r.0.queue_family_index == indices.graphics_family.unwrap(),
        r.0.queue_index == 0,
        r.1.queue_family_index == indices.present_family.unwrap(),
        r.1.queue_index == 0,
        (r.0 == r.1) == (indices.graphics_family == indices.present_family),
{
    (
        QueueLocation { queue_family_index: indices.graphics_family.unwrap(), queue_index: 0 },
        QueueLocation { queue_family_index: indices.present_family.unwrap(), queue_index: 0 },
    )
}

} // verus!
