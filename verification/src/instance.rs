//! The instance: which layers and extensions it needs, whether the layers
//! are there, and what it is created with.

use vstd::prelude::*;
use vstd::string::StringExecFns;

use crate::diagnostics::{
    messenger_filter,
    populate_debug_messenger_create_info,
    DebugMessengerCreateInfo,
};
use crate::error::BootstrapError;
use crate::names::{contains_all_names, lists_all, names_of};
use crate::vk;

verus! {

/// What the application says of itself to the driver.
#[derive(Clone, Debug, PartialEq, Eq)]
pub struct ApplicationInfo {
    pub application_name: String,
    pub application_version: u32,
    pub engine_name: String,
    pub engine_version: u32,
    pub api_version: u32,
}

/// What the instance is created with.
#[derive(Clone, Debug, PartialEq, Eq)]
pub struct InstanceCreateInfo {
    pub application_info: ApplicationInfo,
    pub enabled_layer_names: Vec<String>,
    pub enabled_extension_names: Vec<String>,
    /// Chained to the create-info, so that messages from instance creation
    /// and destruction are reported too.
    pub debug_messenger: DebugMessengerCreateInfo,
}

/// A version number packed as the API wants it: ten bits of major version,
/// ten bits of minor version, twelve bits of patch level.
pub open spec fn packed_version(major: u32, minor: u32, patch: u32) -> u32 {
    (major << 22) | (minor << 12) | patch
}

/// The instance layers that must be installed.
pub open spec fn validation_layers() -> Seq<Seq<char>> {
    seq!["VK_LAYER_KHRONOS_validation"@]
}

/// The instance extensions asked for: surfaces, Xlib surfaces, and debug
/// messages.
pub open spec fn instance_extensions() -> Seq<Seq<char>> {
    seq!["VK_KHR_surface"@, "VK_KHR_xlib_surface"@, "VK_EXT_debug_utils"@]
}

/// `info` is what the application says of itself: version 1.0.0 of
/// "Hello Triangle", on version 1.0.0 of no engine, for version 1.1.0 of the
/// API.
pub open spec fn is_application_info(info: ApplicationInfo) -> bool {
    &&& info.application_name@ == "Hello Triangle"@
    &&& info.application_version == packed_version(1, 0, 0)
    &&& info.engine_name@ == "No Engine"@
    &&& info.engine_version == packed_version(1, 0, 0)
    &&& info.api_version == packed_version(1, 1, 0)
}

/// Packs a version number.
pub fn make_version(major: u32, minor: u32, patch: u32) -> (r: u32)
    ensures
        r == packed_version(major, minor, patch),
{
    (major << 22) | (minor << 12) | patch
}

/// The names of the instance extensions to enable.
pub fn required_extension_names() -> (r: Vec<String>)
    ensures
        names_of(r@) == instance_extensions(),
{
    let mut names: Vec<String> = Vec::new();
    names.push(vk::surface_extension_name());
    names.push(vk::xlib_surface_extension_name());
    names.push(vk::debug_utils_extension_name());
    assert(names_of(names@) =~= instance_extensions());
    names
}

/// The names of the validation layers to enable, on the instance and on the
/// logical device.
pub fn enabled_validation_layer_names() -> (r: Vec<String>)
    ensures
        names_of(r@) == validation_layers(),
{
    let mut names: Vec<String> = Vec::new();
    names.push(String::from_str("VK_LAYER_KHRONOS_validation"));
    assert(names_of(names@) =~= validation_layers());
    names
}

/// Whether every required validation layer is among the installed ones.
/// `layer_names` holds the names of the layers that the driver lists.
pub fn check_validation_layers_support(layer_names: &Vec<String>) -> (r: bool)
    ensures
        r == lists_all(names_of(layer_names@), validation_layers()),
{
    let required = enabled_validation_layer_names();
    contains_all_names(layer_names, &required)
}

/// Describes the instance to create, given the names of the installed
/// layers. Fails where a required validation layer is not installed; whether
/// the extensions are there is left to instance creation to find out.
pub fn instance_create_info(layer_names: &Vec<String>) -> (r: Result<
    InstanceCreateInfo,
    BootstrapError,
>)
    ensures
        r.is_ok() == lists_all(names_of(layer_names@), validation_layers()),
        r matches Err(error) ==> error == BootstrapError::MissingLayer,
        r matches Ok(info) ==> {
            &&& is_application_info(info.application_info)
            &&& names_of(info.enabled_layer_names@) == validation_layers()
            &&& names_of(info.enabled_extension_names@) == instance_extensions()
            &&& info.debug_messenger == messenger_filter()
        },
{
    if !check_validation_layers_support(layer_names) {
        return Err(BootstrapError::MissingLayer);
    }
    let app_info = ApplicationInfo {
        application_name: String::from_str("Hello Triangle"),
        application_version: make_version(1, 0, 0),
        engine_name: String::from_str("No Engine"),
        engine_version: make_version(1, 0, 0),
        api_version: make_version(1, 1, 0),
    };
    Ok(
        InstanceCreateInfo {
            application_info: app_info,
            enabled_layer_names: enabled_validation_layer_names(),
            enabled_extension_names: required_extension_names(),
            debug_messenger: populate_debug_messenger_create_info(),
        },
    )
}

/// Parts that fit their bits can be read back out of the packed number, so
/// no two such versions are packed alike.
pub proof fn lemma_version_parts(major: u32, minor: u32, patch: u32)
    requires
        major < 1024,
        minor < 1024,
        patch < 4096,
    ensures
        packed_version(major, minor, patch) >> 22 == major,
        (packed_version(major, minor, patch) >> 12) & 0x3ff == minor,
        packed_version(major, minor, patch) & 0xfff == patch,
        packed_version(major, minor, patch) == major * 4194304 + minor * 4096 + patch,
{
    assert(((major << 22) | (minor << 12) | patch) >> 22 == major) by (bit_vector)
        requires
            major < 1024,
            minor < 1024,
            patch < 4096,
    ;
    assert((((major << 22) | (minor << 12) | patch) >> 12) & 0x3ff == minor) by (bit_vector)
        requires
            major < 1024,
            minor < 1024,
            patch < 4096,
    ;
    assert(((major << 22) | (minor << 12) | patch) & 0xfff == patch) by (bit_vector)
        requires
            major < 1024,
            minor < 1024,
            patch < 4096,
    ;
    assert(((major << 22) | (minor << 12) | patch) == major * 4194304 + minor * 4096 + patch)
        by (bit_vector)
        requires
            major < 1024,
            minor < 1024,
            patch < 4096,
    ;
}

} // verus!
