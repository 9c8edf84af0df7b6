use vulkan_bootstrap::diagnostics::{DebugMessengerCreateInfo, SeverityFilter, TypeFilter};
use vulkan_bootstrap::error::BootstrapError;
use vulkan_bootstrap::instance::{
    check_validation_layers_support, enabled_validation_layer_names, instance_create_info,
    make_version, required_extension_names, ApplicationInfo, InstanceCreateInfo,
};
use vulkan_bootstrap::names::{contains_all_names, contains_name, vk_to_string};

fn name_list(list: &[&str]) -> Vec<String> {
    list.iter().map(|name| name.to_string()).collect()
}

#[test]
fn versions_are_packed_into_ten_ten_and_twelve_bits() {
    assert_eq!(make_version(1, 0, 0), 4_194_304);
    assert_eq!(make_version(1, 1, 0), 4_198_400);
    assert_eq!(make_version(1, 2, 3), 4_202_499);
    assert_eq!(make_version(0, 0, 0), 0);
    assert_eq!(make_version(0, 0, 4095), 4095);
    assert_eq!(make_version(1023, 1023, 4095), u32::MAX);
}

#[test]
fn parts_of_a_version_that_overrun_their_bits_run_into_their_neighbours() {
    assert_eq!(make_version(7, 13, 200), 29_413_576);
    assert_eq!(make_version(0, 1024, 0), make_version(1, 0, 0));
    assert_eq!(make_version(0, 0, 4096), make_version(0, 1, 0));
    assert_eq!(make_version(1024, 0, 0), 0);
    assert_eq!(make_version(2000, 5000, 70000), 4_114_190_704);
}

#[test]
fn three_instance_extensions_are_asked_for() {
    assert_eq!(
        required_extension_names(),
        name_list(&["VK_KHR_surface", "VK_KHR_xlib_surface", "VK_EXT_debug_utils"])
    );
}

#[test]
fn one_validation_layer_is_enabled() {
    assert_eq!(enabled_validation_layer_names(), name_list(&["VK_LAYER_KHRONOS_validation"]));
}

#[test]
fn the_validation_layer_must_be_installed() {
    assert!(check_validation_layers_support(&name_list(&["VK_LAYER_KHRONOS_validation"])));
    assert!(check_validation_layers_support(&name_list(&[
        "VK_LAYER_MESA_overlay",
        "VK_LAYER_KHRONOS_validation",
        "VK_LAYER_LUNARG_api_dump",
    ])));
    assert!(!check_validation_layers_support(&name_list(&["VK_LAYER_MESA_overlay"])));
    assert!(!check_validation_layers_support(&name_list(&["VK_LAYER_KHRONOS_validation2"])));
    assert!(!check_validation_layers_support(&Vec::new()));
}

#[test]
fn the_instance_is_described_where_the_layer_is_installed() {
    let layers = name_list(&["VK_LAYER_MESA_overlay", "VK_LAYER_KHRONOS_validation"]);
    assert_eq!(
        instance_create_info(&layers),
        Ok(InstanceCreateInfo {
            application_info: ApplicationInfo {
                application_name: "Hello Triangle".to_string(),
                application_version: 4_194_304,
                engine_name: "No Engine".to_string(),
                engine_version: 4_194_304,
                api_version: 4_198_400,
            },
            enabled_layer_names: name_list(&["VK_LAYER_KHRONOS_validation"]),
            enabled_extension_names: name_list(&[
                "VK_KHR_surface",
                "VK_KHR_xlib_surface",
                "VK_EXT_debug_utils",
            ]),
            debug_messenger: DebugMessengerCreateInfo {
                message_severity: SeverityFilter {
                    verbose: false,
                    info: false,
                    warning: true,
                    error: true,
                },
                message_type: TypeFilter { general: true, validation: true, performance: true },
            },
        })
    );
}

#[test]
fn a_missing_layer_stops_the_instance() {
    assert_eq!(
        instance_create_info(&name_list(&["VK_LAYER_MESA_overlay"])),
        Err(BootstrapError::MissingLayer)
    );
    assert_eq!(instance_create_info(&Vec::new()), Err(BootstrapError::MissingLayer));
}

#[test]
fn a_name_ends_at_the_first_zero_byte() {
    let mut raw = [0u8; 256];
    raw[..16].copy_from_slice(b"VK_KHR_swapchain");
    assert_eq!(vk_to_string(&raw), Some("VK_KHR_swapchain".to_string()));
    assert_eq!(vk_to_string(b"abc\0def\0"), Some("abc".to_string()));
    assert_eq!(vk_to_string(b"\0abc"), Some(String::new()));
    assert_eq!(vk_to_string(b""), Some(String::new()));
}

#[test]
fn a_name_without_a_zero_byte_is_taken_whole() {
    assert_eq!(vk_to_string(b"VK_KHR_surface"), Some("VK_KHR_surface".to_string()));
}

#[test]
fn a_name_is_decoded_as_utf8() {
    assert_eq!(vk_to_string(&[0xC3, 0xA9, 0x00, 0xFF]), Some("\u{e9}".to_string()));
    assert_eq!(vk_to_string(&[0xE2, 0x82, 0xAC, 0x00]), Some("\u{20ac}".to_string()));
}

#[test]
fn a_name_that_is_not_utf8_is_refused() {
    assert_eq!(vk_to_string(&[0xFF, 0x00]), None);
    assert_eq!(vk_to_string(&[b'a', 0xC3, 0x00]), None);
    assert_eq!(vk_to_string(&[0xC0, 0x80, 0x00]), None);
}

#[test]
fn a_name_is_found_only_where_it_is_listed_in_full() {
    let list = name_list(&["VK_KHR_surface", "VK_KHR_swapchain"]);
    assert!(contains_name(&list, &"VK_KHR_swapchain".to_string()));
    assert!(contains_name(&list, &"VK_KHR_surface".to_string()));
    assert!(!contains_name(&list, &"VK_KHR_swap".to_string()));
    assert!(!contains_name(&list, &"".to_string()));
    assert!(!contains_name(&Vec::new(), &"VK_KHR_surface".to_string()));
}

#[test]
fn all_names_are_found_only_where_each_is_listed() {
    let available = name_list(&["a", "b", "c"]);
    assert!(contains_all_names(&available, &name_list(&["c", "a"])));
    assert!(contains_all_names(&available, &name_list(&["b", "b"])));
    assert!(contains_all_names(&available, &Vec::new()));
    assert!(contains_all_names(&Vec::new(), &Vec::new()));
    assert!(!contains_all_names(&available, &name_list(&["a", "d"])));
    assert!(!contains_all_names(&Vec::new(), &name_list(&["a"])));
}
