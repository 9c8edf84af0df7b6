use vulkan_bootstrap::queue::{
    find_queue_family, unique_queue_families, QueueFamily, QueueFamilyIndices,
};
use vulkan_bootstrap::swapchain::{choose_sharing_mode, SharingMode};

const GRAPHICS: u32 = 0x1;
const COMPUTE: u32 = 0x2;
const TRANSFER: u32 = 0x4;

fn family(queue_count: u32, queue_flags: u32, present_support: bool) -> QueueFamily {
    QueueFamily { queue_count, queue_flags, present_support }
}

#[test]
fn new_indices_are_incomplete() {
    let indices = QueueFamilyIndices::new();
    assert_eq!(indices.graphics_family, None);
    assert_eq!(indices.present_family, None);
    assert!(!indices.is_complete());
}

#[test]
fn indices_are_complete_only_with_both_families() {
    let graphics_only = QueueFamilyIndices { graphics_family: Some(0), present_family: None };
    let present_only = QueueFamilyIndices { graphics_family: None, present_family: Some(3) };
    let both = QueueFamilyIndices { graphics_family: Some(0), present_family: Some(3) };
    assert!(!graphics_only.is_complete());
    assert!(!present_only.is_complete());
    assert!(both.is_complete());
}

#[test]
fn distinct_families_are_found_each_by_itself() {
    let families = vec![
        family(1, TRANSFER, false),
        family(1, GRAPHICS | COMPUTE, false),
        family(1, COMPUTE, true),
    ];
    let indices = find_queue_family(&families);
    assert_eq!(
        indices,
        QueueFamilyIndices { graphics_family: Some(1), present_family: Some(2) }
    );
    assert!(indices.is_complete());
    assert_eq!(choose_sharing_mode(&indices), SharingMode::Concurrent);
}

#[test]
fn one_family_can_serve_both_roles() {
    let families = vec![
        family(4, GRAPHICS | COMPUTE | TRANSFER, true),
        family(1, GRAPHICS, true),
        family(1, TRANSFER, true),
    ];
    let indices = find_queue_family(&families);
    assert_eq!(
        indices,
        QueueFamilyIndices { graphics_family: Some(0), present_family: Some(0) }
    );
    assert_eq!(choose_sharing_mode(&indices), SharingMode::Exclusive);
}

#[test]
fn the_first_graphics_family_is_kept_while_presentation_is_looked_for() {
    let families = vec![
        family(1, GRAPHICS, false),
        family(1, GRAPHICS, false),
        family(1, GRAPHICS, true),
    ];
    let indices = find_queue_family(&families);
    assert_eq!(
        indices,
        QueueFamilyIndices { graphics_family: Some(0), present_family: Some(2) }
    );
}

#[test]
fn the_first_present_family_is_kept_while_graphics_is_looked_for() {
    let families = vec![
        family(1, COMPUTE, true),
        family(1, TRANSFER, true),
        family(1, GRAPHICS, true),
    ];
    let indices = find_queue_family(&families);
    assert_eq!(
        indices,
        QueueFamilyIndices { graphics_family: Some(2), present_family: Some(0) }
    );
}

#[test]
fn a_family_without_queues_serves_no_role() {
    let families = vec![family(0, GRAPHICS, true), family(2, GRAPHICS, true)];
    let indices = find_queue_family(&families);
    assert_eq!(
        indices,
        QueueFamilyIndices { graphics_family: Some(1), present_family: Some(1) }
    );
}

#[test]
fn the_graphics_bit_is_looked_for_among_other_bits() {
    let families = vec![family(1, COMPUTE | TRANSFER, false), family(1, 0xF, false)];
    let indices = find_queue_family(&families);
    assert_eq!(indices.graphics_family, Some(1));
    assert_eq!(indices.present_family, None);
    assert!(!indices.is_complete());
}

#[test]
fn no_family_gives_no_index() {
    let indices = find_queue_family(&Vec::new());
    assert_eq!(indices, QueueFamilyIndices::new());
}

#[test]
fn recording_fills_what_is_unknown_and_keeps_what_is_known() {
    let mut indices = QueueFamilyIndices::new();
    indices.record(0, &family(1, COMPUTE, false));
    assert_eq!(indices, QueueFamilyIndices::new());
    indices.record(1, &family(1, GRAPHICS, false));
    assert_eq!(indices, QueueFamilyIndices { graphics_family: Some(1), present_family: None });
    indices.record(2, &family(1, GRAPHICS, true));
    assert_eq!(
        indices,
        QueueFamilyIndices { graphics_family: Some(1), present_family: Some(2) }
    );
    indices.record(3, &family(1, GRAPHICS, true));
    assert_eq!(
        indices,
        QueueFamilyIndices { graphics_family: Some(1), present_family: Some(2) }
    );
}

#[test]
fn unique_families_name_each_family_once() {
    let same = QueueFamilyIndices { graphics_family: Some(3), present_family: Some(3) };
    let distinct = QueueFamilyIndices { graphics_family: Some(1), present_family: Some(2) };
    assert_eq!(unique_queue_families(&same), vec![3]);
    assert_eq!(unique_queue_families(&distinct), vec![1, 2]);
}
