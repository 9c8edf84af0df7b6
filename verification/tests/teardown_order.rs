use vulkan_bootstrap::lifetime::{teardown_kinds, LifetimeManager, Resource, ResourceKind};

fn resource(kind: ResourceKind, handle: u64) -> Resource {
    Resource { kind, handle }
}

/// The objects in the order in which the bring-up creates them, for a
/// swapchain of two images.
fn creation_sequence() -> Vec<Resource> {
    vec![
        resource(ResourceKind::Instance, 1),
        resource(ResourceKind::Surface, 2),
        resource(ResourceKind::LogicalDevice, 3),
        resource(ResourceKind::DebugMessenger, 4),
        resource(ResourceKind::Swapchain, 5),
        resource(ResourceKind::ImageView, 61),
        resource(ResourceKind::ImageView, 62),
        resource(ResourceKind::RenderPass, 7),
        resource(ResourceKind::PipelineLayout, 8),
        resource(ResourceKind::GraphicsPipeline, 9),
        resource(ResourceKind::Framebuffer, 101),
        resource(ResourceKind::Framebuffer, 102),
    ]
}

fn rank(kind: ResourceKind) -> usize {
    teardown_kinds().iter().position(|other| *other == kind).unwrap()
}

fn manager_after(steps: usize) -> LifetimeManager {
    let mut manager = LifetimeManager::new();
    for created in creation_sequence().into_iter().take(steps) {
        assert!(manager.register(created.kind, created.handle));
    }
    manager
}

#[test]
fn the_kinds_are_destroyed_from_framebuffers_to_instance() {
    assert_eq!(
        teardown_kinds(),
        vec![
            ResourceKind::Framebuffer,
            ResourceKind::GraphicsPipeline,
            ResourceKind::PipelineLayout,
            ResourceKind::RenderPass,
            ResourceKind::ImageView,
            ResourceKind::Swapchain,
            ResourceKind::LogicalDevice,
            ResourceKind::Surface,
            ResourceKind::DebugMessenger,
            ResourceKind::Instance,
        ]
    );
}

#[test]
fn everything_is_destroyed_in_the_fixed_order() {
    let mut manager = manager_after(12);
    assert_eq!(
        manager.teardown(),
        vec![
            resource(ResourceKind::Framebuffer, 101),
            resource(ResourceKind::Framebuffer, 102),
            resource(ResourceKind::GraphicsPipeline, 9),
            resource(ResourceKind::PipelineLayout, 8),
            resource(ResourceKind::RenderPass, 7),
            resource(ResourceKind::ImageView, 61),
            resource(ResourceKind::ImageView, 62),
            resource(ResourceKind::Swapchain, 5),
            resource(ResourceKind::LogicalDevice, 3),
            resource(ResourceKind::Surface, 2),
            resource(ResourceKind::DebugMessenger, 4),
            resource(ResourceKind::Instance, 1),
        ]
    );
}

#[test]
fn a_bring_up_stopped_at_any_step_is_torn_down_in_the_fixed_order() {
    let created = creation_sequence();
    for steps in 0..=created.len() {
        let mut manager = manager_after(steps);
        let destroyed = manager.teardown();
        assert_eq!(destroyed.len(), steps);
        for pair in destroyed.windows(2) {
            assert!(rank(pair[0].kind) <= rank(pair[1].kind));
        }
        for object in created.iter().take(steps) {
            assert_eq!(destroyed.iter().filter(|other| *other == object).count(), 1);
        }
    }
}

#[test]
fn a_bring_up_stopped_after_the_swapchain_destroys_what_there_is() {
    let mut manager = manager_after(5);
    assert_eq!(
        manager.teardown(),
        vec![
            resource(ResourceKind::Swapchain, 5),
            resource(ResourceKind::LogicalDevice, 3),
            resource(ResourceKind::Surface, 2),
            resource(ResourceKind::DebugMessenger, 4),
            resource(ResourceKind::Instance, 1),
        ]
    );
}

#[test]
fn a_bring_up_stopped_after_the_instance_destroys_the_instance() {
    let mut manager = manager_after(1);
    assert_eq!(manager.teardown(), vec![resource(ResourceKind::Instance, 1)]);
}

#[test]
fn a_second_teardown_destroys_nothing() {
    let mut manager = manager_after(12);
    assert_eq!(manager.teardown().len(), 12);
    assert_eq!(manager.teardown(), Vec::new());
    assert_eq!(manager.teardown(), Vec::new());
    assert!(!manager.is_live(ResourceKind::Instance));
}

#[test]
fn nothing_alive_means_nothing_to_destroy() {
    let mut manager = LifetimeManager::new();
    assert_eq!(manager.teardown(), Vec::new());
}

#[test]
fn an_object_is_refused_before_what_it_is_created_from() {
    let mut manager = LifetimeManager::new();
    assert!(!manager.register(ResourceKind::Surface, 2));
    assert!(!manager.register(ResourceKind::LogicalDevice, 3));
    assert!(!manager.register(ResourceKind::DebugMessenger, 4));
    assert!(manager.register(ResourceKind::Instance, 1));
    assert!(!manager.register(ResourceKind::Swapchain, 5));
    assert!(manager.register(ResourceKind::LogicalDevice, 3));
    assert!(!manager.register(ResourceKind::Swapchain, 5));
    assert!(manager.register(ResourceKind::Surface, 2));
    assert!(manager.register(ResourceKind::Swapchain, 5));
    assert!(!manager.register(ResourceKind::Framebuffer, 101));
    assert!(!manager.register(ResourceKind::GraphicsPipeline, 9));
    assert!(manager.register(ResourceKind::RenderPass, 7));
    assert!(!manager.register(ResourceKind::GraphicsPipeline, 9));
    assert!(!manager.register(ResourceKind::Framebuffer, 101));
    assert!(manager.register(ResourceKind::ImageView, 61));
    assert!(manager.register(ResourceKind::Framebuffer, 101));
    assert!(manager.register(ResourceKind::PipelineLayout, 8));
    assert!(manager.register(ResourceKind::GraphicsPipeline, 9));
    assert_eq!(manager.teardown().len(), 9);
}

#[test]
fn a_refused_object_is_not_destroyed() {
    let mut manager = LifetimeManager::new();
    assert!(!manager.register(ResourceKind::Swapchain, 5));
    assert!(manager.register(ResourceKind::Instance, 1));
    assert!(!manager.register(ResourceKind::Instance, 11));
    assert_eq!(manager.teardown(), vec![resource(ResourceKind::Instance, 1)]);
}

#[test]
fn only_views_and_framebuffers_come_in_numbers() {
    let mut manager = manager_after(12);
    assert!(manager.register(ResourceKind::ImageView, 63));
    assert!(manager.register(ResourceKind::Framebuffer, 103));
    assert!(!manager.register(ResourceKind::Instance, 11));
    assert!(!manager.register(ResourceKind::Surface, 12));
    assert!(!manager.register(ResourceKind::LogicalDevice, 13));
    assert!(!manager.register(ResourceKind::DebugMessenger, 14));
    assert!(!manager.register(ResourceKind::Swapchain, 15));
    assert!(!manager.register(ResourceKind::RenderPass, 17));
    assert!(!manager.register(ResourceKind::PipelineLayout, 18));
    assert!(!manager.register(ResourceKind::GraphicsPipeline, 19));
    assert_eq!(manager.teardown().len(), 14);
}

#[test]
fn what_is_alive_can_be_asked() {
    let manager = manager_after(3);
    assert!(manager.is_live(ResourceKind::Instance));
    assert!(manager.is_live(ResourceKind::Surface));
    assert!(manager.is_live(ResourceKind::LogicalDevice));
    assert!(!manager.is_live(ResourceKind::Swapchain));
    assert!(manager.accepts(ResourceKind::Swapchain));
    assert!(manager.accepts(ResourceKind::DebugMessenger));
    assert!(!manager.accepts(ResourceKind::ImageView));
    assert!(!manager.accepts(ResourceKind::Instance));
}

#[test]
fn after_a_teardown_the_bring_up_can_start_again() {
    let mut manager = manager_after(12);
    manager.teardown();
    assert!(!manager.register(ResourceKind::Surface, 2));
    assert!(manager.register(ResourceKind::Instance, 1));
    assert!(manager.register(ResourceKind::Surface, 2));
    assert_eq!(
        manager.teardown(),
        vec![resource(ResourceKind::Surface, 2), resource(ResourceKind::Instance, 1)]
    );
}
