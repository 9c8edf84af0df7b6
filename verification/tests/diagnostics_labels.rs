use vulkan_bootstrap::diagnostics::{
    debug_message_prefix, populate_debug_messenger_create_info, severity_label, type_label,
    DebugMessengerCreateInfo, SeverityFilter, TypeFilter,
};
use vulkan_bootstrap::error::BootstrapError;
use vulkan_bootstrap::event_loop::{react, ControlFlow, LoopEvent, Reaction};
use vulkan_bootstrap::lifetime::ResourceKind;
use vulkan_bootstrap::vk;

#[test]
fn each_severity_has_its_label() {
    assert_eq!(severity_label(0x1), "[Verbose]");
    assert_eq!(severity_label(0x10), "[Info]");
    assert_eq!(severity_label(0x100), "[Warning]");
    assert_eq!(severity_label(0x1000), "[Error]");
}

#[test]
fn a_severity_that_is_no_single_level_is_unknown() {
    assert_eq!(severity_label(0), "[Unknown]");
    assert_eq!(severity_label(0x1100), "[Unknown]");
    assert_eq!(severity_label(0x2), "[Unknown]");
    assert_eq!(severity_label(u32::MAX), "[Unknown]");
}

#[test]
fn each_message_type_has_its_label() {
    assert_eq!(type_label(0x1), "[General]");
    assert_eq!(type_label(0x2), "[Validation]");
    assert_eq!(type_label(0x4), "[Performance]");
}

#[test]
fn a_message_type_that_is_no_single_category_is_unknown() {
    assert_eq!(type_label(0), "[Unknown]");
    assert_eq!(type_label(0x3), "[Unknown]");
    assert_eq!(type_label(0x8), "[Unknown]");
}

#[test]
fn a_message_is_printed_behind_both_labels() {
    assert_eq!(debug_message_prefix(0x1000, 0x2), "[Debug][Error][Validation]");
    assert_eq!(debug_message_prefix(0x100, 0x4), "[Debug][Warning][Performance]");
    assert_eq!(debug_message_prefix(0x1, 0x1), "[Debug][Verbose][General]");
    assert_eq!(debug_message_prefix(0x10, 0x7), "[Debug][Info][Unknown]");
    assert_eq!(debug_message_prefix(0, 0), "[Debug][Unknown][Unknown]");
}

#[test]
fn warnings_and_errors_of_every_category_are_reported() {
    assert_eq!(
        populate_debug_messenger_create_info(),
        DebugMessengerCreateInfo {
            message_severity: SeverityFilter {
                verbose: false,
                info: false,
                warning: true,
                error: true,
            },
            message_type: TypeFilter { general: true, validation: true, performance: true },
        }
    );
}

#[test]
fn message_numbers_are_those_of_the_bindings() {
    assert_eq!(vk::SEVERITY_VERBOSE, ash::vk::DebugUtilsMessageSeverityFlagsEXT::VERBOSE.as_raw());
    assert_eq!(vk::SEVERITY_INFO, ash::vk::DebugUtilsMessageSeverityFlagsEXT::INFO.as_raw());
    assert_eq!(vk::SEVERITY_WARNING, ash::vk::DebugUtilsMessageSeverityFlagsEXT::WARNING.as_raw());
    assert_eq!(vk::SEVERITY_ERROR, ash::vk::DebugUtilsMessageSeverityFlagsEXT::ERROR.as_raw());
    assert_eq!(vk::TYPE_GENERAL, ash::vk::DebugUtilsMessageTypeFlagsEXT::GENERAL.as_raw());
    assert_eq!(vk::TYPE_VALIDATION, ash::vk::DebugUtilsMessageTypeFlagsEXT::VALIDATION.as_raw());
    assert_eq!(vk::TYPE_PERFORMANCE, ash::vk::DebugUtilsMessageTypeFlagsEXT::PERFORMANCE.as_raw());
}

#[test]
fn selection_numbers_are_those_of_the_bindings() {
    assert_eq!(vk::QUEUE_GRAPHICS_BIT, ash::vk::QueueFlags::GRAPHICS.as_raw());
    assert_eq!(vk::FORMAT_R8G8B8A8_UNORM, ash::vk::Format::R8G8B8A8_UNORM.as_raw());
    assert_eq!(vk::COLOR_SPACE_SRGB_NONLINEAR, ash::vk::ColorSpaceKHR::SRGB_NONLINEAR.as_raw());
    assert_eq!(vk::PRESENT_MODE_MAILBOX, ash::vk::PresentModeKHR::MAILBOX.as_raw());
    assert_eq!(vk::PRESENT_MODE_FIFO, ash::vk::PresentModeKHR::FIFO.as_raw());
}

#[test]
fn each_error_names_the_step_that_failed() {
    assert_eq!(
        BootstrapError::MissingLayer.message(),
        "Validation layers requested, but not available"
    );
    assert_eq!(BootstrapError::MissingExtension.message(), "Failed to create instance");
    assert_eq!(BootstrapError::NoSuitableDevice.message(), "No suitable physical devices");
    assert_eq!(BootstrapError::DeviceCreationFailed.message(), "Failed to create logical device");
    assert_eq!(BootstrapError::SwapchainCreationFailed.message(), "Failed to create swapchain");
    assert_eq!(BootstrapError::ShaderLoadFailed.message(), "Failed to read shader code");
    assert_eq!(
        BootstrapError::PipelineCreationFailed.message(),
        "Failed to create graphics pipeline"
    );
    assert_eq!(BootstrapError::ResourceCreationFailed.message(), "Failed to create resource");
}

#[test]
fn a_redraw_is_asked_for_once_the_events_are_cleared() {
    assert_eq!(
        react(LoopEvent::EventsCleared),
        Reaction { request_redraw: true, draw_frame: false, control_flow: None }
    );
}

#[test]
fn a_redraw_request_changes_nothing() {
    assert_eq!(
        react(LoopEvent::RedrawRequested),
        Reaction { request_redraw: false, draw_frame: false, control_flow: None }
    );
}

#[test]
fn closing_the_window_draws_a_frame_and_leaves_the_loop() {
    assert_eq!(
        react(LoopEvent::CloseRequested),
        Reaction {
            request_redraw: false,
            draw_frame: true,
            control_flow: Some(ControlFlow::Exit),
        }
    );
}

#[test]
fn any_other_event_keeps_the_loop_polling() {
    assert_eq!(
        react(LoopEvent::Other),
        Reaction {
            request_redraw: false,
            draw_frame: false,
            control_flow: Some(ControlFlow::Poll),
        }
    );
}

#[test]
fn each_kind_of_object_fails_with_its_error() {
    let failure = BootstrapError::creation_failed;
    assert_eq!(failure(ResourceKind::Instance), BootstrapError::MissingExtension);
    assert_eq!(failure(ResourceKind::LogicalDevice), BootstrapError::DeviceCreationFailed);
    assert_eq!(failure(ResourceKind::Swapchain), BootstrapError::SwapchainCreationFailed);
    assert_eq!(failure(ResourceKind::GraphicsPipeline), BootstrapError::PipelineCreationFailed);
    assert_eq!(failure(ResourceKind::PipelineLayout), BootstrapError::PipelineCreationFailed);
    assert_eq!(failure(ResourceKind::Surface), BootstrapError::ResourceCreationFailed);
    assert_eq!(failure(ResourceKind::DebugMessenger), BootstrapError::ResourceCreationFailed);
    assert_eq!(failure(ResourceKind::ImageView), BootstrapError::ResourceCreationFailed);
    assert_eq!(failure(ResourceKind::RenderPass), BootstrapError::ResourceCreationFailed);
    assert_eq!(failure(ResourceKind::Framebuffer), BootstrapError::ResourceCreationFailed);
}
