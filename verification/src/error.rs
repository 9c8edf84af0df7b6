//! The ways in which bringing the pipeline up can fail. Every one of them is
//! final: nothing is retried and nothing is set up in part.

use vstd::prelude::*;
use vstd::string::StringExecFns;

use crate::lifetime::ResourceKind;

verus! {

/// Why the bring-up stopped.
#[derive(Clone, Copy, Debug, PartialEq, Eq)]
pub enum BootstrapError {
    /// A required instance layer is not installed.
    MissingLayer,
    /// The instance could not be created with the extensions asked for.
    MissingExtension,
    /// No physical device can render to the surface.
    NoSuitableDevice,
    /// The logical device could not be created.
    DeviceCreationFailed,
    /// The swapchain could not be created, or could not be asked for what it
    /// supports or holds.
    SwapchainCreationFailed,
    /// A compiled shader could not be read.
    ShaderLoadFailed,
    /// The graphics pipeline or its layout could not be created.
    PipelineCreationFailed,
    /// A surface, a debug messenger, an image view, a render pass or a
    /// framebuffer could not be created.
    ResourceCreationFailed,
}

/// The error that stands for a failure to create an object of `kind`. The
/// instance fails for want of an extension, since its layers are looked for
/// beforehand; the pipeline and its layout fail as the pipeline; what has no
/// error of its own fails as a resource.
pub open spec fn failure_of(kind: ResourceKind) -> BootstrapError {
    match kind {
        ResourceKind::Instance => BootstrapError::MissingExtension,
        ResourceKind::LogicalDevice => BootstrapError::DeviceCreationFailed,
        ResourceKind::Swapchain => BootstrapError::SwapchainCreationFailed,
        ResourceKind::GraphicsPipeline => BootstrapError::PipelineCreationFailed,
        ResourceKind::PipelineLayout => BootstrapError::PipelineCreationFailed,
        ResourceKind::Surface => BootstrapError::ResourceCreationFailed,
        ResourceKind::DebugMessenger => BootstrapError::ResourceCreationFailed,
        ResourceKind::ImageView => BootstrapError::ResourceCreationFailed,
        ResourceKind::RenderPass => BootstrapError::ResourceCreationFailed,
        ResourceKind::Framebuffer => BootstrapError::ResourceCreationFailed,
    }
}

impl BootstrapError {
    /// The text shown for the error.
    pub open spec fn message_of(self) -> Seq<char> {
        match self {
            BootstrapError::MissingLayer => "Validation layers requested, but not available"@,
            BootstrapError::MissingExtension => "Failed to create instance"@,
            BootstrapError::NoSuitableDevice => "No suitable physical devices"@,
            BootstrapError::DeviceCreationFailed => "Failed to create logical device"@,
            BootstrapError::SwapchainCreationFailed => "Failed to create swapchain"@,
            BootstrapError::ShaderLoadFailed => "Failed to read shader code"@,
            BootstrapError::PipelineCreationFailed => "Failed to create graphics pipeline"@,
            BootstrapError::ResourceCreationFailed => "Failed to create resource"@,
        }
    }

    /// The error to give up with when the driver fails to create an object
    /// of `kind`.
    pub fn creation_failed(kind: ResourceKind) -> (r: BootstrapError)
        ensures
            r == failure_of(kind),
    {
        match kind {
            ResourceKind::Instance => BootstrapError::MissingExtension,
            ResourceKind::LogicalDevice => BootstrapError::DeviceCreationFailed,
            ResourceKind::Swapchain => BootstrapError::SwapchainCreationFailed,
            ResourceKind::GraphicsPipeline => BootstrapError::PipelineCreationFailed,
            ResourceKind::PipelineLayout => BootstrapError::PipelineCreationFailed,
            ResourceKind::Surface => BootstrapError::ResourceCreationFailed,
            ResourceKind::DebugMessenger => BootstrapError::ResourceCreationFailed,
            ResourceKind::ImageView => BootstrapError::ResourceCreationFailed,
            ResourceKind::RenderPass => BootstrapError::ResourceCreationFailed,
            ResourceKind::Framebuffer => BootstrapError::ResourceCreationFailed,
        }
    }

    /// The text to show before giving up: it names the step that failed.
    pub fn message(&self) -> (r: String)
        ensures
            r@ == self.message_of(),
    {
        match self {
            BootstrapError::MissingLayer => String::from_str(
                "Validation layers requested, but not available",
            ),
            BootstrapError::MissingExtension => String::from_str("Failed to create instance"),
            BootstrapError::NoSuitableDevice => String::from_str("No suitable physical devices"),
            BootstrapError::DeviceCreationFailed => String::from_str(
                "Failed to create logical device",
            ),
            BootstrapError::SwapchainCreationFailed => String::from_str(
                "Failed to create swapchain",
            ),
            BootstrapError::ShaderLoadFailed => String::from_str("Failed to read shader code"),
            BootstrapError::PipelineCreationFailed => String::from_str(
                "Failed to create graphics pipeline",
            ),
            BootstrapError::ResourceCreationFailed => String::from_str("Failed to create resource"),
        }
    }
}

} // verus!
