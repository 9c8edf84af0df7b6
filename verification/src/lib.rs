//! Selection rules and bookkeeping for bringing up a Vulkan presentation
//! pipeline: which queue families, device, surface format, present mode and
//! extent to use, what every create-info holds, in what order the objects
//! are created, and in what order they are destroyed.
//!
//! The library works on plain values. The caller performs the driver calls,
//! hands the reported values in, and applies what comes back.
//!
//! - [`bootstrap`]: the steps of the bring-up, one after the other.
//! - [`instance`], [`device`], [`queue`], [`swapchain`], [`views`],
//!   [`render_pass`], [`pipeline`]: what is chosen and what is created at
//!   each step.
//! - [`lifetime`]: what is alive, and the order of its destruction.
//! - [`diagnostics`], [`error`], [`event_loop`]: messages of the driver,
//!   failures, and window events.
//! - [`names`]: names of layers and extensions.
//! - [`vk`]: the values taken from the bindings.

pub mod bootstrap;
pub mod device;
pub mod diagnostics;
pub mod error;
pub mod event_loop;
pub mod instance;
pub mod lifetime;
pub mod names;
pub mod pipeline;
pub mod queue;
pub mod render_pass;
pub mod swapchain;
pub mod views;
pub mod vk;
