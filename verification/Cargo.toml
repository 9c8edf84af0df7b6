[package]
name = "vulkan_bootstrap"
version = "0.1.0"
edition = "2021"
publish = false

[dependencies]
ash = "=0.29.0"
winit = "=0.20.0"
