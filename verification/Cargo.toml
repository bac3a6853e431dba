[package]
name = "vulkan_bootstrap"
version = "0.1.0"
edition = "2021"
publish = false

[dependencies]
anyhow = "1"
log = "0.4"
pretty_env_logger = "0.5"
thiserror = "1"
vulkanalia = { version = "0.26", features = ["libloading", "window"] }
winit = "0.29"
