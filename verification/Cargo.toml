[package]
name = "vulkan_engine"
version = "0.1.0"
edition = "2021"
publish = false

[dependencies]
anyhow = "1"
ash = "0.37"
cfg-if = "1"
cgmath = "0.18"
gltf = "1"
gpu-allocator = { version = "0.25", default-features = false, features = ["vulkan"] }
imgui = "*"
imgui-rs-vulkan-renderer = { version = "*", features = ["gpu-allocator", "dynamic-rendering"] }
imgui-sdl2 = "*"
log = "0.4"
presser = "0.3"
pretty_env_logger = "*"
sdl2 = "*"
