//! A double-buffered Vulkan frame pipeline, with the decisions of the engine
//! kept apart from the device calls that carry them out.
//!
//! Every function here works on plain values: handles are the raw 64-bit
//! values of the API, enumerations and flag sets are their raw codes. The
//! host program performs the device calls that the functions hand out and
//! reports the outcome of each back.

pub mod vk;
pub mod vk_bootstrap;
pub mod vk_commands;
pub mod vk_compute;
pub mod vk_debug;
pub mod vk_descriptors;
pub mod vk_engine;
pub mod vk_images;
pub mod vk_init;
pub mod vk_loader;
pub mod vk_pipelines;
pub mod vk_types;
