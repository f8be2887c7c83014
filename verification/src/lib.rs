//! Decision logic of a small Vulkan cube renderer: surface and device
//! selection, the swapchain frame state machine, per-frame resources, the
//! window-event policy and the cube's index data, each with its contract.

pub mod app;
pub mod renderer;
pub mod resources;
pub mod scene;
