pub mod swapchain;
pub mod context;
pub mod commands;
pub mod descriptors;
