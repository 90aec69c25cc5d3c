pub mod physical_device;
pub mod swapchain;
pub mod device;
pub mod renderer;
