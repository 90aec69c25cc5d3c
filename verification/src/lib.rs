//! Verified core of the VERS Vulkan engine: the decisions the renderer makes
//! (GPU choice, queue families, swapchain parameters, frame pacing) and the
//! system-information logic, stated over plain values.

pub mod vulkan;
pub mod system_info;
pub mod text;

pub use system_info::error::SystemError;
pub use system_info::SystemInfo;
