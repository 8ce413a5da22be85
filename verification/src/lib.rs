//! Decision logic of a small Vulkan renderer: how the swapchain is sized and
//! formatted, which GPU and queue family are taken, which instance layers and
//! extensions are enabled, how buffers are allocated and filled, and the
//! frame-in-flight draw cycle, and how compiled shader code is read.
//!
//! Every Vulkan call itself is made by the application around this crate; the
//! functions here take what the driver reported as plain values and say, in
//! their contracts, what the renderer does with it.

pub mod vulkan;
pub mod swapchain;
pub mod names;
pub mod device;
pub mod context;
pub mod buffer;
pub mod frame;
pub mod pipeline;
