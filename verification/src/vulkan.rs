//! The Vulkan values the renderer's rules speak of, as raw numbers.

use vstd::prelude::*;

verus! {

/// `VK_TRUE`, the value of a `VkBool32` that is set.
pub const VK_TRUE: u32 = 1;

/// `VK_QUEUE_GRAPHICS_BIT` of `VkQueueFlags`.
pub const QUEUE_GRAPHICS_BIT: u32 = 1;

/// `VK_FORMAT_B8G8R8A8_SRGB`.
pub const FORMAT_B8G8R8A8_SRGB: i32 = 50;

/// `VK_COLOR_SPACE_SRGB_NONLINEAR_KHR`.
pub const COLOR_SPACE_SRGB_NONLINEAR: i32 = 0;

/// `VK_PRESENT_MODE_MAILBOX_KHR`.
pub const PRESENT_MODE_MAILBOX: i32 = 1;

/// `VK_PRESENT_MODE_FIFO_KHR`.
pub const PRESENT_MODE_FIFO: i32 = 2;

/// `VK_SUBOPTIMAL_KHR`.
pub const SUBOPTIMAL_KHR: i32 = 1000001003;

/// `VK_ERROR_OUT_OF_DATE_KHR`.
pub const ERROR_OUT_OF_DATE_KHR: i32 = -1000001004;

/// `VK_BUFFER_USAGE_TRANSFER_SRC_BIT`.
pub const BUFFER_USAGE_TRANSFER_SRC: u32 = 1;

/// `VK_BUFFER_USAGE_TRANSFER_DST_BIT`.
pub const BUFFER_USAGE_TRANSFER_DST: u32 = 2;

/// `VK_BUFFER_USAGE_UNIFORM_BUFFER_BIT`.
pub const BUFFER_USAGE_UNIFORM_BUFFER: u32 = 16;

/// `VK_BUFFER_USAGE_INDEX_BUFFER_BIT`.
pub const BUFFER_USAGE_INDEX_BUFFER: u32 = 64;

/// `VK_BUFFER_USAGE_VERTEX_BUFFER_BIT`.
pub const BUFFER_USAGE_VERTEX_BUFFER: u32 = 128;

/// A packed Vulkan API version: variant in the top three bits, then seven
/// bits of major version, ten of minor version and twelve of patch.
pub open spec fn api_version(variant: u32, major: u32, minor: u32, patch: u32) -> u32 {
    (variant << 29u32) | (major << 22u32) | (minor << 12u32) | patch
}

/// `ash::vk::make_api_version`, which packs a version as `VK_MAKE_API_VERSION`
/// does. Its contract claims that the result is the shifted fields or-ed
/// together, bits shifted out of 32 being lost, as ash's one-line body shows.
#[verifier::external_body]
pub(crate) fn make_api_version(variant: u32, major: u32, minor: u32, patch: u32) -> (v: u32)
    ensures
        v == api_version(variant, major, minor, patch),
{
    ash::vk::make_api_version(variant, major, minor, patch)
}

/// The lowest Vulkan version a GPU must report to be used: 1.3.0.
pub fn required_api_version() -> (v: u32)
    ensures
        v == api_version(0, 1, 3, 0),
        v == 4206592,
{
    let v = make_api_version(0, 1, 3, 0);
    assert(((0u32 << 29u32) | (1u32 << 22u32) | (3u32 << 12u32) | 0u32) == 4206592u32)
        by (bit_vector);
    v
}

} // verus!
