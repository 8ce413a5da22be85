use ash::vk;
use wire::vulkan::{
    required_api_version, BUFFER_USAGE_INDEX_BUFFER, BUFFER_USAGE_TRANSFER_DST,
    BUFFER_USAGE_TRANSFER_SRC, BUFFER_USAGE_UNIFORM_BUFFER, BUFFER_USAGE_VERTEX_BUFFER,
    COLOR_SPACE_SRGB_NONLINEAR, ERROR_OUT_OF_DATE_KHR, FORMAT_B8G8R8A8_SRGB,
    PRESENT_MODE_FIFO, PRESENT_MODE_MAILBOX, QUEUE_GRAPHICS_BIT, SUBOPTIMAL_KHR, VK_TRUE,
};

#[test]
fn required_api_version_is_vulkan_1_3() {
    assert_eq!(required_api_version(), vk::API_VERSION_1_3);
    assert_eq!(required_api_version(), 4206592);
    assert_eq!(vk::api_version_major(required_api_version()), 1);
    assert_eq!(vk::api_version_minor(required_api_version()), 3);
}

#[test]
fn constants_match_ash() {
    assert_eq!(VK_TRUE, vk::TRUE);
    assert_eq!(QUEUE_GRAPHICS_BIT, vk::QueueFlags::GRAPHICS.as_raw());
    assert_eq!(FORMAT_B8G8R8A8_SRGB, vk::Format::B8G8R8A8_SRGB.as_raw());
    assert_eq!(COLOR_SPACE_SRGB_NONLINEAR, vk::ColorSpaceKHR::SRGB_NONLINEAR.as_raw());
    assert_eq!(PRESENT_MODE_MAILBOX, vk::PresentModeKHR::MAILBOX.as_raw());
    assert_eq!(PRESENT_MODE_FIFO, vk::PresentModeKHR::FIFO.as_raw());
    assert_eq!(SUBOPTIMAL_KHR, vk::Result::SUBOPTIMAL_KHR.as_raw());
    assert_eq!(ERROR_OUT_OF_DATE_KHR, vk::Result::ERROR_OUT_OF_DATE_KHR.as_raw());
    assert_eq!(BUFFER_USAGE_TRANSFER_SRC, vk::BufferUsageFlags::TRANSFER_SRC.as_raw());
    assert_eq!(BUFFER_USAGE_TRANSFER_DST, vk::BufferUsageFlags::TRANSFER_DST.as_raw());
    assert_eq!(BUFFER_USAGE_UNIFORM_BUFFER, vk::BufferUsageFlags::UNIFORM_BUFFER.as_raw());
    assert_eq!(BUFFER_USAGE_INDEX_BUFFER, vk::BufferUsageFlags::INDEX_BUFFER.as_raw());
    assert_eq!(BUFFER_USAGE_VERTEX_BUFFER, vk::BufferUsageFlags::VERTEX_BUFFER.as_raw());
}
