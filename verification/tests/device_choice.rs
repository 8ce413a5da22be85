use wire::device::{
    first_suitable_gpu, graphics_queue_family, is_suitable_gpu, supports_graphics, GpuInfo,
};

fn swapchain_ext() -> Vec<u8> {
    b"VK_KHR_swapchain".to_vec()
}

fn good_gpu() -> GpuInfo {
    GpuInfo {
        api_version: ash::vk::API_VERSION_1_3,
        queue_family_flags: vec![0b100, 0b111],
        extensions: vec![b"VK_KHR_maintenance1".to_vec(), swapchain_ext()],
        shader_draw_parameters: 1,
        dynamic_rendering: 1,
        extended_dynamic_state: 1,
    }
}

#[test]
fn suitable_gpu_is_taken() {
    let required = vec![ash::khr::swapchain::NAME.to_bytes().to_vec()];
    assert!(is_suitable_gpu(&good_gpu(), &required));
    let mut newer = good_gpu();
    newer.api_version = ash::vk::make_api_version(0, 1, 4, 0);
    assert!(is_suitable_gpu(&newer, &required));
}

#[test]
fn old_gpu_is_refused() {
    let required = vec![swapchain_ext()];
    let mut gpu = good_gpu();
    gpu.api_version = ash::vk::API_VERSION_1_2;
    assert!(!is_suitable_gpu(&gpu, &required));
}

#[test]
fn gpu_without_graphics_is_refused() {
    let required = vec![swapchain_ext()];
    let mut gpu = good_gpu();
    gpu.queue_family_flags = vec![0b10, 0b100];
    assert!(!is_suitable_gpu(&gpu, &required));
    gpu.queue_family_flags = vec![];
    assert!(!is_suitable_gpu(&gpu, &required));
}

#[test]
fn gpu_without_extension_is_refused() {
    let required = vec![swapchain_ext()];
    let mut gpu = good_gpu();
    gpu.extensions = vec![b"VK_KHR_swapchai".to_vec(), b"VK_KHR_swapchain_x".to_vec()];
    assert!(!is_suitable_gpu(&gpu, &required));
}

#[test]
fn gpu_without_feature_is_refused() {
    let required = vec![swapchain_ext()];
    let mut gpu = good_gpu();
    gpu.dynamic_rendering = 0;
    assert!(!is_suitable_gpu(&gpu, &required));
    let mut gpu = good_gpu();
    gpu.shader_draw_parameters = 0;
    assert!(!is_suitable_gpu(&gpu, &required));
    let mut gpu = good_gpu();
    gpu.extended_dynamic_state = 0;
    assert!(!is_suitable_gpu(&gpu, &required));
}

#[test]
fn graphics_bit() {
    assert!(supports_graphics(1));
    assert!(supports_graphics(0b1011));
    assert!(!supports_graphics(0b1110));
}

#[test]
fn first_graphics_family_is_taken() {
    assert_eq!(graphics_queue_family(&[0b100, 0b10, 0b11, 0b1]), Some(2));
    assert_eq!(graphics_queue_family(&[0b1]), Some(0));
    assert_eq!(graphics_queue_family(&[0b100, 0b10]), None);
    assert_eq!(graphics_queue_family(&[]), None);
}

#[test]
fn first_suitable_gpu_is_picked() {
    let required = vec![swapchain_ext()];
    let mut old = good_gpu();
    old.api_version = ash::vk::API_VERSION_1_1;
    let mut no_features = good_gpu();
    no_features.dynamic_rendering = 0;
    let gpus = vec![old, no_features, good_gpu(), good_gpu()];
    assert_eq!(first_suitable_gpu(&gpus, &required), Some(2));
    assert_eq!(first_suitable_gpu(&gpus[..2], &required), None);
    assert_eq!(first_suitable_gpu(&[], &required), None);
}
