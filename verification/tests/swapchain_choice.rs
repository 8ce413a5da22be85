use wire::swapchain::{
    choose_extent, choose_format, choose_min_image_count, choose_present_mode, Extent2D,
    SurfaceCapabilities, SurfaceFormat,
};
use wire::vulkan::{
    COLOR_SPACE_SRGB_NONLINEAR, FORMAT_B8G8R8A8_SRGB, PRESENT_MODE_FIFO, PRESENT_MODE_MAILBOX,
};

fn caps(min_count: u32, max_count: u32, current: (u32, u32)) -> SurfaceCapabilities {
    SurfaceCapabilities {
        min_image_count: min_count,
        max_image_count: max_count,
        current_extent: Extent2D { width: current.0, height: current.1 },
        min_image_extent: Extent2D { width: 100, height: 50 },
        max_image_extent: Extent2D { width: 1920, height: 1080 },
    }
}

#[test]
fn extent_is_the_surface_extent_when_set() {
    let c = caps(2, 8, (800, 600));
    assert_eq!(choose_extent(&c, 1024, 768), Extent2D { width: 800, height: 600 });
    assert_eq!(choose_extent(&c, 1, 1), Extent2D { width: 800, height: 600 });
}

#[test]
fn extent_is_clamped_when_surface_leaves_it_open() {
    let c = caps(2, 8, (u32::MAX, u32::MAX));
    assert_eq!(choose_extent(&c, 1024, 768), Extent2D { width: 1024, height: 768 });
    assert_eq!(choose_extent(&c, 10, 5000), Extent2D { width: 100, height: 1080 });
    assert_eq!(choose_extent(&c, 4000, 20), Extent2D { width: 1920, height: 50 });
    assert_eq!(choose_extent(&c, 100, 1080), Extent2D { width: 100, height: 1080 });
}

#[test]
fn extent_chosen_twice_is_the_same() {
    let c = caps(2, 8, (u32::MAX, 0));
    let e = choose_extent(&c, 7, 9000);
    assert_eq!(choose_extent(&c, e.width, e.height), e);
}

#[test]
fn min_image_count_asks_for_three() {
    assert_eq!(choose_min_image_count(&caps(1, 0, (1, 1))), 3);
    assert_eq!(choose_min_image_count(&caps(2, 8, (1, 1))), 3);
    assert_eq!(choose_min_image_count(&caps(5, 8, (1, 1))), 5);
    assert_eq!(choose_min_image_count(&caps(4, 0, (1, 1))), 4);
}

#[test]
fn min_image_count_is_capped_by_the_maximum() {
    assert_eq!(choose_min_image_count(&caps(1, 2, (1, 1))), 2);
    assert_eq!(choose_min_image_count(&caps(0, 1, (1, 1))), 1);
    assert_eq!(choose_min_image_count(&caps(2, 3, (1, 1))), 3);
}

#[test]
fn format_is_bgra_srgb() {
    let formats = [
        SurfaceFormat { format: 44, color_space: COLOR_SPACE_SRGB_NONLINEAR },
        SurfaceFormat { format: FORMAT_B8G8R8A8_SRGB, color_space: 1000104001 },
        SurfaceFormat { format: FORMAT_B8G8R8A8_SRGB, color_space: COLOR_SPACE_SRGB_NONLINEAR },
        SurfaceFormat { format: 37, color_space: COLOR_SPACE_SRGB_NONLINEAR },
    ];
    assert_eq!(
        choose_format(&formats),
        Some(SurfaceFormat { format: 50, color_space: 0 })
    );
}

#[test]
fn format_is_missing() {
    let formats = [
        SurfaceFormat { format: 44, color_space: COLOR_SPACE_SRGB_NONLINEAR },
        SurfaceFormat { format: FORMAT_B8G8R8A8_SRGB, color_space: 1000104001 },
    ];
    assert_eq!(choose_format(&formats), None);
    assert_eq!(choose_format(&[]), None);
}

#[test]
fn present_mode_prefers_mailbox() {
    assert_eq!(choose_present_mode(&[0, 2, 1, 3]), PRESENT_MODE_MAILBOX);
    assert_eq!(choose_present_mode(&[1]), PRESENT_MODE_MAILBOX);
}

#[test]
fn present_mode_falls_back_to_fifo() {
    assert_eq!(choose_present_mode(&[0, 2, 3]), PRESENT_MODE_FIFO);
    assert_eq!(choose_present_mode(&[]), PRESENT_MODE_FIFO);
}
