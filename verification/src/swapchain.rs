//! How the swapchain is configured from what the surface reports.

use vstd::prelude::*;
use crate::vulkan::{
    COLOR_SPACE_SRGB_NONLINEAR, FORMAT_B8G8R8A8_SRGB, PRESENT_MODE_FIFO, PRESENT_MODE_MAILBOX,
};

verus! {

/// A width and a height in pixels (`VkExtent2D`).
#[derive(Clone, Copy, Debug, PartialEq, Eq, Structural)]
pub struct Extent2D {
    pub width: u32,
    pub height: u32,
}

/// The part of `VkSurfaceCapabilitiesKHR` that the swapchain is sized from.
#[derive(Clone, Copy, Debug, PartialEq, Eq, Structural)]
pub struct SurfaceCapabilities {
    pub min_image_count: u32,
    /// Zero when the surface sets no maximum.
    pub max_image_count: u32,
    /// A width of `u32::MAX` means that the window takes the swapchain's size.
    pub current_extent: Extent2D,
    pub min_image_extent: Extent2D,
    pub max_image_extent: Extent2D,
}

/// A pixel format with its colour space (`VkSurfaceFormatKHR`), as raw values.
#[derive(Clone, Copy, Debug, PartialEq, Eq, Structural)]
pub struct SurfaceFormat {
    pub format: i32,
    pub color_space: i32,
}

/// `input` brought into `[min, max]`.
pub open spec fn clamp_spec(input: u32, min: u32, max: u32) -> u32 {
    if input < min {
        min
    } else if input > max {
        max
    } else {
        input
    }
}

/// `num::clamp` on `u32`. Its contract claims what num-traits' body shows:
/// below `min` gives `min`, above `max` gives `max`, else `input`; it asserts
/// `min <= max` in debug builds, so that is required.
#[verifier::external_body]
fn clamp(input: u32, min: u32, max: u32) -> (r: u32)
    requires
        min <= max,
    ensures
        r == clamp_spec(input, min, max),
{
    num::clamp(input, min, max)
}

/// Whether the surface decides the extent itself.
pub open spec fn surface_sets_extent(caps: SurfaceCapabilities) -> bool {
    caps.current_extent.width != u32::MAX
}

/// What `choose_extent` needs of a surface that leaves the extent open: a
/// range that is not empty in either dimension (Vulkan promises it).
pub open spec fn extent_range_valid(caps: SurfaceCapabilities) -> bool {
    caps.min_image_extent.width <= caps.max_image_extent.width
        && caps.min_image_extent.height <= caps.max_image_extent.height
}

/// The extent the swapchain is made with for a window of `width` x `height`.
pub open spec fn extent_for(caps: SurfaceCapabilities, width: u32, height: u32) -> Extent2D {
    if surface_sets_extent(caps) {
        caps.current_extent
    } else {
        Extent2D {
            width: clamp_spec(width, caps.min_image_extent.width, caps.max_image_extent.width),
            height: clamp_spec(height, caps.min_image_extent.height, caps.max_image_extent.height),
        }
    }
}

/// The surface's own extent when it sets one, else the window size clamped
/// into the surface's range, dimension by dimension.
pub fn choose_extent(capabilities: &SurfaceCapabilities, width: u32, height: u32) -> (e: Extent2D)
    requires
        surface_sets_extent(*capabilities) || extent_range_valid(*capabilities),
    ensures
        e == extent_for(*capabilities, width, height),
        capabilities.current_extent.width != u32::MAX ==> e == capabilities.current_extent,
        capabilities.current_extent.width == u32::MAX && width < capabilities.min_image_extent.width
            ==> e.width == capabilities.min_image_extent.width,
        capabilities.current_extent.width == u32::MAX && width > capabilities.max_image_extent.width
            ==> e.width == capabilities.max_image_extent.width,
        capabilities.current_extent.width == u32::MAX && height
            < capabilities.min_image_extent.height ==> e.height
            == capabilities.min_image_extent.height,
        capabilities.current_extent.width == u32::MAX && height
            > capabilities.max_image_extent.height ==> e.height
            == capabilities.max_image_extent.height,
        !surface_sets_extent(*capabilities) ==> {
            &&& capabilities.min_image_extent.width <= e.width <= capabilities.max_image_extent.width
            &&& capabilities.min_image_extent.height <= e.height
                <= capabilities.max_image_extent.height
        },
        !surface_sets_extent(*capabilities) && extent_range_valid(*capabilities)
            && capabilities.min_image_extent.width <= width <= capabilities.max_image_extent.width
            && capabilities.min_image_extent.height <= height
            <= capabilities.max_image_extent.height ==> e == (Extent2D { width, height }),
{
    if capabilities.current_extent.width != u32::MAX {
        return capabilities.current_extent;
    }
    let new_width = clamp(
        width,
        capabilities.min_image_extent.width,
        capabilities.max_image_extent.width,
    );
    let new_height = clamp(
        height,
        capabilities.min_image_extent.height,
        capabilities.max_image_extent.height,
    );
    Extent2D { width: new_width, height: new_height }
}

/// The extent the swapchain is made with: the surface's own extent, as it
/// is, whenever the surface sets one (whatever the window's size); else, in
/// each dimension, the window's size when it lies in the surface's range,
/// the range's bound on the side where it does not, and always within the
/// range.
pub proof fn lemma_extent_law(caps: SurfaceCapabilities, width: u32, height: u32)
    requires
        caps.current_extent.width != u32::MAX || (caps.min_image_extent.width
            <= caps.max_image_extent.width && caps.min_image_extent.height
            <= caps.max_image_extent.height),
    ensures
        caps.current_extent.width != u32::MAX ==> extent_for(caps, width, height)
            == caps.current_extent,
        caps.current_extent.width == u32::MAX ==> {
            let e = extent_for(caps, width, height);
            let (lo, hi) = (caps.min_image_extent, caps.max_image_extent);
            &&& lo.width <= e.width <= hi.width
            &&& lo.height <= e.height <= hi.height
            &&& lo.width <= width <= hi.width ==> e.width == width
            &&& width < lo.width ==> e.width == lo.width
            &&& width > hi.width ==> e.width == hi.width
            &&& lo.height <= height <= hi.height ==> e.height == height
            &&& height < lo.height ==> e.height == lo.height
            &&& height > hi.height ==> e.height == hi.height
        },
{
}

/// Asking again for the extent that was chosen gives the same extent: a
/// swapchain recreated at its own size keeps that size.
pub proof fn lemma_extent_stable(caps: SurfaceCapabilities, width: u32, height: u32)
    requires
        surface_sets_extent(caps) || extent_range_valid(caps),
    ensures
        ({
            let e = extent_for(caps, width, height);
            extent_for(caps, e.width, e.height) == e
        }),
{
}

/// The image count asked for: at least three (triple buffering), but no
/// more than the surface's maximum when it has one.
pub open spec fn min_image_count_for(caps: SurfaceCapabilities) -> u32 {
    let wanted = if caps.min_image_count >= 3 { caps.min_image_count } else { 3 };
    if caps.max_image_count > 0 && caps.max_image_count < wanted {
        caps.max_image_count
    } else {
        wanted
    }
}

/// The image count asked for is the surface's minimum, or three when that
/// is fewer, unless the surface sets a maximum below that, in which case it
/// is the maximum; it is never zero.
pub proof fn lemma_min_image_count_law(caps: SurfaceCapabilities)
    ensures
        min_image_count_for(caps) >= 1,
        caps.max_image_count == 0 || (caps.max_image_count >= 3 && caps.max_image_count
            >= caps.min_image_count) ==> {
            let n = min_image_count_for(caps);
            &&& n >= 3
            &&& n >= caps.min_image_count
            &&& n == 3 || n == caps.min_image_count
        },
        caps.max_image_count > 0 && (caps.max_image_count < 3 || caps.max_image_count
            < caps.min_image_count) ==> min_image_count_for(caps) == caps.max_image_count,
        caps.min_image_count >= 3 && (caps.max_image_count == 0 || caps.max_image_count
            >= caps.min_image_count) ==> min_image_count_for(caps) == caps.min_image_count,
{
}

/// The format drawn in is exactly `VK_FORMAT_B8G8R8A8_SRGB` (50) with
/// `VK_COLOR_SPACE_SRGB_NONLINEAR_KHR` (0).
pub proof fn lemma_preferred_format_meaning(f: SurfaceFormat)
    ensures
        is_preferred_format(f) <==> f.format == 50 && f.color_space == 0,
{
}

/// The number of images the swapchain asks for.
pub fn choose_min_image_count(capabilities: &SurfaceCapabilities) -> (n: u32)
    ensures
        n == min_image_count_for(*capabilities),
        n >= 1,
        capabilities.max_image_count == 0 || (capabilities.max_image_count >= 3
            && capabilities.max_image_count >= capabilities.min_image_count) ==> n >= 3 && n
            >= capabilities.min_image_count && (n == 3 || n == capabilities.min_image_count),
        capabilities.max_image_count > 0 && (capabilities.max_image_count < 3
            || capabilities.max_image_count < capabilities.min_image_count) ==> n
            == capabilities.max_image_count,
        capabilities.max_image_count == 0 ==> n >= 3 && n >= capabilities.min_image_count,
        capabilities.max_image_count > 0 ==> n <= capabilities.max_image_count,
        capabilities.max_image_count > 0 && capabilities.min_image_count
            <= capabilities.max_image_count ==> capabilities.min_image_count <= n,
{
    let mut min_image_count = if capabilities.min_image_count >= 3 {
        capabilities.min_image_count
    } else {
        3
    };
    if capabilities.max_image_count > 0 && capabilities.max_image_count < min_image_count {
        min_image_count = capabilities.max_image_count;
    }
    min_image_count
}

/// The one format the renderer draws in: 8-bit BGRA in sRGB.
pub open spec fn is_preferred_format(f: SurfaceFormat) -> bool {
    f.format == FORMAT_B8G8R8A8_SRGB && f.color_space == COLOR_SPACE_SRGB_NONLINEAR
}

/// The first of the surface's formats that is the preferred one, or `None`
/// when the surface offers none (the renderer then cannot start).
pub fn choose_format(formats: &[SurfaceFormat]) -> (r: Option<SurfaceFormat>)
    ensures
        r is None <==> (forall|i: int| 0 <= i < formats@.len() ==> !is_preferred_format(
            #[trigger] formats@[i],
        )),
        r matches Some(f) ==> exists|i: int|
            0 <= i < formats@.len() && formats@[i] == f && is_preferred_format(f) && (forall|j: int|
                0 <= j < i ==> !is_preferred_format(#[trigger] formats@[j])),
        r matches Some(f) ==> f == (SurfaceFormat {
            format: FORMAT_B8G8R8A8_SRGB,
            color_space: COLOR_SPACE_SRGB_NONLINEAR,
        }),
        r matches Some(f) ==> f.format == 50 && f.color_space == 0,
        r is None <==> (forall|i: int|
            0 <= i < formats@.len() ==> !((#[trigger] formats@[i]).format == 50
                && formats@[i].color_space == 0)),
{
    let mut i: usize = 0;
    while i < formats.len()
        invariant
            i <= formats@.len(),
            forall|j: int| 0 <= j < i ==> !is_preferred_format(#[trigger] formats@[j]),
        decreases formats@.len() - i,
    {
        let f = formats[i];
        if f.format == FORMAT_B8G8R8A8_SRGB && f.color_space == COLOR_SPACE_SRGB_NONLINEAR {
            return Some(f);
        }
        i = i + 1;
    }
    None
}

/// The present mode the swapchain is made with, from the ones the surface
/// supports: mailbox when there, else FIFO (which every surface supports).
pub fn choose_present_mode(present_modes: &[i32]) -> (m: i32)
    ensures
        m == (if present_modes@.contains(PRESENT_MODE_MAILBOX) {
            PRESENT_MODE_MAILBOX
        } else {
            PRESENT_MODE_FIFO
        }),
{
    let mut i: usize = 0;
    while i < present_modes.len()
        invariant
            i <= present_modes@.len(),
            forall|j: int| 0 <= j < i ==> present_modes@[j] != PRESENT_MODE_MAILBOX,
        decreases present_modes@.len() - i,
    {
        if present_modes[i] == PRESENT_MODE_MAILBOX {
            assert(present_modes@[i as int] == PRESENT_MODE_MAILBOX);
            return PRESENT_MODE_MAILBOX;
        }
        i = i + 1;
    }
    PRESENT_MODE_FIFO
}

} // verus!
