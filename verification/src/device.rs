//! Which GPU is used, and which of its queue families.

use vstd::prelude::*;
use crate::names::{all_listed, all_names_listed, is_listed};
use crate::vulkan::{api_version, required_api_version, QUEUE_GRAPHICS_BIT, VK_TRUE};

verus! {

/// What the driver reports of one GPU, as far as the choice of GPU reads it.
pub struct GpuInfo {
    /// `VkPhysicalDeviceProperties::apiVersion`.
    pub api_version: u32,
    /// `queueFlags` of each queue family, in the driver's order.
    pub queue_family_flags: Vec<u32>,
    /// The names of the device extensions it supports.
    pub extensions: Vec<Vec<u8>>,
    /// `VkPhysicalDeviceVulkan11Features::shaderDrawParameters`.
    pub shader_draw_parameters: u32,
    /// `VkPhysicalDeviceVulkan13Features::dynamicRendering`.
    pub dynamic_rendering: u32,
    /// `VkPhysicalDeviceExtendedDynamicStateFeaturesEXT::extendedDynamicState`.
    pub extended_dynamic_state: u32,
}

/// A queue family with these flags can run graphics work.
pub open spec fn has_graphics(flags: u32) -> bool {
    flags & QUEUE_GRAPHICS_BIT == QUEUE_GRAPHICS_BIT
}

/// Some queue family in `families` can run graphics work.
pub open spec fn any_graphics(families: Seq<u32>) -> bool {
    exists|i: int| 0 <= i < families.len() && has_graphics(#[trigger] families[i])
}

/// The GPU can run the renderer: Vulkan 1.3, a graphics queue, every
/// required extension, and the three features the pipeline is built with.
pub open spec fn gpu_suitable(gpu: GpuInfo, required_extensions: Seq<Vec<u8>>) -> bool {
    &&& gpu.api_version >= api_version(0, 1, 3, 0)
    &&& any_graphics(gpu.queue_family_flags@)
    &&& all_listed(required_extensions, gpu.extensions@)
    &&& gpu.shader_draw_parameters == VK_TRUE
    &&& gpu.dynamic_rendering == VK_TRUE
    &&& gpu.extended_dynamic_state == VK_TRUE
}

/// A queue family can run graphics work exactly when its graphics bit (the
/// lowest) is set, whatever its other bits: adding bits to a graphics family
/// keeps it one, setting the bit makes any family one, clearing it makes
/// none one.
pub proof fn lemma_graphics_bit(flags: u32, other: u32)
    ensures
        has_graphics(flags) <==> flags & 1u32 == 1u32,
        has_graphics(flags) ==> has_graphics(flags | other),
        has_graphics(flags | 1u32),
        !has_graphics(flags & 0xffff_fffeu32),
{
    assert((flags & 1u32 == 1u32) ==> ((flags | other) & 1u32 == 1u32)) by (bit_vector);
    assert((flags | 1u32) & 1u32 == 1u32) by (bit_vector);
    assert((flags & 0xffff_fffeu32) & 1u32 != 1u32) by (bit_vector);
}

/// Some queue family, at any index from the first on, can run graphics
/// work exactly when some family has its graphics bit set.
pub proof fn lemma_any_graphics_meaning(families: Seq<u32>)
    ensures
        any_graphics(families) <==> exists|i: int| 0 <= i < families.len() && #[trigger] families[i] & 1u32 == 1u32,
        forall|i: int| 0 <= i < families.len() && #[trigger] families[i] & 1u32 == 1u32 ==> any_graphics(families),
{
    assert forall|i: int| 0 <= i < families.len() implies has_graphics(#[trigger] families[i]) == (families[i] & 1u32 == 1u32) by {
        lemma_graphics_bit(families[i], 0);
    }
    if any_graphics(families) {
        let i = choose|i: int| 0 <= i < families.len() && has_graphics(#[trigger] families[i]);
        assert(families[i] & 1u32 == 1u32);
    }
    assert forall|i: int| 0 <= i < families.len() && #[trigger] families[i] & 1u32 == 1u32 implies any_graphics(families) by {
        assert(has_graphics(families[i]));
    }
}

/// A GPU can run the renderer exactly when it reports Vulkan 1.3 or later,
/// some queue family at any index (the first included) has the graphics
/// bit, every required extension is among those it supports, and the three
/// features are on.
pub proof fn lemma_gpu_suitable_meaning(gpu: GpuInfo, required_extensions: Seq<Vec<u8>>)
    ensures
        gpu_suitable(gpu, required_extensions) <==> {
            &&& gpu.api_version >= 4206592
            &&& exists|i: int|
                0 <= i < gpu.queue_family_flags@.len() && #[trigger] gpu.queue_family_flags@[i] & 1u32 == 1u32
            &&& forall|i: int|
                0 <= i < required_extensions.len() ==> is_listed((#[trigger] required_extensions[i])@, gpu.extensions@)
            &&& gpu.shader_draw_parameters == 1
            &&& gpu.dynamic_rendering == 1
            &&& gpu.extended_dynamic_state == 1
        },
{
    assert(((0u32 << 29u32) | (1u32 << 22u32) | (3u32 << 12u32) | 0u32) == 4206592u32)
        by (bit_vector);
    lemma_any_graphics_meaning(gpu.queue_family_flags@);
}

/// Whether a queue family with these flags can run graphics work.
pub fn supports_graphics(flags: u32) -> (r: bool)
    ensures
        r == has_graphics(flags),
        r == (flags & 1u32 == 1u32),
{
    proof {
        lemma_graphics_bit(flags, 0);
    }
    flags & QUEUE_GRAPHICS_BIT == QUEUE_GRAPHICS_BIT
}

/// Whether the GPU can run the renderer; the renderer takes the first GPU,
/// in the driver's order, for which this holds.
pub fn is_suitable_gpu(gpu: &GpuInfo, required_extensions: &[Vec<u8>]) -> (r: bool)
    ensures
        r == gpu_suitable(*gpu, required_extensions@),
        r <==> {
            &&& gpu.api_version >= 4206592
            &&& exists|i: int|
                0 <= i < gpu.queue_family_flags@.len() && #[trigger] gpu.queue_family_flags@[i] & 1u32
                    == 1u32
            &&& forall|i: int|
                0 <= i < required_extensions@.len() ==> is_listed(
                    (#[trigger] required_extensions@[i])@,
                    gpu.extensions@,
                )
            &&& gpu.shader_draw_parameters == 1
            &&& gpu.dynamic_rendering == 1
            &&& gpu.extended_dynamic_state == 1
        },
{
    proof {
        lemma_gpu_suitable_meaning(*gpu, required_extensions@);
    }
    let vulkan13 = gpu.api_version >= required_api_version();
    let mut supports_graphics_queue = false;
    let mut i: usize = 0;
    while i < gpu.queue_family_flags.len()
        invariant
            i <= gpu.queue_family_flags@.len(),
            supports_graphics_queue == exists|j: int|
                0 <= j < i && has_graphics(#[trigger] gpu.queue_family_flags@[j]),
        decreases gpu.queue_family_flags@.len() - i,
    {
        if supports_graphics(gpu.queue_family_flags[i]) {
            supports_graphics_queue = true;
        }
        i = i + 1;
    }
    let supports_extensions = all_names_listed(required_extensions, gpu.extensions.as_slice());
    let supports_required_features = gpu.shader_draw_parameters == VK_TRUE
        && gpu.dynamic_rendering == VK_TRUE && gpu.extended_dynamic_state == VK_TRUE;
    vulkan13 && supports_graphics_queue && supports_extensions && supports_required_features
}

/// The index of the GPU the renderer uses: the first, in the driver's
/// order, that can run it; `None` when none can (the renderer then cannot
/// start).
pub fn first_suitable_gpu(gpus: &[GpuInfo], required_extensions: &[Vec<u8>]) -> (r: Option<usize>)
    ensures
        r is None <==> (forall|i: int|
            0 <= i < gpus@.len() ==> !gpu_suitable(#[trigger] gpus@[i], required_extensions@)),
        r matches Some(i) ==> {
            &&& i < gpus@.len()
            &&& gpu_suitable(gpus@[i as int], required_extensions@)
            &&& forall|j: int| 0 <= j < i ==> !gpu_suitable(#[trigger] gpus@[j], required_extensions@)
        },
{
    let mut i: usize = 0;
    while i < gpus.len()
        invariant
            i <= gpus@.len(),
            forall|j: int| 0 <= j < i ==> !gpu_suitable(#[trigger] gpus@[j], required_extensions@),
        decreases gpus@.len() - i,
    {
        if is_suitable_gpu(&gpus[i], required_extensions) {
            return Some(i);
        }
        i = i + 1;
    }
    None
}

/// The index of the first queue family that can run graphics work, or
/// `None` when there is none (the renderer then cannot start).
pub fn graphics_queue_family(queue_family_flags: &[u32]) -> (r: Option<u32>)
    requires
        queue_family_flags@.len() <= u32::MAX as int + 1,
    ensures
        r is None <==> !any_graphics(queue_family_flags@),
        r matches Some(i) ==> {
            &&& i < queue_family_flags@.len()
            &&& has_graphics(queue_family_flags@[i as int])
            &&& forall|j: int| 0 <= j < i ==> !has_graphics(#[trigger] queue_family_flags@[j])
        },
        r is None <==> forall|j: int|
            0 <= j < queue_family_flags@.len() ==> #[trigger] queue_family_flags@[j] & 1u32 != 1u32,
        r matches Some(i) ==> {
            &&& queue_family_flags@[i as int] & 1u32 == 1u32
            &&& forall|j: int| 0 <= j < i ==> #[trigger] queue_family_flags@[j] & 1u32 != 1u32
        },
{
    proof {
        lemma_any_graphics_meaning(queue_family_flags@);
        assert forall|j: int| 0 <= j < queue_family_flags@.len() implies has_graphics(
            #[trigger] queue_family_flags@[j],
        ) == (queue_family_flags@[j] & 1u32 == 1u32) by {
            lemma_graphics_bit(queue_family_flags@[j], 0);
        }
    }
    let mut i: usize = 0;
    while i < queue_family_flags.len()
        invariant
            i <= queue_family_flags@.len(),
            queue_family_flags@.len() <= u32::MAX as int + 1,
            forall|j: int| 0 <= j < i ==> !has_graphics(#[trigger] queue_family_flags@[j]),
        decreases queue_family_flags@.len() - i,
    {
        if supports_graphics(queue_family_flags[i]) {
            return Some(i as u32);
        }
        i = i + 1;
    }
    None
}

} // verus!
