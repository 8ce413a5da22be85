//! The four kinds of GPU buffer, how each is allocated, and the checks on
//! filling and copying them.

use vstd::prelude::*;
use crate::vulkan::{
    BUFFER_USAGE_INDEX_BUFFER, BUFFER_USAGE_TRANSFER_DST, BUFFER_USAGE_TRANSFER_SRC,
    BUFFER_USAGE_UNIFORM_BUFFER, BUFFER_USAGE_VERTEX_BUFFER,
};

verus! {

/// Marks a buffer of vertex indices, filled from a staging buffer.
pub struct Index;

/// Marks a host-visible buffer that data is written into before it is
/// copied to a buffer in device memory.
pub struct Staging;

/// Marks a host-visible buffer of shader uniforms.
pub struct Uniform;

/// Marks a buffer of vertices, filled from a staging buffer.
pub struct Vertex;

/// Where the allocator is asked to place a buffer's memory.
#[derive(Clone, Copy, Debug, PartialEq, Eq, Structural)]
pub enum MemoryUsage {
    /// Memory the host can reach (`vk_mem::MemoryUsage::AutoPreferHost`).
    AutoPreferHost,
    /// Memory local to the GPU (`vk_mem::MemoryUsage::AutoPreferDevice`).
    AutoPreferDevice,
}

/// How a buffer of one kind is created.
#[derive(Clone, Copy, Debug, PartialEq, Eq, Structural)]
pub struct AllocationPlan {
    /// `VkBufferUsageFlags`.
    pub usage_flags: u32,
    pub memory: MemoryUsage,
    /// Whether the memory stays mapped for sequential writes from the host
    /// (`HOST_ACCESS_SEQUENTIAL_WRITE | MAPPED`).
    pub host_mapped: bool,
}

/// Why a write into a buffer is refused.
#[derive(Clone, Copy, Debug, PartialEq, Eq, Structural)]
pub enum BufferError {
    /// The data has more bytes than the buffer.
    DataExceedsBufferSize,
}

impl Staging {
    /// A transfer source in host memory, kept mapped.
    pub fn allocation() -> (p: AllocationPlan)
        ensures
            p == (AllocationPlan {
                usage_flags: BUFFER_USAGE_TRANSFER_SRC,
                memory: MemoryUsage::AutoPreferHost,
                host_mapped: true,
            }),
    {
        AllocationPlan {
            usage_flags: BUFFER_USAGE_TRANSFER_SRC,
            memory: MemoryUsage::AutoPreferHost,
            host_mapped: true,
        }
    }
}

impl Vertex {
    /// A vertex buffer and transfer destination in device memory.
    pub fn allocation() -> (p: AllocationPlan)
        ensures
            p == (AllocationPlan {
                usage_flags: (BUFFER_USAGE_VERTEX_BUFFER | BUFFER_USAGE_TRANSFER_DST) as u32,
                memory: MemoryUsage::AutoPreferDevice,
                host_mapped: false,
            }),
            p.usage_flags == 130,
    {
        assert((BUFFER_USAGE_VERTEX_BUFFER | BUFFER_USAGE_TRANSFER_DST) == 130u32) by (bit_vector);
        AllocationPlan {
            usage_flags: BUFFER_USAGE_VERTEX_BUFFER | BUFFER_USAGE_TRANSFER_DST,
            memory: MemoryUsage::AutoPreferDevice,
            host_mapped: false,
        }
    }
}

impl Index {
    /// An index buffer and transfer destination in device memory.
    pub fn allocation() -> (p: AllocationPlan)
        ensures
            p == (AllocationPlan {
                usage_flags: (BUFFER_USAGE_INDEX_BUFFER | BUFFER_USAGE_TRANSFER_DST) as u32,
                memory: MemoryUsage::AutoPreferDevice,
                host_mapped: false,
            }),
            p.usage_flags == 66,
    {
        assert((BUFFER_USAGE_INDEX_BUFFER | BUFFER_USAGE_TRANSFER_DST) == 66u32) by (bit_vector);
        AllocationPlan {
            usage_flags: BUFFER_USAGE_INDEX_BUFFER | BUFFER_USAGE_TRANSFER_DST,
            memory: MemoryUsage::AutoPreferDevice,
            host_mapped: false,
        }
    }
}

impl Uniform {
    /// A uniform buffer in host memory, kept mapped.
    pub fn allocation() -> (p: AllocationPlan)
        ensures
            p == (AllocationPlan {
                usage_flags: BUFFER_USAGE_UNIFORM_BUFFER,
                memory: MemoryUsage::AutoPreferHost,
                host_mapped: true,
            }),
    {
        AllocationPlan {
            usage_flags: BUFFER_USAGE_UNIFORM_BUFFER,
            memory: MemoryUsage::AutoPreferHost,
            host_mapped: true,
        }
    }
}

/// Whether `byte_len` bytes may be written into a buffer of `size` bytes:
/// they must fit.
pub fn check_write(byte_len: usize, size: u64) -> (r: Result<(), BufferError>)
    ensures
        r is Ok <==> byte_len <= size,
        r matches Err(e) ==> e == BufferError::DataExceedsBufferSize,
{
    if byte_len as u64 <= size {
        Ok(())
    } else {
        Err(BufferError::DataExceedsBufferSize)
    }
}

/// The number of bytes copied from a buffer of `src_size` bytes into one of
/// `dst_size` bytes: as many as both hold.
pub fn copy_size(src_size: u64, dst_size: u64) -> (n: u64)
    ensures
        n <= src_size,
        n <= dst_size,
        n == src_size || n == dst_size,
{
    if src_size <= dst_size {
        src_size
    } else {
        dst_size
    }
}

} // verus!
