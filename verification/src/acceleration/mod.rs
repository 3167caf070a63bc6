//! Building a triangle acceleration structure.
use vstd::prelude::*;
use crate::buffer::BufferInfo;
use crate::vkraw::{
    ACCELERATION_STRUCTURE_TYPE_BOTTOM_LEVEL_KHR,
    ACCELERATION_STRUCTURE_TYPE_TOP_LEVEL_KHR,
    BUFFER_USAGE_ACCELERATION_STRUCTURE_STORAGE_KHR,
    BUFFER_USAGE_SHADER_DEVICE_ADDRESS,
    BUFFER_USAGE_STORAGE_BUFFER,
    BUILD_ACCELERATION_STRUCTURE_PREFER_FAST_TRACE_KHR,
    MEMORY_PROPERTY_DEVICE_LOCAL,
    MEMORY_PROPERTY_HOST_VISIBLE,
    SHARING_MODE_EXCLUSIVE,
};

verus! {

/// The primitive count of each geometry: a triangle per three indices.
pub open spec fn primitive_counts_spec(index_counts: Seq<u32>) -> Seq<u32> {
    index_counts.map_values(|c: u32| (c / 3) as u32)
}

/// The number of triangles of each geometry, from its index count.
pub fn primitive_counts(index_counts: &Vec<u32>) -> (r: Vec<u32>)
    ensures
        r@ == primitive_counts_spec(index_counts@),
{
    let mut r: Vec<u32> = Vec::new();
    let mut i: usize = 0;
    while i < index_counts.len()
        invariant
            i <= index_counts@.len(),
            r@ == primitive_counts_spec(index_counts@.take(i as int)),
        decreases index_counts@.len() - i,
    {
        r.push(index_counts[i] / 3);
        proof {
            assert(primitive_counts_spec(index_counts@.take(i + 1)) =~= primitive_counts_spec(
                index_counts@.take(i as int),
            ).push((index_counts@[i as int] / 3) as u32));
        }
        i = i + 1;
    }
    proof {
        assert(index_counts@.take(index_counts@.len() as int) =~= index_counts@);
    }
    r
}

/// The buffer that stores an acceleration structure of `size` bytes.
pub fn acceleration_structure_buffer_info(size: u64) -> (r: BufferInfo)
    ensures
        r == (BufferInfo {
            size,
            sharing_mode: SHARING_MODE_EXCLUSIVE,
            usage: BUFFER_USAGE_ACCELERATION_STRUCTURE_STORAGE_KHR | BUFFER_USAGE_SHADER_DEVICE_ADDRESS,
            properties: MEMORY_PROPERTY_DEVICE_LOCAL,
        }),
{
    BufferInfo {
        size,
        sharing_mode: SHARING_MODE_EXCLUSIVE,
        usage: BUFFER_USAGE_ACCELERATION_STRUCTURE_STORAGE_KHR | BUFFER_USAGE_SHADER_DEVICE_ADDRESS,
        properties: MEMORY_PROPERTY_DEVICE_LOCAL,
    }
}

/// The scratch buffer of `size` bytes used while building.
pub fn scratch_buffer_info(size: u64) -> (r: BufferInfo)
    ensures
        r == (BufferInfo {
            size,
            sharing_mode: SHARING_MODE_EXCLUSIVE,
            usage: BUFFER_USAGE_ACCELERATION_STRUCTURE_STORAGE_KHR | BUFFER_USAGE_STORAGE_BUFFER
                | BUFFER_USAGE_SHADER_DEVICE_ADDRESS,
            properties: MEMORY_PROPERTY_DEVICE_LOCAL | MEMORY_PROPERTY_HOST_VISIBLE,
        }),
{
    BufferInfo {
        size,
        sharing_mode: SHARING_MODE_EXCLUSIVE,
        usage: BUFFER_USAGE_ACCELERATION_STRUCTURE_STORAGE_KHR | BUFFER_USAGE_STORAGE_BUFFER
            | BUFFER_USAGE_SHADER_DEVICE_ADDRESS,
        properties: MEMORY_PROPERTY_DEVICE_LOCAL | MEMORY_PROPERTY_HOST_VISIBLE,
    }
}

/// The types and flags of an acceleration structure build.
#[derive(Clone, Copy, Debug, PartialEq, Eq, Structural)]
pub struct BuildKinds {
    /// `VkAccelerationStructureTypeKHR` of the build geometry info.
    pub build_type: i32,
    /// `VkBuildAccelerationStructureFlagsKHR` of the build.
    pub build_flags: u32,
    /// `VkAccelerationStructureTypeKHR` of the structure created.
    pub created_type: i32,
}

/// The build is described as top level, preferring fast tracing, and the
/// structure is created as bottom level.
pub fn build_kinds() -> (r: BuildKinds)
    ensures
        r == (BuildKinds {
            build_type: ACCELERATION_STRUCTURE_TYPE_TOP_LEVEL_KHR,
            build_flags: BUILD_ACCELERATION_STRUCTURE_PREFER_FAST_TRACE_KHR,
            created_type: ACCELERATION_STRUCTURE_TYPE_BOTTOM_LEVEL_KHR,
        }),
{
    BuildKinds {
        build_type: ACCELERATION_STRUCTURE_TYPE_TOP_LEVEL_KHR,
        build_flags: BUILD_ACCELERATION_STRUCTURE_PREFER_FAST_TRACE_KHR,
        created_type: ACCELERATION_STRUCTURE_TYPE_BOTTOM_LEVEL_KHR,
    }
}

} // verus!
