//! Descriptor pools, set layouts and sets.
pub mod descriptor_set_layout;

use vstd::prelude::*;
use crate::vkraw::{DESCRIPTOR_POOL_CREATE_FREE_DESCRIPTOR_SET, DESCRIPTOR_POOL_CREATE_UPDATE_AFTER_BIND};

verus! {

/// A `VkDescriptorPoolSize`.
#[derive(Clone, Copy, Debug, PartialEq, Eq, Structural)]
pub struct DescriptorPoolSize {
    /// `VkDescriptorType`.
    pub ty: i32,
    pub descriptor_count: u32,
}

/// The total number of descriptors in `sizes`.
pub open spec fn total_descriptors(sizes: Seq<DescriptorPoolSize>) -> int
    decreases sizes.len(),
{
    if sizes.len() == 0 {
        0
    } else {
        total_descriptors(sizes.drop_last()) + sizes.last().descriptor_count
    }
}

/// What the library chooses for a descriptor pool.
#[derive(Clone, Copy, Debug, PartialEq, Eq, Structural)]
pub struct DescriptorPoolPlan {
    pub max_sets: u32,
    /// `VkDescriptorPoolCreateFlags`: the intersection of update-after-bind
    /// and free-descriptor-set, which share no bit.
    pub flags: u32,
}

proof fn lemma_total_prefix_bounded(sizes: Seq<DescriptorPoolSize>, i: int)
    requires
        0 <= i <= sizes.len(),
    ensures
        total_descriptors(sizes.take(i)) <= total_descriptors(sizes),
    decreases sizes.len(),
{
    if i < sizes.len() {
        assert(sizes.drop_last().take(i) =~= sizes.take(i));
        lemma_total_prefix_bounded(sizes.drop_last(), i);
    } else {
        assert(sizes.take(i) =~= sizes);
    }
}

impl DescriptorPoolPlan {
    /// A pool that can allocate as many sets as it has descriptors.
    pub fn new(descriptor_sizes: &Vec<DescriptorPoolSize>) -> (r: Self)
        requires
            total_descriptors(descriptor_sizes@) <= u32::MAX,
        ensures
            r.max_sets == total_descriptors(descriptor_sizes@),
            r.flags == DESCRIPTOR_POOL_CREATE_UPDATE_AFTER_BIND & DESCRIPTOR_POOL_CREATE_FREE_DESCRIPTOR_SET,
            r.flags == 0,
    {
        let mut max_sets: u32 = 0;
        let mut i: usize = 0;
        while i < descriptor_sizes.len()
            invariant
                i <= descriptor_sizes@.len(),
                total_descriptors(descriptor_sizes@) <= u32::MAX,
                max_sets == total_descriptors(descriptor_sizes@.take(i as int)),
            decreases descriptor_sizes@.len() - i,
        {
            proof {
                assert(descriptor_sizes@.take(i + 1).drop_last() =~= descriptor_sizes@.take(i as int));
                lemma_total_prefix_bounded(descriptor_sizes@, i + 1);
            }
            max_sets = max_sets + descriptor_sizes[i].descriptor_count;
            i = i + 1;
        }
        proof {
            assert(descriptor_sizes@.take(descriptor_sizes@.len() as int) =~= descriptor_sizes@);
        }
        let flags = DESCRIPTOR_POOL_CREATE_UPDATE_AFTER_BIND & DESCRIPTOR_POOL_CREATE_FREE_DESCRIPTOR_SET;
        assert(2u32 & 1u32 == 0u32) by (bit_vector);
        DescriptorPoolPlan { max_sets, flags }
    }
}

} // verus!
