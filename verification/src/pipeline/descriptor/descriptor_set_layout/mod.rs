//! Descriptor set layouts.
pub mod descriptor_set;

use vstd::prelude::*;

verus! {

/// How many descriptors of which type a binding holds, for which stages.
#[derive(Clone, Copy, Debug, PartialEq, Eq, Structural)]
pub struct LayoutAllocInfo {
    /// `VkShaderStageFlags`.
    pub stages: u32,
    /// `VkDescriptorType`.
    pub typ: i32,
    pub count: u32,
}

/// A `VkDescriptorSetLayoutBinding`.
#[derive(Clone, Copy, Debug, PartialEq, Eq, Structural)]
pub struct DescriptorSetLayoutBinding {
    pub binding: u32,
    pub descriptor_type: i32,
    pub descriptor_count: u32,
    pub stage_flags: u32,
}

pub open spec fn layout_binding_spec(entry: (u32, LayoutAllocInfo)) -> DescriptorSetLayoutBinding {
    DescriptorSetLayoutBinding {
        binding: entry.0,
        descriptor_type: entry.1.typ,
        descriptor_count: entry.1.count,
        stage_flags: entry.1.stages,
    }
}

/// A layout's allocation table, as a map from binding number to allocation
/// lists it: each binding number once, in ascending order.
pub open spec fn bindings_ascending(alloc_info: Seq<(u32, LayoutAllocInfo)>) -> bool {
    forall|i: int, j: int| 0 <= i < j < alloc_info.len() ==> alloc_info[i].0 < alloc_info[j].0
}

/// The layout bindings for `alloc_info` (binding number and allocation, in
/// the order of the binding numbers), one for each entry.
pub fn layout_bindings(alloc_info: &Vec<(u32, LayoutAllocInfo)>) -> (r: Vec<DescriptorSetLayoutBinding>)
    requires
        bindings_ascending(alloc_info@),
    ensures
        r@ == alloc_info@.map_values(|e: (u32, LayoutAllocInfo)| layout_binding_spec(e)),
{
    let mut r: Vec<DescriptorSetLayoutBinding> = Vec::new();
    let mut i: usize = 0;
    while i < alloc_info.len()
        invariant
            i <= alloc_info@.len(),
            r@ == alloc_info@.take(i as int).map_values(|e: (u32, LayoutAllocInfo)| layout_binding_spec(e)),
        decreases alloc_info@.len() - i,
    {
        let (binding, info) = alloc_info[i];
        r.push(
            DescriptorSetLayoutBinding {
                binding,
                descriptor_type: info.typ,
                descriptor_count: info.count,
                stage_flags: info.stages,
            },
        );
        proof {
            assert(r@ =~= alloc_info@.take(i + 1).map_values(|e: (u32, LayoutAllocInfo)| layout_binding_spec(e)));
        }
        i = i + 1;
    }
    proof {
        assert(alloc_info@.take(alloc_info@.len() as int) =~= alloc_info@);
    }
    r
}

} // verus!
