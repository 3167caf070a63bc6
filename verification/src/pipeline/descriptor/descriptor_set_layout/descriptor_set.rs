//! Writing descriptors into a set.
use vstd::prelude::*;
use crate::pipeline::descriptor::descriptor_set_layout::{bindings_ascending, LayoutAllocInfo};
use crate::seqs::{first_where, lemma_first_where_found, lemma_first_where_none};
use crate::vkraw::IMAGE_LAYOUT_SHADER_READ_ONLY_OPTIMAL;

verus! {

/// The set's layout has no such binding.
#[derive(Clone, Copy, Debug, PartialEq, Eq, Structural)]
pub struct NoSuchBinding {
    pub binding: u32,
}

/// What a descriptor write points at.
#[derive(Clone, Copy, Debug, PartialEq, Eq, Structural)]
pub enum DescriptorResource {
    CombinedImageSampler { image_view: u64, image_layout: i32, sampler: u64 },
    Buffer { buffer: u64, offset: u64, range: u64 },
}

/// A `VkWriteDescriptorSet` with a single image or buffer info.
#[derive(Clone, Copy, Debug, PartialEq, Eq, Structural)]
pub struct DescriptorWrite {
    pub dst_set: u64,
    pub dst_binding: u32,
    pub dst_array_element: u32,
    pub descriptor_type: i32,
    pub descriptor_count: u32,
    pub resource: DescriptorResource,
}

/// The entry allocates binding number `binding`.
pub open spec fn is_binding(entry: (u32, LayoutAllocInfo), binding: u32) -> bool {
    entry.0 == binding
}

/// The descriptor type of `binding` in a layout allocating `alloc_info`.
pub open spec fn binding_type(alloc_info: Seq<(u32, LayoutAllocInfo)>, binding: u32) -> Option<i32> {
    match first_where(alloc_info, |e: (u32, LayoutAllocInfo)| is_binding(e, binding)) {
        Some(i) => Some(alloc_info[i].1.typ),
        None => None,
    }
}

fn find_binding_type(alloc_info: &Vec<(u32, LayoutAllocInfo)>, binding: u32) -> (r: Option<i32>)
    ensures
        r == binding_type(alloc_info@, binding),
{
    let ghost p = |e: (u32, LayoutAllocInfo)| is_binding(e, binding);
    let mut i: usize = 0;
    while i < alloc_info.len()
        invariant
            i <= alloc_info@.len(),
            p == |e: (u32, LayoutAllocInfo)| is_binding(e, binding),
            forall|k: int| 0 <= k < i ==> !p(#[trigger] alloc_info@[k]),
        decreases alloc_info@.len() - i,
    {
        if alloc_info[i].0 == binding {
            proof {
                assert(p(alloc_info@[i as int]));
                lemma_first_where_found(alloc_info@, p, i as int);
            }
            return Some(alloc_info[i].1.typ);
        }
        assert(!p(alloc_info@[i as int]));
        i = i + 1;
    }
    proof {
        lemma_first_where_none(alloc_info@, p);
    }
    None
}

/// The write of what `resource` describes into element `array_offset` of
/// `binding` of set `set`, with the binding's descriptor type; refused when
/// the layout has no such binding. The write carries a single image or
/// buffer info, so it writes one descriptor.
pub open spec fn descriptor_write_spec(
    set: u64,
    alloc_info: Seq<(u32, LayoutAllocInfo)>,
    binding: u32,
    array_offset: u32,
    resource: DescriptorResource,
) -> Result<DescriptorWrite, NoSuchBinding> {
    match binding_type(alloc_info, binding) {
        None => Err(NoSuchBinding { binding }),
        Some(typ) => Ok(
            DescriptorWrite {
                dst_set: set,
                dst_binding: binding,
                dst_array_element: array_offset,
                descriptor_type: typ,
                descriptor_count: 1,
                resource,
            },
        ),
    }
}

fn descriptor_write(
    set: u64,
    alloc_info: &Vec<(u32, LayoutAllocInfo)>,
    binding: u32,
    array_offset: u32,
    resource: DescriptorResource,
) -> (r: Result<DescriptorWrite, NoSuchBinding>)
    ensures
        r == descriptor_write_spec(set, alloc_info@, binding, array_offset, resource),
{
    match find_binding_type(alloc_info, binding) {
        None => Err(NoSuchBinding { binding }),
        Some(typ) => Ok(
            DescriptorWrite {
                dst_set: set,
                dst_binding: binding,
                dst_array_element: array_offset,
                descriptor_type: typ,
                descriptor_count: 1,
                resource,
            },
        ),
    }
}

/// The write that binds an image view, in the shader read layout, with a
/// sampler. `_array_count` is not used: the single image info sets the count.
pub fn combined_image_sampler_write(
    set: u64,
    alloc_info: &Vec<(u32, LayoutAllocInfo)>,
    image_view: u64,
    sampler: u64,
    binding: u32,
    array_offset: u32,
    _array_count: u32,
) -> (r: Result<DescriptorWrite, NoSuchBinding>)
    requires
        bindings_ascending(alloc_info@),
    ensures
        r == descriptor_write_spec(
            set,
            alloc_info@,
            binding,
            array_offset,
            DescriptorResource::CombinedImageSampler {
                image_view,
                image_layout: IMAGE_LAYOUT_SHADER_READ_ONLY_OPTIMAL,
                sampler,
            },
        ),
{
    descriptor_write(
        set,
        alloc_info,
        binding,
        array_offset,
        DescriptorResource::CombinedImageSampler {
            image_view,
            image_layout: IMAGE_LAYOUT_SHADER_READ_ONLY_OPTIMAL,
            sampler,
        },
    )
}

/// The write that binds the first `range` bytes of a buffer.
/// `_array_count` is not used: the single buffer info sets the count.
pub fn buffer_write(
    set: u64,
    alloc_info: &Vec<(u32, LayoutAllocInfo)>,
    buffer: u64,
    range: u64,
    binding: u32,
    array_offset: u32,
    _array_count: u32,
) -> (r: Result<DescriptorWrite, NoSuchBinding>)
    requires
        bindings_ascending(alloc_info@),
    ensures
        r == descriptor_write_spec(
            set,
            alloc_info@,
            binding,
            array_offset,
            DescriptorResource::Buffer { buffer, offset: 0, range },
        ),
{
    descriptor_write(
        set,
        alloc_info,
        binding,
        array_offset,
        DescriptorResource::Buffer { buffer, offset: 0, range },
    )
}

} // verus!
