//! Buffers: how they are described and which mapped ranges they track.
use vstd::prelude::*;
use crate::vkraw::MEMORY_PROPERTY_HOST_COHERENT;

verus! {

/// How to create a buffer (all Vulkan values raw).
#[derive(Clone, Copy, Debug, PartialEq, Eq, Structural)]
pub struct BufferInfo {
    pub size: u64,
    /// `VkSharingMode`.
    pub sharing_mode: i32,
    /// `VkBufferUsageFlags`.
    pub usage: u32,
    /// `VkMemoryPropertyFlags` of the backing memory.
    pub properties: u32,
}

/// A range of mapped memory, in bytes.
#[derive(Clone, Copy, Debug, PartialEq, Eq, Structural)]
pub struct MappedMemoryRange {
    pub offset: u64,
    pub size: u64,
}

/// One end of a byte range.
#[derive(Clone, Copy, Debug, PartialEq, Eq, Structural)]
pub enum RangeBound {
    Included(u64),
    Excluded(u64),
    Unbounded,
}

/// The first byte of a range that starts at `start`.
pub open spec fn range_start(start: RangeBound) -> int {
    match start {
        RangeBound::Included(b) => b as int,
        RangeBound::Excluded(b) => b + 1,
        RangeBound::Unbounded => 0,
    }
}

/// The byte after the last of a range that ends at `end`, in a buffer of
/// `size` bytes.
pub open spec fn range_end(end: RangeBound, size: u64) -> int {
    match end {
        RangeBound::Included(b) => b + 1,
        RangeBound::Excluded(b) => b as int,
        RangeBound::Unbounded => size as int,
    }
}

/// The bounds can be resolved in 64 bits and do not cross.
pub open spec fn range_resolvable(start: RangeBound, end: RangeBound, size: u64) -> bool {
    range_start(start) <= u64::MAX && range_end(end, size) <= u64::MAX && range_start(start)
        <= range_end(end, size)
}

/// The byte range of a buffer of `size` bytes between `start` and `end`.
pub fn resolve_range(start: RangeBound, end: RangeBound, size: u64) -> (r: MappedMemoryRange)
    requires
        range_resolvable(start, end, size),
    ensures
        r.offset == range_start(start),
        r.size == range_end(end, size) - range_start(start),
{
    let first = match start {
        RangeBound::Included(b) => b,
        RangeBound::Excluded(b) => b + 1,
        RangeBound::Unbounded => 0,
    };
    let last = match end {
        RangeBound::Included(b) => b + 1,
        RangeBound::Excluded(b) => b,
        RangeBound::Unbounded => size,
    };
    MappedMemoryRange { offset: first, size: last - first }
}

/// Memory with `properties` must be flushed and invalidated by hand.
pub open spec fn needs_explicit_flush(properties: u32) -> bool {
    properties & MEMORY_PROPERTY_HOST_COHERENT != MEMORY_PROPERTY_HOST_COHERENT
}

/// The tracked ranges after `ranges` are mapped, in order, into memory with
/// `properties` whose tracked ranges were `kept`: each mapping is recorded
/// as `MappedRanges::record` records it.
pub open spec fn ranges_after(kept: Seq<MappedMemoryRange>, ranges: Seq<MappedMemoryRange>, properties: u32) -> Seq<
    MappedMemoryRange,
>
    decreases ranges.len(),
{
    if ranges.len() == 0 {
        kept
    } else {
        let before = ranges_after(kept, ranges.drop_last(), properties);
        if needs_explicit_flush(properties) {
            before.push(ranges.last())
        } else {
            before
        }
    }
}

/// The ranges of a buffer's memory that have been mapped and that flushing
/// and invalidating cover.
#[derive(Clone, Debug, PartialEq, Eq)]
pub struct MappedRanges {
    ranges: Vec<MappedMemoryRange>,
}

impl MappedRanges {
    pub closed spec fn view(&self) -> Seq<MappedMemoryRange> {
        self.ranges@
    }

    pub fn new() -> (r: Self)
        ensures
            r.view() == Seq::<MappedMemoryRange>::empty(),
    {
        MappedRanges { ranges: Vec::new() }
    }

    /// Records that `range` of memory with `properties` was mapped: it is kept
    /// unless the memory is host coherent.
    pub fn record(&mut self, range: MappedMemoryRange, properties: u32)
        ensures
            needs_explicit_flush(properties) ==> final(self).view() == old(self).view().push(range),
            !needs_explicit_flush(properties) ==> final(self).view() == old(self).view(),
            final(self).view() == ranges_after(old(self).view(), seq![range], properties),
    {
        proof {
            assert(seq![range].drop_last() =~= Seq::<MappedMemoryRange>::empty());
            assert(ranges_after(self.view(), Seq::empty(), properties) == self.view());
            assert(seq![range].last() == range);
        }
        if properties & MEMORY_PROPERTY_HOST_COHERENT != MEMORY_PROPERTY_HOST_COHERENT {
            self.ranges.push(range);
        }
    }

    /// The mapped ranges, in the order they were mapped.
    pub fn ranges(&self) -> (r: &Vec<MappedMemoryRange>)
        ensures
            r@ == self.view(),
    {
        &self.ranges
    }
}

/// Flushing and invalidating cover exactly the ranges mapped so far, in the
/// order they were mapped, when the memory is not host coherent, and nothing
/// more than before when it is.
pub proof fn law_mapped_ranges(kept: Seq<MappedMemoryRange>, ranges: Seq<MappedMemoryRange>, properties: u32)
    ensures
        ranges_after(kept, ranges, properties) == if needs_explicit_flush(properties) {
            kept + ranges
        } else {
            kept
        },
    decreases ranges.len(),
{
    if ranges.len() > 0 {
        law_mapped_ranges(kept, ranges.drop_last(), properties);
        if needs_explicit_flush(properties) {
            assert(kept + ranges =~= (kept + ranges.drop_last()).push(ranges.last()));
        }
    }
}

} // verus!
