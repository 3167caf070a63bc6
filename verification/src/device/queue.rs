//! Queue families and the queues the library creates for them.
use vstd::prelude::*;

verus! {

/// A queue family as the library uses it.
#[derive(Clone, Copy, Debug, PartialEq, Eq, Structural, PartialOrd, Ord)]
pub struct QueueFamilyInfo {
    /// `VkQueueFlags` of the family.
    pub flags: u32,
    /// The index that queues of this family are created with.
    pub index: u32,
    pub queue_count: u32,
    /// Whether the family can present to the device's surface.
    pub present_support: bool,
}

/// The families that get queues: those with at least one queue, in order.
pub open spec fn families_with_queues(families: Seq<QueueFamilyInfo>) -> Seq<QueueFamilyInfo> {
    families.filter(|f: QueueFamilyInfo| f.queue_count > 0)
}

/// The queue families for which `Queue::instantiate` creates queues (one
/// queue for each of the family's `queue_count` queue indices).
pub fn instantiate_plan(families: &Vec<QueueFamilyInfo>) -> (r: Vec<QueueFamilyInfo>)
    ensures
        r@ == families_with_queues(families@),
{
    let mut r: Vec<QueueFamilyInfo> = Vec::new();
    let mut i: usize = 0;
    while i < families.len()
        invariant
            i <= families@.len(),
            r@ == families_with_queues(families@.take(i as int)),
        decreases families@.len() - i,
    {
        proof {
            assert(families@.take(i + 1).drop_last() =~= families@.take(i as int));
            reveal_with_fuel(Seq::filter, 1);
        }
        if families[i].queue_count > 0 {
            r.push(families[i]);
        }
        i = i + 1;
    }
    proof {
        assert(families@.take(families@.len() as int) =~= families@);
    }
    r
}

} // verus!
