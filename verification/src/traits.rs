//! Marker traits of the library.
use vstd::prelude::*;

verus! {

/// A resource that can be bound into a descriptor set.
pub trait DescriptorSetBinding {
}

} // verus!
