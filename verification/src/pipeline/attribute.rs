//! Vertex attributes.
use vstd::prelude::*;

verus! {

/// A vertex attribute: its size and its offset in the vertex, in bytes.
#[derive(Clone, Copy, Debug, PartialEq, Eq, Structural)]
pub struct Attribute {
    pub size: usize,
    pub offset: usize,
}

/// A vertex type that lists its attributes.
pub trait AttributeDescriptor {
    fn get_attributes() -> &'static [Attribute];
}

} // verus!
