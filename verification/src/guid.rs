//! The identity of a host object.

use vstd::prelude::*;

verus! {

/// Stable identity that the host assigns to an object and keeps when the object moves
/// inside its container. It stands for the 128 bits of the host's identifier.
#[derive(Clone, Copy, Debug, PartialEq, Eq, Structural, Hash)]
pub struct Guid {
    pub bits: u128,
}

impl Guid {
    pub fn new(bits: u128) -> (g: Guid)
        ensures
            g.bits == bits,
    {
        Guid { bits }
    }
}

} // verus!
