use vstd::prelude::*;

verus! {

/// The identity of an object of the host scene: an index in the low half of
/// `bits`, a generation in the high half.
#[derive(Clone, Copy, Debug, PartialEq, Eq, Hash, Structural)]
pub struct Entity {
    pub bits: u64,
}

impl Entity {
    /// The entity with the given index and generation zero.
    pub fn from_raw(index: u32) -> (entity: Entity)
        ensures
            entity.bits == index,
    {
        Entity { bits: index as u64 }
    }

    /// The entity whose identity is the given 64 bits.
    pub fn from_bits(bits: u64) -> (entity: Entity)
        ensures
            entity.bits == bits,
    {
        Entity { bits }
    }

    /// The 64 bits that identify this entity.
    pub fn to_bits(&self) -> (bits: u64)
        ensures
            bits == self.bits,
    {
        self.bits
    }
}

} // verus!
