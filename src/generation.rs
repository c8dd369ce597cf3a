//! The recycling counter of an entity slot.
use vstd::prelude::*;

verus! {

/// An entity's generation: how many times its slot has been reused.
///
/// Every `u32` is a valid generation.
#[derive(Clone, Copy, PartialEq, Eq, Structural, PartialOrd, Ord, Hash, Debug)]
pub struct EntityGen {
    bits: u32,
}

impl View for EntityGen {
    type V = u32;

    closed spec fn view(&self) -> u32 {
        self.bits
    }
}

/// Two generations with the same value are the same generation.
pub proof fn lemma_gen_view_injective(a: EntityGen, b: EntityGen)
    requires
        a@ == b@,
    ensures
        a == b,
{
}

impl EntityGen {
    /// The smallest generation, `0`.
    #[must_use]
    pub fn min() -> (r: EntityGen)
        ensures
            r@ == 0,
    {
        EntityGen { bits: 0 }
    }

    /// The largest generation, `u32::MAX`.
    #[must_use]
    pub fn max() -> (r: EntityGen)
        ensures
            r@ == u32::MAX,
    {
        EntityGen { bits: u32::MAX }
    }

    /// Creates a generation from its bit representation.
    ///
    /// Every bit pattern is valid, so this never returns `None`.
    #[must_use]
    pub fn from_bits(bits: u32) -> (r: Option<EntityGen>)
        ensures
            r matches Some(g) && g@ == bits,
    {
        Some(EntityGen { bits })
    }

    /// The bit representation of this generation.
    #[must_use]
    pub fn to_bits(self) -> (r: u32)
        ensures
            r == self@,
    {
        self.bits
    }

    /// Creates a generation with the given value; never `None`.
    #[must_use]
    pub fn new(generation: u32) -> (r: Option<EntityGen>)
        ensures
            r matches Some(g) && g@ == generation,
    {
        EntityGen::from_bits(generation)
    }

    /// The value of this generation.
    #[must_use]
    pub fn get(self) -> (r: u32)
        ensures
            r == self@,
    {
        self.to_bits()
    }
}

impl Default for EntityGen {
    /// The default generation is [`EntityGen::min`].
    fn default() -> (r: EntityGen)
        ensures
            r@ == 0,
    {
        EntityGen::min()
    }
}

} // verus!
