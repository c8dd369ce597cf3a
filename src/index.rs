//! The slot index of an entity.
use std::cmp::Ordering;
use vstd::prelude::*;

verus! {

/// The largest value an index can hold; one above it is reserved.
pub const INDEX_MAX: u32 = 4294967294;

/// An entity's slot index, a value in `0..=INDEX_MAX`.
///
/// The value is stored incremented by one, so the stored word is never zero.
/// Values compare by their decoded value, never by the stored word.
#[derive(Clone, Copy, PartialEq, Eq, Structural, Ord, Hash, Debug)]
pub struct EntityIndex {
    bits: u32,
}

impl View for EntityIndex {
    type V = u32;

    /// The decoded value of the index.
    closed spec fn view(&self) -> u32 {
        if self.bits == 0 {
            u32::MAX
        } else {
            (self.bits - 1) as u32
        }
    }
}

/// The order of two integers, as `Ord::cmp` gives it.
pub open spec fn order_of(a: int, b: int) -> Ordering {
    if a < b {
        Ordering::Less
    } else if a == b {
        Ordering::Equal
    } else {
        Ordering::Greater
    }
}

/// Two indices with the same value are the same index.
pub proof fn lemma_index_view_injective(a: EntityIndex, b: EntityIndex)
    requires
        a@ == b@,
    ensures
        a == b,
{
}

impl EntityIndex {
    /// Well-formedness: the stored word is never zero.
    #[verifier::type_invariant]
    pub closed spec fn wf(self) -> bool {
        self.bits != 0
    }

    /// The index with the given value, as a spec value.
    pub closed spec fn spec_new(value: u32) -> EntityIndex {
        EntityIndex { bits: (value + 1) as u32 }
    }

    /// The smallest index, `0`.
    #[must_use]
    pub fn min() -> (r: EntityIndex)
        ensures
            r@ == 0,
    {
        EntityIndex { bits: 1 }
    }

    /// The largest index, `INDEX_MAX`.
    #[must_use]
    pub fn max() -> (r: EntityIndex)
        ensures
            r@ == INDEX_MAX,
    {
        EntityIndex { bits: u32::MAX }
    }

    /// The placeholder index, which is [`EntityIndex::max`].
    #[must_use]
    pub fn placeholder() -> (r: EntityIndex)
        ensures
            r@ == INDEX_MAX,
    {
        EntityIndex::max()
    }

    /// Creates an index from its stored word, the value plus one.
    ///
    /// Returns `None` when `bits` is zero, which is no stored word.
    #[must_use]
    pub fn from_bits(bits: u32) -> (r: Option<EntityIndex>)
        ensures
            r is None <==> bits == 0,
            r matches Some(i) ==> i@ + 1 == bits && i == EntityIndex::spec_new((bits - 1) as u32),
    {
        if bits == 0 {
            None
        } else {
            Some(EntityIndex { bits })
        }
    }

    /// The stored word of this index: its value plus one, never zero.
    #[must_use]
    pub fn to_bits(self) -> (r: u32)
        ensures
            r == self@ + 1,
    {
        proof {
            use_type_invariant(self);
        }
        self.bits
    }

    /// Creates an index with the given value.
    ///
    /// Returns `None` when `index` is `u32::MAX`, the reserved value.
    #[must_use]
    pub fn new(index: u32) -> (r: Option<EntityIndex>)
        ensures
            r is None <==> index == u32::MAX,
            r matches Some(i) ==> i@ == index && i == EntityIndex::spec_new(index),
    {
        EntityIndex::from_bits(index.wrapping_add(1))
    }

    /// The value of this index.
    #[must_use]
    pub fn get(self) -> (r: u32)
        ensures
            r == self@,
            r <= INDEX_MAX,
    {
        proof {
            use_type_invariant(self);
        }
        self.bits - 1
    }

    /// Whether this is the placeholder index.
    #[must_use]
    pub fn is_placeholder(self) -> (r: bool)
        ensures
            r == (self@ == INDEX_MAX),
    {
        proof {
            use_type_invariant(self);
        }
        self.bits == u32::MAX
    }
}

impl Default for EntityIndex {
    /// The default index is the placeholder.
    fn default() -> (r: EntityIndex)
        ensures
            r@ == INDEX_MAX,
    {
        EntityIndex::placeholder()
    }
}

impl PartialOrd for EntityIndex {
    fn partial_cmp(&self, other: &EntityIndex) -> (r: Option<Ordering>) {
        proof {
            use_type_invariant(self);
            use_type_invariant(other);
        }
        if self.bits < other.bits {
            Some(Ordering::Less)
        } else if self.bits == other.bits {
            Some(Ordering::Equal)
        } else {
            Some(Ordering::Greater)
        }
    }
}

impl vstd::std_specs::cmp::PartialOrdSpecImpl for EntityIndex {
    open spec fn obeys_partial_cmp_spec() -> bool {
        true
    }

    open spec fn partial_cmp_spec(&self, other: &EntityIndex) -> Option<Ordering> {
        Some(order_of(self@ as int, other@ as int))
    }
}

} // verus!
