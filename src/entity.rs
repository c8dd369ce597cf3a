//! Entity identifiers: an index and a generation packed into one word.
use crate::data::EntityData;
use crate::generation::EntityGen;
use crate::index::{order_of, EntityIndex, INDEX_MAX};
use std::cmp::Ordering;
use vstd::std_specs::cmp::PartialOrdSpec;
use vstd::prelude::*;

verus! {

/// `2^32`, the weight of the index half of a packed word.
pub const HALF: u64 = 4294967296;

/// The canonical word of an identifier: the index value in the upper 32 bits,
/// the generation in the lower 32 bits.
pub open spec fn pack(index: u32, generation: u32) -> u64 {
    (index * HALF + generation) as u64
}

/// What a canonical word decodes to: `None` when its upper half is all ones,
/// the reserved index, otherwise its (index, generation) halves.
pub open spec fn unpack(bits: u64) -> Option<(u32, u32)> {
    if bits / HALF == u32::MAX {
        None
    } else {
        Some(((bits / HALF) as u32, (bits % HALF) as u32))
    }
}

/// Lexicographic order on (index, generation) pairs.
pub open spec fn lex_lt(a: (u32, u32), b: (u32, u32)) -> bool {
    a.0 < b.0 || (a.0 == b.0 && a.1 < b.1)
}

/// Shifting and masking a word split it into its two halves.
proof fn lemma_split(bits: u64)
    ensures
        bits >> 32u64 == bits / 4294967296,
        bits & 0xffff_ffffu64 == bits % 4294967296,
{
    assert(bits >> 32u64 == bits / 4294967296) by (bit_vector);
    assert(bits & 0xffff_ffffu64 == bits % 4294967296) by (bit_vector);
}

/// Shifting one half up and or-ing in the other joins two halves.
proof fn lemma_join(hi: u64, lo: u64)
    requires
        hi < 4294967296,
        lo < 4294967296,
    ensures
        (hi << 32u64) | lo == hi * 4294967296 + lo,
{
    assert((hi << 32u64) | lo == hi * 4294967296 + lo) by (bit_vector)
        requires
            hi < 4294967296,
            lo < 4294967296,
    ;
}

/// A pseudo-unique identifier of an entity.
///
/// Its one word holds the index's stored word (value plus one) in the upper
/// 32 bits and the generation in the lower 32 bits, so it is never zero, and
/// comparing words orders by index first and generation second.
#[derive(Clone, Copy, PartialEq, Eq, Structural, Ord, Hash, Debug)]
pub struct Entity {
    bits: u64,
}

impl View for Entity {
    type V = (u32, u32);

    /// The (index, generation) values of the identifier.
    closed spec fn view(&self) -> (u32, u32) {
        let hi = self.bits / HALF;
        (if hi == 0 { u32::MAX } else { (hi - 1) as u32 }, (self.bits % HALF) as u32)
    }
}

impl Entity {
    /// Well-formedness: the index half of the word is never zero.
    #[verifier::type_invariant]
    pub closed spec fn wf(self) -> bool {
        self.bits >= HALF
    }

    /// The word the identifier is stored as.
    pub closed spec fn storage(self) -> u64 {
        self.bits
    }

    /// The identifier with the given index and generation, as a spec value.
    pub closed spec fn spec_new(index: EntityIndex, generation: EntityGen) -> Entity {
        Entity { bits: ((index@ + 1) * HALF + generation@) as u64 }
    }

    /// Creates an identifier from an index and a generation.
    #[must_use]
    pub fn new(index: EntityIndex, generation: EntityGen) -> (r: Entity)
        ensures
            r@ == (index@, generation@),
            r == Entity::spec_new(index, generation),
    {
        let hi = index.to_bits() as u64;
        let lo = generation.to_bits() as u64;
        proof {
            lemma_join(hi, lo);
        }
        Entity { bits: (hi << 32) | lo }
    }

    /// The placeholder identifier: the placeholder index, generation zero.
    #[must_use]
    pub fn placeholder() -> (r: Entity)
        ensures
            r@ == (INDEX_MAX, 0u32),
    {
        Entity::new(EntityIndex::placeholder(), EntityGen::min())
    }

    /// The fields of this identifier.
    #[must_use]
    pub fn data(&self) -> (r: EntityData)
        ensures
            r.index@ == self@.0,
            r.generation@ == self@.1,
    {
        EntityData { index: self.index(), generation: self.generation() }
    }

    /// The canonical word of this identifier: the index value in the upper
    /// 32 bits and the generation in the lower 32 bits.
    #[must_use]
    pub fn to_bits(self) -> (r: u64)
        ensures
            r == pack(self@.0, self@.1),
    {
        proof {
            use_type_invariant(self);
        }
        self.bits - HALF
    }

    /// Decodes a canonical word.
    ///
    /// Returns `None` exactly when the upper 32 bits are all ones, the
    /// reserved index; every other word is an identifier.
    #[must_use]
    pub fn from_bits(bits: u64) -> (r: Option<Entity>)
        ensures
            r is None <==> bits / HALF == u32::MAX,
            r is None <==> unpack(bits) is None,
            r matches Some(e) ==> unpack(bits) == Some(e@) && e.wf(),
    {
        proof {
            lemma_split(bits);
        }
        let index = EntityIndex::new((bits >> 32) as u32);
        let generation = EntityGen::from_bits((bits & 0xffff_ffff) as u32);
        match (index, generation) {
            (Some(index), Some(generation)) => Some(Entity::new(index, generation)),
            _ => None,
        }
    }

    /// The index of this identifier.
    #[must_use]
    pub fn index(self) -> (r: EntityIndex)
        ensures
            r@ == self@.0,
    {
        proof {
            use_type_invariant(self);
            lemma_split(self.bits);
        }
        EntityIndex::from_bits((self.bits >> 32) as u32).unwrap()
    }

    /// The generation of this identifier.
    #[must_use]
    pub fn generation(self) -> (r: EntityGen)
        ensures
            r@ == self@.1,
    {
        proof {
            lemma_split(self.bits);
        }
        EntityGen::from_bits((self.bits & 0xffff_ffff) as u32).unwrap()
    }
}

impl Default for Entity {
    /// The default identifier is the placeholder.
    fn default() -> (r: Entity)
        ensures
            r@ == (INDEX_MAX, 0u32),
    {
        Entity::placeholder()
    }
}

impl PartialOrd for Entity {
    fn partial_cmp(&self, other: &Entity) -> (r: Option<Ordering>) {
        proof {
            use_type_invariant(self);
            use_type_invariant(other);
            lemma_storage_order(*self, *other);
        }
        if self.bits < other.bits {
            Some(Ordering::Less)
        } else if self.bits == other.bits {
            Some(Ordering::Equal)
        } else {
            Some(Ordering::Greater)
        }
    }

    fn lt(&self, other: &Entity) -> (r: bool) {
        proof {
            use_type_invariant(self);
            use_type_invariant(other);
            lemma_storage_order(*self, *other);
        }
        self.bits < other.bits
    }

    fn le(&self, other: &Entity) -> (r: bool) {
        proof {
            use_type_invariant(self);
            use_type_invariant(other);
            lemma_storage_order(*self, *other);
        }
        self.bits <= other.bits
    }

    fn gt(&self, other: &Entity) -> (r: bool) {
        proof {
            use_type_invariant(self);
            use_type_invariant(other);
            lemma_storage_order(*self, *other);
        }
        self.bits > other.bits
    }

    fn ge(&self, other: &Entity) -> (r: bool) {
        proof {
            use_type_invariant(self);
            use_type_invariant(other);
            lemma_storage_order(*self, *other);
        }
        self.bits >= other.bits
    }
}

impl vstd::std_specs::cmp::PartialOrdSpecImpl for Entity {
    open spec fn obeys_partial_cmp_spec() -> bool {
        true
    }

    open spec fn partial_cmp_spec(&self, other: &Entity) -> Option<Ordering> {
        Some(order_of(pack(self@.0, self@.1) as int, pack(other@.0, other@.1) as int))
    }
}

impl From<(EntityGen, EntityIndex)> for Entity {
    fn from(value: (EntityGen, EntityIndex)) -> (r: Entity) {
        Entity::new(value.1, value.0)
    }
}

impl vstd::std_specs::convert::FromSpecImpl<(EntityGen, EntityIndex)> for Entity {
    open spec fn obeys_from_spec() -> bool {
        true
    }

    open spec fn from_spec(v: (EntityGen, EntityIndex)) -> Entity {
        Entity::spec_new(v.1, v.0)
    }
}

impl From<(EntityIndex, EntityGen)> for Entity {
    fn from(value: (EntityIndex, EntityGen)) -> (r: Entity) {
        Entity::new(value.0, value.1)
    }
}

impl vstd::std_specs::convert::FromSpecImpl<(EntityIndex, EntityGen)> for Entity {
    open spec fn obeys_from_spec() -> bool {
        true
    }

    open spec fn from_spec(v: (EntityIndex, EntityGen)) -> Entity {
        Entity::spec_new(v.0, v.1)
    }
}

/// The stored word orders as the canonical word does, one above it.
proof fn lemma_storage_order(a: Entity, b: Entity)
    requires
        a.wf(),
        b.wf(),
    ensures
        a.bits == pack(a@.0, a@.1) + HALF,
        b.bits == pack(b@.0, b@.1) + HALF,
{
}

/// Two identifiers with the same index and generation values are the same
/// identifier.
pub proof fn lemma_entity_view_injective(a: Entity, b: Entity)
    requires
        a@ == b@,
    ensures
        a == b,
{
}

/// Decoding the canonical word of an identifier gives that identifier back:
/// the word is accepted, and the one identifier with its decoded fields is
/// the identifier itself.
pub proof fn lemma_round_trip(e: Entity)
    requires
        e.wf(),
    ensures
        unpack(pack(e@.0, e@.1)) == Some(e@),
        forall|d: Entity| d.wf() && unpack(pack(e@.0, e@.1)) == Some(d@) ==> d == e,
{
}

/// A word is rejected exactly when its upper 32 bits are all ones.
pub proof fn lemma_reserved_rejection(bits: u64)
    ensures
        unpack(bits) is None <==> (bits >> 32u64) == 0xffff_ffffu64,
{
    lemma_split(bits);
}

/// Identifiers order as their (index, generation) pairs do, lexicographically.
pub proof fn lemma_order_is_lexicographic(a: Entity, b: Entity)
    requires
        a.wf(),
        b.wf(),
    ensures
        a.partial_cmp_spec(&b) == Some(Ordering::Less) <==> lex_lt(a@, b@),
        a.partial_cmp_spec(&b) == Some(Ordering::Equal) <==> a == b,
        a.partial_cmp_spec(&b) == Some(Ordering::Greater) <==> lex_lt(b@, a@),
{
}

/// The stored word of a well-formed identifier is never zero; it is the
/// index value plus one in the upper half and the generation in the lower.
pub proof fn lemma_storage_nonzero(e: Entity)
    requires
        e.wf(),
    ensures
        e.storage() != 0,
        e.storage() == (e@.0 + 1) * HALF + e@.1,
{
}

} // verus!
