//! The fields of an entity, unpacked.
use crate::generation::EntityGen;
use crate::index::EntityIndex;
use vstd::prelude::*;

verus! {

/// The index and generation that an [`Entity`](crate::entity::Entity) packs.
#[derive(Clone, Copy, PartialEq, Eq, Structural, Hash, Debug)]
#[non_exhaustive]
pub struct EntityData {
    /// The index of the entity.
    pub index: EntityIndex,
    /// The generation of the entity.
    pub generation: EntityGen,
}

} // verus!
