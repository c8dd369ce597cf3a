//! Compact, totally ordered identifiers for slot-based object stores.
//!
//! An [`Entity`] pairs a slot [`EntityIndex`] with an [`EntityGen`] recycling
//! counter and packs both into a single never-zero 64-bit word.
pub mod conversions;
pub mod data;
pub mod entity;
pub mod generation;
pub mod index;

pub use data::EntityData;
pub use entity::Entity;
pub use generation::EntityGen;
pub use index::EntityIndex;
