//! Conversions between [`EntityIndex`] and the standard integer types.
//!
//! Every conversion into an index goes through [`index_from_u32`]; every
//! narrowing conversion out of one fails with `TryFromIntError` when the value
//! does not fit the target type.
use crate::index::{EntityIndex, INDEX_MAX};
use std::num::TryFromIntError;
use vstd::prelude::*;
use vstd::std_specs::convert::{FromSpecImpl, TryFromSpecImpl};

verus! {

/// The index that an integer converts to: `Ok` when the integer is an index
/// value, the range error otherwise.
pub open spec fn index_from_int(v: int) -> Result<EntityIndex, TryFromIntError> {
    if 0 <= v <= INDEX_MAX {
        Ok(EntityIndex::spec_new(v as u32))
    } else {
        Err(arbitrary())
    }
}

/// The error of a conversion whose value is out of range.
fn range_error() -> (e: TryFromIntError)
    ensures
        e == arbitrary::<TryFromIntError>(),
{
    u8::try_from(u16::MAX).unwrap_err()
}

/// Finishes a conversion into an index from the result of converting the
/// integer to `u32`: the reserved value `u32::MAX` is out of range too.
pub fn index_from_u32(value: Result<u32, TryFromIntError>) -> (r: Result<EntityIndex, TryFromIntError>)
    ensures
        value matches Ok(v) ==> r == index_from_int(v as int),
        value matches Err(e) ==> r == Err::<EntityIndex, TryFromIntError>(e),
{
    match value {
        Ok(v) => match EntityIndex::new(v) {
            Some(i) => Ok(i),
            None => Err(range_error()),
        },
        Err(e) => Err(e),
    }
}

impl TryFrom<u32> for EntityIndex {
    type Error = TryFromIntError;

    fn try_from(value: u32) -> (r: Result<EntityIndex, TryFromIntError>) {
        index_from_u32(Ok(value))
    }
}

impl TryFromSpecImpl<u32> for EntityIndex {
    open spec fn obeys_try_from_spec() -> bool {
        true
    }

    open spec fn try_from_spec(v: u32) -> Result<EntityIndex, TryFromIntError> {
        index_from_int(v as int)
    }
}

impl TryFrom<u64> for EntityIndex {
    type Error = TryFromIntError;

    fn try_from(value: u64) -> (r: Result<EntityIndex, TryFromIntError>) {
        index_from_u32(u32::try_from(value))
    }
}

impl TryFromSpecImpl<u64> for EntityIndex {
    open spec fn obeys_try_from_spec() -> bool {
        true
    }

    open spec fn try_from_spec(v: u64) -> Result<EntityIndex, TryFromIntError> {
        index_from_int(v as int)
    }
}

impl TryFrom<u128> for EntityIndex {
    type Error = TryFromIntError;

    fn try_from(value: u128) -> (r: Result<EntityIndex, TryFromIntError>) {
        index_from_u32(u32::try_from(value))
    }
}

impl TryFromSpecImpl<u128> for EntityIndex {
    open spec fn obeys_try_from_spec() -> bool {
        true
    }

    open spec fn try_from_spec(v: u128) -> Result<EntityIndex, TryFromIntError> {
        index_from_int(v as int)
    }
}

impl TryFrom<usize> for EntityIndex {
    type Error = TryFromIntError;

    fn try_from(value: usize) -> (r: Result<EntityIndex, TryFromIntError>) {
        index_from_u32(u32::try_from(value))
    }
}

impl TryFromSpecImpl<usize> for EntityIndex {
    open spec fn obeys_try_from_spec() -> bool {
        true
    }

    open spec fn try_from_spec(v: usize) -> Result<EntityIndex, TryFromIntError> {
        index_from_int(v as int)
    }
}

impl TryFrom<i8> for EntityIndex {
    type Error = TryFromIntError;

    fn try_from(value: i8) -> (r: Result<EntityIndex, TryFromIntError>) {
        index_from_u32(u32::try_from(value))
    }
}

impl TryFromSpecImpl<i8> for EntityIndex {
    open spec fn obeys_try_from_spec() -> bool {
        true
    }

    open spec fn try_from_spec(v: i8) -> Result<EntityIndex, TryFromIntError> {
        index_from_int(v as int)
    }
}

impl TryFrom<i16> for EntityIndex {
    type Error = TryFromIntError;

    fn try_from(value: i16) -> (r: Result<EntityIndex, TryFromIntError>) {
        index_from_u32(u32::try_from(value))
    }
}

impl TryFromSpecImpl<i16> for EntityIndex {
    open spec fn obeys_try_from_spec() -> bool {
        true
    }

    open spec fn try_from_spec(v: i16) -> Result<EntityIndex, TryFromIntError> {
        index_from_int(v as int)
    }
}

impl TryFrom<i32> for EntityIndex {
    type Error = TryFromIntError;

    fn try_from(value: i32) -> (r: Result<EntityIndex, TryFromIntError>) {
        index_from_u32(u32::try_from(value))
    }
}

impl TryFromSpecImpl<i32> for EntityIndex {
    open spec fn obeys_try_from_spec() -> bool {
        true
    }

    open spec fn try_from_spec(v: i32) -> Result<EntityIndex, TryFromIntError> {
        index_from_int(v as int)
    }
}

impl TryFrom<i64> for EntityIndex {
    type Error = TryFromIntError;

    fn try_from(value: i64) -> (r: Result<EntityIndex, TryFromIntError>) {
        index_from_u32(u32::try_from(value))
    }
}

impl TryFromSpecImpl<i64> for EntityIndex {
    open spec fn obeys_try_from_spec() -> bool {
        true
    }

    open spec fn try_from_spec(v: i64) -> Result<EntityIndex, TryFromIntError> {
        index_from_int(v as int)
    }
}

impl TryFrom<i128> for EntityIndex {
    type Error = TryFromIntError;

    fn try_from(value: i128) -> (r: Result<EntityIndex, TryFromIntError>) {
        index_from_u32(u32::try_from(value))
    }
}

impl TryFromSpecImpl<i128> for EntityIndex {
    open spec fn obeys_try_from_spec() -> bool {
        true
    }

    open spec fn try_from_spec(v: i128) -> Result<EntityIndex, TryFromIntError> {
        index_from_int(v as int)
    }
}

impl TryFrom<isize> for EntityIndex {
    type Error = TryFromIntError;

    fn try_from(value: isize) -> (r: Result<EntityIndex, TryFromIntError>) {
        index_from_u32(u32::try_from(value))
    }
}

impl TryFromSpecImpl<isize> for EntityIndex {
    open spec fn obeys_try_from_spec() -> bool {
        true
    }

    open spec fn try_from_spec(v: isize) -> Result<EntityIndex, TryFromIntError> {
        index_from_int(v as int)
    }
}

impl From<u8> for EntityIndex {
    fn from(value: u8) -> (r: EntityIndex) {
        EntityIndex::new(u32::from(value)).unwrap()
    }
}

impl FromSpecImpl<u8> for EntityIndex {
    open spec fn obeys_from_spec() -> bool {
        true
    }

    open spec fn from_spec(v: u8) -> EntityIndex {
        EntityIndex::spec_new(v as u32)
    }
}

impl From<u16> for EntityIndex {
    fn from(value: u16) -> (r: EntityIndex) {
        EntityIndex::new(u32::from(value)).unwrap()
    }
}

impl FromSpecImpl<u16> for EntityIndex {
    open spec fn obeys_from_spec() -> bool {
        true
    }

    open spec fn from_spec(v: u16) -> EntityIndex {
        EntityIndex::spec_new(v as u32)
    }
}

impl TryFrom<EntityIndex> for u8 {
    type Error = TryFromIntError;

    fn try_from(value: EntityIndex) -> (r: Result<u8, TryFromIntError>) {
        u8::try_from(value.get())
    }
}

impl TryFromSpecImpl<EntityIndex> for u8 {
    open spec fn obeys_try_from_spec() -> bool {
        true
    }

    open spec fn try_from_spec(v: EntityIndex) -> Result<u8, TryFromIntError> {
        if v@ <= u8::MAX {
            Ok(v@ as u8)
        } else {
            Err(arbitrary())
        }
    }
}

impl TryFrom<EntityIndex> for u16 {
    type Error = TryFromIntError;

    fn try_from(value: EntityIndex) -> (r: Result<u16, TryFromIntError>) {
        u16::try_from(value.get())
    }
}

impl TryFromSpecImpl<EntityIndex> for u16 {
    open spec fn obeys_try_from_spec() -> bool {
        true
    }

    open spec fn try_from_spec(v: EntityIndex) -> Result<u16, TryFromIntError> {
        if v@ <= u16::MAX {
            Ok(v@ as u16)
        } else {
            Err(arbitrary())
        }
    }
}

impl TryFrom<EntityIndex> for usize {
    type Error = TryFromIntError;

    fn try_from(value: EntityIndex) -> (r: Result<usize, TryFromIntError>) {
        usize::try_from(value.get())
    }
}

impl TryFromSpecImpl<EntityIndex> for usize {
    open spec fn obeys_try_from_spec() -> bool {
        true
    }

    open spec fn try_from_spec(v: EntityIndex) -> Result<usize, TryFromIntError> {
        if v@ <= usize::MAX {
            Ok(v@ as usize)
        } else {
            Err(arbitrary())
        }
    }
}

impl TryFrom<EntityIndex> for i8 {
    type Error = TryFromIntError;

    fn try_from(value: EntityIndex) -> (r: Result<i8, TryFromIntError>) {
        i8::try_from(value.get())
    }
}

impl TryFromSpecImpl<EntityIndex> for i8 {
    open spec fn obeys_try_from_spec() -> bool {
        true
    }

    open spec fn try_from_spec(v: EntityIndex) -> Result<i8, TryFromIntError> {
        if v@ <= i8::MAX {
            Ok(v@ as i8)
        } else {
            Err(arbitrary())
        }
    }
}

impl TryFrom<EntityIndex> for i16 {
    type Error = TryFromIntError;

    fn try_from(value: EntityIndex) -> (r: Result<i16, TryFromIntError>) {
        i16::try_from(value.get())
    }
}

impl TryFromSpecImpl<EntityIndex> for i16 {
    open spec fn obeys_try_from_spec() -> bool {
        true
    }

    open spec fn try_from_spec(v: EntityIndex) -> Result<i16, TryFromIntError> {
        if v@ <= i16::MAX {
            Ok(v@ as i16)
        } else {
            Err(arbitrary())
        }
    }
}

impl TryFrom<EntityIndex> for i32 {
    type Error = TryFromIntError;

    fn try_from(value: EntityIndex) -> (r: Result<i32, TryFromIntError>) {
        let v = value.get();
        if v <= i32::MAX as u32 {
            Ok(v as i32)
        } else {
            Err(range_error())
        }
    }
}

impl TryFromSpecImpl<EntityIndex> for i32 {
    open spec fn obeys_try_from_spec() -> bool {
        true
    }

    open spec fn try_from_spec(v: EntityIndex) -> Result<i32, TryFromIntError> {
        if v@ <= i32::MAX {
            Ok(v@ as i32)
        } else {
            Err(arbitrary())
        }
    }
}

impl TryFrom<EntityIndex> for isize {
    type Error = TryFromIntError;

    fn try_from(value: EntityIndex) -> (r: Result<isize, TryFromIntError>) {
        isize::try_from(value.get())
    }
}

impl TryFromSpecImpl<EntityIndex> for isize {
    open spec fn obeys_try_from_spec() -> bool {
        true
    }

    open spec fn try_from_spec(v: EntityIndex) -> Result<isize, TryFromIntError> {
        if v@ <= isize::MAX {
            Ok(v@ as isize)
        } else {
            Err(arbitrary())
        }
    }
}

impl From<EntityIndex> for u32 {
    fn from(value: EntityIndex) -> (r: u32) {
        value.get() as u32
    }
}

impl FromSpecImpl<EntityIndex> for u32 {
    open spec fn obeys_from_spec() -> bool {
        true
    }

    open spec fn from_spec(v: EntityIndex) -> u32 {
        v@ as u32
    }
}

impl From<EntityIndex> for u64 {
    fn from(value: EntityIndex) -> (r: u64) {
        value.get() as u64
    }
}

impl FromSpecImpl<EntityIndex> for u64 {
    open spec fn obeys_from_spec() -> bool {
        true
    }

    open spec fn from_spec(v: EntityIndex) -> u64 {
        v@ as u64
    }
}

impl From<EntityIndex> for u128 {
    fn from(value: EntityIndex) -> (r: u128) {
        value.get() as u128
    }
}

impl FromSpecImpl<EntityIndex> for u128 {
    open spec fn obeys_from_spec() -> bool {
        true
    }

    open spec fn from_spec(v: EntityIndex) -> u128 {
        v@ as u128
    }
}

impl From<EntityIndex> for i64 {
    fn from(value: EntityIndex) -> (r: i64) {
        value.get() as i64
    }
}

impl FromSpecImpl<EntityIndex> for i64 {
    open spec fn obeys_from_spec() -> bool {
        true
    }

    open spec fn from_spec(v: EntityIndex) -> i64 {
        v@ as i64
    }
}

impl From<EntityIndex> for i128 {
    fn from(value: EntityIndex) -> (r: i128) {
        value.get() as i128
    }
}

impl FromSpecImpl<EntityIndex> for i128 {
    open spec fn obeys_from_spec() -> bool {
        true
    }

    open spec fn from_spec(v: EntityIndex) -> i128 {
        v@ as i128
    }
}

} // verus!
