use entity_id::{Entity, EntityData, EntityGen, EntityIndex};
use std::cmp::Ordering;

fn entity(index: u32, generation: u32) -> Entity {
    Entity::new(
        EntityIndex::new(index).unwrap(),
        EntityGen::new(generation).unwrap(),
    )
}

#[test]
fn to_bits_packs_index_high_generation_low() {
    let e = entity(5, 2);
    assert_eq!(e.to_bits(), (5u64 << 32) | 2);
}

#[test]
fn from_bits_zero_is_index_zero_generation_zero() {
    let e = Entity::from_bits(0).unwrap();
    assert_eq!(e.index().get(), 0);
    assert_eq!(e.generation().get(), 0);
    assert_eq!(e.to_bits(), 0);
}

#[test]
fn from_bits_rejects_reserved_index() {
    assert_eq!(Entity::from_bits(0xFFFF_FFFF_0000_0000), None);
    assert_eq!(Entity::from_bits(u64::MAX), None);
    assert_eq!(Entity::from_bits(0xFFFF_FFFF_1234_5678), None);
}

#[test]
fn from_bits_accepts_largest_index() {
    let e = Entity::from_bits(0xFFFF_FFFE_FFFF_FFFF).unwrap();
    assert_eq!(e.index().get(), u32::MAX - 1);
    assert!(e.index().is_placeholder());
    assert_eq!(e.generation().get(), u32::MAX);
}

#[test]
fn round_trip_through_bits() {
    let cases = [(0, 0), (0, u32::MAX), (5, 2), (1, 0), (u32::MAX - 1, 0), (u32::MAX - 1, u32::MAX), (12345, 678)];
    for (i, g) in cases {
        let e = entity(i, g);
        assert_eq!(Entity::from_bits(e.to_bits()), Some(e));
        assert_eq!(e.index().get(), i);
        assert_eq!(e.generation().get(), g);
    }
}

#[test]
fn same_index_orders_by_generation() {
    let a = entity(7, 1);
    let b = entity(7, 2);
    assert!(a < b);
    assert!(b > a);
    assert!(a <= b);
    assert!(b >= a);
    assert_eq!(a.partial_cmp(&b), Some(Ordering::Less));
    assert_eq!(a.cmp(&b), Ordering::Less);
}

#[test]
fn index_orders_before_generation() {
    let a = entity(1, u32::MAX);
    let b = entity(2, 0);
    assert!(a < b);
    assert_eq!(b.partial_cmp(&a), Some(Ordering::Greater));
    assert_eq!(a.partial_cmp(&a), Some(Ordering::Equal));
    assert!(a <= a && a >= a && !(a < a) && !(a > a));
}

#[test]
fn ordering_matches_lexicographic_pairs() {
    let values = [0u32, 1, 2, 1000, u32::MAX - 1];
    let gens = [0u32, 1, u32::MAX];
    let mut all = Vec::new();
    for &i in &values {
        for &g in &gens {
            all.push(entity(i, g));
        }
    }
    for a in &all {
        for b in &all {
            let pa = (a.index().get(), a.generation().get());
            let pb = (b.index().get(), b.generation().get());
            assert_eq!(a < b, pa < pb);
            assert_eq!(a.partial_cmp(b), Some(pa.cmp(&pb)));
            assert_eq!(a.to_bits() < b.to_bits(), a < b);
        }
    }
}

#[test]
fn placeholder_entity() {
    let p = Entity::placeholder();
    assert!(p.index().is_placeholder());
    assert_eq!(p.generation().get(), 0);
    assert_eq!(p.index(), EntityIndex::placeholder());
    assert_eq!(Entity::default(), p);
    assert_eq!(p.to_bits(), 0xFFFF_FFFE_0000_0000);
}

#[test]
fn index_boundaries() {
    assert_eq!(EntityIndex::new(u32::MAX), None);
    assert_eq!(EntityIndex::new(u32::MAX - 1), Some(EntityIndex::max()));
    assert!(EntityIndex::max().is_placeholder());
    assert_eq!(EntityIndex::placeholder(), EntityIndex::max());
    assert_eq!(EntityIndex::new(0), Some(EntityIndex::min()));
    assert!(!EntityIndex::min().is_placeholder());
    assert_eq!(EntityIndex::min().get(), 0);
    assert_eq!(EntityIndex::default(), EntityIndex::placeholder());
}

#[test]
fn index_stored_word_is_value_plus_one() {
    let i = EntityIndex::new(41).unwrap();
    assert_eq!(i.get(), 41);
    assert_eq!(i.to_bits(), 42);
    assert_eq!(EntityIndex::from_bits(42), Some(i));
    assert_eq!(EntityIndex::from_bits(0), None);
    assert_eq!(EntityIndex::from_bits(u32::MAX), Some(EntityIndex::max()));
    assert_eq!(EntityIndex::min().to_bits(), 1);
}

#[test]
fn index_orders_by_value() {
    let a = EntityIndex::new(3).unwrap();
    let b = EntityIndex::new(4).unwrap();
    assert!(a < b);
    assert_eq!(b.partial_cmp(&a), Some(Ordering::Greater));
    assert_eq!(a.cmp(&a), Ordering::Equal);
}

#[test]
fn generation_values() {
    assert_eq!(EntityGen::min().get(), 0);
    assert_eq!(EntityGen::max().get(), u32::MAX);
    assert_eq!(EntityGen::default(), EntityGen::min());
    let g = EntityGen::new(9).unwrap();
    assert_eq!(g.get(), 9);
    assert_eq!(g.to_bits(), 9);
    assert_eq!(EntityGen::from_bits(9), Some(g));
    assert!(EntityGen::new(1).unwrap() < EntityGen::new(2).unwrap());
}

#[test]
fn entity_from_tuples_in_either_order() {
    let i = EntityIndex::new(11).unwrap();
    let g = EntityGen::new(3).unwrap();
    let a = Entity::from((i, g));
    let b = Entity::from((g, i));
    assert_eq!(a, b);
    assert_eq!(a, Entity::new(i, g));
    assert_eq!(a.to_bits(), (11u64 << 32) | 3);
}

#[test]
fn entity_data_holds_fields() {
    let e = entity(8, 6);
    let d: EntityData = e.data();
    assert_eq!(d.index.get(), 8);
    assert_eq!(d.generation.get(), 6);
}

#[test]
fn entity_is_one_aligned_word() {
    assert_eq!(std::mem::size_of::<Entity>(), 8);
    assert_eq!(std::mem::align_of::<Entity>(), 8);
    assert_eq!(std::mem::size_of::<EntityIndex>(), 4);
    assert_eq!(std::mem::size_of::<EntityGen>(), 4);
}

#[test]
fn index_narrowing_conversions() {
    let i = EntityIndex::new(300).unwrap();
    assert!(u8::try_from(i).is_err());
    assert_eq!(u16::try_from(i), Ok(300u16));
    assert!(i8::try_from(i).is_err());
    assert_eq!(i16::try_from(i), Ok(300i16));
    assert_eq!(i32::try_from(i), Ok(300i32));
    assert_eq!(usize::try_from(i), Ok(300usize));
    assert_eq!(isize::try_from(i), Ok(300isize));
    let big = EntityIndex::max();
    assert!(i32::try_from(big).is_err());
    assert!(u16::try_from(big).is_err());
    assert_eq!(u8::try_from(EntityIndex::new(255).unwrap()), Ok(255u8));
    assert_eq!(i32::try_from(EntityIndex::new(i32::MAX as u32).unwrap()), Ok(i32::MAX));
    assert!(i32::try_from(EntityIndex::new(i32::MAX as u32 + 1).unwrap()).is_err());
}

#[test]
fn index_widening_conversions() {
    let i = EntityIndex::new(70000).unwrap();
    assert_eq!(u32::from(i), 70000);
    assert_eq!(u64::from(i), 70000);
    assert_eq!(u128::from(i), 70000);
    assert_eq!(i64::from(i), 70000);
    assert_eq!(i128::from(i), 70000);
    assert_eq!(u64::from(EntityIndex::max()), u32::MAX as u64 - 1);
}

#[test]
fn index_from_small_integers() {
    assert_eq!(EntityIndex::from(7u8).get(), 7);
    assert_eq!(EntityIndex::from(u8::MAX).get(), 255);
    assert_eq!(EntityIndex::from(u16::MAX).get(), 65535);
}

#[test]
fn index_from_wide_integers() {
    assert_eq!(EntityIndex::try_from(5u32).unwrap().get(), 5);
    assert!(EntityIndex::try_from(u32::MAX).is_err());
    assert_eq!(EntityIndex::try_from(u32::MAX - 1), Ok(EntityIndex::max()));
    assert!(EntityIndex::try_from(u32::MAX as u64).is_err());
    assert!(EntityIndex::try_from(1u64 << 40).is_err());
    assert_eq!(EntityIndex::try_from(9u64).unwrap().get(), 9);
    assert_eq!(EntityIndex::try_from(9u128).unwrap().get(), 9);
    assert!(EntityIndex::try_from(u128::MAX).is_err());
    assert_eq!(EntityIndex::try_from(9usize).unwrap().get(), 9);
    assert!(EntityIndex::try_from(-1i8).is_err());
    assert_eq!(EntityIndex::try_from(100i8).unwrap().get(), 100);
    assert!(EntityIndex::try_from(-1i16).is_err());
    assert_eq!(EntityIndex::try_from(i32::MAX).unwrap().get(), i32::MAX as u32);
    assert!(EntityIndex::try_from(i32::MIN).is_err());
    assert!(EntityIndex::try_from(-5i64).is_err());
    assert!(EntityIndex::try_from(u32::MAX as i64).is_err());
    assert_eq!(EntityIndex::try_from((u32::MAX - 1) as i64), Ok(EntityIndex::max()));
    assert!(EntityIndex::try_from(i128::MIN).is_err());
    assert_eq!(EntityIndex::try_from(3isize).unwrap().get(), 3);
    assert!(EntityIndex::try_from(-3isize).is_err());
}
