use std::cmp::Ordering;
use std::collections::hash_map::DefaultHasher;
use std::hash::Hash;
use std::hash::Hasher;

use indexable_array::U8IndexableArray;

#[test]
fn u8_works() {
    let mut array = U8IndexableArray::new_with_default_value(0);
    for i in 0..=u8::MAX {
        array.set(i, i);
    }
    for i in 0..=u8::MAX {
        assert_eq!(i, *array.get(i));
    }
}

#[test]
fn u8_construction_uniformity() {
    let array = U8IndexableArray::new_with_default_value(42u32);
    for i in 0..=u8::MAX {
        assert_eq!(42u32, *array.get(i));
    }
}

#[test]
fn u8_totality_at_boundaries() {
    let mut array = U8IndexableArray::new_with_default_value(5i64);
    assert_eq!(5i64, *array.get(0));
    assert_eq!(5i64, *array.get(u8::MAX));
    *array.get_mut(0) = -1;
    *array.get_mut(u8::MAX) = -2;
    assert_eq!(-1i64, *array.get(0));
    assert_eq!(-2i64, *array.get(u8::MAX));
}

#[test]
fn u8_write_read_round_trip_independence() {
    let mut array = U8IndexableArray::new_with_default_value(0u16);
    array.set(7, 700);
    assert_eq!(700, *array.get(7));
    for i in 0..=u8::MAX {
        if i != 7 {
            assert_eq!(0, *array.get(i));
        }
    }
}

#[test]
fn u8_full_coverage() {
    let mut array = U8IndexableArray::new_with_default_value(0u16);
    for i in 0..=u8::MAX {
        array.set(i, i as u16);
    }
    let mut seen = [false; 256];
    for i in 0..=u8::MAX {
        let v = *array.get(i);
        assert!(!seen[v as usize], "index {} aliases another slot", i);
        seen[v as usize] = true;
    }
    let count = seen.iter().filter(|s| **s).count();
    assert_eq!(256, count);
}

#[test]
fn u8_default_construction_determinism() {
    let a: U8IndexableArray<u32> = Default::default();
    let b: U8IndexableArray<u32> = Default::default();
    assert!(a == b);
    for i in 0..=u8::MAX {
        assert_eq!(0u32, *a.get(i));
    }
}

#[test]
fn u8_clone_matches_original() {
    let mut array = U8IndexableArray::new_with_default_value(1u8);
    array.set(9, 99);
    let copy = array.clone();
    for i in 0..=u8::MAX {
        assert_eq!(*array.get(i), *copy.get(i));
    }
    assert!(array == copy);
}

#[test]
fn u8_equality_is_element_wise() {
    let mut a = U8IndexableArray::new_with_default_value(3u32);
    let mut b = U8IndexableArray::new_with_default_value(3u32);
    assert!(a == b);
    b.set(200, 4);
    assert!(a != b);
    a.set(200, 4);
    assert!(a == b);
}

#[test]
fn u8_ordering_is_lexicographic() {
    let a = U8IndexableArray::new_with_default_value(1u32);
    let mut b = U8IndexableArray::new_with_default_value(1u32);
    assert_eq!(Some(Ordering::Equal), a.partial_cmp(&b));
    b.set(0, 2);
    assert_eq!(Some(Ordering::Less), a.partial_cmp(&b));
    assert_eq!(Some(Ordering::Greater), b.partial_cmp(&a));
    assert!(a < b);
    let mut c = U8IndexableArray::new_with_default_value(1u32);
    c.set(u8::MAX, 0);
    assert_eq!(Some(Ordering::Greater), a.partial_cmp(&c));
    let mut d = U8IndexableArray::new_with_default_value(1u32);
    d.set(5, 9);
    d.set(6, 0);
    assert_eq!(Some(Ordering::Less), a.partial_cmp(&d));
}

#[test]
fn u8_equal_arrays_hash_identically() {
    let mut a = U8IndexableArray::new_with_default_value(10u64);
    let mut b = U8IndexableArray::new_with_default_value(10u64);
    a.set(33, 12);
    b.set(33, 12);
    assert!(a == b);
    let mut ha = DefaultHasher::new();
    a.hash(&mut ha);
    let mut hb = DefaultHasher::new();
    b.hash(&mut hb);
    assert_eq!(ha.finish(), hb.finish());
}

#[test]
fn u8_iteration_forms_are_complete() {
    let mut array = U8IndexableArray::new_with_default_value(0u16);
    for i in 0..=u8::MAX {
        array.set(i, i as u16);
    }
    let slice = array.as_slice();
    assert_eq!(256, slice.len());
    for (i, v) in slice.iter().enumerate() {
        assert_eq!(i as u16, *v);
    }
    let copied = array.to_vec();
    assert_eq!(256, copied.len());
    for (i, v) in copied.iter().enumerate() {
        assert_eq!(i as u16, *v);
    }
    let owned = array.into_vec();
    assert_eq!(256, owned.len());
    for (i, v) in owned.into_iter().enumerate() {
        assert_eq!(i as u16, v);
    }
}

#[test]
fn u8_mutable_slice_writes_reach_slots() {
    let mut array = U8IndexableArray::new_with_default_value(0u32);
    {
        let slice = array.as_mut_slice();
        assert_eq!(256, slice.len());
        for (i, v) in slice.iter_mut().enumerate() {
            *v = i as u32;
        }
    }
    for i in 0..=u8::MAX {
        assert_eq!(i as u32, *array.get(i));
    }
}
