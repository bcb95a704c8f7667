use b3::bit_traits::U1;
use b3::bit_vec::{capacity_in_bits, from_elem, into_bitvec, BitVec};
use b3::error::B3Error;
use b3::slice::BitSlice;
use b3::util::BitRange;

#[test]
fn test_push() {
    let mut vec = BitVec::new();

    for i in 1..=16 {
        vec.push(U1::new(1));
        assert_eq!(vec.len(), i);
    }
    let mut iter = vec.iter();
    let mut seen = 0;
    while let Some(b) = iter.next() {
        assert_eq!(b, U1::new(1));
        seen += 1;
    }
    assert_eq!(seen, 16);
}

#[test]
fn test_pop() {
    let mut vec = into_bitvec(&[0, 0, 0, 0, 0, 0, 0, 0, 1, 1, 1, 1, 1, 1, 1, 1, 0]);
    assert_eq!(vec.pop().unwrap(), U1::new(0));
    assert_eq!(vec.len(), 16);
    assert_eq!(vec.pop().unwrap(), U1::new(1));
}

#[test]
fn test_get_slice() {
    let vec = into_bitvec(&[0, 0, 0, 0, 0, 0, 0, 0, 1, 1, 1, 1, 1, 1, 1, 1]);
    let slice = vec.get_slice(BitRange::starting_at(3)).expect("valid slice");
    assert_eq!(slice.len(), 13);
    assert_eq!(slice, BitSlice::new(&[0b00000000, 0b11111111], 3, 16));

    let slice = vec.get_slice(BitRange::up_to_inclusive(5)).expect("valid slice");
    assert_eq!(slice.len(), 6);
    assert_eq!(slice, BitSlice::new(&[0b00000000], 0, 6));

    let slice = vec.get_slice(BitRange::new(3, 11)).expect("valid slice");
    assert_eq!(slice.len(), 8);
    assert_eq!(slice, BitSlice::new(&[0b00000000, 0b11111111], 3, 11));
}

#[test]
fn test_bit_slice_mut() {
    let mut vec = into_bitvec(&[0]);
    let mut slice = vec.get_slice_mut(BitRange::full()).expect("valid slice");
    assert_eq!(slice.len(), 1);
    slice.set(0, U1::new(1));
    assert_eq!(slice.at(0), U1::new(1));
}

#[test]
fn push_then_pop_restores_in_reverse() {
    let mut vec = into_bitvec(&[1, 0, 1]);
    let pushed = [1u32, 1, 0, 1, 0, 0, 1, 1, 0];
    for &b in pushed.iter() {
        vec.push(U1::new(b));
    }
    assert_eq!(vec.len(), 12);
    for &b in pushed.iter().rev() {
        assert_eq!(vec.pop(), Some(U1::new(b)));
    }
    assert_eq!(vec.len(), 3);
    assert_eq!(vec.get_slice(BitRange::full()).unwrap(), into_bitvec(&[1, 0, 1]));
}

#[test]
fn pop_of_empty_is_none() {
    let mut vec = BitVec::new();
    assert_eq!(vec.pop(), None);
    assert_eq!(vec.len(), 0);
}

#[test]
fn every_range_within_length_slices_the_same_bits() {
    let bits = [1u8, 0, 1, 1, 0, 0, 1, 0, 1, 1, 1, 0, 0, 1];
    let vec = into_bitvec(&bits);
    for s in 0..=bits.len() {
        for e in s..=bits.len() {
            let slice = vec.get_slice(BitRange::new(s, e)).expect("range within length");
            assert_eq!(slice.len(), e - s);
            for i in 0..(e - s) {
                assert_eq!(slice.at(i), vec.at(s + i));
            }
        }
    }
}

#[test]
fn slice_end_past_backing_bytes_is_rejected() {
    let vec = into_bitvec(&[1, 0, 1, 0, 1, 0, 1, 0, 1, 1, 1, 1, 0, 0, 0, 0]);
    assert!(vec.get_slice(BitRange::new(10, 16)).is_ok());
    assert_eq!(
        vec.get_slice(BitRange::new(10, 17)),
        Err(B3Error::SliceOutOfRange { len: 2, slice_start: 1, slice_end: 2 })
    );
    assert_eq!(
        vec.get_slice(BitRange::new(10, 20)).unwrap_err(),
        B3Error::SliceOutOfRange { len: 2, slice_start: 1, slice_end: 2 }
    );
}

#[test]
fn slice_into_padding_of_last_byte_is_allowed() {
    let vec = into_bitvec(&[1, 1, 1, 1, 1, 1, 1, 1, 1, 0]);
    assert!(vec.get_slice(BitRange::new(9, 16)).is_ok());
    assert!(vec.get_slice(BitRange::new(9, 17)).is_err());
}

#[test]
fn empty_ranges_slice_to_nothing() {
    let vec = BitVec::new();
    let slice = vec.get_slice(BitRange::full()).expect("empty range");
    assert_eq!(slice.len(), 0);
    let vec = into_bitvec(&[1, 0, 1]);
    let slice = vec.get_slice(BitRange::new(2, 2)).expect("empty range");
    assert_eq!(slice.len(), 0);
}

#[test]
fn from_vec_holds_all_bits_msb_first() {
    let vec = BitVec::from_vec(vec![0xA5, 0x0F]);
    assert_eq!(vec.len(), 16);
    assert_eq!(vec, into_bitvec(&[1, 0, 1, 0, 0, 1, 0, 1, 0, 0, 0, 0, 1, 1, 1, 1]));
    assert_eq!(vec.at(0), U1::new(1));
    assert_eq!(vec.at(1), U1::new(0));
    assert_eq!(vec.at(15), U1::new(1));
}

#[test]
fn from_elem_repeats_the_bit() {
    let vec = from_elem(1, 10);
    assert_eq!(vec.len(), 10);
    for i in 0..10 {
        assert_eq!(vec.at(i), U1::new(1));
    }
    assert_eq!(from_elem(0, 3), into_bitvec(&[0, 0, 0]));
}

#[test]
fn capacity_covers_requested_bits() {
    let vec = BitVec::with_capacity(20);
    assert!(vec.capacity() >= 24);
    assert_eq!(vec.len(), 0);
    let vec = BitVec::from_vec(vec![1, 2, 3]);
    assert!(vec.capacity() >= 24);
}

#[test]
fn default_is_empty() {
    let vec = BitVec::default();
    assert_eq!(vec.len(), 0);
    assert_eq!(vec, BitVec::new());
}

#[test]
fn capacity_in_bits_is_eight_per_byte_capped() {
    assert_eq!(capacity_in_bits(0), 0);
    assert_eq!(capacity_in_bits(3), 24);
    assert_eq!(capacity_in_bits(usize::MAX / 8), usize::MAX / 8 * 8);
    assert_eq!(capacity_in_bits(usize::MAX / 8 + 1), usize::MAX);
    assert_eq!(capacity_in_bits(usize::MAX), usize::MAX);
}

#[test]
fn reversed_range_is_rejected() {
    let vec = into_bitvec(&[1, 0, 1, 0, 1, 0, 1, 0, 1, 1, 1, 1, 0, 0, 0, 0]);
    assert_eq!(
        vec.get_slice(BitRange::new(5, 3)),
        Err(B3Error::SliceOutOfRange { len: 2, slice_start: 0, slice_end: 0 })
    );
    assert_eq!(
        vec.get_slice(BitRange::new(9, 0)),
        Err(B3Error::SliceOutOfRange { len: 2, slice_start: 1, slice_end: 0 })
    );
    let mut vec = vec;
    assert!(vec.get_slice_mut(BitRange::new(12, 11)).is_err());
    let slice = vec.get_slice(BitRange::starting_at(4)).unwrap();
    assert!(slice.get_slice(BitRange::new(3, 2)).is_err());
}
