use b3::bit_read::BitRead;
use b3::bit_traits::U1;
use b3::bit_vec::into_bitvec;
use b3::bit_write::BitWrite;
use b3::slice::BitSlice;
use b3::util::BitRange;

fn bits(values: &[u32]) -> Vec<U1> {
    values.iter().map(|&v| U1::new(v)).collect()
}

#[test]
fn get_slice_from_bit_slice() {
    let vec = into_bitvec(&[1, 0, 1, 0, 1, 0]);
    let slice_one = vec.get_slice(BitRange::starting_at(1)).expect("valid slice");
    let slice_two = slice_one.get_slice(BitRange::starting_at(1)).expect("valid slice");
    assert_eq!(slice_two.len(), 4);
    assert_eq!(slice_two, into_bitvec(&[1, 0, 1, 0]));
}

#[test]
fn get_slice_from_bit_slice_mut() {
    let mut vec = into_bitvec(&[1, 0, 1, 0, 1, 0]);
    let slice_one = vec.get_slice_mut(BitRange::starting_at(1)).expect("valid slice");
    let slice_two = slice_one.get_slice(BitRange::starting_at(1)).expect("valid slice");
    assert_eq!(slice_two.len(), 4);
    assert_eq!(slice_two, into_bitvec(&[1, 0, 1, 0]));
}

#[test]
fn get_slice_mut_from_bit_slice_mut() {
    let mut vec = into_bitvec(&[1, 0, 1, 0, 1, 0]);
    let mut slice_one = vec.get_slice_mut(BitRange::starting_at(1)).expect("valid slice");
    let mut slice_two = slice_one.get_slice_mut(BitRange::starting_at(1)).expect("valid slice");
    assert_eq!(slice_two.len(), 4);
    assert_eq!(slice_two, into_bitvec(&[1, 0, 1, 0]));
    slice_two.set(0, U1::new(0));
    assert_eq!(slice_one.at(1), U1::new(0));
}

#[test]
fn test_set() {
    let mut vec = into_bitvec(&[0, 0, 0, 0]);
    let mut slice = vec.get_slice_mut(BitRange::full()).expect("valid slice");
    slice.set(0, U1::new(1));
    assert_eq!(vec, into_bitvec(&[1, 0, 0, 0]));
}

#[test]
fn test_iterator() {
    let vec = into_bitvec(&[1, 0, 1, 0, 1, 0]);
    let slice = vec.get_slice(BitRange::new(2, 4)).expect("valid slice");
    let mut iter = slice.iter();
    assert_eq!(iter.next(), Some(U1::new(1)));
    assert_eq!(iter.next(), Some(U1::new(0)));
    assert_eq!(iter.next(), None);
}

#[test]
fn test_partial_eq() {
    let vec_one = into_bitvec(&[0, 1]);
    let vec_two = into_bitvec(&[1, 1]);
    let slice_one = vec_one.get_slice(BitRange::starting_at(1));
    let slice_two = vec_two.get_slice(BitRange::starting_at(1));

    assert_eq!(slice_one, slice_two);
}

#[test]
fn nested_slices_equal_direct_slices() {
    let vec = into_bitvec(&[1, 1, 0, 1, 0, 0, 1, 0, 1, 1, 0, 1, 1, 1, 0, 0, 1, 0, 1, 0]);
    let a = 3;
    let b = 19;
    let outer = vec.get_slice(BitRange::new(a, b)).expect("outer");
    for c in 0..=(b - a) {
        for d in c..=(b - a) {
            let nested = outer.get_slice(BitRange::new(c, d)).expect("nested");
            let direct = vec.get_slice(BitRange::new(a + c, a + d)).expect("direct");
            assert_eq!(nested, direct);
        }
    }
}

#[test]
fn slices_compare_bit_by_bit() {
    let vec_one = into_bitvec(&[0, 1, 1, 0, 1]);
    let vec_two = into_bitvec(&[1, 1, 1, 0, 1, 0]);
    let left = vec_one.get_slice(BitRange::starting_at(1)).unwrap();
    let right = vec_two.get_slice(BitRange::new(1, 5)).unwrap();
    assert_eq!(left, right);
    let shorter = vec_two.get_slice(BitRange::new(1, 4)).unwrap();
    assert_ne!(left, shorter);
    let expected = bits(&[1, 1, 0, 1]);
    assert_eq!(left, &expected[..]);
    assert_ne!(left, into_bitvec(&[1, 1, 0, 0]));
}

#[test]
fn slice_reads_from_its_start_each_time() {
    let vec = into_bitvec(&[1, 0, 1]);
    let mut slice = vec.get_slice(BitRange::full()).unwrap();
    let mut buf = [U1::new(0); 2];
    assert_eq!(slice.read(&mut buf).unwrap(), 2);
    assert_eq!(buf, [U1::new(1), U1::new(0)]);
    assert_eq!(slice.read(&mut buf).unwrap(), 2);
    assert_eq!(buf, [U1::new(1), U1::new(0)]);
    let mut long = [U1::new(0); 4];
    assert!(slice.read_exact(&mut long).is_err());
    assert_eq!(slice.read(&mut long).unwrap(), 3);
}

#[test]
fn mutable_slice_writes_only_its_bits() {
    let mut vec = into_bitvec(&[0, 0, 0, 0, 0, 0, 0, 0, 0, 0]);
    {
        let mut slice = vec.get_slice_mut(BitRange::new(3, 7)).unwrap();
        assert_eq!(slice.write(&bits(&[1, 1, 1, 1, 1, 1])).unwrap(), 4);
        assert!(slice.write_all(&bits(&[1, 1, 1, 1, 1])).is_err());
    }
    assert_eq!(vec, into_bitvec(&[0, 0, 0, 1, 1, 1, 1, 0, 0, 0]));
}

#[test]
fn slice_new_views_given_bits() {
    let bytes = [0b1010_0000u8];
    let slice = BitSlice::new(&bytes, 1, 4);
    assert_eq!(slice.len(), 3);
    assert_eq!(slice.at(0), U1::new(0));
    assert_eq!(slice.at(1), U1::new(1));
    assert_eq!(slice.at(2), U1::new(0));
}
