use b3::bit_cursor::{BitCursor, SeekFrom};
use b3::bit_read::BitRead;
use b3::bit_read_exts::BitReadExts;
use b3::bit_traits::{U1, U3};
use b3::bit_vec::{from_elem, into_bitvec};
use b3::bit_write::BitWrite;
use b3::error::BitIoError;
use b3::util::BitRange;

fn bits(values: &[u32]) -> Vec<U1> {
    values.iter().map(|&v| U1::new(v)).collect()
}

#[test]
fn test_read() {
    let vec = into_bitvec(&[1, 1, 1, 1, 0, 0, 0, 0, 1, 1]);
    let mut cursor = BitCursor::new(vec);
    let mut read_buf = [U1::new(0); 2];

    assert_eq!(cursor.read(&mut read_buf).unwrap(), 2);
    assert_eq!(read_buf, [U1::new(1), U1::new(1)]);

    assert_eq!(cursor.read(&mut read_buf).unwrap(), 2);
    assert_eq!(read_buf, [U1::new(1), U1::new(1)]);

    assert_eq!(cursor.read(&mut read_buf).unwrap(), 2);
    assert_eq!(read_buf, [U1::new(0), U1::new(0)]);

    assert_eq!(cursor.read(&mut read_buf).unwrap(), 2);
    assert_eq!(read_buf, [U1::new(0), U1::new(0)]);

    assert_eq!(cursor.read(&mut read_buf).unwrap(), 2);
    assert_eq!(read_buf, [U1::new(1), U1::new(1)]);
}

#[test]
fn test_write() {
    let vec = from_elem(0, 16);
    let mut cursor = BitCursor::new(vec);

    assert!(cursor.write(&bits(&[0, 1, 1, 0])).is_ok());
    assert!(cursor.write(&bits(&[0, 1, 1, 0])).is_ok());
    assert!(cursor.write(&bits(&[0, 1, 1, 0])).is_ok());
    assert!(cursor.write(&bits(&[0, 1, 1, 0])).is_ok());

    assert_eq!(
        cursor.into_inner().get_slice(BitRange::full()).unwrap(),
        &bits(&[0, 1, 1, 0, 0, 1, 1, 0, 0, 1, 1, 0, 0, 1, 1, 0])[..]
    );
}

#[test]
fn test_seek() {
    let vec = into_bitvec(&[1, 1, 1, 1, 0, 0, 0, 0, 1, 1, 1, 1, 0, 0, 0, 0]);
    let mut cursor = BitCursor::new(vec);

    cursor.seek(SeekFrom::Current(4)).unwrap();
    assert_eq!(cursor.read_u1().unwrap(), U1::new(0));
    cursor.seek(SeekFrom::End(-5)).unwrap();
    assert_eq!(cursor.read_u1().unwrap(), U1::new(1));
    cursor.seek(SeekFrom::Current(-5)).unwrap();
    assert_eq!(cursor.read_u1().unwrap(), U1::new(0));
}

#[test]
fn test_sub_cursor() {
    let vec = into_bitvec(&[1, 1, 1, 1, 0, 0, 0, 0, 1, 1, 1, 1, 0, 0, 0, 0]);
    let mut cursor = BitCursor::new(vec);

    let mut sub_cursor = cursor.sub_cursor(BitRange::starting_at(1)).expect("valid cursor");

    assert_eq!(sub_cursor.read_u3().unwrap(), U3::new(7));

    // The parent cursor has not moved
    assert_eq!(cursor.read_u1().unwrap(), U1::new(1));
}

#[test]
fn cursor_reads_to_end_then_returns_zero() {
    let vec = into_bitvec(&[1, 1, 1, 1, 0, 0, 0, 0, 1, 1]);
    let mut cursor = BitCursor::new(vec);
    let mut read_buf = [U1::new(0); 2];
    let expected = [[1, 1], [1, 1], [0, 0], [0, 0], [1, 1]];
    for pair in expected.iter() {
        assert_eq!(cursor.read(&mut read_buf).unwrap(), 2);
        assert_eq!(read_buf, [U1::new(pair[0]), U1::new(pair[1])]);
    }
    assert_eq!(cursor.read(&mut read_buf).unwrap(), 0);
    assert_eq!(cursor.position(), 10);
}

#[test]
fn short_read_at_end_returns_count() {
    let vec = into_bitvec(&[1, 0, 1]);
    let mut cursor = BitCursor::new(vec);
    let mut buf = [U1::new(0); 2];
    assert_eq!(cursor.read(&mut buf).unwrap(), 2);
    assert_eq!(cursor.read(&mut buf).unwrap(), 1);
    assert_eq!(buf[0], U1::new(1));
    assert_eq!(cursor.position(), 3);
}

#[test]
fn exact_reads_within_budget_succeed_and_one_more_fails() {
    let vec = into_bitvec(&[1, 0, 1, 1, 0, 0, 1, 0]);
    let mut cursor = BitCursor::new(vec);
    let mut three = [U1::new(0); 3];
    let mut five = [U1::new(0); 5];
    let mut one = [U1::new(0); 1];
    assert!(cursor.read_exact(&mut three).is_ok());
    assert!(cursor.read_exact(&mut five).is_ok());
    assert_eq!(cursor.read_exact(&mut one), Err(BitIoError::UnexpectedEnd));
    assert_eq!(cursor.position(), 8);
}

#[test]
fn exact_writes_within_budget_succeed_and_one_more_fails() {
    let vec = from_elem(0, 8);
    let mut cursor = BitCursor::new(vec);
    assert!(cursor.write_all(&bits(&[1, 1, 1])).is_ok());
    assert!(cursor.write_all(&bits(&[0, 1, 0, 1, 1])).is_ok());
    assert_eq!(cursor.write_all(&bits(&[1])), Err(BitIoError::UnexpectedEnd));
    assert_eq!(cursor.position(), 8);
    assert_eq!(cursor.into_inner(), into_bitvec(&[1, 1, 1, 0, 1, 0, 1, 1]));
}

#[test]
fn failed_exact_read_keeps_position() {
    let vec = into_bitvec(&[1, 0, 1]);
    let mut cursor = BitCursor::new(vec);
    let mut four = [U1::new(0); 4];
    assert_eq!(cursor.read_exact(&mut four), Err(BitIoError::UnexpectedEnd));
    assert_eq!(cursor.position(), 0);
    assert_eq!(four, [U1::new(0); 4]);
}

#[test]
fn seek_before_start_is_invalid() {
    let vec = into_bitvec(&[1, 0, 1]);
    let mut cursor = BitCursor::new(vec);
    assert_eq!(cursor.seek(SeekFrom::Current(-1)), Err(BitIoError::InvalidSeek));
    assert_eq!(cursor.seek(SeekFrom::End(-4)), Err(BitIoError::InvalidSeek));
    assert_eq!(cursor.position(), 0);
    assert_eq!(cursor.seek(SeekFrom::End(-1)), Ok(2));
    assert_eq!(cursor.seek(SeekFrom::Current(i64::MIN)), Err(BitIoError::InvalidSeek));
}

#[test]
fn seek_past_end_leaves_nothing_to_read() {
    let vec = into_bitvec(&[1, 0, 1]);
    let mut cursor = BitCursor::new(vec);
    assert_eq!(cursor.seek(SeekFrom::Start(100)), Ok(100));
    assert_eq!(cursor.position(), 100);
    assert_eq!(cursor.bits_remaining(), 0);
    assert_eq!(cursor.remaining_slice().len(), 0);
    let mut buf = [U1::new(0); 2];
    assert_eq!(cursor.read(&mut buf).unwrap(), 0);
    assert_eq!(cursor.seek(SeekFrom::End(2)), Ok(5));
}

#[test]
fn sub_cursor_reads_parent_bits_and_leaves_parent_alone() {
    let vec = into_bitvec(&[1, 0, 0, 1, 1, 1, 0, 1, 0, 0, 1, 1]);
    let mut cursor = BitCursor::new(vec);
    cursor.seek(SeekFrom::Start(2)).unwrap();
    {
        let mut sub = cursor.sub_cursor(BitRange::new(1, 6)).expect("valid cursor");
        assert_eq!(sub.position(), 0);
        let mut buf = [U1::new(0); 5];
        assert!(sub.read_exact(&mut buf).is_ok());
        assert_eq!(buf, [U1::new(1), U1::new(1), U1::new(1), U1::new(0), U1::new(1)]);
        assert_eq!(sub.position(), 5);
    }
    assert_eq!(cursor.position(), 2);
    cursor.seek(SeekFrom::Current(1)).unwrap();
    let mut buf = [U1::new(0); 5];
    assert!(cursor.read_exact(&mut buf).is_ok());
    assert_eq!(buf, [U1::new(1), U1::new(1), U1::new(1), U1::new(0), U1::new(1)]);
}

#[test]
fn sub_cursor_out_of_range_fails() {
    let vec = into_bitvec(&[1, 0, 0, 1]);
    let cursor = BitCursor::new(vec);
    assert!(cursor.sub_cursor(BitRange::new(0, 9)).is_err());
}

#[test]
fn sub_cursor_mut_writes_through_to_parent() {
    let vec = from_elem(0, 12);
    let mut cursor = BitCursor::new(vec);
    cursor.seek(SeekFrom::Start(4)).unwrap();
    {
        let mut sub = cursor.sub_cursor_mut(BitRange::new(2, 5)).expect("valid cursor");
        assert!(sub.write_all(&bits(&[1, 0, 1])).is_ok());
        assert_eq!(sub.write_all(&bits(&[1])), Err(BitIoError::UnexpectedEnd));
    }
    assert_eq!(cursor.position(), 4);
    assert_eq!(cursor.into_inner(), into_bitvec(&[0, 0, 0, 0, 0, 0, 1, 0, 1, 0, 0, 0]));
}

#[test]
fn remaining_views_start_at_position() {
    let vec = into_bitvec(&[1, 1, 0, 0, 1, 0, 1, 0, 1, 1, 1, 1, 0, 0, 0, 0, 1]);
    let mut cursor = BitCursor::new(vec);
    cursor.seek(SeekFrom::Start(3)).unwrap();
    assert_eq!(cursor.bits_remaining(), 14);
    assert_eq!(cursor.bytes_remaining(), 1);
    assert_eq!(
        cursor.remaining_slice(),
        into_bitvec(&[0, 1, 0, 1, 0, 1, 1, 1, 1, 0, 0, 0, 0, 1])
    );
    {
        let mut rest = cursor.remaining_slice_mut();
        rest.set(0, U1::new(1));
    }
    assert_eq!(cursor.remaining_slice().at(0), U1::new(1));
}

#[test]
fn cursor_from_bytes() {
    let mut cursor = BitCursor::from_vec(vec![0b1000_0001]);
    assert_eq!(cursor.bits_remaining(), 8);
    assert_eq!(cursor.read_u1().unwrap(), U1::new(1));
    cursor.seek(SeekFrom::End(-1)).unwrap();
    assert_eq!(cursor.read_u1().unwrap(), U1::new(1));
}
