use b3::bit_cursor::{BitCursor, SeekFrom};
use b3::bit_read_exts::BitReadExts;
use b3::bit_traits::{U1, U12, U18, U2, U26, U4, U9, U16, U32, U5, U8, U17, U24, U31};
use b3::bit_vec::{from_elem, into_bitvec};
use b3::bit_write_exts::BitWriteExts;
use b3::byte_order::{BigEndian, ByteOrder, LittleEndian};
use b3::error::BitIoError;
use b3::util::BitRange;

fn arr<const N: usize>(values: [u32; N]) -> [U1; N] {
    values.map(U1::new)
}

fn bits(values: &[u32]) -> Vec<U1> {
    values.iter().map(|&v| U1::new(v)).collect()
}

#[test]
fn test_read_little_endian() {
    // u12 4010: 0b00001111, 0b1010101010
    let le_buf = arr([1, 0, 1, 0, 1, 0, 1, 0, 1, 1, 1, 1]);
    let u12_val = LittleEndian::read_u12(&le_buf);
    assert_eq!(u12_val, U12::new(4010));
    // u18 200618: 0b00000011, 0b00001111, 0b10101010
    let le_buf = arr([1, 0, 1, 0, 1, 0, 1, 0, 0, 0, 0, 0, 1, 1, 1, 1, 1, 1]);
    let u18_val = LittleEndian::read_u18(&le_buf);
    assert_eq!(u18_val, U18::new(200618));
    // u26 50532266: 0b00000011, 0b00000011, 0b00001111, 0b10101010
    let le_buf = arr([1, 0, 1, 0, 1, 0, 1, 0, 0, 0, 0, 0, 1, 1, 1, 1, 0, 0, 0, 0, 0, 0, 1, 1, 1, 1]);
    let u26_val = LittleEndian::read_u26(&le_buf);
    assert_eq!(u26_val, U26::new(50532266));
}

#[test]
fn test_write_little_endian() {
    // u12 4010: 0b00001111, 0b1010101010
    let mut le_buf = [U1::new(0); 12];
    let value = U12::new(4010);
    LittleEndian::write_u12(&mut le_buf, value);
    assert_eq!(&le_buf, &arr([1, 0, 1, 0, 1, 0, 1, 0, 1, 1, 1, 1])[..]);
    // u18 200618: 0b00000011, 0b00001111, 0b10101010
    let mut le_buf = [U1::new(0); 18];
    let value = U18::new(200618);
    LittleEndian::write_u18(&mut le_buf, value);
    assert_eq!(&le_buf, &arr([1, 0, 1, 0, 1, 0, 1, 0, 0, 0, 0, 0, 1, 1, 1, 1, 1, 1])[..]);
    // u26 50532266: 0b00000011, 0b00000011, 0b00001111, 0b10101010
    let mut le_buf = [U1::new(0); 26];
    let value = U26::new(50532266);
    LittleEndian::write_u26(&mut le_buf, value);
    assert_eq!(
        &le_buf,
        &arr([1, 0, 1, 0, 1, 0, 1, 0, 0, 0, 0, 0, 1, 1, 1, 1, 0, 0, 0, 0, 0, 0, 1, 1, 1, 1])[..]
    );
}

#[test]
fn test_read_big_endian() {
    // u12 4010: 0b00001111, 0b1010101010
    let be_buf = arr([1, 1, 1, 1, 1, 0, 1, 0, 1, 0, 1, 0]);
    let u12_val = BigEndian::read_u12(&be_buf);
    assert_eq!(u12_val, U12::new(4010));
    // u18 200618: 0b00000011, 0b00001111, 0b10101010
    let be_buf = arr([1, 1, 0, 0, 0, 0, 1, 1, 1, 1, 1, 0, 1, 0, 1, 0, 1, 0]);
    let u18_val = BigEndian::read_u18(&be_buf);
    assert_eq!(u18_val, U18::new(200618));
    // u26 50532266: 0b00000011, 0b00000011, 0b00001111, 0b10101010
    let be_buf = arr([1, 1, 0, 0, 0, 0, 0, 0, 1, 1, 0, 0, 0, 0, 1, 1, 1, 1, 1, 0, 1, 0, 1, 0, 1, 0]);
    let u26_val = BigEndian::read_u26(&be_buf);
    assert_eq!(u26_val, U26::new(50532266));
}

#[test]
fn test_name() {
    let vec = into_bitvec(&[1, 1, 1, 1, 0, 0, 0, 0]);
    let mut cursor = BitCursor::new(vec);

    assert_eq!(cursor.read_u2().unwrap(), U2::new(3));
    assert_eq!(cursor.read_u4().unwrap(), U4::new(0b1100));
}

#[test]
fn test_bit_write_exts() {
    let vec = from_elem(0, 2);
    let mut cursor = BitCursor::new(vec);

    assert!(cursor.write_u2(U2::new(1)).is_ok());
    assert_eq!(cursor.into_inner().get_slice(BitRange::full()).unwrap(), &bits(&[0, 1])[..]);

    let vec = from_elem(0, 12);
    let mut cursor = BitCursor::new(vec);
    assert!(cursor.write_u12::<BigEndian>(U12::new(0b110011001100)).is_ok());
    assert_eq!(
        cursor.into_inner().get_slice(BitRange::full()).unwrap(),
        &bits(&[1, 1, 0, 0, 1, 1, 0, 0, 1, 1, 0, 0])[..]
    );
}

#[test]
fn little_endian_u18_scenario() {
    let le_buf = arr([1, 0, 1, 0, 1, 0, 1, 0, 0, 0, 0, 0, 1, 1, 1, 1, 1, 1]);
    assert_eq!(LittleEndian::read_u18(&le_buf).get(), 200618);
}

#[test]
fn little_endian_writes_through_a_cursor() {
    let vec = from_elem(0, 12);
    let mut cursor = BitCursor::new(vec);
    assert!(cursor.write_u12::<LittleEndian>(U12::new(4010)).is_ok());
    assert_eq!(
        cursor.into_inner().get_slice(BitRange::full()).unwrap(),
        &bits(&[1, 0, 1, 0, 1, 0, 1, 0, 1, 1, 1, 1])[..]
    );
}

#[test]
fn write_then_read_round_trips_every_order() {
    let vec = from_elem(1, 200);
    let mut cursor = BitCursor::new(vec);
    assert!(cursor.write_u1(U1::new(0)).is_ok());
    assert!(cursor.write_u5(U5::new(31)).is_ok());
    assert!(cursor.write_u8(U8::new(0xA5)).is_ok());
    assert!(cursor.write_u9::<BigEndian>(U9::new(300)).is_ok());
    assert!(cursor.write_u9::<LittleEndian>(U9::new(300)).is_ok());
    assert!(cursor.write_u16::<LittleEndian>(U16::new(0xBEEF)).is_ok());
    assert!(cursor.write_u17::<LittleEndian>(U17::new(0x1_2345)).is_ok());
    assert!(cursor.write_u24::<BigEndian>(U24::new(0xABCDEF)).is_ok());
    assert!(cursor.write_u31::<LittleEndian>(U31::new(0x7FFF_FFFE)).is_ok());
    assert!(cursor.write_u32::<LittleEndian>(U32::new(0xDEAD_BEEF)).is_ok());
    assert!(cursor.write_u32::<BigEndian>(U32::new(0x0123_4567)).is_ok());
    cursor.seek(SeekFrom::Start(0)).unwrap();
    assert_eq!(cursor.read_u1().unwrap(), U1::new(0));
    assert_eq!(cursor.read_u5().unwrap(), U5::new(31));
    assert_eq!(cursor.read_u8().unwrap(), U8::new(0xA5));
    assert_eq!(cursor.read_u9::<BigEndian>().unwrap(), U9::new(300));
    assert_eq!(cursor.read_u9::<LittleEndian>().unwrap(), U9::new(300));
    assert_eq!(cursor.read_u16::<LittleEndian>().unwrap(), U16::new(0xBEEF));
    assert_eq!(cursor.read_u17::<LittleEndian>().unwrap(), U17::new(0x1_2345));
    assert_eq!(cursor.read_u24::<BigEndian>().unwrap(), U24::new(0xABCDEF));
    assert_eq!(cursor.read_u31::<LittleEndian>().unwrap(), U31::new(0x7FFF_FFFE));
    assert_eq!(cursor.read_u32::<LittleEndian>().unwrap(), U32::new(0xDEAD_BEEF));
    assert_eq!(cursor.read_u32::<BigEndian>().unwrap(), U32::new(0x0123_4567));
}

#[test]
fn little_endian_differs_from_big_endian_past_a_byte() {
    let mut le = [U1::new(0); 16];
    let mut be = [U1::new(0); 16];
    LittleEndian::write_u16(&mut le, U16::new(0x00FF));
    BigEndian::write_u16(&mut be, U16::new(0x00FF));
    assert_eq!(&le, &arr([1, 1, 1, 1, 1, 1, 1, 1, 0, 0, 0, 0, 0, 0, 0, 0])[..]);
    assert_eq!(&be, &arr([0, 0, 0, 0, 0, 0, 0, 0, 1, 1, 1, 1, 1, 1, 1, 1])[..]);
    assert_eq!(LittleEndian::read_u16(&le), U16::new(0x00FF));
    assert_eq!(BigEndian::read_u16(&le), U16::new(0xFF00));
}

#[test]
fn reading_a_value_past_the_end_fails() {
    let vec = into_bitvec(&[1, 0, 1]);
    let mut cursor = BitCursor::new(vec);
    assert_eq!(cursor.read_u4(), Err(BitIoError::UnexpectedEnd));
    assert_eq!(cursor.read_u9::<BigEndian>(), Err(BitIoError::UnexpectedEnd));
    assert_eq!(cursor.position(), 0);
    let vec = from_elem(0, 3);
    let mut cursor = BitCursor::new(vec);
    assert_eq!(cursor.write_u4(U4::new(1)), Err(BitIoError::UnexpectedEnd));
    assert_eq!(cursor.position(), 0);
}
