use b3::bit_traits::{BitTraits, UBits, U1, U12, U3, U32, U8};

#[test]
fn values_keep_their_width() {
    assert_eq!(<U12 as BitTraits>::bits(), 12);
    assert_eq!(<U1 as BitTraits>::bits(), 1);
    assert_eq!(U12::zero_value().get(), 0);
    assert_eq!(U12::one_value().get(), 1);
    assert_eq!(U12::new(4095).get(), 4095);
}

#[test]
fn shifts_drop_bits_past_the_width() {
    assert_eq!(U3::new(0b011).shl(1), U3::new(0b110));
    assert_eq!(U3::new(0b110).shl(1), U3::new(0b100));
    assert_eq!(U1::new(1).shl(1), U1::new(0));
    assert_eq!(U32::new(0x8000_0001).shl(1), U32::new(2));
    assert_eq!(U8::new(0b1010_0000).shr(5), U8::new(0b101));
}

#[test]
fn bitwise_or_and_and() {
    assert_eq!(U8::new(0b1100).bitor(U8::new(0b0011)), U8::new(0b1111));
    assert_eq!(U8::new(0b1100).bitand(U8::new(0b0110)), U8::new(0b0100));
    assert_eq!(UBits::<5>::from_u1(U1::new(1)), UBits::<5>::new(1));
}

#[test]
fn single_bits_convert_to_and_from_bool() {
    assert_eq!(U1::from_bool(true), U1::new(1));
    assert_eq!(U1::from_bool(false), U1::new(0));
    assert!(U1::new(1).is_set());
    assert!(!U1::new(0).is_set());
}
