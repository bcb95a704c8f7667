//! Byte orders for values wider than a byte, and the bit codecs under them.
use vstd::prelude::*;
use vstd::arithmetic::power2::{pow2, lemma2_to64, lemma_pow2_adds, lemma_pow2_strictly_increases, lemma_pow2_unfold};

use crate::bit_traits::{
    bit_value, u1_bits, UBits, U1, U10, U11, U12, U13, U14, U15, U16, U17, U18, U19, U20, U21, U22,
    U23, U24, U25, U26, U27, U28, U29, U30, U31, U32, U9,
};

verus! {

/// The value of `bits` read most significant bit first.
pub open spec fn be_value(bits: Seq<bool>) -> nat
    decreases bits.len(),
{
    if bits.len() == 0 {
        0
    } else {
        2 * be_value(bits.drop_last()) + bit_value(bits.last())
    }
}

/// The value of `bits` laid out as bytes least significant first, each byte most significant
/// bit first; the last chunk may hold fewer than eight bits, the most significant ones.
pub open spec fn le_value(bits: Seq<bool>) -> nat
    decreases bits.len(),
{
    if bits.len() <= 8 {
        be_value(bits)
    } else {
        be_value(bits.take(8)) + 256 * le_value(bits.skip(8))
    }
}

/// The `n` bits of `v`, most significant first.
pub open spec fn be_bits(v: nat, n: nat) -> Seq<bool>
    decreases n,
{
    if n == 0 {
        Seq::empty()
    } else {
        be_bits(v / 2, (n - 1) as nat).push(v % 2 == 1)
    }
}

/// The `n` bits of `v` as bytes least significant first, each byte most significant bit
/// first, the most significant remainder last.
pub open spec fn le_bits(v: nat, n: nat) -> Seq<bool>
    decreases n,
{
    if n <= 8 {
        be_bits(v, n)
    } else {
        be_bits(v % 256, 8) + le_bits(v / 256, (n - 8) as nat)
    }
}

/// `be_bits` gives `n` bits.
pub proof fn lemma_be_bits_len(v: nat, n: nat)
    ensures
        be_bits(v, n).len() == n,
    decreases n,
{
    if n > 0 {
        lemma_be_bits_len(v / 2, (n - 1) as nat);
    }
}

/// `le_bits` gives `n` bits.
pub proof fn lemma_le_bits_len(v: nat, n: nat)
    ensures
        le_bits(v, n).len() == n,
    decreases n,
{
    if n <= 8 {
        lemma_be_bits_len(v, n);
    } else {
        lemma_be_bits_len(v % 256, 8);
        lemma_le_bits_len(v / 256, (n - 8) as nat);
    }
}

/// A value read most significant bit first lies below `2^len`.
pub proof fn lemma_be_value_bound(bits: Seq<bool>)
    ensures
        be_value(bits) < pow2(bits.len()),
    decreases bits.len(),
{
    if bits.len() == 0 {
        lemma2_to64();
    } else {
        lemma_be_value_bound(bits.drop_last());
        lemma_pow2_unfold(bits.len());
    }
}

/// A little-endian value lies below `2^len`.
pub proof fn lemma_le_value_bound(bits: Seq<bool>)
    ensures
        le_value(bits) < pow2(bits.len()),
    decreases bits.len(),
{
    if bits.len() <= 8 {
        lemma_be_value_bound(bits);
    } else {
        lemma_be_value_bound(bits.take(8));
        lemma_le_value_bound(bits.skip(8));
        lemma2_to64();
        lemma_pow2_adds(8, (bits.len() - 8) as nat);
    }
}

/// Reading back the bits of a value most significant first gives the value.
pub proof fn lemma_be_round_trip(v: nat, n: nat)
    requires
        v < pow2(n),
    ensures
        be_value(be_bits(v, n)) == v,
    decreases n,
{
    if n == 0 {
        lemma2_to64();
    } else {
        lemma_pow2_unfold(n);
        lemma_be_round_trip(v / 2, (n - 1) as nat);
        assert(be_bits(v, n).drop_last() =~= be_bits(v / 2, (n - 1) as nat));
    }
}

/// Reading back the little-endian bits of a value gives the value.
pub proof fn lemma_le_round_trip(v: nat, n: nat)
    requires
        v < pow2(n),
    ensures
        le_value(le_bits(v, n)) == v,
    decreases n,
{
    if n <= 8 {
        lemma_be_round_trip(v, n);
        lemma_be_bits_len(v, n);
    } else {
        lemma2_to64();
        lemma_pow2_adds(8, (n - 8) as nat);
        lemma_be_bits_len(v % 256, 8);
        lemma_le_bits_len(v / 256, (n - 8) as nat);
        lemma_be_round_trip(v % 256, 8);
        lemma_le_round_trip(v / 256, (n - 8) as nat);
        let s = le_bits(v, n);
        assert(s.take(8) =~= be_bits(v % 256, 8));
        assert(s.skip(8) =~= le_bits(v / 256, (n - 8) as nat));
    }
}

/// The value of bits `[start, start + n)` of `buf`, most significant first.
pub fn decode_be_at(buf: &[U1], start: usize, n: usize) -> (r: u32)
    requires
        start + n <= buf@.len(),
        n <= 32,
    ensures
        r == be_value(u1_bits(buf@).subrange(start as int, start + n)),
    decreases n,
{
    let _len = buf.len();
    if n == 0 {
        return 0;
    }
    let high = decode_be_at(buf, start, n - 1);
    let low = buf[start + n - 1].get();
    proof {
        let s = u1_bits(buf@).subrange(start as int, start + n);
        assert(s.drop_last() =~= u1_bits(buf@).subrange(start as int, start + n - 1));
        lemma_be_value_bound(s.drop_last());
        lemma_pow2_unfold(n as nat);
        lemma2_to64();
        if n < 32 {
            lemma_pow2_strictly_increases(n as nat, 32);
        } else {
            assert(pow2(32) == 0x1_0000_0000);
        }
        assert(bit_value(s.last()) == low);
    }
    2 * high + low
}

/// The little-endian value of bits `[start, start + n)` of `buf`.
pub fn decode_le_at(buf: &[U1], start: usize, n: usize) -> (r: u32)
    requires
        start + n <= buf@.len(),
        n <= 32,
    ensures
        r == le_value(u1_bits(buf@).subrange(start as int, start + n)),
    decreases n,
{
    let _len = buf.len();
    if n <= 8 {
        return decode_be_at(buf, start, n);
    }
    let low = decode_be_at(buf, start, 8);
    let high = decode_le_at(buf, start + 8, n - 8);
    proof {
        let s = u1_bits(buf@).subrange(start as int, start + n);
        assert(s.take(8) =~= u1_bits(buf@).subrange(start as int, start + 8));
        assert(s.skip(8) =~= u1_bits(buf@).subrange(start + 8, start + n));
        lemma_le_value_bound(s);
        lemma2_to64();
        if n < 32 {
            lemma_pow2_strictly_increases(n as nat, 32);
        } else {
            assert(pow2(32) == 0x1_0000_0000);
        }
    }
    low + 256 * high
}

/// Write the `n` bits of `v`, most significant first, to positions `[start, start + n)` of
/// `buf`, leaving the others.
pub fn encode_be_at(buf: &mut [U1], start: usize, n: usize, v: u32)
    requires
        start + n <= old(buf)@.len(),
        v < pow2(n as nat),
    ensures
        final(buf)@.len() == old(buf)@.len(),
        u1_bits(final(buf)@).subrange(start as int, start + n) == be_bits(v as nat, n as nat),
        forall|k: int|
            0 <= k < old(buf)@.len() && !(start <= k < start + n) ==> #[trigger] final(buf)@[k]
                == old(buf)@[k],
    decreases n,
{
    let _len = buf.len();
    if n == 0 {
        assert(u1_bits(buf@).subrange(start as int, start as int) =~= be_bits(v as nat, 0));
        return;
    }
    proof {
        lemma_pow2_unfold(n as nat);
    }
    encode_be_at(buf, start, n - 1, v / 2);
    buf[start + n - 1] = U1::from_bool(v % 2 == 1);
    proof {
        lemma_be_bits_len((v / 2) as nat, (n - 1) as nat);
        assert(u1_bits(buf@).subrange(start as int, start + n) =~= be_bits(v as nat, n as nat));
    }
}

/// Write the `n` little-endian bits of `v` to positions `[start, start + n)` of `buf`,
/// leaving the others.
pub fn encode_le_at(buf: &mut [U1], start: usize, n: usize, v: u32)
    requires
        start + n <= old(buf)@.len(),
        v < pow2(n as nat),
    ensures
        final(buf)@.len() == old(buf)@.len(),
        u1_bits(final(buf)@).subrange(start as int, start + n) == le_bits(v as nat, n as nat),
        forall|k: int|
            0 <= k < old(buf)@.len() && !(start <= k < start + n) ==> #[trigger] final(buf)@[k]
                == old(buf)@[k],
    decreases n,
{
    let _len = buf.len();
    if n <= 8 {
        encode_be_at(buf, start, n, v);
        return;
    }
    proof {
        lemma2_to64();
        lemma_pow2_adds(8, (n - 8) as nat);
    }
    encode_be_at(buf, start, 8, v % 256);
    let ghost mid = buf@;
    encode_le_at(buf, start + 8, n - 8, v / 256);
    proof {
        lemma_be_bits_len((v % 256) as nat, 8);
        lemma_le_bits_len((v / 256) as nat, (n - 8) as nat);
        assert(u1_bits(buf@).subrange(start as int, start + 8) =~= u1_bits(mid).subrange(start as int, start + 8));
        assert(u1_bits(buf@).subrange(start as int, start + n) =~= u1_bits(buf@).subrange(start as int, start + 8)
            + u1_bits(buf@).subrange(start + 8, start + n));
    }
}

/// How a value wider than a byte is laid out in bits.
pub trait ByteOrder {
    /// The value that `bits` stand for.
    spec fn decoded(bits: Seq<bool>) -> nat;

    /// The `n` bits that stand for `value`.
    spec fn encoded(value: nat, n: nat) -> Seq<bool>;

    /// Decoding the bits of a value gives the value back.
    proof fn lemma_round_trip(value: nat, n: nat)
        requires
            value < pow2(n),
        ensures
            Self::encoded(value, n).len() == n,
            Self::decoded(Self::encoded(value, n)) == value,
    ;

    /// A decoded value lies below `2^len`.
    proof fn lemma_decoded_bound(bits: Seq<bool>)
        ensures
            Self::decoded(bits) < pow2(bits.len()),
    ;

    /// The value that the bits of `buf` stand for.
    fn read_bits(buf: &[U1]) -> (r: u32)
        requires
            buf@.len() <= 32,
        ensures
            r == Self::decoded(u1_bits(buf@)),
    ;

    /// Fill `buf` with the bits that stand for `value`.
    fn write_bits(buf: &mut [U1], value: u32)
        requires
            old(buf)@.len() <= 32,
            value < pow2(old(buf)@.len()),
        ensures
            final(buf)@.len() == old(buf)@.len(),
            u1_bits(final(buf)@) == Self::encoded(value as nat, old(buf)@.len()),
    ;

    /// The 9-bit value that `buf` stands for.
    fn read_u9(buf: &[U1; 9]) -> (r: U9)
        ensures
            r@ == Self::decoded(u1_bits(buf@)),
    {
        proof {
            Self::lemma_decoded_bound(u1_bits(buf@));
        }
        UBits::new(Self::read_bits(buf.as_slice()))
    }

    /// The 10-bit value that `buf` stands for.
    fn read_u10(buf: &[U1; 10]) -> (r: U10)
        ensures
            r@ == Self::decoded(u1_bits(buf@)),
    {
        proof {
            Self::lemma_decoded_bound(u1_bits(buf@));
        }
        UBits::new(Self::read_bits(buf.as_slice()))
    }

    /// The 11-bit value that `buf` stands for.
    fn read_u11(buf: &[U1; 11]) -> (r: U11)
        ensures
            r@ == Self::decoded(u1_bits(buf@)),
    {
        proof {
            Self::lemma_decoded_bound(u1_bits(buf@));
        }
        UBits::new(Self::read_bits(buf.as_slice()))
    }

    /// The 12-bit value that `buf` stands for.
    fn read_u12(buf: &[U1; 12]) -> (r: U12)
        ensures
            r@ == Self::decoded(u1_bits(buf@)),
    {
        proof {
            Self::lemma_decoded_bound(u1_bits(buf@));
        }
        UBits::new(Self::read_bits(buf.as_slice()))
    }

    /// The 13-bit value that `buf` stands for.
    fn read_u13(buf: &[U1; 13]) -> (r: U13)
        ensures
            r@ == Self::decoded(u1_bits(buf@)),
    {
        proof {
            Self::lemma_decoded_bound(u1_bits(buf@));
        }
        UBits::new(Self::read_bits(buf.as_slice()))
    }

    /// The 14-bit value that `buf` stands for.
    fn read_u14(buf: &[U1; 14]) -> (r: U14)
        ensures
            r@ == Self::decoded(u1_bits(buf@)),
    {
        proof {
            Self::lemma_decoded_bound(u1_bits(buf@));
        }
        UBits::new(Self::read_bits(buf.as_slice()))
    }

    /// The 15-bit value that `buf` stands for.
    fn read_u15(buf: &[U1; 15]) -> (r: U15)
        ensures
            r@ == Self::decoded(u1_bits(buf@)),
    {
        proof {
            Self::lemma_decoded_bound(u1_bits(buf@));
        }
        UBits::new(Self::read_bits(buf.as_slice()))
    }

    /// The 16-bit value that `buf` stands for.
    fn read_u16(buf: &[U1; 16]) -> (r: U16)
        ensures
            r@ == Self::decoded(u1_bits(buf@)),
    {
        proof {
            Self::lemma_decoded_bound(u1_bits(buf@));
        }
        UBits::new(Self::read_bits(buf.as_slice()))
    }

    /// The 17-bit value that `buf` stands for.
    fn read_u17(buf: &[U1; 17]) -> (r: U17)
        ensures
            r@ == Self::decoded(u1_bits(buf@)),
    {
        proof {
            Self::lemma_decoded_bound(u1_bits(buf@));
        }
        UBits::new(Self::read_bits(buf.as_slice()))
    }

    /// The 18-bit value that `buf` stands for.
    fn read_u18(buf: &[U1; 18]) -> (r: U18)
        ensures
            r@ == Self::decoded(u1_bits(buf@)),
    {
        proof {
            Self::lemma_decoded_bound(u1_bits(buf@));
        }
        UBits::new(Self::read_bits(buf.as_slice()))
    }

    /// The 19-bit value that `buf` stands for.
    fn read_u19(buf: &[U1; 19]) -> (r: U19)
        ensures
            r@ == Self::decoded(u1_bits(buf@)),
    {
        proof {
            Self::lemma_decoded_bound(u1_bits(buf@));
        }
        UBits::new(Self::read_bits(buf.as_slice()))
    }

    /// The 20-bit value that `buf` stands for.
    fn read_u20(buf: &[U1; 20]) -> (r: U20)
        ensures
            r@ == Self::decoded(u1_bits(buf@)),
    {
        proof {
            Self::lemma_decoded_bound(u1_bits(buf@));
        }
        UBits::new(Self::read_bits(buf.as_slice()))
    }

    /// The 21-bit value that `buf` stands for.
    fn read_u21(buf: &[U1; 21]) -> (r: U21)
        ensures
            r@ == Self::decoded(u1_bits(buf@)),
    {
        proof {
            Self::lemma_decoded_bound(u1_bits(buf@));
        }
        UBits::new(Self::read_bits(buf.as_slice()))
    }

    /// The 22-bit value that `buf` stands for.
    fn read_u22(buf: &[U1; 22]) -> (r: U22)
        ensures
            r@ == Self::decoded(u1_bits(buf@)),
    {
        proof {
            Self::lemma_decoded_bound(u1_bits(buf@));
        }
        UBits::new(Self::read_bits(buf.as_slice()))
    }

    /// The 23-bit value that `buf` stands for.
    fn read_u23(buf: &[U1; 23]) -> (r: U23)
        ensures
            r@ == Self::decoded(u1_bits(buf@)),
    {
        proof {
            Self::lemma_decoded_bound(u1_bits(buf@));
        }
        UBits::new(Self::read_bits(buf.as_slice()))
    }

    /// The 24-bit value that `buf` stands for.
    fn read_u24(buf: &[U1; 24]) -> (r: U24)
        ensures
            r@ == Self::decoded(u1_bits(buf@)),
    {
        proof {
            Self::lemma_decoded_bound(u1_bits(buf@));
        }
        UBits::new(Self::read_bits(buf.as_slice()))
    }

    /// The 25-bit value that `buf` stands for.
    fn read_u25(buf: &[U1; 25]) -> (r: U25)
        ensures
            r@ == Self::decoded(u1_bits(buf@)),
    {
        proof {
            Self::lemma_decoded_bound(u1_bits(buf@));
        }
        UBits::new(Self::read_bits(buf.as_slice()))
    }

    /// The 26-bit value that `buf` stands for.
    fn read_u26(buf: &[U1; 26]) -> (r: U26)
        ensures
            r@ == Self::decoded(u1_bits(buf@)),
    {
        proof {
            Self::lemma_decoded_bound(u1_bits(buf@));
        }
        UBits::new(Self::read_bits(buf.as_slice()))
    }

    /// The 27-bit value that `buf` stands for.
    fn read_u27(buf: &[U1; 27]) -> (r: U27)
        ensures
            r@ == Self::decoded(u1_bits(buf@)),
    {
        proof {
            Self::lemma_decoded_bound(u1_bits(buf@));
        }
        UBits::new(Self::read_bits(buf.as_slice()))
    }

    /// The 28-bit value that `buf` stands for.
    fn read_u28(buf: &[U1; 28]) -> (r: U28)
        ensures
            r@ == Self::decoded(u1_bits(buf@)),
    {
        proof {
            Self::lemma_decoded_bound(u1_bits(buf@));
        }
        UBits::new(Self::read_bits(buf.as_slice()))
    }

    /// The 29-bit value that `buf` stands for.
    fn read_u29(buf: &[U1; 29]) -> (r: U29)
        ensures
            r@ == Self::decoded(u1_bits(buf@)),
    {
        proof {
            Self::lemma_decoded_bound(u1_bits(buf@));
        }
        UBits::new(Self::read_bits(buf.as_slice()))
    }

    /// The 30-bit value that `buf` stands for.
    fn read_u30(buf: &[U1; 30]) -> (r: U30)
        ensures
            r@ == Self::decoded(u1_bits(buf@)),
    {
        proof {
            Self::lemma_decoded_bound(u1_bits(buf@));
        }
        UBits::new(Self::read_bits(buf.as_slice()))
    }

    /// The 31-bit value that `buf` stands for.
    fn read_u31(buf: &[U1; 31]) -> (r: U31)
        ensures
            r@ == Self::decoded(u1_bits(buf@)),
    {
        proof {
            Self::lemma_decoded_bound(u1_bits(buf@));
        }
        UBits::new(Self::read_bits(buf.as_slice()))
    }

    /// The 32-bit value that `buf` stands for.
    fn read_u32(buf: &[U1; 32]) -> (r: U32)
        ensures
            r@ == Self::decoded(u1_bits(buf@)),
    {
        proof {
            Self::lemma_decoded_bound(u1_bits(buf@));
        }
        UBits::new(Self::read_bits(buf.as_slice()))
    }

    /// Fill `buf` with the bits that stand for `value`.
    fn write_u9(buf: &mut [U1; 9], value: U9)
        ensures
            u1_bits(final(buf)@) == Self::encoded(value@, 9),
    {
        let v = value.get();
        Self::write_bits(buf, v);
    }

    /// Fill `buf` with the bits that stand for `value`.
    fn write_u10(buf: &mut [U1; 10], value: U10)
        ensures
            u1_bits(final(buf)@) == Self::encoded(value@, 10),
    {
        let v = value.get();
        Self::write_bits(buf, v);
    }

    /// Fill `buf` with the bits that stand for `value`.
    fn write_u11(buf: &mut [U1; 11], value: U11)
        ensures
            u1_bits(final(buf)@) == Self::encoded(value@, 11),
    {
        let v = value.get();
        Self::write_bits(buf, v);
    }

    /// Fill `buf` with the bits that stand for `value`.
    fn write_u12(buf: &mut [U1; 12], value: U12)
        ensures
            u1_bits(final(buf)@) == Self::encoded(value@, 12),
    {
        let v = value.get();
        Self::write_bits(buf, v);
    }

    /// Fill `buf` with the bits that stand for `value`.
    fn write_u13(buf: &mut [U1; 13], value: U13)
        ensures
            u1_bits(final(buf)@) == Self::encoded(value@, 13),
    {
        let v = value.get();
        Self::write_bits(buf, v);
    }

    /// Fill `buf` with the bits that stand for `value`.
    fn write_u14(buf: &mut [U1; 14], value: U14)
        ensures
            u1_bits(final(buf)@) == Self::encoded(value@, 14),
    {
        let v = value.get();
        Self::write_bits(buf, v);
    }

    /// Fill `buf` with the bits that stand for `value`.
    fn write_u15(buf: &mut [U1; 15], value: U15)
        ensures
            u1_bits(final(buf)@) == Self::encoded(value@, 15),
    {
        let v = value.get();
        Self::write_bits(buf, v);
    }

    /// Fill `buf` with the bits that stand for `value`.
    fn write_u16(buf: &mut [U1; 16], value: U16)
        ensures
            u1_bits(final(buf)@) == Self::encoded(value@, 16),
    {
        let v = value.get();
        Self::write_bits(buf, v);
    }

    /// Fill `buf` with the bits that stand for `value`.
    fn write_u17(buf: &mut [U1; 17], value: U17)
        ensures
            u1_bits(final(buf)@) == Self::encoded(value@, 17),
    {
        let v = value.get();
        Self::write_bits(buf, v);
    }

    /// Fill `buf` with the bits that stand for `value`.
    fn write_u18(buf: &mut [U1; 18], value: U18)
        ensures
            u1_bits(final(buf)@) == Self::encoded(value@, 18),
    {
        let v = value.get();
        Self::write_bits(buf, v);
    }

    /// Fill `buf` with the bits that stand for `value`.
    fn write_u19(buf: &mut [U1; 19], value: U19)
        ensures
            u1_bits(final(buf)@) == Self::encoded(value@, 19),
    {
        let v = value.get();
        Self::write_bits(buf, v);
    }

    /// Fill `buf` with the bits that stand for `value`.
    fn write_u20(buf: &mut [U1; 20], value: U20)
        ensures
            u1_bits(final(buf)@) == Self::encoded(value@, 20),
    {
        let v = value.get();
        Self::write_bits(buf, v);
    }

    /// Fill `buf` with the bits that stand for `value`.
    fn write_u21(buf: &mut [U1; 21], value: U21)
        ensures
            u1_bits(final(buf)@) == Self::encoded(value@, 21),
    {
        let v = value.get();
        Self::write_bits(buf, v);
    }

    /// Fill `buf` with the bits that stand for `value`.
    fn write_u22(buf: &mut [U1; 22], value: U22)
        ensures
            u1_bits(final(buf)@) == Self::encoded(value@, 22),
    {
        let v = value.get();
        Self::write_bits(buf, v);
    }

    /// Fill `buf` with the bits that stand for `value`.
    fn write_u23(buf: &mut [U1; 23], value: U23)
        ensures
            u1_bits(final(buf)@) == Self::encoded(value@, 23),
    {
        let v = value.get();
        Self::write_bits(buf, v);
    }

    /// Fill `buf` with the bits that stand for `value`.
    fn write_u24(buf: &mut [U1; 24], value: U24)
        ensures
            u1_bits(final(buf)@) == Self::encoded(value@, 24),
    {
        let v = value.get();
        Self::write_bits(buf, v);
    }

    /// Fill `buf` with the bits that stand for `value`.
    fn write_u25(buf: &mut [U1; 25], value: U25)
        ensures
            u1_bits(final(buf)@) == Self::encoded(value@, 25),
    {
        let v = value.get();
        Self::write_bits(buf, v);
    }

    /// Fill `buf` with the bits that stand for `value`.
    fn write_u26(buf: &mut [U1; 26], value: U26)
        ensures
            u1_bits(final(buf)@) == Self::encoded(value@, 26),
    {
        let v = value.get();
        Self::write_bits(buf, v);
    }

    /// Fill `buf` with the bits that stand for `value`.
    fn write_u27(buf: &mut [U1; 27], value: U27)
        ensures
            u1_bits(final(buf)@) == Self::encoded(value@, 27),
    {
        let v = value.get();
        Self::write_bits(buf, v);
    }

    /// Fill `buf` with the bits that stand for `value`.
    fn write_u28(buf: &mut [U1; 28], value: U28)
        ensures
            u1_bits(final(buf)@) == Self::encoded(value@, 28),
    {
        let v = value.get();
        Self::write_bits(buf, v);
    }

    /// Fill `buf` with the bits that stand for `value`.
    fn write_u29(buf: &mut [U1; 29], value: U29)
        ensures
            u1_bits(final(buf)@) == Self::encoded(value@, 29),
    {
        let v = value.get();
        Self::write_bits(buf, v);
    }

    /// Fill `buf` with the bits that stand for `value`.
    fn write_u30(buf: &mut [U1; 30], value: U30)
        ensures
            u1_bits(final(buf)@) == Self::encoded(value@, 30),
    {
        let v = value.get();
        Self::write_bits(buf, v);
    }

    /// Fill `buf` with the bits that stand for `value`.
    fn write_u31(buf: &mut [U1; 31], value: U31)
        ensures
            u1_bits(final(buf)@) == Self::encoded(value@, 31),
    {
        let v = value.get();
        Self::write_bits(buf, v);
    }

    /// Fill `buf` with the bits that stand for `value`.
    fn write_u32(buf: &mut [U1; 32], value: U32)
        ensures
            u1_bits(final(buf)@) == Self::encoded(value@, 32),
    {
        let v = value.get();
        Self::write_bits(buf, v);
    }
}

/// Values laid out most significant bit first, whatever their width.
pub struct BigEndian {}

/// Values laid out as bytes least significant first, each byte most significant bit first.
pub struct LittleEndian {}

/// The order of network protocols.
pub type NetworkOrder = BigEndian;

impl ByteOrder for BigEndian {
    open spec fn decoded(bits: Seq<bool>) -> nat {
        be_value(bits)
    }

    open spec fn encoded(value: nat, n: nat) -> Seq<bool> {
        be_bits(value, n)
    }

    proof fn lemma_round_trip(value: nat, n: nat) {
        lemma_be_bits_len(value, n);
        lemma_be_round_trip(value, n);
    }

    proof fn lemma_decoded_bound(bits: Seq<bool>) {
        lemma_be_value_bound(bits);
    }

    fn read_bits(buf: &[U1]) -> (r: u32) {
        let r = decode_be_at(buf, 0, buf.len());
        assert(u1_bits(buf@).subrange(0, buf@.len() as int) =~= u1_bits(buf@));
        r
    }

    fn write_bits(buf: &mut [U1], value: u32) {
        let n = buf.len();
        encode_be_at(buf, 0, n, value);
        assert(u1_bits(buf@).subrange(0, n as int) =~= u1_bits(buf@));
    }
}

impl ByteOrder for LittleEndian {
    open spec fn decoded(bits: Seq<bool>) -> nat {
        le_value(bits)
    }

    open spec fn encoded(value: nat, n: nat) -> Seq<bool> {
        le_bits(value, n)
    }

    proof fn lemma_round_trip(value: nat, n: nat) {
        lemma_le_bits_len(value, n);
        lemma_le_round_trip(value, n);
    }

    proof fn lemma_decoded_bound(bits: Seq<bool>) {
        lemma_le_value_bound(bits);
    }

    fn read_bits(buf: &[U1]) -> (r: u32) {
        let r = decode_le_at(buf, 0, buf.len());
        assert(u1_bits(buf@).subrange(0, buf@.len() as int) =~= u1_bits(buf@));
        r
    }

    fn write_bits(buf: &mut [U1], value: u32) {
        let n = buf.len();
        encode_le_at(buf, 0, n, value);
        assert(u1_bits(buf@).subrange(0, n as int) =~= u1_bits(buf@));
    }
}

} // verus!
