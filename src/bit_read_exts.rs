//! Reading unsigned values of 1 to 32 bits from a bit source.
use vstd::prelude::*;
use vstd::arithmetic::power2::{pow2, lemma2_to64, lemma_pow2_strictly_increases, lemma_pow2_unfold};

use crate::bit_read::BitRead;
use crate::bit_traits::{u1_bits, UBits, U1, U2, U3, U4, U5, U6, U7, U8, U9, U10, U11, U12, U13, U14, U15, U16, U17, U18, U19, U20, U21, U22, U23, U24, U25, U26, U27, U28, U29, U30, U31, U32};
use crate::byte_order::{be_value, ByteOrder};
use crate::error::BitIoError;

verus! {

/// Read `N` bits, most significant first, as a value.
fn bit_read_exts_helper<R: BitRead, const N: usize>(src: &mut R) -> (r: Result<UBits<N>, BitIoError>)
    requires
        1 <= N <= 32,
        old(src).read_wf(),
    ensures
        final(src).read_wf(),
        old(src).readable().len() >= N ==> {
            &&& r matches Ok(v) && v@ == be_value(old(src).readable().take(N as int))
            &&& R::read_step(old(src), final(src), N as nat)
        },
        old(src).readable().len() < N ==> {
            &&& r == Err::<UBits<N>, BitIoError>(BitIoError::UnexpectedEnd)
            &&& R::read_step(old(src), final(src), 0)
        },
{
    let mut buf: Vec<U1> = Vec::new();
    let mut i: usize = 0;
    while i < N
        invariant
            i <= N,
            buf@.len() == i,
        decreases N - i,
    {
        buf.push(U1::zero());
        i = i + 1;
    }
    match src.read_exact(buf.as_mut_slice()) {
        Ok(()) => {
            let mut val = UBits::<N>::zero();
            let mut i: usize = 0;
            proof {
                lemma2_to64();
                assert(u1_bits(buf@).take(0) =~= Seq::<bool>::empty());
            }
            while i < N
                invariant
                    i <= N,
                    1 <= N <= 32,
                    buf@.len() == N,
                    val@ == be_value(u1_bits(buf@).take(i as int)),
                    val@ < pow2(i as nat),
                decreases N - i,
            {
                let b = buf[i];
                let bv = b.get();
                let shifted = val.shl(1);
                let bit = UBits::<N>::from_u1(b);
                proof {
                    lemma2_to64();
                    lemma_pow2_unfold((i + 1) as nat);
                    if i + 1 < N {
                        lemma_pow2_strictly_increases((i + 1) as nat, N as nat);
                    }
                    vstd::arithmetic::div_mod::lemma_small_mod((val@ * 2) as nat, pow2(N as nat));
                    shifted.lemma_word();
                    bit.lemma_word();
                    let x = shifted.word();
                    let y = bit.word();
                    assert(x | y == x + y) by (bit_vector)
                        requires
                            x % 2 == 0,
                            y <= 1,
                    ;
                    assert(u1_bits(buf@).take(i + 1).drop_last() =~= u1_bits(buf@).take(i as int));
                }
                val = shifted.bitor(bit);
                proof {
                    val.lemma_word();
                }
                i = i + 1;
            }
            assert(u1_bits(buf@).take(N as int) =~= u1_bits(buf@));
            Ok(val)
        },
        Err(err) => Err(err),
    }
}

/// Reading unsigned values of 1 to 32 bits; values wider than a byte in a given byte order.
pub trait BitReadExts: BitRead + Sized {

    /// Read a 1-bit value, most significant bit first.
    fn read_u1(&mut self) -> (r: Result<U1, BitIoError>)
        requires
            old(self).read_wf(),
        ensures
            final(self).read_wf(),
            old(self).readable().len() >= 1 ==> {
                &&& r matches Ok(v) && v@ == be_value(old(self).readable().take(1))
                &&& Self::read_step(old(self), final(self), 1)
            },
            old(self).readable().len() < 1 ==> {
                &&& r == Err::<U1, BitIoError>(BitIoError::UnexpectedEnd)
                &&& Self::read_step(old(self), final(self), 0)
            },
    {
        bit_read_exts_helper::<Self, 1>(self)
    }

    /// Read a 2-bit value, most significant bit first.
    fn read_u2(&mut self) -> (r: Result<U2, BitIoError>)
        requires
            old(self).read_wf(),
        ensures
            final(self).read_wf(),
            old(self).readable().len() >= 2 ==> {
                &&& r matches Ok(v) && v@ == be_value(old(self).readable().take(2))
                &&& Self::read_step(old(self), final(self), 2)
            },
            old(self).readable().len() < 2 ==> {
                &&& r == Err::<U2, BitIoError>(BitIoError::UnexpectedEnd)
                &&& Self::read_step(old(self), final(self), 0)
            },
    {
        bit_read_exts_helper::<Self, 2>(self)
    }

    /// Read a 3-bit value, most significant bit first.
    fn read_u3(&mut self) -> (r: Result<U3, BitIoError>)
        requires
            old(self).read_wf(),
        ensures
            final(self).read_wf(),
            old(self).readable().len() >= 3 ==> {
                &&& r matches Ok(v) && v@ == be_value(old(self).readable().take(3))
                &&& Self::read_step(old(self), final(self), 3)
            },
            old(self).readable().len() < 3 ==> {
                &&& r == Err::<U3, BitIoError>(BitIoError::UnexpectedEnd)
                &&& Self::read_step(old(self), final(self), 0)
            },
    {
        bit_read_exts_helper::<Self, 3>(self)
    }

    /// Read a 4-bit value, most significant bit first.
    fn read_u4(&mut self) -> (r: Result<U4, BitIoError>)
        requires
            old(self).read_wf(),
        ensures
            final(self).read_wf(),
            old(self).readable().len() >= 4 ==> {
                &&& r matches Ok(v) && v@ == be_value(old(self).readable().take(4))
                &&& Self::read_step(old(self), final(self), 4)
            },
            old(self).readable().len() < 4 ==> {
                &&& r == Err::<U4, BitIoError>(BitIoError::UnexpectedEnd)
                &&& Self::read_step(old(self), final(self), 0)
            },
    {
        bit_read_exts_helper::<Self, 4>(self)
    }

    /// Read a 5-bit value, most significant bit first.
    fn read_u5(&mut self) -> (r: Result<U5, BitIoError>)
        requires
            old(self).read_wf(),
        ensures
            final(self).read_wf(),
            old(self).readable().len() >= 5 ==> {
                &&& r matches Ok(v) && v@ == be_value(old(self).readable().take(5))
                &&& Self::read_step(old(self), final(self), 5)
            },
            old(self).readable().len() < 5 ==> {
                &&& r == Err::<U5, BitIoError>(BitIoError::UnexpectedEnd)
                &&& Self::read_step(old(self), final(self), 0)
            },
    {
        bit_read_exts_helper::<Self, 5>(self)
    }

    /// Read a 6-bit value, most significant bit first.
    fn read_u6(&mut self) -> (r: Result<U6, BitIoError>)
        requires
            old(self).read_wf(),
        ensures
            final(self).read_wf(),
            old(self).readable().len() >= 6 ==> {
                &&& r matches Ok(v) && v@ == be_value(old(self).readable().take(6))
                &&& Self::read_step(old(self), final(self), 6)
            },
            old(self).readable().len() < 6 ==> {
                &&& r == Err::<U6, BitIoError>(BitIoError::UnexpectedEnd)
                &&& Self::read_step(old(self), final(self), 0)
            },
    {
        bit_read_exts_helper::<Self, 6>(self)
    }

    /// Read a 7-bit value, most significant bit first.
    fn read_u7(&mut self) -> (r: Result<U7, BitIoError>)
        requires
            old(self).read_wf(),
        ensures
            final(self).read_wf(),
            old(self).readable().len() >= 7 ==> {
                &&& r matches Ok(v) && v@ == be_value(old(self).readable().take(7))
                &&& Self::read_step(old(self), final(self), 7)
            },
            old(self).readable().len() < 7 ==> {
                &&& r == Err::<U7, BitIoError>(BitIoError::UnexpectedEnd)
                &&& Self::read_step(old(self), final(self), 0)
            },
    {
        bit_read_exts_helper::<Self, 7>(self)
    }

    /// Read a 8-bit value, most significant bit first.
    fn read_u8(&mut self) -> (r: Result<U8, BitIoError>)
        requires
            old(self).read_wf(),
        ensures
            final(self).read_wf(),
            old(self).readable().len() >= 8 ==> {
                &&& r matches Ok(v) && v@ == be_value(old(self).readable().take(8))
                &&& Self::read_step(old(self), final(self), 8)
            },
            old(self).readable().len() < 8 ==> {
                &&& r == Err::<U8, BitIoError>(BitIoError::UnexpectedEnd)
                &&& Self::read_step(old(self), final(self), 0)
            },
    {
        bit_read_exts_helper::<Self, 8>(self)
    }

    /// Read a 9-bit value laid out in byte order `B`.
    fn read_u9<B: ByteOrder>(&mut self) -> (r: Result<U9, BitIoError>)
        requires
            old(self).read_wf(),
        ensures
            final(self).read_wf(),
            old(self).readable().len() >= 9 ==> {
                &&& r matches Ok(v) && v@ == B::decoded(old(self).readable().take(9))
                &&& Self::read_step(old(self), final(self), 9)
            },
            old(self).readable().len() < 9 ==> {
                &&& r == Err::<U9, BitIoError>(BitIoError::UnexpectedEnd)
                &&& Self::read_step(old(self), final(self), 0)
            },
    {
        let mut buf = [U1::zero(); 9];
        match self.read_exact(&mut buf) {
            Ok(()) => Ok(B::read_u9(&buf)),
            Err(err) => Err(err),
        }
    }

    /// Read a 10-bit value laid out in byte order `B`.
    fn read_u10<B: ByteOrder>(&mut self) -> (r: Result<U10, BitIoError>)
        requires
            old(self).read_wf(),
        ensures
            final(self).read_wf(),
            old(self).readable().len() >= 10 ==> {
                &&& r matches Ok(v) && v@ == B::decoded(old(self).readable().take(10))
                &&& Self::read_step(old(self), final(self), 10)
            },
            old(self).readable().len() < 10 ==> {
                &&& r == Err::<U10, BitIoError>(BitIoError::UnexpectedEnd)
                &&& Self::read_step(old(self), final(self), 0)
            },
    {
        let mut buf = [U1::zero(); 10];
        match self.read_exact(&mut buf) {
            Ok(()) => Ok(B::read_u10(&buf)),
            Err(err) => Err(err),
        }
    }

    /// Read a 11-bit value laid out in byte order `B`.
    fn read_u11<B: ByteOrder>(&mut self) -> (r: Result<U11, BitIoError>)
        requires
            old(self).read_wf(),
        ensures
            final(self).read_wf(),
            old(self).readable().len() >= 11 ==> {
                &&& r matches Ok(v) && v@ == B::decoded(old(self).readable().take(11))
                &&& Self::read_step(old(self), final(self), 11)
            },
            old(self).readable().len() < 11 ==> {
                &&& r == Err::<U11, BitIoError>(BitIoError::UnexpectedEnd)
                &&& Self::read_step(old(self), final(self), 0)
            },
    {
        let mut buf = [U1::zero(); 11];
        match self.read_exact(&mut buf) {
            Ok(()) => Ok(B::read_u11(&buf)),
            Err(err) => Err(err),
        }
    }

    /// Read a 12-bit value laid out in byte order `B`.
    fn read_u12<B: ByteOrder>(&mut self) -> (r: Result<U12, BitIoError>)
        requires
            old(self).read_wf(),
        ensures
            final(self).read_wf(),
            old(self).readable().len() >= 12 ==> {
                &&& r matches Ok(v) && v@ == B::decoded(old(self).readable().take(12))
                &&& Self::read_step(old(self), final(self), 12)
            },
            old(self).readable().len() < 12 ==> {
                &&& r == Err::<U12, BitIoError>(BitIoError::UnexpectedEnd)
                &&& Self::read_step(old(self), final(self), 0)
            },
    {
        let mut buf = [U1::zero(); 12];
        match self.read_exact(&mut buf) {
            Ok(()) => Ok(B::read_u12(&buf)),
            Err(err) => Err(err),
        }
    }

    /// Read a 13-bit value laid out in byte order `B`.
    fn read_u13<B: ByteOrder>(&mut self) -> (r: Result<U13, BitIoError>)
        requires
            old(self).read_wf(),
        ensures
            final(self).read_wf(),
            old(self).readable().len() >= 13 ==> {
                &&& r matches Ok(v) && v@ == B::decoded(old(self).readable().take(13))
                &&& Self::read_step(old(self), final(self), 13)
            },
            old(self).readable().len() < 13 ==> {
                &&& r == Err::<U13, BitIoError>(BitIoError::UnexpectedEnd)
                &&& Self::read_step(old(self), final(self), 0)
            },
    {
        let mut buf = [U1::zero(); 13];
        match self.read_exact(&mut buf) {
            Ok(()) => Ok(B::read_u13(&buf)),
            Err(err) => Err(err),
        }
    }

    /// Read a 14-bit value laid out in byte order `B`.
    fn read_u14<B: ByteOrder>(&mut self) -> (r: Result<U14, BitIoError>)
        requires
            old(self).read_wf(),
        ensures
            final(self).read_wf(),
            old(self).readable().len() >= 14 ==> {
                &&& r matches Ok(v) && v@ == B::decoded(old(self).readable().take(14))
                &&& Self::read_step(old(self), final(self), 14)
            },
            old(self).readable().len() < 14 ==> {
                &&& r == Err::<U14, BitIoError>(BitIoError::UnexpectedEnd)
                &&& Self::read_step(old(self), final(self), 0)
            },
    {
        let mut buf = [U1::zero(); 14];
        match self.read_exact(&mut buf) {
            Ok(()) => Ok(B::read_u14(&buf)),
            Err(err) => Err(err),
        }
    }

    /// Read a 15-bit value laid out in byte order `B`.
    fn read_u15<B: ByteOrder>(&mut self) -> (r: Result<U15, BitIoError>)
        requires
            old(self).read_wf(),
        ensures
            final(self).read_wf(),
            old(self).readable().len() >= 15 ==> {
                &&& r matches Ok(v) && v@ == B::decoded(old(self).readable().take(15))
                &&& Self::read_step(old(self), final(self), 15)
            },
            old(self).readable().len() < 15 ==> {
                &&& r == Err::<U15, BitIoError>(BitIoError::UnexpectedEnd)
                &&& Self::read_step(old(self), final(self), 0)
            },
    {
        let mut buf = [U1::zero(); 15];
        match self.read_exact(&mut buf) {
            Ok(()) => Ok(B::read_u15(&buf)),
            Err(err) => Err(err),
        }
    }

    /// Read a 16-bit value laid out in byte order `B`.
    fn read_u16<B: ByteOrder>(&mut self) -> (r: Result<U16, BitIoError>)
        requires
            old(self).read_wf(),
        ensures
            final(self).read_wf(),
            old(self).readable().len() >= 16 ==> {
                &&& r matches Ok(v) && v@ == B::decoded(old(self).readable().take(16))
                &&& Self::read_step(old(self), final(self), 16)
            },
            old(self).readable().len() < 16 ==> {
                &&& r == Err::<U16, BitIoError>(BitIoError::UnexpectedEnd)
                &&& Self::read_step(old(self), final(self), 0)
            },
    {
        let mut buf = [U1::zero(); 16];
        match self.read_exact(&mut buf) {
            Ok(()) => Ok(B::read_u16(&buf)),
            Err(err) => Err(err),
        }
    }

    /// Read a 17-bit value laid out in byte order `B`.
    fn read_u17<B: ByteOrder>(&mut self) -> (r: Result<U17, BitIoError>)
        requires
            old(self).read_wf(),
        ensures
            final(self).read_wf(),
            old(self).readable().len() >= 17 ==> {
                &&& r matches Ok(v) && v@ == B::decoded(old(self).readable().take(17))
                &&& Self::read_step(old(self), final(self), 17)
            },
            old(self).readable().len() < 17 ==> {
                &&& r == Err::<U17, BitIoError>(BitIoError::UnexpectedEnd)
                &&& Self::read_step(old(self), final(self), 0)
            },
    {
        let mut buf = [U1::zero(); 17];
        match self.read_exact(&mut buf) {
            Ok(()) => Ok(B::read_u17(&buf)),
            Err(err) => Err(err),
        }
    }

    /// Read a 18-bit value laid out in byte order `B`.
    fn read_u18<B: ByteOrder>(&mut self) -> (r: Result<U18, BitIoError>)
        requires
            old(self).read_wf(),
        ensures
            final(self).read_wf(),
            old(self).readable().len() >= 18 ==> {
                &&& r matches Ok(v) && v@ == B::decoded(old(self).readable().take(18))
                &&& Self::read_step(old(self), final(self), 18)
            },
            old(self).readable().len() < 18 ==> {
                &&& r == Err::<U18, BitIoError>(BitIoError::UnexpectedEnd)
                &&& Self::read_step(old(self), final(self), 0)
            },
    {
        let mut buf = [U1::zero(); 18];
        match self.read_exact(&mut buf) {
            Ok(()) => Ok(B::read_u18(&buf)),
            Err(err) => Err(err),
        }
    }

    /// Read a 19-bit value laid out in byte order `B`.
    fn read_u19<B: ByteOrder>(&mut self) -> (r: Result<U19, BitIoError>)
        requires
            old(self).read_wf(),
        ensures
            final(self).read_wf(),
            old(self).readable().len() >= 19 ==> {
                &&& r matches Ok(v) && v@ == B::decoded(old(self).readable().take(19))
                &&& Self::read_step(old(self), final(self), 19)
            },
            old(self).readable().len() < 19 ==> {
                &&& r == Err::<U19, BitIoError>(BitIoError::UnexpectedEnd)
                &&& Self::read_step(old(self), final(self), 0)
            },
    {
        let mut buf = [U1::zero(); 19];
        match self.read_exact(&mut buf) {
            Ok(()) => Ok(B::read_u19(&buf)),
            Err(err) => Err(err),
        }
    }

    /// Read a 20-bit value laid out in byte order `B`.
    fn read_u20<B: ByteOrder>(&mut self) -> (r: Result<U20, BitIoError>)
        requires
            old(self).read_wf(),
        ensures
            final(self).read_wf(),
            old(self).readable().len() >= 20 ==> {
                &&& r matches Ok(v) && v@ == B::decoded(old(self).readable().take(20))
                &&& Self::read_step(old(self), final(self), 20)
            },
            old(self).readable().len() < 20 ==> {
                &&& r == Err::<U20, BitIoError>(BitIoError::UnexpectedEnd)
                &&& Self::read_step(old(self), final(self), 0)
            },
    {
        let mut buf = [U1::zero(); 20];
        match self.read_exact(&mut buf) {
            Ok(()) => Ok(B::read_u20(&buf)),
            Err(err) => Err(err),
        }
    }

    /// Read a 21-bit value laid out in byte order `B`.
    fn read_u21<B: ByteOrder>(&mut self) -> (r: Result<U21, BitIoError>)
        requires
            old(self).read_wf(),
        ensures
            final(self).read_wf(),
            old(self).readable().len() >= 21 ==> {
                &&& r matches Ok(v) && v@ == B::decoded(old(self).readable().take(21))
                &&& Self::read_step(old(self), final(self), 21)
            },
            old(self).readable().len() < 21 ==> {
                &&& r == Err::<U21, BitIoError>(BitIoError::UnexpectedEnd)
                &&& Self::read_step(old(self), final(self), 0)
            },
    {
        let mut buf = [U1::zero(); 21];
        match self.read_exact(&mut buf) {
            Ok(()) => Ok(B::read_u21(&buf)),
            Err(err) => Err(err),
        }
    }

    /// Read a 22-bit value laid out in byte order `B`.
    fn read_u22<B: ByteOrder>(&mut self) -> (r: Result<U22, BitIoError>)
        requires
            old(self).read_wf(),
        ensures
            final(self).read_wf(),
            old(self).readable().len() >= 22 ==> {
                &&& r matches Ok(v) && v@ == B::decoded(old(self).readable().take(22))
                &&& Self::read_step(old(self), final(self), 22)
            },
            old(self).readable().len() < 22 ==> {
                &&& r == Err::<U22, BitIoError>(BitIoError::UnexpectedEnd)
                &&& Self::read_step(old(self), final(self), 0)
            },
    {
        let mut buf = [U1::zero(); 22];
        match self.read_exact(&mut buf) {
            Ok(()) => Ok(B::read_u22(&buf)),
            Err(err) => Err(err),
        }
    }

    /// Read a 23-bit value laid out in byte order `B`.
    fn read_u23<B: ByteOrder>(&mut self) -> (r: Result<U23, BitIoError>)
        requires
            old(self).read_wf(),
        ensures
            final(self).read_wf(),
            old(self).readable().len() >= 23 ==> {
                &&& r matches Ok(v) && v@ == B::decoded(old(self).readable().take(23))
                &&& Self::read_step(old(self), final(self), 23)
            },
            old(self).readable().len() < 23 ==> {
                &&& r == Err::<U23, BitIoError>(BitIoError::UnexpectedEnd)
                &&& Self::read_step(old(self), final(self), 0)
            },
    {
        let mut buf = [U1::zero(); 23];
        match self.read_exact(&mut buf) {
            Ok(()) => Ok(B::read_u23(&buf)),
            Err(err) => Err(err),
        }
    }

    /// Read a 24-bit value laid out in byte order `B`.
    fn read_u24<B: ByteOrder>(&mut self) -> (r: Result<U24, BitIoError>)
        requires
            old(self).read_wf(),
        ensures
            final(self).read_wf(),
            old(self).readable().len() >= 24 ==> {
                &&& r matches Ok(v) && v@ == B::decoded(old(self).readable().take(24))
                &&& Self::read_step(old(self), final(self), 24)
            },
            old(self).readable().len() < 24 ==> {
                &&& r == Err::<U24, BitIoError>(BitIoError::UnexpectedEnd)
                &&& Self::read_step(old(self), final(self), 0)
            },
    {
        let mut buf = [U1::zero(); 24];
        match self.read_exact(&mut buf) {
            Ok(()) => Ok(B::read_u24(&buf)),
            Err(err) => Err(err),
        }
    }

    /// Read a 25-bit value laid out in byte order `B`.
    fn read_u25<B: ByteOrder>(&mut self) -> (r: Result<U25, BitIoError>)
        requires
            old(self).read_wf(),
        ensures
            final(self).read_wf(),
            old(self).readable().len() >= 25 ==> {
                &&& r matches Ok(v) && v@ == B::decoded(old(self).readable().take(25))
                &&& Self::read_step(old(self), final(self), 25)
            },
            old(self).readable().len() < 25 ==> {
                &&& r == Err::<U25, BitIoError>(BitIoError::UnexpectedEnd)
                &&& Self::read_step(old(self), final(self), 0)
            },
    {
        let mut buf = [U1::zero(); 25];
        match self.read_exact(&mut buf) {
            Ok(()) => Ok(B::read_u25(&buf)),
            Err(err) => Err(err),
        }
    }

    /// Read a 26-bit value laid out in byte order `B`.
    fn read_u26<B: ByteOrder>(&mut self) -> (r: Result<U26, BitIoError>)
        requires
            old(self).read_wf(),
        ensures
            final(self).read_wf(),
            old(self).readable().len() >= 26 ==> {
                &&& r matches Ok(v) && v@ == B::decoded(old(self).readable().take(26))
                &&& Self::read_step(old(self), final(self), 26)
            },
            old(self).readable().len() < 26 ==> {
                &&& r == Err::<U26, BitIoError>(BitIoError::UnexpectedEnd)
                &&& Self::read_step(old(self), final(self), 0)
            },
    {
        let mut buf = [U1::zero(); 26];
        match self.read_exact(&mut buf) {
            Ok(()) => Ok(B::read_u26(&buf)),
            Err(err) => Err(err),
        }
    }

    /// Read a 27-bit value laid out in byte order `B`.
    fn read_u27<B: ByteOrder>(&mut self) -> (r: Result<U27, BitIoError>)
        requires
            old(self).read_wf(),
        ensures
            final(self).read_wf(),
            old(self).readable().len() >= 27 ==> {
                &&& r matches Ok(v) && v@ == B::decoded(old(self).readable().take(27))
                &&& Self::read_step(old(self), final(self), 27)
            },
            old(self).readable().len() < 27 ==> {
                &&& r == Err::<U27, BitIoError>(BitIoError::UnexpectedEnd)
                &&& Self::read_step(old(self), final(self), 0)
            },
    {
        let mut buf = [U1::zero(); 27];
        match self.read_exact(&mut buf) {
            Ok(()) => Ok(B::read_u27(&buf)),
            Err(err) => Err(err),
        }
    }

    /// Read a 28-bit value laid out in byte order `B`.
    fn read_u28<B: ByteOrder>(&mut self) -> (r: Result<U28, BitIoError>)
        requires
            old(self).read_wf(),
        ensures
            final(self).read_wf(),
            old(self).readable().len() >= 28 ==> {
                &&& r matches Ok(v) && v@ == B::decoded(old(self).readable().take(28))
                &&& Self::read_step(old(self), final(self), 28)
            },
            old(self).readable().len() < 28 ==> {
                &&& r == Err::<U28, BitIoError>(BitIoError::UnexpectedEnd)
                &&& Self::read_step(old(self), final(self), 0)
            },
    {
        let mut buf = [U1::zero(); 28];
        match self.read_exact(&mut buf) {
            Ok(()) => Ok(B::read_u28(&buf)),
            Err(err) => Err(err),
        }
    }

    /// Read a 29-bit value laid out in byte order `B`.
    fn read_u29<B: ByteOrder>(&mut self) -> (r: Result<U29, BitIoError>)
        requires
            old(self).read_wf(),
        ensures
            final(self).read_wf(),
            old(self).readable().len() >= 29 ==> {
                &&& r matches Ok(v) && v@ == B::decoded(old(self).readable().take(29))
                &&& Self::read_step(old(self), final(self), 29)
            },
            old(self).readable().len() < 29 ==> {
                &&& r == Err::<U29, BitIoError>(BitIoError::UnexpectedEnd)
                &&& Self::read_step(old(self), final(self), 0)
            },
    {
        let mut buf = [U1::zero(); 29];
        match self.read_exact(&mut buf) {
            Ok(()) => Ok(B::read_u29(&buf)),
            Err(err) => Err(err),
        }
    }

    /// Read a 30-bit value laid out in byte order `B`.
    fn read_u30<B: ByteOrder>(&mut self) -> (r: Result<U30, BitIoError>)
        requires
            old(self).read_wf(),
        ensures
            final(self).read_wf(),
            old(self).readable().len() >= 30 ==> {
                &&& r matches Ok(v) && v@ == B::decoded(old(self).readable().take(30))
                &&& Self::read_step(old(self), final(self), 30)
            },
            old(self).readable().len() < 30 ==> {
                &&& r == Err::<U30, BitIoError>(BitIoError::UnexpectedEnd)
                &&& Self::read_step(old(self), final(self), 0)
            },
    {
        let mut buf = [U1::zero(); 30];
        match self.read_exact(&mut buf) {
            Ok(()) => Ok(B::read_u30(&buf)),
            Err(err) => Err(err),
        }
    }

    /// Read a 31-bit value laid out in byte order `B`.
    fn read_u31<B: ByteOrder>(&mut self) -> (r: Result<U31, BitIoError>)
        requires
            old(self).read_wf(),
        ensures
            final(self).read_wf(),
            old(self).readable().len() >= 31 ==> {
                &&& r matches Ok(v) && v@ == B::decoded(old(self).readable().take(31))
                &&& Self::read_step(old(self), final(self), 31)
            },
            old(self).readable().len() < 31 ==> {
                &&& r == Err::<U31, BitIoError>(BitIoError::UnexpectedEnd)
                &&& Self::read_step(old(self), final(self), 0)
            },
    {
        let mut buf = [U1::zero(); 31];
        match self.read_exact(&mut buf) {
            Ok(()) => Ok(B::read_u31(&buf)),
            Err(err) => Err(err),
        }
    }

    /// Read a 32-bit value laid out in byte order `B`.
    fn read_u32<B: ByteOrder>(&mut self) -> (r: Result<U32, BitIoError>)
        requires
            old(self).read_wf(),
        ensures
            final(self).read_wf(),
            old(self).readable().len() >= 32 ==> {
                &&& r matches Ok(v) && v@ == B::decoded(old(self).readable().take(32))
                &&& Self::read_step(old(self), final(self), 32)
            },
            old(self).readable().len() < 32 ==> {
                &&& r == Err::<U32, BitIoError>(BitIoError::UnexpectedEnd)
                &&& Self::read_step(old(self), final(self), 0)
            },
    {
        let mut buf = [U1::zero(); 32];
        match self.read_exact(&mut buf) {
            Ok(()) => Ok(B::read_u32(&buf)),
            Err(err) => Err(err),
        }
    }
}

impl<T: BitRead> BitReadExts for T {
}

} // verus!
