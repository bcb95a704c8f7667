//! Writing unsigned values of 1 to 32 bits to a bit sink.
use vstd::prelude::*;

use crate::bit_traits::{u1_bits, UBits, U1, U2, U3, U4, U5, U6, U7, U8, U9, U10, U11, U12, U13, U14, U15, U16, U17, U18, U19, U20, U21, U22, U23, U24, U25, U26, U27, U28, U29, U30, U31, U32};
use crate::bit_write::BitWrite;
use crate::byte_order::{be_bits, encode_be_at, ByteOrder};
use crate::error::BitIoError;

verus! {

/// Write the `N` bits of `value`, most significant first.
fn bit_write_exts_write_helper<W: BitWrite, const N: usize>(sink: &mut W, value: UBits<N>) -> (r: Result<(), BitIoError>)
    requires
        old(sink).write_wf(),
    ensures
        final(sink).write_wf(),
        old(sink).writable().len() >= N ==> {
            &&& r is Ok
            &&& W::write_step(old(sink), final(sink), be_bits(value@, N as nat))
        },
        old(sink).writable().len() < N ==> {
            &&& r == Err::<(), BitIoError>(BitIoError::UnexpectedEnd)
            &&& W::write_step(old(sink), final(sink), Seq::empty())
        },
{
    let v = value.get();
    let mut buf: Vec<U1> = Vec::new();
    let mut i: usize = 0;
    while i < N
        invariant
            i <= N,
            1 <= N <= 32,
            buf@.len() == i,
        decreases N - i,
    {
        buf.push(U1::zero());
        i = i + 1;
    }
    encode_be_at(buf.as_mut_slice(), 0, N, v);
    assert(u1_bits(buf@).subrange(0, N as int) =~= u1_bits(buf@));
    sink.write_all(buf.as_slice())
}

/// Writing unsigned values of 1 to 32 bits; values wider than a byte in a given byte order.
pub trait BitWriteExts: BitWrite + Sized {

    /// Write a 1-bit value, most significant bit first.
    fn write_u1(&mut self, value: U1) -> (r: Result<(), BitIoError>)
        requires
            old(self).write_wf(),
        ensures
            final(self).write_wf(),
            old(self).writable().len() >= 1 ==> {
                &&& r is Ok
                &&& Self::write_step(old(self), final(self), be_bits(value@, 1))
            },
            old(self).writable().len() < 1 ==> {
                &&& r == Err::<(), BitIoError>(BitIoError::UnexpectedEnd)
                &&& Self::write_step(old(self), final(self), Seq::empty())
            },
    {
        bit_write_exts_write_helper::<Self, 1>(self, value)
    }

    /// Write a 2-bit value, most significant bit first.
    fn write_u2(&mut self, value: U2) -> (r: Result<(), BitIoError>)
        requires
            old(self).write_wf(),
        ensures
            final(self).write_wf(),
            old(self).writable().len() >= 2 ==> {
                &&& r is Ok
                &&& Self::write_step(old(self), final(self), be_bits(value@, 2))
            },
            old(self).writable().len() < 2 ==> {
                &&& r == Err::<(), BitIoError>(BitIoError::UnexpectedEnd)
                &&& Self::write_step(old(self), final(self), Seq::empty())
            },
    {
        bit_write_exts_write_helper::<Self, 2>(self, value)
    }

    /// Write a 3-bit value, most significant bit first.
    fn write_u3(&mut self, value: U3) -> (r: Result<(), BitIoError>)
        requires
            old(self).write_wf(),
        ensures
            final(self).write_wf(),
            old(self).writable().len() >= 3 ==> {
                &&& r is Ok
                &&& Self::write_step(old(self), final(self), be_bits(value@, 3))
            },
            old(self).writable().len() < 3 ==> {
                &&& r == Err::<(), BitIoError>(BitIoError::UnexpectedEnd)
                &&& Self::write_step(old(self), final(self), Seq::empty())
            },
    {
        bit_write_exts_write_helper::<Self, 3>(self, value)
    }

    /// Write a 4-bit value, most significant bit first.
    fn write_u4(&mut self, value: U4) -> (r: Result<(), BitIoError>)
        requires
            old(self).write_wf(),
        ensures
            final(self).write_wf(),
            old(self).writable().len() >= 4 ==> {
                &&& r is Ok
                &&& Self::write_step(old(self), final(self), be_bits(value@, 4))
            },
            old(self).writable().len() < 4 ==> {
                &&& r == Err::<(), BitIoError>(BitIoError::UnexpectedEnd)
                &&& Self::write_step(old(self), final(self), Seq::empty())
            },
    {
        bit_write_exts_write_helper::<Self, 4>(self, value)
    }

    /// Write a 5-bit value, most significant bit first.
    fn write_u5(&mut self, value: U5) -> (r: Result<(), BitIoError>)
        requires
            old(self).write_wf(),
        ensures
            final(self).write_wf(),
            old(self).writable().len() >= 5 ==> {
                &&& r is Ok
                &&& Self::write_step(old(self), final(self), be_bits(value@, 5))
            },
            old(self).writable().len() < 5 ==> {
                &&& r == Err::<(), BitIoError>(BitIoError::UnexpectedEnd)
                &&& Self::write_step(old(self), final(self), Seq::empty())
            },
    {
        bit_write_exts_write_helper::<Self, 5>(self, value)
    }

    /// Write a 6-bit value, most significant bit first.
    fn write_u6(&mut self, value: U6) -> (r: Result<(), BitIoError>)
        requires
            old(self).write_wf(),
        ensures
            final(self).write_wf(),
            old(self).writable().len() >= 6 ==> {
                &&& r is Ok
                &&& Self::write_step(old(self), final(self), be_bits(value@, 6))
            },
            old(self).writable().len() < 6 ==> {
                &&& r == Err::<(), BitIoError>(BitIoError::UnexpectedEnd)
                &&& Self::write_step(old(self), final(self), Seq::empty())
            },
    {
        bit_write_exts_write_helper::<Self, 6>(self, value)
    }

    /// Write a 7-bit value, most significant bit first.
    fn write_u7(&mut self, value: U7) -> (r: Result<(), BitIoError>)
        requires
            old(self).write_wf(),
        ensures
            final(self).write_wf(),
            old(self).writable().len() >= 7 ==> {
                &&& r is Ok
                &&& Self::write_step(old(self), final(self), be_bits(value@, 7))
            },
            old(self).writable().len() < 7 ==> {
                &&& r == Err::<(), BitIoError>(BitIoError::UnexpectedEnd)
                &&& Self::write_step(old(self), final(self), Seq::empty())
            },
    {
        bit_write_exts_write_helper::<Self, 7>(self, value)
    }

    /// Write a 8-bit value, most significant bit first.
    fn write_u8(&mut self, value: U8) -> (r: Result<(), BitIoError>)
        requires
            old(self).write_wf(),
        ensures
            final(self).write_wf(),
            old(self).writable().len() >= 8 ==> {
                &&& r is Ok
                &&& Self::write_step(old(self), final(self), be_bits(value@, 8))
            },
            old(self).writable().len() < 8 ==> {
                &&& r == Err::<(), BitIoError>(BitIoError::UnexpectedEnd)
                &&& Self::write_step(old(self), final(self), Seq::empty())
            },
    {
        bit_write_exts_write_helper::<Self, 8>(self, value)
    }

    /// Write a 9-bit value laid out in byte order `B`.
    fn write_u9<B: ByteOrder>(&mut self, value: U9) -> (r: Result<(), BitIoError>)
        requires
            old(self).write_wf(),
        ensures
            final(self).write_wf(),
            old(self).writable().len() >= 9 ==> {
                &&& r is Ok
                &&& Self::write_step(old(self), final(self), B::encoded(value@, 9))
            },
            old(self).writable().len() < 9 ==> {
                &&& r == Err::<(), BitIoError>(BitIoError::UnexpectedEnd)
                &&& Self::write_step(old(self), final(self), Seq::empty())
            },
    {
        let mut buf = [U1::zero(); 9];
        B::write_u9(&mut buf, value);
        self.write_all(&buf)
    }

    /// Write a 10-bit value laid out in byte order `B`.
    fn write_u10<B: ByteOrder>(&mut self, value: U10) -> (r: Result<(), BitIoError>)
        requires
            old(self).write_wf(),
        ensures
            final(self).write_wf(),
            old(self).writable().len() >= 10 ==> {
                &&& r is Ok
                &&& Self::write_step(old(self), final(self), B::encoded(value@, 10))
            },
            old(self).writable().len() < 10 ==> {
                &&& r == Err::<(), BitIoError>(BitIoError::UnexpectedEnd)
                &&& Self::write_step(old(self), final(self), Seq::empty())
            },
    {
        let mut buf = [U1::zero(); 10];
        B::write_u10(&mut buf, value);
        self.write_all(&buf)
    }

    /// Write a 11-bit value laid out in byte order `B`.
    fn write_u11<B: ByteOrder>(&mut self, value: U11) -> (r: Result<(), BitIoError>)
        requires
            old(self).write_wf(),
        ensures
            final(self).write_wf(),
            old(self).writable().len() >= 11 ==> {
                &&& r is Ok
                &&& Self::write_step(old(self), final(self), B::encoded(value@, 11))
            },
            old(self).writable().len() < 11 ==> {
                &&& r == Err::<(), BitIoError>(BitIoError::UnexpectedEnd)
                &&& Self::write_step(old(self), final(self), Seq::empty())
            },
    {
        let mut buf = [U1::zero(); 11];
        B::write_u11(&mut buf, value);
        self.write_all(&buf)
    }

    /// Write a 12-bit value laid out in byte order `B`.
    fn write_u12<B: ByteOrder>(&mut self, value: U12) -> (r: Result<(), BitIoError>)
        requires
            old(self).write_wf(),
        ensures
            final(self).write_wf(),
            old(self).writable().len() >= 12 ==> {
                &&& r is Ok
                &&& Self::write_step(old(self), final(self), B::encoded(value@, 12))
            },
            old(self).writable().len() < 12 ==> {
                &&& r == Err::<(), BitIoError>(BitIoError::UnexpectedEnd)
                &&& Self::write_step(old(self), final(self), Seq::empty())
            },
    {
        let mut buf = [U1::zero(); 12];
        B::write_u12(&mut buf, value);
        self.write_all(&buf)
    }

    /// Write a 13-bit value laid out in byte order `B`.
    fn write_u13<B: ByteOrder>(&mut self, value: U13) -> (r: Result<(), BitIoError>)
        requires
            old(self).write_wf(),
        ensures
            final(self).write_wf(),
            old(self).writable().len() >= 13 ==> {
                &&& r is Ok
                &&& Self::write_step(old(self), final(self), B::encoded(value@, 13))
            },
            old(self).writable().len() < 13 ==> {
                &&& r == Err::<(), BitIoError>(BitIoError::UnexpectedEnd)
                &&& Self::write_step(old(self), final(self), Seq::empty())
            },
    {
        let mut buf = [U1::zero(); 13];
        B::write_u13(&mut buf, value);
        self.write_all(&buf)
    }

    /// Write a 14-bit value laid out in byte order `B`.
    fn write_u14<B: ByteOrder>(&mut self, value: U14) -> (r: Result<(), BitIoError>)
        requires
            old(self).write_wf(),
        ensures
            final(self).write_wf(),
            old(self).writable().len() >= 14 ==> {
                &&& r is Ok
                &&& Self::write_step(old(self), final(self), B::encoded(value@, 14))
            },
            old(self).writable().len() < 14 ==> {
                &&& r == Err::<(), BitIoError>(BitIoError::UnexpectedEnd)
                &&& Self::write_step(old(self), final(self), Seq::empty())
            },
    {
        let mut buf = [U1::zero(); 14];
        B::write_u14(&mut buf, value);
        self.write_all(&buf)
    }

    /// Write a 15-bit value laid out in byte order `B`.
    fn write_u15<B: ByteOrder>(&mut self, value: U15) -> (r: Result<(), BitIoError>)
        requires
            old(self).write_wf(),
        ensures
            final(self).write_wf(),
            old(self).writable().len() >= 15 ==> {
                &&& r is Ok
                &&& Self::write_step(old(self), final(self), B::encoded(value@, 15))
            },
            old(self).writable().len() < 15 ==> {
                &&& r == Err::<(), BitIoError>(BitIoError::UnexpectedEnd)
                &&& Self::write_step(old(self), final(self), Seq::empty())
            },
    {
        let mut buf = [U1::zero(); 15];
        B::write_u15(&mut buf, value);
        self.write_all(&buf)
    }

    /// Write a 16-bit value laid out in byte order `B`.
    fn write_u16<B: ByteOrder>(&mut self, value: U16) -> (r: Result<(), BitIoError>)
        requires
            old(self).write_wf(),
        ensures
            final(self).write_wf(),
            old(self).writable().len() >= 16 ==> {
                &&& r is Ok
                &&& Self::write_step(old(self), final(self), B::encoded(value@, 16))
            },
            old(self).writable().len() < 16 ==> {
                &&& r == Err::<(), BitIoError>(BitIoError::UnexpectedEnd)
                &&& Self::write_step(old(self), final(self), Seq::empty())
            },
    {
        let mut buf = [U1::zero(); 16];
        B::write_u16(&mut buf, value);
        self.write_all(&buf)
    }

    /// Write a 17-bit value laid out in byte order `B`.
    fn write_u17<B: ByteOrder>(&mut self, value: U17) -> (r: Result<(), BitIoError>)
        requires
            old(self).write_wf(),
        ensures
            final(self).write_wf(),
            old(self).writable().len() >= 17 ==> {
                &&& r is Ok
                &&& Self::write_step(old(self), final(self), B::encoded(value@, 17))
            },
            old(self).writable().len() < 17 ==> {
                &&& r == Err::<(), BitIoError>(BitIoError::UnexpectedEnd)
                &&& Self::write_step(old(self), final(self), Seq::empty())
            },
    {
        let mut buf = [U1::zero(); 17];
        B::write_u17(&mut buf, value);
        self.write_all(&buf)
    }

    /// Write a 18-bit value laid out in byte order `B`.
    fn write_u18<B: ByteOrder>(&mut self, value: U18) -> (r: Result<(), BitIoError>)
        requires
            old(self).write_wf(),
        ensures
            final(self).write_wf(),
            old(self).writable().len() >= 18 ==> {
                &&& r is Ok
                &&& Self::write_step(old(self), final(self), B::encoded(value@, 18))
            },
            old(self).writable().len() < 18 ==> {
                &&& r == Err::<(), BitIoError>(BitIoError::UnexpectedEnd)
                &&& Self::write_step(old(self), final(self), Seq::empty())
            },
    {
        let mut buf = [U1::zero(); 18];
        B::write_u18(&mut buf, value);
        self.write_all(&buf)
    }

    /// Write a 19-bit value laid out in byte order `B`.
    fn write_u19<B: ByteOrder>(&mut self, value: U19) -> (r: Result<(), BitIoError>)
        requires
            old(self).write_wf(),
        ensures
            final(self).write_wf(),
            old(self).writable().len() >= 19 ==> {
                &&& r is Ok
                &&& Self::write_step(old(self), final(self), B::encoded(value@, 19))
            },
            old(self).writable().len() < 19 ==> {
                &&& r == Err::<(), BitIoError>(BitIoError::UnexpectedEnd)
                &&& Self::write_step(old(self), final(self), Seq::empty())
            },
    {
        let mut buf = [U1::zero(); 19];
        B::write_u19(&mut buf, value);
        self.write_all(&buf)
    }

    /// Write a 20-bit value laid out in byte order `B`.
    fn write_u20<B: ByteOrder>(&mut self, value: U20) -> (r: Result<(), BitIoError>)
        requires
            old(self).write_wf(),
        ensures
            final(self).write_wf(),
            old(self).writable().len() >= 20 ==> {
                &&& r is Ok
                &&& Self::write_step(old(self), final(self), B::encoded(value@, 20))
            },
            old(self).writable().len() < 20 ==> {
                &&& r == Err::<(), BitIoError>(BitIoError::UnexpectedEnd)
                &&& Self::write_step(old(self), final(self), Seq::empty())
            },
    {
        let mut buf = [U1::zero(); 20];
        B::write_u20(&mut buf, value);
        self.write_all(&buf)
    }

    /// Write a 21-bit value laid out in byte order `B`.
    fn write_u21<B: ByteOrder>(&mut self, value: U21) -> (r: Result<(), BitIoError>)
        requires
            old(self).write_wf(),
        ensures
            final(self).write_wf(),
            old(self).writable().len() >= 21 ==> {
                &&& r is Ok
                &&& Self::write_step(old(self), final(self), B::encoded(value@, 21))
            },
            old(self).writable().len() < 21 ==> {
                &&& r == Err::<(), BitIoError>(BitIoError::UnexpectedEnd)
                &&& Self::write_step(old(self), final(self), Seq::empty())
            },
    {
        let mut buf = [U1::zero(); 21];
        B::write_u21(&mut buf, value);
        self.write_all(&buf)
    }

    /// Write a 22-bit value laid out in byte order `B`.
    fn write_u22<B: ByteOrder>(&mut self, value: U22) -> (r: Result<(), BitIoError>)
        requires
            old(self).write_wf(),
        ensures
            final(self).write_wf(),
            old(self).writable().len() >= 22 ==> {
                &&& r is Ok
                &&& Self::write_step(old(self), final(self), B::encoded(value@, 22))
            },
            old(self).writable().len() < 22 ==> {
                &&& r == Err::<(), BitIoError>(BitIoError::UnexpectedEnd)
                &&& Self::write_step(old(self), final(self), Seq::empty())
            },
    {
        let mut buf = [U1::zero(); 22];
        B::write_u22(&mut buf, value);
        self.write_all(&buf)
    }

    /// Write a 23-bit value laid out in byte order `B`.
    fn write_u23<B: ByteOrder>(&mut self, value: U23) -> (r: Result<(), BitIoError>)
        requires
            old(self).write_wf(),
        ensures
            final(self).write_wf(),
            old(self).writable().len() >= 23 ==> {
                &&& r is Ok
                &&& Self::write_step(old(self), final(self), B::encoded(value@, 23))
            },
            old(self).writable().len() < 23 ==> {
                &&& r == Err::<(), BitIoError>(BitIoError::UnexpectedEnd)
                &&& Self::write_step(old(self), final(self), Seq::empty())
            },
    {
        let mut buf = [U1::zero(); 23];
        B::write_u23(&mut buf, value);
        self.write_all(&buf)
    }

    /// Write a 24-bit value laid out in byte order `B`.
    fn write_u24<B: ByteOrder>(&mut self, value: U24) -> (r: Result<(), BitIoError>)
        requires
            old(self).write_wf(),
        ensures
            final(self).write_wf(),
            old(self).writable().len() >= 24 ==> {
                &&& r is Ok
                &&& Self::write_step(old(self), final(self), B::encoded(value@, 24))
            },
            old(self).writable().len() < 24 ==> {
                &&& r == Err::<(), BitIoError>(BitIoError::UnexpectedEnd)
                &&& Self::write_step(old(self), final(self), Seq::empty())
            },
    {
        let mut buf = [U1::zero(); 24];
        B::write_u24(&mut buf, value);
        self.write_all(&buf)
    }

    /// Write a 25-bit value laid out in byte order `B`.
    fn write_u25<B: ByteOrder>(&mut self, value: U25) -> (r: Result<(), BitIoError>)
        requires
            old(self).write_wf(),
        ensures
            final(self).write_wf(),
            old(self).writable().len() >= 25 ==> {
                &&& r is Ok
                &&& Self::write_step(old(self), final(self), B::encoded(value@, 25))
            },
            old(self).writable().len() < 25 ==> {
                &&& r == Err::<(), BitIoError>(BitIoError::UnexpectedEnd)
                &&& Self::write_step(old(self), final(self), Seq::empty())
            },
    {
        let mut buf = [U1::zero(); 25];
        B::write_u25(&mut buf, value);
        self.write_all(&buf)
    }

    /// Write a 26-bit value laid out in byte order `B`.
    fn write_u26<B: ByteOrder>(&mut self, value: U26) -> (r: Result<(), BitIoError>)
        requires
            old(self).write_wf(),
        ensures
            final(self).write_wf(),
            old(self).writable().len() >= 26 ==> {
                &&& r is Ok
                &&& Self::write_step(old(self), final(self), B::encoded(value@, 26))
            },
            old(self).writable().len() < 26 ==> {
                &&& r == Err::<(), BitIoError>(BitIoError::UnexpectedEnd)
                &&& Self::write_step(old(self), final(self), Seq::empty())
            },
    {
        let mut buf = [U1::zero(); 26];
        B::write_u26(&mut buf, value);
        self.write_all(&buf)
    }

    /// Write a 27-bit value laid out in byte order `B`.
    fn write_u27<B: ByteOrder>(&mut self, value: U27) -> (r: Result<(), BitIoError>)
        requires
            old(self).write_wf(),
        ensures
            final(self).write_wf(),
            old(self).writable().len() >= 27 ==> {
                &&& r is Ok
                &&& Self::write_step(old(self), final(self), B::encoded(value@, 27))
            },
            old(self).writable().len() < 27 ==> {
                &&& r == Err::<(), BitIoError>(BitIoError::UnexpectedEnd)
                &&& Self::write_step(old(self), final(self), Seq::empty())
            },
    {
        let mut buf = [U1::zero(); 27];
        B::write_u27(&mut buf, value);
        self.write_all(&buf)
    }

    /// Write a 28-bit value laid out in byte order `B`.
    fn write_u28<B: ByteOrder>(&mut self, value: U28) -> (r: Result<(), BitIoError>)
        requires
            old(self).write_wf(),
        ensures
            final(self).write_wf(),
            old(self).writable().len() >= 28 ==> {
                &&& r is Ok
                &&& Self::write_step(old(self), final(self), B::encoded(value@, 28))
            },
            old(self).writable().len() < 28 ==> {
                &&& r == Err::<(), BitIoError>(BitIoError::UnexpectedEnd)
                &&& Self::write_step(old(self), final(self), Seq::empty())
            },
    {
        let mut buf = [U1::zero(); 28];
        B::write_u28(&mut buf, value);
        self.write_all(&buf)
    }

    /// Write a 29-bit value laid out in byte order `B`.
    fn write_u29<B: ByteOrder>(&mut self, value: U29) -> (r: Result<(), BitIoError>)
        requires
            old(self).write_wf(),
        ensures
            final(self).write_wf(),
            old(self).writable().len() >= 29 ==> {
                &&& r is Ok
                &&& Self::write_step(old(self), final(self), B::encoded(value@, 29))
            },
            old(self).writable().len() < 29 ==> {
                &&& r == Err::<(), BitIoError>(BitIoError::UnexpectedEnd)
                &&& Self::write_step(old(self), final(self), Seq::empty())
            },
    {
        let mut buf = [U1::zero(); 29];
        B::write_u29(&mut buf, value);
        self.write_all(&buf)
    }

    /// Write a 30-bit value laid out in byte order `B`.
    fn write_u30<B: ByteOrder>(&mut self, value: U30) -> (r: Result<(), BitIoError>)
        requires
            old(self).write_wf(),
        ensures
            final(self).write_wf(),
            old(self).writable().len() >= 30 ==> {
                &&& r is Ok
                &&& Self::write_step(old(self), final(self), B::encoded(value@, 30))
            },
            old(self).writable().len() < 30 ==> {
                &&& r == Err::<(), BitIoError>(BitIoError::UnexpectedEnd)
                &&& Self::write_step(old(self), final(self), Seq::empty())
            },
    {
        let mut buf = [U1::zero(); 30];
        B::write_u30(&mut buf, value);
        self.write_all(&buf)
    }

    /// Write a 31-bit value laid out in byte order `B`.
    fn write_u31<B: ByteOrder>(&mut self, value: U31) -> (r: Result<(), BitIoError>)
        requires
            old(self).write_wf(),
        ensures
            final(self).write_wf(),
            old(self).writable().len() >= 31 ==> {
                &&& r is Ok
                &&& Self::write_step(old(self), final(self), B::encoded(value@, 31))
            },
            old(self).writable().len() < 31 ==> {
                &&& r == Err::<(), BitIoError>(BitIoError::UnexpectedEnd)
                &&& Self::write_step(old(self), final(self), Seq::empty())
            },
    {
        let mut buf = [U1::zero(); 31];
        B::write_u31(&mut buf, value);
        self.write_all(&buf)
    }

    /// Write a 32-bit value laid out in byte order `B`.
    fn write_u32<B: ByteOrder>(&mut self, value: U32) -> (r: Result<(), BitIoError>)
        requires
            old(self).write_wf(),
        ensures
            final(self).write_wf(),
            old(self).writable().len() >= 32 ==> {
                &&& r is Ok
                &&& Self::write_step(old(self), final(self), B::encoded(value@, 32))
            },
            old(self).writable().len() < 32 ==> {
                &&& r == Err::<(), BitIoError>(BitIoError::UnexpectedEnd)
                &&& Self::write_step(old(self), final(self), Seq::empty())
            },
    {
        let mut buf = [U1::zero(); 32];
        B::write_u32(&mut buf, value);
        self.write_all(&buf)
    }
}

impl<T: BitWrite> BitWriteExts for T {
}

} // verus!
