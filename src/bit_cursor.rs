//! A read, write and seek position over a bit container.
use vstd::prelude::*;
use vstd::arithmetic::power2::pow2;

use crate::bit_buffer::{buffer_bits, BitBuffer, BitBufferMut};
use crate::bit_read::BitRead;
use crate::bit_traits::{min_len, u1_bits, U1};
use crate::byte_order::ByteOrder;
use crate::bit_vec::BitVec;
use crate::bit_write::BitWrite;
use crate::error::{B3Result, BitIoError};
use crate::slice::{
    byte_end, lemma_splice_window, slice_mut_result, slice_result, splice, BitSlice,
    BitSliceMut,
};
use crate::util::{bytes_bits, get_start_end_bit_index_from_range, BitRange};

verus! {

/// Where a seek is measured from.
#[derive(Clone, Copy, Debug, PartialEq, Eq, Structural)]
pub enum SeekFrom {
    /// An absolute position.
    Start(u64),
    /// An offset from the end of the container.
    End(i64),
    /// An offset from the current position.
    Current(i64),
}

/// The position a seek moves to from `pos` in a container of `len` bits, if it is a
/// representable, non-negative position.
pub open spec fn seek_target(style: SeekFrom, pos: int, len: int) -> Option<int> {
    let target = match style {
        SeekFrom::Start(n) => n as int,
        SeekFrom::End(n) => len + n,
        SeekFrom::Current(n) => pos + n,
    };
    if 0 <= target <= u64::MAX && target <= usize::MAX {
        Some(target)
    } else {
        None
    }
}

/// A position over a bit container, from which reads and writes proceed.
#[derive(Debug)]
pub struct BitCursor<T> {
    inner: T,
    pos: usize,
}

impl<T> BitCursor<T> {
    /// The container.
    pub closed spec fn inner(self) -> T {
        self.inner
    }

    /// The position, in bits; it may lie past the end of the container.
    pub closed spec fn pos(self) -> nat {
        self.pos as nat
    }

    /// Once a cursor is no longer used, neither is its container.
    pub proof fn lemma_resolved(self)
        requires
            has_resolved(self),
        ensures
            has_resolved(self.inner()),
    {
    }

    /// A cursor at the start of `inner`.
    pub fn new(inner: T) -> (r: BitCursor<T>)
        ensures
            r.inner() == inner,
            r.pos() == 0,
    {
        BitCursor { inner, pos: 0 }
    }

    /// The container, given back.
    pub fn into_inner(self) -> (r: T)
        ensures
            r == self.inner(),
    {
        self.inner
    }

    /// The position, in bits.
    pub fn position(&self) -> (r: usize)
        ensures
            r == self.pos(),
    {
        self.pos
    }
}

impl<T: BitBuffer> BitCursor<T> {
    /// Where the rest of the container starts: the position, or the end if that comes first.
    pub open spec fn rest_start(self) -> int {
        min_len(self.pos() as int, self.inner().bit_len() as int)
    }

    /// The bits from the position to the end of the container.
    pub open spec fn rest(self) -> Seq<bool> {
        buffer_bits(&self.inner()).skip(self.rest_start())
    }

    /// A view of the bits from the position to the end of the container.
    pub fn remaining_slice(&self) -> (r: BitSlice<'_>)
        requires
            self.inner().buffer_wf(),
        ensures
            slice_result(
                self.inner().backing(),
                self.inner().offset() as int,
                self.rest_start(),
                self.inner().bit_len() as int,
                Ok(r),
            ),
            r@ == self.rest(),
    {
        let len = self.inner.len();
        let start = if self.pos < len {
            self.pos
        } else {
            len
        };
        let r = self.inner.get_slice(BitRange::starting_at(start));
        assert(r is Ok);
        let out = r.unwrap();
        assert(out@ =~= self.rest());
        out
    }

    /// A cursor at the start of a view of bits `range`, counted from the position; an open end
    /// of `range` stands for the length of the whole container. This cursor does not move.
    pub fn sub_cursor(&self, range: BitRange) -> (r: B3Result<BitCursor<BitSlice<'_>>>)
        requires
            self.inner().buffer_wf(),
            range.representable((self.inner().offset() + self.pos()) as int, self.inner().bit_len()),
        ensures
            match r {
                Ok(c) => c.pos() == 0 && slice_result(
                    self.inner().backing(),
                    self.inner().offset() as int,
                    self.pos() + range.start_index(),
                    self.pos() + range.end_index(self.inner().bit_len()),
                    Ok(c.inner()),
                ),
                Err(err) => slice_result(
                    self.inner().backing(),
                    self.inner().offset() as int,
                    self.pos() + range.start_index(),
                    self.pos() + range.end_index(self.inner().bit_len()),
                    Err(err),
                ),
            },
    {
        let len = self.inner.len();
        let (start_bit_index, end_bit_index) = get_start_end_bit_index_from_range(&range, len);
        let start_bit_index = start_bit_index + self.pos;
        let end_bit_index = end_bit_index + self.pos;
        let absolute = BitRange::new(start_bit_index, end_bit_index);
        match self.inner.get_slice(absolute) {
            Ok(slice) => Ok(BitCursor { inner: slice, pos: 0 }),
            Err(err) => Err(err),
        }
    }

    /// Whether the container is well formed, as reads, writes and seeks ask.
    pub fn is_inner_wf(&self) -> (r: bool)
        ensures
            r == self.inner().buffer_wf(),
    {
        self.inner.is_buffer_wf()
    }

    /// The number of bits from the position to the end of the container.
    pub fn bits_remaining(&self) -> (r: usize)
        requires
            self.inner().buffer_wf(),
        ensures
            r == self.rest().len(),
            r == self.inner().bit_len() - self.rest_start(),
            self.inner().offset() + self.inner().bit_len() <= 8 * self.inner().backing().len(),
            self.inner().offset() + self.inner().bit_len() <= usize::MAX,
    {
        let len = self.inner.len();
        if self.pos < len {
            len - self.pos
        } else {
            0
        }
    }

    /// The number of whole bytes from the position to the end of the container.
    pub fn bytes_remaining(&self) -> (r: usize)
        requires
            self.inner().buffer_wf(),
        ensures
            r == self.rest().len() / 8,
    {
        self.bits_remaining() / 8
    }

    /// Move the position as `style` says, and return the new position. Fails with
    /// [`BitIoError::InvalidSeek`], not moving, when the target is negative or does not fit.
    pub fn seek(&mut self, style: SeekFrom) -> (r: Result<u64, BitIoError>)
        requires
            old(self).inner().buffer_wf(),
        ensures
            final(self).inner() == old(self).inner(),
            match seek_target(style, old(self).pos() as int, old(self).inner().bit_len() as int) {
                Some(p) => r == Ok::<u64, BitIoError>(p as u64) && final(self).pos() == p,
                None => r == Err::<u64, BitIoError>(BitIoError::InvalidSeek) && final(self).pos()
                    == old(self).pos(),
            },
    {
        let target: i128 = match style {
            SeekFrom::Start(n) => n as i128,
            SeekFrom::End(n) => self.inner.len() as i128 + n as i128,
            SeekFrom::Current(n) => self.pos as i128 + n as i128,
        };
        if target < 0 || target > u64::MAX as i128 || target > usize::MAX as i128 {
            return Err(BitIoError::InvalidSeek);
        }
        self.pos = target as usize;
        Ok(target as u64)
    }
}

impl<T: BitBufferMut> BitCursor<T> {
    /// A view with exclusive access of the bits from the position to the end of the container.
    /// What it leaves behind replaces those bits in the container.
    pub fn remaining_slice_mut(&mut self) -> (r: BitSliceMut<'_>)
        requires
            old(self).inner().buffer_wf(),
        ensures
            slice_mut_result(
                old(self).inner().backing(),
                old(self).inner().offset() as int,
                old(self).rest_start(),
                old(self).inner().bit_len() as int,
                Ok(r),
            ),
            r@ == old(self).rest(),
            final(self).pos() == old(self).pos(),
            final(self).inner().offset() == old(self).inner().offset(),
            final(self).inner().bit_len() == old(self).inner().bit_len(),
            final(self).inner().backing() == old(self).inner().backing().subrange(
                0,
                (old(self).inner().offset() + old(self).rest_start()) / 8,
            ) + final(r.bytes_ref())@ + old(self).inner().backing().subrange(
                byte_end((old(self).inner().offset() + old(self).inner().bit_len()) as int),
                old(self).inner().backing().len() as int,
            ),
            final(r.bytes_ref())@.len() == r.bytes().len() ==> final(self).inner().buffer_wf(),
            old(self).inner().target() is None ==> final(self).inner().target() is None,
            old(self).inner().target() is Some ==> {
                &&& final(self).inner().target() is Some
                &&& final(final(self).inner().target()->Some_0)@
                    == final(old(self).inner().target()->Some_0)@
            },
    {
        let len = self.inner.len();
        let start = if self.pos < len {
            self.pos
        } else {
            len
        };
        let ghost before = self.rest();
        let r = self.inner.get_slice_mut(BitRange::starting_at(start));
        assert(r is Ok);
        let out = r.unwrap();
        assert(out@ =~= before);
        out
    }

    /// A cursor with exclusive access at the start of a view of bits `range`, counted from the
    /// position; an open end of `range` stands for the length of the whole container. This
    /// cursor does not move.
    pub fn sub_cursor_mut(&mut self, range: BitRange) -> (r: B3Result<BitCursor<BitSliceMut<'_>>>)
        requires
            old(self).inner().buffer_wf(),
            range.representable((old(self).inner().offset() + old(self).pos()) as int, old(self).inner().bit_len()),
        ensures
            final(self).pos() == old(self).pos(),
            final(self).inner().offset() == old(self).inner().offset(),
            final(self).inner().bit_len() == old(self).inner().bit_len(),
            old(self).inner().target() is None ==> final(self).inner().target() is None,
            old(self).inner().target() is Some ==> {
                &&& final(self).inner().target() is Some
                &&& final(final(self).inner().target()->Some_0)@
                    == final(old(self).inner().target()->Some_0)@
            },
            match r {
                Ok(c) => {
                    &&& c.pos() == 0
                    &&& slice_mut_result(
                        old(self).inner().backing(),
                        old(self).inner().offset() as int,
                        old(self).pos() + range.start_index(),
                        old(self).pos() + range.end_index(old(self).inner().bit_len()),
                        Ok(c.inner()),
                    )
                    &&& final(self).inner().backing() == old(self).inner().backing().subrange(
                        0,
                        (old(self).inner().offset() + old(self).pos() + range.start_index()) / 8,
                    ) + final(c.inner().bytes_ref())@ + old(self).inner().backing().subrange(
                        byte_end(
                            old(self).inner().offset() + old(self).pos() + range.end_index(
                                old(self).inner().bit_len(),
                            ),
                        ),
                        old(self).inner().backing().len() as int,
                    )
                },
                Err(err) => {
                    &&& slice_mut_result(
                        old(self).inner().backing(),
                        old(self).inner().offset() as int,
                        old(self).pos() + range.start_index(),
                        old(self).pos() + range.end_index(old(self).inner().bit_len()),
                        Err(err),
                    )
                    &&& final(self).inner().backing() == old(self).inner().backing()
                },
            },
    {
        let len = self.inner.len();
        let (start_bit_index, end_bit_index) = get_start_end_bit_index_from_range(&range, len);
        let start_bit_index = start_bit_index + self.pos;
        let end_bit_index = end_bit_index + self.pos;
        let absolute = BitRange::new(start_bit_index, end_bit_index);
        match self.inner.get_slice_mut(absolute) {
            Ok(slice) => Ok(BitCursor { inner: slice, pos: 0 }),
            Err(err) => Err(err),
        }
    }
}

/// Splicing at `off + p` into the bits of a container's backing bytes splices at `p` into the
/// container's own bits.
pub proof fn lemma_splice_inside(whole: Seq<bool>, off: int, len: int, p: int, t: Seq<bool>)
    requires
        0 <= off,
        0 <= p,
        p + t.len() <= len,
        off + len <= whole.len(),
    ensures
        splice(whole, off + p, t).subrange(off, off + len) == splice(whole.subrange(off, off + len), p, t),
{
    assert(splice(whole, off + p, t).subrange(off, off + len) =~= splice(whole.subrange(off, off + len), p, t));
}

impl<T: BitBuffer> BitRead for BitCursor<T> {
    open spec fn readable(&self) -> Seq<bool> {
        self.rest()
    }

    open spec fn read_wf(&self) -> bool {
        self.inner().buffer_wf()
    }

    /// Reading advances the position by the number of bits read.
    open spec fn read_step(before: &Self, after: &Self, n: nat) -> bool {
        &&& after.inner() == before.inner()
        &&& after.pos() == before.pos() + n
    }

    fn read(&mut self, buf: &mut [U1]) -> (r: Result<usize, BitIoError>) {
        let remaining = self.bits_remaining();
        let n = if remaining < buf.len() {
            remaining
        } else {
            buf.len()
        };
        let mut rest = self.remaining_slice();
        let _ = rest.read(buf);
        self.pos = self.pos + n;
        Ok(n)
    }

    fn read_exact(&mut self, buf: &mut [U1]) -> (r: Result<(), BitIoError>) {
        let n = buf.len();
        let remaining = self.bits_remaining();
        let mut rest = self.remaining_slice();
        match rest.read_exact(buf) {
            Ok(()) => {
                self.pos = self.pos + n;
                Ok(())
            },
            Err(err) => Err(err),
        }
    }
}

impl<T: BitBufferMut> BitWrite for BitCursor<T> {
    open spec fn writable(&self) -> Seq<bool> {
        self.rest()
    }

    open spec fn write_wf(&self) -> bool {
        self.inner().buffer_wf()
    }

    /// Writing overwrites the bits at the position and advances it past them.
    open spec fn write_step(before: &Self, after: &Self, bits: Seq<bool>) -> bool {
        &&& after.pos() == before.pos() + bits.len()
        &&& after.inner().offset() == before.inner().offset()
        &&& after.inner().bit_len() == before.inner().bit_len()
        &&& after.inner().backing().len() == before.inner().backing().len()
        &&& bytes_bits(after.inner().backing()) == splice(
            bytes_bits(before.inner().backing()),
            before.inner().offset() + before.rest_start(),
            bits,
        )
        &&& buffer_bits(&after.inner()) == splice(buffer_bits(&before.inner()), before.rest_start(), bits)
    }

    fn write(&mut self, buf: &[U1]) -> (r: Result<usize, BitIoError>)
        ensures
            old(self).inner().target() is None ==> final(self).inner().target() is None,
            old(self).inner().target() is Some ==> {
                &&& final(self).inner().target() is Some
                &&& final(final(self).inner().target()->Some_0)@
                    == final(old(self).inner().target()->Some_0)@
            },
    {
        let remaining = self.bits_remaining();
        let n = if remaining < buf.len() {
            remaining
        } else {
            buf.len()
        };
        let ghost before = *self;
        {
            let mut rest = self.remaining_slice_mut();
            let ghost fresh = rest;
            let _ = rest.write(buf);
            proof {
                rest.lemma_resolved();
                lemma_splice_window(
                    before.inner().backing().subrange(0, (before.inner().offset() + before.rest_start()) / 8),
                    fresh.bytes(),
                    rest.bytes(),
                    before.inner().backing().subrange(
                        byte_end((before.inner().offset() + before.inner().bit_len()) as int),
                        before.inner().backing().len() as int,
                    ),
                    fresh.start_bit() as int,
                    u1_bits(buf@).take(n as int),
                );
            }
        }
        self.pos = self.pos + n;
        proof {
            assert(before.inner().backing() =~= before.inner().backing().subrange(
                0,
                (before.inner().offset() + before.rest_start()) / 8,
            ) + before.inner().backing().subrange(
                (before.inner().offset() + before.rest_start()) / 8,
                byte_end((before.inner().offset() + before.inner().bit_len()) as int),
            ) + before.inner().backing().subrange(
                byte_end((before.inner().offset() + before.inner().bit_len()) as int),
                before.inner().backing().len() as int,
            ));
            lemma_splice_inside(
                bytes_bits(before.inner().backing()),
                before.inner().offset() as int,
                before.inner().bit_len() as int,
                before.rest_start(),
                u1_bits(buf@).take(n as int),
            );
        }
        Ok(n)
    }

    fn write_all(&mut self, buf: &[U1]) -> (r: Result<(), BitIoError>)
        ensures
            old(self).inner().target() is None ==> final(self).inner().target() is None,
            old(self).inner().target() is Some ==> {
                &&& final(self).inner().target() is Some
                &&& final(final(self).inner().target()->Some_0)@
                    == final(old(self).inner().target()->Some_0)@
            },
    {
        let remaining = self.bits_remaining();
        if buf.len() > remaining {
            proof {
                assert(splice(bytes_bits(self.inner().backing()), self.inner().offset() + self.rest_start(), Seq::empty())
                    =~= bytes_bits(self.inner().backing()));
                assert(splice(buffer_bits(&self.inner()), self.rest_start(), Seq::empty()) =~= buffer_bits(&self.inner()));
            }
            return Err(BitIoError::UnexpectedEnd);
        }
        let _ = self.write(buf);
        proof {
            assert(u1_bits(buf@).take(buf@.len() as int) =~= u1_bits(buf@));
        }
        Ok(())
    }
}

/// Reads and writes never run short while the bits they take add up to no more than the
/// container holds: from position `p` of a container of `n` bits, `n - p` bits remain, and an
/// exact read or write of more fails.
pub proof fn lemma_cursor_budget<T: BitBuffer>(c: BitCursor<T>, k: nat)
    requires
        c.inner().offset() + c.inner().bit_len() <= 8 * c.inner().backing().len(),
    ensures
        (k <= c.rest().len()) == (k == 0 || c.pos() + k <= c.inner().bit_len()),
        c.pos() <= c.inner().bit_len() ==> c.rest().len() == c.inner().bit_len() - c.pos(),
{
}

/// Writing bits at a position and reading from that position again gives the bits back.
pub proof fn lemma_write_then_read<T: BitBufferMut>(
    before: BitCursor<T>,
    after: BitCursor<T>,
    again: BitCursor<T>,
    bits: Seq<bool>,
)
    requires
        before.inner().offset() + before.inner().bit_len() <= 8 * before.inner().backing().len(),
        bits.len() <= before.rest().len(),
        BitCursor::<T>::write_step(&before, &after, bits),
        again.inner() == after.inner(),
        again.pos() == before.pos(),
    ensures
        again.rest().take(bits.len() as int) == bits,
{
    assert(again.rest().take(bits.len() as int) =~= bits);
}

/// Writing a value in byte order `B` and reading it back from the same position gives the
/// value.
pub proof fn lemma_write_read_round_trip<T: BitBufferMut, B: ByteOrder>(
    before: BitCursor<T>,
    after: BitCursor<T>,
    again: BitCursor<T>,
    value: nat,
    n: nat,
)
    requires
        before.inner().offset() + before.inner().bit_len() <= 8 * before.inner().backing().len(),
        value < pow2(n),
        n <= before.rest().len(),
        BitCursor::<T>::write_step(&before, &after, B::encoded(value, n)),
        again.inner() == after.inner(),
        again.pos() == before.pos(),
    ensures
        B::decoded(again.readable().take(n as int)) == value,
{
    B::lemma_round_trip(value, n);
    lemma_write_then_read(before, after, again, B::encoded(value, n));
}

/// A sub-cursor reads exactly the bits that its parent would read from the same offsets,
/// however far reads and seeks have moved it: a state `later` of the sub-cursor over the same
/// view at position `q` has the parent's bits `[s + q, e)` left. The parent is only borrowed
/// for reading by `sub_cursor`, so its own position stays where it was.
pub proof fn lemma_sub_cursor_bits<T: BitBuffer>(
    parent: BitCursor<T>,
    s: int,
    e: int,
    sub: BitCursor<BitSlice>,
    later: BitCursor<BitSlice>,
)
    requires
        parent.inner().offset() + parent.inner().bit_len() <= 8 * parent.inner().backing().len(),
        0 <= s <= e,
        parent.pos() + e <= parent.inner().bit_len(),
        sub.pos() == 0,
        slice_result(
            parent.inner().backing(),
            parent.inner().offset() as int,
            parent.pos() + s,
            parent.pos() + e,
            Ok(sub.inner()),
        ),
        later.inner() == sub.inner(),
        later.pos() <= e - s,
    ensures
        sub.rest() == parent.rest().subrange(s, e),
        later.rest() == parent.rest().subrange(s + later.pos(), e),
{
    assert(sub.rest() =~= parent.rest().subrange(s, e));
    assert(later.rest() =~= parent.rest().subrange(s + later.pos(), e));
}

/// Bits written through a sub-cursor with exclusive access land in the parent's container at
/// the sub-cursor's place, once the sub-cursor is no longer used; the rest of the container
/// keeps its bits.
pub proof fn lemma_sub_cursor_write_reaches_parent<'a, T: BitBufferMut>(
    before: BitCursor<T>,
    after: BitCursor<T>,
    s: int,
    e: int,
    sub: BitCursor<BitSliceMut<'a>>,
    written: BitCursor<BitSliceMut<'a>>,
    bits: Seq<bool>,
)
    requires
        before.inner().offset() + before.inner().bit_len() <= 8 * before.inner().backing().len(),
        0 <= s <= e,
        before.pos() + e <= before.inner().bit_len(),
        bits.len() <= e - s,
        sub.pos() == 0,
        slice_mut_result(
            before.inner().backing(),
            before.inner().offset() as int,
            before.pos() + s,
            before.pos() + e,
            Ok(sub.inner()),
        ),
        after.pos() == before.pos(),
        after.inner().offset() == before.inner().offset(),
        after.inner().bit_len() == before.inner().bit_len(),
        after.inner().backing() == before.inner().backing().subrange(
            0,
            (before.inner().offset() + before.pos() + s) / 8,
        ) + final(sub.inner().bytes_ref())@ + before.inner().backing().subrange(
            byte_end(before.inner().offset() + before.pos() + e),
            before.inner().backing().len() as int,
        ),
        BitCursor::<BitSliceMut<'a>>::write_step(&sub, &written, bits),
        final(written.inner().bytes_ref())@ == final(sub.inner().bytes_ref())@,
        has_resolved(written),
    ensures
        after.pos() == before.pos(),
        after.inner().bit_len() == before.inner().bit_len(),
        buffer_bits(&after.inner()) == splice(buffer_bits(&before.inner()), before.pos() + s, bits),
{
    written.lemma_resolved();
    written.inner().lemma_resolved();
    let b = before.inner().backing();
    let off = before.inner().offset() as int;
    let sb = (off + before.pos() + s) / 8;
    let eb = byte_end(off + before.pos() + e);
    let p = b.subrange(0, sb);
    let q = b.subrange(eb, b.len() as int);
    assert(p + sub.inner().bytes() + q =~= b);
    lemma_splice_window(p, sub.inner().bytes(), written.inner().bytes(), q, sub.inner().start_bit() as int, bits);
    lemma_splice_inside(bytes_bits(b), off, before.inner().bit_len() as int, before.pos() + s, bits);
}

impl BitCursor<BitVec> {
    /// A cursor at the start of a vector of all bits of `vec`.
    pub fn from_vec(vec: Vec<u8>) -> (r: BitCursor<BitVec>)
        requires
            8 * vec@.len() <= usize::MAX,
        ensures
            r.pos() == 0,
            r.inner().wf(),
            r.inner()@ == bytes_bits(vec@),
    {
        BitCursor { inner: BitVec::from_vec(vec), pos: 0 }
    }
}

} // verus!
