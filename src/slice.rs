//! Borrowed, rebased views over a window of bytes.
use vstd::prelude::*;
use vstd::arithmetic::power2::lemma2_to64;

use crate::bit_buffer::{BitBuffer, BitBufferMut};
use crate::bit_read::BitRead;
use crate::bit_traits::{bit_value, u1_bits, U1};
use crate::bit_vec::BitVec;
use crate::bit_write::BitWrite;
use crate::error::{B3Error, B3Result, BitIoError};
use crate::util::{byte_bit, bytes_bits, get_bit, get_start_end_bit_index_from_range, set_bit, BitRange};

verus! {

/// The number of bytes that the first `x` bits of a buffer touch.
pub open spec fn byte_end(x: int) -> int {
    if x <= 0 {
        0
    } else {
        (x - 1) / 8 + 1
    }
}

/// Whether bits up to `off + e` lie within `n_bytes` bytes.
pub open spec fn window_fits(n_bytes: int, off: int, e: int) -> bool {
    off + e <= 8 * n_bytes
}

/// Whether the range `[s, e)` at bit offset `off` of `n_bytes` bytes can be sliced: it is in
/// order and ends within the bytes.
pub open spec fn slice_ok(n_bytes: int, off: int, s: int, e: int) -> bool {
    s <= e && window_fits(n_bytes, off, e)
}

/// The error for a range `[s, e)` at bit offset `off` of `n_bytes` bytes.
pub open spec fn range_error(n_bytes: int, off: int, s: int, e: int) -> B3Error {
    B3Error::SliceOutOfRange {
        len: n_bytes as usize,
        slice_start: ((off + s) / 8) as usize,
        slice_end: (if off + e == 0 {
            0
        } else {
            (off + e - 1) / 8
        }) as usize,
    }
}

/// The bits of bytes `a..b` are bits `8a..8b` of the whole.
pub proof fn lemma_bytes_bits_subrange(bytes: Seq<u8>, a: int, b: int)
    requires
        0 <= a <= b <= bytes.len(),
    ensures
        bytes_bits(bytes.subrange(a, b)) == bytes_bits(bytes).subrange(8 * a, 8 * b),
{
    let l = bytes_bits(bytes.subrange(a, b));
    let r = bytes_bits(bytes).subrange(8 * a, 8 * b);
    assert forall|k: int| 0 <= k < l.len() implies l[k] == r[k] by {
        assert((8 * a + k) / 8 == a + k / 8);
        assert((8 * a + k) % 8 == k % 8);
    }
    assert(l =~= r);
}

/// Where in `n_bytes` bytes the bits `[off + s, off + e)` lie: the first byte, the byte past
/// the last one, and the start bit rebased on the first byte.
pub(crate) fn slice_window(n_bytes: usize, off: usize, s: usize, e: usize) -> (r: B3Result<(usize, usize, usize)>)
    requires
        off + s <= usize::MAX,
        off + e <= usize::MAX,
    ensures
        match r {
            Ok((sb, eb, st)) => {
                &&& s <= e
                &&& window_fits(n_bytes as int, off as int, e as int)
                &&& sb == (off + s) / 8
                &&& eb == byte_end(off + e)
                &&& st == (off + s) % 8
                &&& sb <= eb <= n_bytes
            },
            Err(err) => {
                &&& !slice_ok(n_bytes as int, off as int, s as int, e as int)
                &&& err == range_error(n_bytes as int, off as int, s as int, e as int)
            },
        },
{
    let start_bit = off + s;
    let end_bit = off + e;
    let start_byte = start_bit / 8;
    if end_bit == 0 {
        if start_bit > 0 {
            return Err(B3Error::SliceOutOfRange { len: n_bytes, slice_start: start_byte, slice_end: 0 });
        }
        return Ok((0, 0, 0));
    }
    let end_byte = (end_bit - 1) / 8;
    if s > e || end_byte >= n_bytes {
        return Err(B3Error::SliceOutOfRange { len: n_bytes, slice_start: start_byte, slice_end: end_byte });
    }
    Ok((start_byte, end_byte + 1, start_bit - start_byte * 8))
}

/// A read-only view of bits `[start_bit_index, end_bit_index)` of a byte window.
#[derive(Debug)]
pub struct BitSlice<'a> {
    buf: &'a [u8],
    start_bit_index: usize,
    end_bit_index: usize,
}

/// What slicing bits `[s, e)` at bit offset `off` of `bytes` gives.
pub open spec fn slice_result(bytes: Seq<u8>, off: int, s: int, e: int, r: B3Result<BitSlice>) -> bool {
    match r {
        Ok(out) => {
            &&& slice_ok(bytes.len() as int, off, s, e)
            &&& out.bytes() == bytes.subrange((off + s) / 8, byte_end(off + e))
            &&& out.start_bit() == (off + s) % 8
            &&& out.end_bit() == out.start_bit() + (e - s)
            &&& out@ == bytes_bits(bytes).subrange(off + s, off + e)
        },
        Err(err) => {
            &&& !slice_ok(bytes.len() as int, off, s, e)
            &&& err == range_error(bytes.len() as int, off, s, e)
        },
    }
}

/// The window `bytes[sb..eb]` with the bits `[st, st + (e - s))` holds bits `[off + s, off + e)`
/// of `bytes`.
pub(crate) proof fn lemma_window_bits(bytes: Seq<u8>, off: int, s: int, e: int, sb: int, eb: int, st: int)
    requires
        0 <= off,
        0 <= s <= e,
        window_fits(bytes.len() as int, off, e),
        sb == (off + s) / 8,
        eb == byte_end(off + e),
        st == (off + s) % 8,
        sb <= eb <= bytes.len(),
    ensures
        st + (e - s) <= 8 * (eb - sb),
        bytes_bits(bytes.subrange(sb, eb)).subrange(st, st + (e - s)) == bytes_bits(bytes).subrange(
            off + s,
            off + e,
        ),
{
    lemma_bytes_bits_subrange(bytes, sb, eb);
    assert(bytes_bits(bytes.subrange(sb, eb)).subrange(st, st + (e - s)) =~= bytes_bits(bytes).subrange(
        off + s,
        off + e,
    ));
}

impl<'a> View for BitSlice<'a> {
    type V = Seq<bool>;

    open spec fn view(&self) -> Seq<bool> {
        bytes_bits(self.bytes()).subrange(self.start_bit() as int, self.end_bit() as int)
    }
}

impl<'a> BitSlice<'a> {
    #[verifier::type_invariant]
    spec fn inv(&self) -> bool {
        self.start_bit_index <= self.end_bit_index <= 8 * self.buf@.len()
    }

    /// The byte window.
    pub closed spec fn bytes(self) -> Seq<u8> {
        self.buf@
    }

    /// The first bit of the view, inside the window.
    pub closed spec fn start_bit(self) -> nat {
        self.start_bit_index as nat
    }

    /// The bit past the last one of the view, inside the window.
    pub closed spec fn end_bit(self) -> nat {
        self.end_bit_index as nat
    }

    /// A view of bits `[start_bit_index, end_bit_index)` of `buf`.
    pub fn new(buf: &'a [u8], start_bit_index: usize, end_bit_index: usize) -> (r: BitSlice<'a>)
        requires
            start_bit_index <= end_bit_index <= 8 * buf@.len(),
        ensures
            r.bytes() == buf@,
            r.start_bit() == start_bit_index,
            r.end_bit() == end_bit_index,
    {
        BitSlice { buf, start_bit_index, end_bit_index }
    }

    /// The number of bits in the view.
    pub fn len(&self) -> (r: usize)
        ensures
            r == self@.len(),
            r == self.end_bit() - self.start_bit(),
            self.start_bit() <= self.end_bit() <= 8 * self.bytes().len(),
            self.end_bit() <= usize::MAX,
    {
        proof {
            use_type_invariant(self);
        }
        self.end_bit_index - self.start_bit_index
    }

    /// The bit at `index`.
    pub fn at(&self, index: usize) -> (r: U1)
        requires
            index < self@.len(),
        ensures
            r@ == bit_value(self@[index as int]),
    {
        proof {
            use_type_invariant(self);
        }
        let bit_pos = self.start_bit_index + index;
        let byte_pos = bit_pos / 8;
        let byte = self.buf[byte_pos];
        get_bit(byte, bit_pos % 8)
    }

    /// An iterator over the bits of the view, front to back.
    pub fn iter(&self) -> (r: BitSliceIterator<'_>)
        ensures
            r.bits() == self@,
            r.index() == 0,
    {
        BitSliceIterator { slice: self, curr_index: 0 }
    }

    /// The view of bits `range` of this one, rebased on its own byte window.
    pub fn get_slice(&self, range: BitRange) -> (r: B3Result<BitSlice<'a>>)
        requires
            range.representable(self.start_bit() as int, self@.len()),
        ensures
            slice_result(
                self.bytes(),
                self.start_bit() as int,
                range.start_index(),
                range.end_index(self@.len()),
                r,
            ),
    {
        let len = self.len();
        let (s, e) = get_start_end_bit_index_from_range(&range, len);
        match slice_window(self.buf.len(), self.start_bit_index, s, e) {
            Ok((sb, eb, st)) => {
                let window: &'a [u8] = &self.buf[sb..eb];
                proof {
                    lemma_window_bits(self.buf@, self.start_bit_index as int, s as int, e as int, sb as int, eb as int, st as int);
                }
                Ok(BitSlice { buf: window, start_bit_index: st, end_bit_index: st + (e - s) })
            },
            Err(err) => Err(err),
        }
    }
}

/// An iterator over the bits of a [`BitSlice`].
pub struct BitSliceIterator<'a> {
    slice: &'a BitSlice<'a>,
    curr_index: usize,
}

impl<'a> BitSliceIterator<'a> {
    /// The bits that the iterator walks.
    pub closed spec fn bits(self) -> Seq<bool> {
        self.slice@
    }

    /// The number of bits already handed out.
    pub closed spec fn index(self) -> nat {
        self.curr_index as nat
    }

    /// The next bit, or `None` once all have been handed out.
    pub fn next(&mut self) -> (r: Option<U1>)
        requires
            old(self).index() <= old(self).bits().len(),
        ensures
            final(self).bits() == old(self).bits(),
            old(self).index() < old(self).bits().len() ==> {
                &&& final(self).index() == old(self).index() + 1
                &&& r matches Some(b) && b@ == bit_value(old(self).bits()[old(self).index() as int])
            },
            old(self).index() == old(self).bits().len() ==> r is None && final(self).index()
                == old(self).index(),
    {
        if self.curr_index == self.slice.len() {
            return None;
        }
        let item = self.slice.at(self.curr_index);
        self.curr_index = self.curr_index + 1;
        Some(item)
    }
}

/// `s` with the bits from `at` on replaced by `t`.
pub open spec fn splice(s: Seq<bool>, at: int, t: Seq<bool>) -> Seq<bool> {
    s.subrange(0, at) + t + s.subrange(at + t.len(), s.len() as int)
}

/// The bits of concatenated bytes are the concatenated bits.
pub proof fn lemma_bytes_bits_concat(a: Seq<u8>, b: Seq<u8>)
    ensures
        bytes_bits(a + b) == bytes_bits(a) + bytes_bits(b),
{
    let l = bytes_bits(a + b);
    let r = bytes_bits(a) + bytes_bits(b);
    assert forall|k: int| 0 <= k < l.len() implies l[k] == r[k] by {
        if k >= 8 * a.len() {
            assert((k - 8 * a.len()) / 8 == k / 8 - a.len());
            assert((k - 8 * a.len()) % 8 == k % 8);
        }
    }
    assert(l =~= r);
}

/// Splicing bits into a window of bytes splices them into the whole buffer at the window's place.
pub proof fn lemma_splice_window(p: Seq<u8>, w: Seq<u8>, w2: Seq<u8>, q: Seq<u8>, st: int, t: Seq<bool>)
    requires
        0 <= st,
        st + t.len() <= 8 * w.len(),
        bytes_bits(w2) == splice(bytes_bits(w), st, t),
    ensures
        bytes_bits(p + w2 + q) == splice(bytes_bits(p + w + q), 8 * p.len() + st, t),
        (p + w2 + q).len() == (p + w + q).len(),
{
    lemma_bytes_bits_concat(p, w2);
    lemma_bytes_bits_concat(p + w2, q);
    lemma_bytes_bits_concat(p, w);
    lemma_bytes_bits_concat(p + w, q);
    assert(bytes_bits(w2).len() == bytes_bits(w).len());
    assert(w2.len() == w.len());
    assert(bytes_bits(p + w2 + q) =~= splice(bytes_bits(p + w + q), 8 * p.len() + st, t));
}

/// Slicing a slice is slicing the underlying bytes at the combined offsets: bits `[c, d)` of bits
/// `[a, b)` are bits `[a + c, a + d)`, and both succeed once the outer slice did.
pub proof fn lemma_nested_slice(
    bytes: Seq<u8>,
    off: int,
    a: int,
    b: int,
    c: int,
    d: int,
    outer: BitSlice,
    nested: B3Result<BitSlice>,
    direct: B3Result<BitSlice>,
)
    requires
        0 <= off,
        0 <= a <= b,
        0 <= c <= d <= b - a,
        slice_result(bytes, off, a, b, Ok(outer)),
        slice_result(outer.bytes(), outer.start_bit() as int, c, d, nested),
        slice_result(bytes, off, a + c, a + d, direct),
    ensures
        nested is Ok,
        direct is Ok,
        nested->Ok_0@ == direct->Ok_0@,
{
    lemma_window_bits(bytes, off, a, b, (off + a) / 8, byte_end(off + b), (off + a) % 8);
    let sb = (off + a) / 8;
    let eb = byte_end(off + b);
    lemma_bytes_bits_subrange(bytes, sb, eb);
    assert(outer.bytes().len() == eb - sb);
    let st = (off + a) % 8;
    assert(st + d <= 8 * (eb - sb));
    assert(window_fits(outer.bytes().len() as int, st, d));
    assert(nested is Ok);
    assert(window_fits(bytes.len() as int, off, a + d));
    assert(direct is Ok);
    assert(nested->Ok_0@ =~= direct->Ok_0@);
}

/// A view, with exclusive access, of bits `[start_bit_index, end_bit_index)` of a byte window.
#[derive(Debug)]
pub struct BitSliceMut<'a> {
    buf: &'a mut [u8],
    start_bit_index: usize,
    end_bit_index: usize,
}

/// What slicing bits `[s, e)` at bit offset `off` of `bytes` for writing gives.
pub open spec fn slice_mut_result(bytes: Seq<u8>, off: int, s: int, e: int, r: B3Result<BitSliceMut>) -> bool {
    match r {
        Ok(out) => {
            &&& slice_ok(bytes.len() as int, off, s, e)
            &&& out.wf()
            &&& out.bytes() == bytes.subrange((off + s) / 8, byte_end(off + e))
            &&& out.start_bit() == (off + s) % 8
            &&& out.end_bit() == out.start_bit() + (e - s)
            &&& out@ == bytes_bits(bytes).subrange(off + s, off + e)
        },
        Err(err) => {
            &&& !slice_ok(bytes.len() as int, off, s, e)
            &&& err == range_error(bytes.len() as int, off, s, e)
        },
    }
}

impl<'a> View for BitSliceMut<'a> {
    type V = Seq<bool>;

    open spec fn view(&self) -> Seq<bool> {
        bytes_bits(self.bytes()).subrange(self.start_bit() as int, self.end_bit() as int)
    }
}

impl<'a> BitSliceMut<'a> {
    /// The byte window, as it is now.
    pub closed spec fn bytes(self) -> Seq<u8> {
        self.buf@
    }

    /// The reference to the byte window; its final value is what the view leaves behind.
    pub closed spec fn bytes_ref(self) -> &'a mut [u8] {
        self.buf
    }

    /// The first bit of the view, inside the window.
    pub closed spec fn start_bit(self) -> nat {
        self.start_bit_index as nat
    }

    /// The bit past the last one of the view, inside the window.
    pub closed spec fn end_bit(self) -> nat {
        self.end_bit_index as nat
    }

    /// The bounds are in order and inside the window.
    pub open spec fn wf(self) -> bool {
        self.start_bit() <= self.end_bit() <= 8 * self.bytes().len()
    }

    /// Once a view is no longer used, what it leaves behind is its window as it is.
    pub proof fn lemma_resolved(self)
        requires
            has_resolved(self),
        ensures
            final(self.bytes_ref())@ == self.bytes(),
    {
    }

    /// A view of bits `[start_bit_index, end_bit_index)` of `buf`.
    pub fn new(buf: &'a mut [u8], start_bit_index: usize, end_bit_index: usize) -> (r: BitSliceMut<'a>)
        requires
            start_bit_index <= end_bit_index <= 8 * old(buf)@.len(),
        ensures
            r.wf(),
            r.bytes() == old(buf)@,
            r.start_bit() == start_bit_index,
            r.end_bit() == end_bit_index,
            final(buf)@ == final(r.bytes_ref())@,
    {
        BitSliceMut { buf, start_bit_index, end_bit_index }
    }

    /// The number of bits in the view.
    pub fn len(&self) -> (r: usize)
        requires
            self.wf(),
        ensures
            r == self@.len(),
            r == self.end_bit() - self.start_bit(),
            self.end_bit() <= usize::MAX,
    {
        self.end_bit_index - self.start_bit_index
    }

    /// The bit at `index`.
    pub fn at(&self, index: usize) -> (r: U1)
        requires
            self.wf(),
            index < self@.len(),
        ensures
            r@ == bit_value(self@[index as int]),
    {
        let bit_pos = self.start_bit_index + index;
        let byte_pos = bit_pos / 8;
        let byte = self.buf[byte_pos];
        get_bit(byte, bit_pos % 8)
    }

    /// Set the bit at `index` to `value`; no other bit of the window changes.
    pub fn set(&mut self, index: usize, value: U1)
        requires
            old(self).wf(),
            index < old(self)@.len(),
        ensures
            final(self).wf(),
            final(self).start_bit() == old(self).start_bit(),
            final(self).end_bit() == old(self).end_bit(),
            final(self).bytes().len() == old(self).bytes().len(),
            bytes_bits(final(self).bytes()) == bytes_bits(old(self).bytes()).update(
                old(self).start_bit() + index,
                value@ == 1,
            ),
            final(self)@ == old(self)@.update(index as int, value@ == 1),
            final(final(self).bytes_ref())@ == final(old(self).bytes_ref())@,
    {
        let bit_pos = self.start_bit_index + index;
        let byte_pos = bit_pos / 8;
        let mut byte: u8 = self.buf[byte_pos];
        set_bit(&mut byte, bit_pos % 8, value);
        let ghost old_bytes = self.buf@;
        self.buf[byte_pos] = byte;
        proof {
            let nb = bytes_bits(self.buf@);
            let ob = bytes_bits(old_bytes).update(bit_pos as int, value@ == 1);
            assert forall|k: int| 0 <= k < nb.len() implies nb[k] == ob[k] by {
                if k / 8 == byte_pos as int {
                    assert(byte_bit(byte, k % 8) == ob[k]);
                }
            }
            assert(nb =~= ob);
            assert(self@ =~= old(self)@.update(index as int, value@ == 1));
        }
    }

    /// A read-only view of bits `range` of this one, rebased on its own byte window.
    pub fn get_slice(&self, range: BitRange) -> (r: B3Result<BitSlice<'_>>)
        requires
            self.wf(),
            range.representable(self.start_bit() as int, self@.len()),
        ensures
            slice_result(
                self.bytes(),
                self.start_bit() as int,
                range.start_index(),
                range.end_index(self@.len()),
                r,
            ),
    {
        let len = self.len();
        let (s, e) = get_start_end_bit_index_from_range(&range, len);
        match slice_window(self.buf.len(), self.start_bit_index, s, e) {
            Ok((sb, eb, st)) => {
                let window: &[u8] = &self.buf[sb..eb];
                proof {
                    lemma_window_bits(self.buf@, self.start_bit_index as int, s as int, e as int, sb as int, eb as int, st as int);
                }
                Ok(BitSlice { buf: window, start_bit_index: st, end_bit_index: st + (e - s) })
            },
            Err(err) => Err(err),
        }
    }

    /// A view with exclusive access of bits `range` of this one, rebased on its own byte window.
    /// What it leaves behind in its window replaces that window here.
    pub fn get_slice_mut(&mut self, range: BitRange) -> (r: B3Result<BitSliceMut<'_>>)
        requires
            old(self).wf(),
            range.representable(old(self).start_bit() as int, old(self)@.len()),
        ensures
            slice_mut_result(
                old(self).bytes(),
                old(self).start_bit() as int,
                range.start_index(),
                range.end_index(old(self)@.len()),
                r,
            ),
            final(self).start_bit() == old(self).start_bit(),
            final(self).end_bit() == old(self).end_bit(),
            final(final(self).bytes_ref())@ == final(old(self).bytes_ref())@,
            match r {
                Ok(out) => final(self).bytes() == old(self).bytes().subrange(0, (old(self).start_bit() + range.start_index()) / 8)
                    + final(out.bytes_ref())@ + old(self).bytes().subrange(
                    byte_end(old(self).start_bit() + range.end_index(old(self)@.len())),
                    old(self).bytes().len() as int,
                ),
                Err(_) => final(self).bytes() == old(self).bytes(),
            },
    {
        let len = self.len();
        let (s, e) = get_start_end_bit_index_from_range(&range, len);
        match slice_window(self.buf.len(), self.start_bit_index, s, e) {
            Ok((sb, eb, st)) => {
                proof {
                    lemma_window_bits(self.buf@, self.start_bit_index as int, s as int, e as int, sb as int, eb as int, st as int);
                }
                let ghost bytes = self.buf@;
                let (left, _right) = self.buf.split_at_mut(eb);
                let (_lead, window) = left.split_at_mut(sb);
                assert(window@ =~= bytes.subrange(sb as int, eb as int));
                Ok(BitSliceMut { buf: window, start_bit_index: st, end_bit_index: st + (e - s) })
            },
            Err(err) => Err(err),
        }
    }
}

impl<'a> BitBuffer for BitSlice<'a> {
    open spec fn backing(&self) -> Seq<u8> {
        self.bytes()
    }

    open spec fn offset(&self) -> nat {
        self.start_bit()
    }

    open spec fn bit_len(&self) -> nat {
        (self.end_bit() - self.start_bit()) as nat
    }

    open spec fn buffer_wf(&self) -> bool {
        true
    }

    fn is_buffer_wf(&self) -> (r: bool) {
        true
    }

    fn len(&self) -> (r: usize) {
        BitSlice::len(self)
    }

    fn get_slice(&self, range: BitRange) -> (r: B3Result<BitSlice<'_>>) {
        proof {
            use_type_invariant(self);
        }
        BitSlice::get_slice(self, range)
    }
}

impl<'a> BitBuffer for BitSliceMut<'a> {
    open spec fn backing(&self) -> Seq<u8> {
        self.bytes()
    }

    open spec fn offset(&self) -> nat {
        self.start_bit()
    }

    open spec fn bit_len(&self) -> nat {
        (self.end_bit() - self.start_bit()) as nat
    }

    open spec fn buffer_wf(&self) -> bool {
        self.wf()
    }

    fn is_buffer_wf(&self) -> (r: bool) {
        self.is_wf()
    }

    fn len(&self) -> (r: usize) {
        BitSliceMut::len(self)
    }

    fn get_slice(&self, range: BitRange) -> (r: B3Result<BitSlice<'_>>) {
        BitSliceMut::get_slice(self, range)
    }
}

impl<'a> BitBufferMut for BitSliceMut<'a> {
    open spec fn target(&self) -> Option<&mut [u8]> {
        Some(self.bytes_ref())
    }

    fn get_slice_mut(&mut self, range: BitRange) -> (r: B3Result<BitSliceMut<'_>>)
        ensures
            final(final(self).bytes_ref())@ == final(old(self).bytes_ref())@,
    {
        BitSliceMut::get_slice_mut(self, range)
    }
}

impl<'a> BitSlice<'a> {
    /// Copy the first `n` bits of the view into `buf`.
    fn copy_prefix(&self, buf: &mut [U1], n: usize)
        requires
            n <= self@.len(),
            n <= old(buf)@.len(),
        ensures
            final(buf)@.len() == old(buf)@.len(),
            u1_bits(final(buf)@).take(n as int) == self@.take(n as int),
            final(buf)@.skip(n as int) == old(buf)@.skip(n as int),
    {
        let mut i: usize = 0;
        while i < n
            invariant
                i <= n,
                n <= self@.len(),
                n <= old(buf)@.len(),
                buf@.len() == old(buf)@.len(),
                forall|j: int| 0 <= j < i ==> (#[trigger] buf@[j])@ == bit_value(self@[j]),
                forall|j: int| i <= j < buf@.len() ==> #[trigger] buf@[j] == old(buf)@[j],
            decreases n - i,
        {
            let bit = self.at(i);
            buf[i] = bit;
            i = i + 1;
        }
        assert(u1_bits(buf@).take(n as int) =~= self@.take(n as int));
        assert(buf@.skip(n as int) =~= old(buf)@.skip(n as int));
    }
}

impl<'a> BitRead for BitSlice<'a> {
    open spec fn readable(&self) -> Seq<bool> {
        self@
    }

    open spec fn read_wf(&self) -> bool {
        true
    }

    /// Reading does not move a view: it reads from its start each time.
    open spec fn read_step(before: &Self, after: &Self, n: nat) -> bool {
        *after == *before
    }

    fn read(&mut self, buf: &mut [U1]) -> (r: Result<usize, BitIoError>) {
        let len = self.len();
        let n = if len < buf.len() {
            len
        } else {
            buf.len()
        };
        self.copy_prefix(buf, n);
        Ok(n)
    }

    fn read_exact(&mut self, buf: &mut [U1]) -> (r: Result<(), BitIoError>) {
        if buf.len() > self.len() {
            return Err(BitIoError::UnexpectedEnd);
        }
        let n = buf.len();
        self.copy_prefix(buf, n);
        proof {
            assert(buf@.skip(n as int) =~= Seq::<U1>::empty());
            assert(u1_bits(buf@) =~= u1_bits(buf@).take(n as int));
        }
        Ok(())
    }
}

impl<'a> BitSliceMut<'a> {
    /// Write the first `n` bits of `buf` to the start of the view.
    fn store_prefix(&mut self, buf: &[U1], n: usize)
        requires
            old(self).wf(),
            n <= old(self)@.len(),
            n <= buf@.len(),
        ensures
            final(self).wf(),
            final(self).start_bit() == old(self).start_bit(),
            final(self).end_bit() == old(self).end_bit(),
            final(self).bytes().len() == old(self).bytes().len(),
            bytes_bits(final(self).bytes()) == splice(
                bytes_bits(old(self).bytes()),
                old(self).start_bit() as int,
                u1_bits(buf@).take(n as int),
            ),
            final(final(self).bytes_ref())@ == final(old(self).bytes_ref())@,
    {
        let mut i: usize = 0;
        while i < n
            invariant
                i <= n,
                n <= buf@.len(),
                self.wf(),
                n <= self@.len(),
                self.start_bit() == old(self).start_bit(),
                self.end_bit() == old(self).end_bit(),
                self.bytes().len() == old(self).bytes().len(),
                bytes_bits(self.bytes()) == splice(
                    bytes_bits(old(self).bytes()),
                    old(self).start_bit() as int,
                    u1_bits(buf@).take(i as int),
                ),
                final(self.bytes_ref())@ == final(old(self).bytes_ref())@,
            decreases n - i,
        {
            let ghost before = bytes_bits(self.bytes());
            self.set(i, buf[i]);
            i = i + 1;
            assert(bytes_bits(self.bytes()) =~= splice(
                bytes_bits(old(self).bytes()),
                old(self).start_bit() as int,
                u1_bits(buf@).take(i as int),
            ));
        }
    }
}

impl<'a> BitWrite for BitSliceMut<'a> {
    open spec fn writable(&self) -> Seq<bool> {
        self@
    }

    open spec fn write_wf(&self) -> bool {
        self.wf()
    }

    /// Writing does not move a view: it writes from its start each time.
    open spec fn write_step(before: &Self, after: &Self, bits: Seq<bool>) -> bool {
        &&& after.start_bit() == before.start_bit()
        &&& after.end_bit() == before.end_bit()
        &&& after.bytes().len() == before.bytes().len()
        &&& bytes_bits(after.bytes()) == splice(bytes_bits(before.bytes()), before.start_bit() as int, bits)
    }

    fn write(&mut self, buf: &[U1]) -> (r: Result<usize, BitIoError>)
        ensures
            final(final(self).bytes_ref())@ == final(old(self).bytes_ref())@,
    {
        let len = self.len();
        let n = if len < buf.len() {
            len
        } else {
            buf.len()
        };
        self.store_prefix(buf, n);
        Ok(n)
    }

    fn write_all(&mut self, buf: &[U1]) -> (r: Result<(), BitIoError>)
        ensures
            final(final(self).bytes_ref())@ == final(old(self).bytes_ref())@,
    {
        if buf.len() > self.len() {
            proof {
                assert(splice(bytes_bits(self.bytes()), self.start_bit() as int, Seq::empty()) =~= bytes_bits(self.bytes()));
            }
            return Err(BitIoError::UnexpectedEnd);
        }
        let n = buf.len();
        self.store_prefix(buf, n);
        proof {
            assert(u1_bits(buf@).take(n as int) =~= u1_bits(buf@));
        }
        Ok(())
    }
}

impl<'a> BitSlice<'a> {
    /// Whether the view holds exactly the bits `other`.
    fn equals_u1s(&self, other: &[U1]) -> (r: bool)
        ensures
            r == (self@ == u1_bits(other@)),
    {
        let len = self.len();
        if len != other.len() {
            return false;
        }
        let mut i: usize = 0;
        while i < len
            invariant
                i <= len,
                len == self@.len(),
                len == other@.len(),
                forall|j: int| 0 <= j < i ==> self@[j] == u1_bits(other@)[j],
            decreases len - i,
        {
            let mine = self.at(i).get();
            let theirs = other[i].get();
            proof {
                lemma2_to64();
            }
            if mine != theirs {
                assert(self@[i as int] != u1_bits(other@)[i as int]);
                return false;
            }
            i = i + 1;
        }
        assert(self@ =~= u1_bits(other@));
        true
    }

    /// Whether the view holds exactly the bits of `other`.
    fn equals_vec(&self, other: &BitVec) -> (r: bool)
        ensures
            r == (other.wf() && self@ == other@),
    {
        if !other.is_wf() {
            return false;
        }
        let len = self.len();
        if len != other.len() {
            return false;
        }
        let mut i: usize = 0;
        while i < len
            invariant
                i <= len,
                other.wf(),
                len == self@.len(),
                len == other@.len(),
                forall|j: int| 0 <= j < i ==> self@[j] == other@[j],
            decreases len - i,
        {
            if self.at(i).get() != other.at(i).get() {
                return false;
            }
            i = i + 1;
        }
        assert(self@ =~= other@);
        true
    }
}

impl<'a> PartialEq for BitSlice<'a> {
    fn eq(&self, other: &Self) -> (r: bool) {
        let len = self.len();
        if len != other.len() {
            return false;
        }
        let mut i: usize = 0;
        while i < len
            invariant
                i <= len,
                len == self@.len(),
                len == other@.len(),
                forall|j: int| 0 <= j < i ==> self@[j] == other@[j],
            decreases len - i,
        {
            if self.at(i).get() != other.at(i).get() {
                return false;
            }
            i = i + 1;
        }
        assert(self@ =~= other@);
        true
    }
}

impl<'a> vstd::std_specs::cmp::PartialEqSpecImpl for BitSlice<'a> {
    open spec fn obeys_eq_spec() -> bool {
        true
    }

    open spec fn eq_spec(&self, other: &Self) -> bool {
        self@ == other@
    }
}

impl<'a, 'b> PartialEq<&'b [U1]> for BitSlice<'a> {
    fn eq(&self, other: &&'b [U1]) -> (r: bool) {
        self.equals_u1s(other)
    }
}

impl<'a, 'b> vstd::std_specs::cmp::PartialEqSpecImpl<&'b [U1]> for BitSlice<'a> {
    open spec fn obeys_eq_spec() -> bool {
        true
    }

    open spec fn eq_spec(&self, other: &&'b [U1]) -> bool {
        self@ == u1_bits(other@)
    }
}

impl<'a> PartialEq<BitVec> for BitSlice<'a> {
    fn eq(&self, other: &BitVec) -> (r: bool) {
        self.equals_vec(other)
    }
}

impl<'a> vstd::std_specs::cmp::PartialEqSpecImpl<BitVec> for BitSlice<'a> {
    open spec fn obeys_eq_spec() -> bool {
        true
    }

    open spec fn eq_spec(&self, other: &BitVec) -> bool {
        other.wf() && self@ == other@
    }
}

impl<'a> BitSliceMut<'a> {
    /// Whether the bounds are in order and inside the window.
    pub fn is_wf(&self) -> (r: bool)
        ensures
            r == self.wf(),
    {
        let bytes = self.end_bit_index / 8 + if self.end_bit_index % 8 == 0 {
            0
        } else {
            1
        };
        self.start_bit_index <= self.end_bit_index && bytes <= self.buf.len()
    }

    /// A read-only view of the same bits.
    fn as_slice(&self) -> (r: BitSlice<'_>)
        requires
            self.wf(),
        ensures
            r@ == self@,
    {
        BitSlice { buf: &*self.buf, start_bit_index: self.start_bit_index, end_bit_index: self.end_bit_index }
    }
}

impl<'a, 'b> PartialEq<&'b [U1]> for BitSliceMut<'a> {
    fn eq(&self, other: &&'b [U1]) -> (r: bool) {
        if !self.is_wf() {
            return false;
        }
        self.as_slice().equals_u1s(other)
    }
}

impl<'a, 'b> vstd::std_specs::cmp::PartialEqSpecImpl<&'b [U1]> for BitSliceMut<'a> {
    open spec fn obeys_eq_spec() -> bool {
        true
    }

    open spec fn eq_spec(&self, other: &&'b [U1]) -> bool {
        self.wf() && self@ == u1_bits(other@)
    }
}

impl<'a> PartialEq<BitVec> for BitSliceMut<'a> {
    fn eq(&self, other: &BitVec) -> (r: bool) {
        if !self.is_wf() {
            return false;
        }
        self.as_slice().equals_vec(other)
    }
}

impl<'a> vstd::std_specs::cmp::PartialEqSpecImpl<BitVec> for BitSliceMut<'a> {
    open spec fn obeys_eq_spec() -> bool {
        true
    }

    open spec fn eq_spec(&self, other: &BitVec) -> bool {
        self.wf() && other.wf() && self@ == other@
    }
}

} // verus!
