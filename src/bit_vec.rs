//! An owned, growable container of bits.
use vstd::prelude::*;

use crate::bit_buffer::{BitBuffer, BitBufferMut};
use crate::bit_traits::{bit_value, U1};
use crate::error::B3Result;
use crate::slice::{
    byte_end, lemma_window_bits, slice_mut_result, slice_result, slice_window, window_fits,
    BitSlice, BitSliceMut,
};
use crate::util::{byte_bit, bytes_bits, get_bit, get_start_end_bit_index_from_range, set_bit, BitRange};

verus! {

/// Relies on `Vec::capacity`: the number of elements the vector can hold without
/// reallocating, which is never below its length.
#[verifier::external_body]
fn vec_capacity(v: &Vec<u8>) -> (r: usize)
    ensures
        r >= v@.len(),
{
    v.capacity()
}

/// A vector whose contents are addressed in bits, most significant bit of each byte first.
#[derive(Debug, PartialEq, Eq)]
pub struct BitVec {
    buf: Vec<u8>,
    /// The number of bits held.
    len: usize,
}

impl View for BitVec {
    type V = Seq<bool>;

    open spec fn view(&self) -> Seq<bool> {
        bytes_bits(self.bytes()).take(self.bit_len() as int)
    }
}

/// The number of bits in `bytes` bytes, capped at `usize::MAX`.
pub open spec fn bits_for_bytes(bytes: int) -> int {
    if bytes <= usize::MAX / 8 {
        8 * bytes
    } else {
        usize::MAX as int
    }
}

/// The number of bits in `bytes` bytes, capped at `usize::MAX`.
pub fn capacity_in_bits(bytes: usize) -> (r: usize)
    ensures
        r == bits_for_bytes(bytes as int),
{
    if bytes > usize::MAX / 8 {
        usize::MAX
    } else {
        bytes * 8
    }
}

impl BitVec {
    /// The backing bytes.
    pub closed spec fn bytes(self) -> Seq<u8> {
        self.buf@
    }

    /// The number of bits held.
    pub closed spec fn bit_len(self) -> nat {
        self.len as nat
    }

    /// The backing bytes are exactly those that the bits touch.
    pub open spec fn wf(self) -> bool {
        self.bytes().len() == byte_end(self.bit_len() as int)
    }

    /// Whether the backing bytes are exactly those that the bits touch.
    pub fn is_wf(&self) -> (r: bool)
        ensures
            r == self.wf(),
    {
        let bytes = self.len / 8 + if self.len % 8 == 0 {
            0
        } else {
            1
        };
        self.buf.len() == bytes
    }

    /// An empty vector.
    pub fn new() -> (r: BitVec)
        ensures
            r.wf(),
            r@ == Seq::<bool>::empty(),
            r.bytes() == Seq::<u8>::empty(),
    {
        BitVec { buf: Vec::new(), len: 0 }
    }

    /// A vector of all bits of `data`, so of `8 * data.len()` bits.
    pub fn from_vec(data: Vec<u8>) -> (r: BitVec)
        requires
            8 * data@.len() <= usize::MAX,
        ensures
            r.wf(),
            r.bytes() == data@,
            r@ == bytes_bits(data@),
    {
        let len = data.len() * 8;
        let r = BitVec { buf: data, len };
        assert(r@ =~= bytes_bits(data@));
        r
    }

    /// An empty vector with room for `capacity` bits.
    pub fn with_capacity(capacity: usize) -> (r: BitVec)
        ensures
            r.wf(),
            r@ == Seq::<bool>::empty(),
    {
        let bytes = capacity / 8 + if capacity % 8 == 0 {
            0
        } else {
            1
        };
        BitVec { buf: Vec::with_capacity(bytes), len: 0 }
    }

    /// Append `value`.
    pub fn push(&mut self, value: U1)
        requires
            old(self).wf(),
            old(self)@.len() < usize::MAX,
        ensures
            final(self).wf(),
            final(self)@ == old(self)@.push(value@ == 1),
    {
        if self.len % 8 == 0 {
            self.buf.push(0);
        }
        let last = self.buf.len() - 1;
        let mut byte: u8 = self.buf[last];
        let ghost mid = self.buf@;
        set_bit(&mut byte, self.len % 8, value);
        self.buf.set(last, byte);
        self.len = self.len + 1;
        proof {
            let n = self@;
            let o = old(self)@.push(value@ == 1);
            assert forall|k: int| 0 <= k < n.len() implies n[k] == o[k] by {
                if k / 8 == last as int {
                    assert(byte_bit(byte, k % 8) == o[k]);
                } else {
                    assert(self.buf@[k / 8] == mid[k / 8]);
                }
            }
            assert(n =~= o);
        }
    }

    /// Remove and return the last bit, if there is one.
    pub fn pop(&mut self) -> (r: Option<U1>)
        requires
            old(self).wf(),
        ensures
            final(self).wf(),
            old(self)@.len() == 0 ==> r is None && final(self)@ == old(self)@,
            old(self)@.len() > 0 ==> {
                &&& r matches Some(b) && b@ == bit_value(old(self)@.last())
                &&& final(self)@ == old(self)@.drop_last()
            },
    {
        if self.len == 0 {
            return None;
        }
        let last = self.buf.len() - 1;
        let byte = self.buf[last];
        let result = get_bit(byte, (self.len - 1) % 8);
        self.len = self.len - 1;
        if self.len % 8 == 0 {
            self.buf.pop();
        }
        proof {
            assert(self@ =~= old(self)@.drop_last());
        }
        Some(result)
    }

    /// The bit at `index`.
    pub fn at(&self, index: usize) -> (r: U1)
        requires
            self.wf(),
            index < self@.len(),
        ensures
            r@ == bit_value(self@[index as int]),
    {
        let byte_pos = index / 8;
        let bit_index = index % 8;
        get_bit(self.buf[byte_pos], bit_index)
    }

    /// An iterator over the bits, front to back.
    pub fn iter(&self) -> (r: BitVecIterator<'_>)
        ensures
            r.bits() == self@,
            r.index() == 0,
    {
        BitVecIterator { vec: self, bit_pos: 0 }
    }

    /// The number of bits held.
    pub fn len(&self) -> (r: usize)
        ensures
            r == self.bit_len(),
            self.wf() ==> r == self@.len(),
    {
        self.len
    }

    /// How many bits the vector holds before it must grow its allocation: eight per allocated
    /// byte, capped at `usize::MAX`.
    pub fn capacity(&self) -> (r: usize)
        requires
            self.wf(),
        ensures
            r >= self@.len(),
            r % 8 == 0 || r == usize::MAX,
            exists|bytes: usize| bytes >= self.bytes().len() && r == bits_for_bytes(bytes as int),
    {
        let bytes = vec_capacity(&self.buf);
        capacity_in_bits(bytes)
    }

    /// A read-only view of bits `range`, rebased on the bytes that it touches.
    pub fn get_slice(&self, range: BitRange) -> (r: B3Result<BitSlice<'_>>)
        requires
            self.wf(),
            range.representable(0, self@.len()),
        ensures
            slice_result(self.bytes(), 0, range.start_index(), range.end_index(self@.len()), r),
    {
        let (s, e) = get_start_end_bit_index_from_range(&range, self.len);
        match slice_window(self.buf.len(), 0, s, e) {
            Ok((sb, eb, st)) => {
                proof {
                    lemma_window_bits(self.buf@, 0, s as int, e as int, sb as int, eb as int, st as int);
                }
                Ok(BitSlice::new(&self.buf.as_slice()[sb..eb], st, st + (e - s)))
            },
            Err(err) => Err(err),
        }
    }

    /// A view with exclusive access of bits `range`, rebased on the bytes that it touches.
    /// What it leaves behind in those bytes replaces them here.
    pub fn get_slice_mut(&mut self, range: BitRange) -> (r: B3Result<BitSliceMut<'_>>)
        requires
            old(self).wf(),
            range.representable(0, old(self)@.len()),
        ensures
            slice_mut_result(old(self).bytes(), 0, range.start_index(), range.end_index(old(self)@.len()), r),
            final(self).bit_len() == old(self).bit_len(),
            match r {
                Ok(out) => final(self).bytes() == old(self).bytes().subrange(0, range.start_index() / 8)
                    + final(out.bytes_ref())@ + old(self).bytes().subrange(
                    byte_end(range.end_index(old(self)@.len())),
                    old(self).bytes().len() as int,
                ),
                Err(_) => final(self).bytes() == old(self).bytes(),
            },
    {
        let (s, e) = get_start_end_bit_index_from_range(&range, self.len);
        match slice_window(self.buf.len(), 0, s, e) {
            Ok((sb, eb, st)) => {
                proof {
                    lemma_window_bits(self.buf@, 0, s as int, e as int, sb as int, eb as int, st as int);
                }
                let ghost bytes = self.buf@;
                let whole = self.buf.as_mut_slice();
                let (left, _right) = whole.split_at_mut(eb);
                let (_lead, window) = left.split_at_mut(sb);
                assert(window@ =~= bytes.subrange(sb as int, eb as int));
                Ok(BitSliceMut::new(window, st, st + (e - s)))
            },
            Err(err) => Err(err),
        }
    }
}

impl Default for BitVec {
    fn default() -> (r: BitVec)
        ensures
            r.wf(),
            r@ == Seq::<bool>::empty(),
    {
        BitVec::new()
    }
}

/// Any range within the length of a vector can be sliced, and the slice holds the vector's
/// bits of that range.
pub proof fn lemma_slice_within_len(v: BitVec, s: int, e: int)
    requires
        v.wf(),
        0 <= s <= e <= v@.len(),
    ensures
        window_fits(v.bytes().len() as int, 0, e),
        bytes_bits(v.bytes()).subrange(s, e) == v@.subrange(s, e),
{
    assert(bytes_bits(v.bytes()).subrange(s, e) =~= v@.subrange(s, e));
}

/// A run of vector states each of which is the one before with one more bit pushed: after
/// `i` pushes the bits are the first bits followed by the first `i` pushed ones.
pub proof fn lemma_pushes_append(pushes: Seq<BitVec>, bits: Seq<bool>, i: int)
    requires
        pushes.len() == bits.len() + 1,
        forall|j: int| 0 <= j < bits.len() ==> #[trigger] pushes[j + 1]@ == pushes[j]@.push(bits[j]),
        0 <= i <= bits.len(),
    ensures
        pushes[i]@ == pushes[0]@ + bits.take(i),
    decreases i,
{
    if i == 0 {
        assert(pushes[0]@ + bits.take(0) =~= pushes[0]@);
    } else {
        lemma_pushes_append(pushes, bits, i - 1);
        assert(pushes[i]@ == pushes[i - 1]@.push(bits[i - 1]));
        assert(pushes[0]@ + bits.take(i) =~= (pushes[0]@ + bits.take(i - 1)).push(bits[i - 1]));
    }
}

/// A run of vector states each of which is the one before with its last bit popped, starting
/// from `start`: after `j` pops the first `len - j` bits of `start` remain.
pub proof fn lemma_pops_truncate(pops: Seq<BitVec>, k: int, j: int)
    requires
        pops.len() == k + 1,
        pops[0]@.len() >= k,
        forall|i: int| 0 <= i < k ==> #[trigger] pops[i + 1]@ == pops[i]@.drop_last(),
        0 <= j <= k,
    ensures
        pops[j]@ == pops[0]@.take(pops[0]@.len() - j),
    decreases j,
{
    if j == 0 {
        assert(pops[0]@.take(pops[0]@.len() as int) =~= pops[0]@);
    } else {
        lemma_pops_truncate(pops, k, j - 1);
        assert(pops[(j - 1) + 1]@ == pops[j - 1]@.drop_last());
        assert(pops[0]@.take(pops[0]@.len() - (j - 1)).drop_last() =~= pops[0]@.take(pops[0]@.len() - j));
    }
}

/// After any number of pushes, as many pops hand the pushed bits back in reverse order and
/// leave the vector as it was, down to its number of backing bytes. `pushes` are the states
/// along the pushes, `pops` those along the pops, starting where the pushes ended; `pop` on a
/// state hands out its last bit.
pub proof fn lemma_pops_undo_pushes(pushes: Seq<BitVec>, pops: Seq<BitVec>, bits: Seq<bool>)
    requires
        pushes.len() == bits.len() + 1,
        pops.len() == bits.len() + 1,
        forall|j: int| 0 <= j < bits.len() ==> #[trigger] pushes[j + 1]@ == pushes[j]@.push(bits[j]),
        pops[0] == pushes[bits.len() as int],
        forall|j: int| 0 <= j < bits.len() ==> #[trigger] pops[j + 1]@ == pops[j]@.drop_last(),
        pushes[0].wf(),
        pops[bits.len() as int].wf(),
    ensures
        forall|j: int|
            0 <= j < bits.len() ==> #[trigger] pops[j]@.len() > 0 && pops[j]@.last() == bits[bits.len()
                - 1 - j],
        pops[bits.len() as int]@ == pushes[0]@,
        pops[bits.len() as int].bytes().len() == pushes[0].bytes().len(),
{
    let k = bits.len() as int;
    let v0 = pushes[0]@;
    lemma_pushes_append(pushes, bits, k);
    assert(bits.take(k) =~= bits);
    assert forall|j: int| 0 <= j < k implies #[trigger] pops[j]@.len() > 0 && pops[j]@.last() == bits[k
        - 1 - j] by {
        lemma_pops_truncate(pops, k, j);
    }
    lemma_pops_truncate(pops, k, k);
    assert(pops[k]@ =~= v0);
}

impl BitBuffer for BitVec {
    open spec fn backing(&self) -> Seq<u8> {
        self.bytes()
    }

    open spec fn offset(&self) -> nat {
        0
    }

    open spec fn bit_len(&self) -> nat {
        BitVec::bit_len(*self)
    }

    open spec fn buffer_wf(&self) -> bool {
        self.wf()
    }

    fn is_buffer_wf(&self) -> (r: bool) {
        self.is_wf()
    }

    fn len(&self) -> (r: usize) {
        BitVec::len(self)
    }

    fn get_slice(&self, range: BitRange) -> (r: B3Result<BitSlice<'_>>) {
        BitVec::get_slice(self, range)
    }
}

impl BitBufferMut for BitVec {
    open spec fn target(&self) -> Option<&mut [u8]> {
        None
    }

    fn get_slice_mut(&mut self, range: BitRange) -> (r: B3Result<BitSliceMut<'_>>) {
        BitVec::get_slice_mut(self, range)
    }
}

/// The bits of `data`, each byte of which is a bit value 0 or 1.
pub open spec fn bits_of_values(data: Seq<u8>) -> Seq<bool> {
    data.map_values(|b: u8| b == 1)
}

/// A vector of the bits `data`, each of which is 0 or 1.
pub fn into_bitvec(data: &[u8]) -> (r: BitVec)
    requires
        forall|i: int| 0 <= i < data@.len() ==> #[trigger] data@[i] <= 1,
    ensures
        r.wf(),
        r@ == bits_of_values(data@),
{
    let mut vec = BitVec::with_capacity(data.len());
    let mut i: usize = 0;
    while i < data.len()
        invariant
            i <= data@.len(),
            vec.wf(),
            vec@ == bits_of_values(data@).take(i as int),
            forall|j: int| 0 <= j < data@.len() ==> #[trigger] data@[j] <= 1,
        decreases data@.len() - i,
    {
        vec.push(U1::from_bool(data[i] == 1));
        i = i + 1;
        assert(vec@ =~= bits_of_values(data@).take(i as int));
    }
    assert(vec@ =~= bits_of_values(data@));
    vec
}

/// A vector of `n` bits, each equal to `elem`, which is 0 or 1.
pub fn from_elem(elem: u8, n: usize) -> (r: BitVec)
    requires
        elem <= 1,
    ensures
        r.wf(),
        r@ == Seq::new(n as nat, |i: int| elem == 1),
{
    let mut vec = BitVec::with_capacity(n);
    let mut i: usize = 0;
    while i < n
        invariant
            i <= n,
            vec.wf(),
            vec@ == Seq::new(i as nat, |j: int| elem == 1),
        decreases n - i,
    {
        vec.push(U1::from_bool(elem == 1));
        i = i + 1;
        assert(vec@ =~= Seq::new(i as nat, |j: int| elem == 1));
    }
    vec
}

/// An iterator over the bits of a [`BitVec`].
pub struct BitVecIterator<'a> {
    vec: &'a BitVec,
    bit_pos: usize,
}

impl<'a> BitVecIterator<'a> {
    /// The bits that the iterator walks.
    pub closed spec fn bits(self) -> Seq<bool> {
        self.vec@
    }

    /// The number of bits already handed out.
    pub closed spec fn index(self) -> nat {
        self.bit_pos as nat
    }

    /// Whether the iterated vector is well formed.
    pub closed spec fn source_wf(self) -> bool {
        self.vec.wf()
    }

    /// The next bit, or `None` once all have been handed out.
    pub fn next(&mut self) -> (r: Option<U1>)
        requires
            old(self).index() <= old(self).bits().len(),
            old(self).source_wf(),
        ensures
            final(self).bits() == old(self).bits(),
            final(self).source_wf(),
            old(self).index() < old(self).bits().len() ==> {
                &&& final(self).index() == old(self).index() + 1
                &&& r matches Some(b) && b@ == bit_value(old(self).bits()[old(self).index() as int])
            },
            old(self).index() == old(self).bits().len() ==> r is None && final(self).index()
                == old(self).index(),
    {
        if self.bit_pos == self.vec.len() {
            return None;
        }
        let val = self.vec.at(self.bit_pos);
        self.bit_pos = self.bit_pos + 1;
        Some(val)
    }
}

} // verus!
