//! Bit addressing inside a byte, bit sequences of byte buffers, and range descriptors.
use vstd::prelude::*;

use crate::bit_traits::{bit_value, U1};

verus! {

/// Bit `i` of `b`, counting from the most significant bit (bit 0) down.
pub open spec fn byte_bit(b: u8, i: int) -> bool {
    b & (0x80u8 >> (i as u8)) != 0u8
}

/// All bits of `bytes`, eight per byte, most significant bit of each byte first.
pub open spec fn bytes_bits(bytes: Seq<u8>) -> Seq<bool> {
    Seq::new(8 * bytes.len(), |k: int| byte_bit(bytes[k / 8], k % 8))
}

/// Get bit `bit_index` of `byte` as a one-bit value.
pub fn get_bit(byte: u8, bit_index: usize) -> (r: U1)
    requires
        bit_index < 8,
    ensures
        r@ == bit_value(byte_bit(byte, bit_index as int)),
{
    let mask: u8 = 0x80u8 >> (bit_index as u8);
    U1::from_bool(byte & mask != 0)
}

/// Set bit `bit_index` of `byte` to `value`, leaving its other bits unchanged.
pub fn set_bit(byte: &mut u8, bit_index: usize, value: U1)
    requires
        bit_index < 8,
    ensures
        forall|j: int|
            0 <= j < 8 ==> #[trigger] byte_bit(*final(byte), j) == if j == bit_index {
                value@ == 1
            } else {
                byte_bit(*old(byte), j)
            },
{
    let idx: u8 = bit_index as u8;
    let mask: u8 = !(0x80u8 >> idx);
    let v: u8 = if value.is_set() {
        1
    } else {
        0
    };
    let old_byte: u8 = *byte;
    let new_byte: u8 = (old_byte & mask) | ((v << 7u8) >> idx);
    assert forall|j: int| 0 <= j < 8 implies #[trigger] byte_bit(new_byte, j) == if j == bit_index {
        value@ == 1
    } else {
        byte_bit(old_byte, j)
    } by {
        let jj = j as u8;
        assert((new_byte & (0x80u8 >> jj) != 0u8) == if jj == idx {
            v == 1
        } else {
            old_byte & (0x80u8 >> jj) != 0u8
        }) by (bit_vector)
            requires
                jj < 8,
                idx < 8,
                v <= 1,
                mask == !(0x80u8 >> idx),
                new_byte == (old_byte & mask) | ((v << 7u8) >> idx),
        ;
    }
    *byte = new_byte;
}

/// One end of a range of bit indices.
#[derive(Clone, Copy, Debug, PartialEq, Eq, Structural)]
pub enum BitBound {
    Included(usize),
    Excluded(usize),
    Unbounded,
}

/// A range of bit indices: each end inclusive, exclusive or open.
#[derive(Clone, Copy, Debug, PartialEq, Eq, Structural)]
pub struct BitRange {
    pub start: BitBound,
    pub end: BitBound,
}

impl BitRange {
    /// The first index of the range: an open start is 0, an exclusive one the next index.
    pub open spec fn start_index(self) -> int {
        match self.start {
            BitBound::Included(v) => v as int,
            BitBound::Excluded(v) => v + 1,
            BitBound::Unbounded => 0,
        }
    }

    /// The index past the end of the range, where `len` stands in for an open end.
    pub open spec fn end_index(self, len: nat) -> int {
        match self.end {
            BitBound::Included(v) => v + 1,
            BitBound::Excluded(v) => v as int,
            BitBound::Unbounded => len as int,
        }
    }

    /// Whether both ends, against a buffer of `len` bits and moved by `off`, are representable.
    pub open spec fn representable(self, off: int, len: nat) -> bool {
        &&& 0 <= off
        &&& off + self.start_index() <= usize::MAX
        &&& off + self.end_index(len) <= usize::MAX
    }

    /// `start..end`
    pub fn new(start: usize, end: usize) -> (r: BitRange)
        ensures
            r.start == BitBound::Included(start),
            r.end == BitBound::Excluded(end),
    {
        BitRange { start: BitBound::Included(start), end: BitBound::Excluded(end) }
    }

    /// `start..=end`
    pub fn inclusive(start: usize, end: usize) -> (r: BitRange)
        ensures
            r.start == BitBound::Included(start),
            r.end == BitBound::Included(end),
    {
        BitRange { start: BitBound::Included(start), end: BitBound::Included(end) }
    }

    /// `start..`
    pub fn starting_at(start: usize) -> (r: BitRange)
        ensures
            r.start == BitBound::Included(start),
            r.end == BitBound::Unbounded,
    {
        BitRange { start: BitBound::Included(start), end: BitBound::Unbounded }
    }

    /// `..end`
    pub fn up_to(end: usize) -> (r: BitRange)
        ensures
            r.start == BitBound::Unbounded,
            r.end == BitBound::Excluded(end),
    {
        BitRange { start: BitBound::Unbounded, end: BitBound::Excluded(end) }
    }

    /// `..=end`
    pub fn up_to_inclusive(end: usize) -> (r: BitRange)
        ensures
            r.start == BitBound::Unbounded,
            r.end == BitBound::Included(end),
    {
        BitRange { start: BitBound::Unbounded, end: BitBound::Included(end) }
    }

    /// `..`
    pub fn full() -> (r: BitRange)
        ensures
            r.start == BitBound::Unbounded,
            r.end == BitBound::Unbounded,
    {
        BitRange { start: BitBound::Unbounded, end: BitBound::Unbounded }
    }
}

/// The half-open bounds `[start, end)` that `range` denotes on a buffer of `len` bits; they
/// may come out reversed, which slicing rejects.
pub fn get_start_end_bit_index_from_range(range: &BitRange, len: usize) -> (r: (usize, usize))
    requires
        range.representable(0, len as nat),
    ensures
        r.0 == range.start_index(),
        r.1 == range.end_index(len as nat),
{
    let start: usize = match range.start {
        BitBound::Included(v) => v,
        BitBound::Excluded(v) => v + 1,
        BitBound::Unbounded => 0,
    };
    let end: usize = match range.end {
        BitBound::Included(v) => v + 1,
        BitBound::Excluded(v) => v,
        BitBound::Unbounded => len,
    };
    (start, end)
}

} // verus!
