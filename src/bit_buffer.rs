//! The capability of a bit container: its length, and views of its sub-ranges.
use vstd::prelude::*;

use crate::error::B3Result;
use crate::slice::{byte_end, slice_mut_result, slice_result, BitSlice, BitSliceMut};
use crate::util::{bytes_bits, BitRange};

verus! {

/// A container of bits laid over a run of backing bytes.
pub trait BitBuffer {
    /// The backing bytes.
    spec fn backing(&self) -> Seq<u8>;

    /// Where the container's first bit lies in the bits of the backing bytes.
    spec fn offset(&self) -> nat;

    /// The number of bits in the container.
    spec fn bit_len(&self) -> nat;

    /// The container is well formed.
    spec fn buffer_wf(&self) -> bool;

    /// Whether the container is well formed.
    fn is_buffer_wf(&self) -> (r: bool)
        ensures
            r == self.buffer_wf(),
    ;

    /// The number of bits in the container.
    fn len(&self) -> (r: usize)
        requires
            self.buffer_wf(),
        ensures
            r == self.bit_len(),
            self.offset() + self.bit_len() <= 8 * self.backing().len(),
            self.offset() + self.bit_len() <= usize::MAX,
    ;

    /// A read-only view of bits `range`, rebased on the backing bytes that it touches.
    fn get_slice(&self, range: BitRange) -> (r: B3Result<BitSlice<'_>>)
        requires
            self.buffer_wf(),
            range.representable(self.offset() as int, self.bit_len()),
        ensures
            slice_result(
                self.backing(),
                self.offset() as int,
                range.start_index(),
                range.end_index(self.bit_len()),
                r,
            ),
    ;
}

/// The bits of a container.
pub open spec fn buffer_bits<B: BitBuffer>(b: &B) -> Seq<bool> {
    bytes_bits(b.backing()).subrange(b.offset() as int, (b.offset() + b.bit_len()) as int)
}

/// A container of bits that also hands out views with exclusive access.
pub trait BitBufferMut: BitBuffer {
    /// The reference through which the container's bytes leave, when it borrows them; `None`
    /// when it owns them.
    spec fn target(&self) -> Option<&mut [u8]>;

    /// A view with exclusive access of bits `range`, rebased on the backing bytes that it
    /// touches. What the view leaves behind in those bytes replaces them here.
    fn get_slice_mut(&mut self, range: BitRange) -> (r: B3Result<BitSliceMut<'_>>)
        requires
            old(self).buffer_wf(),
            range.representable(old(self).offset() as int, old(self).bit_len()),
        ensures
            slice_mut_result(
                old(self).backing(),
                old(self).offset() as int,
                range.start_index(),
                range.end_index(old(self).bit_len()),
                r,
            ),
            final(self).offset() == old(self).offset(),
            final(self).bit_len() == old(self).bit_len(),
            old(self).target() is None ==> final(self).target() is None,
            old(self).target() is Some ==> {
                &&& final(self).target() is Some
                &&& final(final(self).target()->Some_0)@ == final(old(self).target()->Some_0)@
            },
            match r {
                Ok(out) => {
                    &&& final(self).backing() == old(self).backing().subrange(
                        0,
                        (old(self).offset() + range.start_index()) / 8,
                    ) + final(out.bytes_ref())@ + old(self).backing().subrange(
                        byte_end(old(self).offset() + range.end_index(old(self).bit_len())),
                        old(self).backing().len() as int,
                    )
                    &&& final(out.bytes_ref())@.len() == out.bytes().len() ==> final(self).buffer_wf()
                },
                Err(_) => final(self).backing() == old(self).backing() && final(self).buffer_wf(),
            },
    ;
}

} // verus!
