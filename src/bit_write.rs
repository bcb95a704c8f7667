//! Writing runs of bits.
use vstd::prelude::*;

use crate::bit_traits::{min_len, u1_bits, U1};
use crate::error::BitIoError;

verus! {

/// A sink of bits.
pub trait BitWrite {
    /// The bits that a write starting now overwrites, in order.
    spec fn writable(&self) -> Seq<bool>;

    /// The sink is well formed.
    spec fn write_wf(&self) -> bool;

    /// `after` is what `before` becomes once `bits` were written to it.
    spec fn write_step(before: &Self, after: &Self, bits: Seq<bool>) -> bool;

    /// Write as many bits of `buf` as there is room for, and return how many; never fails.
    fn write(&mut self, buf: &[U1]) -> (r: Result<usize, BitIoError>)
        requires
            old(self).write_wf(),
        ensures
            final(self).write_wf(),
            r matches Ok(n) && {
                &&& n == min_len(old(self).writable().len() as int, buf@.len() as int)
                &&& Self::write_step(old(self), final(self), u1_bits(buf@).take(n as int))
            },
    ;

    /// Write all of `buf`, or fail with [`BitIoError::UnexpectedEnd`] when there is not room for
    /// it, writing nothing.
    fn write_all(&mut self, buf: &[U1]) -> (r: Result<(), BitIoError>)
        requires
            old(self).write_wf(),
        ensures
            final(self).write_wf(),
            buf@.len() <= old(self).writable().len() ==> {
                &&& r is Ok
                &&& Self::write_step(old(self), final(self), u1_bits(buf@))
            },
            buf@.len() > old(self).writable().len() ==> {
                &&& r == Err::<(), BitIoError>(BitIoError::UnexpectedEnd)
                &&& Self::write_step(old(self), final(self), Seq::empty())
            },
    ;
}

} // verus!
