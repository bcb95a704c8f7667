//! Reading runs of bits.
use vstd::prelude::*;

use crate::bit_traits::{min_len, u1_bits, U1};
use crate::error::BitIoError;

verus! {

/// A source of bits.
pub trait BitRead {
    /// The bits that a read starting now returns, in order.
    spec fn readable(&self) -> Seq<bool>;

    /// The source is well formed.
    spec fn read_wf(&self) -> bool;

    /// `after` is what `before` becomes once `n` bits were read from it.
    spec fn read_step(before: &Self, after: &Self, n: nat) -> bool;

    /// Read as many bits as fit in `buf` and remain, and return how many; never fails.
    fn read(&mut self, buf: &mut [U1]) -> (r: Result<usize, BitIoError>)
        requires
            old(self).read_wf(),
        ensures
            final(self).read_wf(),
            final(buf)@.len() == old(buf)@.len(),
            r matches Ok(n) && {
                &&& n == min_len(old(self).readable().len() as int, old(buf)@.len() as int)
                &&& u1_bits(final(buf)@).take(n as int) == old(self).readable().take(n as int)
                &&& final(buf)@.skip(n as int) == old(buf)@.skip(n as int)
                &&& Self::read_step(old(self), final(self), n as nat)
            },
    ;

    /// Fill `buf` whole, or fail with [`BitIoError::UnexpectedEnd`] when fewer bits remain,
    /// reading nothing.
    fn read_exact(&mut self, buf: &mut [U1]) -> (r: Result<(), BitIoError>)
        requires
            old(self).read_wf(),
        ensures
            final(self).read_wf(),
            final(buf)@.len() == old(buf)@.len(),
            old(buf)@.len() <= old(self).readable().len() ==> {
                &&& r is Ok
                &&& u1_bits(final(buf)@) == old(self).readable().take(old(buf)@.len() as int)
                &&& Self::read_step(old(self), final(self), old(buf)@.len())
            },
            old(buf)@.len() > old(self).readable().len() ==> {
                &&& r == Err::<(), BitIoError>(BitIoError::UnexpectedEnd)
                &&& final(buf)@ == old(buf)@
                &&& Self::read_step(old(self), final(self), 0)
            },
    ;
}

} // verus!
