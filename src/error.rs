use vstd::prelude::*;

verus! {

/// The error returned when a requested bit range does not fit the backing bytes.
#[derive(Debug, PartialEq, Eq, Structural)]
pub enum B3Error {
    /// `len` is the number of backing bytes, `slice_start` and `slice_end` the first and
    /// last byte index that the range asked for.
    SliceOutOfRange { len: usize, slice_start: usize, slice_end: usize },
}

pub type B3Result<T> = Result<T, B3Error>;

/// The error of the streaming read, write and seek operations.
#[derive(Debug, PartialEq, Eq, Structural, Clone, Copy)]
pub enum BitIoError {
    /// An exact read or write needed more bits than remain.
    UnexpectedEnd,
    /// A seek would move to a negative position or one that overflows.
    InvalidSeek,
}

} // verus!
