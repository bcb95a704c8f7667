//! Bit-addressable buffers, slices and cursors, with codecs for unsigned
//! integers of 1 to 32 bits.
pub mod bit_buffer;
pub mod bit_cursor;
pub mod bit_read;
pub mod bit_read_exts;
pub mod bit_traits;
pub mod bit_vec;
pub mod bit_write;
pub mod bit_write_exts;
pub mod byte_order;
pub mod error;
pub mod slice;
pub mod util;
