//! Bit-level stream codec: fixed-width integers are laid out as a flat
//! sequence of bits and read back in chunks of any width.

pub mod numeral;
pub mod width;
pub mod bits;
pub mod counter;

pub use bits::{Bits, Endianness, ReadError};
pub use counter::Counter;
pub use width::FixedWidth;
