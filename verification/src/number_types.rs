//! Wrapping 8-bit and 16-bit data values and the two address flavours the
//! CPU uses: full 16-bit addresses and 8-bit offsets into the high page.

pub mod d8_type;

pub mod d16_type;

pub mod a8_type;

pub mod a16_type;
