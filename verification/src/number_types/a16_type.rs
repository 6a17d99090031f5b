use vstd::prelude::*;
use crate::number_types::d8_type::d8;
use crate::number_types::d16_type::d16;
use crate::number_types::d16_type::word_add;
use crate::number_types::d16_type::word_add_signed;

verus! {

/// A 16-bit memory address. Address arithmetic wraps modularly, so walking
/// past the end of the space comes back to the start rather than failing.
#[allow(non_camel_case_types)]
#[derive(Copy, Clone, Debug, PartialEq, Eq, Structural)]
pub struct a16(pub u16);

impl a16 {
    /// Reinterprets a data word as an address.
    pub fn from_d16(v: d16) -> (r: Self)
        ensures
            r.0 == v.0,
    {
        a16(v.0)
    }

    /// Reinterprets an address as a data word.
    pub fn to_d16(self) -> (r: d16)
        ensures
            r.0 == self.0,
    {
        d16(self.0)
    }

    /// The address a fixed number of bytes further on, wrapping at the end
    /// of the space.
    pub fn offset(self, n: u16) -> (r: Self)
        ensures
            r.0 == word_add(self.0, n),
    {
        a16(((self.0 as u32 + n as u32) % 65536) as u16)
    }

    /// The address a signed displacement away: the byte is read as a two's-
    /// complement offset and added with wrapping 16-bit arithmetic.
    pub fn add_signed(self, dsp: d8) -> (r: Self)
        ensures
            r.0 == word_add_signed(self.0, dsp.0),
    {
        if dsp.0 < 128 {
            a16(((self.0 as u32 + dsp.0 as u32) % 65536) as u16)
        } else {
            a16(((self.0 as u32 + dsp.0 as u32 + 0xff00) % 65536) as u16)
        }
    }
}

} // verus!
