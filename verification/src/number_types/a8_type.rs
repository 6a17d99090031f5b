use vstd::prelude::*;
use crate::number_types::d8_type::d8;
use crate::number_types::a16_type::a16;

verus! {

/// The base of the high page: a short address names a byte in the span
/// starting here.
pub const HIGH_PAGE_BASE: u16 = 0xff00;

/// An 8-bit short address: an offset into the fixed high page of memory.
/// Widening a short address to a long one always succeeds and is exact.
#[allow(non_camel_case_types)]
#[derive(Copy, Clone, Debug, PartialEq, Eq, Structural)]
pub struct a8(pub u8);

impl a8 {
    /// Reinterprets a data byte as a short address.
    pub fn from_d8(v: d8) -> (r: Self)
        ensures
            r.0 == v.0,
    {
        a8(v.0)
    }

    /// Reinterprets a short address as a data byte.
    pub fn to_d8(self) -> (r: d8)
        ensures
            r.0 == self.0,
    {
        d8(self.0)
    }

    /// The long address this short address names: the offset laid onto the
    /// high page. Exact for every offset, since the page ends the space.
    pub fn to_a16(self) -> (r: a16)
        ensures
            r.0 == HIGH_PAGE_BASE + self.0,
    {
        a16(HIGH_PAGE_BASE + self.0 as u16)
    }
}

} // verus!
