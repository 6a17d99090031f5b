use vstd::prelude::*;
use crate::number_types::d8_type::d8;

verus! {

/// Modular 16-bit addition: the result wraps at 65536.
pub open spec fn word_add(a: u16, b: u16) -> u16 {
    ((a + b) % 65536) as u16
}

/// Modular 16-bit subtraction: the result wraps below zero.
pub open spec fn word_sub(a: u16, b: u16) -> u16 {
    ((a - b) % 65536) as u16
}

/// The low byte of a word.
pub open spec fn lsb_of(w: u16) -> u8 {
    (w % 256) as u8
}

/// The high byte of a word.
pub open spec fn msb_of(w: u16) -> u8 {
    (w / 256) as u8
}

/// The word whose low byte is `lo` and whose high byte is `hi`.
pub open spec fn word_of(lo: u8, hi: u8) -> u16 {
    (hi * 256 + lo) as u16
}

/// Adding a byte interpreted as a signed two's-complement displacement to a
/// word, wrapping at 65536: displacements of 128 and above reach backwards.
pub open spec fn word_add_signed(w: u16, d: u8) -> u16 {
    if d < 128 {
        ((w + d) % 65536) as u16
    } else {
        ((w + d + 0xff00) % 65536) as u16
    }
}

/// Half-carry rule for 16-bit addition: only the lower nibble of each low
/// byte takes part, held against the nibble-width threshold.
pub open spec fn word_nibble_carry(a: u16, b: u16) -> bool {
    a % 16 + b % 16 > 8
}

/// A 16-bit data value. All arithmetic on it is modular (mod 65536); no
/// operation fails or panics on overflow. It decomposes losslessly into two
/// bytes, low byte first, and reconstructs losslessly from them.
#[allow(non_camel_case_types)]
#[derive(Copy, Clone, Debug, PartialEq, Eq, Structural)]
pub struct d16(pub u16);

impl d16 {
    /// The least significant byte of the word.
    pub fn lsb(self) -> (r: d8)
        ensures
            r.0 == lsb_of(self.0),
    {
        d8((self.0 % 256) as u8)
    }

    /// The most significant byte of the word.
    pub fn msb(self) -> (r: d8)
        ensures
            r.0 == msb_of(self.0),
    {
        d8((self.0 / 256) as u8)
    }

    /// Rebuilds a word from its two bytes, low byte first.
    pub fn from_bytes(lo: d8, hi: d8) -> (r: Self)
        ensures
            r.0 == word_of(lo.0, hi.0),
    {
        d16(hi.0 as u16 * 256 + lo.0 as u16)
    }

    /// The lowest four bits of the word.
    pub fn least_significant_nibble(self) -> (r: d8)
        ensures
            r.0 == lower_nibble_of_word(self.0),
    {
        d8((self.0 % 16) as u8)
    }

    /// Half-carry test for `lhs + rhs` on the words' low nibbles.
    pub fn check_nibble_overflow(lhs: Self, rhs: Self) -> (r: bool)
        ensures
            r == word_nibble_carry(lhs.0, rhs.0),
    {
        lhs.0 % 16 + rhs.0 % 16 > 8
    }

    /// Wrapping addition together with the carry out of bit 15.
    pub fn add_and_check_overflow(lhs: Self, rhs: Self) -> (r: (Self, bool))
        ensures
            r.0.0 == word_add(lhs.0, rhs.0),
            r.1 == (lhs.0 + rhs.0 > 65535),
    {
        let sum: u32 = lhs.0 as u32 + rhs.0 as u32;
        (d16((sum % 65536) as u16), sum > 65535)
    }

    /// Wrapping addition of a plain word amount.
    pub fn wrapping_add_u16(self, n: u16) -> (r: Self)
        ensures
            r.0 == word_add(self.0, n),
    {
        d16(((self.0 as u32 + n as u32) % 65536) as u16)
    }

    /// Wrapping subtraction of a plain word amount.
    pub fn wrapping_sub_u16(self, n: u16) -> (r: Self)
        ensures
            r.0 == word_sub(self.0, n),
    {
        if self.0 >= n {
            d16(self.0 - n)
        } else {
            d16(((65536 + self.0 as u32 - n as u32)) as u16)
        }
    }
}

/// The lowest four bits of a word.
pub open spec fn lower_nibble_of_word(w: u16) -> u8 {
    (w % 16) as u8
}

/// Splitting a word into its two bytes and recomposing them yields the word
/// unchanged: the low-byte-first decomposition is lossless.
pub proof fn lemma_word_bytes_round_trip(w: u16)
    ensures
        word_of(lsb_of(w), msb_of(w)) == w,
{
    vstd::arithmetic::div_mod::lemma_fundamental_div_mod(w as int, 256);
}

/// Recomposition inverts decomposition in the other direction as well: the
/// two bytes of `word_of(lo, hi)` are `lo` and `hi`.
pub proof fn lemma_bytes_word_round_trip(lo: u8, hi: u8)
    ensures
        lsb_of(word_of(lo, hi)) == lo,
        msb_of(word_of(lo, hi)) == hi,
{
    let w = hi * 256 + lo;
    vstd::arithmetic::div_mod::lemma_fundamental_div_mod(w as int, 256);
}

} // verus!
