//! The register file: eight 8-bit registers packed as four 16-bit pairs.
//! The low byte of the AF pair is the flag register; only its top four bits
//! (Zero, Subtract, Half-carry, Carry, high to low) ever carry data, and its
//! bottom four bits are always zero.

use vstd::prelude::*;
use crate::number_types::d8_type::d8;
use crate::number_types::d16_type::d16;
use crate::cpu::CpuMode;

verus! {

/// The 8-bit register names. The flag register `F` may not be addressed as
/// a single register: every indexed access excludes it by precondition.
#[allow(non_camel_case_types)]
#[derive(Copy, Clone, Debug, PartialEq, Eq, Structural)]
pub enum r8 {
    F,
    A,
    C,
    B,
    E,
    D,
    L,
    H,
}

/// The 16-bit register-pair names. The first-named register of a pair is
/// its high byte.
#[allow(non_camel_case_types)]
#[derive(Copy, Clone, Debug, PartialEq, Eq, Structural)]
pub enum r16 {
    AF,
    BC,
    DE,
    HL,
}

/// The four condition flags, each one bit of the flag register: Zero,
/// Subtract, Half-carry and Carry.
#[derive(Copy, Clone, Debug, PartialEq, Eq, Structural)]
pub enum Flags {
    Z,
    N,
    H,
    C,
}

/// The four branch conditions: Zero set, Zero clear, Carry set, Carry clear.
#[derive(Copy, Clone, Debug, PartialEq, Eq, Structural)]
pub enum Conditions {
    Z,
    NZ,
    C,
    NC,
}

/// Packs four condition bits into a flag byte: Zero in bit 7, Subtract in
/// bit 6, Half-carry in bit 5, Carry in bit 4; the low nibble is zero.
pub open spec fn flags_byte(z: bool, n: bool, h: bool, c: bool) -> u8 {
    ((if z {
        128int
    } else {
        0int
    }) + (if n {
        64int
    } else {
        0int
    }) + (if h {
        32int
    } else {
        0int
    }) + (if c {
        16int
    } else {
        0int
    })) as u8
}

/// Bit 7 of a flag byte: the Zero flag.
pub open spec fn flag_z_of(f: u8) -> bool {
    f / 128 % 2 == 1
}

/// Bit 6 of a flag byte: the Subtract flag.
pub open spec fn flag_n_of(f: u8) -> bool {
    f / 64 % 2 == 1
}

/// Bit 5 of a flag byte: the Half-carry flag.
pub open spec fn flag_h_of(f: u8) -> bool {
    f / 32 % 2 == 1
}

/// Bit 4 of a flag byte: the Carry flag.
pub open spec fn flag_c_of(f: u8) -> bool {
    f / 16 % 2 == 1
}

/// Reading a bit back out of a packed flag byte yields the bit that was
/// packed in.
pub broadcast proof fn lemma_flags_byte_bits(z: bool, n: bool, h: bool, c: bool)
    ensures
        flag_z_of(#[trigger] flags_byte(z, n, h, c)) == z,
        flag_n_of(flags_byte(z, n, h, c)) == n,
        flag_h_of(flags_byte(z, n, h, c)) == h,
        flag_c_of(flags_byte(z, n, h, c)) == c,
{
}

/// An overriding flag value: `Some` replaces the bit, `None` keeps it.
pub open spec fn pick_flag(o: Option<bool>, current: bool) -> bool {
    match o {
        Some(v) => v,
        None => current,
    }
}

/// Replacing the flag byte yields exactly that byte back: the rest of the
/// AF pair does not bleed into it.
pub broadcast proof fn lemma_with_flags_value(regs: Registers, f: u8)
    ensures
        (#[trigger] regs.with_flags(f)).spec_flags() == f,
{
    vstd::arithmetic::div_mod::lemma_mod_multiples_vanish(regs.af.0 as int / 256, f as int, 256);
    vstd::arithmetic::div_mod::lemma_small_mod(f as nat, 256);
}

/// Writing an 8-bit register leaves the flag byte alone — unless the
/// target is the flag register itself, which it replaces.
pub broadcast proof fn lemma_with_r8_flags(regs: Registers, reg: r8, v: u8)
    ensures
        (#[trigger] regs.with_r8(reg, v)).spec_flags() == (match reg {
            r8::F => v,
            _ => regs.spec_flags(),
        }),
{
    match reg {
        r8::F => {
            vstd::arithmetic::div_mod::lemma_mod_multiples_vanish(regs.af.0 as int / 256, v as int, 256);
            vstd::arithmetic::div_mod::lemma_small_mod(v as nat, 256);
        },
        r8::A => {
            vstd::arithmetic::div_mod::lemma_mod_multiples_vanish(
                v as int,
                (regs.af.0 % 256) as int,
                256,
            );
            vstd::arithmetic::div_mod::lemma_small_mod((regs.af.0 % 256) as nat, 256);
        },
        _ => {},
    }
}

/// The register file: four 16-bit pairs backing eight 8-bit registers.
#[derive(Copy, Clone, Debug, PartialEq, Eq, Structural)]
pub struct Registers {
    pub af: d16,
    pub bc: d16,
    pub de: d16,
    pub hl: d16,
}

/// The initial register-file contents of each hardware revision.
pub open spec fn initial_regs(mode: CpuMode) -> Registers {
    match mode {
        CpuMode::DMG => (Registers {
            af: d16(0x01b0),
            bc: d16(0x0013),
            de: d16(0x00d8),
            hl: d16(0x014d),
        }),
        CpuMode::MGB => (Registers {
            af: d16(0xffb0),
            bc: d16(0x0013),
            de: d16(0x00d8),
            hl: d16(0x014d),
        }),
        CpuMode::CGB => (Registers {
            af: d16(0x1180),
            bc: d16(0x0000),
            de: d16(0x0008),
            hl: d16(0x007c),
        }),
    }
}

impl Registers {
    /// The packed flag byte: the low byte of the AF pair.
    pub open spec fn spec_flags(self) -> u8 {
        (self.af.0 % 256) as u8
    }

    /// Well-formedness: the low nibble of the flag byte is zero.
    pub open spec fn wf(self) -> bool {
        self.af.0 % 16 == 0
    }

    /// The value of one condition flag.
    pub open spec fn spec_flag(self, flag: Flags) -> bool {
        match flag {
            Flags::Z => flag_z_of(self.spec_flags()),
            Flags::N => flag_n_of(self.spec_flags()),
            Flags::H => flag_h_of(self.spec_flags()),
            Flags::C => flag_c_of(self.spec_flags()),
        }
    }

    /// The register file with the flag byte replaced.
    pub open spec fn with_flags(self, f: u8) -> Registers {
        Registers { af: d16(((self.af.0 / 256) * 256 + f) as u16), ..self }
    }

    /// The register file with one condition flag replaced.
    pub open spec fn with_flag(self, flag: Flags, value: bool) -> Registers {
        let f = self.spec_flags();
        let z = if flag is Z {
            value
        } else {
            flag_z_of(f)
        };
        let n = if flag is N {
            value
        } else {
            flag_n_of(f)
        };
        let h = if flag is H {
            value
        } else {
            flag_h_of(f)
        };
        let c = if flag is C {
            value
        } else {
            flag_c_of(f)
        };
        self.with_flags(flags_byte(z, n, h, c))
    }

    /// The register file after an optional update of each condition flag,
    /// given in Zero, Subtract, Half-carry, Carry order.
    pub open spec fn with_maybe_flags(
        self,
        z: Option<bool>,
        n: Option<bool>,
        h: Option<bool>,
        c: Option<bool>,
    ) -> Registers {
        let f = self.spec_flags();
        self.with_flags(
            flags_byte(
                pick_flag(z, flag_z_of(f)),
                pick_flag(n, flag_n_of(f)),
                pick_flag(h, flag_h_of(f)),
                pick_flag(c, flag_c_of(f)),
            ),
        )
    }

    /// The value of one 8-bit register. For `F` this reads the flag byte,
    /// but executable indexing excludes `F` by precondition.
    pub open spec fn spec_r8(self, reg: r8) -> u8 {
        match reg {
            r8::F => (self.af.0 % 256) as u8,
            r8::A => (self.af.0 / 256) as u8,
            r8::C => (self.bc.0 % 256) as u8,
            r8::B => (self.bc.0 / 256) as u8,
            r8::E => (self.de.0 % 256) as u8,
            r8::D => (self.de.0 / 256) as u8,
            r8::L => (self.hl.0 % 256) as u8,
            r8::H => (self.hl.0 / 256) as u8,
        }
    }

    /// The register file with one 8-bit register replaced; the other half
    /// of its pair keeps its value.
    pub open spec fn with_r8(self, reg: r8, v: u8) -> Registers {
        match reg {
            r8::F => Registers { af: d16(((self.af.0 / 256) * 256 + v) as u16), ..self },
            r8::A => Registers { af: d16((v * 256 + self.af.0 % 256) as u16), ..self },
            r8::C => Registers { bc: d16(((self.bc.0 / 256) * 256 + v) as u16), ..self },
            r8::B => Registers { bc: d16((v * 256 + self.bc.0 % 256) as u16), ..self },
            r8::E => Registers { de: d16(((self.de.0 / 256) * 256 + v) as u16), ..self },
            r8::D => Registers { de: d16((v * 256 + self.de.0 % 256) as u16), ..self },
            r8::L => Registers { hl: d16(((self.hl.0 / 256) * 256 + v) as u16), ..self },
            r8::H => Registers { hl: d16((v * 256 + self.hl.0 % 256) as u16), ..self },
        }
    }

    /// The value of one 16-bit register pair.
    pub open spec fn spec_r16(self, reg: r16) -> u16 {
        match reg {
            r16::AF => self.af.0,
            r16::BC => self.bc.0,
            r16::DE => self.de.0,
            r16::HL => self.hl.0,
        }
    }

    /// The register file with one 16-bit pair replaced. Writing AF clears
    /// the low nibble of the flag byte, which never carries data.
    pub open spec fn with_r16(self, reg: r16, v: u16) -> Registers {
        match reg {
            r16::AF => Registers { af: d16(((v / 16) * 16) as u16), ..self },
            r16::BC => Registers { bc: d16(v), ..self },
            r16::DE => Registers { de: d16(v), ..self },
            r16::HL => Registers { hl: d16(v), ..self },
        }
    }

    /// Whether one branch condition holds of the current flags.
    pub open spec fn spec_check(self, cond: Conditions) -> bool {
        match cond {
            Conditions::Z => self.spec_flag(Flags::Z),
            Conditions::NZ => !self.spec_flag(Flags::Z),
            Conditions::C => self.spec_flag(Flags::C),
            Conditions::NC => !self.spec_flag(Flags::C),
        }
    }

    /// A register file holding the initial values of the given hardware
    /// revision.
    pub fn new(mode: CpuMode) -> (r: Registers)
        ensures
            r == initial_regs(mode),
            r.wf(),
    {
        match mode {
            CpuMode::DMG => Registers {
                af: d16(0x01b0),
                bc: d16(0x0013),
                de: d16(0x00d8),
                hl: d16(0x014d),
            },
            CpuMode::MGB => Registers {
                af: d16(0xffb0),
                bc: d16(0x0013),
                de: d16(0x00d8),
                hl: d16(0x014d),
            },
            CpuMode::CGB => Registers {
                af: d16(0x1180),
                bc: d16(0x0000),
                de: d16(0x0008),
                hl: d16(0x007c),
            },
        }
    }

    /// The packed flag byte.
    pub fn flags_register(&self) -> (r: d8)
        ensures
            r.0 == self.spec_flags(),
    {
        d8((self.af.0 % 256) as u8)
    }

    /// Reads one condition flag.
    pub fn get_flag(&self, flag: Flags) -> (r: bool)
        ensures
            r == self.spec_flag(flag),
    {
        let f: u8 = (self.af.0 % 256) as u8;
        match flag {
            Flags::Z => f / 128 % 2 == 1,
            Flags::N => f / 64 % 2 == 1,
            Flags::H => f / 32 % 2 == 1,
            Flags::C => f / 16 % 2 == 1,
        }
    }

    /// Sets one condition flag, leaving the other three unchanged.
    pub fn set_flag(&mut self, flag: Flags, value: bool)
        ensures
            *final(self) == old(self).with_flag(flag, value),
            final(self).wf(),
    {
        let f: u8 = (self.af.0 % 256) as u8;
        let z: bool = f / 128 % 2 == 1;
        let n: bool = f / 64 % 2 == 1;
        let h: bool = f / 32 % 2 == 1;
        let c: bool = f / 16 % 2 == 1;
        let nf: u8 = match flag {
            Flags::Z => Self::pack_flags(value, n, h, c),
            Flags::N => Self::pack_flags(z, value, h, c),
            Flags::H => Self::pack_flags(z, n, value, c),
            Flags::C => Self::pack_flags(z, n, h, value),
        };
        self.af = d16((self.af.0 / 256) * 256 + nf as u16);
    }

    /// Applies the flag updates that are present, in Zero, Subtract,
    /// Half-carry, Carry order; an absent entry leaves its flag untouched.
    /// Instructions that do not affect a flag pass `None` for it.
    #[verifier::rlimit(100)]
    pub fn set_maybe_flags(&mut self, flags: [Option<bool>; 4])
        ensures
            *final(self) == old(self).with_maybe_flags(flags[0], flags[1], flags[2], flags[3]),
            final(self).wf(),
    {
        let f: u8 = (self.af.0 % 256) as u8;
        let z: bool = match flags[0] {
            Some(v) => v,
            None => f / 128 % 2 == 1,
        };
        let n: bool = match flags[1] {
            Some(v) => v,
            None => f / 64 % 2 == 1,
        };
        let h: bool = match flags[2] {
            Some(v) => v,
            None => f / 32 % 2 == 1,
        };
        let c: bool = match flags[3] {
            Some(v) => v,
            None => f / 16 % 2 == 1,
        };
        let nf: u8 = Self::pack_flags(z, n, h, c);
        self.af = d16((self.af.0 / 256) * 256 + nf as u16);
    }

    /// Packs four condition bits into a flag byte.
    fn pack_flags(z: bool, n: bool, h: bool, c: bool) -> (r: u8)
        ensures
            r == flags_byte(z, n, h, c),
    {
        (if z {
            128u8
        } else {
            0u8
        }) + (if n {
            64u8
        } else {
            0u8
        }) + (if h {
            32u8
        } else {
            0u8
        }) + (if c {
            16u8
        } else {
            0u8
        })
    }

    /// Tests one branch condition against the current flags.
    pub fn check_condition(&self, cond: Conditions) -> (r: bool)
        ensures
            r == self.spec_check(cond),
    {
        match cond {
            Conditions::Z => self.get_flag(Flags::Z),
            Conditions::NZ => !(self.get_flag(Flags::Z)),
            Conditions::C => self.get_flag(Flags::C),
            Conditions::NC => !(self.get_flag(Flags::C)),
        }
    }

    /// Reads one 8-bit register. The flag register is not addressable here.
    pub fn get_r8(&self, reg: r8) -> (v: d8)
        requires
            reg != r8::F,
        ensures
            v.0 == self.spec_r8(reg),
    {
        match reg {
            r8::F => d8((self.af.0 % 256) as u8),
            r8::A => d8((self.af.0 / 256) as u8),
            r8::C => d8((self.bc.0 % 256) as u8),
            r8::B => d8((self.bc.0 / 256) as u8),
            r8::E => d8((self.de.0 % 256) as u8),
            r8::D => d8((self.de.0 / 256) as u8),
            r8::L => d8((self.hl.0 % 256) as u8),
            r8::H => d8((self.hl.0 / 256) as u8),
        }
    }

    /// Writes one 8-bit register; the other half of its pair is unchanged.
    /// The flag register is not addressable here.
    pub fn set_r8(&mut self, reg: r8, v: d8)
        requires
            reg != r8::F,
        ensures
            *final(self) == old(self).with_r8(reg, v.0),
    {
        match reg {
            r8::F => {
                self.af = d16((self.af.0 / 256) * 256 + v.0 as u16);
            },
            r8::A => {
                self.af = d16(v.0 as u16 * 256 + self.af.0 % 256);
            },
            r8::C => {
                self.bc = d16((self.bc.0 / 256) * 256 + v.0 as u16);
            },
            r8::B => {
                self.bc = d16(v.0 as u16 * 256 + self.bc.0 % 256);
            },
            r8::E => {
                self.de = d16((self.de.0 / 256) * 256 + v.0 as u16);
            },
            r8::D => {
                self.de = d16(v.0 as u16 * 256 + self.de.0 % 256);
            },
            r8::L => {
                self.hl = d16((self.hl.0 / 256) * 256 + v.0 as u16);
            },
            r8::H => {
                self.hl = d16(v.0 as u16 * 256 + self.hl.0 % 256);
            },
        }
    }

    /// Reads one 16-bit register pair.
    pub fn get_r16(&self, reg: r16) -> (v: d16)
        ensures
            v.0 == self.spec_r16(reg),
    {
        match reg {
            r16::AF => self.af,
            r16::BC => self.bc,
            r16::DE => self.de,
            r16::HL => self.hl,
        }
    }

    /// Writes one 16-bit register pair. Writing AF keeps the low nibble of
    /// the flag byte clear.
    pub fn set_r16(&mut self, reg: r16, v: d16)
        ensures
            *final(self) == old(self).with_r16(reg, v.0),
    {
        match reg {
            r16::AF => {
                self.af = d16((v.0 / 16) * 16);
            },
            r16::BC => {
                self.bc = v;
            },
            r16::DE => {
                self.de = v;
            },
            r16::HL => {
                self.hl = v;
            },
        }
    }
}

} // verus!
