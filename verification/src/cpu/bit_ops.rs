//! Bitwise and rotate instructions. The accumulator logic group sets Zero
//! from the result, sets Half-carry only for AND, and clears Carry. The
//! rotate group clears Zero unconditionally — a documented chip quirk, the
//! flag is not computed from the result — and moves the bit shifted out
//! into Carry; the through-carry forms move the old Carry into the bit
//! vacated at the other end. The complement instruction flips every bit of
//! a register and forces Subtract and Half-carry on, leaving Zero and
//! Carry alone.

use vstd::prelude::*;
use crate::number_types::d8_type::d8;
use crate::cpu::Cpu;
use crate::cpu::CpuView;
use crate::cpu::registers::r8;
use crate::cpu::registers::Flags;

verus! {

impl Cpu {
    /// The state after `AND r8`: the accumulator masked with the source.
    /// Zero from the result, Subtract clear, Half-carry set, Carry clear;
    /// cost 4.
    pub open spec fn spec_and_r8(pre: CpuView, source: r8) -> CpuView {
        let result = pre.regs.spec_r8(r8::A) & pre.regs.spec_r8(source);
        let regs = pre.regs.with_r8(r8::A, result).with_maybe_flags(
            Some(result == 0),
            Some(false),
            Some(true),
            Some(false),
        );
        pre.with_regs(regs).with_cycles(4)
    }

    /// Bitwise-ands one 8-bit register into the accumulator.
    pub fn and_r8(&mut self, source: r8)
        requires
            source != r8::F,
            old(self)@.wf(),
            old(self).cycle_count + 24 <= u64::MAX,
        ensures
            final(self)@ == Self::spec_and_r8(old(self)@, source),
            final(self)@.wf(),
    {
        let result = d8(self.gp_registers.get_r8(r8::A).0 & self.gp_registers.get_r8(source).0);
        self.gp_registers.set_r8(r8::A, result);
        self.gp_registers.set_maybe_flags(
            [Some(result.0 == 0), Some(false), Some(true), Some(false)],
        );
        self.cycle(4);
    }

    /// The state after `XOR r8`: the accumulator exclusive-ored with the
    /// source. Zero from the result, the other flags clear; cost 4.
    pub open spec fn spec_xor_r8(pre: CpuView, source: r8) -> CpuView {
        let result = pre.regs.spec_r8(r8::A) ^ pre.regs.spec_r8(source);
        let regs = pre.regs.with_r8(r8::A, result).with_maybe_flags(
            Some(result == 0),
            Some(false),
            Some(false),
            Some(false),
        );
        pre.with_regs(regs).with_cycles(4)
    }

    /// Bitwise-xors one 8-bit register into the accumulator.
    pub fn xor_r8(&mut self, source: r8)
        requires
            source != r8::F,
            old(self)@.wf(),
            old(self).cycle_count + 24 <= u64::MAX,
        ensures
            final(self)@ == Self::spec_xor_r8(old(self)@, source),
            final(self)@.wf(),
    {
        let result = d8(self.gp_registers.get_r8(r8::A).0 ^ self.gp_registers.get_r8(source).0);
        self.gp_registers.set_r8(r8::A, result);
        self.gp_registers.set_maybe_flags(
            [Some(result.0 == 0), Some(false), Some(false), Some(false)],
        );
        self.cycle(4);
    }

    /// The state after `OR r8`: the accumulator ored with the source.
    /// Zero from the result, the other flags clear; cost 4.
    pub open spec fn spec_or_r8(pre: CpuView, source: r8) -> CpuView {
        let result = pre.regs.spec_r8(r8::A) | pre.regs.spec_r8(source);
        let regs = pre.regs.with_r8(r8::A, result).with_maybe_flags(
            Some(result == 0),
            Some(false),
            Some(false),
            Some(false),
        );
        pre.with_regs(regs).with_cycles(4)
    }

    /// Bitwise-ors one 8-bit register into the accumulator.
    pub fn or_r8(&mut self, source: r8)
        requires
            source != r8::F,
            old(self)@.wf(),
            old(self).cycle_count + 24 <= u64::MAX,
        ensures
            final(self)@ == Self::spec_or_r8(old(self)@, source),
            final(self)@.wf(),
    {
        let result = d8(self.gp_registers.get_r8(r8::A).0 | self.gp_registers.get_r8(source).0);
        self.gp_registers.set_r8(r8::A, result);
        self.gp_registers.set_maybe_flags(
            [Some(result.0 == 0), Some(false), Some(false), Some(false)],
        );
        self.cycle(4);
    }

    /// The state after a `RLCA`-style rotate: the register shifted left
    /// one bit, the bit shifted out of position 7 landing in Carry. Zero,
    /// Subtract and Half-carry are cleared unconditionally; cost 4.
    pub open spec fn spec_rotate_left_carry(pre: CpuView, reg: r8) -> CpuView {
        let v = pre.regs.spec_r8(reg);
        let regs = pre.regs.with_r8(reg, ((v % 128) * 2) as u8).with_maybe_flags(
            Some(false),
            Some(false),
            Some(false),
            Some(v >= 128),
        );
        pre.with_regs(regs).with_cycles(4)
    }

    /// Rotates a register left through the Carry flag's position: the top
    /// bit moves into Carry.
    pub fn rotate_left_carry(&mut self, reg: r8)
        requires
            reg != r8::F,
            old(self)@.wf(),
            old(self).cycle_count + 24 <= u64::MAX,
        ensures
            final(self)@ == Self::spec_rotate_left_carry(old(self)@, reg),
            final(self)@.wf(),
    {
        let v = self.gp_registers.get_r8(reg);
        let carry_out = v.0 >= 128;
        self.gp_registers.set_r8(reg, d8((v.0 % 128) * 2));
        self.gp_registers.set_maybe_flags(
            [Some(false), Some(false), Some(false), Some(carry_out)],
        );
        self.cycle(4);
    }

    /// The state after a `RRCA`-style rotate: the register shifted right
    /// one bit, the bit shifted out of position 0 landing in Carry. Zero,
    /// Subtract and Half-carry are cleared unconditionally; cost 4.
    pub open spec fn spec_rotate_right_carry(pre: CpuView, reg: r8) -> CpuView {
        let v = pre.regs.spec_r8(reg);
        let regs = pre.regs.with_r8(reg, (v / 2) as u8).with_maybe_flags(
            Some(false),
            Some(false),
            Some(false),
            Some(v % 2 == 1),
        );
        pre.with_regs(regs).with_cycles(4)
    }

    /// Rotates a register right through the Carry flag's position: the
    /// bottom bit moves into Carry.
    pub fn rotate_right_carry(&mut self, reg: r8)
        requires
            reg != r8::F,
            old(self)@.wf(),
            old(self).cycle_count + 24 <= u64::MAX,
        ensures
            final(self)@ == Self::spec_rotate_right_carry(old(self)@, reg),
            final(self)@.wf(),
    {
        let v = self.gp_registers.get_r8(reg);
        let carry_out = v.0 % 2 == 1;
        self.gp_registers.set_r8(reg, d8(v.0 / 2));
        self.gp_registers.set_maybe_flags(
            [Some(false), Some(false), Some(false), Some(carry_out)],
        );
        self.cycle(4);
    }

    /// The state after a `RLA`-style rotate through Carry: the register
    /// shifted left one bit, the old Carry entering at position 0 and the
    /// bit shifted out of position 7 becoming the new Carry. Zero,
    /// Subtract and Half-carry are cleared unconditionally; cost 4.
    pub open spec fn spec_rotate_left(pre: CpuView, reg: r8) -> CpuView {
        let v = pre.regs.spec_r8(reg);
        let carry_in: u8 = if pre.regs.spec_flag(Flags::C) {
            1
        } else {
            0
        };
        let regs = pre.regs.with_r8(reg, ((v % 128) * 2 + carry_in) as u8).with_maybe_flags(
            Some(false),
            Some(false),
            Some(false),
            Some(v >= 128),
        );
        pre.with_regs(regs).with_cycles(4)
    }

    /// Rotates a register left, moving the Carry flag into the bottom bit
    /// and the top bit into Carry.
    pub fn rotate_left(&mut self, reg: r8)
        requires
            reg != r8::F,
            old(self)@.wf(),
            old(self).cycle_count + 24 <= u64::MAX,
        ensures
            final(self)@ == Self::spec_rotate_left(old(self)@, reg),
            final(self)@.wf(),
    {
        let v = self.gp_registers.get_r8(reg);
        let carry_in: u8 = if self.gp_registers.get_flag(Flags::C) {
            1
        } else {
            0
        };
        let carry_out = v.0 >= 128;
        self.gp_registers.set_r8(reg, d8((v.0 % 128) * 2 + carry_in));
        self.gp_registers.set_maybe_flags(
            [Some(false), Some(false), Some(false), Some(carry_out)],
        );
        self.cycle(4);
    }

    /// The state after a `RRA`-style rotate through Carry: the register
    /// shifted right one bit, the old Carry entering at position 7 and
    /// the bit shifted out of position 0 becoming the new Carry. Zero,
    /// Subtract and Half-carry are cleared unconditionally; cost 4.
    pub open spec fn spec_rotate_right(pre: CpuView, reg: r8) -> CpuView {
        let v = pre.regs.spec_r8(reg);
        let carry_in: u8 = if pre.regs.spec_flag(Flags::C) {
            128
        } else {
            0
        };
        let regs = pre.regs.with_r8(reg, (v / 2 + carry_in) as u8).with_maybe_flags(
            Some(false),
            Some(false),
            Some(false),
            Some(v % 2 == 1),
        );
        pre.with_regs(regs).with_cycles(4)
    }

    /// Rotates a register right, moving the Carry flag into the top bit
    /// and the bottom bit into Carry.
    pub fn rotate_right(&mut self, reg: r8)
        requires
            reg != r8::F,
            old(self)@.wf(),
            old(self).cycle_count + 24 <= u64::MAX,
        ensures
            final(self)@ == Self::spec_rotate_right(old(self)@, reg),
            final(self)@.wf(),
    {
        let v = self.gp_registers.get_r8(reg);
        let carry_in: u8 = if self.gp_registers.get_flag(Flags::C) {
            128
        } else {
            0
        };
        let carry_out = v.0 % 2 == 1;
        self.gp_registers.set_r8(reg, d8(v.0 / 2 + carry_in));
        self.gp_registers.set_maybe_flags(
            [Some(false), Some(false), Some(false), Some(carry_out)],
        );
        self.cycle(4);
    }

    /// The state after `CPL`-style complement: every bit of the register
    /// flipped. Subtract and Half-carry are forced on; Zero and Carry are
    /// unchanged; cost 4.
    pub open spec fn spec_compliment_r8(pre: CpuView, reg: r8) -> CpuView {
        let flagged = pre.regs.with_maybe_flags(None, Some(true), Some(true), None);
        let regs = flagged.with_r8(reg, (255 - flagged.spec_r8(reg)) as u8);
        pre.with_regs(regs).with_cycles(4)
    }

    /// Flips every bit of a register.
    pub fn compliment_r8(&mut self, reg: r8)
        requires
            reg != r8::F,
            old(self)@.wf(),
            old(self).cycle_count + 24 <= u64::MAX,
        ensures
            final(self)@ == Self::spec_compliment_r8(old(self)@, reg),
            final(self)@.wf(),
    {
        self.gp_registers.set_maybe_flags([None, Some(true), Some(true), None]);
        let v = self.gp_registers.get_r8(reg);
        self.gp_registers.set_r8(reg, d8(255 - v.0));
        self.cycle(4);
    }
}

} // verus!
