//! Addition instructions. The 8-bit forms set all four flags from the
//! result; the 16-bit forms into a register pair leave Zero untouched — a
//! documented asymmetry — and compute Half-carry from the low bytes'
//! nibbles and Carry from the carry out of the pair's high bit. The
//! stack-pointer form adds a signed displacement and clears Zero and
//! Subtract.

use vstd::prelude::*;
use crate::number_types::d8_type::d8;
use crate::number_types::d8_type::byte_add;
use crate::number_types::d8_type::byte_nibble_carry;
use crate::number_types::d16_type::word_add;
use crate::number_types::d16_type::word_add_signed;
use crate::number_types::d16_type::word_nibble_carry;
use crate::number_types::d16_type::d16;
use crate::number_types::a16_type::a16;
use crate::cpu::Cpu;
use crate::cpu::CpuView;
use crate::cpu::fetch8;
use crate::cpu::registers::r8;
use crate::cpu::registers::r16;
use crate::cpu::registers::Flags;

verus! {

impl Cpu {
    /// The state after `ADD SP,d8`: the operand byte is a signed
    /// displacement added to the stack pointer with wrapping 16-bit
    /// arithmetic. Zero and Subtract are cleared; Half-carry and Carry
    /// come from the low byte of the old stack pointer and the unsigned
    /// operand byte; cost 16.
    pub open spec fn spec_add_sp_d8(pre: CpuView) -> CpuView {
        let (dv, fetched) = fetch8(pre);
        let sp0 = fetched.sp;
        let moved = fetched.with_sp(word_add_signed(sp0, dv));
        let regs = moved.regs.with_maybe_flags(
            Some(false),
            Some(false),
            Some(sp0 % 16 + dv % 16 > 8),
            Some(sp0 % 256 + dv > 255),
        );
        moved.with_regs(regs).with_cycles(16)
    }

    /// Adds a signed immediate displacement to the stack pointer.
    pub fn add_sp_d8(&mut self)
        requires
            old(self)@.wf(),
            old(self).cycle_count + 24 <= u64::MAX,
        ensures
            final(self)@ == Self::spec_add_sp_d8(old(self)@),
            final(self)@.wf(),
    {
        let rhs = self.read_next_d8();
        let sp0 = self.stack_pointer;
        let nibble_carry = sp0.0 % 16 + rhs.0 as u16 % 16 > 8;
        let carry_flag = sp0.0 % 256 + rhs.0 as u16 > 255;
        self.stack_pointer = a16(sp0.0).add_signed(rhs).to_d16();
        self.gp_registers.set_maybe_flags(
            [Some(false), Some(false), Some(nibble_carry), Some(carry_flag)],
        );
        self.cycle(16);
    }

    /// The state after `ADD r16,r16`: the source pair added into the
    /// target pair, wrapping. Zero is never modified; Subtract is
    /// cleared; Half-carry comes from the low nibbles and Carry from the
    /// carry out of bit 15; cost 8.
    pub open spec fn spec_add_r16_r16(pre: CpuView, target: r16, source: r16) -> CpuView {
        let lhs = pre.regs.spec_r16(target);
        let rhs = pre.regs.spec_r16(source);
        let regs = pre.regs.with_r16(target, word_add(lhs, rhs)).with_maybe_flags(
            None,
            Some(false),
            Some(word_nibble_carry(lhs, rhs)),
            Some(lhs + rhs > 65535),
        );
        pre.with_regs(regs).with_cycles(8)
    }

    /// Adds one 16-bit register pair into another. Zero is untouched.
    pub fn add_r16_r16(&mut self, target: r16, source: r16)
        requires
            old(self)@.wf(),
            old(self).cycle_count + 24 <= u64::MAX,
        ensures
            final(self)@ == Self::spec_add_r16_r16(old(self)@, target, source),
            final(self)@.wf(),
    {
        let lhs = self.gp_registers.get_r16(target);
        let rhs = self.gp_registers.get_r16(source);
        let nibble_overflow = d16::check_nibble_overflow(lhs, rhs);
        let (result, carry_flag) = d16::add_and_check_overflow(lhs, rhs);
        self.gp_registers.set_r16(target, result);
        self.gp_registers.set_maybe_flags(
            [None, Some(false), Some(nibble_overflow), Some(carry_flag)],
        );
        self.cycle(8);
    }

    /// The state after `ADD HL,SP`-style addition of the stack pointer
    /// into a register pair: the same flag rule as pair-into-pair
    /// addition, Zero untouched; cost 8.
    pub open spec fn spec_add_sp_into(pre: CpuView, target: r16) -> CpuView {
        let lhs = pre.regs.spec_r16(target);
        let rhs = pre.sp;
        let regs = pre.regs.with_r16(target, word_add(lhs, rhs)).with_maybe_flags(
            None,
            Some(false),
            Some(word_nibble_carry(lhs, rhs)),
            Some(lhs + rhs > 65535),
        );
        pre.with_regs(regs).with_cycles(8)
    }

    /// Adds the stack pointer into a register pair. Zero is untouched.
    pub fn add_sp_into(&mut self, target: r16)
        requires
            old(self)@.wf(),
            old(self).cycle_count + 24 <= u64::MAX,
        ensures
            final(self)@ == Self::spec_add_sp_into(old(self)@, target),
            final(self)@.wf(),
    {
        let lhs = self.gp_registers.get_r16(target);
        let rhs = self.stack_pointer;
        let nibble_overflow = d16::check_nibble_overflow(lhs, rhs);
        let (result, carry_flag) = d16::add_and_check_overflow(lhs, rhs);
        self.gp_registers.set_r16(target, result);
        self.gp_registers.set_maybe_flags(
            [None, Some(false), Some(nibble_overflow), Some(carry_flag)],
        );
        self.cycle(8);
    }

    /// The state after `ADD r8,r8`: the source register added into the
    /// target, wrapping. Zero is set when the result is zero, Subtract
    /// cleared, Half-carry from the lower nibbles, Carry from the carry
    /// out of bit 7; cost 4.
    pub open spec fn spec_add_r8_r8(pre: CpuView, target: r8, source: r8) -> CpuView {
        let lhs = pre.regs.spec_r8(target);
        let rhs = pre.regs.spec_r8(source);
        let result = byte_add(lhs, rhs);
        let regs = pre.regs.with_r8(target, result).with_maybe_flags(
            Some(result == 0),
            Some(false),
            Some(byte_nibble_carry(lhs, rhs)),
            Some(lhs + rhs > 255),
        );
        pre.with_regs(regs).with_cycles(4)
    }

    /// Adds one 8-bit register into another.
    pub fn add_r8_r8(&mut self, target: r8, source: r8)
        requires
            target != r8::F,
            source != r8::F,
            old(self)@.wf(),
            old(self).cycle_count + 24 <= u64::MAX,
        ensures
            final(self)@ == Self::spec_add_r8_r8(old(self)@, target, source),
            final(self)@.wf(),
    {
        let lhs = self.gp_registers.get_r8(target);
        let rhs = self.gp_registers.get_r8(source);
        let nibble_overflow = d8::check_nibble_overflow(lhs, rhs);
        let (result, carry_flag) = d8::add_and_check_overflow(lhs, rhs);
        self.gp_registers.set_r8(target, result);
        self.gp_registers.set_maybe_flags(
            [Some(result.0 == 0), Some(false), Some(nibble_overflow), Some(carry_flag)],
        );
        self.cycle(4);
    }

    /// The state after `ADC r8,r8`: as `ADD r8,r8`, but the Carry flag is
    /// first folded into the source operand with wrapping addition, and
    /// the flags are computed against that combined operand; cost 4.
    pub open spec fn spec_adc_r8_r8(pre: CpuView, target: r8, source: r8) -> CpuView {
        let lhs = pre.regs.spec_r8(target);
        let rhs = byte_add(
            pre.regs.spec_r8(source),
            if pre.regs.spec_flag(Flags::C) {
                1
            } else {
                0
            },
        );
        let result = byte_add(lhs, rhs);
        let regs = pre.regs.with_r8(target, result).with_maybe_flags(
            Some(result == 0),
            Some(false),
            Some(byte_nibble_carry(lhs, rhs)),
            Some(lhs + rhs > 255),
        );
        pre.with_regs(regs).with_cycles(4)
    }

    /// Adds one 8-bit register and the Carry flag into another.
    pub fn adc_r8_r8(&mut self, target: r8, source: r8)
        requires
            target != r8::F,
            source != r8::F,
            old(self)@.wf(),
            old(self).cycle_count + 24 <= u64::MAX,
        ensures
            final(self)@ == Self::spec_adc_r8_r8(old(self)@, target, source),
            final(self)@.wf(),
    {
        let lhs = self.gp_registers.get_r8(target);
        let carry_in: u8 = if self.gp_registers.get_flag(Flags::C) {
            1
        } else {
            0
        };
        let (rhs, _wrapped) = d8::add_and_check_overflow(
            self.gp_registers.get_r8(source),
            d8(carry_in),
        );
        let nibble_overflow = d8::check_nibble_overflow(lhs, rhs);
        let (result, carry_flag) = d8::add_and_check_overflow(lhs, rhs);
        self.gp_registers.set_r8(target, result);
        self.gp_registers.set_maybe_flags(
            [Some(result.0 == 0), Some(false), Some(nibble_overflow), Some(carry_flag)],
        );
        self.cycle(4);
    }
}

} // verus!
