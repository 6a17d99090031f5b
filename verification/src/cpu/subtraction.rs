//! Subtraction instructions. All operate on the accumulator: `SUB` stores
//! the difference, `SBC` first folds the Carry flag into the subtrahend's
//! top bit, and `CP` computes the flags without storing the result. All
//! set Subtract; Half-carry compares the upper nibbles and Carry reports
//! the borrow (the subtrahend exceeding the accumulator).

use vstd::prelude::*;
use crate::number_types::d8_type::d8;
use crate::number_types::d8_type::byte_add;
use crate::number_types::d8_type::byte_sub;
use crate::number_types::d8_type::byte_nibble_borrow;
use crate::cpu::Cpu;
use crate::cpu::CpuView;
use crate::cpu::registers::r8;
use crate::cpu::registers::Flags;

verus! {

impl Cpu {
    /// The state after `SUB r8`: the source register subtracted from the
    /// accumulator, wrapping. Zero is set when the result is zero,
    /// Subtract set, Half-carry from the upper nibbles, Carry when the
    /// subtraction borrowed; cost 4.
    pub open spec fn spec_sub_r8(pre: CpuView, source: r8) -> CpuView {
        let lhs = pre.regs.spec_r8(r8::A);
        let rhs = pre.regs.spec_r8(source);
        let result = byte_sub(lhs, rhs);
        let regs = pre.regs.with_r8(r8::A, result).with_maybe_flags(
            Some(result == 0),
            Some(true),
            Some(byte_nibble_borrow(lhs, rhs)),
            Some(lhs < rhs),
        );
        pre.with_regs(regs).with_cycles(4)
    }

    /// Subtracts one 8-bit register from the accumulator.
    pub fn sub_r8(&mut self, source: r8)
        requires
            source != r8::F,
            old(self)@.wf(),
            old(self).cycle_count + 24 <= u64::MAX,
        ensures
            final(self)@ == Self::spec_sub_r8(old(self)@, source),
            final(self)@.wf(),
    {
        let lhs = self.gp_registers.get_r8(r8::A);
        let rhs = self.gp_registers.get_r8(source);
        let nibble_overflow = d8::sub_nibble_overflow(lhs, rhs);
        let (result, carry_flag) = d8::sub_and_check_overflow(lhs, rhs);
        self.gp_registers.set_r8(r8::A, result);
        self.gp_registers.set_maybe_flags(
            [Some(result.0 == 0), Some(true), Some(nibble_overflow), Some(carry_flag)],
        );
        self.cycle(4);
    }

    /// The state after `SBC r8`: as `SUB r8`, but the Carry flag is first
    /// folded into the subtrahend's top bit with wrapping addition, and
    /// the flags are computed against that combined subtrahend; cost 4.
    pub open spec fn spec_sbc_r8(pre: CpuView, source: r8) -> CpuView {
        let lhs = pre.regs.spec_r8(r8::A);
        let rhs = byte_add(
            pre.regs.spec_r8(source),
            if pre.regs.spec_flag(Flags::C) {
                128
            } else {
                0
            },
        );
        let result = byte_sub(lhs, rhs);
        let regs = pre.regs.with_r8(r8::A, result).with_maybe_flags(
            Some(result == 0),
            Some(true),
            Some(byte_nibble_borrow(lhs, rhs)),
            Some(lhs < rhs),
        );
        pre.with_regs(regs).with_cycles(4)
    }

    /// Subtracts one 8-bit register, with the Carry flag folded into its
    /// top bit, from the accumulator.
    pub fn sbc_r8(&mut self, source: r8)
        requires
            source != r8::F,
            old(self)@.wf(),
            old(self).cycle_count + 24 <= u64::MAX,
        ensures
            final(self)@ == Self::spec_sbc_r8(old(self)@, source),
            final(self)@.wf(),
    {
        let lhs = self.gp_registers.get_r8(r8::A);
        let carry_in: u8 = if self.gp_registers.get_flag(Flags::C) {
            128
        } else {
            0
        };
        let (rhs, _wrapped) = d8::add_and_check_overflow(
            self.gp_registers.get_r8(source),
            d8(carry_in),
        );
        let nibble_overflow = d8::sub_nibble_overflow(lhs, rhs);
        let (result, carry_flag) = d8::sub_and_check_overflow(lhs, rhs);
        self.gp_registers.set_r8(r8::A, result);
        self.gp_registers.set_maybe_flags(
            [Some(result.0 == 0), Some(true), Some(nibble_overflow), Some(carry_flag)],
        );
        self.cycle(4);
    }

    /// The state after `CP r8`: the flags of `SUB r8`, with the
    /// accumulator left unchanged; cost 4.
    pub open spec fn spec_cp_r8(pre: CpuView, source: r8) -> CpuView {
        let lhs = pre.regs.spec_r8(r8::A);
        let rhs = pre.regs.spec_r8(source);
        let result = byte_sub(lhs, rhs);
        let regs = pre.regs.with_maybe_flags(
            Some(result == 0),
            Some(true),
            Some(byte_nibble_borrow(lhs, rhs)),
            Some(lhs < rhs),
        );
        pre.with_regs(regs).with_cycles(4)
    }

    /// Compares one 8-bit register against the accumulator: the flags of
    /// a subtraction whose result is discarded.
    pub fn cp_r8(&mut self, source: r8)
        requires
            source != r8::F,
            old(self)@.wf(),
            old(self).cycle_count + 24 <= u64::MAX,
        ensures
            final(self)@ == Self::spec_cp_r8(old(self)@, source),
            final(self)@.wf(),
    {
        let lhs = self.gp_registers.get_r8(r8::A);
        let rhs = self.gp_registers.get_r8(source);
        let nibble_overflow = d8::sub_nibble_overflow(lhs, rhs);
        let (result, carry_flag) = d8::sub_and_check_overflow(lhs, rhs);
        self.gp_registers.set_maybe_flags(
            [Some(result.0 == 0), Some(true), Some(nibble_overflow), Some(carry_flag)],
        );
        self.cycle(4);
    }
}

} // verus!
