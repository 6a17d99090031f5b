//! Increment and decrement instructions. The 8-bit forms derive their
//! flags by comparing the old and new values: a wrap-around shows up as the
//! new value crossing the old one, and a half-carry as a change of upper
//! nibble. The 16-bit forms and the stack-pointer forms touch no flags at
//! all.

use vstd::prelude::*;
use crate::number_types::d8_type::d8;
use crate::number_types::d8_type::byte_add;
use crate::number_types::d8_type::byte_sub;
use crate::number_types::d8_type::upper_nibble_of;
use crate::number_types::d16_type::word_add;
use crate::number_types::d16_type::word_sub;
use crate::memory::read0;
use crate::cpu::Cpu;
use crate::cpu::CpuView;
use crate::cpu::registers::r8;
use crate::cpu::registers::r16;

verus! {

impl Cpu {
    /// The state after `INC SP`: the stack pointer one higher, wrapping;
    /// no flags; cost 8.
    pub open spec fn spec_inc_sp(pre: CpuView) -> CpuView {
        pre.with_sp(word_add(pre.sp, 1)).with_cycles(8)
    }

    /// Increments the stack pointer. No flags are modified.
    pub fn inc_sp(&mut self)
        requires
            old(self)@.wf(),
            old(self).cycle_count + 24 <= u64::MAX,
        ensures
            final(self)@ == Self::spec_inc_sp(old(self)@),
            final(self)@.wf(),
    {
        self.stack_pointer = self.stack_pointer.wrapping_add_u16(1);
        self.cycle(8);
    }

    /// The state after `DEC SP`: the stack pointer one lower, wrapping;
    /// no flags; cost 8.
    pub open spec fn spec_dec_sp(pre: CpuView) -> CpuView {
        pre.with_sp(word_sub(pre.sp, 1)).with_cycles(8)
    }

    /// Decrements the stack pointer. No flags are modified.
    pub fn dec_sp(&mut self)
        requires
            old(self)@.wf(),
            old(self).cycle_count + 24 <= u64::MAX,
        ensures
            final(self)@ == Self::spec_dec_sp(old(self)@),
            final(self)@.wf(),
    {
        self.stack_pointer = self.stack_pointer.wrapping_sub_u16(1);
        self.cycle(8);
    }

    /// The state after `INC r16`: the pair one higher, wrapping; no flags;
    /// cost 8.
    pub open spec fn spec_inc_r16(pre: CpuView, reg: r16) -> CpuView {
        pre.with_regs(pre.regs.with_r16(reg, word_add(pre.regs.spec_r16(reg), 1))).with_cycles(8)
    }

    /// Increments a 16-bit register pair. No flags are modified.
    pub fn inc_r16(&mut self, reg: r16)
        requires
            old(self)@.wf(),
            old(self).cycle_count + 24 <= u64::MAX,
        ensures
            final(self)@ == Self::spec_inc_r16(old(self)@, reg),
            final(self)@.wf(),
    {
        let v = self.gp_registers.get_r16(reg);
        self.gp_registers.set_r16(reg, v.wrapping_add_u16(1));
        self.cycle(8);
    }

    /// The state after `DEC r16`: the pair one lower, wrapping; no flags;
    /// cost 8.
    pub open spec fn spec_dec_r16(pre: CpuView, reg: r16) -> CpuView {
        pre.with_regs(pre.regs.with_r16(reg, word_sub(pre.regs.spec_r16(reg), 1))).with_cycles(8)
    }

    /// Decrements a 16-bit register pair. No flags are modified.
    pub fn dec_r16(&mut self, reg: r16)
        requires
            old(self)@.wf(),
            old(self).cycle_count + 24 <= u64::MAX,
        ensures
            final(self)@ == Self::spec_dec_r16(old(self)@, reg),
            final(self)@.wf(),
    {
        let v = self.gp_registers.get_r16(reg);
        self.gp_registers.set_r16(reg, v.wrapping_sub_u16(1));
        self.cycle(8);
    }

    /// The state after `INC r8`: the register one higher, wrapping. Zero
    /// is set when the new value is zero, Subtract cleared, Half-carry set
    /// when the upper nibble changed, Carry when the value wrapped (the
    /// new value fell below the old); cost 4.
    pub open spec fn spec_inc_r8(pre: CpuView, reg: r8) -> CpuView {
        let old_v = pre.regs.spec_r8(reg);
        let new_v = byte_add(old_v, 1);
        let regs = pre.regs.with_r8(reg, new_v).with_maybe_flags(
            Some(new_v == 0),
            Some(false),
            Some(upper_nibble_of(new_v) != upper_nibble_of(old_v)),
            Some(new_v < old_v),
        );
        pre.with_regs(regs).with_cycles(4)
    }

    /// Increments an 8-bit register.
    pub fn inc_r8(&mut self, reg: r8)
        requires
            reg != r8::F,
            old(self)@.wf(),
            old(self).cycle_count + 24 <= u64::MAX,
        ensures
            final(self)@ == Self::spec_inc_r8(old(self)@, reg),
            final(self)@.wf(),
    {
        let old_value = self.gp_registers.get_r8(reg);
        let (new_value, _wrapped) = d8::add_and_check_overflow(old_value, d8(1));
        self.gp_registers.set_r8(reg, new_value);
        self.gp_registers.set_maybe_flags(
            [
                Some(new_value.0 == 0),
                Some(false),
                Some(new_value.upper_nibble().0 != old_value.upper_nibble().0),
                Some(new_value.0 < old_value.0),
            ],
        );
        self.cycle(4);
    }

    /// The state after `DEC r8`: the register one lower, wrapping. Zero is
    /// set when the new value is zero, Subtract set, Half-carry set when
    /// the upper nibble changed, Carry when the value wrapped (the new
    /// value rose above the old); cost 4.
    pub open spec fn spec_dec_r8(pre: CpuView, reg: r8) -> CpuView {
        let old_v = pre.regs.spec_r8(reg);
        let new_v = byte_sub(old_v, 1);
        let regs = pre.regs.with_r8(reg, new_v).with_maybe_flags(
            Some(new_v == 0),
            Some(true),
            Some(upper_nibble_of(new_v) != upper_nibble_of(old_v)),
            Some(new_v > old_v),
        );
        pre.with_regs(regs).with_cycles(4)
    }

    /// Decrements an 8-bit register.
    pub fn dec_r8(&mut self, reg: r8)
        requires
            reg != r8::F,
            old(self)@.wf(),
            old(self).cycle_count + 24 <= u64::MAX,
        ensures
            final(self)@ == Self::spec_dec_r8(old(self)@, reg),
            final(self)@.wf(),
    {
        let old_value = self.gp_registers.get_r8(reg);
        let (new_value, _wrapped) = d8::sub_and_check_overflow(old_value, d8(1));
        self.gp_registers.set_r8(reg, new_value);
        self.gp_registers.set_maybe_flags(
            [
                Some(new_value.0 == 0),
                Some(true),
                Some(new_value.upper_nibble().0 != old_value.upper_nibble().0),
                Some(new_value.0 > old_value.0),
            ],
        );
        self.cycle(4);
    }

    /// The state after `INC (HL)`-style increment of the byte a pair
    /// points at: the byte one higher, wrapping, written back (dropped on
    /// read-only bytes); the flags as for `INC r8`; cost 12.
    pub open spec fn spec_inc_ptrr16(pre: CpuView, reg: r16) -> CpuView {
        let addr = pre.regs.spec_r16(reg);
        let old_v = read0(pre.mem, addr);
        let new_v = byte_add(old_v, 1);
        let written = pre.mem_put(addr, new_v);
        let regs = written.regs.with_maybe_flags(
            Some(new_v == 0),
            Some(false),
            Some(upper_nibble_of(new_v) != upper_nibble_of(old_v)),
            Some(new_v < old_v),
        );
        written.with_regs(regs).with_cycles(12)
    }

    /// Increments the byte a register pair points at.
    pub fn inc_ptrr16(&mut self, reg: r16)
        requires
            old(self)@.wf(),
            old(self).cycle_count + 24 <= u64::MAX,
        ensures
            final(self)@ == Self::spec_inc_ptrr16(old(self)@, reg),
            final(self)@.wf(),
    {
        let old_value = self.read_d8_from_ptrr16(reg);
        let (new_value, _wrapped) = d8::add_and_check_overflow(old_value, d8(1));
        self.write_d8_to_ptrr16(reg, new_value);
        self.gp_registers.set_maybe_flags(
            [
                Some(new_value.0 == 0),
                Some(false),
                Some(new_value.upper_nibble().0 != old_value.upper_nibble().0),
                Some(new_value.0 < old_value.0),
            ],
        );
        self.cycle(12);
    }

    /// The state after `DEC (HL)`-style decrement of the byte a pair
    /// points at, with the flags as for `DEC r8`; cost 12.
    pub open spec fn spec_dec_ptrr16(pre: CpuView, reg: r16) -> CpuView {
        let addr = pre.regs.spec_r16(reg);
        let old_v = read0(pre.mem, addr);
        let new_v = byte_sub(old_v, 1);
        let written = pre.mem_put(addr, new_v);
        let regs = written.regs.with_maybe_flags(
            Some(new_v == 0),
            Some(true),
            Some(upper_nibble_of(new_v) != upper_nibble_of(old_v)),
            Some(new_v > old_v),
        );
        written.with_regs(regs).with_cycles(12)
    }

    /// Decrements the byte a register pair points at.
    pub fn dec_ptrr16(&mut self, reg: r16)
        requires
            old(self)@.wf(),
            old(self).cycle_count + 24 <= u64::MAX,
        ensures
            final(self)@ == Self::spec_dec_ptrr16(old(self)@, reg),
            final(self)@.wf(),
    {
        let old_value = self.read_d8_from_ptrr16(reg);
        let (new_value, _wrapped) = d8::sub_and_check_overflow(old_value, d8(1));
        self.write_d8_to_ptrr16(reg, new_value);
        self.gp_registers.set_maybe_flags(
            [
                Some(new_value.0 == 0),
                Some(true),
                Some(new_value.upper_nibble().0 != old_value.upper_nibble().0),
                Some(new_value.0 > old_value.0),
            ],
        );
        self.cycle(12);
    }
}

} // verus!
