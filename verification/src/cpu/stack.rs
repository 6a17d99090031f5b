//! The stack primitives and the push/pop instructions. The stack lives at
//! a high address and grows toward zero: a push pre-decrements the stack
//! pointer and writes at the new position; a pop reads at the current
//! position and post-increments. Push costs 16 and pop 12 — the asymmetry
//! is deliberate. An absent byte pops as zero; a push whose bytes fall on
//! read-only cells is silently dropped.

use vstd::prelude::*;
use crate::number_types::d8_type::d8;
use crate::number_types::d16_type::d16;
use crate::number_types::d16_type::word_add;
use crate::number_types::d16_type::word_sub;
use crate::number_types::d16_type::word_of;
use crate::number_types::a16_type::a16;
use crate::memory::read0;
use crate::cpu::Cpu;
use crate::cpu::CpuView;
use crate::cpu::registers::r16;

verus! {

impl Cpu {
    /// The state after pushing a word: the stack pointer two lower, the
    /// word written there, low byte first.
    pub open spec fn spec_d16_to_stack(pre: CpuView, val: u16) -> CpuView {
        let sp = word_sub(pre.sp, 2);
        pre.with_sp(sp).mem_put16(sp, val)
    }

    /// The popped word — both bytes read at the stack pointer, absent
    /// bytes as zero — and the state with the pointer two higher.
    pub open spec fn spec_d16_from_stack(pre: CpuView) -> (u16, CpuView) {
        (
            word_of(read0(pre.mem, pre.sp), read0(pre.mem, word_add(pre.sp, 1))),
            pre.with_sp(word_add(pre.sp, 2)),
        )
    }

    /// Pushes a word onto the stack.
    pub fn d16_to_stack(&mut self, val: d16)
        requires
            old(self)@.wf(),
        ensures
            final(self)@ == Self::spec_d16_to_stack(old(self)@, val.0),
            final(self)@.wf(),
    {
        self.stack_pointer = self.stack_pointer.wrapping_sub_u16(2);
        let _ = self.memory.put_d16(a16::from_d16(self.stack_pointer), val);
    }

    /// Pops a word from the stack.
    pub fn d16_from_stack(&mut self) -> (v: d16)
        requires
            old(self)@.wf(),
        ensures
            v.0 == Self::spec_d16_from_stack(old(self)@).0,
            final(self)@ == Self::spec_d16_from_stack(old(self)@).1,
            final(self)@.wf(),
    {
        let v = match self.memory.read_d16(a16::from_d16(self.stack_pointer)) {
            Some(v) => v,
            None => d16(0),
        };
        self.stack_pointer = self.stack_pointer.wrapping_add_u16(2);
        v
    }

    /// The state after pushing a byte: the stack pointer one lower, the
    /// byte written there.
    pub open spec fn spec_d8_to_stack(pre: CpuView, val: u8) -> CpuView {
        let sp = word_sub(pre.sp, 1);
        pre.with_sp(sp).mem_put(sp, val)
    }

    /// The popped byte — zero where absent — and the state with the
    /// pointer one higher.
    pub open spec fn spec_d8_from_stack(pre: CpuView) -> (u8, CpuView) {
        (read0(pre.mem, pre.sp), pre.with_sp(word_add(pre.sp, 1)))
    }

    /// Pushes a byte onto the stack.
    pub fn d8_to_stack(&mut self, val: d8)
        requires
            old(self)@.wf(),
        ensures
            final(self)@ == Self::spec_d8_to_stack(old(self)@, val.0),
            final(self)@.wf(),
    {
        self.stack_pointer = self.stack_pointer.wrapping_sub_u16(1);
        let _ = self.memory.put_d8(a16::from_d16(self.stack_pointer), val);
    }

    /// Pops a byte from the stack.
    pub fn d8_from_stack(&mut self) -> (v: d8)
        requires
            old(self)@.wf(),
        ensures
            v.0 == Self::spec_d8_from_stack(old(self)@).0,
            final(self)@ == Self::spec_d8_from_stack(old(self)@).1,
            final(self)@.wf(),
    {
        let v = match self.memory.read_d8(a16::from_d16(self.stack_pointer)) {
            Some(v) => v,
            None => d8(0),
        };
        self.stack_pointer = self.stack_pointer.wrapping_add_u16(1);
        v
    }

    /// The state after `POP r16`: the popped word in the pair (the flag
    /// nibble cleared when the pair is AF), the stack pointer two higher;
    /// no flags otherwise; cost 12.
    pub open spec fn spec_pop_r16(pre: CpuView, target: r16) -> CpuView {
        let popped = Self::spec_d16_from_stack(pre);
        popped.1.with_regs(popped.1.regs.with_r16(target, popped.0)).with_cycles(12)
    }

    /// Pops the stack into a 16-bit register pair.
    pub fn pop_r16(&mut self, target: r16)
        requires
            old(self)@.wf(),
            old(self).cycle_count + 24 <= u64::MAX,
        ensures
            final(self)@ == Self::spec_pop_r16(old(self)@, target),
            final(self)@.wf(),
    {
        let v = self.d16_from_stack();
        self.gp_registers.set_r16(target, v);
        self.cycle(12);
    }

    /// The state after `PUSH r16`: the pair pushed, the stack pointer two
    /// lower; cost 16.
    pub open spec fn spec_push_r16(pre: CpuView, source: r16) -> CpuView {
        Self::spec_d16_to_stack(pre, pre.regs.spec_r16(source)).with_cycles(16)
    }

    /// Pushes a 16-bit register pair onto the stack.
    pub fn push_r16(&mut self, source: r16)
        requires
            old(self)@.wf(),
            old(self).cycle_count + 24 <= u64::MAX,
        ensures
            final(self)@ == Self::spec_push_r16(old(self)@, source),
            final(self)@.wf(),
    {
        let val = self.gp_registers.get_r16(source);
        self.d16_to_stack(val);
        self.cycle(16);
    }
}

} // verus!
