//! Absolute jumps. The unconditional form costs 16; the conditional forms
//! consume their operand either way and pay 16 when taken, 12 when not.
//! The register-indirect form reads its target word through the pair and
//! costs 4. No jump modifies any flag.

use vstd::prelude::*;
use crate::number_types::d16_type::word_add;
use crate::number_types::d16_type::word_of;
use crate::number_types::a16_type::a16;
use crate::memory::read0;
use crate::cpu::Cpu;
use crate::cpu::CpuView;
use crate::cpu::fetch16;
use crate::cpu::registers::r16;
use crate::cpu::registers::Conditions;

verus! {

impl Cpu {
    /// The state after `JP a16`: the operand word becomes the program
    /// counter; cost 16.
    pub open spec fn spec_jp_a16(pre: CpuView) -> CpuView {
        let (addr, fetched) = fetch16(pre);
        fetched.with_pc(addr).with_cycles(16)
    }

    /// Jumps to the address the operand word names.
    pub fn jp_a16(&mut self)
        requires
            old(self)@.wf(),
            old(self).cycle_count + 24 <= u64::MAX,
        ensures
            final(self)@ == Self::spec_jp_a16(old(self)@),
            final(self)@.wf(),
    {
        let ptr = a16::from_d16(self.read_next_d16());
        self.jump_absolute(ptr);
        self.cycle(16);
    }

    /// The state after a conditional `JP`: the operand word is consumed
    /// either way; the jump happens, at cost 16, only when the condition
    /// holds, and otherwise only the smaller cost 12 is paid.
    pub open spec fn spec_jp_cond_a16(pre: CpuView, cond: Conditions) -> CpuView {
        let (addr, fetched) = fetch16(pre);
        if pre.regs.spec_check(cond) {
            fetched.with_pc(addr).with_cycles(16)
        } else {
            fetched.with_cycles(12)
        }
    }

    /// Jumps to the address the operand word names, if the condition
    /// holds.
    pub fn jp_cond_a16(&mut self, cond: Conditions)
        requires
            old(self)@.wf(),
            old(self).cycle_count + 24 <= u64::MAX,
        ensures
            final(self)@ == Self::spec_jp_cond_a16(old(self)@, cond),
            final(self)@.wf(),
    {
        let ptr = a16::from_d16(self.read_next_d16());
        if self.gp_registers.check_condition(cond) {
            self.jump_absolute(ptr);
            self.cycle(16);
        } else {
            self.cycle(12);
        }
    }

    /// Moves the program counter to an address, with no cost of its own.
    pub fn jump_absolute(&mut self, ptr: a16)
        ensures
            final(self)@ == old(self)@.with_pc(ptr.0),
    {
        self.program_counter = ptr.to_d16();
    }

    /// The state after a `JP (r16)`-style jump: the word the pair points
    /// at — absent bytes reading as zero — becomes the program counter;
    /// cost 4.
    pub open spec fn spec_jp_ptrr16(pre: CpuView, reg: r16) -> CpuView {
        let target = word_of(
            read0(pre.mem, pre.regs.spec_r16(reg)),
            read0(pre.mem, word_add(pre.regs.spec_r16(reg), 1)),
        );
        pre.with_pc(target).with_cycles(4)
    }

    /// Jumps to the word a register pair points at.
    pub fn jp_ptrr16(&mut self, reg: r16)
        requires
            old(self)@.wf(),
            old(self).cycle_count + 24 <= u64::MAX,
        ensures
            final(self)@ == Self::spec_jp_ptrr16(old(self)@, reg),
            final(self)@.wf(),
    {
        let ptr = a16::from_d16(self.read_d16_from_ptrr16(reg));
        self.jump_absolute(ptr);
        self.cycle(4);
    }
}

} // verus!
