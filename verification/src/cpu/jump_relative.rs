//! Relative jumps. The operand byte is a signed displacement added to the
//! program counter after the fetch has advanced past it, using wrapping
//! signed 16-bit arithmetic. The unconditional form costs 8; the
//! conditional forms consume their operand either way and pay 12 when
//! taken, 8 when not. No relative jump modifies any flag.

use vstd::prelude::*;
use crate::number_types::d8_type::d8;
use crate::number_types::d16_type::word_add_signed;
use crate::number_types::a16_type::a16;
use crate::cpu::Cpu;
use crate::cpu::CpuView;
use crate::cpu::fetch8;
use crate::cpu::registers::Conditions;

verus! {

impl Cpu {
    /// The state after `JR d8`: the displacement consumed and added to
    /// the advanced program counter; cost 8.
    pub open spec fn spec_jr_d8(pre: CpuView) -> CpuView {
        let (dsp, fetched) = fetch8(pre);
        fetched.with_pc(word_add_signed(fetched.pc, dsp)).with_cycles(8)
    }

    /// Jumps by the signed displacement the operand byte holds.
    pub fn jr_d8(&mut self)
        requires
            old(self)@.wf(),
            old(self).cycle_count + 24 <= u64::MAX,
        ensures
            final(self)@ == Self::spec_jr_d8(old(self)@),
            final(self)@.wf(),
    {
        let ptr = self.read_next_d8();
        self.jump_relative(ptr);
        self.cycle(4);
    }

    /// The state after a conditional `JR`: the displacement is consumed
    /// either way; the jump happens, at cost 12, only when the condition
    /// holds, and otherwise only the smaller cost 8 is paid.
    pub open spec fn spec_jr_cond_d8(pre: CpuView, cond: Conditions) -> CpuView {
        let (dsp, fetched) = fetch8(pre);
        if pre.regs.spec_check(cond) {
            fetched.with_pc(word_add_signed(fetched.pc, dsp)).with_cycles(12)
        } else {
            fetched.with_cycles(8)
        }
    }

    /// Jumps by the signed displacement the operand byte holds, if the
    /// condition holds.
    pub fn jr_cond_d8(&mut self, cond: Conditions)
        requires
            old(self)@.wf(),
            old(self).cycle_count + 24 <= u64::MAX,
        ensures
            final(self)@ == Self::spec_jr_cond_d8(old(self)@, cond),
            final(self)@.wf(),
    {
        let ptr = self.read_next_d8();
        if self.gp_registers.check_condition(cond) {
            self.jump_relative(ptr);
        }
        self.cycle(8);
    }

    /// Adds a signed displacement to the program counter, at cost 4.
    pub fn jump_relative(&mut self, ptr: d8)
        requires
            old(self)@.wf(),
            old(self).cycle_count + 24 <= u64::MAX,
        ensures
            final(self)@ == old(self)@.with_pc(
                word_add_signed(old(self)@.pc, ptr.0),
            ).with_cycles(4),
            final(self)@.wf(),
    {
        let target = a16(self.program_counter.0).add_signed(ptr);
        self.program_counter = target.to_d16();
        self.cycle(4);
    }
}

} // verus!
