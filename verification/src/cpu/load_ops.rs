//! Load instructions: register to register, immediate operands, memory
//! indirection through a register pair, and the short high-page addressing
//! forms. No load modifies any flag; the cost varies with the addressing
//! mode. An absent memory byte loads as zero; a store to a read-only or
//! unmapped byte is silently dropped.

use vstd::prelude::*;
use crate::number_types::d8_type::d8;
use crate::number_types::d16_type::d16;
use crate::number_types::a8_type::a8;
use crate::number_types::a8_type::HIGH_PAGE_BASE;
use crate::number_types::a16_type::a16;
use crate::memory::read0;
use crate::cpu::Cpu;
use crate::cpu::CpuView;
use crate::cpu::fetch8;
use crate::cpu::fetch16;
use crate::cpu::registers::r8;
use crate::cpu::registers::r16;

verus! {

impl Cpu {
    /// The state after `LDH (a8),r8`: the operand byte names a high-page
    /// cell, and the register is stored there; cost 12.
    pub open spec fn spec_ldh_a8_r8(pre: CpuView, source: r8) -> CpuView {
        let (off, fetched) = fetch8(pre);
        fetched.mem_put((HIGH_PAGE_BASE + off) as u16, fetched.regs.spec_r8(source)).with_cycles(12)
    }

    /// Stores a register to the high-page cell the operand byte names.
    pub fn ldh_a8_r8(&mut self, source: r8)
        requires
            source != r8::F,
            old(self)@.wf(),
            old(self).cycle_count + 24 <= u64::MAX,
        ensures
            final(self)@ == Self::spec_ldh_a8_r8(old(self)@, source),
            final(self)@.wf(),
    {
        let adr = a8::from_d8(self.read_next_d8()).to_a16();
        let val = self.gp_registers.get_r8(source);
        let _ = self.memory.put_d8(adr, val);
        self.cycle(12);
    }

    /// The state after `LDH r8,(a8)`: the operand byte names a high-page
    /// cell, and the register is loaded from there, zero if absent;
    /// cost 12.
    pub open spec fn spec_ldh_r8_a8(pre: CpuView, target: r8) -> CpuView {
        let (off, fetched) = fetch8(pre);
        let v = read0(fetched.mem, (HIGH_PAGE_BASE + off) as u16);
        fetched.with_regs(fetched.regs.with_r8(target, v)).with_cycles(12)
    }

    /// Loads a register from the high-page cell the operand byte names.
    pub fn ldh_r8_a8(&mut self, target: r8)
        requires
            target != r8::F,
            old(self)@.wf(),
            old(self).cycle_count + 24 <= u64::MAX,
        ensures
            final(self)@ == Self::spec_ldh_r8_a8(old(self)@, target),
            final(self)@.wf(),
    {
        let adr = a8::from_d8(self.read_next_d8()).to_a16();
        let val = match self.memory.read_d8(adr) {
            Some(v) => v,
            None => d8(0),
        };
        self.gp_registers.set_r8(target, val);
        self.cycle(12);
    }

    /// The state after `LDH (C),r8`: register C names a high-page cell,
    /// and the source register is stored there; cost 8.
    pub open spec fn spec_ldh_c_r8(pre: CpuView, source: r8) -> CpuView {
        let a = (HIGH_PAGE_BASE + pre.regs.spec_r8(r8::C)) as u16;
        pre.mem_put(a, pre.regs.spec_r8(source)).with_cycles(8)
    }

    /// Stores a register to the high-page cell register C names.
    pub fn ldh_c_r8(&mut self, source: r8)
        requires
            source != r8::F,
            old(self)@.wf(),
            old(self).cycle_count + 24 <= u64::MAX,
        ensures
            final(self)@ == Self::spec_ldh_c_r8(old(self)@, source),
            final(self)@.wf(),
    {
        let adr = a8::from_d8(self.gp_registers.get_r8(r8::C)).to_a16();
        let val = self.gp_registers.get_r8(source);
        let _ = self.memory.put_d8(adr, val);
        self.cycle(8);
    }

    /// The state after `LDH r8,(C)`: register C names a high-page cell,
    /// and the target register is loaded from there, zero if absent;
    /// cost 8.
    pub open spec fn spec_ldh_r8_c(pre: CpuView, target: r8) -> CpuView {
        let v = read0(pre.mem, (HIGH_PAGE_BASE + pre.regs.spec_r8(r8::C)) as u16);
        pre.with_regs(pre.regs.with_r8(target, v)).with_cycles(8)
    }

    /// Loads a register from the high-page cell register C names.
    pub fn ldh_r8_c(&mut self, target: r8)
        requires
            target != r8::F,
            old(self)@.wf(),
            old(self).cycle_count + 24 <= u64::MAX,
        ensures
            final(self)@ == Self::spec_ldh_r8_c(old(self)@, target),
            final(self)@.wf(),
    {
        let adr = a8::from_d8(self.gp_registers.get_r8(r8::C)).to_a16();
        let val = match self.memory.read_d8(adr) {
            Some(v) => v,
            None => d8(0),
        };
        self.gp_registers.set_r8(target, val);
        self.cycle(8);
    }

    /// The state after `LD r8,(r16)`: the target register loaded from the
    /// byte the pair points at, zero if absent; cost 8.
    pub open spec fn spec_ld_r8_ptrr16(pre: CpuView, target: r8, source: r16) -> CpuView {
        let v = read0(pre.mem, pre.regs.spec_r16(source));
        pre.with_regs(pre.regs.with_r8(target, v)).with_cycles(8)
    }

    /// Loads a register from the byte a register pair points at.
    pub fn ld_r8_ptrr16(&mut self, target: r8, source: r16)
        requires
            target != r8::F,
            old(self)@.wf(),
            old(self).cycle_count + 24 <= u64::MAX,
        ensures
            final(self)@ == Self::spec_ld_r8_ptrr16(old(self)@, target, source),
            final(self)@.wf(),
    {
        let val = self.read_d8_from_ptrr16(source);
        self.gp_registers.set_r8(target, val);
        self.cycle(8);
    }

    /// The state after `LD (r16),r8`: the source register stored to the
    /// byte the pair points at, dropped where that byte is read-only;
    /// cost 8.
    pub open spec fn spec_ld_ptrr16_r8(pre: CpuView, target: r16, source: r8) -> CpuView {
        pre.mem_put(pre.regs.spec_r16(target), pre.regs.spec_r8(source)).with_cycles(8)
    }

    /// Stores a register to the byte a register pair points at.
    pub fn ld_ptrr16_r8(&mut self, target: r16, source: r8)
        requires
            source != r8::F,
            old(self)@.wf(),
            old(self).cycle_count + 24 <= u64::MAX,
        ensures
            final(self)@ == Self::spec_ld_ptrr16_r8(old(self)@, target, source),
            final(self)@.wf(),
    {
        let val = self.gp_registers.get_r8(source);
        self.write_d8_to_ptrr16(target, val);
        self.cycle(8);
    }

    /// The state after `LD (a16),SP`: the operand word names an address,
    /// and the stack pointer is stored there as a word, low byte first;
    /// cost 20.
    #[allow(non_snake_case)]
    pub open spec fn spec_ld_a16_SP(pre: CpuView) -> CpuView {
        let (ptr, fetched) = fetch16(pre);
        fetched.mem_put16(ptr, fetched.sp).with_cycles(20)
    }

    /// Stores the stack pointer to the address the operand word names.
    #[allow(non_snake_case)]
    pub fn ld_a16_SP(&mut self)
        requires
            old(self)@.wf(),
            old(self).cycle_count + 24 <= u64::MAX,
        ensures
            final(self)@ == Self::spec_ld_a16_SP(old(self)@),
            final(self)@.wf(),
    {
        let ptr = self.read_next_d16();
        let sp = self.stack_pointer;
        let _ = self.memory.put_d16(a16::from_d16(ptr), sp);
        self.cycle(20);
    }

    /// The state after `LD (a16),r8`: the operand word names an address,
    /// and the register is stored there; cost 16.
    pub open spec fn spec_ld_a16_r8(pre: CpuView, reg: r8) -> CpuView {
        let (ptr, fetched) = fetch16(pre);
        fetched.mem_put(ptr, fetched.regs.spec_r8(reg)).with_cycles(16)
    }

    /// Stores a register to the address the operand word names.
    pub fn ld_a16_r8(&mut self, reg: r8)
        requires
            reg != r8::F,
            old(self)@.wf(),
            old(self).cycle_count + 24 <= u64::MAX,
        ensures
            final(self)@ == Self::spec_ld_a16_r8(old(self)@, reg),
            final(self)@.wf(),
    {
        let ptr = self.read_next_d16();
        let val = self.gp_registers.get_r8(reg);
        let _ = self.memory.put_d8(a16::from_d16(ptr), val);
        self.cycle(16);
    }

    /// The state after `LD r8,r8`: the source register copied into the
    /// target; cost 4.
    pub open spec fn spec_ld_r8_r8(pre: CpuView, target: r8, source: r8) -> CpuView {
        pre.with_regs(pre.regs.with_r8(target, pre.regs.spec_r8(source))).with_cycles(4)
    }

    /// Copies one 8-bit register into another.
    pub fn ld_r8_r8(&mut self, target: r8, source: r8)
        requires
            target != r8::F,
            source != r8::F,
            old(self)@.wf(),
            old(self).cycle_count + 24 <= u64::MAX,
        ensures
            final(self)@ == Self::spec_ld_r8_r8(old(self)@, target, source),
            final(self)@.wf(),
    {
        let val = self.gp_registers.get_r8(source);
        self.gp_registers.set_r8(target, val);
        self.cycle(4);
    }

    /// The state after `LD r16,d16`: the operand word loaded into the
    /// pair; cost 12.
    pub open spec fn spec_ld_r16_d16(pre: CpuView, reg: r16) -> CpuView {
        let (v, fetched) = fetch16(pre);
        fetched.with_regs(fetched.regs.with_r16(reg, v)).with_cycles(12)
    }

    /// Loads the operand word into a 16-bit register pair.
    pub fn ld_r16_d16(&mut self, reg: r16)
        requires
            old(self)@.wf(),
            old(self).cycle_count + 24 <= u64::MAX,
        ensures
            final(self)@ == Self::spec_ld_r16_d16(old(self)@, reg),
            final(self)@.wf(),
    {
        let v = self.read_next_d16();
        self.gp_registers.set_r16(reg, v);
        self.cycle(12);
    }

    /// The state after `LD SP,d16`: the operand word loaded into the
    /// stack pointer; cost 12.
    pub open spec fn spec_ld_sp_d16(pre: CpuView) -> CpuView {
        let (v, fetched) = fetch16(pre);
        fetched.with_sp(v).with_cycles(12)
    }

    /// Loads the operand word into the stack pointer.
    pub fn ld_sp_d16(&mut self)
        requires
            old(self)@.wf(),
            old(self).cycle_count + 24 <= u64::MAX,
        ensures
            final(self)@ == Self::spec_ld_sp_d16(old(self)@),
            final(self)@.wf(),
    {
        let v = self.read_next_d16();
        self.stack_pointer = v;
        self.cycle(12);
    }

    /// The state after `LD SP,HL`: the HL pair copied into the stack
    /// pointer; cost 4.
    pub open spec fn spec_ld_sp_hl(pre: CpuView) -> CpuView {
        pre.with_sp(pre.regs.spec_r16(r16::HL)).with_cycles(4)
    }

    /// Copies HL into the stack pointer.
    pub fn ld_sp_hl(&mut self)
        requires
            old(self)@.wf(),
            old(self).cycle_count + 24 <= u64::MAX,
        ensures
            final(self)@ == Self::spec_ld_sp_hl(old(self)@),
            final(self)@.wf(),
    {
        self.stack_pointer = self.gp_registers.get_r16(r16::HL);
        self.cycle(4);
    }

    /// The state after `LD r8,d8`: the operand byte loaded into the
    /// register; cost 8.
    pub open spec fn spec_ld_r8_d8(pre: CpuView, reg: r8) -> CpuView {
        let (v, fetched) = fetch8(pre);
        fetched.with_regs(fetched.regs.with_r8(reg, v)).with_cycles(8)
    }

    /// Loads the operand byte into an 8-bit register.
    pub fn ld_r8_d8(&mut self, reg: r8)
        requires
            reg != r8::F,
            old(self)@.wf(),
            old(self).cycle_count + 24 <= u64::MAX,
        ensures
            final(self)@ == Self::spec_ld_r8_d8(old(self)@, reg),
            final(self)@.wf(),
    {
        let v = self.read_next_d8();
        self.gp_registers.set_r8(reg, v);
        self.cycle(8);
    }

    /// The state after `LD r16,r8`: the 8-bit source widened to a word
    /// and loaded into the pair, so the pair's low half holds the
    /// register and its high half is zero; cost 8.
    pub open spec fn spec_ld_r16_r8(pre: CpuView, target: r16, source: r8) -> CpuView {
        pre.with_regs(pre.regs.with_r16(target, pre.regs.spec_r8(source) as u16)).with_cycles(8)
    }

    /// Copies an 8-bit register into a pair as a zero-extended word.
    pub fn ld_r16_r8(&mut self, target: r16, source: r8)
        requires
            source != r8::F,
            old(self)@.wf(),
            old(self).cycle_count + 24 <= u64::MAX,
        ensures
            final(self)@ == Self::spec_ld_r16_r8(old(self)@, target, source),
            final(self)@.wf(),
    {
        let v = self.gp_registers.get_r8(source);
        self.gp_registers.set_r16(target, d16(v.0 as u16));
        self.cycle(8);
    }
}

} // verus!
