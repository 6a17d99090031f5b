//! Subroutine calls and returns. A call pushes the current program
//! counter — the return address, since the operand word has already been
//! consumed — onto the stack and jumps; a return pops a word into the
//! program counter. The conditional forms pay the full cost only when the
//! condition holds: call 24 taken against 12 not taken, return 20 taken
//! against 8 not taken.

use vstd::prelude::*;
use crate::number_types::a16_type::a16;
use crate::cpu::Cpu;
use crate::cpu::CpuView;
use crate::cpu::fetch16;
use crate::cpu::registers::Conditions;

verus! {

impl Cpu {
    /// The state after transferring control to an address with the
    /// current program counter saved: the counter pushed, then replaced.
    pub open spec fn spec_call_addr(pre: CpuView, addr: u16) -> CpuView {
        Self::spec_d16_to_stack(pre, pre.pc).with_pc(addr)
    }

    /// Pushes the current program counter and jumps to the address.
    pub fn call_addr(&mut self, addr: a16)
        requires
            old(self)@.wf(),
        ensures
            final(self)@ == Self::spec_call_addr(old(self)@, addr.0),
            final(self)@.wf(),
    {
        let pc = self.program_counter;
        self.d16_to_stack(pc);
        self.program_counter = addr.to_d16();
    }

    /// The state after `CALL a16`: the operand word consumed, the return
    /// address pushed, control transferred; cost 24.
    pub open spec fn spec_call(pre: CpuView) -> CpuView {
        let (addr, fetched) = fetch16(pre);
        Self::spec_call_addr(fetched, addr).with_cycles(24)
    }

    /// Calls the subroutine the operand word names.
    pub fn call(&mut self)
        requires
            old(self)@.wf(),
            old(self).cycle_count + 24 <= u64::MAX,
        ensures
            final(self)@ == Self::spec_call(old(self)@),
            final(self)@.wf(),
    {
        let address = a16::from_d16(self.read_next_d16());
        self.call_addr(address);
        self.cycle(24);
    }

    /// The state after a conditional `CALL`: the operand word is consumed
    /// either way; the call happens, at cost 24, only when the condition
    /// holds, and otherwise only the smaller cost 12 is paid.
    pub open spec fn spec_call_if(pre: CpuView, cond: Conditions) -> CpuView {
        let (addr, fetched) = fetch16(pre);
        if pre.regs.spec_check(cond) {
            Self::spec_call_addr(fetched, addr).with_cycles(24)
        } else {
            fetched.with_cycles(12)
        }
    }

    /// Calls the subroutine the operand word names, if the condition
    /// holds.
    pub fn call_if(&mut self, cond: Conditions)
        requires
            old(self)@.wf(),
            old(self).cycle_count + 24 <= u64::MAX,
        ensures
            final(self)@ == Self::spec_call_if(old(self)@, cond),
            final(self)@.wf(),
    {
        let address = a16::from_d16(self.read_next_d16());
        if self.gp_registers.check_condition(cond) {
            self.call_addr(address);
            self.cycle(24);
        } else {
            self.cycle(12);
        }
    }

    /// The state after `RET`: a word popped into the program counter;
    /// cost 16.
    pub open spec fn spec_ret(pre: CpuView) -> CpuView {
        let popped = Self::spec_d16_from_stack(pre);
        popped.1.with_pc(popped.0).with_cycles(16)
    }

    /// Returns from a subroutine.
    pub fn ret(&mut self)
        requires
            old(self)@.wf(),
            old(self).cycle_count + 24 <= u64::MAX,
        ensures
            final(self)@ == Self::spec_ret(old(self)@),
            final(self)@.wf(),
    {
        let address = self.d16_from_stack();
        self.program_counter = address;
        self.cycle(16);
    }

    /// The state after a conditional `RET`: the return happens, at cost
    /// 20, only when the condition holds, and otherwise only the smaller
    /// cost 8 is paid.
    pub open spec fn spec_return_if(pre: CpuView, cond: Conditions) -> CpuView {
        if pre.regs.spec_check(cond) {
            Self::spec_ret(pre).with_cycles(4)
        } else {
            pre.with_cycles(8)
        }
    }

    /// Returns from a subroutine, if the condition holds.
    pub fn return_if(&mut self, cond: Conditions)
        requires
            old(self)@.wf(),
            old(self).cycle_count + 24 <= u64::MAX,
        ensures
            final(self)@ == Self::spec_return_if(old(self)@, cond),
            final(self)@.wf(),
    {
        if self.gp_registers.check_condition(cond) {
            self.ret();
            self.cycle(4);
        } else {
            self.cycle(8);
        }
    }
}

} // verus!
