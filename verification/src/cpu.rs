//! The CPU proper: the register file, the execution state (stack pointer,
//! program counter, cycle counter, owned memory) and the instruction
//! execution engine.

use vstd::prelude::*;
use crate::number_types::d8_type::d8;
use crate::number_types::d16_type::d16;
use crate::number_types::d16_type::word_add;
use crate::number_types::d16_type::word_of;
use crate::number_types::d16_type::lsb_of;
use crate::number_types::d16_type::msb_of;
use crate::number_types::a16_type::a16;
use crate::memory::Memory;
use crate::memory::MemView;
use crate::memory::mem_wf;
use crate::memory::mem_init;
use crate::memory::read0;
use crate::memory::spec_put;
use crate::cpu::registers::Registers;
use crate::cpu::registers::initial_regs;
use crate::cpu::registers::r8;
use crate::cpu::registers::r16;
use crate::cpu::registers::Flags;
use crate::cpu::registers::Conditions;
use crate::instructions::RawOpcode;
use crate::instructions::is_illegal;
use crate::instructions::is_unimplemented;
use crate::instructions::is_defined;

pub mod registers;

pub mod addition;

pub mod subtraction;

pub mod bit_ops;

pub mod increment;

pub mod load_ops;

pub mod stack;

pub mod function_calls;

pub mod jump;

pub mod jump_relative;

pub mod laws;

verus! {

/// The hardware revision a CPU is built as. The revision fixes only the
/// initial register-file contents; behaviour is otherwise identical.
#[derive(Copy, Clone, Debug, PartialEq, Eq, Structural)]
pub enum CpuMode {
    DMG,
    MGB,
    CGB,
}

/// Why the engine refused an opcode: a reserved value with no behaviour at
/// all, or a recognised value whose behaviour is not finished.
#[derive(Copy, Clone, Debug, PartialEq, Eq, Structural)]
pub enum ExecError {
    BadInstruction,
    Unimplemented,
}

/// The mathematical state of a CPU: the register file, stack pointer,
/// program counter, the cycle counter (unbounded here; the machine
/// counter is 64 bits wide) and the memory contents.
pub struct CpuView {
    pub regs: Registers,
    pub sp: u16,
    pub pc: u16,
    pub cycles: nat,
    pub mem: MemView,
}

impl CpuView {
    /// Well-formedness: the register file and memory invariants hold and
    /// the cycle counter is a multiple of 4, as every cost is.
    pub open spec fn wf(self) -> bool {
        self.regs.wf() && mem_wf(self.mem) && self.cycles % 4 == 0
    }

    /// The state with a cost added to the cycle counter.
    pub open spec fn with_cycles(self, count: nat) -> CpuView {
        CpuView { cycles: self.cycles + count, ..self }
    }

    /// The state with the register file replaced.
    pub open spec fn with_regs(self, r: Registers) -> CpuView {
        CpuView { regs: r, ..self }
    }

    /// The state with the stack pointer replaced.
    pub open spec fn with_sp(self, sp: u16) -> CpuView {
        CpuView { sp: sp, ..self }
    }

    /// The state with the program counter replaced.
    pub open spec fn with_pc(self, pc: u16) -> CpuView {
        CpuView { pc: pc, ..self }
    }

    /// The state after a one-byte write to memory; a write to a read-only
    /// or unmapped address changes nothing.
    pub open spec fn mem_put(self, a: u16, v: u8) -> CpuView {
        CpuView { mem: spec_put(self.mem, a, v), ..self }
    }

    /// The state after a word write to memory: low byte at the address,
    /// high byte one past it, each landing by its own region's rule.
    pub open spec fn mem_put16(self, a: u16, v: u16) -> CpuView {
        CpuView {
            mem: spec_put(spec_put(self.mem, a, lsb_of(v)), word_add(a, 1), msb_of(v)),
            ..self
        }
    }
}

/// One operand byte consumed at the program counter: the byte read there
/// (zero where absent) and the state with the counter advanced past it.
pub open spec fn fetch8(pre: CpuView) -> (u8, CpuView) {
    (read0(pre.mem, pre.pc), pre.with_pc(word_add(pre.pc, 1)))
}

/// One operand word consumed at the program counter, low byte first.
pub open spec fn fetch16(pre: CpuView) -> (u16, CpuView) {
    (
        word_of(read0(pre.mem, pre.pc), read0(pre.mem, word_add(pre.pc, 1))),
        pre.with_pc(word_add(pre.pc, 2)),
    )
}

/// The initial state of a CPU of the given hardware revision: the
/// revision's register values, stack pointer 0xfffe, program counter
/// 0x0100, no cycles spent, memory all zero.
pub open spec fn initial_cpu(mode: CpuMode) -> CpuView {
    CpuView { regs: initial_regs(mode), sp: 0xfffe, pc: 0x0100, cycles: 0, mem: mem_init() }
}

/// The CPU: a register file, a stack pointer, a program counter, a
/// monotonic cycle counter, and exclusive ownership of one memory.
pub struct Cpu {
    pub gp_registers: Registers,
    pub stack_pointer: d16,
    pub program_counter: d16,
    pub cycle_count: u64,
    pub memory: Memory,
}

impl View for Cpu {
    type V = CpuView;

    open spec fn view(&self) -> CpuView {
        CpuView {
            regs: self.gp_registers,
            sp: self.stack_pointer.0,
            pc: self.program_counter.0,
            cycles: self.cycle_count as nat,
            mem: self.memory@,
        }
    }
}

impl Cpu {
    /// A fresh CPU of the given hardware revision.
    pub fn new(mode: CpuMode) -> (r: Cpu)
        ensures
            r@ == initial_cpu(mode),
            r@.wf(),
    {
        Cpu {
            gp_registers: Registers::new(mode),
            stack_pointer: d16(0xfffe),
            program_counter: d16(0x0100),
            cycle_count: 0,
            memory: Memory::new_zeros(),
        }
    }

    /// Spends a fixed instruction cost. Every cost is a multiple of 4;
    /// some sources quote the count divided by 4 instead.
    pub(crate) fn cycle(&mut self, count: u64)
        requires
            count % 4 == 0,
            old(self).cycle_count + count <= u64::MAX,
        ensures
            final(self)@ == old(self)@.with_cycles(count as nat),
    {
        self.cycle_count = self.cycle_count + count;
    }

    /// Consumes one operand byte at the program counter, advancing it; an
    /// absent byte reads as zero.
    pub(crate) fn read_next_d8(&mut self) -> (v: d8)
        requires
            old(self)@.wf(),
        ensures
            v.0 == fetch8(old(self)@).0,
            final(self)@ == fetch8(old(self)@).1,
    {
        let val = match self.memory.read_d8(a16(self.program_counter.0)) {
            Some(v) => v,
            None => d8(0),
        };
        self.program_counter = self.program_counter.wrapping_add_u16(1);
        val
    }

    /// Consumes one operand word at the program counter, low byte first,
    /// advancing it past both bytes; absent bytes read as zero.
    pub(crate) fn read_next_d16(&mut self) -> (v: d16)
        requires
            old(self)@.wf(),
        ensures
            v.0 == fetch16(old(self)@).0,
            final(self)@ == fetch16(old(self)@).1,
    {
        let val = match self.memory.read_d16(a16(self.program_counter.0)) {
            Some(v) => v,
            None => d16(0),
        };
        self.program_counter = self.program_counter.wrapping_add_u16(2);
        val
    }

    /// Reads the word a register pair points at; absent bytes read as
    /// zero.
    pub(crate) fn read_d16_from_ptrr16(&self, reg: r16) -> (v: d16)
        requires
            self@.wf(),
        ensures
            v.0 == word_of(
                read0(self@.mem, self@.regs.spec_r16(reg)),
                read0(self@.mem, word_add(self@.regs.spec_r16(reg), 1)),
            ),
    {
        match self.memory.read_d16(a16(self.gp_registers.get_r16(reg).0)) {
            Some(v) => v,
            None => d16(0),
        }
    }

    /// Writes a word where a register pair points; halves falling on
    /// read-only or unmapped bytes are dropped.
    pub(crate) fn write_d16_to_ptrr16(&mut self, reg: r16, val: d16)
        requires
            old(self)@.wf(),
        ensures
            final(self)@ == old(self)@.mem_put16(old(self)@.regs.spec_r16(reg), val.0),
            final(self)@.wf(),
    {
        let _ = self.memory.put_d16(a16(self.gp_registers.get_r16(reg).0), val);
    }

    /// Reads the byte a register pair points at; an absent byte reads as
    /// zero.
    pub(crate) fn read_d8_from_ptrr16(&self, reg: r16) -> (v: d8)
        requires
            self@.wf(),
        ensures
            v.0 == read0(self@.mem, self@.regs.spec_r16(reg)),
    {
        match self.memory.read_d8(a16(self.gp_registers.get_r16(reg).0)) {
            Some(v) => v,
            None => d8(0),
        }
    }

    /// Writes a byte where a register pair points; a write to a read-only
    /// or unmapped byte is dropped.
    pub(crate) fn write_d8_to_ptrr16(&mut self, reg: r16, val: d8)
        requires
            old(self)@.wf(),
        ensures
            final(self)@ == old(self)@.mem_put(old(self)@.regs.spec_r16(reg), val.0),
            final(self)@.wf(),
    {
        let _ = self.memory.put_d8(a16(self.gp_registers.get_r16(reg).0), val);
    }

    /// The state after `SCF`-style carry assignment: the Carry flag takes
    /// the given value, the other flags keep theirs; cost 4.
    pub open spec fn spec_set_carry(pre: CpuView, value: bool) -> CpuView {
        pre.with_regs(pre.regs.with_flag(Flags::C, value)).with_cycles(4)
    }

    /// Sets the Carry flag alone.
    pub fn set_carry(&mut self, value: bool)
        requires
            old(self)@.wf(),
            old(self).cycle_count + 24 <= u64::MAX,
        ensures
            final(self)@ == Self::spec_set_carry(old(self)@, value),
            final(self)@.wf(),
    {
        self.gp_registers.set_flag(Flags::C, value);
        self.cycle(4);
    }

    /// The state after `NOP`: nothing changes but the cycle counter.
    pub open spec fn spec_nop(pre: CpuView) -> CpuView {
        pre.with_cycles(4)
    }

    /// Does nothing, at cost 4.
    pub fn nop(&mut self)
        requires
            old(self)@.wf(),
            old(self).cycle_count + 24 <= u64::MAX,
        ensures
            final(self)@ == Self::spec_nop(old(self)@),
            final(self)@.wf(),
    {
        self.cycle(4);
    }
}


/// The full effect of one defined instruction on the CPU state: the
/// program counter first advances past the opcode, then the opcode's
/// behaviour applies. For a reserved or unimplemented opcode this yields
/// the state unchanged; the engine refuses such opcodes instead.
pub open spec fn step(pre: CpuView, ins: RawOpcode) -> CpuView {
    let p = pre.with_pc(word_add(pre.pc, 1));
    match ins {
        RawOpcode::NOP => Cpu::spec_nop(p),
        RawOpcode::LD_BC_d16 => Cpu::spec_ld_r16_d16(p, r16::BC),
        RawOpcode::LD_BC_A => Cpu::spec_ld_r16_r8(p, r16::BC, r8::A),
        RawOpcode::INC_BC => Cpu::spec_inc_r16(p, r16::BC),
        RawOpcode::INC_B => Cpu::spec_inc_r8(p, r8::B),
        RawOpcode::DEC_B => Cpu::spec_dec_r8(p, r8::B),
        RawOpcode::LD_B_d8 => Cpu::spec_ld_r8_d8(p, r8::B),
        RawOpcode::RLCA => Cpu::spec_rotate_left_carry(p, r8::A),
        RawOpcode::LD_a16_SP => Cpu::spec_ld_a16_SP(p),
        RawOpcode::ADD_HL_BC => Cpu::spec_add_r16_r16(p, r16::HL, r16::BC),
        RawOpcode::LD_A_ptrBC => Cpu::spec_ld_r8_ptrr16(p, r8::A, r16::BC),
        RawOpcode::DEC_BC => Cpu::spec_dec_r16(p, r16::BC),
        RawOpcode::INC_C => Cpu::spec_inc_r8(p, r8::C),
        RawOpcode::DEC_C => Cpu::spec_dec_r8(p, r8::C),
        RawOpcode::LD_C_d8 => Cpu::spec_ld_r8_d8(p, r8::C),
        RawOpcode::RRCA => Cpu::spec_rotate_right_carry(p, r8::A),
        RawOpcode::LD_DE_d16 => Cpu::spec_ld_r16_d16(p, r16::DE),
        RawOpcode::LD_DE_A => Cpu::spec_ld_r16_r8(p, r16::DE, r8::A),
        RawOpcode::INC_DE => Cpu::spec_inc_r16(p, r16::DE),
        RawOpcode::INC_D => Cpu::spec_inc_r8(p, r8::D),
        RawOpcode::DEC_D => Cpu::spec_dec_r8(p, r8::D),
        RawOpcode::LD_D_d8 => Cpu::spec_ld_r8_d8(p, r8::D),
        RawOpcode::RLA => Cpu::spec_rotate_left(p, r8::A),
        RawOpcode::JR_d8 => Cpu::spec_jr_d8(p),
        RawOpcode::ADD_HL_DE => Cpu::spec_add_r16_r16(p, r16::HL, r16::DE),
        RawOpcode::LD_A_ptrDE => Cpu::spec_ld_r8_ptrr16(p, r8::A, r16::DE),
        RawOpcode::DEC_DE => Cpu::spec_dec_r16(p, r16::DE),
        RawOpcode::INC_E => Cpu::spec_inc_r8(p, r8::E),
        RawOpcode::DEC_E => Cpu::spec_dec_r8(p, r8::E),
        RawOpcode::LD_E_d8 => Cpu::spec_ld_r8_d8(p, r8::E),
        RawOpcode::RRA => Cpu::spec_rotate_right(p, r8::A),
        RawOpcode::JR_NZ_d8 => Cpu::spec_jr_cond_d8(p, Conditions::NZ),
        RawOpcode::LD_HL_d16 => Cpu::spec_ld_r16_d16(p, r16::HL),
        RawOpcode::INC_HL => Cpu::spec_inc_r16(p, r16::HL),
        RawOpcode::INC_H => Cpu::spec_inc_r8(p, r8::H),
        RawOpcode::DEC_H => Cpu::spec_dec_r8(p, r8::H),
        RawOpcode::LD_H_d8 => Cpu::spec_ld_r8_d8(p, r8::H),
        RawOpcode::JR_Z_d8 => Cpu::spec_jr_cond_d8(p, Conditions::Z),
        RawOpcode::ADD_HL_HL => Cpu::spec_add_r16_r16(p, r16::HL, r16::HL),
        RawOpcode::DEC_HL => Cpu::spec_dec_r16(p, r16::HL),
        RawOpcode::INC_L => Cpu::spec_inc_r8(p, r8::L),
        RawOpcode::DEC_L => Cpu::spec_dec_r8(p, r8::L),
        RawOpcode::LD_L_d8 => Cpu::spec_ld_r8_d8(p, r8::L),
        RawOpcode::CPL => Cpu::spec_compliment_r8(p, r8::A),
        RawOpcode::JR_NC_d8 => Cpu::spec_jr_cond_d8(p, Conditions::NC),
        RawOpcode::LD_SP_d16 => Cpu::spec_ld_sp_d16(p),
        RawOpcode::INC_SP => Cpu::spec_inc_sp(p),
        RawOpcode::INC_ptrHL => Cpu::spec_inc_ptrr16(p, r16::HL),
        RawOpcode::DEC_ptrHL => Cpu::spec_dec_ptrr16(p, r16::HL),
        RawOpcode::SCF => Cpu::spec_set_carry(p, true),
        RawOpcode::JR_C_d8 => Cpu::spec_jr_cond_d8(p, Conditions::C),
        RawOpcode::ADD_HL_SP => Cpu::spec_add_sp_into(p, r16::HL),
        RawOpcode::DEC_SP => Cpu::spec_dec_sp(p),
        RawOpcode::INC_A => Cpu::spec_inc_r8(p, r8::A),
        RawOpcode::DEC_A => Cpu::spec_dec_r8(p, r8::A),
        RawOpcode::CCF => Cpu::spec_set_carry(p, !p.regs.spec_flag(Flags::C)),
        RawOpcode::LD_B_B => Cpu::spec_ld_r8_r8(p, r8::B, r8::B),
        RawOpcode::LD_B_C => Cpu::spec_ld_r8_r8(p, r8::B, r8::C),
        RawOpcode::LD_B_D => Cpu::spec_ld_r8_r8(p, r8::B, r8::D),
        RawOpcode::LD_B_E => Cpu::spec_ld_r8_r8(p, r8::B, r8::E),
        RawOpcode::LD_B_H => Cpu::spec_ld_r8_r8(p, r8::B, r8::H),
        RawOpcode::LD_B_L => Cpu::spec_ld_r8_r8(p, r8::B, r8::L),
        RawOpcode::LD_B_A => Cpu::spec_ld_r8_r8(p, r8::B, r8::A),
        RawOpcode::LD_B_ptrHL => Cpu::spec_ld_r8_ptrr16(p, r8::B, r16::HL),
        RawOpcode::LD_C_B => Cpu::spec_ld_r8_r8(p, r8::C, r8::B),
        RawOpcode::LD_C_C => Cpu::spec_ld_r8_r8(p, r8::C, r8::C),
        RawOpcode::LD_C_D => Cpu::spec_ld_r8_r8(p, r8::C, r8::D),
        RawOpcode::LD_C_E => Cpu::spec_ld_r8_r8(p, r8::C, r8::E),
        RawOpcode::LD_C_H => Cpu::spec_ld_r8_r8(p, r8::C, r8::H),
        RawOpcode::LD_C_L => Cpu::spec_ld_r8_r8(p, r8::C, r8::L),
        RawOpcode::LD_C_A => Cpu::spec_ld_r8_r8(p, r8::C, r8::A),
        RawOpcode::LD_C_ptrHL => Cpu::spec_ld_r8_ptrr16(p, r8::C, r16::HL),
        RawOpcode::LD_D_B => Cpu::spec_ld_r8_r8(p, r8::D, r8::B),
        RawOpcode::LD_D_C => Cpu::spec_ld_r8_r8(p, r8::D, r8::C),
        RawOpcode::LD_D_D => Cpu::spec_ld_r8_r8(p, r8::D, r8::D),
        RawOpcode::LD_D_E => Cpu::spec_ld_r8_r8(p, r8::D, r8::E),
        RawOpcode::LD_D_H => Cpu::spec_ld_r8_r8(p, r8::D, r8::H),
        RawOpcode::LD_D_L => Cpu::spec_ld_r8_r8(p, r8::D, r8::L),
        RawOpcode::LD_D_A => Cpu::spec_ld_r8_r8(p, r8::D, r8::A),
        RawOpcode::LD_D_ptrHL => Cpu::spec_ld_r8_ptrr16(p, r8::D, r16::HL),
        RawOpcode::LD_E_B => Cpu::spec_ld_r8_r8(p, r8::E, r8::B),
        RawOpcode::LD_E_C => Cpu::spec_ld_r8_r8(p, r8::E, r8::C),
        RawOpcode::LD_E_D => Cpu::spec_ld_r8_r8(p, r8::E, r8::D),
        RawOpcode::LD_E_E => Cpu::spec_ld_r8_r8(p, r8::E, r8::E),
        RawOpcode::LD_E_H => Cpu::spec_ld_r8_r8(p, r8::E, r8::H),
        RawOpcode::LD_E_L => Cpu::spec_ld_r8_r8(p, r8::E, r8::L),
        RawOpcode::LD_E_A => Cpu::spec_ld_r8_r8(p, r8::E, r8::A),
        RawOpcode::LD_E_ptrHL => Cpu::spec_ld_r8_ptrr16(p, r8::E, r16::HL),
        RawOpcode::LD_H_B => Cpu::spec_ld_r8_r8(p, r8::H, r8::B),
        RawOpcode::LD_H_C => Cpu::spec_ld_r8_r8(p, r8::H, r8::C),
        RawOpcode::LD_H_D => Cpu::spec_ld_r8_r8(p, r8::H, r8::D),
        RawOpcode::LD_H_E => Cpu::spec_ld_r8_r8(p, r8::H, r8::E),
        RawOpcode::LD_H_H => Cpu::spec_ld_r8_r8(p, r8::H, r8::H),
        RawOpcode::LD_H_L => Cpu::spec_ld_r8_r8(p, r8::H, r8::L),
        RawOpcode::LD_H_A => Cpu::spec_ld_r8_r8(p, r8::H, r8::A),
        RawOpcode::LD_H_ptrHL => Cpu::spec_ld_r8_ptrr16(p, r8::H, r16::HL),
        RawOpcode::LD_L_B => Cpu::spec_ld_r8_r8(p, r8::L, r8::B),
        RawOpcode::LD_L_C => Cpu::spec_ld_r8_r8(p, r8::L, r8::C),
        RawOpcode::LD_L_D => Cpu::spec_ld_r8_r8(p, r8::L, r8::D),
        RawOpcode::LD_L_E => Cpu::spec_ld_r8_r8(p, r8::L, r8::E),
        RawOpcode::LD_L_H => Cpu::spec_ld_r8_r8(p, r8::L, r8::H),
        RawOpcode::LD_L_L => Cpu::spec_ld_r8_r8(p, r8::L, r8::L),
        RawOpcode::LD_L_A => Cpu::spec_ld_r8_r8(p, r8::L, r8::A),
        RawOpcode::LD_L_ptrHL => Cpu::spec_ld_r8_ptrr16(p, r8::L, r16::HL),
        RawOpcode::LD_A_B => Cpu::spec_ld_r8_r8(p, r8::A, r8::B),
        RawOpcode::LD_A_C => Cpu::spec_ld_r8_r8(p, r8::A, r8::C),
        RawOpcode::LD_A_D => Cpu::spec_ld_r8_r8(p, r8::A, r8::D),
        RawOpcode::LD_A_E => Cpu::spec_ld_r8_r8(p, r8::A, r8::E),
        RawOpcode::LD_A_H => Cpu::spec_ld_r8_r8(p, r8::A, r8::H),
        RawOpcode::LD_A_L => Cpu::spec_ld_r8_r8(p, r8::A, r8::L),
        RawOpcode::LD_A_A => Cpu::spec_ld_r8_r8(p, r8::A, r8::A),
        RawOpcode::LD_A_ptrHL => Cpu::spec_ld_r8_ptrr16(p, r8::A, r16::HL),
        RawOpcode::LD_ptrHL_B => Cpu::spec_ld_ptrr16_r8(p, r16::HL, r8::B),
        RawOpcode::LD_ptrHL_C => Cpu::spec_ld_ptrr16_r8(p, r16::HL, r8::C),
        RawOpcode::LD_ptrHL_D => Cpu::spec_ld_ptrr16_r8(p, r16::HL, r8::D),
        RawOpcode::LD_ptrHL_E => Cpu::spec_ld_ptrr16_r8(p, r16::HL, r8::E),
        RawOpcode::LD_ptrHL_H => Cpu::spec_ld_ptrr16_r8(p, r16::HL, r8::H),
        RawOpcode::LD_ptrHL_L => Cpu::spec_ld_ptrr16_r8(p, r16::HL, r8::L),
        RawOpcode::LD_ptrHL_A => Cpu::spec_ld_ptrr16_r8(p, r16::HL, r8::A),
        RawOpcode::ADD_A_B => Cpu::spec_add_r8_r8(p, r8::A, r8::B),
        RawOpcode::ADD_A_C => Cpu::spec_add_r8_r8(p, r8::A, r8::C),
        RawOpcode::ADD_A_D => Cpu::spec_add_r8_r8(p, r8::A, r8::D),
        RawOpcode::ADD_A_E => Cpu::spec_add_r8_r8(p, r8::A, r8::E),
        RawOpcode::ADD_A_H => Cpu::spec_add_r8_r8(p, r8::A, r8::H),
        RawOpcode::ADD_A_L => Cpu::spec_add_r8_r8(p, r8::A, r8::L),
        RawOpcode::ADD_A_A => Cpu::spec_add_r8_r8(p, r8::A, r8::A),
        RawOpcode::ADC_A_B => Cpu::spec_adc_r8_r8(p, r8::A, r8::B),
        RawOpcode::ADC_A_C => Cpu::spec_adc_r8_r8(p, r8::A, r8::C),
        RawOpcode::ADC_A_D => Cpu::spec_adc_r8_r8(p, r8::A, r8::D),
        RawOpcode::ADC_A_E => Cpu::spec_adc_r8_r8(p, r8::A, r8::E),
        RawOpcode::ADC_A_H => Cpu::spec_adc_r8_r8(p, r8::A, r8::H),
        RawOpcode::ADC_A_L => Cpu::spec_adc_r8_r8(p, r8::A, r8::L),
        RawOpcode::ADC_A_A => Cpu::spec_adc_r8_r8(p, r8::A, r8::A),
        RawOpcode::SUB_B => Cpu::spec_sub_r8(p, r8::B),
        RawOpcode::SUB_C => Cpu::spec_sub_r8(p, r8::C),
        RawOpcode::SUB_D => Cpu::spec_sub_r8(p, r8::D),
        RawOpcode::SUB_E => Cpu::spec_sub_r8(p, r8::E),
        RawOpcode::SUB_H => Cpu::spec_sub_r8(p, r8::H),
        RawOpcode::SUB_L => Cpu::spec_sub_r8(p, r8::L),
        RawOpcode::SUB_A => Cpu::spec_sub_r8(p, r8::A),
        RawOpcode::SBC_B => Cpu::spec_sbc_r8(p, r8::B),
        RawOpcode::SBC_C => Cpu::spec_sbc_r8(p, r8::C),
        RawOpcode::SBC_D => Cpu::spec_sbc_r8(p, r8::D),
        RawOpcode::SBC_E => Cpu::spec_sbc_r8(p, r8::E),
        RawOpcode::SBC_H => Cpu::spec_sbc_r8(p, r8::H),
        RawOpcode::SBC_L => Cpu::spec_sbc_r8(p, r8::L),
        RawOpcode::SBC_A => Cpu::spec_sbc_r8(p, r8::A),
        RawOpcode::AND_B => Cpu::spec_and_r8(p, r8::B),
        RawOpcode::AND_C => Cpu::spec_and_r8(p, r8::C),
        RawOpcode::AND_D => Cpu::spec_and_r8(p, r8::D),
        RawOpcode::AND_E => Cpu::spec_and_r8(p, r8::E),
        RawOpcode::AND_H => Cpu::spec_and_r8(p, r8::H),
        RawOpcode::AND_L => Cpu::spec_and_r8(p, r8::L),
        RawOpcode::AND_A => Cpu::spec_and_r8(p, r8::A),
        RawOpcode::XOR_B => Cpu::spec_xor_r8(p, r8::B),
        RawOpcode::XOR_C => Cpu::spec_xor_r8(p, r8::C),
        RawOpcode::XOR_D => Cpu::spec_xor_r8(p, r8::D),
        RawOpcode::XOR_E => Cpu::spec_xor_r8(p, r8::E),
        RawOpcode::XOR_H => Cpu::spec_xor_r8(p, r8::H),
        RawOpcode::XOR_L => Cpu::spec_xor_r8(p, r8::L),
        RawOpcode::XOR_A => Cpu::spec_xor_r8(p, r8::A),
        RawOpcode::OR_B => Cpu::spec_or_r8(p, r8::B),
        RawOpcode::OR_C => Cpu::spec_or_r8(p, r8::C),
        RawOpcode::OR_D => Cpu::spec_or_r8(p, r8::D),
        RawOpcode::OR_E => Cpu::spec_or_r8(p, r8::E),
        RawOpcode::OR_H => Cpu::spec_or_r8(p, r8::H),
        RawOpcode::OR_L => Cpu::spec_or_r8(p, r8::L),
        RawOpcode::OR_A => Cpu::spec_or_r8(p, r8::A),
        RawOpcode::CP_B => Cpu::spec_cp_r8(p, r8::B),
        RawOpcode::CP_C => Cpu::spec_cp_r8(p, r8::C),
        RawOpcode::CP_D => Cpu::spec_cp_r8(p, r8::D),
        RawOpcode::CP_E => Cpu::spec_cp_r8(p, r8::E),
        RawOpcode::CP_H => Cpu::spec_cp_r8(p, r8::H),
        RawOpcode::CP_L => Cpu::spec_cp_r8(p, r8::L),
        RawOpcode::CP_A => Cpu::spec_cp_r8(p, r8::A),
        RawOpcode::RET_NZ => Cpu::spec_return_if(p, Conditions::NZ),
        RawOpcode::POP_BC => Cpu::spec_pop_r16(p, r16::BC),
        RawOpcode::JP_NZ => Cpu::spec_jp_cond_a16(p, Conditions::NZ),
        RawOpcode::JP => Cpu::spec_jp_a16(p),
        RawOpcode::CALL_NZ => Cpu::spec_call_if(p, Conditions::NZ),
        RawOpcode::PUSH_BC => Cpu::spec_push_r16(p, r16::BC),
        RawOpcode::RET_Z => Cpu::spec_return_if(p, Conditions::Z),
        RawOpcode::RET => Cpu::spec_ret(p),
        RawOpcode::JP_Z => Cpu::spec_jp_cond_a16(p, Conditions::Z),
        RawOpcode::CALL_Z => Cpu::spec_call_if(p, Conditions::Z),
        RawOpcode::CALL => Cpu::spec_call(p),
        RawOpcode::RET_NC => Cpu::spec_return_if(p, Conditions::NC),
        RawOpcode::POP_DE => Cpu::spec_pop_r16(p, r16::DE),
        RawOpcode::JP_NC => Cpu::spec_jp_cond_a16(p, Conditions::NC),
        RawOpcode::CALL_NC => Cpu::spec_call_if(p, Conditions::NC),
        RawOpcode::PUSH_DE => Cpu::spec_push_r16(p, r16::DE),
        RawOpcode::RET_C => Cpu::spec_return_if(p, Conditions::C),
        RawOpcode::JP_C => Cpu::spec_jp_cond_a16(p, Conditions::C),
        RawOpcode::CALL_C => Cpu::spec_call_if(p, Conditions::C),
        RawOpcode::LDH_a8_A => Cpu::spec_ldh_a8_r8(p, r8::A),
        RawOpcode::POP_HL => Cpu::spec_pop_r16(p, r16::HL),
        RawOpcode::LDH_C_A => Cpu::spec_ldh_c_r8(p, r8::A),
        RawOpcode::PUSH_HL => Cpu::spec_push_r16(p, r16::HL),
        RawOpcode::ADD_SP_d8 => Cpu::spec_add_sp_d8(p),
        RawOpcode::LD_a16_A => Cpu::spec_ld_a16_r8(p, r8::A),
        RawOpcode::LDH_A_a8 => Cpu::spec_ldh_r8_a8(p, r8::A),
        RawOpcode::POP_AF => Cpu::spec_pop_r16(p, r16::AF),
        RawOpcode::LDH_A_C => Cpu::spec_ldh_r8_c(p, r8::A),
        RawOpcode::PUSH_AF => Cpu::spec_push_r16(p, r16::AF),
        RawOpcode::LD_SP_HL => Cpu::spec_ld_sp_hl(p),
        _ => pre,
    }
}


impl Cpu {
    /// Executes exactly one instruction. The program counter advances past
    /// the opcode before any operand byte is consumed; the opcode's
    /// behaviour then applies its register, memory, flag and cycle effects,
    /// as `step` states. A reserved opcode is refused as a bad instruction
    /// and an unfinished one as unimplemented; in either case the CPU is
    /// left exactly as it was, and the caller decides how to abort.
    #[verifier::rlimit(100)]
    #[verifier::spinoff_prover]
    pub fn process_instruction(&mut self, ins: RawOpcode) -> (r: Result<(), ExecError>)
        requires
            old(self)@.wf(),
            old(self).cycle_count + 24 <= u64::MAX,
        ensures
            r is Ok <==> is_defined(ins),
            is_defined(ins) ==> final(self)@ == step(old(self)@, ins),
            is_defined(ins) ==> final(self)@.wf(),
            !is_defined(ins) ==> *final(self) == *old(self),
            is_illegal(ins) ==> r == Err::<(), ExecError>(ExecError::BadInstruction),
            is_unimplemented(ins) ==> r == Err::<(), ExecError>(ExecError::Unimplemented),
    {
        match ins {
            RawOpcode::BAD_0
            | RawOpcode::BAD_1
            | RawOpcode::BAD_2
            | RawOpcode::BAD_3
            | RawOpcode::BAD_4
            | RawOpcode::BAD_5
            | RawOpcode::BAD_6
            | RawOpcode::BAD_7
            | RawOpcode::BAD_8
            | RawOpcode::BAD_9
            | RawOpcode::BAD_a => {
                return Err(ExecError::BadInstruction);
            },
            RawOpcode::STOP_0
            | RawOpcode::LD_ptrHLp_A
            | RawOpcode::DAA
            | RawOpcode::LD_A_ptrHLm
            | RawOpcode::LD_HLm_A
            | RawOpcode::LD_ptrHL_d8
            | RawOpcode::LD_A_HLm
            | RawOpcode::LD_A_d8
            | RawOpcode::HALT
            | RawOpcode::ADD_A_ptrHL
            | RawOpcode::ADC_A_ptrHL
            | RawOpcode::SUB_ptrHL
            | RawOpcode::SBC_ptrHL
            | RawOpcode::AND_ptrHL
            | RawOpcode::XOR_ptrHL
            | RawOpcode::OR_ptrHL
            | RawOpcode::CP_ptrHL
            | RawOpcode::ADD_A_d8
            | RawOpcode::ADC_A_d8
            | RawOpcode::SUB_A_d8
            | RawOpcode::SBC_A_d8
            | RawOpcode::AND_d8
            | RawOpcode::XOR_d8
            | RawOpcode::OR_d8
            | RawOpcode::CP_d8
            | RawOpcode::RST_00H
            | RawOpcode::RST_08H
            | RawOpcode::RST_10H
            | RawOpcode::RST_18H
            | RawOpcode::RST_20H
            | RawOpcode::RST_28H
            | RawOpcode::RST_30H
            | RawOpcode::RST_38H
            | RawOpcode::PREFIX_CB
            | RawOpcode::RETI
            | RawOpcode::DI
            | RawOpcode::EI
            | RawOpcode::JP_ptrHL
            | RawOpcode::LD_HL_SPpd8
            | RawOpcode::LD_A_a16 => {
                return Err(ExecError::Unimplemented);
            },
            _ => {},
        }
        self.program_counter = self.program_counter.wrapping_add_u16(1);
        match ins {
            RawOpcode::NOP => self.nop(),
            RawOpcode::LD_BC_d16 => self.ld_r16_d16(r16::BC),
            RawOpcode::LD_BC_A => self.ld_r16_r8(r16::BC, r8::A),
            RawOpcode::INC_BC => self.inc_r16(r16::BC),
            RawOpcode::INC_B => self.inc_r8(r8::B),
            RawOpcode::DEC_B => self.dec_r8(r8::B),
            RawOpcode::LD_B_d8 => self.ld_r8_d8(r8::B),
            RawOpcode::RLCA => self.rotate_left_carry(r8::A),
            RawOpcode::LD_a16_SP => self.ld_a16_SP(),
            RawOpcode::ADD_HL_BC => self.add_r16_r16(r16::HL, r16::BC),
            RawOpcode::LD_A_ptrBC => self.ld_r8_ptrr16(r8::A, r16::BC),
            RawOpcode::DEC_BC => self.dec_r16(r16::BC),
            RawOpcode::INC_C => self.inc_r8(r8::C),
            RawOpcode::DEC_C => self.dec_r8(r8::C),
            RawOpcode::LD_C_d8 => self.ld_r8_d8(r8::C),
            RawOpcode::RRCA => self.rotate_right_carry(r8::A),
            RawOpcode::LD_DE_d16 => self.ld_r16_d16(r16::DE),
            RawOpcode::LD_DE_A => self.ld_r16_r8(r16::DE, r8::A),
            RawOpcode::INC_DE => self.inc_r16(r16::DE),
            RawOpcode::INC_D => self.inc_r8(r8::D),
            RawOpcode::DEC_D => self.dec_r8(r8::D),
            RawOpcode::LD_D_d8 => self.ld_r8_d8(r8::D),
            RawOpcode::RLA => self.rotate_left(r8::A),
            RawOpcode::JR_d8 => self.jr_d8(),
            RawOpcode::ADD_HL_DE => self.add_r16_r16(r16::HL, r16::DE),
            RawOpcode::LD_A_ptrDE => self.ld_r8_ptrr16(r8::A, r16::DE),
            RawOpcode::DEC_DE => self.dec_r16(r16::DE),
            RawOpcode::INC_E => self.inc_r8(r8::E),
            RawOpcode::DEC_E => self.dec_r8(r8::E),
            RawOpcode::LD_E_d8 => self.ld_r8_d8(r8::E),
            RawOpcode::RRA => self.rotate_right(r8::A),
            RawOpcode::JR_NZ_d8 => self.jr_cond_d8(Conditions::NZ),
            RawOpcode::LD_HL_d16 => self.ld_r16_d16(r16::HL),
            RawOpcode::INC_HL => self.inc_r16(r16::HL),
            RawOpcode::INC_H => self.inc_r8(r8::H),
            RawOpcode::DEC_H => self.dec_r8(r8::H),
            RawOpcode::LD_H_d8 => self.ld_r8_d8(r8::H),
            RawOpcode::JR_Z_d8 => self.jr_cond_d8(Conditions::Z),
            RawOpcode::ADD_HL_HL => self.add_r16_r16(r16::HL, r16::HL),
            RawOpcode::DEC_HL => self.dec_r16(r16::HL),
            RawOpcode::INC_L => self.inc_r8(r8::L),
            RawOpcode::DEC_L => self.dec_r8(r8::L),
            RawOpcode::LD_L_d8 => self.ld_r8_d8(r8::L),
            RawOpcode::CPL => self.compliment_r8(r8::A),
            RawOpcode::JR_NC_d8 => self.jr_cond_d8(Conditions::NC),
            RawOpcode::LD_SP_d16 => self.ld_sp_d16(),
            RawOpcode::INC_SP => self.inc_sp(),
            RawOpcode::INC_ptrHL => self.inc_ptrr16(r16::HL),
            RawOpcode::DEC_ptrHL => self.dec_ptrr16(r16::HL),
            RawOpcode::SCF => self.set_carry(true),
            RawOpcode::JR_C_d8 => self.jr_cond_d8(Conditions::C),
            RawOpcode::ADD_HL_SP => self.add_sp_into(r16::HL),
            RawOpcode::DEC_SP => self.dec_sp(),
            RawOpcode::INC_A => self.inc_r8(r8::A),
            RawOpcode::DEC_A => self.dec_r8(r8::A),
            RawOpcode::CCF => {
                let v = !self.gp_registers.get_flag(Flags::C);
                self.set_carry(v);
            },
            RawOpcode::LD_B_B => self.ld_r8_r8(r8::B, r8::B),
            RawOpcode::LD_B_C => self.ld_r8_r8(r8::B, r8::C),
            RawOpcode::LD_B_D => self.ld_r8_r8(r8::B, r8::D),
            RawOpcode::LD_B_E => self.ld_r8_r8(r8::B, r8::E),
            RawOpcode::LD_B_H => self.ld_r8_r8(r8::B, r8::H),
            RawOpcode::LD_B_L => self.ld_r8_r8(r8::B, r8::L),
            RawOpcode::LD_B_A => self.ld_r8_r8(r8::B, r8::A),
            RawOpcode::LD_B_ptrHL => self.ld_r8_ptrr16(r8::B, r16::HL),
            RawOpcode::LD_C_B => self.ld_r8_r8(r8::C, r8::B),
            RawOpcode::LD_C_C => self.ld_r8_r8(r8::C, r8::C),
            RawOpcode::LD_C_D => self.ld_r8_r8(r8::C, r8::D),
            RawOpcode::LD_C_E => self.ld_r8_r8(r8::C, r8::E),
            RawOpcode::LD_C_H => self.ld_r8_r8(r8::C, r8::H),
            RawOpcode::LD_C_L => self.ld_r8_r8(r8::C, r8::L),
            RawOpcode::LD_C_A => self.ld_r8_r8(r8::C, r8::A),
            RawOpcode::LD_C_ptrHL => self.ld_r8_ptrr16(r8::C, r16::HL),
            RawOpcode::LD_D_B => self.ld_r8_r8(r8::D, r8::B),
            RawOpcode::LD_D_C => self.ld_r8_r8(r8::D, r8::C),
            RawOpcode::LD_D_D => self.ld_r8_r8(r8::D, r8::D),
            RawOpcode::LD_D_E => self.ld_r8_r8(r8::D, r8::E),
            RawOpcode::LD_D_H => self.ld_r8_r8(r8::D, r8::H),
            RawOpcode::LD_D_L => self.ld_r8_r8(r8::D, r8::L),
            RawOpcode::LD_D_A => self.ld_r8_r8(r8::D, r8::A),
            RawOpcode::LD_D_ptrHL => self.ld_r8_ptrr16(r8::D, r16::HL),
            RawOpcode::LD_E_B => self.ld_r8_r8(r8::E, r8::B),
            RawOpcode::LD_E_C => self.ld_r8_r8(r8::E, r8::C),
            RawOpcode::LD_E_D => self.ld_r8_r8(r8::E, r8::D),
            RawOpcode::LD_E_E => self.ld_r8_r8(r8::E, r8::E),
            RawOpcode::LD_E_H => self.ld_r8_r8(r8::E, r8::H),
            RawOpcode::LD_E_L => self.ld_r8_r8(r8::E, r8::L),
            RawOpcode::LD_E_A => self.ld_r8_r8(r8::E, r8::A),
            RawOpcode::LD_E_ptrHL => self.ld_r8_ptrr16(r8::E, r16::HL),
            RawOpcode::LD_H_B => self.ld_r8_r8(r8::H, r8::B),
            RawOpcode::LD_H_C => self.ld_r8_r8(r8::H, r8::C),
            RawOpcode::LD_H_D => self.ld_r8_r8(r8::H, r8::D),
            RawOpcode::LD_H_E => self.ld_r8_r8(r8::H, r8::E),
            RawOpcode::LD_H_H => self.ld_r8_r8(r8::H, r8::H),
            RawOpcode::LD_H_L => self.ld_r8_r8(r8::H, r8::L),
            RawOpcode::LD_H_A => self.ld_r8_r8(r8::H, r8::A),
            RawOpcode::LD_H_ptrHL => self.ld_r8_ptrr16(r8::H, r16::HL),
            RawOpcode::LD_L_B => self.ld_r8_r8(r8::L, r8::B),
            RawOpcode::LD_L_C => self.ld_r8_r8(r8::L, r8::C),
            RawOpcode::LD_L_D => self.ld_r8_r8(r8::L, r8::D),
            RawOpcode::LD_L_E => self.ld_r8_r8(r8::L, r8::E),
            RawOpcode::LD_L_H => self.ld_r8_r8(r8::L, r8::H),
            RawOpcode::LD_L_L => self.ld_r8_r8(r8::L, r8::L),
            RawOpcode::LD_L_A => self.ld_r8_r8(r8::L, r8::A),
            RawOpcode::LD_L_ptrHL => self.ld_r8_ptrr16(r8::L, r16::HL),
            RawOpcode::LD_A_B => self.ld_r8_r8(r8::A, r8::B),
            RawOpcode::LD_A_C => self.ld_r8_r8(r8::A, r8::C),
            RawOpcode::LD_A_D => self.ld_r8_r8(r8::A, r8::D),
            RawOpcode::LD_A_E => self.ld_r8_r8(r8::A, r8::E),
            RawOpcode::LD_A_H => self.ld_r8_r8(r8::A, r8::H),
            RawOpcode::LD_A_L => self.ld_r8_r8(r8::A, r8::L),
            RawOpcode::LD_A_A => self.ld_r8_r8(r8::A, r8::A),
            RawOpcode::LD_A_ptrHL => self.ld_r8_ptrr16(r8::A, r16::HL),
            RawOpcode::LD_ptrHL_B => self.ld_ptrr16_r8(r16::HL, r8::B),
            RawOpcode::LD_ptrHL_C => self.ld_ptrr16_r8(r16::HL, r8::C),
            RawOpcode::LD_ptrHL_D => self.ld_ptrr16_r8(r16::HL, r8::D),
            RawOpcode::LD_ptrHL_E => self.ld_ptrr16_r8(r16::HL, r8::E),
            RawOpcode::LD_ptrHL_H => self.ld_ptrr16_r8(r16::HL, r8::H),
            RawOpcode::LD_ptrHL_L => self.ld_ptrr16_r8(r16::HL, r8::L),
            RawOpcode::LD_ptrHL_A => self.ld_ptrr16_r8(r16::HL, r8::A),
            RawOpcode::ADD_A_B => self.add_r8_r8(r8::A, r8::B),
            RawOpcode::ADD_A_C => self.add_r8_r8(r8::A, r8::C),
            RawOpcode::ADD_A_D => self.add_r8_r8(r8::A, r8::D),
            RawOpcode::ADD_A_E => self.add_r8_r8(r8::A, r8::E),
            RawOpcode::ADD_A_H => self.add_r8_r8(r8::A, r8::H),
            RawOpcode::ADD_A_L => self.add_r8_r8(r8::A, r8::L),
            RawOpcode::ADD_A_A => self.add_r8_r8(r8::A, r8::A),
            RawOpcode::ADC_A_B => self.adc_r8_r8(r8::A, r8::B),
            RawOpcode::ADC_A_C => self.adc_r8_r8(r8::A, r8::C),
            RawOpcode::ADC_A_D => self.adc_r8_r8(r8::A, r8::D),
            RawOpcode::ADC_A_E => self.adc_r8_r8(r8::A, r8::E),
            RawOpcode::ADC_A_H => self.adc_r8_r8(r8::A, r8::H),
            RawOpcode::ADC_A_L => self.adc_r8_r8(r8::A, r8::L),
            RawOpcode::ADC_A_A => self.adc_r8_r8(r8::A, r8::A),
            RawOpcode::SUB_B => self.sub_r8(r8::B),
            RawOpcode::SUB_C => self.sub_r8(r8::C),
            RawOpcode::SUB_D => self.sub_r8(r8::D),
            RawOpcode::SUB_E => self.sub_r8(r8::E),
            RawOpcode::SUB_H => self.sub_r8(r8::H),
            RawOpcode::SUB_L => self.sub_r8(r8::L),
            RawOpcode::SUB_A => self.sub_r8(r8::A),
            RawOpcode::SBC_B => self.sbc_r8(r8::B),
            RawOpcode::SBC_C => self.sbc_r8(r8::C),
            RawOpcode::SBC_D => self.sbc_r8(r8::D),
            RawOpcode::SBC_E => self.sbc_r8(r8::E),
            RawOpcode::SBC_H => self.sbc_r8(r8::H),
            RawOpcode::SBC_L => self.sbc_r8(r8::L),
            RawOpcode::SBC_A => self.sbc_r8(r8::A),
            RawOpcode::AND_B => self.and_r8(r8::B),
            RawOpcode::AND_C => self.and_r8(r8::C),
            RawOpcode::AND_D => self.and_r8(r8::D),
            RawOpcode::AND_E => self.and_r8(r8::E),
            RawOpcode::AND_H => self.and_r8(r8::H),
            RawOpcode::AND_L => self.and_r8(r8::L),
            RawOpcode::AND_A => self.and_r8(r8::A),
            RawOpcode::XOR_B => self.xor_r8(r8::B),
            RawOpcode::XOR_C => self.xor_r8(r8::C),
            RawOpcode::XOR_D => self.xor_r8(r8::D),
            RawOpcode::XOR_E => self.xor_r8(r8::E),
            RawOpcode::XOR_H => self.xor_r8(r8::H),
            RawOpcode::XOR_L => self.xor_r8(r8::L),
            RawOpcode::XOR_A => self.xor_r8(r8::A),
            RawOpcode::OR_B => self.or_r8(r8::B),
            RawOpcode::OR_C => self.or_r8(r8::C),
            RawOpcode::OR_D => self.or_r8(r8::D),
            RawOpcode::OR_E => self.or_r8(r8::E),
            RawOpcode::OR_H => self.or_r8(r8::H),
            RawOpcode::OR_L => self.or_r8(r8::L),
            RawOpcode::OR_A => self.or_r8(r8::A),
            RawOpcode::CP_B => self.cp_r8(r8::B),
            RawOpcode::CP_C => self.cp_r8(r8::C),
            RawOpcode::CP_D => self.cp_r8(r8::D),
            RawOpcode::CP_E => self.cp_r8(r8::E),
            RawOpcode::CP_H => self.cp_r8(r8::H),
            RawOpcode::CP_L => self.cp_r8(r8::L),
            RawOpcode::CP_A => self.cp_r8(r8::A),
            RawOpcode::RET_NZ => self.return_if(Conditions::NZ),
            RawOpcode::POP_BC => self.pop_r16(r16::BC),
            RawOpcode::JP_NZ => self.jp_cond_a16(Conditions::NZ),
            RawOpcode::JP => self.jp_a16(),
            RawOpcode::CALL_NZ => self.call_if(Conditions::NZ),
            RawOpcode::PUSH_BC => self.push_r16(r16::BC),
            RawOpcode::RET_Z => self.return_if(Conditions::Z),
            RawOpcode::RET => self.ret(),
            RawOpcode::JP_Z => self.jp_cond_a16(Conditions::Z),
            RawOpcode::CALL_Z => self.call_if(Conditions::Z),
            RawOpcode::CALL => self.call(),
            RawOpcode::RET_NC => self.return_if(Conditions::NC),
            RawOpcode::POP_DE => self.pop_r16(r16::DE),
            RawOpcode::JP_NC => self.jp_cond_a16(Conditions::NC),
            RawOpcode::CALL_NC => self.call_if(Conditions::NC),
            RawOpcode::PUSH_DE => self.push_r16(r16::DE),
            RawOpcode::RET_C => self.return_if(Conditions::C),
            RawOpcode::JP_C => self.jp_cond_a16(Conditions::C),
            RawOpcode::CALL_C => self.call_if(Conditions::C),
            RawOpcode::LDH_a8_A => self.ldh_a8_r8(r8::A),
            RawOpcode::POP_HL => self.pop_r16(r16::HL),
            RawOpcode::LDH_C_A => self.ldh_c_r8(r8::A),
            RawOpcode::PUSH_HL => self.push_r16(r16::HL),
            RawOpcode::ADD_SP_d8 => self.add_sp_d8(),
            RawOpcode::LD_a16_A => self.ld_a16_r8(r8::A),
            RawOpcode::LDH_A_a8 => self.ldh_r8_a8(r8::A),
            RawOpcode::POP_AF => self.pop_r16(r16::AF),
            RawOpcode::LDH_A_C => self.ldh_r8_c(r8::A),
            RawOpcode::PUSH_AF => self.push_r16(r16::AF),
            RawOpcode::LD_SP_HL => self.ld_sp_hl(),
            _ => {
                proof {
                    assert(false);
                }
            },
        }
        Ok(())
    }
}

} // verus!
