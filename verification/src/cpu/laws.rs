//! Engine-wide laws, stated over `step`. One classifies which condition
//! flags each instruction's rule mentions and proves that every other flag
//! keeps its prior value across execution; the other pins the shape of
//! every instruction's cycle cost. Each law is proved family by family in
//! a private lemma and assembled by a public one.

use vstd::prelude::*;
use crate::cpu::CpuView;
use crate::cpu::step;
use crate::cpu::registers::Flags;
use crate::cpu::registers::lemma_flags_byte_bits;
use crate::cpu::registers::lemma_with_flags_value;
use crate::cpu::registers::lemma_with_r8_flags;
use crate::instructions::RawOpcode;
use crate::instructions::is_defined;

verus! {

/// The instructions whose rule writes all four flags: the 8-bit
/// increment, decrement, arithmetic, logic and rotate groups, the signed
/// stack-pointer addition, and the pop into AF, which reloads the whole
/// flag byte from the stack.
pub open spec fn writes_all_flags(ins: RawOpcode) -> bool {
    match ins {
        RawOpcode::INC_B | RawOpcode::INC_C | RawOpcode::INC_D | RawOpcode::INC_E
            | RawOpcode::INC_H | RawOpcode::INC_L | RawOpcode::INC_A | RawOpcode::DEC_B
            | RawOpcode::DEC_C | RawOpcode::DEC_D | RawOpcode::DEC_E | RawOpcode::DEC_H
            | RawOpcode::DEC_L | RawOpcode::DEC_A | RawOpcode::INC_ptrHL | RawOpcode::DEC_ptrHL
            | RawOpcode::ADD_A_B | RawOpcode::ADD_A_C | RawOpcode::ADD_A_D | RawOpcode::ADD_A_E
            | RawOpcode::ADD_A_H | RawOpcode::ADD_A_L | RawOpcode::ADD_A_A | RawOpcode::ADC_A_B
            | RawOpcode::ADC_A_C | RawOpcode::ADC_A_D | RawOpcode::ADC_A_E | RawOpcode::ADC_A_H
            | RawOpcode::ADC_A_L | RawOpcode::ADC_A_A | RawOpcode::SUB_B | RawOpcode::SUB_C
            | RawOpcode::SUB_D | RawOpcode::SUB_E | RawOpcode::SUB_H | RawOpcode::SUB_L
            | RawOpcode::SUB_A | RawOpcode::SBC_B | RawOpcode::SBC_C | RawOpcode::SBC_D
            | RawOpcode::SBC_E | RawOpcode::SBC_H | RawOpcode::SBC_L | RawOpcode::SBC_A
            | RawOpcode::AND_B | RawOpcode::AND_C | RawOpcode::AND_D | RawOpcode::AND_E
            | RawOpcode::AND_H | RawOpcode::AND_L | RawOpcode::AND_A | RawOpcode::XOR_B
            | RawOpcode::XOR_C | RawOpcode::XOR_D | RawOpcode::XOR_E | RawOpcode::XOR_H
            | RawOpcode::XOR_L | RawOpcode::XOR_A | RawOpcode::OR_B | RawOpcode::OR_C
            | RawOpcode::OR_D | RawOpcode::OR_E | RawOpcode::OR_H | RawOpcode::OR_L
            | RawOpcode::OR_A | RawOpcode::CP_B | RawOpcode::CP_C | RawOpcode::CP_D
            | RawOpcode::CP_E | RawOpcode::CP_H | RawOpcode::CP_L | RawOpcode::CP_A
            | RawOpcode::RLCA | RawOpcode::RRCA | RawOpcode::RLA | RawOpcode::RRA
            | RawOpcode::ADD_SP_d8 | RawOpcode::POP_AF => true,
        _ => false,
    }
}

/// The 16-bit additions into HL: they write Subtract, Half-carry and
/// Carry, and never Zero.
pub open spec fn writes_nhc(ins: RawOpcode) -> bool {
    match ins {
        RawOpcode::ADD_HL_BC | RawOpcode::ADD_HL_DE | RawOpcode::ADD_HL_HL
            | RawOpcode::ADD_HL_SP => true,
        _ => false,
    }
}

/// Whether an instruction's flag list mentions Zero.
pub open spec fn affects_z(ins: RawOpcode) -> bool {
    writes_all_flags(ins)
}

/// Whether an instruction's flag list mentions Subtract.
pub open spec fn affects_n(ins: RawOpcode) -> bool {
    writes_all_flags(ins) || writes_nhc(ins) || ins is CPL
}

/// Whether an instruction's flag list mentions Half-carry.
pub open spec fn affects_h(ins: RawOpcode) -> bool {
    writes_all_flags(ins) || writes_nhc(ins) || ins is CPL
}

/// Whether an instruction's flag list mentions Carry.
pub open spec fn affects_c(ins: RawOpcode) -> bool {
    writes_all_flags(ins) || writes_nhc(ins) || ins is SCF || ins is CCF
}

#[verifier::rlimit(100)]
#[verifier::spinoff_prover]
proof fn lemma_flags_nop(pre: CpuView, ins: RawOpcode)
    requires
        matches!(ins,
            RawOpcode::NOP),
    ensures
        !affects_z(ins) ==> step(pre, ins).regs.spec_flag(Flags::Z) == pre.regs.spec_flag(
            Flags::Z,
        ),
        !affects_n(ins) ==> step(pre, ins).regs.spec_flag(Flags::N) == pre.regs.spec_flag(
            Flags::N,
        ),
        !affects_h(ins) ==> step(pre, ins).regs.spec_flag(Flags::H) == pre.regs.spec_flag(
            Flags::H,
        ),
        !affects_c(ins) ==> step(pre, ins).regs.spec_flag(Flags::C) == pre.regs.spec_flag(
            Flags::C,
        ),
{
    broadcast use lemma_flags_byte_bits;
    broadcast use lemma_with_flags_value;
    broadcast use lemma_with_r8_flags;
    match ins {
        RawOpcode::NOP => {},
        _ => {},
    }
}

#[verifier::rlimit(100)]
#[verifier::spinoff_prover]
proof fn lemma_flags_inc_dec_16(pre: CpuView, ins: RawOpcode)
    requires
        matches!(ins,
            RawOpcode::INC_BC | RawOpcode::DEC_BC | RawOpcode::INC_DE
            | RawOpcode::DEC_DE | RawOpcode::INC_HL | RawOpcode::DEC_HL
            | RawOpcode::INC_SP | RawOpcode::DEC_SP),
    ensures
        !affects_z(ins) ==> step(pre, ins).regs.spec_flag(Flags::Z) == pre.regs.spec_flag(
            Flags::Z,
        ),
        !affects_n(ins) ==> step(pre, ins).regs.spec_flag(Flags::N) == pre.regs.spec_flag(
            Flags::N,
        ),
        !affects_h(ins) ==> step(pre, ins).regs.spec_flag(Flags::H) == pre.regs.spec_flag(
            Flags::H,
        ),
        !affects_c(ins) ==> step(pre, ins).regs.spec_flag(Flags::C) == pre.regs.spec_flag(
            Flags::C,
        ),
{
    broadcast use lemma_flags_byte_bits;
    broadcast use lemma_with_flags_value;
    broadcast use lemma_with_r8_flags;
    match ins {
        RawOpcode::INC_BC => {},
        RawOpcode::DEC_BC => {},
        RawOpcode::INC_DE => {},
        RawOpcode::DEC_DE => {},
        RawOpcode::INC_HL => {},
        RawOpcode::DEC_HL => {},
        RawOpcode::INC_SP => {},
        RawOpcode::DEC_SP => {},
        _ => {},
    }
}

#[verifier::rlimit(100)]
#[verifier::spinoff_prover]
proof fn lemma_flags_inc_dec_8(pre: CpuView, ins: RawOpcode)
    requires
        matches!(ins,
            RawOpcode::INC_B | RawOpcode::DEC_B | RawOpcode::INC_C
            | RawOpcode::DEC_C | RawOpcode::INC_D | RawOpcode::DEC_D
            | RawOpcode::INC_E | RawOpcode::DEC_E | RawOpcode::INC_H
            | RawOpcode::DEC_H | RawOpcode::INC_L | RawOpcode::DEC_L
            | RawOpcode::INC_ptrHL | RawOpcode::DEC_ptrHL | RawOpcode::INC_A
            | RawOpcode::DEC_A),
    ensures
        !affects_z(ins) ==> step(pre, ins).regs.spec_flag(Flags::Z) == pre.regs.spec_flag(
            Flags::Z,
        ),
        !affects_n(ins) ==> step(pre, ins).regs.spec_flag(Flags::N) == pre.regs.spec_flag(
            Flags::N,
        ),
        !affects_h(ins) ==> step(pre, ins).regs.spec_flag(Flags::H) == pre.regs.spec_flag(
            Flags::H,
        ),
        !affects_c(ins) ==> step(pre, ins).regs.spec_flag(Flags::C) == pre.regs.spec_flag(
            Flags::C,
        ),
{
    broadcast use lemma_flags_byte_bits;
    broadcast use lemma_with_flags_value;
    broadcast use lemma_with_r8_flags;
    match ins {
        RawOpcode::INC_B => {},
        RawOpcode::DEC_B => {},
        RawOpcode::INC_C => {},
        RawOpcode::DEC_C => {},
        RawOpcode::INC_D => {},
        RawOpcode::DEC_D => {},
        RawOpcode::INC_E => {},
        RawOpcode::DEC_E => {},
        RawOpcode::INC_H => {},
        RawOpcode::DEC_H => {},
        RawOpcode::INC_L => {},
        RawOpcode::DEC_L => {},
        RawOpcode::INC_ptrHL => {},
        RawOpcode::DEC_ptrHL => {},
        RawOpcode::INC_A => {},
        RawOpcode::DEC_A => {},
        _ => {},
    }
}

#[verifier::rlimit(100)]
#[verifier::spinoff_prover]
proof fn lemma_flags_arith_8(pre: CpuView, ins: RawOpcode)
    requires
        matches!(ins,
            RawOpcode::ADD_A_B | RawOpcode::ADD_A_C | RawOpcode::ADD_A_D
            | RawOpcode::ADD_A_E | RawOpcode::ADD_A_H | RawOpcode::ADD_A_L
            | RawOpcode::ADD_A_A | RawOpcode::ADC_A_B | RawOpcode::ADC_A_C
            | RawOpcode::ADC_A_D | RawOpcode::ADC_A_E | RawOpcode::ADC_A_H
            | RawOpcode::ADC_A_L | RawOpcode::ADC_A_A | RawOpcode::SUB_B
            | RawOpcode::SUB_C | RawOpcode::SUB_D | RawOpcode::SUB_E
            | RawOpcode::SUB_H | RawOpcode::SUB_L | RawOpcode::SUB_A
            | RawOpcode::SBC_B | RawOpcode::SBC_C | RawOpcode::SBC_D
            | RawOpcode::SBC_E | RawOpcode::SBC_H | RawOpcode::SBC_L
            | RawOpcode::SBC_A | RawOpcode::CP_B | RawOpcode::CP_C
            | RawOpcode::CP_D | RawOpcode::CP_E | RawOpcode::CP_H
            | RawOpcode::CP_L | RawOpcode::CP_A),
    ensures
        !affects_z(ins) ==> step(pre, ins).regs.spec_flag(Flags::Z) == pre.regs.spec_flag(
            Flags::Z,
        ),
        !affects_n(ins) ==> step(pre, ins).regs.spec_flag(Flags::N) == pre.regs.spec_flag(
            Flags::N,
        ),
        !affects_h(ins) ==> step(pre, ins).regs.spec_flag(Flags::H) == pre.regs.spec_flag(
            Flags::H,
        ),
        !affects_c(ins) ==> step(pre, ins).regs.spec_flag(Flags::C) == pre.regs.spec_flag(
            Flags::C,
        ),
{
    broadcast use lemma_flags_byte_bits;
    broadcast use lemma_with_flags_value;
    broadcast use lemma_with_r8_flags;
    match ins {
        RawOpcode::ADD_A_B => {},
        RawOpcode::ADD_A_C => {},
        RawOpcode::ADD_A_D => {},
        RawOpcode::ADD_A_E => {},
        RawOpcode::ADD_A_H => {},
        RawOpcode::ADD_A_L => {},
        RawOpcode::ADD_A_A => {},
        RawOpcode::ADC_A_B => {},
        RawOpcode::ADC_A_C => {},
        RawOpcode::ADC_A_D => {},
        RawOpcode::ADC_A_E => {},
        RawOpcode::ADC_A_H => {},
        RawOpcode::ADC_A_L => {},
        RawOpcode::ADC_A_A => {},
        RawOpcode::SUB_B => {},
        RawOpcode::SUB_C => {},
        RawOpcode::SUB_D => {},
        RawOpcode::SUB_E => {},
        RawOpcode::SUB_H => {},
        RawOpcode::SUB_L => {},
        RawOpcode::SUB_A => {},
        RawOpcode::SBC_B => {},
        RawOpcode::SBC_C => {},
        RawOpcode::SBC_D => {},
        RawOpcode::SBC_E => {},
        RawOpcode::SBC_H => {},
        RawOpcode::SBC_L => {},
        RawOpcode::SBC_A => {},
        RawOpcode::CP_B => {},
        RawOpcode::CP_C => {},
        RawOpcode::CP_D => {},
        RawOpcode::CP_E => {},
        RawOpcode::CP_H => {},
        RawOpcode::CP_L => {},
        RawOpcode::CP_A => {},
        _ => {},
    }
}

#[verifier::rlimit(100)]
#[verifier::spinoff_prover]
proof fn lemma_flags_logic_8(pre: CpuView, ins: RawOpcode)
    requires
        matches!(ins,
            RawOpcode::AND_B | RawOpcode::AND_C | RawOpcode::AND_D
            | RawOpcode::AND_E | RawOpcode::AND_H | RawOpcode::AND_L
            | RawOpcode::AND_A | RawOpcode::XOR_B | RawOpcode::XOR_C
            | RawOpcode::XOR_D | RawOpcode::XOR_E | RawOpcode::XOR_H
            | RawOpcode::XOR_L | RawOpcode::XOR_A | RawOpcode::OR_B
            | RawOpcode::OR_C | RawOpcode::OR_D | RawOpcode::OR_E
            | RawOpcode::OR_H | RawOpcode::OR_L | RawOpcode::OR_A),
    ensures
        !affects_z(ins) ==> step(pre, ins).regs.spec_flag(Flags::Z) == pre.regs.spec_flag(
            Flags::Z,
        ),
        !affects_n(ins) ==> step(pre, ins).regs.spec_flag(Flags::N) == pre.regs.spec_flag(
            Flags::N,
        ),
        !affects_h(ins) ==> step(pre, ins).regs.spec_flag(Flags::H) == pre.regs.spec_flag(
            Flags::H,
        ),
        !affects_c(ins) ==> step(pre, ins).regs.spec_flag(Flags::C) == pre.regs.spec_flag(
            Flags::C,
        ),
{
    broadcast use lemma_flags_byte_bits;
    broadcast use lemma_with_flags_value;
    broadcast use lemma_with_r8_flags;
    match ins {
        RawOpcode::AND_B => {},
        RawOpcode::AND_C => {},
        RawOpcode::AND_D => {},
        RawOpcode::AND_E => {},
        RawOpcode::AND_H => {},
        RawOpcode::AND_L => {},
        RawOpcode::AND_A => {},
        RawOpcode::XOR_B => {},
        RawOpcode::XOR_C => {},
        RawOpcode::XOR_D => {},
        RawOpcode::XOR_E => {},
        RawOpcode::XOR_H => {},
        RawOpcode::XOR_L => {},
        RawOpcode::XOR_A => {},
        RawOpcode::OR_B => {},
        RawOpcode::OR_C => {},
        RawOpcode::OR_D => {},
        RawOpcode::OR_E => {},
        RawOpcode::OR_H => {},
        RawOpcode::OR_L => {},
        RawOpcode::OR_A => {},
        _ => {},
    }
}

#[verifier::rlimit(100)]
#[verifier::spinoff_prover]
proof fn lemma_flags_rotates(pre: CpuView, ins: RawOpcode)
    requires
        matches!(ins,
            RawOpcode::RLCA | RawOpcode::RRCA | RawOpcode::RLA
            | RawOpcode::RRA),
    ensures
        !affects_z(ins) ==> step(pre, ins).regs.spec_flag(Flags::Z) == pre.regs.spec_flag(
            Flags::Z,
        ),
        !affects_n(ins) ==> step(pre, ins).regs.spec_flag(Flags::N) == pre.regs.spec_flag(
            Flags::N,
        ),
        !affects_h(ins) ==> step(pre, ins).regs.spec_flag(Flags::H) == pre.regs.spec_flag(
            Flags::H,
        ),
        !affects_c(ins) ==> step(pre, ins).regs.spec_flag(Flags::C) == pre.regs.spec_flag(
            Flags::C,
        ),
{
    broadcast use lemma_flags_byte_bits;
    broadcast use lemma_with_flags_value;
    broadcast use lemma_with_r8_flags;
    match ins {
        RawOpcode::RLCA => {},
        RawOpcode::RRCA => {},
        RawOpcode::RLA => {},
        RawOpcode::RRA => {},
        _ => {},
    }
}

#[verifier::rlimit(100)]
#[verifier::spinoff_prover]
proof fn lemma_flags_sp_signed(pre: CpuView, ins: RawOpcode)
    requires
        matches!(ins,
            RawOpcode::ADD_SP_d8),
    ensures
        !affects_z(ins) ==> step(pre, ins).regs.spec_flag(Flags::Z) == pre.regs.spec_flag(
            Flags::Z,
        ),
        !affects_n(ins) ==> step(pre, ins).regs.spec_flag(Flags::N) == pre.regs.spec_flag(
            Flags::N,
        ),
        !affects_h(ins) ==> step(pre, ins).regs.spec_flag(Flags::H) == pre.regs.spec_flag(
            Flags::H,
        ),
        !affects_c(ins) ==> step(pre, ins).regs.spec_flag(Flags::C) == pre.regs.spec_flag(
            Flags::C,
        ),
{
    broadcast use lemma_flags_byte_bits;
    broadcast use lemma_with_flags_value;
    broadcast use lemma_with_r8_flags;
    match ins {
        RawOpcode::ADD_SP_d8 => {},
        _ => {},
    }
}

#[verifier::rlimit(100)]
#[verifier::spinoff_prover]
proof fn lemma_flags_add_16(pre: CpuView, ins: RawOpcode)
    requires
        matches!(ins,
            RawOpcode::ADD_HL_BC | RawOpcode::ADD_HL_DE | RawOpcode::ADD_HL_HL
            | RawOpcode::ADD_HL_SP),
    ensures
        !affects_z(ins) ==> step(pre, ins).regs.spec_flag(Flags::Z) == pre.regs.spec_flag(
            Flags::Z,
        ),
        !affects_n(ins) ==> step(pre, ins).regs.spec_flag(Flags::N) == pre.regs.spec_flag(
            Flags::N,
        ),
        !affects_h(ins) ==> step(pre, ins).regs.spec_flag(Flags::H) == pre.regs.spec_flag(
            Flags::H,
        ),
        !affects_c(ins) ==> step(pre, ins).regs.spec_flag(Flags::C) == pre.regs.spec_flag(
            Flags::C,
        ),
{
    broadcast use lemma_flags_byte_bits;
    broadcast use lemma_with_flags_value;
    broadcast use lemma_with_r8_flags;
    match ins {
        RawOpcode::ADD_HL_BC => {},
        RawOpcode::ADD_HL_DE => {},
        RawOpcode::ADD_HL_HL => {},
        RawOpcode::ADD_HL_SP => {},
        _ => {},
    }
}

#[verifier::rlimit(100)]
#[verifier::spinoff_prover]
proof fn lemma_flags_complement(pre: CpuView, ins: RawOpcode)
    requires
        matches!(ins,
            RawOpcode::CPL),
    ensures
        !affects_z(ins) ==> step(pre, ins).regs.spec_flag(Flags::Z) == pre.regs.spec_flag(
            Flags::Z,
        ),
        !affects_n(ins) ==> step(pre, ins).regs.spec_flag(Flags::N) == pre.regs.spec_flag(
            Flags::N,
        ),
        !affects_h(ins) ==> step(pre, ins).regs.spec_flag(Flags::H) == pre.regs.spec_flag(
            Flags::H,
        ),
        !affects_c(ins) ==> step(pre, ins).regs.spec_flag(Flags::C) == pre.regs.spec_flag(
            Flags::C,
        ),
{
    broadcast use lemma_flags_byte_bits;
    broadcast use lemma_with_flags_value;
    broadcast use lemma_with_r8_flags;
    match ins {
        RawOpcode::CPL => {},
        _ => {},
    }
}

#[verifier::rlimit(100)]
#[verifier::spinoff_prover]
proof fn lemma_flags_carry_ops(pre: CpuView, ins: RawOpcode)
    requires
        matches!(ins,
            RawOpcode::SCF | RawOpcode::CCF),
    ensures
        !affects_z(ins) ==> step(pre, ins).regs.spec_flag(Flags::Z) == pre.regs.spec_flag(
            Flags::Z,
        ),
        !affects_n(ins) ==> step(pre, ins).regs.spec_flag(Flags::N) == pre.regs.spec_flag(
            Flags::N,
        ),
        !affects_h(ins) ==> step(pre, ins).regs.spec_flag(Flags::H) == pre.regs.spec_flag(
            Flags::H,
        ),
        !affects_c(ins) ==> step(pre, ins).regs.spec_flag(Flags::C) == pre.regs.spec_flag(
            Flags::C,
        ),
{
    broadcast use lemma_flags_byte_bits;
    broadcast use lemma_with_flags_value;
    broadcast use lemma_with_r8_flags;
    match ins {
        RawOpcode::SCF => {},
        RawOpcode::CCF => {},
        _ => {},
    }
}

#[verifier::rlimit(100)]
#[verifier::spinoff_prover]
proof fn lemma_flags_ld_rr(pre: CpuView, ins: RawOpcode)
    requires
        matches!(ins,
            RawOpcode::LD_B_B | RawOpcode::LD_B_C | RawOpcode::LD_B_D
            | RawOpcode::LD_B_E | RawOpcode::LD_B_H | RawOpcode::LD_B_L
            | RawOpcode::LD_B_A | RawOpcode::LD_C_B | RawOpcode::LD_C_C
            | RawOpcode::LD_C_D | RawOpcode::LD_C_E | RawOpcode::LD_C_H
            | RawOpcode::LD_C_L | RawOpcode::LD_C_A | RawOpcode::LD_D_B
            | RawOpcode::LD_D_C | RawOpcode::LD_D_D | RawOpcode::LD_D_E
            | RawOpcode::LD_D_H | RawOpcode::LD_D_L | RawOpcode::LD_D_A
            | RawOpcode::LD_E_B | RawOpcode::LD_E_C | RawOpcode::LD_E_D
            | RawOpcode::LD_E_E | RawOpcode::LD_E_H | RawOpcode::LD_E_L
            | RawOpcode::LD_E_A | RawOpcode::LD_H_B | RawOpcode::LD_H_C
            | RawOpcode::LD_H_D | RawOpcode::LD_H_E | RawOpcode::LD_H_H
            | RawOpcode::LD_H_L | RawOpcode::LD_H_A | RawOpcode::LD_L_B
            | RawOpcode::LD_L_C | RawOpcode::LD_L_D | RawOpcode::LD_L_E
            | RawOpcode::LD_L_H | RawOpcode::LD_L_L | RawOpcode::LD_L_A
            | RawOpcode::LD_A_B | RawOpcode::LD_A_C | RawOpcode::LD_A_D
            | RawOpcode::LD_A_E | RawOpcode::LD_A_H | RawOpcode::LD_A_L
            | RawOpcode::LD_A_A),
    ensures
        !affects_z(ins) ==> step(pre, ins).regs.spec_flag(Flags::Z) == pre.regs.spec_flag(
            Flags::Z,
        ),
        !affects_n(ins) ==> step(pre, ins).regs.spec_flag(Flags::N) == pre.regs.spec_flag(
            Flags::N,
        ),
        !affects_h(ins) ==> step(pre, ins).regs.spec_flag(Flags::H) == pre.regs.spec_flag(
            Flags::H,
        ),
        !affects_c(ins) ==> step(pre, ins).regs.spec_flag(Flags::C) == pre.regs.spec_flag(
            Flags::C,
        ),
{
    broadcast use lemma_flags_byte_bits;
    broadcast use lemma_with_flags_value;
    broadcast use lemma_with_r8_flags;
    match ins {
        RawOpcode::LD_B_B => {},
        RawOpcode::LD_B_C => {},
        RawOpcode::LD_B_D => {},
        RawOpcode::LD_B_E => {},
        RawOpcode::LD_B_H => {},
        RawOpcode::LD_B_L => {},
        RawOpcode::LD_B_A => {},
        RawOpcode::LD_C_B => {},
        RawOpcode::LD_C_C => {},
        RawOpcode::LD_C_D => {},
        RawOpcode::LD_C_E => {},
        RawOpcode::LD_C_H => {},
        RawOpcode::LD_C_L => {},
        RawOpcode::LD_C_A => {},
        RawOpcode::LD_D_B => {},
        RawOpcode::LD_D_C => {},
        RawOpcode::LD_D_D => {},
        RawOpcode::LD_D_E => {},
        RawOpcode::LD_D_H => {},
        RawOpcode::LD_D_L => {},
        RawOpcode::LD_D_A => {},
        RawOpcode::LD_E_B => {},
        RawOpcode::LD_E_C => {},
        RawOpcode::LD_E_D => {},
        RawOpcode::LD_E_E => {},
        RawOpcode::LD_E_H => {},
        RawOpcode::LD_E_L => {},
        RawOpcode::LD_E_A => {},
        RawOpcode::LD_H_B => {},
        RawOpcode::LD_H_C => {},
        RawOpcode::LD_H_D => {},
        RawOpcode::LD_H_E => {},
        RawOpcode::LD_H_H => {},
        RawOpcode::LD_H_L => {},
        RawOpcode::LD_H_A => {},
        RawOpcode::LD_L_B => {},
        RawOpcode::LD_L_C => {},
        RawOpcode::LD_L_D => {},
        RawOpcode::LD_L_E => {},
        RawOpcode::LD_L_H => {},
        RawOpcode::LD_L_L => {},
        RawOpcode::LD_L_A => {},
        RawOpcode::LD_A_B => {},
        RawOpcode::LD_A_C => {},
        RawOpcode::LD_A_D => {},
        RawOpcode::LD_A_E => {},
        RawOpcode::LD_A_H => {},
        RawOpcode::LD_A_L => {},
        RawOpcode::LD_A_A => {},
        _ => {},
    }
}

#[verifier::rlimit(100)]
#[verifier::spinoff_prover]
proof fn lemma_flags_ld_mem(pre: CpuView, ins: RawOpcode)
    requires
        matches!(ins,
            RawOpcode::LD_BC_d16 | RawOpcode::LD_BC_A | RawOpcode::LD_B_d8
            | RawOpcode::LD_a16_SP | RawOpcode::LD_A_ptrBC | RawOpcode::LD_C_d8
            | RawOpcode::LD_DE_d16 | RawOpcode::LD_DE_A | RawOpcode::LD_D_d8
            | RawOpcode::LD_A_ptrDE | RawOpcode::LD_E_d8 | RawOpcode::LD_HL_d16
            | RawOpcode::LD_H_d8 | RawOpcode::LD_L_d8 | RawOpcode::LD_SP_d16
            | RawOpcode::LD_B_ptrHL | RawOpcode::LD_C_ptrHL | RawOpcode::LD_D_ptrHL
            | RawOpcode::LD_E_ptrHL | RawOpcode::LD_H_ptrHL | RawOpcode::LD_L_ptrHL
            | RawOpcode::LD_A_ptrHL | RawOpcode::LD_ptrHL_B | RawOpcode::LD_ptrHL_C
            | RawOpcode::LD_ptrHL_D | RawOpcode::LD_ptrHL_E | RawOpcode::LD_ptrHL_H
            | RawOpcode::LD_ptrHL_L | RawOpcode::LD_ptrHL_A | RawOpcode::LDH_a8_A
            | RawOpcode::LDH_C_A | RawOpcode::LD_a16_A | RawOpcode::LDH_A_a8
            | RawOpcode::LDH_A_C | RawOpcode::LD_SP_HL),
    ensures
        !affects_z(ins) ==> step(pre, ins).regs.spec_flag(Flags::Z) == pre.regs.spec_flag(
            Flags::Z,
        ),
        !affects_n(ins) ==> step(pre, ins).regs.spec_flag(Flags::N) == pre.regs.spec_flag(
            Flags::N,
        ),
        !affects_h(ins) ==> step(pre, ins).regs.spec_flag(Flags::H) == pre.regs.spec_flag(
            Flags::H,
        ),
        !affects_c(ins) ==> step(pre, ins).regs.spec_flag(Flags::C) == pre.regs.spec_flag(
            Flags::C,
        ),
{
    broadcast use lemma_flags_byte_bits;
    broadcast use lemma_with_flags_value;
    broadcast use lemma_with_r8_flags;
    match ins {
        RawOpcode::LD_BC_d16 => {},
        RawOpcode::LD_BC_A => {},
        RawOpcode::LD_B_d8 => {},
        RawOpcode::LD_a16_SP => {},
        RawOpcode::LD_A_ptrBC => {},
        RawOpcode::LD_C_d8 => {},
        RawOpcode::LD_DE_d16 => {},
        RawOpcode::LD_DE_A => {},
        RawOpcode::LD_D_d8 => {},
        RawOpcode::LD_A_ptrDE => {},
        RawOpcode::LD_E_d8 => {},
        RawOpcode::LD_HL_d16 => {},
        RawOpcode::LD_H_d8 => {},
        RawOpcode::LD_L_d8 => {},
        RawOpcode::LD_SP_d16 => {},
        RawOpcode::LD_B_ptrHL => {},
        RawOpcode::LD_C_ptrHL => {},
        RawOpcode::LD_D_ptrHL => {},
        RawOpcode::LD_E_ptrHL => {},
        RawOpcode::LD_H_ptrHL => {},
        RawOpcode::LD_L_ptrHL => {},
        RawOpcode::LD_A_ptrHL => {},
        RawOpcode::LD_ptrHL_B => {},
        RawOpcode::LD_ptrHL_C => {},
        RawOpcode::LD_ptrHL_D => {},
        RawOpcode::LD_ptrHL_E => {},
        RawOpcode::LD_ptrHL_H => {},
        RawOpcode::LD_ptrHL_L => {},
        RawOpcode::LD_ptrHL_A => {},
        RawOpcode::LDH_a8_A => {},
        RawOpcode::LDH_C_A => {},
        RawOpcode::LD_a16_A => {},
        RawOpcode::LDH_A_a8 => {},
        RawOpcode::LDH_A_C => {},
        RawOpcode::LD_SP_HL => {},
        _ => {},
    }
}

#[verifier::rlimit(100)]
#[verifier::spinoff_prover]
proof fn lemma_flags_jumps(pre: CpuView, ins: RawOpcode)
    requires
        matches!(ins,
            RawOpcode::JR_d8 | RawOpcode::JR_NZ_d8 | RawOpcode::JR_Z_d8
            | RawOpcode::JR_NC_d8 | RawOpcode::JR_C_d8 | RawOpcode::JP_NZ
            | RawOpcode::JP | RawOpcode::JP_Z | RawOpcode::JP_NC
            | RawOpcode::JP_C),
    ensures
        !affects_z(ins) ==> step(pre, ins).regs.spec_flag(Flags::Z) == pre.regs.spec_flag(
            Flags::Z,
        ),
        !affects_n(ins) ==> step(pre, ins).regs.spec_flag(Flags::N) == pre.regs.spec_flag(
            Flags::N,
        ),
        !affects_h(ins) ==> step(pre, ins).regs.spec_flag(Flags::H) == pre.regs.spec_flag(
            Flags::H,
        ),
        !affects_c(ins) ==> step(pre, ins).regs.spec_flag(Flags::C) == pre.regs.spec_flag(
            Flags::C,
        ),
{
    broadcast use lemma_flags_byte_bits;
    broadcast use lemma_with_flags_value;
    broadcast use lemma_with_r8_flags;
    match ins {
        RawOpcode::JR_d8 => {},
        RawOpcode::JR_NZ_d8 => {},
        RawOpcode::JR_Z_d8 => {},
        RawOpcode::JR_NC_d8 => {},
        RawOpcode::JR_C_d8 => {},
        RawOpcode::JP_NZ => {},
        RawOpcode::JP => {},
        RawOpcode::JP_Z => {},
        RawOpcode::JP_NC => {},
        RawOpcode::JP_C => {},
        _ => {},
    }
}

#[verifier::rlimit(100)]
#[verifier::spinoff_prover]
proof fn lemma_flags_calls(pre: CpuView, ins: RawOpcode)
    requires
        matches!(ins,
            RawOpcode::RET_NZ | RawOpcode::CALL_NZ | RawOpcode::RET_Z
            | RawOpcode::RET | RawOpcode::CALL_Z | RawOpcode::CALL
            | RawOpcode::RET_NC | RawOpcode::CALL_NC | RawOpcode::RET_C
            | RawOpcode::CALL_C),
    ensures
        !affects_z(ins) ==> step(pre, ins).regs.spec_flag(Flags::Z) == pre.regs.spec_flag(
            Flags::Z,
        ),
        !affects_n(ins) ==> step(pre, ins).regs.spec_flag(Flags::N) == pre.regs.spec_flag(
            Flags::N,
        ),
        !affects_h(ins) ==> step(pre, ins).regs.spec_flag(Flags::H) == pre.regs.spec_flag(
            Flags::H,
        ),
        !affects_c(ins) ==> step(pre, ins).regs.spec_flag(Flags::C) == pre.regs.spec_flag(
            Flags::C,
        ),
{
    broadcast use lemma_flags_byte_bits;
    broadcast use lemma_with_flags_value;
    broadcast use lemma_with_r8_flags;
    match ins {
        RawOpcode::RET_NZ => {},
        RawOpcode::CALL_NZ => {},
        RawOpcode::RET_Z => {},
        RawOpcode::RET => {},
        RawOpcode::CALL_Z => {},
        RawOpcode::CALL => {},
        RawOpcode::RET_NC => {},
        RawOpcode::CALL_NC => {},
        RawOpcode::RET_C => {},
        RawOpcode::CALL_C => {},
        _ => {},
    }
}

#[verifier::rlimit(100)]
#[verifier::spinoff_prover]
proof fn lemma_flags_stack_ops(pre: CpuView, ins: RawOpcode)
    requires
        matches!(ins,
            RawOpcode::POP_BC | RawOpcode::PUSH_BC | RawOpcode::POP_DE
            | RawOpcode::PUSH_DE | RawOpcode::POP_HL | RawOpcode::PUSH_HL
            | RawOpcode::POP_AF | RawOpcode::PUSH_AF),
    ensures
        !affects_z(ins) ==> step(pre, ins).regs.spec_flag(Flags::Z) == pre.regs.spec_flag(
            Flags::Z,
        ),
        !affects_n(ins) ==> step(pre, ins).regs.spec_flag(Flags::N) == pre.regs.spec_flag(
            Flags::N,
        ),
        !affects_h(ins) ==> step(pre, ins).regs.spec_flag(Flags::H) == pre.regs.spec_flag(
            Flags::H,
        ),
        !affects_c(ins) ==> step(pre, ins).regs.spec_flag(Flags::C) == pre.regs.spec_flag(
            Flags::C,
        ),
{
    broadcast use lemma_flags_byte_bits;
    broadcast use lemma_with_flags_value;
    broadcast use lemma_with_r8_flags;
    match ins {
        RawOpcode::POP_BC => {},
        RawOpcode::PUSH_BC => {},
        RawOpcode::POP_DE => {},
        RawOpcode::PUSH_DE => {},
        RawOpcode::POP_HL => {},
        RawOpcode::PUSH_HL => {},
        RawOpcode::POP_AF => {},
        RawOpcode::PUSH_AF => {},
        _ => {},
    }
}

#[verifier::rlimit(100)]
#[verifier::spinoff_prover]
proof fn lemma_cost_nop(pre: CpuView, ins: RawOpcode)
    requires
        matches!(ins,
            RawOpcode::NOP),
    ensures
        pre.cycles < step(pre, ins).cycles,
        (step(pre, ins).cycles - pre.cycles) % 4 == 0,
        step(pre, ins).cycles <= pre.cycles + 24,
{
    match ins {
        RawOpcode::NOP => {},
        _ => {},
    }
}

#[verifier::rlimit(100)]
#[verifier::spinoff_prover]
proof fn lemma_cost_inc_dec_16(pre: CpuView, ins: RawOpcode)
    requires
        matches!(ins,
            RawOpcode::INC_BC | RawOpcode::DEC_BC | RawOpcode::INC_DE
            | RawOpcode::DEC_DE | RawOpcode::INC_HL | RawOpcode::DEC_HL
            | RawOpcode::INC_SP | RawOpcode::DEC_SP),
    ensures
        pre.cycles < step(pre, ins).cycles,
        (step(pre, ins).cycles - pre.cycles) % 4 == 0,
        step(pre, ins).cycles <= pre.cycles + 24,
{
    match ins {
        RawOpcode::INC_BC => {},
        RawOpcode::DEC_BC => {},
        RawOpcode::INC_DE => {},
        RawOpcode::DEC_DE => {},
        RawOpcode::INC_HL => {},
        RawOpcode::DEC_HL => {},
        RawOpcode::INC_SP => {},
        RawOpcode::DEC_SP => {},
        _ => {},
    }
}

#[verifier::rlimit(100)]
#[verifier::spinoff_prover]
proof fn lemma_cost_inc_8_lo_inc_b(pre: CpuView, ins: RawOpcode)
    requires
        ins is INC_B,
    ensures
        pre.cycles < step(pre, ins).cycles,
        (step(pre, ins).cycles - pre.cycles) % 4 == 0,
        step(pre, ins).cycles <= pre.cycles + 24,
{
}

#[verifier::rlimit(100)]
#[verifier::spinoff_prover]
proof fn lemma_cost_inc_8_lo_inc_c(pre: CpuView, ins: RawOpcode)
    requires
        ins is INC_C,
    ensures
        pre.cycles < step(pre, ins).cycles,
        (step(pre, ins).cycles - pre.cycles) % 4 == 0,
        step(pre, ins).cycles <= pre.cycles + 24,
{
}

#[verifier::rlimit(100)]
#[verifier::spinoff_prover]
proof fn lemma_cost_inc_8_lo_inc_d(pre: CpuView, ins: RawOpcode)
    requires
        ins is INC_D,
    ensures
        pre.cycles < step(pre, ins).cycles,
        (step(pre, ins).cycles - pre.cycles) % 4 == 0,
        step(pre, ins).cycles <= pre.cycles + 24,
{
}

#[verifier::rlimit(100)]
#[verifier::spinoff_prover]
proof fn lemma_cost_inc_8_lo_inc_e(pre: CpuView, ins: RawOpcode)
    requires
        ins is INC_E,
    ensures
        pre.cycles < step(pre, ins).cycles,
        (step(pre, ins).cycles - pre.cycles) % 4 == 0,
        step(pre, ins).cycles <= pre.cycles + 24,
{
}

#[verifier::rlimit(100)]
#[verifier::spinoff_prover]
proof fn lemma_cost_inc_8_lo(pre: CpuView, ins: RawOpcode)
    requires
        matches!(ins,
            RawOpcode::INC_B | RawOpcode::INC_C | RawOpcode::INC_D
            | RawOpcode::INC_E),
    ensures
        pre.cycles < step(pre, ins).cycles,
        (step(pre, ins).cycles - pre.cycles) % 4 == 0,
        step(pre, ins).cycles <= pre.cycles + 24,
{
    match ins {
        RawOpcode::INC_B => lemma_cost_inc_8_lo_inc_b(pre, ins),
        RawOpcode::INC_C => lemma_cost_inc_8_lo_inc_c(pre, ins),
        RawOpcode::INC_D => lemma_cost_inc_8_lo_inc_d(pre, ins),
        RawOpcode::INC_E => lemma_cost_inc_8_lo_inc_e(pre, ins),
        _ => {},
    }
}

#[verifier::rlimit(100)]
#[verifier::spinoff_prover]
proof fn lemma_cost_inc_8_hi_inc_h(pre: CpuView, ins: RawOpcode)
    requires
        ins is INC_H,
    ensures
        pre.cycles < step(pre, ins).cycles,
        (step(pre, ins).cycles - pre.cycles) % 4 == 0,
        step(pre, ins).cycles <= pre.cycles + 24,
{
}

#[verifier::rlimit(100)]
#[verifier::spinoff_prover]
proof fn lemma_cost_inc_8_hi_inc_l(pre: CpuView, ins: RawOpcode)
    requires
        ins is INC_L,
    ensures
        pre.cycles < step(pre, ins).cycles,
        (step(pre, ins).cycles - pre.cycles) % 4 == 0,
        step(pre, ins).cycles <= pre.cycles + 24,
{
}

#[verifier::rlimit(100)]
#[verifier::spinoff_prover]
proof fn lemma_cost_inc_8_hi_inc_ptrhl(pre: CpuView, ins: RawOpcode)
    requires
        ins is INC_ptrHL,
    ensures
        pre.cycles < step(pre, ins).cycles,
        (step(pre, ins).cycles - pre.cycles) % 4 == 0,
        step(pre, ins).cycles <= pre.cycles + 24,
{
}

#[verifier::rlimit(100)]
#[verifier::spinoff_prover]
proof fn lemma_cost_inc_8_hi_inc_a(pre: CpuView, ins: RawOpcode)
    requires
        ins is INC_A,
    ensures
        pre.cycles < step(pre, ins).cycles,
        (step(pre, ins).cycles - pre.cycles) % 4 == 0,
        step(pre, ins).cycles <= pre.cycles + 24,
{
}

#[verifier::rlimit(100)]
#[verifier::spinoff_prover]
proof fn lemma_cost_inc_8_hi(pre: CpuView, ins: RawOpcode)
    requires
        matches!(ins,
            RawOpcode::INC_H | RawOpcode::INC_L | RawOpcode::INC_ptrHL
            | RawOpcode::INC_A),
    ensures
        pre.cycles < step(pre, ins).cycles,
        (step(pre, ins).cycles - pre.cycles) % 4 == 0,
        step(pre, ins).cycles <= pre.cycles + 24,
{
    match ins {
        RawOpcode::INC_H => lemma_cost_inc_8_hi_inc_h(pre, ins),
        RawOpcode::INC_L => lemma_cost_inc_8_hi_inc_l(pre, ins),
        RawOpcode::INC_ptrHL => lemma_cost_inc_8_hi_inc_ptrhl(pre, ins),
        RawOpcode::INC_A => lemma_cost_inc_8_hi_inc_a(pre, ins),
        _ => {},
    }
}

#[verifier::rlimit(100)]
#[verifier::spinoff_prover]
proof fn lemma_cost_inc_8(pre: CpuView, ins: RawOpcode)
    requires
        matches!(ins,
            RawOpcode::INC_B | RawOpcode::INC_C | RawOpcode::INC_D
            | RawOpcode::INC_E | RawOpcode::INC_H | RawOpcode::INC_L
            | RawOpcode::INC_ptrHL | RawOpcode::INC_A),
    ensures
        pre.cycles < step(pre, ins).cycles,
        (step(pre, ins).cycles - pre.cycles) % 4 == 0,
        step(pre, ins).cycles <= pre.cycles + 24,
{
    match ins {
        RawOpcode::INC_B | RawOpcode::INC_C | RawOpcode::INC_D
        | RawOpcode::INC_E => lemma_cost_inc_8_lo(pre, ins),
        RawOpcode::INC_H | RawOpcode::INC_L | RawOpcode::INC_ptrHL
        | RawOpcode::INC_A => lemma_cost_inc_8_hi(pre, ins),
        _ => {},
    }
}

#[verifier::rlimit(100)]
#[verifier::spinoff_prover]
proof fn lemma_cost_dec_8_lo_dec_b(pre: CpuView, ins: RawOpcode)
    requires
        ins is DEC_B,
    ensures
        pre.cycles < step(pre, ins).cycles,
        (step(pre, ins).cycles - pre.cycles) % 4 == 0,
        step(pre, ins).cycles <= pre.cycles + 24,
{
}

#[verifier::rlimit(100)]
#[verifier::spinoff_prover]
proof fn lemma_cost_dec_8_lo_dec_c(pre: CpuView, ins: RawOpcode)
    requires
        ins is DEC_C,
    ensures
        pre.cycles < step(pre, ins).cycles,
        (step(pre, ins).cycles - pre.cycles) % 4 == 0,
        step(pre, ins).cycles <= pre.cycles + 24,
{
}

#[verifier::rlimit(100)]
#[verifier::spinoff_prover]
proof fn lemma_cost_dec_8_lo_dec_d(pre: CpuView, ins: RawOpcode)
    requires
        ins is DEC_D,
    ensures
        pre.cycles < step(pre, ins).cycles,
        (step(pre, ins).cycles - pre.cycles) % 4 == 0,
        step(pre, ins).cycles <= pre.cycles + 24,
{
}

#[verifier::rlimit(100)]
#[verifier::spinoff_prover]
proof fn lemma_cost_dec_8_lo_dec_e(pre: CpuView, ins: RawOpcode)
    requires
        ins is DEC_E,
    ensures
        pre.cycles < step(pre, ins).cycles,
        (step(pre, ins).cycles - pre.cycles) % 4 == 0,
        step(pre, ins).cycles <= pre.cycles + 24,
{
}

#[verifier::rlimit(100)]
#[verifier::spinoff_prover]
proof fn lemma_cost_dec_8_lo(pre: CpuView, ins: RawOpcode)
    requires
        matches!(ins,
            RawOpcode::DEC_B | RawOpcode::DEC_C | RawOpcode::DEC_D
            | RawOpcode::DEC_E),
    ensures
        pre.cycles < step(pre, ins).cycles,
        (step(pre, ins).cycles - pre.cycles) % 4 == 0,
        step(pre, ins).cycles <= pre.cycles + 24,
{
    match ins {
        RawOpcode::DEC_B => lemma_cost_dec_8_lo_dec_b(pre, ins),
        RawOpcode::DEC_C => lemma_cost_dec_8_lo_dec_c(pre, ins),
        RawOpcode::DEC_D => lemma_cost_dec_8_lo_dec_d(pre, ins),
        RawOpcode::DEC_E => lemma_cost_dec_8_lo_dec_e(pre, ins),
        _ => {},
    }
}

#[verifier::rlimit(100)]
#[verifier::spinoff_prover]
proof fn lemma_cost_dec_8_hi_dec_h(pre: CpuView, ins: RawOpcode)
    requires
        ins is DEC_H,
    ensures
        pre.cycles < step(pre, ins).cycles,
        (step(pre, ins).cycles - pre.cycles) % 4 == 0,
        step(pre, ins).cycles <= pre.cycles + 24,
{
}

#[verifier::rlimit(100)]
#[verifier::spinoff_prover]
proof fn lemma_cost_dec_8_hi_dec_l(pre: CpuView, ins: RawOpcode)
    requires
        ins is DEC_L,
    ensures
        pre.cycles < step(pre, ins).cycles,
        (step(pre, ins).cycles - pre.cycles) % 4 == 0,
        step(pre, ins).cycles <= pre.cycles + 24,
{
}

#[verifier::rlimit(100)]
#[verifier::spinoff_prover]
proof fn lemma_cost_dec_8_hi_dec_ptrhl(pre: CpuView, ins: RawOpcode)
    requires
        ins is DEC_ptrHL,
    ensures
        pre.cycles < step(pre, ins).cycles,
        (step(pre, ins).cycles - pre.cycles) % 4 == 0,
        step(pre, ins).cycles <= pre.cycles + 24,
{
}

#[verifier::rlimit(100)]
#[verifier::spinoff_prover]
proof fn lemma_cost_dec_8_hi_dec_a(pre: CpuView, ins: RawOpcode)
    requires
        ins is DEC_A,
    ensures
        pre.cycles < step(pre, ins).cycles,
        (step(pre, ins).cycles - pre.cycles) % 4 == 0,
        step(pre, ins).cycles <= pre.cycles + 24,
{
}

#[verifier::rlimit(100)]
#[verifier::spinoff_prover]
proof fn lemma_cost_dec_8_hi(pre: CpuView, ins: RawOpcode)
    requires
        matches!(ins,
            RawOpcode::DEC_H | RawOpcode::DEC_L | RawOpcode::DEC_ptrHL
            | RawOpcode::DEC_A),
    ensures
        pre.cycles < step(pre, ins).cycles,
        (step(pre, ins).cycles - pre.cycles) % 4 == 0,
        step(pre, ins).cycles <= pre.cycles + 24,
{
    match ins {
        RawOpcode::DEC_H => lemma_cost_dec_8_hi_dec_h(pre, ins),
        RawOpcode::DEC_L => lemma_cost_dec_8_hi_dec_l(pre, ins),
        RawOpcode::DEC_ptrHL => lemma_cost_dec_8_hi_dec_ptrhl(pre, ins),
        RawOpcode::DEC_A => lemma_cost_dec_8_hi_dec_a(pre, ins),
        _ => {},
    }
}

#[verifier::rlimit(100)]
#[verifier::spinoff_prover]
proof fn lemma_cost_dec_8(pre: CpuView, ins: RawOpcode)
    requires
        matches!(ins,
            RawOpcode::DEC_B | RawOpcode::DEC_C | RawOpcode::DEC_D
            | RawOpcode::DEC_E | RawOpcode::DEC_H | RawOpcode::DEC_L
            | RawOpcode::DEC_ptrHL | RawOpcode::DEC_A),
    ensures
        pre.cycles < step(pre, ins).cycles,
        (step(pre, ins).cycles - pre.cycles) % 4 == 0,
        step(pre, ins).cycles <= pre.cycles + 24,
{
    match ins {
        RawOpcode::DEC_B | RawOpcode::DEC_C | RawOpcode::DEC_D
        | RawOpcode::DEC_E => lemma_cost_dec_8_lo(pre, ins),
        RawOpcode::DEC_H | RawOpcode::DEC_L | RawOpcode::DEC_ptrHL
        | RawOpcode::DEC_A => lemma_cost_dec_8_hi(pre, ins),
        _ => {},
    }
}

#[verifier::rlimit(100)]
#[verifier::spinoff_prover]
proof fn lemma_cost_inc_dec_8(pre: CpuView, ins: RawOpcode)
    requires
        matches!(ins,
            RawOpcode::INC_B | RawOpcode::INC_C | RawOpcode::INC_D
            | RawOpcode::INC_E | RawOpcode::INC_H | RawOpcode::INC_L
            | RawOpcode::INC_ptrHL | RawOpcode::INC_A | RawOpcode::DEC_B
            | RawOpcode::DEC_C | RawOpcode::DEC_D | RawOpcode::DEC_E
            | RawOpcode::DEC_H | RawOpcode::DEC_L | RawOpcode::DEC_ptrHL
            | RawOpcode::DEC_A),
    ensures
        pre.cycles < step(pre, ins).cycles,
        (step(pre, ins).cycles - pre.cycles) % 4 == 0,
        step(pre, ins).cycles <= pre.cycles + 24,
{
    match ins {
        RawOpcode::INC_B | RawOpcode::INC_C | RawOpcode::INC_D
        | RawOpcode::INC_E | RawOpcode::INC_H | RawOpcode::INC_L
        | RawOpcode::INC_ptrHL | RawOpcode::INC_A => lemma_cost_inc_8(pre, ins),
        RawOpcode::DEC_B | RawOpcode::DEC_C | RawOpcode::DEC_D
        | RawOpcode::DEC_E | RawOpcode::DEC_H | RawOpcode::DEC_L
        | RawOpcode::DEC_ptrHL | RawOpcode::DEC_A => lemma_cost_dec_8(pre, ins),
        _ => {},
    }
}

#[verifier::rlimit(100)]
#[verifier::spinoff_prover]
proof fn lemma_cost_add_8_lo_add_a_b(pre: CpuView, ins: RawOpcode)
    requires
        ins is ADD_A_B,
    ensures
        pre.cycles < step(pre, ins).cycles,
        (step(pre, ins).cycles - pre.cycles) % 4 == 0,
        step(pre, ins).cycles <= pre.cycles + 24,
{
}

#[verifier::rlimit(100)]
#[verifier::spinoff_prover]
proof fn lemma_cost_add_8_lo_add_a_c(pre: CpuView, ins: RawOpcode)
    requires
        ins is ADD_A_C,
    ensures
        pre.cycles < step(pre, ins).cycles,
        (step(pre, ins).cycles - pre.cycles) % 4 == 0,
        step(pre, ins).cycles <= pre.cycles + 24,
{
}

#[verifier::rlimit(100)]
#[verifier::spinoff_prover]
proof fn lemma_cost_add_8_lo_add_a_d(pre: CpuView, ins: RawOpcode)
    requires
        ins is ADD_A_D,
    ensures
        pre.cycles < step(pre, ins).cycles,
        (step(pre, ins).cycles - pre.cycles) % 4 == 0,
        step(pre, ins).cycles <= pre.cycles + 24,
{
}

#[verifier::rlimit(100)]
#[verifier::spinoff_prover]
proof fn lemma_cost_add_8_lo_add_a_e(pre: CpuView, ins: RawOpcode)
    requires
        ins is ADD_A_E,
    ensures
        pre.cycles < step(pre, ins).cycles,
        (step(pre, ins).cycles - pre.cycles) % 4 == 0,
        step(pre, ins).cycles <= pre.cycles + 24,
{
}

#[verifier::rlimit(100)]
#[verifier::spinoff_prover]
proof fn lemma_cost_add_8_lo_add_a_h(pre: CpuView, ins: RawOpcode)
    requires
        ins is ADD_A_H,
    ensures
        pre.cycles < step(pre, ins).cycles,
        (step(pre, ins).cycles - pre.cycles) % 4 == 0,
        step(pre, ins).cycles <= pre.cycles + 24,
{
}

#[verifier::rlimit(100)]
#[verifier::spinoff_prover]
proof fn lemma_cost_add_8_lo_add_a_l(pre: CpuView, ins: RawOpcode)
    requires
        ins is ADD_A_L,
    ensures
        pre.cycles < step(pre, ins).cycles,
        (step(pre, ins).cycles - pre.cycles) % 4 == 0,
        step(pre, ins).cycles <= pre.cycles + 24,
{
}

#[verifier::rlimit(100)]
#[verifier::spinoff_prover]
proof fn lemma_cost_add_8_lo_add_a_a(pre: CpuView, ins: RawOpcode)
    requires
        ins is ADD_A_A,
    ensures
        pre.cycles < step(pre, ins).cycles,
        (step(pre, ins).cycles - pre.cycles) % 4 == 0,
        step(pre, ins).cycles <= pre.cycles + 24,
{
}

#[verifier::rlimit(100)]
#[verifier::spinoff_prover]
proof fn lemma_cost_add_8_lo(pre: CpuView, ins: RawOpcode)
    requires
        matches!(ins,
            RawOpcode::ADD_A_B | RawOpcode::ADD_A_C | RawOpcode::ADD_A_D
            | RawOpcode::ADD_A_E | RawOpcode::ADD_A_H | RawOpcode::ADD_A_L
            | RawOpcode::ADD_A_A),
    ensures
        pre.cycles < step(pre, ins).cycles,
        (step(pre, ins).cycles - pre.cycles) % 4 == 0,
        step(pre, ins).cycles <= pre.cycles + 24,
{
    match ins {
        RawOpcode::ADD_A_B => lemma_cost_add_8_lo_add_a_b(pre, ins),
        RawOpcode::ADD_A_C => lemma_cost_add_8_lo_add_a_c(pre, ins),
        RawOpcode::ADD_A_D => lemma_cost_add_8_lo_add_a_d(pre, ins),
        RawOpcode::ADD_A_E => lemma_cost_add_8_lo_add_a_e(pre, ins),
        RawOpcode::ADD_A_H => lemma_cost_add_8_lo_add_a_h(pre, ins),
        RawOpcode::ADD_A_L => lemma_cost_add_8_lo_add_a_l(pre, ins),
        RawOpcode::ADD_A_A => lemma_cost_add_8_lo_add_a_a(pre, ins),
        _ => {},
    }
}

#[verifier::rlimit(100)]
#[verifier::spinoff_prover]
proof fn lemma_cost_add_8_hi_adc_a_b(pre: CpuView, ins: RawOpcode)
    requires
        ins is ADC_A_B,
    ensures
        pre.cycles < step(pre, ins).cycles,
        (step(pre, ins).cycles - pre.cycles) % 4 == 0,
        step(pre, ins).cycles <= pre.cycles + 24,
{
}

#[verifier::rlimit(100)]
#[verifier::spinoff_prover]
proof fn lemma_cost_add_8_hi_adc_a_c(pre: CpuView, ins: RawOpcode)
    requires
        ins is ADC_A_C,
    ensures
        pre.cycles < step(pre, ins).cycles,
        (step(pre, ins).cycles - pre.cycles) % 4 == 0,
        step(pre, ins).cycles <= pre.cycles + 24,
{
}

#[verifier::rlimit(100)]
#[verifier::spinoff_prover]
proof fn lemma_cost_add_8_hi_adc_a_d(pre: CpuView, ins: RawOpcode)
    requires
        ins is ADC_A_D,
    ensures
        pre.cycles < step(pre, ins).cycles,
        (step(pre, ins).cycles - pre.cycles) % 4 == 0,
        step(pre, ins).cycles <= pre.cycles + 24,
{
}

#[verifier::rlimit(100)]
#[verifier::spinoff_prover]
proof fn lemma_cost_add_8_hi_adc_a_e(pre: CpuView, ins: RawOpcode)
    requires
        ins is ADC_A_E,
    ensures
        pre.cycles < step(pre, ins).cycles,
        (step(pre, ins).cycles - pre.cycles) % 4 == 0,
        step(pre, ins).cycles <= pre.cycles + 24,
{
}

#[verifier::rlimit(100)]
#[verifier::spinoff_prover]
proof fn lemma_cost_add_8_hi_adc_a_h(pre: CpuView, ins: RawOpcode)
    requires
        ins is ADC_A_H,
    ensures
        pre.cycles < step(pre, ins).cycles,
        (step(pre, ins).cycles - pre.cycles) % 4 == 0,
        step(pre, ins).cycles <= pre.cycles + 24,
{
}

#[verifier::rlimit(100)]
#[verifier::spinoff_prover]
proof fn lemma_cost_add_8_hi_adc_a_l(pre: CpuView, ins: RawOpcode)
    requires
        ins is ADC_A_L,
    ensures
        pre.cycles < step(pre, ins).cycles,
        (step(pre, ins).cycles - pre.cycles) % 4 == 0,
        step(pre, ins).cycles <= pre.cycles + 24,
{
}

#[verifier::rlimit(100)]
#[verifier::spinoff_prover]
proof fn lemma_cost_add_8_hi_adc_a_a(pre: CpuView, ins: RawOpcode)
    requires
        ins is ADC_A_A,
    ensures
        pre.cycles < step(pre, ins).cycles,
        (step(pre, ins).cycles - pre.cycles) % 4 == 0,
        step(pre, ins).cycles <= pre.cycles + 24,
{
}

#[verifier::rlimit(100)]
#[verifier::spinoff_prover]
proof fn lemma_cost_add_8_hi(pre: CpuView, ins: RawOpcode)
    requires
        matches!(ins,
            RawOpcode::ADC_A_B | RawOpcode::ADC_A_C | RawOpcode::ADC_A_D
            | RawOpcode::ADC_A_E | RawOpcode::ADC_A_H | RawOpcode::ADC_A_L
            | RawOpcode::ADC_A_A),
    ensures
        pre.cycles < step(pre, ins).cycles,
        (step(pre, ins).cycles - pre.cycles) % 4 == 0,
        step(pre, ins).cycles <= pre.cycles + 24,
{
    match ins {
        RawOpcode::ADC_A_B => lemma_cost_add_8_hi_adc_a_b(pre, ins),
        RawOpcode::ADC_A_C => lemma_cost_add_8_hi_adc_a_c(pre, ins),
        RawOpcode::ADC_A_D => lemma_cost_add_8_hi_adc_a_d(pre, ins),
        RawOpcode::ADC_A_E => lemma_cost_add_8_hi_adc_a_e(pre, ins),
        RawOpcode::ADC_A_H => lemma_cost_add_8_hi_adc_a_h(pre, ins),
        RawOpcode::ADC_A_L => lemma_cost_add_8_hi_adc_a_l(pre, ins),
        RawOpcode::ADC_A_A => lemma_cost_add_8_hi_adc_a_a(pre, ins),
        _ => {},
    }
}

#[verifier::rlimit(100)]
#[verifier::spinoff_prover]
proof fn lemma_cost_add_8(pre: CpuView, ins: RawOpcode)
    requires
        matches!(ins,
            RawOpcode::ADD_A_B | RawOpcode::ADD_A_C | RawOpcode::ADD_A_D
            | RawOpcode::ADD_A_E | RawOpcode::ADD_A_H | RawOpcode::ADD_A_L
            | RawOpcode::ADD_A_A | RawOpcode::ADC_A_B | RawOpcode::ADC_A_C
            | RawOpcode::ADC_A_D | RawOpcode::ADC_A_E | RawOpcode::ADC_A_H
            | RawOpcode::ADC_A_L | RawOpcode::ADC_A_A),
    ensures
        pre.cycles < step(pre, ins).cycles,
        (step(pre, ins).cycles - pre.cycles) % 4 == 0,
        step(pre, ins).cycles <= pre.cycles + 24,
{
    match ins {
        RawOpcode::ADD_A_B | RawOpcode::ADD_A_C | RawOpcode::ADD_A_D
        | RawOpcode::ADD_A_E | RawOpcode::ADD_A_H | RawOpcode::ADD_A_L
        | RawOpcode::ADD_A_A => lemma_cost_add_8_lo(pre, ins),
        RawOpcode::ADC_A_B | RawOpcode::ADC_A_C | RawOpcode::ADC_A_D
        | RawOpcode::ADC_A_E | RawOpcode::ADC_A_H | RawOpcode::ADC_A_L
        | RawOpcode::ADC_A_A => lemma_cost_add_8_hi(pre, ins),
        _ => {},
    }
}

#[verifier::rlimit(100)]
#[verifier::spinoff_prover]
proof fn lemma_cost_sub_8_lo_sub_b(pre: CpuView, ins: RawOpcode)
    requires
        ins is SUB_B,
    ensures
        pre.cycles < step(pre, ins).cycles,
        (step(pre, ins).cycles - pre.cycles) % 4 == 0,
        step(pre, ins).cycles <= pre.cycles + 24,
{
}

#[verifier::rlimit(100)]
#[verifier::spinoff_prover]
proof fn lemma_cost_sub_8_lo_sub_c(pre: CpuView, ins: RawOpcode)
    requires
        ins is SUB_C,
    ensures
        pre.cycles < step(pre, ins).cycles,
        (step(pre, ins).cycles - pre.cycles) % 4 == 0,
        step(pre, ins).cycles <= pre.cycles + 24,
{
}

#[verifier::rlimit(100)]
#[verifier::spinoff_prover]
proof fn lemma_cost_sub_8_lo_sub_d(pre: CpuView, ins: RawOpcode)
    requires
        ins is SUB_D,
    ensures
        pre.cycles < step(pre, ins).cycles,
        (step(pre, ins).cycles - pre.cycles) % 4 == 0,
        step(pre, ins).cycles <= pre.cycles + 24,
{
}

#[verifier::rlimit(100)]
#[verifier::spinoff_prover]
proof fn lemma_cost_sub_8_lo_sub_e(pre: CpuView, ins: RawOpcode)
    requires
        ins is SUB_E,
    ensures
        pre.cycles < step(pre, ins).cycles,
        (step(pre, ins).cycles - pre.cycles) % 4 == 0,
        step(pre, ins).cycles <= pre.cycles + 24,
{
}

#[verifier::rlimit(100)]
#[verifier::spinoff_prover]
proof fn lemma_cost_sub_8_lo_sub_h(pre: CpuView, ins: RawOpcode)
    requires
        ins is SUB_H,
    ensures
        pre.cycles < step(pre, ins).cycles,
        (step(pre, ins).cycles - pre.cycles) % 4 == 0,
        step(pre, ins).cycles <= pre.cycles + 24,
{
}

#[verifier::rlimit(100)]
#[verifier::spinoff_prover]
proof fn lemma_cost_sub_8_lo_sub_l(pre: CpuView, ins: RawOpcode)
    requires
        ins is SUB_L,
    ensures
        pre.cycles < step(pre, ins).cycles,
        (step(pre, ins).cycles - pre.cycles) % 4 == 0,
        step(pre, ins).cycles <= pre.cycles + 24,
{
}

#[verifier::rlimit(100)]
#[verifier::spinoff_prover]
proof fn lemma_cost_sub_8_lo_sub_a(pre: CpuView, ins: RawOpcode)
    requires
        ins is SUB_A,
    ensures
        pre.cycles < step(pre, ins).cycles,
        (step(pre, ins).cycles - pre.cycles) % 4 == 0,
        step(pre, ins).cycles <= pre.cycles + 24,
{
}

#[verifier::rlimit(100)]
#[verifier::spinoff_prover]
proof fn lemma_cost_sub_8_lo(pre: CpuView, ins: RawOpcode)
    requires
        matches!(ins,
            RawOpcode::SUB_B | RawOpcode::SUB_C | RawOpcode::SUB_D
            | RawOpcode::SUB_E | RawOpcode::SUB_H | RawOpcode::SUB_L
            | RawOpcode::SUB_A),
    ensures
        pre.cycles < step(pre, ins).cycles,
        (step(pre, ins).cycles - pre.cycles) % 4 == 0,
        step(pre, ins).cycles <= pre.cycles + 24,
{
    match ins {
        RawOpcode::SUB_B => lemma_cost_sub_8_lo_sub_b(pre, ins),
        RawOpcode::SUB_C => lemma_cost_sub_8_lo_sub_c(pre, ins),
        RawOpcode::SUB_D => lemma_cost_sub_8_lo_sub_d(pre, ins),
        RawOpcode::SUB_E => lemma_cost_sub_8_lo_sub_e(pre, ins),
        RawOpcode::SUB_H => lemma_cost_sub_8_lo_sub_h(pre, ins),
        RawOpcode::SUB_L => lemma_cost_sub_8_lo_sub_l(pre, ins),
        RawOpcode::SUB_A => lemma_cost_sub_8_lo_sub_a(pre, ins),
        _ => {},
    }
}

#[verifier::rlimit(100)]
#[verifier::spinoff_prover]
proof fn lemma_cost_sub_8_hi_sbc_b(pre: CpuView, ins: RawOpcode)
    requires
        ins is SBC_B,
    ensures
        pre.cycles < step(pre, ins).cycles,
        (step(pre, ins).cycles - pre.cycles) % 4 == 0,
        step(pre, ins).cycles <= pre.cycles + 24,
{
}

#[verifier::rlimit(100)]
#[verifier::spinoff_prover]
proof fn lemma_cost_sub_8_hi_sbc_c(pre: CpuView, ins: RawOpcode)
    requires
        ins is SBC_C,
    ensures
        pre.cycles < step(pre, ins).cycles,
        (step(pre, ins).cycles - pre.cycles) % 4 == 0,
        step(pre, ins).cycles <= pre.cycles + 24,
{
}

#[verifier::rlimit(100)]
#[verifier::spinoff_prover]
proof fn lemma_cost_sub_8_hi_sbc_d(pre: CpuView, ins: RawOpcode)
    requires
        ins is SBC_D,
    ensures
        pre.cycles < step(pre, ins).cycles,
        (step(pre, ins).cycles - pre.cycles) % 4 == 0,
        step(pre, ins).cycles <= pre.cycles + 24,
{
}

#[verifier::rlimit(100)]
#[verifier::spinoff_prover]
proof fn lemma_cost_sub_8_hi_sbc_e(pre: CpuView, ins: RawOpcode)
    requires
        ins is SBC_E,
    ensures
        pre.cycles < step(pre, ins).cycles,
        (step(pre, ins).cycles - pre.cycles) % 4 == 0,
        step(pre, ins).cycles <= pre.cycles + 24,
{
}

#[verifier::rlimit(100)]
#[verifier::spinoff_prover]
proof fn lemma_cost_sub_8_hi_sbc_h(pre: CpuView, ins: RawOpcode)
    requires
        ins is SBC_H,
    ensures
        pre.cycles < step(pre, ins).cycles,
        (step(pre, ins).cycles - pre.cycles) % 4 == 0,
        step(pre, ins).cycles <= pre.cycles + 24,
{
}

#[verifier::rlimit(100)]
#[verifier::spinoff_prover]
proof fn lemma_cost_sub_8_hi_sbc_l(pre: CpuView, ins: RawOpcode)
    requires
        ins is SBC_L,
    ensures
        pre.cycles < step(pre, ins).cycles,
        (step(pre, ins).cycles - pre.cycles) % 4 == 0,
        step(pre, ins).cycles <= pre.cycles + 24,
{
}

#[verifier::rlimit(100)]
#[verifier::spinoff_prover]
proof fn lemma_cost_sub_8_hi_sbc_a(pre: CpuView, ins: RawOpcode)
    requires
        ins is SBC_A,
    ensures
        pre.cycles < step(pre, ins).cycles,
        (step(pre, ins).cycles - pre.cycles) % 4 == 0,
        step(pre, ins).cycles <= pre.cycles + 24,
{
}

#[verifier::rlimit(100)]
#[verifier::spinoff_prover]
proof fn lemma_cost_sub_8_hi(pre: CpuView, ins: RawOpcode)
    requires
        matches!(ins,
            RawOpcode::SBC_B | RawOpcode::SBC_C | RawOpcode::SBC_D
            | RawOpcode::SBC_E | RawOpcode::SBC_H | RawOpcode::SBC_L
            | RawOpcode::SBC_A),
    ensures
        pre.cycles < step(pre, ins).cycles,
        (step(pre, ins).cycles - pre.cycles) % 4 == 0,
        step(pre, ins).cycles <= pre.cycles + 24,
{
    match ins {
        RawOpcode::SBC_B => lemma_cost_sub_8_hi_sbc_b(pre, ins),
        RawOpcode::SBC_C => lemma_cost_sub_8_hi_sbc_c(pre, ins),
        RawOpcode::SBC_D => lemma_cost_sub_8_hi_sbc_d(pre, ins),
        RawOpcode::SBC_E => lemma_cost_sub_8_hi_sbc_e(pre, ins),
        RawOpcode::SBC_H => lemma_cost_sub_8_hi_sbc_h(pre, ins),
        RawOpcode::SBC_L => lemma_cost_sub_8_hi_sbc_l(pre, ins),
        RawOpcode::SBC_A => lemma_cost_sub_8_hi_sbc_a(pre, ins),
        _ => {},
    }
}

#[verifier::rlimit(100)]
#[verifier::spinoff_prover]
proof fn lemma_cost_sub_8(pre: CpuView, ins: RawOpcode)
    requires
        matches!(ins,
            RawOpcode::SUB_B | RawOpcode::SUB_C | RawOpcode::SUB_D
            | RawOpcode::SUB_E | RawOpcode::SUB_H | RawOpcode::SUB_L
            | RawOpcode::SUB_A | RawOpcode::SBC_B | RawOpcode::SBC_C
            | RawOpcode::SBC_D | RawOpcode::SBC_E | RawOpcode::SBC_H
            | RawOpcode::SBC_L | RawOpcode::SBC_A),
    ensures
        pre.cycles < step(pre, ins).cycles,
        (step(pre, ins).cycles - pre.cycles) % 4 == 0,
        step(pre, ins).cycles <= pre.cycles + 24,
{
    match ins {
        RawOpcode::SUB_B | RawOpcode::SUB_C | RawOpcode::SUB_D
        | RawOpcode::SUB_E | RawOpcode::SUB_H | RawOpcode::SUB_L
        | RawOpcode::SUB_A => lemma_cost_sub_8_lo(pre, ins),
        RawOpcode::SBC_B | RawOpcode::SBC_C | RawOpcode::SBC_D
        | RawOpcode::SBC_E | RawOpcode::SBC_H | RawOpcode::SBC_L
        | RawOpcode::SBC_A => lemma_cost_sub_8_hi(pre, ins),
        _ => {},
    }
}

#[verifier::rlimit(100)]
#[verifier::spinoff_prover]
proof fn lemma_cost_cp_8(pre: CpuView, ins: RawOpcode)
    requires
        matches!(ins,
            RawOpcode::CP_B | RawOpcode::CP_C | RawOpcode::CP_D
            | RawOpcode::CP_E | RawOpcode::CP_H | RawOpcode::CP_L
            | RawOpcode::CP_A),
    ensures
        pre.cycles < step(pre, ins).cycles,
        (step(pre, ins).cycles - pre.cycles) % 4 == 0,
        step(pre, ins).cycles <= pre.cycles + 24,
{
    match ins {
        RawOpcode::CP_B => {},
        RawOpcode::CP_C => {},
        RawOpcode::CP_D => {},
        RawOpcode::CP_E => {},
        RawOpcode::CP_H => {},
        RawOpcode::CP_L => {},
        RawOpcode::CP_A => {},
        _ => {},
    }
}

#[verifier::rlimit(100)]
#[verifier::spinoff_prover]
proof fn lemma_cost_arith_8(pre: CpuView, ins: RawOpcode)
    requires
        matches!(ins,
            RawOpcode::ADD_A_B | RawOpcode::ADD_A_C | RawOpcode::ADD_A_D
            | RawOpcode::ADD_A_E | RawOpcode::ADD_A_H | RawOpcode::ADD_A_L
            | RawOpcode::ADD_A_A | RawOpcode::ADC_A_B | RawOpcode::ADC_A_C
            | RawOpcode::ADC_A_D | RawOpcode::ADC_A_E | RawOpcode::ADC_A_H
            | RawOpcode::ADC_A_L | RawOpcode::ADC_A_A | RawOpcode::SUB_B
            | RawOpcode::SUB_C | RawOpcode::SUB_D | RawOpcode::SUB_E
            | RawOpcode::SUB_H | RawOpcode::SUB_L | RawOpcode::SUB_A
            | RawOpcode::SBC_B | RawOpcode::SBC_C | RawOpcode::SBC_D
            | RawOpcode::SBC_E | RawOpcode::SBC_H | RawOpcode::SBC_L
            | RawOpcode::SBC_A | RawOpcode::CP_B | RawOpcode::CP_C
            | RawOpcode::CP_D | RawOpcode::CP_E | RawOpcode::CP_H
            | RawOpcode::CP_L | RawOpcode::CP_A),
    ensures
        pre.cycles < step(pre, ins).cycles,
        (step(pre, ins).cycles - pre.cycles) % 4 == 0,
        step(pre, ins).cycles <= pre.cycles + 24,
{
    match ins {
        RawOpcode::ADD_A_B | RawOpcode::ADD_A_C | RawOpcode::ADD_A_D
        | RawOpcode::ADD_A_E | RawOpcode::ADD_A_H | RawOpcode::ADD_A_L
        | RawOpcode::ADD_A_A | RawOpcode::ADC_A_B | RawOpcode::ADC_A_C
        | RawOpcode::ADC_A_D | RawOpcode::ADC_A_E | RawOpcode::ADC_A_H
        | RawOpcode::ADC_A_L | RawOpcode::ADC_A_A => lemma_cost_add_8(pre, ins),
        RawOpcode::SUB_B | RawOpcode::SUB_C | RawOpcode::SUB_D
        | RawOpcode::SUB_E | RawOpcode::SUB_H | RawOpcode::SUB_L
        | RawOpcode::SUB_A | RawOpcode::SBC_B | RawOpcode::SBC_C
        | RawOpcode::SBC_D | RawOpcode::SBC_E | RawOpcode::SBC_H
        | RawOpcode::SBC_L | RawOpcode::SBC_A => lemma_cost_sub_8(pre, ins),
        RawOpcode::CP_B | RawOpcode::CP_C | RawOpcode::CP_D
        | RawOpcode::CP_E | RawOpcode::CP_H | RawOpcode::CP_L
        | RawOpcode::CP_A => lemma_cost_cp_8(pre, ins),
        _ => {},
    }
}

#[verifier::rlimit(100)]
#[verifier::spinoff_prover]
proof fn lemma_cost_logic_8(pre: CpuView, ins: RawOpcode)
    requires
        matches!(ins,
            RawOpcode::AND_B | RawOpcode::AND_C | RawOpcode::AND_D
            | RawOpcode::AND_E | RawOpcode::AND_H | RawOpcode::AND_L
            | RawOpcode::AND_A | RawOpcode::XOR_B | RawOpcode::XOR_C
            | RawOpcode::XOR_D | RawOpcode::XOR_E | RawOpcode::XOR_H
            | RawOpcode::XOR_L | RawOpcode::XOR_A | RawOpcode::OR_B
            | RawOpcode::OR_C | RawOpcode::OR_D | RawOpcode::OR_E
            | RawOpcode::OR_H | RawOpcode::OR_L | RawOpcode::OR_A),
    ensures
        pre.cycles < step(pre, ins).cycles,
        (step(pre, ins).cycles - pre.cycles) % 4 == 0,
        step(pre, ins).cycles <= pre.cycles + 24,
{
    match ins {
        RawOpcode::AND_B => {},
        RawOpcode::AND_C => {},
        RawOpcode::AND_D => {},
        RawOpcode::AND_E => {},
        RawOpcode::AND_H => {},
        RawOpcode::AND_L => {},
        RawOpcode::AND_A => {},
        RawOpcode::XOR_B => {},
        RawOpcode::XOR_C => {},
        RawOpcode::XOR_D => {},
        RawOpcode::XOR_E => {},
        RawOpcode::XOR_H => {},
        RawOpcode::XOR_L => {},
        RawOpcode::XOR_A => {},
        RawOpcode::OR_B => {},
        RawOpcode::OR_C => {},
        RawOpcode::OR_D => {},
        RawOpcode::OR_E => {},
        RawOpcode::OR_H => {},
        RawOpcode::OR_L => {},
        RawOpcode::OR_A => {},
        _ => {},
    }
}

#[verifier::rlimit(100)]
#[verifier::spinoff_prover]
proof fn lemma_cost_rotates(pre: CpuView, ins: RawOpcode)
    requires
        matches!(ins,
            RawOpcode::RLCA | RawOpcode::RRCA | RawOpcode::RLA
            | RawOpcode::RRA),
    ensures
        pre.cycles < step(pre, ins).cycles,
        (step(pre, ins).cycles - pre.cycles) % 4 == 0,
        step(pre, ins).cycles <= pre.cycles + 24,
{
    match ins {
        RawOpcode::RLCA => {},
        RawOpcode::RRCA => {},
        RawOpcode::RLA => {},
        RawOpcode::RRA => {},
        _ => {},
    }
}

#[verifier::rlimit(100)]
#[verifier::spinoff_prover]
proof fn lemma_cost_sp_signed(pre: CpuView, ins: RawOpcode)
    requires
        matches!(ins,
            RawOpcode::ADD_SP_d8),
    ensures
        pre.cycles < step(pre, ins).cycles,
        (step(pre, ins).cycles - pre.cycles) % 4 == 0,
        step(pre, ins).cycles <= pre.cycles + 24,
{
    match ins {
        RawOpcode::ADD_SP_d8 => {},
        _ => {},
    }
}

#[verifier::rlimit(100)]
#[verifier::spinoff_prover]
proof fn lemma_cost_add_16(pre: CpuView, ins: RawOpcode)
    requires
        matches!(ins,
            RawOpcode::ADD_HL_BC | RawOpcode::ADD_HL_DE | RawOpcode::ADD_HL_HL
            | RawOpcode::ADD_HL_SP),
    ensures
        pre.cycles < step(pre, ins).cycles,
        (step(pre, ins).cycles - pre.cycles) % 4 == 0,
        step(pre, ins).cycles <= pre.cycles + 24,
{
    match ins {
        RawOpcode::ADD_HL_BC => {},
        RawOpcode::ADD_HL_DE => {},
        RawOpcode::ADD_HL_HL => {},
        RawOpcode::ADD_HL_SP => {},
        _ => {},
    }
}

#[verifier::rlimit(100)]
#[verifier::spinoff_prover]
proof fn lemma_cost_complement(pre: CpuView, ins: RawOpcode)
    requires
        matches!(ins,
            RawOpcode::CPL),
    ensures
        pre.cycles < step(pre, ins).cycles,
        (step(pre, ins).cycles - pre.cycles) % 4 == 0,
        step(pre, ins).cycles <= pre.cycles + 24,
{
    match ins {
        RawOpcode::CPL => {},
        _ => {},
    }
}

#[verifier::rlimit(100)]
#[verifier::spinoff_prover]
proof fn lemma_cost_carry_ops(pre: CpuView, ins: RawOpcode)
    requires
        matches!(ins,
            RawOpcode::SCF | RawOpcode::CCF),
    ensures
        pre.cycles < step(pre, ins).cycles,
        (step(pre, ins).cycles - pre.cycles) % 4 == 0,
        step(pre, ins).cycles <= pre.cycles + 24,
{
    match ins {
        RawOpcode::SCF => {},
        RawOpcode::CCF => {},
        _ => {},
    }
}

#[verifier::rlimit(100)]
#[verifier::spinoff_prover]
proof fn lemma_cost_ld_rr(pre: CpuView, ins: RawOpcode)
    requires
        matches!(ins,
            RawOpcode::LD_B_B | RawOpcode::LD_B_C | RawOpcode::LD_B_D
            | RawOpcode::LD_B_E | RawOpcode::LD_B_H | RawOpcode::LD_B_L
            | RawOpcode::LD_B_A | RawOpcode::LD_C_B | RawOpcode::LD_C_C
            | RawOpcode::LD_C_D | RawOpcode::LD_C_E | RawOpcode::LD_C_H
            | RawOpcode::LD_C_L | RawOpcode::LD_C_A | RawOpcode::LD_D_B
            | RawOpcode::LD_D_C | RawOpcode::LD_D_D | RawOpcode::LD_D_E
            | RawOpcode::LD_D_H | RawOpcode::LD_D_L | RawOpcode::LD_D_A
            | RawOpcode::LD_E_B | RawOpcode::LD_E_C | RawOpcode::LD_E_D
            | RawOpcode::LD_E_E | RawOpcode::LD_E_H | RawOpcode::LD_E_L
            | RawOpcode::LD_E_A | RawOpcode::LD_H_B | RawOpcode::LD_H_C
            | RawOpcode::LD_H_D | RawOpcode::LD_H_E | RawOpcode::LD_H_H
            | RawOpcode::LD_H_L | RawOpcode::LD_H_A | RawOpcode::LD_L_B
            | RawOpcode::LD_L_C | RawOpcode::LD_L_D | RawOpcode::LD_L_E
            | RawOpcode::LD_L_H | RawOpcode::LD_L_L | RawOpcode::LD_L_A
            | RawOpcode::LD_A_B | RawOpcode::LD_A_C | RawOpcode::LD_A_D
            | RawOpcode::LD_A_E | RawOpcode::LD_A_H | RawOpcode::LD_A_L
            | RawOpcode::LD_A_A),
    ensures
        pre.cycles < step(pre, ins).cycles,
        (step(pre, ins).cycles - pre.cycles) % 4 == 0,
        step(pre, ins).cycles <= pre.cycles + 24,
{
    match ins {
        RawOpcode::LD_B_B => {},
        RawOpcode::LD_B_C => {},
        RawOpcode::LD_B_D => {},
        RawOpcode::LD_B_E => {},
        RawOpcode::LD_B_H => {},
        RawOpcode::LD_B_L => {},
        RawOpcode::LD_B_A => {},
        RawOpcode::LD_C_B => {},
        RawOpcode::LD_C_C => {},
        RawOpcode::LD_C_D => {},
        RawOpcode::LD_C_E => {},
        RawOpcode::LD_C_H => {},
        RawOpcode::LD_C_L => {},
        RawOpcode::LD_C_A => {},
        RawOpcode::LD_D_B => {},
        RawOpcode::LD_D_C => {},
        RawOpcode::LD_D_D => {},
        RawOpcode::LD_D_E => {},
        RawOpcode::LD_D_H => {},
        RawOpcode::LD_D_L => {},
        RawOpcode::LD_D_A => {},
        RawOpcode::LD_E_B => {},
        RawOpcode::LD_E_C => {},
        RawOpcode::LD_E_D => {},
        RawOpcode::LD_E_E => {},
        RawOpcode::LD_E_H => {},
        RawOpcode::LD_E_L => {},
        RawOpcode::LD_E_A => {},
        RawOpcode::LD_H_B => {},
        RawOpcode::LD_H_C => {},
        RawOpcode::LD_H_D => {},
        RawOpcode::LD_H_E => {},
        RawOpcode::LD_H_H => {},
        RawOpcode::LD_H_L => {},
        RawOpcode::LD_H_A => {},
        RawOpcode::LD_L_B => {},
        RawOpcode::LD_L_C => {},
        RawOpcode::LD_L_D => {},
        RawOpcode::LD_L_E => {},
        RawOpcode::LD_L_H => {},
        RawOpcode::LD_L_L => {},
        RawOpcode::LD_L_A => {},
        RawOpcode::LD_A_B => {},
        RawOpcode::LD_A_C => {},
        RawOpcode::LD_A_D => {},
        RawOpcode::LD_A_E => {},
        RawOpcode::LD_A_H => {},
        RawOpcode::LD_A_L => {},
        RawOpcode::LD_A_A => {},
        _ => {},
    }
}

#[verifier::rlimit(100)]
#[verifier::spinoff_prover]
proof fn lemma_cost_ld_mem(pre: CpuView, ins: RawOpcode)
    requires
        matches!(ins,
            RawOpcode::LD_BC_d16 | RawOpcode::LD_BC_A | RawOpcode::LD_B_d8
            | RawOpcode::LD_a16_SP | RawOpcode::LD_A_ptrBC | RawOpcode::LD_C_d8
            | RawOpcode::LD_DE_d16 | RawOpcode::LD_DE_A | RawOpcode::LD_D_d8
            | RawOpcode::LD_A_ptrDE | RawOpcode::LD_E_d8 | RawOpcode::LD_HL_d16
            | RawOpcode::LD_H_d8 | RawOpcode::LD_L_d8 | RawOpcode::LD_SP_d16
            | RawOpcode::LD_B_ptrHL | RawOpcode::LD_C_ptrHL | RawOpcode::LD_D_ptrHL
            | RawOpcode::LD_E_ptrHL | RawOpcode::LD_H_ptrHL | RawOpcode::LD_L_ptrHL
            | RawOpcode::LD_A_ptrHL | RawOpcode::LD_ptrHL_B | RawOpcode::LD_ptrHL_C
            | RawOpcode::LD_ptrHL_D | RawOpcode::LD_ptrHL_E | RawOpcode::LD_ptrHL_H
            | RawOpcode::LD_ptrHL_L | RawOpcode::LD_ptrHL_A | RawOpcode::LDH_a8_A
            | RawOpcode::LDH_C_A | RawOpcode::LD_a16_A | RawOpcode::LDH_A_a8
            | RawOpcode::LDH_A_C | RawOpcode::LD_SP_HL),
    ensures
        pre.cycles < step(pre, ins).cycles,
        (step(pre, ins).cycles - pre.cycles) % 4 == 0,
        step(pre, ins).cycles <= pre.cycles + 24,
{
    match ins {
        RawOpcode::LD_BC_d16 => {},
        RawOpcode::LD_BC_A => {},
        RawOpcode::LD_B_d8 => {},
        RawOpcode::LD_a16_SP => {},
        RawOpcode::LD_A_ptrBC => {},
        RawOpcode::LD_C_d8 => {},
        RawOpcode::LD_DE_d16 => {},
        RawOpcode::LD_DE_A => {},
        RawOpcode::LD_D_d8 => {},
        RawOpcode::LD_A_ptrDE => {},
        RawOpcode::LD_E_d8 => {},
        RawOpcode::LD_HL_d16 => {},
        RawOpcode::LD_H_d8 => {},
        RawOpcode::LD_L_d8 => {},
        RawOpcode::LD_SP_d16 => {},
        RawOpcode::LD_B_ptrHL => {},
        RawOpcode::LD_C_ptrHL => {},
        RawOpcode::LD_D_ptrHL => {},
        RawOpcode::LD_E_ptrHL => {},
        RawOpcode::LD_H_ptrHL => {},
        RawOpcode::LD_L_ptrHL => {},
        RawOpcode::LD_A_ptrHL => {},
        RawOpcode::LD_ptrHL_B => {},
        RawOpcode::LD_ptrHL_C => {},
        RawOpcode::LD_ptrHL_D => {},
        RawOpcode::LD_ptrHL_E => {},
        RawOpcode::LD_ptrHL_H => {},
        RawOpcode::LD_ptrHL_L => {},
        RawOpcode::LD_ptrHL_A => {},
        RawOpcode::LDH_a8_A => {},
        RawOpcode::LDH_C_A => {},
        RawOpcode::LD_a16_A => {},
        RawOpcode::LDH_A_a8 => {},
        RawOpcode::LDH_A_C => {},
        RawOpcode::LD_SP_HL => {},
        _ => {},
    }
}

#[verifier::rlimit(100)]
#[verifier::spinoff_prover]
proof fn lemma_cost_jumps(pre: CpuView, ins: RawOpcode)
    requires
        matches!(ins,
            RawOpcode::JR_d8 | RawOpcode::JR_NZ_d8 | RawOpcode::JR_Z_d8
            | RawOpcode::JR_NC_d8 | RawOpcode::JR_C_d8 | RawOpcode::JP_NZ
            | RawOpcode::JP | RawOpcode::JP_Z | RawOpcode::JP_NC
            | RawOpcode::JP_C),
    ensures
        pre.cycles < step(pre, ins).cycles,
        (step(pre, ins).cycles - pre.cycles) % 4 == 0,
        step(pre, ins).cycles <= pre.cycles + 24,
{
    match ins {
        RawOpcode::JR_d8 => {},
        RawOpcode::JR_NZ_d8 => {},
        RawOpcode::JR_Z_d8 => {},
        RawOpcode::JR_NC_d8 => {},
        RawOpcode::JR_C_d8 => {},
        RawOpcode::JP_NZ => {},
        RawOpcode::JP => {},
        RawOpcode::JP_Z => {},
        RawOpcode::JP_NC => {},
        RawOpcode::JP_C => {},
        _ => {},
    }
}

#[verifier::rlimit(100)]
#[verifier::spinoff_prover]
proof fn lemma_cost_calls(pre: CpuView, ins: RawOpcode)
    requires
        matches!(ins,
            RawOpcode::RET_NZ | RawOpcode::CALL_NZ | RawOpcode::RET_Z
            | RawOpcode::RET | RawOpcode::CALL_Z | RawOpcode::CALL
            | RawOpcode::RET_NC | RawOpcode::CALL_NC | RawOpcode::RET_C
            | RawOpcode::CALL_C),
    ensures
        pre.cycles < step(pre, ins).cycles,
        (step(pre, ins).cycles - pre.cycles) % 4 == 0,
        step(pre, ins).cycles <= pre.cycles + 24,
{
    match ins {
        RawOpcode::RET_NZ => {},
        RawOpcode::CALL_NZ => {},
        RawOpcode::RET_Z => {},
        RawOpcode::RET => {},
        RawOpcode::CALL_Z => {},
        RawOpcode::CALL => {},
        RawOpcode::RET_NC => {},
        RawOpcode::CALL_NC => {},
        RawOpcode::RET_C => {},
        RawOpcode::CALL_C => {},
        _ => {},
    }
}

#[verifier::rlimit(100)]
#[verifier::spinoff_prover]
proof fn lemma_cost_stack_ops(pre: CpuView, ins: RawOpcode)
    requires
        matches!(ins,
            RawOpcode::POP_BC | RawOpcode::PUSH_BC | RawOpcode::POP_DE
            | RawOpcode::PUSH_DE | RawOpcode::POP_HL | RawOpcode::PUSH_HL
            | RawOpcode::POP_AF | RawOpcode::PUSH_AF),
    ensures
        pre.cycles < step(pre, ins).cycles,
        (step(pre, ins).cycles - pre.cycles) % 4 == 0,
        step(pre, ins).cycles <= pre.cycles + 24,
{
    match ins {
        RawOpcode::POP_BC => {},
        RawOpcode::PUSH_BC => {},
        RawOpcode::POP_DE => {},
        RawOpcode::PUSH_DE => {},
        RawOpcode::POP_HL => {},
        RawOpcode::PUSH_HL => {},
        RawOpcode::POP_AF => {},
        RawOpcode::PUSH_AF => {},
        _ => {},
    }
}

/// A flag that an instruction's flag list does not mention keeps its
/// prior value when that instruction executes. In particular the 16-bit
/// additions leave Zero exactly as it was, and no load, jump, call,
/// return, push, pop (except into AF) or 16-bit increment touches any
/// flag at all.
#[verifier::rlimit(100)]
#[verifier::spinoff_prover]
pub proof fn lemma_untouched_flags_unchanged(pre: CpuView, ins: RawOpcode)
    requires
        is_defined(ins),
    ensures
        !affects_z(ins) ==> step(pre, ins).regs.spec_flag(Flags::Z) == pre.regs.spec_flag(
            Flags::Z,
        ),
        !affects_n(ins) ==> step(pre, ins).regs.spec_flag(Flags::N) == pre.regs.spec_flag(
            Flags::N,
        ),
        !affects_h(ins) ==> step(pre, ins).regs.spec_flag(Flags::H) == pre.regs.spec_flag(
            Flags::H,
        ),
        !affects_c(ins) ==> step(pre, ins).regs.spec_flag(Flags::C) == pre.regs.spec_flag(
            Flags::C,
        ),
{
    broadcast use lemma_flags_byte_bits;
    broadcast use lemma_with_flags_value;
    broadcast use lemma_with_r8_flags;

    match ins {
        RawOpcode::NOP => lemma_flags_nop(pre, ins),
        RawOpcode::INC_BC | RawOpcode::DEC_BC | RawOpcode::INC_DE
        | RawOpcode::DEC_DE | RawOpcode::INC_HL | RawOpcode::DEC_HL
        | RawOpcode::INC_SP | RawOpcode::DEC_SP => lemma_flags_inc_dec_16(pre, ins),
        RawOpcode::INC_B | RawOpcode::DEC_B | RawOpcode::INC_C
        | RawOpcode::DEC_C | RawOpcode::INC_D | RawOpcode::DEC_D
        | RawOpcode::INC_E | RawOpcode::DEC_E | RawOpcode::INC_H
        | RawOpcode::DEC_H | RawOpcode::INC_L | RawOpcode::DEC_L
        | RawOpcode::INC_ptrHL | RawOpcode::DEC_ptrHL | RawOpcode::INC_A
        | RawOpcode::DEC_A => lemma_flags_inc_dec_8(pre, ins),
        RawOpcode::ADD_A_B | RawOpcode::ADD_A_C | RawOpcode::ADD_A_D
        | RawOpcode::ADD_A_E | RawOpcode::ADD_A_H | RawOpcode::ADD_A_L
        | RawOpcode::ADD_A_A | RawOpcode::ADC_A_B | RawOpcode::ADC_A_C
        | RawOpcode::ADC_A_D | RawOpcode::ADC_A_E | RawOpcode::ADC_A_H
        | RawOpcode::ADC_A_L | RawOpcode::ADC_A_A | RawOpcode::SUB_B
        | RawOpcode::SUB_C | RawOpcode::SUB_D | RawOpcode::SUB_E
        | RawOpcode::SUB_H | RawOpcode::SUB_L | RawOpcode::SUB_A
        | RawOpcode::SBC_B | RawOpcode::SBC_C | RawOpcode::SBC_D
        | RawOpcode::SBC_E | RawOpcode::SBC_H | RawOpcode::SBC_L
        | RawOpcode::SBC_A | RawOpcode::CP_B | RawOpcode::CP_C
        | RawOpcode::CP_D | RawOpcode::CP_E | RawOpcode::CP_H
        | RawOpcode::CP_L | RawOpcode::CP_A => lemma_flags_arith_8(pre, ins),
        RawOpcode::AND_B | RawOpcode::AND_C | RawOpcode::AND_D
        | RawOpcode::AND_E | RawOpcode::AND_H | RawOpcode::AND_L
        | RawOpcode::AND_A | RawOpcode::XOR_B | RawOpcode::XOR_C
        | RawOpcode::XOR_D | RawOpcode::XOR_E | RawOpcode::XOR_H
        | RawOpcode::XOR_L | RawOpcode::XOR_A | RawOpcode::OR_B
        | RawOpcode::OR_C | RawOpcode::OR_D | RawOpcode::OR_E
        | RawOpcode::OR_H | RawOpcode::OR_L | RawOpcode::OR_A => lemma_flags_logic_8(pre, ins),
        RawOpcode::RLCA | RawOpcode::RRCA | RawOpcode::RLA
        | RawOpcode::RRA => lemma_flags_rotates(pre, ins),
        RawOpcode::ADD_SP_d8 => lemma_flags_sp_signed(pre, ins),
        RawOpcode::ADD_HL_BC | RawOpcode::ADD_HL_DE | RawOpcode::ADD_HL_HL
        | RawOpcode::ADD_HL_SP => lemma_flags_add_16(pre, ins),
        RawOpcode::CPL => lemma_flags_complement(pre, ins),
        RawOpcode::SCF | RawOpcode::CCF => lemma_flags_carry_ops(pre, ins),
        RawOpcode::LD_B_B | RawOpcode::LD_B_C | RawOpcode::LD_B_D
        | RawOpcode::LD_B_E | RawOpcode::LD_B_H | RawOpcode::LD_B_L
        | RawOpcode::LD_B_A | RawOpcode::LD_C_B | RawOpcode::LD_C_C
        | RawOpcode::LD_C_D | RawOpcode::LD_C_E | RawOpcode::LD_C_H
        | RawOpcode::LD_C_L | RawOpcode::LD_C_A | RawOpcode::LD_D_B
        | RawOpcode::LD_D_C | RawOpcode::LD_D_D | RawOpcode::LD_D_E
        | RawOpcode::LD_D_H | RawOpcode::LD_D_L | RawOpcode::LD_D_A
        | RawOpcode::LD_E_B | RawOpcode::LD_E_C | RawOpcode::LD_E_D
        | RawOpcode::LD_E_E | RawOpcode::LD_E_H | RawOpcode::LD_E_L
        | RawOpcode::LD_E_A | RawOpcode::LD_H_B | RawOpcode::LD_H_C
        | RawOpcode::LD_H_D | RawOpcode::LD_H_E | RawOpcode::LD_H_H
        | RawOpcode::LD_H_L | RawOpcode::LD_H_A | RawOpcode::LD_L_B
        | RawOpcode::LD_L_C | RawOpcode::LD_L_D | RawOpcode::LD_L_E
        | RawOpcode::LD_L_H | RawOpcode::LD_L_L | RawOpcode::LD_L_A
        | RawOpcode::LD_A_B | RawOpcode::LD_A_C | RawOpcode::LD_A_D
        | RawOpcode::LD_A_E | RawOpcode::LD_A_H | RawOpcode::LD_A_L
        | RawOpcode::LD_A_A => lemma_flags_ld_rr(pre, ins),
        RawOpcode::LD_BC_d16 | RawOpcode::LD_BC_A | RawOpcode::LD_B_d8
        | RawOpcode::LD_a16_SP | RawOpcode::LD_A_ptrBC | RawOpcode::LD_C_d8
        | RawOpcode::LD_DE_d16 | RawOpcode::LD_DE_A | RawOpcode::LD_D_d8
        | RawOpcode::LD_A_ptrDE | RawOpcode::LD_E_d8 | RawOpcode::LD_HL_d16
        | RawOpcode::LD_H_d8 | RawOpcode::LD_L_d8 | RawOpcode::LD_SP_d16
        | RawOpcode::LD_B_ptrHL | RawOpcode::LD_C_ptrHL | RawOpcode::LD_D_ptrHL
        | RawOpcode::LD_E_ptrHL | RawOpcode::LD_H_ptrHL | RawOpcode::LD_L_ptrHL
        | RawOpcode::LD_A_ptrHL | RawOpcode::LD_ptrHL_B | RawOpcode::LD_ptrHL_C
        | RawOpcode::LD_ptrHL_D | RawOpcode::LD_ptrHL_E | RawOpcode::LD_ptrHL_H
        | RawOpcode::LD_ptrHL_L | RawOpcode::LD_ptrHL_A | RawOpcode::LDH_a8_A
        | RawOpcode::LDH_C_A | RawOpcode::LD_a16_A | RawOpcode::LDH_A_a8
        | RawOpcode::LDH_A_C | RawOpcode::LD_SP_HL => lemma_flags_ld_mem(pre, ins),
        RawOpcode::JR_d8 | RawOpcode::JR_NZ_d8 | RawOpcode::JR_Z_d8
        | RawOpcode::JR_NC_d8 | RawOpcode::JR_C_d8 | RawOpcode::JP_NZ
        | RawOpcode::JP | RawOpcode::JP_Z | RawOpcode::JP_NC
        | RawOpcode::JP_C => lemma_flags_jumps(pre, ins),
        RawOpcode::RET_NZ | RawOpcode::CALL_NZ | RawOpcode::RET_Z
        | RawOpcode::RET | RawOpcode::CALL_Z | RawOpcode::CALL
        | RawOpcode::RET_NC | RawOpcode::CALL_NC | RawOpcode::RET_C
        | RawOpcode::CALL_C => lemma_flags_calls(pre, ins),
        RawOpcode::POP_BC | RawOpcode::PUSH_BC | RawOpcode::POP_DE
        | RawOpcode::PUSH_DE | RawOpcode::POP_HL | RawOpcode::PUSH_HL
        | RawOpcode::POP_AF | RawOpcode::PUSH_AF => lemma_flags_stack_ops(pre, ins),
        _ => {},
    }
}

/// Every defined instruction advances the cycle counter by an exact fixed
/// cost - branch-dependent for the conditional forms - that is positive,
/// a multiple of 4, and at most 24. With the counter starting at zero,
/// its value after any run is the sum of the executed instructions'
/// costs, and always a multiple of 4.
#[verifier::rlimit(100)]
#[verifier::spinoff_prover]
pub proof fn lemma_step_cycle_cost(pre: CpuView, ins: RawOpcode)
    requires
        is_defined(ins),
    ensures
        pre.cycles < step(pre, ins).cycles,
        (step(pre, ins).cycles - pre.cycles) % 4 == 0,
        step(pre, ins).cycles <= pre.cycles + 24,
{
    match ins {
        RawOpcode::NOP => lemma_cost_nop(pre, ins),
        RawOpcode::INC_BC | RawOpcode::DEC_BC | RawOpcode::INC_DE
        | RawOpcode::DEC_DE | RawOpcode::INC_HL | RawOpcode::DEC_HL
        | RawOpcode::INC_SP | RawOpcode::DEC_SP => lemma_cost_inc_dec_16(pre, ins),
        RawOpcode::INC_B | RawOpcode::DEC_B | RawOpcode::INC_C
        | RawOpcode::DEC_C | RawOpcode::INC_D | RawOpcode::DEC_D
        | RawOpcode::INC_E | RawOpcode::DEC_E | RawOpcode::INC_H
        | RawOpcode::DEC_H | RawOpcode::INC_L | RawOpcode::DEC_L
        | RawOpcode::INC_ptrHL | RawOpcode::DEC_ptrHL | RawOpcode::INC_A
        | RawOpcode::DEC_A => lemma_cost_inc_dec_8(pre, ins),
        RawOpcode::ADD_A_B | RawOpcode::ADD_A_C | RawOpcode::ADD_A_D
        | RawOpcode::ADD_A_E | RawOpcode::ADD_A_H | RawOpcode::ADD_A_L
        | RawOpcode::ADD_A_A | RawOpcode::ADC_A_B | RawOpcode::ADC_A_C
        | RawOpcode::ADC_A_D | RawOpcode::ADC_A_E | RawOpcode::ADC_A_H
        | RawOpcode::ADC_A_L | RawOpcode::ADC_A_A | RawOpcode::SUB_B
        | RawOpcode::SUB_C | RawOpcode::SUB_D | RawOpcode::SUB_E
        | RawOpcode::SUB_H | RawOpcode::SUB_L | RawOpcode::SUB_A
        | RawOpcode::SBC_B | RawOpcode::SBC_C | RawOpcode::SBC_D
        | RawOpcode::SBC_E | RawOpcode::SBC_H | RawOpcode::SBC_L
        | RawOpcode::SBC_A | RawOpcode::CP_B | RawOpcode::CP_C
        | RawOpcode::CP_D | RawOpcode::CP_E | RawOpcode::CP_H
        | RawOpcode::CP_L | RawOpcode::CP_A => lemma_cost_arith_8(pre, ins),
        RawOpcode::AND_B | RawOpcode::AND_C | RawOpcode::AND_D
        | RawOpcode::AND_E | RawOpcode::AND_H | RawOpcode::AND_L
        | RawOpcode::AND_A | RawOpcode::XOR_B | RawOpcode::XOR_C
        | RawOpcode::XOR_D | RawOpcode::XOR_E | RawOpcode::XOR_H
        | RawOpcode::XOR_L | RawOpcode::XOR_A | RawOpcode::OR_B
        | RawOpcode::OR_C | RawOpcode::OR_D | RawOpcode::OR_E
        | RawOpcode::OR_H | RawOpcode::OR_L | RawOpcode::OR_A => lemma_cost_logic_8(pre, ins),
        RawOpcode::RLCA | RawOpcode::RRCA | RawOpcode::RLA
        | RawOpcode::RRA => lemma_cost_rotates(pre, ins),
        RawOpcode::ADD_SP_d8 => lemma_cost_sp_signed(pre, ins),
        RawOpcode::ADD_HL_BC | RawOpcode::ADD_HL_DE | RawOpcode::ADD_HL_HL
        | RawOpcode::ADD_HL_SP => lemma_cost_add_16(pre, ins),
        RawOpcode::CPL => lemma_cost_complement(pre, ins),
        RawOpcode::SCF | RawOpcode::CCF => lemma_cost_carry_ops(pre, ins),
        RawOpcode::LD_B_B | RawOpcode::LD_B_C | RawOpcode::LD_B_D
        | RawOpcode::LD_B_E | RawOpcode::LD_B_H | RawOpcode::LD_B_L
        | RawOpcode::LD_B_A | RawOpcode::LD_C_B | RawOpcode::LD_C_C
        | RawOpcode::LD_C_D | RawOpcode::LD_C_E | RawOpcode::LD_C_H
        | RawOpcode::LD_C_L | RawOpcode::LD_C_A | RawOpcode::LD_D_B
        | RawOpcode::LD_D_C | RawOpcode::LD_D_D | RawOpcode::LD_D_E
        | RawOpcode::LD_D_H | RawOpcode::LD_D_L | RawOpcode::LD_D_A
        | RawOpcode::LD_E_B | RawOpcode::LD_E_C | RawOpcode::LD_E_D
        | RawOpcode::LD_E_E | RawOpcode::LD_E_H | RawOpcode::LD_E_L
        | RawOpcode::LD_E_A | RawOpcode::LD_H_B | RawOpcode::LD_H_C
        | RawOpcode::LD_H_D | RawOpcode::LD_H_E | RawOpcode::LD_H_H
        | RawOpcode::LD_H_L | RawOpcode::LD_H_A | RawOpcode::LD_L_B
        | RawOpcode::LD_L_C | RawOpcode::LD_L_D | RawOpcode::LD_L_E
        | RawOpcode::LD_L_H | RawOpcode::LD_L_L | RawOpcode::LD_L_A
        | RawOpcode::LD_A_B | RawOpcode::LD_A_C | RawOpcode::LD_A_D
        | RawOpcode::LD_A_E | RawOpcode::LD_A_H | RawOpcode::LD_A_L
        | RawOpcode::LD_A_A => lemma_cost_ld_rr(pre, ins),
        RawOpcode::LD_BC_d16 | RawOpcode::LD_BC_A | RawOpcode::LD_B_d8
        | RawOpcode::LD_a16_SP | RawOpcode::LD_A_ptrBC | RawOpcode::LD_C_d8
        | RawOpcode::LD_DE_d16 | RawOpcode::LD_DE_A | RawOpcode::LD_D_d8
        | RawOpcode::LD_A_ptrDE | RawOpcode::LD_E_d8 | RawOpcode::LD_HL_d16
        | RawOpcode::LD_H_d8 | RawOpcode::LD_L_d8 | RawOpcode::LD_SP_d16
        | RawOpcode::LD_B_ptrHL | RawOpcode::LD_C_ptrHL | RawOpcode::LD_D_ptrHL
        | RawOpcode::LD_E_ptrHL | RawOpcode::LD_H_ptrHL | RawOpcode::LD_L_ptrHL
        | RawOpcode::LD_A_ptrHL | RawOpcode::LD_ptrHL_B | RawOpcode::LD_ptrHL_C
        | RawOpcode::LD_ptrHL_D | RawOpcode::LD_ptrHL_E | RawOpcode::LD_ptrHL_H
        | RawOpcode::LD_ptrHL_L | RawOpcode::LD_ptrHL_A | RawOpcode::LDH_a8_A
        | RawOpcode::LDH_C_A | RawOpcode::LD_a16_A | RawOpcode::LDH_A_a8
        | RawOpcode::LDH_A_C | RawOpcode::LD_SP_HL => lemma_cost_ld_mem(pre, ins),
        RawOpcode::JR_d8 | RawOpcode::JR_NZ_d8 | RawOpcode::JR_Z_d8
        | RawOpcode::JR_NC_d8 | RawOpcode::JR_C_d8 | RawOpcode::JP_NZ
        | RawOpcode::JP | RawOpcode::JP_Z | RawOpcode::JP_NC
        | RawOpcode::JP_C => lemma_cost_jumps(pre, ins),
        RawOpcode::RET_NZ | RawOpcode::CALL_NZ | RawOpcode::RET_Z
        | RawOpcode::RET | RawOpcode::CALL_Z | RawOpcode::CALL
        | RawOpcode::RET_NC | RawOpcode::CALL_NC | RawOpcode::RET_C
        | RawOpcode::CALL_C => lemma_cost_calls(pre, ins),
        RawOpcode::POP_BC | RawOpcode::PUSH_BC | RawOpcode::POP_DE
        | RawOpcode::PUSH_DE | RawOpcode::POP_HL | RawOpcode::PUSH_HL
        | RawOpcode::POP_AF | RawOpcode::PUSH_AF => lemma_cost_stack_ops(pre, ins),
        _ => {},
    }
}

} // verus!
