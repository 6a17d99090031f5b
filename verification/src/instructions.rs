//! The unprefixed opcode table: one variant per opcode value, 0x00 through
//! 0xff, sixteen to a row. Variants named `BAD_*` are the reserved opcode
//! values with no defined behaviour; dispatching one is a fatal condition.
//! A further set of variants (the second-page escape `PREFIX_CB`, the
//! interrupt stubs `DI`/`EI`/`RETI`, and others) is recognised but carries
//! no completed behaviour yet; dispatching one reports it unimplemented,
//! distinct from illegal, so coverage can be audited opcode by opcode.

use vstd::prelude::*;

verus! {

#[allow(non_camel_case_types)]
#[derive(Copy, Clone, Debug, PartialEq, Eq, Structural)]
pub enum RawOpcode {
    NOP,
    LD_BC_d16,
    LD_BC_A,
    INC_BC,
    INC_B,
    DEC_B,
    LD_B_d8,
    RLCA,
    LD_a16_SP,
    ADD_HL_BC,
    LD_A_ptrBC,
    DEC_BC,
    INC_C,
    DEC_C,
    LD_C_d8,
    RRCA,
    STOP_0,
    LD_DE_d16,
    LD_DE_A,
    INC_DE,
    INC_D,
    DEC_D,
    LD_D_d8,
    RLA,
    JR_d8,
    ADD_HL_DE,
    LD_A_ptrDE,
    DEC_DE,
    INC_E,
    DEC_E,
    LD_E_d8,
    RRA,
    JR_NZ_d8,
    LD_HL_d16,
    LD_ptrHLp_A,
    INC_HL,
    INC_H,
    DEC_H,
    LD_H_d8,
    DAA,
    JR_Z_d8,
    ADD_HL_HL,
    LD_A_ptrHLm,
    DEC_HL,
    INC_L,
    DEC_L,
    LD_L_d8,
    CPL,
    JR_NC_d8,
    LD_SP_d16,
    LD_HLm_A,
    INC_SP,
    INC_ptrHL,
    DEC_ptrHL,
    LD_ptrHL_d8,
    SCF,
    JR_C_d8,
    ADD_HL_SP,
    LD_A_HLm,
    DEC_SP,
    INC_A,
    DEC_A,
    LD_A_d8,
    CCF,
    LD_B_B,
    LD_B_C,
    LD_B_D,
    LD_B_E,
    LD_B_H,
    LD_B_L,
    LD_B_ptrHL,
    LD_B_A,
    LD_C_B,
    LD_C_C,
    LD_C_D,
    LD_C_E,
    LD_C_H,
    LD_C_L,
    LD_C_ptrHL,
    LD_C_A,
    LD_D_B,
    LD_D_C,
    LD_D_D,
    LD_D_E,
    LD_D_H,
    LD_D_L,
    LD_D_ptrHL,
    LD_D_A,
    LD_E_B,
    LD_E_C,
    LD_E_D,
    LD_E_E,
    LD_E_H,
    LD_E_L,
    LD_E_ptrHL,
    LD_E_A,
    LD_H_B,
    LD_H_C,
    LD_H_D,
    LD_H_E,
    LD_H_H,
    LD_H_L,
    LD_H_ptrHL,
    LD_H_A,
    LD_L_B,
    LD_L_C,
    LD_L_D,
    LD_L_E,
    LD_L_H,
    LD_L_L,
    LD_L_ptrHL,
    LD_L_A,
    LD_ptrHL_B,
    LD_ptrHL_C,
    LD_ptrHL_D,
    LD_ptrHL_E,
    LD_ptrHL_H,
    LD_ptrHL_L,
    HALT,
    LD_ptrHL_A,
    LD_A_B,
    LD_A_C,
    LD_A_D,
    LD_A_E,
    LD_A_H,
    LD_A_L,
    LD_A_ptrHL,
    LD_A_A,
    ADD_A_B,
    ADD_A_C,
    ADD_A_D,
    ADD_A_E,
    ADD_A_H,
    ADD_A_L,
    ADD_A_ptrHL,
    ADD_A_A,
    ADC_A_B,
    ADC_A_C,
    ADC_A_D,
    ADC_A_E,
    ADC_A_H,
    ADC_A_L,
    ADC_A_ptrHL,
    ADC_A_A,
    SUB_B,
    SUB_C,
    SUB_D,
    SUB_E,
    SUB_H,
    SUB_L,
    SUB_ptrHL,
    SUB_A,
    SBC_B,
    SBC_C,
    SBC_D,
    SBC_E,
    SBC_H,
    SBC_L,
    SBC_ptrHL,
    SBC_A,
    AND_B,
    AND_C,
    AND_D,
    AND_E,
    AND_H,
    AND_L,
    AND_ptrHL,
    AND_A,
    XOR_B,
    XOR_C,
    XOR_D,
    XOR_E,
    XOR_H,
    XOR_L,
    XOR_ptrHL,
    XOR_A,
    OR_B,
    OR_C,
    OR_D,
    OR_E,
    OR_H,
    OR_L,
    OR_ptrHL,
    OR_A,
    CP_B,
    CP_C,
    CP_D,
    CP_E,
    CP_H,
    CP_L,
    CP_ptrHL,
    CP_A,
    RET_NZ,
    POP_BC,
    JP_NZ,
    JP,
    CALL_NZ,
    PUSH_BC,
    ADD_A_d8,
    RST_00H,
    RET_Z,
    RET,
    JP_Z,
    PREFIX_CB,
    CALL_Z,
    CALL,
    ADC_A_d8,
    RST_08H,
    RET_NC,
    POP_DE,
    JP_NC,
    BAD_0,
    CALL_NC,
    PUSH_DE,
    SUB_A_d8,
    RST_10H,
    RET_C,
    RETI,
    JP_C,
    BAD_1,
    CALL_C,
    BAD_2,
    SBC_A_d8,
    RST_18H,
    LDH_a8_A,
    POP_HL,
    LDH_C_A,
    BAD_3,
    BAD_4,
    PUSH_HL,
    AND_d8,
    RST_20H,
    ADD_SP_d8,
    JP_ptrHL,
    LD_a16_A,
    BAD_5,
    BAD_6,
    BAD_7,
    XOR_d8,
    RST_28H,
    LDH_A_a8,
    POP_AF,
    LDH_A_C,
    DI,
    BAD_8,
    PUSH_AF,
    OR_d8,
    RST_30H,
    LD_HL_SPpd8,
    LD_SP_HL,
    LD_A_a16,
    EI,
    BAD_9,
    BAD_a,
    CP_d8,
    RST_38H,
}

/// The reserved opcode values: dispatching one is fatal.
pub open spec fn is_illegal(ins: RawOpcode) -> bool {
    match ins {
        RawOpcode::BAD_0 => true,
        RawOpcode::BAD_1 => true,
        RawOpcode::BAD_2 => true,
        RawOpcode::BAD_3 => true,
        RawOpcode::BAD_4 => true,
        RawOpcode::BAD_5 => true,
        RawOpcode::BAD_6 => true,
        RawOpcode::BAD_7 => true,
        RawOpcode::BAD_8 => true,
        RawOpcode::BAD_9 => true,
        RawOpcode::BAD_a => true,
        _ => false,
    }
}

/// The recognised opcodes whose behaviour is not finished: the second-page
/// escape, the interrupt stubs, the immediate-operand arithmetic group and
/// the restart vectors, among others.
pub open spec fn is_unimplemented(ins: RawOpcode) -> bool {
    match ins {
        RawOpcode::STOP_0 => true,
        RawOpcode::LD_ptrHLp_A => true,
        RawOpcode::DAA => true,
        RawOpcode::LD_A_ptrHLm => true,
        RawOpcode::LD_HLm_A => true,
        RawOpcode::LD_ptrHL_d8 => true,
        RawOpcode::LD_A_HLm => true,
        RawOpcode::LD_A_d8 => true,
        RawOpcode::HALT => true,
        RawOpcode::ADD_A_ptrHL => true,
        RawOpcode::ADC_A_ptrHL => true,
        RawOpcode::SUB_ptrHL => true,
        RawOpcode::SBC_ptrHL => true,
        RawOpcode::AND_ptrHL => true,
        RawOpcode::XOR_ptrHL => true,
        RawOpcode::OR_ptrHL => true,
        RawOpcode::CP_ptrHL => true,
        RawOpcode::ADD_A_d8 => true,
        RawOpcode::ADC_A_d8 => true,
        RawOpcode::SUB_A_d8 => true,
        RawOpcode::SBC_A_d8 => true,
        RawOpcode::AND_d8 => true,
        RawOpcode::XOR_d8 => true,
        RawOpcode::OR_d8 => true,
        RawOpcode::CP_d8 => true,
        RawOpcode::RST_00H => true,
        RawOpcode::RST_08H => true,
        RawOpcode::RST_10H => true,
        RawOpcode::RST_18H => true,
        RawOpcode::RST_20H => true,
        RawOpcode::RST_28H => true,
        RawOpcode::RST_30H => true,
        RawOpcode::RST_38H => true,
        RawOpcode::PREFIX_CB => true,
        RawOpcode::RETI => true,
        RawOpcode::DI => true,
        RawOpcode::EI => true,
        RawOpcode::JP_ptrHL => true,
        RawOpcode::LD_HL_SPpd8 => true,
        RawOpcode::LD_A_a16 => true,
        _ => false,
    }
}

/// An opcode with a completed behaviour: neither reserved nor
/// unimplemented.
pub open spec fn is_defined(ins: RawOpcode) -> bool {
    !is_illegal(ins) && !is_unimplemented(ins)
}

} // verus!
