use lr35902::cpu::Cpu;
use lr35902::cpu::CpuMode;
use lr35902::cpu::ExecError;
use lr35902::cpu::registers::Flags;
use lr35902::cpu::registers::Registers;
use lr35902::cpu::registers::r16;
use lr35902::cpu::registers::r8;
use lr35902::instructions::RawOpcode;
use lr35902::memory::Memory;
use lr35902::number_types::d8_type::d8;
use lr35902::number_types::d16_type::d16;

fn zeroed_cpu() -> Cpu {
    Cpu {
        gp_registers: Registers { af: d16(0), bc: d16(0), de: d16(0), hl: d16(0) },
        stack_pointer: d16(0),
        program_counter: d16(0),
        cycle_count: 0,
        memory: Memory::new_zeros(),
    }
}

#[test]
fn make_a_cpu() {
    let _cpu = zeroed_cpu();
}

#[test]
fn index_an_r16() {
    let cpu = zeroed_cpu();
    assert_eq!(cpu.gp_registers.get_r16(r16::AF), d16(0));
}

#[test]
fn initial_register_values_dmg() {
    let cpu = Cpu::new(CpuMode::DMG);
    assert_eq!(cpu.gp_registers.get_r16(r16::AF), d16(0x01b0));
    assert_eq!(cpu.gp_registers.get_r16(r16::BC), d16(0x0013));
    assert_eq!(cpu.gp_registers.get_r16(r16::DE), d16(0x00d8));
    assert_eq!(cpu.gp_registers.get_r16(r16::HL), d16(0x014d));
    assert_eq!(cpu.stack_pointer, d16(0xfffe));
    assert_eq!(cpu.program_counter, d16(0x0100));
}

#[test]
fn initial_register_values_mgb() {
    let cpu = Cpu::new(CpuMode::MGB);
    assert_eq!(cpu.gp_registers.get_r16(r16::AF), d16(0xffb0));
    assert_eq!(cpu.gp_registers.get_r16(r16::BC), d16(0x0013));
    assert_eq!(cpu.gp_registers.get_r16(r16::DE), d16(0x00d8));
    assert_eq!(cpu.gp_registers.get_r16(r16::HL), d16(0x014d));
    assert_eq!(cpu.stack_pointer, d16(0xfffe));
    assert_eq!(cpu.program_counter, d16(0x0100));
}

#[test]
fn initial_register_values_cgb() {
    let cpu = Cpu::new(CpuMode::CGB);
    assert_eq!(cpu.gp_registers.get_r16(r16::AF), d16(0x1180));
    assert_eq!(cpu.gp_registers.get_r16(r16::BC), d16(0x0000));
    assert_eq!(cpu.gp_registers.get_r16(r16::DE), d16(0x0008));
    assert_eq!(cpu.gp_registers.get_r16(r16::HL), d16(0x007c));
    assert_eq!(cpu.stack_pointer, d16(0xfffe));
    assert_eq!(cpu.program_counter, d16(0x0100));
}

#[test]
fn process_basic_instruction() {
    let mut cpu = Cpu::new(CpuMode::DMG);
    cpu.process_instruction(RawOpcode::INC_BC).unwrap();
    assert_eq!(cpu.gp_registers.get_r16(r16::BC), d16(0x0013 + 1));
    assert_eq!(cpu.gp_registers.get_r8(r8::C), d8(0x13 + 1));
    assert_eq!(cpu.gp_registers.get_r8(r8::B), d8(0x00));
}

#[test]
fn inc_r8s() {
    let mut cpu = Cpu::new(CpuMode::DMG);
    cpu.process_instruction(RawOpcode::INC_B).unwrap();
    assert_eq!(cpu.gp_registers.get_r8(r8::B), d8(0x00 + 1));
    assert_eq!(cpu.gp_registers.get_r16(r16::BC), d16(0x0013 + 0x0100));
    cpu.process_instruction(RawOpcode::DEC_B).unwrap();
    assert_eq!(cpu.gp_registers.get_r8(r8::B), d8(0x00));
    assert_eq!(cpu.gp_registers.get_r16(r16::BC), d16(0x0013));
}

#[test]
fn flags_from_dec_r8() {
    let mut cpu = Cpu::new(CpuMode::DMG);
    cpu.process_instruction(RawOpcode::DEC_B).unwrap();
    assert_eq!(cpu.gp_registers.get_r8(r8::B), d8(0xff));
    assert_eq!(cpu.gp_registers.flags_register(), d8(0b01110000));
}

#[test]
fn flags_from_inc_r8() {
    let mut cpu = Cpu::new(CpuMode::DMG);
    cpu.process_instruction(RawOpcode::INC_B).unwrap();
    assert_eq!(cpu.gp_registers.flags_register(), d8(0b00000000));
}

#[test]
fn rotate_a_instructions() {
    let mut cpu = Cpu::new(CpuMode::DMG);
    assert_eq!(cpu.gp_registers.get_r8(r8::A), d8(0x01));
    cpu.process_instruction(RawOpcode::RLCA).unwrap();
    assert_eq!(cpu.gp_registers.get_r8(r8::A), d8(0b00000010));
    assert_eq!(cpu.gp_registers.flags_register(), d8(0));

    cpu.process_instruction(RawOpcode::RRCA).unwrap();
    assert_eq!(cpu.gp_registers.get_r8(r8::A), d8(0b00000001));

    cpu.process_instruction(RawOpcode::RRA).unwrap();
    assert_eq!(cpu.gp_registers.get_r8(r8::A), d8(0));
    assert!(cpu.gp_registers.get_flag(Flags::C));
}

#[test]
fn mov_between_register_instructions() {
    let mut cpu = Cpu::new(CpuMode::DMG);
    cpu.process_instruction(RawOpcode::LD_BC_A).unwrap();
    assert_eq!(cpu.gp_registers.get_r16(r16::BC), d16(0x0001));
}

#[test]
fn addition_instructions() {
    let mut cpu = Cpu::new(CpuMode::DMG);
    cpu.process_instruction(RawOpcode::ADD_HL_BC).unwrap();
    assert_eq!(cpu.gp_registers.get_r16(r16::HL), d16(0x014d + 0x0013));
}

#[test]
fn inc_bc_costs_eight_cycles() {
    let mut cpu = Cpu::new(CpuMode::DMG);
    cpu.process_instruction(RawOpcode::INC_BC).unwrap();
    assert_eq!(cpu.gp_registers.get_r16(r16::BC), d16(0x0014));
    assert_eq!(cpu.gp_registers.flags_register(), d8(0xb0));
    assert_eq!(cpu.cycle_count, 8);
}

#[test]
fn dec_b_costs_four_cycles() {
    let mut cpu = Cpu::new(CpuMode::DMG);
    cpu.process_instruction(RawOpcode::DEC_B).unwrap();
    assert_eq!(cpu.cycle_count, 4);
}

#[test]
fn ld_bc_a_costs_eight_cycles() {
    let mut cpu = Cpu::new(CpuMode::DMG);
    cpu.process_instruction(RawOpcode::LD_BC_A).unwrap();
    assert_eq!(cpu.cycle_count, 8);
}

#[test]
fn rlca_flags_and_cost() {
    let mut cpu = Cpu::new(CpuMode::DMG);
    cpu.process_instruction(RawOpcode::RLCA).unwrap();
    assert_eq!(cpu.gp_registers.get_r8(r8::A), d8(0x02));
    assert!(!cpu.gp_registers.get_flag(Flags::C));
    assert!(!cpu.gp_registers.get_flag(Flags::Z));
    assert!(!cpu.gp_registers.get_flag(Flags::N));
    assert!(!cpu.gp_registers.get_flag(Flags::H));
    assert_eq!(cpu.cycle_count, 4);
}

#[test]
fn inc_r8_wraps_at_top() {
    let mut cpu = zeroed_cpu();
    cpu.gp_registers.set_r8(r8::B, d8(0xff));
    cpu.process_instruction(RawOpcode::INC_B).unwrap();
    assert_eq!(cpu.gp_registers.get_r8(r8::B), d8(0x00));
    assert!(cpu.gp_registers.get_flag(Flags::Z));
    assert!(!cpu.gp_registers.get_flag(Flags::N));
    assert!(cpu.gp_registers.get_flag(Flags::H));
    assert!(cpu.gp_registers.get_flag(Flags::C));
}

#[test]
fn dec_r8_wraps_at_bottom() {
    let mut cpu = zeroed_cpu();
    cpu.process_instruction(RawOpcode::DEC_B).unwrap();
    assert_eq!(cpu.gp_registers.get_r8(r8::B), d8(0xff));
    assert!(!cpu.gp_registers.get_flag(Flags::Z));
    assert!(cpu.gp_registers.get_flag(Flags::N));
    assert!(cpu.gp_registers.get_flag(Flags::H));
    assert!(cpu.gp_registers.get_flag(Flags::C));
}

#[test]
fn add_hl_bc_leaves_zero_flag_alone() {
    let mut cpu = Cpu::new(CpuMode::DMG);
    assert!(cpu.gp_registers.get_flag(Flags::Z));
    cpu.process_instruction(RawOpcode::ADD_HL_BC).unwrap();
    assert_eq!(cpu.gp_registers.get_r16(r16::HL), d16(0x0160));
    assert!(cpu.gp_registers.get_flag(Flags::Z));
    assert!(!cpu.gp_registers.get_flag(Flags::N));
    assert!(cpu.gp_registers.get_flag(Flags::H));
    assert!(!cpu.gp_registers.get_flag(Flags::C));
    assert_eq!(cpu.cycle_count, 8);

    let mut clear = zeroed_cpu();
    clear.gp_registers.set_r16(r16::HL, d16(0x014d));
    clear.gp_registers.set_r16(r16::BC, d16(0x0013));
    clear.process_instruction(RawOpcode::ADD_HL_BC).unwrap();
    assert_eq!(clear.gp_registers.get_r16(r16::HL), d16(0x0160));
    assert!(!clear.gp_registers.get_flag(Flags::Z));
}

#[test]
fn loads_leave_flags_alone() {
    let mut cpu = Cpu::new(CpuMode::DMG);
    let before = cpu.gp_registers.flags_register();
    cpu.process_instruction(RawOpcode::LD_B_C).unwrap();
    assert_eq!(cpu.gp_registers.flags_register(), before);
    cpu.process_instruction(RawOpcode::INC_DE).unwrap();
    assert_eq!(cpu.gp_registers.flags_register(), before);
}

#[test]
fn cycle_counter_sums_documented_costs() {
    let mut cpu = Cpu::new(CpuMode::DMG);
    cpu.process_instruction(RawOpcode::INC_BC).unwrap();
    cpu.process_instruction(RawOpcode::DEC_B).unwrap();
    cpu.process_instruction(RawOpcode::NOP).unwrap();
    assert_eq!(cpu.cycle_count, 8 + 4 + 4);
    assert_eq!(cpu.cycle_count % 4, 0);
}

#[test]
fn bad_opcode_is_fatal_and_leaves_state_alone() {
    let mut cpu = Cpu::new(CpuMode::DMG);
    let r = cpu.process_instruction(RawOpcode::BAD_0);
    assert_eq!(r, Err(ExecError::BadInstruction));
    assert_eq!(cpu.program_counter, d16(0x0100));
    assert_eq!(cpu.stack_pointer, d16(0xfffe));
    assert_eq!(cpu.cycle_count, 0);
    assert_eq!(cpu.gp_registers.get_r16(r16::AF), d16(0x01b0));
    let r2 = cpu.process_instruction(RawOpcode::BAD_a);
    assert_eq!(r2, Err(ExecError::BadInstruction));
}

#[test]
fn unfinished_opcode_is_reported_distinctly() {
    let mut cpu = Cpu::new(CpuMode::DMG);
    let r = cpu.process_instruction(RawOpcode::STOP_0);
    assert_eq!(r, Err(ExecError::Unimplemented));
    assert_eq!(cpu.program_counter, d16(0x0100));
    assert_eq!(cpu.cycle_count, 0);
    let r2 = cpu.process_instruction(RawOpcode::PREFIX_CB);
    assert_eq!(r2, Err(ExecError::Unimplemented));
}

#[test]
fn jumps_move_the_program_counter() {
    let mut cpu = Cpu::new(CpuMode::DMG);
    // The operand bytes at 0x0101.. read zero from the blank header, so
    // the absolute jump lands on address zero.
    cpu.process_instruction(RawOpcode::JP).unwrap();
    assert_eq!(cpu.program_counter, d16(0x0000));
    assert_eq!(cpu.cycle_count, 16);

    let mut rel = Cpu::new(CpuMode::DMG);
    // A zero displacement leaves the counter just past the operand.
    rel.process_instruction(RawOpcode::JR_d8).unwrap();
    assert_eq!(rel.program_counter, d16(0x0102));
    assert_eq!(rel.cycle_count, 8);
}

#[test]
fn conditional_jump_costs_differ() {
    // In the DMG initial state the Zero flag is set, so JR NZ falls
    // through at the cheap cost and JR Z takes the jump at the dear one.
    let mut fall = Cpu::new(CpuMode::DMG);
    fall.process_instruction(RawOpcode::JR_NZ_d8).unwrap();
    assert_eq!(fall.program_counter, d16(0x0102));
    assert_eq!(fall.cycle_count, 8);

    let mut taken = Cpu::new(CpuMode::DMG);
    taken.process_instruction(RawOpcode::JR_Z_d8).unwrap();
    assert_eq!(taken.program_counter, d16(0x0102));
    assert_eq!(taken.cycle_count, 12);
}

#[test]
fn call_and_conditional_return_costs() {
    let mut cpu = Cpu::new(CpuMode::DMG);
    cpu.process_instruction(RawOpcode::CALL).unwrap();
    assert_eq!(cpu.program_counter, d16(0x0000));
    assert_eq!(cpu.stack_pointer, d16(0xfffc));
    assert_eq!(cpu.cycle_count, 24);

    // Zero is set in the DMG initial flags: RET NZ falls through for 8.
    let mut fall = Cpu::new(CpuMode::DMG);
    fall.process_instruction(RawOpcode::RET_NZ).unwrap();
    assert_eq!(fall.program_counter, d16(0x0101));
    assert_eq!(fall.cycle_count, 8);

    // RET Z pops from the blank stack region and costs the full 20.
    let mut taken = Cpu::new(CpuMode::DMG);
    taken.process_instruction(RawOpcode::RET_Z).unwrap();
    assert_eq!(taken.cycle_count, 20);
}

#[test]
fn push_and_pop_costs_are_asymmetric() {
    let mut cpu = Cpu::new(CpuMode::DMG);
    cpu.process_instruction(RawOpcode::PUSH_BC).unwrap();
    assert_eq!(cpu.stack_pointer, d16(0xfffc));
    assert_eq!(cpu.cycle_count, 16);
    cpu.process_instruction(RawOpcode::POP_BC).unwrap();
    assert_eq!(cpu.stack_pointer, d16(0xfffe));
    assert_eq!(cpu.cycle_count, 16 + 12);
}

#[test]
fn pop_af_clears_the_flag_nibble() {
    let mut cpu = zeroed_cpu();
    cpu.stack_pointer = d16(0xc000);
    cpu.memory.put_d8(lr35902::number_types::a16_type::a16(0xc000), d8(0x3f)).unwrap();
    cpu.memory.put_d8(lr35902::number_types::a16_type::a16(0xc001), d8(0x12)).unwrap();
    cpu.process_instruction(RawOpcode::POP_AF).unwrap();
    assert_eq!(cpu.gp_registers.get_r16(r16::AF), d16(0x1230));
    assert_eq!(cpu.stack_pointer, d16(0xc002));
}

#[test]
fn ld_r8_d8_reads_its_operand() {
    let mut cpu = zeroed_cpu();
    cpu.program_counter = d16(0xc100);
    cpu.memory.put_d8(lr35902::number_types::a16_type::a16(0xc101), d8(0x5a)).unwrap();
    cpu.process_instruction(RawOpcode::LD_B_d8).unwrap();
    assert_eq!(cpu.gp_registers.get_r8(r8::B), d8(0x5a));
    assert_eq!(cpu.program_counter, d16(0xc102));
    assert_eq!(cpu.cycle_count, 8);
}

#[test]
fn compliment_flips_every_bit() {
    let mut cpu = Cpu::new(CpuMode::DMG);
    cpu.process_instruction(RawOpcode::CPL).unwrap();
    assert_eq!(cpu.gp_registers.get_r8(r8::A), d8(0xfe));
    assert!(cpu.gp_registers.get_flag(Flags::N));
    assert!(cpu.gp_registers.get_flag(Flags::H));
    assert!(cpu.gp_registers.get_flag(Flags::Z));
    assert!(cpu.gp_registers.get_flag(Flags::C));
}

#[test]
fn carry_toggles_and_sets() {
    let mut cpu = Cpu::new(CpuMode::DMG);
    assert!(cpu.gp_registers.get_flag(Flags::C));
    cpu.process_instruction(RawOpcode::CCF).unwrap();
    assert!(!cpu.gp_registers.get_flag(Flags::C));
    cpu.process_instruction(RawOpcode::SCF).unwrap();
    assert!(cpu.gp_registers.get_flag(Flags::C));
    // Zero keeps its value through both.
    assert!(cpu.gp_registers.get_flag(Flags::Z));
}
