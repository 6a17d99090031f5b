use lr35902::cpu::CpuMode;
use lr35902::cpu::registers::Flags;
use lr35902::cpu::registers::Registers;
use lr35902::cpu::registers::r8;
use lr35902::number_types::d8_type::d8;

#[test]
fn index_with_r8() {
    let registers = Registers::new(CpuMode::DMG);
    assert_eq!(registers.get_r8(r8::A), d8(0x01), "failed to index r8::A");
}

#[test]
fn index_flag() {
    let registers = Registers::new(CpuMode::DMG);
    assert!(registers.get_flag(Flags::Z));
    assert!(!(registers.get_flag(Flags::N)));
    assert!(registers.get_flag(Flags::H));
    assert!(registers.get_flag(Flags::C));
}

#[test]
fn flags_in_right_places() {
    let mut registers = Registers::new(CpuMode::DMG);
    registers.set_flag(Flags::N, true);
    assert_eq!(registers.flags_register(), d8(0b11110000));
}

#[test]
fn assign_flag() {
    let mut registers = Registers::new(CpuMode::DMG);
    assert!(!(registers.get_flag(Flags::N)));
    registers.set_flag(Flags::N, true);
    assert!(registers.get_flag(Flags::N));

    assert!(registers.get_flag(Flags::C));
    registers.set_flag(Flags::C, false);
    assert!(!(registers.get_flag(Flags::C)));
}

#[test]
fn it_works() {
}
