use lr35902::memory::Memory;
use lr35902::number_types::a16_type::a16;
use lr35902::number_types::d8_type::d8;
use lr35902::number_types::d16_type::d16;

#[test]
fn ram_round_trips() {
    let mut mem = Memory::new_zeros();
    assert_eq!(mem.read_d8(a16(0xc123)), Some(d8(0)));
    assert_eq!(mem.put_d8(a16(0xc123), d8(0xab)), Some(()));
    assert_eq!(mem.read_d8(a16(0xc123)), Some(d8(0xab)));
    assert_eq!(mem.put_d8(a16(0xd010), d8(0x42)), Some(()));
    assert_eq!(mem.read_d8(a16(0xd010)), Some(d8(0x42)));
}

#[test]
fn rom_drops_writes() {
    let mut mem = Memory::new_zeros();
    assert_eq!(mem.put_d8(a16(0x2000), d8(0x99)), None);
    assert_eq!(mem.read_d8(a16(0x2000)), Some(d8(0)));
    assert_eq!(mem.put_d8(a16(0x0120), d8(0x99)), None);
    assert_eq!(mem.put_d8(a16(0x4abc), d8(0x99)), None);
}

#[test]
fn restart_vectors_accept_writes() {
    let mut mem = Memory::new_zeros();
    assert_eq!(mem.put_d8(a16(0x0042), d8(0x07)), Some(()));
    assert_eq!(mem.read_d8(a16(0x0042)), Some(d8(0x07)));
}

#[test]
fn unmapped_ranges_are_absent() {
    let mut mem = Memory::new_zeros();
    assert_eq!(mem.read_d8(a16(0xe000)), None);
    assert_eq!(mem.read_d8(a16(0xfdff)), None);
    assert_eq!(mem.read_d8(a16(0xfea0)), None);
    assert_eq!(mem.put_d8(a16(0xe000), d8(1)), None);
    assert_eq!(mem.put_d8(a16(0xfeff), d8(1)), None);
}

#[test]
fn cartridge_ram_is_absent_without_a_cartridge() {
    let mut mem = Memory::new_zeros();
    assert_eq!(mem.read_d8(a16(0xa000)), None);
    assert_eq!(mem.put_d8(a16(0xb000), d8(5)), None);
}

#[test]
fn zero_page_reads_zero_and_drops_writes() {
    let mut mem = Memory::new_zeros();
    assert_eq!(mem.read_d8(a16(0xff80)), Some(d8(0)));
    assert_eq!(mem.read_d8(a16(0xfffe)), Some(d8(0)));
    assert_eq!(mem.put_d8(a16(0xff80), d8(9)), None);
}

#[test]
fn interrupt_enable_byte_is_addressable() {
    let mut mem = Memory::new_zeros();
    assert_eq!(mem.put_d8(a16(0xffff), d8(0x1f)), Some(()));
    assert_eq!(mem.read_d8(a16(0xffff)), Some(d8(0x1f)));
}

#[test]
fn word_reads_never_fail_and_substitute_zero() {
    let mut mem = Memory::new_zeros();
    // One half in unmapped echo space reads as zero; the whole word read
    // still succeeds.
    assert_eq!(mem.put_d8(a16(0xdfff), d8(0x34)), Some(()));
    assert_eq!(mem.read_d16(a16(0xdfff)), Some(d16(0x0034)));
}

#[test]
fn word_writes_fail_if_either_half_is_dropped() {
    let mut mem = Memory::new_zeros();
    assert_eq!(mem.put_d16(a16(0xc000), d16(0x1234)), Some(()));
    assert_eq!(mem.read_d8(a16(0xc000)), Some(d8(0x34)));
    assert_eq!(mem.read_d8(a16(0xc001)), Some(d8(0x12)));
    // The second half falls into echo space and is dropped.
    assert_eq!(mem.put_d16(a16(0xdfff), d16(0xaabb)), None);
    assert_eq!(mem.read_d8(a16(0xdfff)), Some(d8(0xbb)));
}

#[test]
fn word_order_is_low_byte_first() {
    let mut mem = Memory::new_zeros();
    assert_eq!(mem.put_d8(a16(0xc100), d8(0xcd)), Some(()));
    assert_eq!(mem.put_d8(a16(0xc101), d8(0xab)), Some(()));
    assert_eq!(mem.read_d16(a16(0xc100)), Some(d16(0xabcd)));
}
