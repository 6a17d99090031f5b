use lr35902::number_types::a8_type::a8;
use lr35902::number_types::a16_type::a16;
use lr35902::number_types::d8_type::d8;
use lr35902::number_types::d16_type::d16;

#[test]
fn byte_addition_commutes_and_wraps() {
    let (r1, c1) = d8::add_and_check_overflow(d8(200), d8(100));
    let (r2, c2) = d8::add_and_check_overflow(d8(100), d8(200));
    assert_eq!(r1, r2);
    assert_eq!(c1, c2);
    assert_eq!(r1, d8(44));
    assert!(c1);
    let (r3, c3) = d8::add_and_check_overflow(d8(1), d8(2));
    assert_eq!(r3, d8(3));
    assert!(!c3);
}

#[test]
fn byte_subtraction_reports_borrow() {
    let (r, borrow) = d8::sub_and_check_overflow(d8(3), d8(5));
    assert_eq!(r, d8(0xfe));
    assert!(borrow);
    let (r2, borrow2) = d8::sub_and_check_overflow(d8(5), d8(3));
    assert_eq!(r2, d8(2));
    assert!(!borrow2);
}

#[test]
fn nibble_checks_use_their_documented_halves() {
    assert!(d8::check_nibble_overflow(d8(0x0d), d8(0x03)));
    assert!(!d8::check_nibble_overflow(d8(0x04), d8(0x03)));
    assert!(d8::sub_nibble_overflow(d8(0x1f), d8(0x20)));
    assert!(!d8::sub_nibble_overflow(d8(0x2f), d8(0x20)));
    assert_eq!(d8(0xab).upper_nibble(), d8(0xa0));
    assert_eq!(d8(0xab).lower_nibble(), d8(0x0b));
}

#[test]
fn word_bytes_round_trip() {
    let w = d16(0xabcd);
    assert_eq!(w.lsb(), d8(0xcd));
    assert_eq!(w.msb(), d8(0xab));
    assert_eq!(d16::from_bytes(w.lsb(), w.msb()), w);
    assert_eq!(d16::from_bytes(d8(0x34), d8(0x12)), d16(0x1234));
}

#[test]
fn word_addition_wraps_and_reports_carry() {
    let (r, carry) = d16::add_and_check_overflow(d16(0xffff), d16(0x0002));
    assert_eq!(r, d16(0x0001));
    assert!(carry);
    assert!(d16::check_nibble_overflow(d16(0x014d), d16(0x0013)));
    assert_eq!(d16(0x014d).least_significant_nibble(), d8(0x0d));
}

#[test]
fn short_addresses_map_onto_the_high_page() {
    let short = a8::from_d8(d8(0x44));
    assert_eq!(short.to_a16(), a16(0xff44));
    assert_eq!(short.to_d8(), d8(0x44));
}

#[test]
fn signed_displacements_reach_backwards() {
    assert_eq!(a16(0x0100).add_signed(d8(0x05)), a16(0x0105));
    assert_eq!(a16(0x0100).add_signed(d8(0xfe)), a16(0x00fe));
    assert_eq!(a16(0x0000).add_signed(d8(0xff)), a16(0xffff));
}
