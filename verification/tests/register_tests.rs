use gb_core::registers::{Register, RegisterU8Label, RegisterU16Label};

#[test]
fn set_get_reg_test() {}

#[test]
fn reg_u16() {
    let mut registers = Register::new();
    registers.write_u8(RegisterU8Label::H, 1);
    registers.write_u8(RegisterU8Label::L, 1);
    println!("{} {}", registers.h, registers.l);
    assert_eq!(registers.read_u16(RegisterU16Label::HL), 0x101);
    registers.write_u16(RegisterU16Label::DE, 0x202);
    assert_eq!(registers.read_u16(RegisterU16Label::DE), 0x202);
}

#[test]
fn power_on_state() {
    let registers = Register::new();
    assert_eq!(registers.pc, 0x0100);
    assert_eq!(registers.sp, 0xFFFE);
    assert_eq!(registers.a, 0x01);
    assert_eq!(registers.f, 0xB0);
    assert_eq!(registers.b, 0x00);
    assert_eq!(registers.c, 0x13);
    assert_eq!(registers.d, 0x00);
    assert_eq!(registers.e, 0xD8);
    assert_eq!(registers.h, 0x01);
    assert_eq!(registers.l, 0x4D);
}

#[test]
fn pair_write_updates_both_halves() {
    let mut registers = Register::new();
    registers.write_u16(RegisterU16Label::BC, 0xA1B2);
    assert_eq!(registers.read_u16(RegisterU16Label::BC), 0xA1B2);
    assert_eq!(registers.read_u8(RegisterU8Label::B), 0xA1);
    assert_eq!(registers.read_u8(RegisterU8Label::C), 0xB2);
    registers.write_u16(RegisterU16Label::AF, 0x0102);
    assert_eq!(registers.read_u8(RegisterU8Label::A), 0x01);
    assert_eq!(registers.read_u8(RegisterU8Label::F), 0x02);
}

#[test]
fn pair_increment_and_decrement_wrap() {
    let mut registers = Register::new();
    registers.write_u16(RegisterU16Label::HL, 0xFFFF);
    registers.inc_u16(RegisterU16Label::HL);
    assert_eq!(registers.read_u16(RegisterU16Label::HL), 0x0000);
    registers.dec_u16(RegisterU16Label::HL);
    assert_eq!(registers.read_u16(RegisterU16Label::HL), 0xFFFF);
    registers.write_u16(RegisterU16Label::SP, 0x0000);
    registers.dec_u16(RegisterU16Label::SP);
    assert_eq!(registers.read_u16(RegisterU16Label::SP), 0xFFFF);
}
