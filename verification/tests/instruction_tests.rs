use gb_core::cpu::{AddressType, Argument, Cpu};
use gb_core::instructions::{ld, pop, push};
use gb_core::memory::Memory;
use gb_core::registers::{RegisterU8Label, RegisterU16Label};

#[test]
fn ld_inst() {
    let mut cpu = Cpu::new(Memory::new());
    cpu.memory.write_u8(0x100, 11);
    cpu.register.write_u8(RegisterU8Label::L, 1);
    cpu.memory.write_u16(0x101, 0x100);
    cpu.register.pc = 0x101;
    ld(
        &mut cpu,
        [
            Argument::Address(AddressType::ValueU16),
            Argument::RegisterU8(RegisterU8Label::L),
        ],
    );
    assert_eq!(cpu.memory.read_u8(0x100), 1);

    cpu.register.pc = 0x101;
    cpu.memory.write_u16(0x101, 0x102);
    ld(
        &mut cpu,
        [
            Argument::RegisterU16(RegisterU16Label::DE),
            Argument::ValueU16,
        ],
    );
    assert_eq!(cpu.register.read_u16(RegisterU16Label::DE), 0x102);
}

#[test]
fn pop_push_inst() {
    let mut cpu = Cpu::new(Memory::new());

    cpu.register.write_u16(RegisterU16Label::HL, 0x102);
    push(&mut cpu, [Argument::RegisterU16(RegisterU16Label::HL)]);
    assert_eq!(cpu.memory.read_u16(cpu.register.sp), 0x102);
    pop(&mut cpu, [Argument::RegisterU16(RegisterU16Label::BC)]);
    assert_eq!(cpu.register.read_u16(RegisterU16Label::BC), 0x102);
}

#[test]
fn push_pop_restores_value_and_sp() {
    let mut cpu = Cpu::new(Memory::new());
    let sp_before = cpu.register.sp;
    cpu.register.write_u16(RegisterU16Label::DE, 0xABCD);
    push(&mut cpu, [Argument::RegisterU16(RegisterU16Label::DE)]);
    assert_eq!(cpu.register.sp, sp_before - 2);
    pop(&mut cpu, [Argument::RegisterU16(RegisterU16Label::HL)]);
    assert_eq!(cpu.register.read_u16(RegisterU16Label::HL), 0xABCD);
    assert_eq!(cpu.register.sp, sp_before);
}

#[test]
fn push_stores_little_endian_downward() {
    let mut cpu = Cpu::new(Memory::new());
    cpu.register.sp = 0xD000;
    cpu.register.write_u16(RegisterU16Label::BC, 0xA1B2);
    push(&mut cpu, [Argument::RegisterU16(RegisterU16Label::BC)]);
    assert_eq!(cpu.register.sp, 0xCFFE);
    assert_eq!(cpu.memory.read_u8(0xCFFE), 0xB2);
    assert_eq!(cpu.memory.read_u8(0xCFFF), 0xA1);
}

#[test]
fn post_increment_resolution() {
    let mut cpu = Cpu::new(Memory::new());
    cpu.register.write_u16(RegisterU16Label::HL, 0x101);
    let addr = cpu.get_address_by(AddressType::RegisterU16Inc(RegisterU16Label::HL));
    assert_eq!(addr, 0x101);
    assert_eq!(cpu.register.read_u16(RegisterU16Label::HL), 0x102);
}

#[test]
fn post_decrement_wraps() {
    let mut cpu = Cpu::new(Memory::new());
    cpu.register.write_u16(RegisterU16Label::HL, 0x0000);
    let addr = cpu.get_address_by(AddressType::RegisterU16Dec(RegisterU16Label::HL));
    assert_eq!(addr, 0x0000);
    assert_eq!(cpu.register.read_u16(RegisterU16Label::HL), 0xFFFF);
}

#[test]
fn io_page_addressing() {
    let mut cpu = Cpu::new(Memory::new());
    cpu.register.write_u8(RegisterU8Label::C, 0x42);
    cpu.register.write_u8(RegisterU8Label::A, 0x99);
    ld(
        &mut cpu,
        [
            Argument::Address(AddressType::RegisterU8(RegisterU8Label::C)),
            Argument::RegisterU8(RegisterU8Label::A),
        ],
    );
    assert_eq!(cpu.memory.read_u8(0xFF42), 0x99);
}

#[test]
fn ld_immediate_byte() {
    let mut cpu = Cpu::new(Memory::new());
    cpu.memory.write_u8(0xC000, 0x7E);
    cpu.register.pc = 0xC000;
    ld(
        &mut cpu,
        [Argument::RegisterU8(RegisterU8Label::B), Argument::ValueU8],
    );
    assert_eq!(cpu.register.read_u8(RegisterU8Label::B), 0x7E);
    assert_eq!(cpu.register.pc, 0xC001);
}

#[test]
fn adjusted_stack_pointer_sign_extends() {
    let mut cpu = Cpu::new(Memory::new());
    cpu.register.sp = 0x0005;
    cpu.memory.write_u8(0xC000, 0xFF); // offset -1
    cpu.register.pc = 0xC000;
    ld(
        &mut cpu,
        [
            Argument::RegisterU16(RegisterU16Label::HL),
            Argument::AdjustedStackPointer,
        ],
    );
    assert_eq!(cpu.register.read_u16(RegisterU16Label::HL), 0x0004);

    cpu.memory.write_u8(0xC001, 0x03); // offset +3
    ld(
        &mut cpu,
        [
            Argument::RegisterU16(RegisterU16Label::HL),
            Argument::AdjustedStackPointer,
        ],
    );
    assert_eq!(cpu.register.read_u16(RegisterU16Label::HL), 0x0008);
}

#[test]
fn ld_through_post_increment() {
    let mut cpu = Cpu::new(Memory::new());
    cpu.register.write_u16(RegisterU16Label::HL, 0xC100);
    cpu.register.write_u8(RegisterU8Label::A, 0x31);
    ld(
        &mut cpu,
        [
            Argument::Address(AddressType::RegisterU16Inc(RegisterU16Label::HL)),
            Argument::RegisterU8(RegisterU8Label::A),
        ],
    );
    assert_eq!(cpu.memory.read_u8(0xC100), 0x31);
    assert_eq!(cpu.register.read_u16(RegisterU16Label::HL), 0xC101);
}

#[test]
fn fetch_advances_pc() {
    let mut cpu = Cpu::new(Memory::new());
    cpu.memory.write_u8(0xC000, 0xAA);
    cpu.memory.write_u16(0xC001, 0x1234);
    cpu.register.pc = 0xC000;
    assert_eq!(cpu.load_next_u8(), 0xAA);
    assert_eq!(cpu.register.pc, 0xC001);
    assert_eq!(cpu.load_next_u16(), 0x1234);
    assert_eq!(cpu.register.pc, 0xC003);
}
