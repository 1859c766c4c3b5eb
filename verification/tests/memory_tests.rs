use gb_core::memory::{Memory, MemoryError};

#[test]
fn memory_read_write_u16() {
    let mut memory = Memory::new();
    memory.write_u16(0x101, 0x100);
    assert_eq!(memory.read_u16(0x101), 0x100);
}

#[test]
fn fresh_memory_reads_zero() {
    let memory = Memory::new();
    assert_eq!(memory.read_u8(0x0000), 0);
    assert_eq!(memory.read_u8(0x8123), 0);
    assert_eq!(memory.read_u8(0xFFFF), 0);
}

#[test]
fn word_round_trip_across_regions() {
    let mut memory = Memory::new();
    // Straddles the bank0 / bank1 boundary.
    memory.write_u16(0x3FFF, 0xBEEF);
    assert_eq!(memory.read_u16(0x3FFF), 0xBEEF);
    assert_eq!(memory.read_u8(0x3FFF), 0xEF);
    assert_eq!(memory.read_u8(0x4000), 0xBE);
    // Straddles the high-ram / interrupt-enable boundary.
    memory.write_u16(0xFFFE, 0x1234);
    assert_eq!(memory.read_u16(0xFFFE), 0x1234);
}

#[test]
fn echo_and_work_ram_alias() {
    let mut memory = Memory::new();
    memory.write_u8(0xE000, 0x5A);
    assert_eq!(memory.read_u8(0xC000), 0x5A);
    memory.write_u8(0xC123, 0x77);
    assert_eq!(memory.read_u8(0xE123), 0x77);
    // The top of the echo range aliases work-ram-extra.
    memory.write_u8(0xFDFF, 0x99);
    assert_eq!(memory.read_u8(0xDDFF), 0x99);
    memory.write_u8(0xD001, 0x42);
    assert_eq!(memory.read_u8(0xF001), 0x42);
}

#[test]
fn unusable_region_discards_writes() {
    let mut memory = Memory::new();
    memory.write_u8(0xFEA0, 0xFF);
    assert_eq!(memory.read_u8(0xFEA0), 0);
    memory.write_u8(0xFEFF, 0x12);
    assert_eq!(memory.read_u8(0xFEFF), 0);
    // A word write whose high byte lands in the unusable region keeps the
    // low byte and discards the high one.
    memory.write_u16(0xFE9F, 0xABCD);
    assert_eq!(memory.read_u8(0xFE9F), 0xCD);
    assert_eq!(memory.read_u8(0xFEA0), 0);
    assert_eq!(memory.read_u16(0xFE9F), 0x00CD);
}

#[test]
fn rom_of_32768_bytes_fills_both_banks() {
    let mut rom = vec![0u8; 0x8000];
    rom[0x0000] = 0x11;
    rom[0x3FFF] = 0x22;
    rom[0x4000] = 0x33;
    rom[0x7FFF] = 0x44;
    let memory = Memory::with_rom(&rom).unwrap();
    assert_eq!(memory.read_u8(0x0000), 0x11);
    assert_eq!(memory.read_u8(0x3FFF), 0x22);
    assert_eq!(memory.read_u8(0x4000), 0x33);
    assert_eq!(memory.read_u8(0x7FFF), 0x44);
}

#[test]
fn rom_of_32769_bytes_is_rejected() {
    let rom = vec![0u8; 0x8001];
    let result = Memory::with_rom(&rom);
    assert!(matches!(result, Err(MemoryError::RomBigSize)));
}

#[test]
fn short_rom_is_zero_padded() {
    let rom = [0xABu8, 0xCD];
    let memory = Memory::with_rom(&rom).unwrap();
    assert_eq!(memory.read_u8(0x0000), 0xAB);
    assert_eq!(memory.read_u8(0x0001), 0xCD);
    assert_eq!(memory.read_u8(0x0002), 0x00);
    assert_eq!(memory.read_u8(0x4000), 0x00);
}

#[test]
fn checksum_accepts_matching_header() {
    let mut memory = Memory::new();
    // All 25 metadata bytes are zero, so the checksum is 25 subtractions of
    // one from zero: 256 - 25 = 231.
    memory.write_u8(0x014D, 231);
    assert!(memory.check_checksum().is_ok());
}

#[test]
fn checksum_rejects_mismatch() {
    let mut memory = Memory::new();
    memory.write_u8(0x0134, 1);
    memory.write_u8(0x014D, 231);
    assert!(matches!(
        memory.check_checksum(),
        Err(MemoryError::Checksum8NotEq)
    ));
}

#[test]
fn logo_comparison() {
    let mut memory = Memory::new();
    let mut logo = [0u8; 0x30];
    for (i, byte) in logo.iter_mut().enumerate() {
        *byte = (i as u8).wrapping_mul(3);
        memory.write_u8(0x0104 + i as u16, *byte);
    }
    assert!(memory.check_logo(&logo));
    memory.write_u8(0x0104, 0xFF);
    assert!(!memory.check_logo(&logo));
    assert!(!memory.check_logo(&logo[..0x2F]));
}
