//! The processor aggregate: one memory image and one register file, the
//! PC-relative fetch used during decode, and the resolution of address-forming
//! operand descriptors, including the post-increment and post-decrement
//! addressing modes.

use vstd::prelude::*;
use crate::memory::{Memory, byte_written, word_written};
use crate::registers::{Register, RegisterU8Label, RegisterU16Label};
use crate::word::{wrap_add16, wrap_sub16};

verus! {

/// An address-forming operand descriptor: each variant yields a 16-bit
/// address when resolved against the processor state.
#[derive(Debug, Clone, Copy, PartialEq, Eq, Structural)]
pub enum AddressType {
    /// 0xFF00 plus the value of an 8-bit register (fast I/O-page addressing).
    RegisterU8(RegisterU8Label),
    /// The value of a 16-bit register, read verbatim.
    RegisterU16(RegisterU16Label),
    /// The value of a 16-bit register; the register is incremented afterward.
    RegisterU16Inc(RegisterU16Label),
    /// The value of a 16-bit register; the register is decremented afterward.
    RegisterU16Dec(RegisterU16Label),
    /// A literal 16-bit address consumed from the instruction stream.
    ValueU16,
}

/// An instruction operand descriptor: where an instruction's input or output
/// lives, resolved at execution time.
#[derive(Debug, Clone, Copy, PartialEq, Eq, Structural)]
pub enum Argument {
    RegisterU8(RegisterU8Label),
    RegisterU16(RegisterU16Label),
    /// An immediate byte consumed from the instruction stream.
    ValueU8,
    /// An immediate little-endian word consumed from the instruction stream.
    ValueU16,
    /// A memory location named by an address-forming descriptor.
    Address(AddressType),
    /// SP plus a sign-extended immediate byte, used only as a word source.
    AdjustedStackPointer,
}

/// The processor state handed to every operation.
pub struct Cpu {
    pub memory: Memory,
    pub register: Register,
    pub cycle: u64,
}

/// The address that resolving an address descriptor yields, as a function of
/// the processor state before the resolution.
pub open spec fn spec_addr_of(mem: Memory, reg: Register, at: AddressType) -> u16 {
    match at {
        AddressType::RegisterU8(r) => (0xFF00 + reg.spec_u8(r)) as u16,
        AddressType::RegisterU16(r) => reg.spec_u16(r),
        AddressType::RegisterU16Inc(r) => reg.spec_u16(r),
        AddressType::RegisterU16Dec(r) => reg.spec_u16(r),
        AddressType::ValueU16 => mem.spec_read_word(reg.pc),
    }
}

/// The register file after resolving an address descriptor: post-increment
/// and post-decrement adjust their register, an immediate address advances
/// PC by two, and the rest leave every register unchanged.
pub open spec fn spec_reg_after(reg: Register, at: AddressType) -> Register {
    match at {
        AddressType::RegisterU8(_) => reg,
        AddressType::RegisterU16(_) => reg,
        AddressType::RegisterU16Inc(r) => reg.spec_with_u16(r, wrap_add16(reg.spec_u16(r), 1)),
        AddressType::RegisterU16Dec(r) => reg.spec_with_u16(r, wrap_sub16(reg.spec_u16(r), 1)),
        AddressType::ValueU16 => reg.spec_with_u16(
            RegisterU16Label::PC,
            wrap_add16(reg.pc, 2),
        ),
    }
}

impl Cpu {
    /// The memory image is well formed.
    pub open spec fn wf(self) -> bool {
        self.memory.wf()
    }

    /// A processor over the given memory, with the registers at their
    /// power-on values.
    pub fn new(memory: Memory) -> (cpu: Cpu)
        ensures
            cpu.memory == memory,
            cpu.register == Register::power_on(),
            cpu.cycle == 0,
    {
        Cpu { memory, register: Register::new(), cycle: 0 }
    }

    /// Fetches the byte at PC and advances PC by one, wrapping.
    pub fn load_next_u8(&mut self) -> (value: u8)
        requires
            old(self).wf(),
        ensures
            final(self).wf(),
            final(self).cycle == old(self).cycle,
            value == old(self).memory.spec_read(old(self).register.pc),
            final(self).memory == old(self).memory,
            final(self).register == old(self).register.spec_with_u16(
                RegisterU16Label::PC,
                wrap_add16(old(self).register.pc, 1),
            ),
    {
        let result = self.memory.read_u8(self.register.pc);
        self.register.pc = self.register.pc.wrapping_add(1);
        result
    }

    /// Fetches the little-endian word at PC and advances PC by two, wrapping.
    pub fn load_next_u16(&mut self) -> (value: u16)
        requires
            old(self).wf(),
        ensures
            final(self).wf(),
            final(self).cycle == old(self).cycle,
            value == old(self).memory.spec_read_word(old(self).register.pc),
            final(self).memory == old(self).memory,
            final(self).register == old(self).register.spec_with_u16(
                RegisterU16Label::PC,
                wrap_add16(old(self).register.pc, 2),
            ),
    {
        let lo = self.load_next_u8();
        let hi = self.load_next_u8();
        proof {
            crate::word::lemma_wrap_inc_twice(old(self).register.pc);
        }
        (lo as u16) + (hi as u16) * 0x100
    }

    /// Resolves an address descriptor to a 16-bit address, applying its
    /// prescribed register adjustment immediately after capturing the
    /// address.
    pub fn get_address_by(&mut self, address: AddressType) -> (addr: u16)
        requires
            old(self).wf(),
        ensures
            final(self).wf(),
            final(self).cycle == old(self).cycle,
            addr == spec_addr_of(old(self).memory, old(self).register, address),
            final(self).memory == old(self).memory,
            final(self).register == spec_reg_after(old(self).register, address),
    {
        match address {
            AddressType::RegisterU8(reg) => 0xFF00 + self.register.read_u8(reg) as u16,
            AddressType::RegisterU16(reg) => self.register.read_u16(reg),
            AddressType::RegisterU16Inc(reg) => {
                let res = self.register.read_u16(reg);
                self.register.inc_u16(reg);
                res
            },
            AddressType::RegisterU16Dec(reg) => {
                let res = self.register.read_u16(reg);
                self.register.dec_u16(reg);
                res
            },
            AddressType::ValueU16 => self.load_next_u16(),
        }
    }

    /// Resolves an address descriptor and reads the byte there.
    pub fn read_address(&mut self, address: AddressType) -> (value: u8)
        requires
            old(self).wf(),
        ensures
            final(self).wf(),
            final(self).cycle == old(self).cycle,
            value == old(self).memory.spec_read(
                spec_addr_of(old(self).memory, old(self).register, address),
            ),
            final(self).memory == old(self).memory,
            final(self).register == spec_reg_after(old(self).register, address),
    {
        let address = self.get_address_by(address);
        self.memory.read_u8(address)
    }

    /// Resolves an address descriptor and writes a byte there.
    pub fn write_address(&mut self, address: AddressType, value: u8)
        requires
            old(self).wf(),
        ensures
            final(self).wf(),
            final(self).cycle == old(self).cycle,
            final(self).register == spec_reg_after(old(self).register, address),
            byte_written(
                old(self).memory,
                final(self).memory,
                spec_addr_of(old(self).memory, old(self).register, address),
                value,
            ),
    {
        let address = self.get_address_by(address);
        self.memory.write_u8(address, value);
    }

    /// Resolves an address descriptor and reads the little-endian word there.
    pub fn read_address_u16(&mut self, address: AddressType) -> (value: u16)
        requires
            old(self).wf(),
            spec_addr_of(old(self).memory, old(self).register, address) < 0xFFFF,
        ensures
            final(self).wf(),
            final(self).cycle == old(self).cycle,
            value == old(self).memory.spec_read_word(
                spec_addr_of(old(self).memory, old(self).register, address),
            ),
            final(self).memory == old(self).memory,
            final(self).register == spec_reg_after(old(self).register, address),
    {
        let address = self.get_address_by(address);
        self.memory.read_u16(address)
    }

    /// Resolves an address descriptor and writes a little-endian word there.
    pub fn write_address_u16(&mut self, address: AddressType, value: u16)
        requires
            old(self).wf(),
            spec_addr_of(old(self).memory, old(self).register, address) < 0xFFFF,
        ensures
            final(self).wf(),
            final(self).cycle == old(self).cycle,
            final(self).register == spec_reg_after(old(self).register, address),
            word_written(
                old(self).memory,
                final(self).memory,
                spec_addr_of(old(self).memory, old(self).register, address),
                value,
            ),
    {
        let address = self.get_address_by(address);
        self.memory.write_u16(address, value);
    }
}

} // verus!
