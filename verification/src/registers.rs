//! The register file: eight 8-bit registers plus the 16-bit stack pointer and
//! program counter. Four of the byte registers double as the halves of the
//! 16-bit pairs AF, BC, DE and HL; the pairs have no storage of their own.

use vstd::prelude::*;
use crate::word::{lo8, hi8, word_of, wrap_add16, wrap_sub16};

verus! {

/// The CPU's registers. The pairs AF, BC, DE and HL are views over the byte
/// cells; SP and PC are atomic 16-bit cells with no byte halves.
#[derive(Debug, Clone, Copy, PartialEq, Eq, Structural)]
pub struct Register {
    pub a: u8,
    pub f: u8,
    pub b: u8,
    pub c: u8,
    pub d: u8,
    pub e: u8,
    pub h: u8,
    pub l: u8,
    pub sp: u16,
    pub pc: u16,
}

/// Names of the 8-bit registers.
#[derive(Debug, Clone, Copy, PartialEq, Eq, Structural)]
pub enum RegisterU8Label {
    A,
    F,
    B,
    C,
    D,
    E,
    H,
    L,
}

/// Names of the 16-bit registers: the four byte pairs plus SP and PC.
#[derive(Debug, Clone, Copy, PartialEq, Eq, Structural)]
pub enum RegisterU16Label {
    AF,
    BC,
    DE,
    HL,
    SP,
    PC,
}

/// Whether a 16-bit register name is one of the byte pairs, as opposed to the
/// atomic SP and PC cells.
pub open spec fn is_pair(reg: RegisterU16Label) -> bool {
    match reg {
        RegisterU16Label::AF => true,
        RegisterU16Label::BC => true,
        RegisterU16Label::DE => true,
        RegisterU16Label::HL => true,
        RegisterU16Label::SP => false,
        RegisterU16Label::PC => false,
    }
}

/// The byte register holding the high half of a pair.
pub open spec fn pair_high(reg: RegisterU16Label) -> RegisterU8Label
    recommends
        is_pair(reg),
{
    match reg {
        RegisterU16Label::BC => RegisterU8Label::B,
        RegisterU16Label::DE => RegisterU8Label::D,
        RegisterU16Label::HL => RegisterU8Label::H,
        _ => RegisterU8Label::A,
    }
}

/// The byte register holding the low half of a pair.
pub open spec fn pair_low(reg: RegisterU16Label) -> RegisterU8Label
    recommends
        is_pair(reg),
{
    match reg {
        RegisterU16Label::BC => RegisterU8Label::C,
        RegisterU16Label::DE => RegisterU8Label::E,
        RegisterU16Label::HL => RegisterU8Label::L,
        _ => RegisterU8Label::F,
    }
}

impl Register {
    /// The value of an 8-bit register.
    pub open spec fn spec_u8(self, reg: RegisterU8Label) -> u8 {
        match reg {
            RegisterU8Label::A => self.a,
            RegisterU8Label::F => self.f,
            RegisterU8Label::B => self.b,
            RegisterU8Label::C => self.c,
            RegisterU8Label::D => self.d,
            RegisterU8Label::E => self.e,
            RegisterU8Label::H => self.h,
            RegisterU8Label::L => self.l,
        }
    }

    /// The value of a 16-bit register: a pair composes as high byte times
    /// 0x100 plus low byte.
    pub open spec fn spec_u16(self, reg: RegisterU16Label) -> u16 {
        match reg {
            RegisterU16Label::AF => word_of(self.a, self.f),
            RegisterU16Label::BC => word_of(self.b, self.c),
            RegisterU16Label::DE => word_of(self.d, self.e),
            RegisterU16Label::HL => word_of(self.h, self.l),
            RegisterU16Label::SP => self.sp,
            RegisterU16Label::PC => self.pc,
        }
    }

    /// The register file with one 8-bit register replaced.
    pub open spec fn spec_with_u8(self, reg: RegisterU8Label, value: u8) -> Register {
        match reg {
            RegisterU8Label::A => Register { a: value, ..self },
            RegisterU8Label::F => Register { f: value, ..self },
            RegisterU8Label::B => Register { b: value, ..self },
            RegisterU8Label::C => Register { c: value, ..self },
            RegisterU8Label::D => Register { d: value, ..self },
            RegisterU8Label::E => Register { e: value, ..self },
            RegisterU8Label::H => Register { h: value, ..self },
            RegisterU8Label::L => Register { l: value, ..self },
        }
    }

    /// The register file with one 16-bit register replaced: writing a pair
    /// decomposes the word into its two byte cells.
    pub open spec fn spec_with_u16(self, reg: RegisterU16Label, value: u16) -> Register {
        match reg {
            RegisterU16Label::AF => Register { a: hi8(value), f: lo8(value), ..self },
            RegisterU16Label::BC => Register { b: hi8(value), c: lo8(value), ..self },
            RegisterU16Label::DE => Register { d: hi8(value), e: lo8(value), ..self },
            RegisterU16Label::HL => Register { h: hi8(value), l: lo8(value), ..self },
            RegisterU16Label::SP => Register { sp: value, ..self },
            RegisterU16Label::PC => Register { pc: value, ..self },
        }
    }

    /// The fixed power-on register values, matching the state the boot ROM
    /// leaves behind.
    pub open spec fn power_on() -> Register {
        Register {
            a: 0x01,
            f: 0xB0,
            b: 0x00,
            c: 0x13,
            d: 0x00,
            e: 0xD8,
            h: 0x01,
            l: 0x4D,
            sp: 0xFFFE,
            pc: 0x0100,
        }
    }

    /// A register file holding the power-on values.
    pub fn new() -> (r: Register)
        ensures
            r == Register::power_on(),
    {
        Register {
            a: 0x01,
            f: 0xB0,
            b: 0x00,
            c: 0x13,
            d: 0x00,
            e: 0xD8,
            h: 0x01,
            l: 0x4D,
            sp: 0xFFFE,
            pc: 0x0100,
        }
    }

    /// Reads an 8-bit register.
    pub fn read_u8(&self, reg: RegisterU8Label) -> (value: u8)
        ensures
            value == self.spec_u8(reg),
    {
        match reg {
            RegisterU8Label::A => self.a,
            RegisterU8Label::F => self.f,
            RegisterU8Label::B => self.b,
            RegisterU8Label::C => self.c,
            RegisterU8Label::D => self.d,
            RegisterU8Label::E => self.e,
            RegisterU8Label::H => self.h,
            RegisterU8Label::L => self.l,
        }
    }

    /// Writes an 8-bit register, leaving every other cell unchanged.
    pub fn write_u8(&mut self, reg: RegisterU8Label, value: u8)
        ensures
            *final(self) == old(self).spec_with_u8(reg, value),
    {
        match reg {
            RegisterU8Label::A => self.a = value,
            RegisterU8Label::F => self.f = value,
            RegisterU8Label::B => self.b = value,
            RegisterU8Label::C => self.c = value,
            RegisterU8Label::D => self.d = value,
            RegisterU8Label::E => self.e = value,
            RegisterU8Label::H => self.h = value,
            RegisterU8Label::L => self.l = value,
        }
    }

    /// Reads a 16-bit register; a pair composes from its two byte cells.
    pub fn read_u16(&self, reg: RegisterU16Label) -> (value: u16)
        ensures
            value == self.spec_u16(reg),
    {
        match reg {
            RegisterU16Label::AF => (self.a as u16) * 0x100 + (self.f as u16),
            RegisterU16Label::BC => (self.b as u16) * 0x100 + (self.c as u16),
            RegisterU16Label::DE => (self.d as u16) * 0x100 + (self.e as u16),
            RegisterU16Label::HL => (self.h as u16) * 0x100 + (self.l as u16),
            RegisterU16Label::SP => self.sp,
            RegisterU16Label::PC => self.pc,
        }
    }

    /// Writes a 16-bit register; a pair decomposes into its two byte cells.
    pub fn write_u16(&mut self, reg: RegisterU16Label, value: u16)
        ensures
            *final(self) == old(self).spec_with_u16(reg, value),
    {
        let high = (value / 0x100) as u8;
        let low = (value % 0x100) as u8;
        match reg {
            RegisterU16Label::AF => {
                self.a = high;
                self.f = low;
            },
            RegisterU16Label::BC => {
                self.b = high;
                self.c = low;
            },
            RegisterU16Label::DE => {
                self.d = high;
                self.e = low;
            },
            RegisterU16Label::HL => {
                self.h = high;
                self.l = low;
            },
            RegisterU16Label::SP => self.sp = value,
            RegisterU16Label::PC => self.pc = value,
        }
    }

    /// Increments a 16-bit register, wrapping 0xFFFF to 0x0000.
    pub fn inc_u16(&mut self, reg: RegisterU16Label)
        ensures
            *final(self) == old(self).spec_with_u16(reg, wrap_add16(old(self).spec_u16(reg), 1)),
    {
        let value = self.read_u16(reg);
        self.write_u16(reg, value.wrapping_add(1));
    }

    /// Decrements a 16-bit register, wrapping 0x0000 to 0xFFFF.
    pub fn dec_u16(&mut self, reg: RegisterU16Label)
        ensures
            *final(self) == old(self).spec_with_u16(reg, wrap_sub16(old(self).spec_u16(reg), 1)),
    {
        let value = self.read_u16(reg);
        self.write_u16(reg, value.wrapping_sub(1));
    }
}

/// Writing a 16-bit register and reading it back yields the written word;
/// for a pair, the high half register holds the word's high byte and the low
/// half register its low byte.
pub proof fn lemma_pair_round_trip(r: Register, reg: RegisterU16Label, value: u16)
    ensures
        r.spec_with_u16(reg, value).spec_u16(reg) == value,
        is_pair(reg) ==> r.spec_with_u16(reg, value).spec_u8(pair_high(reg)) == hi8(value),
        is_pair(reg) ==> r.spec_with_u16(reg, value).spec_u8(pair_low(reg)) == lo8(value),
{
    crate::word::lemma_word_bytes(value);
}

} // verus!
