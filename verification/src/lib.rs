//! Instruction-execution core of an 8-bit CPU emulator in the style of the
//! Game Boy's Sharp LR35902 processor: a banked, memory-mapped 16-bit address
//! space, a register file addressable as eight 8-bit registers or four 16-bit
//! pairs, operand resolution for the common addressing modes, and the
//! load/push/pop instruction families built on those primitives.

pub mod word;
pub mod memory;
pub mod registers;
pub mod cpu;
pub mod instructions;
