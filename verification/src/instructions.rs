//! The representative instruction families built on operand resolution: the
//! 8-bit and 16-bit load paths, and the stack push and pop operations.
//!
//! An operand descriptor outside a family's accepted kind set can only come
//! from a defective opcode table, never from runtime data, so each family
//! requires its operands to be of an accepted kind instead of handling the
//! impossible combinations.

use vstd::prelude::*;
use vstd::pervasive::unreached;
use crate::cpu::{Argument, Cpu, spec_addr_of, spec_reg_after};
use crate::memory::{Memory, byte_written, word_written, unusable};
use crate::registers::{Register, RegisterU16Label, is_pair};
use crate::word::{lo8, hi8, wrap_add16, wrap_sub16};

verus! {

/// Operand kinds that the 8-bit load path accepts as a source.
pub open spec fn is_source_u8(arg: Argument) -> bool {
    match arg {
        Argument::RegisterU8(_) => true,
        Argument::ValueU8 => true,
        Argument::Address(_) => true,
        _ => false,
    }
}

/// Operand kinds that the 16-bit load path accepts as a source.
pub open spec fn is_source_u16(arg: Argument) -> bool {
    match arg {
        Argument::RegisterU16(_) => true,
        Argument::ValueU16 => true,
        Argument::AdjustedStackPointer => true,
        _ => false,
    }
}

/// Operand kinds that the 8-bit load path accepts as a destination.
pub open spec fn is_dest_u8(arg: Argument) -> bool {
    match arg {
        Argument::RegisterU8(_) => true,
        Argument::Address(_) => true,
        _ => false,
    }
}

/// Operand kinds that the 16-bit load path accepts as a destination.
pub open spec fn is_dest_u16(arg: Argument) -> bool {
    match arg {
        Argument::RegisterU16(_) => true,
        Argument::Address(_) => true,
        _ => false,
    }
}

/// A byte interpreted as a two's-complement signed offset, sign-extended to
/// sixteen bits.
pub open spec fn sign_extend(b: u8) -> u16 {
    if b < 0x80 {
        b as u16
    } else {
        (0xFF00 + b) as u16
    }
}

/// The byte an 8-bit load source resolves to, before any state changes.
pub open spec fn ld_u8_source(mem: Memory, reg: Register, src: Argument) -> u8
    recommends
        is_source_u8(src),
{
    match src {
        Argument::RegisterU8(r) => reg.spec_u8(r),
        Argument::ValueU8 => mem.spec_read(reg.pc),
        Argument::Address(at) => mem.spec_read(spec_addr_of(mem, reg, at)),
        _ => arbitrary(),
    }
}

/// The register file after resolving an 8-bit load source: an immediate
/// advances PC, an address descriptor applies its own adjustment.
pub open spec fn ld_u8_reg_mid(reg: Register, src: Argument) -> Register
    recommends
        is_source_u8(src),
{
    match src {
        Argument::RegisterU8(_) => reg,
        Argument::ValueU8 => reg.spec_with_u16(RegisterU16Label::PC, wrap_add16(reg.pc, 1)),
        Argument::Address(at) => spec_reg_after(reg, at),
        _ => arbitrary(),
    }
}

/// The word a 16-bit load source resolves to, before any state changes.
pub open spec fn ld_u16_source(mem: Memory, reg: Register, src: Argument) -> u16
    recommends
        is_source_u16(src),
{
    match src {
        Argument::RegisterU16(r) => reg.spec_u16(r),
        Argument::ValueU16 => mem.spec_read_word(reg.pc),
        Argument::AdjustedStackPointer => wrap_add16(reg.sp, sign_extend(mem.spec_read(reg.pc))),
        _ => arbitrary(),
    }
}

/// The register file after resolving a 16-bit load source.
pub open spec fn ld_u16_reg_mid(reg: Register, src: Argument) -> Register
    recommends
        is_source_u16(src),
{
    match src {
        Argument::RegisterU16(_) => reg,
        Argument::ValueU16 => reg.spec_with_u16(RegisterU16Label::PC, wrap_add16(reg.pc, 2)),
        Argument::AdjustedStackPointer => reg.spec_with_u16(
            RegisterU16Label::PC,
            wrap_add16(reg.pc, 1),
        ),
        _ => arbitrary(),
    }
}

/// The full effect of an 8-bit load: the source byte, resolved against the
/// pre-state, lands in the destination register or memory cell, and the only
/// register changes are the resolutions' own side effects.
pub open spec fn ld_u8_post(pre: Cpu, post: Cpu, dst: Argument, src: Argument) -> bool
    recommends
        is_source_u8(src),
        is_dest_u8(dst),
{
    let value = ld_u8_source(pre.memory, pre.register, src);
    let mid = ld_u8_reg_mid(pre.register, src);
    post.cycle == pre.cycle && match dst {
        Argument::RegisterU8(r) => post.memory == pre.memory && post.register
            == mid.spec_with_u8(r, value),
        Argument::Address(at) => post.register == spec_reg_after(mid, at) && byte_written(
            pre.memory,
            post.memory,
            spec_addr_of(pre.memory, mid, at),
            value,
        ),
        _ => arbitrary(),
    }
}

/// The full effect of a 16-bit load, stated like the 8-bit one.
pub open spec fn ld_u16_post(pre: Cpu, post: Cpu, dst: Argument, src: Argument) -> bool
    recommends
        is_source_u16(src),
        is_dest_u16(dst),
{
    let value = ld_u16_source(pre.memory, pre.register, src);
    let mid = ld_u16_reg_mid(pre.register, src);
    post.cycle == pre.cycle && match dst {
        Argument::RegisterU16(r) => post.memory == pre.memory && post.register
            == mid.spec_with_u16(r, value),
        Argument::Address(at) => post.register == spec_reg_after(mid, at) && word_written(
            pre.memory,
            post.memory,
            spec_addr_of(pre.memory, mid, at),
            value,
        ),
        _ => arbitrary(),
    }
}

/// A 16-bit load whose destination is a memory address must resolve that
/// address below 0xFFFF, so that both halves of the word have a cell.
pub open spec fn ld_u16_dest_ok(pre: Cpu, dst: Argument, src: Argument) -> bool {
    dst matches Argument::Address(at) ==> spec_addr_of(
        pre.memory,
        ld_u16_reg_mid(pre.register, src),
        at,
    ) < 0xFFFF
}

/// The 8-bit load path: resolves the source to a byte, then writes it to a
/// register or through an address descriptor.
pub fn ld_u8(cpu: &mut Cpu, args: [Argument; 2])
    requires
        old(cpu).wf(),
        is_source_u8(args[1]),
        is_dest_u8(args[0]),
    ensures
        final(cpu).wf(),
        ld_u8_post(*old(cpu), *final(cpu), args[0], args[1]),
{
    let source: u8 = match args[1] {
        Argument::RegisterU8(reg) => cpu.register.read_u8(reg),
        Argument::ValueU8 => cpu.load_next_u8(),
        Argument::Address(address) => cpu.read_address(address),
        _ => unreached(),
    };
    match args[0] {
        Argument::RegisterU8(reg) => cpu.register.write_u8(reg, source),
        Argument::Address(address) => cpu.write_address(address, source),
        _ => unreached(),
    }
}

/// The 16-bit load path: resolves the source to a word (register pair,
/// immediate, or SP plus a sign-extended offset), then writes it to a pair or
/// through an address descriptor.
pub fn ld_u16(cpu: &mut Cpu, args: [Argument; 2])
    requires
        old(cpu).wf(),
        is_source_u16(args[1]),
        is_dest_u16(args[0]),
        ld_u16_dest_ok(*old(cpu), args[0], args[1]),
    ensures
        final(cpu).wf(),
        ld_u16_post(*old(cpu), *final(cpu), args[0], args[1]),
{
    let source: u16 = match args[1] {
        Argument::RegisterU16(reg) => cpu.register.read_u16(reg),
        Argument::ValueU16 => cpu.load_next_u16(),
        Argument::AdjustedStackPointer => {
            let offset = cpu.load_next_u8();
            let extended: u16 = if offset < 0x80 {
                offset as u16
            } else {
                0xFF00 + (offset as u16)
            };
            cpu.register.sp.wrapping_add(extended)
        },
        _ => unreached(),
    };
    match args[0] {
        Argument::RegisterU16(reg) => cpu.register.write_u16(reg, source),
        Argument::Address(address) => cpu.write_address_u16(address, source),
        _ => unreached(),
    }
}

/// The load family: branches on the source descriptor's width to the 8-bit
/// or 16-bit transfer path.
pub fn ld(cpu: &mut Cpu, args: [Argument; 2])
    requires
        old(cpu).wf(),
        is_source_u8(args[1]) ==> is_dest_u8(args[0]),
        is_source_u16(args[1]) ==> is_dest_u16(args[0]) && ld_u16_dest_ok(
            *old(cpu),
            args[0],
            args[1],
        ),
    ensures
        final(cpu).wf(),
        is_source_u8(args[1]) ==> ld_u8_post(*old(cpu), *final(cpu), args[0], args[1]),
        is_source_u16(args[1]) ==> ld_u16_post(*old(cpu), *final(cpu), args[0], args[1]),
{
    match args[1] {
        Argument::RegisterU8(_) | Argument::Address(_) | Argument::ValueU8 => ld_u8(cpu, args),
        Argument::RegisterU16(_) | Argument::ValueU16 | Argument::AdjustedStackPointer => ld_u16(
            cpu,
            args,
        ),
    }
}

/// The full effect of a push: SP drops by two, and the operand register's
/// word is stored little-endian at the new SP through the byte-write
/// primitive, high byte first.
pub open spec fn push_post(pre: Cpu, post: Cpu, reg: RegisterU16Label) -> bool {
    let value = pre.register.spec_u16(reg);
    let new_sp = wrap_sub16(pre.register.sp, 2);
    post.cycle == pre.cycle && post.register == pre.register.spec_with_u16(RegisterU16Label::SP, new_sp) && word_written(
        pre.memory,
        post.memory,
        new_sp,
        value,
    )
}

/// The full effect of a pop: the little-endian word at SP is read, SP rises
/// by two, and the word lands in the operand register.
pub open spec fn pop_post(pre: Cpu, post: Cpu, reg: RegisterU16Label) -> bool {
    let value = pre.memory.spec_read_word(pre.register.sp);
    post.cycle == pre.cycle && post.memory == pre.memory && post.register == pre.register.spec_with_u16(
        RegisterU16Label::SP,
        wrap_add16(pre.register.sp, 2),
    ).spec_with_u16(reg, value)
}

/// Pushes a 16-bit register onto the stack: the stack grows downward and
/// stores little-endian.
pub fn push(cpu: &mut Cpu, args: [Argument; 1])
    requires
        old(cpu).wf(),
        args[0] matches Argument::RegisterU16(_),
    ensures
        final(cpu).wf(),
        args[0] matches Argument::RegisterU16(reg) ==> push_post(*old(cpu), *final(cpu), reg),
{
    let register: RegisterU16Label = match args[0] {
        Argument::RegisterU16(reg) => reg,
        _ => unreached(),
    };
    let source = cpu.register.read_u16(register);
    cpu.register.sp = cpu.register.sp.wrapping_sub(1);
    cpu.memory.write_u8(cpu.register.sp, (source / 0x100) as u8);
    cpu.register.sp = cpu.register.sp.wrapping_sub(1);
    cpu.memory.write_u8(cpu.register.sp, (source % 0x100) as u8);
    proof {
        crate::memory::lemma_distinct_cells(wrap_sub16(old(cpu).register.sp, 2));
    }
}

/// Pops the word at SP into a 16-bit register: the exact inverse of push.
pub fn pop(cpu: &mut Cpu, args: [Argument; 1])
    requires
        old(cpu).wf(),
        args[0] matches Argument::RegisterU16(_),
    ensures
        final(cpu).wf(),
        args[0] matches Argument::RegisterU16(reg) ==> pop_post(*old(cpu), *final(cpu), reg),
{
    let lo = cpu.memory.read_u8(cpu.register.sp);
    cpu.register.sp = cpu.register.sp.wrapping_add(1);
    let hi = cpu.memory.read_u8(cpu.register.sp);
    cpu.register.sp = cpu.register.sp.wrapping_add(1);
    let result = (lo as u16) + (hi as u16) * 0x100;
    match args[0] {
        Argument::RegisterU16(reg) => cpu.register.write_u16(reg, result),
        _ => unreached(),
    }
}

/// Pushing a pair and then popping into a pair hands the popped pair the
/// pushed pair's pre-push value and restores SP, provided neither stacked
/// byte fell in the unusable region (there the byte is discarded and reads
/// back as zero, as when SP starts at 0xFEA2).
pub proof fn lemma_push_pop_round_trip(
    cpu0: Cpu,
    cpu1: Cpu,
    cpu2: Cpu,
    src: RegisterU16Label,
    dst: RegisterU16Label,
)
    requires
        is_pair(src),
        is_pair(dst),
        !unusable(wrap_sub16(cpu0.register.sp, 1)),
        !unusable(wrap_sub16(cpu0.register.sp, 2)),
        push_post(cpu0, cpu1, src),
        pop_post(cpu1, cpu2, dst),
    ensures
        cpu2.register.spec_u16(dst) == cpu0.register.spec_u16(src),
        cpu2.register.sp == cpu0.register.sp,
{
    let value = cpu0.register.spec_u16(src);
    let new_sp = wrap_sub16(cpu0.register.sp, 2);
    crate::memory::lemma_distinct_cells(new_sp);
    crate::word::lemma_wrap_add_sub(new_sp, 2);
    assert(cpu1.register.sp == new_sp);
    assert(cpu1.memory.spec_read(new_sp) == lo8(value));
    assert(cpu1.memory.spec_read(wrap_add16(new_sp, 1)) == hi8(value));
    crate::word::lemma_word_bytes(value);
    assert(cpu1.memory.spec_read_word(new_sp) == value);
    crate::registers::lemma_pair_round_trip(
        cpu1.register.spec_with_u16(RegisterU16Label::SP, wrap_add16(new_sp, 2)),
        dst,
        value,
    );
}

} // verus!
