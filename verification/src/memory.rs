//! The memory-mapped bus: ten fixed-size backing regions multiplexed over the
//! single 16-bit address space. Every address resolves to exactly one region;
//! the echo region aliases work ram, and the unusable region discards writes
//! and reads as zero.

use vstd::prelude::*;
use crate::word::{lo8, hi8, wrap_add16};

verus! {

/// Backing storage for the whole 16-bit address space, one region per field.
///
/// The echo range 0xE000..0xFE00 has no field of its own: it routes to the
/// same cells as `wram` and `wram_extra`, so writes through either address
/// range are visible through both.
pub struct Memory {
    bank0: Vec<u8>,
    bank1: Vec<u8>,
    vram: Vec<u8>,
    eram: Vec<u8>,
    wram: Vec<u8>,
    wram_extra: Vec<u8>,
    oam: Vec<u8>,
    io: Vec<u8>,
    hram: Vec<u8>,
    ie: u8,
}

/// Failures reported by memory construction and header validation.
#[derive(Debug, Clone, Copy, PartialEq, Eq, Structural)]
pub enum MemoryError {
    RomBigSize,
    Checksum8NotEq,
    Checksum16NotEq,
}

impl Memory {
    /// Every region holds exactly as many bytes as its slice of the address
    /// space.
    pub closed spec fn wf(self) -> bool {
        &&& self.bank0@.len() == 0x4000
        &&& self.bank1@.len() == 0x4000
        &&& self.vram@.len() == 0x2000
        &&& self.eram@.len() == 0x2000
        &&& self.wram@.len() == 0x1000
        &&& self.wram_extra@.len() == 0x1000
        &&& self.oam@.len() == 0xA0
        &&& self.io@.len() == 0x80
        &&& self.hram@.len() == 0x7F
    }

    /// The byte that a read of `address` observes: the region dispatch, as a
    /// total function of the address alone.
    pub closed spec fn spec_read(self, address: u16) -> u8 {
        if address < 0x4000 {
            self.bank0@[address as int]
        } else if address < 0x8000 {
            self.bank1@[address - 0x4000]
        } else if address < 0xA000 {
            self.vram@[address - 0x8000]
        } else if address < 0xC000 {
            self.eram@[address - 0xA000]
        } else if address < 0xD000 {
            self.wram@[address - 0xC000]
        } else if address < 0xE000 {
            self.wram_extra@[address - 0xD000]
        } else if address < 0xF000 {
            self.wram@[address - 0xE000]
        } else if address < 0xFE00 {
            self.wram_extra@[address - 0xF000]
        } else if address < 0xFEA0 {
            self.oam@[address - 0xFE00]
        } else if address < 0xFF00 {
            0u8
        } else if address < 0xFF80 {
            self.io@[address - 0xFF00]
        } else if address < 0xFFFF {
            self.hram@[address - 0xFF80]
        } else {
            self.ie
        }
    }

    /// The little-endian word at `address`: low byte at `address`, high byte
    /// at the wrapping successor.
    pub open spec fn spec_read_word(self, address: u16) -> u16 {
        (self.spec_read(address) + 0x100 * self.spec_read(wrap_add16(address, 1))) as u16
    }
}

/// Addresses whose writes are discarded and whose reads yield zero.
pub open spec fn unusable(address: u16) -> bool {
    0xFEA0 <= address < 0xFF00
}

/// The address that owns the storage cell behind `address`: echo addresses
/// fall through to the work-ram cell they alias, every other address owns its
/// own cell.
pub open spec fn cell_of(address: u16) -> u16 {
    if 0xE000 <= address < 0xFE00 {
        (address - 0x2000) as u16
    } else {
        address
    }
}

/// Whether a write to `written` changes what a read of `address` observes.
pub open spec fn affects(written: u16, address: u16) -> bool {
    !unusable(written) && cell_of(address) == cell_of(written)
}

/// The relation between the memory before and after a byte write: the written
/// cell (and every address aliasing it) reads back as `value`, every other
/// address is unchanged, and a write to the unusable region changes nothing.
pub open spec fn byte_written(pre: Memory, post: Memory, address: u16, value: u8) -> bool {
    forall|a: u16|
        #[trigger] post.spec_read(a) == if affects(address, a) {
            value
        } else {
            pre.spec_read(a)
        }
}

/// The relation between the memory before and after a little-endian word
/// write: the low byte lands at `address`, the high byte at the wrapping
/// successor, and each byte is discarded independently if its address is
/// unusable.
pub open spec fn word_written(pre: Memory, post: Memory, address: u16, value: u16) -> bool {
    forall|a: u16|
        #[trigger] post.spec_read(a) == if affects(address, a) {
            lo8(value)
        } else if affects(wrap_add16(address, 1), a) {
            hi8(value)
        } else {
            pre.spec_read(a)
        }
}

/// Adjacent addresses never share a storage cell, even across the wrap from
/// 0xFFFF to 0x0000.
pub proof fn lemma_distinct_cells(address: u16)
    ensures
        cell_of(address) != cell_of(wrap_add16(address, 1)),
{
}

/// A zero-filled region of the given size.
fn zero_block(n: usize) -> (v: Vec<u8>)
    ensures
        v@.len() == n,
        forall|i: int| 0 <= i < n ==> v@[i] == 0,
{
    let mut v: Vec<u8> = Vec::new();
    while v.len() < n
        invariant
            v@.len() <= n,
            forall|i: int| 0 <= i < v@.len() ==> v@[i] == 0,
        decreases n - v@.len(),
    {
        v.push(0);
    }
    v
}

impl Memory {
    /// A memory image with every writable cell zero.
    pub fn new() -> (m: Memory)
        ensures
            m.wf(),
            forall|a: u16| m.spec_read(a) == 0,
    {
        Memory {
            bank0: zero_block(0x4000),
            bank1: zero_block(0x4000),
            vram: zero_block(0x2000),
            eram: zero_block(0x2000),
            wram: zero_block(0x1000),
            wram_extra: zero_block(0x1000),
            oam: zero_block(0xA0),
            io: zero_block(0x80),
            hram: zero_block(0x7F),
            ie: 0,
        }
    }

    /// The byte at `address`, per the region dispatch table.
    pub fn read_u8(&self, address: u16) -> (value: u8)
        requires
            self.wf(),
        ensures
            value == self.spec_read(address),
    {
        let idx = address as usize;
        if address < 0x4000 {
            self.bank0[idx]
        } else if address < 0x8000 {
            self.bank1[idx - 0x4000]
        } else if address < 0xA000 {
            self.vram[idx - 0x8000]
        } else if address < 0xC000 {
            self.eram[idx - 0xA000]
        } else if address < 0xD000 {
            self.wram[idx - 0xC000]
        } else if address < 0xE000 {
            self.wram_extra[idx - 0xD000]
        } else if address < 0xF000 {
            self.wram[idx - 0xE000]
        } else if address < 0xFE00 {
            self.wram_extra[idx - 0xF000]
        } else if address < 0xFEA0 {
            self.oam[idx - 0xFE00]
        } else if address < 0xFF00 {
            0u8
        } else if address < 0xFF80 {
            self.io[idx - 0xFF00]
        } else if address < 0xFFFF {
            self.hram[idx - 0xFF80]
        } else {
            self.ie
        }
    }

    /// Writes `value` at `address`; a write into the unusable region is
    /// silently discarded, and a write into the echo region lands in the
    /// aliased work-ram cell.
    pub fn write_u8(&mut self, address: u16, value: u8)
        requires
            old(self).wf(),
        ensures
            final(self).wf(),
            byte_written(*old(self), *final(self), address, value),
    {
        let idx = address as usize;
        if address < 0x4000 {
            self.bank0.set(idx, value);
        } else if address < 0x8000 {
            self.bank1.set(idx - 0x4000, value);
        } else if address < 0xA000 {
            self.vram.set(idx - 0x8000, value);
        } else if address < 0xC000 {
            self.eram.set(idx - 0xA000, value);
        } else if address < 0xD000 {
            self.wram.set(idx - 0xC000, value);
        } else if address < 0xE000 {
            self.wram_extra.set(idx - 0xD000, value);
        } else if address < 0xF000 {
            self.wram.set(idx - 0xE000, value);
        } else if address < 0xFE00 {
            self.wram_extra.set(idx - 0xF000, value);
        } else if address < 0xFEA0 {
            self.oam.set(idx - 0xFE00, value);
        } else if address < 0xFF00 {
        } else if address < 0xFF80 {
            self.io.set(idx - 0xFF00, value);
        } else if address < 0xFFFF {
            self.hram.set(idx - 0xFF80, value);
        } else {
            self.ie = value;
        }
    }

    /// The little-endian word at `address`: low byte at `address`, high byte
    /// at `address + 1`.
    pub fn read_u16(&self, address: u16) -> (value: u16)
        requires
            self.wf(),
            address < 0xFFFF,
        ensures
            value == self.spec_read_word(address),
    {
        let lo = self.read_u8(address);
        let hi = self.read_u8(address + 1);
        (lo as u16) + (hi as u16) * 0x100
    }

    /// Writes `value` little-endian: the low byte at `address`, then the high
    /// byte at `address + 1`, each through the byte-write primitive, so
    /// unusable sub-addresses discard their byte and aliasing regions observe
    /// both halves.
    pub fn write_u16(&mut self, address: u16, value: u16)
        requires
            old(self).wf(),
            address < 0xFFFF,
        ensures
            final(self).wf(),
            word_written(*old(self), *final(self), address, value),
    {
        self.write_u8(address, (value % 0x100) as u8);
        self.write_u8(address + 1, (value / 0x100) as u8);
        proof {
            lemma_distinct_cells(address);
        }
    }
}

/// One 16 KiB bank seeded from the cartridge image starting at `start`;
/// bytes past the end of the image are zero.
fn bank_from(rom: &[u8], start: usize) -> (v: Vec<u8>)
    requires
        start <= 0x4000,
        rom@.len() <= 0x8000,
    ensures
        v@.len() == 0x4000,
        forall|i: int|
            0 <= i < 0x4000 ==> v@[i] == (if start + i < rom@.len() {
                rom@[start + i]
            } else {
                0u8
            }),
{
    let mut v: Vec<u8> = Vec::new();
    while v.len() < 0x4000
        invariant
            start <= 0x4000,
            rom@.len() <= 0x8000,
            v@.len() <= 0x4000,
            forall|i: int|
                0 <= i < v@.len() ==> v@[i] == (if start + i < rom@.len() {
                    rom@[start + i]
                } else {
                    0u8
                }),
        decreases 0x4000 - v@.len(),
    {
        let i = v.len();
        if start + i < rom.len() {
            v.push(rom[start + i]);
        } else {
            v.push(0);
        }
    }
    v
}

impl Memory {
    /// A memory image seeded with a cartridge: bytes [0, 0x4000) fill bank 0
    /// and bytes [0x4000, 0x8000) fill bank 1. An image longer than 32 KiB is
    /// rejected before any storage is built; a shorter image zero-pads the
    /// rest of the two banks. Every other region starts zeroed.
    pub fn with_rom(rom: &[u8]) -> (result: Result<Memory, MemoryError>)
        ensures
            rom@.len() > 0x8000 ==> result == Err::<Memory, MemoryError>(MemoryError::RomBigSize),
            rom@.len() <= 0x8000 ==> (result matches Ok(m) && m.wf() && forall|a: u16|
                #[trigger] m.spec_read(a) == (if a < rom@.len() {
                    rom@[a as int]
                } else {
                    0u8
                })),
    {
        if rom.len() > 0x8000 {
            return Err(MemoryError::RomBigSize);
        }
        let memory = Memory {
            bank0: bank_from(rom, 0),
            bank1: bank_from(rom, 0x4000),
            vram: zero_block(0x2000),
            eram: zero_block(0x2000),
            wram: zero_block(0x1000),
            wram_extra: zero_block(0x1000),
            oam: zero_block(0xA0),
            io: zero_block(0x80),
            hram: zero_block(0x7F),
            ie: 0,
        };
        Ok(memory)
    }
}

/// The header checksum over the first `n` bytes of the metadata range that
/// starts at address 0x0134: each byte is subtracted from the running value,
/// followed by one more, everything wrapping at 8 bits.
pub open spec fn spec_checksum(m: Memory, n: nat) -> u8
    decreases n,
{
    if n == 0 {
        0u8
    } else {
        sub8(sub8(spec_checksum(m, (n - 1) as nat), m.spec_read((0x0134 + n - 1) as u16)), 1)
    }
}

/// 8-bit subtraction that wraps on underflow.
pub open spec fn sub8(a: u8, b: u8) -> u8 {
    if a - b < 0 {
        (a - b + 0x100) as u8
    } else {
        (a - b) as u8
    }
}

impl Memory {
    /// Validates the cartridge header checksum: the checksum of the 25
    /// metadata bytes at 0x0134..0x014D must equal the byte stored at 0x014D.
    pub fn check_checksum(&self) -> (result: Result<(), MemoryError>)
        requires
            self.wf(),
        ensures
            result == (if spec_checksum(*self, 25) == self.spec_read(0x014D) {
                Ok::<(), MemoryError>(())
            } else {
                Err::<(), MemoryError>(MemoryError::Checksum8NotEq)
            }),
    {
        let mut checksum: u8 = 0;
        let mut idx: u16 = 0x0134;
        while idx < 0x014D
            invariant
                self.wf(),
                0x0134 <= idx <= 0x014D,
                checksum == spec_checksum(*self, (idx - 0x0134) as nat),
            decreases 0x014D - idx,
        {
            checksum = checksum.wrapping_sub(self.read_u8(idx)).wrapping_sub(1);
            idx = idx + 1;
        }
        if checksum != self.read_u8(0x014D) {
            return Err(MemoryError::Checksum8NotEq);
        }
        Ok(())
    }

    /// Compares the logo bitmap stored at addresses 0x0104..0x0134 against
    /// the expected 48-byte reference image supplied by the caller.
    pub fn check_logo(&self, logo: &[u8]) -> (accepted: bool)
        requires
            self.wf(),
        ensures
            accepted <==> (logo@.len() == 0x30 && forall|i: int|
                0 <= i < 0x30 ==> logo@[i] == self.spec_read((0x0104 + i) as u16)),
    {
        if logo.len() != 0x30 {
            return false;
        }
        let mut i: usize = 0;
        while i < 0x30
            invariant
                self.wf(),
                logo@.len() == 0x30,
                i <= 0x30,
                forall|j: int| 0 <= j < i ==> logo@[j] == self.spec_read((0x0104 + j) as u16),
            decreases 0x30 - i,
        {
            if logo[i] != self.read_u8(0x0104 + i as u16) {
                return false;
            }
            i = i + 1;
        }
        true
    }
}

/// Writing a word and reading it back yields the word, except that a half
/// falling in the unusable region is discarded and reads back as zero.
pub proof fn lemma_word_round_trip(pre: Memory, post: Memory, address: u16, value: u16)
    requires
        address < 0xFFFF,
        word_written(pre, post, address, value),
    ensures
        !unusable(address) && !unusable((address + 1) as u16) ==> post.spec_read_word(address)
            == value,
        !unusable(address) ==> post.spec_read(address) == lo8(value),
        !unusable((address + 1) as u16) ==> post.spec_read((address + 1) as u16) == hi8(value),
        unusable(address) ==> post.spec_read(address) == 0,
        unusable((address + 1) as u16) ==> post.spec_read((address + 1) as u16) == 0,
{
    lemma_distinct_cells(address);
    assert(post.spec_read(address) == if affects(address, address) {
        lo8(value)
    } else {
        pre.spec_read(address)
    });
    assert(post.spec_read((address + 1) as u16) == if affects(address, (address + 1) as u16) {
        lo8(value)
    } else if affects((address + 1) as u16, (address + 1) as u16) {
        hi8(value)
    } else {
        pre.spec_read((address + 1) as u16)
    });
}

/// A byte written through an echo address reads back through the aliased
/// work-ram address, and the other way round.
pub proof fn lemma_echo_alias(pre: Memory, post: Memory, address: u16, value: u8)
    requires
        byte_written(pre, post, address, value),
    ensures
        0xE000 <= address < 0xFE00 ==> post.spec_read((address - 0x2000) as u16) == value
            && post.spec_read(address) == value,
        0xC000 <= address < 0xDE00 ==> post.spec_read((address + 0x2000) as u16) == value
            && post.spec_read(address) == value,
{
    assert(post.spec_read(address) == if affects(address, address) {
        value
    } else {
        pre.spec_read(address)
    });
    if 0xE000 <= address < 0xFE00 {
        let mirror = (address - 0x2000) as u16;
        assert(post.spec_read(mirror) == if affects(address, mirror) {
            value
        } else {
            pre.spec_read(mirror)
        });
    }
    if 0xC000 <= address < 0xDE00 {
        let mirror = (address + 0x2000) as u16;
        assert(post.spec_read(mirror) == if affects(address, mirror) {
            value
        } else {
            pre.spec_read(mirror)
        });
    }
}

} // verus!
