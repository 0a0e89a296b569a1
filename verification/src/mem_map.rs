//! The layout of the address space.

use vstd::prelude::*;

verus! {

/// Number of addressable bytes.
pub const MEMORY_SIZE: usize = 4096;

/// Where the glyph table starts.
pub const FONTS_LOCATION: u16 = 0x000;

/// Where a loaded program starts, and where a fresh CPU starts executing.
pub const ROM_LOCATION: u16 = 0x200;

/// Bytes per glyph.
pub const GLYPH_SIZE: u16 = 5;

/// Bytes in the whole glyph table: sixteen glyphs.
pub const FONT_SET_SIZE: usize = 80;

/// Width of one instruction in bytes.
pub const INSTRUCTION_WIDTH: u16 = 2;

/// The glyph table: the hexadecimal digits `0` to `F`, five rows each, one
/// byte per row with the pixels in the high nibble.
pub open spec fn font_set() -> Seq<u8> {
    seq![
        0xF0u8, 0x90u8, 0x90u8, 0x90u8, 0xF0u8,
        0x20u8, 0x60u8, 0x20u8, 0x20u8, 0x70u8,
        0xF0u8, 0x10u8, 0xF0u8, 0x80u8, 0xF0u8,
        0xF0u8, 0x10u8, 0xF0u8, 0x10u8, 0xF0u8,
        0x90u8, 0x90u8, 0xF0u8, 0x10u8, 0x10u8,
        0xF0u8, 0x80u8, 0xF0u8, 0x10u8, 0xF0u8,
        0xF0u8, 0x80u8, 0xF0u8, 0x90u8, 0xF0u8,
        0xF0u8, 0x10u8, 0x20u8, 0x40u8, 0x40u8,
        0xF0u8, 0x90u8, 0xF0u8, 0x90u8, 0xF0u8,
        0xF0u8, 0x90u8, 0xF0u8, 0x10u8, 0xF0u8,
        0xF0u8, 0x90u8, 0xF0u8, 0x90u8, 0x90u8,
        0xE0u8, 0x90u8, 0xE0u8, 0x90u8, 0xE0u8,
        0xF0u8, 0x80u8, 0x80u8, 0x80u8, 0xF0u8,
        0xE0u8, 0x90u8, 0x90u8, 0x90u8, 0xE0u8,
        0xF0u8, 0x80u8, 0xF0u8, 0x80u8, 0xF0u8,
        0xF0u8, 0x80u8, 0xF0u8, 0x80u8, 0x80u8,
    ]
}

/// `mem` with `bytes` laid over it from address `base` on.
pub open spec fn overlay(mem: Seq<u8>, base: int, bytes: Seq<u8>) -> Seq<u8> {
    Seq::new(
        mem.len(),
        |a: int| if base <= a < base + bytes.len() { bytes[a - base] } else { mem[a] },
    )
}

/// The `len` bytes of `mem` from address `base` on.
pub open spec fn window(mem: Seq<u8>, base: int, len: int) -> Seq<u8> {
    mem.subrange(base, base + len)
}

/// Whether the glyph table stands in `mem` at its place.
pub open spec fn fonts_loaded(mem: Seq<u8>) -> bool {
    &&& mem.len() == MEMORY_SIZE
    &&& window(mem, FONTS_LOCATION as int, FONT_SET_SIZE as int) == font_set()
}

/// Whether `rom` stands in `mem` at the program base.
pub open spec fn rom_loaded(mem: Seq<u8>, rom: Seq<u8>) -> bool {
    &&& mem.len() == MEMORY_SIZE
    &&& ROM_LOCATION + rom.len() <= MEMORY_SIZE
    &&& window(mem, ROM_LOCATION as int, rom.len() as int) == rom
}

} // verus!
