//! The built-in hexadecimal font.

use vstd::prelude::*;

verus! {

/// Bytes per glyph: five rows of eight pixels, of which the left four are used.
pub const GLYPH_HEIGHT: u16 = 5;

/// The glyphs for the digits `0` to `F`, five bytes each, in order.
pub const CHIP8_FONTSET: [u8; 80] = [
    0xF0, 0x90, 0x90, 0x90, 0xF0,
    0x20, 0x60, 0x20, 0x20, 0x70,
    0xF0, 0x10, 0xF0, 0x80, 0xF0,
    0xF0, 0x10, 0xF0, 0x10, 0xF0,
    0x90, 0x90, 0xF0, 0x10, 0x10,
    0xF0, 0x80, 0xF0, 0x10, 0xF0,
    0xF0, 0x80, 0xF0, 0x90, 0xF0,
    0xF0, 0x10, 0x20, 0x40, 0x40,
    0xF0, 0x90, 0xF0, 0x90, 0xF0,
    0xF0, 0x90, 0xF0, 0x10, 0xF0,
    0xF0, 0x90, 0xF0, 0x90, 0x90,
    0xE0, 0x90, 0xE0, 0x90, 0xE0,
    0xF0, 0x80, 0x80, 0x80, 0xF0,
    0xE0, 0x90, 0x90, 0x90, 0xE0,
    0xF0, 0x80, 0xF0, 0x80, 0xF0,
    0xF0, 0x80, 0xF0, 0x80, 0x80,
];

/// Address of the glyph for the hexadecimal digit in the low four bits of
/// `value`.
pub open spec fn glyph_address(value: u8) -> int {
    (value as int % 16) * 5
}

/// The address at which the glyph for the low hexadecimal digit of `value`
/// starts.
pub fn glyph_address_of(value: u8) -> (addr: u16)
    ensures
        addr == glyph_address(value),
        addr + 5 <= 80,
{
    (value % 16) as u16 * GLYPH_HEIGHT
}

} // verus!
