//! Sizes and addresses of the machine.
use vstd::prelude::*;

verus! {

/// Width of the frame buffer in pixels.
pub const W: usize = 64;

/// Height of the frame buffer in pixels.
pub const H: usize = 32;

/// Number of cells in the frame buffer.
pub const N: usize = 2048;

/// Size of the address space in bytes.
pub const RAM_BYTES: usize = 4096;

/// Address at which programs are loaded and execution starts.
pub const ROM_ADDR: usize = 0x200;

/// Address of the built-in font table.
pub const FONT_ADDR: usize = 0x50;

/// Number of bytes of the font table: sixteen glyphs of five rows.
pub const FONT_BYTES: usize = 80;

/// Largest program that fits between `ROM_ADDR` and the end of memory.
pub const MAX_ROM_BYTES: usize = 3584;

/// Number of keys on the keypad, and of general registers.
pub const KEYS: usize = 16;

/// Depth of the call stack.
pub const STACK_DEPTH: usize = 16;

/// The glyphs for the hexadecimal digits 0 to F, five rows each.
pub const FONT_SPRITES: [u8; FONT_BYTES] = [
    0xF0, 0x90, 0x90, 0x90, 0xF0, // 0
    0x20, 0x60, 0x20, 0x20, 0x70, // 1
    0xF0, 0x10, 0xF0, 0x80, 0xF0, // 2
    0xF0, 0x10, 0xF0, 0x10, 0xF0, // 3
    0x90, 0x90, 0xF0, 0x10, 0x10, // 4
    0xF0, 0x80, 0xF0, 0x10, 0xF0, // 5
    0xF0, 0x80, 0xF0, 0x90, 0xF0, // 6
    0xF0, 0x10, 0x20, 0x40, 0x40, // 7
    0xF0, 0x90, 0xF0, 0x90, 0xF0, // 8
    0xF0, 0x90, 0xF0, 0x10, 0xF0, // 9
    0xF0, 0x90, 0xF0, 0x90, 0x90, // A
    0xE0, 0x90, 0xE0, 0x90, 0xE0, // B
    0xF0, 0x80, 0x80, 0x80, 0xF0, // C
    0xE0, 0x90, 0x90, 0x90, 0xE0, // D
    0xF0, 0x80, 0xF0, 0x80, 0xF0, // E
    0xF0, 0x80, 0xF0, 0x80, 0x80, // F
];

} // verus!
