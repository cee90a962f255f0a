//! Fixed parameters of the CHIP-8 machine: memory geometry, display size,
//! clock period, and the built-in font sprites.

use vstd::prelude::*;

verus! {

/// Size of addressable memory, in bytes.
pub const RAM_SIZE: usize = 4096;
/// Number of general-purpose registers `V0`..`VF`.
pub const GENERAL_REGISTERS_SIZE: usize = 16;
/// Number of return-address slots in the call stack.
pub const STACK_SIZE: usize = 16;
/// Number of keys on the keypad.
pub const KEYPAD_SIZE: usize = 16;
/// Display width in pixels.
pub const DISPLAY_WIDTH: usize = 64;
/// Display height in pixels.
pub const DISPLAY_HEIGHT: usize = 32;
/// Total number of display pixels.
pub const DISPLAY_PIXELS: usize = DISPLAY_WIDTH * DISPLAY_HEIGHT;
/// Address at which a loaded program starts; everything below is reserved.
pub const PROGRAM_START: usize = 0x200;
/// Address of the built-in font sprites.
pub const SPRITES_ADDR: usize = 0;
/// Height in bytes (rows) of one font sprite.
pub const SPRITE_HEIGHT: usize = 5;
/// Total size in bytes of the font sprite table.
pub const SPRITES_SIZE: usize = 80;
/// Milliseconds between two clock ticks.
pub const CLOCK: u64 = 2;
/// Pixel scaling factor for a host window.
pub const DISPLAY_SCALE: usize = 20;

/// The 16 built-in 4x5 font glyphs (one hex digit each), 5 bytes per glyph.
pub open spec fn font_seq() -> Seq<u8> {
    seq![
        0xF0u8, 0x90, 0x90, 0x90, 0xF0, // 0
        0x20, 0x60, 0x20, 0x20, 0x70, // 1
        0xF0, 0x10, 0xF0, 0x80, 0xF0, // 2
        0xF0, 0x10, 0xF0, 0x10, 0xF0, // 3
        0x90, 0x90, 0xF0, 0x10, 0x10, // 4
        0xF0, 0x80, 0xF0, 0x10, 0xF0, // 5
        0xF0, 0x80, 0xF0, 0x90, 0xF0, // 6
        0xF0, 0x10, 0x20, 0x40, 0x40, // 7
        0xF0, 0x90, 0xF0, 0x90, 0xF0, // 8
        0xF0, 0x90, 0xF0, 0x10, 0xF0, // 9
        0xF0, 0x90, 0xF0, 0x90, 0x90, // A
        0xE0, 0x90, 0xE0, 0x90, 0xE0, // B
        0xF0, 0x80, 0x80, 0x80, 0xF0, // C
        0xE0, 0x90, 0x90, 0x90, 0xE0, // D
        0xF0, 0x80, 0xF0, 0x80, 0xF0, // E
        0xF0, 0x80, 0xF0, 0x80, 0x80, // F
    ]
}

/// The font sprite table as an owned vector, suitable for copying into memory.
pub fn sprites() -> (v: Vec<u8>)
    ensures
        v@ == font_seq(),
        v@.len() == SPRITES_SIZE,
{
    let v: Vec<u8> = vec![
        0xF0, 0x90, 0x90, 0x90, 0xF0, // 0
        0x20, 0x60, 0x20, 0x20, 0x70, // 1
        0xF0, 0x10, 0xF0, 0x80, 0xF0, // 2
        0xF0, 0x10, 0xF0, 0x10, 0xF0, // 3
        0x90, 0x90, 0xF0, 0x10, 0x10, // 4
        0xF0, 0x80, 0xF0, 0x10, 0xF0, // 5
        0xF0, 0x80, 0xF0, 0x90, 0xF0, // 6
        0xF0, 0x10, 0x20, 0x40, 0x40, // 7
        0xF0, 0x90, 0xF0, 0x90, 0xF0, // 8
        0xF0, 0x90, 0xF0, 0x10, 0xF0, // 9
        0xF0, 0x90, 0xF0, 0x90, 0x90, // A
        0xE0, 0x90, 0xE0, 0x90, 0xE0, // B
        0xF0, 0x80, 0x80, 0x80, 0xF0, // C
        0xE0, 0x90, 0x90, 0x90, 0xE0, // D
        0xF0, 0x80, 0xF0, 0x80, 0xF0, // E
        0xF0, 0x80, 0xF0, 0x80, 0x80, // F
    ];
    proof {
        assert(v@ =~= font_seq());
    }
    v
}

} // verus!
