//! An early, partial decoder covering the clear/return/jump/call and
//! skip-on-byte encodings, with fields unpacked into each variant.

use vstd::prelude::*;

verus! {

/// A decoded instruction of the partial instruction set.
#[derive(Debug, PartialEq, Eq, Structural)]
pub enum Opcode {
    CLS,
    RET,
    JP(u16),
    CALL(u16),
    SE(u8, u8),
    SNE(u8, u8),
}

/// Classification of a word: the two literal full-word encodings first,
/// then dispatch on the top nibble, with the operand fields extracted by
/// the usual bit formulas.
pub open spec fn spec_decode(bytes: u16) -> Option<Opcode> {
    if bytes == 0x00E0 {
        Some(Opcode::CLS)
    } else if bytes == 0x00EE {
        Some(Opcode::RET)
    } else if bytes & 0xF000 == 0x1000 {
        Some(Opcode::JP(bytes & 0x0FFF))
    } else if bytes & 0xF000 == 0x2000 {
        Some(Opcode::CALL(bytes & 0x0FFF))
    } else if bytes & 0xF000 == 0x3000 {
        Some(Opcode::SE(((bytes >> 8) & 0xF) as u8, (bytes & 0xFF) as u8))
    } else if bytes & 0xF000 == 0x4000 {
        Some(Opcode::SNE(((bytes >> 8) & 0xF) as u8, (bytes & 0xFF) as u8))
    } else {
        None
    }
}

/// Decodes a 16-bit word; `None` signals an encoding this decoder does not
/// recognize.
pub fn decode(bytes: u16) -> (r: Option<Opcode>)
    ensures
        r == spec_decode(bytes),
{
    if bytes == 0x00E0 {
        Some(Opcode::CLS)
    } else if bytes == 0x00EE {
        Some(Opcode::RET)
    } else if bytes & 0xF000 == 0x1000 {
        proof {
            assert(bytes & 0xF000 == 0x1000 ==> 0x1000u16 ^ bytes == bytes
                & 0x0FFF) by (bit_vector);
        }
        Some(Opcode::JP(0x1000 ^ bytes))
    } else if bytes & 0xF000 == 0x2000 {
        proof {
            assert(bytes & 0xF000 == 0x2000 ==> 0x2000u16 ^ bytes == bytes
                & 0x0FFF) by (bit_vector);
        }
        Some(Opcode::CALL(0x2000 ^ bytes))
    } else if bytes & 0xF000 == 0x3000 {
        let register = ((0x0F00 & bytes) >> 8) as u8;
        let value = (0x00FF & bytes) as u8;
        proof {
            assert((0x0F00u16 & bytes) >> 8 == (bytes >> 8) & 0xF && (0x00FFu16 & bytes) == bytes
                & 0xFF && (bytes >> 8) & 0xF < 16 && bytes & 0xFF < 256) by (bit_vector);
        }
        Some(Opcode::SE(register, value))
    } else if bytes & 0xF000 == 0x4000 {
        let register = ((0x0F00 & bytes) >> 8) as u8;
        let value = (0x00FF & bytes) as u8;
        proof {
            assert((0x0F00u16 & bytes) >> 8 == (bytes >> 8) & 0xF && (0x00FFu16 & bytes) == bytes
                & 0xFF && (bytes >> 8) & 0xF < 16 && bytes & 0xFF < 256) by (bit_vector);
        }
        Some(Opcode::SNE(register, value))
    } else {
        None
    }
}

} // verus!
