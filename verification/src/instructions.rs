//! The opcode decoder: a pure, total function from 16-bit instruction words
//! to tagged instruction values.

use vstd::prelude::*;

verus! {

const ADDRESS_MASK: u16 = 0x0FFF;
const VX_MASK: u16 = 0x0F00;
const VY_MASK: u16 = 0x00F0;
const DATA_MASK: u16 = 0x00FF;
const NIBBLE_MASK: u16 = 0x000F;
const ID_MASK: u16 = 0xF000;

/// A raw 16-bit instruction word together with its fixed sub-fields:
/// `address` (low 12 bits), `x` and `y` (4-bit register selectors at bit
/// offsets 8 and 4), `data` (low byte), `nibble` (low 4 bits) and `id`
/// (top 4 bits).
#[derive(Debug, Copy, Clone, PartialEq, Eq, Structural)]
pub struct Opcode {
    pub bytes: u16,
    pub address: u16,
    pub x: u8,
    pub y: u8,
    pub data: u8,
    pub nibble: u8,
    pub id: u8,
}

/// The sub-fields that a 16-bit word extracts to, as bit formulas.
pub open spec fn spec_opcode(bytes: u16) -> Opcode {
    Opcode {
        bytes: bytes,
        address: bytes & 0x0FFF,
        x: ((bytes >> 8) & 0xF) as u8,
        y: ((bytes >> 4) & 0xF) as u8,
        data: (bytes & 0xFF) as u8,
        nibble: (bytes & 0xF) as u8,
        id: (bytes >> 12) as u8,
    }
}

impl Opcode {
    /// Each sub-field lies within the range its bit width allows.
    pub open spec fn wf(self) -> bool {
        self.address < 0x1000 && self.x < 16 && self.y < 16 && self.nibble < 16 && self.id < 16
    }

    pub fn new(bytes: u16) -> (o: Opcode)
        ensures
            o == spec_opcode(bytes),
            o.wf(),
    {
        proof {
            assert((0x0FFFu16 & bytes) == (bytes & 0x0FFF) && ((0x0F00u16 & bytes) >> 8) == ((
            bytes >> 8) & 0xF) && ((0x00F0u16 & bytes) >> 4) == ((bytes >> 4) & 0xF) && (0x00FFu16
                & bytes) == (bytes & 0xFF) && (0x000Fu16 & bytes) == (bytes & 0xF) && ((0xF000u16
                & bytes) >> 12) == (bytes >> 12) && (bytes & 0xFF) < 256 && (bytes & 0xF) < 16 && (
            (bytes >> 8) & 0xF) < 16 && ((bytes >> 4) & 0xF) < 16 && (bytes >> 12)
                < 16) by (bit_vector);
            lemma_opcode_fields_bounded(bytes);
        }
        Opcode {
            bytes: bytes,
            address: ADDRESS_MASK & bytes,
            x: ((VX_MASK & bytes) >> 8) as u8,
            y: ((VY_MASK & bytes) >> 4) as u8,
            data: (DATA_MASK & bytes) as u8,
            nibble: (NIBBLE_MASK & bytes) as u8,
            id: ((ID_MASK & bytes) >> 12) as u8,
        }
    }
}

/// The extracted sub-fields of any word lie within their bit-width ranges.
pub proof fn lemma_opcode_fields_bounded(bytes: u16)
    ensures
        spec_opcode(bytes).wf(),
{
    assert((bytes & 0x0FFF) < 0x1000 && ((bytes >> 8) & 0xF) < 16 && ((bytes >> 4) & 0xF) < 16
        && (bytes & 0xF) < 16 && (bytes >> 12) < 16) by (bit_vector);
}

/// One of the 35 canonical CHIP-8 instructions.
#[derive(Debug, PartialEq)]
pub enum Instruction {
    /// CLS; Clear the display
    Clear,
    /// RET; Return from a subroutine
    Return,
    /// JP addr; Jump to location addr
    Jump(Opcode),
    /// CALL addr; Call subroutine at addr
    Call(Opcode),
    /// SE Vx, byte; Skip next instruction if Vx = byte
    SkipOnEqualByte(Opcode),
    /// SNE Vx, byte; Skip next instruction if Vx != byte
    SkipOnNotEqualByte(Opcode),
    /// SE Vx, Vy; Skip next instruction if Vx = Vy
    SkipOnEqual(Opcode),
    /// SNE Vx, Vy; Skip next instruction if Vx != Vy
    SkipOnNotEqual(Opcode),
    /// LD Vx, byte; Set Vx = byte
    SetByte(Opcode),
    /// ADD Vx, byte; Set Vx = Vx + byte
    AddByte(Opcode),
    /// LD Vx, Vy; Set Vx = Vy
    Assign(Opcode),
    /// OR Vx, Vy; Set Vx = Vx OR Vy
    Or(Opcode),
    /// AND Vx, Vy; Set Vx = Vx AND Vy
    And(Opcode),
    /// XOR Vx, Vy; Set Vx = Vx XOR Vy
    Xor(Opcode),
    /// ADD Vx, Vy; Set Vx = Vx + Vy, set VF = carry
    Add(Opcode),
    /// SUB Vx, Vy; Set Vx = Vx - Vy, set VF = NOT borrow
    SubXY(Opcode),
    /// SUBN Vx, Vy; Set Vx = Vy - Vx, set VF = NOT borrow
    SubYX(Opcode),
    /// SHR Vx, Vy; Set Vx = Vy SHR 1
    ShiftRight(Opcode),
    /// SHL Vx, Vy; Set Vx = Vy SHL 1
    ShiftLeft(Opcode),
    /// LD I, addr; Set I = addr
    SetI(Opcode),
    /// JP V0, addr; Jump to location addr + V0
    JumpPlus(Opcode),
    /// RND Vx, byte; Set Vx = random byte AND byte
    RandomMask(Opcode),
    /// DRW Vx, Vy, nibble; Display nibble-byte sprite starting
    /// at memory location I at (Vx, Vy), set VF = collision
    Draw(Opcode),
    /// SKP Vx; Skip next instruction if key with the value of Vx is pressed
    SkipOnKeyPressed(Opcode),
    /// SKNP Vx; Skip next instruction if key with the value of Vx is NOT pressed
    SkipOnKeyNotPressed(Opcode),
    /// LD Vx, DT; Set Vx = delay timer value
    StoreDelayTimer(Opcode),
    /// LD Vx, K; Wait for a key press, store the value of the key in Vx
    WaitKey(Opcode),
    /// LD DT, Vx; Set delay timer = Vx
    SetDelayTimer(Opcode),
    /// LD ST, Vx; Set sound timer = Vx
    SetSoundTimer(Opcode),
    /// ADD I, Vx; Set I = I + Vx
    AddI(Opcode),
    /// LD F, Vx; Set I = location of sprite for digit Vx
    SetSprite(Opcode),
    /// LD B, Vx; Store BCD representation of Vx
    /// in memory locations I, I+1, and I+2
    Bcd(Opcode),
    /// LD [I], Vx; Store registers V0 through Vx in memory
    /// starting at location I
    Store(Opcode),
    /// LD Vx, [I]; Read registers V0 through Vx in memory
    /// starting at location I
    Read(Opcode),
}

/// The opcode a decoded instruction carries, where it carries one.
pub open spec fn opcode_of(ins: Instruction) -> Option<Opcode> {
    match ins {
        Instruction::Clear => None,
        Instruction::Return => None,
        Instruction::Jump(o) => Some(o),
        Instruction::Call(o) => Some(o),
        Instruction::SkipOnEqualByte(o) => Some(o),
        Instruction::SkipOnNotEqualByte(o) => Some(o),
        Instruction::SkipOnEqual(o) => Some(o),
        Instruction::SkipOnNotEqual(o) => Some(o),
        Instruction::SetByte(o) => Some(o),
        Instruction::AddByte(o) => Some(o),
        Instruction::Assign(o) => Some(o),
        Instruction::Or(o) => Some(o),
        Instruction::And(o) => Some(o),
        Instruction::Xor(o) => Some(o),
        Instruction::Add(o) => Some(o),
        Instruction::SubXY(o) => Some(o),
        Instruction::SubYX(o) => Some(o),
        Instruction::ShiftRight(o) => Some(o),
        Instruction::ShiftLeft(o) => Some(o),
        Instruction::SetI(o) => Some(o),
        Instruction::JumpPlus(o) => Some(o),
        Instruction::RandomMask(o) => Some(o),
        Instruction::Draw(o) => Some(o),
        Instruction::SkipOnKeyPressed(o) => Some(o),
        Instruction::SkipOnKeyNotPressed(o) => Some(o),
        Instruction::StoreDelayTimer(o) => Some(o),
        Instruction::WaitKey(o) => Some(o),
        Instruction::SetDelayTimer(o) => Some(o),
        Instruction::SetSoundTimer(o) => Some(o),
        Instruction::AddI(o) => Some(o),
        Instruction::SetSprite(o) => Some(o),
        Instruction::Bcd(o) => Some(o),
        Instruction::Store(o) => Some(o),
        Instruction::Read(o) => Some(o),
    }
}

impl Instruction {
    /// The opcode the instruction carries, if any, has in-range sub-fields.
    pub open spec fn wf(self) -> bool {
        match opcode_of(self) {
            Some(o) => o.wf(),
            None => true,
        }
    }

    /// Classification of a word into an instruction: literal full-word
    /// matches first, then dispatch on the group id with a secondary
    /// discriminant for groups 0x8, 0xE and 0xF.
    pub open spec fn spec_decode(bytes: u16) -> Option<Instruction> {
        let o = spec_opcode(bytes);
        if bytes == 0x00E0 {
            Some(Instruction::Clear)
        } else if bytes == 0x00EE {
            Some(Instruction::Return)
        } else if o.id == 0x1 {
            Some(Instruction::Jump(o))
        } else if o.id == 0x2 {
            Some(Instruction::Call(o))
        } else if o.id == 0x3 {
            Some(Instruction::SkipOnEqualByte(o))
        } else if o.id == 0x4 {
            Some(Instruction::SkipOnNotEqualByte(o))
        } else if o.id == 0x5 {
            Some(Instruction::SkipOnEqual(o))
        } else if o.id == 0x6 {
            Some(Instruction::SetByte(o))
        } else if o.id == 0x7 {
            Some(Instruction::AddByte(o))
        } else if o.id == 0x8 {
            if o.nibble == 0x0 {
                Some(Instruction::Assign(o))
            } else if o.nibble == 0x1 {
                Some(Instruction::Or(o))
            } else if o.nibble == 0x2 {
                Some(Instruction::And(o))
            } else if o.nibble == 0x3 {
                Some(Instruction::Xor(o))
            } else if o.nibble == 0x4 {
                Some(Instruction::Add(o))
            } else if o.nibble == 0x5 {
                Some(Instruction::SubXY(o))
            } else if o.nibble == 0x6 {
                Some(Instruction::ShiftRight(o))
            } else if o.nibble == 0x7 {
                Some(Instruction::SubYX(o))
            } else if o.nibble == 0xE {
                Some(Instruction::ShiftLeft(o))
            } else {
                None
            }
        } else if o.id == 0x9 {
            Some(Instruction::SkipOnNotEqual(o))
        } else if o.id == 0xA {
            Some(Instruction::SetI(o))
        } else if o.id == 0xB {
            Some(Instruction::JumpPlus(o))
        } else if o.id == 0xC {
            Some(Instruction::RandomMask(o))
        } else if o.id == 0xD {
            Some(Instruction::Draw(o))
        } else if o.id == 0xE {
            if o.y == 0x9 && o.nibble == 0xE {
                Some(Instruction::SkipOnKeyPressed(o))
            } else if o.y == 0xA && o.nibble == 0x1 {
                Some(Instruction::SkipOnKeyNotPressed(o))
            } else {
                None
            }
        } else if o.id == 0xF {
            if o.y == 0x0 && o.nibble == 0x7 {
                Some(Instruction::StoreDelayTimer(o))
            } else if o.y == 0x0 && o.nibble == 0xA {
                Some(Instruction::WaitKey(o))
            } else if o.y == 0x1 && o.nibble == 0x5 {
                Some(Instruction::SetDelayTimer(o))
            } else if o.y == 0x1 && o.nibble == 0x8 {
                Some(Instruction::SetSoundTimer(o))
            } else if o.y == 0x1 && o.nibble == 0xE {
                Some(Instruction::AddI(o))
            } else if o.y == 0x2 && o.nibble == 0x9 {
                Some(Instruction::SetSprite(o))
            } else if o.y == 0x3 && o.nibble == 0x3 {
                Some(Instruction::Bcd(o))
            } else if o.y == 0x5 && o.nibble == 0x5 {
                Some(Instruction::Store(o))
            } else if o.y == 0x6 && o.nibble == 0x5 {
                Some(Instruction::Read(o))
            } else {
                None
            }
        } else {
            None
        }
    }

    /// Decodes a 16-bit word into an instruction; `None` signals an
    /// unassigned CHIP-8 encoding. Decoding is pure and total.
    pub fn decode(bytes: u16) -> (r: Option<Instruction>)
        ensures
            r == Self::spec_decode(bytes),
    {
        let opcode = Opcode::new(bytes);

        if opcode.bytes == 0x00E0 {
            Some(Instruction::Clear)
        } else if opcode.bytes == 0x00EE {
            Some(Instruction::Return)
        } else if opcode.id == 0x1 {
            Some(Instruction::Jump(opcode))
        } else if opcode.id == 0x2 {
            Some(Instruction::Call(opcode))
        } else if opcode.id == 0x3 {
            Some(Instruction::SkipOnEqualByte(opcode))
        } else if opcode.id == 0x4 {
            Some(Instruction::SkipOnNotEqualByte(opcode))
        } else if opcode.id == 0x5 {
            Some(Instruction::SkipOnEqual(opcode))
        } else if opcode.id == 0x6 {
            Some(Instruction::SetByte(opcode))
        } else if opcode.id == 0x7 {
            Some(Instruction::AddByte(opcode))
        } else if opcode.id == 0x8 {
            if opcode.nibble == 0x0 {
                Some(Instruction::Assign(opcode))
            } else if opcode.nibble == 0x1 {
                Some(Instruction::Or(opcode))
            } else if opcode.nibble == 0x2 {
                Some(Instruction::And(opcode))
            } else if opcode.nibble == 0x3 {
                Some(Instruction::Xor(opcode))
            } else if opcode.nibble == 0x4 {
                Some(Instruction::Add(opcode))
            } else if opcode.nibble == 0x5 {
                Some(Instruction::SubXY(opcode))
            } else if opcode.nibble == 0x6 {
                Some(Instruction::ShiftRight(opcode))
            } else if opcode.nibble == 0x7 {
                Some(Instruction::SubYX(opcode))
            } else if opcode.nibble == 0xE {
                Some(Instruction::ShiftLeft(opcode))
            } else {
                None
            }
        } else if opcode.id == 0x9 {
            Some(Instruction::SkipOnNotEqual(opcode))
        } else if opcode.id == 0xA {
            Some(Instruction::SetI(opcode))
        } else if opcode.id == 0xB {
            Some(Instruction::JumpPlus(opcode))
        } else if opcode.id == 0xC {
            Some(Instruction::RandomMask(opcode))
        } else if opcode.id == 0xD {
            Some(Instruction::Draw(opcode))
        } else if opcode.id == 0xE {
            if opcode.y == 0x9 && opcode.nibble == 0xE {
                Some(Instruction::SkipOnKeyPressed(opcode))
            } else if opcode.y == 0xA && opcode.nibble == 0x1 {
                Some(Instruction::SkipOnKeyNotPressed(opcode))
            } else {
                None
            }
        } else if opcode.id == 0xF {
            if opcode.y == 0x0 && opcode.nibble == 0x7 {
                Some(Instruction::StoreDelayTimer(opcode))
            } else if opcode.y == 0x0 && opcode.nibble == 0xA {
                Some(Instruction::WaitKey(opcode))
            } else if opcode.y == 0x1 && opcode.nibble == 0x5 {
                Some(Instruction::SetDelayTimer(opcode))
            } else if opcode.y == 0x1 && opcode.nibble == 0x8 {
                Some(Instruction::SetSoundTimer(opcode))
            } else if opcode.y == 0x1 && opcode.nibble == 0xE {
                Some(Instruction::AddI(opcode))
            } else if opcode.y == 0x2 && opcode.nibble == 0x9 {
                Some(Instruction::SetSprite(opcode))
            } else if opcode.y == 0x3 && opcode.nibble == 0x3 {
                Some(Instruction::Bcd(opcode))
            } else if opcode.y == 0x5 && opcode.nibble == 0x5 {
                Some(Instruction::Store(opcode))
            } else if opcode.y == 0x6 && opcode.nibble == 0x5 {
                Some(Instruction::Read(opcode))
            } else {
                None
            }
        } else {
            None
        }
    }
}

/// Decoder totality: decoding any 16-bit word yields either `None` or an
/// instruction whose carried opcode holds exactly the sub-fields that the
/// bit-extraction formulas give for that word, each within its range.
pub proof fn lemma_decode_totality(bytes: u16)
    ensures
        Instruction::spec_decode(bytes) matches Some(ins) ==> ins.wf() && match opcode_of(ins) {
            Some(o) => o == spec_opcode(bytes),
            None => bytes == 0x00E0 || bytes == 0x00EE,
        },
{
    lemma_opcode_fields_bounded(bytes);
}

} // verus!
