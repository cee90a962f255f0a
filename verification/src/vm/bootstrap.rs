//! Staged construction of a machine: memory is filled step by step, and the
//! remaining state is zeroed when the machine is finished.

use vstd::prelude::*;
use crate::specs::{
    font_seq, sprites, DISPLAY_PIXELS, GENERAL_REGISTERS_SIZE, KEYPAD_SIZE, PROGRAM_START,
    RAM_SIZE, SPRITES_ADDR, SPRITES_SIZE, STACK_SIZE,
};
use crate::vm::{zero_bytes, zero_words, VM};

verus! {

/// A machine being built: only its memory exists so far.
pub struct Bootstrap {
    pub ram: Vec<u8>,
}

impl Bootstrap {
    /// Starts a build with memory zeroed.
    pub fn new() -> (b: Bootstrap)
        ensures
            b.ram@.len() == RAM_SIZE,
            forall|k: int| 0 <= k < RAM_SIZE ==> b.ram@[k] == 0u8,
    {
        Bootstrap { ram: zero_bytes(RAM_SIZE) }
    }

    /// Copies the font sprite table into the reserved low-memory region.
    pub fn load_sprites(self) -> (b: Bootstrap)
        requires
            self.ram@.len() == RAM_SIZE,
        ensures
            b.ram@.len() == RAM_SIZE,
            forall|k: int| 0 <= k < SPRITES_SIZE ==> b.ram@[SPRITES_ADDR + k] == font_seq()[k],
            forall|k: int|
                SPRITES_ADDR + SPRITES_SIZE <= k < RAM_SIZE ==> b.ram@[k] == self.ram@[k],
    {
        let mut ram = self.ram;
        let table = sprites();
        let mut addr: usize = SPRITES_ADDR;
        while addr < SPRITES_ADDR + SPRITES_SIZE
            invariant
                SPRITES_ADDR <= addr <= SPRITES_ADDR + SPRITES_SIZE,
                ram@.len() == RAM_SIZE,
                table@ == font_seq(),
                forall|k: int| SPRITES_ADDR <= k < addr ==> ram@[k] == font_seq()[k],
                forall|k: int| addr <= k < RAM_SIZE ==> ram@[k] == self.ram@[k],
            decreases SPRITES_ADDR + SPRITES_SIZE - addr,
        {
            let index = addr - SPRITES_ADDR;
            let byte = table[index];
            ram.set(addr, byte);
            addr = addr + 1;
        }

        Bootstrap { ram }
    }

    /// Copies a ROM image verbatim into memory starting at the program
    /// start address. The image must fit in the space above that address.
    pub fn load_rom(self, rom: &Vec<u8>) -> (b: Bootstrap)
        requires
            self.ram@.len() == RAM_SIZE,
            rom@.len() <= RAM_SIZE - PROGRAM_START,
        ensures
            b.ram@.len() == RAM_SIZE,
            forall|k: int| 0 <= k < rom@.len() ==> b.ram@[PROGRAM_START + k] == rom@[k],
            forall|k: int|
                (0 <= k < PROGRAM_START || PROGRAM_START + rom@.len() <= k < RAM_SIZE)
                    ==> b.ram@[k] == self.ram@[k],
    {
        let mut ram = self.ram;
        let mut offset: usize = 0;
        while offset < rom.len()
            invariant
                0 <= offset <= rom@.len(),
                rom@.len() <= RAM_SIZE - PROGRAM_START,
                ram@.len() == RAM_SIZE,
                forall|k: int| 0 <= k < offset ==> ram@[PROGRAM_START + k] == rom@[k],
                forall|k: int|
                    (0 <= k < PROGRAM_START || PROGRAM_START + offset <= k < RAM_SIZE) ==> ram@[k]
                        == self.ram@[k],
            decreases rom@.len() - offset,
        {
            let byte = rom[offset];
            ram.set(PROGRAM_START + offset, byte);
            offset = offset + 1;
        }

        Bootstrap { ram }
    }

    /// Finishes the build: the machine takes the memory as loaded, every
    /// other part zeroed, and no display bus or clock attached.
    pub fn finish(self) -> (vm: VM)
        requires
            self.ram@.len() == RAM_SIZE,
        ensures
            vm.wf(),
            vm.ram@ == self.ram@,
            forall|k: int| 0 <= k < GENERAL_REGISTERS_SIZE ==> vm.registers@[k] == 0u8,
            forall|k: int| 0 <= k < STACK_SIZE ==> vm.stack@[k] == 0u16,
            forall|k: int| 0 <= k < KEYPAD_SIZE ==> vm.keypad@[k] == 0u8,
            forall|k: int| 0 <= k < DISPLAY_PIXELS ==> vm.gfx@[k] == 0u8,
            vm.i == 0,
            vm.dt == 0,
            vm.st == 0,
            vm.pc == 0,
            vm.sp == 0,
            vm.display_bus is None,
            vm.clock is None,
    {
        VM {
            ram: self.ram,
            registers: zero_bytes(GENERAL_REGISTERS_SIZE),
            stack: zero_words(STACK_SIZE),
            keypad: zero_bytes(KEYPAD_SIZE),
            gfx: zero_bytes(DISPLAY_PIXELS),
            i: 0,
            dt: 0,
            st: 0,
            pc: 0,
            sp: 0,
            display_bus: None,
            clock: None,
        }
    }
}

} // verus!
