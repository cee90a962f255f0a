//! The CHIP-8 machine state and its execution engine: registers, memory,
//! call stack, timers, keypad counters and display buffer, together with the
//! fetch-decode-execute cycle that mutates them.

use vstd::prelude::*;
use std::sync::mpsc::{Receiver, Sender};
use crate::display::Pixel;
use crate::instructions::{Instruction, Opcode};
use crate::keypad::Key;
use crate::specs::{
    font_seq, sprites, DISPLAY_PIXELS, GENERAL_REGISTERS_SIZE, KEYPAD_SIZE, PROGRAM_START,
    RAM_SIZE, SPRITES_ADDR, SPRITES_SIZE, SPRITE_HEIGHT, STACK_SIZE,
};
use crate::vm::runtime::{
    call_effect, carry_flag, clear_effect, diff_wrapped, draw_effect, first_pressed,
    no_borrow_flag, regs_flag_updated, regs_updated, ret_effect, sum_wrapped, Next,
};

pub mod bootstrap;
pub mod runtime;

verus! {

/// One signal of the timing source.
#[derive(Debug, Copy, Clone, PartialEq, Eq, Structural)]
pub struct Tick;

/// What one poll of the clock port yielded.
#[derive(Debug, Copy, Clone, PartialEq, Eq, Structural)]
pub enum TickPoll {
    /// A tick was waiting: one cycle may run.
    Tick,
    /// No tick was waiting.
    Empty,
    /// The timing source has disconnected.
    Stopped,
}

/// A fatal condition of the execution engine. Continuing after any of these
/// would corrupt program flow silently, so they are surfaced instead.
#[derive(Debug, Copy, Clone, PartialEq, Eq, Structural)]
pub enum Fault {
    /// `CALL` past the capacity of the call stack.
    StackOverflow,
    /// `RET` with the stack pointer at the bottom.
    StackUnderflow,
    /// An instruction derived a memory address outside the address space.
    MemoryOutOfBounds,
    /// A key-testing instruction named a key outside the keypad.
    KeyOutOfRange,
    /// The timing source has disconnected: time stopped advancing.
    ClockStopped,
}

/// The machine state: memory, registers, call stack, keypad counters,
/// display buffer, timers and the two boundary ports (display bus, clock).
pub struct VM {
    /// Memory
    pub ram: Vec<u8>,
    /// V0 - VF registers
    pub registers: Vec<u8>,
    /// Stack for return addresses of subroutines
    pub stack: Vec<u16>,
    /// Keep track of any key pressed in the keypad
    pub keypad: Vec<u8>,
    /// Graphics "card"
    pub gfx: Vec<u8>,
    /// Store memory addresses
    pub i: usize,
    /// Delay Timer register
    pub dt: u8,
    /// Sound Timer register
    pub st: u8,
    /// Program Counter
    pub pc: usize,
    /// Stack Pointer
    pub sp: usize,
    /// Bus for the display
    pub display_bus: Option<Sender<Vec<Pixel>>>,
    /// Clock notifications
    pub clock: Option<Receiver<Tick>>,
}

impl VM {
    /// Well-formedness: every buffer has its fixed size and the stack
    /// pointer stays within the stack.
    pub open spec fn wf(self) -> bool {
        &&& self.ram@.len() == RAM_SIZE
        &&& self.registers@.len() == GENERAL_REGISTERS_SIZE
        &&& self.stack@.len() == STACK_SIZE
        &&& self.keypad@.len() == KEYPAD_SIZE
        &&& self.gfx@.len() == DISPLAY_PIXELS
        &&& self.sp < STACK_SIZE
    }
}

/// The two machines hold exactly the same state.
pub open spec fn vm_eq(a: VM, b: VM) -> bool {
    &&& b.ram@ == a.ram@
    &&& b.registers@ == a.registers@
    &&& b.stack@ == a.stack@
    &&& b.keypad@ == a.keypad@
    &&& b.gfx@ == a.gfx@
    &&& b.i == a.i
    &&& b.dt == a.dt
    &&& b.st == a.st
    &&& b.pc == a.pc
    &&& b.sp == a.sp
    &&& b.display_bus == a.display_bus
    &&& b.clock == a.clock
}

/// Everything but the program counter is unchanged.
pub open spec fn frame_pc(a: VM, b: VM) -> bool {
    &&& b.ram@ == a.ram@
    &&& b.registers@ == a.registers@
    &&& b.stack@ == a.stack@
    &&& b.keypad@ == a.keypad@
    &&& b.gfx@ == a.gfx@
    &&& b.i == a.i
    &&& b.dt == a.dt
    &&& b.st == a.st
    &&& b.sp == a.sp
    &&& b.display_bus == a.display_bus
    &&& b.clock == a.clock
}

/// Everything but the register file and the program counter is unchanged.
pub open spec fn frame_regs_pc(a: VM, b: VM) -> bool {
    &&& b.ram@ == a.ram@
    &&& b.stack@ == a.stack@
    &&& b.keypad@ == a.keypad@
    &&& b.gfx@ == a.gfx@
    &&& b.i == a.i
    &&& b.dt == a.dt
    &&& b.st == a.st
    &&& b.sp == a.sp
    &&& b.display_bus == a.display_bus
    &&& b.clock == a.clock
}

/// Everything but the call stack, the stack pointer and the program counter
/// is unchanged.
pub open spec fn frame_stack_sp_pc(a: VM, b: VM) -> bool {
    &&& b.ram@ == a.ram@
    &&& b.registers@ == a.registers@
    &&& b.keypad@ == a.keypad@
    &&& b.gfx@ == a.gfx@
    &&& b.i == a.i
    &&& b.dt == a.dt
    &&& b.st == a.st
    &&& b.display_bus == a.display_bus
    &&& b.clock == a.clock
}

/// Everything but the display buffer, the register file and the program
/// counter is unchanged.
pub open spec fn frame_gfx_regs_pc(a: VM, b: VM) -> bool {
    &&& b.ram@ == a.ram@
    &&& b.stack@ == a.stack@
    &&& b.keypad@ == a.keypad@
    &&& b.i == a.i
    &&& b.dt == a.dt
    &&& b.st == a.st
    &&& b.sp == a.sp
    &&& b.display_bus == a.display_bus
    &&& b.clock == a.clock
}

/// Everything but the index register and the program counter is unchanged.
pub open spec fn frame_i_pc(a: VM, b: VM) -> bool {
    &&& b.ram@ == a.ram@
    &&& b.registers@ == a.registers@
    &&& b.stack@ == a.stack@
    &&& b.keypad@ == a.keypad@
    &&& b.gfx@ == a.gfx@
    &&& b.dt == a.dt
    &&& b.st == a.st
    &&& b.sp == a.sp
    &&& b.display_bus == a.display_bus
    &&& b.clock == a.clock
}

/// Everything but memory and the program counter is unchanged.
pub open spec fn frame_ram_pc(a: VM, b: VM) -> bool {
    &&& b.registers@ == a.registers@
    &&& b.stack@ == a.stack@
    &&& b.keypad@ == a.keypad@
    &&& b.gfx@ == a.gfx@
    &&& b.i == a.i
    &&& b.dt == a.dt
    &&& b.st == a.st
    &&& b.sp == a.sp
    &&& b.display_bus == a.display_bus
    &&& b.clock == a.clock
}

/// Everything but memory, the index register and the program counter is
/// unchanged.
pub open spec fn frame_ram_i_pc(a: VM, b: VM) -> bool {
    &&& b.registers@ == a.registers@
    &&& b.stack@ == a.stack@
    &&& b.keypad@ == a.keypad@
    &&& b.gfx@ == a.gfx@
    &&& b.dt == a.dt
    &&& b.st == a.st
    &&& b.sp == a.sp
    &&& b.display_bus == a.display_bus
    &&& b.clock == a.clock
}

/// Everything but the register file, the index register and the program
/// counter is unchanged.
pub open spec fn frame_regs_i_pc(a: VM, b: VM) -> bool {
    &&& b.ram@ == a.ram@
    &&& b.stack@ == a.stack@
    &&& b.keypad@ == a.keypad@
    &&& b.gfx@ == a.gfx@
    &&& b.dt == a.dt
    &&& b.st == a.st
    &&& b.sp == a.sp
    &&& b.display_bus == a.display_bus
    &&& b.clock == a.clock
}

/// Everything but the keypad counters and the program counter is unchanged.
pub open spec fn frame_keypad_pc(a: VM, b: VM) -> bool {
    &&& b.ram@ == a.ram@
    &&& b.registers@ == a.registers@
    &&& b.stack@ == a.stack@
    &&& b.gfx@ == a.gfx@
    &&& b.i == a.i
    &&& b.dt == a.dt
    &&& b.st == a.st
    &&& b.sp == a.sp
    &&& b.display_bus == a.display_bus
    &&& b.clock == a.clock
}

/// Everything but the keypad counters, the register file and the program
/// counter is unchanged.
pub open spec fn frame_keypad_regs_pc(a: VM, b: VM) -> bool {
    &&& b.ram@ == a.ram@
    &&& b.stack@ == a.stack@
    &&& b.gfx@ == a.gfx@
    &&& b.i == a.i
    &&& b.dt == a.dt
    &&& b.st == a.st
    &&& b.sp == a.sp
    &&& b.display_bus == a.display_bus
    &&& b.clock == a.clock
}

/// Everything but the delay timer and the program counter is unchanged.
pub open spec fn frame_dt_pc(a: VM, b: VM) -> bool {
    &&& b.ram@ == a.ram@
    &&& b.registers@ == a.registers@
    &&& b.stack@ == a.stack@
    &&& b.keypad@ == a.keypad@
    &&& b.gfx@ == a.gfx@
    &&& b.i == a.i
    &&& b.st == a.st
    &&& b.sp == a.sp
    &&& b.display_bus == a.display_bus
    &&& b.clock == a.clock
}

/// Everything but the sound timer and the program counter is unchanged.
pub open spec fn frame_st_pc(a: VM, b: VM) -> bool {
    &&& b.ram@ == a.ram@
    &&& b.registers@ == a.registers@
    &&& b.stack@ == a.stack@
    &&& b.keypad@ == a.keypad@
    &&& b.gfx@ == a.gfx@
    &&& b.i == a.i
    &&& b.dt == a.dt
    &&& b.sp == a.sp
    &&& b.display_bus == a.display_bus
    &&& b.clock == a.clock
}

pub(crate) fn zero_bytes(n: usize) -> (v: Vec<u8>)
    ensures
        v@.len() == n,
        forall|k: int| 0 <= k < n ==> v@[k] == 0u8,
{
    let mut v: Vec<u8> = Vec::new();
    for idx in 0..n
        invariant
            v@.len() == idx,
            forall|k: int| 0 <= k < idx ==> v@[k] == 0u8,
    {
        v.push(0);
    }
    v
}

pub(crate) fn zero_words(n: usize) -> (v: Vec<u16>)
    ensures
        v@.len() == n,
        forall|k: int| 0 <= k < n ==> v@[k] == 0u16,
{
    let mut v: Vec<u16> = Vec::new();
    for idx in 0..n
        invariant
            v@.len() == idx,
            forall|k: int| 0 <= k < idx ==> v@[k] == 0u16,
    {
        v.push(0);
    }
    v
}

impl VM {
    /// Boots an empty machine: all buffers zeroed, the program counter at
    /// the program start address, and no display bus or clock attached.
    pub fn boot() -> (vm: VM)
        ensures
            vm.wf(),
            forall|k: int| 0 <= k < RAM_SIZE ==> vm.ram@[k] == 0u8,
            forall|k: int| 0 <= k < GENERAL_REGISTERS_SIZE ==> vm.registers@[k] == 0u8,
            forall|k: int| 0 <= k < STACK_SIZE ==> vm.stack@[k] == 0u16,
            forall|k: int| 0 <= k < KEYPAD_SIZE ==> vm.keypad@[k] == 0u8,
            forall|k: int| 0 <= k < DISPLAY_PIXELS ==> vm.gfx@[k] == 0u8,
            vm.pc == PROGRAM_START,
            vm.i == 0,
            vm.sp == 0,
            vm.dt == 0,
            vm.st == 0,
            vm.display_bus is None,
            vm.clock is None,
    {
        VM {
            ram: zero_bytes(RAM_SIZE),
            registers: zero_bytes(GENERAL_REGISTERS_SIZE),
            stack: zero_words(STACK_SIZE),
            keypad: zero_bytes(KEYPAD_SIZE),
            gfx: zero_bytes(DISPLAY_PIXELS),
            pc: PROGRAM_START,
            i: 0,
            sp: 0,
            dt: 0,
            st: 0,
            display_bus: None,
            clock: None,
        }
    }

    /// Copies the font sprite table into the reserved low-memory region.
    pub fn load_sprites(&mut self)
        requires
            old(self).wf(),
        ensures
            final(self).wf(),
            forall|k: int|
                0 <= k < SPRITES_SIZE ==> final(self).ram@[SPRITES_ADDR + k] == font_seq()[k],
            forall|k: int|
                SPRITES_ADDR + SPRITES_SIZE <= k < RAM_SIZE ==> final(self).ram@[k] == old(self).ram@[k],
            frame_ram_pc(*old(self), *final(self)),
            final(self).pc == old(self).pc,
    {
        let table = sprites();
        let mut addr: usize = SPRITES_ADDR;
        while addr < SPRITES_ADDR + SPRITES_SIZE
            invariant
                SPRITES_ADDR <= addr <= SPRITES_ADDR + SPRITES_SIZE,
                self.ram@.len() == RAM_SIZE,
                table@ == font_seq(),
                forall|k: int| SPRITES_ADDR <= k < addr ==> self.ram@[k] == font_seq()[k],
                forall|k: int| addr <= k < RAM_SIZE ==> self.ram@[k] == old(self).ram@[k],
                frame_ram_pc(*old(self), *self),
                self.pc == old(self).pc,
                self.registers@.len() == old(self).registers@.len(),
                self.stack@.len() == old(self).stack@.len(),
                self.keypad@.len() == old(self).keypad@.len(),
                self.gfx@.len() == old(self).gfx@.len(),
                self.sp == old(self).sp,
            decreases SPRITES_ADDR + SPRITES_SIZE - addr,
        {
            let index = addr - SPRITES_ADDR;
            let byte = table[index];
            self.ram.set(addr, byte);
            addr = addr + 1;
        }
    }

    /// Copies a ROM image verbatim into memory starting at the program
    /// start address. The image must fit in the space above that address.
    pub fn load_rom(&mut self, rom: &Vec<u8>)
        requires
            old(self).wf(),
            rom@.len() <= RAM_SIZE - PROGRAM_START,
        ensures
            final(self).wf(),
            forall|k: int|
                0 <= k < rom@.len() ==> final(self).ram@[PROGRAM_START + k] == rom@[k],
            forall|k: int|
                (0 <= k < PROGRAM_START || PROGRAM_START + rom@.len() <= k < RAM_SIZE) ==> final(self).ram@[k] == old(self).ram@[k],
            frame_ram_pc(*old(self), *final(self)),
            final(self).pc == old(self).pc,
    {
        let mut addr: usize = PROGRAM_START;
        let mut offset: usize = 0;
        while offset < rom.len()
            invariant
                addr == PROGRAM_START + offset,
                0 <= offset <= rom@.len(),
                rom@.len() <= RAM_SIZE - PROGRAM_START,
                self.ram@.len() == RAM_SIZE,
                forall|k: int| 0 <= k < offset ==> self.ram@[PROGRAM_START + k] == rom@[k],
                forall|k: int|
                    (0 <= k < PROGRAM_START || PROGRAM_START + offset <= k < RAM_SIZE)
                        ==> self.ram@[k] == old(self).ram@[k],
                frame_ram_pc(*old(self), *self),
                self.pc == old(self).pc,
                self.registers@.len() == old(self).registers@.len(),
                self.stack@.len() == old(self).stack@.len(),
                self.keypad@.len() == old(self).keypad@.len(),
                self.gfx@.len() == old(self).gfx@.len(),
                self.sp == old(self).sp,
            decreases rom@.len() - offset,
        {
            let byte = rom[offset];
            self.ram.set(addr, byte);
            addr = addr + 1;
            offset = offset + 1;
        }
    }

    /// Attaches the bus on which the engine publishes display updates.
    pub fn set_display_bus(&mut self, bus: Sender<Vec<Pixel>>)
        ensures
            final(self).display_bus == Some(bus),
            final(self).ram@ == old(self).ram@,
            final(self).registers@ == old(self).registers@,
            final(self).stack@ == old(self).stack@,
            final(self).keypad@ == old(self).keypad@,
            final(self).gfx@ == old(self).gfx@,
            final(self).i == old(self).i,
            final(self).dt == old(self).dt,
            final(self).st == old(self).st,
            final(self).pc == old(self).pc,
            final(self).sp == old(self).sp,
            final(self).clock == old(self).clock,
    {
        self.display_bus = Some(bus);
    }

    /// Attaches the port on which the timing source delivers ticks.
    pub fn set_clock(&mut self, clock: Receiver<Tick>)
        ensures
            final(self).clock == Some(clock),
            final(self).ram@ == old(self).ram@,
            final(self).registers@ == old(self).registers@,
            final(self).stack@ == old(self).stack@,
            final(self).keypad@ == old(self).keypad@,
            final(self).gfx@ == old(self).gfx@,
            final(self).i == old(self).i,
            final(self).dt == old(self).dt,
            final(self).st == old(self).st,
            final(self).pc == old(self).pc,
            final(self).sp == old(self).sp,
            final(self).display_bus == old(self).display_bus,
    {
        self.clock = Some(clock);
    }

    /// Records one press of a key by incrementing its counter.
    pub fn set_key(&mut self, key: Key)
        requires
            old(self).wf(),
            old(self).keypad@[key.spec_as_usize() as int] < 255,
        ensures
            final(self).wf(),
            final(self).keypad@ == old(self).keypad@.update(
                key.spec_as_usize() as int,
                (old(self).keypad@[key.spec_as_usize() as int] + 1) as u8,
            ),
            frame_keypad_pc(*old(self), *final(self)),
            final(self).pc == old(self).pc,
    {
        let index = key.as_usize();
        let count = self.keypad[index];
        self.keypad.set(index, count + 1);
    }

    /// Moves the program counter to the next instruction. We move it by two
    /// because each instruction is two bytes.
    pub fn advance(&mut self)
        requires
            old(self).pc + 2 <= usize::MAX,
        ensures
            final(self).pc == old(self).pc + 2,
            frame_pc(*old(self), *final(self)),
            final(self).sp == old(self).sp,
    {
        self.pc = self.pc + 2;
    }

    /// Moves the program counter forward by the given number of
    /// instructions.
    pub fn advance_by(&mut self, times: u16)
        requires
            old(self).pc + 2 * (times as int) <= usize::MAX,
        ensures
            final(self).pc == old(self).pc + 2 * (times as int),
            frame_pc(*old(self), *final(self)),
            final(self).sp == old(self).sp,
    {
        let mut step: u16 = 0;
        while step < times
            invariant
                0 <= step <= times,
                self.pc == old(self).pc + 2 * (step as int),
                old(self).pc + 2 * (times as int) <= usize::MAX,
                frame_pc(*old(self), *self),
                self.sp == old(self).sp,
            decreases times - step,
        {
            self.advance();
            step = step + 1;
        }
    }
}

/// The machine after `b` is the machine `a` with each timer counted down
/// one step where it was nonzero, and nothing else changed.
pub open spec fn timers_decremented(a: VM, b: VM) -> bool {
    &&& b.dt == (if a.dt > 0 {
        (a.dt - 1) as u8
    } else {
        0u8
    })
    &&& b.st == (if a.st > 0 {
        (a.st - 1) as u8
    } else {
        0u8
    })
    &&& b.ram@ == a.ram@
    &&& b.registers@ == a.registers@
    &&& b.stack@ == a.stack@
    &&& b.keypad@ == a.keypad@
    &&& b.gfx@ == a.gfx@
    &&& b.i == a.i
    &&& b.pc == a.pc
    &&& b.sp == a.sp
    &&& b.display_bus == a.display_bus
    &&& b.clock == a.clock
}

/// The instruction word fetched from two consecutive memory bytes at
/// `addr`: high byte first.
pub open spec fn word_at(vm: VM, addr: int) -> u16 {
    ((vm.ram@[addr] as u16) << 8u16) | (vm.ram@[addr + 1] as u16)
}

/// The condition under which executing `ins` is a fatal error, and which
/// fault it then raises. Executing on such a state reports the fault and
/// leaves the machine untouched.
pub open spec fn exec_err(pre: VM, ins: Instruction) -> Option<Fault> {
    match ins {
        Instruction::Return => if pre.sp == 0 {
            Some(Fault::StackUnderflow)
        } else {
            None
        },
        Instruction::Call(_) => if pre.sp >= STACK_SIZE - 1 {
            Some(Fault::StackOverflow)
        } else {
            None
        },
        Instruction::Draw(op) => if pre.i + op.nibble > RAM_SIZE {
            Some(Fault::MemoryOutOfBounds)
        } else {
            None
        },
        Instruction::SkipOnKeyPressed(op) => if pre.registers@[op.x as int] >= 16 {
            Some(Fault::KeyOutOfRange)
        } else {
            None
        },
        Instruction::SkipOnKeyNotPressed(op) => if pre.registers@[op.x as int] >= 16 {
            Some(Fault::KeyOutOfRange)
        } else {
            None
        },
        Instruction::AddI(op) => if pre.i + pre.registers@[op.x as int] > usize::MAX {
            Some(Fault::MemoryOutOfBounds)
        } else {
            None
        },
        Instruction::Bcd(_) => if pre.i + 2 >= RAM_SIZE {
            Some(Fault::MemoryOutOfBounds)
        } else {
            None
        },
        Instruction::Store(op) => if pre.i + op.x >= RAM_SIZE {
            Some(Fault::MemoryOutOfBounds)
        } else {
            None
        },
        Instruction::Read(op) => if pre.i + op.x >= RAM_SIZE {
            Some(Fault::MemoryOutOfBounds)
        } else {
            None
        },
        _ => None,
    }
}

/// How one successfully executed instruction relates the machine before it
/// to the machine after it: the instruction's own effect, together with the
/// program-counter behavior it decides (advance, skip, jump or stall).
pub open spec fn step_post(pre: VM, post: VM, ins: Instruction) -> bool {
    match ins {
        Instruction::Clear => clear_effect(pre, post) && post.pc == pre.pc + 2,
        Instruction::Return => ret_effect(pre, post) && post.pc == pre.stack@[pre.sp as int] + 2,
        Instruction::Jump(op) => frame_pc(pre, post) && post.pc == op.address,
        Instruction::Call(op) => call_effect(pre, post) && post.pc == op.address,
        Instruction::SkipOnEqualByte(op) => frame_pc(pre, post) && post.pc == pre.pc + (
        if pre.registers@[op.x as int] == op.data {
            4int
        } else {
            2int
        }),
        Instruction::SkipOnNotEqualByte(op) => frame_pc(pre, post) && post.pc == pre.pc + (
        if pre.registers@[op.x as int] != op.data {
            4int
        } else {
            2int
        }),
        Instruction::SkipOnEqual(op) => frame_pc(pre, post) && post.pc == pre.pc + (
        if pre.registers@[op.x as int] == pre.registers@[op.y as int] {
            4int
        } else {
            2int
        }),
        Instruction::SkipOnNotEqual(op) => frame_pc(pre, post) && post.pc == pre.pc + (
        if pre.registers@[op.x as int] != pre.registers@[op.y as int] {
            4int
        } else {
            2int
        }),
        Instruction::SetByte(op) => regs_updated(pre, post, op.x as int, op.data) && post.pc
            == pre.pc + 2,
        Instruction::AddByte(op) => regs_updated(
            pre,
            post,
            op.x as int,
            sum_wrapped(pre.registers@[op.x as int], op.data),
        ) && post.pc == pre.pc + 2,
        Instruction::Assign(op) => regs_updated(
            pre,
            post,
            op.x as int,
            pre.registers@[op.y as int],
        ) && post.pc == pre.pc + 2,
        Instruction::Or(op) => regs_updated(
            pre,
            post,
            op.x as int,
            pre.registers@[op.x as int] | pre.registers@[op.y as int],
        ) && post.pc == pre.pc + 2,
        Instruction::And(op) => regs_updated(
            pre,
            post,
            op.x as int,
            pre.registers@[op.x as int] & pre.registers@[op.y as int],
        ) && post.pc == pre.pc + 2,
        Instruction::Xor(op) => regs_updated(
            pre,
            post,
            op.x as int,
            pre.registers@[op.x as int] ^ pre.registers@[op.y as int],
        ) && post.pc == pre.pc + 2,
        Instruction::Add(op) => regs_flag_updated(
            pre,
            post,
            op.x as int,
            carry_flag(pre.registers@[op.x as int], pre.registers@[op.y as int]),
            sum_wrapped(pre.registers@[op.x as int], pre.registers@[op.y as int]),
        ) && post.pc == pre.pc + 2,
        Instruction::SubXY(op) => regs_flag_updated(
            pre,
            post,
            op.x as int,
            no_borrow_flag(pre.registers@[op.x as int], pre.registers@[op.y as int]),
            diff_wrapped(pre.registers@[op.x as int], pre.registers@[op.y as int]),
        ) && post.pc == pre.pc + 2,
        Instruction::SubYX(op) => regs_flag_updated(
            pre,
            post,
            op.x as int,
            no_borrow_flag(pre.registers@[op.y as int], pre.registers@[op.x as int]),
            diff_wrapped(pre.registers@[op.y as int], pre.registers@[op.x as int]),
        ) && post.pc == pre.pc + 2,
        Instruction::ShiftRight(op) => regs_flag_updated(
            pre,
            post,
            op.x as int,
            pre.registers@[op.y as int] & 1,
            pre.registers@[op.y as int] >> 1u8,
        ) && post.pc == pre.pc + 2,
        Instruction::ShiftLeft(op) => regs_flag_updated(
            pre,
            post,
            op.x as int,
            (pre.registers@[op.y as int] >> 7u8) & 1,
            pre.registers@[op.y as int] << 1u8,
        ) && post.pc == pre.pc + 2,
        Instruction::SetI(op) => frame_i_pc(pre, post) && post.i == op.address && post.pc == pre.pc
            + 2,
        Instruction::JumpPlus(op) => frame_pc(pre, post) && post.pc == op.address
            + pre.registers@[0],
        Instruction::RandomMask(op) => (exists|b: u8|
            regs_updated(pre, post, op.x as int, b & op.data)) && post.pc == pre.pc + 2,
        Instruction::Draw(op) => draw_effect(pre, post, op) && post.pc == pre.pc + 2,
        Instruction::SkipOnKeyPressed(op) => {
            let key = pre.registers@[op.x as int] as int;
            if pre.keypad@[key] > 0 {
                &&& post.keypad@ == pre.keypad@.update(key, (pre.keypad@[key] - 1) as u8)
                &&& frame_keypad_pc(pre, post)
                &&& post.pc == pre.pc + 4
            } else {
                frame_pc(pre, post) && post.pc == pre.pc + 2
            }
        },
        Instruction::SkipOnKeyNotPressed(op) => {
            let key = pre.registers@[op.x as int] as int;
            if pre.keypad@[key] == 0 {
                frame_pc(pre, post) && post.pc == pre.pc + 4
            } else {
                &&& post.keypad@ == pre.keypad@.update(key, (pre.keypad@[key] - 1) as u8)
                &&& frame_keypad_pc(pre, post)
                &&& post.pc == pre.pc + 2
            }
        },
        Instruction::StoreDelayTimer(op) => regs_updated(pre, post, op.x as int, pre.dt) && post.pc
            == pre.pc + 2,
        Instruction::WaitKey(op) => match first_pressed(pre.keypad@, 0) {
            Some(m) => {
                &&& post.registers@ == pre.registers@.update(op.x as int, m as u8)
                &&& post.keypad@ == pre.keypad@.update(m, (pre.keypad@[m] - 1) as u8)
                &&& frame_keypad_regs_pc(pre, post)
                &&& post.pc == pre.pc + 2
            },
            None => vm_eq(pre, post),
        },
        Instruction::SetDelayTimer(op) => frame_dt_pc(pre, post) && post.dt == pre.registers@[
            op.x as int
        ] && post.pc == pre.pc + 2,
        Instruction::SetSoundTimer(op) => frame_st_pc(pre, post) && post.st == pre.registers@[
            op.x as int
        ] && post.pc == pre.pc + 2,
        Instruction::AddI(op) => frame_i_pc(pre, post) && post.i == pre.i + pre.registers@[
            op.x as int
        ] && post.pc == pre.pc + 2,
        Instruction::SetSprite(op) => frame_i_pc(pre, post) && post.i == SPRITES_ADDR
            + pre.registers@[op.x as int] * SPRITE_HEIGHT && post.pc == pre.pc + 2,
        Instruction::Bcd(op) => {
            let vx = pre.registers@[op.x as int];
            &&& post.ram@ == pre.ram@.update(
                pre.i as int,
                runtime::bcd_hundreds(vx),
            ).update(pre.i + 1, runtime::bcd_tens(vx)).update(pre.i + 2, runtime::bcd_units(vx))
            &&& frame_ram_pc(pre, post)
            &&& post.pc == pre.pc + 2
        },
        Instruction::Store(op) => {
            &&& post.ram@.len() == RAM_SIZE
            &&& forall|v: int| 0 <= v <= op.x ==> post.ram@[pre.i + v] == pre.registers@[v]
            &&& forall|k: int|
                (0 <= k < pre.i || pre.i + op.x < k < RAM_SIZE) ==> post.ram@[k] == pre.ram@[k]
            &&& post.i == pre.i + op.x + 1
            &&& frame_ram_i_pc(pre, post)
            &&& post.pc == pre.pc + 2
        },
        Instruction::Read(op) => {
            &&& post.registers@.len() == pre.registers@.len()
            &&& forall|v: int| 0 <= v <= op.x ==> post.registers@[v] == pre.ram@[pre.i + v]
            &&& forall|v: int| op.x < v < 16 ==> post.registers@[v] == pre.registers@[v]
            &&& post.i == pre.i + op.x + 1
            &&& frame_regs_i_pc(pre, post)
            &&& post.pc == pre.pc + 2
        },
    }
}

/// One observed tick's worth of work: the word at the program counter was
/// fetched and either executed (if it decodes) or skipped (if it does not),
/// and then both timers were counted down where nonzero.
pub open spec fn cycle_step(pre: VM, post: VM) -> bool {
    &&& pre.pc + 1 < RAM_SIZE
    &&& match Instruction::spec_decode(word_at(pre, pre.pc as int)) {
        Some(ins) => exec_err(pre, ins) is None && exists|mid: VM|
            #[trigger] step_post(pre, mid, ins) && timers_decremented(mid, post),
        None => exists|mid: VM|
            #[trigger] frame_pc(pre, mid) && mid.pc == pre.pc + 2 && timers_decremented(mid, post),
    }
}

/// Relies on std::sync::mpsc::Receiver::try_recv: a non-blocking poll that
/// either yields a waiting message, or reports that none is waiting, or
/// that every sender is gone. Only that three-way outcome is assumed; which
/// one comes back is not.
#[verifier::external_body]
fn poll_tick(clock: &Receiver<Tick>) -> TickPoll {
    match clock.try_recv() {
        Ok(_) => TickPoll::Tick,
        Err(std::sync::mpsc::TryRecvError::Empty) => TickPoll::Empty,
        Err(std::sync::mpsc::TryRecvError::Disconnected) => TickPoll::Stopped,
    }
}

impl VM {
    /// Applies one decoded instruction to the machine. On success the state
    /// moves by `step_post`; on a fatal condition the matching fault comes
    /// back and the machine is untouched.
    pub fn exec(&mut self, instruction: Instruction) -> (r: Result<(), Fault>)
        requires
            old(self).wf(),
            instruction.wf(),
            old(self).pc + 4 <= usize::MAX,
        ensures
            final(self).wf(),
            match exec_err(*old(self), instruction) {
                Some(f) => r == Err::<(), Fault>(f) && vm_eq(*old(self), *final(self)),
                None => r == Ok::<(), Fault>(()) && step_post(*old(self), *final(self), instruction),
            },
    {
        let ghost pre = *old(self);
        let next: Next = match instruction {
            Instruction::Clear => runtime::clear(self),
            Instruction::Return => runtime::ret(self)?,
            Instruction::Jump(opcode) => runtime::jump(self, opcode),
            Instruction::Call(opcode) => runtime::call(self, opcode)?,
            Instruction::SkipOnEqualByte(opcode) => runtime::skip_on_equal_byte(self, opcode),
            Instruction::SkipOnNotEqualByte(opcode) => runtime::skip_on_not_equal_byte(
                self,
                opcode,
            ),
            Instruction::SkipOnEqual(opcode) => runtime::skip_on_equal(self, opcode),
            Instruction::SkipOnNotEqual(opcode) => runtime::skip_on_not_equal(self, opcode),
            Instruction::SetByte(opcode) => runtime::set_byte(self, opcode),
            Instruction::AddByte(opcode) => runtime::add_byte(self, opcode),
            Instruction::Assign(opcode) => runtime::set(self, opcode),
            Instruction::Or(opcode) => runtime::or(self, opcode),
            Instruction::And(opcode) => runtime::and(self, opcode),
            Instruction::Xor(opcode) => runtime::xor(self, opcode),
            Instruction::Add(opcode) => runtime::add(self, opcode),
            Instruction::SubXY(opcode) => runtime::sub_x_y(self, opcode),
            Instruction::SubYX(opcode) => runtime::sub_y_x(self, opcode),
            Instruction::ShiftRight(opcode) => runtime::shift_right(self, opcode),
            Instruction::ShiftLeft(opcode) => runtime::shift_left(self, opcode),
            Instruction::SetI(opcode) => runtime::set_i(self, opcode),
            Instruction::JumpPlus(opcode) => runtime::jump_plus(self, opcode),
            Instruction::RandomMask(opcode) => runtime::random_mask(self, opcode),
            Instruction::Draw(opcode) => runtime::draw(self, opcode)?,
            Instruction::SkipOnKeyPressed(opcode) => runtime::skip_on_key_pressed(self, opcode)?,
            Instruction::SkipOnKeyNotPressed(opcode) => runtime::skip_on_key_not_pressed(
                self,
                opcode,
            )?,
            Instruction::StoreDelayTimer(opcode) => runtime::store_delay_timer(self, opcode),
            Instruction::WaitKey(opcode) => runtime::wait_key(self, opcode),
            Instruction::SetDelayTimer(opcode) => runtime::set_delay_timer(self, opcode),
            Instruction::SetSoundTimer(opcode) => runtime::set_sound_timer(self, opcode),
            Instruction::AddI(opcode) => runtime::add_i(self, opcode)?,
            Instruction::SetSprite(opcode) => runtime::set_sprite(self, opcode),
            Instruction::Bcd(opcode) => runtime::bcd(self, opcode)?,
            Instruction::Store(opcode) => runtime::store(self, opcode)?,
            Instruction::Read(opcode) => runtime::read(self, opcode)?,
        };

        let ghost mid = *self;
        match next {
            Next::Advance(times) => self.advance_by(times),
            Next::Noop => {},
        }
        proof {
            if let Instruction::RandomMask(op) = instruction {
                let b = choose|b: u8| regs_updated(pre, mid, op.x as int, b & op.data);
                assert(regs_updated(pre, *self, op.x as int, b & op.data));
            }
        }

        Ok(())
    }

    /// Polls the clock; when a tick is waiting, runs one
    /// fetch-decode-execute cycle and counts both timers down. A word that
    /// does not decode is skipped. A disconnected clock, a program counter
    /// outside memory, and every fault of the executed instruction are
    /// fatal. With no clock attached there is nothing to poll: the call
    /// succeeds and the machine stays as it was.
    pub fn cycle(&mut self) -> (r: Result<(), Fault>)
        requires
            old(self).wf(),
        ensures
            final(self).wf(),
            old(self).clock is None ==> r == Ok::<(), Fault>(()) && vm_eq(
                *old(self),
                *final(self),
            ),
            match r {
                Ok(_) => vm_eq(*old(self), *final(self)) || cycle_step(*old(self), *final(self)),
                Err(f) => vm_eq(*old(self), *final(self)) && (f == Fault::ClockStopped || (old(
                    self,
                ).pc + 1 >= RAM_SIZE && f == Fault::MemoryOutOfBounds) || (old(self).pc + 1
                    < RAM_SIZE && (match Instruction::spec_decode(
                    word_at(*old(self), old(self).pc as int),
                ) {
                    Some(ins) => exec_err(*old(self), ins) == Some(f),
                    None => false,
                }))),
            },
    {
        let ghost pre = *old(self);

        let ticked = match &self.clock {
            None => false,
            Some(clk) => match poll_tick(clk) {
                TickPoll::Tick => true,
                TickPoll::Empty => false,
                TickPoll::Stopped => return Err(Fault::ClockStopped),
            },
        };
        if !ticked {
            return Ok(());
        }
        if self.pc >= RAM_SIZE - 1 {
            return Err(Fault::MemoryOutOfBounds);
        }

        let mut bytes = self.ram[self.pc] as u16;
        bytes = bytes << 8;
        bytes = bytes | (self.ram[self.pc + 1] as u16);

        proof {
            assert(bytes == word_at(pre, pre.pc as int));
            crate::instructions::lemma_decode_totality(bytes);
        }

        match Instruction::decode(bytes) {
            Some(ins) => {
                self.exec(ins)?;
            },
            None => {
                self.advance();
            },
        }

        let ghost mid = *self;

        // Decrement the timers
        if self.dt > 0 {
            self.dt = self.dt - 1;
        }
        if self.st > 0 {
            self.st = self.st - 1;
        }

        proof {
            match Instruction::spec_decode(bytes) {
                Some(ins) => {
                    assert(step_post(pre, mid, ins));
                    assert(timers_decremented(mid, *self));
                },
                None => {
                    assert(frame_pc(pre, mid) && mid.pc == pre.pc + 2);
                    assert(timers_decremented(mid, *self));
                },
            }
        }

        Ok(())
    }
}

/// Whether the instruction decides the next program counter itself, by
/// jumping or by returning, rather than advancing past itself.
pub open spec fn is_jump(ins: Instruction) -> bool {
    ||| ins is Jump
    ||| ins is JumpPlus
    ||| ins is Call
    ||| ins is Return
}

/// Whether the instruction may skip the instruction after it.
pub open spec fn is_skip(ins: Instruction) -> bool {
    ||| ins is SkipOnEqualByte
    ||| ins is SkipOnNotEqualByte
    ||| ins is SkipOnEqual
    ||| ins is SkipOnNotEqual
    ||| ins is SkipOnKeyPressed
    ||| ins is SkipOnKeyNotPressed
}

/// Whether a skip instruction's condition holds on the given state.
pub open spec fn skip_taken(pre: VM, ins: Instruction) -> bool {
    match ins {
        Instruction::SkipOnEqualByte(op) => pre.registers@[op.x as int] == op.data,
        Instruction::SkipOnNotEqualByte(op) => pre.registers@[op.x as int] != op.data,
        Instruction::SkipOnEqual(op) => pre.registers@[op.x as int] == pre.registers@[op.y as int],
        Instruction::SkipOnNotEqual(op) => pre.registers@[op.x as int] != pre.registers@[
            op.y as int
        ],
        Instruction::SkipOnKeyPressed(op) => pre.keypad@[pre.registers@[op.x as int] as int] > 0,
        Instruction::SkipOnKeyNotPressed(op) => pre.keypad@[pre.registers@[op.x as int] as int]
            == 0,
        _ => false,
    }
}

/// PC advance accounting: executing any instruction that neither jumps nor
/// skips nor waits for a key advances the program counter by exactly one
/// instruction, two address units.
pub proof fn lemma_pc_advance(pre: VM, post: VM, ins: Instruction)
    requires
        step_post(pre, post, ins),
        !is_jump(ins),
        !is_skip(ins),
        !(ins is WaitKey),
    ensures
        post.pc == pre.pc + 2,
{
}

/// PC advance accounting for skips: a skip instruction advances the
/// program counter by four address units when its condition holds and by
/// two otherwise.
pub proof fn lemma_pc_skip(pre: VM, post: VM, ins: Instruction)
    requires
        step_post(pre, post, ins),
        is_skip(ins),
    ensures
        post.pc == pre.pc + (if skip_taken(pre, ins) {
            4int
        } else {
            2int
        }),
{
}

/// Arithmetic flag correctness for `Add`: for any register values `a` and
/// `b`, the destination receives `(a + b) mod 256` and `VF` becomes 1 iff
/// the unsigned sum exceeds 255. Stated for destinations other than `VF`
/// itself, where the stored sum overwrites the flag.
pub proof fn lemma_add_flag(pre: VM, post: VM, op: Opcode)
    requires
        pre.wf(),
        op.wf(),
        op.x != 15,
        step_post(pre, post, Instruction::Add(op)),
    ensures
        post.registers@[op.x as int] == (pre.registers@[op.x as int] + pre.registers@[
            op.y as int
        ]) % 256,
        post.registers@[15] == 1 <==> pre.registers@[op.x as int] + pre.registers@[op.y as int]
            > 255,
{
}

/// Arithmetic flag correctness for `SubXY`: for any register values `a`
/// (minuend) and `b` (subtrahend), the destination receives the wrapped
/// difference and `VF` becomes 1 iff no borrow occurs, that is iff
/// `a >= b`. Stated for destinations other than `VF` itself.
pub proof fn lemma_sub_flag(pre: VM, post: VM, op: Opcode)
    requires
        pre.wf(),
        op.wf(),
        op.x != 15,
        step_post(pre, post, Instruction::SubXY(op)),
    ensures
        post.registers@[op.x as int] == (pre.registers@[op.x as int] - pre.registers@[op.y as int]
            + 256) % 256,
        post.registers@[15] == 1 <==> pre.registers@[op.x as int] >= pre.registers@[op.y as int],
{
}

/// Stack round-trip: a `CALL` followed immediately by a `RET` brings the
/// program counter to its pre-call value plus one instruction (the advance
/// applied after the return), and the stack pointer back to its pre-call
/// depth.
pub proof fn lemma_call_ret_round_trip(pre: VM, mid: VM, post: VM, op: Opcode)
    requires
        pre.wf(),
        pre.sp < STACK_SIZE - 1,
        pre.pc <= u16::MAX,
        step_post(pre, mid, Instruction::Call(op)),
        step_post(mid, post, Instruction::Return),
    ensures
        post.pc == pre.pc + 2,
        post.sp == pre.sp,
{
    assert(mid.stack@[mid.sp as int] == pre.pc as u16);
}

} // verus!
