//! An earlier cut of the machine: 16-bit program counter and index
//! register, a zeroed boot state, and an engine that covers the clear,
//! return, jump, call and skip instructions without auto-advancing.

use vstd::prelude::*;
use crate::instructions::Instruction;
use crate::specs::{
    font_seq, sprites, DISPLAY_PIXELS, GENERAL_REGISTERS_SIZE, KEYPAD_SIZE, RAM_SIZE,
    SPRITES_ADDR, SPRITES_SIZE, STACK_SIZE,
};
use crate::vm::{zero_bytes, zero_words, Fault};

verus! {

/// The machine state: memory, registers, call stack, keypad counters,
/// display buffer and timers.
pub struct VM {
    /// Memory
    pub ram: Vec<u8>,
    /// V0 - VF registers
    pub registers: Vec<u8>,
    /// Stack for return addresses of subroutines
    pub stack: Vec<u16>,
    /// Keep track of any key pressed in the keypad
    pub keypad: Vec<u8>,
    /// Graphics "card"
    pub gfx: Vec<u8>,
    /// Store memory addresses
    pub i: u16,
    /// Delay Timer register
    pub dt: u8,
    /// Sound Timer register
    pub st: u8,
    /// Program Counter
    pub pc: u16,
    /// Stack Pointer
    pub sp: usize,
}

impl VM {
    /// Well-formedness: every buffer has its fixed size and the stack
    /// pointer stays within the stack.
    pub open spec fn wf(self) -> bool {
        &&& self.ram@.len() == RAM_SIZE
        &&& self.registers@.len() == GENERAL_REGISTERS_SIZE
        &&& self.stack@.len() == STACK_SIZE
        &&& self.keypad@.len() == KEYPAD_SIZE
        &&& self.gfx@.len() == DISPLAY_PIXELS
        &&& self.sp < STACK_SIZE
    }
}

/// The two machines hold exactly the same state.
pub open spec fn machine_eq(a: VM, b: VM) -> bool {
    &&& b.ram@ == a.ram@
    &&& b.registers@ == a.registers@
    &&& b.stack@ == a.stack@
    &&& b.keypad@ == a.keypad@
    &&& b.gfx@ == a.gfx@
    &&& b.i == a.i
    &&& b.dt == a.dt
    &&& b.st == a.st
    &&& b.pc == a.pc
    &&& b.sp == a.sp
}

/// Everything but the program counter is unchanged.
pub open spec fn machine_frame_pc(a: VM, b: VM) -> bool {
    &&& b.ram@ == a.ram@
    &&& b.registers@ == a.registers@
    &&& b.stack@ == a.stack@
    &&& b.keypad@ == a.keypad@
    &&& b.gfx@ == a.gfx@
    &&& b.i == a.i
    &&& b.dt == a.dt
    &&& b.st == a.st
    &&& b.sp == a.sp
}

/// Everything but the call stack, the stack pointer and the program counter
/// is unchanged.
pub open spec fn machine_frame_stack_sp_pc(a: VM, b: VM) -> bool {
    &&& b.ram@ == a.ram@
    &&& b.registers@ == a.registers@
    &&& b.keypad@ == a.keypad@
    &&& b.gfx@ == a.gfx@
    &&& b.i == a.i
    &&& b.dt == a.dt
    &&& b.st == a.st
}

/// The condition under which executing `ins` here is a fatal error, and
/// which fault it then raises.
pub open spec fn machine_exec_err(pre: VM, ins: Instruction) -> Option<Fault> {
    match ins {
        Instruction::Return => if pre.sp == 0 {
            Some(Fault::StackUnderflow)
        } else {
            None
        },
        Instruction::Call(_) => if pre.sp >= STACK_SIZE - 1 {
            Some(Fault::StackOverflow)
        } else {
            None
        },
        _ => None,
    }
}

/// How one successfully executed instruction relates the machine before it
/// to the machine after it. This engine leaves the program counter alone
/// except where the instruction itself moves it.
pub open spec fn machine_step_post(pre: VM, post: VM, ins: Instruction) -> bool {
    match ins {
        Instruction::Clear => {
            &&& post.gfx@.len() == DISPLAY_PIXELS
            &&& forall|k: int| 0 <= k < DISPLAY_PIXELS ==> post.gfx@[k] == 0u8
            &&& post.ram@ == pre.ram@
            &&& post.registers@ == pre.registers@
            &&& post.stack@ == pre.stack@
            &&& post.keypad@ == pre.keypad@
            &&& post.i == pre.i
            &&& post.dt == pre.dt
            &&& post.st == pre.st
            &&& post.pc == pre.pc
            &&& post.sp == pre.sp
        },
        Instruction::Return => {
            &&& post.pc == pre.stack@[pre.sp as int]
            &&& post.sp == pre.sp - 1
            &&& post.stack@ == pre.stack@
            &&& machine_frame_stack_sp_pc(pre, post)
        },
        Instruction::Jump(op) => machine_frame_pc(pre, post) && post.pc == op.address,
        Instruction::Call(op) => {
            &&& post.sp == pre.sp + 1
            &&& post.stack@ == pre.stack@.update(pre.sp + 1, pre.pc)
            &&& post.pc == op.address
            &&& machine_frame_stack_sp_pc(pre, post)
        },
        Instruction::SkipOnEqualByte(op) => machine_frame_pc(pre, post) && post.pc == pre.pc + (
        if pre.registers@[op.x as int] == op.data {
            2int
        } else {
            0int
        }),
        Instruction::SkipOnNotEqualByte(op) => machine_frame_pc(pre, post) && post.pc == pre.pc + (
        if pre.registers@[op.x as int] != op.data {
            2int
        } else {
            0int
        }),
        Instruction::SkipOnEqual(op) => machine_frame_pc(pre, post) && post.pc == pre.pc + (
        if pre.registers@[op.x as int] == pre.registers@[op.y as int] {
            2int
        } else {
            0int
        }),
        _ => machine_eq(pre, post),
    }
}

impl VM {
    /// Fill the VM with all the information it needs, like font sprites.
    pub fn boot(&mut self)
        requires
            old(self).wf(),
        ensures
            final(self).wf(),
            forall|k: int|
                0 <= k < SPRITES_SIZE ==> final(self).ram@[SPRITES_ADDR + k] == font_seq()[k],
            forall|k: int|
                SPRITES_ADDR + SPRITES_SIZE <= k < RAM_SIZE ==> final(self).ram@[k] == old(self).ram@[k],
            final(self).registers@ == old(self).registers@,
            final(self).stack@ == old(self).stack@,
            final(self).keypad@ == old(self).keypad@,
            final(self).gfx@ == old(self).gfx@,
            final(self).i == old(self).i,
            final(self).dt == old(self).dt,
            final(self).st == old(self).st,
            final(self).pc == old(self).pc,
            final(self).sp == old(self).sp,
    {
        let table = sprites();
        let mut addr: usize = SPRITES_ADDR;
        while addr < SPRITES_ADDR + SPRITES_SIZE
            invariant
                SPRITES_ADDR <= addr <= SPRITES_ADDR + SPRITES_SIZE,
                self.ram@.len() == RAM_SIZE,
                table@ == font_seq(),
                forall|k: int| SPRITES_ADDR <= k < addr ==> self.ram@[k] == font_seq()[k],
                forall|k: int| addr <= k < RAM_SIZE ==> self.ram@[k] == old(self).ram@[k],
                self.registers@ == old(self).registers@,
                self.stack@ == old(self).stack@,
                self.keypad@ == old(self).keypad@,
                self.gfx@ == old(self).gfx@,
                self.i == old(self).i,
                self.dt == old(self).dt,
                self.st == old(self).st,
                self.pc == old(self).pc,
                self.sp == old(self).sp,
            decreases SPRITES_ADDR + SPRITES_SIZE - addr,
        {
            let index = addr - SPRITES_ADDR;
            let byte = table[index];
            self.ram.set(addr, byte);
            addr = addr + 1;
        }
    }

    /// Applies one decoded instruction to the machine. Instructions this
    /// engine does not cover leave the state untouched.
    pub fn exec(&mut self, instruction: Instruction) -> (r: Result<(), Fault>)
        requires
            old(self).wf(),
            instruction.wf(),
            old(self).pc + 2 <= u16::MAX,
        ensures
            final(self).wf(),
            match machine_exec_err(*old(self), instruction) {
                Some(f) => r == Err::<(), Fault>(f) && machine_eq(*old(self), *final(self)),
                None => r == Ok::<(), Fault>(()) && machine_step_post(
                    *old(self),
                    *final(self),
                    instruction,
                ),
            },
    {
        match instruction {
            Instruction::Clear => {
                let mut k: usize = 0;
                while k < DISPLAY_PIXELS
                    invariant
                        0 <= k <= DISPLAY_PIXELS,
                        self.gfx@.len() == DISPLAY_PIXELS,
                        forall|j: int| 0 <= j < k ==> self.gfx@[j] == 0u8,
                        self.ram@ == old(self).ram@,
                        self.registers@ == old(self).registers@,
                        self.stack@ == old(self).stack@,
                        self.keypad@ == old(self).keypad@,
                        self.i == old(self).i,
                        self.dt == old(self).dt,
                        self.st == old(self).st,
                        self.pc == old(self).pc,
                        self.sp == old(self).sp,
                    decreases DISPLAY_PIXELS - k,
                {
                    self.gfx.set(k, 0);
                    k = k + 1;
                }
            },
            Instruction::Return => {
                if self.sp == 0 {
                    return Err(Fault::StackUnderflow);
                }
                self.pc = self.stack[self.sp];
                self.sp = self.sp - 1;
            },
            Instruction::Jump(opcode) => {
                self.pc = opcode.address;
            },
            Instruction::Call(opcode) => {
                if self.sp >= STACK_SIZE - 1 {
                    return Err(Fault::StackOverflow);
                }
                self.sp = self.sp + 1;
                let return_address = self.pc;
                self.stack.set(self.sp, return_address);
                self.pc = opcode.address;
            },
            Instruction::SkipOnEqualByte(opcode) => {
                let vx = self.registers[opcode.x as usize];
                if vx == opcode.data {
                    self.pc = self.pc + 2;
                }
            },
            Instruction::SkipOnNotEqualByte(opcode) => {
                let vx = self.registers[opcode.x as usize];
                if vx != opcode.data {
                    self.pc = self.pc + 2;
                }
            },
            Instruction::SkipOnEqual(opcode) => {
                let vx = self.registers[opcode.x as usize];
                let vy = self.registers[opcode.y as usize];
                if vx == vy {
                    self.pc = self.pc + 2;
                }
            },
            _ => {},
        }

        Ok(())
    }
}

impl Default for VM {
    /// An empty machine: all buffers zeroed and every register at 0.
    fn default() -> (vm: VM)
        ensures
            vm.wf(),
            forall|k: int| 0 <= k < RAM_SIZE ==> vm.ram@[k] == 0u8,
            forall|k: int| 0 <= k < GENERAL_REGISTERS_SIZE ==> vm.registers@[k] == 0u8,
            forall|k: int| 0 <= k < STACK_SIZE ==> vm.stack@[k] == 0u16,
            forall|k: int| 0 <= k < KEYPAD_SIZE ==> vm.keypad@[k] == 0u8,
            forall|k: int| 0 <= k < DISPLAY_PIXELS ==> vm.gfx@[k] == 0u8,
            vm.i == 0,
            vm.dt == 0,
            vm.st == 0,
            vm.pc == 0,
            vm.sp == 0,
    {
        VM {
            ram: zero_bytes(RAM_SIZE),
            registers: zero_bytes(GENERAL_REGISTERS_SIZE),
            stack: zero_words(STACK_SIZE),
            keypad: zero_bytes(KEYPAD_SIZE),
            gfx: zero_bytes(DISPLAY_PIXELS),
            i: 0,
            dt: 0,
            st: 0,
            pc: 0,
            sp: 0,
        }
    }
}

} // verus!
