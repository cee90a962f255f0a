//! Per-instruction semantics of the execution engine: each function applies
//! one instruction's effect to the machine state and reports how the
//! program counter should move afterwards.

use vstd::prelude::*;
use crate::display::{send_pixels, Pixel};
use crate::instructions::Opcode;
use crate::specs::{DISPLAY_HEIGHT, DISPLAY_PIXELS, DISPLAY_WIDTH, RAM_SIZE, SPRITES_ADDR,
    SPRITE_HEIGHT, STACK_SIZE};
use crate::vm::{
    frame_dt_pc, frame_gfx_regs_pc, frame_i_pc, frame_keypad_pc, frame_keypad_regs_pc, frame_pc,
    frame_ram_i_pc, frame_ram_pc, frame_regs_i_pc, frame_regs_pc, frame_stack_sp_pc, frame_st_pc,
    vm_eq, Fault, VM,
};

verus! {

/// What the engine does with the program counter after an instruction.
#[derive(Debug, Copy, Clone, PartialEq, Eq, Structural)]
pub enum Next {
    /// Advance by the given number of instructions.
    Advance(u16),
    /// Leave the program counter where it stands.
    Noop,
}

/// Relies on rand::random: draws a uniformly random byte from the
/// thread-local generator. Nothing is assumed of the value.
#[verifier::external_body]
fn random_byte() -> u8 {
    rand::random::<u8>()
}

/// The 8-bit sum of two register values, wrapped modulo 256.
pub open spec fn sum_wrapped(a: u8, b: u8) -> u8 {
    ((a + b) % 256) as u8
}

/// The carry flag of an 8-bit addition: 1 iff the unsigned sum exceeds 255.
pub open spec fn carry_flag(a: u8, b: u8) -> u8 {
    if a + b > 255 {
        1u8
    } else {
        0u8
    }
}

/// The 8-bit difference `a - b`, wrapped modulo 256.
pub open spec fn diff_wrapped(a: u8, b: u8) -> u8 {
    (((a - b) + 256) % 256) as u8
}

/// The no-borrow flag of an 8-bit subtraction `a - b`: 1 iff the minuend is
/// at least the subtrahend.
pub open spec fn no_borrow_flag(a: u8, b: u8) -> u8 {
    if a >= b {
        1u8
    } else {
        0u8
    }
}

/// The hundreds digit of a byte's decimal representation.
pub open spec fn bcd_hundreds(v: u8) -> u8 {
    ((v as int) / 100) as u8
}

/// The tens digit of a byte's decimal representation.
pub open spec fn bcd_tens(v: u8) -> u8 {
    (((v as int) / 10) % 10) as u8
}

/// The units digit of a byte's decimal representation.
pub open spec fn bcd_units(v: u8) -> u8 {
    ((v as int) % 10) as u8
}

/// The display was cleared: every pixel dark, everything else untouched.
pub open spec fn clear_effect(pre: VM, post: VM) -> bool {
    &&& post.gfx@.len() == DISPLAY_PIXELS
    &&& forall|k: int| 0 <= k < DISPLAY_PIXELS ==> post.gfx@[k] == 0u8
    &&& post.registers@ == pre.registers@
    &&& frame_gfx_regs_pc(pre, post)
}

/// A return address was popped: the stack pointer moves down one slot and
/// the stack contents stay.
pub open spec fn ret_effect(pre: VM, post: VM) -> bool {
    &&& post.sp == pre.sp - 1
    &&& post.stack@ == pre.stack@
    &&& frame_stack_sp_pc(pre, post)
}

/// The current program counter was pushed: the stack pointer moves up one
/// slot and that slot now holds the (16-bit) return address.
pub open spec fn call_effect(pre: VM, post: VM) -> bool {
    &&& post.sp == pre.sp + 1
    &&& post.stack@ == pre.stack@.update(pre.sp + 1, pre.pc as u16)
    &&& frame_stack_sp_pc(pre, post)
}

/// Register `x` now holds `val`; everything else but the program counter is
/// untouched.
pub open spec fn regs_updated(pre: VM, post: VM, x: int, val: u8) -> bool {
    &&& post.registers@ == pre.registers@.update(x, val)
    &&& frame_regs_pc(pre, post)
}

/// The flag register `VF` was set first, then register `x`; where `x` is
/// `VF` itself the result value wins.
pub open spec fn regs_flag_updated(pre: VM, post: VM, x: int, flag: u8, val: u8) -> bool {
    &&& post.registers@ == pre.registers@.update(0xF, flag).update(x, val)
    &&& frame_regs_pc(pre, post)
}

/// Clears the display buffer and publishes a batch that sets every pixel
/// dark. Whether the batch is delivered has no bearing on the machine.
pub fn clear(vm: &mut VM) -> (r: Next)
    requires
        old(vm).wf(),
    ensures
        final(vm).wf(),
        clear_effect(*old(vm), *final(vm)),
        final(vm).pc == old(vm).pc,
        r == Next::Advance(1),
{
    let mut k: usize = 0;
    while k < DISPLAY_PIXELS
        invariant
            0 <= k <= DISPLAY_PIXELS,
            vm.gfx@.len() == DISPLAY_PIXELS,
            forall|j: int| 0 <= j < k ==> vm.gfx@[j] == 0u8,
            vm.registers@ == old(vm).registers@,
            frame_gfx_regs_pc(*old(vm), *vm),
            vm.pc == old(vm).pc,
            vm.ram@ == old(vm).ram@,
            vm.stack@ == old(vm).stack@,
            vm.keypad@ == old(vm).keypad@,
            vm.sp == old(vm).sp,
        decreases DISPLAY_PIXELS - k,
    {
        vm.gfx.set(k, 0);
        k = k + 1;
    }

    match &vm.display_bus {
        Some(bus) => {
            let pixels = clear_batch();
            let _ = send_pixels(bus, pixels);
        },
        None => {},
    }

    Next::Advance(1)
}

/// The display batch a clear publishes: one record for every pixel of the
/// display, column by column, each newly dark.
pub fn clear_batch() -> (v: Vec<Pixel>)
    ensures
        v@.len() == DISPLAY_PIXELS,
        forall|k: int|
            0 <= k < DISPLAY_PIXELS ==> v@[k].x == k / (DISPLAY_HEIGHT as int) && v@[k].y == k % (
            DISPLAY_HEIGHT as int) && v@[k].value == 0u8,
{
    let mut pixels: Vec<Pixel> = Vec::new();
    let mut x: usize = 0;
    while x < DISPLAY_WIDTH
        invariant
            0 <= x <= DISPLAY_WIDTH,
            pixels@.len() == x * DISPLAY_HEIGHT,
            forall|k: int|
                0 <= k < pixels@.len() ==> pixels@[k].x == k / (DISPLAY_HEIGHT as int)
                    && pixels@[k].y == k % (DISPLAY_HEIGHT as int) && pixels@[k].value == 0u8,
        decreases DISPLAY_WIDTH - x,
    {
        let mut y: usize = 0;
        while y < DISPLAY_HEIGHT
            invariant
                0 <= x < DISPLAY_WIDTH,
                0 <= y <= DISPLAY_HEIGHT,
                pixels@.len() == x * DISPLAY_HEIGHT + y,
                forall|k: int|
                    0 <= k < pixels@.len() ==> pixels@[k].x == k / (DISPLAY_HEIGHT as int)
                        && pixels@[k].y == k % (DISPLAY_HEIGHT as int) && pixels@[k].value == 0u8,
            decreases DISPLAY_HEIGHT - y,
        {
            let pixel = Pixel::new(x as i32, y as i32, 0);
            pixels.push(pixel);
            proof {
                let k = pixels@.len() - 1;
                assert(k == x * 32 + y);
                assert(k / 32 == x && k % 32 == y) by (nonlinear_arith)
                    requires
                        k == x * 32 + y,
                        0 <= y < 32,
                        0 <= x,
                ;
            }
            y = y + 1;
        }
        x = x + 1;
    }
    pixels
}

/// Pops the return address into the program counter. Fails on an empty
/// stack, leaving the machine untouched.
pub fn ret(vm: &mut VM) -> (r: Result<Next, Fault>)
    requires
        old(vm).wf(),
    ensures
        final(vm).wf(),
        old(vm).sp == 0 ==> r == Err::<Next, Fault>(Fault::StackUnderflow) && vm_eq(
            *old(vm),
            *final(vm),
        ),
        old(vm).sp > 0 ==> r == Ok::<Next, Fault>(Next::Advance(1)) && ret_effect(
            *old(vm),
            *final(vm),
        ) && final(vm).pc == old(vm).stack@[old(vm).sp as int],
{
    if vm.sp == 0 {
        return Err(Fault::StackUnderflow);
    }
    vm.pc = vm.stack[vm.sp] as usize;
    vm.sp = vm.sp - 1;

    Ok(Next::Advance(1))
}

/// Sets the program counter to the opcode's address.
pub fn jump(vm: &mut VM, opcode: Opcode) -> (r: Next)
    ensures
        final(vm).pc == opcode.address as usize,
        frame_pc(*old(vm), *final(vm)),
        r == Next::Noop,
{
    vm.pc = opcode.address as usize;

    Next::Noop
}

/// Pushes the current program counter and jumps to the opcode's address.
/// Fails when the stack is full, leaving the machine untouched.
pub fn call(vm: &mut VM, opcode: Opcode) -> (r: Result<Next, Fault>)
    requires
        old(vm).wf(),
    ensures
        final(vm).wf(),
        old(vm).sp >= STACK_SIZE - 1 ==> r == Err::<Next, Fault>(Fault::StackOverflow) && vm_eq(
            *old(vm),
            *final(vm),
        ),
        old(vm).sp < STACK_SIZE - 1 ==> r == Ok::<Next, Fault>(Next::Noop) && call_effect(
            *old(vm),
            *final(vm),
        ) && final(vm).pc == opcode.address as usize,
{
    if vm.sp >= STACK_SIZE - 1 {
        return Err(Fault::StackOverflow);
    }
    vm.sp = vm.sp + 1;
    let return_address = #[verifier::truncate] (vm.pc as u16);
    vm.stack.set(vm.sp, return_address);
    vm.pc = opcode.address as usize;

    Ok(Next::Noop)
}

/// Skip the next instruction iff `Vx` equals the opcode's byte.
pub fn skip_on_equal_byte(vm: &mut VM, opcode: Opcode) -> (r: Next)
    requires
        old(vm).wf(),
        opcode.wf(),
    ensures
        final(vm).wf(),
        vm_eq(*old(vm), *final(vm)),
        r == (if old(vm).registers@[opcode.x as int] == opcode.data {
            Next::Advance(2)
        } else {
            Next::Advance(1)
        }),
{
    let vx = vm.registers[opcode.x as usize];
    if vx == opcode.data {
        Next::Advance(2)
    } else {
        Next::Advance(1)
    }
}

/// Skip the next instruction iff `Vx` differs from the opcode's byte.
pub fn skip_on_not_equal_byte(vm: &mut VM, opcode: Opcode) -> (r: Next)
    requires
        old(vm).wf(),
        opcode.wf(),
    ensures
        final(vm).wf(),
        vm_eq(*old(vm), *final(vm)),
        r == (if old(vm).registers@[opcode.x as int] != opcode.data {
            Next::Advance(2)
        } else {
            Next::Advance(1)
        }),
{
    let vx = vm.registers[opcode.x as usize];
    if vx != opcode.data {
        Next::Advance(2)
    } else {
        Next::Advance(1)
    }
}

/// Skip the next instruction iff `Vx` equals `Vy`.
pub fn skip_on_equal(vm: &mut VM, opcode: Opcode) -> (r: Next)
    requires
        old(vm).wf(),
        opcode.wf(),
    ensures
        final(vm).wf(),
        vm_eq(*old(vm), *final(vm)),
        r == (if old(vm).registers@[opcode.x as int] == old(vm).registers@[opcode.y as int] {
            Next::Advance(2)
        } else {
            Next::Advance(1)
        }),
{
    let vx = vm.registers[opcode.x as usize];
    let vy = vm.registers[opcode.y as usize];
    if vx == vy {
        Next::Advance(2)
    } else {
        Next::Advance(1)
    }
}

/// Skip the next instruction iff `Vx` differs from `Vy`.
pub fn skip_on_not_equal(vm: &mut VM, opcode: Opcode) -> (r: Next)
    requires
        old(vm).wf(),
        opcode.wf(),
    ensures
        final(vm).wf(),
        vm_eq(*old(vm), *final(vm)),
        r == (if old(vm).registers@[opcode.x as int] != old(vm).registers@[opcode.y as int] {
            Next::Advance(2)
        } else {
            Next::Advance(1)
        }),
{
    let vx = vm.registers[opcode.x as usize];
    let vy = vm.registers[opcode.y as usize];
    if vx != vy {
        Next::Advance(2)
    } else {
        Next::Advance(1)
    }
}

/// `Vx` is set to the opcode's byte.
pub fn set_byte(vm: &mut VM, opcode: Opcode) -> (r: Next)
    requires
        old(vm).wf(),
        opcode.wf(),
    ensures
        final(vm).wf(),
        regs_updated(*old(vm), *final(vm), opcode.x as int, opcode.data),
        final(vm).pc == old(vm).pc,
        r == Next::Advance(1),
{
    vm.registers.set(opcode.x as usize, opcode.data);

    Next::Advance(1)
}

/// `Vx` is increased by the opcode's byte, wrapping modulo 256; no flag is
/// touched.
pub fn add_byte(vm: &mut VM, opcode: Opcode) -> (r: Next)
    requires
        old(vm).wf(),
        opcode.wf(),
    ensures
        final(vm).wf(),
        regs_updated(
            *old(vm),
            *final(vm),
            opcode.x as int,
            sum_wrapped(old(vm).registers@[opcode.x as int], opcode.data),
        ),
        final(vm).pc == old(vm).pc,
        r == Next::Advance(1),
{
    let vx = vm.registers[opcode.x as usize];
    vm.registers.set(opcode.x as usize, vx.wrapping_add(opcode.data));

    Next::Advance(1)
}

/// `Vx` is set to `Vy`.
pub fn set(vm: &mut VM, opcode: Opcode) -> (r: Next)
    requires
        old(vm).wf(),
        opcode.wf(),
    ensures
        final(vm).wf(),
        regs_updated(
            *old(vm),
            *final(vm),
            opcode.x as int,
            old(vm).registers@[opcode.y as int],
        ),
        final(vm).pc == old(vm).pc,
        r == Next::Advance(1),
{
    let vy = vm.registers[opcode.y as usize];
    vm.registers.set(opcode.x as usize, vy);

    Next::Advance(1)
}

/// `Vx` is set to `Vx OR Vy`.
pub fn or(vm: &mut VM, opcode: Opcode) -> (r: Next)
    requires
        old(vm).wf(),
        opcode.wf(),
    ensures
        final(vm).wf(),
        regs_updated(
            *old(vm),
            *final(vm),
            opcode.x as int,
            old(vm).registers@[opcode.x as int] | old(vm).registers@[opcode.y as int],
        ),
        final(vm).pc == old(vm).pc,
        r == Next::Advance(1),
{
    let vy = vm.registers[opcode.y as usize];
    let vx = vm.registers[opcode.x as usize];

    vm.registers.set(opcode.x as usize, vx | vy);

    Next::Advance(1)
}

/// `Vx` is set to `Vx AND Vy`.
pub fn and(vm: &mut VM, opcode: Opcode) -> (r: Next)
    requires
        old(vm).wf(),
        opcode.wf(),
    ensures
        final(vm).wf(),
        regs_updated(
            *old(vm),
            *final(vm),
            opcode.x as int,
            old(vm).registers@[opcode.x as int] & old(vm).registers@[opcode.y as int],
        ),
        final(vm).pc == old(vm).pc,
        r == Next::Advance(1),
{
    let vy = vm.registers[opcode.y as usize];
    let vx = vm.registers[opcode.x as usize];

    vm.registers.set(opcode.x as usize, vx & vy);

    Next::Advance(1)
}

/// `Vx` is set to `Vx XOR Vy`.
pub fn xor(vm: &mut VM, opcode: Opcode) -> (r: Next)
    requires
        old(vm).wf(),
        opcode.wf(),
    ensures
        final(vm).wf(),
        regs_updated(
            *old(vm),
            *final(vm),
            opcode.x as int,
            old(vm).registers@[opcode.x as int] ^ old(vm).registers@[opcode.y as int],
        ),
        final(vm).pc == old(vm).pc,
        r == Next::Advance(1),
{
    let vy = vm.registers[opcode.y as usize];
    let vx = vm.registers[opcode.x as usize];

    vm.registers.set(opcode.x as usize, vx ^ vy);

    Next::Advance(1)
}

/// `Vx` is set to the wrapped 8-bit sum of `Vx` and `Vy`; `VF` is set to 1
/// iff the unsigned sum exceeds 255, and to 0 otherwise.
pub fn add(vm: &mut VM, opcode: Opcode) -> (r: Next)
    requires
        old(vm).wf(),
        opcode.wf(),
    ensures
        final(vm).wf(),
        regs_flag_updated(
            *old(vm),
            *final(vm),
            opcode.x as int,
            carry_flag(old(vm).registers@[opcode.x as int], old(vm).registers@[opcode.y as int]),
            sum_wrapped(old(vm).registers@[opcode.x as int], old(vm).registers@[opcode.y as int]),
        ),
        final(vm).pc == old(vm).pc,
        r == Next::Advance(1),
{
    let vy = vm.registers[opcode.y as usize] as u16;
    let vx = vm.registers[opcode.x as usize] as u16;
    let sum = vx + vy;

    if sum > 0xFF {
        vm.registers.set(0xF, 1);
    } else {
        vm.registers.set(0xF, 0);
    }

    vm.registers.set(opcode.x as usize, (sum % 256) as u8);

    Next::Advance(1)
}

/// `Vx` is set to the wrapped 8-bit difference `Vx - Vy`; `VF` is set to 1
/// iff no borrow occurs, that is iff `Vx >= Vy`.
pub fn sub_x_y(vm: &mut VM, opcode: Opcode) -> (r: Next)
    requires
        old(vm).wf(),
        opcode.wf(),
    ensures
        final(vm).wf(),
        regs_flag_updated(
            *old(vm),
            *final(vm),
            opcode.x as int,
            no_borrow_flag(
                old(vm).registers@[opcode.x as int],
                old(vm).registers@[opcode.y as int],
            ),
            diff_wrapped(old(vm).registers@[opcode.x as int], old(vm).registers@[opcode.y as int]),
        ),
        final(vm).pc == old(vm).pc,
        r == Next::Advance(1),
{
    let vy = vm.registers[opcode.y as usize];
    let vx = vm.registers[opcode.x as usize];

    if vx >= vy {
        vm.registers.set(0xF, 1);
    } else {
        vm.registers.set(0xF, 0);
    }

    vm.registers.set(opcode.x as usize, vx.wrapping_sub(vy));

    Next::Advance(1)
}

/// `Vx` is set to the wrapped 8-bit difference `Vy - Vx`; `VF` is set to 1
/// iff no borrow occurs, that is iff `Vy >= Vx`.
pub fn sub_y_x(vm: &mut VM, opcode: Opcode) -> (r: Next)
    requires
        old(vm).wf(),
        opcode.wf(),
    ensures
        final(vm).wf(),
        regs_flag_updated(
            *old(vm),
            *final(vm),
            opcode.x as int,
            no_borrow_flag(
                old(vm).registers@[opcode.y as int],
                old(vm).registers@[opcode.x as int],
            ),
            diff_wrapped(old(vm).registers@[opcode.y as int], old(vm).registers@[opcode.x as int]),
        ),
        final(vm).pc == old(vm).pc,
        r == Next::Advance(1),
{
    let vy = vm.registers[opcode.y as usize];
    let vx = vm.registers[opcode.x as usize];

    if vy >= vx {
        vm.registers.set(0xF, 1);
    } else {
        vm.registers.set(0xF, 0);
    }

    vm.registers.set(opcode.x as usize, vy.wrapping_sub(vx));

    Next::Advance(1)
}

/// `Vx` receives `Vy` shifted right one bit; `VF` receives the bit shifted
/// out, the low bit of `Vy`.
pub fn shift_right(vm: &mut VM, opcode: Opcode) -> (r: Next)
    requires
        old(vm).wf(),
        opcode.wf(),
    ensures
        final(vm).wf(),
        regs_flag_updated(
            *old(vm),
            *final(vm),
            opcode.x as int,
            old(vm).registers@[opcode.y as int] & 1,
            old(vm).registers@[opcode.y as int] >> 1u8,
        ),
        final(vm).pc == old(vm).pc,
        r == Next::Advance(1),
{
    let vy = vm.registers[opcode.y as usize];

    vm.registers.set(0xF, vy & 0x1);
    vm.registers.set(opcode.x as usize, vy >> 1);

    Next::Advance(1)
}

/// `Vx` receives `Vy` shifted left one bit; `VF` receives the bit shifted
/// out, the high bit of `Vy`.
pub fn shift_left(vm: &mut VM, opcode: Opcode) -> (r: Next)
    requires
        old(vm).wf(),
        opcode.wf(),
    ensures
        final(vm).wf(),
        regs_flag_updated(
            *old(vm),
            *final(vm),
            opcode.x as int,
            (old(vm).registers@[opcode.y as int] >> 7u8) & 1,
            old(vm).registers@[opcode.y as int] << 1u8,
        ),
        final(vm).pc == old(vm).pc,
        r == Next::Advance(1),
{
    let vy = vm.registers[opcode.y as usize];

    vm.registers.set(0xF, (vy >> 7) & 0x1);
    vm.registers.set(opcode.x as usize, vy << 1);

    Next::Advance(1)
}

/// The index register is set to the opcode's address.
pub fn set_i(vm: &mut VM, opcode: Opcode) -> (r: Next)
    ensures
        final(vm).i == opcode.address as usize,
        frame_i_pc(*old(vm), *final(vm)),
        final(vm).pc == old(vm).pc,
        r == Next::Advance(1),
{
    vm.i = opcode.address as usize;

    Next::Advance(1)
}

/// The program counter is set to the opcode's address plus `V0`.
pub fn jump_plus(vm: &mut VM, opcode: Opcode) -> (r: Next)
    requires
        old(vm).wf(),
        opcode.wf(),
    ensures
        final(vm).pc == opcode.address + old(vm).registers@[0],
        frame_pc(*old(vm), *final(vm)),
        r == Next::Noop,
{
    let v0 = vm.registers[0] as u16;

    vm.pc = (v0 + opcode.address) as usize;

    Next::Noop
}

/// `Vx` is set to a random byte masked with the opcode's byte. Every bit
/// outside the mask is 0; which masked value appears is not specified.
pub fn random_mask(vm: &mut VM, opcode: Opcode) -> (r: Next)
    requires
        old(vm).wf(),
        opcode.wf(),
    ensures
        final(vm).wf(),
        exists|b: u8|
            regs_updated(*old(vm), *final(vm), opcode.x as int, b & opcode.data),
        final(vm).pc == old(vm).pc,
        r == Next::Advance(1),
{
    let rnd: u8 = random_byte();

    vm.registers.set(opcode.x as usize, rnd & opcode.data);

    proof {
        assert(regs_updated(*old(vm), *vm, opcode.x as int, rnd & opcode.data));
    }

    Next::Advance(1)
}

/// `Vx` is set to the delay timer's value.
pub fn store_delay_timer(vm: &mut VM, opcode: Opcode) -> (r: Next)
    requires
        old(vm).wf(),
        opcode.wf(),
    ensures
        final(vm).wf(),
        regs_updated(*old(vm), *final(vm), opcode.x as int, old(vm).dt),
        final(vm).pc == old(vm).pc,
        r == Next::Advance(1),
{
    let dt = vm.dt;
    vm.registers.set(opcode.x as usize, dt);

    Next::Advance(1)
}

/// The delay timer is set to `Vx`.
pub fn set_delay_timer(vm: &mut VM, opcode: Opcode) -> (r: Next)
    requires
        old(vm).wf(),
        opcode.wf(),
    ensures
        final(vm).wf(),
        final(vm).dt == old(vm).registers@[opcode.x as int],
        frame_dt_pc(*old(vm), *final(vm)),
        final(vm).pc == old(vm).pc,
        r == Next::Advance(1),
{
    vm.dt = vm.registers[opcode.x as usize];

    Next::Advance(1)
}

/// The sound timer is set to `Vx`.
pub fn set_sound_timer(vm: &mut VM, opcode: Opcode) -> (r: Next)
    requires
        old(vm).wf(),
        opcode.wf(),
    ensures
        final(vm).wf(),
        final(vm).st == old(vm).registers@[opcode.x as int],
        frame_st_pc(*old(vm), *final(vm)),
        final(vm).pc == old(vm).pc,
        r == Next::Advance(1),
{
    vm.st = vm.registers[opcode.x as usize];

    Next::Advance(1)
}

/// The bit of a sprite row byte at column `sx`, counted from the left.
pub open spec fn sprite_px(byte: u8, sx: int) -> u8 {
    (byte >> ((7 - sx) as u8)) & 1
}

/// The display-buffer index that sprite cell `(sy, sx)` lands on when
/// drawing at `(x, y)`: both coordinates wrap around the display edges.
pub open spec fn target_index(x: int, y: int, sy: int, sx: int) -> int {
    ((y + sy) % (DISPLAY_HEIGHT as int)) * (DISPLAY_WIDTH as int) + ((x + sx) % (
    DISPLAY_WIDTH as int))
}

/// Sprite cell `(sy, sx)` comes strictly before the cell `(sy_lim, sx_lim)`
/// in drawing order (row by row, left to right).
pub open spec fn lex_before(sy: int, sx: int, sy_lim: int, sx_lim: int) -> bool {
    sy < sy_lim || (sy == sy_lim && sx < sx_lim)
}

/// Some sprite cell before `(sy_lim, sx_lim)` lands on display index `k`.
pub open spec fn touched_upto(x: int, y: int, sy_lim: int, sx_lim: int, k: int) -> bool {
    exists|sy: int, sx: int|
        0 <= sy && 0 <= sx < 8 && lex_before(sy, sx, sy_lim, sx_lim) && target_index(x, y, sy, sx)
            == k
}

/// Some sprite cell before `(sy_lim, sx_lim)` carries a lit bit over a
/// pixel that was lit, turning it dark: a collision.
pub open spec fn collision_upto(
    gfx0: Seq<u8>,
    ram: Seq<u8>,
    i: int,
    x: int,
    y: int,
    sy_lim: int,
    sx_lim: int,
) -> bool {
    exists|sy: int, sx: int|
        0 <= sy && 0 <= sx < 8 && lex_before(sy, sx, sy_lim, sx_lim) && sprite_px(ram[i + sy], sx)
            == 1 && gfx0[target_index(x, y, sy, sx)] == 1
}

/// Whether drawing sprite `op` turns any lit pixel dark.
pub open spec fn draw_collision(pre: VM, op: Opcode) -> bool {
    collision_upto(
        pre.gfx@,
        pre.ram@,
        pre.i as int,
        pre.registers@[op.x as int] as int,
        pre.registers@[op.y as int] as int,
        op.nibble as int,
        0,
    )
}

/// The sprite was XOR-drawn: every cell's bit toggled the pixel it lands
/// on, every other pixel kept its value, and `VF` now reports whether any
/// lit pixel went dark.
pub open spec fn draw_effect(pre: VM, post: VM, op: Opcode) -> bool {
    let x = pre.registers@[op.x as int] as int;
    let y = pre.registers@[op.y as int] as int;
    let i = pre.i as int;
    let n = op.nibble as int;
    &&& post.gfx@.len() == DISPLAY_PIXELS
    &&& forall|sy: int, sx: int|
        0 <= sy < n && 0 <= sx < 8 ==> post.gfx@[target_index(x, y, sy, sx)] == pre.gfx@[
            target_index(x, y, sy, sx)
        ] ^ sprite_px(pre.ram@[i + sy], sx)
    &&& forall|k: int|
        0 <= k < DISPLAY_PIXELS && !touched_upto(x, y, n, 0, k) ==> post.gfx@[k] == pre.gfx@[k]
    &&& post.registers@ == pre.registers@.update(
        0xF,
        if draw_collision(pre, op) {
            1u8
        } else {
            0u8
        },
    )
    &&& frame_gfx_regs_pc(pre, post)
}

/// Two quantities below `m` that agree modulo `m` after the same offset are
/// equal.
proof fn lemma_mod_offset_inj(base: int, a: int, b: int, m: int)
    requires
        m > 0,
        0 <= a < m,
        0 <= b < m,
        (base + a) % m == (base + b) % m,
    ensures
        a == b,
{
    vstd::arithmetic::div_mod::lemma_fundamental_div_mod(base + a, m);
    vstd::arithmetic::div_mod::lemma_fundamental_div_mod(base + b, m);
    let qa = (base + a) / m;
    let qb = (base + b) / m;
    assert(a - b == m * (qa - qb)) by (nonlinear_arith)
        requires
            base + a == m * qa + (base + a) % m,
            base + b == m * qb + (base + b) % m,
            (base + a) % m == (base + b) % m,
    ;
    assert(qa - qb == 0) by (nonlinear_arith)
        requires
            a - b == m * (qa - qb),
            -m < a - b < m,
            m > 0,
    ;
}

/// Distinct sprite cells land on distinct display indices: rows stay
/// distinct under wrapping because a sprite is lower than the display, and
/// columns because it is narrower.
proof fn lemma_target_injective(x: int, y: int, sy1: int, sx1: int, sy2: int, sx2: int)
    requires
        0 <= x,
        0 <= y,
        0 <= sy1 < 32,
        0 <= sx1 < 64,
        0 <= sy2 < 32,
        0 <= sx2 < 64,
        target_index(x, y, sy1, sx1) == target_index(x, y, sy2, sx2),
    ensures
        sy1 == sy2,
        sx1 == sx2,
{
    let r1 = (y + sy1) % 32;
    let c1 = (x + sx1) % 64;
    let r2 = (y + sy2) % 32;
    let c2 = (x + sx2) % 64;
    assert(0 <= r1 < 32 && 0 <= r2 < 32 && 0 <= c1 < 64 && 0 <= c2 < 64);
    assert(r1 * 64 + c1 == r2 * 64 + c2);
    assert(r1 == r2 && c1 == c2) by (nonlinear_arith)
        requires
            r1 * 64 + c1 == r2 * 64 + c2,
            0 <= r1 < 32,
            0 <= r2 < 32,
            0 <= c1 < 64,
            0 <= c2 < 64,
    ;
    lemma_mod_offset_inj(y, sy1, sy2, 32);
    lemma_mod_offset_inj(x, sx1, sx2, 64);
}

/// Interprets `nibble` rows of sprite data starting at `I` as an
/// 8-pixel-wide bitmap and XORs it into the display buffer at `(Vx, Vy)`,
/// wrapping at the edges; `VF` reports whether a lit pixel went dark. The
/// resulting pixel states of the footprint are published on the display
/// bus as the batch `draw_batch` describes. Fails where the sprite rows
/// leave memory, leaving the machine untouched.
pub fn draw(vm: &mut VM, opcode: Opcode) -> (r: Result<Next, Fault>)
    requires
        old(vm).wf(),
        opcode.wf(),
    ensures
        final(vm).wf(),
        final(vm).pc == old(vm).pc,
        old(vm).i + opcode.nibble > RAM_SIZE ==> r == Err::<Next, Fault>(Fault::MemoryOutOfBounds)
            && vm_eq(*old(vm), *final(vm)),
        old(vm).i + opcode.nibble <= RAM_SIZE ==> draw_effect(*old(vm), *final(vm), opcode) && r
            == Ok::<Next, Fault>(Next::Advance(1)),
{
    let n = opcode.nibble as usize;
    if vm.i > RAM_SIZE - n {
        return Err(Fault::MemoryOutOfBounds);
    }

    let x = vm.registers[opcode.x as usize] as usize;
    let y = vm.registers[opcode.y as usize] as usize;
    let i = vm.i;

    let ghost gfx0 = vm.gfx@;
    let ghost ram0 = vm.ram@;

    vm.registers.set(0xF, 0);

    let mut sy: usize = 0;
    while sy < n
        invariant
            0 <= sy <= n,
            n < 16,
            x < 256,
            y < 256,
            i + n <= RAM_SIZE,
            i == old(vm).i,
            x == old(vm).registers@[opcode.x as int],
            y == old(vm).registers@[opcode.y as int],
            gfx0 == old(vm).gfx@,
            ram0 == old(vm).ram@,
            old(vm).wf(),
            vm.wf(),
            vm.ram@ == ram0,
            frame_gfx_regs_pc(*old(vm), *vm),
            vm.pc == old(vm).pc,
            vm.gfx@.len() == DISPLAY_PIXELS,
            forall|a: int, b: int|
                0 <= a < sy && 0 <= b < 8 ==> vm.gfx@[target_index(x as int, y as int, a, b)]
                    == gfx0[target_index(x as int, y as int, a, b)] ^ sprite_px(ram0[i + a], b),
            forall|k: int|
                0 <= k < DISPLAY_PIXELS && !touched_upto(x as int, y as int, sy as int, 0, k)
                    ==> vm.gfx@[k] == gfx0[k],
            vm.registers@ == old(vm).registers@.update(
                0xF,
                if collision_upto(gfx0, ram0, i as int, x as int, y as int, sy as int, 0) {
                    1u8
                } else {
                    0u8
                },
            ),
        decreases n - sy,
    {
        let byte = vm.ram[i + sy];
        let dy = (y + sy) % DISPLAY_HEIGHT;
        let mut sx: usize = 0;
        while sx < 8
            invariant
                0 <= sx <= 8,
                0 <= sy < n,
                n < 16,
                x < 256,
                y < 256,
                i + n <= RAM_SIZE,
                i == old(vm).i,
                x == old(vm).registers@[opcode.x as int],
                y == old(vm).registers@[opcode.y as int],
                gfx0 == old(vm).gfx@,
                ram0 == old(vm).ram@,
                old(vm).wf(),
                vm.wf(),
                vm.ram@ == ram0,
                byte == ram0[i + sy],
                dy == ((y + sy) % 32),
                frame_gfx_regs_pc(*old(vm), *vm),
                vm.pc == old(vm).pc,
                vm.gfx@.len() == DISPLAY_PIXELS,
                forall|a: int, b: int|
                    0 <= a <= sy && 0 <= b < 8 && lex_before(a, b, sy as int, sx as int)
                        ==> vm.gfx@[target_index(x as int, y as int, a, b)] == gfx0[target_index(
                        x as int,
                        y as int,
                        a,
                        b,
                    )] ^ sprite_px(ram0[i + a], b),
                forall|k: int|
                    0 <= k < DISPLAY_PIXELS && !touched_upto(
                        x as int,
                        y as int,
                        sy as int,
                        sx as int,
                        k,
                    ) ==> vm.gfx@[k] == gfx0[k],
                vm.registers@ == old(vm).registers@.update(
                    0xF,
                    if collision_upto(
                        gfx0,
                        ram0,
                        i as int,
                        x as int,
                        y as int,
                        sy as int,
                        sx as int,
                    ) {
                        1u8
                    } else {
                        0u8
                    },
                ),
            decreases 8 - sx,
        {
            let shift: u8 = (7 - sx) as u8;
            let px = (byte >> shift) & 1;
            let dx = (x + sx) % DISPLAY_WIDTH;
            let idx = dy * DISPLAY_WIDTH + dx;
            proof {
                assert(idx == target_index(x as int, y as int, sy as int, sx as int));
                assert(idx < DISPLAY_PIXELS);
                assert(px == sprite_px(ram0[i + sy], sx as int));
                assert(!touched_upto(x as int, y as int, sy as int, sx as int, idx as int)) by {
                    if touched_upto(x as int, y as int, sy as int, sx as int, idx as int) {
                        let (a, b) = choose|a: int, b: int|
                            0 <= a && 0 <= b < 8 && lex_before(a, b, sy as int, sx as int)
                                && target_index(x as int, y as int, a, b) == idx;
                        lemma_target_injective(
                            x as int,
                            y as int,
                            a,
                            b,
                            sy as int,
                            sx as int,
                        );
                        assert(false);
                    }
                }
                assert(vm.gfx@[idx as int] == gfx0[idx as int]);
            }
            let current = vm.gfx[idx];
            let toggled = current ^ px;
            vm.gfx.set(idx, toggled);

            // Vf is 1 if there was a collision: a lit pixel went dark
            if toggled == 0 && px == 1 {
                vm.registers.set(0xF, 1);
                proof {
                    assert(current ^ 1 == 0 ==> current == 1) by (bit_vector);
                    assert(collision_upto(
                        gfx0,
                        ram0,
                        i as int,
                        x as int,
                        y as int,
                        sy as int,
                        sx as int + 1,
                    )) by {
                        assert(0 <= sy as int && 0 <= (sx as int) && (sx as int) < 8 && lex_before(
                            sy as int,
                            sx as int,
                            sy as int,
                            sx as int + 1,
                        ) && sprite_px(ram0[i + sy as int], sx as int) == 1 && gfx0[target_index(
                            x as int,
                            y as int,
                            sy as int,
                            sx as int,
                        )] == 1);
                    }
                }
            } else {
                proof {
                    assert(current ^ px != 0 && px == 1 ==> current != 1) by (bit_vector);
                    assert(px == 1 ==> gfx0[idx as int] != 1);
                    assert(collision_upto(
                        gfx0,
                        ram0,
                        i as int,
                        x as int,
                        y as int,
                        sy as int,
                        sx as int + 1,
                    ) == collision_upto(
                        gfx0,
                        ram0,
                        i as int,
                        x as int,
                        y as int,
                        sy as int,
                        sx as int,
                    )) by {
                        if collision_upto(
                            gfx0,
                            ram0,
                            i as int,
                            x as int,
                            y as int,
                            sy as int,
                            sx as int + 1,
                        ) {
                            let (a, b) = choose|a: int, b: int|
                                0 <= a && 0 <= b < 8 && lex_before(
                                    a,
                                    b,
                                    sy as int,
                                    sx as int + 1,
                                ) && sprite_px(ram0[i + a], b) == 1 && gfx0[target_index(
                                    x as int,
                                    y as int,
                                    a,
                                    b,
                                )] == 1;
                            if a == sy as int && b == sx as int {
                                assert(false);
                            } else {
                                assert(lex_before(a, b, sy as int, sx as int));
                                assert(collision_upto(
                                    gfx0,
                                    ram0,
                                    i as int,
                                    x as int,
                                    y as int,
                                    sy as int,
                                    sx as int,
                                ));
                            }
                        }
                        if collision_upto(
                            gfx0,
                            ram0,
                            i as int,
                            x as int,
                            y as int,
                            sy as int,
                            sx as int,
                        ) {
                            let (a, b) = choose|a: int, b: int|
                                0 <= a && 0 <= b < 8 && lex_before(a, b, sy as int, sx as int)
                                    && sprite_px(ram0[i + a], b) == 1 && gfx0[target_index(
                                    x as int,
                                    y as int,
                                    a,
                                    b,
                                )] == 1;
                            assert(lex_before(a, b, sy as int, sx as int + 1));
                            assert(collision_upto(
                                gfx0,
                                ram0,
                                i as int,
                                x as int,
                                y as int,
                                sy as int,
                                sx as int + 1,
                            ));
                        }
                    }
                }
            }

            proof {
                assert forall|k: int|
                    0 <= k < DISPLAY_PIXELS && !touched_upto(
                        x as int,
                        y as int,
                        sy as int,
                        sx as int + 1,
                        k,
                    ) implies vm.gfx@[k] == gfx0[k] by {
                    assert(!touched_upto(x as int, y as int, sy as int, sx as int, k)) by {
                        if touched_upto(x as int, y as int, sy as int, sx as int, k) {
                            let (a, b) = choose|a: int, b: int|
                                0 <= a && 0 <= b < 8 && lex_before(a, b, sy as int, sx as int)
                                    && target_index(x as int, y as int, a, b) == k;
                            assert(lex_before(a, b, sy as int, sx as int + 1));
                            assert(touched_upto(x as int, y as int, sy as int, sx as int + 1, k));
                        }
                    }
                    assert(k != idx) by {
                        if k == idx {
                            assert(lex_before(sy as int, sx as int, sy as int, sx as int + 1));
                            assert(touched_upto(x as int, y as int, sy as int, sx as int + 1, k));
                        }
                    }
                }
                assert forall|a: int, b: int|
                    0 <= a <= sy && 0 <= b < 8 && lex_before(a, b, sy as int, sx as int + 1)
                        implies vm.gfx@[target_index(x as int, y as int, a, b)] == gfx0[
                    target_index(x as int, y as int, a, b)] ^ sprite_px(ram0[i + a], b) by {
                    if a == sy as int && b == sx as int {
                        assert(vm.gfx@[idx as int] == gfx0[idx as int] ^ px);
                    } else {
                        assert(lex_before(a, b, sy as int, sx as int));
                        assert(target_index(x as int, y as int, a, b) != idx) by {
                            if target_index(x as int, y as int, a, b) == idx {
                                lemma_target_injective(
                                    x as int,
                                    y as int,
                                    a,
                                    b,
                                    sy as int,
                                    sx as int,
                                );
                            }
                        }
                    }
                }
            }

            sx = sx + 1;
        }
        proof {
            assert forall|a: int, b: int|
                0 <= a < sy as int + 1 && 0 <= b < 8 implies vm.gfx@[target_index(
                x as int,
                y as int,
                a,
                b,
            )] == gfx0[target_index(x as int, y as int, a, b)] ^ sprite_px(ram0[i + a], b) by {
                assert(lex_before(a, b, sy as int, 8));
            }
            assert forall|k: int|
                0 <= k < DISPLAY_PIXELS && !touched_upto(x as int, y as int, sy as int + 1, 0, k)
                    implies vm.gfx@[k] == gfx0[k] by {
                assert(!touched_upto(x as int, y as int, sy as int, 8, k)) by {
                    if touched_upto(x as int, y as int, sy as int, 8, k) {
                        let (a, b) = choose|a: int, b: int|
                            0 <= a && 0 <= b < 8 && lex_before(a, b, sy as int, 8)
                                && target_index(x as int, y as int, a, b) == k;
                        assert(lex_before(a, b, sy as int + 1, 0));
                        assert(touched_upto(x as int, y as int, sy as int + 1, 0, k));
                    }
                }
            }
            assert(collision_upto(gfx0, ram0, i as int, x as int, y as int, sy as int + 1, 0)
                == collision_upto(gfx0, ram0, i as int, x as int, y as int, sy as int, 8)) by {
                if collision_upto(gfx0, ram0, i as int, x as int, y as int, sy as int + 1, 0) {
                    let (a, b) = choose|a: int, b: int|
                        0 <= a && 0 <= b < 8 && lex_before(a, b, sy as int + 1, 0) && sprite_px(
                            ram0[i + a],
                            b,
                        ) == 1 && gfx0[target_index(x as int, y as int, a, b)] == 1;
                    assert(lex_before(a, b, sy as int, 8));
                    assert(collision_upto(gfx0, ram0, i as int, x as int, y as int, sy as int, 8));
                }
                if collision_upto(gfx0, ram0, i as int, x as int, y as int, sy as int, 8) {
                    let (a, b) = choose|a: int, b: int|
                        0 <= a && 0 <= b < 8 && lex_before(a, b, sy as int, 8) && sprite_px(
                            ram0[i + a],
                            b,
                        ) == 1 && gfx0[target_index(x as int, y as int, a, b)] == 1;
                    assert(lex_before(a, b, sy as int + 1, 0));
                    assert(collision_upto(
                        gfx0,
                        ram0,
                        i as int,
                        x as int,
                        y as int,
                        sy as int + 1,
                        0,
                    ));
                }
            }
        }
        sy = sy + 1;
    }

    match &vm.display_bus {
        Some(bus) => {
            let pixels = draw_batch(&vm.gfx, x, y, n);
            let _ = send_pixels(bus, pixels);
        },
        None => {},
    }

    Ok(Next::Advance(1))
}

/// The display batch a draw publishes: one record per cell of the sprite's
/// wrapped footprint, row by row and left to right, each carrying the
/// wrapped coordinates and the pixel's post-draw value.
pub fn draw_batch(gfx: &Vec<u8>, x: usize, y: usize, n: usize) -> (v: Vec<Pixel>)
    requires
        gfx@.len() == DISPLAY_PIXELS,
        x < 256,
        y < 256,
        n < 16,
    ensures
        v@.len() == n * 8,
        forall|m: int|
            0 <= m < n * 8 ==> v@[m].x == (x + (m % 8)) % (DISPLAY_WIDTH as int) && v@[m].y == (y
                + (m / 8)) % (DISPLAY_HEIGHT as int) && v@[m].value == gfx@[target_index(
                x as int,
                y as int,
                m / 8,
                m % 8,
            )],
{
    let mut pixels: Vec<Pixel> = Vec::new();
    let mut sy: usize = 0;
    while sy < n
        invariant
            0 <= sy <= n,
            n < 16,
            x < 256,
            y < 256,
            gfx@.len() == DISPLAY_PIXELS,
            pixels@.len() == sy * 8,
            forall|m: int|
                0 <= m < pixels@.len() ==> pixels@[m].x == (x + (m % 8)) % (DISPLAY_WIDTH as int)
                    && pixels@[m].y == (y + (m / 8)) % (DISPLAY_HEIGHT as int) && pixels@[m].value
                    == gfx@[target_index(x as int, y as int, m / 8, m % 8)],
        decreases n - sy,
    {
        let dy = (y + sy) % DISPLAY_HEIGHT;
        let mut sx: usize = 0;
        while sx < 8
            invariant
                0 <= sy < n,
                0 <= sx <= 8,
                n < 16,
                x < 256,
                y < 256,
                gfx@.len() == DISPLAY_PIXELS,
                dy == ((y + sy) % 32),
                pixels@.len() == sy * 8 + sx,
                forall|m: int|
                    0 <= m < pixels@.len() ==> pixels@[m].x == (x + (m % 8)) % (
                    DISPLAY_WIDTH as int) && pixels@[m].y == (y + (m / 8)) % (
                    DISPLAY_HEIGHT as int) && pixels@[m].value == gfx@[target_index(
                        x as int,
                        y as int,
                        m / 8,
                        m % 8,
                    )],
            decreases 8 - sx,
        {
            let dx = (x + sx) % DISPLAY_WIDTH;
            let idx = dy * DISPLAY_WIDTH + dx;
            proof {
                assert(idx == target_index(x as int, y as int, sy as int, sx as int));
                assert(idx < DISPLAY_PIXELS);
            }
            let value = gfx[idx];
            let pixel = Pixel::new(dx as i32, dy as i32, value);
            pixels.push(pixel);
            proof {
                let m = pixels@.len() - 1;
                assert(m == sy * 8 + sx);
                assert(m / 8 == sy && m % 8 == sx) by (nonlinear_arith)
                    requires
                        m == sy * 8 + sx,
                        0 <= sx < 8,
                        0 <= sy,
                ;
            }
            sx = sx + 1;
        }
        sy = sy + 1;
    }
    pixels
}

/// The index of the first keypad counter above zero, scanning upward from
/// `from`.
pub open spec fn first_pressed(keypad: Seq<u8>, from: int) -> Option<int>
    decreases 16 - from,
{
    if from < 0 || from >= 16 {
        None
    } else if keypad[from] > 0 {
        Some(from)
    } else {
        first_pressed(keypad, from + 1)
    }
}

/// Scans the keypad for a pressed key. If one is found, its index goes into
/// `Vx`, one press of it is consumed, and execution advances; otherwise the
/// machine stays exactly as it was, to retry on the next cycle.
pub fn wait_key(vm: &mut VM, opcode: Opcode) -> (r: Next)
    requires
        old(vm).wf(),
        opcode.wf(),
    ensures
        final(vm).wf(),
        final(vm).pc == old(vm).pc,
        match first_pressed(old(vm).keypad@, 0) {
            Some(m) => {
                &&& final(vm).registers@ == old(vm).registers@.update(opcode.x as int, m as u8)
                &&& final(vm).keypad@ == old(vm).keypad@.update(
                    m,
                    (old(vm).keypad@[m] - 1) as u8,
                )
                &&& frame_keypad_regs_pc(*old(vm), *final(vm))
                &&& r == Next::Advance(1)
            },
            None => vm_eq(*old(vm), *final(vm)) && r == Next::Noop,
        },
{
    let mut key: usize = 0;
    while key < 16
        invariant
            0 <= key <= 16,
            opcode.wf(),
            vm.wf(),
            vm_eq(*old(vm), *vm),
            forall|j: int| 0 <= j < key ==> vm.keypad@[j] == 0,
            first_pressed(old(vm).keypad@, 0) == first_pressed(old(vm).keypad@, key as int),
        decreases 16 - key,
    {
        let count = vm.keypad[key];
        if count > 0 {
            vm.registers.set(opcode.x as usize, key as u8);
            vm.keypad.set(key, count - 1);

            return Next::Advance(1);
        }
        key = key + 1;
    }

    Next::Noop
}

/// Skip the next instruction iff the key named by `Vx` is pressed; a
/// detected press is consumed. Fails when `Vx` names no key.
pub fn skip_on_key_pressed(vm: &mut VM, opcode: Opcode) -> (r: Result<Next, Fault>)
    requires
        old(vm).wf(),
        opcode.wf(),
    ensures
        final(vm).wf(),
        final(vm).pc == old(vm).pc,
        old(vm).registers@[opcode.x as int] >= 16 ==> r == Err::<Next, Fault>(Fault::KeyOutOfRange)
            && vm_eq(*old(vm), *final(vm)),
        old(vm).registers@[opcode.x as int] < 16 ==> {
            let key = old(vm).registers@[opcode.x as int] as int;
            if old(vm).keypad@[key] > 0 {
                &&& final(vm).keypad@ == old(vm).keypad@.update(
                    key,
                    (old(vm).keypad@[key] - 1) as u8,
                )
                &&& frame_keypad_pc(*old(vm), *final(vm))
                &&& r == Ok::<Next, Fault>(Next::Advance(2))
            } else {
                vm_eq(*old(vm), *final(vm)) && r == Ok::<Next, Fault>(Next::Advance(1))
            }
        },
{
    let key = vm.registers[opcode.x as usize] as usize;
    if key >= 16 {
        return Err(Fault::KeyOutOfRange);
    }

    let count = vm.keypad[key];
    if count > 0 {
        vm.keypad.set(key, count - 1);
        Ok(Next::Advance(2))
    } else {
        Ok(Next::Advance(1))
    }
}

/// Skip the next instruction iff the key named by `Vx` is not pressed; a
/// detected press is consumed even on this negative test. Fails when `Vx`
/// names no key.
pub fn skip_on_key_not_pressed(vm: &mut VM, opcode: Opcode) -> (r: Result<Next, Fault>)
    requires
        old(vm).wf(),
        opcode.wf(),
    ensures
        final(vm).wf(),
        final(vm).pc == old(vm).pc,
        old(vm).registers@[opcode.x as int] >= 16 ==> r == Err::<Next, Fault>(Fault::KeyOutOfRange)
            && vm_eq(*old(vm), *final(vm)),
        old(vm).registers@[opcode.x as int] < 16 ==> {
            let key = old(vm).registers@[opcode.x as int] as int;
            if old(vm).keypad@[key] == 0 {
                vm_eq(*old(vm), *final(vm)) && r == Ok::<Next, Fault>(Next::Advance(2))
            } else {
                &&& final(vm).keypad@ == old(vm).keypad@.update(
                    key,
                    (old(vm).keypad@[key] - 1) as u8,
                )
                &&& frame_keypad_pc(*old(vm), *final(vm))
                &&& r == Ok::<Next, Fault>(Next::Advance(1))
            }
        },
{
    let key = vm.registers[opcode.x as usize] as usize;
    if key >= 16 {
        return Err(Fault::KeyOutOfRange);
    }

    let count = vm.keypad[key];
    if count == 0 {
        Ok(Next::Advance(2))
    } else {
        vm.keypad.set(key, count - 1);
        Ok(Next::Advance(1))
    }
}

/// The index register is increased by `Vx`. Fails only where the sum would
/// not fit the register's machine width.
pub fn add_i(vm: &mut VM, opcode: Opcode) -> (r: Result<Next, Fault>)
    requires
        old(vm).wf(),
        opcode.wf(),
    ensures
        final(vm).wf(),
        final(vm).pc == old(vm).pc,
        old(vm).i + old(vm).registers@[opcode.x as int] > usize::MAX ==> r == Err::<Next, Fault>(
            Fault::MemoryOutOfBounds,
        ) && vm_eq(*old(vm), *final(vm)),
        old(vm).i + old(vm).registers@[opcode.x as int] <= usize::MAX ==> {
            &&& final(vm).i == old(vm).i + old(vm).registers@[opcode.x as int]
            &&& frame_i_pc(*old(vm), *final(vm))
            &&& r == Ok::<Next, Fault>(Next::Advance(1))
        },
{
    let vx = vm.registers[opcode.x as usize];
    match vm.i.checked_add(vx as usize) {
        Some(sum) => {
            vm.i = sum;
            Ok(Next::Advance(1))
        },
        None => Err(Fault::MemoryOutOfBounds),
    }
}

/// The index register is pointed at the built-in font sprite for the digit
/// in `Vx`.
pub fn set_sprite(vm: &mut VM, opcode: Opcode) -> (r: Next)
    requires
        old(vm).wf(),
        opcode.wf(),
    ensures
        final(vm).wf(),
        final(vm).i == SPRITES_ADDR + old(vm).registers@[opcode.x as int] * SPRITE_HEIGHT,
        frame_i_pc(*old(vm), *final(vm)),
        final(vm).pc == old(vm).pc,
        r == Next::Advance(1),
{
    let vx = vm.registers[opcode.x as usize] as usize;
    vm.i = SPRITES_ADDR + vx * SPRITE_HEIGHT;

    Next::Advance(1)
}

/// The decimal digits of `Vx` are stored at `I`, `I+1` and `I+2`: hundreds,
/// tens, units. Fails where those addresses leave memory, leaving the
/// machine untouched.
pub fn bcd(vm: &mut VM, opcode: Opcode) -> (r: Result<Next, Fault>)
    requires
        old(vm).wf(),
        opcode.wf(),
    ensures
        final(vm).wf(),
        final(vm).pc == old(vm).pc,
        old(vm).i + 2 >= RAM_SIZE ==> r == Err::<Next, Fault>(Fault::MemoryOutOfBounds) && vm_eq(
            *old(vm),
            *final(vm),
        ),
        old(vm).i + 2 < RAM_SIZE ==> {
            let vx = old(vm).registers@[opcode.x as int];
            &&& final(vm).ram@ == old(vm).ram@.update(old(vm).i as int, bcd_hundreds(vx)).update(
                old(vm).i + 1,
                bcd_tens(vx),
            ).update(old(vm).i + 2, bcd_units(vx))
            &&& frame_ram_pc(*old(vm), *final(vm))
            &&& r == Ok::<Next, Fault>(Next::Advance(1))
        },
{
    if vm.i >= RAM_SIZE - 2 {
        return Err(Fault::MemoryOutOfBounds);
    }

    let vx = vm.registers[opcode.x as usize];

    let hundreds = vx / 100;
    let tens = (vx / 10) % 10;
    let units = vx % 10;

    vm.ram.set(vm.i, hundreds);
    vm.ram.set(vm.i + 1, tens);
    vm.ram.set(vm.i + 2, units);

    Ok(Next::Advance(1))
}

/// Registers `V0` through `Vx` inclusive are copied into memory starting at
/// `I`; afterwards `I` advances past the copied block. Fails where the block
/// leaves memory, leaving the machine untouched.
pub fn store(vm: &mut VM, opcode: Opcode) -> (r: Result<Next, Fault>)
    requires
        old(vm).wf(),
        opcode.wf(),
    ensures
        final(vm).wf(),
        final(vm).pc == old(vm).pc,
        old(vm).i + opcode.x >= RAM_SIZE ==> r == Err::<Next, Fault>(Fault::MemoryOutOfBounds)
            && vm_eq(*old(vm), *final(vm)),
        old(vm).i + opcode.x < RAM_SIZE ==> {
            &&& final(vm).ram@.len() == RAM_SIZE
            &&& forall|v: int|
                0 <= v <= opcode.x ==> final(vm).ram@[old(vm).i + v] == old(vm).registers@[v]
            &&& forall|k: int|
                (0 <= k < old(vm).i || old(vm).i + opcode.x < k < RAM_SIZE) ==> final(vm).ram@[k]
                    == old(vm).ram@[k]
            &&& final(vm).i == old(vm).i + opcode.x + 1
            &&& frame_ram_i_pc(*old(vm), *final(vm))
            &&& r == Ok::<Next, Fault>(Next::Advance(1))
        },
{
    let x = opcode.x as usize;
    if vm.i > RAM_SIZE - 1 - x {
        return Err(Fault::MemoryOutOfBounds);
    }

    let mut v: usize = 0;
    while v <= x
        invariant
            0 <= v <= x + 1,
            x < 16,
            old(vm).i + x < RAM_SIZE,
            vm.i == old(vm).i,
            vm.wf(),
            vm.registers@ == old(vm).registers@,
            forall|j: int| 0 <= j < v ==> vm.ram@[old(vm).i + j] == old(vm).registers@[j],
            forall|k: int|
                (0 <= k < old(vm).i || old(vm).i + v <= k < RAM_SIZE) ==> vm.ram@[k] == old(vm).ram@[k],
            frame_ram_i_pc(*old(vm), *vm),
            vm.pc == old(vm).pc,
        decreases x + 1 - v,
    {
        let byte = vm.registers[v];
        vm.ram.set(vm.i + v, byte);
        v = v + 1;
    }

    vm.i = vm.i + x + 1;

    Ok(Next::Advance(1))
}

/// Registers `V0` through `Vx` inclusive are filled from memory starting at
/// `I`; afterwards `I` advances past the copied block. Fails where the block
/// leaves memory, leaving the machine untouched.
pub fn read(vm: &mut VM, opcode: Opcode) -> (r: Result<Next, Fault>)
    requires
        old(vm).wf(),
        opcode.wf(),
    ensures
        final(vm).wf(),
        final(vm).pc == old(vm).pc,
        old(vm).i + opcode.x >= RAM_SIZE ==> r == Err::<Next, Fault>(Fault::MemoryOutOfBounds)
            && vm_eq(*old(vm), *final(vm)),
        old(vm).i + opcode.x < RAM_SIZE ==> {
            &&& final(vm).registers@.len() == old(vm).registers@.len()
            &&& forall|v: int|
                0 <= v <= opcode.x ==> final(vm).registers@[v] == old(vm).ram@[old(vm).i + v]
            &&& forall|v: int|
                opcode.x < v < 16 ==> final(vm).registers@[v] == old(vm).registers@[v]
            &&& final(vm).i == old(vm).i + opcode.x + 1
            &&& frame_regs_i_pc(*old(vm), *final(vm))
            &&& r == Ok::<Next, Fault>(Next::Advance(1))
        },
{
    let x = opcode.x as usize;
    if vm.i > RAM_SIZE - 1 - x {
        return Err(Fault::MemoryOutOfBounds);
    }

    let mut v: usize = 0;
    while v <= x
        invariant
            0 <= v <= x + 1,
            x < 16,
            old(vm).i + x < RAM_SIZE,
            vm.i == old(vm).i,
            vm.wf(),
            vm.ram@ == old(vm).ram@,
            forall|j: int| 0 <= j < v ==> vm.registers@[j] == old(vm).ram@[old(vm).i + j],
            forall|j: int| v <= j < 16 ==> vm.registers@[j] == old(vm).registers@[j],
            frame_regs_i_pc(*old(vm), *vm),
            vm.pc == old(vm).pc,
        decreases x + 1 - v,
    {
        let byte = vm.ram[vm.i + v];
        vm.registers.set(v, byte);
        v = v + 1;
    }

    vm.i = vm.i + x + 1;

    Ok(Next::Advance(1))
}

/// Draw idempotence under double-XOR: drawing the same sprite at the same
/// location twice in succession restores the pre-draw pixel state, since
/// XOR is self-inverse; and the second draw reports a collision exactly
/// where a lit sprite bit stands over a pixel that was dark before the
/// first draw — the pixels the first draw lit and the second toggled back.
/// Stated for sprites whose coordinate registers are not `VF` itself, which
/// the first draw overwrites.
pub proof fn lemma_draw_twice_restores(pre: VM, mid: VM, post: VM, op: Opcode)
    requires
        pre.wf(),
        op.wf(),
        op.x != 15,
        op.y != 15,
        pre.i + op.nibble <= RAM_SIZE,
        draw_effect(pre, mid, op),
        draw_effect(mid, post, op),
    ensures
        post.gfx@ == pre.gfx@,
        post.registers@[15] == (if exists|sy: int, sx: int|
            0 <= sy < op.nibble && 0 <= sx < 8 && sprite_px(pre.ram@[pre.i + sy], sx) == 1
                && pre.gfx@[target_index(
                pre.registers@[op.x as int] as int,
                pre.registers@[op.y as int] as int,
                sy,
                sx,
            )] == 0 {
            1u8
        } else {
            0u8
        }),
{
    let x = pre.registers@[op.x as int] as int;
    let y = pre.registers@[op.y as int] as int;
    let i = pre.i as int;
    let n = op.nibble as int;

    assert(mid.registers@[op.x as int] == pre.registers@[op.x as int]);
    assert(mid.registers@[op.y as int] == pre.registers@[op.y as int]);
    assert(mid.ram@ == pre.ram@);
    assert(mid.i == pre.i);

    assert forall|k: int| 0 <= k < DISPLAY_PIXELS implies post.gfx@[k] == pre.gfx@[k] by {
        if touched_upto(x, y, n, 0, k) {
            let (sy, sx) = choose|sy: int, sx: int|
                0 <= sy && 0 <= sx < 8 && lex_before(sy, sx, n, 0) && target_index(x, y, sy, sx)
                    == k;
            let px = sprite_px(pre.ram@[i + sy], sx);
            assert(mid.gfx@[k] == pre.gfx@[k] ^ px);
            assert(post.gfx@[k] == mid.gfx@[k] ^ px);
            let a = pre.gfx@[k];
            assert((a ^ px) ^ px == a) by (bit_vector);
        }
    }
    assert(post.gfx@ =~= pre.gfx@);

    let hit2 = collision_upto(mid.gfx@, mid.ram@, i, x, y, n, 0);
    assert(post.registers@[15] == (if hit2 {
        1u8
    } else {
        0u8
    }));

    let relit = exists|sy: int, sx: int|
        0 <= sy < n && 0 <= sx < 8 && sprite_px(pre.ram@[i + sy], sx) == 1 && pre.gfx@[
            target_index(x, y, sy, sx)
        ] == 0;

    assert(hit2 == relit) by {
        if hit2 {
            let (sy, sx) = choose|sy: int, sx: int|
                0 <= sy && 0 <= sx < 8 && lex_before(sy, sx, n, 0) && sprite_px(mid.ram@[i + sy], sx)
                    == 1 && mid.gfx@[target_index(x, y, sy, sx)] == 1;
            let k = target_index(x, y, sy, sx);
            assert(mid.gfx@[k] == pre.gfx@[k] ^ sprite_px(pre.ram@[i + sy], sx));
            let a = pre.gfx@[k];
            assert(a ^ 1 == 1 ==> a == 0) by (bit_vector);
            assert(pre.gfx@[k] == 0);
            assert(relit);
        }
        if relit {
            let (sy, sx) = choose|sy: int, sx: int|
                0 <= sy < n && 0 <= sx < 8 && sprite_px(pre.ram@[i + sy], sx) == 1 && pre.gfx@[
                    target_index(x, y, sy, sx)
                ] == 0;
            let k = target_index(x, y, sy, sx);
            assert(mid.gfx@[k] == pre.gfx@[k] ^ sprite_px(pre.ram@[i + sy], sx));
            let a = pre.gfx@[k];
            assert(a == 0 ==> a ^ 1 == 1) by (bit_vector);
            assert(mid.gfx@[k] == 1);
            assert(lex_before(sy, sx, n, 0));
            assert(collision_upto(mid.gfx@, mid.ram@, i, x, y, n, 0));
        }
    }
}

} // verus!
