use chip_8::instructions::Instruction;
use chip_8::machine::VM;
use chip_8::specs::{DISPLAY_PIXELS, GENERAL_REGISTERS_SIZE, KEYPAD_SIZE, STACK_SIZE};

#[test]
fn vm_has_4k_of_memory() {
    let vm: VM = Default::default();

    assert_eq!(4096, vm.ram.len());
}

#[test]
fn vm_has_16_general_purpose_registers() {
    let vm: VM = Default::default();

    assert_eq!(vec![0u8; 16], vm.registers);
}

#[test]
fn vm_has_the_i_register() {
    let vm: VM = Default::default();

    assert_eq!(0 as u16, vm.i);
}

#[test]
fn vm_has_the_dt_register() {
    let vm: VM = Default::default();

    assert_eq!(0 as u8, vm.dt);
}

#[test]
fn vm_has_the_st_register() {
    let vm: VM = Default::default();

    assert_eq!(0 as u8, vm.st);
}

#[test]
fn vm_has_the_pc_register() {
    let vm: VM = Default::default();

    assert_eq!(0 as u16, vm.pc);
}

#[test]
fn vm_has_the_sp_register() {
    let vm: VM = Default::default();

    assert_eq!(0, vm.sp);
}

#[test]
fn vm_has_a_stack() {
    let vm: VM = Default::default();

    assert_eq!(vec![0u16; 16], vm.stack);
}

#[test]
fn vm_keeps_tracks_of_the_keypad() {
    let vm: VM = Default::default();

    assert_eq!(vec![0u8; 16], vm.keypad);
}

#[test]
fn vm_has_graphics() {
    let vm: VM = Default::default();

    assert_eq!((64 * 32), vm.gfx.len());
}

#[test]
fn vm_sets_fonts_in_memory_at_boot_time() {
    let mut vm: VM = Default::default();

    vm.boot();

    assert_eq!([0xF0, 0x90, 0x90, 0x90, 0xF0], vm.ram[0..5]); // 0
    assert_eq!([0x20, 0x60, 0x20, 0x20, 0x70], vm.ram[5..10]); // 1
    assert_eq!([0xF0, 0x10, 0xF0, 0x80, 0xF0], vm.ram[10..15]); // 2
    assert_eq!([0xF0, 0x10, 0xF0, 0x10, 0xF0], vm.ram[15..20]); // 3
    assert_eq!([0x90, 0x90, 0xF0, 0x10, 0x10], vm.ram[20..25]); // 4
    assert_eq!([0xF0, 0x80, 0xF0, 0x10, 0xF0], vm.ram[25..30]); // 5
    assert_eq!([0xF0, 0x80, 0xF0, 0x90, 0xF0], vm.ram[30..35]); // 6
    assert_eq!([0xF0, 0x10, 0x20, 0x40, 0x40], vm.ram[35..40]); // 7
    assert_eq!([0xF0, 0x90, 0xF0, 0x90, 0xF0], vm.ram[40..45]); // 8
    assert_eq!([0xF0, 0x90, 0xF0, 0x10, 0xF0], vm.ram[45..50]); // 9
    assert_eq!([0xF0, 0x90, 0xF0, 0x90, 0x90], vm.ram[50..55]); // A
    assert_eq!([0xE0, 0x90, 0xE0, 0x90, 0xE0], vm.ram[55..60]); // B
    assert_eq!([0xF0, 0x80, 0x80, 0x80, 0xF0], vm.ram[60..65]); // C
    assert_eq!([0xE0, 0x90, 0x90, 0x90, 0xE0], vm.ram[65..70]); // D
    assert_eq!([0xF0, 0x80, 0xF0, 0x80, 0xF0], vm.ram[70..75]); // E
    assert_eq!([0xF0, 0x80, 0xF0, 0x80, 0x80], vm.ram[75..80]); // F
}

#[test]
fn vm_executes_clear_instruction() {
    let instruction = Instruction::decode(0x00E0).unwrap();
    let mut vm: VM = Default::default();
    vm.gfx = vec![1; DISPLAY_PIXELS]; // set a black screen
    vm.boot();

    vm.exec(instruction).unwrap();

    assert!(vm.gfx.iter().all(|&x| x == 0));
}

#[test]
fn vm_executes_return_instruction() {
    let instruction = Instruction::decode(0x00EE).unwrap();
    let mut stack = vec![0; STACK_SIZE];
    stack[1] = 0xA1;

    let mut vm: VM = Default::default();
    vm.stack = stack;
    vm.sp = 1;
    vm.pc = 0;
    vm.boot();

    vm.exec(instruction).unwrap();

    assert_eq!(0xA1, vm.pc);
    assert_eq!(0, vm.sp);
}

#[test]
fn vm_executes_jump_instruction() {
    let instruction = Instruction::decode(0x1FA1).unwrap();

    let mut vm: VM = Default::default();
    vm.boot();

    vm.exec(instruction).unwrap();

    assert_eq!(0x0FA1, vm.pc);
}

#[test]
fn vm_executes_call_instruction() {
    let instruction = Instruction::decode(0x2FA1).unwrap();

    let mut vm: VM = Default::default();
    vm.pc = 0x0123;
    vm.boot();

    vm.exec(instruction).unwrap();

    assert_eq!(0x0FA1, vm.pc);
    assert_eq!(1, vm.sp);
    assert_eq!(0x0123, vm.stack[1]);
}

#[test]
fn vm_executes_skip_on_equal_byte_instruction_with_equal_values() {
    let instruction = Instruction::decode(0x32AB).unwrap();

    let mut vm: VM = Default::default();
    vm.boot();

    vm.registers[2] = 0xAB; // same value as the fixture

    vm.exec(instruction).unwrap();

    assert_eq!(0x0002, vm.pc);
}

#[test]
fn vm_executes_skip_on_equal_byte_instruction_with_diff_values() {
    let instruction = Instruction::decode(0x32AB).unwrap();

    let mut vm: VM = Default::default();
    vm.boot();

    vm.registers[2] = 0xAF; // different value as the fixture

    vm.exec(instruction).unwrap();

    assert_eq!(0x0000, vm.pc);
}

#[test]
fn vm_executes_skip_on_not_equal_byte_instruction_with_equal_values() {
    let instruction = Instruction::decode(0x42AB).unwrap();

    let mut vm: VM = Default::default();
    vm.boot();

    vm.registers[2] = 0xAB; // same value as the fixture

    vm.exec(instruction).unwrap();

    assert_eq!(0x0000, vm.pc);
}

#[test]
fn vm_executes_skip_on_not_equal_byte_instruction_with_diff_values() {
    let instruction = Instruction::decode(0x42AB).unwrap();

    let mut vm: VM = Default::default();
    vm.boot();

    vm.registers[2] = 0xAF; // different value as the fixture

    vm.exec(instruction).unwrap();

    assert_eq!(0x0002, vm.pc);
}

#[test]
fn vm_executes_skip_on_equal_instruction_with_equal_values() {
    let instruction = Instruction::decode(0x5280).unwrap();

    let mut vm: VM = Default::default();
    vm.boot();

    vm.registers[2] = 0xAB;
    vm.registers[8] = 0xAB;

    vm.exec(instruction).unwrap();

    assert_eq!(0x0002, vm.pc);
}

#[test]
fn vm_executes_skip_on_equal_instruction_with_diff_values() {
    let instruction = Instruction::decode(0x5280).unwrap();

    let mut vm: VM = Default::default();
    vm.boot();

    vm.registers[2] = 0xAF;
    vm.registers[8] = 0x12;

    vm.exec(instruction).unwrap();

    assert_eq!(0x0000, vm.pc);
}

#[test]
fn machine_buffers_have_their_fixed_sizes() {
    let vm: VM = Default::default();

    assert_eq!(GENERAL_REGISTERS_SIZE, vm.registers.len());
    assert_eq!(KEYPAD_SIZE, vm.keypad.len());
    assert_eq!(STACK_SIZE, vm.stack.len());
}
