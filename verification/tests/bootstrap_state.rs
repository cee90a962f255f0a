use chip_8::specs::{
    DISPLAY_PIXELS, GENERAL_REGISTERS_SIZE, KEYPAD_SIZE, PROGRAM_START, RAM_SIZE, STACK_SIZE,
};
use chip_8::vm::bootstrap::Bootstrap;

#[test]
fn bootstrap_loads_an_empty_vm_by_default() {
    let vm = Bootstrap::new().finish();

    assert_eq!(RAM_SIZE, vm.ram.len());
    assert_eq!(vec![0u8; GENERAL_REGISTERS_SIZE], vm.registers);
    assert_eq!(vec![0u16; STACK_SIZE], vm.stack);
    assert_eq!(vec![0u8; KEYPAD_SIZE], vm.keypad);
    assert_eq!(DISPLAY_PIXELS, vm.gfx.len());

    assert_eq!(0 as usize, vm.i);
    assert_eq!(0 as usize, vm.pc);
    assert_eq!(0 as usize, vm.sp);
    assert_eq!(0 as u8, vm.dt);
    assert_eq!(0 as u8, vm.st);
}

#[test]
fn bootstrap_loads_the_sprites() {
    let vm = Bootstrap::new().load_sprites().finish();

    assert_eq!([0xF0, 0x90, 0x90, 0x90, 0xF0], vm.ram[0..5]); // 0
    assert_eq!([0x20, 0x60, 0x20, 0x20, 0x70], vm.ram[5..10]); // 1
    assert_eq!([0xF0, 0x10, 0xF0, 0x80, 0xF0], vm.ram[10..15]); // 2
    assert_eq!([0xF0, 0x10, 0xF0, 0x10, 0xF0], vm.ram[15..20]); // 3
    assert_eq!([0x90, 0x90, 0xF0, 0x10, 0x10], vm.ram[20..25]); // 4
    assert_eq!([0xF0, 0x80, 0xF0, 0x10, 0xF0], vm.ram[25..30]); // 5
    assert_eq!([0xF0, 0x80, 0xF0, 0x90, 0xF0], vm.ram[30..35]); // 6
    assert_eq!([0xF0, 0x10, 0x20, 0x40, 0x40], vm.ram[35..40]); // 7
    assert_eq!([0xF0, 0x90, 0xF0, 0x90, 0xF0], vm.ram[40..45]); // 8
    assert_eq!([0xF0, 0x90, 0xF0, 0x10, 0xF0], vm.ram[45..50]); // 9
    assert_eq!([0xF0, 0x90, 0xF0, 0x90, 0x90], vm.ram[50..55]); // A
    assert_eq!([0xE0, 0x90, 0xE0, 0x90, 0xE0], vm.ram[55..60]); // B
    assert_eq!([0xF0, 0x80, 0x80, 0x80, 0xF0], vm.ram[60..65]); // C
    assert_eq!([0xE0, 0x90, 0x90, 0x90, 0xE0], vm.ram[65..70]); // D
    assert_eq!([0xF0, 0x80, 0xF0, 0x80, 0xF0], vm.ram[70..75]); // E
    assert_eq!([0xF0, 0x80, 0xF0, 0x80, 0x80], vm.ram[75..80]); // F
}

#[test]
fn bootstrap_loads_a_rom() {
    let rom: Vec<u8> = vec![0xA; RAM_SIZE - PROGRAM_START - 10];

    let vm = Bootstrap::new().load_rom(&rom).finish();
    let range = PROGRAM_START..(RAM_SIZE - 10);

    assert!(vm.ram[range].iter().all(|&x| x == 0xA));
}
