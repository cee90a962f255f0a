use std::sync::mpsc::channel;
use chip_8::boot::gfx;
use chip_8::display::Display;
use chip_8::instructions::Instruction;
use chip_8::keypad::Key;
use chip_8::specs::{DISPLAY_HEIGHT, DISPLAY_PIXELS, DISPLAY_WIDTH, PROGRAM_START, RAM_SIZE};
use chip_8::vm::{Fault, Tick, VM};

#[test]
fn reports_its_version() {
    assert_eq!("0.1.0", chip_8::version());
}

#[test]
fn gfx_surface_carries_pixel_batches() {
    let (bus, surface) = gfx();

    let pixel = chip_8::gfx::Pixel::new(3, 4, 1);
    bus.send(vec![pixel]).unwrap();

    let batch = surface.port.try_recv().unwrap();
    assert_eq!(1, batch.len());
    assert_eq!((3, 4, 1), (batch[0].x, batch[0].y, batch[0].value));
}

#[test]
fn jump_opcode_decodes_and_sets_pc_without_auto_advance() {
    let instruction = Instruction::decode(0x1A1E).unwrap();

    let mut vm = VM::boot();
    vm.exec(instruction).unwrap();

    assert_eq!(0x0A1E, vm.pc);
}

#[test]
fn clear_publishes_every_pixel_as_dark() {
    let (bus, display) = Display::build();

    let mut vm = VM::boot();
    vm.gfx = vec![1; DISPLAY_PIXELS];
    vm.set_display_bus(bus);

    let instruction = Instruction::decode(0x00E0).unwrap();
    vm.exec(instruction).unwrap();

    assert!(vm.gfx.iter().all(|&x| x == 0));

    let batch = display.port.try_recv().unwrap();
    assert_eq!(DISPLAY_PIXELS, batch.len());
    for (k, pixel) in batch.iter().enumerate() {
        assert_eq!((k / DISPLAY_HEIGHT) as i32, pixel.x);
        assert_eq!((k % DISPLAY_HEIGHT) as i32, pixel.y);
        assert_eq!(0, pixel.value);
    }
}

#[test]
fn draw_toggles_pixels_and_publishes_the_batch() {
    let (bus, display) = Display::build();

    let mut vm = VM::boot();
    vm.load_sprites();
    vm.set_display_bus(bus);

    // Draw the five-row glyph for digit 0 (0xF0 0x90 0x90 0x90 0xF0) at
    // (V0, V1) = (0, 0) from I = 0.
    vm.registers[0x0] = 0;
    vm.registers[0x1] = 0;
    vm.i = 0;
    let instruction = Instruction::decode(0xD015).unwrap();
    vm.exec(instruction).unwrap();

    // Top row 0xF0: the four leftmost pixels lit, the next four dark.
    assert_eq!([1, 1, 1, 1, 0, 0, 0, 0], vm.gfx[0..8]);
    // Second row 0x90: ends of the glyph lit.
    assert_eq!([1, 0, 0, 1, 0, 0, 0, 0], vm.gfx[DISPLAY_WIDTH..DISPLAY_WIDTH + 8]);
    // Nothing was lit before, so no collision.
    assert_eq!(0, vm.registers[0xF]);
    assert_eq!(PROGRAM_START + 2, vm.pc);

    let batch = display.port.try_recv().unwrap();
    assert_eq!(5 * 8, batch.len());
    assert_eq!((0, 0, 1), (batch[0].x, batch[0].y, batch[0].value));
    assert_eq!((4, 0, 0), (batch[4].x, batch[4].y, batch[4].value));
    assert_eq!((0, 1, 1), (batch[8].x, batch[8].y, batch[8].value));
}

#[test]
fn draw_batch_wraps_coordinates_at_the_edges() {
    let (bus, display) = Display::build();

    let mut vm = VM::boot();
    vm.load_sprites();
    vm.set_display_bus(bus);

    vm.registers[0x0] = 60; // four pixels from the right edge
    vm.registers[0x1] = 30; // two rows from the bottom edge
    vm.i = 5; // glyph for digit 1
    let instruction = Instruction::decode(0xD015).unwrap();
    vm.exec(instruction).unwrap();

    let batch = display.port.try_recv().unwrap();
    assert_eq!(5 * 8, batch.len());
    // Row 0, column 0 lands at the raw coordinates.
    assert_eq!((60, 30), (batch[0].x, batch[0].y));
    // Column 4 of row 0 wraps around the right edge.
    assert_eq!((0, 30), (batch[4].x, batch[4].y));
    // Row 2 wraps around the bottom edge.
    assert_eq!((60, 0), (batch[16].x, batch[16].y));
}

#[test]
fn drawing_the_same_sprite_twice_restores_the_display() {
    let mut vm = VM::boot();
    vm.load_sprites();

    // An uneven backdrop so the restore is visible.
    for k in 0..DISPLAY_PIXELS {
        vm.gfx[k] = ((k / 3) % 2) as u8;
    }
    let backdrop = vm.gfx.clone();

    vm.registers[0x0] = 60; // wraps around the right edge
    vm.registers[0x1] = 30; // wraps around the bottom edge
    vm.i = 5; // glyph for digit 1

    let instruction = Instruction::decode(0xD015).unwrap();
    vm.exec(instruction).unwrap();
    assert_ne!(backdrop, vm.gfx);

    let instruction = Instruction::decode(0xD015).unwrap();
    vm.exec(instruction).unwrap();
    assert_eq!(backdrop, vm.gfx);
}

#[test]
fn second_draw_reports_collisions_where_pixels_toggle_back() {
    let mut vm = VM::boot();
    vm.load_sprites();

    vm.registers[0x0] = 0;
    vm.registers[0x1] = 0;
    vm.i = 0;

    // The display starts dark: the first draw lights pixels without
    // collision, the second turns them back off and reports one.
    let instruction = Instruction::decode(0xD015).unwrap();
    vm.exec(instruction).unwrap();
    assert_eq!(0, vm.registers[0xF]);

    let instruction = Instruction::decode(0xD015).unwrap();
    vm.exec(instruction).unwrap();
    assert_eq!(1, vm.registers[0xF]);
    assert!(vm.gfx.iter().all(|&x| x == 0));
}

#[test]
fn wait_key_takes_the_lowest_pressed_key() {
    let mut vm = VM::boot();
    vm.set_key(Key::B);
    vm.set_key(Key::Num3);

    let instruction = Instruction::decode(0xFA0A).unwrap();
    vm.exec(instruction).unwrap();

    assert_eq!(0x3, vm.registers[0xA]);
    assert_eq!(0, vm.keypad[0x3]);
    assert_eq!(1, vm.keypad[0xB]);
}

#[test]
fn skip_on_key_not_pressed_consumes_a_press_on_its_negative_test() {
    let mut vm = VM::boot();
    vm.registers[0xA] = 0xF;
    vm.set_key(Key::F);
    vm.set_key(Key::F);

    let instruction = Instruction::decode(0xEAA1).unwrap();
    vm.exec(instruction).unwrap();

    assert_eq!(PROGRAM_START + 2, vm.pc);
    assert_eq!(1, vm.keypad[0xF]);
}

#[test]
fn random_mask_clears_every_bit_outside_the_mask() {
    let mut vm = VM::boot();

    let instruction = Instruction::decode(0xCA0F).unwrap();
    vm.exec(instruction).unwrap();

    assert_eq!(0, vm.registers[0xA] & 0xF0);
}

#[test]
fn return_on_an_empty_stack_is_a_stack_underflow() {
    let mut vm = VM::boot();

    let instruction = Instruction::decode(0x00EE).unwrap();
    let fault = vm.exec(instruction).unwrap_err();

    assert_eq!(Fault::StackUnderflow, fault);
    assert_eq!(PROGRAM_START, vm.pc);
}

#[test]
fn call_on_a_full_stack_is_a_stack_overflow() {
    let mut vm = VM::boot();
    vm.sp = 15;

    let instruction = Instruction::decode(0x2FA1).unwrap();
    let fault = vm.exec(instruction).unwrap_err();

    assert_eq!(Fault::StackOverflow, fault);
    assert_eq!(PROGRAM_START, vm.pc);
}

#[test]
fn bcd_past_the_end_of_memory_is_out_of_bounds() {
    let mut vm = VM::boot();
    vm.i = RAM_SIZE - 2;
    vm.registers[0xA] = 42;

    let instruction = Instruction::decode(0xFA33).unwrap();
    let fault = vm.exec(instruction).unwrap_err();

    assert_eq!(Fault::MemoryOutOfBounds, fault);
}

#[test]
fn draw_with_sprite_rows_outside_memory_is_out_of_bounds() {
    let mut vm = VM::boot();
    vm.i = RAM_SIZE - 2;

    let instruction = Instruction::decode(0xD015).unwrap();
    let fault = vm.exec(instruction).unwrap_err();

    assert_eq!(Fault::MemoryOutOfBounds, fault);
}

#[test]
fn store_past_the_end_of_memory_is_out_of_bounds() {
    let mut vm = VM::boot();
    vm.i = RAM_SIZE - 4;

    let instruction = Instruction::decode(0xFE55).unwrap();
    let fault = vm.exec(instruction).unwrap_err();

    assert_eq!(Fault::MemoryOutOfBounds, fault);
}

#[test]
fn skip_on_key_with_a_register_beyond_the_keypad_is_a_key_fault() {
    let mut vm = VM::boot();
    vm.registers[0xA] = 16;

    let instruction = Instruction::decode(0xEA9E).unwrap();
    let fault = vm.exec(instruction).unwrap_err();

    assert_eq!(Fault::KeyOutOfRange, fault);
}

#[test]
fn cycle_executes_one_instruction_per_tick() {
    let mut vm = VM::boot();
    let rom: Vec<u8> = vec![0x00, 0xE0]; // a single Clear
    vm.load_rom(&rom);
    vm.gfx = vec![1; DISPLAY_PIXELS];
    vm.dt = 1;
    vm.st = 1;

    let (ticker, clock) = channel();
    vm.set_clock(clock);
    ticker.send(Tick).unwrap();

    vm.cycle().unwrap();

    assert_eq!(PROGRAM_START + 2, vm.pc);
    assert_eq!(0, vm.dt);
    assert_eq!(0, vm.st);
    assert!(vm.gfx.iter().all(|&x| x == 0));
}

#[test]
fn cycle_does_nothing_without_a_tick() {
    let mut vm = VM::boot();
    let rom: Vec<u8> = vec![0x00, 0xE0];
    vm.load_rom(&rom);
    vm.gfx = vec![1; DISPLAY_PIXELS];
    vm.dt = 1;
    vm.st = 1;

    let (_ticker, clock) = channel::<Tick>();
    vm.set_clock(clock);

    vm.cycle().unwrap();

    assert_eq!(PROGRAM_START, vm.pc);
    assert_eq!(1, vm.dt);
    assert_eq!(1, vm.st);
    assert!(vm.gfx.iter().all(|&x| x == 1));
}

#[test]
fn cycle_reports_a_dead_clock() {
    let mut vm = VM::boot();

    let (ticker, clock) = channel::<Tick>();
    vm.set_clock(clock);
    drop(ticker);

    let fault = vm.cycle().unwrap_err();

    assert_eq!(Fault::ClockStopped, fault);
}

#[test]
fn cycle_skips_over_a_word_that_does_not_decode() {
    let mut vm = VM::boot();
    let rom: Vec<u8> = vec![0xFF, 0xFF]; // no instruction has this encoding
    vm.load_rom(&rom);

    let (ticker, clock) = channel();
    vm.set_clock(clock);
    ticker.send(Tick).unwrap();

    vm.cycle().unwrap();

    assert_eq!(PROGRAM_START + 2, vm.pc);
}
