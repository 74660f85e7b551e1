use chip8::chip8::Chip8;
use chip8::instruction::Instruction;
use chip8::machine::{Fault, LoadError};
use chip8::sprite::cell_origin;

fn boot(rom: &[u8]) -> Chip8 {
    let mut c = Chip8::new();
    assert_eq!(c.load(rom), Ok(()));
    c
}

fn run(c: &mut Chip8, cycles: usize) {
    for _ in 0..cycles {
        assert!(c.cycle(0).is_ok());
    }
}

fn lit_cells(c: &Chip8) -> usize {
    c.framebuffer().iter().filter(|&&p| p == 1).count()
}

#[test]
fn new_machine_state() {
    let c = Chip8::new();
    assert_eq!(c.program_counter(), 0x200);
    assert_eq!(c.index(), 0);
    assert_eq!(c.stack_pointer(), 0);
    assert_eq!(c.memory_at(0), 0xF0);
    assert_eq!(c.memory_at(5), 0x20);
    assert_eq!(c.memory_at(79), 0x80);
    assert_eq!(c.memory_at(80), 0);
    assert_eq!(c.memory_at(0x200), 0);
    assert_eq!(c.framebuffer().len(), 2048);
    assert_eq!(lit_cells(&c), 0);
    assert!(!c.draw_flag);
    for x in 0..16 {
        assert_eq!(c.register(x), 0);
        assert!(!c.key_pressed(x));
    }
}

#[test]
fn load_copies_rom_at_program_start() {
    let c = boot(&[0xA2, 0x2A, 0x60]);
    assert_eq!(c.memory_at(0x200), 0xA2);
    assert_eq!(c.memory_at(0x201), 0x2A);
    assert_eq!(c.memory_at(0x202), 0x60);
    assert_eq!(c.memory_at(0x203), 0);
    assert_eq!(c.memory_at(0), 0xF0);
}

#[test]
fn load_accepts_largest_rom() {
    let rom = vec![0xAB; 4096 - 0x200];
    let c = boot(&rom);
    assert_eq!(c.memory_at(4095), 0xAB);
}

#[test]
fn load_rejects_oversized_rom() {
    let mut c = Chip8::new();
    let rom = vec![0xAB; 4096 - 0x200 + 1];
    assert_eq!(c.load(&rom), Err(LoadError::RomTooLarge { size: 3585 }));
    assert_eq!(c.memory_at(0x200), 0);
    assert_eq!(c.memory_at(4095), 0);
}

#[test]
fn set_immediate_every_register() {
    let mut rom = Vec::new();
    for x in 0..16u8 {
        rom.push(0x60 | x);
        rom.push(0x10 + x);
    }
    let mut c = boot(&rom);
    run(&mut c, 16);
    for x in 0..16usize {
        assert_eq!(c.register(x), 0x10 + x as u8);
    }
    assert_eq!(c.program_counter(), 0x200 + 32);
}

#[test]
fn add_immediate_wraps_and_keeps_flag() {
    let mut c = boot(&[0x6F, 0x33, 0x60, 0xFF, 0x70, 0x02]);
    run(&mut c, 3);
    assert_eq!(c.register(0), 0x01);
    assert_eq!(c.register(15), 0x33);
}

#[test]
fn add_registers_with_carry() {
    let mut c = boot(&[0x60, 0xFF, 0x61, 0x01, 0x80, 0x14]);
    run(&mut c, 3);
    assert_eq!(c.register(0), 0x00);
    assert_eq!(c.register(15), 1);
}

#[test]
fn add_registers_without_carry() {
    let mut c = boot(&[0x6F, 0x01, 0x60, 0x01, 0x61, 0x01, 0x80, 0x14]);
    run(&mut c, 4);
    assert_eq!(c.register(0), 0x02);
    assert_eq!(c.register(15), 0);
}

#[test]
fn subtract_equal_sets_no_borrow() {
    let mut c = boot(&[0x60, 0x05, 0x61, 0x05, 0x80, 0x15]);
    run(&mut c, 3);
    assert_eq!(c.register(15), 1);
    assert_eq!(c.register(0), 0x00);
}

#[test]
fn subtract_with_borrow() {
    let mut c = boot(&[0x6F, 0x01, 0x60, 0x01, 0x61, 0x02, 0x80, 0x15]);
    run(&mut c, 4);
    assert_eq!(c.register(15), 0);
    assert_eq!(c.register(0), 0xFF);
}

#[test]
fn subtract_reversed_and_shifts() {
    let mut c = boot(&[0x60, 0x03, 0x61, 0x01, 0x80, 0x17]);
    run(&mut c, 3);
    assert_eq!(c.register(0), 0xFE);
    assert_eq!(c.register(15), 0);

    let mut c = boot(&[0x60, 0x81, 0x80, 0x06]);
    run(&mut c, 2);
    assert_eq!(c.register(0), 0x40);
    assert_eq!(c.register(15), 1);

    let mut c = boot(&[0x60, 0x81, 0x80, 0x0E]);
    run(&mut c, 2);
    assert_eq!(c.register(0), 0x02);
    assert_eq!(c.register(15), 1);
}

#[test]
fn bitwise_and_move() {
    let mut c = boot(&[0x60, 0x0C, 0x61, 0x0A, 0x82, 0x00, 0x82, 0x11, 0x83, 0x00, 0x83, 0x12, 0x84, 0x00, 0x84, 0x13]);
    run(&mut c, 8);
    assert_eq!(c.register(2), 0x0E);
    assert_eq!(c.register(3), 0x08);
    assert_eq!(c.register(4), 0x06);
}

#[test]
fn clear_screen_blanks_lit_frame() {
    let mut c = boot(&[0xA0, 0x00, 0xD0, 0x05, 0x00, 0xE0]);
    run(&mut c, 2);
    assert!(lit_cells(&c) > 0);
    let _ = c.draw();
    assert!(!c.draw_flag);
    run(&mut c, 1);
    assert_eq!(lit_cells(&c), 0);
    assert!(c.draw_flag);
}

#[test]
fn call_then_return_resumes_after_call() {
    let mut c = boot(&[0x22, 0x06, 0x60, 0x07, 0x00, 0x00, 0x00, 0xEE]);
    run(&mut c, 1);
    assert_eq!(c.program_counter(), 0x206);
    assert_eq!(c.stack_pointer(), 1);
    run(&mut c, 1);
    assert_eq!(c.program_counter(), 0x202);
    assert_eq!(c.stack_pointer(), 0);
    run(&mut c, 1);
    assert_eq!(c.register(0), 7);
}

#[test]
fn draw_twice_restores_frame_and_collides() {
    let mut c = boot(&[0xA0, 0x00, 0x61, 0x0A, 0xD1, 0x15, 0xD1, 0x15]);
    run(&mut c, 3);
    assert_eq!(c.register(15), 0);
    assert_eq!(lit_cells(&c), 14);
    assert_eq!(c.framebuffer()[10 + 10 * 64], 1);
    assert_eq!(c.framebuffer()[10 + 11 * 64], 1);
    assert_eq!(c.framebuffer()[11 + 11 * 64], 0);
    assert!(c.draw_flag);
    run(&mut c, 1);
    assert_eq!(c.register(15), 1);
    assert_eq!(lit_cells(&c), 0);
    assert_eq!(c.index(), 0);
}

#[test]
fn draw_wraps_at_screen_edges() {
    let mut c = boot(&[0xA0, 0x00, 0x60, 0x3E, 0x61, 0x1F, 0xD0, 0x12]);
    run(&mut c, 4);
    // glyph "0" starts with 0xF0, 0x90: its first row lands on columns 62, 63, 0, 1 of row 31
    assert_eq!(c.framebuffer()[62 + 31 * 64], 1);
    assert_eq!(c.framebuffer()[63 + 31 * 64], 1);
    assert_eq!(c.framebuffer()[0 + 31 * 64], 1);
    assert_eq!(c.framebuffer()[1 + 31 * 64], 1);
    // its second row wraps to row 0: columns 62 and 1
    assert_eq!(c.framebuffer()[62], 1);
    assert_eq!(c.framebuffer()[63], 0);
    assert_eq!(c.framebuffer()[1], 1);
    assert_eq!(lit_cells(&c), 6);
}

#[test]
fn timers_stop_at_zero() {
    let mut c = boot(&[0x60, 0x03, 0xF0, 0x15, 0xF0, 0x18, 0x00, 0xE0, 0x00, 0xE0, 0x00, 0xE0, 0x00, 0xE0, 0x00, 0xE0]);
    run(&mut c, 2);
    assert_eq!(c.delay_timer(), 2);
    run(&mut c, 1);
    assert_eq!(c.delay_timer(), 1);
    assert_eq!(c.sound_timer(), 2);
    for _ in 0..5 {
        run(&mut c, 1);
    }
    assert_eq!(c.delay_timer(), 0);
    assert_eq!(c.sound_timer(), 0);
    assert!(!c.tick_timers());
    assert_eq!(c.delay_timer(), 0);
    assert_eq!(c.sound_timer(), 0);
}

#[test]
fn read_delay_timer() {
    let mut c = boot(&[0x60, 0x09, 0xF0, 0x15, 0xF1, 0x07]);
    run(&mut c, 3);
    assert_eq!(c.register(1), 8);
}

#[test]
fn sound_timer_reports_tone_end() {
    let mut c = boot(&[0x60, 0x02, 0xF0, 0x18, 0x00, 0xE0, 0x00, 0xE0]);
    assert_eq!(c.cycle(0), Ok(false));
    assert_eq!(c.cycle(0), Ok(false));
    assert_eq!(c.sound_timer(), 1);
    assert_eq!(c.cycle(0), Ok(true));
    assert_eq!(c.sound_timer(), 0);
    assert_eq!(c.cycle(0), Ok(false));
}

#[test]
fn end_to_end_three_cycles() {
    let mut c = boot(&[0xA2, 0x2A, 0x60, 0x0A, 0x00, 0xE0]);
    let start = c.program_counter();
    run(&mut c, 3);
    assert_eq!(c.index(), 0x22A);
    assert_eq!(c.register(0), 0x0A);
    assert_eq!(lit_cells(&c), 0);
    assert!(c.draw_flag);
    assert_eq!(c.program_counter(), start + 6);
}

#[test]
fn skips() {
    // 3XNN taken, 4XNN not taken, 5XY0 taken, 9XY0 not taken
    let mut c = boot(&[0x60, 0x05, 0x30, 0x05]);
    run(&mut c, 2);
    assert_eq!(c.program_counter(), 0x206);
    let mut c = boot(&[0x60, 0x05, 0x40, 0x05]);
    run(&mut c, 2);
    assert_eq!(c.program_counter(), 0x204);
    let mut c = boot(&[0x60, 0x05, 0x61, 0x05, 0x50, 0x10]);
    run(&mut c, 3);
    assert_eq!(c.program_counter(), 0x208);
    let mut c = boot(&[0x60, 0x05, 0x61, 0x05, 0x90, 0x10]);
    run(&mut c, 3);
    assert_eq!(c.program_counter(), 0x206);
}

#[test]
fn key_skips() {
    let mut c = boot(&[0x60, 0x05, 0xE0, 0x9E, 0x00, 0x00, 0xE0, 0xA1]);
    c.set_keys(5, true);
    assert!(c.key_pressed(5));
    run(&mut c, 2);
    assert_eq!(c.program_counter(), 0x206);
    run(&mut c, 1);
    assert_eq!(c.program_counter(), 0x208);
    c.set_keys(5, false);
    assert!(!c.key_pressed(5));
}

#[test]
fn wait_for_key() {
    let mut c = boot(&[0xF3, 0x0A]);
    run(&mut c, 1);
    assert_eq!(c.program_counter(), 0x200);
    c.set_keys(9, true);
    c.set_keys(4, true);
    run(&mut c, 1);
    assert_eq!(c.program_counter(), 0x202);
    assert_eq!(c.register(3), 4);
}

#[test]
fn jumps_and_index_arithmetic() {
    let mut c = boot(&[0x12, 0x04, 0x00, 0x00, 0x60, 0x10, 0xB3, 0x00]);
    run(&mut c, 3);
    assert_eq!(c.program_counter(), 0x310);

    let mut c = boot(&[0xAF, 0xFF, 0x60, 0x02, 0xF0, 0x1E]);
    run(&mut c, 3);
    assert_eq!(c.index(), 0x001);

    let mut c = boot(&[0x60, 0x1A, 0xF0, 0x29]);
    run(&mut c, 2);
    assert_eq!(c.index(), 50);
}

#[test]
fn random_is_masked() {
    let mut c = boot(&[0xC0, 0x0F]);
    assert_eq!(c.cycle(0xAB), Ok(false));
    assert_eq!(c.register(0), 0x0B);
}

#[test]
fn bcd_store_and_register_block_round_trip() {
    let mut c = boot(&[0x60, 0xEA, 0xA3, 0x00, 0xF0, 0x33]);
    run(&mut c, 3);
    assert_eq!(c.memory_at(0x300), 2);
    assert_eq!(c.memory_at(0x301), 3);
    assert_eq!(c.memory_at(0x302), 4);
    assert_eq!(c.index(), 0x300);

    let mut c = boot(&[0x60, 0x11, 0x61, 0x22, 0x62, 0x33, 0xA4, 0x00, 0xF1, 0x55, 0x60, 0x00, 0x61, 0x00, 0x62, 0x00, 0xF2, 0x65]);
    run(&mut c, 9);
    assert_eq!(c.memory_at(0x400), 0x11);
    assert_eq!(c.memory_at(0x401), 0x22);
    assert_eq!(c.memory_at(0x402), 0);
    assert_eq!(c.register(0), 0x11);
    assert_eq!(c.register(1), 0x22);
    assert_eq!(c.register(2), 0);
}

#[test]
fn unknown_opcode_leaves_state() {
    let mut c = boot(&[0x60, 0x03, 0xF0, 0x15, 0xFF, 0xFF]);
    run(&mut c, 2);
    assert_eq!(c.cycle(0), Err(Fault::UnknownOpcode { opcode: 0xFFFF }));
    assert_eq!(c.program_counter(), 0x204);
    assert_eq!(c.delay_timer(), 2);
}

#[test]
fn return_on_empty_stack_faults() {
    let mut c = boot(&[0x00, 0xEE]);
    assert_eq!(c.cycle(0), Err(Fault::StackUnderflow));
    assert_eq!(c.program_counter(), 0x200);
}

#[test]
fn seventeenth_call_overflows() {
    let mut c = boot(&[0x22, 0x00]);
    run(&mut c, 16);
    assert_eq!(c.stack_pointer(), 16);
    assert_eq!(c.cycle(0), Err(Fault::StackOverflow));
    assert_eq!(c.stack_pointer(), 16);
}

#[test]
fn fetch_past_memory_faults() {
    let mut c = boot(&[0x1F, 0xFF]);
    run(&mut c, 1);
    assert_eq!(c.program_counter(), 0xFFF);
    assert_eq!(c.cycle(0), Err(Fault::ProgramCounterOutOfBounds));
}

#[test]
fn sprite_read_past_memory_faults() {
    let mut c = boot(&[0xAF, 0xFE, 0xD0, 0x03]);
    run(&mut c, 1);
    assert_eq!(c.cycle(0), Err(Fault::MemoryOutOfBounds));
    assert_eq!(c.program_counter(), 0x202);
    assert_eq!(lit_cells(&c), 0);
}

#[test]
fn key_register_out_of_range_faults() {
    let mut c = boot(&[0x60, 0x20, 0xE0, 0x9E]);
    run(&mut c, 1);
    assert_eq!(c.cycle(0), Err(Fault::KeyOutOfRange));
}

#[test]
fn malformed_instruction_faults() {
    let mut c = Chip8::new();
    assert_eq!(c.execute(Instruction::SetImmediate { x: 16, nn: 1 }, 0), Err(Fault::InvalidOperand));
    assert_eq!(c.execute(Instruction::Jump { addr: 0x1000 }, 0), Err(Fault::InvalidOperand));
    assert_eq!(c.program_counter(), 0x200);
    assert_eq!(c.execute(Instruction::SetImmediate { x: 3, nn: 9 }, 0), Ok(()));
    assert_eq!(c.register(3), 9);
    assert_eq!(c.program_counter(), 0x202);
}

#[test]
fn draw_hands_out_frame_and_clears_flag() {
    let mut c = boot(&[0xA0, 0x00, 0xD0, 0x01]);
    run(&mut c, 2);
    assert!(c.draw_flag);
    let frame = c.draw();
    assert_eq!(frame.len(), 2048);
    assert_eq!(&frame[0..4], &[1, 1, 1, 1]);
    assert_eq!(frame[4], 0);
    assert!(!c.draw_flag);
}

#[test]
fn cell_origins() {
    assert_eq!(cell_origin(0, 8), (0, 0));
    assert_eq!(cell_origin(65, 8), (8, 8));
    assert_eq!(cell_origin(2047, 10), (630, 310));
}
