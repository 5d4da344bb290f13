use chip8::instruction::{decode, Instruction};
use chip8::keypad::{key_for_char, keys_holding};
use chip8::machine::Chip8;
use chip8::state::{Fault, FONT_OFFSET, PROGRAM_START};

const NO_KEYS: [bool; 16] = [false; 16];

fn machine_with(program: &[u8]) -> Chip8 {
    let mut m = Chip8::new();
    m.load_program(&program.to_vec()).unwrap();
    m
}

fn run(m: &mut Chip8, steps: usize) {
    for _ in 0..steps {
        m.step_with(&NO_KEYS, 0).unwrap();
    }
}

#[test]
fn decode_families() {
    assert_eq!(decode(0x00E0), Instruction::ClearScreen);
    assert_eq!(decode(0x00EE), Instruction::Return);
    assert_eq!(decode(0x1ABC), Instruction::Jump { nnn: 0xABC });
    assert_eq!(decode(0x2345), Instruction::Call { nnn: 0x345 });
    assert_eq!(decode(0x3A42), Instruction::SkipIfEqualImm { x: 0xA, nn: 0x42 });
    assert_eq!(decode(0x8AB4), Instruction::AddReg { x: 0xA, y: 0xB });
    assert_eq!(decode(0x8ABE), Instruction::ShiftLeft { x: 0xA });
    assert_eq!(decode(0xD125), Instruction::Draw { x: 1, y: 2, n: 5 });
    assert_eq!(decode(0xE39E), Instruction::SkipIfKey { x: 3 });
    assert_eq!(decode(0xE3A1), Instruction::SkipIfNotKey { x: 3 });
    assert_eq!(decode(0xF265), Instruction::Load { x: 2 });
    assert_eq!(decode(0xB123), Instruction::JumpOffset { x: 1, nnn: 0x123 });
}

#[test]
fn decode_unknown() {
    assert_eq!(decode(0x0123), Instruction::Unknown { opcode: 0x0123 });
    assert_eq!(decode(0x8AB8), Instruction::Unknown { opcode: 0x8AB8 });
    assert_eq!(decode(0xE1FF), Instruction::Unknown { opcode: 0xE1FF });
    assert_eq!(decode(0xF1FF), Instruction::Unknown { opcode: 0xF1FF });
}

#[test]
fn new_machine_state() {
    let m = Chip8::new();
    assert_eq!(m.pc(), 0x200);
    assert_eq!(m.index(), 0);
    assert_eq!(m.stack_depth(), 0);
    assert!(m.registers().iter().all(|&r| r == 0));
    assert!(m.screen().iter().all(|&p| p == 0));
    assert_eq!(m.memory().len(), 4096);
    // glyph "0" then glyph "F"
    assert_eq!(m.memory_at(FONT_OFFSET as usize), 0xF0);
    assert_eq!(m.memory_at(FONT_OFFSET as usize + 1), 0x90);
    assert_eq!(m.memory_at(FONT_OFFSET as usize + 79), 0x80);
    assert_eq!(m.memory_at(FONT_OFFSET as usize + 80), 0);
}

#[test]
fn load_program_places_bytes() {
    let m = machine_with(&[0x12, 0x34, 0x56]);
    assert_eq!(m.memory_at(0x200), 0x12);
    assert_eq!(m.memory_at(0x202), 0x56);
    assert_eq!(m.memory_at(0x203), 0);
    assert_eq!(m.fetch(), Ok(0x1234));
}

#[test]
fn load_program_too_large() {
    let mut m = Chip8::new();
    assert_eq!(m.load_program(&vec![1u8; 4096 - 0x200]), Ok(()));
    assert_eq!(m.load_program(&vec![1u8; 4096 - 0x200 + 1]), Err(Fault::ProgramTooLarge));
}

#[test]
fn set_register_then_read() {
    let mut m = machine_with(&[0x6A, 0x42, 0x6F, 0xFF]);
    run(&mut m, 2);
    assert_eq!(m.register(0xA), 0x42);
    assert_eq!(m.register(0xF), 0xFF);
    assert_eq!(m.pc(), 0x204);
}

#[test]
fn add_immediate_wraps_without_flag() {
    let mut m = machine_with(&[0x60, 0xF0, 0x70, 0x20]);
    run(&mut m, 2);
    assert_eq!(m.register(0), 0x10);
    assert_eq!(m.register(0xF), 0);
}

#[test]
fn add_with_carry() {
    let mut m = machine_with(&[0x60, 200, 0x61, 100, 0x80, 0x14]);
    run(&mut m, 3);
    assert_eq!(m.register(0), 44);
    assert_eq!(m.register(0xF), 1);
    let mut m = machine_with(&[0x60, 100, 0x61, 100, 0x80, 0x14]);
    run(&mut m, 3);
    assert_eq!(m.register(0), 200);
    assert_eq!(m.register(0xF), 0);
    let mut m = machine_with(&[0x60, 255, 0x61, 1, 0x80, 0x14]);
    run(&mut m, 3);
    assert_eq!(m.register(0), 0);
    assert_eq!(m.register(0xF), 1);
}

#[test]
fn subtract_with_borrow() {
    let mut m = machine_with(&[0x60, 10, 0x61, 20, 0x80, 0x15]);
    run(&mut m, 3);
    assert_eq!(m.register(0), 246);
    assert_eq!(m.register(0xF), 0);
    let mut m = machine_with(&[0x60, 20, 0x61, 20, 0x80, 0x15]);
    run(&mut m, 3);
    assert_eq!(m.register(0), 0);
    assert_eq!(m.register(0xF), 1);
}

#[test]
fn subtract_reversed() {
    let mut m = machine_with(&[0x60, 10, 0x61, 30, 0x80, 0x17]);
    run(&mut m, 3);
    assert_eq!(m.register(0), 20);
    assert_eq!(m.register(0xF), 1);
}

#[test]
fn logic_and_shifts() {
    let mut m = machine_with(&[
        0x60, 0b1100, 0x61, 0b1010, 0x82, 0x00, 0x82, 0x11, 0x83, 0x00, 0x83, 0x12, 0x84, 0x00,
        0x84, 0x13,
    ]);
    run(&mut m, 8);
    assert_eq!(m.register(2), 0b1110);
    assert_eq!(m.register(3), 0b1000);
    assert_eq!(m.register(4), 0b0110);
    let mut m = machine_with(&[0x60, 0x81, 0x80, 0x06]);
    run(&mut m, 2);
    assert_eq!(m.register(0), 0x40);
    assert_eq!(m.register(0xF), 1);
    let mut m = machine_with(&[0x60, 0x81, 0x80, 0x0E]);
    run(&mut m, 2);
    assert_eq!(m.register(0), 0x02);
    assert_eq!(m.register(0xF), 1);
}

#[test]
fn dump_then_load_restores_registers() {
    let mut m = machine_with(&[
        0x60, 1, 0x61, 2, 0x62, 3, 0xA3, 0x00, 0xF2, 0x55, 0x60, 9, 0x61, 9, 0x62, 9, 0xF2, 0x65,
    ]);
    run(&mut m, 5);
    assert_eq!(m.memory_at(0x300), 1);
    assert_eq!(m.memory_at(0x302), 3);
    run(&mut m, 4);
    assert_eq!(m.register(0), 1);
    assert_eq!(m.register(1), 2);
    assert_eq!(m.register(2), 3);
    assert_eq!(m.index(), 0x300);
}

#[test]
fn bcd_of_156() {
    let mut m = machine_with(&[0x65, 156, 0xA4, 0x00, 0xF5, 0x33]);
    run(&mut m, 3);
    assert_eq!(m.memory_at(0x400), 1);
    assert_eq!(m.memory_at(0x401), 5);
    assert_eq!(m.memory_at(0x402), 6);
}

#[test]
fn indexed_access_past_memory_faults() {
    let mut m = machine_with(&[0xAF, 0xFE, 0xF0, 0x33]);
    run(&mut m, 1);
    assert_eq!(m.step_with(&NO_KEYS, 0), Err(Fault::MemoryOutOfBounds));
    assert_eq!(m.pc(), 0x202);
    let mut m = machine_with(&[0xAF, 0xFE, 0xF2, 0x55]);
    run(&mut m, 1);
    assert_eq!(m.step_with(&NO_KEYS, 0), Err(Fault::MemoryOutOfBounds));
    let mut m = machine_with(&[0xAF, 0xFE, 0xF2, 0x65]);
    run(&mut m, 1);
    assert_eq!(m.step_with(&NO_KEYS, 0), Err(Fault::MemoryOutOfBounds));
    let mut m = machine_with(&[0xAF, 0xFE, 0xD0, 0x03]);
    run(&mut m, 1);
    assert_eq!(m.step_with(&NO_KEYS, 0), Err(Fault::MemoryOutOfBounds));
}

#[test]
fn draw_twice_collides_and_erases() {
    // sprite byte 0xC0 at 0x300; draw at (3, 4)
    let mut prog = vec![0x60, 3, 0x61, 4, 0xA3, 0x00, 0xD0, 0x11, 0xD0, 0x11];
    prog.resize(0x100, 0);
    prog.push(0xC0);
    let mut m = machine_with(&prog);
    run(&mut m, 4);
    assert_eq!(m.pixel(3, 4), 1);
    assert_eq!(m.pixel(4, 4), 1);
    assert_eq!(m.pixel(5, 4), 0);
    assert_eq!(m.register(0xF), 0);
    run(&mut m, 1);
    assert_eq!(m.pixel(3, 4), 0);
    assert_eq!(m.pixel(4, 4), 0);
    assert_eq!(m.register(0xF), 1);
    assert!(m.screen().iter().all(|&p| p == 0));
}

#[test]
fn draw_clips_at_edges() {
    // 0xFF row drawn at x = 60 on the last row: four pixels, no wraparound
    let mut prog = vec![0x60, 60, 0x61, 31, 0xA3, 0x00, 0xD0, 0x12];
    prog.resize(0x100, 0);
    prog.push(0xFF);
    prog.push(0xFF);
    let mut m = machine_with(&prog);
    run(&mut m, 4);
    let lit: usize = m.screen().iter().map(|&p| p as usize).sum();
    assert_eq!(lit, 4);
    assert_eq!(m.pixel(63, 31), 1);
    assert_eq!(m.pixel(0, 31), 0);
    assert_eq!(m.pixel(60, 0), 0);
}

#[test]
fn draw_coordinates_wrap_modulo_screen() {
    let mut prog = vec![0x60, 66, 0x61, 33, 0xA3, 0x00, 0xD0, 0x11];
    prog.resize(0x100, 0);
    prog.push(0x80);
    let mut m = machine_with(&prog);
    run(&mut m, 4);
    assert_eq!(m.pixel(2, 1), 1);
}

#[test]
fn draw_font_glyph() {
    let mut m = machine_with(&[0x60, 0x0, 0xF0, 0x29, 0xD1, 0x15]);
    run(&mut m, 2);
    assert_eq!(m.index(), FONT_OFFSET);
    let mut m = machine_with(&[0x60, 0xA, 0xF0, 0x29]);
    run(&mut m, 2);
    assert_eq!(m.index(), FONT_OFFSET + 50);
}

#[test]
fn clear_blanks_screen() {
    let mut m = machine_with(&[0x60, 0x0, 0xF0, 0x29, 0xD1, 0x15, 0x00, 0xE0]);
    run(&mut m, 3);
    assert!(m.screen().iter().any(|&p| p == 1));
    run(&mut m, 1);
    assert!(m.screen().iter().all(|&p| p == 0));
}

#[test]
fn call_then_return_resumes_after_call() {
    let mut prog = vec![0x23, 0x00, 0x60, 0x07];
    prog.resize(0x100, 0);
    prog.extend_from_slice(&[0x00, 0xEE]);
    let mut m = machine_with(&prog);
    run(&mut m, 1);
    assert_eq!(m.pc(), 0x300);
    assert_eq!(m.stack_depth(), 1);
    run(&mut m, 1);
    assert_eq!(m.pc(), 0x202);
    assert_eq!(m.stack_depth(), 0);
    run(&mut m, 1);
    assert_eq!(m.register(0), 7);
}

#[test]
fn return_on_empty_stack_faults() {
    let mut m = machine_with(&[0x00, 0xEE]);
    assert_eq!(m.step_with(&NO_KEYS, 0), Err(Fault::StackUnderflow));
    assert_eq!(m.pc(), 0x200);
}

#[test]
fn call_past_stack_limit_faults() {
    // 0x200: call 0x200, forever
    let mut m = machine_with(&[0x22, 0x00]);
    run(&mut m, 16);
    assert_eq!(m.stack_depth(), 16);
    assert_eq!(m.step_with(&NO_KEYS, 0), Err(Fault::StackOverflow));
    assert_eq!(m.stack_depth(), 16);
}

#[test]
fn skip_instructions() {
    // 3XNN taken, then not taken
    let mut m = machine_with(&[0x60, 5, 0x30, 5]);
    run(&mut m, 2);
    assert_eq!(m.pc(), 0x206);
    let mut m = machine_with(&[0x60, 5, 0x30, 6]);
    run(&mut m, 2);
    assert_eq!(m.pc(), 0x204);
    // 4XNN
    let mut m = machine_with(&[0x60, 5, 0x40, 6]);
    run(&mut m, 2);
    assert_eq!(m.pc(), 0x206);
    let mut m = machine_with(&[0x60, 5, 0x40, 5]);
    run(&mut m, 2);
    assert_eq!(m.pc(), 0x204);
    // 5XY0 and 9XY0
    let mut m = machine_with(&[0x60, 5, 0x61, 5, 0x50, 0x10]);
    run(&mut m, 3);
    assert_eq!(m.pc(), 0x208);
    let mut m = machine_with(&[0x60, 5, 0x61, 5, 0x90, 0x10]);
    run(&mut m, 3);
    assert_eq!(m.pc(), 0x206);
    let mut m = machine_with(&[0x60, 5, 0x61, 4, 0x90, 0x10]);
    run(&mut m, 3);
    assert_eq!(m.pc(), 0x208);
}

#[test]
fn jumps() {
    let mut m = machine_with(&[0x13, 0x45]);
    run(&mut m, 1);
    assert_eq!(m.pc(), 0x345);
    let mut m = machine_with(&[0x63, 0x10, 0xB3, 0x00]);
    run(&mut m, 2);
    assert_eq!(m.pc(), 0x310);
}

#[test]
fn random_masks_byte() {
    let mut m = machine_with(&[0xC3, 0x0F]);
    m.step_with(&NO_KEYS, 0xAB).unwrap();
    assert_eq!(m.register(3), 0x0B);
    let mut m = machine_with(&[0xC3, 0x0F]);
    m.step(&NO_KEYS).unwrap();
    assert!(m.register(3) <= 0x0F);
}

#[test]
fn key_skips() {
    let mut keys = [false; 16];
    keys[7] = true;
    let mut m = machine_with(&[0x60, 7, 0xE0, 0x9E]);
    m.step_with(&keys, 0).unwrap();
    m.step_with(&keys, 0).unwrap();
    assert_eq!(m.pc(), 0x206);
    let mut m = machine_with(&[0x60, 7, 0xE0, 0xA1]);
    m.step_with(&keys, 0).unwrap();
    m.step_with(&keys, 0).unwrap();
    assert_eq!(m.pc(), 0x204);
    let mut m = machine_with(&[0x60, 7, 0xE0, 0xA1]);
    run(&mut m, 2);
    assert_eq!(m.pc(), 0x206);
}

#[test]
fn wait_key_holds_pc_until_pressed() {
    let mut m = machine_with(&[0xF4, 0x0A]);
    run(&mut m, 3);
    assert_eq!(m.pc(), 0x200);
    let keys = keys_holding(key_for_char('f'));
    m.step_with(&keys, 0).unwrap();
    assert_eq!(m.pc(), 0x202);
    assert_eq!(m.register(4), 0xE);
}

#[test]
fn timers_set_read_and_tick() {
    let mut m = machine_with(&[0x60, 2, 0xF0, 0x15, 0xF0, 0x18, 0xF1, 0x07]);
    run(&mut m, 4);
    assert_eq!(m.delay_timer(), 2);
    assert_eq!(m.sound_timer(), 2);
    assert_eq!(m.register(1), 2);
    m.tick_timers();
    m.tick_timers();
    m.tick_timers();
    assert_eq!(m.delay_timer(), 0);
    assert_eq!(m.sound_timer(), 0);
}

#[test]
fn add_to_index_and_quirk() {
    let mut m = machine_with(&[0xAF, 0xF0, 0x60, 0x20, 0xF0, 0x1E]);
    run(&mut m, 3);
    assert_eq!(m.index(), 0x1010);
    assert_eq!(m.register(0xF), 0);
    let mut m = machine_with(&[0xAF, 0xF0, 0x60, 0x20, 0xF0, 0x1E]);
    m.set_index_overflow_sets_vf(true);
    run(&mut m, 3);
    assert_eq!(m.index(), 0x1010);
    assert_eq!(m.register(0xF), 1);
}

#[test]
fn unknown_opcode_is_noop() {
    let mut m = machine_with(&[0x01, 0x23]);
    assert_eq!(m.step_with(&NO_KEYS, 0), Ok(Instruction::Unknown { opcode: 0x0123 }));
    assert_eq!(m.pc(), 0x202);
}

#[test]
fn fetch_past_memory_faults() {
    let mut m = machine_with(&[0x1F, 0xFF]);
    run(&mut m, 1);
    assert_eq!(m.pc(), 0xFFF);
    assert_eq!(m.fetch(), Err(Fault::PcOutOfBounds));
    assert_eq!(m.step_with(&NO_KEYS, 0), Err(Fault::PcOutOfBounds));
}

#[test]
fn restart_past_program_end() {
    let mut m = machine_with(&[0x60, 1, 0x60, 2]);
    run(&mut m, 2);
    m.restart_if_past_end(4);
    assert_eq!(m.pc(), PROGRAM_START);
    run(&mut m, 1);
    m.restart_if_past_end(4);
    assert_eq!(m.pc(), 0x202);
}

#[test]
fn keypad_layout() {
    assert_eq!(key_for_char('1'), Some(0x1));
    assert_eq!(key_for_char('4'), Some(0xC));
    assert_eq!(key_for_char('x'), Some(0x0));
    assert_eq!(key_for_char('v'), Some(0xF));
    assert_eq!(key_for_char('p'), None);
    let keys = keys_holding(Some(3));
    assert!(keys[3]);
    assert_eq!(keys.iter().filter(|&&k| k).count(), 1);
    assert!(keys_holding(None).iter().all(|&k| !k));
}

#[test]
fn execute_directly() {
    let mut m = Chip8::new();
    assert_eq!(m.execute(Instruction::SetImm { x: 2, nn: 9 }, 0, &NO_KEYS), Ok(()));
    assert_eq!(m.register(2), 9);
    assert_eq!(m.execute(Instruction::Return, 0, &NO_KEYS), Err(Fault::StackUnderflow));
}
