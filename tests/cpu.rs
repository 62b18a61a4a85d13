use damn8::{decode, Instruction, LoadError, Progress, CPU};

fn boot(rom: &[u8]) -> CPU {
    CPU::new(rom).unwrap()
}

fn run(cpu: &mut CPU, cycles: usize) {
    for _ in 0..cycles {
        cpu.step(0);
    }
}

fn registers(cpu: &CPU) -> Vec<u8> {
    (0..16).map(|i| cpu.register(i)).collect()
}

fn memory(cpu: &CPU) -> Vec<u8> {
    (0..4096).map(|a| cpu.memory_at(a)).collect()
}

#[test]
fn new_loads_font_and_program() {
    let cpu = boot(&[0x12, 0x34, 0x56]);
    assert_eq!(cpu.pc(), 0x200);
    assert_eq!(cpu.memory_at(0), 0xF0);
    assert_eq!(cpu.memory_at(5), 0x20);
    assert_eq!(cpu.memory_at(79), 0x80);
    assert_eq!(cpu.memory_at(80), 0);
    assert_eq!(cpu.memory_at(0x200), 0x12);
    assert_eq!(cpu.memory_at(0x202), 0x56);
    assert_eq!(cpu.memory_at(0x203), 0);
    assert_eq!(registers(&cpu), vec![0u8; 16]);
    assert_eq!(cpu.index_register(), 0);
    assert_eq!(cpu.stack_pointer(), 0);
    assert_eq!(cpu.delay_timer(), 0);
    assert_eq!(cpu.sound_timer(), 0);
    assert!(cpu.gfx().iter().all(|&c| c == 0));
    assert!(!cpu.draw_flag());
}

#[test]
fn rom_too_large_is_rejected() {
    assert!(matches!(CPU::new(&vec![0u8; 3585]), Err(LoadError::RomTooLarge)));
}

#[test]
fn largest_rom_fits() {
    let mut rom = vec![0u8; 3584];
    rom[3583] = 0xAB;
    let cpu = CPU::new(&rom).unwrap();
    assert_eq!(cpu.memory_at(4095), 0xAB);
}

#[test]
fn set_immediate_sets_register_and_advances() {
    let mut cpu = boot(&[0x6A, 0x42, 0x6F, 0xFF]);
    cpu.step(0);
    assert_eq!(cpu.register(0xA), 0x42);
    assert_eq!(cpu.pc(), 0x202);
    cpu.step(0);
    assert_eq!(cpu.register(0xF), 0xFF);
    assert_eq!(cpu.pc(), 0x204);
}

#[test]
fn call_then_return_round_trips() {
    // 0x200: call 0x206; 0x202: V1 := 7; 0x206: V2 := 1; 0x208: return
    let mut cpu = boot(&[0x22, 0x06, 0x61, 0x07, 0x00, 0x00, 0x62, 0x01, 0x00, 0xEE]);
    cpu.step(0);
    assert_eq!(cpu.pc(), 0x206);
    assert_eq!(cpu.stack_pointer(), 1);
    cpu.step(0);
    cpu.step(0);
    assert_eq!(cpu.pc(), 0x202);
    assert_eq!(cpu.stack_pointer(), 0);
    cpu.step(0);
    assert_eq!(cpu.register(1), 7);
}

#[test]
fn return_on_empty_stack_is_ignored() {
    let mut cpu = boot(&[0x00, 0xEE]);
    cpu.step(0);
    assert_eq!(cpu.pc(), 0x202);
    assert_eq!(cpu.stack_pointer(), 0);
}

#[test]
fn call_on_full_stack_is_ignored() {
    // 0x200: call 0x200, sixteen times fills the stack; the seventeenth is skipped.
    let mut cpu = boot(&[0x22, 0x00]);
    run(&mut cpu, 16);
    assert_eq!(cpu.stack_pointer(), 16);
    assert_eq!(cpu.pc(), 0x200);
    cpu.step(0);
    assert_eq!(cpu.stack_pointer(), 16);
    assert_eq!(cpu.pc(), 0x202);
}

#[test]
fn add_with_carry_sets_flag() {
    let mut cpu = boot(&[0x60, 250, 0x61, 10, 0x80, 0x14]);
    run(&mut cpu, 3);
    assert_eq!(cpu.register(0), 4);
    assert_eq!(cpu.register(0xF), 1);
}

#[test]
fn add_without_carry_clears_flag() {
    let mut cpu = boot(&[0x6F, 9, 0x60, 245, 0x61, 10, 0x80, 0x14]);
    run(&mut cpu, 4);
    assert_eq!(cpu.register(0), 255);
    assert_eq!(cpu.register(0xF), 0);
}

#[test]
fn subtract_with_borrow_clears_flag() {
    let mut cpu = boot(&[0x60, 5, 0x61, 10, 0x80, 0x15]);
    run(&mut cpu, 3);
    assert_eq!(cpu.register(0), 251);
    assert_eq!(cpu.register(0xF), 0);
}

#[test]
fn subtract_equal_sets_flag() {
    let mut cpu = boot(&[0x60, 10, 0x61, 10, 0x80, 0x15]);
    run(&mut cpu, 3);
    assert_eq!(cpu.register(0), 0);
    assert_eq!(cpu.register(0xF), 1);
}

#[test]
fn reverse_subtract() {
    let mut cpu = boot(&[0x60, 5, 0x61, 10, 0x80, 0x17, 0x62, 10, 0x63, 5, 0x82, 0x37]);
    run(&mut cpu, 3);
    assert_eq!(cpu.register(0), 5);
    assert_eq!(cpu.register(0xF), 1);
    run(&mut cpu, 3);
    assert_eq!(cpu.register(2), 251);
    assert_eq!(cpu.register(0xF), 0);
}

#[test]
fn shifts_move_the_outgoing_bit_into_flag() {
    let mut cpu = boot(&[0x60, 0x81, 0x80, 0x06, 0x61, 0x81, 0x81, 0x0E, 0x62, 0x40, 0x82, 0x0E]);
    run(&mut cpu, 2);
    assert_eq!(cpu.register(0), 0x40);
    assert_eq!(cpu.register(0xF), 1);
    run(&mut cpu, 2);
    assert_eq!(cpu.register(1), 0x02);
    assert_eq!(cpu.register(0xF), 1);
    run(&mut cpu, 2);
    assert_eq!(cpu.register(2), 0x80);
    assert_eq!(cpu.register(0xF), 0);
}

#[test]
fn flag_write_wins_over_result_in_vf() {
    let mut cpu = boot(&[0x6F, 200, 0x61, 100, 0x8F, 0x14]);
    run(&mut cpu, 3);
    assert_eq!(cpu.register(0xF), 1);
}

#[test]
fn bitwise_and_assign() {
    let mut cpu = boot(&[
        0x60, 0b1100, 0x61, 0b1010, 0x62, 0b1100, 0x63, 0b1100, 0x80, 0x11, 0x82, 0x12, 0x83, 0x13,
        0x84, 0x10,
    ]);
    run(&mut cpu, 8);
    assert_eq!(cpu.register(0), 0b1110);
    assert_eq!(cpu.register(2), 0b1000);
    assert_eq!(cpu.register(3), 0b0110);
    assert_eq!(cpu.register(4), 0b1010);
}

#[test]
fn add_immediate_wraps_without_flag() {
    let mut cpu = boot(&[0x60, 0xFF, 0x70, 0x02]);
    run(&mut cpu, 2);
    assert_eq!(cpu.register(0), 1);
    assert_eq!(cpu.register(0xF), 0);
    assert_eq!(cpu.pc(), 0x204);
}

#[test]
fn bcd_writes_three_digits() {
    let mut cpu = boot(&[0x60, 156, 0xA3, 0x00, 0xF0, 0x33]);
    run(&mut cpu, 3);
    assert_eq!(cpu.memory_at(0x300), 1);
    assert_eq!(cpu.memory_at(0x301), 5);
    assert_eq!(cpu.memory_at(0x302), 6);
}

#[test]
fn bcd_writes_leading_zeros() {
    let mut cpu = boot(&[0x60, 7, 0xA3, 0x00, 0xF0, 0x33]);
    run(&mut cpu, 3);
    assert_eq!(cpu.memory_at(0x300), 0);
    assert_eq!(cpu.memory_at(0x301), 0);
    assert_eq!(cpu.memory_at(0x302), 7);
}

#[test]
fn draw_then_redraw_collides() {
    // clear; I := 0x208; draw at (V0, V1) = (0, 0) height 1, twice; sprite byte 0xFF.
    let mut cpu = boot(&[0x00, 0xE0, 0xA2, 0x08, 0xD0, 0x11, 0xD0, 0x11, 0xFF]);
    run(&mut cpu, 3);
    let gfx = cpu.gfx();
    assert!(gfx[0..8].iter().all(|&c| c == 1));
    assert!(gfx[8..].iter().all(|&c| c == 0));
    assert_eq!(cpu.register(0xF), 0);
    assert!(cpu.draw_flag());
    cpu.step(0);
    assert!(cpu.gfx().iter().all(|&c| c == 0));
    assert_eq!(cpu.register(0xF), 1);
}

#[test]
fn draw_wraps_around_the_screen() {
    // V0 := 62, V1 := 31, I := font glyph 0 (0xF0, 0x90, ...), draw 2 rows.
    let mut cpu = boot(&[0x60, 62, 0x61, 31, 0xA0, 0x00, 0xD0, 0x12]);
    run(&mut cpu, 4);
    let gfx = cpu.gfx();
    // row 0 of the glyph (0xF0) on y = 31, x = 62, 63, 0, 1
    assert_eq!(gfx[31 * 64 + 62], 1);
    assert_eq!(gfx[31 * 64 + 63], 1);
    assert_eq!(gfx[31 * 64], 1);
    assert_eq!(gfx[31 * 64 + 1], 1);
    assert_eq!(gfx[31 * 64 + 2], 0);
    // row 1 (0x90) wraps to y = 0: x = 62 and x = 1
    assert_eq!(gfx[62], 1);
    assert_eq!(gfx[63], 0);
    assert_eq!(gfx[0], 0);
    assert_eq!(gfx[1], 1);
    assert_eq!(gfx.iter().filter(|&&c| c == 1).count(), 6);
}

#[test]
fn clear_screen_sets_draw_flag() {
    let mut cpu = boot(&[0x00, 0xE0]);
    cpu.step(0);
    assert!(cpu.draw_flag());
    cpu.clear_draw_flag();
    assert!(!cpu.draw_flag());
    assert_eq!(cpu.pc(), 0x202);
}

#[test]
fn delay_timer_counts_down_to_zero() {
    let mut cpu = boot(&[0x60, 3, 0xF0, 0x15, 0x00, 0x00, 0x00, 0x00, 0x00, 0x00, 0x00, 0x00]);
    run(&mut cpu, 2);
    run(&mut cpu, 3);
    assert_eq!(cpu.delay_timer(), 0);
    cpu.step(0);
    assert_eq!(cpu.delay_timer(), 0);
}

#[test]
fn timers_set_read_and_tick() {
    let mut cpu = boot(&[0x60, 5, 0xF0, 0x15, 0xF0, 0x18, 0xF1, 0x07]);
    run(&mut cpu, 2);
    assert_eq!(cpu.delay_timer(), 4);
    cpu.step(0);
    assert_eq!(cpu.sound_timer(), 4);
    assert_eq!(cpu.delay_timer(), 3);
    cpu.step(0);
    assert_eq!(cpu.register(1), 3);
    assert_eq!(cpu.delay_timer(), 2);
    assert_eq!(cpu.sound_timer(), 3);
}

#[test]
fn skip_if_equal_immediate() {
    let mut cpu = boot(&[0x65, 5, 0x35, 5]);
    run(&mut cpu, 2);
    assert_eq!(cpu.pc(), 0x206);
    let mut cpu = boot(&[0x65, 5, 0x35, 6]);
    run(&mut cpu, 2);
    assert_eq!(cpu.pc(), 0x204);
}

#[test]
fn skip_if_not_equal_and_register_compares() {
    let mut cpu = boot(&[0x65, 5, 0x45, 6]);
    run(&mut cpu, 2);
    assert_eq!(cpu.pc(), 0x206);
    let mut cpu = boot(&[0x65, 5, 0x66, 5, 0x55, 0x60]);
    run(&mut cpu, 3);
    assert_eq!(cpu.pc(), 0x208);
    let mut cpu = boot(&[0x65, 5, 0x66, 5, 0x95, 0x60]);
    run(&mut cpu, 3);
    assert_eq!(cpu.pc(), 0x206);
}

#[test]
fn unknown_words_only_advance_pc() {
    for word in [0x0123u16, 0x8AB8, 0x8ABF, 0xE1FF, 0xF1FF, 0x0000] {
        let rom = [0x60, 9, 0xA3, 0x21, (word >> 8) as u8, word as u8];
        let mut cpu = boot(&rom);
        run(&mut cpu, 2);
        let regs = registers(&cpu);
        let mem = memory(&cpu);
        let sp = cpu.stack_pointer();
        let index = cpu.index_register();
        cpu.step(0);
        assert_eq!(cpu.pc(), 0x206);
        assert_eq!(registers(&cpu), regs);
        assert_eq!(memory(&cpu), mem);
        assert_eq!(cpu.stack_pointer(), sp);
        assert_eq!(cpu.index_register(), index);
    }
}

#[test]
fn jumps() {
    let mut cpu = boot(&[0x13, 0x45]);
    cpu.step(0);
    assert_eq!(cpu.pc(), 0x345);
    let mut cpu = boot(&[0x60, 0x10, 0xB3, 0x00]);
    run(&mut cpu, 2);
    assert_eq!(cpu.pc(), 0x310);
}

#[test]
fn random_is_masked() {
    let mut cpu = boot(&[0xC3, 0x0F]);
    cpu.step(0xAB);
    assert_eq!(cpu.register(3), 0x0B);
    assert_eq!(cpu.pc(), 0x202);
}

#[test]
fn random_from_thread_generator_respects_mask() {
    let mut cpu = boot(&[0xC3, 0x0F, 0xC4, 0x00]);
    cpu.cycle();
    assert!(cpu.register(3) <= 0x0F);
    assert_eq!(cpu.pc(), 0x202);
    cpu.cycle();
    assert_eq!(cpu.register(4), 0);
}

#[test]
fn font_glyph_address() {
    let mut cpu = boot(&[0x60, 0xA, 0xF0, 0x29]);
    run(&mut cpu, 2);
    assert_eq!(cpu.index_register(), 50);
}

#[test]
fn register_dump_and_load() {
    // V0..V2 := 1, 2, 3; I := 0x300; dump V0..=V2; I := 0x300; load V0..=V3 into fresh values.
    let mut cpu = boot(&[
        0x60, 1, 0x61, 2, 0x62, 3, 0x63, 9, 0xA3, 0x00, 0xF2, 0x55, 0x60, 0, 0x61, 0, 0xA3, 0x00,
        0xF3, 0x65,
    ]);
    run(&mut cpu, 6);
    assert_eq!(cpu.memory_at(0x300), 1);
    assert_eq!(cpu.memory_at(0x301), 2);
    assert_eq!(cpu.memory_at(0x302), 3);
    assert_eq!(cpu.memory_at(0x303), 0);
    assert_eq!(cpu.index_register(), 0x303);
    run(&mut cpu, 4);
    assert_eq!(cpu.register(0), 1);
    assert_eq!(cpu.register(1), 2);
    assert_eq!(cpu.register(2), 3);
    assert_eq!(cpu.register(3), 0);
    assert_eq!(cpu.index_register(), 0x304);
}

#[test]
fn key_wait_blocks_until_a_press() {
    let mut cpu = boot(&[0xF5, 0x0A]);
    assert_eq!(cpu.step(0), Progress::WaitingForKey);
    assert_eq!(cpu.pc(), 0x200);
    assert_eq!(cpu.step(0), Progress::WaitingForKey);
    cpu.press_key(0xC);
    assert_eq!(cpu.step(0), Progress::Executed);
    assert_eq!(cpu.register(5), 0xC);
    assert_eq!(cpu.pc(), 0x202);
}

#[test]
fn skip_on_key_state() {
    let mut cpu = boot(&[0x60, 4, 0xE0, 0x9E, 0x00, 0x00, 0xE0, 0xA1]);
    cpu.press_key(4);
    run(&mut cpu, 2);
    assert_eq!(cpu.pc(), 0x206);
    cpu.release_key(4);
    cpu.clear_input();
    assert!(!cpu.is_key_down(4));
    cpu.step(0);
    assert_eq!(cpu.pc(), 0x20A);
}

#[test]
fn skip_on_key_past_keypad_counts_as_up() {
    let mut cpu = boot(&[0x60, 200, 0xE0, 0x9E]);
    run(&mut cpu, 2);
    assert_eq!(cpu.pc(), 0x204);
}

#[test]
fn decode_words() {
    assert_eq!(decode(0x00E0), Instruction::ClearScreen);
    assert_eq!(decode(0x00EE), Instruction::Return);
    assert_eq!(decode(0x1ABC), Instruction::Jump { nnn: 0xABC });
    assert_eq!(decode(0x8AB4), Instruction::AddCarry { x: 0xA, y: 0xB });
    assert_eq!(decode(0x8ABE), Instruction::ShiftLeft { x: 0xA });
    assert_eq!(decode(0xD12F), Instruction::Draw { x: 1, y: 2, n: 0xF });
    assert_eq!(decode(0xF765), Instruction::RegLoad { x: 7 });
    assert_eq!(decode(0xF766), Instruction::Unknown);
    assert_eq!(decode(0x8AB9), Instruction::Unknown);
}
