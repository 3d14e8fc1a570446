use chip_8::models::chip8::Chip8;
use chip_8::models::errors::ChipErrors;

fn run(chip: &mut Chip8, cycles: usize) {
    for _ in 0..cycles {
        chip.step(None, 0).unwrap();
    }
}

#[test]
fn construction_layout() {
    let chip = Chip8::new(vec![0x60, 0x05]);
    assert_eq!(chip.get_pc(), 0x200);
    assert_eq!(chip.get_i(), 0);
    assert_eq!(chip.get_sp(), 0);
    assert_eq!(chip.get_delay(), 0);
    assert_eq!(chip.get_sound(), 0);
    // Glyph for digit 0 starts at memory offset 0.
    assert_eq!(chip.get_mem(0), 0xF0);
    assert_eq!(chip.get_mem(4), 0xF0);
    // The program sits at offset 512.
    assert_eq!(chip.get_mem(0x200), 0x60);
    assert_eq!(chip.get_mem(0x201), 0x05);
    assert_eq!(chip.get_mem(0x202), 0x00);
    for x in 0..16 {
        assert_eq!(chip.get_v(x), 0);
    }
    for y in 0..32 {
        for x in 0..64 {
            assert_eq!(chip.get_gfx(x, y), 0);
        }
    }
}

#[test]
fn construction_rejects_long_program() {
    assert!(matches!(
        Chip8::try_new(vec![0; 3585]),
        Err(ChipErrors::OutOfBounds)
    ));
    assert!(Chip8::try_new(vec![0; 3584]).is_ok());
}

#[test]
fn two_instruction_program_advances() {
    // Set V0 = 5, then add 3 to V0.
    let mut chip = Chip8::new(vec![0x60, 0x05, 0x70, 0x03]);
    run(&mut chip, 2);
    assert_eq!(chip.get_v(0), 8);
    assert_eq!(chip.get_pc(), 0x200 + 4);
}

#[test]
fn add_sets_carry_on_overflow() {
    let mut chip = Chip8::new(vec![0x60, 0xFF, 0x61, 0x01, 0x80, 0x14]);
    run(&mut chip, 3);
    assert_eq!(chip.get_v(0), 0);
    assert_eq!(chip.get_v(0xF), 1);
}

#[test]
fn add_clears_carry_without_overflow() {
    let mut chip = Chip8::new(vec![0x60, 0x05, 0x61, 0x03, 0x80, 0x14]);
    run(&mut chip, 3);
    assert_eq!(chip.get_v(0), 8);
    assert_eq!(chip.get_v(0xF), 0);
}

#[test]
fn subtract_flags_larger_minuend() {
    let mut chip = Chip8::new(vec![0x60, 0x05, 0x61, 0x03, 0x80, 0x15]);
    run(&mut chip, 3);
    assert_eq!(chip.get_v(0), 2);
    assert_eq!(chip.get_v(0xF), 1);
}

#[test]
fn subtract_wraps_smaller_minuend() {
    let mut chip = Chip8::new(vec![0x60, 0x03, 0x61, 0x05, 0x80, 0x15]);
    run(&mut chip, 3);
    assert_eq!(chip.get_v(0), 254);
    assert_eq!(chip.get_v(0xF), 0);
}

#[test]
fn subtract_opposite_mirrors_operands() {
    let mut chip = Chip8::new(vec![0x60, 0x03, 0x61, 0x05, 0x80, 0x17]);
    run(&mut chip, 3);
    assert_eq!(chip.get_v(0), 2);
    assert_eq!(chip.get_v(0xF), 1);
}

#[test]
fn shifts_report_shifted_bit() {
    let mut chip = Chip8::new(vec![0x60, 0x81, 0x80, 0x0E]);
    run(&mut chip, 2);
    assert_eq!(chip.get_v(0), 0x02);
    assert_eq!(chip.get_v(0xF), 1);

    let mut chip = Chip8::new(vec![0x60, 0x81, 0x80, 0x06]);
    run(&mut chip, 2);
    assert_eq!(chip.get_v(0), 0x40);
    assert_eq!(chip.get_v(0xF), 1);
}

#[test]
fn bitwise_ops() {
    let mut chip = Chip8::new(vec![0x60, 0x0C, 0x61, 0x0A, 0x80, 0x11]);
    run(&mut chip, 3);
    assert_eq!(chip.get_v(0), 0x0E);

    let mut chip = Chip8::new(vec![0x60, 0x0C, 0x61, 0x0A, 0x80, 0x12]);
    run(&mut chip, 3);
    assert_eq!(chip.get_v(0), 0x08);

    let mut chip = Chip8::new(vec![0x60, 0x0C, 0x61, 0x0A, 0x80, 0x13]);
    run(&mut chip, 3);
    assert_eq!(chip.get_v(0), 0x06);
}

#[test]
fn binary_coded_decimal_of_157() {
    // V0 = 157, I = 0x300, then the decimal digits go to I, I+1, I+2.
    let mut chip = Chip8::new(vec![0x60, 0x9D, 0xA3, 0x00, 0xF0, 0x33]);
    run(&mut chip, 3);
    assert_eq!(chip.get_mem(0x300), 1);
    assert_eq!(chip.get_mem(0x301), 5);
    assert_eq!(chip.get_mem(0x302), 7);
}

#[test]
fn dump_then_load_restores_registers() {
    // Fill V0..V2, dump them at I = 0x300, overwrite them, load them back.
    let mut chip = Chip8::new(vec![
        0x60, 0x11, // V0 = 0x11
        0x61, 0x22, // V1 = 0x22
        0x62, 0x33, // V2 = 0x33
        0xA3, 0x00, // I = 0x300
        0xF2, 0x55, // dump V0..V2
        0x60, 0x00, // V0 = 0
        0x61, 0x00, // V1 = 0
        0x62, 0x00, // V2 = 0
        0xF2, 0x65, // load V0..V2
    ]);
    run(&mut chip, 9);
    assert_eq!(chip.get_v(0), 0x11);
    assert_eq!(chip.get_v(1), 0x22);
    assert_eq!(chip.get_v(2), 0x33);
    assert_eq!(chip.get_mem(0x300), 0x11);
    assert_eq!(chip.get_mem(0x301), 0x22);
    assert_eq!(chip.get_mem(0x302), 0x33);
}

#[test]
fn draw_clear_and_update_flags() {
    // I = 0 points at the glyph for 0; draw its 5 rows at (0, 0).
    let mut chip = Chip8::new(vec![
        0xA0, 0x00, // I = 0
        0xD0, 0x05, // draw 5 rows at (V0, V0) = (0, 0)
        0x00, 0xE0, // clear the screen
        0x60, 0x01, // V0 = 1: neither clears nor draws
    ]);
    assert_eq!(chip.step(None, 0).unwrap(), false);
    assert_eq!(chip.step(None, 0).unwrap(), true);
    // Top row of the glyph for 0 is 0xF0: four set cells.
    assert_eq!(chip.get_gfx(0, 0), 1);
    assert_eq!(chip.get_gfx(3, 0), 1);
    assert_eq!(chip.get_gfx(4, 0), 0);
    assert_eq!(chip.get_v(0xF), 0);
    // Clear reports a change and zeroes every cell.
    assert_eq!(chip.step(None, 0).unwrap(), true);
    for y in 0..32 {
        for x in 0..64 {
            assert_eq!(chip.get_gfx(x, y), 0);
        }
    }
    // An ordinary cycle reports no framebuffer change.
    assert_eq!(chip.step(None, 0).unwrap(), false);
}

#[test]
fn draw_twice_collides_and_erases() {
    let mut chip = Chip8::new(vec![
        0xA0, 0x00, // I = 0
        0xD0, 0x05, // draw the glyph
        0xD0, 0x05, // draw it again: every cell toggles back off
    ]);
    run(&mut chip, 3);
    assert_eq!(chip.get_v(0xF), 1);
    for y in 0..32 {
        for x in 0..64 {
            assert_eq!(chip.get_gfx(x, y), 0);
        }
    }
}

#[test]
fn draw_outside_grid_is_rejected() {
    let mut chip = Chip8::new(vec![
        0x60, 0x3D, // V0 = 61
        0xA0, 0x00, // I = 0
        0xD0, 0x05, // draw at (61, 61): off the grid
    ]);
    run(&mut chip, 2);
    assert!(matches!(chip.step(None, 0), Err(ChipErrors::OutOfBounds)));
}

#[test]
fn key_wait_latches_until_a_key_arrives() {
    let mut chip = Chip8::new(vec![
        0xF3, 0x0A, // wait for a key into V3
        0x60, 0x07, // V0 = 7
    ]);
    assert_eq!(chip.step(None, 0).unwrap(), false);
    assert!(chip.is_waiting());
    assert_eq!(chip.get_pc(), 0x202);
    // Three cycles with no key: nothing moves.
    for _ in 0..3 {
        assert_eq!(chip.step(None, 0).unwrap(), false);
        assert_eq!(chip.get_v(3), 0);
        assert_eq!(chip.get_pc(), 0x202);
        assert!(chip.is_waiting());
    }
    // A key arrives: its code lands in V3, still no fetch this cycle.
    assert_eq!(chip.step(Some(0xB), 0).unwrap(), false);
    assert_eq!(chip.get_v(3), 0xB);
    assert!(!chip.is_waiting());
    assert_eq!(chip.get_pc(), 0x202);
    // The next cycle fetches normally again.
    chip.step(None, 0).unwrap();
    assert_eq!(chip.get_v(0), 7);
    assert_eq!(chip.get_pc(), 0x204);
}

#[test]
fn skip_when_equal() {
    let mut chip = Chip8::new(vec![0x60, 0x05, 0x30, 0x05]);
    run(&mut chip, 2);
    assert_eq!(chip.get_pc(), 0x206);

    let mut chip = Chip8::new(vec![0x60, 0x05, 0x30, 0x06]);
    run(&mut chip, 2);
    assert_eq!(chip.get_pc(), 0x204);
}

#[test]
fn skip_on_register_comparison() {
    let mut chip = Chip8::new(vec![0x60, 0x05, 0x61, 0x05, 0x50, 0x10]);
    run(&mut chip, 3);
    assert_eq!(chip.get_pc(), 0x208);

    let mut chip = Chip8::new(vec![0x60, 0x05, 0x61, 0x06, 0x90, 0x10]);
    run(&mut chip, 3);
    assert_eq!(chip.get_pc(), 0x208);
}

#[test]
fn skip_on_pressed_key() {
    // V0 = 4; skip the next instruction when key 4 is down.
    let mut chip = Chip8::new(vec![0x60, 0x04, 0xE0, 0x9E]);
    chip.step(None, 0).unwrap();
    chip.step(Some(4), 0).unwrap();
    assert_eq!(chip.get_pc(), 0x206);

    let mut chip = Chip8::new(vec![0x60, 0x04, 0xE0, 0x9E]);
    chip.step(None, 0).unwrap();
    chip.step(None, 0).unwrap();
    assert_eq!(chip.get_pc(), 0x204);

    let mut chip = Chip8::new(vec![0x60, 0x04, 0xE0, 0xA1]);
    chip.step(None, 0).unwrap();
    chip.step(None, 0).unwrap();
    assert_eq!(chip.get_pc(), 0x206);
}

#[test]
fn call_and_return() {
    let mut chip = Chip8::new(vec![
        0x22, 0x04, // call 0x204
        0x00, 0x00, // never executed
        0x00, 0xEE, // return
    ]);
    chip.step(None, 0).unwrap();
    assert_eq!(chip.get_pc(), 0x204);
    assert_eq!(chip.get_sp(), 1);
    chip.step(None, 0).unwrap();
    assert_eq!(chip.get_pc(), 0x202);
    assert_eq!(chip.get_sp(), 0);
}

#[test]
fn return_on_empty_stack_is_rejected() {
    let mut chip = Chip8::new(vec![0x00, 0xEE]);
    assert!(matches!(chip.step(None, 0), Err(ChipErrors::OutOfBounds)));
}

#[test]
fn bcd_beyond_memory_is_rejected() {
    let mut chip = Chip8::new(vec![0xAF, 0xFF, 0xF0, 0x33]);
    chip.step(None, 0).unwrap();
    assert!(matches!(chip.step(None, 0), Err(ChipErrors::OutOfBounds)));
}

#[test]
fn unrecognized_word_stops_the_run() {
    let mut chip = Chip8::new(vec![0xFF, 0xFF]);
    assert!(matches!(
        chip.step(None, 0),
        Err(ChipErrors::UnknownOpcode(0xFFFF))
    ));
}

#[test]
fn random_byte_is_masked() {
    let mut chip = Chip8::new(vec![0xC0, 0xF0]);
    chip.step(None, 0xAB).unwrap();
    assert_eq!(chip.get_v(0), 0xA0);
}

#[test]
fn timers_count_down_per_cycle() {
    let mut chip = Chip8::new(vec![
        0x60, 0x05, // V0 = 5
        0xF0, 0x15, // delay timer = V0
        0xF1, 0x07, // V1 = delay timer (after this cycle's tick)
    ]);
    run(&mut chip, 2);
    assert_eq!(chip.get_delay(), 5);
    chip.step(None, 0).unwrap();
    assert_eq!(chip.get_delay(), 4);
    assert_eq!(chip.get_v(1), 4);
}

#[test]
fn jump_and_jump_plus() {
    let mut chip = Chip8::new(vec![0x12, 0x06]);
    chip.step(None, 0).unwrap();
    assert_eq!(chip.get_pc(), 0x206);

    let mut chip = Chip8::new(vec![0x60, 0x05, 0xB3, 0x00]);
    run(&mut chip, 2);
    assert_eq!(chip.get_pc(), 0x305);
}

#[test]
fn sprite_address_points_at_glyph() {
    let mut chip = Chip8::new(vec![0x60, 0x0A, 0xF0, 0x29]);
    run(&mut chip, 2);
    assert_eq!(chip.get_i(), 50);
}

#[test]
fn add_memory_accumulates_in_i() {
    let mut chip = Chip8::new(vec![0xA1, 0x00, 0x60, 0x23, 0xF0, 0x1E]);
    run(&mut chip, 3);
    assert_eq!(chip.get_i(), 0x123);
}
