use chip_8::input::keyboard::Key;
use chip_8::input::keyboard::Keyboard;
use chip_8::models::chip8::Chip8;

#[test]
fn key_codes() {
    assert_eq!(Key::Key0.get_code(), 0x0);
    assert_eq!(Key::Key1.get_code(), 0x1);
    assert_eq!(Key::Key9.get_code(), 0x9);
    assert_eq!(Key::KeyA.get_code(), 0xA);
    assert_eq!(Key::KeyC.get_code(), 0xC);
    assert_eq!(Key::KeyF.get_code(), 0xF);
}

#[test]
fn empty_snapshot_reports_no_key() {
    let keyboard = Keyboard::new();
    assert_eq!(keyboard.get_pressed_key(), None);
}

#[test]
fn pressed_key_is_reported() {
    let mut keyboard = Keyboard::new();
    keyboard.press(Key::Key5);
    assert_eq!(keyboard.get_pressed_key(), Some(5));
}

#[test]
fn lowest_code_wins_when_several_are_down() {
    let mut keyboard = Keyboard::new();
    keyboard.press(Key::KeyC);
    keyboard.press(Key::Key3);
    assert_eq!(keyboard.get_pressed_key(), Some(3));
}

#[test]
fn cycle_against_snapshot() {
    // The machine waits for a key; the snapshot supplies one.
    let mut chip = Chip8::new(vec![0xF2, 0x0A]);
    let empty = Keyboard::new();
    let first = chip.emulateCycle(&empty).unwrap();
    assert_eq!(first.draw_update, false);
    assert_eq!(first.gfx.len(), 2048);
    assert!(first.gfx.iter().all(|&cell| cell == 0));
    assert!(chip.is_waiting());

    let mut pressed = Keyboard::new();
    pressed.press(Key::KeyD);
    chip.emulateCycle(&pressed).unwrap();
    assert!(!chip.is_waiting());
    assert_eq!(chip.get_v(2), 0xD);
}
