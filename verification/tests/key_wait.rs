use chip8::chip_8::Chip8;
use chip8::chip_8_variant::Chip8Variant;
use chip8::keypad::{keypad_key, ElementState, KeyCode};
use chip8::machine::KeyWait;

fn boot(words: &[u16]) -> Chip8 {
    let mut image = Vec::new();
    for word in words {
        image.push((word >> 8) as u8);
        image.push((word & 0xFF) as u8);
    }
    Chip8::new(&image)
}

fn cycle(chip: &mut Chip8) {
    assert_eq!(chip.fault(), None);
    chip.instruction_cycle();
}

#[test]
fn key_wait_resolves_on_the_third_poll() {
    let mut chip = boot(&[0xF30A, 0x6001]);
    assert_eq!(chip.key_wait(), KeyWait::Idle);
    assert!(!chip.waiting());

    cycle(&mut chip);
    assert_eq!(chip.key_wait(), KeyWait::Waiting);
    assert!(chip.waiting());
    assert_eq!(chip.program_counter(), 0x200);

    chip.handle_key(5, true);
    assert_eq!(chip.key_wait(), KeyWait::Pressed(5));
    assert!(chip.waiting());

    cycle(&mut chip);
    assert_eq!(chip.key_wait(), KeyWait::Pressed(5));
    assert_eq!(chip.program_counter(), 0x200);
    assert_eq!(chip.register(3), 0);

    chip.handle_key(5, false);
    assert_eq!(chip.key_wait(), KeyWait::Released(5));
    assert!(!chip.waiting());
    assert_eq!(chip.register(3), 0);
    assert_eq!(chip.program_counter(), 0x200);

    cycle(&mut chip);
    assert_eq!(chip.key_wait(), KeyWait::Idle);
    assert_eq!(chip.register(3), 5);
    assert_eq!(chip.program_counter(), 0x202);

    cycle(&mut chip);
    assert_eq!(chip.register(0), 1);
    assert_eq!(chip.program_counter(), 0x204);
}

#[test]
fn release_of_another_key_does_not_resolve() {
    let mut chip = boot(&[0xF30A]);
    cycle(&mut chip);
    chip.handle_key(5, true);
    cycle(&mut chip);
    chip.handle_key(3, false);
    assert_eq!(chip.key_wait(), KeyWait::Pressed(5));
    assert!(chip.waiting());
    for _ in 0..10 {
        cycle(&mut chip);
        assert_eq!(chip.program_counter(), 0x200);
        assert_eq!(chip.register(3), 0);
        assert_eq!(chip.key_wait(), KeyWait::Pressed(5));
    }
    chip.handle_key(5, false);
    cycle(&mut chip);
    assert_eq!(chip.register(3), 5);
    assert_eq!(chip.program_counter(), 0x202);
}

#[test]
fn a_second_key_down_does_not_replace_the_candidate() {
    let mut chip = boot(&[0xF00A]);
    cycle(&mut chip);
    chip.handle_key(7, true);
    chip.handle_key(9, true);
    assert_eq!(chip.key_wait(), KeyWait::Pressed(7));
    chip.handle_key(9, false);
    assert_eq!(chip.key_wait(), KeyWait::Pressed(7));
    chip.handle_key(7, false);
    assert_eq!(chip.key_wait(), KeyWait::Released(7));
    cycle(&mut chip);
    assert_eq!(chip.register(0), 7);
}

#[test]
fn a_release_while_waiting_is_ignored() {
    let mut chip = boot(&[0xF00A]);
    chip.handle_key(4, true);
    cycle(&mut chip);
    assert_eq!(chip.key_wait(), KeyWait::Waiting);
    chip.handle_key(4, false);
    assert_eq!(chip.key_wait(), KeyWait::Waiting);
    cycle(&mut chip);
    assert_eq!(chip.program_counter(), 0x200);
    assert!(chip.waiting());
}

#[test]
fn key_events_outside_a_wait_only_move_the_keypad() {
    let mut chip = boot(&[0x600B, 0xE09E]);
    chip.handle_key(0xB, true);
    assert_eq!(chip.key_wait(), KeyWait::Idle);
    cycle(&mut chip);
    cycle(&mut chip);
    assert_eq!(chip.program_counter(), 0x206);
    chip.handle_key(0xB, false);
    assert_eq!(chip.key_wait(), KeyWait::Idle);
}

#[test]
fn timers_run_during_a_wait() {
    let mut chip = boot(&[0x6005, 0xF015, 0xF10A]);
    cycle(&mut chip);
    cycle(&mut chip);
    cycle(&mut chip);
    assert!(chip.waiting());
    chip.decrement_timers();
    cycle(&mut chip);
    chip.decrement_timers();
    assert_eq!(chip.delay_timer(), 3);
    assert_eq!(chip.program_counter(), 0x204);
}

#[test]
fn host_keys_reach_the_wait_through_the_keypad() {
    let mut chip = boot(&[0xF20A]);
    cycle(&mut chip);
    chip.handle_input(KeyCode::Other, ElementState::Pressed);
    assert_eq!(chip.key_wait(), KeyWait::Waiting);
    chip.handle_input(KeyCode::KeyW, ElementState::Pressed);
    assert_eq!(chip.key_wait(), KeyWait::Pressed(5));
    chip.handle_input(KeyCode::Digit3, ElementState::Released);
    assert_eq!(chip.key_wait(), KeyWait::Pressed(5));
    chip.handle_input(KeyCode::KeyW, ElementState::Released);
    assert_eq!(chip.key_wait(), KeyWait::Released(5));
    cycle(&mut chip);
    assert_eq!(chip.register(2), 5);
    assert_eq!(chip.program_counter(), 0x202);
}

#[test]
fn keypad_layout() {
    let layout = [
        (KeyCode::KeyX, 0x0u8),
        (KeyCode::Digit1, 0x1),
        (KeyCode::Digit2, 0x2),
        (KeyCode::Digit3, 0x3),
        (KeyCode::KeyQ, 0x4),
        (KeyCode::KeyW, 0x5),
        (KeyCode::KeyE, 0x6),
        (KeyCode::KeyA, 0x7),
        (KeyCode::KeyS, 0x8),
        (KeyCode::KeyD, 0x9),
        (KeyCode::KeyZ, 0xA),
        (KeyCode::KeyC, 0xB),
        (KeyCode::Digit4, 0xC),
        (KeyCode::KeyR, 0xD),
        (KeyCode::KeyF, 0xE),
        (KeyCode::KeyV, 0xF),
    ];
    for (key_code, key) in layout {
        assert_eq!(keypad_key(key_code), Some(key));
    }
    assert_eq!(keypad_key(KeyCode::Other), None);
}

#[test]
fn element_state_is_pressed() {
    assert!(ElementState::Pressed.is_pressed());
    assert!(!ElementState::Released.is_pressed());
}
