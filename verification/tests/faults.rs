use chip8::chip_8::Chip8;
use chip8::chip_8_variant::Chip8Variant;
use chip8::machine::Fault;

fn boot(words: &[u16]) -> Chip8 {
    let mut image = Vec::new();
    for word in words {
        image.push((word >> 8) as u8);
        image.push((word & 0xFF) as u8);
    }
    Chip8::new(&image)
}

fn run(chip: &mut Chip8, cycles: usize) {
    for _ in 0..cycles {
        assert_eq!(chip.fault(), None);
        chip.instruction_cycle();
    }
}

#[test]
fn return_with_empty_stack_is_a_fault() {
    let mut chip = boot(&[0x6001, 0x00EE]);
    assert_eq!(chip.try_instruction_cycle(), Ok(None));
    assert_eq!(chip.fault(), Some(Fault::ReturnWithEmptyStack));
    assert_eq!(chip.try_instruction_cycle(), Err(Fault::ReturnWithEmptyStack));
    assert_eq!(chip.program_counter(), 0x202);
    assert_eq!(chip.register(0), 1);
    assert_eq!(chip.stack_depth(), 0);
}

#[test]
fn fetch_past_the_end_of_memory_is_a_fault() {
    let mut chip = boot(&[0x1FFF]);
    run(&mut chip, 1);
    assert_eq!(chip.program_counter(), 0xFFF);
    assert_eq!(chip.fault(), Some(Fault::FetchOutOfBounds));
    assert_eq!(chip.try_instruction_cycle(), Err(Fault::FetchOutOfBounds));
    assert_eq!(chip.program_counter(), 0xFFF);
}

#[test]
fn fetch_of_the_last_word_is_no_fault() {
    let mut chip = boot(&[0x1FFE]);
    run(&mut chip, 1);
    assert_eq!(chip.fault(), None);
    assert_eq!(chip.try_instruction_cycle(), Ok(Some(0x0000)));
    assert_eq!(chip.program_counter(), 0x1000);
    assert_eq!(chip.fault(), Some(Fault::FetchOutOfBounds));
}

#[test]
fn jump_with_offset_can_leave_memory() {
    let mut chip = boot(&[0x60FF, 0xBFFF]);
    run(&mut chip, 2);
    assert_eq!(chip.program_counter(), 0xFFF + 0xFF);
    assert_eq!(chip.fault(), Some(Fault::FetchOutOfBounds));
}

#[test]
fn sprite_past_the_end_of_memory_is_a_fault() {
    let mut chip = boot(&[0xAFFE, 0xD003, 0xD002]);
    run(&mut chip, 1);
    assert_eq!(chip.fault(), Some(Fault::OperandOutOfBounds));
    assert_eq!(chip.try_instruction_cycle(), Err(Fault::OperandOutOfBounds));
    assert_eq!(chip.program_counter(), 0x202);
    assert_eq!(chip.poll_draw_queue(), None);

    let mut chip = boot(&[0xAFFE, 0xD002]);
    run(&mut chip, 1);
    assert_eq!(chip.fault(), None);
    run(&mut chip, 1);
}

#[test]
fn bcd_past_the_end_of_memory_is_a_fault() {
    let mut chip = boot(&[0xAFFE, 0xF033]);
    run(&mut chip, 1);
    assert_eq!(chip.try_instruction_cycle(), Err(Fault::OperandOutOfBounds));
    let mut chip = boot(&[0xAFFD, 0x60FF, 0xF033]);
    run(&mut chip, 3);
    assert_eq!(chip.memory_at(0xFFD), 2);
    assert_eq!(chip.memory_at(0xFFE), 5);
    assert_eq!(chip.memory_at(0xFFF), 5);
}

#[test]
fn block_past_the_end_of_memory_is_a_fault() {
    let mut chip = boot(&[0xAFFD, 0xF355]);
    run(&mut chip, 1);
    assert_eq!(chip.try_instruction_cycle(), Err(Fault::OperandOutOfBounds));
    let mut chip = boot(&[0xAFFD, 0xF365]);
    run(&mut chip, 1);
    assert_eq!(chip.try_instruction_cycle(), Err(Fault::OperandOutOfBounds));
    let mut chip = boot(&[0x6207, 0xAFFD, 0xF255, 0xAFFD, 0xF165]);
    run(&mut chip, 3);
    assert_eq!(chip.index_register(), 0x1000);
    assert_eq!(chip.memory_at(0xFFF), 7);
    run(&mut chip, 2);
    assert_eq!(chip.index_register(), 0xFFF);
}

#[test]
fn a_fault_leaves_the_machine_untouched() {
    let mut chip = boot(&[0x6A11, 0xA123, 0x00EE]);
    run(&mut chip, 2);
    for _ in 0..3 {
        assert_eq!(chip.try_instruction_cycle(), Err(Fault::ReturnWithEmptyStack));
        assert_eq!(chip.program_counter(), 0x204);
        assert_eq!(chip.register(0xA), 0x11);
        assert_eq!(chip.index_register(), 0x123);
    }
}
