use chip8::chip_8::InstructionDecode;

#[test]
fn decode_splits_a_word_into_its_fields() {
    let fields = InstructionDecode::decode(0xD12F);
    assert_eq!(fields.opcode, 0xD);
    assert_eq!(fields.x, 0x1);
    assert_eq!(fields.y, 0x2);
    assert_eq!(fields.funct, 0xF);
    assert_eq!(fields.immediate, 0x2F);
    assert_eq!(fields.address, 0x12F);
}

#[test]
fn decode_of_zero_is_all_zero() {
    let fields = InstructionDecode::decode(0x0000);
    assert_eq!(fields.opcode, 0);
    assert_eq!(fields.x, 0);
    assert_eq!(fields.y, 0);
    assert_eq!(fields.funct, 0);
    assert_eq!(fields.immediate, 0);
    assert_eq!(fields.address, 0);
}

#[test]
fn decode_of_all_ones_fills_every_field() {
    let fields = InstructionDecode::decode(0xFFFF);
    assert_eq!(fields.opcode, 0xF);
    assert_eq!(fields.x, 0xF);
    assert_eq!(fields.y, 0xF);
    assert_eq!(fields.funct, 0xF);
    assert_eq!(fields.immediate, 0xFF);
    assert_eq!(fields.address, 0xFFF);
}

#[test]
fn decode_is_total_and_consistent() {
    let mut word: u32 = 0;
    while word <= 0xFFFF {
        let w = word as u16;
        let fields = InstructionDecode::decode(w);
        assert_eq!(fields.opcode as u16, w >> 12);
        assert_eq!(fields.x as u16, (w >> 8) & 0xF);
        assert_eq!(fields.y as u16, (w >> 4) & 0xF);
        assert_eq!(fields.funct as u16, w & 0xF);
        assert_eq!(fields.immediate as u16, w & 0xFF);
        assert_eq!(fields.address, w & 0xFFF);
        word += 1;
    }
}
