use nes_emulator::addressing_modes::AddressingMode;
use nes_emulator::util::{decode_opcode, map_instruction_to_addressing_mode, map_instruction_to_name, Operation};

#[test]
fn table_has_every_documented_opcode() {
    let defined = (0..=255u8).filter(|b| decode_opcode(*b).is_some()).count();
    assert_eq!(defined, 151);
}

#[test]
fn names_and_modes() {
    assert_eq!(map_instruction_to_name(0x69), "ADC");
    assert_eq!(map_instruction_to_name(0x00), "BRK");
    assert_eq!(map_instruction_to_name(0x98), "TYA");
    assert_eq!(map_instruction_to_addressing_mode(0xB1), AddressingMode::Indirect_Y);
    assert_eq!(map_instruction_to_addressing_mode(0x6C), AddressingMode::Indirect);
    assert_eq!(map_instruction_to_addressing_mode(0x0A), AddressingMode::Accumulator);
    assert_eq!(map_instruction_to_addressing_mode(0x96), AddressingMode::ZeroPage_Y);
    assert_eq!(decode_opcode(0xE9), Some((Operation::Sbc, AddressingMode::Immediate)));
    assert_eq!(decode_opcode(0xFF), None);
    assert_eq!(Operation::Jsr.name(), "JSR");
}
