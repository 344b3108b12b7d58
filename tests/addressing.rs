use nes_emulator::addressing_modes::{get_operator_from_addressing_mode, AddressingMode};
use nes_emulator::cpu::CPU;

#[test]
fn effective_addresses() {
    let mut cpu = CPU::new(vec![0x00, 0xF0, 0x12]);
    cpu.registers.x = 0x20;
    cpu.registers.y = 0x01;
    cpu.write16(0x10, 0x3456);
    cpu.write16(0xF0, 0x789A);
    cpu.write16(0x12F0, 0xBCDE);
    assert_eq!(get_operator_from_addressing_mode(&mut cpu, AddressingMode::Immediate), 0x8001);
    assert_eq!(get_operator_from_addressing_mode(&mut cpu, AddressingMode::ZeroPage), 0x00F0);
    assert_eq!(get_operator_from_addressing_mode(&mut cpu, AddressingMode::ZeroPage_X), 0x0010);
    assert_eq!(get_operator_from_addressing_mode(&mut cpu, AddressingMode::ZeroPage_Y), 0x00F1);
    assert_eq!(get_operator_from_addressing_mode(&mut cpu, AddressingMode::Absolute), 0x12F0);
    assert_eq!(get_operator_from_addressing_mode(&mut cpu, AddressingMode::Absolute_X), 0x1310);
    assert_eq!(get_operator_from_addressing_mode(&mut cpu, AddressingMode::Absolute_Y), 0x12F1);
    assert_eq!(get_operator_from_addressing_mode(&mut cpu, AddressingMode::Indirect), 0xBCDE);
    assert_eq!(get_operator_from_addressing_mode(&mut cpu, AddressingMode::Indirect_X), 0x3456);
    assert_eq!(get_operator_from_addressing_mode(&mut cpu, AddressingMode::Indirect_Y), 0x789B);
}

#[test]
fn indirect_pointer_wraps_in_zero_page() {
    let mut cpu = CPU::new(vec![0x00, 0xFF]);
    cpu.write(0xFF, 0x34);
    cpu.write(0x00, 0x12);
    assert_eq!(get_operator_from_addressing_mode(&mut cpu, AddressingMode::Indirect_Y), 0x1234);
}

#[test]
fn absolute_indexed_wraps_at_16_bits() {
    let mut cpu = CPU::new(vec![0x00, 0xFF, 0xFF]);
    cpu.registers.x = 0x03;
    assert_eq!(get_operator_from_addressing_mode(&mut cpu, AddressingMode::Absolute_X), 0x0002);
}
