use vstd::prelude::*;

use crate::addressing_modes::{operand_length, AddressingMode};

verus! {

/// The instruction set of the 6502, one variant per mnemonic.
#[derive(Debug, PartialEq, Eq, Clone, Copy, Structural)]
pub enum Operation {
    Adc,
    And,
    Asl,
    Bcc,
    Bcs,
    Beq,
    Bit,
    Bmi,
    Bne,
    Bpl,
    Brk,
    Bvc,
    Bvs,
    Clc,
    Cld,
    Cli,
    Clv,
    Cmp,
    Cpx,
    Cpy,
    Dec,
    Dex,
    Dey,
    Eor,
    Inc,
    Inx,
    Iny,
    Jmp,
    Jsr,
    Lda,
    Ldx,
    Ldy,
    Lsr,
    Nop,
    Ora,
    Pha,
    Php,
    Pla,
    Plp,
    Rol,
    Ror,
    Rti,
    Rts,
    Sbc,
    Sec,
    Sed,
    Sei,
    Sta,
    Stx,
    Sty,
    Tax,
    Tay,
    Tsx,
    Txa,
    Txs,
    Tya,
}

/// The opcode table: the operation and addressing mode of each defined opcode,
/// `None` for the bytes that are not 6502 instructions.
pub open spec fn opcode_entry(opcode: u8) -> Option<(Operation, AddressingMode)> {
    match opcode {
        0x00u8 => Some((Operation::Brk, AddressingMode::Implied)),
        0x01u8 => Some((Operation::Ora, AddressingMode::Indirect_X)),
        0x05u8 => Some((Operation::Ora, AddressingMode::ZeroPage)),
        0x06u8 => Some((Operation::Asl, AddressingMode::ZeroPage)),
        0x08u8 => Some((Operation::Php, AddressingMode::Implied)),
        0x09u8 => Some((Operation::Ora, AddressingMode::Immediate)),
        0x0Au8 => Some((Operation::Asl, AddressingMode::Accumulator)),
        0x0Du8 => Some((Operation::Ora, AddressingMode::Absolute)),
        0x0Eu8 => Some((Operation::Asl, AddressingMode::Absolute)),
        0x10u8 => Some((Operation::Bpl, AddressingMode::Relative)),
        0x11u8 => Some((Operation::Ora, AddressingMode::Indirect_Y)),
        0x15u8 => Some((Operation::Ora, AddressingMode::ZeroPage_X)),
        0x16u8 => Some((Operation::Asl, AddressingMode::ZeroPage_X)),
        0x18u8 => Some((Operation::Clc, AddressingMode::Implied)),
        0x19u8 => Some((Operation::Ora, AddressingMode::Absolute_Y)),
        0x1Du8 => Some((Operation::Ora, AddressingMode::Absolute_X)),
        0x1Eu8 => Some((Operation::Asl, AddressingMode::Absolute_X)),
        0x20u8 => Some((Operation::Jsr, AddressingMode::Absolute)),
        0x21u8 => Some((Operation::And, AddressingMode::Indirect_X)),
        0x24u8 => Some((Operation::Bit, AddressingMode::ZeroPage)),
        0x25u8 => Some((Operation::And, AddressingMode::ZeroPage)),
        0x26u8 => Some((Operation::Rol, AddressingMode::ZeroPage)),
        0x28u8 => Some((Operation::Plp, AddressingMode::Implied)),
        0x29u8 => Some((Operation::And, AddressingMode::Immediate)),
        0x2Au8 => Some((Operation::Rol, AddressingMode::Accumulator)),
        0x2Cu8 => Some((Operation::Bit, AddressingMode::Absolute)),
        0x2Du8 => Some((Operation::And, AddressingMode::Absolute)),
        0x2Eu8 => Some((Operation::Rol, AddressingMode::Absolute)),
        0x30u8 => Some((Operation::Bmi, AddressingMode::Relative)),
        0x31u8 => Some((Operation::And, AddressingMode::Indirect_Y)),
        0x35u8 => Some((Operation::And, AddressingMode::ZeroPage_X)),
        0x36u8 => Some((Operation::Rol, AddressingMode::ZeroPage_X)),
        0x38u8 => Some((Operation::Sec, AddressingMode::Implied)),
        0x39u8 => Some((Operation::And, AddressingMode::Absolute_Y)),
        0x3Du8 => Some((Operation::And, AddressingMode::Absolute_X)),
        0x3Eu8 => Some((Operation::Rol, AddressingMode::Absolute_X)),
        0x40u8 => Some((Operation::Rti, AddressingMode::Implied)),
        0x41u8 => Some((Operation::Eor, AddressingMode::Indirect_X)),
        0x45u8 => Some((Operation::Eor, AddressingMode::ZeroPage)),
        0x46u8 => Some((Operation::Lsr, AddressingMode::ZeroPage)),
        0x48u8 => Some((Operation::Pha, AddressingMode::Implied)),
        0x49u8 => Some((Operation::Eor, AddressingMode::Immediate)),
        0x4Au8 => Some((Operation::Lsr, AddressingMode::Accumulator)),
        0x4Cu8 => Some((Operation::Jmp, AddressingMode::Absolute)),
        0x4Du8 => Some((Operation::Eor, AddressingMode::Absolute)),
        0x4Eu8 => Some((Operation::Lsr, AddressingMode::Absolute)),
        0x50u8 => Some((Operation::Bvc, AddressingMode::Relative)),
        0x51u8 => Some((Operation::Eor, AddressingMode::Indirect_Y)),
        0x55u8 => Some((Operation::Eor, AddressingMode::ZeroPage_X)),
        0x56u8 => Some((Operation::Lsr, AddressingMode::ZeroPage_X)),
        0x58u8 => Some((Operation::Cli, AddressingMode::Implied)),
        0x59u8 => Some((Operation::Eor, AddressingMode::Absolute_Y)),
        0x5Du8 => Some((Operation::Eor, AddressingMode::Absolute_X)),
        0x5Eu8 => Some((Operation::Lsr, AddressingMode::Absolute_X)),
        0x60u8 => Some((Operation::Rts, AddressingMode::Implied)),
        0x61u8 => Some((Operation::Adc, AddressingMode::Indirect_X)),
        0x65u8 => Some((Operation::Adc, AddressingMode::ZeroPage)),
        0x66u8 => Some((Operation::Ror, AddressingMode::ZeroPage)),
        0x68u8 => Some((Operation::Pla, AddressingMode::Implied)),
        0x69u8 => Some((Operation::Adc, AddressingMode::Immediate)),
        0x6Au8 => Some((Operation::Ror, AddressingMode::Accumulator)),
        0x6Cu8 => Some((Operation::Jmp, AddressingMode::Indirect)),
        0x6Du8 => Some((Operation::Adc, AddressingMode::Absolute)),
        0x6Eu8 => Some((Operation::Ror, AddressingMode::Absolute)),
        0x70u8 => Some((Operation::Bvs, AddressingMode::Relative)),
        0x71u8 => Some((Operation::Adc, AddressingMode::Indirect_Y)),
        0x75u8 => Some((Operation::Adc, AddressingMode::ZeroPage_X)),
        0x76u8 => Some((Operation::Ror, AddressingMode::ZeroPage_X)),
        0x78u8 => Some((Operation::Sei, AddressingMode::Implied)),
        0x79u8 => Some((Operation::Adc, AddressingMode::Absolute_Y)),
        0x7Du8 => Some((Operation::Adc, AddressingMode::Absolute_X)),
        0x7Eu8 => Some((Operation::Ror, AddressingMode::Absolute_X)),
        0x81u8 => Some((Operation::Sta, AddressingMode::Indirect_X)),
        0x84u8 => Some((Operation::Sty, AddressingMode::ZeroPage)),
        0x85u8 => Some((Operation::Sta, AddressingMode::ZeroPage)),
        0x86u8 => Some((Operation::Stx, AddressingMode::ZeroPage)),
        0x88u8 => Some((Operation::Dey, AddressingMode::Implied)),
        0x8Au8 => Some((Operation::Txa, AddressingMode::Implied)),
        0x8Cu8 => Some((Operation::Sty, AddressingMode::Absolute)),
        0x8Du8 => Some((Operation::Sta, AddressingMode::Absolute)),
        0x8Eu8 => Some((Operation::Stx, AddressingMode::Absolute)),
        0x90u8 => Some((Operation::Bcc, AddressingMode::Relative)),
        0x91u8 => Some((Operation::Sta, AddressingMode::Indirect_Y)),
        0x94u8 => Some((Operation::Sty, AddressingMode::ZeroPage_X)),
        0x95u8 => Some((Operation::Sta, AddressingMode::ZeroPage_X)),
        0x96u8 => Some((Operation::Stx, AddressingMode::ZeroPage_Y)),
        0x98u8 => Some((Operation::Tya, AddressingMode::Implied)),
        0x99u8 => Some((Operation::Sta, AddressingMode::Absolute_Y)),
        0x9Au8 => Some((Operation::Txs, AddressingMode::Implied)),
        0x9Du8 => Some((Operation::Sta, AddressingMode::Absolute_X)),
        0xA0u8 => Some((Operation::Ldy, AddressingMode::Immediate)),
        0xA1u8 => Some((Operation::Lda, AddressingMode::Indirect_X)),
        0xA2u8 => Some((Operation::Ldx, AddressingMode::Immediate)),
        0xA4u8 => Some((Operation::Ldy, AddressingMode::ZeroPage)),
        0xA5u8 => Some((Operation::Lda, AddressingMode::ZeroPage)),
        0xA6u8 => Some((Operation::Ldx, AddressingMode::ZeroPage)),
        0xA8u8 => Some((Operation::Tay, AddressingMode::Implied)),
        0xA9u8 => Some((Operation::Lda, AddressingMode::Immediate)),
        0xAAu8 => Some((Operation::Tax, AddressingMode::Implied)),
        0xACu8 => Some((Operation::Ldy, AddressingMode::Absolute)),
        0xADu8 => Some((Operation::Lda, AddressingMode::Absolute)),
        0xAEu8 => Some((Operation::Ldx, AddressingMode::Absolute)),
        0xB0u8 => Some((Operation::Bcs, AddressingMode::Relative)),
        0xB1u8 => Some((Operation::Lda, AddressingMode::Indirect_Y)),
        0xB4u8 => Some((Operation::Ldy, AddressingMode::ZeroPage_X)),
        0xB5u8 => Some((Operation::Lda, AddressingMode::ZeroPage_X)),
        0xB6u8 => Some((Operation::Ldx, AddressingMode::ZeroPage_Y)),
        0xB8u8 => Some((Operation::Clv, AddressingMode::Implied)),
        0xB9u8 => Some((Operation::Lda, AddressingMode::Absolute_Y)),
        0xBAu8 => Some((Operation::Tsx, AddressingMode::Implied)),
        0xBCu8 => Some((Operation::Ldy, AddressingMode::Absolute_X)),
        0xBDu8 => Some((Operation::Lda, AddressingMode::Absolute_X)),
        0xBEu8 => Some((Operation::Ldx, AddressingMode::Absolute_Y)),
        0xC0u8 => Some((Operation::Cpy, AddressingMode::Immediate)),
        0xC1u8 => Some((Operation::Cmp, AddressingMode::Indirect_X)),
        0xC4u8 => Some((Operation::Cpy, AddressingMode::ZeroPage)),
        0xC5u8 => Some((Operation::Cmp, AddressingMode::ZeroPage)),
        0xC6u8 => Some((Operation::Dec, AddressingMode::ZeroPage)),
        0xC8u8 => Some((Operation::Iny, AddressingMode::Implied)),
        0xC9u8 => Some((Operation::Cmp, AddressingMode::Immediate)),
        0xCAu8 => Some((Operation::Dex, AddressingMode::Implied)),
        0xCCu8 => Some((Operation::Cpy, AddressingMode::Absolute)),
        0xCDu8 => Some((Operation::Cmp, AddressingMode::Absolute)),
        0xCEu8 => Some((Operation::Dec, AddressingMode::Absolute)),
        0xD0u8 => Some((Operation::Bne, AddressingMode::Relative)),
        0xD1u8 => Some((Operation::Cmp, AddressingMode::Indirect_Y)),
        0xD5u8 => Some((Operation::Cmp, AddressingMode::ZeroPage_X)),
        0xD6u8 => Some((Operation::Dec, AddressingMode::ZeroPage_X)),
        0xD8u8 => Some((Operation::Cld, AddressingMode::Implied)),
        0xD9u8 => Some((Operation::Cmp, AddressingMode::Absolute_Y)),
        0xDDu8 => Some((Operation::Cmp, AddressingMode::Absolute_X)),
        0xDEu8 => Some((Operation::Dec, AddressingMode::Absolute_X)),
        0xE0u8 => Some((Operation::Cpx, AddressingMode::Immediate)),
        0xE1u8 => Some((Operation::Sbc, AddressingMode::Indirect_X)),
        0xE4u8 => Some((Operation::Cpx, AddressingMode::ZeroPage)),
        0xE5u8 => Some((Operation::Sbc, AddressingMode::ZeroPage)),
        0xE6u8 => Some((Operation::Inc, AddressingMode::ZeroPage)),
        0xE8u8 => Some((Operation::Inx, AddressingMode::Implied)),
        0xE9u8 => Some((Operation::Sbc, AddressingMode::Immediate)),
        0xEAu8 => Some((Operation::Nop, AddressingMode::Implied)),
        0xECu8 => Some((Operation::Cpx, AddressingMode::Absolute)),
        0xEDu8 => Some((Operation::Sbc, AddressingMode::Absolute)),
        0xEEu8 => Some((Operation::Inc, AddressingMode::Absolute)),
        0xF0u8 => Some((Operation::Beq, AddressingMode::Relative)),
        0xF1u8 => Some((Operation::Sbc, AddressingMode::Indirect_Y)),
        0xF5u8 => Some((Operation::Sbc, AddressingMode::ZeroPage_X)),
        0xF6u8 => Some((Operation::Inc, AddressingMode::ZeroPage_X)),
        0xF8u8 => Some((Operation::Sed, AddressingMode::Implied)),
        0xF9u8 => Some((Operation::Sbc, AddressingMode::Absolute_Y)),
        0xFDu8 => Some((Operation::Sbc, AddressingMode::Absolute_X)),
        0xFEu8 => Some((Operation::Inc, AddressingMode::Absolute_X)),
        _ => None,
    }
}

/// The three-letter assembler name of an operation.
pub open spec fn mnemonic(op: Operation) -> Seq<char> {
    match op {
        Operation::Adc => "ADC"@,
        Operation::And => "AND"@,
        Operation::Asl => "ASL"@,
        Operation::Bcc => "BCC"@,
        Operation::Bcs => "BCS"@,
        Operation::Beq => "BEQ"@,
        Operation::Bit => "BIT"@,
        Operation::Bmi => "BMI"@,
        Operation::Bne => "BNE"@,
        Operation::Bpl => "BPL"@,
        Operation::Brk => "BRK"@,
        Operation::Bvc => "BVC"@,
        Operation::Bvs => "BVS"@,
        Operation::Clc => "CLC"@,
        Operation::Cld => "CLD"@,
        Operation::Cli => "CLI"@,
        Operation::Clv => "CLV"@,
        Operation::Cmp => "CMP"@,
        Operation::Cpx => "CPX"@,
        Operation::Cpy => "CPY"@,
        Operation::Dec => "DEC"@,
        Operation::Dex => "DEX"@,
        Operation::Dey => "DEY"@,
        Operation::Eor => "EOR"@,
        Operation::Inc => "INC"@,
        Operation::Inx => "INX"@,
        Operation::Iny => "INY"@,
        Operation::Jmp => "JMP"@,
        Operation::Jsr => "JSR"@,
        Operation::Lda => "LDA"@,
        Operation::Ldx => "LDX"@,
        Operation::Ldy => "LDY"@,
        Operation::Lsr => "LSR"@,
        Operation::Nop => "NOP"@,
        Operation::Ora => "ORA"@,
        Operation::Pha => "PHA"@,
        Operation::Php => "PHP"@,
        Operation::Pla => "PLA"@,
        Operation::Plp => "PLP"@,
        Operation::Rol => "ROL"@,
        Operation::Ror => "ROR"@,
        Operation::Rti => "RTI"@,
        Operation::Rts => "RTS"@,
        Operation::Sbc => "SBC"@,
        Operation::Sec => "SEC"@,
        Operation::Sed => "SED"@,
        Operation::Sei => "SEI"@,
        Operation::Sta => "STA"@,
        Operation::Stx => "STX"@,
        Operation::Sty => "STY"@,
        Operation::Tax => "TAX"@,
        Operation::Tay => "TAY"@,
        Operation::Tsx => "TSX"@,
        Operation::Txa => "TXA"@,
        Operation::Txs => "TXS"@,
        Operation::Tya => "TYA"@,
    }
}

/// Looks an opcode up in the opcode table.
pub fn decode_opcode(opcode: u8) -> (r: Option<(Operation, AddressingMode)>)
    ensures
        r == opcode_entry(opcode),
{
    match opcode {
        0x00 => Some((Operation::Brk, AddressingMode::Implied)),
        0x01 => Some((Operation::Ora, AddressingMode::Indirect_X)),
        0x05 => Some((Operation::Ora, AddressingMode::ZeroPage)),
        0x06 => Some((Operation::Asl, AddressingMode::ZeroPage)),
        0x08 => Some((Operation::Php, AddressingMode::Implied)),
        0x09 => Some((Operation::Ora, AddressingMode::Immediate)),
        0x0A => Some((Operation::Asl, AddressingMode::Accumulator)),
        0x0D => Some((Operation::Ora, AddressingMode::Absolute)),
        0x0E => Some((Operation::Asl, AddressingMode::Absolute)),
        0x10 => Some((Operation::Bpl, AddressingMode::Relative)),
        0x11 => Some((Operation::Ora, AddressingMode::Indirect_Y)),
        0x15 => Some((Operation::Ora, AddressingMode::ZeroPage_X)),
        0x16 => Some((Operation::Asl, AddressingMode::ZeroPage_X)),
        0x18 => Some((Operation::Clc, AddressingMode::Implied)),
        0x19 => Some((Operation::Ora, AddressingMode::Absolute_Y)),
        0x1D => Some((Operation::Ora, AddressingMode::Absolute_X)),
        0x1E => Some((Operation::Asl, AddressingMode::Absolute_X)),
        0x20 => Some((Operation::Jsr, AddressingMode::Absolute)),
        0x21 => Some((Operation::And, AddressingMode::Indirect_X)),
        0x24 => Some((Operation::Bit, AddressingMode::ZeroPage)),
        0x25 => Some((Operation::And, AddressingMode::ZeroPage)),
        0x26 => Some((Operation::Rol, AddressingMode::ZeroPage)),
        0x28 => Some((Operation::Plp, AddressingMode::Implied)),
        0x29 => Some((Operation::And, AddressingMode::Immediate)),
        0x2A => Some((Operation::Rol, AddressingMode::Accumulator)),
        0x2C => Some((Operation::Bit, AddressingMode::Absolute)),
        0x2D => Some((Operation::And, AddressingMode::Absolute)),
        0x2E => Some((Operation::Rol, AddressingMode::Absolute)),
        0x30 => Some((Operation::Bmi, AddressingMode::Relative)),
        0x31 => Some((Operation::And, AddressingMode::Indirect_Y)),
        0x35 => Some((Operation::And, AddressingMode::ZeroPage_X)),
        0x36 => Some((Operation::Rol, AddressingMode::ZeroPage_X)),
        0x38 => Some((Operation::Sec, AddressingMode::Implied)),
        0x39 => Some((Operation::And, AddressingMode::Absolute_Y)),
        0x3D => Some((Operation::And, AddressingMode::Absolute_X)),
        0x3E => Some((Operation::Rol, AddressingMode::Absolute_X)),
        0x40 => Some((Operation::Rti, AddressingMode::Implied)),
        0x41 => Some((Operation::Eor, AddressingMode::Indirect_X)),
        0x45 => Some((Operation::Eor, AddressingMode::ZeroPage)),
        0x46 => Some((Operation::Lsr, AddressingMode::ZeroPage)),
        0x48 => Some((Operation::Pha, AddressingMode::Implied)),
        0x49 => Some((Operation::Eor, AddressingMode::Immediate)),
        0x4A => Some((Operation::Lsr, AddressingMode::Accumulator)),
        0x4C => Some((Operation::Jmp, AddressingMode::Absolute)),
        0x4D => Some((Operation::Eor, AddressingMode::Absolute)),
        0x4E => Some((Operation::Lsr, AddressingMode::Absolute)),
        0x50 => Some((Operation::Bvc, AddressingMode::Relative)),
        0x51 => Some((Operation::Eor, AddressingMode::Indirect_Y)),
        0x55 => Some((Operation::Eor, AddressingMode::ZeroPage_X)),
        0x56 => Some((Operation::Lsr, AddressingMode::ZeroPage_X)),
        0x58 => Some((Operation::Cli, AddressingMode::Implied)),
        0x59 => Some((Operation::Eor, AddressingMode::Absolute_Y)),
        0x5D => Some((Operation::Eor, AddressingMode::Absolute_X)),
        0x5E => Some((Operation::Lsr, AddressingMode::Absolute_X)),
        0x60 => Some((Operation::Rts, AddressingMode::Implied)),
        0x61 => Some((Operation::Adc, AddressingMode::Indirect_X)),
        0x65 => Some((Operation::Adc, AddressingMode::ZeroPage)),
        0x66 => Some((Operation::Ror, AddressingMode::ZeroPage)),
        0x68 => Some((Operation::Pla, AddressingMode::Implied)),
        0x69 => Some((Operation::Adc, AddressingMode::Immediate)),
        0x6A => Some((Operation::Ror, AddressingMode::Accumulator)),
        0x6C => Some((Operation::Jmp, AddressingMode::Indirect)),
        0x6D => Some((Operation::Adc, AddressingMode::Absolute)),
        0x6E => Some((Operation::Ror, AddressingMode::Absolute)),
        0x70 => Some((Operation::Bvs, AddressingMode::Relative)),
        0x71 => Some((Operation::Adc, AddressingMode::Indirect_Y)),
        0x75 => Some((Operation::Adc, AddressingMode::ZeroPage_X)),
        0x76 => Some((Operation::Ror, AddressingMode::ZeroPage_X)),
        0x78 => Some((Operation::Sei, AddressingMode::Implied)),
        0x79 => Some((Operation::Adc, AddressingMode::Absolute_Y)),
        0x7D => Some((Operation::Adc, AddressingMode::Absolute_X)),
        0x7E => Some((Operation::Ror, AddressingMode::Absolute_X)),
        0x81 => Some((Operation::Sta, AddressingMode::Indirect_X)),
        0x84 => Some((Operation::Sty, AddressingMode::ZeroPage)),
        0x85 => Some((Operation::Sta, AddressingMode::ZeroPage)),
        0x86 => Some((Operation::Stx, AddressingMode::ZeroPage)),
        0x88 => Some((Operation::Dey, AddressingMode::Implied)),
        0x8A => Some((Operation::Txa, AddressingMode::Implied)),
        0x8C => Some((Operation::Sty, AddressingMode::Absolute)),
        0x8D => Some((Operation::Sta, AddressingMode::Absolute)),
        0x8E => Some((Operation::Stx, AddressingMode::Absolute)),
        0x90 => Some((Operation::Bcc, AddressingMode::Relative)),
        0x91 => Some((Operation::Sta, AddressingMode::Indirect_Y)),
        0x94 => Some((Operation::Sty, AddressingMode::ZeroPage_X)),
        0x95 => Some((Operation::Sta, AddressingMode::ZeroPage_X)),
        0x96 => Some((Operation::Stx, AddressingMode::ZeroPage_Y)),
        0x98 => Some((Operation::Tya, AddressingMode::Implied)),
        0x99 => Some((Operation::Sta, AddressingMode::Absolute_Y)),
        0x9A => Some((Operation::Txs, AddressingMode::Implied)),
        0x9D => Some((Operation::Sta, AddressingMode::Absolute_X)),
        0xA0 => Some((Operation::Ldy, AddressingMode::Immediate)),
        0xA1 => Some((Operation::Lda, AddressingMode::Indirect_X)),
        0xA2 => Some((Operation::Ldx, AddressingMode::Immediate)),
        0xA4 => Some((Operation::Ldy, AddressingMode::ZeroPage)),
        0xA5 => Some((Operation::Lda, AddressingMode::ZeroPage)),
        0xA6 => Some((Operation::Ldx, AddressingMode::ZeroPage)),
        0xA8 => Some((Operation::Tay, AddressingMode::Implied)),
        0xA9 => Some((Operation::Lda, AddressingMode::Immediate)),
        0xAA => Some((Operation::Tax, AddressingMode::Implied)),
        0xAC => Some((Operation::Ldy, AddressingMode::Absolute)),
        0xAD => Some((Operation::Lda, AddressingMode::Absolute)),
        0xAE => Some((Operation::Ldx, AddressingMode::Absolute)),
        0xB0 => Some((Operation::Bcs, AddressingMode::Relative)),
        0xB1 => Some((Operation::Lda, AddressingMode::Indirect_Y)),
        0xB4 => Some((Operation::Ldy, AddressingMode::ZeroPage_X)),
        0xB5 => Some((Operation::Lda, AddressingMode::ZeroPage_X)),
        0xB6 => Some((Operation::Ldx, AddressingMode::ZeroPage_Y)),
        0xB8 => Some((Operation::Clv, AddressingMode::Implied)),
        0xB9 => Some((Operation::Lda, AddressingMode::Absolute_Y)),
        0xBA => Some((Operation::Tsx, AddressingMode::Implied)),
        0xBC => Some((Operation::Ldy, AddressingMode::Absolute_X)),
        0xBD => Some((Operation::Lda, AddressingMode::Absolute_X)),
        0xBE => Some((Operation::Ldx, AddressingMode::Absolute_Y)),
        0xC0 => Some((Operation::Cpy, AddressingMode::Immediate)),
        0xC1 => Some((Operation::Cmp, AddressingMode::Indirect_X)),
        0xC4 => Some((Operation::Cpy, AddressingMode::ZeroPage)),
        0xC5 => Some((Operation::Cmp, AddressingMode::ZeroPage)),
        0xC6 => Some((Operation::Dec, AddressingMode::ZeroPage)),
        0xC8 => Some((Operation::Iny, AddressingMode::Implied)),
        0xC9 => Some((Operation::Cmp, AddressingMode::Immediate)),
        0xCA => Some((Operation::Dex, AddressingMode::Implied)),
        0xCC => Some((Operation::Cpy, AddressingMode::Absolute)),
        0xCD => Some((Operation::Cmp, AddressingMode::Absolute)),
        0xCE => Some((Operation::Dec, AddressingMode::Absolute)),
        0xD0 => Some((Operation::Bne, AddressingMode::Relative)),
        0xD1 => Some((Operation::Cmp, AddressingMode::Indirect_Y)),
        0xD5 => Some((Operation::Cmp, AddressingMode::ZeroPage_X)),
        0xD6 => Some((Operation::Dec, AddressingMode::ZeroPage_X)),
        0xD8 => Some((Operation::Cld, AddressingMode::Implied)),
        0xD9 => Some((Operation::Cmp, AddressingMode::Absolute_Y)),
        0xDD => Some((Operation::Cmp, AddressingMode::Absolute_X)),
        0xDE => Some((Operation::Dec, AddressingMode::Absolute_X)),
        0xE0 => Some((Operation::Cpx, AddressingMode::Immediate)),
        0xE1 => Some((Operation::Sbc, AddressingMode::Indirect_X)),
        0xE4 => Some((Operation::Cpx, AddressingMode::ZeroPage)),
        0xE5 => Some((Operation::Sbc, AddressingMode::ZeroPage)),
        0xE6 => Some((Operation::Inc, AddressingMode::ZeroPage)),
        0xE8 => Some((Operation::Inx, AddressingMode::Implied)),
        0xE9 => Some((Operation::Sbc, AddressingMode::Immediate)),
        0xEA => Some((Operation::Nop, AddressingMode::Implied)),
        0xEC => Some((Operation::Cpx, AddressingMode::Absolute)),
        0xED => Some((Operation::Sbc, AddressingMode::Absolute)),
        0xEE => Some((Operation::Inc, AddressingMode::Absolute)),
        0xF0 => Some((Operation::Beq, AddressingMode::Relative)),
        0xF1 => Some((Operation::Sbc, AddressingMode::Indirect_Y)),
        0xF5 => Some((Operation::Sbc, AddressingMode::ZeroPage_X)),
        0xF6 => Some((Operation::Inc, AddressingMode::ZeroPage_X)),
        0xF8 => Some((Operation::Sed, AddressingMode::Implied)),
        0xF9 => Some((Operation::Sbc, AddressingMode::Absolute_Y)),
        0xFD => Some((Operation::Sbc, AddressingMode::Absolute_X)),
        0xFE => Some((Operation::Inc, AddressingMode::Absolute_X)),
        _ => None,
    }
}

impl Operation {
    /// The assembler name of this operation.
    pub fn name(&self) -> (r: &'static str)
        ensures
            r@ == mnemonic(*self),
    {
        match self {
            Operation::Adc => "ADC",
            Operation::And => "AND",
            Operation::Asl => "ASL",
            Operation::Bcc => "BCC",
            Operation::Bcs => "BCS",
            Operation::Beq => "BEQ",
            Operation::Bit => "BIT",
            Operation::Bmi => "BMI",
            Operation::Bne => "BNE",
            Operation::Bpl => "BPL",
            Operation::Brk => "BRK",
            Operation::Bvc => "BVC",
            Operation::Bvs => "BVS",
            Operation::Clc => "CLC",
            Operation::Cld => "CLD",
            Operation::Cli => "CLI",
            Operation::Clv => "CLV",
            Operation::Cmp => "CMP",
            Operation::Cpx => "CPX",
            Operation::Cpy => "CPY",
            Operation::Dec => "DEC",
            Operation::Dex => "DEX",
            Operation::Dey => "DEY",
            Operation::Eor => "EOR",
            Operation::Inc => "INC",
            Operation::Inx => "INX",
            Operation::Iny => "INY",
            Operation::Jmp => "JMP",
            Operation::Jsr => "JSR",
            Operation::Lda => "LDA",
            Operation::Ldx => "LDX",
            Operation::Ldy => "LDY",
            Operation::Lsr => "LSR",
            Operation::Nop => "NOP",
            Operation::Ora => "ORA",
            Operation::Pha => "PHA",
            Operation::Php => "PHP",
            Operation::Pla => "PLA",
            Operation::Plp => "PLP",
            Operation::Rol => "ROL",
            Operation::Ror => "ROR",
            Operation::Rti => "RTI",
            Operation::Rts => "RTS",
            Operation::Sbc => "SBC",
            Operation::Sec => "SEC",
            Operation::Sed => "SED",
            Operation::Sei => "SEI",
            Operation::Sta => "STA",
            Operation::Stx => "STX",
            Operation::Sty => "STY",
            Operation::Tax => "TAX",
            Operation::Tay => "TAY",
            Operation::Tsx => "TSX",
            Operation::Txa => "TXA",
            Operation::Txs => "TXS",
            Operation::Tya => "TYA",
        }
    }
}
/// Whether a byte is one of the opcodes of the instruction set.
pub open spec fn is_defined_opcode(opcode: u8) -> bool {
    opcode_entry(opcode) is Some
}

/// The addressing mode of a defined opcode.
pub fn map_instruction_to_addressing_mode(instruction: u8) -> (r: AddressingMode)
    requires
        is_defined_opcode(instruction),
    ensures
        r == opcode_entry(instruction).unwrap().1,
{
    match decode_opcode(instruction) {
        Some((_, mode)) => mode,
        None => AddressingMode::Implied,
    }
}

/// The assembler name of a defined opcode.
pub fn map_instruction_to_name(instruction: u8) -> (r: &'static str)
    requires
        is_defined_opcode(instruction),
    ensures
        r@ == mnemonic(opcode_entry(instruction).unwrap().0),
{
    match decode_opcode(instruction) {
        Some((op, _)) => op.name(),
        None => "",
    }
}

/// How far the program counter moves past an instruction in `mode`: the
/// opcode byte and the operand bytes.
pub fn addressing_mode_to_program_counter_advancement_amount(mode: AddressingMode) -> (r: u16)
    ensures
        r == 1 + operand_length(mode),
{
    match mode {
        AddressingMode::Implied => 1,
        AddressingMode::Accumulator => 1,
        AddressingMode::Immediate => 2,
        AddressingMode::Relative => 2,
        AddressingMode::ZeroPage => 2,
        AddressingMode::ZeroPage_X => 2,
        AddressingMode::ZeroPage_Y => 2,
        AddressingMode::Absolute => 3,
        AddressingMode::Absolute_X => 3,
        AddressingMode::Absolute_Y => 3,
        AddressingMode::Indirect => 3,
        AddressingMode::Indirect_X => 2,
        AddressingMode::Indirect_Y => 2,
    }
}

} // verus!
