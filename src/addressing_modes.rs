use vstd::prelude::*;
use crate::cpu::CPU;
use crate::model::{effective_address, wrap16, wrap8};

verus! {

/// Where an instruction finds its operand.
#[allow(non_camel_case_types)]
#[derive(Debug, PartialEq, Eq, Clone, Copy, Structural)]
pub enum AddressingMode {
    Implied,
    Accumulator,
    Immediate,
    Relative,
    ZeroPage,
    ZeroPage_X,
    ZeroPage_Y,
    Absolute,
    Absolute_X,
    Absolute_Y,
    Indirect,
    Indirect_X,
    Indirect_Y,
}

/// The number of operand bytes that follow the opcode in each mode.
pub open spec fn operand_length(mode: AddressingMode) -> u16 {
    match mode {
        AddressingMode::Implied | AddressingMode::Accumulator => 0,
        AddressingMode::Absolute | AddressingMode::Absolute_X | AddressingMode::Absolute_Y
        | AddressingMode::Indirect => 2,
        _ => 1,
    }
}

/// The effective address of the instruction at the program counter under
/// `addressing_mode`. Immediate, relative, implied and accumulator modes
/// resolve to the byte after the opcode.
pub fn get_operator_from_addressing_mode(cpu: &mut CPU, addressing_mode: AddressingMode) -> (r: u16)
    requires
        old(cpu).wf(),
    ensures
        final(cpu)@ == old(cpu)@,
        r == effective_address(old(cpu)@, addressing_mode),
{
    cpu.effective_address(addressing_mode)
}

impl CPU {
    /// The effective address of the instruction at the counter.
    pub(crate) fn effective_address(&self, mode: AddressingMode) -> (r: u16)
        requires
            self.wf(),
        ensures
            r == effective_address(self@, mode),
    {
        let counter = self.program_counter.wrapping_add(1);
        match mode {
            AddressingMode::ZeroPage => self.read(counter) as u16,
            AddressingMode::ZeroPage_X => self.zero_page_indexed(counter, self.registers.x) as u16,
            AddressingMode::ZeroPage_Y => self.zero_page_indexed(counter, self.registers.y) as u16,
            AddressingMode::Absolute => self.read16(counter),
            AddressingMode::Absolute_X => self.absolute_indexed(self.read16(counter), self.registers.x),
            AddressingMode::Absolute_Y => self.absolute_indexed(self.read16(counter), self.registers.y),
            AddressingMode::Indirect => self.read16(self.read16(counter)),
            AddressingMode::Indirect_X => self.read16_zero_page(
                self.zero_page_indexed(counter, self.registers.x),
            ),
            AddressingMode::Indirect_Y => self.absolute_indexed(
                self.read16_zero_page(self.read(counter)),
                self.registers.y,
            ),
            _ => counter,
        }
    }

    /// The zero-page address of the operand byte at `counter` plus `index`,
    /// wrapped within the page.
    fn zero_page_indexed(&self, counter: u16, index: u8) -> (r: u8)
        requires
            self.wf(),
        ensures
            r == wrap8(self@.read(counter) + index),
    {
        self.read(counter).wrapping_add(index)
    }

    /// `base + index`, wrapped at 16 bits.
    fn absolute_indexed(&self, base: u16, index: u8) -> (r: u16)
        ensures
            r == wrap16(base + index),
    {
        base.wrapping_add(index as u16)
    }

    /// The little-endian pointer at `ptr` in the zero page; its high byte is
    /// read from `ptr + 1` wrapped within the page.
    fn read16_zero_page(&self, ptr: u8) -> (r: u16)
        requires
            self.wf(),
        ensures
            r == self@.read16_zero_page(ptr),
    {
        let lo = self.read(ptr as u16);
        let hi = self.read(ptr.wrapping_add(1) as u16);
        hi as u16 * 256 + lo as u16
    }
}

} // verus!
