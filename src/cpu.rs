use vstd::prelude::*;
use crate::addressing_modes::AddressingMode;
use crate::model::{
    add_with_carry, branch_target, compare, is_control_transfer, modify_operand, operate,
    power_on, program_image, read_operand, reset, run, stack_address, step, transfer, with_flag,
    with_nz, wrap16, write_operand, CpuState, MEMORY_SIZE,
};
use crate::util::{addressing_mode_to_program_counter_advancement_amount, decode_opcode, Operation};

verus! {

pub const NEGATIVE: u8 = 0b1000_0000;
pub const OVERFLOW: u8 = 0b0100_0000;
pub const BREAK: u8 = 0b0010_0000;

pub const DECIMAL_MODE: u8 = 0b0000_1000;
pub const INTERRUPT_DISABLE: u8 = 0b0000_0100;
pub const ZERO: u8 = 0b0000_0010;
pub const CARRY: u8 = 0b0000_0001;

pub const SIGN_BIT: u8 = 0b1000_0000;

pub const PROGRAM_START_ADDR: u16 = 0x8000;
pub const PROGRAM_READ_START: u16 = 0xFFFC;
pub const STACK_START_ADDR: u16 = 0x0100;
pub const INITIAL_STACK_VALUE: u8 = 0xFF;

/// A 6502 processor with its 64 KiB address space.
pub struct CPU {
    pub program_counter: u16,
    pub registers: Registers,
    pub stack_pointer: u8,
    pub status: u8,
    pub memory: Vec<u8>,
}

pub struct Registers {
    pub a: u8,
    pub x: u8,
    pub y: u8,
}

impl View for CPU {
    type V = CpuState;

    open spec fn view(&self) -> CpuState {
        CpuState {
            pc: self.program_counter,
            a: self.registers.a,
            x: self.registers.x,
            y: self.registers.y,
            sp: self.stack_pointer,
            status: self.status,
            mem: self.memory@,
        }
    }
}

impl CPU {
    /// The memory covers the whole 16-bit address space.
    pub open spec fn wf(&self) -> bool {
        self.memory@.len() == MEMORY_SIZE
    }

    /// A processor with `program` at 0x8000, the reset vector pointing there,
    /// and a reset done.
    pub fn new(program: Vec<u8>) -> (r: Self)
        requires
            program@.len() <= 0x8000,
        ensures
            r.wf(),
            r@ == power_on(program@),
            r.program_counter == PROGRAM_START_ADDR,
    {
        let mut memory: Vec<u8> = Vec::new();
        let mut i: usize = 0;
        while i < MEMORY_SIZE
            invariant
                i <= MEMORY_SIZE,
                program@.len() <= 0x8000,
                memory@.len() == i,
                forall|j: int| 0 <= j < i ==> memory@[j] == program_image(program@)[j],
            decreases MEMORY_SIZE - i,
        {
            let start = PROGRAM_START_ADDR as usize;
            if start <= i && i < start + program.len() {
                memory.push(program[i - start]);
            } else {
                memory.push(0);
            }
            i = i + 1;
        }
        assert(memory@ =~= program_image(program@));
        let mut cpu = CPU {
            program_counter: PROGRAM_START_ADDR,
            registers: Registers { a: 0, x: 0, y: 0 },
            stack_pointer: INITIAL_STACK_VALUE,
            status: 0,
            memory,
        };
        cpu.write16(PROGRAM_READ_START, PROGRAM_START_ADDR);
        cpu.reset();
        proof {
            let s = cpu@;
            assert(s.read(PROGRAM_READ_START) == 0);
            assert(s.read(wrap16(PROGRAM_READ_START + 1)) == 0x80);
        }
        cpu
    }

    /// Clears A, X, Y and P and loads the counter from the reset vector.
    pub fn reset(&mut self)
        requires
            old(self).wf(),
        ensures
            final(self).wf(),
            final(self)@ == reset(old(self)@),
    {
        self.registers.a = 0;
        self.registers.x = 0;
        self.registers.y = 0;
        self.status = 0;

        self.program_counter = self.read16(PROGRAM_READ_START);
    }

    /// Runs until the opcode at the counter is BRK or the counter reaches
    /// 0xFFFF, for at most `u64::MAX` instructions.
    pub fn run_program(&mut self)
        requires
            old(self).wf(),
        ensures
            final(self).wf(),
            final(self)@ == run(old(self)@, u64::MAX as nat),
    {
        let mut fuel: u64 = u64::MAX;
        while fuel > 0
            invariant
                self.wf(),
                run(self@, fuel as nat) == run(old(self)@, u64::MAX as nat),
            decreases fuel,
        {
            if self.read(self.program_counter) == 0x00 || self.program_counter == 0xFFFF {
                return;
            }
            self.run_next_instruction();
            fuel = fuel - 1;
        }
    }

    /// Executes exactly one instruction.
    pub fn run_next_instruction(&mut self)
        requires
            old(self).wf(),
        ensures
            final(self).wf(),
            final(self)@ == step(old(self)@),
    {
        let instruction = self.read(self.program_counter);
        match decode_opcode(instruction) {
            None => {
                self.program_counter = self.program_counter.wrapping_add(1);
            },
            Some((op, mode)) => {
                match op {
                    Operation::Bcc => self.branch(CARRY, false),
                    Operation::Bcs => self.branch(CARRY, true),
                    Operation::Beq => self.branch(ZERO, true),
                    Operation::Bne => self.branch(ZERO, false),
                    Operation::Bmi => self.branch(NEGATIVE, true),
                    Operation::Bpl => self.branch(NEGATIVE, false),
                    Operation::Bvc => self.branch(OVERFLOW, false),
                    Operation::Bvs => self.branch(OVERFLOW, true),
                    Operation::Jmp => self.jmp(mode),
                    Operation::Jsr => self.jsr(mode),
                    Operation::Rts => self.rts(),
                    Operation::Rti => self.rti(),
                    _ => {
                        self.execute(op, mode);
                        self.program_counter = self.program_counter.wrapping_add(
                            addressing_mode_to_program_counter_advancement_amount(mode),
                        );
                    },
                }
            },
        }
    }

    /// The effect of an instruction that leaves the counter to the caller.
    fn execute(&mut self, op: Operation, mode: AddressingMode)
        requires
            old(self).wf(),
            !is_control_transfer(op),
        ensures
            final(self).wf(),
            final(self)@ == operate(old(self)@, op, mode),
    {
        match op {
            Operation::Adc | Operation::Sbc | Operation::And | Operation::Ora | Operation::Eor | Operation::Cmp | Operation::Cpx | Operation::Cpy | Operation::Bit => self.execute_arithmetic(op, mode),
            Operation::Asl | Operation::Lsr | Operation::Rol | Operation::Ror | Operation::Inc | Operation::Dec => self.execute_read_modify_write(op, mode),
            Operation::Lda | Operation::Ldx | Operation::Ldy | Operation::Sta | Operation::Stx | Operation::Sty | Operation::Tax | Operation::Tay | Operation::Txa | Operation::Tya | Operation::Tsx | Operation::Txs => self.execute_transfer(op, mode),
            Operation::Clc | Operation::Sec | Operation::Cld | Operation::Sed | Operation::Cli | Operation::Sei | Operation::Clv | Operation::Inx | Operation::Iny | Operation::Dex | Operation::Dey | Operation::Pha | Operation::Php | Operation::Pla | Operation::Plp => self.execute_register_update(op, mode),
            Operation::Brk | Operation::Nop => self.no_operation(op, mode),
            _ => {},
        }
    }

    /// Arithmetic, logic, comparisons and BIT.
    fn execute_arithmetic(&mut self, op: Operation, mode: AddressingMode)
        requires
            old(self).wf(),
            op == Operation::Adc || op == Operation::Sbc || op == Operation::And || op == Operation::Ora || op == Operation::Eor || op == Operation::Cmp || op == Operation::Cpx || op == Operation::Cpy || op == Operation::Bit,
        ensures
            final(self).wf(),
            final(self)@ == operate(old(self)@, op, mode),
    {
        match op {
            Operation::Adc => self.adc(mode),
            Operation::Sbc => self.sbc(mode),
            Operation::And => self.and(mode),
            Operation::Ora => self.ora(mode),
            Operation::Eor => self.eor(mode),
            Operation::Cmp => self.cmp(mode),
            Operation::Cpx => self.cpx(mode),
            Operation::Cpy => self.cpy(mode),
            Operation::Bit => self.bit(mode),
            _ => {},
        }
    }

    /// Shifts, rotates, INC and DEC.
    fn execute_read_modify_write(&mut self, op: Operation, mode: AddressingMode)
        requires
            old(self).wf(),
            op == Operation::Asl || op == Operation::Lsr || op == Operation::Rol || op == Operation::Ror || op == Operation::Inc || op == Operation::Dec,
        ensures
            final(self).wf(),
            final(self)@ == operate(old(self)@, op, mode),
    {
        match op {
            Operation::Asl => self.asl(mode),
            Operation::Lsr => self.lsr(mode),
            Operation::Rol => self.rol(mode),
            Operation::Ror => self.ror(mode),
            Operation::Inc => self.inc(mode),
            Operation::Dec => self.dec(mode),
            _ => {},
        }
    }

    /// Loads, stores and register copies.
    fn execute_transfer(&mut self, op: Operation, mode: AddressingMode)
        requires
            old(self).wf(),
            op == Operation::Lda || op == Operation::Ldx || op == Operation::Ldy || op == Operation::Sta || op == Operation::Stx || op == Operation::Sty || op == Operation::Tax || op == Operation::Tay || op == Operation::Txa || op == Operation::Tya || op == Operation::Tsx || op == Operation::Txs,
        ensures
            final(self).wf(),
            final(self)@ == operate(old(self)@, op, mode),
    {
        reveal(operate);
        match op {
            Operation::Lda => self.lda(mode),
            Operation::Ldx => self.ldx(mode),
            Operation::Ldy => self.ldy(mode),
            Operation::Sta => self.sta(mode),
            Operation::Stx => self.stx(mode),
            Operation::Sty => self.sty(mode),
            Operation::Tax => self.tax(),
            Operation::Tay => self.tay(),
            Operation::Txa => self.txa(),
            Operation::Tya => self.tya(),
            Operation::Tsx => self.tsx(),
            Operation::Txs => self.txs(),
            _ => {},
        }
    }

    /// Flag changes, register steps and the stack.
    fn execute_register_update(&mut self, op: Operation, mode: AddressingMode)
        requires
            old(self).wf(),
            op == Operation::Clc || op == Operation::Sec || op == Operation::Cld || op == Operation::Sed || op == Operation::Cli || op == Operation::Sei || op == Operation::Clv || op == Operation::Inx || op == Operation::Iny || op == Operation::Dex || op == Operation::Dey || op == Operation::Pha || op == Operation::Php || op == Operation::Pla || op == Operation::Plp,
        ensures
            final(self).wf(),
            final(self)@ == operate(old(self)@, op, mode),
    {
        reveal(operate);
        match op {
            Operation::Clc => self.clear_carry_bit(),
            Operation::Sec => self.set_carry_bit(),
            Operation::Cld => self.clear_decimal_bit(),
            Operation::Sed => self.set_decimal_bit(),
            Operation::Cli => self.clear_interrupt_disable_bit(),
            Operation::Sei => self.set_interrupt_disable_bit(),
            Operation::Clv => self.clear_overflow_bit(),
            Operation::Inx => self.inx(),
            Operation::Iny => self.iny(),
            Operation::Dex => self.dex(),
            Operation::Dey => self.dey(),
            Operation::Pha => self.pha(),
            Operation::Php => self.php(),
            Operation::Pla => self.pla(),
            Operation::Plp => self.plp(),
            _ => {},
        }
    }

    fn no_operation(&mut self, op: Operation, mode: AddressingMode)
        requires
            old(self).wf(),
            op == Operation::Brk || op == Operation::Nop,
        ensures
            final(self).wf(),
            final(self)@ == operate(old(self)@, op, mode),
    {
        reveal(operate);
    }

    // ----- Memory -----

    pub(crate) fn read(&self, addr: u16) -> (r: u8)
        requires
            self.wf(),
        ensures
            r == self@.read(addr),
    {
        self.memory[addr as usize]
    }

    pub(crate) fn read16(&self, addr: u16) -> (r: u16)
        requires
            self.wf(),
        ensures
            r == self@.read16(addr),
    {
        let lo = self.read(addr);
        let hi = self.read(addr.wrapping_add(1));
        hi as u16 * 256 + lo as u16
    }

    /// The byte at `addr`.
    pub fn load(&mut self, addr: u16) -> (r: u8)
        requires
            old(self).wf(),
        ensures
            final(self)@ == old(self)@,
            r == old(self)@.read(addr),
    {
        self.read(addr)
    }

    /// Stores `data` at `addr`.
    pub fn write(&mut self, addr: u16, data: u8)
        requires
            old(self).wf(),
        ensures
            final(self).wf(),
            final(self)@ == old(self)@.write(addr, data),
    {
        self.memory[addr as usize] = data;
    }

    /// The little-endian word at `addr` and the address after it.
    pub fn load16(&mut self, addr: u16) -> (r: u16)
        requires
            old(self).wf(),
        ensures
            final(self)@ == old(self)@,
            r == old(self)@.read16(addr),
    {
        self.read16(addr)
    }

    /// Stores `data` little-endian at `addr` and the address after it.
    pub fn write16(&mut self, addr: u16, data: u16)
        requires
            old(self).wf(),
        ensures
            final(self).wf(),
            final(self)@ == old(self)@.write16(addr, data),
    {
        self.write(addr.wrapping_add(1), (data / 256) as u8);
        self.write(addr, (data % 256) as u8);
    }

    // ----- Stack -----

    /// The address in page one that the stack pointer designates.
    pub fn get_stack_memory_addr(&self) -> (r: u16)
        ensures
            r == stack_address(self.stack_pointer),
            0x0100 <= r <= 0x01FF,
    {
        STACK_START_ADDR + self.stack_pointer as u16
    }

    /// Decrements the stack pointer, then stores `data` where it points.
    pub fn push_to_stack(&mut self, data: u8)
        requires
            old(self).wf(),
        ensures
            final(self).wf(),
            final(self)@ == old(self)@.push(data),
    {
        self.stack_pointer = self.stack_pointer.wrapping_sub(1);
        let addr = self.get_stack_memory_addr();
        self.write(addr, data);
    }

    fn push_to_stack_16(&mut self, data: u16)
        requires
            old(self).wf(),
        ensures
            final(self).wf(),
            final(self)@ == old(self)@.push16(data),
    {
        let low: u8 = (data % 256) as u8;
        let high: u8 = (data / 256) as u8;

        self.push_to_stack(high);
        self.push_to_stack(low);
    }

    /// Reads the byte where the stack pointer points, then increments it.
    pub fn pop_from_stack(&mut self) -> (r: u8)
        requires
            old(self).wf(),
        ensures
            final(self).wf(),
            r == old(self)@.top(),
            final(self)@ == old(self)@.pop(),
    {
        let pop_val = self.read(self.get_stack_memory_addr());
        self.stack_pointer = self.stack_pointer.wrapping_add(1);
        pop_val
    }

    fn pop_from_stack_16(&mut self) -> (r: u16)
        requires
            old(self).wf(),
        ensures
            final(self).wf(),
            r == old(self)@.top16(),
            final(self)@ == old(self)@.pop16(),
    {
        let low: u8 = self.pop_from_stack();
        let high: u8 = self.pop_from_stack();

        high as u16 * 256 + low as u16
    }

    /// The byte on top of the stack, left in place.
    pub fn peep_stack(&mut self) -> (r: u8)
        requires
            old(self).wf(),
        ensures
            final(self)@ == old(self)@,
            r == old(self)@.top(),
    {
        self.read(self.get_stack_memory_addr())
    }

    // ----- Flags -----

    fn set_flag(&mut self, flag: u8, on: bool)
        ensures
            final(self)@ == old(self)@.with_status(with_flag(old(self).status, flag, on)),
    {
        if on {
            self.status = self.status | flag;
        } else {
            self.status = self.status & !flag;
        }
    }

    fn set_zero_bit(&mut self)
        ensures
            final(self)@ == old(self)@.with_status(with_flag(old(self).status, ZERO, true)),
    {
        self.set_flag(ZERO, true);
    }

    fn clear_zero_bit(&mut self)
        ensures
            final(self)@ == old(self)@.with_status(with_flag(old(self).status, ZERO, false)),
    {
        self.set_flag(ZERO, false);
    }

    fn set_negative_bit(&mut self)
        ensures
            final(self)@ == old(self)@.with_status(with_flag(old(self).status, NEGATIVE, true)),
    {
        self.set_flag(NEGATIVE, true);
    }

    fn clear_negative_bit(&mut self)
        ensures
            final(self)@ == old(self)@.with_status(with_flag(old(self).status, NEGATIVE, false)),
    {
        self.set_flag(NEGATIVE, false);
    }

    fn set_carry_bit(&mut self)
        requires
            old(self).wf(),
        ensures
            final(self).wf(),
            final(self)@ == operate(old(self)@, Operation::Sec, AddressingMode::Implied),
    {
        reveal(operate);
        self.set_flag(CARRY, true);
    }

    fn clear_carry_bit(&mut self)
        requires
            old(self).wf(),
        ensures
            final(self).wf(),
            final(self)@ == operate(old(self)@, Operation::Clc, AddressingMode::Implied),
    {
        reveal(operate);
        self.set_flag(CARRY, false);
    }

    fn set_decimal_bit(&mut self)
        requires
            old(self).wf(),
        ensures
            final(self).wf(),
            final(self)@ == operate(old(self)@, Operation::Sed, AddressingMode::Implied),
    {
        reveal(operate);
        self.set_flag(DECIMAL_MODE, true);
    }

    fn clear_decimal_bit(&mut self)
        requires
            old(self).wf(),
        ensures
            final(self).wf(),
            final(self)@ == operate(old(self)@, Operation::Cld, AddressingMode::Implied),
    {
        reveal(operate);
        self.set_flag(DECIMAL_MODE, false);
    }

    fn set_interrupt_disable_bit(&mut self)
        requires
            old(self).wf(),
        ensures
            final(self).wf(),
            final(self)@ == operate(old(self)@, Operation::Sei, AddressingMode::Implied),
    {
        reveal(operate);
        self.set_flag(INTERRUPT_DISABLE, true);
    }

    fn clear_interrupt_disable_bit(&mut self)
        requires
            old(self).wf(),
        ensures
            final(self).wf(),
            final(self)@ == operate(old(self)@, Operation::Cli, AddressingMode::Implied),
    {
        reveal(operate);
        self.set_flag(INTERRUPT_DISABLE, false);
    }

    fn clear_overflow_bit(&mut self)
        requires
            old(self).wf(),
        ensures
            final(self).wf(),
            final(self)@ == operate(old(self)@, Operation::Clv, AddressingMode::Implied),
    {
        reveal(operate);
        self.set_flag(OVERFLOW, false);
    }

    /// Sets `bit_to_set` when `val` has a bit of `bit_to_check`, else clears it.
    fn set_status_bit_if_bit_set(&mut self, bit_to_check: u8, bit_to_set: u8, val: u8)
        ensures
            final(self)@ == old(self)@.with_status(
                with_flag(old(self).status, bit_to_set, val & bit_to_check != 0),
            ),
    {
        self.set_flag(bit_to_set, val & bit_to_check != 0);
    }

    /// Zero and Negative describe `byte`.
    fn update_negative_and_zero(&mut self, byte: u8)
        ensures
            final(self)@ == old(self)@.with_status(with_nz(old(self).status, byte)),
    {
        if byte == 0 {
            self.set_zero_bit();
        } else {
            self.clear_zero_bit();
        }

        if byte & SIGN_BIT != 0 {
            self.set_negative_bit();
        } else {
            self.clear_negative_bit();
        }
    }

    // ----- Operands -----

    fn read_operand(&mut self, mode: AddressingMode) -> (r: u8)
        requires
            old(self).wf(),
        ensures
            final(self)@ == old(self)@,
            r == read_operand(old(self)@, mode),
    {
        if mode == AddressingMode::Accumulator {
            self.registers.a
        } else {
            let addr = self.effective_address(mode);
            self.read(addr)
        }
    }

    fn write_operand(&mut self, mode: AddressingMode, val: u8)
        requires
            old(self).wf(),
        ensures
            final(self).wf(),
            final(self)@ == write_operand(old(self)@, mode, val),
    {
        if mode == AddressingMode::Accumulator {
            self.registers.a = val;
        } else {
            let addr = self.effective_address(mode);
            self.write(addr, val);
        }
    }

    /// Shared tail of the shifts and rotates.
    fn modify_operand(&mut self, mode: AddressingMode, result: u8, carry: bool)
        requires
            old(self).wf(),
        ensures
            final(self).wf(),
            final(self)@ == modify_operand(old(self)@, mode, result, carry),
    {
        self.set_flag(CARRY, carry);
        self.update_negative_and_zero(result);
        self.write_operand(mode, result);
    }

    // ----- Instructions -----

    fn adc(&mut self, mode: AddressingMode)
        requires
            old(self).wf(),
        ensures
            final(self).wf(),
            final(self)@ == operate(old(self)@, Operation::Adc, mode),
    {
        reveal(operate);
        let val = self.read_operand(mode);
        self.add_to_accumulator(val);
    }

    fn sbc(&mut self, mode: AddressingMode)
        requires
            old(self).wf(),
        ensures
            final(self).wf(),
            final(self)@ == operate(old(self)@, Operation::Sbc, mode),
    {
        reveal(operate);
        let val = self.read_operand(mode);
        self.add_to_accumulator(val ^ 0xFF);
    }

    /// A + `val` + C into A, with Carry, Overflow, Negative and Zero.
    fn add_to_accumulator(&mut self, val: u8)
        requires
            old(self).wf(),
        ensures
            final(self).wf(),
            final(self)@ == add_with_carry(old(self)@, val),
    {
        let carry_in: u16 = if self.status & CARRY != 0 { 1 } else { 0 };
        let scratch_value: u16 = self.registers.a as u16 + val as u16 + carry_in;
        let result: u8 = (scratch_value % 256) as u8;
        let overflow = (self.registers.a ^ result) & (val ^ result) & SIGN_BIT != 0;

        self.set_flag(CARRY, scratch_value > 0xFF);
        self.set_flag(OVERFLOW, overflow);
        self.update_negative_and_zero(result);
        self.registers.a = result;
    }

    fn and(&mut self, mode: AddressingMode)
        requires
            old(self).wf(),
        ensures
            final(self).wf(),
            final(self)@ == operate(old(self)@, Operation::And, mode),
    {
        reveal(operate);
        let val = self.read_operand(mode);
        self.registers.a = self.registers.a & val;
        self.update_negative_and_zero(self.registers.a);
    }

    fn ora(&mut self, mode: AddressingMode)
        requires
            old(self).wf(),
        ensures
            final(self).wf(),
            final(self)@ == operate(old(self)@, Operation::Ora, mode),
    {
        reveal(operate);
        let val = self.read_operand(mode);
        self.registers.a = self.registers.a | val;
        self.update_negative_and_zero(self.registers.a);
    }

    fn eor(&mut self, mode: AddressingMode)
        requires
            old(self).wf(),
        ensures
            final(self).wf(),
            final(self)@ == operate(old(self)@, Operation::Eor, mode),
    {
        reveal(operate);
        let val = self.read_operand(mode);
        self.registers.a = self.registers.a ^ val;
        self.update_negative_and_zero(self.registers.a);
    }

    fn asl(&mut self, mode: AddressingMode)
        requires
            old(self).wf(),
        ensures
            final(self).wf(),
            final(self)@ == operate(old(self)@, Operation::Asl, mode),
    {
        reveal(operate);
        let val = self.read_operand(mode);
        let result = ((val as u16 * 2) % 256) as u8;
        self.modify_operand(mode, result, val >= 0x80);
    }

    fn lsr(&mut self, mode: AddressingMode)
        requires
            old(self).wf(),
        ensures
            final(self).wf(),
            final(self)@ == operate(old(self)@, Operation::Lsr, mode),
    {
        reveal(operate);
        let val = self.read_operand(mode);
        self.modify_operand(mode, val / 2, val % 2 == 1);
    }

    fn rol(&mut self, mode: AddressingMode)
        requires
            old(self).wf(),
        ensures
            final(self).wf(),
            final(self)@ == operate(old(self)@, Operation::Rol, mode),
    {
        reveal(operate);
        let val = self.read_operand(mode);
        let carry_in: u16 = if self.status & CARRY != 0 { 1 } else { 0 };
        let result = ((val as u16 * 2 + carry_in) % 256) as u8;
        self.modify_operand(mode, result, val >= 0x80);
    }

    fn ror(&mut self, mode: AddressingMode)
        requires
            old(self).wf(),
        ensures
            final(self).wf(),
            final(self)@ == operate(old(self)@, Operation::Ror, mode),
    {
        reveal(operate);
        let val = self.read_operand(mode);
        let carry_in: u8 = if self.status & CARRY != 0 { 0x80 } else { 0 };
        let result = val / 2 + carry_in;
        self.modify_operand(mode, result, val % 2 == 1);
    }

    fn bit(&mut self, mode: AddressingMode)
        requires
            old(self).wf(),
        ensures
            final(self).wf(),
            final(self)@ == operate(old(self)@, Operation::Bit, mode),
    {
        reveal(operate);
        let val = self.read_operand(mode);
        let a = self.registers.a;
        self.set_flag(ZERO, a & val == 0);
        self.set_status_bit_if_bit_set(0b0100_0000, OVERFLOW, val);
        self.set_status_bit_if_bit_set(SIGN_BIT, NEGATIVE, val);
    }

    /// CMP, CPX, CPY: compares `reg` with the operand.
    fn compare(&mut self, mode: AddressingMode, reg: u8)
        requires
            old(self).wf(),
        ensures
            final(self).wf(),
            final(self)@ == compare(old(self)@, reg, read_operand(old(self)@, mode)),
    {
        let val = self.read_operand(mode);
        self.set_flag(CARRY, reg >= val);
        self.update_negative_and_zero(reg.wrapping_sub(val));
    }

    fn cmp(&mut self, mode: AddressingMode)
        requires
            old(self).wf(),
        ensures
            final(self).wf(),
            final(self)@ == operate(old(self)@, Operation::Cmp, mode),
    {
        reveal(operate);
        self.compare(mode, self.registers.a);
    }

    fn cpx(&mut self, mode: AddressingMode)
        requires
            old(self).wf(),
        ensures
            final(self).wf(),
            final(self)@ == operate(old(self)@, Operation::Cpx, mode),
    {
        reveal(operate);
        self.compare(mode, self.registers.x);
    }

    fn cpy(&mut self, mode: AddressingMode)
        requires
            old(self).wf(),
        ensures
            final(self).wf(),
            final(self)@ == operate(old(self)@, Operation::Cpy, mode),
    {
        reveal(operate);
        self.compare(mode, self.registers.y);
    }

    fn inc(&mut self, mode: AddressingMode)
        requires
            old(self).wf(),
        ensures
            final(self).wf(),
            final(self)@ == operate(old(self)@, Operation::Inc, mode),
    {
        reveal(operate);
        let addr = self.effective_address(mode);
        let val = self.read(addr).wrapping_add(1);
        self.write(addr, val);
        self.update_negative_and_zero(val);
    }

    fn dec(&mut self, mode: AddressingMode)
        requires
            old(self).wf(),
        ensures
            final(self).wf(),
            final(self)@ == operate(old(self)@, Operation::Dec, mode),
    {
        reveal(operate);
        let addr = self.effective_address(mode);
        let val = self.read(addr).wrapping_sub(1);
        self.write(addr, val);
        self.update_negative_and_zero(val);
    }

    fn inx(&mut self)
        requires
            old(self).wf(),
        ensures
            final(self).wf(),
            final(self)@ == operate(old(self)@, Operation::Inx, AddressingMode::Implied),
    {
        reveal(operate);
        self.registers.x = self.registers.x.wrapping_add(1);
        self.update_negative_and_zero(self.registers.x);
    }

    fn iny(&mut self)
        requires
            old(self).wf(),
        ensures
            final(self).wf(),
            final(self)@ == operate(old(self)@, Operation::Iny, AddressingMode::Implied),
    {
        reveal(operate);
        self.registers.y = self.registers.y.wrapping_add(1);
        self.update_negative_and_zero(self.registers.y);
    }

    fn dex(&mut self)
        requires
            old(self).wf(),
        ensures
            final(self).wf(),
            final(self)@ == operate(old(self)@, Operation::Dex, AddressingMode::Implied),
    {
        reveal(operate);
        self.registers.x = self.registers.x.wrapping_sub(1);
        self.update_negative_and_zero(self.registers.x);
    }

    fn dey(&mut self)
        requires
            old(self).wf(),
        ensures
            final(self).wf(),
            final(self)@ == operate(old(self)@, Operation::Dey, AddressingMode::Implied),
    {
        reveal(operate);
        self.registers.y = self.registers.y.wrapping_sub(1);
        self.update_negative_and_zero(self.registers.y);
    }

    fn lda(&mut self, mode: AddressingMode)
        requires
            old(self).wf(),
        ensures
            final(self).wf(),
            final(self)@ == operate(old(self)@, Operation::Lda, mode),
    {
        reveal(operate);
        let val = self.read_operand(mode);
        self.update_negative_and_zero(val);
        self.registers.a = val;
    }

    fn ldx(&mut self, mode: AddressingMode)
        requires
            old(self).wf(),
        ensures
            final(self).wf(),
            final(self)@ == operate(old(self)@, Operation::Ldx, mode),
    {
        reveal(operate);
        let val = self.read_operand(mode);
        self.update_negative_and_zero(val);
        self.registers.x = val;
    }

    fn ldy(&mut self, mode: AddressingMode)
        requires
            old(self).wf(),
        ensures
            final(self).wf(),
            final(self)@ == operate(old(self)@, Operation::Ldy, mode),
    {
        reveal(operate);
        let val = self.read_operand(mode);
        self.update_negative_and_zero(val);
        self.registers.y = val;
    }

    fn sta(&mut self, mode: AddressingMode)
        requires
            old(self).wf(),
        ensures
            final(self).wf(),
            final(self)@ == operate(old(self)@, Operation::Sta, mode),
    {
        reveal(operate);
        let addr = self.effective_address(mode);
        self.write(addr, self.registers.a);
    }

    fn stx(&mut self, mode: AddressingMode)
        requires
            old(self).wf(),
        ensures
            final(self).wf(),
            final(self)@ == operate(old(self)@, Operation::Stx, mode),
    {
        reveal(operate);
        let addr = self.effective_address(mode);
        self.write(addr, self.registers.x);
    }

    fn sty(&mut self, mode: AddressingMode)
        requires
            old(self).wf(),
        ensures
            final(self).wf(),
            final(self)@ == operate(old(self)@, Operation::Sty, mode),
    {
        reveal(operate);
        let addr = self.effective_address(mode);
        self.write(addr, self.registers.y);
    }

    fn tax(&mut self)
        requires
            old(self).wf(),
        ensures
            final(self).wf(),
            final(self)@ == operate(old(self)@, Operation::Tax, AddressingMode::Implied),
    {
        reveal(operate);
        self.registers.x = self.registers.a;
        self.update_negative_and_zero(self.registers.x);
    }

    fn tay(&mut self)
        requires
            old(self).wf(),
        ensures
            final(self).wf(),
            final(self)@ == operate(old(self)@, Operation::Tay, AddressingMode::Implied),
    {
        reveal(operate);
        self.registers.y = self.registers.a;
        self.update_negative_and_zero(self.registers.y);
    }

    fn txa(&mut self)
        requires
            old(self).wf(),
        ensures
            final(self).wf(),
            final(self)@ == operate(old(self)@, Operation::Txa, AddressingMode::Implied),
    {
        reveal(operate);
        self.registers.a = self.registers.x;
        self.update_negative_and_zero(self.registers.a);
    }

    fn tya(&mut self)
        requires
            old(self).wf(),
        ensures
            final(self).wf(),
            final(self)@ == operate(old(self)@, Operation::Tya, AddressingMode::Implied),
    {
        reveal(operate);
        self.registers.a = self.registers.y;
        self.update_negative_and_zero(self.registers.a);
    }

    fn tsx(&mut self)
        requires
            old(self).wf(),
        ensures
            final(self).wf(),
            final(self)@ == operate(old(self)@, Operation::Tsx, AddressingMode::Implied),
    {
        reveal(operate);
        self.registers.x = self.stack_pointer;
        self.update_negative_and_zero(self.registers.x);
    }

    fn txs(&mut self)
        requires
            old(self).wf(),
        ensures
            final(self).wf(),
            final(self)@ == operate(old(self)@, Operation::Txs, AddressingMode::Implied),
    {
        reveal(operate);
        self.stack_pointer = self.registers.x;
    }

    fn pha(&mut self)
        requires
            old(self).wf(),
        ensures
            final(self).wf(),
            final(self)@ == operate(old(self)@, Operation::Pha, AddressingMode::Implied),
    {
        reveal(operate);
        self.push_to_stack(self.registers.a);
    }

    fn php(&mut self)
        requires
            old(self).wf(),
        ensures
            final(self).wf(),
            final(self)@ == operate(old(self)@, Operation::Php, AddressingMode::Implied),
    {
        reveal(operate);
        self.push_to_stack(self.status);
    }

    fn pla(&mut self)
        requires
            old(self).wf(),
        ensures
            final(self).wf(),
            final(self)@ == operate(old(self)@, Operation::Pla, AddressingMode::Implied),
    {
        reveal(operate);
        self.registers.a = self.pop_from_stack();
        self.update_negative_and_zero(self.registers.a);
    }

    fn plp(&mut self)
        requires
            old(self).wf(),
        ensures
            final(self).wf(),
            final(self)@ == operate(old(self)@, Operation::Plp, AddressingMode::Implied),
    {
        reveal(operate);
        self.status = self.pop_from_stack();
    }

    // ----- Control transfer -----

    /// Takes the branch when the bit `flag` of P is set (`checking_if_set`)
    /// or clear (otherwise); else skips the two bytes of the instruction.
    fn branch(&mut self, flag: u8, checking_if_set: bool)
        requires
            old(self).wf(),
        ensures
            final(self).wf(),
            final(self)@ == (if (old(self).status & flag != 0) == checking_if_set {
                old(self)@.with_pc(branch_target(old(self)@))
            } else {
                old(self)@.with_pc(wrap16(old(self).program_counter + 2))
            }),
    {
        if (self.status & flag != 0) == checking_if_set {
            let displacement = self.read(self.program_counter.wrapping_add(1));
            if displacement < 128 {
                self.program_counter = self.program_counter.wrapping_add(displacement as u16);
            } else {
                self.program_counter = self.program_counter.wrapping_sub(
                    256 - displacement as u16,
                );
            }
        } else {
            self.program_counter = self.program_counter.wrapping_add(2);
        }
    }

    fn jmp(&mut self, mode: AddressingMode)
        requires
            old(self).wf(),
        ensures
            final(self).wf(),
            final(self)@ == transfer(old(self)@, Operation::Jmp, mode),
    {
        let addr = self.effective_address(mode);
        self.program_counter = addr;
    }

    /// Pushes the address of the instruction's last byte, then jumps.
    fn jsr(&mut self, mode: AddressingMode)
        requires
            old(self).wf(),
        ensures
            final(self).wf(),
            final(self)@ == transfer(old(self)@, Operation::Jsr, mode),
    {
        let addr = self.effective_address(mode);
        self.push_to_stack_16(self.program_counter.wrapping_add(2));
        self.program_counter = addr;
    }

    /// Pops the address that JSR pushed and continues after it.
    fn rts(&mut self)
        requires
            old(self).wf(),
        ensures
            final(self).wf(),
            final(self)@ == transfer(old(self)@, Operation::Rts, AddressingMode::Implied),
    {
        let addr = self.pop_from_stack_16();
        self.program_counter = addr.wrapping_add(1);
    }

    /// Pops P, then the counter.
    fn rti(&mut self)
        requires
            old(self).wf(),
        ensures
            final(self).wf(),
            final(self)@ == transfer(old(self)@, Operation::Rti, AddressingMode::Implied),
    {
        let status = self.pop_from_stack();
        let addr = self.pop_from_stack_16();
        self.status = status;
        self.program_counter = addr;
    }
}

} // verus!
