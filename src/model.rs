use vstd::prelude::*;
use crate::addressing_modes::{operand_length, AddressingMode};
use crate::cpu::{
    CARRY, DECIMAL_MODE, INTERRUPT_DISABLE, NEGATIVE, OVERFLOW, PROGRAM_READ_START,
    PROGRAM_START_ADDR, SIGN_BIT, ZERO, INITIAL_STACK_VALUE,
};
use crate::util::{opcode_entry, Operation};

verus! {

/// The size of the address space.
pub const MEMORY_SIZE: usize = 0x10000;

/// The architectural state of the processor as a mathematical value.
pub struct CpuState {
    pub pc: u16,
    pub a: u8,
    pub x: u8,
    pub y: u8,
    pub sp: u8,
    pub status: u8,
    pub mem: Seq<u8>,
}

/// `v` reduced to 16 bits.
pub open spec fn wrap16(v: int) -> u16 {
    (v % 0x10000) as u16
}

/// `v` reduced to 8 bits.
pub open spec fn wrap8(v: int) -> u8 {
    (v % 0x100) as u8
}

/// The little-endian word made of two bytes.
pub open spec fn word(lo: u8, hi: u8) -> u16 {
    (hi as int * 256 + lo as int) as u16
}

/// The high byte of a word.
pub open spec fn high_byte(w: u16) -> u8 {
    (w / 256) as u8
}

/// The low byte of a word.
pub open spec fn low_byte(w: u16) -> u8 {
    (w % 256) as u8
}

/// A byte read as a two's complement number.
pub open spec fn signed(b: u8) -> int {
    if b < 128 {
        b as int
    } else {
        b as int - 256
    }
}

/// `p` with the bits of `flag` set when `on` holds and cleared otherwise.
pub open spec fn with_flag(p: u8, flag: u8, on: bool) -> u8 {
    if on {
        p | flag
    } else {
        p & !flag
    }
}

/// `p` with Zero and Negative describing the result `r`.
pub open spec fn with_nz(p: u8, r: u8) -> u8 {
    with_flag(with_flag(p, ZERO, r == 0), NEGATIVE, r & SIGN_BIT != 0)
}

/// The address in page one that the stack pointer `sp` designates.
pub open spec fn stack_address(sp: u8) -> u16 {
    (0x100 + sp as int) as u16
}

impl CpuState {
    pub open spec fn wf(self) -> bool {
        self.mem.len() == MEMORY_SIZE
    }

    pub open spec fn read(self, addr: u16) -> u8 {
        self.mem[addr as int]
    }

    pub open spec fn read16(self, addr: u16) -> u16 {
        word(self.read(addr), self.read(wrap16(addr + 1)))
    }

    /// A pointer read from the zero page; its high byte wraps within the page.
    pub open spec fn read16_zero_page(self, ptr: u8) -> u16 {
        word(self.read(ptr as u16), self.read(wrap8(ptr + 1) as u16))
    }

    pub open spec fn write(self, addr: u16, v: u8) -> CpuState {
        CpuState { mem: self.mem.update(addr as int, v), ..self }
    }

    pub open spec fn write16(self, addr: u16, w: u16) -> CpuState {
        self.write(wrap16(addr + 1), high_byte(w)).write(addr, low_byte(w))
    }

    pub open spec fn with_status(self, status: u8) -> CpuState {
        CpuState { status, ..self }
    }

    pub open spec fn with_pc(self, pc: u16) -> CpuState {
        CpuState { pc, ..self }
    }

    /// Decrements the stack pointer, then stores `b` where it points.
    pub open spec fn push(self, b: u8) -> CpuState {
        let sp = wrap8(self.sp - 1);
        CpuState { sp, ..self }.write(stack_address(sp), b)
    }

    /// The byte that a pop returns.
    pub open spec fn top(self) -> u8 {
        self.read(stack_address(self.sp))
    }

    /// The state after a pop: the stack pointer moves up.
    pub open spec fn pop(self) -> CpuState {
        CpuState { sp: wrap8(self.sp + 1), ..self }
    }

    /// Pushes the high byte of `w`, then its low byte.
    pub open spec fn push16(self, w: u16) -> CpuState {
        self.push(high_byte(w)).push(low_byte(w))
    }

    /// The word that two pops return, the low byte first.
    pub open spec fn top16(self) -> u16 {
        word(self.top(), self.pop().top())
    }

    pub open spec fn pop16(self) -> CpuState {
        self.pop().pop()
    }
}

/// Where the operand of the instruction at `s.pc` lies. Modes without an
/// operand in memory resolve to the byte after the opcode.
pub open spec fn effective_address(s: CpuState, mode: AddressingMode) -> u16 {
    let operand = wrap16(s.pc + 1);
    match mode {
        AddressingMode::ZeroPage => s.read(operand) as u16,
        AddressingMode::ZeroPage_X => wrap8(s.read(operand) + s.x) as u16,
        AddressingMode::ZeroPage_Y => wrap8(s.read(operand) + s.y) as u16,
        AddressingMode::Absolute => s.read16(operand),
        AddressingMode::Absolute_X => wrap16(s.read16(operand) + s.x),
        AddressingMode::Absolute_Y => wrap16(s.read16(operand) + s.y),
        AddressingMode::Indirect => s.read16(s.read16(operand)),
        AddressingMode::Indirect_X => s.read16_zero_page(wrap8(s.read(operand) + s.x)),
        AddressingMode::Indirect_Y => wrap16(s.read16_zero_page(s.read(operand)) + s.y),
        _ => operand,
    }
}

/// The value an instruction in `mode` works on: A in accumulator mode, else
/// the byte at the effective address.
pub open spec fn read_operand(s: CpuState, mode: AddressingMode) -> u8 {
    if mode == AddressingMode::Accumulator {
        s.a
    } else {
        s.read(effective_address(s, mode))
    }
}

/// Stores a result where `read_operand` found its input.
pub open spec fn write_operand(s: CpuState, mode: AddressingMode, v: u8) -> CpuState {
    if mode == AddressingMode::Accumulator {
        CpuState { a: v, ..s }
    } else {
        s.write(effective_address(s, mode), v)
    }
}

/// ADC on operand `m`; SBC is ADC on the complement of its operand.
pub open spec fn add_with_carry(s: CpuState, m: u8) -> CpuState {
    let c: int = if s.status & CARRY != 0 { 1 } else { 0 };
    let t = s.a + m + c;
    let r = wrap8(t);
    let v = (s.a ^ r) & (m ^ r) & SIGN_BIT != 0;
    CpuState {
        a: r,
        status: with_nz(with_flag(with_flag(s.status, CARRY, t > 0xFF), OVERFLOW, v), r),
        ..s
    }
}

/// CMP, CPX and CPY: `reg - m` sets the flags and is then dropped.
pub open spec fn compare(s: CpuState, reg: u8, m: u8) -> CpuState {
    s.with_status(with_nz(with_flag(s.status, CARRY, reg >= m), wrap8(reg - m)))
}

/// A read-modify-write instruction: the carry-out and the result set the
/// flags, and the result goes back where the operand came from.
pub open spec fn modify_operand(s: CpuState, mode: AddressingMode, r: u8, carry: bool) -> CpuState {
    write_operand(s.with_status(with_nz(with_flag(s.status, CARRY, carry), r)), mode, r)
}

pub open spec fn asl_result(v: u8) -> u8 {
    wrap8(v * 2)
}

pub open spec fn lsr_result(v: u8) -> u8 {
    v / 2
}

pub open spec fn rol_result(v: u8, carry_in: bool) -> u8 {
    wrap8(v * 2 + if carry_in { 1int } else { 0 })
}

pub open spec fn ror_result(v: u8, carry_in: bool) -> u8 {
    (v / 2 + if carry_in { 0x80int } else { 0 }) as u8
}

/// The effect of an instruction that does not move the program counter by
/// itself; the counter then advances past the instruction.
#[verifier::opaque]
pub open spec fn operate(s: CpuState, op: Operation, mode: AddressingMode) -> CpuState {
    let v = read_operand(s, mode);
    let c = s.status & CARRY != 0;
    match op {
        Operation::Adc => add_with_carry(s, v),
        Operation::Sbc => add_with_carry(s, v ^ 0xFF),
        Operation::And => CpuState { a: s.a & v, status: with_nz(s.status, s.a & v), ..s },
        Operation::Ora => CpuState { a: s.a | v, status: with_nz(s.status, s.a | v), ..s },
        Operation::Eor => CpuState { a: s.a ^ v, status: with_nz(s.status, s.a ^ v), ..s },
        Operation::Asl => modify_operand(s, mode, asl_result(v), v >= 0x80),
        Operation::Lsr => modify_operand(s, mode, lsr_result(v), v % 2 == 1),
        Operation::Rol => modify_operand(s, mode, rol_result(v, c), v >= 0x80),
        Operation::Ror => modify_operand(s, mode, ror_result(v, c), v % 2 == 1),
        Operation::Bit => s.with_status(
            with_flag(
                with_flag(with_flag(s.status, ZERO, s.a & v == 0), OVERFLOW, v & 0x40 != 0),
                NEGATIVE,
                v & 0x80 != 0,
            ),
        ),
        Operation::Clc => s.with_status(with_flag(s.status, CARRY, false)),
        Operation::Sec => s.with_status(with_flag(s.status, CARRY, true)),
        Operation::Cld => s.with_status(with_flag(s.status, DECIMAL_MODE, false)),
        Operation::Sed => s.with_status(with_flag(s.status, DECIMAL_MODE, true)),
        Operation::Cli => s.with_status(with_flag(s.status, INTERRUPT_DISABLE, false)),
        Operation::Sei => s.with_status(with_flag(s.status, INTERRUPT_DISABLE, true)),
        Operation::Clv => s.with_status(with_flag(s.status, OVERFLOW, false)),
        Operation::Cmp => compare(s, s.a, v),
        Operation::Cpx => compare(s, s.x, v),
        Operation::Cpy => compare(s, s.y, v),
        Operation::Inc => {
            let r = wrap8(s.read(effective_address(s, mode)) + 1);
            s.write(effective_address(s, mode), r).with_status(with_nz(s.status, r))
        },
        Operation::Dec => {
            let r = wrap8(s.read(effective_address(s, mode)) - 1);
            s.write(effective_address(s, mode), r).with_status(with_nz(s.status, r))
        },
        Operation::Inx => CpuState { x: wrap8(s.x + 1), status: with_nz(s.status, wrap8(s.x + 1)), ..s },
        Operation::Iny => CpuState { y: wrap8(s.y + 1), status: with_nz(s.status, wrap8(s.y + 1)), ..s },
        Operation::Dex => CpuState { x: wrap8(s.x - 1), status: with_nz(s.status, wrap8(s.x - 1)), ..s },
        Operation::Dey => CpuState { y: wrap8(s.y - 1), status: with_nz(s.status, wrap8(s.y - 1)), ..s },
        Operation::Lda => CpuState { a: v, status: with_nz(s.status, v), ..s },
        Operation::Ldx => CpuState { x: v, status: with_nz(s.status, v), ..s },
        Operation::Ldy => CpuState { y: v, status: with_nz(s.status, v), ..s },
        Operation::Sta => s.write(effective_address(s, mode), s.a),
        Operation::Stx => s.write(effective_address(s, mode), s.x),
        Operation::Sty => s.write(effective_address(s, mode), s.y),
        Operation::Tax => CpuState { x: s.a, status: with_nz(s.status, s.a), ..s },
        Operation::Tay => CpuState { y: s.a, status: with_nz(s.status, s.a), ..s },
        Operation::Txa => CpuState { a: s.x, status: with_nz(s.status, s.x), ..s },
        Operation::Tya => CpuState { a: s.y, status: with_nz(s.status, s.y), ..s },
        Operation::Tsx => CpuState { x: s.sp, status: with_nz(s.status, s.sp), ..s },
        Operation::Txs => CpuState { sp: s.x, ..s },
        Operation::Pha => s.push(s.a),
        Operation::Php => s.push(s.status),
        Operation::Pla => CpuState { a: s.top(), status: with_nz(s.status, s.top()), ..s.pop() },
        Operation::Plp => s.pop().with_status(s.top()),
        _ => s,
    }
}

/// Branches, jumps, subroutine calls and returns: they set the program
/// counter themselves.
pub open spec fn is_control_transfer(op: Operation) -> bool {
    is_branch(op) || op == Operation::Jmp || op == Operation::Jsr || op == Operation::Rts
        || op == Operation::Rti
}

pub open spec fn is_branch(op: Operation) -> bool {
    match op {
        Operation::Bcc | Operation::Bcs | Operation::Beq | Operation::Bne | Operation::Bmi
        | Operation::Bpl | Operation::Bvc | Operation::Bvs => true,
        _ => false,
    }
}

/// The status flag that a branch tests.
pub open spec fn branch_flag(op: Operation) -> u8 {
    match op {
        Operation::Bcc | Operation::Bcs => CARRY,
        Operation::Beq | Operation::Bne => ZERO,
        Operation::Bmi | Operation::Bpl => NEGATIVE,
        _ => OVERFLOW,
    }
}

/// Whether a branch is taken when its flag is set (or when it is clear).
pub open spec fn branch_on_set(op: Operation) -> bool {
    match op {
        Operation::Bcs | Operation::Beq | Operation::Bmi | Operation::Bvs => true,
        _ => false,
    }
}

pub open spec fn branch_taken(s: CpuState, op: Operation) -> bool {
    (s.status & branch_flag(op) != 0) == branch_on_set(op)
}

/// A taken branch moves the counter by the signed displacement that follows
/// the opcode, counted from the opcode's own address.
pub open spec fn branch_target(s: CpuState) -> u16 {
    wrap16(s.pc + signed(s.read(wrap16(s.pc + 1))))
}

/// The effect of an instruction that sets the program counter itself.
/// JSR pushes the address of its own last byte; RTS pops it and adds one.
pub open spec fn transfer(s: CpuState, op: Operation, mode: AddressingMode) -> CpuState {
    match op {
        Operation::Jmp => s.with_pc(effective_address(s, mode)),
        Operation::Jsr => s.push16(wrap16(s.pc + 2)).with_pc(effective_address(s, mode)),
        Operation::Rts => s.pop16().with_pc(wrap16(s.top16() + 1)),
        Operation::Rti => s.pop().pop16().with_status(s.top()).with_pc(s.pop().top16()),
        _ => if branch_taken(s, op) {
            s.with_pc(branch_target(s))
        } else {
            s.with_pc(wrap16(s.pc + 2))
        },
    }
}

/// Moves the program counter past an instruction in `mode`.
pub open spec fn advance(s: CpuState, mode: AddressingMode) -> CpuState {
    s.with_pc(wrap16(s.pc + 1 + operand_length(mode)))
}

/// One fetch-decode-execute step. A byte that is no opcode is skipped.
pub open spec fn step(s: CpuState) -> CpuState {
    match opcode_entry(s.read(s.pc)) {
        None => s.with_pc(wrap16(s.pc + 1)),
        Some((op, mode)) => if is_control_transfer(op) {
            transfer(s, op, mode)
        } else {
            advance(operate(s, op, mode), mode)
        },
    }
}

/// The run loop stops at a BRK opcode or at the top of the address space.
pub open spec fn halted(s: CpuState) -> bool {
    s.read(s.pc) == 0x00 || s.pc == 0xFFFF
}

/// At most `fuel` steps, stopping early where the run loop halts.
pub open spec fn run(s: CpuState, fuel: nat) -> CpuState
    decreases fuel,
{
    if fuel == 0 || halted(s) {
        s
    } else {
        run(step(s), (fuel - 1) as nat)
    }
}

/// Reset clears A, X, Y and P and loads the counter from the reset vector.
pub open spec fn reset(s: CpuState) -> CpuState {
    CpuState { a: 0, x: 0, y: 0, status: 0, pc: s.read16(PROGRAM_READ_START), ..s }
}

/// The address space at power-on: zeros, with the program at 0x8000.
pub open spec fn program_image(program: Seq<u8>) -> Seq<u8> {
    Seq::new(
        MEMORY_SIZE as nat,
        |i: int|
            if PROGRAM_START_ADDR <= i < PROGRAM_START_ADDR + program.len() {
                program[i - PROGRAM_START_ADDR]
            } else {
                0u8
            },
    )
}

/// The state of a new processor: the program in place, the reset vector
/// pointing at it, and a reset done.
pub open spec fn power_on(program: Seq<u8>) -> CpuState {
    reset(
        CpuState {
            pc: PROGRAM_START_ADDR,
            a: 0,
            x: 0,
            y: 0,
            sp: INITIAL_STACK_VALUE,
            status: 0,
            mem: program_image(program),
        }.write16(PROGRAM_READ_START, PROGRAM_START_ADDR),
    )
}

} // verus!
