use vstd::prelude::*;
use crate::addressing_modes::{operand_length, AddressingMode};
use crate::cpu::{NEGATIVE, SIGN_BIT, ZERO};
use crate::model::{
    add_with_carry, asl_result, branch_taken, effective_address, is_branch, is_control_transfer,
    lsr_result, operate, read_operand, reset, rol_result, ror_result, stack_address, step, with_nz,
    wrap16, wrap8, CpuState,
};
use crate::util::{is_defined_opcode, opcode_entry, Operation};

verus! {

/// An instruction that does not set the counter itself keeps it.
proof fn lemma_operate_keeps_pc(s: CpuState, op: Operation, mode: AddressingMode)
    ensures
        operate(s, op, mode).pc == s.pc,
{
    reveal(operate);
}

/// Every defined instruction other than a jump, a call, a return or a taken
/// branch moves the program counter past its opcode and operand bytes.
pub proof fn lemma_step_advances_program_counter(s: CpuState)
    requires
        s.wf(),
        is_defined_opcode(s.read(s.pc)),
        !is_control_transfer(opcode_entry(s.read(s.pc)).unwrap().0) || (is_branch(
            opcode_entry(s.read(s.pc)).unwrap().0,
        ) && !branch_taken(s, opcode_entry(s.read(s.pc)).unwrap().0)),
    ensures
        step(s).pc == wrap16(s.pc + 1 + operand_length(opcode_entry(s.read(s.pc)).unwrap().1)),
{
    let (op, mode) = opcode_entry(s.read(s.pc)).unwrap();
    lemma_operate_keeps_pc(s, op, mode);
}

/// Zero is set exactly when `r` is zero and Negative exactly when bit 7 of
/// `r` is set; the other flags of `p` are kept.
pub proof fn lemma_nz_flags(p: u8, r: u8)
    by (bit_vector)
    ensures
        (with_nz(p, r) & ZERO != 0) == (r == 0),
        (with_nz(p, r) & NEGATIVE != 0) == (r & SIGN_BIT != 0),
        with_nz(p, r) & 0x7D == p & 0x7D,
{
}

/// The instructions whose Zero and Negative flags describe their result.
pub open spec fn updates_nz(op: Operation) -> bool {
    match op {
        Operation::Adc | Operation::Sbc | Operation::And | Operation::Ora | Operation::Eor
        | Operation::Asl | Operation::Lsr | Operation::Rol | Operation::Ror | Operation::Cmp
        | Operation::Cpx | Operation::Cpy | Operation::Inc | Operation::Dec | Operation::Inx
        | Operation::Iny | Operation::Dex | Operation::Dey | Operation::Lda | Operation::Ldx
        | Operation::Ldy | Operation::Tax | Operation::Tay | Operation::Txa | Operation::Tya
        | Operation::Tsx | Operation::Pla => true,
        _ => false,
    }
}

/// The result of such an instruction: the byte it stores, or for a
/// comparison the difference it drops.
pub open spec fn nz_result(s: CpuState, op: Operation, mode: AddressingMode) -> u8 {
    let v = read_operand(s, mode);
    let c = s.status & 1 != 0;
    match op {
        Operation::Adc => add_with_carry(s, v).a,
        Operation::Sbc => add_with_carry(s, v ^ 0xFF).a,
        Operation::And => s.a & v,
        Operation::Ora => s.a | v,
        Operation::Eor => s.a ^ v,
        Operation::Asl => asl_result(v),
        Operation::Lsr => lsr_result(v),
        Operation::Rol => rol_result(v, c),
        Operation::Ror => ror_result(v, c),
        Operation::Cmp => wrap8(s.a - v),
        Operation::Cpx => wrap8(s.x - v),
        Operation::Cpy => wrap8(s.y - v),
        Operation::Inc => wrap8(s.read(effective_address(s, mode)) + 1),
        Operation::Dec => wrap8(s.read(effective_address(s, mode)) - 1),
        Operation::Inx => wrap8(s.x + 1),
        Operation::Iny => wrap8(s.y + 1),
        Operation::Dex => wrap8(s.x - 1),
        Operation::Dey => wrap8(s.y - 1),
        Operation::Lda | Operation::Ldx | Operation::Ldy => v,
        Operation::Tax | Operation::Tay => s.a,
        Operation::Txa => s.x,
        Operation::Tya => s.y,
        Operation::Tsx => s.sp,
        _ => s.top(),
    }
}

/// After an instruction that updates Zero and Negative, Zero is set exactly
/// when its result is zero and Negative exactly when bit 7 of the result is
/// set.
pub proof fn lemma_nz_describe_result(s: CpuState, op: Operation, mode: AddressingMode)
    requires
        s.wf(),
        updates_nz(op),
    ensures
        (operate(s, op, mode).status & ZERO != 0) == (nz_result(s, op, mode) == 0),
        (operate(s, op, mode).status & NEGATIVE != 0) == (nz_result(s, op, mode) & 0x80 != 0),
{
    reveal(operate);
    assert forall|p: u8, r: u8|
        (#[trigger] with_nz(p, r) & ZERO != 0) == (r == 0) && (with_nz(p, r) & NEGATIVE != 0) == (
        r & SIGN_BIT != 0) by {
        lemma_nz_flags(p, r);
    }
}

/// A push followed by a pop returns the pushed byte and restores the stack
/// pointer; the byte stays in memory below the stack pointer.
pub proof fn lemma_push_pop(s: CpuState, b: u8)
    requires
        s.wf(),
    ensures
        s.push(b).top() == b,
        s.push(b).pop().sp == s.sp,
        s.push(b).pop() == s.write(stack_address(wrap8(s.sp - 1)), b),
{
}

/// The stack lives in page one: every stack address lies in 0x0100..=0x01FF,
/// a push changes no byte outside that page and a pop changes no byte.
pub proof fn lemma_stack_in_page_one(s: CpuState, b: u8)
    requires
        s.wf(),
    ensures
        0x0100 <= stack_address(s.sp) <= 0x01FF,
        s.push(b).wf(),
        forall|i: int|
            0 <= i < 0x10000 && !(0x0100 <= i <= 0x01FF) ==> #[trigger] s.push(b).mem[i]
                == s.mem[i],
        s.pop().mem == s.mem,
{
}

/// Resetting twice leaves the processor as resetting once does.
pub proof fn lemma_reset_idempotent(s: CpuState)
    requires
        s.wf(),
    ensures
        reset(reset(s)) == reset(s),
{
}

/// LDA followed by STA to an address other than the one LDA read copies the
/// byte: afterwards both addresses hold it.
pub proof fn lemma_load_then_store_copies(s: CpuState)
    requires
        s.wf(),
        opcode_entry(s.read(s.pc)) is Some,
        opcode_entry(s.read(s.pc)).unwrap().0 == Operation::Lda,
        opcode_entry(step(s).read(step(s).pc)) is Some,
        opcode_entry(step(s).read(step(s).pc)).unwrap().0 == Operation::Sta,
        effective_address(step(s), opcode_entry(step(s).read(step(s).pc)).unwrap().1)
            != effective_address(s, opcode_entry(s.read(s.pc)).unwrap().1),
    ensures
        ({
            let ea = effective_address(s, opcode_entry(s.read(s.pc)).unwrap().1);
            let s1 = step(s);
            let x = effective_address(s1, opcode_entry(s1.read(s1.pc)).unwrap().1);
            &&& step(s1).read(x) == step(s1).read(ea)
            &&& step(s1).read(x) == s.read(ea)
        }),
{
    reveal(operate);
}

} // verus!
