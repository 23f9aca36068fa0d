//! What holds of the core across its operations: the effect of each
//! operation on a whole cycle, the zero register, and the run.

use vstd::prelude::*;
use crate::bits::{
    funct3_of, imm12_of, lemma_field_bounds, lemma_sign_extend_imm12, opcode_of, rd_of, rs1_of,
    rs2_of, sign_extend_spec,
};
use crate::cpu::{lemma_step_keeps_image, wrapping_sum, CpuState};
use crate::decoder::{decode_spec, lemma_decoded_is_wf, FUNCT3_ADDI, OPCODE_OP, OPCODE_OP_IMM};
use crate::inst::Inst;
use crate::memory::word_at;

verus! {

/// A register-register add with a destination other than register 0 sets
/// the destination to the sum of the two source registers modulo `2^32`, and
/// leaves every other register, the program counter and the image untouched.
pub proof fn lemma_add_effect(s: CpuState, rd: u32, rs1: u32, rs2: u32)
    requires
        s.regs.len() == 32,
        0 < rd < 32,
        rs1 < 32,
        rs2 < 32,
    ensures
        s.apply(Inst::Add { rd, rs1, rs2 }).regs.len() == 32,
        s.apply(Inst::Add { rd, rs1, rs2 }).regs[rd as int] == (s.regs[rs1 as int]
            + s.regs[rs2 as int]) % 0x1_0000_0000,
        forall|i: int|
            0 <= i < 32 && i != rd ==> s.apply(Inst::Add { rd, rs1, rs2 }).regs[i] == s.regs[i],
        s.apply(Inst::Add { rd, rs1, rs2 }).pc == s.pc,
        s.apply(Inst::Add { rd, rs1, rs2 }).mem == s.mem,
{
}

/// A register-immediate add with a destination other than register 0 sets
/// the destination to the source register plus the immediate modulo `2^32`,
/// and leaves every other register, the program counter and the image
/// untouched.
pub proof fn lemma_addi_effect(s: CpuState, rd: u32, rs1: u32, imm: u32)
    requires
        s.regs.len() == 32,
        0 < rd < 32,
        rs1 < 32,
    ensures
        s.apply(Inst::Addi { rd, rs1, imm }).regs.len() == 32,
        s.apply(Inst::Addi { rd, rs1, imm }).regs[rd as int] == (s.regs[rs1 as int] + imm)
            % 0x1_0000_0000,
        forall|i: int|
            0 <= i < 32 && i != rd ==> s.apply(Inst::Addi { rd, rs1, imm }).regs[i] == s.regs[i],
        s.apply(Inst::Addi { rd, rs1, imm }).pc == s.pc,
        s.apply(Inst::Addi { rd, rs1, imm }).mem == s.mem,
{
}

/// A cycle that fetches a register-register add with a destination other
/// than register 0 succeeds, sets the destination to the sum of the two
/// source registers modulo `2^32`, leaves every other register and the
/// image untouched, and advances the program counter by exactly 4.
pub proof fn lemma_add_cycle(s: CpuState)
    requires
        s.regs.len() == 32,
        s.can_fetch(),
        opcode_of(word_at(s.mem, s.pc)) == OPCODE_OP,
        rd_of(word_at(s.mem, s.pc)) != 0,
    ensures
        s.step().1 is Ok,
        s.step().0.pc == s.pc + 4,
        s.step().0.mem == s.mem,
        s.step().0.regs.len() == 32,
        s.step().0.regs[rd_of(word_at(s.mem, s.pc)) as int] == wrapping_sum(
            s.regs[rs1_of(word_at(s.mem, s.pc)) as int],
            s.regs[rs2_of(word_at(s.mem, s.pc)) as int],
        ),
        forall|i: int|
            0 <= i < 32 && i != rd_of(word_at(s.mem, s.pc)) ==> s.step().0.regs[i] == s.regs[i],
{
    lemma_field_bounds(word_at(s.mem, s.pc));
}

/// A cycle that fetches a register-immediate add with a destination other
/// than register 0 succeeds, sets the destination to the source register
/// plus the sign-extended 12-bit immediate modulo `2^32`, leaves every other
/// register and the image untouched, and advances the program counter by
/// exactly 4. An immediate field up to `0x7ff` counts as itself; a field `f`
/// from `0x800` on counts as `f + 0xffff_f000`, that is as `f - 4096`.
pub proof fn lemma_addi_cycle(s: CpuState)
    requires
        s.regs.len() == 32,
        s.can_fetch(),
        opcode_of(word_at(s.mem, s.pc)) == OPCODE_OP_IMM,
        funct3_of(word_at(s.mem, s.pc)) == FUNCT3_ADDI,
        rd_of(word_at(s.mem, s.pc)) != 0,
    ensures
        s.step().1 is Ok,
        s.step().0.pc == s.pc + 4,
        s.step().0.mem == s.mem,
        s.step().0.regs.len() == 32,
        s.step().0.regs[rd_of(word_at(s.mem, s.pc)) as int] == wrapping_sum(
            s.regs[rs1_of(word_at(s.mem, s.pc)) as int],
            sign_extend_spec(imm12_of(word_at(s.mem, s.pc)), 12),
        ),
        forall|i: int|
            0 <= i < 32 && i != rd_of(word_at(s.mem, s.pc)) ==> s.step().0.regs[i] == s.regs[i],
        imm12_of(word_at(s.mem, s.pc)) < 0x800 ==> sign_extend_spec(
            imm12_of(word_at(s.mem, s.pc)),
            12,
        ) == imm12_of(word_at(s.mem, s.pc)),
        imm12_of(word_at(s.mem, s.pc)) >= 0x800 ==> sign_extend_spec(
            imm12_of(word_at(s.mem, s.pc)),
            12,
        ) == imm12_of(word_at(s.mem, s.pc)) + 0xffff_f000,
{
    lemma_field_bounds(word_at(s.mem, s.pc));
    lemma_sign_extend_imm12(imm12_of(word_at(s.mem, s.pc)));
}

/// An operation whose destination is register 0 changes nothing.
pub proof fn lemma_write_to_zero_is_discarded(s: CpuState, op: Inst)
    requires
        op.dest() == 0,
    ensures
        s.apply(op) == s,
{
}

/// Register 0 holds zero after any operation, and with it the whole
/// invariant of the state is kept.
pub proof fn lemma_apply_keeps_zero(s: CpuState, op: Inst)
    requires
        s.wf(),
        op.wf(),
    ensures
        s.apply(op).regs[0] == 0,
        s.apply(op).wf(),
{
}

/// Executing any word, whether it decodes or not, keeps the invariant of the
/// state: register 0 holds zero afterwards.
pub proof fn lemma_execute_keeps_zero(s: CpuState, word: u32)
    requires
        s.wf(),
    ensures
        s.execute(word).0.regs[0] == 0,
        s.execute(word).0.wf(),
{
    lemma_decoded_is_wf(word);
    if let Ok(op) = decode_spec(word) {
        lemma_apply_keeps_zero(s, op);
    }
}

/// A cycle, whether it succeeds or fails, keeps the invariant of the state:
/// register 0 holds zero, and the program counter stays word-aligned and
/// inside the image or at its end.
pub proof fn lemma_step_keeps_wf(s: CpuState)
    requires
        s.wf(),
    ensures
        s.step().0.wf(),
{
    if s.can_fetch() {
        lemma_execute_keeps_zero(
            CpuState { pc: (s.pc + 4) as u32, ..s },
            word_at(s.mem, s.pc),
        );
    }
}

/// A halted core does not move: its run ends at once, in the state it
/// started in, without a failure. A core over an empty image is halted from
/// the start.
pub proof fn lemma_halted_run(s: CpuState)
    requires
        !s.running(),
    ensures
        s.run() == (s, Ok::<(), crate::error::CpuError>(())),
{
}

/// A run never changes the image, keeps the invariant of the state, and
/// where it ends without a failure the core is halted.
pub proof fn lemma_run(s: CpuState)
    ensures
        s.run().0.mem == s.mem,
        s.run().1 is Ok ==> !s.run().0.running(),
        s.wf() ==> s.run().0.wf(),
    decreases s.mem.len() - s.pc,
{
    if s.running() {
        lemma_step_keeps_image(s);
        if s.wf() {
            lemma_step_keeps_wf(s);
        }
        if s.step().1 is Ok {
            lemma_run(s.step().0);
        }
    }
}

} // verus!
