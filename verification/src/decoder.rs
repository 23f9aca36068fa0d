//! The mapping from instruction words to operations.

use vstd::prelude::*;
use crate::bits::{
    funct3, funct3_of, imm12, imm12_of, lemma_field_bounds, opcode, opcode_of, rd, rd_of, rs1,
    rs1_of, rs2, rs2_of, sign_extend, sign_extend_spec,
};
use crate::error::CpuError;
use crate::inst::Inst;

verus! {

/// Operation family of the arithmetic instructions with an immediate.
pub const OPCODE_OP_IMM: u32 = 0x13;

/// Operation family of the register-register arithmetic instructions.
pub const OPCODE_OP: u32 = 0x33;

/// Function-select value of add within the immediate family.
pub const FUNCT3_ADDI: u32 = 0x0;

/// Width in bits of the immediate field.
pub const IMM_BITS: u32 = 12;

/// The operation that `word` encodes, or the failure that carries the word.
///
/// Family `0x13` with function-select 0 is the register-immediate add; every
/// other function-select of that family is unsupported and is reported with
/// it. Every word of family `0x33` is the register-register add: its
/// function-select fields are not inspected. Any other family is unsupported.
pub open spec fn decode_spec(word: u32) -> Result<Inst, CpuError> {
    if opcode_of(word) == OPCODE_OP_IMM {
        if funct3_of(word) == FUNCT3_ADDI {
            Ok(
                Inst::Addi {
                    rd: rd_of(word),
                    rs1: rs1_of(word),
                    imm: sign_extend_spec(imm12_of(word), IMM_BITS),
                },
            )
        } else {
            Err(
                CpuError::UnsupportedInstruction {
                    word,
                    opcode: opcode_of(word),
                    funct3: Some(funct3_of(word)),
                },
            )
        }
    } else if opcode_of(word) == OPCODE_OP {
        Ok(Inst::Add { rd: rd_of(word), rs1: rs1_of(word), rs2: rs2_of(word) })
    } else {
        Err(CpuError::UnsupportedInstruction { word, opcode: opcode_of(word), funct3: None })
    }
}

/// Whatever decodes names only registers that exist.
pub proof fn lemma_decoded_is_wf(word: u32)
    ensures
        decode_spec(word) matches Ok(op) ==> op.wf(),
{
    lemma_field_bounds(word);
}

/// Decodes `word`. Reads no state and changes none.
pub fn decode(word: u32) -> (r: Result<Inst, CpuError>)
    ensures
        r == decode_spec(word),
        r matches Ok(op) ==> op.wf(),
{
    let family: u32 = opcode(word);
    if family == OPCODE_OP_IMM {
        let select: u32 = funct3(word);
        if select == FUNCT3_ADDI {
            Ok(Inst::Addi { rd: rd(word), rs1: rs1(word), imm: sign_extend(imm12(word), IMM_BITS) })
        } else {
            Err(CpuError::UnsupportedInstruction { word, opcode: family, funct3: Some(select) })
        }
    } else if family == OPCODE_OP {
        Ok(Inst::Add { rd: rd(word), rs1: rs1(word), rs2: rs2(word) })
    } else {
        Err(CpuError::UnsupportedInstruction { word, opcode: family, funct3: None })
    }
}

} // verus!
