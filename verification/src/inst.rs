//! The closed set of operations that the core can execute.

use vstd::prelude::*;

verus! {

/// A decoded operation, with the operand fields it needs and nothing else.
#[derive(Clone, Copy, Debug, PartialEq, Eq)]
pub enum Inst {
    /// Register-register add: `regs[rd] = regs[rs1] + regs[rs2]`, wrapping.
    Add { rd: u32, rs1: u32, rs2: u32 },
    /// Register-immediate add: `regs[rd] = regs[rs1] + imm`, wrapping, where
    /// `imm` is the immediate already sign-extended to 32 bits.
    Addi { rd: u32, rs1: u32, imm: u32 },
}

impl Inst {
    /// Every register index that the operation names is below 32.
    pub open spec fn wf(self) -> bool {
        match self {
            Inst::Add { rd, rs1, rs2 } => rd < 32 && rs1 < 32 && rs2 < 32,
            Inst::Addi { rd, rs1, imm } => rd < 32 && rs1 < 32,
        }
    }

    /// The destination register index.
    pub open spec fn dest(self) -> u32 {
        match self {
            Inst::Add { rd, rs1, rs2 } => rd,
            Inst::Addi { rd, rs1, imm } => rd,
        }
    }
}

} // verus!
