//! The failures that the core reports to its caller.

use vstd::prelude::*;

verus! {

/// A failure of the core. Each one is handed back as a value: the caller
/// decides whether to report it, stop, or inspect the state reached so far.
#[derive(Clone, Copy, Debug, PartialEq, Eq)]
pub enum CpuError {
    /// Decoding met a bit pattern that has no operation. `funct3` is present
    /// where the operation family was known and its function-select field
    /// was not.
    UnsupportedInstruction { word: u32, opcode: u32, funct3: Option<u32> },
    /// A word was asked for at `address`, and the four bytes from there on do
    /// not all lie inside the image.
    OutOfBoundsFetch { address: u32 },
}

} // verus!
