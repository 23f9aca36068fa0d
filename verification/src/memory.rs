//! The flat byte image that the core addresses.

use vstd::prelude::*;
use crate::error::CpuError;

verus! {

/// Width of a word in bytes. Every instruction is one word.
pub const WORD_BYTES: u32 = 4;

/// The addressable image: exactly the bytes it was built from, the program
/// at offset 0. Nothing is appended or zero-filled, so the image ends where
/// the program ends.
pub struct Memory {
    pub bytes: Vec<u8>,
}

impl View for Memory {
    type V = Seq<u8>;

    open spec fn view(&self) -> Seq<u8> {
        self.bytes@
    }
}

/// Whether the four bytes from `address` on lie inside `bytes`.
pub open spec fn word_in_bounds(bytes: Seq<u8>, address: u32) -> bool {
    address + 4 <= bytes.len()
}

/// The little-endian word made of the four bytes of `bytes` from `address`
/// on: the first byte is the least significant.
pub open spec fn word_at(bytes: Seq<u8>, address: u32) -> u32 {
    (bytes[address as int] as int + bytes[address + 1] as int * 0x100 + bytes[address + 2] as int
        * 0x1_0000 + bytes[address + 3] as int * 0x100_0000) as u32
}

/// What a word read at `address` gives: the word, or the failure that names
/// the address.
pub open spec fn read_word_spec(bytes: Seq<u8>, address: u32) -> Result<u32, CpuError> {
    if word_in_bounds(bytes, address) {
        Ok(word_at(bytes, address))
    } else {
        Err(CpuError::OutOfBoundsFetch { address })
    }
}

/// Joining four bytes with shifts and ORs gives their little-endian sum.
pub proof fn lemma_join_bytes(b0: u8, b1: u8, b2: u8, b3: u8)
    ensures
        (b0 as u32) | ((b1 as u32) << 8) | ((b2 as u32) << 16) | ((b3 as u32) << 24) == b0 as int
            + b1 as int * 0x100 + b2 as int * 0x1_0000 + b3 as int * 0x100_0000,
{
    assert((b0 as u32) | ((b1 as u32) << 8) | ((b2 as u32) << 16) | ((b3 as u32) << 24) == b0
        as int + b1 as int * 0x100 + b2 as int * 0x1_0000 + b3 as int * 0x100_0000)
        by (bit_vector);
}

impl Memory {
    /// An image that holds `bytes` and nothing more.
    pub fn new(bytes: Vec<u8>) -> (m: Memory)
        ensures
            m@ == bytes@,
    {
        Memory { bytes }
    }

    /// Number of bytes in the image.
    pub fn len(&self) -> (n: usize)
        ensures
            n == self@.len(),
    {
        self.bytes.len()
    }

    /// Reads the little-endian word at `address`. The read succeeds exactly
    /// when `address + 4` does not exceed the image length.
    pub fn read_word(&self, address: u32) -> (r: Result<u32, CpuError>)
        ensures
            r == read_word_spec(self@, address),
    {
        let n: usize = self.bytes.len();
        let a: usize = address as usize;
        if n < 4 || a > n - 4 {
            return Err(CpuError::OutOfBoundsFetch { address });
        }
        let b0: u8 = self.bytes[a];
        let b1: u8 = self.bytes[a + 1];
        let b2: u8 = self.bytes[a + 2];
        let b3: u8 = self.bytes[a + 3];
        proof {
            lemma_join_bytes(b0, b1, b2, b3);
        }
        Ok((b0 as u32) | ((b1 as u32) << 8) | ((b2 as u32) << 16) | ((b3 as u32) << 24))
    }
}

} // verus!
