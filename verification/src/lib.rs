//! Execution core of a small 32-bit processor emulator.
//!
//! The core fetches little-endian instruction words from a flat byte image,
//! decodes each into an [`inst::Inst`], and applies it to a file of 32
//! registers. Every function carries a contract over a mathematical model of
//! the machine ([`cpu::CpuState`]).

pub mod bits;
pub mod error;
pub mod inst;
pub mod memory;
pub mod decoder;
pub mod cpu;
pub mod lemmas;
