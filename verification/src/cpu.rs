//! The execution core: register file, program counter, and the
//! fetch, advance, decode, execute cycle.

use vstd::prelude::*;
use crate::decoder::{decode, decode_spec};
use crate::error::CpuError;
use crate::inst::Inst;
use crate::memory::{read_word_spec, word_at, word_in_bounds, Memory, WORD_BYTES};

verus! {

/// Default memory size, 64 MiB. A core made by [`Cpu::new`] starts with this
/// value in register 1, which by convention points at the top of memory.
pub const MEM_SIZE: u32 = 0x0400_0000;

/// The architectural state as a mathematical value: the contracts of the
/// core are stated over it.
pub struct CpuState {
    /// The 32 registers, by index.
    pub regs: Seq<u32>,
    /// Address of the next word to fetch.
    pub pc: u32,
    /// The bytes of the image.
    pub mem: Seq<u8>,
}

/// `a + b` modulo `2^32`.
pub open spec fn wrapping_sum(a: u32, b: u32) -> u32 {
    ((a + b) % 0x1_0000_0000) as u32
}

impl CpuState {
    /// The state that a core starts in: all registers zero but register 1,
    /// which holds `mem_size`; the program counter at 0; the image equal to
    /// `program`.
    pub open spec fn initial(program: Seq<u8>, mem_size: u32) -> CpuState {
        CpuState {
            regs: Seq::new(
                32,
                |i: int|
                    if i == 1 {
                        mem_size
                    } else {
                        0u32
                    },
            ),
            pc: 0,
            mem: program,
        }
    }

    /// The invariant of the state: there are 32 registers, register 0 holds
    /// zero, and the program counter is word-aligned and not beyond the end
    /// of the image.
    pub open spec fn wf(self) -> bool {
        &&& self.regs.len() == 32
        &&& self.regs[0] == 0
        &&& self.pc % 4 == 0
        &&& self.pc <= self.mem.len()
    }

    /// Running, as opposed to halted: the program counter is inside the image.
    pub open spec fn running(self) -> bool {
        self.pc < self.mem.len()
    }

    /// The state after `value` is written to register `rd`. A write to
    /// register 0 is discarded.
    pub open spec fn write_reg(self, rd: u32, value: u32) -> CpuState {
        if rd == 0 {
            self
        } else {
            CpuState { regs: self.regs.update(rd as int, value), ..self }
        }
    }

    /// The state after `op` has taken effect. Only registers change.
    pub open spec fn apply(self, op: Inst) -> CpuState {
        match op {
            Inst::Add { rd, rs1, rs2 } => self.write_reg(
                rd,
                wrapping_sum(self.regs[rs1 as int], self.regs[rs2 as int]),
            ),
            Inst::Addi { rd, rs1, imm } => self.write_reg(
                rd,
                wrapping_sum(self.regs[rs1 as int], imm),
            ),
        }
    }

    /// Decoding `word` and applying what it encodes. A word that does not
    /// decode leaves the state as it is and yields the decoder's failure.
    pub open spec fn execute(self, word: u32) -> (CpuState, Result<(), CpuError>) {
        match decode_spec(word) {
            Ok(op) => (self.apply(op), Ok(())),
            Err(e) => (self, Err(e)),
        }
    }

    /// Whether a word can be fetched at the program counter and the counter
    /// advanced past it: the word lies inside the image, and the address that
    /// follows it fits in 32 bits.
    pub open spec fn can_fetch(self) -> bool {
        word_in_bounds(self.mem, self.pc) && self.pc + 4 <= u32::MAX
    }

    /// One cycle: fetch the word at the program counter, advance the counter
    /// by one word, decode, execute. Where no word can be fetched the state
    /// is unchanged and the failure names the program counter. Where the word
    /// does not decode, the counter has advanced and the registers are
    /// unchanged.
    pub open spec fn step(self) -> (CpuState, Result<(), CpuError>) {
        if self.can_fetch() {
            CpuState { pc: (self.pc + 4) as u32, ..self }.execute(word_at(self.mem, self.pc))
        } else {
            (self, Err(CpuError::OutOfBoundsFetch { address: self.pc }))
        }
    }

    /// Cycles repeated while the state is running and no cycle fails: the
    /// state in which the run stopped, and the failure that stopped it, if
    /// one did.
    pub open spec fn run(self) -> (CpuState, Result<(), CpuError>)
        decreases self.mem.len() - self.pc,
    {
        if !self.running() {
            (self, Ok(()))
        } else if self.step().1 is Err {
            self.step()
        } else {
            self.step().0.run()
        }
    }
}

/// No operation, and so no cycle, changes the image; a cycle that succeeds
/// moves the program counter forward by exactly one word.
pub proof fn lemma_step_keeps_image(s: CpuState)
    ensures
        s.step().0.mem == s.mem,
        s.step().1 is Ok ==> s.step().0.pc == s.pc + 4 && s.pc + 4 <= s.mem.len(),
{
}

/// The execution core. It owns its registers, its program counter and its
/// image.
pub struct Cpu {
    pub regs: [u32; 32],
    pub pc: u32,
    pub mem: Memory,
}

impl View for Cpu {
    type V = CpuState;

    open spec fn view(&self) -> CpuState {
        CpuState { regs: self.regs@, pc: self.pc, mem: self.mem@ }
    }
}

impl Cpu {
    /// A core over the image `code`, with the default memory size in
    /// register 1.
    pub fn new(code: Vec<u8>) -> (cpu: Cpu)
        ensures
            cpu@ == CpuState::initial(code@, MEM_SIZE),
            cpu@.wf(),
    {
        Cpu::with_memory_size(code, MEM_SIZE)
    }

    /// A core over the image `code`, with `mem_size` in register 1. The image
    /// is `code` itself, whatever `mem_size` is.
    pub fn with_memory_size(code: Vec<u8>, mem_size: u32) -> (cpu: Cpu)
        ensures
            cpu@ == CpuState::initial(code@, mem_size),
            cpu@.wf(),
    {
        let mut regs: [u32; 32] = [0u32;32];
        regs[1] = mem_size;
        let cpu = Cpu { regs, pc: 0, mem: Memory::new(code) };
        assert(cpu@.regs =~= CpuState::initial(code@, mem_size).regs);
        cpu
    }

    /// Whether the core is running: its program counter is inside the image.
    pub fn is_running(&self) -> (b: bool)
        ensures
            b == self@.running(),
    {
        (self.pc as usize) < self.mem.len()
    }

    /// Reads the word at the program counter. No state changes.
    pub fn fetch(&self) -> (r: Result<u32, CpuError>)
        ensures
            r == read_word_spec(self@.mem, self@.pc),
    {
        self.mem.read_word(self.pc)
    }

    /// Decodes `inst`. The result depends on `inst` alone.
    pub fn decode(&self, inst: u32) -> (r: Result<Inst, CpuError>)
        ensures
            r == decode_spec(inst),
            r matches Ok(op) ==> op.wf(),
    {
        decode(inst)
    }

    /// Writes `value` to register `rd`, unless `rd` is 0: register 0 is never
    /// written.
    pub fn write_reg(&mut self, rd: u32, value: u32)
        requires
            rd < 32,
        ensures
            final(self)@ == old(self)@.write_reg(rd, value),
    {
        if rd != 0 {
            self.regs[rd as usize] = value;
        }
    }

    /// Applies a decoded operation to the registers.
    pub fn apply(&mut self, op: Inst)
        requires
            op.wf(),
        ensures
            final(self)@ == old(self)@.apply(op),
            old(self)@.wf() ==> final(self)@.wf(),
    {
        match op {
            Inst::Add { rd, rs1, rs2 } => {
                let sum: u32 = self.regs[rs1 as usize].wrapping_add(self.regs[rs2 as usize]);
                self.write_reg(rd, sum);
            },
            Inst::Addi { rd, rs1, imm } => {
                let sum: u32 = self.regs[rs1 as usize].wrapping_add(imm);
                self.write_reg(rd, sum);
            },
        }
    }

    /// Decodes `inst` and applies it. A word that does not decode changes
    /// nothing and is reported.
    pub fn execute(&mut self, inst: u32) -> (r: Result<(), CpuError>)
        ensures
            (final(self)@, r) == old(self)@.execute(inst),
            old(self)@.wf() ==> final(self)@.wf(),
    {
        match decode(inst) {
            Ok(op) => {
                self.apply(op);
                Ok(())
            },
            Err(e) => Err(e),
        }
    }

    /// Runs one cycle: fetch, advance the program counter, decode, execute.
    pub fn step(&mut self) -> (r: Result<(), CpuError>)
        ensures
            (final(self)@, r) == old(self)@.step(),
            old(self)@.wf() ==> final(self)@.wf(),
    {
        let word: u32 = match self.fetch() {
            Ok(word) => word,
            Err(e) => {
                return Err(e);
            },
        };
        if self.pc > u32::MAX - WORD_BYTES {
            return Err(CpuError::OutOfBoundsFetch { address: self.pc });
        }
        self.pc = self.pc + WORD_BYTES;
        self.execute(word)
    }

    /// Runs cycles until the program counter leaves the image or a cycle
    /// fails. On success the core is halted; on failure it is left as the
    /// failing cycle left it. The image is never changed.
    pub fn run(&mut self) -> (r: Result<(), CpuError>)
        ensures
            (final(self)@, r) == old(self)@.run(),
            r is Ok ==> !final(self)@.running(),
            final(self)@.mem == old(self)@.mem,
            old(self)@.wf() ==> final(self)@.wf(),
    {
        while (self.pc as usize) < self.mem.len()
            invariant
                self@.run() == old(self)@.run(),
                self@.mem == old(self)@.mem,
                old(self)@.wf() ==> self@.wf(),
            decreases self@.mem.len() - self@.pc,
        {
            let ghost before = self@;
            let outcome: Result<(), CpuError> = self.step();
            proof {
                lemma_step_keeps_image(before);
            }
            if let Err(e) = outcome {
                return Err(e);
            }
        }
        Ok(())
    }
}

} // verus!
