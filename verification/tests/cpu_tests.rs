use rv32_core::cpu::{Cpu, MEM_SIZE};
use rv32_core::error::CpuError;
use rv32_core::inst::Inst;

fn image(words: &[u32]) -> Vec<u8> {
    let mut bytes: Vec<u8> = Vec::new();
    for w in words {
        bytes.extend_from_slice(&w.to_le_bytes());
    }
    bytes
}

fn add_word(rd: u32, rs1: u32, rs2: u32) -> u32 {
    (rs2 << 20) | (rs1 << 15) | (rd << 7) | 0x33
}

fn addi_word(rd: u32, rs1: u32, imm12: u32) -> u32 {
    (imm12 << 20) | (rs1 << 15) | (rd << 7) | 0x13
}

#[test]
fn new_core_initial_state() {
    let cpu = Cpu::new(vec![1, 2, 3, 4]);
    assert_eq!(cpu.pc, 0);
    assert_eq!(cpu.mem.bytes, vec![1, 2, 3, 4]);
    for i in 0..32 {
        if i == 1 {
            assert_eq!(cpu.regs[i], 64 * 1024 * 1024);
        } else {
            assert_eq!(cpu.regs[i], 0);
        }
    }
    assert_eq!(MEM_SIZE, 0x0400_0000);
}

#[test]
fn core_with_chosen_memory_size() {
    let cpu = Cpu::with_memory_size(vec![0; 8], 4096);
    assert_eq!(cpu.regs[1], 4096);
    assert_eq!(cpu.regs[0], 0);
    assert_eq!(cpu.regs[2], 0);
    assert_eq!(cpu.pc, 0);
    assert_eq!(cpu.mem.len(), 8);
}

#[test]
fn fetch_reads_at_the_program_counter() {
    let mut cpu = Cpu::new(vec![0x01, 0x02, 0x03, 0x04, 0x05, 0x06, 0x07, 0x08]);
    assert_eq!(cpu.fetch(), Ok(0x0403_0201));
    cpu.pc = 4;
    assert_eq!(cpu.fetch(), Ok(0x0807_0605));
    assert_eq!(cpu.pc, 4);
    cpu.pc = 8;
    assert_eq!(cpu.fetch(), Err(CpuError::OutOfBoundsFetch { address: 8 }));
}

#[test]
fn execute_add_sets_destination() {
    let mut cpu = Cpu::new(Vec::new());
    cpu.regs[5] = 1000;
    cpu.regs[6] = 234;
    let before = cpu.regs;
    assert_eq!(cpu.execute(add_word(7, 5, 6)), Ok(()));
    assert_eq!(cpu.regs[7], 1234);
    for i in 0..32 {
        if i != 7 {
            assert_eq!(cpu.regs[i], before[i]);
        }
    }
    assert_eq!(cpu.pc, 0);
}

#[test]
fn execute_add_wraps() {
    let mut cpu = Cpu::new(Vec::new());
    cpu.regs[2] = 0xffff_ffff;
    cpu.regs[3] = 2;
    assert_eq!(cpu.execute(add_word(4, 2, 3)), Ok(()));
    assert_eq!(cpu.regs[4], 1);
    cpu.regs[2] = 0x8000_0000;
    cpu.regs[3] = 0x8000_0000;
    assert_eq!(cpu.execute(add_word(4, 2, 3)), Ok(()));
    assert_eq!(cpu.regs[4], 0);
}

#[test]
fn execute_add_over_all_register_pairs() {
    for rs1 in 1..32u32 {
        for rs2 in 1..32u32 {
            let mut cpu = Cpu::new(Vec::new());
            let a: u32 = 0xfff0_0000 + rs1;
            let b: u32 = 0x0010_0000 + rs2 * 7;
            cpu.regs[rs1 as usize] = a;
            cpu.regs[rs2 as usize] = b;
            let left: u32 = cpu.regs[rs1 as usize];
            let right: u32 = cpu.regs[rs2 as usize];
            let before = cpu.regs;
            assert_eq!(cpu.execute(add_word(9, rs1, rs2)), Ok(()));
            assert_eq!(cpu.regs[9], left.wrapping_add(right));
            for i in 0..32 {
                if i != 9 {
                    assert_eq!(cpu.regs[i], before[i]);
                }
            }
        }
    }
}

#[test]
fn execute_add_with_destination_among_sources() {
    let mut cpu = Cpu::new(Vec::new());
    cpu.regs[5] = 21;
    assert_eq!(cpu.execute(add_word(5, 5, 5)), Ok(()));
    assert_eq!(cpu.regs[5], 42);
}

#[test]
fn execute_addi_positive_and_negative() {
    let mut cpu = Cpu::new(Vec::new());
    cpu.regs[5] = 10;
    assert_eq!(cpu.execute(addi_word(6, 5, 0x7ff)), Ok(()));
    assert_eq!(cpu.regs[6], 10 + 0x7ff);
    assert_eq!(cpu.execute(addi_word(6, 5, 0x800)), Ok(()));
    assert_eq!(cpu.regs[6], 10u32.wrapping_add(0xffff_f800));
    assert_eq!(cpu.execute(addi_word(6, 5, 0xfff)), Ok(()));
    assert_eq!(cpu.regs[6], 9);
    assert_eq!(cpu.regs[5], 10);
}

#[test]
fn execute_addi_wraps() {
    let mut cpu = Cpu::new(Vec::new());
    cpu.regs[5] = 0xffff_ffff;
    assert_eq!(cpu.execute(addi_word(5, 5, 1)), Ok(()));
    assert_eq!(cpu.regs[5], 0);
    assert_eq!(cpu.execute(addi_word(5, 5, 0xfff)), Ok(()));
    assert_eq!(cpu.regs[5], 0xffff_ffff);
}

#[test]
fn execute_never_writes_register_zero() {
    let mut cpu = Cpu::new(Vec::new());
    cpu.regs[5] = 3;
    cpu.regs[6] = 4;
    let before = cpu.regs;
    assert_eq!(cpu.execute(add_word(0, 5, 6)), Ok(()));
    assert_eq!(cpu.regs[0], 0);
    assert_eq!(cpu.regs, before);
    assert_eq!(cpu.execute(addi_word(0, 5, 0x123)), Ok(()));
    assert_eq!(cpu.regs[0], 0);
    assert_eq!(cpu.regs, before);
}

#[test]
fn execute_unsupported_word_changes_nothing() {
    let mut cpu = Cpu::new(vec![1, 2, 3, 4]);
    cpu.regs[9] = 99;
    let before = cpu.regs;
    assert_eq!(
        cpu.execute(0x0000_007f),
        Err(CpuError::UnsupportedInstruction { word: 0x7f, opcode: 0x7f, funct3: None })
    );
    assert_eq!(cpu.regs, before);
    assert_eq!(cpu.pc, 0);
    assert_eq!(cpu.mem.bytes, vec![1, 2, 3, 4]);
}

#[test]
fn write_reg_guards_register_zero() {
    let mut cpu = Cpu::new(Vec::new());
    cpu.write_reg(0, 77);
    assert_eq!(cpu.regs[0], 0);
    cpu.write_reg(31, 77);
    assert_eq!(cpu.regs[31], 77);
    cpu.write_reg(1, 5);
    assert_eq!(cpu.regs[1], 5);
}

#[test]
fn apply_a_decoded_operation() {
    let mut cpu = Cpu::new(Vec::new());
    cpu.apply(Inst::Addi { rd: 3, rs1: 0, imm: 0xffff_ffff });
    assert_eq!(cpu.regs[3], 0xffff_ffff);
    cpu.apply(Inst::Add { rd: 4, rs1: 3, rs2: 1 });
    assert_eq!(cpu.regs[4], MEM_SIZE - 1);
    cpu.apply(Inst::Add { rd: 0, rs1: 3, rs2: 1 });
    assert_eq!(cpu.regs[0], 0);
}

#[test]
fn step_advances_by_one_word() {
    let mut cpu = Cpu::new(image(&[add_word(7, 5, 6), addi_word(8, 7, 1)]));
    cpu.regs[5] = 0xffff_fff0;
    cpu.regs[6] = 0x20;
    assert!(cpu.is_running());
    assert_eq!(cpu.step(), Ok(()));
    assert_eq!(cpu.pc, 4);
    assert_eq!(cpu.regs[7], 0x10);
    assert_eq!(cpu.step(), Ok(()));
    assert_eq!(cpu.pc, 8);
    assert_eq!(cpu.regs[8], 0x11);
    assert!(!cpu.is_running());
    assert_eq!(cpu.step(), Err(CpuError::OutOfBoundsFetch { address: 8 }));
    assert_eq!(cpu.pc, 8);
}

#[test]
fn step_on_unsupported_word_has_advanced() {
    let mut cpu = Cpu::new(image(&[0x0000_1013]));
    let before = cpu.regs;
    assert_eq!(
        cpu.step(),
        Err(CpuError::UnsupportedInstruction { word: 0x1013, opcode: 0x13, funct3: Some(1) })
    );
    assert_eq!(cpu.pc, 4);
    assert_eq!(cpu.regs, before);
}

#[test]
fn run_on_empty_program() {
    let mut cpu = Cpu::new(Vec::new());
    assert!(!cpu.is_running());
    assert_eq!(cpu.run(), Ok(()));
    assert_eq!(cpu.pc, 0);
    for i in 0..32 {
        if i == 1 {
            assert_eq!(cpu.regs[i], MEM_SIZE);
        } else {
            assert_eq!(cpu.regs[i], 0);
        }
    }
}

#[test]
fn run_a_small_program() {
    let program = image(&[0x0070_0293, 0xffd2_8313, 0x0062_83b3]);
    let mut cpu = Cpu::new(program.clone());
    assert_eq!(cpu.run(), Ok(()));
    assert_eq!(cpu.pc, 12);
    assert_eq!(cpu.regs[5], 7);
    assert_eq!(cpu.regs[6], 4);
    assert_eq!(cpu.regs[7], 11);
    assert_eq!(cpu.regs[0], 0);
    assert_eq!(cpu.regs[1], MEM_SIZE);
    assert_eq!(cpu.mem.bytes, program);
    assert!(!cpu.is_running());
}

#[test]
fn run_stops_at_unsupported_word() {
    let mut cpu = Cpu::new(image(&[addi_word(5, 0, 7), 0x0000_007f, addi_word(6, 0, 9)]));
    assert_eq!(
        cpu.run(),
        Err(CpuError::UnsupportedInstruction { word: 0x7f, opcode: 0x7f, funct3: None })
    );
    assert_eq!(cpu.pc, 8);
    assert_eq!(cpu.regs[5], 7);
    assert_eq!(cpu.regs[6], 0);
}

#[test]
fn run_stops_at_a_partial_word() {
    let mut bytes = image(&[addi_word(5, 0, 7)]);
    bytes.push(0x13);
    bytes.push(0x00);
    let mut cpu = Cpu::new(bytes);
    assert_eq!(cpu.run(), Err(CpuError::OutOfBoundsFetch { address: 4 }));
    assert_eq!(cpu.pc, 4);
    assert_eq!(cpu.regs[5], 7);
}

#[test]
fn run_keeps_register_zero_at_zero() {
    let mut cpu = Cpu::new(image(&[addi_word(0, 1, 0x7ff), add_word(0, 1, 1), add_word(2, 0, 0)]));
    assert_eq!(cpu.run(), Ok(()));
    assert_eq!(cpu.regs[0], 0);
    assert_eq!(cpu.regs[2], 0);
    assert_eq!(cpu.pc, 12);
}
