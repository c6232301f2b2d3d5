use gba_core::bus::{BusTrace, Cycle, MemoryHandler, IMMU};
use gba_core::cpu::processor::CPU;
use gba_core::cpu::registers::{Reg, RegValues};
use std::collections::HashMap;

/// A bus whose reads answer the address read (once reading is enabled),
/// which records writes and counts the cycles of each kind.
pub struct TestMMU {
    n_cycle_count: u32,
    s_cycle_count: u32,
    i_cycle_count: u32,
    reading_enabled: bool,
    pub writes8: HashMap<u32, u8>,
    pub writes32: HashMap<u32, u32>,
    pub writes16: HashMap<u32, u16>,
}

impl TestMMU {
    pub fn new() -> TestMMU {
        TestMMU {
            n_cycle_count: 0,
            s_cycle_count: 0,
            i_cycle_count: 0,
            reading_enabled: false,
            writes8: HashMap::new(),
            writes32: HashMap::new(),
            writes16: HashMap::new(),
        }
    }

    pub fn enable_reading(&mut self) {
        self.reading_enabled = true;
    }
}

impl IMMU for TestMMU {
    fn inc_clock(&mut self, cycle_type: Cycle, _addr: u32, _access_width: u32) {
        match cycle_type {
            Cycle::N => self.n_cycle_count += 1,
            Cycle::S => self.s_cycle_count += 1,
            Cycle::I => self.i_cycle_count += 1,
        }
    }
}

impl MemoryHandler for TestMMU {
    /// The trace exists for proofs only; nothing runs this.
    fn ops(&self) -> BusTrace {
        unreachable!()
    }

    fn read8(&mut self, addr: u32) -> u8 {
        if self.reading_enabled { addr as u8 } else { 0 }
    }

    fn read16(&mut self, addr: u32) -> u16 {
        if self.reading_enabled { addr as u16 } else { 0 }
    }

    fn read32(&mut self, addr: u32) -> u32 {
        if self.reading_enabled { addr } else { 0 }
    }

    fn write8(&mut self, addr: u32, value: u8) {
        self.writes8.insert(addr, value);
    }

    fn write16(&mut self, addr: u32, value: u16) {
        self.writes16.insert(addr, value);
    }

    fn write32(&mut self, addr: u32, value: u32) {
        self.writes32.insert(addr, value);
    }
}

/// Sets up a processor with the registers `regs` (CPSR is or-ed in), moves
/// the program counter past the instruction, and runs `exec` on it.
fn run_instr<F: Fn(&mut CPU, &mut TestMMU)>(exec: F, regs: &[(Reg, u32)]) -> (CPU, TestMMU) {
    let mut mmu = TestMMU::new();
    let mut cpu = CPU::new(&mut mmu);
    for &(reg, val) in regs {
        if reg == Reg::CPSR {
            let cpsr = cpu.regs.get_reg(Reg::CPSR);
            cpu.regs.set_reg(Reg::CPSR, cpsr | val);
        } else {
            cpu.regs.set_reg(reg, val);
        }
    }
    let instr_len = if cpu.regs.get_t() { cpu.regs.pc = 2; 2 } else { 4 };
    cpu.regs.pc = cpu.regs.pc.wrapping_add(instr_len);
    mmu.enable_reading();
    exec(&mut cpu, &mut mmu);
    (cpu, mmu)
}

/// The registers after reset with `regs` written (R15 as it reads in the
/// test, that is 4 behind the prefetching program counter).
fn assert_regs(actual: &RegValues, regs: &[(Reg, u32)]) {
    let mut reg_values = RegValues::new();
    for &(reg, val) in regs {
        if reg == Reg::CPSR {
            let cpsr = reg_values.get_reg(Reg::CPSR);
            reg_values.set_reg(Reg::CPSR, cpsr | val);
        } else if reg == Reg::R15 {
            reg_values.set_reg(reg, val.wrapping_add(4));
        } else {
            reg_values.set_reg(reg, val);
        }
    }
    if reg_values.get_t() { reg_values.pc = reg_values.pc.wrapping_sub(2) }
    assert_eq!(*actual, reg_values);
}

fn assert_writes<V: PartialEq + std::fmt::Debug + Copy>(actual: &HashMap<u32, V>, expected: &[(u32, V)]) {
    let mut writes = HashMap::new();
    for &(addr, val) in expected {
        writes.insert(addr, val);
    }
    assert_eq!(*actual, writes);
}

fn assert_cycle_times(mmu: TestMMU, s_count: u32, i_count: u32, n_count: u32) {
    assert_eq!(mmu.s_cycle_count, s_count + 2); // 2 extra for initial instr buffer
    assert_eq!(mmu.i_cycle_count, i_count);
    assert_eq!(mmu.n_cycle_count, n_count);
}

#[test]
fn test_shift() {
    fn run_shift(shift_type: u32, operand: u32, shift: u32, immediate: bool, change_status: bool) -> (CPU, u32) {
        let mut mmu = TestMMU::new();
        let mut cpu = CPU::new(&mut mmu);
        let val = cpu.shift(&mut mmu, shift_type, operand, shift, immediate, change_status);
        (cpu, val)
    }
    // LSL #0
    let (cpu, val) = run_shift(0, 0xA, 0, true, true);
    assert_regs(&cpu.regs, &[(Reg::R15, 0)]);
    assert_eq!(val, 0xA);

    // LSR #0
    let (cpu, val) = run_shift(1, 0xFFFFFFFF, 0, true, true);
    assert_regs(&cpu.regs, &[(Reg::R15, 0), (Reg::CPSR, 0x20000000)]);
    assert_eq!(val, 0);

    // ASR #0
    let (cpu, val) = run_shift(2, 0xFFFFFFFF, 0, true, true);
    assert_regs(&cpu.regs, &[(Reg::R15, 0), (Reg::CPSR, 0x20000000)]);
    assert_eq!(val, 0xFFFFFFFF);

    // ROR #0
    let (cpu, val) = run_shift(3, 0xFFFFFFFF, 0, true, true);
    assert_regs(&cpu.regs, &[(Reg::R15, 0), (Reg::CPSR, 0x20000000)]);
    assert_eq!(val, 0x7FFFFFFF);
}

#[test]
fn test_mul() {
    fn run_mul(op1: u32, op2: u32) -> (TestMMU, u32) {
        let mut mmu = TestMMU::new();
        let mut cpu = CPU::new(&mut mmu);
        let val = cpu.mul(&mut mmu, op1, op2);
        (mmu, val)
    }

    // 1 I Cycle
    let (mmu, val) = run_mul(0xFFFFFFFF, 0xFFFFFFFF);
    assert_cycle_times(mmu, 0, 1, 0);
    assert_eq!(val, 1);
    let (mmu, val) = run_mul(0, 0xFFFFFF00);
    assert_cycle_times(mmu, 0, 1, 0);
    assert_eq!(val, 0);

    // 2 I Cycles
    let (mmu, val) = run_mul(0xFFFF00FF, 0xFFFF00FF);
    assert_cycle_times(mmu, 0, 2, 0);
    assert_eq!(val, 0xFE02FE01);
    let (mmu, val) = run_mul(0x0000FFFF, 0xFFFF00FF);
    assert_cycle_times(mmu, 0, 2, 0);
    assert_eq!(val, 0xFFFF01);

    // 3 I Cycles
    let (mmu, val) = run_mul(0xFF000000, 0xFF000000);
    assert_cycle_times(mmu, 0, 3, 0);
    assert_eq!(val, 0);
    let (mmu, val) = run_mul(0x00FFFFFF, 0xFF000000);
    assert_cycle_times(mmu, 0, 3, 0);
    assert_eq!(val, 0x1000000);

    // 4 I Cycles
    let (mmu, val) = run_mul(0xF0F0F0F0, 1);
    assert_cycle_times(mmu, 0, 4, 0);
    assert_eq!(val, 0xF0F0F0F0);
}

#[test]
fn test_arm_shift() {
    fn run_shift(shift_type: u32, operand: u32, shift: u32, immediate: bool, change_status: bool) -> (CPU, u32) {
        let mut mmu = TestMMU::new();
        let mut cpu = CPU::new(&mut mmu);
        let val = cpu.arm_shift(shift_type, operand, shift, immediate, change_status);
        (cpu, val)
    }
    // LSL #0
    let (cpu, val) = run_shift(0, 0xA, 0, true, true);
    assert_regs(&cpu.regs, &[(Reg::R15, 0)]);
    assert_eq!(val, 0xA);

    // LSR #0
    let (cpu, val) = run_shift(1, 0xFFFFFFFF, 0, true, true);
    assert_regs(&cpu.regs, &[(Reg::R15, 0), (Reg::CPSR, 0x20000000)]);
    assert_eq!(val, 0);

    // ASR #0
    let (cpu, val) = run_shift(2, 0xFFFFFFFF, 0, true, true);
    assert_regs(&cpu.regs, &[(Reg::R15, 0), (Reg::CPSR, 0x20000000)]);
    assert_eq!(val, 0xFFFFFFFF);

    // ROR #0
    let (cpu, val) = run_shift(3, 0xFFFFFFFF, 0, true, true);
    assert_regs(&cpu.regs, &[(Reg::R15, 0), (Reg::CPSR, 0x20000000)]);
    assert_eq!(val, 0x7FFFFFFF);
}

#[test]
// ARM.3: Branch and Exchange (BX)
fn test_branch_and_exchange() {
    fn make_instr(operand_reg: u32) -> u32 {
        0b1110 << 28 | 0b0001_0010_1111_1111_1111_0001 << 4 | operand_reg
    }
    let run = |instr: u32, regs: &[(Reg, u32)]| run_instr(|c, m| c.branch_and_exchange(m, instr), regs);

    // Switch to thumb
    let (cpu, mmu) = run(make_instr(0), &[(Reg::R0, 0xFD)]);
    assert_regs(&cpu.regs, &[(Reg::R0, 0xFD), (Reg::R15, 0xFC), (Reg::CPSR, 0x20)]);
    assert_cycle_times(mmu, 2, 0, 1);

    // Stay in arm
    let (cpu, mmu) = run(make_instr(0), &[(Reg::R0, 0xFC)]);
    assert_regs(&cpu.regs, &[(Reg::R0, 0xFC), (Reg::R15, 0xFC)]);
    assert_cycle_times(mmu, 2, 0, 1);
}

#[test]
// ARM.4: Branch and Branch with Link (B, BL)
fn test_branch_branch_with_link() {
    fn make_instr(with_link: bool, offset: u32) -> u32 {
        0b1110 << 28 | 0b101 << 25 | (with_link as u32) << 24 | offset
    }
    let run = |instr: u32| run_instr(|c, m| c.branch_branch_with_link(m, instr), &[]);

    // Offset 0
    let (cpu, mmu) = run(make_instr(false, 0));
    assert_regs(&cpu.regs, &[(Reg::R15, 0x8)]);
    assert_cycle_times(mmu, 2, 0, 1);

    // Link Functionality
    let (cpu, mmu) = run(make_instr(true, 0));
    assert_regs(&cpu.regs, &[(Reg::R14, 4), (Reg::R15, 0x8)]);
    assert_cycle_times(mmu, 2, 0, 1);

    // Offset 1
    let (cpu, mmu) = run(make_instr(false, 1));
    assert_regs(&cpu.regs, &[(Reg::R15, 0xC)]);
    assert_cycle_times(mmu, 2, 0, 1);

    // Offset -1
    let (cpu, mmu) = run(make_instr(false, 0xFFFFFF));
    assert_regs(&cpu.regs, &[(Reg::R15, 0x4)]);
    assert_cycle_times(mmu, 2, 0, 1);

    // Offset 0x7FFFFF - max offset
    let (cpu, mmu) = run(make_instr(false, 0x7FFFFF));
    assert_regs(&cpu.regs, &[(Reg::R15, 0x7FFFFF * 4 + 8)]);
    assert_cycle_times(mmu, 2, 0, 1);

    // Offset 0x800000 - min offset
    let (cpu, mmu) = run(make_instr(false, 0x800000));
    assert_regs(&cpu.regs, &[(Reg::R15, 0xFE0_00000u32 + 8)]);
    assert_cycle_times(mmu, 2, 0, 1);
}

#[test]
// ARM.5: Data Processing
fn test_data_proc() {
    fn make_immediate(opcode: u32, set_status: bool, op1_reg: u32, dest: u32, shift: u32, op2: u32) -> u32 {
        0b1110 << 28 | 0b00 << 26 | (true as u32) << 25 | opcode << 21 | (set_status as u32) << 20 |
        op1_reg << 16 | dest << 12 | shift << 8 | op2
    }
    let run = |instr: u32, regs: &[(Reg, u32)]| run_instr(|c, m| c.data_proc(m, instr), regs);

    // AND
    let (cpu, mmu) = run(make_immediate(0, false, 0, 0, 0, 1), &[(Reg::R0, 0xFFF)]);
    assert_regs(&cpu.regs, &[(Reg::R0, 1), (Reg::R15, 4)]);
    assert_cycle_times(mmu, 1, 0, 0);
    // EOR
    let (cpu, mmu) = run(make_immediate(1, false, 0, 0, 0, 0xAC), &[(Reg::R0, 0xFF)]);
    assert_regs(&cpu.regs, &[(Reg::R0, 0x53), (Reg::R15, 4)]);
    assert_cycle_times(mmu, 1, 0, 0);
    // SUB
    let (cpu, mmu) = run(make_immediate(2, false, 0, 0, 0, 100), &[(Reg::R0, 500)]);
    assert_regs(&cpu.regs, &[(Reg::R0, 400), (Reg::R15, 4)]);
    assert_cycle_times(mmu, 1, 0, 0);
    // RSB
    let (cpu, mmu) = run(make_immediate(3, false, 0, 0, 0, 100), &[(Reg::R0, 500)]);
    assert_regs(&cpu.regs, &[(Reg::R0, !400 + 1), (Reg::R15, 4)]);
    assert_cycle_times(mmu, 1, 0, 0);
    // ADD
    let (cpu, mmu) = run(make_immediate(4, false, 0, 0, 0, 100), &[(Reg::R0, 500)]);
    assert_regs(&cpu.regs, &[(Reg::R0, 600), (Reg::R15, 4)]);
    assert_cycle_times(mmu, 1, 0, 0);
    // ADC
    let (cpu, mmu) = run(make_immediate(5, false, 0, 0, 0, 100), &[(Reg::R0, 500)]);
    assert_regs(&cpu.regs, &[(Reg::R0, 600), (Reg::R15, 4)]);
    assert_cycle_times(mmu, 1, 0, 0);
    let (cpu, mmu) = run(make_immediate(5, false, 0, 0, 0, 100), &[(Reg::R0, 500), (Reg::CPSR, 0x20000000)]);
    assert_regs(&cpu.regs, &[(Reg::R0, 601), (Reg::R15, 4), (Reg::CPSR, 0x20000000)]);
    assert_cycle_times(mmu, 1, 0, 0);
    // SBC
    let (cpu, mmu) = run(make_immediate(6, false, 0, 0, 0, 100), &[(Reg::R0, 500)]);
    assert_regs(&cpu.regs, &[(Reg::R0, 399), (Reg::R15, 4)]);
    assert_cycle_times(mmu, 1, 0, 0);
    let (cpu, mmu) = run(make_immediate(6, false, 0, 0, 0, 100), &[(Reg::R0, 500), (Reg::CPSR, 0x20000000)]);
    assert_regs(&cpu.regs, &[(Reg::R0, 400), (Reg::R15, 4), (Reg::CPSR, 0x20000000)]);
    assert_cycle_times(mmu, 1, 0, 0);
    // RSC
    let (cpu, mmu) = run(make_immediate(7, false, 0, 0, 0, 100), &[(Reg::R0, 500)]);
    assert_regs(&cpu.regs, &[(Reg::R0, !401 + 1), (Reg::R15, 4)]);
    assert_cycle_times(mmu, 1, 0, 0);
    let (cpu, mmu) = run(make_immediate(7, false, 0, 0, 0, 100), &[(Reg::R0, 500), (Reg::CPSR, 0x20000000)]);
    assert_regs(&cpu.regs, &[(Reg::R0, !400 + 1), (Reg::R15, 4), (Reg::CPSR, 0x20000000)]);
    assert_cycle_times(mmu, 1, 0, 0);
    // TST
    let (cpu, mmu) = run(make_immediate(8, true, 0, 0, 0, 1), &[(Reg::R0, 0xFFF)]);
    assert_regs(&cpu.regs, &[(Reg::R0, 0xFFF), (Reg::R15, 4)]);
    assert_cycle_times(mmu, 1, 0, 0);
    let (cpu, mmu) = run(make_immediate(8, true, 0, 0, 0, 0), &[(Reg::R0, 0xFFF)]);
    assert_regs(&cpu.regs, &[(Reg::R0, 0xFFF), (Reg::R15, 4), (Reg::CPSR, 0x40000000)]);
    assert_cycle_times(mmu, 1, 0, 0);
    // TEQ
    let (cpu, mmu) = run(make_immediate(9, true, 0, 0, 0, 0xAB), &[(Reg::R0, 0xFF)]);
    assert_regs(&cpu.regs, &[(Reg::R0, 0xFF), (Reg::R15, 4)]);
    assert_cycle_times(mmu, 1, 0, 0);
    let (cpu, mmu) = run(make_immediate(9, true, 0, 0, 0, 0xAB), &[(Reg::R0, 0xAB)]);
    assert_regs(&cpu.regs, &[(Reg::R0, 0xAB), (Reg::R15, 4), (Reg::CPSR, 0x40000000)]);
    assert_cycle_times(mmu, 1, 0, 0);
    // CMP
    let (cpu, mmu) = run(make_immediate(0xA, true, 0, 0, 0, 100), &[(Reg::R0, 500)]);
    assert_regs(&cpu.regs, &[(Reg::R0, 500), (Reg::R15, 4), (Reg::CPSR, 0x20000000)]);
    assert_cycle_times(mmu, 1, 0, 0);
    let (cpu, mmu) = run(make_immediate(0xA, true, 0, 0, 0, 100), &[(Reg::R0, 100)]);
    assert_regs(&cpu.regs, &[(Reg::R0, 100), (Reg::R15, 4), (Reg::CPSR, 0x60000000)]);
    assert_cycle_times(mmu, 1, 0, 0);
    // CMN
    let (cpu, mmu) = run(make_immediate(0xB, true, 0, 0, 0, 100), &[(Reg::R0, 500)]);
    assert_regs(&cpu.regs, &[(Reg::R0, 500), (Reg::R15, 4)]);
    assert_cycle_times(mmu, 1, 0, 0);
    // ORR
    let (cpu, mmu) = run(make_immediate(0xC, false, 0, 0, 0, 100), &[]);
    assert_regs(&cpu.regs, &[(Reg::R0, 100), (Reg::R15, 4)]);
    assert_cycle_times(mmu, 1, 0, 0);
    // MOV
    let (cpu, mmu) = run(make_immediate(0xD, true, 0, 0, 0, 100), &[]);
    assert_regs(&cpu.regs, &[(Reg::R0, 100), (Reg::R15, 4)]);
    assert_cycle_times(mmu, 1, 0, 0);
    // BIC
    let (cpu, mmu) = run(make_immediate(0xE, false, 0, 0, 0, 100), &[(Reg::R0, 500)]);
    assert_regs(&cpu.regs, &[(Reg::R0, 400), (Reg::R15, 4)]);
    assert_cycle_times(mmu, 1, 0, 0);
    // MVN
    let (cpu, mmu) = run(make_immediate(0xF, false, 0, 0, 0, 100), &[]);
    assert_regs(&cpu.regs, &[(Reg::R0, !100), (Reg::R15, 4)]);
    assert_cycle_times(mmu, 1, 0, 0);

    fn make_reg_instr(opcode: u32, set_status: bool, op1_reg: u32, dest: u32, shift: u32,
        shift_by_type: u32, shift_by_reg: bool, op2: u32) -> u32 {
        0b1110 << 28 | 0b00 << 26 | (false as u32) << 25 | opcode << 21 | (set_status as u32) << 20 |
        op1_reg << 16 | dest << 12 | if shift_by_reg { shift << 8 | 0 << 7 } else { shift << 7 } |
        shift_by_type << 5 | (shift_by_reg as u32) << 4 | op2
    }
    // MOV r0, r0 LSL r0
    let (cpu, mmu) = run(make_reg_instr(0xD, true, 0, 0, 0, 0, true, 0), &[]);
    assert_regs(&cpu.regs, &[(Reg::R15, 4), (Reg::CPSR, 0x40000000)]);
    assert_cycle_times(mmu, 1, 1, 0);

    // MOV pc, r0, LSL r0
    let (cpu, mmu) = run(make_reg_instr(0xD, false, 0, 15, 0, 0, true, 0), &[(Reg::R0, 2)]);
    assert_regs(&cpu.regs, &[(Reg::R0, 2), (Reg::R15, 8)]);
    assert_cycle_times(mmu, 2, 1, 1);

    // MOV r0, pc, LSL r0
    let (cpu, mmu) = run(make_reg_instr(0xD, false, 0, 0, 0, 0, true, 15), &[(Reg::R0, 0)]);
    assert_regs(&cpu.regs, &[(Reg::R0, 12), (Reg::R15, 4)]);
    assert_cycle_times(mmu, 1, 1, 0);

    // MOV r0, pc
    let (cpu, mmu) = run(make_reg_instr(0xD, false, 0, 0, 0, 0, false, 15), &[]);
    assert_regs(&cpu.regs, &[(Reg::R0, 8), (Reg::R15, 4)]);
    assert_cycle_times(mmu, 1, 0, 0);
}

#[test]
// ARM.6: PSR Transfer (MRS, MSR)
fn test_psr_transfer() {
    fn make_mrs(spsr: bool, dest_reg: u32) -> u32 {
        0b1110 << 28 | 0b00 << 26 | (false as u32) << 25 | 0b10 << 23 | (spsr as u32) << 22 |
        (false as u32) << 21 | 0xF << 16 | dest_reg << 12
    }
    let run = |instr: u32, regs: &[(Reg, u32)]| run_instr(|c, m| c.psr_transfer(m, instr), regs);

    // MRS r0, cpsr
    let (cpu, mmu) = run(make_mrs(false, 0), &[]);
    assert_regs(&cpu.regs, &[(Reg::R0, 0x1F), (Reg::R15, 4)]);
    assert_cycle_times(mmu, 1, 0, 0);

    fn make_msr(immediate_operand: bool, spsr: bool, f: bool, s: bool, x: bool, c: bool, operand: u32) -> u32 {
        0b1110 << 28 | 0b00 << 26 | (immediate_operand as u32) << 25 | 0b10 << 23 | (spsr as u32) << 22 |
        (true as u32) << 21 | (f as u32) << 19 | (s as u32) << 18 | (x as u32) << 17 | (c as u32) << 16 |
        0xF << 12 | operand
    }

    // MSR cpsr, r0
    let (cpu, mmu) = run(make_msr(false, false, true, false, false, false, 0), &[(Reg::R0, 0xFFFFFFFF)]);
    assert_regs(&cpu.regs, &[(Reg::R0, 0xFFFFFFFF), (Reg::R15, 4), (Reg::CPSR, 0xFF00001F)]);
    assert_cycle_times(mmu, 1, 0, 0);
}

#[test]
// ARM.9: Single Data Transfer (LDR, STR)
fn test_single_data_transfer() {
    fn make_instr(pre_offset: bool, add_offset: bool, transfer_byte: bool, load: bool, write_back: bool,
        base_reg: u32, src_dest_reg: u32, offset: u32) -> u32 {
        0b1110 << 28 | 0b01 << 26 | (false as u32) << 25 | (pre_offset as u32) << 24 | (add_offset as u32) << 23 |
        (transfer_byte as u32) << 22 | (write_back as u32) << 21 | (load as u32) << 20 | base_reg << 16 |
        src_dest_reg << 12 | offset
    }
    let run = |instr: u32, regs: &[(Reg, u32)]| run_instr(|c, m| c.single_data_transfer(m, instr), regs);

    // LDRB r0, [r0]
    let (cpu, mmu) = run(make_instr(true, true, true, true, false, 0, 0, 0), &[(Reg::R0, 0xABCDEFD0)]);
    assert_regs(&cpu.regs, &[(Reg::R0, 0xD0), (Reg::R15, 4)]);
    assert_cycle_times(mmu, 1, 1, 1);
    // LDR r0, [r0]
    let (cpu, mmu) = run(make_instr(true, true, false, true, false, 0, 0, 0), &[(Reg::R0, 0xABCDEFD0)]);
    assert_regs(&cpu.regs, &[(Reg::R0, 0xABCDEFD0), (Reg::R15, 4)]);
    assert_cycle_times(mmu, 1, 1, 1);
    // LDR r1, [r0, #+0x10]
    let (cpu, mmu) = run(make_instr(true, true, false, true, false, 0, 1, 0x10), &[(Reg::R0, 0xABCDEFD0)]);
    assert_regs(&cpu.regs, &[(Reg::R0, 0xABCDEFD0u32), (Reg::R1, 0xABCDEFD0u32 + 0x10), (Reg::R15, 4)]);
    assert_cycle_times(mmu, 1, 1, 1);
    // LDR r1, [r0, #+0x10]!
    let (cpu, mmu) = run(make_instr(true, true, false, true, true, 0, 1, 0x10), &[(Reg::R0, 0xABCDEFD0)]);
    assert_regs(&cpu.regs, &[(Reg::R0, 0xABCDEFD0u32 + 0x10), (Reg::R1, 0xABCDEFD0u32 + 0x10), (Reg::R15, 4)]);
    assert_cycle_times(mmu, 1, 1, 1);
    // LDR r1, [r0], #+0x10
    let (cpu, mmu) = run(make_instr(false, true, false, true, false, 0, 1, 0x10), &[(Reg::R0, 0xABCDEFD0)]);
    assert_regs(&cpu.regs, &[(Reg::R0, 0xABCDEFD0u32 + 0x10), (Reg::R1, 0xABCDEFD0u32), (Reg::R15, 4)]);
    assert_cycle_times(mmu, 1, 1, 1);
    // LDR r1, [r0, #-0x4]
    let (cpu, mmu) = run(make_instr(true, false, false, true, false, 0, 1, 0x4), &[]);
    assert_regs(&cpu.regs, &[(Reg::R0, 0), (Reg::R1, 0xFFFFFFFC), (Reg::R15, 4)]);
    assert_cycle_times(mmu, 1, 1, 1);
    // LDR r0, [r15]
    let (cpu, mmu) = run(make_instr(true, true, false, true, false, 15, 0, 0), &[]);
    assert_regs(&cpu.regs, &[(Reg::R0, 0x8), (Reg::R15, 4)]);
    assert_cycle_times(mmu, 1, 1, 1);
    // LDR r15, [r0]
    let (cpu, mmu) = run(make_instr(true, true, false, true, false, 0, 15, 0), &[(Reg::R0, 0x100)]);
    assert_regs(&cpu.regs, &[(Reg::R0, 0x100), (Reg::R15, 0x100)]);
    assert_cycle_times(mmu, 2, 1, 2);

    // STRB r0, [r1]
    let (cpu, mmu) = run(make_instr(true, true, true, false, false, 1, 0, 0), &[(Reg::R0, 0xFFFF), (Reg::R1, 0x100)]);
    assert_regs(&cpu.regs, &[(Reg::R0, 0xFFFF), (Reg::R1, 0x100), (Reg::R15, 4)]);
    assert_writes(&mmu.writes8, &[(0x100, 0xFF)]);
    assert_cycle_times(mmu, 0, 0, 2);
    // STR r0, [r1]
    let (cpu, mmu) = run(make_instr(true, true, false, false, false, 1, 0, 0), &[(Reg::R0, 0xABCDEF), (Reg::R1, 0x100)]);
    assert_regs(&cpu.regs, &[(Reg::R0, 0xABCDEF), (Reg::R1, 0x100), (Reg::R15, 4)]);
    assert_writes(&mmu.writes32, &[(0x100, 0xABCDEF)]);
    assert_cycle_times(mmu, 0, 0, 2);
    // STR pc, [r1]
    let (cpu, mmu) = run(make_instr(true, true, false, false, false, 1, 15, 0), &[(Reg::R1, 0x100)]);
    assert_regs(&cpu.regs, &[(Reg::R1, 0x100), (Reg::R15, 4)]);
    assert_writes(&mmu.writes32, &[(0x100, 0x8)]);
    assert_cycle_times(mmu, 0, 0, 2);
}

#[test]
// THUMB.3: move/compare/add/subtract immediate
fn test_immediate() {
    fn make_instr(opcode: u16, dest_reg: u16, immediate: u16) -> u16 {
        0b001 << 13 | opcode << 11 | dest_reg << 8 | immediate
    }
    let run = |instr: u16, regs: &[(Reg, u32)]| run_instr(|c, m| c.immediate(m, instr), regs);

    // MOV
    let (cpu, mmu) = run(make_instr(0, 0, 0xFF), &[(Reg::R0, 0xF), (Reg::CPSR, 0x20)]);
    assert_regs(&cpu.regs, &[(Reg::R0, 0xFF), (Reg::R15, 2), (Reg::CPSR, 0x20)]);
    assert_cycle_times(mmu, 1, 0, 0);

    // CMP
    let (cpu, mmu) = run(make_instr(1, 0, 0xFF), &[(Reg::R0, 0), (Reg::CPSR, 0x20)]);
    assert_regs(&cpu.regs, &[(Reg::R0, 0), (Reg::R15, 2), (Reg::CPSR, 0x80000020)]);
    assert_cycle_times(mmu, 1, 0, 0);

    // ADD
    let (cpu, mmu) = run(make_instr(2, 0, 0xF), &[(Reg::R0, 0xFFFFFFFF), (Reg::CPSR, 0x20)]);
    assert_regs(&cpu.regs, &[(Reg::R0, 0xE), (Reg::R15, 2), (Reg::CPSR, 0x20000020)]);
    assert_cycle_times(mmu, 1, 0, 0);

    // SUB
    let (cpu, mmu) = run(make_instr(3, 0, 0xF), &[(Reg::R0, 0xFFFFFFFF), (Reg::CPSR, 0x20)]);
    assert_regs(&cpu.regs, &[(Reg::R0, 0xFFFFFFF0), (Reg::R15, 2), (Reg::CPSR, 0xA0000020)]);
    assert_cycle_times(mmu, 1, 0, 0);
}

#[test]
// THUMB.6: load PC-relative
fn test_load_pc_rel() {
    fn make_instr(dest_reg: u16, offset: u16) -> u16 {
        0b01001 << 11 | dest_reg << 8 | offset
    }

    // LDR r0, [pc, #0xFF]
    let (cpu, mmu) = run_instr(|c, m| c.load_pc_rel(m, make_instr(0, 0xFF)), &[(Reg::CPSR, 0x20)]);
    assert_regs(&cpu.regs, &[(Reg::R0, 0x400), (Reg::R15, 2), (Reg::CPSR, 0x20)]);
    assert_cycle_times(mmu, 1, 1, 1);
}

#[test]
// THUMB.14: push/pop registers
fn test_push_pop_regs() {
    fn make_instr(pop: bool, pc_lr: bool, r_list: u16) -> u16 {
        0b1011 << 12 | (pop as u16) << 11 | 0b10 << 9 | (pc_lr as u16) << 8 | r_list
    }
    let run = |instr: u16, regs: &[(Reg, u32)]| run_instr(|c, m| c.push_pop_regs(m, instr), regs);

    // POP {R3}
    let (cpu, mmu) = run(make_instr(true, false, 1 << 3), &[(Reg::CPSR, 0x20)]);
    assert_regs(&cpu.regs, &[(Reg::R3, 0x3007F00), (Reg::R13, 0x3007F00 + 4), (Reg::R15, 2), (Reg::CPSR, 0x20)]);
    assert_cycle_times(mmu, 1, 1, 1);

    // POP {PC}
    let (cpu, mmu) = run(make_instr(true, true, 0), &[(Reg::CPSR, 0x20)]);
    assert_regs(&cpu.regs, &[(Reg::R15, 0x3007F00), (Reg::R13, 0x3007F00 + 4), (Reg::CPSR, 0x20)]);
    assert_cycle_times(mmu, 2, 1, 2);

    // POP {R0,R5,R7}
    let (cpu, mmu) = run(make_instr(true, false, 1 << 7 | 1 << 5 | 1), &[(Reg::CPSR, 0x20)]);
    assert_regs(&cpu.regs, &[(Reg::R0, 0x3007F00), (Reg::R5, 0x3007F00 + 4), (Reg::R7, 0x3007F00 + 8),
        (Reg::R13, 0x3007F00 + 12), (Reg::R15, 2), (Reg::CPSR, 0x20)]);
    assert_cycle_times(mmu, 3, 1, 1);

    // POP {R1,R2,R5,R6,PC}
    let (cpu, mmu) = run(make_instr(true, true, 1 << 6 | 1 << 5 | 1 << 2 | 1 << 1), &[(Reg::CPSR, 0x20)]);
    assert_regs(&cpu.regs, &[(Reg::R1, 0x3007F00), (Reg::R2, 0x3007F00 + 4), (Reg::R5, 0x3007F00 + 8),
        (Reg::R6, 0x3007F00 + 12), (Reg::R13, 0x3007F00 + 20), (Reg::R15, 0x3007F00 + 16), (Reg::CPSR, 0x20)]);
    assert_cycle_times(mmu, 6, 1, 2);

    // PUSH {R0-R7,LR}
    let (cpu, mmu) = run(make_instr(false, false, 0xFF), &[(Reg::R0, 1), (Reg::R1, 2), (Reg::R2, 3),
        (Reg::R3, 4), (Reg::R4, 5), (Reg::R5, 6), (Reg::R6, 7), (Reg::R7, 8), (Reg::CPSR, 0x20)]);
    assert_regs(&cpu.regs, &[(Reg::R15, 2), (Reg::R13, 0x3007F00 - 4 * 8), (Reg::R0, 1), (Reg::R1, 2),
        (Reg::R2, 3), (Reg::R3, 4), (Reg::R4, 5), (Reg::R5, 6), (Reg::R6, 7), (Reg::R7, 8), (Reg::CPSR, 0x20)]);
    assert_writes(&mmu.writes32, &[(0x3007F00 - 4, 8), (0x3007F00 - 8, 7), (0x3007F00 - 12, 6),
        (0x3007F00 - 16, 5), (0x3007F00 - 20, 4), (0x3007F00 - 24, 3), (0x3007F00 - 28, 2), (0x3007F00 - 32, 1)]);
    assert_cycle_times(mmu, 7, 0, 2);

    // PUSH {LR}
    let (_cpu, mmu) = run(make_instr(false, true, 0), &[(Reg::R14, 100)]);
    assert_writes(&mmu.writes32, &[(0x3007F00 - 4, 100)]);
    assert_cycle_times(mmu, 0, 0, 2);
}
