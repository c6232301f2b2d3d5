//! The ARM instruction set.
use vstd::prelude::*;
use crate::bus::{BusOp, Cycle, IMMU, idle_cycles, new_responses, responses, lemma_after, lemma_extend, lemma_then,
    lemma_responses_empty, lemma_responses_idle, lemma_responses_no_reads};
use super::registers::{Mode, Reg, RegValues, RegsView, valid_psr, with_mode, FLAG_I, FLAG_N, FLAG_Z};
use super::alu::{bit, ror, ror32, lemma_odd_pos};
use super::processor::{
    CPU, CpuView, fill_arm_state, fill_arm_trace, fill_thumb_state, fill_thumb_trace, follows,
    mul_cycles, then_fill_arm, then_fill_thumb, lemma_fill_arm_responses,
};

verus! {

broadcast use super::alu::group_masks;

/// The 24-bit branch offset of `instr`, sign extended.
pub open spec fn branch_offset(instr: u32) -> u32 {
    let offset = instr & 0xFF_FFFF;
    if (offset >> 23u32) == 1 {
        0xFF00_0000u32 | offset
    } else {
        offset
    }
}

/// ARM.3: BX. The register's bit 0 selects the THUMB state.
pub open spec fn branch_and_exchange_step(s: CpuView, instr: u32, resp: Seq<u32>) -> (CpuView, Seq<BusOp>) {
    let t = seq![BusOp::Clock(Cycle::N, s.regs.pc, 2)];
    let target = s.regs.reg((instr & 0xF) as int);
    if target & 1 != 0 {
        let regs = s.regs.with_pc((target - 1) as u32).with_flag(super::registers::FLAG_T, true);
        then_fill_thumb(s.with_regs(regs), t, resp)
    } else {
        then_fill_arm(s.with_regs(s.regs.with_pc(target)), t, resp)
    }
}

/// ARM.4: B and BL.
pub open spec fn branch_branch_with_link_step(s: CpuView, instr: u32, resp: Seq<u32>) -> (CpuView, Seq<BusOp>) {
    let pc = s.regs.pc;
    let t = seq![BusOp::Clock(Cycle::N, pc & !3u32, 2)];
    let regs = if (instr >> 24u32) & 1 == 1 {
        s.regs.with_reg(14, pc.wrapping_sub(4))
    } else {
        s.regs
    };
    let regs = regs.with_pc(pc.wrapping_add(branch_offset(instr) << 2u32));
    then_fill_arm(s.with_regs(regs), t, resp)
}

/// ARM.13: SWI. Enters supervisor mode at the vector 0x8.
pub open spec fn arm_software_interrupt_step(s: CpuView, instr: u32, resp: Seq<u32>) -> (CpuView, Seq<BusOp>) {
    let pc = s.regs.pc;
    let t = seq![BusOp::Clock(Cycle::N, pc, 2)];
    let regs = s.regs.with_cpsr(with_mode(s.regs.cpsr, Mode::SVC));
    let regs = regs.with_spsr(s.regs.cpsr).with_reg(14, pc.wrapping_sub(4)).with_flag(FLAG_I, true).with_pc(8);
    then_fill_arm(s.with_regs(regs), t, resp)
}

/// The word that an ARM load of `addr` gives from the word read at the
/// aligned address: rotated so that the addressed byte is lowest.
pub open spec fn rotate_loaded(word: u32, addr: u32) -> u32 {
    ror(word, ((addr & 3) * 8) as u32)
}

/// ARM.12: SWP and SWPB.
pub open spec fn single_data_swap_step(s: CpuView, instr: u32, resp: Seq<u32>) -> (CpuView, Seq<BusOp>) {
    let byte = (instr >> 22u32) & 1 == 1;
    let base = s.regs.reg(((instr >> 16u32) & 0xF) as int);
    let rd = ((instr >> 12u32) & 0xF) as int;
    let src = s.regs.reg((instr & 0xF) as int);
    let pc = s.regs.pc;
    let (value, access) = if byte {
        ((resp[0] as u8) as u32, seq![BusOp::Read8(base, resp[0] as u8), BusOp::Write8(base, src as u8)])
    } else {
        (rotate_loaded(resp[0], base), seq![BusOp::Read32(base & !3u32, resp[0]), BusOp::Write32(base & !3u32, src)])
    };
    let width: u32 = if byte { 0 } else { 2 };
    let t = seq![BusOp::Clock(Cycle::N, pc, 2)] + access + seq![
        BusOp::Clock(Cycle::N, base, width),
        BusOp::Clock(Cycle::I, 0, 0),
        BusOp::Clock(Cycle::S, pc.wrapping_add(4), 2),
    ];
    (s.with_regs(s.regs.with_reg(rd, value)), t)
}

pub open spec fn single_data_swap_ok(instr: u32) -> bool {
    &&& (instr >> 23u32) & 0x1F == 0b00010
    &&& (instr >> 20u32) & 0x3 == 0
    &&& (instr >> 4u32) & 0xFF == 0b0000_1001
}

/// ARM.7: MUL and MLA.
pub open spec fn mul_mula_step(s: CpuView, instr: u32, resp: Seq<u32>) -> (CpuView, Seq<BusOp>) {
    let acc = (instr >> 21u32) & 1 == 1;
    let cs = (instr >> 20u32) & 1 == 1;
    let rd = ((instr >> 16u32) & 0xF) as int;
    let op1 = s.regs.reg(((instr >> 12u32) & 0xF) as int);
    let op2 = s.regs.reg(((instr >> 8u32) & 0xF) as int);
    let op3 = s.regs.reg((instr & 0xF) as int);
    let product = op2.wrapping_mul(op3);
    let result = if acc { product.wrapping_add(op1) } else { product };
    let regs = if cs {
        s.regs.with_flag(FLAG_N, bit(result, 31)).with_flag(FLAG_Z, result == 0)
    } else {
        s.regs
    };
    let regs = regs.with_reg(rd, result);
    let t = idle_cycles(mul_cycles(op2, true)) + (if acc { idle_cycles(1) } else { Seq::empty() })
        + seq![BusOp::Clock(Cycle::S, regs.pc.wrapping_add(4), 2)];
    (s.with_regs(regs), t)
}

pub open spec fn mul_mula_ok(instr: u32) -> bool {
    &&& (instr >> 22u32) & 0x3F == 0
    &&& (instr >> 4u32) & 0xF == 0b1001
    &&& (instr >> 21u32) & 1 == 0 ==> (instr >> 12u32) & 0xF == 0
}

/// `x` sign extended from 32 to 64 bits.
pub open spec fn sign_extend64(x: u32) -> u64 {
    if (x >> 31u32) == 1 {
        (x as u64) | 0xFFFF_FFFF_0000_0000u64
    } else {
        x as u64
    }
}

/// ARM.8: UMULL, UMLAL, SMULL and SMLAL.
pub open spec fn mul_long_step(s: CpuView, instr: u32, resp: Seq<u32>) -> (CpuView, Seq<BusOp>) {
    let signed = (instr >> 22u32) & 1 == 1;
    let acc = (instr >> 21u32) & 1 == 1;
    let cs = (instr >> 20u32) & 1 == 1;
    let hi = ((instr >> 16u32) & 0xF) as int;
    let lo = ((instr >> 12u32) & 0xF) as int;
    let op1 = s.regs.reg(((instr >> 8u32) & 0xF) as int);
    let op2 = s.regs.reg((instr & 0xF) as int);
    let product = if signed {
        sign_extend64(op1).wrapping_mul(sign_extend64(op2))
    } else {
        ((op1 as u64) * (op2 as u64)) as u64
    };
    let addend = if acc {
        ((s.regs.reg(hi) as u64) << 32u64) | (s.regs.reg(lo) as u64)
    } else {
        0u64
    };
    let result = product.wrapping_add(addend);
    let regs = if cs {
        s.regs.with_flag(FLAG_N, (result >> 63u64) & 1 == 1).with_flag(FLAG_Z, result == 0)
    } else {
        s.regs
    };
    let regs = regs.with_reg(lo, result as u32).with_reg(hi, (result >> 32u64) as u32);
    let t = idle_cycles(mul_cycles(op1, signed)) + idle_cycles(1) + (if acc { idle_cycles(1) } else { Seq::empty() });
    (s.with_regs(regs), t)
}

pub open spec fn mul_long_ok(instr: u32) -> bool {
    &&& (instr >> 23u32) & 0x1F == 0b00001
    &&& (instr >> 4u32) & 0xF == 0b1001
}


/// The status register that a PSR transfer names.
pub open spec fn psr_status_reg(instr: u32) -> Reg {
    if (instr >> 22u32) & 1 == 1 { Reg::SPSR } else { Reg::CPSR }
}

/// The bytes of the status register that an MSR writes: flags, status,
/// extension, and control (not in user mode).
pub open spec fn psr_mask(r: RegsView, instr: u32) -> u32 {
    (if (instr >> 19u32) & 1 == 1 { 0xFF00_0000u32 } else { 0 })
        | (if (instr >> 18u32) & 1 == 1 { 0x00FF_0000u32 } else { 0 })
        | (if (instr >> 17u32) & 1 == 1 { 0x0000_FF00u32 } else { 0 })
        | (if r.mode() != Mode::USR && (instr >> 16u32) & 1 == 1 { 0x0000_00FFu32 } else { 0 })
}

pub open spec fn psr_operand(r: RegsView, instr: u32) -> u32 {
    if (instr >> 25u32) & 1 == 1 {
        ror(instr & 0xFF, (((instr >> 8u32) & 0xF) * 2) as u32)
    } else {
        r.reg((instr & 0xF) as int)
    }
}

/// The value that an MSR writes.
pub open spec fn psr_value(r: RegsView, instr: u32) -> u32 {
    let mask = psr_mask(r, instr);
    r.get(psr_status_reg(instr)) & !mask | psr_operand(r, instr) & mask
}

/// ARM.6: MRS and MSR.
pub open spec fn psr_transfer_step(s: CpuView, instr: u32, resp: Seq<u32>) -> (CpuView, Seq<BusOp>) {
    let t = seq![BusOp::Clock(Cycle::S, s.regs.pc, 2)];
    let status = psr_status_reg(instr);
    if (instr >> 21u32) & 1 == 1 {
        (s.with_regs(s.regs.set(status, psr_value(s.regs, instr))), t)
    } else {
        (s.with_regs(s.regs.with_reg(((instr >> 12u32) & 0xF) as int, s.regs.get(status))), t)
    }
}

pub open spec fn psr_transfer_ok(s: CpuView, instr: u32) -> bool {
    let status = psr_status_reg(instr);
    &&& (instr >> 26u32) & 0x3 == 0
    &&& (instr >> 23u32) & 0x3 == 0b10
    &&& (instr >> 20u32) & 1 == 0
    &&& status == Reg::SPSR ==> s.regs.has_spsr()
    &&& if (instr >> 21u32) & 1 == 1 {
        &&& (instr >> 12u32) & 0xF == 0xF
        &&& (instr >> 25u32) & 1 == 0 ==> (instr >> 4u32) & 0xFF == 0
        &&& status == Reg::CPSR ==> valid_psr(psr_value(s.regs, instr))
    } else {
        &&& (instr >> 25u32) & 1 == 0
        &&& instr & 0xFFF == 0
    }
}

/// Whether data processing opcode `opcode` takes the carry flag as input
/// (ADC, SBC, RSC), so that the shifter leaves the carry alone.
pub open spec fn dp_uses_carry(opcode: u32) -> bool {
    5 <= opcode <= 7
}

/// Whether a data processing instruction sets the flags from its result: the
/// S bit is set and the destination is not the program counter.
pub open spec fn dp_sets_flags(instr: u32) -> bool {
    (instr >> 20u32) & 1 == 1 && (instr >> 12u32) & 0xF != 15
}

/// The registers as a data processing instruction reads them: with a shift
/// by a register, the program counter reads 4 further on.
pub open spec fn dp_pre(r: RegsView, instr: u32) -> RegsView {
    if (instr >> 25u32) & 1 == 0 && (instr >> 4u32) & 1 == 1 {
        r.with_pc(r.pc.wrapping_add(4))
    } else {
        r
    }
}

/// The second operand of a data processing instruction, and the registers
/// after the shifter produced it (from the registers of `dp_pre`).
pub open spec fn dp_operand2(r: RegsView, instr: u32) -> (u32, RegsView) {
    let opcode = (instr >> 21u32) & 0xF;
    let cs = dp_sets_flags(instr);
    if (instr >> 25u32) & 1 == 1 {
        let amount = (((instr >> 8u32) & 0xF) * 2) as u32;
        let operand = instr & 0xFF;
        let regs = if !dp_uses_carry(opcode) && amount != 0 {
            super::processor::shift_regs(r, 3, operand, amount, true, cs)
        } else {
            r
        };
        (ror(operand, amount), regs)
    } else {
        let by_reg = (instr >> 4u32) & 1 == 1;
        let amount = if by_reg { r.reg(((instr >> 8u32) & 0xF) as int) & 0xFF } else { (instr >> 7u32) & 0x1F };
        let ty = (instr >> 5u32) & 0x3;
        let x = r.reg((instr & 0xF) as int);
        (super::alu::shift_value(r.flag(super::registers::FLAG_C), ty, x, amount, !by_reg),
            super::processor::shift_regs(r, ty, x, amount, !by_reg, cs && !dp_uses_carry(opcode)))
    }
}

/// The result of data processing opcode `opcode`, and the registers after
/// the arithmetic set its flags (when `cs`).
pub open spec fn dp_alu(r: RegsView, opcode: u32, op1: u32, op2: u32, cs: bool) -> (u32, RegsView) {
    let c = r.flag(super::registers::FLAG_C);
    let arith = |a: u32, b: u32, cin: bool|
        (super::alu::add_value(a, b, cin), if cs { super::processor::add_flags(r, a, b, cin) } else { r });
    if opcode == 0x0 || opcode == 0x8 {
        (op1 & op2, r)
    } else if opcode == 0x1 || opcode == 0x9 {
        (op1 ^ op2, r)
    } else if opcode == 0x2 || opcode == 0xA {
        arith(op1, !op2, true)
    } else if opcode == 0x3 {
        arith(op2, !op1, true)
    } else if opcode == 0x4 || opcode == 0xB {
        arith(op1, op2, false)
    } else if opcode == 0x5 {
        arith(op1, op2, c)
    } else if opcode == 0x6 {
        arith(op1, !op2, c)
    } else if opcode == 0x7 {
        arith(op2, !op1, c)
    } else if opcode == 0xC {
        (op1 | op2, r)
    } else if opcode == 0xD {
        (op2, r)
    } else if opcode == 0xE {
        (op1 & !op2, r)
    } else {
        (!op2, r)
    }
}

/// The registers after a data processing instruction computed `result`:
/// flags, or the saved status restored (S bit with the program counter as
/// destination), then the destination written for all but the compares.
pub open spec fn dp_writeback(r: RegsView, instr: u32, result: u32) -> RegsView {
    let opcode = (instr >> 21u32) & 0xF;
    let rd = ((instr >> 12u32) & 0xF) as int;
    let r = if dp_sets_flags(instr) {
        r.with_nz(bit(result, 31), result == 0)
    } else if (instr >> 20u32) & 1 == 1 {
        r.with_cpsr(r.spsr_value())
    } else {
        r
    };
    if opcode & 0xC != 0x8 { r.with_reg(rd, result) } else { r }
}

/// ARM.5: data processing.
pub open spec fn data_proc_step(s: CpuView, instr: u32, resp: Seq<u32>) -> (CpuView, Seq<BusOp>) {
    let opcode = (instr >> 21u32) & 0xF;
    let rd = (instr >> 12u32) & 0xF;
    let temp = (instr >> 25u32) & 1 == 0 && (instr >> 4u32) & 1 == 1;
    let r0 = dp_pre(s.regs, instr);
    let (op2, r1) = dp_operand2(r0, instr);
    let t_shift = if temp { idle_cycles(1) } else { Seq::empty() };
    let op1 = r1.reg(((instr >> 16u32) & 0xF) as int);
    let (result, r2) = dp_alu(r1, opcode, op1, op2, dp_sets_flags(instr));
    let r3 = dp_writeback(r2, instr, result);
    if rd == 15 && opcode & 0xC != 0x8 {
        let (s4, t4) = then_fill_arm(s.with_regs(r3), t_shift, resp);
        (s4, t4.push(BusOp::Clock(Cycle::N, s4.regs.pc, 2)))
    } else {
        let t = t_shift.push(BusOp::Clock(Cycle::S, r3.pc, 2));
        let r4 = if temp { r3.with_pc(r3.pc.wrapping_sub(4)) } else { r3 };
        (s.with_regs(r4), t)
    }
}

pub open spec fn data_proc_ok(s: CpuView, instr: u32) -> bool {
    let opcode = (instr >> 21u32) & 0xF;
    &&& (instr >> 25u32) & 1 == 0 && (instr >> 4u32) & 1 == 1 ==> (instr >> 7u32) & 1 == 0
    &&& (instr >> 20u32) & 1 == 0 ==> opcode & 0xC != 0x8
    &&& (instr >> 20u32) & 1 == 1 && (instr >> 12u32) & 0xF == 15 ==> s.regs.has_spsr() && valid_psr(s.regs.spsr_value())
}


/// The end of a load into `rd`: the register takes `value`; loading the
/// program counter refills the prefetch buffer.
pub open spec fn load_finish(s: CpuView, rd: int, value: u32, resp: Seq<u32>) -> (CpuView, Seq<BusOp>) {
    let r = s.regs.with_reg(rd, value);
    if rd == 15 {
        then_fill_arm(s.with_regs(r), seq![BusOp::Clock(Cycle::N, r.pc.wrapping_add(4), 2)], resp)
    } else {
        (s.with_regs(r), seq![BusOp::Clock(Cycle::S, r.pc.wrapping_add(4), 2)])
    }
}

/// The base register after a transfer: written back with the offset applied
/// when write-back is on (a load into the base register cancels it).
pub open spec fn transfer_writeback(r: RegsView, instr: u32, applied: u32) -> RegsView {
    let pre = (instr >> 24u32) & 1 == 1;
    let load = (instr >> 20u32) & 1 == 1;
    let rn = (instr >> 16u32) & 0xF;
    let rd = (instr >> 12u32) & 0xF;
    let wb = ((instr >> 21u32) & 1 == 1 || !pre) && !(load && rd == rn);
    if wb { r.with_reg(rn as int, applied) } else { r }
}

/// The offset of an LDR or STR.
pub open spec fn sdt_offset(r: RegsView, instr: u32) -> u32 {
    if (instr >> 25u32) & 1 == 1 {
        super::alu::shift_value(r.flag(super::registers::FLAG_C), (instr >> 5u32) & 0x3,
            r.reg((instr & 0xF) as int), (instr >> 7u32) & 0x1F, true)
    } else {
        instr & 0xFFF
    }
}

pub open spec fn apply_offset(base: u32, offset: u32, add: bool) -> u32 {
    if add { base.wrapping_add(offset) } else { base.wrapping_sub(offset) }
}

/// ARM.9: LDR, STR, LDRB and STRB. A stored program counter is written as
/// it reads at execution (the address of the instruction plus 8).
pub open spec fn single_data_transfer_step(s: CpuView, instr: u32, resp: Seq<u32>) -> (CpuView, Seq<BusOp>) {
    let pre = (instr >> 24u32) & 1 == 1;
    let add = (instr >> 23u32) & 1 == 1;
    let byte = (instr >> 22u32) & 1 == 1;
    let load = (instr >> 20u32) & 1 == 1;
    let rd = ((instr >> 12u32) & 0xF) as int;
    let base = s.regs.reg(((instr >> 16u32) & 0xF) as int);
    let applied = apply_offset(base, sdt_offset(s.regs, instr), add);
    let addr = if pre { applied } else { base };
    let t0 = seq![BusOp::Clock(Cycle::N, s.regs.pc, 2)];
    if load {
        let (read, value) = if byte {
            (BusOp::Read8(addr, resp[0] as u8), (resp[0] as u8) as u32)
        } else {
            (BusOp::Read32(addr & !3u32, resp[0]), rotate_loaded(resp[0], addr))
        };
        let (s1, t1) = load_finish(s, rd, value, resp.skip(1));
        (s1.with_regs(transfer_writeback(s1.regs, instr, applied)),
            t0 + seq![BusOp::Clock(Cycle::I, 0, 0), read] + t1)
    } else {
        let a = addr & !3u32;
        let value = s.regs.reg(rd);
        let write = if byte { BusOp::Write8(a, value as u8) } else { BusOp::Write32(a, value) };
        (s.with_regs(transfer_writeback(s.regs, instr, applied)),
            t0 + seq![BusOp::Clock(Cycle::N, a, 2), write])
    }
}

pub open spec fn single_data_transfer_ok(instr: u32) -> bool {
    &&& (instr >> 26u32) & 0x3 == 0b01
    &&& (instr >> 25u32) & 1 == 1 ==> (instr >> 4u32) & 1 == 0 && instr & 0xF != 15
    &&& (instr >> 24u32) & 1 == 0 ==> (instr >> 21u32) & 1 == 0
}

/// `v` sign extended from 8 bits.
pub open spec fn sign_extend8(v: u8) -> u32 {
    if v >= 0x80 { (v as u32) | 0xFFFF_FF00u32 } else { v as u32 }
}

/// `v` sign extended from 16 bits.
pub open spec fn sign_extend16(v: u16) -> u32 {
    if v >= 0x8000 { (v as u32) | 0xFFFF_0000u32 } else { v as u32 }
}

/// The read and the loaded value of LDRH (opcode 1), LDRSB (2) and LDRSH
/// (3); LDRSH of an odd address loads a sign extended byte.
pub open spec fn halfword_load(opcode: u32, addr: u32, v: u32) -> (BusOp, u32) {
    if opcode == 1 {
        (BusOp::Read16(addr & !1u32, v as u16), ror((v as u16) as u32, ((addr & 1) * 8) as u32))
    } else if opcode == 2 || addr & 1 == 1 {
        (BusOp::Read8(addr, v as u8), sign_extend8(v as u8))
    } else {
        (BusOp::Read16(addr, v as u16), sign_extend16(v as u16))
    }
}

/// ARM.10: STRH, LDRH, LDRSB and LDRSH.
pub open spec fn halfword_transfer_step(s: CpuView, instr: u32, resp: Seq<u32>) -> (CpuView, Seq<BusOp>) {
    let pre = (instr >> 24u32) & 1 == 1;
    let add = (instr >> 23u32) & 1 == 1;
    let imm = (instr >> 22u32) & 1 == 1;
    let load = (instr >> 20u32) & 1 == 1;
    let rd = ((instr >> 12u32) & 0xF) as int;
    let base = s.regs.reg(((instr >> 16u32) & 0xF) as int);
    let opcode = (instr >> 5u32) & 0x3;
    let offset = if imm { ((instr >> 8u32) & 0xF) << 4u32 | (instr & 0xF) } else { s.regs.reg((instr & 0xF) as int) };
    let applied = apply_offset(base, offset, add);
    let addr = if pre { applied } else { base };
    if load {
        let (read, value) = halfword_load(opcode, addr, resp[0]);
        let (s1, t1) = load_finish(s, rd, value, resp.skip(1));
        (s1.with_regs(transfer_writeback(s1.regs, instr, applied)), seq![BusOp::Clock(Cycle::I, 0, 0), read] + t1)
    } else {
        let a = addr & !1u32;
        (s.with_regs(transfer_writeback(s.regs, instr, applied)),
            seq![BusOp::Clock(Cycle::N, a, 1), BusOp::Write16(a, s.regs.reg(rd) as u16)])
    }
}

pub open spec fn halfword_transfer_ok(instr: u32) -> bool {
    let load = (instr >> 20u32) & 1 == 1;
    let opcode = (instr >> 5u32) & 0x3;
    &&& (instr >> 25u32) & 0x7 == 0
    &&& (instr >> 7u32) & 1 == 1
    &&& (instr >> 4u32) & 1 == 1
    &&& (instr >> 22u32) & 1 == 0 ==> (instr >> 8u32) & 0xF == 0
    &&& load ==> opcode != 0
    &&& !load ==> opcode == 1
}


/// The register at position `k` (0 to 15) of the transfer order: upwards when
/// the offset is added, downwards when it is subtracted.
pub open spec fn bdt_reg(add: bool, k: int) -> int {
    if add { k } else { 15 - k }
}

pub open spec fn bdt_in_list(instr: u32, reg: int) -> bool {
    ((instr & 0xFFFF) >> (reg as u32)) & 1 == 1
}

/// Whether `reg` is the last register of the list in transfer order.
pub open spec fn bdt_is_last(instr: u32, add: bool, reg: int) -> bool {
    if add {
        ((instr & 0xFFFF) >> ((reg + 1) as u32)) == 0
    } else {
        (instr & 0xFFFF) & (((1u32 << (reg as u32)) - 1) as u32) == 0
    }
}

pub open spec fn bdt_next_base(instr: u32, base: u32) -> u32 {
    if (instr >> 23u32) & 1 == 1 { base.wrapping_add(4) } else { base.wrapping_sub(4) }
}

/// How many words the transfer of `reg` reads: its value, and the two
/// prefetched instructions when it loads the program counter.
pub open spec fn bdt_reads(instr: u32, reg: int) -> nat {
    if (instr >> 20u32) & 1 == 1 {
        if reg == 15 { 3 } else { 1 }
    } else {
        0
    }
}

/// The transfer of one register of an LDM or STM, from the base `base`.
pub open spec fn bdt_one(s: CpuView, instr: u32, reg: int, last: bool, base: u32, resp: Seq<u32>) -> (CpuView, Seq<BusOp>) {
    let pre = (instr >> 24u32) & 1 == 1;
    let force_usr = (instr >> 22u32) & 1 == 1;
    let wb = (instr >> 21u32) & 1 == 1;
    let rn = ((instr >> 16u32) & 0xF) as int;
    let nb = bdt_next_base(instr, base);
    let addr = if pre { nb } else { base };
    if (instr >> 20u32) & 1 == 1 {
        let r1 = s.regs.with_reg(reg, resp[0]);
        let r2 = if wb { r1.with_reg(rn, nb) } else { r1 };
        let t1 = seq![BusOp::Read32(addr, resp[0])];
        let (s3, t3) = if reg == 15 {
            let r3 = if force_usr { r2.with_cpsr(r2.spsr_value()) } else { r2 };
            then_fill_arm(s.with_regs(r3), t1, resp.skip(1))
        } else {
            (s.with_regs(r2), t1)
        };
        (s3, t3.push(if last { BusOp::Clock(Cycle::I, 0, 0) } else { BusOp::Clock(Cycle::S, addr, 2) }))
    } else {
        let t = seq![
            BusOp::Write32(addr, s.regs.reg(reg)),
            if last { BusOp::Clock(Cycle::N, addr, 2) } else { BusOp::Clock(Cycle::S, addr, 2) },
        ];
        (s.with_regs(if wb { s.regs.with_reg(rn, nb) } else { s.regs }), t)
    }
}

/// The state of an LDM or STM between two registers.
#[verifier::ext_equal]
pub struct BdtState {
    pub cpu: CpuView,
    pub base: u32,
    pub trace: Seq<BusOp>,
    pub ri: nat,
    pub loaded_pc: bool,
}

/// Position `k` of the transfer order: the register there is transferred if
/// it is in the list.
pub open spec fn bdt_step(st: BdtState, instr: u32, k: int, resp: Seq<u32>) -> BdtState {
    let add = (instr >> 23u32) & 1 == 1;
    let reg = bdt_reg(add, k);
    if !bdt_in_list(instr, reg) {
        st
    } else {
        let (cpu, t) = bdt_one(st.cpu, instr, reg, bdt_is_last(instr, add, reg), st.base, resp.skip(st.ri as int));
        BdtState {
            cpu,
            base: bdt_next_base(instr, st.base),
            trace: st.trace + t,
            ri: st.ri + bdt_reads(instr, reg),
            loaded_pc: st.loaded_pc || ((instr >> 20u32) & 1 == 1 && reg == 15),
        }
    }
}

/// The first `k` positions of the transfer order.
pub open spec fn bdt_run(init: BdtState, instr: u32, k: nat, resp: Seq<u32>) -> BdtState
    decreases k,
{
    if k == 0 {
        init
    } else {
        bdt_step(bdt_run(init, instr, (k - 1) as nat, resp), instr, k - 1, resp)
    }
}

/// The registers while an LDM or STM transfers: user mode registers when the
/// S bit asks for them (not for an LDM whose list has bit 7 set).
pub open spec fn bdt_start_regs(r: RegsView, instr: u32) -> RegsView {
    let load = (instr >> 20u32) & 1 == 1;
    if (instr >> 22u32) & 1 == 1 && !(load && (instr & 0xFFFF) & 0x80 != 0) {
        r.with_cpsr(with_mode(r.cpsr, Mode::USR))
    } else {
        r
    }
}

pub open spec fn bdt_init(s: CpuView, instr: u32) -> BdtState {
    BdtState {
        cpu: s.with_regs(bdt_start_regs(s.regs, instr)),
        base: s.regs.reg(((instr >> 16u32) & 0xF) as int) & !3u32,
        trace: seq![BusOp::Clock(Cycle::N, s.regs.pc, 2)],
        ri: 0,
        loaded_pc: false,
    }
}

/// ARM.11: LDM and STM.
pub open spec fn block_data_transfer_step(s: CpuView, instr: u32, resp: Seq<u32>) -> (CpuView, Seq<BusOp>) {
    let fin = bdt_run(bdt_init(s, instr), instr, 16, resp);
    let r = fin.cpu.regs.with_cpsr(with_mode(fin.cpu.regs.cpsr, s.regs.mode()));
    let tail = if fin.loaded_pc {
        seq![BusOp::Clock(Cycle::N, r.pc.wrapping_add(4), 2)]
    } else if (instr >> 20u32) & 1 == 1 {
        seq![BusOp::Clock(Cycle::S, r.pc.wrapping_add(4), 2)]
    } else {
        Seq::empty()
    };
    (fin.cpu.with_regs(r), fin.trace + tail)
}

pub open spec fn block_data_transfer_ok(s: CpuView, instr: u32) -> bool {
    let r0 = bdt_start_regs(s.regs, instr);
    &&& (instr >> 25u32) & 0x7 == 0b100
    &&& (instr >> 16u32) & 0xF != 15
    &&& instr & 0xFFFF != 0
    &&& (instr >> 20u32) & 1 == 1 && (instr >> 22u32) & 1 == 1 && bdt_in_list(instr, 15) ==> r0.has_spsr()
        && valid_psr(r0.spsr_value())
}

proof fn lemma_bdt_one_prefix(s: CpuView, instr: u32, reg: int, last: bool, base: u32, a: Seq<u32>, b: Seq<u32>)
    requires
        a.len() >= bdt_reads(instr, reg),
        b.len() >= bdt_reads(instr, reg),
        forall|i: int| 0 <= i < bdt_reads(instr, reg) ==> a[i] == b[i],
    ensures
        bdt_one(s, instr, reg, last, base, a) == bdt_one(s, instr, reg, last, base, b),
{
    if (instr >> 20u32) & 1 == 1 {
        assert(a[0] == b[0]);
        if reg == 15 {
            assert(a.skip(1)[0] == b.skip(1)[0] && a.skip(1)[1] == b.skip(1)[1]) by {
                assert(a[1] == b[1] && a[2] == b[2]);
            }
            assert(fill_arm_trace(0, a.skip(1)) =~= fill_arm_trace(0, b.skip(1)));
        }
    }
}

proof fn lemma_bdt_run_prefix(init: BdtState, instr: u32, k: nat, a: Seq<u32>, b: Seq<u32>)
    requires
        bdt_run(init, instr, k, a).ri <= a.len(),
        a.len() <= b.len(),
        forall|i: int| 0 <= i < a.len() ==> a[i] == b[i],
    ensures
        bdt_run(init, instr, k, b) == bdt_run(init, instr, k, a),
        bdt_run(init, instr, k, a).ri >= init.ri,
    decreases k,
{
    if k > 0 {
        let prev = bdt_run(init, instr, (k - 1) as nat, a);
        assert(prev.ri <= bdt_run(init, instr, k, a).ri);
        lemma_bdt_run_prefix(init, instr, (k - 1) as nat, a, b);
        let add = (instr >> 23u32) & 1 == 1;
        let reg = bdt_reg(add, k - 1);
        if bdt_in_list(instr, reg) {
            let sa = a.skip(prev.ri as int);
            let sb = b.skip(prev.ri as int);
            assert forall|i: int| 0 <= i < bdt_reads(instr, reg) implies sa[i] == sb[i] by {
                assert(a[prev.ri + i] == b[prev.ri + i]);
            }
            lemma_bdt_one_prefix(prev.cpu, instr, reg, bdt_is_last(instr, add, reg), prev.base, sa, sb);
        }
    }
}


/// The instruction classes of the ARM instruction set.
#[derive(Clone, Copy, Debug, PartialEq, Eq, Structural)]
pub enum ArmClass {
    BranchExchange,
    Multiply,
    MultiplyLong,
    Swap,
    HalfwordTransfer,
    PsrTransfer,
    DataProcessing,
    SingleTransfer,
    BlockTransfer,
    Branch,
    SoftwareInterrupt,
    Coprocessor,
}

/// The class of `instr`, by the first encoding pattern it matches.
pub open spec fn arm_class(instr: u32) -> ArmClass {
    if instr & 0x0FFF_FFF0 == 0x012F_FF10 {
        ArmClass::BranchExchange
    } else if instr & 0x0FC0_00F0 == 0x0000_0090 {
        ArmClass::Multiply
    } else if instr & 0x0F80_00F0 == 0x0080_0090 {
        ArmClass::MultiplyLong
    } else if instr & 0x0F80_0FF0 == 0x0100_0090 {
        ArmClass::Swap
    } else if instr & 0x0E00_0090 == 0x0000_0090 {
        ArmClass::HalfwordTransfer
    } else if instr & 0x0D90_0000 == 0x0100_0000 {
        ArmClass::PsrTransfer
    } else if instr & 0x0C00_0000 == 0 {
        ArmClass::DataProcessing
    } else if instr & 0x0C00_0000 == 0x0400_0000 {
        ArmClass::SingleTransfer
    } else if instr & 0x0E00_0000 == 0x0800_0000 {
        ArmClass::BlockTransfer
    } else if instr & 0x0E00_0000 == 0x0A00_0000 {
        ArmClass::Branch
    } else if instr & 0x0F00_0000 == 0x0F00_0000 {
        ArmClass::SoftwareInterrupt
    } else {
        ArmClass::Coprocessor
    }
}

/// Executing `instr` once its condition held.
pub open spec fn arm_exec_step(s: CpuView, instr: u32, resp: Seq<u32>) -> (CpuView, Seq<BusOp>) {
    match arm_class(instr) {
        ArmClass::BranchExchange => branch_and_exchange_step(s, instr, resp),
        ArmClass::Multiply => mul_mula_step(s, instr, resp),
        ArmClass::MultiplyLong => mul_long_step(s, instr, resp),
        ArmClass::Swap => single_data_swap_step(s, instr, resp),
        ArmClass::HalfwordTransfer => halfword_transfer_step(s, instr, resp),
        ArmClass::PsrTransfer => psr_transfer_step(s, instr, resp),
        ArmClass::DataProcessing => data_proc_step(s, instr, resp),
        ArmClass::SingleTransfer => single_data_transfer_step(s, instr, resp),
        ArmClass::BlockTransfer => block_data_transfer_step(s, instr, resp),
        ArmClass::Branch => branch_branch_with_link_step(s, instr, resp),
        _ => arm_software_interrupt_step(s, instr, resp),
    }
}

/// Whether executing `instr` is defined (coprocessor instructions are not
/// implemented).
pub open spec fn arm_exec_ok(s: CpuView, instr: u32) -> bool {
    match arm_class(instr) {
        ArmClass::BranchExchange => true,
        ArmClass::Multiply => mul_mula_ok(instr),
        ArmClass::MultiplyLong => mul_long_ok(instr),
        ArmClass::Swap => single_data_swap_ok(instr),
        ArmClass::HalfwordTransfer => halfword_transfer_ok(instr),
        ArmClass::PsrTransfer => psr_transfer_ok(s, instr),
        ArmClass::DataProcessing => data_proc_ok(s, instr),
        ArmClass::SingleTransfer => single_data_transfer_ok(instr),
        ArmClass::BlockTransfer => block_data_transfer_ok(s, instr),
        ArmClass::Branch => true,
        ArmClass::SoftwareInterrupt => true,
        ArmClass::Coprocessor => false,
    }
}

/// The processor after the prefetch of the next ARM instruction: the buffer
/// moves on and the program counter advances by 4.
pub open spec fn arm_prefetch(s: CpuView, word: u32) -> CpuView {
    CpuView { regs: s.regs.with_pc(s.regs.pc.wrapping_add(4)), buffer: seq![s.buffer[1], word] }
}

/// One ARM instruction: the oldest prefetched word executes if its condition
/// holds.
pub open spec fn emulate_arm_step(s: CpuView, resp: Seq<u32>) -> (CpuView, Seq<BusOp>) {
    let instr = s.buffer[0];
    let s1 = arm_prefetch(s, resp[0]);
    let a = s1.regs.pc & !3u32;
    let t0 = seq![BusOp::Read32(a, resp[0])];
    if s1.condition(instr >> 28u32) {
        let (s2, t2) = arm_exec_step(s1, instr, resp.skip(1));
        (s2, t0 + t2)
    } else {
        (s1, t0.push(BusOp::Clock(Cycle::N, a, 2)))
    }
}

/// Whether the next ARM instruction is defined: it does not execute, or its
/// execution is defined.
pub open spec fn emulate_arm_ok(s: CpuView) -> bool {
    let s1 = arm_prefetch(s, 0);
    s1.condition(s.buffer[0] >> 28u32) ==> arm_exec_ok(s1, s.buffer[0])
}

/// The mask of the status register bytes that an MSR writes, as
/// `psr_mask` says.
pub fn msr_mask(regs: &RegValues, instr: u32) -> (r: u32)
    requires
        regs@.wf(),
    ensures
        r == psr_mask(regs@, instr),
{
    let mut mask = 0u32;
    if (instr >> 19u32) & 0x1 != 0 { mask = mask | 0xFF00_0000; }
    if (instr >> 18u32) & 0x1 != 0 { mask = mask | 0x00FF_0000; }
    if (instr >> 17u32) & 0x1 != 0 { mask = mask | 0x0000_FF00; }
    if regs.get_mode() != Mode::USR && (instr >> 16u32) & 0x1 != 0 { mask = mask | 0x0000_00FF; }
    proof {
        assert(0u32 | 0xFF00_0000u32 == 0xFF00_0000u32 && (forall|m: u32| #![auto] m | 0u32 == m) && (forall|m: u32|
            #![auto] 0u32 | m == m)) by (bit_vector);
    }
    mask
}

/// The value that an MSR writes, as `psr_value` says.
pub fn msr_value(regs: &RegValues, instr: u32) -> (r: u32)
    requires
        regs@.wf(),
        psr_status_reg(instr) == Reg::SPSR ==> regs@.has_spsr(),
    ensures
        r == psr_value(regs@, instr),
{
    let status_reg = if (instr >> 22u32) & 0x1 != 0 { Reg::SPSR } else { Reg::CPSR };
    let mask = msr_mask(regs, instr);
    let operand = if (instr >> 25u32) & 0x1 != 0 {
        let shift = (instr >> 8u32) & 0xF;
        ror32(instr & 0xFF, shift * 2)
    } else {
        regs.get_reg_i(instr & 0xF)
    };
    regs.get_reg(status_reg) & !mask | operand & mask
}

impl CPU {
    /// ARM.3: Branch and Exchange (BX)
    pub fn branch_and_exchange<M: IMMU>(&mut self, mmu: &mut M, instr: u32)
        requires
            old(self)@.wf(),
        ensures
            follows(branch_and_exchange_step(old(self)@, instr, new_responses(old(mmu).ops(), final(mmu).ops())),
                final(self)@, old(mmu).ops(), final(mmu).ops()),
            final(self)@.wf(),
    {
        let ghost o = mmu.ops();
        let ghost s = self@;
        mmu.inc_clock(Cycle::N, self.regs.pc, 2);
        let ghost t = seq![BusOp::Clock(Cycle::N, s.regs.pc, 2)];
        proof { lemma_extend(o, Seq::empty(), t[0]); assert(Seq::<BusOp>::empty().push(t[0]) =~= t); }
        let target = self.regs.get_reg_i(instr & 0xF);
        self.regs.pc = target;
        let ghost mid = mmu.ops();
        if self.regs.pc & 0x1 != 0 {
            proof { lemma_odd_pos(self.regs.pc); }
            self.regs.pc = self.regs.pc - 1;
            self.regs.set_t(true);
            let ghost s2 = self@;
            self.fill_thumb_instr_buffer(mmu);
            proof {
                let u = fill_thumb_trace(s2.regs.pc, new_responses(mid, mmu.ops()));
                lemma_then(o, t, u);
                lemma_after(mid, u);
                lemma_after(o, t + u);
                lemma_responses_empty();
                assert(responses(t) =~= Seq::<u32>::empty());
                assert(responses(t + u) =~= responses(u));
            }
        } else {
            let ghost s2 = self@;
            self.fill_arm_instr_buffer(mmu);
            proof {
                let u = fill_arm_trace(s2.regs.pc, new_responses(mid, mmu.ops()));
                lemma_then(o, t, u);
                lemma_after(mid, u);
                lemma_after(o, t + u);
                lemma_responses_empty();
                assert(responses(t) =~= Seq::<u32>::empty());
                assert(responses(t + u) =~= responses(u));
            }
        }
    }

    /// ARM.4: Branch and Branch with Link (B, BL)
    pub fn branch_branch_with_link<M: IMMU>(&mut self, mmu: &mut M, instr: u32)
        requires
            old(self)@.wf(),
        ensures
            follows(branch_branch_with_link_step(old(self)@, instr, new_responses(old(mmu).ops(), final(mmu).ops())),
                final(self)@, old(mmu).ops(), final(mmu).ops()),
            final(self)@.wf(),
    {
        let ghost o = mmu.ops();
        let opcode = (instr >> 24u32) & 0x1;
        let offset = instr & 0xFF_FFFF;
        let offset = if (offset >> 23u32) == 1 { 0xFF00_0000u32 | offset } else { offset };
        let pc = self.regs.pc;
        mmu.inc_clock(Cycle::N, pc & !0x3u32, 2);
        let ghost t = seq![BusOp::Clock(Cycle::N, pc & !3u32, 2)];
        proof { lemma_extend(o, Seq::empty(), t[0]); assert(Seq::<BusOp>::empty().push(t[0]) =~= t); }
        if opcode == 1 {
            self.regs.set_reg(Reg::R14, pc.wrapping_sub(4));
        }
        self.regs.pc = self.regs.pc.wrapping_add(offset << 2u32);
        let ghost mid = mmu.ops();
        let ghost s2 = self@;
        self.fill_arm_instr_buffer(mmu);
        proof {
            let u = fill_arm_trace(s2.regs.pc, new_responses(mid, mmu.ops()));
            lemma_then(o, t, u);
            lemma_after(mid, u);
            lemma_after(o, t + u);
            lemma_responses_empty();
            assert(responses(t) =~= Seq::<u32>::empty());
            assert(responses(t + u) =~= responses(u));
        }
    }

    /// ARM.13: Software Interrupt (SWI)
    pub fn arm_software_interrupt<M: IMMU>(&mut self, mmu: &mut M, instr: u32)
        requires
            old(self)@.wf(),
            (instr >> 24u32) & 0xF == 0b1111,
        ensures
            follows(arm_software_interrupt_step(old(self)@, instr, new_responses(old(mmu).ops(), final(mmu).ops())),
                final(self)@, old(mmu).ops(), final(mmu).ops()),
            final(self)@.wf(),
    {
        let ghost o = mmu.ops();
        let pc = self.regs.pc;
        mmu.inc_clock(Cycle::N, pc, 2);
        let ghost t = seq![BusOp::Clock(Cycle::N, pc, 2)];
        proof { lemma_extend(o, Seq::empty(), t[0]); assert(Seq::<BusOp>::empty().push(t[0]) =~= t); }
        let cpsr = self.regs.get_reg(Reg::CPSR);
        self.regs.set_mode(Mode::SVC);
        self.regs.set_reg(Reg::SPSR, cpsr);
        self.regs.set_reg(Reg::R14, self.regs.pc.wrapping_sub(4));
        self.regs.set_i(true);
        self.regs.pc = 0x8;
        let ghost mid = mmu.ops();
        let ghost s2 = self@;
        self.fill_arm_instr_buffer(mmu);
        proof {
            let u = fill_arm_trace(s2.regs.pc, new_responses(mid, mmu.ops()));
            lemma_then(o, t, u);
            lemma_after(mid, u);
            lemma_after(o, t + u);
            lemma_responses_empty();
            assert(responses(t) =~= Seq::<u32>::empty());
            assert(responses(t + u) =~= responses(u));
            assert(s2 =~= old(self)@.with_regs(old(self)@.regs.with_cpsr(with_mode(old(self)@.regs.cpsr, Mode::SVC))
                .with_spsr(old(self)@.regs.cpsr).with_reg(14, pc.wrapping_sub(4)).with_flag(FLAG_I, true).with_pc(8)));
        }
    }

    /// ARM.12: Single Data Swap (SWP)
    pub fn single_data_swap<M: IMMU>(&mut self, mmu: &mut M, instr: u32)
        requires
            old(self)@.wf(),
            single_data_swap_ok(instr),
        ensures
            follows(single_data_swap_step(old(self)@, instr, new_responses(old(mmu).ops(), final(mmu).ops())),
                final(self)@, old(mmu).ops(), final(mmu).ops()),
            final(self)@.wf(),
    {
        let ghost o = mmu.ops();
        let ghost mut t = Seq::<BusOp>::empty();
        let byte = (instr >> 22u32) & 0x1 != 0;
        let base = self.regs.get_reg_i((instr >> 16u32) & 0xF);
        let dest_reg = (instr >> 12u32) & 0xF;
        let src = self.regs.get_reg_i(instr & 0xF);
        let pc = self.regs.pc;
        mmu.inc_clock(Cycle::N, pc, 2);
        proof { lemma_extend(o, t, BusOp::Clock(Cycle::N, pc, 2)); t = t.push(BusOp::Clock(Cycle::N, pc, 2)); }
        let value: u32;
        let access_width: u32;
        if byte {
            let v = mmu.read8(base);
            proof { lemma_extend(o, t, BusOp::Read8(base, v)); t = t.push(BusOp::Read8(base, v)); }
            mmu.write8(base, src as u8);
            proof { lemma_extend(o, t, BusOp::Write8(base, src as u8)); t = t.push(BusOp::Write8(base, src as u8)); }
            value = v as u32;
            access_width = 0;
        } else {
            let w = mmu.read32(base & !0x3u32);
            proof { lemma_extend(o, t, BusOp::Read32(base & !3u32, w)); t = t.push(BusOp::Read32(base & !3u32, w)); }
            value = ror32(w, (base & 0x3) * 8);
            mmu.write32(base & !0x3u32, src);
            proof { lemma_extend(o, t, BusOp::Write32(base & !3u32, src)); t = t.push(BusOp::Write32(base & !3u32, src)); }
            access_width = 2;
        }
        self.regs.set_reg_i(dest_reg, value);
        mmu.inc_clock(Cycle::N, base, access_width);
        proof { lemma_extend(o, t, BusOp::Clock(Cycle::N, base, access_width)); t = t.push(BusOp::Clock(Cycle::N, base, access_width)); }
        mmu.inc_clock(Cycle::I, 0, 0);
        proof { lemma_extend(o, t, BusOp::Clock(Cycle::I, 0, 0)); t = t.push(BusOp::Clock(Cycle::I, 0, 0)); }
        mmu.inc_clock(Cycle::S, pc.wrapping_add(4), 2);
        proof {
            lemma_extend(o, t, BusOp::Clock(Cycle::S, pc.wrapping_add(4), 2));
            t = t.push(BusOp::Clock(Cycle::S, pc.wrapping_add(4), 2));
            lemma_after(o, t);
            lemma_responses_empty();
            let step = single_data_swap_step(old(self)@, instr, responses(t));
            if byte {
                assert(responses(t) =~= seq![value]);
            } else {
                assert(responses(t)[0] == t[1]->Read32_1);
            }
            assert(t =~= step.1);
            assert(self@ =~= step.0);
        }
    }

    /// ARM.7: Multiply and Multiply-Accumulate (MUL, MLA)
    pub fn mul_mula<M: IMMU>(&mut self, mmu: &mut M, instr: u32)
        requires
            old(self)@.wf(),
            mul_mula_ok(instr),
        ensures
            follows(mul_mula_step(old(self)@, instr, new_responses(old(mmu).ops(), final(mmu).ops())),
                final(self)@, old(mmu).ops(), final(mmu).ops()),
            final(self)@.wf(),
    {
        let ghost o = mmu.ops();
        let accumulate = (instr >> 21u32) & 0x1 != 0;
        let change_status = (instr >> 20u32) & 0x1 != 0;
        let dest_reg = (instr >> 16u32) & 0xF;
        let op1 = self.regs.get_reg_i((instr >> 12u32) & 0xF);
        let op2 = self.regs.get_reg_i((instr >> 8u32) & 0xF);
        let op3 = self.regs.get_reg_i(instr & 0xF);
        self.inc_mul_clocks(mmu, op2, true);
        let ghost t = idle_cycles(mul_cycles(op2, true));
        let result = if accumulate {
            mmu.inc_clock(Cycle::I, 0, 0);
            proof { lemma_extend(o, t, BusOp::Clock(Cycle::I, 0, 0)); assert(t.push(BusOp::Clock(Cycle::I, 0, 0)) =~= t + idle_cycles(1)); }
            op2.wrapping_mul(op3).wrapping_add(op1)
        } else {
            assert(o + t =~= o + (t + Seq::empty()));
            op2.wrapping_mul(op3)
        };
        let ghost t2 = t + (if accumulate { idle_cycles(1) } else { Seq::empty() });
        if change_status {
            self.regs.set_n(result & 0x8000_0000 != 0);
            self.regs.set_z(result == 0);
            assert(result & 0x8000_0000 != 0 <==> (result >> 31u32) & 1 == 1) by (bit_vector);
        }
        self.regs.set_reg_i(dest_reg, result);
        let pc4 = self.regs.pc.wrapping_add(4);
        mmu.inc_clock(Cycle::S, pc4, 2);
        proof {
            lemma_extend(o, t2, BusOp::Clock(Cycle::S, pc4, 2));
            let t3 = t2.push(BusOp::Clock(Cycle::S, pc4, 2));
            let step = mul_mula_step(old(self)@, instr, responses(t3));
            assert(t3 =~= step.1);
            assert(self@ =~= step.0);
        }
    }

    /// ARM.8: Multiply Long and Multiply-Accumulate Long (MULL, MLAL)
    pub fn mul_long<M: IMMU>(&mut self, mmu: &mut M, instr: u32)
        requires
            old(self)@.wf(),
            mul_long_ok(instr),
        ensures
            follows(mul_long_step(old(self)@, instr, new_responses(old(mmu).ops(), final(mmu).ops())),
                final(self)@, old(mmu).ops(), final(mmu).ops()),
            final(self)@.wf(),
    {
        let ghost o = mmu.ops();
        let signed = (instr >> 22u32) & 0x1 != 0;
        let accumulate = (instr >> 21u32) & 0x1 != 0;
        let change_status = (instr >> 20u32) & 0x1 != 0;
        let hi_reg = (instr >> 16u32) & 0xF;
        let lo_reg = (instr >> 12u32) & 0xF;
        let op1 = self.regs.get_reg_i((instr >> 8u32) & 0xF);
        let op2 = self.regs.get_reg_i(instr & 0xF);
        self.inc_mul_clocks(mmu, op1, signed);
        mmu.inc_clock(Cycle::I, 0, 0);
        let ghost t = idle_cycles(mul_cycles(op1, signed));
        proof { lemma_extend(o, t, BusOp::Clock(Cycle::I, 0, 0)); assert(t.push(BusOp::Clock(Cycle::I, 0, 0)) =~= t + idle_cycles(1)); }
        let ghost t = t + idle_cycles(1);
        let product: u64 = if signed {
            let a: u64 = if (op1 >> 31u32) == 1 { (op1 as u64) | 0xFFFF_FFFF_0000_0000u64 } else { op1 as u64 };
            let b: u64 = if (op2 >> 31u32) == 1 { (op2 as u64) | 0xFFFF_FFFF_0000_0000u64 } else { op2 as u64 };
            a.wrapping_mul(b)
        } else {
            assert((op1 as u64) * (op2 as u64) <= 0xFFFF_FFFE_0000_0001u64) by (nonlinear_arith)
                requires op1 <= 0xFFFF_FFFFu32, op2 <= 0xFFFF_FFFFu32;
            (op1 as u64) * (op2 as u64)
        };
        let addend: u64 = if accumulate {
            mmu.inc_clock(Cycle::I, 0, 0);
            proof { lemma_extend(o, t, BusOp::Clock(Cycle::I, 0, 0)); assert(t.push(BusOp::Clock(Cycle::I, 0, 0)) =~= t + idle_cycles(1)); }
            ((self.regs.get_reg_i(hi_reg) as u64) << 32u64) | (self.regs.get_reg_i(lo_reg) as u64)
        } else {
            assert(o + t =~= o + (t + Seq::empty()));
            0
        };
        let result = product.wrapping_add(addend);
        if change_status {
            self.regs.set_n(result & 0x8000_0000_0000_0000u64 != 0);
            self.regs.set_z(result == 0);
            assert(result & 0x8000_0000_0000_0000u64 != 0 <==> (result >> 63u64) & 1 == 1) by (bit_vector);
        }
        self.regs.set_reg_i(lo_reg, result as u32);
        self.regs.set_reg_i(hi_reg, (result >> 32u64) as u32);
        proof {
            let t3 = t + (if accumulate { idle_cycles(1) } else { Seq::empty() });
            let step = mul_long_step(old(self)@, instr, responses(t3));
            assert(signed == ((instr >> 22u32) & 1 == 1));
            assert(accumulate == ((instr >> 21u32) & 1 == 1));
            assert(op1 == old(self)@.regs.reg(((instr >> 8u32) & 0xF) as int));
            assert(t =~= idle_cycles(mul_cycles(op1, signed)) + idle_cycles(1));
            assert(t3 =~= step.1);
            assert(self@ =~= step.0);
        }
    }

    /// ARM.6: PSR Transfer (MRS, MSR)
    pub fn psr_transfer<M: IMMU>(&mut self, mmu: &mut M, instr: u32)
        requires
            old(self)@.wf(),
            psr_transfer_ok(old(self)@, instr),
        ensures
            follows(psr_transfer_step(old(self)@, instr, new_responses(old(mmu).ops(), final(mmu).ops())),
                final(self)@, old(mmu).ops(), final(mmu).ops()),
            final(self)@.wf(),
    {
        let ghost o = mmu.ops();
        let status_reg = if (instr >> 22u32) & 0x1 != 0 { Reg::SPSR } else { Reg::CPSR };
        let msr = (instr >> 21u32) & 0x1 != 0;
        let pc = self.regs.pc;
        mmu.inc_clock(Cycle::S, pc, 2);
        if msr {
            let value = msr_value(&self.regs, instr);
            self.regs.set_reg(status_reg, value);
        } else {
            let value = self.regs.get_reg(status_reg);
            self.regs.set_reg_i((instr >> 12u32) & 0xF, value);
        }
        proof {
            let t = seq![BusOp::Clock(Cycle::S, pc, 2)];
            lemma_extend(o, Seq::empty(), t[0]);
            assert(Seq::<BusOp>::empty().push(t[0]) =~= t);
            let step = psr_transfer_step(old(self)@, instr, responses(t));
            assert(self@ =~= step.0);
        }
    }

    /// The second operand of a data processing instruction, through the
    /// shifter.
    fn dp_fetch_operand2<M: IMMU>(&mut self, mmu: &mut M, instr: u32) -> (r: (u32, bool))
        requires
            old(self)@.wf(),
            data_proc_ok(old(self)@, instr),
        ensures
            r.0 == dp_operand2(dp_pre(old(self)@.regs, instr), instr).0,
            final(self)@ == old(self)@.with_regs(dp_operand2(dp_pre(old(self)@.regs, instr), instr).1),
            r.1 == ((instr >> 25u32) & 1 == 0 && (instr >> 4u32) & 1 == 1),
            final(mmu).ops() == old(mmu).ops() + (if r.1 { idle_cycles(1) } else { Seq::empty() }),
            final(self)@.wf(),
    {
        let ghost o = mmu.ops();
        let ghost s = self@;
        let change_status = (instr >> 20u32) & 0x1 != 0 && (instr >> 12u32) & 0xF != 15;
        let opcode = (instr >> 21u32) & 0xF;
        if (instr >> 25u32) & 0x1 != 0 {
            let shift = (instr >> 8u32) & 0xF;
            let operand = instr & 0xFF;
            if (opcode < 0x5 || opcode > 0x7) && shift != 0 {
                let v = self.shift(mmu, 3, operand, shift * 2, true, change_status);
                assert(self@ =~= s.with_regs(dp_operand2(dp_pre(s.regs, instr), instr).1));
                (v, false)
            } else {
                assert(mmu.ops() =~= o + Seq::empty());
                assert(self@ =~= s.with_regs(dp_operand2(dp_pre(s.regs, instr), instr).1));
                (ror32(operand, shift * 2), false)
            }
        } else {
            let shift_by_reg = (instr >> 4u32) & 0x1 != 0;
            let shift = if shift_by_reg {
                self.regs.pc = self.regs.pc.wrapping_add(4);
                self.regs.get_reg_i((instr >> 8u32) & 0xF) & 0xFF
            } else {
                (instr >> 7u32) & 0x1F
            };
            assert(self@.regs =~= dp_pre(s.regs, instr));
            let shift_type = (instr >> 5u32) & 0x3;
            let x = self.regs.get_reg_i(instr & 0xF);
            let v = self.shift(mmu, shift_type, x, shift, !shift_by_reg,
                change_status && (opcode < 0x5 || opcode > 0x7));
            assert(self@ =~= s.with_regs(dp_operand2(dp_pre(s.regs, instr), instr).1));
            (v, shift_by_reg)
        }
    }

    /// The arithmetic and logic of a data processing instruction.
    fn dp_compute(&mut self, opcode: u32, op1: u32, op2: u32, change_status: bool) -> (result: u32)
        requires
            old(self)@.wf(),
            opcode < 16,
        ensures
            result == dp_alu(old(self)@.regs, opcode, op1, op2, change_status).0,
            final(self)@ == old(self)@.with_regs(dp_alu(old(self)@.regs, opcode, op1, op2, change_status).1),
            final(self)@.wf(),
    {
        let result = match opcode {
            0x0 | 0x8 => op1 & op2,
            0x1 | 0x9 => op1 ^ op2,
            0x2 | 0xA => self.sub(op1, op2, change_status),
            0x3 => self.sub(op2, op1, change_status),
            0x4 | 0xB => self.add(op1, op2, change_status),
            0x5 => self.adc(op1, op2, change_status),
            0x6 => self.sbc(op1, op2, change_status),
            0x7 => self.sbc(op2, op1, change_status),
            0xC => op1 | op2,
            0xD => op2,
            0xE => op1 & !op2,
            _ => !op2,
        };
        assert(self@ =~= old(self)@.with_regs(dp_alu(old(self)@.regs, opcode, op1, op2, change_status).1));
        result
    }

    /// Flags or restored status, then the destination.
    fn dp_write_result(&mut self, instr: u32, result: u32)
        requires
            old(self)@.wf(),
            data_proc_ok(old(self)@, instr),
        ensures
            final(self)@ == old(self)@.with_regs(dp_writeback(old(self)@.regs, instr, result)),
            final(self)@.wf(),
    {
        let opcode = (instr >> 21u32) & 0xF;
        let dest_reg = (instr >> 12u32) & 0xF;
        if (instr >> 20u32) & 0x1 != 0 && dest_reg != 15 {
            self.regs.set_z(result == 0);
            self.regs.set_n(result & 0x8000_0000 != 0);
            assert(result & 0x8000_0000 != 0 <==> (result >> 31u32) & 1 == 1) by (bit_vector);
        } else if (instr >> 20u32) & 0x1 != 0 {
            let spsr = self.regs.get_reg(Reg::SPSR);
            self.regs.set_reg(Reg::CPSR, spsr);
        }
        if opcode & 0xC != 0x8 {
            self.regs.set_reg_i(dest_reg, result);
        }
        assert(self@ =~= old(self)@.with_regs(dp_writeback(old(self)@.regs, instr, result)));
    }

    /// ARM.5: Data Processing
    #[verifier::rlimit(30)]
    pub fn data_proc<M: IMMU>(&mut self, mmu: &mut M, instr: u32)
        requires
            old(self)@.wf(),
            data_proc_ok(old(self)@, instr),
        ensures
            follows(data_proc_step(old(self)@, instr, new_responses(old(mmu).ops(), final(mmu).ops())),
                final(self)@, old(mmu).ops(), final(mmu).ops()),
            final(self)@.wf(),
    {
        let ghost o = mmu.ops();
        let ghost s = self@;
        let opcode = (instr >> 21u32) & 0xF;
        let dest_reg = (instr >> 12u32) & 0xF;
        let change_status = (instr >> 20u32) & 0x1 != 0 && dest_reg != 15;
        let (op2, temp_inc_pc) = self.dp_fetch_operand2(mmu, instr);
        let ghost t_shift = if temp_inc_pc { idle_cycles(1) } else { Seq::empty() };
        let ghost r1 = self@.regs;
        let op1 = self.regs.get_reg_i((instr >> 16u32) & 0xF);
        let result = self.dp_compute(opcode, op1, op2, change_status);
        let ghost r2 = self@.regs;
        proof {
            assert(data_proc_ok(self@, instr));
        }
        self.dp_write_result(instr, result);
        let ghost r3 = self@.regs;
        proof {
            lemma_responses_idle(1);
            lemma_responses_empty();
            assert(responses(t_shift) =~= Seq::<u32>::empty());
            let (op2s, r1s) = dp_operand2(dp_pre(s.regs, instr), instr);
            assert(r1s == r1);
            let (res_s, r2s) = dp_alu(r1, opcode, op1, op2, dp_sets_flags(instr));
            assert(r2s == r2);
            assert(r3 == dp_writeback(r2, instr, result));
        }
        if dest_reg == 15 && opcode & 0xC != 0x8 {
            let ghost mid = mmu.ops();
            let ghost s3 = self@;
            self.fill_arm_instr_buffer(mmu);
            let ghost mid2 = mmu.ops();
            let pc = self.regs.pc;
            mmu.inc_clock(Cycle::N, pc, 2);
            proof {
                let u = fill_arm_trace(s3.regs.pc, new_responses(mid, mid2));
                lemma_then(o, t_shift, u);
                lemma_after(mid, u);
                lemma_extend(o, t_shift + u, BusOp::Clock(Cycle::N, pc, 2));
                let t = (t_shift + u).push(BusOp::Clock(Cycle::N, pc, 2));
                lemma_after(o, t);
                assert(responses(t) =~= responses(u));
                let step = data_proc_step(s, instr, responses(t));
                assert(t =~= step.1);
                assert(self@ =~= step.0);
            }
        } else {
            let pc = self.regs.pc;
            mmu.inc_clock(Cycle::S, pc, 2);
            if temp_inc_pc {
                self.regs.pc = self.regs.pc.wrapping_sub(4);
            }
            proof {
                lemma_extend(o, t_shift, BusOp::Clock(Cycle::S, pc, 2));
                let t = t_shift.push(BusOp::Clock(Cycle::S, pc, 2));
                lemma_after(o, t);
                let step = data_proc_step(s, instr, responses(t));
                assert(t =~= step.1);
                assert(self@ =~= step.0);
            }
        }
    }

    /// Writes a loaded value to `rd`, refilling the prefetch buffer when it
    /// is the program counter.
    fn load_finish<M: IMMU>(&mut self, mmu: &mut M, rd: u32, value: u32)
        requires
            old(self)@.wf(),
            rd < 16,
        ensures
            follows(load_finish(old(self)@, rd as int, value, new_responses(old(mmu).ops(), final(mmu).ops())),
                final(self)@, old(mmu).ops(), final(mmu).ops()),
            final(self)@.wf(),
    {
        let ghost o = mmu.ops();
        self.regs.set_reg_i(rd, value);
        let pc4 = self.regs.pc.wrapping_add(4);
        if rd == 15 {
            mmu.inc_clock(Cycle::N, pc4, 2);
            let ghost t = seq![BusOp::Clock(Cycle::N, pc4, 2)];
            proof { lemma_extend(o, Seq::empty(), t[0]); assert(Seq::<BusOp>::empty().push(t[0]) =~= t); }
            let ghost mid = mmu.ops();
            let ghost s2 = self@;
            self.fill_arm_instr_buffer(mmu);
            proof {
                let u = fill_arm_trace(s2.regs.pc, new_responses(mid, mmu.ops()));
                lemma_then(o, t, u);
                lemma_after(mid, u);
                lemma_after(o, t + u);
                lemma_responses_empty();
                assert(responses(t) =~= Seq::<u32>::empty());
                assert(responses(t + u) =~= responses(u));
            }
        } else {
            mmu.inc_clock(Cycle::S, pc4, 2);
            proof {
                let t = seq![BusOp::Clock(Cycle::S, pc4, 2)];
                lemma_extend(o, Seq::empty(), t[0]);
                assert(Seq::<BusOp>::empty().push(t[0]) =~= t);
                lemma_after(o, t);
            }
        }
    }

    /// ARM.9: Single Data Transfer (LDR, STR)
    #[verifier::rlimit(30)]
    pub fn single_data_transfer<M: IMMU>(&mut self, mmu: &mut M, instr: u32)
        requires
            old(self)@.wf(),
            single_data_transfer_ok(instr),
        ensures
            follows(single_data_transfer_step(old(self)@, instr, new_responses(old(mmu).ops(), final(mmu).ops())),
                final(self)@, old(mmu).ops(), final(mmu).ops()),
            final(self)@.wf(),
    {
        let ghost o = mmu.ops();
        let ghost s = self@;
        let shifted_reg_offset = (instr >> 25u32) & 0x1 != 0;
        let pre_offset = (instr >> 24u32) & 0x1 != 0;
        let transfer_byte = (instr >> 22u32) & 0x1 != 0;
        let add_offset = (instr >> 23u32) & 0x1 != 0;
        let load = (instr >> 20u32) & 0x1 != 0;
        let base_reg = (instr >> 16u32) & 0xF;
        let base = self.regs.get_reg_i(base_reg);
        let src_dest_reg = (instr >> 12u32) & 0xF;
        let pc = self.regs.pc;
        mmu.inc_clock(Cycle::N, pc, 2);
        let ghost t0 = seq![BusOp::Clock(Cycle::N, pc, 2)];
        proof { lemma_extend(o, Seq::empty(), t0[0]); assert(Seq::<BusOp>::empty().push(t0[0]) =~= t0); }
        let offset = if shifted_reg_offset {
            let shift = (instr >> 7u32) & 0x1F;
            let shift_type = (instr >> 5u32) & 0x3;
            let operand = self.regs.get_reg_i(instr & 0xF);
            let c = self.regs.get_c();
            super::alu::barrel_shift(c, shift_type, operand, shift, true).0
        } else {
            instr & 0xFFF
        };
        let offset_applied = if add_offset { base.wrapping_add(offset) } else { base.wrapping_sub(offset) };
        let addr = if pre_offset { offset_applied } else { base };
        if load {
            mmu.inc_clock(Cycle::I, 0, 0);
            let ghost t1 = t0.push(BusOp::Clock(Cycle::I, 0, 0));
            proof { lemma_extend(o, t0, BusOp::Clock(Cycle::I, 0, 0)); }
            let ghost mut read_op = t1[0];
            let value = if transfer_byte {
                let v = mmu.read8(addr);
                proof { read_op = BusOp::Read8(addr, v); }
                v as u32
            } else {
                let w = mmu.read32(addr & !0x3u32);
                proof { read_op = BusOp::Read32(addr & !3u32, w); }
                ror32(w, (addr & 0x3) * 8)
            };
            let ghost t2 = t1.push(read_op);
            proof {
                lemma_extend(o, t1, read_op);
                lemma_responses_empty();
                assert(responses(t1) =~= Seq::<u32>::empty()) by {
                    lemma_extend(o, t0, BusOp::Clock(Cycle::I, 0, 0));
                    lemma_extend(o, Seq::empty(), t0[0]);
                    assert(Seq::<BusOp>::empty().push(t0[0]) =~= t0);
                }
                assert(responses(t2).len() == 1);
            }
            let ghost mid = mmu.ops();
            let ghost s2 = self@;
            self.load_finish(mmu, src_dest_reg, value);
            let write_back = ((instr >> 21u32) & 0x1 != 0 || !pre_offset) && src_dest_reg != base_reg;
            if write_back {
                self.regs.set_reg_i(base_reg, offset_applied);
            }
            proof {
                let u = load_finish(s2, src_dest_reg as int, value, new_responses(mid, mmu.ops())).1;
                lemma_then(o, t2, u);
                lemma_after(mid, u);
                lemma_after(o, t2 + u);
                let t = t2 + u;
                let step = single_data_transfer_step(s, instr, responses(t));
                assert(responses(t).skip(1) =~= responses(u));
                assert(t =~= step.1);
                assert(self@ =~= step.0);
            }
        } else {
            let a = addr & !0x3u32;
            let value = self.regs.get_reg_i(src_dest_reg);
            mmu.inc_clock(Cycle::N, a, 2);
            let ghost t1 = t0.push(BusOp::Clock(Cycle::N, a, 2));
            proof { lemma_extend(o, t0, BusOp::Clock(Cycle::N, a, 2)); }
            if transfer_byte {
                mmu.write8(a, value as u8);
                proof { lemma_extend(o, t1, BusOp::Write8(a, value as u8)); }
            } else {
                mmu.write32(a, value);
                proof { lemma_extend(o, t1, BusOp::Write32(a, value)); }
            }
            let write_back = (instr >> 21u32) & 0x1 != 0 || !pre_offset;
            if write_back {
                self.regs.set_reg_i(base_reg, offset_applied);
            }
            proof {
                let t = mmu.ops().skip(o.len() as int);
                assert(mmu.ops() =~= o + t);
                let step = single_data_transfer_step(s, instr, responses(t));
                assert(t =~= step.1);
                assert(self@ =~= step.0);
            }
        }
    }

    /// ARM.10: Halfword and Signed Data Transfer (STRH,LDRH,LDRSB,LDRSH)
    #[verifier::rlimit(30)]
    pub fn halfword_and_signed_data_transfer<M: IMMU>(&mut self, mmu: &mut M, instr: u32)
        requires
            old(self)@.wf(),
            halfword_transfer_ok(instr),
        ensures
            follows(halfword_transfer_step(old(self)@, instr, new_responses(old(mmu).ops(), final(mmu).ops())),
                final(self)@, old(mmu).ops(), final(mmu).ops()),
            final(self)@.wf(),
    {
        let ghost o = mmu.ops();
        let ghost s = self@;
        let pre_offset = (instr >> 24u32) & 0x1 != 0;
        let add_offset = (instr >> 23u32) & 0x1 != 0;
        let immediate_offset = (instr >> 22u32) & 0x1 != 0;
        let load = (instr >> 20u32) & 0x1 != 0;
        let base_reg = (instr >> 16u32) & 0xF;
        let base = self.regs.get_reg_i(base_reg);
        let src_dest_reg = (instr >> 12u32) & 0xF;
        let offset_hi = (instr >> 8u32) & 0xF;
        let opcode = (instr >> 5u32) & 0x3;
        let offset_low = instr & 0xF;
        let offset = if immediate_offset { offset_hi << 4u32 | offset_low } else { self.regs.get_reg_i(offset_low) };
        let offset_applied = if add_offset { base.wrapping_add(offset) } else { base.wrapping_sub(offset) };
        let addr = if pre_offset { offset_applied } else { base };
        if load {
            mmu.inc_clock(Cycle::I, 0, 0);
            let ghost t1 = seq![BusOp::Clock(Cycle::I, 0, 0)];
            proof { lemma_extend(o, Seq::empty(), t1[0]); assert(Seq::<BusOp>::empty().push(t1[0]) =~= t1); }
            let ghost mut read_op = t1[0];
            let value = if opcode == 1 {
                let v = mmu.read16(addr & !0x1u32);
                proof { read_op = BusOp::Read16(addr & !1u32, v); }
                ror32(v as u32, (addr & 0x1) * 8)
            } else if opcode == 2 || addr & 0x1 == 1 {
                let v = mmu.read8(addr);
                proof { read_op = BusOp::Read8(addr, v); }
                if v >= 0x80 { (v as u32) | 0xFFFF_FF00u32 } else { v as u32 }
            } else {
                let v = mmu.read16(addr);
                proof { read_op = BusOp::Read16(addr, v); }
                if v >= 0x8000 { (v as u32) | 0xFFFF_0000u32 } else { v as u32 }
            };
            let ghost t2 = t1.push(read_op);
            proof {
                lemma_extend(o, t1, read_op);
                lemma_responses_empty();
                let hl = halfword_load(opcode, addr, responses(t2)[0]);
                assert(responses(t2).len() == 1);
                assert(hl.0 == read_op);
                assert(hl.1 == value);
            }
            let ghost mid = mmu.ops();
            let ghost s2 = self@;
            self.load_finish(mmu, src_dest_reg, value);
            let write_back = ((instr >> 21u32) & 0x1 != 0 || !pre_offset) && src_dest_reg != base_reg;
            if write_back {
                self.regs.set_reg_i(base_reg, offset_applied);
            }
            proof {
                let u = load_finish(s2, src_dest_reg as int, value, new_responses(mid, mmu.ops())).1;
                lemma_then(o, t2, u);
                lemma_after(mid, u);
                lemma_after(o, t2 + u);
                let t = t2 + u;
                let step = halfword_transfer_step(s, instr, responses(t));
                assert(responses(t).skip(1) =~= responses(u));
                assert(t =~= step.1);
                assert(self@ =~= step.0);
            }
        } else {
            let a = addr & !0x1u32;
            let value = self.regs.get_reg_i(src_dest_reg);
            mmu.inc_clock(Cycle::N, a, 1);
            mmu.write16(a, value as u16);
            let write_back = (instr >> 21u32) & 0x1 != 0 || !pre_offset;
            if write_back {
                self.regs.set_reg_i(base_reg, offset_applied);
            }
            proof {
                let t = seq![BusOp::Clock(Cycle::N, a, 1), BusOp::Write16(a, value as u16)];
                assert(mmu.ops() =~= o + t);
                lemma_after(o, t);
                let step = halfword_transfer_step(s, instr, responses(t));
                assert(t =~= step.1);
                assert(self@ =~= step.0);
            }
        }
    }

    /// The transfer of one register of an LDM or STM.
    fn bdt_transfer_one<M: IMMU>(&mut self, mmu: &mut M, instr: u32, reg: u32, last: bool, base: u32)
        requires
            old(self)@.wf(),
            reg < 16,
            (instr >> 16u32) & 0xF != 15,
            (instr >> 20u32) & 1 == 1 && (instr >> 22u32) & 1 == 1 && reg == 15 ==> old(self)@.regs.has_spsr()
                && valid_psr(old(self)@.regs.spsr_value()),
        ensures
            follows(bdt_one(old(self)@, instr, reg as int, last, base, new_responses(old(mmu).ops(), final(mmu).ops())),
                final(self)@, old(mmu).ops(), final(mmu).ops()),
            final(self)@.wf(),
            responses(final(mmu).ops().skip(old(mmu).ops().len() as int)).len() == bdt_reads(instr, reg as int),
    {
        let ghost o = mmu.ops();
        let ghost s = self@;
        let pre_offset = (instr >> 24u32) & 0x1 != 0;
        let psr_force_usr = (instr >> 22u32) & 0x1 != 0;
        let write_back = (instr >> 21u32) & 0x1 != 0;
        let load = (instr >> 20u32) & 0x1 != 0;
        let base_reg = (instr >> 16u32) & 0xF;
        let new_base = if (instr >> 23u32) & 0x1 != 0 { base.wrapping_add(4) } else { base.wrapping_sub(4) };
        let addr = if pre_offset { new_base } else { base };
        if load {
            let v = mmu.read32(addr);
            let ghost t1 = seq![BusOp::Read32(addr, v)];
            proof { lemma_extend(o, Seq::empty(), t1[0]); assert(Seq::<BusOp>::empty().push(t1[0]) =~= t1); lemma_responses_empty(); }
            self.regs.set_reg_i(reg, v);
            if write_back {
                self.regs.set_reg_i(base_reg, new_base);
            }
            let ghost mut t = t1;
            if reg == 15 {
                if psr_force_usr {
                    self.regs.restore_cpsr();
                }
                let ghost mid = mmu.ops();
                let ghost s2 = self@;
                self.fill_arm_instr_buffer(mmu);
                proof {
                    let u = fill_arm_trace(s2.regs.pc, new_responses(mid, mmu.ops()));
                    lemma_then(o, t1, u);
                    lemma_after(mid, u);
                    t = t1 + u;
                }
            }
            let op = if last { BusOp::Clock(Cycle::I, 0, 0) } else { BusOp::Clock(Cycle::S, addr, 2) };
            if last {
                mmu.inc_clock(Cycle::I, 0, 0);
            } else {
                mmu.inc_clock(Cycle::S, addr, 2);
            }
            proof {
                lemma_extend(o, t, op);
                let tf = t.push(op);
                lemma_after(o, tf);
                let r = responses(tf);
                assert(r[0] == v);
                if reg == 15 {
                    assert(r.skip(1) =~= new_responses(o + t1, o + t));
                    lemma_fill_arm_responses(self@.regs.pc, r.skip(1));
                }
                let step = bdt_one(s, instr, reg as int, last, base, r);
                if reg == 15 {
                    let u = t.skip(1);
                    assert(t =~= t1 + u);
                    lemma_fill_arm_responses((s.regs.with_reg(15, v)).pc, r.skip(1));
                }
                assert(tf =~= step.1);
                assert(self@ =~= step.0);
            }
        } else {
            let value = self.regs.get_reg_i(reg);
            mmu.write32(addr, value);
            if last {
                mmu.inc_clock(Cycle::N, addr, 2);
            } else {
                mmu.inc_clock(Cycle::S, addr, 2);
            }
            if write_back {
                self.regs.set_reg_i(base_reg, new_base);
            }
            proof {
                let t = seq![
                    BusOp::Write32(addr, value),
                    if last { BusOp::Clock(Cycle::N, addr, 2) } else { BusOp::Clock(Cycle::S, addr, 2) },
                ];
                assert(mmu.ops() =~= o + t);
                lemma_after(o, t);
                lemma_responses_no_reads(t);
                let step = bdt_one(s, instr, reg as int, last, base, responses(t));
                assert(t =~= step.1);
                assert(self@ =~= step.0);
            }
        }
    }

    /// ARM.11: Block Data Transfer (LDM,STM)
    #[verifier::rlimit(40)]
    pub fn block_data_transfer<M: IMMU>(&mut self, mmu: &mut M, instr: u32)
        requires
            old(self)@.wf(),
            block_data_transfer_ok(old(self)@, instr),
        ensures
            follows(block_data_transfer_step(old(self)@, instr, new_responses(old(mmu).ops(), final(mmu).ops())),
                final(self)@, old(mmu).ops(), final(mmu).ops()),
            final(self)@.wf(),
    {
        let ghost o = mmu.ops();
        let ghost s = self@;
        let add_offset = (instr >> 23u32) & 0x1 != 0;
        let psr_force_usr = (instr >> 22u32) & 0x1 != 0;
        let load = (instr >> 20u32) & 0x1 != 0;
        let base_reg = (instr >> 16u32) & 0xF;
        let mut base = self.regs.get_reg_i(base_reg) & !0x3u32;
        let r_list = instr & 0xFFFF;
        let actual_mode = self.regs.get_mode();
        if psr_force_usr && !(load && r_list & 0x80 != 0) {
            self.regs.set_mode(Mode::USR);
        }
        let pc = self.regs.pc;
        mmu.inc_clock(Cycle::N, pc, 2);
        let ghost init = bdt_init(s, instr);
        proof {
            assert(self@ =~= init.cpu);
            assert(mmu.ops() =~= o + init.trace);
            lemma_responses_empty();
            lemma_extend(o, Seq::empty(), init.trace[0]);
            assert(Seq::<BusOp>::empty().push(init.trace[0]) =~= init.trace);
        }
        let ghost r0 = init.cpu.regs;
        let ghost mut cur = init;
        let mut loaded_pc = false;
        let mut k: u32 = 0;
        while k < 16
            invariant
                k <= 16,
                cur == bdt_run(init, instr, k as nat, responses(cur.trace)),
                cur.ri == responses(cur.trace).len(),
                mmu.ops() == o + cur.trace,
                self@ == cur.cpu,
                self@.wf(),
                base == cur.base,
                loaded_pc == cur.loaded_pc,
                cur.cpu.regs.spsr == r0.spsr,
                !cur.loaded_pc ==> cur.cpu.regs.cpsr == r0.cpsr,
                cur.loaded_pc ==> (if add_offset { k == 16 } else { k >= 1 }),
                block_data_transfer_ok(s, instr),
                r0 == bdt_start_regs(s.regs, instr),
                r_list == instr & 0xFFFF,
                add_offset == ((instr >> 23u32) & 1 == 1),
                load == ((instr >> 20u32) & 1 == 1),
            decreases 16 - k,
        {
            let reg = if add_offset { k } else { 15 - k };
            if (r_list >> reg) & 0x1 == 1 {
                assert(reg < 16 ==> (1u32 << reg) >= 1) by (bit_vector);
                let last = if add_offset { (r_list >> (reg + 1)) == 0 } else { r_list & ((1u32 << reg) - 1) == 0 };
                let ghost mid = mmu.ops();
                let ghost prev = cur;
                proof {
                    if load && psr_force_usr && reg == 15 {
                        assert(bdt_in_list(instr, 15));
                    }
                }
                self.bdt_transfer_one(mmu, instr, reg, last, base);
                if load && reg == 15 {
                    loaded_pc = true;
                }
                base = if add_offset { base.wrapping_add(4) } else { base.wrapping_sub(4) };
                proof {
                    let u = mmu.ops().skip(mid.len() as int);
                    assert(mmu.ops() =~= mid + u);
                    lemma_then(o, prev.trace, u);
                    let r_new = responses(prev.trace + u);
                    assert(r_new.skip(prev.ri as int) =~= responses(u));
                    lemma_bdt_run_prefix(init, instr, k as nat, responses(prev.trace), r_new);
                    cur = BdtState {
                        cpu: self@,
                        base,
                        trace: prev.trace + u,
                        ri: prev.ri + bdt_reads(instr, reg as int),
                        loaded_pc,
                    };
                    assert(cur == bdt_step(prev, instr, k as int, r_new));
                    assert(cur == bdt_run(init, instr, (k + 1) as nat, r_new));
                }
            } else {
                proof {
                    assert(cur == bdt_run(init, instr, (k + 1) as nat, responses(cur.trace)));
                }
            }
            k = k + 1;
        }
        self.regs.set_mode(actual_mode);
        let pc4 = self.regs.pc.wrapping_add(4);
        let ghost fin = cur;
        if loaded_pc {
            mmu.inc_clock(Cycle::N, pc4, 2);
        } else if load {
            mmu.inc_clock(Cycle::S, pc4, 2);
        }
        proof {
            let tail = if loaded_pc {
                seq![BusOp::Clock(Cycle::N, pc4, 2)]
            } else if load {
                seq![BusOp::Clock(Cycle::S, pc4, 2)]
            } else {
                Seq::empty()
            };
            assert(mmu.ops() =~= o + (fin.trace + tail));
            lemma_after(o, fin.trace + tail);
            lemma_then(o, fin.trace, tail);
            let r = responses(fin.trace + tail);
            lemma_responses_no_reads(tail);
            assert(r =~= responses(fin.trace));
            let step = block_data_transfer_step(s, instr, r);
            assert(fin.trace + tail =~= step.1);
            assert(self@ =~= step.0);
        }
    }

    fn arm_exec<M: IMMU>(&mut self, mmu: &mut M, instr: u32)
        requires
            old(self)@.wf(),
            arm_exec_ok(old(self)@, instr),
        ensures
            follows(arm_exec_step(old(self)@, instr, new_responses(old(mmu).ops(), final(mmu).ops())),
                final(self)@, old(mmu).ops(), final(mmu).ops()),
            final(self)@.wf(),
    {
        if instr & 0x0FFF_FFF0 == 0x012F_FF10 {
            self.branch_and_exchange(mmu, instr);
        } else if instr & 0x0FC0_00F0 == 0x0000_0090 {
            self.mul_mula(mmu, instr);
        } else if instr & 0x0F80_00F0 == 0x0080_0090 {
            self.mul_long(mmu, instr);
        } else if instr & 0x0F80_0FF0 == 0x0100_0090 {
            self.single_data_swap(mmu, instr);
        } else if instr & 0x0E00_0090 == 0x0000_0090 {
            self.halfword_and_signed_data_transfer(mmu, instr);
        } else if instr & 0x0D90_0000 == 0x0100_0000 {
            self.psr_transfer(mmu, instr);
        } else if instr & 0x0C00_0000 == 0 {
            self.data_proc(mmu, instr);
        } else if instr & 0x0C00_0000 == 0x0400_0000 {
            self.single_data_transfer(mmu, instr);
        } else if instr & 0x0E00_0000 == 0x0800_0000 {
            self.block_data_transfer(mmu, instr);
        } else if instr & 0x0E00_0000 == 0x0A00_0000 {
            self.branch_branch_with_link(mmu, instr);
        } else {
            assert(instr & 0x0F00_0000 == 0x0F00_0000 ==> (instr >> 24u32) & 0xF == 0b1111) by (bit_vector);
            self.arm_software_interrupt(mmu, instr);
        }
    }

    /// Executes the oldest prefetched ARM instruction.
    pub fn emulate_arm_instr<M: IMMU>(&mut self, mmu: &mut M)
        requires
            old(self)@.wf(),
            emulate_arm_ok(old(self)@),
        ensures
            follows(emulate_arm_step(old(self)@, new_responses(old(mmu).ops(), final(mmu).ops())),
                final(self)@, old(mmu).ops(), final(mmu).ops()),
            final(self)@.wf(),
    {
        let ghost o = mmu.ops();
        let ghost s = self@;
        let instr = self.instr_buffer[0];
        self.instr_buffer[0] = self.instr_buffer[1];
        self.regs.pc = self.regs.pc.wrapping_add(4);
        let a = self.regs.pc & !0x3u32;
        let w = mmu.read32(a);
        self.instr_buffer[1] = w;
        let ghost t0 = seq![BusOp::Read32(a, w)];
        proof {
            lemma_extend(o, Seq::empty(), t0[0]);
            assert(Seq::<BusOp>::empty().push(t0[0]) =~= t0);
            lemma_responses_empty();
            assert(self@ =~= arm_prefetch(s, w));
            assert(responses(t0) =~= seq![w]);
            assert(arm_prefetch(s, w).regs == arm_prefetch(s, 0).regs);
        }
        assert(instr >> 28u32 < 16) by (bit_vector);
        if self.should_exec(instr >> 28u32) {
            let ghost mid = mmu.ops();
            let ghost s1 = self@;
            self.arm_exec(mmu, instr);
            proof {
                let u = arm_exec_step(s1, instr, new_responses(mid, mmu.ops())).1;
                lemma_then(o, t0, u);
                lemma_after(mid, u);
                lemma_after(o, t0 + u);
                assert(responses(t0 + u).skip(1) =~= responses(u));
            }
        } else {
            mmu.inc_clock(Cycle::N, a, 2);
            proof {
                lemma_extend(o, t0, BusOp::Clock(Cycle::N, a, 2));
                lemma_after(o, t0.push(BusOp::Clock(Cycle::N, a, 2)));
            }
        }
    }
}

} // verus!
