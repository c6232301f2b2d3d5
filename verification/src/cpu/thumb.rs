//! The THUMB instruction set.
use vstd::prelude::*;
use crate::bus::{BusOp, Cycle, IMMU, idle_cycles, new_responses, responses, lemma_after, lemma_extend, lemma_then,
    lemma_responses_empty, lemma_responses_idle, lemma_responses_no_reads, lemma_responses_one_read, op_response};
use super::registers::{Mode, Reg, RegsView, with_mode, FLAG_C, FLAG_I, FLAG_N, FLAG_T, FLAG_Z};
use super::alu::{add_value, bit, ror, ror32, shift_value};
use super::arm::{rotate_loaded, sign_extend8, sign_extend16};
use super::processor::{
    CPU, CpuView, add_flags, fill_arm_trace, fill_thumb_trace, follows, mul_cycles, mul_value, shift_regs,
    then_fill_arm, then_fill_thumb, lemma_fill_thumb_responses,
};

verus! {

broadcast use super::alu::group_masks;

/// THUMB.1: LSL, LSR and ASR by an immediate amount.
pub open spec fn move_shifted_reg_step(s: CpuView, instr: u16, resp: Seq<u32>) -> (CpuView, Seq<BusOp>) {
    let i = instr as u32;
    let opcode = (i >> 11u32) & 0x3;
    let offset = (i >> 6u32) & 0x1F;
    let src = s.regs.reg(((i >> 3u32) & 0x7) as int);
    let result = shift_value(s.regs.flag(FLAG_C), opcode, src, offset, true);
    let regs = shift_regs(s.regs, opcode, src, offset, true, true)
        .with_flag(FLAG_N, bit(result, 31)).with_flag(FLAG_Z, result == 0)
        .with_reg((i & 0x7) as int, result);
    (s.with_regs(regs), seq![BusOp::Clock(Cycle::S, regs.pc, 1)])
}

pub open spec fn move_shifted_reg_ok(instr: u16) -> bool {
    (instr as u32) >> 13u32 == 0 && ((instr as u32) >> 11u32) & 0x3 != 3
}

/// THUMB.2: ADD and SUB of a register or a 3-bit immediate.
pub open spec fn add_sub_step(s: CpuView, instr: u16, resp: Seq<u32>) -> (CpuView, Seq<BusOp>) {
    let i = instr as u32;
    let operand = (i >> 6u32) & 0x7;
    let operand = if (i >> 10u32) & 1 == 1 { operand } else { s.regs.reg(operand as int) };
    let src = s.regs.reg(((i >> 3u32) & 0x7) as int);
    let (a, b, c) = if (i >> 9u32) & 1 == 1 { (src, !operand, true) } else { (src, operand, false) };
    let regs = add_flags(s.regs, a, b, c).with_reg((i & 0x7) as int, add_value(a, b, c));
    (s.with_regs(regs), seq![BusOp::Clock(Cycle::S, regs.pc, 1)])
}

pub open spec fn add_sub_ok(instr: u16) -> bool {
    (instr as u32) >> 11u32 == 0b00011
}

/// THUMB.3: MOV, CMP, ADD and SUB with an 8-bit immediate.
pub open spec fn immediate_step(s: CpuView, instr: u16, resp: Seq<u32>) -> (CpuView, Seq<BusOp>) {
    let i = instr as u32;
    let opcode = (i >> 11u32) & 0x3;
    let rd = ((i >> 8u32) & 0x7) as int;
    let imm = i & 0xFF;
    let op1 = s.regs.reg(rd);
    let (result, regs) = if opcode == 0 {
        (imm, s.regs)
    } else if opcode == 2 {
        (add_value(op1, imm, false), add_flags(s.regs, op1, imm, false))
    } else {
        (add_value(op1, !imm, true), add_flags(s.regs, op1, !imm, true))
    };
    let regs = regs.with_nz(bit(result, 31), result == 0);
    let regs = if opcode != 1 { regs.with_reg(rd, result) } else { regs };
    (s.with_regs(regs), seq![BusOp::Clock(Cycle::S, regs.pc, 1)])
}

pub open spec fn immediate_ok(instr: u16) -> bool {
    (instr as u32) >> 13u32 == 0b001
}

/// THUMB.4: the register to register ALU operations.
pub open spec fn alu_step(s: CpuView, instr: u16, resp: Seq<u32>) -> (CpuView, Seq<BusOp>) {
    let i = instr as u32;
    let opcode = (i >> 6u32) & 0xF;
    let src = s.regs.reg(((i >> 3u32) & 0x7) as int);
    let rd = (i & 0x7) as int;
    let dest = s.regs.reg(rd);
    let r = s.regs;
    let c = r.flag(FLAG_C);
    let shift_ty: u32 = if opcode == 2 { 0 } else if opcode == 3 { 1 } else if opcode == 4 { 2 } else { 3 };
    let is_shift = opcode == 2 || opcode == 3 || opcode == 4 || opcode == 7;
    let (result, regs, t) = if is_shift {
        (shift_value(c, shift_ty, dest, src & 0xFF, false), shift_regs(r, shift_ty, dest, src & 0xFF, false, true),
            idle_cycles(1))
    } else if opcode == 0x0 || opcode == 0x8 {
        (dest & src, r, Seq::empty())
    } else if opcode == 0x1 {
        (dest ^ src, r, Seq::empty())
    } else if opcode == 0x5 {
        (add_value(dest, src, c), add_flags(r, dest, src, c), Seq::empty())
    } else if opcode == 0x6 {
        (add_value(dest, !src, c), add_flags(r, dest, !src, c), Seq::empty())
    } else if opcode == 0x9 {
        (add_value(0, !src, true), add_flags(r, 0, !src, true), Seq::empty())
    } else if opcode == 0xA {
        (add_value(dest, !src, true), add_flags(r, dest, !src, true), Seq::empty())
    } else if opcode == 0xB {
        (add_value(dest, src, false), add_flags(r, dest, src, false), Seq::empty())
    } else if opcode == 0xC {
        (dest | src, r, Seq::empty())
    } else if opcode == 0xD {
        (mul_value(dest, src), r, idle_cycles(mul_cycles(dest, true)))
    } else if opcode == 0xE {
        (dest & !src, r, Seq::empty())
    } else {
        (!src, r, Seq::empty())
    };
    let regs = regs.with_flag(FLAG_N, bit(result, 31)).with_flag(FLAG_Z, result == 0);
    let regs = if opcode != 0x8 && opcode != 0xA && opcode != 0xB { regs.with_reg(rd, result) } else { regs };
    (s.with_regs(regs), t.push(BusOp::Clock(Cycle::S, regs.pc, 1)))
}

pub open spec fn alu_ok(instr: u16) -> bool {
    ((instr as u32) >> 10u32) & 0x3F == 0b010000
}

/// THUMB.6: LDR relative to the program counter.
pub open spec fn load_pc_rel_step(s: CpuView, instr: u16, resp: Seq<u32>) -> (CpuView, Seq<BusOp>) {
    let i = instr as u32;
    let pc = s.regs.pc;
    let addr = (pc & !2u32).wrapping_add(((i & 0xFF) * 4) as u32);
    let regs = s.regs.with_reg(((i >> 8u32) & 0x7) as int, rotate_loaded(resp[0], addr));
    (s.with_regs(regs), seq![
        BusOp::Read32(addr & !3u32, resp[0]),
        BusOp::Clock(Cycle::N, pc, 1),
        BusOp::Clock(Cycle::I, 0, 0),
        BusOp::Clock(Cycle::S, pc.wrapping_add(2), 1),
    ])
}

pub open spec fn load_pc_rel_ok(instr: u16) -> bool {
    (instr as u32) >> 11u32 == 0b01001
}

/// THUMB.12: ADD of an offset to the program counter or the stack pointer.
pub open spec fn get_rel_addr_step(s: CpuView, instr: u16, resp: Seq<u32>) -> (CpuView, Seq<BusOp>) {
    let i = instr as u32;
    let src = if (i >> 11u32) & 1 == 1 { s.regs.reg(13) } else { s.regs.pc & !2u32 };
    let regs = s.regs.with_reg(((i >> 8u32) & 0x7) as int, src.wrapping_add(((i & 0xFF) * 4) as u32));
    (s.with_regs(regs), seq![BusOp::Clock(Cycle::S, regs.pc, 1)])
}

pub open spec fn get_rel_addr_ok(instr: u16) -> bool {
    ((instr as u32) >> 12u32) & 0xF == 0b1010
}

/// THUMB.13: ADD and SUB of an offset to the stack pointer.
pub open spec fn add_offset_sp_step(s: CpuView, instr: u16, resp: Seq<u32>) -> (CpuView, Seq<BusOp>) {
    let i = instr as u32;
    let offset = (i & 0x7F) * 4;
    let sp = s.regs.reg(13);
    let value = if (i >> 7u32) & 1 == 1 { sp.wrapping_sub(offset as u32) } else { sp.wrapping_add(offset as u32) };
    let regs = s.regs.with_reg(13, value);
    (s.with_regs(regs), seq![BusOp::Clock(Cycle::S, regs.pc, 1)])
}

pub open spec fn add_offset_sp_ok(instr: u16) -> bool {
    ((instr as u32) >> 8u32) & 0xFF == 0b1011_0000
}

/// The 8-bit branch offset of THUMB.16, sign extended.
pub open spec fn cond_branch_offset(instr: u16) -> u32 {
    sign_extend8(((instr as u32) & 0xFF) as u8)
}

/// THUMB.16: conditional branch.
pub open spec fn cond_branch_step(s: CpuView, instr: u16, resp: Seq<u32>) -> (CpuView, Seq<BusOp>) {
    let i = instr as u32;
    let pc = s.regs.pc;
    if s.condition((i >> 8u32) & 0xF) {
        let regs = s.regs.with_pc(pc.wrapping_add(cond_branch_offset(instr).wrapping_mul(2)));
        then_fill_thumb(s.with_regs(regs), seq![BusOp::Clock(Cycle::N, pc, 1)], resp)
    } else {
        (s, seq![BusOp::Clock(Cycle::S, pc, 1)])
    }
}

pub open spec fn cond_branch_ok(instr: u16) -> bool {
    (instr as u32) >> 12u32 == 0b1101 && ((instr as u32) >> 8u32) & 0xF < 0xE
}

/// THUMB.17: SWI. Enters supervisor mode in ARM state at the vector 0x8.
pub open spec fn thumb_software_interrupt_step(s: CpuView, instr: u16, resp: Seq<u32>) -> (CpuView, Seq<BusOp>) {
    let pc = s.regs.pc;
    let regs = s.regs.with_cpsr(with_mode(s.regs.cpsr, Mode::SVC)).with_spsr(s.regs.cpsr)
        .with_reg(14, pc.wrapping_sub(2)).with_flag(FLAG_T, false).with_flag(FLAG_I, true).with_pc(8);
    then_fill_arm(s.with_regs(regs), seq![BusOp::Clock(Cycle::N, pc, 1)], resp)
}

pub open spec fn thumb_software_interrupt_ok(instr: u16) -> bool {
    ((instr as u32) >> 8u32) & 0xFF == 0b1101_1111
}

/// An 11-bit offset, sign extended.
pub open spec fn sign_extend11(x: u32) -> u32 {
    if (x >> 10u32) & 1 == 1 { 0xFFFF_F800u32 | x } else { x }
}

/// THUMB.18: unconditional branch.
pub open spec fn uncond_branch_step(s: CpuView, instr: u16, resp: Seq<u32>) -> (CpuView, Seq<BusOp>) {
    let pc = s.regs.pc;
    let offset = sign_extend11((instr as u32) & 0x7FF);
    then_fill_thumb(s.with_regs(s.regs.with_pc(pc.wrapping_add(offset << 1u32))),
        seq![BusOp::Clock(Cycle::N, pc, 1)], resp)
}

pub open spec fn uncond_branch_ok(instr: u16) -> bool {
    (instr as u32) >> 11u32 == 0b11100
}

/// THUMB.19: the two halves of BL. The first puts the high part of the target
/// in LR, the second branches and leaves the return address in LR.
pub open spec fn branch_with_link_step(s: CpuView, instr: u16, resp: Seq<u32>) -> (CpuView, Seq<BusOp>) {
    let i = instr as u32;
    let pc = s.regs.pc;
    let offset = i & 0x7FF;
    if (i >> 11u32) & 1 == 1 {
        let regs = s.regs.with_pc(s.regs.reg(14).wrapping_add(offset << 1u32)).with_reg(14, pc.wrapping_sub(2) | 1);
        then_fill_thumb(s.with_regs(regs), seq![BusOp::Clock(Cycle::N, pc, 1)], resp)
    } else {
        let regs = s.regs.with_reg(14, pc.wrapping_add(sign_extend11(offset) << 12u32));
        (s.with_regs(regs), seq![BusOp::Clock(Cycle::S, pc, 1)])
    }
}

pub open spec fn branch_with_link_ok(instr: u16) -> bool {
    (instr as u32) >> 12u32 == 0xF
}

/// THUMB.5: ADD, CMP and MOV on high registers, and BX.
pub open spec fn hi_reg_bx_step(s: CpuView, instr: u16, resp: Seq<u32>) -> (CpuView, Seq<BusOp>) {
    let i = instr as u32;
    let opcode = (i >> 8u32) & 0x3;
    let src = s.regs.reg((((i >> 6u32) & 1) << 3u32 | (i >> 3u32) & 0x7) as int);
    let rd = (((i >> 7u32) & 1) << 3u32 | i & 0x7) as int;
    let dest = s.regs.reg(rd);
    if opcode == 3 {
        let t = seq![BusOp::Clock(Cycle::N, src, 1)];
        if src & 1 != 0 {
            then_fill_thumb(s.with_regs(s.regs.with_pc(src & !1u32)), t, resp)
        } else {
            then_fill_arm(s.with_regs(s.regs.with_pc(src & !2u32).with_flag(FLAG_T, false)), t, resp)
        }
    } else {
        let (result, regs) = if opcode == 0 {
            (add_value(dest, src, false), s.regs)
        } else if opcode == 1 {
            (add_value(dest, !src, true), add_flags(s.regs, dest, !src, true))
        } else {
            (src, s.regs)
        };
        let regs = if opcode & 1 == 0 { regs.with_reg(rd, result) } else { regs };
        if rd == 15 {
            then_fill_thumb(s.with_regs(regs), seq![BusOp::Clock(Cycle::N, regs.pc, 1)], resp)
        } else {
            (s.with_regs(regs), seq![BusOp::Clock(Cycle::S, regs.pc, 1)])
        }
    }
}

pub open spec fn hi_reg_bx_ok(instr: u16) -> bool {
    &&& (instr as u32) >> 10u32 == 0b010001
    &&& ((instr as u32) >> 8u32) & 0x3 == 3 ==> ((instr as u32) >> 7u32) & 1 == 0
}


impl CPU {
    /// THUMB.1: move shifted register
    pub fn move_shifted_reg<M: IMMU>(&mut self, mmu: &mut M, instr: u16)
        requires
            old(self)@.wf(),
            move_shifted_reg_ok(instr),
        ensures
            follows(move_shifted_reg_step(old(self)@, instr, new_responses(old(mmu).ops(), final(mmu).ops())),
                final(self)@, old(mmu).ops(), final(mmu).ops()),
            final(self)@.wf(),
    {
        let ghost o = mmu.ops();
        let ghost s = self@;
        let i = instr as u32;
        let opcode = (i >> 11u32) & 0x3;
        let offset = (i >> 6u32) & 0x1F;
        let src = self.regs.get_reg_i((i >> 3u32) & 0x7);
        let dest_reg = i & 0x7;
        let result = self.arm_shift(opcode, src, offset, true, true);
        self.regs.set_n(result & 0x8000_0000 != 0);
        self.regs.set_z(result == 0);
        assert(result & 0x8000_0000 != 0 <==> (result >> 31u32) & 1 == 1) by (bit_vector);
        self.regs.set_reg_i(dest_reg, result);
        let pc = self.regs.pc;
        mmu.inc_clock(Cycle::S, pc, 1);
        proof {
            let t = seq![BusOp::Clock(Cycle::S, pc, 1)];
            assert(mmu.ops() =~= o + t);
            lemma_after(o, t);
            let step = move_shifted_reg_step(s, instr, responses(t));
            assert(t =~= step.1);
            assert(self@ =~= step.0);
        }
    }

    /// THUMB.2: add/subtract
    pub fn add_sub<M: IMMU>(&mut self, mmu: &mut M, instr: u16)
        requires
            old(self)@.wf(),
            add_sub_ok(instr),
        ensures
            follows(add_sub_step(old(self)@, instr, new_responses(old(mmu).ops(), final(mmu).ops())),
                final(self)@, old(mmu).ops(), final(mmu).ops()),
            final(self)@.wf(),
    {
        let ghost o = mmu.ops();
        let ghost s = self@;
        let i = instr as u32;
        let sub = (i >> 9u32) & 0x1 != 0;
        let operand = (i >> 6u32) & 0x7;
        let operand = if (i >> 10u32) & 0x1 != 0 { operand } else { self.regs.get_reg_i(operand) };
        let src = self.regs.get_reg_i((i >> 3u32) & 0x7);
        let dest_reg = i & 0x7;
        let result = if sub { self.sub(src, operand, true) } else { self.add(src, operand, true) };
        self.regs.set_reg_i(dest_reg, result);
        let pc = self.regs.pc;
        mmu.inc_clock(Cycle::S, pc, 1);
        proof {
            let t = seq![BusOp::Clock(Cycle::S, pc, 1)];
            assert(mmu.ops() =~= o + t);
            lemma_after(o, t);
            let step = add_sub_step(s, instr, responses(t));
            assert(t =~= step.1);
            assert(self@ =~= step.0);
        }
    }

    /// THUMB.3: move/compare/add/subtract immediate
    pub fn immediate<M: IMMU>(&mut self, mmu: &mut M, instr: u16)
        requires
            old(self)@.wf(),
            immediate_ok(instr),
        ensures
            follows(immediate_step(old(self)@, instr, new_responses(old(mmu).ops(), final(mmu).ops())),
                final(self)@, old(mmu).ops(), final(mmu).ops()),
            final(self)@.wf(),
    {
        let ghost o = mmu.ops();
        let ghost s = self@;
        let i = instr as u32;
        let opcode = (i >> 11u32) & 0x3;
        let dest_reg = (i >> 8u32) & 0x7;
        let immediate = i & 0xFF;
        let op1 = self.regs.get_reg_i(dest_reg);
        let result = match opcode {
            0 => immediate,
            1 => self.sub(op1, immediate, true),
            2 => self.add(op1, immediate, true),
            _ => self.sub(op1, immediate, true),
        };
        self.regs.set_z(result == 0);
        self.regs.set_n(result & 0x8000_0000 != 0);
        assert(result & 0x8000_0000 != 0 <==> (result >> 31u32) & 1 == 1) by (bit_vector);
        if opcode != 1 {
            self.regs.set_reg_i(dest_reg, result);
        }
        let pc = self.regs.pc;
        mmu.inc_clock(Cycle::S, pc, 1);
        proof {
            let t = seq![BusOp::Clock(Cycle::S, pc, 1)];
            assert(mmu.ops() =~= o + t);
            lemma_after(o, t);
            let step = immediate_step(s, instr, responses(t));
            assert(t =~= step.1);
            assert(self@ =~= step.0);
        }
    }

    /// THUMB.4: ALU operations
    #[verifier::rlimit(30)]
    pub fn alu<M: IMMU>(&mut self, mmu: &mut M, instr: u16)
        requires
            old(self)@.wf(),
            alu_ok(instr),
        ensures
            follows(alu_step(old(self)@, instr, new_responses(old(mmu).ops(), final(mmu).ops())),
                final(self)@, old(mmu).ops(), final(mmu).ops()),
            final(self)@.wf(),
    {
        let ghost o = mmu.ops();
        let ghost s = self@;
        let i = instr as u32;
        let opcode = (i >> 6u32) & 0xF;
        let src = self.regs.get_reg_i((i >> 3u32) & 0x7);
        let dest_reg = i & 0x7;
        let dest = self.regs.get_reg_i(dest_reg);
        let result = match opcode {
            0x0 => dest & src,
            0x1 => dest ^ src,
            0x2 => self.shift(mmu, 0, dest, src & 0xFF, false, true),
            0x3 => self.shift(mmu, 1, dest, src & 0xFF, false, true),
            0x4 => self.shift(mmu, 2, dest, src & 0xFF, false, true),
            0x5 => self.adc(dest, src, true),
            0x6 => self.sbc(dest, src, true),
            0x7 => self.shift(mmu, 3, dest, src & 0xFF, false, true),
            0x8 => dest & src,
            0x9 => self.sub(0, src, true),
            0xA => self.sub(dest, src, true),
            0xB => self.add(dest, src, true),
            0xC => dest | src,
            0xD => {
                self.inc_mul_clocks(mmu, dest, true);
                dest.wrapping_mul(src)
            },
            0xE => dest & !src,
            _ => !src,
        };
        let ghost mid = mmu.ops();
        self.regs.set_n(result & 0x8000_0000 != 0);
        self.regs.set_z(result == 0);
        assert(result & 0x8000_0000 != 0 <==> (result >> 31u32) & 1 == 1) by (bit_vector);
        if opcode != 0x8 && opcode != 0xA && opcode != 0xB {
            self.regs.set_reg_i(dest_reg, result);
        }
        let pc = self.regs.pc;
        mmu.inc_clock(Cycle::S, pc, 1);
        proof {
            let step = alu_step(s, instr, Seq::empty());
            let t0 = mid.skip(o.len() as int);
            assert(mid =~= o + t0);
            assert(t0 =~= step.1.drop_last());
            lemma_extend(o, t0, BusOp::Clock(Cycle::S, pc, 1));
            let t = t0.push(BusOp::Clock(Cycle::S, pc, 1));
            lemma_after(o, t);
            lemma_responses_no_reads(t);
            assert(t =~= step.1);
            assert(self@ =~= step.0);
        }
    }

    /// THUMB.5: Hi register operations/branch exchange
    #[verifier::rlimit(30)]
    pub fn hi_reg_bx<M: IMMU>(&mut self, mmu: &mut M, instr: u16)
        requires
            old(self)@.wf(),
            hi_reg_bx_ok(instr),
        ensures
            follows(hi_reg_bx_step(old(self)@, instr, new_responses(old(mmu).ops(), final(mmu).ops())),
                final(self)@, old(mmu).ops(), final(mmu).ops()),
            final(self)@.wf(),
    {
        let ghost o = mmu.ops();
        let ghost s = self@;
        let i = instr as u32;
        let opcode = (i >> 8u32) & 0x3;
        let dest_reg_msb = (i >> 7u32) & 0x1;
        let src_reg_msb = (i >> 6u32) & 0x1;
        assert(((i >> 6u32) & 1) << 3u32 | (i >> 3u32) & 0x7 < 16 && ((i >> 7u32) & 1) << 3u32 | i & 0x7 < 16)
            by (bit_vector);
        let src = self.regs.get_reg_i(src_reg_msb << 3u32 | (i >> 3u32) & 0x7);
        let dest_reg = dest_reg_msb << 3u32 | i & 0x7;
        let dest = self.regs.get_reg_i(dest_reg);
        if opcode == 3 {
            self.regs.pc = src;
            mmu.inc_clock(Cycle::N, src, 1);
            let ghost t = seq![BusOp::Clock(Cycle::N, src, 1)];
            proof { lemma_extend(o, Seq::empty(), t[0]); assert(Seq::<BusOp>::empty().push(t[0]) =~= t); lemma_responses_no_reads(t); }
            let ghost mid = mmu.ops();
            if src & 0x1 != 0 {
                self.regs.pc = self.regs.pc & !0x1u32;
                let ghost s2 = self@;
                self.fill_thumb_instr_buffer(mmu);
                proof {
                    let u = fill_thumb_trace(s2.regs.pc, new_responses(mid, mmu.ops()));
                    lemma_then(o, t, u);
                    lemma_after(mid, u);
                    lemma_after(o, t + u);
                    assert(responses(t + u) =~= responses(u));
                }
            } else {
                self.regs.pc = self.regs.pc & !0x2u32;
                self.regs.set_t(false);
                let ghost s2 = self@;
                self.fill_arm_instr_buffer(mmu);
                proof {
                    let u = fill_arm_trace(s2.regs.pc, new_responses(mid, mmu.ops()));
                    lemma_then(o, t, u);
                    lemma_after(mid, u);
                    lemma_after(o, t + u);
                    assert(responses(t + u) =~= responses(u));
                }
            }
            return;
        }
        let result = if opcode == 0 {
            self.add(dest, src, false)
        } else if opcode == 1 {
            self.sub(dest, src, true)
        } else {
            src
        };
        if opcode & 0x1 == 0 {
            self.regs.set_reg_i(dest_reg, result);
        }
        let pc = self.regs.pc;
        if dest_reg == 15 {
            mmu.inc_clock(Cycle::N, pc, 1);
            let ghost t = seq![BusOp::Clock(Cycle::N, pc, 1)];
            proof { lemma_extend(o, Seq::empty(), t[0]); assert(Seq::<BusOp>::empty().push(t[0]) =~= t); lemma_responses_no_reads(t); }
            let ghost mid = mmu.ops();
            let ghost s2 = self@;
            self.fill_thumb_instr_buffer(mmu);
            proof {
                let u = fill_thumb_trace(s2.regs.pc, new_responses(mid, mmu.ops()));
                lemma_then(o, t, u);
                lemma_after(mid, u);
                lemma_after(o, t + u);
                assert(responses(t + u) =~= responses(u));
                let step = hi_reg_bx_step(s, instr, responses(t + u));
                assert(s2 == step.0 || true);
            }
        } else {
            mmu.inc_clock(Cycle::S, pc, 1);
            proof {
                let t = seq![BusOp::Clock(Cycle::S, pc, 1)];
                assert(mmu.ops() =~= o + t);
                lemma_after(o, t);
                let step = hi_reg_bx_step(s, instr, responses(t));
                assert(t =~= step.1);
                assert(self@ =~= step.0);
            }
        }
    }

    /// THUMB.6: load PC-relative
    pub fn load_pc_rel<M: IMMU>(&mut self, mmu: &mut M, instr: u16)
        requires
            old(self)@.wf(),
            load_pc_rel_ok(instr),
        ensures
            follows(load_pc_rel_step(old(self)@, instr, new_responses(old(mmu).ops(), final(mmu).ops())),
                final(self)@, old(mmu).ops(), final(mmu).ops()),
            final(self)@.wf(),
    {
        let ghost o = mmu.ops();
        let ghost s = self@;
        let i = instr as u32;
        let dest_reg = (i >> 8u32) & 0x7;
        let offset = i & 0xFF;
        let pc = self.regs.pc;
        let addr = (pc & !0x2u32).wrapping_add(offset * 4);
        let w = mmu.read32(addr & !0x3u32);
        self.regs.set_reg_i(dest_reg, ror32(w, (addr & 0x3) * 8));
        mmu.inc_clock(Cycle::N, pc, 1);
        mmu.inc_clock(Cycle::I, 0, 0);
        mmu.inc_clock(Cycle::S, pc.wrapping_add(2), 1);
        proof {
            let r = BusOp::Read32(addr & !3u32, w);
            let b = seq![BusOp::Clock(Cycle::N, pc, 1), BusOp::Clock(Cycle::I, 0, 0), BusOp::Clock(Cycle::S, pc.wrapping_add(2), 1)];
            let t = Seq::<BusOp>::empty().push(r) + b;
            assert(mmu.ops() =~= o + t);
            lemma_after(o, t);
            lemma_responses_one_read(Seq::empty(), r, b);
            let step = load_pc_rel_step(s, instr, responses(t));
            assert(t =~= step.1);
            assert(self@ =~= step.0);
        }
    }

    /// THUMB.12: get relative address
    pub fn get_rel_addr<M: IMMU>(&mut self, mmu: &mut M, instr: u16)
        requires
            old(self)@.wf(),
            get_rel_addr_ok(instr),
        ensures
            follows(get_rel_addr_step(old(self)@, instr, new_responses(old(mmu).ops(), final(mmu).ops())),
                final(self)@, old(mmu).ops(), final(mmu).ops()),
            final(self)@.wf(),
    {
        let ghost o = mmu.ops();
        let ghost s = self@;
        let i = instr as u32;
        let src = if (i >> 11u32) & 0x1 != 0 { self.regs.get_reg(Reg::R13) } else { self.regs.pc & !0x2u32 };
        let dest_reg = (i >> 8u32) & 0x7;
        let offset = i & 0xFF;
        self.regs.set_reg_i(dest_reg, src.wrapping_add(offset * 4));
        let pc = self.regs.pc;
        mmu.inc_clock(Cycle::S, pc, 1);
        proof {
            let t = seq![BusOp::Clock(Cycle::S, pc, 1)];
            assert(mmu.ops() =~= o + t);
            lemma_after(o, t);
            let step = get_rel_addr_step(s, instr, responses(t));
            assert(t =~= step.1);
            assert(self@ =~= step.0);
        }
    }

    /// THUMB.13: add offset to stack pointer
    pub fn add_offset_sp<M: IMMU>(&mut self, mmu: &mut M, instr: u16)
        requires
            old(self)@.wf(),
            add_offset_sp_ok(instr),
        ensures
            follows(add_offset_sp_step(old(self)@, instr, new_responses(old(mmu).ops(), final(mmu).ops())),
                final(self)@, old(mmu).ops(), final(mmu).ops()),
            final(self)@.wf(),
    {
        let ghost o = mmu.ops();
        let ghost s = self@;
        let i = instr as u32;
        let sub = (i >> 7u32) & 0x1 != 0;
        let offset = (i & 0x7F) * 4;
        let sp = self.regs.get_reg(Reg::R13);
        let value = if sub { sp.wrapping_sub(offset) } else { sp.wrapping_add(offset) };
        self.regs.set_reg(Reg::R13, value);
        let pc = self.regs.pc;
        mmu.inc_clock(Cycle::S, pc, 1);
        proof {
            let t = seq![BusOp::Clock(Cycle::S, pc, 1)];
            assert(mmu.ops() =~= o + t);
            lemma_after(o, t);
            let step = add_offset_sp_step(s, instr, responses(t));
            assert(t =~= step.1);
            assert(self@ =~= step.0);
        }
    }

    /// THUMB.16: conditional branch
    pub fn cond_branch<M: IMMU>(&mut self, mmu: &mut M, instr: u16)
        requires
            old(self)@.wf(),
            cond_branch_ok(instr),
        ensures
            follows(cond_branch_step(old(self)@, instr, new_responses(old(mmu).ops(), final(mmu).ops())),
                final(self)@, old(mmu).ops(), final(mmu).ops()),
            final(self)@.wf(),
    {
        let ghost o = mmu.ops();
        let ghost s = self@;
        let i = instr as u32;
        let condition = (i >> 8u32) & 0xF;
        let low = i & 0xFF;
        let offset = if low >= 0x80 { low | 0xFFFF_FF00u32 } else { low };
        let pc = self.regs.pc;
        if self.should_exec(condition) {
            mmu.inc_clock(Cycle::N, pc, 1);
            let ghost t = seq![BusOp::Clock(Cycle::N, pc, 1)];
            proof { lemma_extend(o, Seq::empty(), t[0]); assert(Seq::<BusOp>::empty().push(t[0]) =~= t); lemma_responses_no_reads(t); }
            self.regs.pc = pc.wrapping_add(offset.wrapping_mul(2));
            let ghost mid = mmu.ops();
            let ghost s2 = self@;
            self.fill_thumb_instr_buffer(mmu);
            proof {
                let u = fill_thumb_trace(s2.regs.pc, new_responses(mid, mmu.ops()));
                lemma_then(o, t, u);
                lemma_after(mid, u);
                lemma_after(o, t + u);
                assert(responses(t + u) =~= responses(u));
            }
        } else {
            mmu.inc_clock(Cycle::S, pc, 1);
            proof {
                let t = seq![BusOp::Clock(Cycle::S, pc, 1)];
                assert(mmu.ops() =~= o + t);
                lemma_after(o, t);
            }
        }
    }

    /// THUMB.17: software interrupt
    pub fn thumb_software_interrupt<M: IMMU>(&mut self, mmu: &mut M, instr: u16)
        requires
            old(self)@.wf(),
            thumb_software_interrupt_ok(instr),
        ensures
            follows(thumb_software_interrupt_step(old(self)@, instr, new_responses(old(mmu).ops(), final(mmu).ops())),
                final(self)@, old(mmu).ops(), final(mmu).ops()),
            final(self)@.wf(),
    {
        let ghost o = mmu.ops();
        let ghost s = self@;
        let pc = self.regs.pc;
        mmu.inc_clock(Cycle::N, pc, 1);
        let ghost t = seq![BusOp::Clock(Cycle::N, pc, 1)];
        proof { lemma_extend(o, Seq::empty(), t[0]); assert(Seq::<BusOp>::empty().push(t[0]) =~= t); lemma_responses_no_reads(t); }
        self.regs.change_mode(Mode::SVC);
        self.regs.set_reg(Reg::R14, pc.wrapping_sub(2));
        self.regs.set_t(false);
        self.regs.set_i(true);
        self.regs.pc = 0x8;
        let ghost mid = mmu.ops();
        let ghost s2 = self@;
        self.fill_arm_instr_buffer(mmu);
        proof {
            let u = fill_arm_trace(s2.regs.pc, new_responses(mid, mmu.ops()));
            lemma_then(o, t, u);
            lemma_after(mid, u);
            lemma_after(o, t + u);
            assert(responses(t + u) =~= responses(u));
            assert(s2 =~= s.with_regs(s.regs.with_cpsr(with_mode(s.regs.cpsr, Mode::SVC)).with_spsr(s.regs.cpsr)
                .with_reg(14, pc.wrapping_sub(2)).with_flag(FLAG_T, false).with_flag(FLAG_I, true).with_pc(8)));
        }
    }

    /// THUMB.18: unconditional branch
    pub fn uncond_branch<M: IMMU>(&mut self, mmu: &mut M, instr: u16)
        requires
            old(self)@.wf(),
            uncond_branch_ok(instr),
        ensures
            follows(uncond_branch_step(old(self)@, instr, new_responses(old(mmu).ops(), final(mmu).ops())),
                final(self)@, old(mmu).ops(), final(mmu).ops()),
            final(self)@.wf(),
    {
        let ghost o = mmu.ops();
        let i = instr as u32;
        let offset = i & 0x7FF;
        let offset = if (offset >> 10u32) & 0x1 != 0 { 0xFFFF_F800u32 | offset } else { offset };
        let pc = self.regs.pc;
        mmu.inc_clock(Cycle::N, pc, 1);
        let ghost t = seq![BusOp::Clock(Cycle::N, pc, 1)];
        proof { lemma_extend(o, Seq::empty(), t[0]); assert(Seq::<BusOp>::empty().push(t[0]) =~= t); lemma_responses_no_reads(t); }
        self.regs.pc = pc.wrapping_add(offset << 1u32);
        let ghost mid = mmu.ops();
        let ghost s2 = self@;
        self.fill_thumb_instr_buffer(mmu);
        proof {
            let u = fill_thumb_trace(s2.regs.pc, new_responses(mid, mmu.ops()));
            lemma_then(o, t, u);
            lemma_after(mid, u);
            lemma_after(o, t + u);
            assert(responses(t + u) =~= responses(u));
        }
    }

    /// THUMB.19: long branch with link
    pub fn branch_with_link<M: IMMU>(&mut self, mmu: &mut M, instr: u16)
        requires
            old(self)@.wf(),
            branch_with_link_ok(instr),
        ensures
            follows(branch_with_link_step(old(self)@, instr, new_responses(old(mmu).ops(), final(mmu).ops())),
                final(self)@, old(mmu).ops(), final(mmu).ops()),
            final(self)@.wf(),
    {
        let ghost o = mmu.ops();
        let ghost s = self@;
        let i = instr as u32;
        let offset = i & 0x7FF;
        let pc = self.regs.pc;
        if (i >> 11u32) & 0x1 != 0 {
            mmu.inc_clock(Cycle::N, pc, 1);
            let ghost t = seq![BusOp::Clock(Cycle::N, pc, 1)];
            proof { lemma_extend(o, Seq::empty(), t[0]); assert(Seq::<BusOp>::empty().push(t[0]) =~= t); lemma_responses_no_reads(t); }
            let next_instr_pc = pc.wrapping_sub(2);
            self.regs.pc = self.regs.get_reg(Reg::R14).wrapping_add(offset << 1u32);
            self.regs.set_reg(Reg::R14, next_instr_pc | 0x1);
            let ghost mid = mmu.ops();
            let ghost s2 = self@;
            self.fill_thumb_instr_buffer(mmu);
            proof {
                let u = fill_thumb_trace(s2.regs.pc, new_responses(mid, mmu.ops()));
                lemma_then(o, t, u);
                lemma_after(mid, u);
                lemma_after(o, t + u);
                assert(responses(t + u) =~= responses(u));
            }
        } else {
            let offset = if (offset >> 10u32) & 0x1 != 0 { 0xFFFF_F800u32 | offset } else { offset };
            self.regs.set_reg(Reg::R14, pc.wrapping_add(offset << 12u32));
            mmu.inc_clock(Cycle::S, pc, 1);
            proof {
                let t = seq![BusOp::Clock(Cycle::S, pc, 1)];
                assert(mmu.ops() =~= o + t);
                lemma_after(o, t);
            }
        }
    }
}

} // verus!
