//! The THUMB loads and stores of single registers (THUMB.7 to THUMB.11).
use vstd::prelude::*;
use crate::bus::{BusOp, Cycle, IMMU, new_responses, responses, lemma_after, lemma_responses_no_reads,
    lemma_responses_one_read};
use super::alu::{ror, ror32};
use super::arm::{rotate_loaded, sign_extend8, sign_extend16};
use super::registers::Reg;
use super::processor::{CPU, CpuView, follows};

verus! {

broadcast use super::alu::group_masks;

/// The cycles of a THUMB load before its read: the non-sequential cycle, an
/// internal cycle and the fetch of the next instruction.
pub open spec fn load_clocks(pc: u32) -> Seq<BusOp> {
    seq![BusOp::Clock(Cycle::N, pc, 1), BusOp::Clock(Cycle::I, 0, 0), BusOp::Clock(Cycle::S, pc.wrapping_add(2), 1)]
}

/// The read of LDR or LDRB at `addr`, and the value it loads.
pub open spec fn word_or_byte_load(byte: bool, addr: u32, v: u32) -> (BusOp, u32) {
    if byte {
        (BusOp::Read8(addr, v as u8), (v as u8) as u32)
    } else {
        (BusOp::Read32(addr & !3u32, v), rotate_loaded(v, addr))
    }
}

/// THUMB.7: LDR, LDRB, STR and STRB with a register offset.
pub open spec fn load_store_reg_offset_step(s: CpuView, instr: u16, resp: Seq<u32>) -> (CpuView, Seq<BusOp>) {
    let i = instr as u32;
    let opcode = (i >> 10u32) & 0x3;
    let addr = s.regs.reg(((i >> 3u32) & 0x7) as int).wrapping_add(s.regs.reg(((i >> 6u32) & 0x7) as int));
    let rd = (i & 0x7) as int;
    let pc = s.regs.pc;
    if opcode & 2 != 0 {
        let (read, value) = word_or_byte_load(opcode & 1 != 0, addr, resp[0]);
        (s.with_regs(s.regs.with_reg(rd, value)), load_clocks(pc).push(read))
    } else {
        let v = s.regs.reg(rd);
        let t = if opcode & 1 != 0 {
            seq![BusOp::Write8(addr, v as u8), BusOp::Clock(Cycle::N, addr, 1)]
        } else {
            seq![BusOp::Write32(addr & !3u32, v), BusOp::Clock(Cycle::N, addr, 0)]
        };
        (s, seq![BusOp::Clock(Cycle::N, pc, 1)] + t)
    }
}

pub open spec fn load_store_reg_offset_ok(instr: u16) -> bool {
    (instr as u32) >> 12u32 == 0b0101 && ((instr as u32) >> 9u32) & 1 == 0
}

/// The read of LDSB (opcode 1), LDRH (2) and LDSH (3) at `addr`, and the
/// value it loads; LDSH of an odd address loads a sign extended byte.
pub open spec fn sign_ext_load(opcode: u32, addr: u32, v: u32) -> (BusOp, u32) {
    if opcode == 1 || addr & 1 == 1 && opcode == 3 {
        (BusOp::Read8(addr, v as u8), sign_extend8(v as u8))
    } else if opcode == 2 {
        (BusOp::Read16(addr & !1u32, v as u16), ror((v as u16) as u32, ((addr & 1) * 8) as u32))
    } else {
        (BusOp::Read16(addr, v as u16), sign_extend16(v as u16))
    }
}

/// THUMB.8: STRH, LDSB, LDRH and LDSH with a register offset.
pub open spec fn load_store_sign_ext_step(s: CpuView, instr: u16, resp: Seq<u32>) -> (CpuView, Seq<BusOp>) {
    let i = instr as u32;
    let opcode = (i >> 10u32) & 0x3;
    let addr = s.regs.reg(((i >> 3u32) & 0x7) as int).wrapping_add(s.regs.reg(((i >> 6u32) & 0x7) as int));
    let rd = (i & 0x7) as int;
    let pc = s.regs.pc;
    if opcode == 0 {
        (s, seq![
            BusOp::Clock(Cycle::N, pc, 1),
            BusOp::Clock(Cycle::N, addr, 1),
            BusOp::Write16(addr & !1u32, s.regs.reg(rd) as u16),
        ])
    } else {
        let (read, value) = sign_ext_load(opcode, addr, resp[0]);
        (s.with_regs(s.regs.with_reg(rd, value)), load_clocks(pc).push(read))
    }
}

pub open spec fn load_store_sign_ext_ok(instr: u16) -> bool {
    (instr as u32) >> 12u32 == 0b0101 && ((instr as u32) >> 9u32) & 1 == 1
}

/// THUMB.9: LDR, LDRB, STR and STRB with a 5-bit immediate offset (in words
/// for LDR and STR).
pub open spec fn load_store_imm_offset_step(s: CpuView, instr: u16, resp: Seq<u32>) -> (CpuView, Seq<BusOp>) {
    let i = instr as u32;
    let load = (i >> 11u32) & 1 == 1;
    let byte = (i >> 12u32) & 1 == 1;
    let offset = (i >> 6u32) & 0x1F;
    let base = s.regs.reg(((i >> 3u32) & 0x7) as int);
    let rd = (i & 0x7) as int;
    let pc = s.regs.pc;
    let addr = if byte { base.wrapping_add(offset) } else { base.wrapping_add(offset << 2u32) };
    if load {
        let (read, value) = word_or_byte_load(byte, addr, resp[0]);
        (s.with_regs(s.regs.with_reg(rd, value)), load_clocks(pc).push(read))
    } else {
        let v = s.regs.reg(rd);
        let write = if byte { BusOp::Write8(addr, v as u8) } else { BusOp::Write32(addr & !3u32, v) };
        (s, seq![BusOp::Clock(Cycle::N, pc, 1), write, BusOp::Clock(Cycle::N, addr, 1)])
    }
}

pub open spec fn load_store_imm_offset_ok(instr: u16) -> bool {
    (instr as u32) >> 13u32 == 0b011
}

/// THUMB.10: LDRH and STRH with a 5-bit immediate offset in halfwords.
pub open spec fn load_store_halfword_step(s: CpuView, instr: u16, resp: Seq<u32>) -> (CpuView, Seq<BusOp>) {
    let i = instr as u32;
    let offset = (i >> 6u32) & 0x1F;
    let addr = s.regs.reg(((i >> 3u32) & 0x7) as int).wrapping_add((offset * 2) as u32);
    let rd = (i & 0x7) as int;
    let pc = s.regs.pc;
    if (i >> 11u32) & 1 == 1 {
        let v = resp[0] as u16;
        let read = BusOp::Read16(addr & !1u32, v);
        (s.with_regs(s.regs.with_reg(rd, ror(v as u32, ((addr & 1) * 8) as u32))), load_clocks(pc).push(read))
    } else {
        (s, seq![
            BusOp::Clock(Cycle::N, pc, 1),
            BusOp::Clock(Cycle::N, addr & 1, 1),
            BusOp::Write16(addr & !1u32, s.regs.reg(rd) as u16),
        ])
    }
}

pub open spec fn load_store_halfword_ok(instr: u16) -> bool {
    (instr as u32) >> 12u32 == 0b1000
}

/// THUMB.11: LDR and STR relative to the stack pointer. The load reads before
/// the fetch of the next instruction.
pub open spec fn load_store_sp_rel_step(s: CpuView, instr: u16, resp: Seq<u32>) -> (CpuView, Seq<BusOp>) {
    let i = instr as u32;
    let rd = ((i >> 8u32) & 0x7) as int;
    let addr = s.regs.reg(13).wrapping_add(((i & 0xFF) * 4) as u32);
    let pc = s.regs.pc;
    if (i >> 11u32) & 1 == 1 {
        (s.with_regs(s.regs.with_reg(rd, rotate_loaded(resp[0], addr))), seq![
            BusOp::Clock(Cycle::N, pc, 1),
            BusOp::Clock(Cycle::I, 0, 0),
            BusOp::Read32(addr & !3u32, resp[0]),
            BusOp::Clock(Cycle::S, pc.wrapping_add(2), 1),
        ])
    } else {
        (s, seq![
            BusOp::Clock(Cycle::N, pc, 1),
            BusOp::Clock(Cycle::N, addr, 2),
            BusOp::Write32(addr & !3u32, s.regs.reg(rd)),
        ])
    }
}

pub open spec fn load_store_sp_rel_ok(instr: u16) -> bool {
    ((instr as u32) >> 12u32) & 0xF == 0b1001
}

/// The 8-bit value `v` sign extended.
fn sign_extend_byte(v: u8) -> (r: u32)
    ensures
        r == sign_extend8(v),
{
    if v >= 0x80 { (v as u32) | 0xFFFF_FF00u32 } else { v as u32 }
}

/// The 16-bit value `v` sign extended.
fn sign_extend_half(v: u16) -> (r: u32)
    ensures
        r == sign_extend16(v),
{
    if v >= 0x8000 { (v as u32) | 0xFFFF_0000u32 } else { v as u32 }
}

impl CPU {
    /// THUMB.7: load/store with register offset
    pub fn load_store_reg_offset<M: IMMU>(&mut self, mmu: &mut M, instr: u16)
        requires
            old(self)@.wf(),
            load_store_reg_offset_ok(instr),
        ensures
            follows(load_store_reg_offset_step(old(self)@, instr, new_responses(old(mmu).ops(), final(mmu).ops())),
                final(self)@, old(mmu).ops(), final(mmu).ops()),
            final(self)@.wf(),
    {
        let ghost o = mmu.ops();
        let ghost s = self@;
        let i = instr as u32;
        let opcode = (i >> 10u32) & 0x3;
        let offset_reg = (i >> 6u32) & 0x7;
        let base_reg = (i >> 3u32) & 0x7;
        let addr = self.regs.get_reg_i(base_reg).wrapping_add(self.regs.get_reg_i(offset_reg));
        let src_dest_reg = i & 0x7;
        let pc = self.regs.pc;
        mmu.inc_clock(Cycle::N, pc, 1);
        if opcode & 0b10 != 0 {
            mmu.inc_clock(Cycle::I, 0, 0);
            mmu.inc_clock(Cycle::S, pc.wrapping_add(2), 1);
            let ghost mut read = BusOp::Clock(Cycle::I, 0, 0);
            let value = if opcode & 0b01 != 0 {
                let v = mmu.read8(addr);
                proof { read = BusOp::Read8(addr, v); }
                v as u32
            } else {
                let w = mmu.read32(addr & !0x3u32);
                proof { read = BusOp::Read32(addr & !3u32, w); }
                ror32(w, (addr & 0x3) * 8)
            };
            self.regs.set_reg_i(src_dest_reg, value);
            proof {
                let a = load_clocks(pc);
                let t = a.push(read);
                assert(mmu.ops() =~= o + t);
                lemma_after(o, t);
                lemma_responses_one_read(a, read, Seq::empty());
                assert(a.push(read) + Seq::<BusOp>::empty() =~= t);
                let step = load_store_reg_offset_step(s, instr, responses(t));
                assert(t =~= step.1);
                assert(self@ =~= step.0);
            }
        } else {
            let value = self.regs.get_reg_i(src_dest_reg);
            if opcode & 0b01 != 0 {
                mmu.write8(addr, value as u8);
                mmu.inc_clock(Cycle::N, addr, 1);
            } else {
                mmu.write32(addr & !0x3u32, value);
                mmu.inc_clock(Cycle::N, addr, 0);
            }
            proof {
                let t = mmu.ops().skip(o.len() as int);
                assert(mmu.ops() =~= o + t);
                lemma_after(o, t);
                lemma_responses_no_reads(t);
                let step = load_store_reg_offset_step(s, instr, responses(t));
                assert(t =~= step.1);
                assert(self@ =~= step.0);
            }
        }
    }

    /// THUMB.8: load/store sign-extended byte/halfword
    pub fn load_store_sign_ext<M: IMMU>(&mut self, mmu: &mut M, instr: u16)
        requires
            old(self)@.wf(),
            load_store_sign_ext_ok(instr),
        ensures
            follows(load_store_sign_ext_step(old(self)@, instr, new_responses(old(mmu).ops(), final(mmu).ops())),
                final(self)@, old(mmu).ops(), final(mmu).ops()),
            final(self)@.wf(),
    {
        let ghost o = mmu.ops();
        let ghost s = self@;
        let i = instr as u32;
        let opcode = (i >> 10u32) & 0x3;
        let offset_reg = (i >> 6u32) & 0x7;
        let base_reg = (i >> 3u32) & 0x7;
        let src_dest_reg = i & 0x7;
        let addr = self.regs.get_reg_i(base_reg).wrapping_add(self.regs.get_reg_i(offset_reg));
        let pc = self.regs.pc;
        mmu.inc_clock(Cycle::N, pc, 1);
        if opcode == 0 {
            mmu.inc_clock(Cycle::N, addr, 1);
            let value = self.regs.get_reg_i(src_dest_reg);
            mmu.write16(addr & !0x1u32, value as u16);
            proof {
                let t = mmu.ops().skip(o.len() as int);
                assert(mmu.ops() =~= o + t);
                lemma_after(o, t);
                lemma_responses_no_reads(t);
                let step = load_store_sign_ext_step(s, instr, responses(t));
                assert(t =~= step.1);
                assert(self@ =~= step.0);
            }
        } else {
            mmu.inc_clock(Cycle::I, 0, 0);
            mmu.inc_clock(Cycle::S, pc.wrapping_add(2), 1);
            let ghost mut read = BusOp::Clock(Cycle::I, 0, 0);
            let value = if opcode == 1 || addr & 0x1 == 1 && opcode == 3 {
                let v = mmu.read8(addr);
                proof { read = BusOp::Read8(addr, v); }
                sign_extend_byte(v)
            } else if opcode == 2 {
                let v = mmu.read16(addr & !0x1u32);
                proof { read = BusOp::Read16(addr & !1u32, v); }
                ror32(v as u32, (addr & 0x1) * 8)
            } else {
                let v = mmu.read16(addr);
                proof { read = BusOp::Read16(addr, v); }
                sign_extend_half(v)
            };
            self.regs.set_reg_i(src_dest_reg, value);
            proof {
                let a = load_clocks(pc);
                let t = a.push(read);
                assert(mmu.ops() =~= o + t);
                lemma_after(o, t);
                lemma_responses_one_read(a, read, Seq::empty());
                assert(a.push(read) + Seq::<BusOp>::empty() =~= t);
                let step = load_store_sign_ext_step(s, instr, responses(t));
                assert(t =~= step.1);
                assert(self@ =~= step.0);
            }
        }
    }

    /// THUMB.9: load/store with immediate offset
    pub fn load_store_imm_offset<M: IMMU>(&mut self, mmu: &mut M, instr: u16)
        requires
            old(self)@.wf(),
            load_store_imm_offset_ok(instr),
        ensures
            follows(load_store_imm_offset_step(old(self)@, instr, new_responses(old(mmu).ops(), final(mmu).ops())),
                final(self)@, old(mmu).ops(), final(mmu).ops()),
            final(self)@.wf(),
    {
        let ghost o = mmu.ops();
        let ghost s = self@;
        let i = instr as u32;
        let load = (i >> 11u32) & 0x1 != 0;
        let byte = (i >> 12u32) & 0x1 != 0;
        let offset = (i >> 6u32) & 0x1F;
        let base = self.regs.get_reg_i((i >> 3u32) & 0x7);
        let src_dest_reg = i & 0x7;
        let addr = if byte { base.wrapping_add(offset) } else { base.wrapping_add(offset << 2u32) };
        let pc = self.regs.pc;
        mmu.inc_clock(Cycle::N, pc, 1);
        if load {
            mmu.inc_clock(Cycle::I, 0, 0);
            mmu.inc_clock(Cycle::S, pc.wrapping_add(2), 1);
            let ghost mut read = BusOp::Clock(Cycle::I, 0, 0);
            let value = if byte {
                let v = mmu.read8(addr);
                proof { read = BusOp::Read8(addr, v); }
                v as u32
            } else {
                let w = mmu.read32(addr & !0x3u32);
                proof { read = BusOp::Read32(addr & !3u32, w); }
                ror32(w, (addr & 0x3) * 8)
            };
            self.regs.set_reg_i(src_dest_reg, value);
            proof {
                let a = load_clocks(pc);
                let t = a.push(read);
                assert(mmu.ops() =~= o + t);
                lemma_after(o, t);
                lemma_responses_one_read(a, read, Seq::empty());
                assert(a.push(read) + Seq::<BusOp>::empty() =~= t);
                let step = load_store_imm_offset_step(s, instr, responses(t));
                assert(t =~= step.1);
                assert(self@ =~= step.0);
            }
        } else {
            let value = self.regs.get_reg_i(src_dest_reg);
            if byte {
                mmu.write8(addr, value as u8);
            } else {
                mmu.write32(addr & !0x3u32, value);
            }
            mmu.inc_clock(Cycle::N, addr, 1);
            proof {
                let t = mmu.ops().skip(o.len() as int);
                assert(mmu.ops() =~= o + t);
                lemma_after(o, t);
                lemma_responses_no_reads(t);
                let step = load_store_imm_offset_step(s, instr, responses(t));
                assert(t =~= step.1);
                assert(self@ =~= step.0);
            }
        }
    }

    /// THUMB.10: load/store halfword
    pub fn load_store_halfword<M: IMMU>(&mut self, mmu: &mut M, instr: u16)
        requires
            old(self)@.wf(),
            load_store_halfword_ok(instr),
        ensures
            follows(load_store_halfword_step(old(self)@, instr, new_responses(old(mmu).ops(), final(mmu).ops())),
                final(self)@, old(mmu).ops(), final(mmu).ops()),
            final(self)@.wf(),
    {
        let ghost o = mmu.ops();
        let ghost s = self@;
        let i = instr as u32;
        let load = (i >> 11u32) & 0x1 != 0;
        let offset = (i >> 6u32) & 0x1F;
        let base = self.regs.get_reg_i((i >> 3u32) & 0x7);
        let src_dest_reg = i & 0x7;
        let addr = base.wrapping_add(offset * 2);
        let pc = self.regs.pc;
        mmu.inc_clock(Cycle::N, pc, 1);
        if load {
            mmu.inc_clock(Cycle::I, 0, 0);
            mmu.inc_clock(Cycle::S, pc.wrapping_add(2), 1);
            let v = mmu.read16(addr & !0x1u32);
            self.regs.set_reg_i(src_dest_reg, ror32(v as u32, (addr & 0x1) * 8));
            proof {
                let read = BusOp::Read16(addr & !1u32, v);
                let a = load_clocks(pc);
                let t = a.push(read);
                assert(mmu.ops() =~= o + t);
                lemma_after(o, t);
                lemma_responses_one_read(a, read, Seq::empty());
                assert(a.push(read) + Seq::<BusOp>::empty() =~= t);
                let step = load_store_halfword_step(s, instr, responses(t));
                assert(t =~= step.1);
                assert(self@ =~= step.0);
            }
        } else {
            mmu.inc_clock(Cycle::N, addr & 0x1, 1);
            let value = self.regs.get_reg_i(src_dest_reg);
            mmu.write16(addr & !0x1u32, value as u16);
            proof {
                let t = mmu.ops().skip(o.len() as int);
                assert(mmu.ops() =~= o + t);
                lemma_after(o, t);
                lemma_responses_no_reads(t);
                let step = load_store_halfword_step(s, instr, responses(t));
                assert(t =~= step.1);
                assert(self@ =~= step.0);
            }
        }
    }

    /// THUMB.11: load/store SP-relative
    pub fn load_store_sp_rel<M: IMMU>(&mut self, mmu: &mut M, instr: u16)
        requires
            old(self)@.wf(),
            load_store_sp_rel_ok(instr),
        ensures
            follows(load_store_sp_rel_step(old(self)@, instr, new_responses(old(mmu).ops(), final(mmu).ops())),
                final(self)@, old(mmu).ops(), final(mmu).ops()),
            final(self)@.wf(),
    {
        let ghost o = mmu.ops();
        let ghost s = self@;
        let i = instr as u32;
        let load = (i >> 11u32) & 0x1 != 0;
        let src_dest_reg = (i >> 8u32) & 0x7;
        let offset = (i & 0xFF) * 4;
        let addr = self.regs.get_reg(Reg::R13).wrapping_add(offset);
        let pc = self.regs.pc;
        mmu.inc_clock(Cycle::N, pc, 1);
        if load {
            mmu.inc_clock(Cycle::I, 0, 0);
            let w = mmu.read32(addr & !0x3u32);
            self.regs.set_reg_i(src_dest_reg, ror32(w, (addr & 0x3) * 8));
            mmu.inc_clock(Cycle::S, pc.wrapping_add(2), 1);
            proof {
                let read = BusOp::Read32(addr & !3u32, w);
                let a = seq![BusOp::Clock(Cycle::N, pc, 1), BusOp::Clock(Cycle::I, 0, 0)];
                let b = seq![BusOp::Clock(Cycle::S, pc.wrapping_add(2), 1)];
                let t = a.push(read) + b;
                assert(mmu.ops() =~= o + t);
                lemma_after(o, t);
                lemma_responses_one_read(a, read, b);
                let step = load_store_sp_rel_step(s, instr, responses(t));
                assert(t =~= step.1);
                assert(self@ =~= step.0);
            }
        } else {
            mmu.inc_clock(Cycle::N, addr, 2);
            let value = self.regs.get_reg_i(src_dest_reg);
            mmu.write32(addr & !0x3u32, value);
            proof {
                let t = mmu.ops().skip(o.len() as int);
                assert(mmu.ops() =~= o + t);
                lemma_after(o, t);
                lemma_responses_no_reads(t);
                let step = load_store_sp_rel_step(s, instr, responses(t));
                assert(t =~= step.1);
                assert(self@ =~= step.0);
            }
        }
    }
}

} // verus!
