//! The processor state and the operations that instructions share: condition
//! checks, the shifter, the adder and the refilling of the prefetch buffer.
use vstd::prelude::*;
use crate::bus::{
    BusOp, Cycle, IMMU, idle_cycles, new_responses, responses, lemma_after, lemma_extend,
    lemma_responses_empty,
};
use super::registers::{RegValues, RegsView, FLAG_N, FLAG_Z, FLAG_C, FLAG_V};
use super::alu::{
    add_carry, add_overflow, add_value, add_with_carry, barrel_shift, bit, condition_holds,
    shift_carry, shift_sets_carry, shift_value,
};

verus! {

/// The abstract state of the processor: its registers and the two prefetched
/// instructions.
#[verifier::ext_equal]
pub struct CpuView {
    pub regs: RegsView,
    pub buffer: Seq<u32>,
}

impl CpuView {
    pub open spec fn wf(self) -> bool {
        self.regs.wf() && self.buffer.len() == 2
    }

    pub open spec fn with_regs(self, regs: RegsView) -> CpuView {
        CpuView { regs, ..self }
    }

    pub open spec fn condition(self, cond: u32) -> bool {
        condition_holds(
            cond,
            self.regs.flag(FLAG_N),
            self.regs.flag(FLAG_Z),
            self.regs.flag(FLAG_C),
            self.regs.flag(FLAG_V),
        )
    }
}

/// The ARM7TDMI processor.
pub struct CPU {
    pub regs: RegValues,
    pub instr_buffer: [u32; 2],
}

impl View for CPU {
    type V = CpuView;

    open spec fn view(&self) -> CpuView {
        CpuView { regs: self.regs@, buffer: self.instr_buffer@ }
    }
}

impl RegsView {
    /// The flags after an arithmetic operation set them, in the order the
    /// adder writes them.
    pub open spec fn with_nzcv(self, n: bool, z: bool, c: bool, v: bool) -> RegsView {
        self.with_flag(FLAG_C, c).with_flag(FLAG_V, v).with_flag(FLAG_Z, z).with_flag(FLAG_N, n)
    }

    pub open spec fn with_nz(self, n: bool, z: bool) -> RegsView {
        self.with_flag(FLAG_Z, z).with_flag(FLAG_N, n)
    }
}

/// The registers after an add of `a`, `b` and carry `c`, when it sets flags.
pub open spec fn add_flags(r: RegsView, a: u32, b: u32, c: bool) -> RegsView {
    let value = add_value(a, b, c);
    r.with_nzcv(bit(value, 31), value == 0, add_carry(a, b, c), add_overflow(a, b, c))
}

/// The registers after the barrel shifter ran.
pub open spec fn shift_regs(r: RegsView, ty: u32, x: u32, n: u32, imm: bool, change_status: bool) -> RegsView {
    if change_status && shift_sets_carry(ty, n, imm) {
        r.with_flag(FLAG_C, shift_carry(ty, x, n, imm))
    } else {
        r
    }
}

/// The bus operations of refilling the prefetch buffer with ARM instructions
/// at `pc`, given the words read.
pub open spec fn fill_arm_trace(pc: u32, resp: Seq<u32>) -> Seq<BusOp> {
    let a0 = pc & !3u32;
    let a1 = pc.wrapping_add(4) & !3u32;
    seq![
        BusOp::Read32(a0, resp[0]),
        BusOp::Clock(Cycle::S, a0, 2),
        BusOp::Read32(a1, resp[1]),
        BusOp::Clock(Cycle::S, a1, 2),
    ]
}

/// The processor after refilling the prefetch buffer with ARM instructions.
pub open spec fn fill_arm_state(s: CpuView, resp: Seq<u32>) -> CpuView {
    CpuView { regs: s.regs.with_pc(s.regs.pc.wrapping_add(4)), buffer: seq![resp[0], resp[1]] }
}

/// The bus operations of refilling the prefetch buffer with THUMB
/// instructions at `pc`, given the halfwords read.
pub open spec fn fill_thumb_trace(pc: u32, resp: Seq<u32>) -> Seq<BusOp> {
    let a0 = pc & !1u32;
    let a1 = a0.wrapping_add(2) & !1u32;
    seq![
        BusOp::Read16(a0, resp[0] as u16),
        BusOp::Clock(Cycle::S, a0, 1),
        BusOp::Read16(a1, resp[1] as u16),
        BusOp::Clock(Cycle::S, a1, 1),
    ]
}

pub open spec fn fill_thumb_state(s: CpuView, resp: Seq<u32>) -> CpuView {
    CpuView {
        regs: s.regs.with_pc((s.regs.pc & !1u32).wrapping_add(2)),
        buffer: seq![resp[0], resp[1]],
    }
}


/// A step of the processor: its state after, and the bus operations it made.
pub open spec fn follows(step: (CpuView, Seq<BusOp>), cpu: CpuView, before: Seq<BusOp>, after: Seq<BusOp>) -> bool {
    cpu == step.0 && after == before + step.1
}

/// The step that refills the buffer with ARM instructions after the state
/// `s` and the bus operations `t`.
pub open spec fn then_fill_arm(s: CpuView, t: Seq<BusOp>, resp: Seq<u32>) -> (CpuView, Seq<BusOp>) {
    (fill_arm_state(s, resp), t + fill_arm_trace(s.regs.pc, resp))
}

pub open spec fn then_fill_thumb(s: CpuView, t: Seq<BusOp>, resp: Seq<u32>) -> (CpuView, Seq<BusOp>) {
    (fill_thumb_state(s, resp), t + fill_thumb_trace(s.regs.pc, resp))
}

/// Which masks the multiplier's early termination checks, step by step.
pub open spec fn mul_mask(i: nat) -> u32 {
    if i == 0 {
        0xFFFF_FF00
    } else if i == 1 {
        0xFFFF_0000
    } else if i == 2 {
        0xFF00_0000
    } else {
        0
    }
}

pub open spec fn mul_stops(op: u32, i: nat, signed: bool) -> bool {
    let mask = mul_mask(i);
    mask == 0 || op & mask == 0 || (signed && op & mask == mask)
}

/// The internal cycles that multiplying by `op` takes: one for each group of
/// 8 high bits that are not all zero (or all one, when signed).
pub open spec fn mul_cycles(op: u32, signed: bool) -> nat {
    if mul_stops(op, 0, signed) {
        1
    } else if mul_stops(op, 1, signed) {
        2
    } else if mul_stops(op, 2, signed) {
        3
    } else {
        4
    }
}

pub open spec fn mul_value(a: u32, b: u32) -> u32 {
    ((a as nat * b as nat) % 0x1_0000_0000) as u32
}


pub proof fn lemma_fill_arm_responses(pc: u32, r: Seq<u32>)
    ensures
        responses(fill_arm_trace(pc, r)) == seq![r[0], r[1]],
{
    let t = fill_arm_trace(pc, r);
    let e = Seq::<BusOp>::empty();
    assert(t =~= e.push(t[0]).push(t[1]).push(t[2]).push(t[3]));
    crate::bus::lemma_responses_push(e, t[0]);
    crate::bus::lemma_responses_push(e.push(t[0]), t[1]);
    crate::bus::lemma_responses_push(e.push(t[0]).push(t[1]), t[2]);
    crate::bus::lemma_responses_push(e.push(t[0]).push(t[1]).push(t[2]), t[3]);
    lemma_responses_empty();
    assert(responses(t) =~= seq![r[0], r[1]]);
}

pub proof fn lemma_fill_thumb_responses(pc: u32, r: Seq<u32>)
    ensures
        responses(fill_thumb_trace(pc, r)) == seq![(r[0] as u16) as u32, (r[1] as u16) as u32],
{
    let t = fill_thumb_trace(pc, r);
    let e = Seq::<BusOp>::empty();
    assert(t =~= e.push(t[0]).push(t[1]).push(t[2]).push(t[3]));
    crate::bus::lemma_responses_push(e, t[0]);
    crate::bus::lemma_responses_push(e.push(t[0]), t[1]);
    crate::bus::lemma_responses_push(e.push(t[0]).push(t[1]), t[2]);
    crate::bus::lemma_responses_push(e.push(t[0]).push(t[1]).push(t[2]), t[3]);
    lemma_responses_empty();
    assert(responses(t) =~= seq![(r[0] as u16) as u32, (r[1] as u16) as u32]);
}

impl CPU {
    /// Whether condition field `condition` holds for the current flags.
    pub fn should_exec(&self, condition: u32) -> (r: bool)
        requires
            condition < 16,
        ensures
            r == self@.condition(condition),
    {
        let n = self.regs.get_n();
        let z = self.regs.get_z();
        let c = self.regs.get_c();
        let v = self.regs.get_v();
        match condition {
            0x0 => z,
            0x1 => !z,
            0x2 => c,
            0x3 => !c,
            0x4 => n,
            0x5 => !n,
            0x6 => v,
            0x7 => !v,
            0x8 => c && !z,
            0x9 => !c || z,
            0xA => n == v,
            0xB => n != v,
            0xC => !z && n == v,
            0xD => z || n != v,
            0xE => true,
            _ => false,
        }
    }

    /// The barrel shifter; when `change_status` is set and the shift produces
    /// a carry out, the carry flag takes it.
    pub fn arm_shift(&mut self, shift_type: u32, operand: u32, shift: u32, immediate: bool,
        change_status: bool) -> (r: u32)
        requires
            shift_type < 4,
            immediate ==> shift < 32,
            old(self)@.wf(),
        ensures
            r == shift_value(old(self)@.regs.flag(FLAG_C), shift_type, operand, shift, immediate),
            final(self)@ == old(self)@.with_regs(
                shift_regs(old(self)@.regs, shift_type, operand, shift, immediate, change_status),
            ),
            final(self)@.wf(),
    {
        let c = self.regs.get_c();
        let (value, carry) = barrel_shift(c, shift_type, operand, shift, immediate);
        if change_status {
            match carry {
                Some(b) => self.regs.set_c(b),
                None => {},
            }
        }
        assert(self@ =~= old(self)@.with_regs(
            shift_regs(old(self)@.regs, shift_type, operand, shift, immediate, change_status),
        ));
        value
    }

    /// The barrel shifter, taking an internal cycle when the amount comes
    /// from a register.
    pub fn shift<M: IMMU>(&mut self, mmu: &mut M, shift_type: u32, operand: u32, shift: u32,
        immediate: bool, change_status: bool) -> (r: u32)
        requires
            shift_type < 4,
            immediate ==> shift < 32,
            old(self)@.wf(),
        ensures
            r == shift_value(old(self)@.regs.flag(FLAG_C), shift_type, operand, shift, immediate),
            final(self)@ == old(self)@.with_regs(
                shift_regs(old(self)@.regs, shift_type, operand, shift, immediate, change_status),
            ),
            final(mmu).ops() == old(mmu).ops() + (if immediate {
                Seq::empty()
            } else {
                idle_cycles(1)
            }),
            final(self)@.wf(),
    {
        if !immediate {
            mmu.inc_clock(Cycle::I, 0, 0);
        }
        assert(mmu.ops() =~= old(mmu).ops() + (if immediate {
            Seq::empty()
        } else {
            idle_cycles(1)
        }));
        self.arm_shift(shift_type, operand, shift, immediate, change_status)
    }

    fn set_arith_flags(&mut self, value: u32, carry: bool, overflow: bool)
        requires
            old(self)@.wf(),
        ensures
            final(self)@ == old(self)@.with_regs(
                old(self)@.regs.with_nzcv(bit(value, 31), value == 0, carry, overflow),
            ),
            final(self)@.wf(),
    {
        self.regs.set_c(carry);
        self.regs.set_v(overflow);
        self.regs.set_z(value == 0);
        self.regs.set_n(value & 0x8000_0000 != 0);
        assert(value & 0x8000_0000 != 0 <==> (value >> 31u32) & 1 == 1) by (bit_vector);
        assert(self@ =~= old(self)@.with_regs(
            old(self)@.regs.with_nzcv(bit(value, 31), value == 0, carry, overflow),
        ));
    }

    /// `op1 + op2`, setting N, Z, C and V when `change_status` is set.
    pub fn add(&mut self, op1: u32, op2: u32, change_status: bool) -> (r: u32)
        requires
            old(self)@.wf(),
        ensures
            r == add_value(op1, op2, false),
            final(self)@ == old(self)@.with_regs(
                if change_status {
                    add_flags(old(self)@.regs, op1, op2, false)
                } else {
                    old(self)@.regs
                },
            ),
            final(self)@.wf(),
    {
        let (value, carry, overflow) = add_with_carry(op1, op2, false);
        if change_status {
            self.set_arith_flags(value, carry, overflow);
        }
        assert(self@ =~= old(self)@.with_regs(
            if change_status {
                add_flags(old(self)@.regs, op1, op2, false)
            } else {
                old(self)@.regs
            },
        ));
        value
    }

    /// `op1 + op2 + C`, setting N, Z, C and V when `change_status` is set.
    pub fn adc(&mut self, op1: u32, op2: u32, change_status: bool) -> (r: u32)
        requires
            old(self)@.wf(),
        ensures
            r == add_value(op1, op2, old(self)@.regs.flag(FLAG_C)),
            final(self)@ == old(self)@.with_regs(
                if change_status {
                    add_flags(old(self)@.regs, op1, op2, old(self)@.regs.flag(FLAG_C))
                } else {
                    old(self)@.regs
                },
            ),
            final(self)@.wf(),
    {
        let c = self.regs.get_c();
        let (value, carry, overflow) = add_with_carry(op1, op2, c);
        if change_status {
            self.set_arith_flags(value, carry, overflow);
        }
        assert(self@ =~= old(self)@.with_regs(
            if change_status {
                add_flags(old(self)@.regs, op1, op2, old(self)@.regs.flag(FLAG_C))
            } else {
                old(self)@.regs
            },
        ));
        value
    }

    /// `op1 - op2`, computed as `op1 + !op2 + 1`, setting N, Z, C and V when
    /// `change_status` is set.
    pub fn sub(&mut self, op1: u32, op2: u32, change_status: bool) -> (r: u32)
        requires
            old(self)@.wf(),
        ensures
            r == add_value(op1, !op2, true),
            final(self)@ == old(self)@.with_regs(
                if change_status {
                    add_flags(old(self)@.regs, op1, !op2, true)
                } else {
                    old(self)@.regs
                },
            ),
            final(self)@.wf(),
    {
        let (value, carry, overflow) = add_with_carry(op1, !op2, true);
        if change_status {
            self.set_arith_flags(value, carry, overflow);
        }
        assert(self@ =~= old(self)@.with_regs(
            if change_status {
                add_flags(old(self)@.regs, op1, !op2, true)
            } else {
                old(self)@.regs
            },
        ));
        value
    }

    /// `op1 - op2 - !C`, computed as `op1 + !op2 + C`, setting N, Z, C and V
    /// when `change_status` is set.
    pub fn sbc(&mut self, op1: u32, op2: u32, change_status: bool) -> (r: u32)
        requires
            old(self)@.wf(),
        ensures
            r == add_value(op1, !op2, old(self)@.regs.flag(FLAG_C)),
            final(self)@ == old(self)@.with_regs(
                if change_status {
                    add_flags(old(self)@.regs, op1, !op2, old(self)@.regs.flag(FLAG_C))
                } else {
                    old(self)@.regs
                },
            ),
            final(self)@.wf(),
    {
        self.adc(op1, !op2, change_status)
    }

    /// The internal cycles of a multiplication by `op1`.
    pub fn inc_mul_clocks<M: IMMU>(&mut self, mmu: &mut M, op1: u32, signed: bool)
        ensures
            final(mmu).ops() == old(mmu).ops() + idle_cycles(mul_cycles(op1, signed)),
            final(self)@ == old(self)@,
    {
        let ghost o = mmu.ops();
        let mut mask: u32 = 0xFFFF_FF00;
        let mut k: u32 = 0;
        loop
            invariant_except_break
                k < 4,
                mask == mul_mask(k as nat),
                mmu.ops() == o + idle_cycles(k as nat),
                forall|j: nat| j < k ==> !mul_stops(op1, j, signed),
            ensures
                mmu.ops() == o + idle_cycles(mul_cycles(op1, signed)),
            decreases 4 - k,
        {
            mmu.inc_clock(Cycle::I, 0, 0);
            assert(mmu.ops() =~= o + idle_cycles((k + 1) as nat));
            let value = op1 & mask;
            if mask == 0 || value == 0 || signed && value == mask {
                assert(mul_stops(op1, k as nat, signed));
                assert(mul_cycles(op1, signed) == k + 1);
                break ;
            }
            assert(!mul_stops(op1, k as nat, signed));
            assert(0xFFFF_FF00u32 << 8u32 == 0xFFFF_0000u32 && 0xFFFF_0000u32 << 8u32 == 0xFF00_0000u32
                && 0xFF00_0000u32 << 8u32 == 0u32) by (bit_vector);
            mask = mask << 8u32;
            k = k + 1;
        }
    }

    /// Multiplies, taking the internal cycles that `op1` calls for.
    pub fn mul<M: IMMU>(&mut self, mmu: &mut M, op1: u32, op2: u32) -> (r: u32)
        ensures
            r == mul_value(op1, op2),
            final(mmu).ops() == old(mmu).ops() + idle_cycles(mul_cycles(op1, true)),
            final(self)@ == old(self)@,
    {
        self.inc_mul_clocks(mmu, op1, true);
        op1.wrapping_mul(op2)
    }

    /// Fetches the two ARM instructions at the program counter into the
    /// prefetch buffer.
    pub fn fill_arm_instr_buffer<M: IMMU>(&mut self, mmu: &mut M)
        requires
            old(self)@.wf(),
        ensures
            final(mmu).ops() == old(mmu).ops() + fill_arm_trace(
                old(self)@.regs.pc,
                new_responses(old(mmu).ops(), final(mmu).ops()),
            ),
            final(self)@ == fill_arm_state(old(self)@, new_responses(old(mmu).ops(), final(mmu).ops())),
            final(self)@.wf(),
    {
        let ghost o = mmu.ops();
        let ghost mut t = Seq::<BusOp>::empty();
        let a0 = self.regs.pc & !0x3u32;
        let v0 = mmu.read32(a0);
        self.instr_buffer[0] = v0;
        proof {
            lemma_extend(o, t, BusOp::Read32(a0, v0));
            t = t.push(BusOp::Read32(a0, v0));
        }
        mmu.inc_clock(Cycle::S, a0, 2);
        proof {
            lemma_extend(o, t, BusOp::Clock(Cycle::S, a0, 2));
            t = t.push(BusOp::Clock(Cycle::S, a0, 2));
        }
        self.regs.pc = self.regs.pc.wrapping_add(4);
        let a1 = self.regs.pc & !0x3u32;
        let v1 = mmu.read32(a1);
        self.instr_buffer[1] = v1;
        proof {
            lemma_extend(o, t, BusOp::Read32(a1, v1));
            t = t.push(BusOp::Read32(a1, v1));
        }
        mmu.inc_clock(Cycle::S, a1, 2);
        proof {
            lemma_extend(o, t, BusOp::Clock(Cycle::S, a1, 2));
            t = t.push(BusOp::Clock(Cycle::S, a1, 2));
            lemma_after(o, t);
            lemma_responses_empty();
            assert(responses(t) =~= seq![v0, v1]);
            assert(t =~= fill_arm_trace(old(self)@.regs.pc, seq![v0, v1]));
            assert(self@ =~= fill_arm_state(old(self)@, seq![v0, v1]));
        }
    }

    /// Fetches the two THUMB instructions at the program counter (made
    /// halfword aligned) into the prefetch buffer.
    pub fn fill_thumb_instr_buffer<M: IMMU>(&mut self, mmu: &mut M)
        requires
            old(self)@.wf(),
        ensures
            final(mmu).ops() == old(mmu).ops() + fill_thumb_trace(
                old(self)@.regs.pc,
                new_responses(old(mmu).ops(), final(mmu).ops()),
            ),
            final(self)@ == fill_thumb_state(old(self)@, new_responses(old(mmu).ops(), final(mmu).ops())),
            final(self)@.wf(),
    {
        let ghost o = mmu.ops();
        let ghost mut t = Seq::<BusOp>::empty();
        self.regs.pc = self.regs.pc & !0x1u32;
        let a0 = self.regs.pc & !0x1u32;
        let v0 = mmu.read16(a0);
        self.instr_buffer[0] = v0 as u32;
        proof {
            lemma_extend(o, t, BusOp::Read16(a0, v0));
            t = t.push(BusOp::Read16(a0, v0));
        }
        mmu.inc_clock(Cycle::S, a0, 1);
        proof {
            lemma_extend(o, t, BusOp::Clock(Cycle::S, a0, 1));
            t = t.push(BusOp::Clock(Cycle::S, a0, 1));
        }
        self.regs.pc = self.regs.pc.wrapping_add(2);
        let a1 = self.regs.pc & !0x1u32;
        let v1 = mmu.read16(a1);
        self.instr_buffer[1] = v1 as u32;
        proof {
            lemma_extend(o, t, BusOp::Read16(a1, v1));
            t = t.push(BusOp::Read16(a1, v1));
        }
        mmu.inc_clock(Cycle::S, a1, 1);
        proof {
            lemma_extend(o, t, BusOp::Clock(Cycle::S, a1, 1));
            t = t.push(BusOp::Clock(Cycle::S, a1, 1));
            lemma_after(o, t);
            lemma_responses_empty();
            let pc = old(self)@.regs.pc;
            assert((pc & !1u32) & !1u32 == pc & !1u32) by (bit_vector);
            assert(responses(t) =~= seq![v0 as u32, v1 as u32]);
            assert(t =~= fill_thumb_trace(old(self)@.regs.pc, seq![v0 as u32, v1 as u32]));
            assert(self@ =~= fill_thumb_state(old(self)@, seq![v0 as u32, v1 as u32]));
        }
    }
}

} // verus!
