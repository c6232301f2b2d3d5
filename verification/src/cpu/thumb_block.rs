//! The THUMB transfers of register lists: PUSH and POP (THUMB.14), LDMIA and
//! STMIA (THUMB.15).
use vstd::prelude::*;
use crate::bus::{BusOp, Cycle, IMMU, new_responses, responses, lemma_after, lemma_compose, lemma_extend,
    lemma_responses_empty, lemma_responses_no_reads, lemma_responses_one_read, lemma_then};
use super::registers::Reg;
use super::processor::{CPU, CpuView, fill_thumb_trace, follows, then_fill_thumb, lemma_fill_thumb_responses};

verus! {

broadcast use super::alu::group_masks;

/// Whether register `k` (0 to 7) is in the list `rlist`.
pub open spec fn rlist_has(rlist: u32, k: int) -> bool {
    (rlist >> (k as u32)) & 1 == 1
}

/// Whether no register above `k` is in the list.
pub open spec fn rlist_none_above(rlist: u32, k: int) -> bool {
    rlist >> ((k + 1) as u32) == 0
}

/// How many of the registers below `k` are in the list.
pub open spec fn count_bits(rlist: u32, k: nat) -> nat
    decreases k,
{
    if k == 0 {
        0
    } else {
        count_bits(rlist, (k - 1) as nat) + if rlist_has(rlist, k - 1) { 1nat } else { 0nat }
    }
}

/// The state of a list transfer between two registers.
#[verifier::ext_equal]
pub struct ListState {
    pub cpu: CpuView,
    /// The address of the next transfer.
    pub addr: u32,
    pub trace: Seq<BusOp>,
    /// How many words were read so far.
    pub ri: nat,
    /// Whether the next store is the first.
    pub first: bool,
}

/// POP of register `k`, when it is in the list.
pub open spec fn pop_step(st: ListState, rlist: u32, pc_lr: bool, k: int, resp: Seq<u32>) -> ListState {
    if !rlist_has(rlist, k) {
        st
    } else {
        let v = resp[st.ri as int];
        let last = rlist_none_above(rlist, k) && !pc_lr;
        ListState {
            cpu: st.cpu.with_regs(st.cpu.regs.with_reg(k, v)),
            addr: st.addr.wrapping_add(4),
            trace: st.trace + seq![
                BusOp::Read32(st.addr, v),
                if last { BusOp::Clock(Cycle::I, 0, 0) } else { BusOp::Clock(Cycle::S, st.addr, 2) },
            ],
            ri: st.ri + 1,
            first: st.first,
        }
    }
}

pub open spec fn pop_run(init: ListState, rlist: u32, pc_lr: bool, k: nat, resp: Seq<u32>) -> ListState
    decreases k,
{
    if k == 0 {
        init
    } else {
        pop_step(pop_run(init, rlist, pc_lr, (k - 1) as nat, resp), rlist, pc_lr, k - 1, resp)
    }
}

/// PUSH of register `k`, when it is in the list.
pub open spec fn push_step(st: ListState, rlist: u32, pc_lr: bool, k: int) -> ListState {
    if !rlist_has(rlist, k) {
        st
    } else {
        let last = rlist_none_above(rlist, k) && !pc_lr;
        ListState {
            addr: st.addr.wrapping_add(4),
            trace: st.trace + seq![
                BusOp::Write32(st.addr, st.cpu.regs.reg(k)),
                if last { BusOp::Clock(Cycle::N, st.addr, 2) } else { BusOp::Clock(Cycle::S, st.addr, 2) },
            ],
            ..st
        }
    }
}

pub open spec fn push_run(init: ListState, rlist: u32, pc_lr: bool, k: nat) -> ListState
    decreases k,
{
    if k == 0 {
        init
    } else {
        push_step(push_run(init, rlist, pc_lr, (k - 1) as nat), rlist, pc_lr, k - 1)
    }
}

/// THUMB.14: PUSH and POP of the low registers, with LR (PUSH) or PC (POP).
/// PUSH stores the lowest register at the lowest address.
pub open spec fn push_pop_regs_step(s: CpuView, instr: u16, resp: Seq<u32>) -> (CpuView, Seq<BusOp>) {
    let i = instr as u32;
    let pc_lr = (i >> 8u32) & 1 == 1;
    let rlist = i & 0xFF;
    let pc = s.regs.pc;
    let t0 = seq![BusOp::Clock(Cycle::N, pc, 1)];
    if (i >> 11u32) & 1 == 1 {
        let init = ListState { cpu: s, addr: s.regs.reg(13), trace: t0, ri: 0, first: true };
        let fin = pop_run(init, rlist, pc_lr, 8, resp);
        if pc_lr {
            let v = resp[fin.ri as int];
            let new_pc = v & !1u32;
            let c1 = fin.cpu.with_regs(fin.cpu.regs.with_pc(new_pc));
            let t1 = fin.trace + seq![
                BusOp::Read32(fin.addr, v),
                BusOp::Clock(Cycle::I, 0, 0),
                BusOp::Clock(Cycle::N, new_pc.wrapping_add(2), 1),
            ];
            let (c2, t2) = then_fill_thumb(c1, t1, resp.skip(fin.ri + 1int));
            (c2.with_regs(c2.regs.with_reg(13, fin.addr.wrapping_add(4))), t2)
        } else {
            (fin.cpu.with_regs(fin.cpu.regs.with_reg(13, fin.addr)),
                fin.trace.push(BusOp::Clock(Cycle::S, pc.wrapping_add(2), 1)))
        }
    } else {
        let count = count_bits(rlist, 8) + if pc_lr { 1nat } else { 0nat };
        let sp = s.regs.reg(13).wrapping_sub((4 * count) as u32);
        let init = ListState { cpu: s.with_regs(s.regs.with_reg(13, sp)), addr: sp, trace: t0, ri: 0, first: true };
        let fin = push_run(init, rlist, pc_lr, 8);
        if pc_lr {
            (fin.cpu, fin.trace + seq![
                BusOp::Write32(fin.addr, s.regs.reg(14)),
                BusOp::Clock(Cycle::N, fin.addr, 2),
            ])
        } else {
            (fin.cpu, fin.trace)
        }
    }
}

pub open spec fn push_pop_regs_ok(instr: u16) -> bool {
    ((instr as u32) >> 12u32) & 0xF == 0b1011 && ((instr as u32) >> 9u32) & 0x3 == 0b10
}

/// LDMIA or STMIA of register `k`, when it is in the list. The first store
/// writes the final base back into `rb`.
pub open spec fn ldm_stm_step(st: ListState, instr: u16, final_base: u32, k: int, resp: Seq<u32>) -> ListState {
    let i = instr as u32;
    let rlist = i & 0xFF;
    let rb = ((i >> 8u32) & 0x7) as int;
    if !rlist_has(rlist, k) {
        st
    } else {
        let last = rlist_none_above(rlist, k);
        let a = st.addr;
        if (i >> 11u32) & 1 == 1 {
            let v = resp[st.ri as int];
            ListState {
                cpu: st.cpu.with_regs(st.cpu.regs.with_reg(k, v)),
                addr: a.wrapping_add(4),
                trace: st.trace + seq![
                    BusOp::Read32(a, v),
                    if last { BusOp::Clock(Cycle::I, 0, 0) } else { BusOp::Clock(Cycle::S, a, 2) },
                ],
                ri: st.ri + 1,
                first: st.first,
            }
        } else {
            ListState {
                cpu: if st.first { st.cpu.with_regs(st.cpu.regs.with_reg(rb, final_base)) } else { st.cpu },
                addr: a.wrapping_add(4),
                trace: st.trace + seq![
                    BusOp::Write32(a, st.cpu.regs.reg(k)),
                    if last { BusOp::Clock(Cycle::N, a, 2) } else { BusOp::Clock(Cycle::S, a, 2) },
                ],
                ri: st.ri,
                first: false,
            }
        }
    }
}

pub open spec fn ldm_stm_run(init: ListState, instr: u16, final_base: u32, k: nat, resp: Seq<u32>) -> ListState
    decreases k,
{
    if k == 0 {
        init
    } else {
        ldm_stm_step(ldm_stm_run(init, instr, final_base, (k - 1) as nat, resp), instr, final_base, k - 1, resp)
    }
}

/// THUMB.15: LDMIA and STMIA. The transfers go to word aligned addresses
/// upwards from the base; the base register is written back with the low
/// bits of its old value kept. An empty list transfers the program counter
/// and moves the base on by 0x40.
pub open spec fn multiple_load_store_step(s: CpuView, instr: u16, resp: Seq<u32>) -> (CpuView, Seq<BusOp>) {
    let i = instr as u32;
    let load = (i >> 11u32) & 1 == 1;
    let rb = ((i >> 8u32) & 0x7) as int;
    let rlist = i & 0xFF;
    let base0 = s.regs.reg(rb);
    let off = base0 & 3;
    let base = base0 & !3u32;
    let pc = s.regs.pc;
    let t0 = seq![BusOp::Clock(Cycle::N, pc, 1)];
    if rlist == 0 {
        let end = base.wrapping_add(4).wrapping_add((0x3C + off) as u32).wrapping_add(off);
        if load {
            let v = resp[0];
            let c1 = s.with_regs(s.regs.with_pc(v));
            let (c2, t2) = then_fill_thumb(c1, t0 + seq![BusOp::Read32(base, v), BusOp::Clock(Cycle::I, 0, 0)],
                resp.skip(1));
            (c2.with_regs(c2.regs.with_reg(rb, end)),
                t2.push(BusOp::Clock(Cycle::S, c2.regs.pc.wrapping_add(2), 1)))
        } else {
            (s.with_regs(s.regs.with_reg(rb, end)), t0 + seq![
                BusOp::Write32(base, pc.wrapping_add(2)),
                BusOp::Clock(Cycle::N, base, 2),
            ])
        }
    } else {
        let final_base = base.wrapping_add((4 * count_bits(rlist, 8)) as u32).wrapping_add(off);
        let init = ListState { cpu: s, addr: base, trace: t0, ri: 0, first: true };
        let fin = ldm_stm_run(init, instr, final_base, 8, resp);
        let r = fin.cpu.regs.with_reg(rb, fin.addr.wrapping_add(off));
        if load {
            (fin.cpu.with_regs(r), fin.trace.push(BusOp::Clock(Cycle::S, pc.wrapping_add(2), 1)))
        } else {
            (fin.cpu.with_regs(r), fin.trace)
        }
    }
}

pub open spec fn multiple_load_store_ok(instr: u16) -> bool {
    (instr as u32) >> 12u32 == 0b1100
}

proof fn lemma_pop_run_prefix(init: ListState, rlist: u32, pc_lr: bool, k: nat, a: Seq<u32>, b: Seq<u32>)
    requires
        pop_run(init, rlist, pc_lr, k, a).ri <= a.len(),
        a.len() <= b.len(),
        forall|j: int| 0 <= j < a.len() ==> a[j] == b[j],
    ensures
        pop_run(init, rlist, pc_lr, k, b) == pop_run(init, rlist, pc_lr, k, a),
        pop_run(init, rlist, pc_lr, k, a).ri >= init.ri,
    decreases k,
{
    if k > 0 {
        let prev = pop_run(init, rlist, pc_lr, (k - 1) as nat, a);
        assert(prev.ri <= pop_run(init, rlist, pc_lr, k, a).ri);
        lemma_pop_run_prefix(init, rlist, pc_lr, (k - 1) as nat, a, b);
    }
}

proof fn lemma_ldm_stm_run_prefix(init: ListState, instr: u16, fb: u32, k: nat, a: Seq<u32>, b: Seq<u32>)
    requires
        ldm_stm_run(init, instr, fb, k, a).ri <= a.len(),
        a.len() <= b.len(),
        forall|j: int| 0 <= j < a.len() ==> a[j] == b[j],
    ensures
        ldm_stm_run(init, instr, fb, k, b) == ldm_stm_run(init, instr, fb, k, a),
        ldm_stm_run(init, instr, fb, k, a).ri >= init.ri,
    decreases k,
{
    if k > 0 {
        let prev = ldm_stm_run(init, instr, fb, (k - 1) as nat, a);
        assert(prev.ri <= ldm_stm_run(init, instr, fb, k, a).ri);
        lemma_ldm_stm_run_prefix(init, instr, fb, (k - 1) as nat, a, b);
    }
}

/// The number of registers in the list `rlist`.
fn count_regs(rlist: u32) -> (c: u32)
    ensures
        c == count_bits(rlist, 8),
        c <= 8,
{
    let mut c: u32 = 0;
    let mut k: u32 = 0;
    while k < 8
        invariant
            k <= 8,
            c == count_bits(rlist, k as nat),
            c <= k,
        decreases 8 - k,
    {
        if (rlist >> k) & 0x1 == 1 {
            c = c + 1;
        }
        k = k + 1;
    }
    c
}

impl CPU {
    /// THUMB.14: push/pop registers
    #[verifier::rlimit(40)]
    pub fn push_pop_regs<M: IMMU>(&mut self, mmu: &mut M, instr: u16)
        requires
            old(self)@.wf(),
            push_pop_regs_ok(instr),
        ensures
            follows(push_pop_regs_step(old(self)@, instr, new_responses(old(mmu).ops(), final(mmu).ops())),
                final(self)@, old(mmu).ops(), final(mmu).ops()),
            final(self)@.wf(),
    {
        let ghost o = mmu.ops();
        let ghost s = self@;
        let i = instr as u32;
        let pop = (i >> 11u32) & 0x1 != 0;
        let pc_lr = (i >> 8u32) & 0x1 != 0;
        let r_list = i & 0xFF;
        let pc = self.regs.pc;
        mmu.inc_clock(Cycle::N, pc, 1);
        let ghost t0 = seq![BusOp::Clock(Cycle::N, pc, 1)];
        proof {
            lemma_extend(o, Seq::empty(), t0[0]);
            assert(Seq::<BusOp>::empty().push(t0[0]) =~= t0);
            lemma_responses_empty();
        }
        if pop {
            let mut sp = self.regs.get_reg(Reg::R13);
            let ghost init = ListState { cpu: s, addr: sp, trace: t0, ri: 0, first: true };
            let ghost mut cur = init;
            let mut reg: u32 = 0;
            while reg < 8
                invariant
                    reg <= 8,
                    cur == pop_run(init, r_list, pc_lr, reg as nat, responses(cur.trace)),
                    cur.ri == responses(cur.trace).len(),
                    mmu.ops() == o + cur.trace,
                    self@ == cur.cpu,
                    self@.wf(),
                    sp == cur.addr,
                    init.cpu == s,
                    init.trace == t0,
                    init.ri == 0,
                    self@.regs.pc == s.regs.pc,
                decreases 8 - reg,
            {
                if (r_list >> reg) & 0x1 != 0 {
                    let last = (r_list >> (reg + 1)) == 0 && !pc_lr;
                    let addr = sp;
                    let value = mmu.read32(addr);
                    let clk = if last { BusOp::Clock(Cycle::I, 0, 0) } else { BusOp::Clock(Cycle::S, addr, 2) };
                    if last {
                        mmu.inc_clock(Cycle::I, 0, 0);
                    } else {
                        mmu.inc_clock(Cycle::S, addr, 2);
                    }
                    self.regs.set_reg_i(reg, value);
                    sp = sp.wrapping_add(4);
                    proof {
                        let prev = cur;
                        let u = seq![BusOp::Read32(addr, value), clk];
                        assert(mmu.ops() =~= o + (prev.trace + u));
                        lemma_compose(o, prev.trace, u);
                        lemma_responses_one_read(Seq::empty(), u[0], seq![clk]);
                        assert(Seq::<BusOp>::empty().push(u[0]) + seq![clk] =~= u);
                        let r_new = responses(prev.trace + u);
                        lemma_pop_run_prefix(init, r_list, pc_lr, reg as nat, responses(prev.trace), r_new);
                        assert(r_new[prev.ri as int] == value);
                        assert(rlist_has(r_list, reg as int));
                        assert(last == (rlist_none_above(r_list, reg as int) && !pc_lr));
                        cur = ListState { cpu: self@, addr: sp, trace: prev.trace + u, ri: prev.ri + 1, first: prev.first };
                        assert(cur =~= pop_step(prev, r_list, pc_lr, reg as int, r_new));
                    }
                }
                reg = reg + 1;
            }
            let ghost fin = cur;
            if pc_lr {
                let v = mmu.read32(sp);
                mmu.inc_clock(Cycle::I, 0, 0);
                self.regs.pc = v & !0x1u32;
                sp = sp.wrapping_add(4);
                let new_pc = self.regs.pc;
                mmu.inc_clock(Cycle::N, new_pc.wrapping_add(2), 1);
                let ghost t1 = fin.trace + seq![
                    BusOp::Read32(fin.addr, v),
                    BusOp::Clock(Cycle::I, 0, 0),
                    BusOp::Clock(Cycle::N, new_pc.wrapping_add(2), 1),
                ];
                let ghost mid = mmu.ops();
                let ghost c1 = self@;
                proof { assert(mid =~= o + t1); }
                self.fill_thumb_instr_buffer(mmu);
                self.regs.set_reg(Reg::R13, sp);
                proof {
                    let u = fill_thumb_trace(c1.regs.pc, new_responses(mid, mmu.ops()));
                    lemma_then(o, t1, u);
                    lemma_after(o, t1 + u);
                    let tail = seq![
                        BusOp::Read32(fin.addr, v),
                        BusOp::Clock(Cycle::I, 0, 0),
                        BusOp::Clock(Cycle::N, new_pc.wrapping_add(2), 1),
                    ];
                    lemma_compose(o, fin.trace, tail);
                    lemma_responses_one_read(Seq::empty(), tail[0], tail.skip(1));
                    assert(Seq::<BusOp>::empty().push(tail[0]) + tail.skip(1) =~= tail);
                    let r = responses(t1 + u);
                    assert(responses(t1) =~= responses(fin.trace).push(v));
                    lemma_pop_run_prefix(init, r_list, pc_lr, 8, responses(fin.trace), r);
                    assert(r[fin.ri as int] == v);
                    assert(r.skip(fin.ri + 1int) =~= responses(u));
                    let step = push_pop_regs_step(s, instr, r);
                    assert(t1 + u =~= step.1);
                    assert(self@ =~= step.0);
                }
            } else {
                let pc2 = self.regs.pc.wrapping_add(2);
                mmu.inc_clock(Cycle::S, pc2, 1);
                self.regs.set_reg(Reg::R13, sp);
                proof {
                    let op = BusOp::Clock(Cycle::S, pc2, 1);
                    lemma_extend(o, fin.trace, op);
                    lemma_after(o, fin.trace.push(op));
                    let r = responses(fin.trace.push(op));
                    assert(r =~= responses(fin.trace));
                    lemma_pop_run_prefix(init, r_list, pc_lr, 8, responses(fin.trace), r);
                    let step = push_pop_regs_step(s, instr, r);
                    assert(fin.trace.push(op) =~= step.1);
                    assert(self@ =~= step.0);
                }
            }
        } else {
            let count = count_regs(r_list) + if pc_lr { 1u32 } else { 0u32 };
            let mut sp = self.regs.get_reg(Reg::R13).wrapping_sub(4 * count);
            self.regs.set_reg(Reg::R13, sp);
            let ghost init = ListState { cpu: self@, addr: sp, trace: t0, ri: 0, first: true };
            let ghost mut cur = init;
            let mut reg: u32 = 0;
            while reg < 8
                invariant
                    reg <= 8,
                    cur == push_run(init, r_list, pc_lr, reg as nat),
                    mmu.ops() == o + cur.trace,
                    self@ == cur.cpu,
                    self@.wf(),
                    sp == cur.addr,
                    cur.cpu == init.cpu,
                    init.cpu == s.with_regs(s.regs.with_reg(13, init.addr)),
                decreases 8 - reg,
            {
                if (r_list >> reg) & 0x1 != 0 {
                    let last = (r_list >> (reg + 1)) == 0 && !pc_lr;
                    let addr = sp;
                    let value = self.regs.get_reg_i(reg);
                    mmu.write32(addr, value);
                    if last {
                        mmu.inc_clock(Cycle::N, addr, 2);
                    } else {
                        mmu.inc_clock(Cycle::S, addr, 2);
                    }
                    sp = sp.wrapping_add(4);
                    proof {
                        let prev = cur;
                        let clk = if last { BusOp::Clock(Cycle::N, addr, 2) } else { BusOp::Clock(Cycle::S, addr, 2) };
                        let u = seq![BusOp::Write32(addr, value), clk];
                        assert(mmu.ops() =~= o + (prev.trace + u));
                        cur = ListState { addr: sp, trace: prev.trace + u, ..prev };
                        assert(cur =~= push_step(prev, r_list, pc_lr, reg as int));
                    }
                }
                reg = reg + 1;
            }
            if pc_lr {
                let lr = self.regs.get_reg(Reg::R14);
                mmu.write32(sp, lr);
                mmu.inc_clock(Cycle::N, sp, 2);
            }
            proof {
                let t = mmu.ops().skip(o.len() as int);
                assert(mmu.ops() =~= o + t);
                lemma_after(o, t);
                let step = push_pop_regs_step(s, instr, responses(t));
                assert(t =~= step.1);
                assert(self@ =~= step.0);
            }
        }
    }

    /// THUMB.15: multiple load/store
    #[verifier::rlimit(40)]
    pub fn multiple_load_store<M: IMMU>(&mut self, mmu: &mut M, instr: u16)
        requires
            old(self)@.wf(),
            multiple_load_store_ok(instr),
        ensures
            follows(multiple_load_store_step(old(self)@, instr, new_responses(old(mmu).ops(), final(mmu).ops())),
                final(self)@, old(mmu).ops(), final(mmu).ops()),
            final(self)@.wf(),
    {
        let ghost o = mmu.ops();
        let ghost s = self@;
        let i = instr as u32;
        let load = (i >> 11u32) & 0x1 != 0;
        let base_reg = (i >> 8u32) & 0x7;
        let base0 = self.regs.get_reg_i(base_reg);
        let base_offset = base0 & 0x3;
        assert(base0 & 3 <= base0) by (bit_vector);
        let mut base = base0 - base_offset;
        assert(base0 - (base0 & 3) == base0 & !3u32) by (bit_vector);
        let r_list = i & 0xFF;
        let pc = self.regs.pc;
        mmu.inc_clock(Cycle::N, pc, 1);
        let ghost t0 = seq![BusOp::Clock(Cycle::N, pc, 1)];
        proof {
            lemma_extend(o, Seq::empty(), t0[0]);
            assert(Seq::<BusOp>::empty().push(t0[0]) =~= t0);
            lemma_responses_empty();
        }
        if r_list == 0 {
            let addr = base;
            base = base.wrapping_add(4);
            if load {
                let v = mmu.read32(addr);
                self.regs.set_reg_i(15, v);
                mmu.inc_clock(Cycle::I, 0, 0);
                let ghost t1 = t0 + seq![BusOp::Read32(addr, v), BusOp::Clock(Cycle::I, 0, 0)];
                let ghost mid = mmu.ops();
                let ghost c1 = self@;
                proof { assert(mid =~= o + t1); }
                self.fill_thumb_instr_buffer(mmu);
                let ghost mid2 = mmu.ops();
                let pc2 = self.regs.pc.wrapping_add(2);
                mmu.inc_clock(Cycle::S, pc2, 1);
                base = base.wrapping_add(0x3C + base_offset);
                self.regs.set_reg_i(base_reg, base.wrapping_add(base_offset));
                proof {
                    let u = fill_thumb_trace(c1.regs.pc, new_responses(mid, mid2));
                    lemma_then(o, t1, u);
                    let op = BusOp::Clock(Cycle::S, pc2, 1);
                    lemma_extend(o, t1 + u, op);
                    let t = (t1 + u).push(op);
                    lemma_after(o, t);
                    let tail = seq![BusOp::Read32(addr, v), BusOp::Clock(Cycle::I, 0, 0)];
                    lemma_compose(o, t0, tail);
                    lemma_responses_one_read(Seq::empty(), tail[0], seq![tail[1]]);
                    assert(Seq::<BusOp>::empty().push(tail[0]) + seq![tail[1]] =~= tail);
                    let r = responses(t);
                    assert(r =~= seq![v] + responses(u));
                    assert(r.skip(1) =~= responses(u));
                    let step = multiple_load_store_step(s, instr, r);
                    assert(t =~= step.1);
                    assert(self@ =~= step.0);
                }
            } else {
                let value = pc.wrapping_add(2);
                mmu.write32(addr, value);
                mmu.inc_clock(Cycle::N, addr, 2);
                base = base.wrapping_add(0x3C + base_offset);
                self.regs.set_reg_i(base_reg, base.wrapping_add(base_offset));
                proof {
                    let t = mmu.ops().skip(o.len() as int);
                    assert(mmu.ops() =~= o + t);
                    lemma_after(o, t);
                    let step = multiple_load_store_step(s, instr, responses(t));
                    assert(t =~= step.1);
                    assert(self@ =~= step.0);
                }
            }
        } else {
            let final_base = base.wrapping_add(4 * count_regs(r_list)).wrapping_add(base_offset);
            let ghost init = ListState { cpu: s, addr: base, trace: t0, ri: 0, first: true };
            let ghost mut cur = init;
            let mut first = true;
            let mut reg: u32 = 0;
            while reg < 8
                invariant
                    reg <= 8,
                    cur == ldm_stm_run(init, instr, final_base, reg as nat, responses(cur.trace)),
                    cur.ri == responses(cur.trace).len(),
                    mmu.ops() == o + cur.trace,
                    self@ == cur.cpu,
                    self@.wf(),
                    base == cur.addr,
                    first == cur.first,
                    r_list == i & 0xFF,
                    i == instr as u32,
                    base_reg == (i >> 8u32) & 0x7,
                    load == ((i >> 11u32) & 1 == 1),
                    self@.regs.pc == s.regs.pc,
                decreases 8 - reg,
            {
                if (r_list >> reg) & 0x1 != 0 {
                    let last = (r_list >> (reg + 1)) == 0;
                    let addr = base;
                    base = base.wrapping_add(4);
                    let ghost prev = cur;
                    let ghost mut u = Seq::<BusOp>::empty();
                    if load {
                        let v = mmu.read32(addr);
                        self.regs.set_reg_i(reg, v);
                        let clk = if last { BusOp::Clock(Cycle::I, 0, 0) } else { BusOp::Clock(Cycle::S, addr, 2) };
                        if last {
                            mmu.inc_clock(Cycle::I, 0, 0);
                        } else {
                            mmu.inc_clock(Cycle::S, addr, 2);
                        }
                        proof {
                            u = seq![BusOp::Read32(addr, v), clk];
                            lemma_responses_one_read(Seq::empty(), u[0], seq![clk]);
                            assert(Seq::<BusOp>::empty().push(u[0]) + seq![clk] =~= u);
                        }
                    } else {
                        let value = self.regs.get_reg_i(reg);
                        mmu.write32(addr, value);
                        let clk = if last { BusOp::Clock(Cycle::N, addr, 2) } else { BusOp::Clock(Cycle::S, addr, 2) };
                        if last {
                            mmu.inc_clock(Cycle::N, addr, 2);
                        } else {
                            mmu.inc_clock(Cycle::S, addr, 2);
                        }
                        if first {
                            self.regs.set_reg_i(base_reg, final_base);
                            first = false;
                        }
                        proof {
                            u = seq![BusOp::Write32(addr, value), clk];
                            lemma_responses_no_reads(u);
                        }
                    }
                    proof {
                        assert(mmu.ops() =~= o + (prev.trace + u));
                        lemma_compose(o, prev.trace, u);
                        let r_new = responses(prev.trace + u);
                        lemma_ldm_stm_run_prefix(init, instr, final_base, reg as nat, responses(prev.trace), r_new);
                        cur = ListState {
                            cpu: self@,
                            addr: base,
                            trace: prev.trace + u,
                            ri: if load { prev.ri + 1 } else { prev.ri },
                            first,
                        };
                        assert(cur =~= ldm_stm_step(prev, instr, final_base, reg as int, r_new));
                    }
                }
                reg = reg + 1;
            }
            let ghost fin = cur;
            if load {
                mmu.inc_clock(Cycle::S, pc.wrapping_add(2), 1);
            }
            self.regs.set_reg_i(base_reg, base.wrapping_add(base_offset));
            proof {
                let t = mmu.ops().skip(o.len() as int);
                assert(mmu.ops() =~= o + t);
                lemma_after(o, t);
                let tail = t.skip(fin.trace.len() as int);
                assert(t =~= fin.trace + tail);
                lemma_compose(o, fin.trace, tail);
                lemma_responses_no_reads(tail);
                let r = responses(t);
                assert(r =~= responses(fin.trace));
                lemma_ldm_stm_run_prefix(init, instr, final_base, 8, responses(fin.trace), r);
                let step = multiple_load_store_step(s, instr, r);
                assert(t =~= step.1);
                assert(self@ =~= step.0);
            }
        }
    }
}

} // verus!
