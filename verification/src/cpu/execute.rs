//! Decoding THUMB instructions, and the processor's entry points: reset and
//! the execution of one instruction in either state.
use vstd::prelude::*;
use crate::bus::{BusOp, IMMU, new_responses, responses, lemma_after, lemma_extend, lemma_then,
    lemma_responses_empty};
use super::registers::{RegsView, bios_regs, FLAG_T};
use super::arm::{emulate_arm_ok, emulate_arm_step};
use super::thumb::{
    add_offset_sp_ok, add_offset_sp_step, add_sub_ok, add_sub_step, alu_ok, alu_step, branch_with_link_ok,
    branch_with_link_step, cond_branch_ok, cond_branch_step, get_rel_addr_ok, get_rel_addr_step, hi_reg_bx_ok,
    hi_reg_bx_step, immediate_ok, immediate_step, load_pc_rel_ok, load_pc_rel_step, move_shifted_reg_ok,
    move_shifted_reg_step, thumb_software_interrupt_ok, thumb_software_interrupt_step, uncond_branch_ok,
    uncond_branch_step,
};
use super::thumb_transfer::{
    load_store_halfword_ok, load_store_halfword_step, load_store_imm_offset_ok, load_store_imm_offset_step,
    load_store_reg_offset_ok, load_store_reg_offset_step, load_store_sign_ext_ok, load_store_sign_ext_step,
    load_store_sp_rel_ok, load_store_sp_rel_step,
};
use super::thumb_block::{multiple_load_store_ok, multiple_load_store_step, push_pop_regs_ok, push_pop_regs_step};
use super::processor::{CPU, CpuView, fill_arm_state, fill_arm_trace, follows};

verus! {

/// The instruction formats of the THUMB instruction set.
#[derive(Clone, Copy, Debug, PartialEq, Eq, Structural)]
pub enum ThumbClass {
    AddSub,
    MoveShifted,
    Immediate,
    Alu,
    HiRegBx,
    LoadPcRel,
    RegOffset,
    SignExt,
    ImmOffset,
    Halfword,
    SpRel,
    RelAddr,
    OffsetSp,
    PushPop,
    MultipleLoadStore,
    SoftwareInterrupt,
    CondBranch,
    UncondBranch,
    BranchWithLink,
    Undefined,
}

/// The format of `instr`, by the first encoding pattern it matches.
pub open spec fn thumb_class(instr: u16) -> ThumbClass {
    let i = instr as u32;
    if i & 0xF800 == 0x1800 {
        ThumbClass::AddSub
    } else if i & 0xE000 == 0x0000 {
        ThumbClass::MoveShifted
    } else if i & 0xE000 == 0x2000 {
        ThumbClass::Immediate
    } else if i & 0xFC00 == 0x4000 {
        ThumbClass::Alu
    } else if i & 0xFC00 == 0x4400 {
        ThumbClass::HiRegBx
    } else if i & 0xF800 == 0x4800 {
        ThumbClass::LoadPcRel
    } else if i & 0xF200 == 0x5000 {
        ThumbClass::RegOffset
    } else if i & 0xF200 == 0x5200 {
        ThumbClass::SignExt
    } else if i & 0xE000 == 0x6000 {
        ThumbClass::ImmOffset
    } else if i & 0xF000 == 0x8000 {
        ThumbClass::Halfword
    } else if i & 0xF000 == 0x9000 {
        ThumbClass::SpRel
    } else if i & 0xF000 == 0xA000 {
        ThumbClass::RelAddr
    } else if i & 0xFF00 == 0xB000 {
        ThumbClass::OffsetSp
    } else if i & 0xF600 == 0xB400 {
        ThumbClass::PushPop
    } else if i & 0xF000 == 0xC000 {
        ThumbClass::MultipleLoadStore
    } else if i & 0xFF00 == 0xDF00 {
        ThumbClass::SoftwareInterrupt
    } else if i & 0xF000 == 0xD000 {
        ThumbClass::CondBranch
    } else if i & 0xF800 == 0xE000 {
        ThumbClass::UncondBranch
    } else if i & 0xF000 == 0xF000 {
        ThumbClass::BranchWithLink
    } else {
        ThumbClass::Undefined
    }
}

/// Executing the THUMB instruction `instr`.
pub open spec fn thumb_exec_step(s: CpuView, instr: u16, resp: Seq<u32>) -> (CpuView, Seq<BusOp>) {
    match thumb_class(instr) {
        ThumbClass::AddSub => add_sub_step(s, instr, resp),
        ThumbClass::MoveShifted => move_shifted_reg_step(s, instr, resp),
        ThumbClass::Immediate => immediate_step(s, instr, resp),
        ThumbClass::Alu => alu_step(s, instr, resp),
        ThumbClass::HiRegBx => hi_reg_bx_step(s, instr, resp),
        ThumbClass::LoadPcRel => load_pc_rel_step(s, instr, resp),
        ThumbClass::RegOffset => load_store_reg_offset_step(s, instr, resp),
        ThumbClass::SignExt => load_store_sign_ext_step(s, instr, resp),
        ThumbClass::ImmOffset => load_store_imm_offset_step(s, instr, resp),
        ThumbClass::Halfword => load_store_halfword_step(s, instr, resp),
        ThumbClass::SpRel => load_store_sp_rel_step(s, instr, resp),
        ThumbClass::RelAddr => get_rel_addr_step(s, instr, resp),
        ThumbClass::OffsetSp => add_offset_sp_step(s, instr, resp),
        ThumbClass::PushPop => push_pop_regs_step(s, instr, resp),
        ThumbClass::MultipleLoadStore => multiple_load_store_step(s, instr, resp),
        ThumbClass::SoftwareInterrupt => thumb_software_interrupt_step(s, instr, resp),
        ThumbClass::CondBranch => cond_branch_step(s, instr, resp),
        ThumbClass::UncondBranch => uncond_branch_step(s, instr, resp),
        _ => branch_with_link_step(s, instr, resp),
    }
}

/// Whether `instr` is a defined THUMB instruction: it matches a format, and
/// its fields take values that the format allows (no condition 0xE in a
/// conditional branch, no high destination register in BX).
pub open spec fn thumb_exec_ok(instr: u16) -> bool {
    match thumb_class(instr) {
        ThumbClass::AddSub => add_sub_ok(instr),
        ThumbClass::MoveShifted => move_shifted_reg_ok(instr),
        ThumbClass::Immediate => immediate_ok(instr),
        ThumbClass::Alu => alu_ok(instr),
        ThumbClass::HiRegBx => hi_reg_bx_ok(instr),
        ThumbClass::LoadPcRel => load_pc_rel_ok(instr),
        ThumbClass::RegOffset => load_store_reg_offset_ok(instr),
        ThumbClass::SignExt => load_store_sign_ext_ok(instr),
        ThumbClass::ImmOffset => load_store_imm_offset_ok(instr),
        ThumbClass::Halfword => load_store_halfword_ok(instr),
        ThumbClass::SpRel => load_store_sp_rel_ok(instr),
        ThumbClass::RelAddr => get_rel_addr_ok(instr),
        ThumbClass::OffsetSp => add_offset_sp_ok(instr),
        ThumbClass::PushPop => push_pop_regs_ok(instr),
        ThumbClass::MultipleLoadStore => multiple_load_store_ok(instr),
        ThumbClass::SoftwareInterrupt => thumb_software_interrupt_ok(instr),
        ThumbClass::CondBranch => cond_branch_ok(instr),
        ThumbClass::UncondBranch => uncond_branch_ok(instr),
        ThumbClass::BranchWithLink => branch_with_link_ok(instr),
        ThumbClass::Undefined => false,
    }
}

/// The processor after the prefetch of the next THUMB instruction.
pub open spec fn thumb_prefetch(s: CpuView, half: u16) -> CpuView {
    CpuView { regs: s.regs.with_pc(s.regs.pc.wrapping_add(2)), buffer: seq![s.buffer[1], half as u32] }
}

/// One THUMB instruction: the oldest prefetched halfword executes while the
/// next one is fetched.
pub open spec fn emulate_thumb_step(s: CpuView, resp: Seq<u32>) -> (CpuView, Seq<BusOp>) {
    let instr = s.buffer[0] as u16;
    let s1 = thumb_prefetch(s, resp[0] as u16);
    let (s2, t2) = thumb_exec_step(s1, instr, resp.skip(1));
    (s2, seq![BusOp::Read16(s1.regs.pc & !1u32, resp[0] as u16)] + t2)
}

pub open spec fn emulate_thumb_ok(s: CpuView) -> bool {
    thumb_exec_ok(s.buffer[0] as u16)
}

/// One instruction in the state that the T flag selects.
pub open spec fn emulate_step(s: CpuView, resp: Seq<u32>) -> (CpuView, Seq<BusOp>) {
    if s.regs.flag(FLAG_T) {
        emulate_thumb_step(s, resp)
    } else {
        emulate_arm_step(s, resp)
    }
}

/// Whether the next instruction is defined.
pub open spec fn emulate_ok(s: CpuView) -> bool {
    if s.regs.flag(FLAG_T) {
        emulate_thumb_ok(s)
    } else {
        emulate_arm_ok(s)
    }
}

/// A processor with the register file `regs`, after its first fill of the
/// prefetch buffer.
pub open spec fn reset_state(regs: RegsView, resp: Seq<u32>) -> CpuView {
    fill_arm_state(CpuView { regs, buffer: seq![0u32, 0u32] }, resp)
}

impl CPU {
    fn thumb_exec<M: IMMU>(&mut self, mmu: &mut M, instr: u16)
        requires
            old(self)@.wf(),
            thumb_exec_ok(instr),
        ensures
            follows(thumb_exec_step(old(self)@, instr, new_responses(old(mmu).ops(), final(mmu).ops())),
                final(self)@, old(mmu).ops(), final(mmu).ops()),
            final(self)@.wf(),
    {
        let i = instr as u32;
        if i & 0xF800 == 0x1800 {
            self.add_sub(mmu, instr)
        } else if i & 0xE000 == 0x0000 {
            self.move_shifted_reg(mmu, instr)
        } else if i & 0xE000 == 0x2000 {
            self.immediate(mmu, instr)
        } else if i & 0xFC00 == 0x4000 {
            self.alu(mmu, instr)
        } else if i & 0xFC00 == 0x4400 {
            self.hi_reg_bx(mmu, instr)
        } else if i & 0xF800 == 0x4800 {
            self.load_pc_rel(mmu, instr)
        } else if i & 0xF200 == 0x5000 {
            self.load_store_reg_offset(mmu, instr)
        } else if i & 0xF200 == 0x5200 {
            self.load_store_sign_ext(mmu, instr)
        } else if i & 0xE000 == 0x6000 {
            self.load_store_imm_offset(mmu, instr)
        } else if i & 0xF000 == 0x8000 {
            self.load_store_halfword(mmu, instr)
        } else if i & 0xF000 == 0x9000 {
            self.load_store_sp_rel(mmu, instr)
        } else if i & 0xF000 == 0xA000 {
            self.get_rel_addr(mmu, instr)
        } else if i & 0xFF00 == 0xB000 {
            self.add_offset_sp(mmu, instr)
        } else if i & 0xF600 == 0xB400 {
            self.push_pop_regs(mmu, instr)
        } else if i & 0xF000 == 0xC000 {
            self.multiple_load_store(mmu, instr)
        } else if i & 0xFF00 == 0xDF00 {
            self.thumb_software_interrupt(mmu, instr)
        } else if i & 0xF000 == 0xD000 {
            self.cond_branch(mmu, instr)
        } else if i & 0xF800 == 0xE000 {
            self.uncond_branch(mmu, instr)
        } else {
            self.branch_with_link(mmu, instr)
        }
    }

    /// Executes the oldest prefetched THUMB instruction.
    pub fn emulate_thumb_instr<M: IMMU>(&mut self, mmu: &mut M)
        requires
            old(self)@.wf(),
            emulate_thumb_ok(old(self)@),
        ensures
            follows(emulate_thumb_step(old(self)@, new_responses(old(mmu).ops(), final(mmu).ops())),
                final(self)@, old(mmu).ops(), final(mmu).ops()),
            final(self)@.wf(),
    {
        let ghost o = mmu.ops();
        let ghost s = self@;
        let instr = self.instr_buffer[0] as u16;
        self.instr_buffer[0] = self.instr_buffer[1];
        self.regs.pc = self.regs.pc.wrapping_add(2);
        let a = self.regs.pc & !0x1u32;
        let h = mmu.read16(a);
        self.instr_buffer[1] = h as u32;
        let ghost t0 = seq![BusOp::Read16(a, h)];
        proof {
            lemma_extend(o, Seq::empty(), t0[0]);
            assert(Seq::<BusOp>::empty().push(t0[0]) =~= t0);
            lemma_responses_empty();
            assert(responses(t0) =~= seq![h as u32]);
            assert(self@ =~= thumb_prefetch(s, h));
        }
        let ghost mid = mmu.ops();
        let ghost s1 = self@;
        self.thumb_exec(mmu, instr);
        proof {
            let u = thumb_exec_step(s1, instr, new_responses(mid, mmu.ops())).1;
            lemma_then(o, t0, u);
            lemma_after(mid, u);
            lemma_after(o, t0 + u);
            assert(responses(t0 + u).skip(1) =~= responses(u));
        }
    }

    /// Executes the next instruction, ARM or THUMB as the T flag says.
    pub fn emulate_instr<M: IMMU>(&mut self, mmu: &mut M)
        requires
            old(self)@.wf(),
            emulate_ok(old(self)@),
        ensures
            follows(emulate_step(old(self)@, new_responses(old(mmu).ops(), final(mmu).ops())),
                final(self)@, old(mmu).ops(), final(mmu).ops()),
            final(self)@.wf(),
    {
        if self.regs.get_t() {
            self.emulate_thumb_instr(mmu)
        } else {
            self.emulate_arm_instr(mmu)
        }
    }

    /// A processor as the BIOS leaves it, with the first two ARM instructions
    /// at address 0 fetched.
    pub fn new<M: IMMU>(mmu: &mut M) -> (cpu: CPU)
        ensures
            final(mmu).ops() == old(mmu).ops() + fill_arm_trace(0, new_responses(old(mmu).ops(), final(mmu).ops())),
            cpu@ == reset_state(bios_regs(), new_responses(old(mmu).ops(), final(mmu).ops())),
            cpu@.wf(),
    {
        let mut cpu = CPU { regs: super::registers::RegValues::new(), instr_buffer: [0; 2] };
        proof { assert(cpu@ =~= CpuView { regs: bios_regs(), buffer: seq![0u32, 0u32] }); }
        cpu.fill_arm_instr_buffer(mmu);
        cpu
    }

    /// A processor that starts at the cartridge ROM without running the BIOS.
    pub fn no_bios<M: IMMU>(mmu: &mut M) -> (cpu: CPU)
        ensures
            final(mmu).ops() == old(mmu).ops() + fill_arm_trace(0x0800_0000,
                new_responses(old(mmu).ops(), final(mmu).ops())),
            cpu@ == reset_state(bios_regs().with_pc(0x0800_0000), new_responses(old(mmu).ops(), final(mmu).ops())),
            cpu@.wf(),
    {
        let mut cpu = CPU { regs: super::registers::RegValues::no_bios(), instr_buffer: [0; 2] };
        proof { assert(cpu@ =~= CpuView { regs: bios_regs().with_pc(0x0800_0000), buffer: seq![0u32, 0u32] }); }
        cpu.fill_arm_instr_buffer(mmu);
        cpu
    }
}

} // verus!
