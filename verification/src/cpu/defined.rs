//! Tests of whether the next instruction is defined, so that a caller can
//! step the processor only where its step is defined.
use vstd::prelude::*;
use super::execute::{emulate_ok, thumb_exec_ok};
use super::thumb::{
    add_offset_sp_ok, add_sub_ok, alu_ok, branch_with_link_ok, cond_branch_ok, get_rel_addr_ok, hi_reg_bx_ok,
    immediate_ok, load_pc_rel_ok, move_shifted_reg_ok, thumb_software_interrupt_ok, uncond_branch_ok,
};
use super::thumb_transfer::{
    load_store_halfword_ok, load_store_imm_offset_ok, load_store_reg_offset_ok, load_store_sign_ext_ok,
    load_store_sp_rel_ok,
};
use super::thumb_block::{multiple_load_store_ok, push_pop_regs_ok};
use super::arm::{arm_exec_ok, arm_prefetch, bdt_start_regs, msr_value, psr_status_reg, psr_value};
use super::processor::{CPU, CpuView};
use super::registers::{lemma_with_mode_valid, valid_psr, Mode, Reg, RegValues, RegsView};
use vstd::arithmetic::power2::lemma2_to64;

verus! {

/// Whether the THUMB instruction `instr` is defined.
pub fn thumb_defined(instr: u16) -> (r: bool)
    ensures
        r == thumb_exec_ok(instr),
{
    let i = instr as u32;
    if i & 0xF800 == 0x1800 {
        (instr as u32) >> 11u32 == 0b00011
    } else if i & 0xE000 == 0x0000 {
        (instr as u32) >> 13u32 == 0 && ((instr as u32) >> 11u32) & 0x3 != 3
    } else if i & 0xE000 == 0x2000 {
        (instr as u32) >> 13u32 == 0b001
    } else if i & 0xFC00 == 0x4000 {
        ((instr as u32) >> 10u32) & 0x3F == 0b010000
    } else if i & 0xFC00 == 0x4400 {
        (instr as u32) >> 10u32 == 0b010001 && (!(((instr as u32) >> 8u32) & 0x3 == 3) || ((instr as u32) >> 7u32)
            & 1 == 0)
    } else if i & 0xF800 == 0x4800 {
        (instr as u32) >> 11u32 == 0b01001
    } else if i & 0xF200 == 0x5000 {
        (instr as u32) >> 12u32 == 0b0101 && ((instr as u32) >> 9u32) & 1 == 0
    } else if i & 0xF200 == 0x5200 {
        (instr as u32) >> 12u32 == 0b0101 && ((instr as u32) >> 9u32) & 1 == 1
    } else if i & 0xE000 == 0x6000 {
        (instr as u32) >> 13u32 == 0b011
    } else if i & 0xF000 == 0x8000 {
        load_store_halfword_defined(instr)
    } else if i & 0xF000 == 0x9000 {
        load_store_sp_rel_defined(instr)
    } else if i & 0xF000 == 0xA000 {
        ((instr as u32) >> 12u32) & 0xF == 0b1010
    } else if i & 0xFF00 == 0xB000 {
        ((instr as u32) >> 8u32) & 0xFF == 0b1011_0000
    } else if i & 0xF600 == 0xB400 {
        ((instr as u32) >> 12u32) & 0xF == 0b1011 && ((instr as u32) >> 9u32) & 0x3 == 0b10
    } else if i & 0xF000 == 0xC000 {
        (instr as u32) >> 12u32 == 0b1100
    } else if i & 0xFF00 == 0xDF00 {
        ((instr as u32) >> 8u32) & 0xFF == 0b1101_1111
    } else if i & 0xF000 == 0xD000 {
        (instr as u32) >> 12u32 == 0b1101 && ((instr as u32) >> 8u32) & 0xF < 0xE
    } else if i & 0xF800 == 0xE000 {
        (instr as u32) >> 11u32 == 0b11100
    } else if i & 0xF000 == 0xF000 {
        (instr as u32) >> 12u32 == 0xF
    } else {
        false
    }
}

fn load_store_halfword_defined(instr: u16) -> (r: bool)
    ensures
        r == load_store_halfword_ok(instr),
{
    (instr as u32) >> 12u32 == 0b1000
}

fn load_store_sp_rel_defined(instr: u16) -> (r: bool)
    ensures
        r == load_store_sp_rel_ok(instr),
{
    ((instr as u32) >> 12u32) & 0xF == 0b1001
}

/// Whether the status register value `psr` holds a valid mode.
fn psr_valid(psr: u32) -> (r: bool)
    ensures
        r == valid_psr(psr),
{
    let b = psr & 0x1F;
    b == 0x10 || b == 0x11 || b == 0x12 || b == 0x13 || b == 0x17 || b == 0x1F || b == 0x1B
}

/// Whether the current mode of `regs` has a saved status register.
fn mode_has_spsr(regs: &RegValues) -> (r: bool)
    requires
        regs@.wf(),
    ensures
        r == regs@.has_spsr(),
{
    let m = regs.get_mode();
    m == Mode::FIQ || m == Mode::SVC || m == Mode::ABT || m == Mode::IRQ || m == Mode::UND
}

/// Whether executing the ARM instruction `instr` is defined in the state
/// `s`, whose registers are `regs`.
fn arm_exec_defined(regs: &RegValues, instr: u32, Ghost(s): Ghost<CpuView>) -> (r: bool)
    requires
        regs@.wf(),
        s.regs == regs@,
    ensures
        r == arm_exec_ok(s, instr),
{
    if instr & 0x0FFF_FFF0 == 0x012F_FF10 {
        true
    } else if instr & 0x0FC0_00F0 == 0x0000_0090 {
        (instr >> 22u32) & 0x3F == 0 && (instr >> 4u32) & 0xF == 0b1001 && (!((instr >> 21u32) & 1 == 0) || (instr
            >> 12u32) & 0xF == 0)
    } else if instr & 0x0F80_00F0 == 0x0080_0090 {
        (instr >> 23u32) & 0x1F == 0b00001 && (instr >> 4u32) & 0xF == 0b1001
    } else if instr & 0x0F80_0FF0 == 0x0100_0090 {
        (instr >> 23u32) & 0x1F == 0b00010 && (instr >> 20u32) & 0x3 == 0 && (instr >> 4u32) & 0xFF == 0b0000_1001
    } else if instr & 0x0E00_0090 == 0x0000_0090 {
        let load = (instr >> 20u32) & 1 == 1;
        let opcode = (instr >> 5u32) & 0x3;
        (instr >> 25u32) & 0x7 == 0 && (instr >> 7u32) & 1 == 1 && (instr >> 4u32) & 1 == 1 && (!((instr >> 22u32)
            & 1 == 0) || (instr >> 8u32) & 0xF == 0) && (!load || opcode != 0) && (load || opcode == 1)
    } else if instr & 0x0D90_0000 == 0x0100_0000 {
        psr_transfer_defined(regs, instr)
    } else if instr & 0x0C00_0000 == 0 {
        let opcode = (instr >> 21u32) & 0xF;
        let spsr_ok = if (instr >> 20u32) & 1 == 1 && (instr >> 12u32) & 0xF == 15 {
            mode_has_spsr(regs) && psr_valid(regs.get_reg(Reg::SPSR))
        } else {
            true
        };
        (!((instr >> 25u32) & 1 == 0 && (instr >> 4u32) & 1 == 1) || (instr >> 7u32) & 1 == 0) && (!((instr >> 20u32)
            & 1 == 0) || opcode & 0xC != 0x8) && spsr_ok
    } else if instr & 0x0C00_0000 == 0x0400_0000 {
        (instr >> 26u32) & 0x3 == 0b01 && (!((instr >> 25u32) & 1 == 1) || ((instr >> 4u32) & 1 == 0 && instr & 0xF
            != 15)) && (!((instr >> 24u32) & 1 == 0) || (instr >> 21u32) & 1 == 0)
    } else if instr & 0x0E00_0000 == 0x0800_0000 {
        block_transfer_defined(regs, instr)
    } else if instr & 0x0E00_0000 == 0x0A00_0000 {
        true
    } else if instr & 0x0F00_0000 == 0x0F00_0000 {
        true
    } else {
        false
    }
}

fn psr_transfer_defined(regs: &RegValues, instr: u32) -> (r: bool)
    requires
        regs@.wf(),
    ensures
        r == super::arm::psr_transfer_ok(CpuView { regs: regs@, buffer: seq![] }, instr),
{
    let spsr = (instr >> 22u32) & 1 == 1;
    let fields = (instr >> 26u32) & 0x3 == 0 && (instr >> 23u32) & 0x3 == 0b10 && (instr >> 20u32) & 1 == 0;
    if !fields {
        return false;
    }
    let has_spsr = mode_has_spsr(regs);
    if spsr && !has_spsr {
        return false;
    }
    if (instr >> 21u32) & 1 == 1 {
        let form = (instr >> 12u32) & 0xF == 0xF && (!((instr >> 25u32) & 1 == 0) || (instr >> 4u32) & 0xFF == 0);
        if !form {
            return false;
        }
        if !spsr {
            psr_valid(msr_value(regs, instr))
        } else {
            true
        }
    } else {
        (instr >> 25u32) & 1 == 0 && instr & 0xFFF == 0
    }
}

fn block_transfer_defined(regs: &RegValues, instr: u32) -> (r: bool)
    requires
        regs@.wf(),
    ensures
        r == super::arm::block_data_transfer_ok(CpuView { regs: regs@, buffer: seq![] }, instr),
{
    let form = (instr >> 25u32) & 0x7 == 0b100 && (instr >> 16u32) & 0xF != 15 && instr & 0xFFFF != 0;
    if !form {
        return false;
    }
    let load = (instr >> 20u32) & 1 == 1;
    let s_bit = (instr >> 22u32) & 1 == 1;
    if load && s_bit && ((instr & 0xFFFF) >> 15u32) & 1 == 1 {
        assert(15int as u32 == 15u32);
        if s_bit && !(load && (instr & 0xFFFF) & 0x80 != 0) {
            proof {
                lemma_with_mode_valid(regs@.cpsr, Mode::USR);
            }
            false
        } else {
            mode_has_spsr(regs) && psr_valid(regs.get_reg(Reg::SPSR))
        }
    } else {
        true
    }
}

impl CPU {
    /// Whether the next instruction is defined, so that `emulate_instr` may
    /// run it.
    pub fn next_instruction_defined(&self) -> (r: bool)
        requires
            self@.wf(),
        ensures
            r == emulate_ok(self@),
    {
        let instr = self.instr_buffer[0];
        if self.regs.get_t() {
            return thumb_defined(instr as u16);
        }
        let mut regs = self.regs;
        regs.pc = regs.pc.wrapping_add(4);
        let ghost s1 = arm_prefetch(self@, 0);
        assert(regs@ == s1.regs);
        proof {
            vstd::bits::lemma_u32_shr_is_div(instr, 28);
            lemma2_to64();
        }
        if !self.should_exec(instr >> 28u32) {
            return true;
        }
        arm_exec_defined(&regs, instr, Ghost(s1))
    }
}

} // verus!
