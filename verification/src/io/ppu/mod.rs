//! The picture processing unit: its registers, palettes, VRAM and OAM, the
//! position of the display, and the renderer of each line.
use vstd::prelude::*;
use crate::gba::{WIDTH, HEIGHT};
use super::IORegister;
use super::interrupt_controller::{InterruptRequest, INTERRUPT_HBLANK, INTERRUPT_VBLANK, INTERRUPT_VCOUNTER_MATCH};

pub mod registers;
pub mod debug;

use registers::{
    BGMode, BGCNT, DISPCNT, DISPSTAT, OFS, RotationScalingParameter, ReferencePointCoord, WindowControl,
    WindowDimensions, DISPLAY_BG0, DISPLAY_BG1, DISPLAY_BG2, DISPLAY_BG3, DISPLAY_FRAME_SELECT, DISPLAY_OBJ,
    OBJ_TILES1D,
    DISPSTAT_HBLANK, DISPSTAT_VBLANK,
};

verus! {

/// The pixels of the picture.
pub const PIXELS: usize = 38400;

/// The registers of the display, as the bus sees them.
#[derive(Clone, Copy)]
pub struct PPURegisters {
    pub dispcnt: DISPCNT,
    pub green_swap: bool,
    pub dispstat: DISPSTAT,
    pub bgcnt0: BGCNT,
    pub bgcnt1: BGCNT,
    pub bgcnt2: BGCNT,
    pub bgcnt3: BGCNT,
    pub hofs0: OFS,
    pub hofs1: OFS,
    pub hofs2: OFS,
    pub hofs3: OFS,
    pub vofs0: OFS,
    pub vofs1: OFS,
    pub vofs2: OFS,
    pub vofs3: OFS,
    pub pa0: RotationScalingParameter,
    pub pa1: RotationScalingParameter,
    pub pb0: RotationScalingParameter,
    pub pb1: RotationScalingParameter,
    pub pc0: RotationScalingParameter,
    pub pc1: RotationScalingParameter,
    pub pd0: RotationScalingParameter,
    pub pd1: RotationScalingParameter,
    pub bgx0: ReferencePointCoord,
    pub bgx1: ReferencePointCoord,
    pub bgy0: ReferencePointCoord,
    pub bgy1: ReferencePointCoord,
    pub winh0: WindowDimensions,
    pub winh1: WindowDimensions,
    pub winv0: WindowDimensions,
    pub winv1: WindowDimensions,
    pub win_0_cnt: WindowControl,
    pub win_1_cnt: WindowControl,
    pub win_out_cnt: WindowControl,
    pub win_obj_cnt: WindowControl,
}

impl PPURegisters {
    pub open spec fn wf(&self) -> bool {
        self.bgcnt0.wf() && self.bgcnt1.wf() && self.bgcnt2.wf() && self.bgcnt3.wf()
    }

    /// The control register of background `i` (0 to 3).
    pub open spec fn bgcnt_of(&self, i: int) -> BGCNT {
        if i == 0 {
            self.bgcnt0
        } else if i == 1 {
            self.bgcnt1
        } else if i == 2 {
            self.bgcnt2
        } else {
            self.bgcnt3
        }
    }

    /// The horizontal and vertical offsets of background `i`.
    pub open spec fn hofs_of(&self, i: int) -> u16 {
        if i == 0 {
            self.hofs0.offset
        } else if i == 1 {
            self.hofs1.offset
        } else if i == 2 {
            self.hofs2.offset
        } else {
            self.hofs3.offset
        }
    }

    pub open spec fn vofs_of(&self, i: int) -> u16 {
        if i == 0 {
            self.vofs0.offset
        } else if i == 1 {
            self.vofs1.offset
        } else if i == 2 {
            self.vofs2.offset
        } else {
            self.vofs3.offset
        }
    }

    /// The byte at offset `a` of the display's I/O; `vcount` is the line
    /// being drawn. Offsets that map nothing read 0.
    pub open spec fn read_byte(&self, vcount: u8, a: u32) -> u8 {
        if a == 0x000 {
            self.dispcnt.read_spec(0)
        } else if a == 0x001 {
            self.dispcnt.read_spec(1)
        } else if a == 0x002 {
            if self.green_swap { 1 } else { 0 }
        } else if a == 0x004 {
            self.dispstat.read_spec(0)
        } else if a == 0x005 {
            self.dispstat.read_spec(1)
        } else if a == 0x006 {
            vcount
        } else if a == 0x008 {
            self.bgcnt0.read_spec(0)
        } else if a == 0x009 {
            self.bgcnt0.read_spec(1)
        } else if a == 0x00A {
            self.bgcnt1.read_spec(0)
        } else if a == 0x00B {
            self.bgcnt1.read_spec(1)
        } else if a == 0x00C {
            self.bgcnt2.read_spec(0)
        } else if a == 0x00D {
            self.bgcnt2.read_spec(1)
        } else if a == 0x00E {
            self.bgcnt3.read_spec(0)
        } else if a == 0x00F {
            self.bgcnt3.read_spec(1)
        } else if a == 0x010 {
            self.hofs0.read_spec(0)
        } else if a == 0x011 {
            self.hofs0.read_spec(1)
        } else if a == 0x012 {
            self.vofs0.read_spec(0)
        } else if a == 0x013 {
            self.vofs0.read_spec(1)
        } else if a == 0x014 {
            self.hofs1.read_spec(1)
        } else if a == 0x015 {
            self.hofs1.read_spec(0)
        } else if a == 0x016 {
            self.vofs1.read_spec(0)
        } else if a == 0x017 {
            self.vofs1.read_spec(1)
        } else if a == 0x018 {
            self.hofs2.read_spec(0)
        } else if a == 0x019 {
            self.hofs2.read_spec(1)
        } else if a == 0x01A {
            self.vofs2.read_spec(0)
        } else if a == 0x01B {
            self.vofs2.read_spec(1)
        } else if a == 0x01C {
            self.hofs3.read_spec(0)
        } else if a == 0x01D {
            self.hofs3.read_spec(1)
        } else if a == 0x01E {
            self.vofs3.read_spec(0)
        } else if a == 0x01F {
            self.vofs3.read_spec(1)
        } else if a == 0x020 {
            self.pa0.read_spec(0)
        } else if a == 0x021 {
            self.pa0.read_spec(1)
        } else if a == 0x022 {
            self.pb0.read_spec(0)
        } else if a == 0x023 {
            self.pb0.read_spec(1)
        } else if a == 0x024 {
            self.pc0.read_spec(0)
        } else if a == 0x025 {
            self.pc0.read_spec(1)
        } else if a == 0x026 {
            self.pd0.read_spec(0)
        } else if a == 0x027 {
            self.pd0.read_spec(1)
        } else if a == 0x028 {
            self.bgx0.read_spec(0)
        } else if a == 0x029 {
            self.bgx0.read_spec(1)
        } else if a == 0x02A {
            self.bgx0.read_spec(2)
        } else if a == 0x02B {
            self.bgx0.read_spec(3)
        } else if a == 0x02C {
            self.bgy0.read_spec(0)
        } else if a == 0x02D {
            self.bgy0.read_spec(1)
        } else if a == 0x02E {
            self.bgy0.read_spec(2)
        } else if a == 0x02F {
            self.bgy0.read_spec(3)
        } else if a == 0x030 {
            self.pa1.read_spec(0)
        } else if a == 0x031 {
            self.pa1.read_spec(1)
        } else if a == 0x032 {
            self.pb1.read_spec(0)
        } else if a == 0x033 {
            self.pb1.read_spec(1)
        } else if a == 0x034 {
            self.pc1.read_spec(0)
        } else if a == 0x035 {
            self.pc1.read_spec(1)
        } else if a == 0x036 {
            self.pd1.read_spec(0)
        } else if a == 0x037 {
            self.pd1.read_spec(1)
        } else if a == 0x038 {
            self.bgx1.read_spec(0)
        } else if a == 0x039 {
            self.bgx1.read_spec(1)
        } else if a == 0x03A {
            self.bgx1.read_spec(2)
        } else if a == 0x03B {
            self.bgx1.read_spec(3)
        } else if a == 0x03C {
            self.bgy1.read_spec(0)
        } else if a == 0x03D {
            self.bgy1.read_spec(1)
        } else if a == 0x03E {
            self.bgy1.read_spec(2)
        } else if a == 0x03F {
            self.bgy1.read_spec(3)
        } else if a == 0x040 {
            self.winh0.read_spec(0)
        } else if a == 0x041 {
            self.winh0.read_spec(1)
        } else if a == 0x042 {
            self.winh1.read_spec(0)
        } else if a == 0x043 {
            self.winh1.read_spec(1)
        } else if a == 0x044 {
            self.winv0.read_spec(0)
        } else if a == 0x045 {
            self.winv0.read_spec(1)
        } else if a == 0x046 {
            self.winv1.read_spec(0)
        } else if a == 0x047 {
            self.winv1.read_spec(1)
        } else if a == 0x048 {
            self.win_0_cnt.read_spec(0)
        } else if a == 0x049 {
            self.win_1_cnt.read_spec(0)
        } else if a == 0x04A {
            self.win_out_cnt.read_spec(0)
        } else if a == 0x04B {
            self.win_obj_cnt.read_spec(0)
        } else {
            0
        }
    }

    /// The registers after a write of `value` at offset `a`, for offsets
    /// of the control registers.
    pub open spec fn written_control(self, a: u32, value: u8) -> PPURegisters {
        if a == 0x000 {
            PPURegisters { dispcnt: self.dispcnt.after_write(0, value), ..self }
        } else if a == 0x001 {
            PPURegisters { dispcnt: self.dispcnt.after_write(1, value), ..self }
        } else if a == 0x002 {
            PPURegisters { green_swap: value % 2 == 1, ..self }
        } else if a == 0x004 {
            PPURegisters { dispstat: self.dispstat.after_write(0, value), ..self }
        } else if a == 0x005 {
            PPURegisters { dispstat: self.dispstat.after_write(1, value), ..self }
        } else if a == 0x008 {
            PPURegisters { bgcnt0: self.bgcnt0.after_write(0, value), ..self }
        } else if a == 0x009 {
            PPURegisters { bgcnt0: self.bgcnt0.after_write(1, value), ..self }
        } else if a == 0x00A {
            PPURegisters { bgcnt1: self.bgcnt1.after_write(0, value), ..self }
        } else if a == 0x00B {
            PPURegisters { bgcnt1: self.bgcnt1.after_write(1, value), ..self }
        } else if a == 0x00C {
            PPURegisters { bgcnt2: self.bgcnt2.after_write(0, value), ..self }
        } else if a == 0x00D {
            PPURegisters { bgcnt2: self.bgcnt2.after_write(1, value), ..self }
        } else if a == 0x00E {
            PPURegisters { bgcnt3: self.bgcnt3.after_write(0, value), ..self }
        } else if a == 0x00F {
            PPURegisters { bgcnt3: self.bgcnt3.after_write(1, value), ..self }
        } else {
            self
        }
    }
    /// The registers after a write of `value` at offset `a`, for offsets
    /// of the offsets registers.
    pub open spec fn written_offsets(self, a: u32, value: u8) -> PPURegisters {
        if a == 0x010 {
            PPURegisters { hofs0: self.hofs0.after_write(0, value), ..self }
        } else if a == 0x011 {
            PPURegisters { hofs0: self.hofs0.after_write(1, value), ..self }
        } else if a == 0x012 {
            PPURegisters { vofs0: self.vofs0.after_write(0, value), ..self }
        } else if a == 0x013 {
            PPURegisters { vofs0: self.vofs0.after_write(1, value), ..self }
        } else if a == 0x014 {
            PPURegisters { hofs1: self.hofs1.after_write(1, value), ..self }
        } else if a == 0x015 {
            PPURegisters { hofs1: self.hofs1.after_write(0, value), ..self }
        } else if a == 0x016 {
            PPURegisters { vofs1: self.vofs1.after_write(0, value), ..self }
        } else if a == 0x017 {
            PPURegisters { vofs1: self.vofs1.after_write(1, value), ..self }
        } else if a == 0x018 {
            PPURegisters { hofs2: self.hofs2.after_write(0, value), ..self }
        } else if a == 0x019 {
            PPURegisters { hofs2: self.hofs2.after_write(1, value), ..self }
        } else if a == 0x01A {
            PPURegisters { vofs2: self.vofs2.after_write(0, value), ..self }
        } else if a == 0x01B {
            PPURegisters { vofs2: self.vofs2.after_write(1, value), ..self }
        } else if a == 0x01C {
            PPURegisters { hofs3: self.hofs3.after_write(0, value), ..self }
        } else if a == 0x01D {
            PPURegisters { hofs3: self.hofs3.after_write(1, value), ..self }
        } else if a == 0x01E {
            PPURegisters { vofs3: self.vofs3.after_write(0, value), ..self }
        } else if a == 0x01F {
            PPURegisters { vofs3: self.vofs3.after_write(1, value), ..self }
        } else {
            self
        }
    }
    /// The registers after a write of `value` at offset `a`, for offsets
    /// of the affine registers.
    pub open spec fn written_affine(self, a: u32, value: u8) -> PPURegisters {
        if a == 0x020 {
            PPURegisters { pa0: self.pa0.after_write(0, value), ..self }
        } else if a == 0x021 {
            PPURegisters { pa0: self.pa0.after_write(1, value), ..self }
        } else if a == 0x022 {
            PPURegisters { pb0: self.pb0.after_write(0, value), ..self }
        } else if a == 0x023 {
            PPURegisters { pb0: self.pb0.after_write(1, value), ..self }
        } else if a == 0x024 {
            PPURegisters { pc0: self.pc0.after_write(0, value), ..self }
        } else if a == 0x025 {
            PPURegisters { pc0: self.pc0.after_write(1, value), ..self }
        } else if a == 0x026 {
            PPURegisters { pd0: self.pd0.after_write(0, value), ..self }
        } else if a == 0x027 {
            PPURegisters { pd0: self.pd0.after_write(1, value), ..self }
        } else if a == 0x028 {
            PPURegisters { bgx0: self.bgx0.after_write(0, value), ..self }
        } else if a == 0x029 {
            PPURegisters { bgx0: self.bgx0.after_write(1, value), ..self }
        } else if a == 0x02A {
            PPURegisters { bgx0: self.bgx0.after_write(2, value), ..self }
        } else if a == 0x02B {
            PPURegisters { bgx0: self.bgx0.after_write(3, value), ..self }
        } else if a == 0x02C {
            PPURegisters { bgy0: self.bgy0.after_write(0, value), ..self }
        } else if a == 0x02D {
            PPURegisters { bgy0: self.bgy0.after_write(1, value), ..self }
        } else if a == 0x02E {
            PPURegisters { bgy0: self.bgy0.after_write(2, value), ..self }
        } else if a == 0x02F {
            PPURegisters { bgy0: self.bgy0.after_write(3, value), ..self }
        } else if a == 0x030 {
            PPURegisters { pa1: self.pa1.after_write(0, value), ..self }
        } else if a == 0x031 {
            PPURegisters { pa1: self.pa1.after_write(1, value), ..self }
        } else if a == 0x032 {
            PPURegisters { pb1: self.pb1.after_write(0, value), ..self }
        } else if a == 0x033 {
            PPURegisters { pb1: self.pb1.after_write(1, value), ..self }
        } else if a == 0x034 {
            PPURegisters { pc1: self.pc1.after_write(0, value), ..self }
        } else if a == 0x035 {
            PPURegisters { pc1: self.pc1.after_write(1, value), ..self }
        } else if a == 0x036 {
            PPURegisters { pd1: self.pd1.after_write(0, value), ..self }
        } else if a == 0x037 {
            PPURegisters { pd1: self.pd1.after_write(1, value), ..self }
        } else if a == 0x038 {
            PPURegisters { bgx1: self.bgx1.after_write(0, value), ..self }
        } else if a == 0x039 {
            PPURegisters { bgx1: self.bgx1.after_write(1, value), ..self }
        } else if a == 0x03A {
            PPURegisters { bgx1: self.bgx1.after_write(2, value), ..self }
        } else if a == 0x03B {
            PPURegisters { bgx1: self.bgx1.after_write(3, value), ..self }
        } else if a == 0x03C {
            PPURegisters { bgy1: self.bgy1.after_write(0, value), ..self }
        } else if a == 0x03D {
            PPURegisters { bgy1: self.bgy1.after_write(1, value), ..self }
        } else if a == 0x03E {
            PPURegisters { bgy1: self.bgy1.after_write(2, value), ..self }
        } else if a == 0x03F {
            PPURegisters { bgy1: self.bgy1.after_write(3, value), ..self }
        } else {
            self
        }
    }
    /// The registers after a write of `value` at offset `a`, for offsets
    /// of the windows registers.
    pub open spec fn written_windows(self, a: u32, value: u8) -> PPURegisters {
        if a == 0x040 {
            PPURegisters { winh0: self.winh0.after_write(0, value), ..self }
        } else if a == 0x041 {
            PPURegisters { winh0: self.winh0.after_write(1, value), ..self }
        } else if a == 0x042 {
            PPURegisters { winh1: self.winh1.after_write(0, value), ..self }
        } else if a == 0x043 {
            PPURegisters { winh1: self.winh1.after_write(1, value), ..self }
        } else if a == 0x044 {
            PPURegisters { winv0: self.winv0.after_write(0, value), ..self }
        } else if a == 0x045 {
            PPURegisters { winv0: self.winv0.after_write(1, value), ..self }
        } else if a == 0x046 {
            PPURegisters { winv1: self.winv1.after_write(0, value), ..self }
        } else if a == 0x047 {
            PPURegisters { winv1: self.winv1.after_write(1, value), ..self }
        } else if a == 0x048 {
            PPURegisters { win_0_cnt: self.win_0_cnt.after_write(0, value), ..self }
        } else if a == 0x049 {
            PPURegisters { win_1_cnt: self.win_1_cnt.after_write(0, value), ..self }
        } else if a == 0x04A {
            PPURegisters { win_out_cnt: self.win_out_cnt.after_write(0, value), ..self }
        } else if a == 0x04B {
            PPURegisters { win_obj_cnt: self.win_obj_cnt.after_write(0, value), ..self }
        } else {
            self
        }
    }
    /// The registers after a write of `value` at offset `a` of the
    /// display's I/O; writes to VCOUNT and to offsets that map nothing are
    /// ignored.
    pub open spec fn written(self, a: u32, value: u8) -> PPURegisters {
        if a < 0x010 {
            self.written_control(a, value)
        } else if a < 0x020 {
            self.written_offsets(a, value)
        } else if a < 0x040 {
            self.written_affine(a, value)
        } else {
            self.written_windows(a, value)
        }
    }

    fn write_control(&mut self, a: u32, value: u8)
        requires
            a == 0 ==> value & 7 < 6,
        ensures
            *final(self) == old(self).written_control(a, value),
            old(self).wf() ==> final(self).wf(),
    {
        match a {
            0x000 => self.dispcnt.write(0, value),
            0x001 => self.dispcnt.write(1, value),
            0x002 => self.green_swap = value % 2 == 1,
            0x004 => self.dispstat.write(0, value),
            0x005 => self.dispstat.write(1, value),
            0x008 => self.bgcnt0.write(0, value),
            0x009 => self.bgcnt0.write(1, value),
            0x00A => self.bgcnt1.write(0, value),
            0x00B => self.bgcnt1.write(1, value),
            0x00C => self.bgcnt2.write(0, value),
            0x00D => self.bgcnt2.write(1, value),
            0x00E => self.bgcnt3.write(0, value),
            0x00F => self.bgcnt3.write(1, value),
            _ => {},
        }
    }

    fn write_offsets(&mut self, a: u32, value: u8)
        ensures
            *final(self) == old(self).written_offsets(a, value),
            old(self).wf() ==> final(self).wf(),
    {
        match a {
            0x010 => self.hofs0.write(0, value),
            0x011 => self.hofs0.write(1, value),
            0x012 => self.vofs0.write(0, value),
            0x013 => self.vofs0.write(1, value),
            0x014 => self.hofs1.write(1, value),
            0x015 => self.hofs1.write(0, value),
            0x016 => self.vofs1.write(0, value),
            0x017 => self.vofs1.write(1, value),
            0x018 => self.hofs2.write(0, value),
            0x019 => self.hofs2.write(1, value),
            0x01A => self.vofs2.write(0, value),
            0x01B => self.vofs2.write(1, value),
            0x01C => self.hofs3.write(0, value),
            0x01D => self.hofs3.write(1, value),
            0x01E => self.vofs3.write(0, value),
            0x01F => self.vofs3.write(1, value),
            _ => {},
        }
    }

    fn write_affine(&mut self, a: u32, value: u8)
        ensures
            *final(self) == old(self).written_affine(a, value),
            old(self).wf() ==> final(self).wf(),
    {
        match a {
            0x020 => self.pa0.write(0, value),
            0x021 => self.pa0.write(1, value),
            0x022 => self.pb0.write(0, value),
            0x023 => self.pb0.write(1, value),
            0x024 => self.pc0.write(0, value),
            0x025 => self.pc0.write(1, value),
            0x026 => self.pd0.write(0, value),
            0x027 => self.pd0.write(1, value),
            0x028 => self.bgx0.write(0, value),
            0x029 => self.bgx0.write(1, value),
            0x02A => self.bgx0.write(2, value),
            0x02B => self.bgx0.write(3, value),
            0x02C => self.bgy0.write(0, value),
            0x02D => self.bgy0.write(1, value),
            0x02E => self.bgy0.write(2, value),
            0x02F => self.bgy0.write(3, value),
            0x030 => self.pa1.write(0, value),
            0x031 => self.pa1.write(1, value),
            0x032 => self.pb1.write(0, value),
            0x033 => self.pb1.write(1, value),
            0x034 => self.pc1.write(0, value),
            0x035 => self.pc1.write(1, value),
            0x036 => self.pd1.write(0, value),
            0x037 => self.pd1.write(1, value),
            0x038 => self.bgx1.write(0, value),
            0x039 => self.bgx1.write(1, value),
            0x03A => self.bgx1.write(2, value),
            0x03B => self.bgx1.write(3, value),
            0x03C => self.bgy1.write(0, value),
            0x03D => self.bgy1.write(1, value),
            0x03E => self.bgy1.write(2, value),
            0x03F => self.bgy1.write(3, value),
            _ => {},
        }
    }

    fn write_windows(&mut self, a: u32, value: u8)
        ensures
            *final(self) == old(self).written_windows(a, value),
            old(self).wf() ==> final(self).wf(),
    {
        match a {
            0x040 => self.winh0.write(0, value),
            0x041 => self.winh0.write(1, value),
            0x042 => self.winh1.write(0, value),
            0x043 => self.winh1.write(1, value),
            0x044 => self.winv0.write(0, value),
            0x045 => self.winv0.write(1, value),
            0x046 => self.winv1.write(0, value),
            0x047 => self.winv1.write(1, value),
            _ => self.write_window_control(a, value),
        }
    }

    #[verifier::rlimit(60)]
    fn write_window_control(&mut self, a: u32, value: u8)
        requires
            !(0x040 <= a <= 0x047),
        ensures
            *final(self) == old(self).written_windows(a, value),
            old(self).wf() ==> final(self).wf(),
    {
        match a {
            0x048 => self.win_0_cnt.write(0, value),
            0x049 => self.win_1_cnt.write(0, value),
            0x04A => self.win_out_cnt.write(0, value),
            0x04B => self.win_obj_cnt.write(0, value),
            _ => {},
        }
    }

    /// Writes `value` at offset `a` of the display's I/O.
    pub fn write(&mut self, a: u32, value: u8)
        requires
            a == 0 ==> value & 7 < 6,
        ensures
            *final(self) == old(self).written(a, value),
            old(self).wf() ==> final(self).wf(),
    {
        if a < 0x010 {
            self.write_control(a, value);
        } else if a < 0x020 {
            self.write_offsets(a, value);
        } else if a < 0x040 {
            self.write_affine(a, value);
        } else {
            self.write_windows(a, value);
        }
    }
}

/// The picture processing unit.
pub struct PPU {
    pub regs: PPURegisters,
    pub vcount: u8,
    pub bg_palettes: Vec<u16>,
    pub obj_palettes: Vec<u16>,
    pub vram: Vec<u8>,
    pub oam: Vec<u8>,
    pub dot: u16,
    pub pixels: Vec<u16>,
    pub needs_to_render: bool,
}

/// DISPSTAT's flags after a dot at (`dot`, `vcount`): HBlank from dot 240
/// on, VBlank from line 160 on and in the last line.
pub open spec fn blank_flags(flags: u16, dot: u16, vcount: u8) -> u16 {
    let f = if dot < 240 { flags & !DISPSTAT_HBLANK } else { flags | DISPSTAT_HBLANK };
    if vcount < 160 && vcount != 227 { f & !DISPSTAT_VBLANK } else { f | DISPSTAT_VBLANK }
}

/// The interrupts that a dot at (`dot`, `vcount`) requests, when the next
/// line will be `next_line` (if the line ends) and DISPSTAT's line setting
/// is `setting`.
pub open spec fn dot_interrupts(dot: u16, vcount: u8, setting: u8) -> u16 {
    let h = if dot < 240 { 0u16 } else { INTERRUPT_HBLANK };
    let v = if vcount < 160 && vcount != 227 { 0u16 } else { INTERRUPT_VBLANK };
    let m = if dot + 1 == 308 && (vcount + 1) % 228 == setting { INTERRUPT_VCOUNTER_MATCH } else { 0u16 };
    h | v | m
}

impl PPU {
    pub open spec fn wf(&self) -> bool {
        &&& self.regs.wf()
        &&& self.bg_palettes.len() == 0x100 && self.obj_palettes.len() == 0x100
        &&& self.vram.len() == 0x18000 && self.oam.len() == 0x400
        &&& self.pixels.len() == PIXELS
        &&& self.dot < 308 && self.vcount < 228
    }

    /// The dot of the frame that the display is at.
    pub open spec fn position(&self) -> int {
        self.vcount * 308 + self.dot
    }

    /// Tests `wf`.
    pub fn is_wf(&self) -> (r: bool)
        ensures
            r == self.wf(),
    {
        let r = &self.regs;
        let cnt_ok = |c: BGCNT| -> (b: bool)
            ensures
                b == c.wf(),
            { c.priority < 4 && c.tile_block < 4 && c.map_block < 32 && c.screen_size < 4 };
        cnt_ok(r.bgcnt0) && cnt_ok(r.bgcnt1) && cnt_ok(r.bgcnt2) && cnt_ok(r.bgcnt3) && self.bg_palettes.len()
            == 0x100 && self.obj_palettes.len() == 0x100 && self.vram.len() == 0x18000 && self.oam.len() == 0x400
            && self.pixels.len() == PIXELS && self.dot < 308 && self.vcount < 228
    }

    /// Memories cleared, registers zero, the display at the first dot.
    pub fn new() -> (r: PPU)
        ensures
            r.wf(),
            r.dot == 0 && r.vcount == 0 && !r.needs_to_render,
            r.vram@ == Seq::new(0x18000, |i: int| 0u8),
            r.oam@ == Seq::new(0x400, |i: int| 0u8),
            r.bg_palettes@ == Seq::new(0x100, |i: int| 0u16),
            r.obj_palettes@ == Seq::new(0x100, |i: int| 0u16),
            r.pixels@ == Seq::new(PIXELS as nat, |i: int| 0u16),
            r.regs.dispcnt == (DISPCNT { flags: 0, mode: BGMode::Mode0 }) && !r.regs.green_swap,
            r.regs.dispstat == (DISPSTAT { flags: 0, vcount_setting: 0 }),
    {
        let regs = PPURegisters {
            dispcnt: DISPCNT::new(),
            green_swap: false,
            dispstat: DISPSTAT::new(),
            bgcnt0: BGCNT::new(),
            bgcnt1: BGCNT::new(),
            bgcnt2: BGCNT::new(),
            bgcnt3: BGCNT::new(),
            hofs0: OFS::new(),
            hofs1: OFS::new(),
            hofs2: OFS::new(),
            hofs3: OFS::new(),
            vofs0: OFS::new(),
            vofs1: OFS::new(),
            vofs2: OFS::new(),
            vofs3: OFS::new(),
            pa0: RotationScalingParameter::new(),
            pa1: RotationScalingParameter::new(),
            pb0: RotationScalingParameter::new(),
            pb1: RotationScalingParameter::new(),
            pc0: RotationScalingParameter::new(),
            pc1: RotationScalingParameter::new(),
            pd0: RotationScalingParameter::new(),
            pd1: RotationScalingParameter::new(),
            bgx0: ReferencePointCoord::new(),
            bgx1: ReferencePointCoord::new(),
            bgy0: ReferencePointCoord::new(),
            bgy1: ReferencePointCoord::new(),
            winh0: WindowDimensions::new(),
            winh1: WindowDimensions::new(),
            winv0: WindowDimensions::new(),
            winv1: WindowDimensions::new(),
            win_0_cnt: WindowControl::new(),
            win_1_cnt: WindowControl::new(),
            win_out_cnt: WindowControl::new(),
            win_obj_cnt: WindowControl::new(),
        };
        let r = PPU {
            regs,
            vcount: 0,
            bg_palettes: vec![0u16; 0x100],
            obj_palettes: vec![0u16; 0x100],
            vram: vec![0u8; 0x18000],
            oam: vec![0u8; 0x400],
            dot: 0,
            pixels: vec![0u16; PIXELS],
            needs_to_render: false,
        };
        assert(r.vram@ =~= Seq::new(0x18000, |i: int| 0u8));
        assert(r.oam@ =~= Seq::new(0x400, |i: int| 0u8));
        assert(r.bg_palettes@ =~= Seq::new(0x100, |i: int| 0u16));
        assert(r.obj_palettes@ =~= Seq::new(0x100, |i: int| 0u16));
        assert(r.pixels@ =~= Seq::new(PIXELS as nat, |i: int| 0u16));
        r
    }

    /// The byte at `addr` of palette RAM: the backgrounds' palette in the
    /// first half, the objects' in the second.
    pub open spec fn palette_byte(&self, addr: u32) -> u8 {
        let a = addr % 0x400;
        let colors = if a < 0x200 { self.bg_palettes@ } else { self.obj_palettes@ };
        let c = colors[(a % 0x200) as int / 2];
        if a % 2 == 0 { (c % 256) as u8 } else { (c / 256) as u8 }
    }

    /// The two palettes after `value` replaces the byte at `addr` of
    /// palette RAM.
    pub open spec fn palettes_written(&self, addr: u32, value: u8) -> (Seq<u16>, Seq<u16>) {
        let a = addr % 0x400;
        let i = (a % 0x200) as int / 2;
        let c = if a < 0x200 { self.bg_palettes@[i] } else { self.obj_palettes@[i] };
        let n = if a % 2 == 0 { (c & 0xFF00) | value as u16 } else { (c & 0x00FF) | (value as u16) << 8u16 };
        if a < 0x200 {
            (self.bg_palettes@.update(i, n), self.obj_palettes@)
        } else {
            (self.bg_palettes@, self.obj_palettes@.update(i, n))
        }
    }

    pub fn read_palette_ram(&self, addr: u32) -> (r: u8)
        requires
            self.wf(),
        ensures
            r == self.palette_byte(addr),
    {
        let a = (addr % 0x400) as usize;
        let index = (a % 0x200) / 2;
        let c = if a < 0x200 { self.bg_palettes[index] } else { self.obj_palettes[index] };
        if a % 2 == 0 { (c % 256) as u8 } else { (c / 256) as u8 }
    }

    /// Replaces the byte at `addr` of palette RAM.
    pub fn write_palette_ram(&mut self, addr: u32, value: u8)
        requires
            old(self).wf(),
        ensures
            final(self).wf(),
            final(self).palette_byte(addr) == value,
            final(self).bg_palettes@ == old(self).palettes_written(addr, value).0,
            final(self).obj_palettes@ == old(self).palettes_written(addr, value).1,
            final(self).vram@ == old(self).vram@ && final(self).oam@ == old(self).oam@,
            final(self).pixels@ == old(self).pixels@ && final(self).regs == old(self).regs,
            final(self).dot == old(self).dot && final(self).vcount == old(self).vcount,
            final(self).needs_to_render == old(self).needs_to_render,
    {
        let a = (addr % 0x400) as usize;
        let index = (a % 0x200) / 2;
        let v = value as u16;
        let c = if a < 0x200 { self.bg_palettes[index] } else { self.obj_palettes[index] };
        let n = if a % 2 == 0 { (c & 0xFF00) | v } else { (c & 0x00FF) | v << 8 };
        assert(((c & 0xFF00) | v) % 256 == value && ((c & 0x00FF) | v << 8u16) / 256 == value) by (bit_vector)
            requires
                v == value as u16,
        ;
        if a < 0x200 {
            self.bg_palettes.set(index, n);
        } else {
            self.obj_palettes.set(index, n);
        }
    }

    pub fn read_vram(&self, addr: u32) -> (r: u8)
        requires
            self.wf(),
            0x0600_0000 <= addr < 0x0601_8000,
        ensures
            r == self.vram@[addr - 0x0600_0000],
    {
        self.vram[(addr - 0x0600_0000) as usize]
    }

    pub fn write_vram(&mut self, addr: u32, value: u8)
        requires
            old(self).wf(),
            0x0600_0000 <= addr < 0x0601_8000,
        ensures
            final(self).wf(),
            final(self).vram@ == old(self).vram@.update(addr - 0x0600_0000, value),
            final(self).bg_palettes@ == old(self).bg_palettes@ && final(self).obj_palettes@ == old(self).obj_palettes@,
            final(self).oam@ == old(self).oam@,
            final(self).pixels@ == old(self).pixels@ && final(self).regs == old(self).regs,
            final(self).dot == old(self).dot && final(self).vcount == old(self).vcount,
            final(self).needs_to_render == old(self).needs_to_render,
    {
        self.vram.set((addr - 0x0600_0000) as usize, value);
    }

    pub fn read_oam(&self, addr: u32) -> (r: u8)
        requires
            self.wf(),
            0x0700_0000 <= addr < 0x0700_0400,
        ensures
            r == self.oam@[addr - 0x0700_0000],
    {
        self.oam[(addr - 0x0700_0000) as usize]
    }

    pub fn write_oam(&mut self, addr: u32, value: u8)
        requires
            old(self).wf(),
            0x0700_0000 <= addr < 0x0700_0400,
        ensures
            final(self).wf(),
            final(self).oam@ == old(self).oam@.update(addr - 0x0700_0000, value),
            final(self).bg_palettes@ == old(self).bg_palettes@ && final(self).obj_palettes@ == old(self).obj_palettes@,
            final(self).vram@ == old(self).vram@,
            final(self).pixels@ == old(self).pixels@ && final(self).regs == old(self).regs,
            final(self).dot == old(self).dot && final(self).vcount == old(self).vcount,
            final(self).needs_to_render == old(self).needs_to_render,
    {
        self.oam.set((addr - 0x0700_0000) as usize, value);
    }

    /// The register byte at `addr` (offset `addr % 0x1000` of the display's
    /// I/O).
    pub fn read_register(&self, addr: u32) -> (r: u8)
        requires
            self.wf(),
        ensures
            r == self.regs.read_byte(self.vcount, addr % 0x1000),
    {
        match addr % 0x1000 {
            0x000 => self.regs.dispcnt.read(0),
            0x001 => self.regs.dispcnt.read(1),
            0x002 => if self.regs.green_swap { 1 } else { 0 },
            0x004 => self.regs.dispstat.read(0),
            0x005 => self.regs.dispstat.read(1),
            0x006 => self.vcount,
            0x008 => self.regs.bgcnt0.read(0),
            0x009 => self.regs.bgcnt0.read(1),
            0x00A => self.regs.bgcnt1.read(0),
            0x00B => self.regs.bgcnt1.read(1),
            0x00C => self.regs.bgcnt2.read(0),
            0x00D => self.regs.bgcnt2.read(1),
            0x00E => self.regs.bgcnt3.read(0),
            0x00F => self.regs.bgcnt3.read(1),
            0x010 => self.regs.hofs0.read(0),
            0x011 => self.regs.hofs0.read(1),
            0x012 => self.regs.vofs0.read(0),
            0x013 => self.regs.vofs0.read(1),
            0x014 => self.regs.hofs1.read(1),
            0x015 => self.regs.hofs1.read(0),
            0x016 => self.regs.vofs1.read(0),
            0x017 => self.regs.vofs1.read(1),
            0x018 => self.regs.hofs2.read(0),
            0x019 => self.regs.hofs2.read(1),
            0x01A => self.regs.vofs2.read(0),
            0x01B => self.regs.vofs2.read(1),
            0x01C => self.regs.hofs3.read(0),
            0x01D => self.regs.hofs3.read(1),
            0x01E => self.regs.vofs3.read(0),
            0x01F => self.regs.vofs3.read(1),
            0x020 => self.regs.pa0.read(0),
            0x021 => self.regs.pa0.read(1),
            0x022 => self.regs.pb0.read(0),
            0x023 => self.regs.pb0.read(1),
            0x024 => self.regs.pc0.read(0),
            0x025 => self.regs.pc0.read(1),
            0x026 => self.regs.pd0.read(0),
            0x027 => self.regs.pd0.read(1),
            0x028 => self.regs.bgx0.read(0),
            0x029 => self.regs.bgx0.read(1),
            0x02A => self.regs.bgx0.read(2),
            0x02B => self.regs.bgx0.read(3),
            0x02C => self.regs.bgy0.read(0),
            0x02D => self.regs.bgy0.read(1),
            0x02E => self.regs.bgy0.read(2),
            0x02F => self.regs.bgy0.read(3),
            0x030 => self.regs.pa1.read(0),
            0x031 => self.regs.pa1.read(1),
            0x032 => self.regs.pb1.read(0),
            0x033 => self.regs.pb1.read(1),
            0x034 => self.regs.pc1.read(0),
            0x035 => self.regs.pc1.read(1),
            0x036 => self.regs.pd1.read(0),
            0x037 => self.regs.pd1.read(1),
            0x038 => self.regs.bgx1.read(0),
            0x039 => self.regs.bgx1.read(1),
            0x03A => self.regs.bgx1.read(2),
            0x03B => self.regs.bgx1.read(3),
            0x03C => self.regs.bgy1.read(0),
            0x03D => self.regs.bgy1.read(1),
            0x03E => self.regs.bgy1.read(2),
            0x03F => self.regs.bgy1.read(3),
            0x040 => self.regs.winh0.read(0),
            0x041 => self.regs.winh0.read(1),
            0x042 => self.regs.winh1.read(0),
            0x043 => self.regs.winh1.read(1),
            0x044 => self.regs.winv0.read(0),
            0x045 => self.regs.winv0.read(1),
            0x046 => self.regs.winv1.read(0),
            0x047 => self.regs.winv1.read(1),
            0x048 => self.regs.win_0_cnt.read(0),
            0x049 => self.regs.win_1_cnt.read(0),
            0x04A => self.regs.win_out_cnt.read(0),
            0x04B => self.regs.win_obj_cnt.read(0),
            _ => 0,
        }
    }

    /// Writes a register byte; a write to DISPCNT must name a display mode.
    pub fn write_register(&mut self, addr: u32, value: u8)
        requires
            old(self).wf(),
            addr % 0x1000 == 0 ==> value & 7 < 6,
        ensures
            final(self).wf(),
            final(self).regs == old(self).regs.written(addr % 0x1000, value),
            final(self).bg_palettes@ == old(self).bg_palettes@ && final(self).obj_palettes@ == old(self).obj_palettes@,
            final(self).vram@ == old(self).vram@ && final(self).oam@ == old(self).oam@,
            final(self).pixels@ == old(self).pixels@,
            final(self).dot == old(self).dot && final(self).vcount == old(self).vcount,
            final(self).needs_to_render == old(self).needs_to_render,
    {
        self.regs.write(addr % 0x1000, value);
    }
}

/// The halfword of two bytes, low byte first.
pub open spec fn le16(lo: u8, hi: u8) -> u16 {
    (lo as int + hi as int * 256) as u16
}

/// The colour number of a pixel of a tile, with the palette it indexes
/// (bank 0 for 8 bits per pixel): tile `tile_num` of the tiles at
/// `tile_start`, at (`tile_x`, `tile_y`) after flipping. A tile that lies
/// past the end of VRAM is transparent (colour 0).
pub open spec fn tile_color(
    vram: Seq<u8>,
    tile_start: int,
    tile_num: int,
    flip_x: bool,
    flip_y: bool,
    bit_depth: int,
    tile_x: int,
    tile_y: int,
    palette_num: int,
) -> (int, int) {
    let tx = if flip_x { 7 - tile_x } else { tile_x };
    let ty = if flip_y { 7 - tile_y } else { tile_y };
    let a = if bit_depth == 8 {
        tile_start + 64 * tile_num + ty * 8 + tx
    } else {
        tile_start + 32 * tile_num + ty * 4 + tx / 2
    };
    if a >= vram.len() {
        (palette_num, 0)
    } else if bit_depth == 8 {
        (0, vram[a] as int)
    } else {
        (palette_num, if tx % 2 == 0 { vram[a] % 16 } else { vram[a] / 16 } as int)
    }
}

/// The screen block that map position (`map_x`, `map_y`) lies in, as an
/// offset from the first one, for a background of size `screen_size`.
pub open spec fn screen_block(screen_size: u8, map_x: int, map_y: int) -> int {
    let x_overflowed = (map_x / 32) % 2 == 1;
    let y_overflowed = (map_y / 32) % 2 == 1;
    if screen_size == 0 {
        0
    } else if screen_size == 1 {
        if x_overflowed { 0x800 } else { 0 }
    } else if screen_size == 2 {
        if y_overflowed { 0x800 } else { 0 }
    } else if x_overflowed && y_overflowed {
        0x1800
    } else if y_overflowed {
        0x1000
    } else if x_overflowed {
        0x800
    } else {
        0
    }
}

impl PPU {
    /// The first byte of the frame shown in the bitmap modes 4 and 5.
    pub open spec fn frame_start(&self) -> int {
        if self.regs.dispcnt.flags & DISPLAY_FRAME_SELECT == DISPLAY_FRAME_SELECT { 0xA000 } else { 0 }
    }

    /// The colour number and palette of pixel `dot_x` of the current line in
    /// text background `bg`: its map entry gives the tile, the flips and
    /// the palette.
    pub open spec fn text_color(&self, bg: int, dot_x: int) -> (int, int) {
        let cnt = self.regs.bgcnt_of(bg);
        let x = dot_x + self.regs.hofs_of(bg);
        let y = self.vcount + self.regs.vofs_of(bg);
        let map_x = x / 8;
        let map_y = y / 8;
        let addr = cnt.map_block * 0x800 + screen_block(cnt.screen_size, map_x, map_y) + (map_y % 32) * 64 + (map_x
            % 32) * 2;
        let entry = le16(self.vram@[addr], self.vram@[addr + 1]) as int;
        tile_color(
            self.vram@,
            cnt.tile_block * 0x4000,
            entry % 1024,
            (entry / 1024) % 2 == 1,
            (entry / 2048) % 2 == 1,
            if cnt.bpp8 { 8 } else { 4 },
            x % 8,
            y % 8,
            (entry / 4096) % 16,
        )
    }

    /// The colour of pixel `x` after drawing the text backgrounds `order`
    /// in turn over the backdrop: the last one with a visible pixel there.
    pub open spec fn composite(&self, order: Seq<usize>, x: int) -> u16
        decreases order.len(),
    {
        if order.len() == 0 {
            self.bg_palettes@[0]
        } else {
            let (p, c) = self.text_color(order.last() as int, x);
            if c == 0 {
                self.composite(order.drop_last(), x)
            } else {
                self.bg_palettes@[p * 16 + c]
            }
        }
    }

    /// The priority of pixel `x` after drawing the backgrounds `order`:
    /// that of the last one with a visible pixel there, else `initial`.
    pub open spec fn composite_priority(&self, order: Seq<usize>, x: int, initial: u16) -> u16
        decreases order.len(),
    {
        if order.len() == 0 {
            initial
        } else {
            let (p, c) = self.text_color(order.last() as int, x);
            if c == 0 {
                self.composite_priority(order.drop_last(), x, initial)
            } else {
                self.regs.bgcnt_of(order.last() as int).priority as u16
            }
        }
    }

    /// Whether background `bg` is displayed.
    pub open spec fn bg_enabled(&self, bg: int) -> bool {
        let flag = if bg == 0 {
            DISPLAY_BG0
        } else if bg == 1 {
            DISPLAY_BG1
        } else if bg == 2 {
            DISPLAY_BG2
        } else {
            DISPLAY_BG3
        };
        self.regs.dispcnt.flags & flag == flag
    }

    /// The displayed backgrounds of priority `p`, from BG3 down to BG0.
    pub open spec fn layers_of_priority(&self, p: int) -> Seq<usize> {
        let s3 = if self.bg_enabled(3) && self.regs.bgcnt3.priority == p { seq![3usize] } else { Seq::empty() };
        let s2 = if self.bg_enabled(2) && self.regs.bgcnt2.priority == p { seq![2usize] } else { Seq::empty() };
        let s1 = if self.bg_enabled(1) && self.regs.bgcnt1.priority == p { seq![1usize] } else { Seq::empty() };
        let s0 = if self.bg_enabled(0) && self.regs.bgcnt0.priority == p { seq![0usize] } else { Seq::empty() };
        s3 + s2 + s1 + s0
    }

    /// The order in which mode 0 draws the displayed backgrounds: by
    /// priority number, lowest first, and from BG3 down to BG0 within one.
    pub open spec fn layer_order(&self) -> Seq<usize> {
        self.layers_of_priority(0) + self.layers_of_priority(1) + self.layers_of_priority(2)
            + self.layers_of_priority(3)
    }

    /// Pixel `x` of the current line as the background of the display mode
    /// draws it (modes 1 and 2 draw nothing: the pixel stays `old`).
    pub open spec fn background_pixel(&self, x: int, old: u16) -> u16 {
        let y = self.vcount as int;
        let i = y * 240 + x;
        match self.regs.dispcnt.mode {
            BGMode::Mode0 => self.composite(self.layer_order(), x),
            BGMode::Mode3 => le16(self.vram@[2 * i], self.vram@[2 * i + 1]),
            BGMode::Mode4 => self.bg_palettes@[self.vram@[self.frame_start() + i] as int],
            BGMode::Mode5 => if x >= 160 || y >= 128 {
                self.bg_palettes@[0]
            } else {
                let a = self.frame_start() + y * 320 + 2 * x;
                le16(self.vram@[a], self.vram@[a + 1])
            },
            _ => old,
        }
    }

    /// The priority that the background leaves at pixel `x`: in mode 0 that
    /// of the visible layer, else 4.
    pub open spec fn background_priority(&self, x: int) -> u16 {
        match self.regs.dispcnt.mode {
            BGMode::Mode0 => self.composite_priority(self.layer_order(), x, 4),
            _ => 4,
        }
    }

    /// See `tile_color`.
    pub fn get_color_from_tile(
        &self,
        tile_start_addr: usize,
        tile_num: usize,
        flip_x: bool,
        flip_y: bool,
        bit_depth: usize,
        tile_x: usize,
        tile_y: usize,
        palette_num: usize,
    ) -> (r: (usize, usize))
        requires
            self.wf(),
            bit_depth == 4 || bit_depth == 8,
            tile_x < 8 && tile_y < 8,
            tile_start_addr <= 0x10000 && tile_num < 0x1000,
        ensures
            r.0 == tile_color(self.vram@, tile_start_addr as int, tile_num as int, flip_x, flip_y, bit_depth as int,
                tile_x as int, tile_y as int, palette_num as int).0,
            r.1 == tile_color(self.vram@, tile_start_addr as int, tile_num as int, flip_x, flip_y, bit_depth as int,
                tile_x as int, tile_y as int, palette_num as int).1,
    {
        let tx = if flip_x { 7 - tile_x } else { tile_x };
        let ty = if flip_y { 7 - tile_y } else { tile_y };
        let addr = if bit_depth == 8 {
            tile_start_addr + 64 * tile_num + ty * 8 + tx
        } else {
            tile_start_addr + 32 * tile_num + ty * 4 + tx / 2
        };
        if addr >= self.vram.len() {
            (palette_num, 0)
        } else {
            let tile = self.vram[addr] as usize;
            if bit_depth == 8 {
                (0, tile)
            } else {
                (palette_num, if tx % 2 == 0 { tile % 16 } else { tile / 16 })
            }
        }
    }

    /// Draws background `bg_i` in text mode over the current line: each
    /// visible pixel takes its colour, and its priority goes to
    /// `bg_priorities`.
    #[verifier::rlimit(40)]
    fn render_text_line(&mut self, bg_i: usize, bg_priorities: &mut Vec<u16>)
        requires
            old(self).wf(),
            old(self).vcount < 160,
            bg_i < 4,
            old(bg_priorities).len() == 240,
        ensures
            final(self).wf(),
            final(bg_priorities).len() == 240,
            forall|x: int|
                0 <= x < 240 ==> {
                    let (p, c) = #[trigger] old(self).text_color(bg_i as int, x);
                    let i = old(self).vcount * 240 + x;
                    &&& final(self).pixels@[i] == (if c == 0 {
                        old(self).pixels@[i]
                    } else {
                        old(self).bg_palettes@[p * 16 + c]
                    })
                    &&& final(bg_priorities)@[x] == (if c == 0 {
                        old(bg_priorities)@[x]
                    } else {
                        old(self).regs.bgcnt_of(bg_i as int).priority as u16
                    })
                },
            forall|i: int|
                0 <= i < PIXELS && !(old(self).vcount * 240 <= i < old(self).vcount * 240 + 240)
                    ==> final(self).pixels@[i] == old(self).pixels@[i],
            final(self).regs == old(self).regs && final(self).vcount == old(self).vcount,
            final(self).dot == old(self).dot && final(self).needs_to_render == old(self).needs_to_render,
            final(self).vram@ == old(self).vram@ && final(self).oam@ == old(self).oam@,
            final(self).bg_palettes@ == old(self).bg_palettes@ && final(self).obj_palettes@ == old(self).obj_palettes@,
    {
        let bgcnt = if bg_i == 0 {
            self.regs.bgcnt0
        } else if bg_i == 1 {
            self.regs.bgcnt1
        } else if bg_i == 2 {
            self.regs.bgcnt2
        } else {
            self.regs.bgcnt3
        };
        let (hofs, vofs) = if bg_i == 0 {
            (self.regs.hofs0, self.regs.vofs0)
        } else if bg_i == 1 {
            (self.regs.hofs1, self.regs.vofs1)
        } else if bg_i == 2 {
            (self.regs.hofs2, self.regs.vofs2)
        } else {
            (self.regs.hofs3, self.regs.vofs3)
        };
        let x_offset = hofs.offset as usize;
        let y_offset = vofs.offset as usize;
        let tile_start_addr = bgcnt.tile_block as usize * 0x4000;
        let map_start_addr = bgcnt.map_block as usize * 0x800;
        let bit_depth: usize = if bgcnt.bpp8 { 8 } else { 4 };
        let dot_y = self.vcount as usize;
        let ghost s0 = *self;
        let ghost p0 = bg_priorities@;
        let mut dot_x: usize = 0;
        while dot_x < 240
            invariant
                s0 == *old(self),
                p0 == old(bg_priorities)@,
                self.wf(),
                dot_x <= 240,
                bg_priorities.len() == 240,
                dot_y == s0.vcount && dot_y < 160,
                bg_i < 4 && bgcnt == s0.regs.bgcnt_of(bg_i as int) && bgcnt.wf(),
                x_offset == s0.regs.hofs_of(bg_i as int) && y_offset == s0.regs.vofs_of(bg_i as int),
                tile_start_addr == bgcnt.tile_block * 0x4000 && map_start_addr == bgcnt.map_block * 0x800,
                bit_depth == (if bgcnt.bpp8 { 8int } else { 4 }),
                self.regs == s0.regs && self.vcount == s0.vcount,
                self.dot == s0.dot && self.needs_to_render == s0.needs_to_render,
                self.vram@ == s0.vram@ && self.oam@ == s0.oam@,
                self.bg_palettes@ == s0.bg_palettes@ && self.obj_palettes@ == s0.obj_palettes@,
                forall|x: int|
                    0 <= x < dot_x ==> {
                        let (p, c) = #[trigger] s0.text_color(bg_i as int, x);
                        let i = s0.vcount * 240 + x;
                        &&& self.pixels@[i] == (if c == 0 { s0.pixels@[i] } else { s0.bg_palettes@[p * 16 + c] })
                        &&& bg_priorities@[x] == (if c == 0 { p0[x] } else { bgcnt.priority as u16 })
                    },
                forall|x: int| dot_x <= x < 240 ==> bg_priorities@[x] == p0[x],
                forall|i: int|
                    0 <= i < PIXELS && !(s0.vcount * 240 <= i < s0.vcount * 240 + dot_x) ==> self.pixels@[i]
                        == s0.pixels@[i],
            decreases 240 - dot_x,
        {
            let x = dot_x + x_offset;
            let y = dot_y + y_offset;
            let map_x = x / 8;
            let map_y = y / 8;
            let x_overflowed = (map_x / 32) % 2 == 1;
            let y_overflowed = (map_y / 32) % 2 == 1;
            let block: usize = match bgcnt.screen_size {
                0 => 0,
                1 => if x_overflowed { 0x800 } else { 0 },
                2 => if y_overflowed { 0x800 } else { 0 },
                _ => if x_overflowed && y_overflowed {
                    0x800 * 3
                } else if y_overflowed {
                    0x800 * 2
                } else if x_overflowed {
                    0x800
                } else {
                    0
                },
            };
            let addr = map_start_addr + block + (map_y % 32) * 64 + (map_x % 32) * 2;
            let screen_entry = self.vram[addr] as usize + self.vram[addr + 1] as usize * 256;
            let tile_num = screen_entry % 1024;
            let flip_x = (screen_entry / 1024) % 2 == 1;
            let flip_y = (screen_entry / 2048) % 2 == 1;
            let palette_num = (screen_entry / 4096) % 16;
            let (palette_num, color_num) = self.get_color_from_tile(
                tile_start_addr,
                tile_num,
                flip_x,
                flip_y,
                bit_depth,
                x % 8,
                y % 8,
                palette_num,
            );
            proof {
                let (p, c) = s0.text_color(bg_i as int, dot_x as int);
                assert(screen_entry == le16(s0.vram@[addr as int], s0.vram@[addr as int + 1]) as int);
                assert(p == palette_num && c == color_num);
            }
            if color_num != 0 {
                bg_priorities.set(dot_x, bgcnt.priority as u16);
                self.pixels.set(dot_y * 240 + dot_x, self.bg_palettes[palette_num * 16 + color_num]);
            }
            dot_x = dot_x + 1;
        }
    }
}

impl PPU {
    /// Appends the displayed backgrounds of priority `p` to `order`, from
    /// BG3 down to BG0.
    fn push_layers_of_priority(&self, p: u8, order: &mut Vec<usize>)
        ensures
            final(order)@ == old(order)@ + self.layers_of_priority(p as int),
            (forall|j: int| 0 <= j < old(order).len() ==> old(order)@[j] < 4) ==> forall|j: int|
                0 <= j < final(order).len() ==> final(order)@[j] < 4,
    {
        let ghost o = order@;
        if self.regs.dispcnt.contains(DISPLAY_BG3) && self.regs.bgcnt3.priority == p {
            order.push(3);
        }
        let ghost o3 = order@;
        if self.regs.dispcnt.contains(DISPLAY_BG2) && self.regs.bgcnt2.priority == p {
            order.push(2);
        }
        let ghost o2 = order@;
        if self.regs.dispcnt.contains(DISPLAY_BG1) && self.regs.bgcnt1.priority == p {
            order.push(1);
        }
        let ghost o1 = order@;
        if self.regs.dispcnt.contains(DISPLAY_BG0) && self.regs.bgcnt0.priority == p {
            order.push(0);
        }
        proof {
            let s3 = if self.bg_enabled(3) && self.regs.bgcnt3.priority == p { seq![3usize] } else { Seq::empty() };
            let s2 = if self.bg_enabled(2) && self.regs.bgcnt2.priority == p { seq![2usize] } else { Seq::empty() };
            let s1 = if self.bg_enabled(1) && self.regs.bgcnt1.priority == p { seq![1usize] } else { Seq::empty() };
            let s0 = if self.bg_enabled(0) && self.regs.bgcnt0.priority == p { seq![0usize] } else { Seq::empty() };
            assert(o3 =~= o + s3);
            assert(o2 =~= o + s3 + s2);
            assert(o1 =~= o + s3 + s2 + s1);
            assert(order@ =~= o + (s3 + s2 + s1 + s0));
        }
    }

    /// The order of `layer_order`.
    #[verifier::rlimit(30)]
    fn layer_order_exec(&self) -> (r: Vec<usize>)
        requires
            self.wf(),
        ensures
            r@ == self.layer_order(),
            forall|k: int| 0 <= k < r.len() ==> r@[k] < 4,
    {
        let mut order: Vec<usize> = Vec::new();
        self.push_layers_of_priority(0, &mut order);
        self.push_layers_of_priority(1, &mut order);
        self.push_layers_of_priority(2, &mut order);
        self.push_layers_of_priority(3, &mut order);
        assert(order@ =~= self.layer_order());
        order
    }

    /// Mode 0: the backdrop, then the displayed text backgrounds in
    /// `layer_order`; `bg_priorities` gets each pixel's priority.
    #[verifier::spinoff_prover]
    #[verifier::rlimit(60)]
    fn render_mode0_line(&mut self, bg_priorities: &mut Vec<u16>)
        requires
            old(self).wf(),
            old(self).vcount < 160,
            old(self).regs.dispcnt.mode == BGMode::Mode0,
            old(bg_priorities)@ == Seq::new(240, |i: int| 4u16),
        ensures
            final(self).wf(),
            forall|x: int|
                0 <= x < 240 ==> #[trigger] final(self).pixels@[old(self).vcount * 240 + x] == old(
                    self,
                ).background_pixel(x, old(self).pixels@[old(self).vcount * 240 + x]),
            final(bg_priorities).len() == 240,
            forall|x: int| 0 <= x < 240 ==> #[trigger] final(bg_priorities)@[x] == old(self).background_priority(x),
            forall|i: int|
                0 <= i < PIXELS && !(old(self).vcount * 240 <= i < old(self).vcount * 240 + 240)
                    ==> final(self).pixels@[i] == old(self).pixels@[i],
            final(self).regs == old(self).regs && final(self).vcount == old(self).vcount,
            final(self).dot == old(self).dot && final(self).needs_to_render == old(self).needs_to_render,
            final(self).vram@ == old(self).vram@ && final(self).oam@ == old(self).oam@,
            final(self).bg_palettes@ == old(self).bg_palettes@ && final(self).obj_palettes@ == old(self).obj_palettes@,
    {
        let ghost s0 = *self;
        let start_index = self.vcount as usize * 240;
        let order = self.layer_order_exec();
        let backdrop_color = self.bg_palettes[0];
        let mut i: usize = 0;
        while i < 240
            invariant
                s0 == *old(self),
                self.wf(),
                i <= 240,
                start_index == s0.vcount * 240 && s0.vcount < 160,
                backdrop_color == s0.bg_palettes@[0],
                self.regs == s0.regs && self.vcount == s0.vcount,
                self.dot == s0.dot && self.needs_to_render == s0.needs_to_render,
                self.vram@ == s0.vram@ && self.oam@ == s0.oam@,
                self.bg_palettes@ == s0.bg_palettes@ && self.obj_palettes@ == s0.obj_palettes@,
                forall|x: int| 0 <= x < i ==> #[trigger] self.pixels@[start_index + x] == backdrop_color,
                forall|j: int|
                    0 <= j < PIXELS && !(start_index <= j < start_index + i) ==> self.pixels@[j]
                        == s0.pixels@[j],
            decreases 240 - i,
        {
            self.pixels.set(start_index + i, backdrop_color);
            i = i + 1;
        }
        let mut k: usize = 0;
        while k < order.len()
            invariant
                s0 == *old(self),
                self.wf(),
                k <= order.len(),
                order@ == s0.layer_order(),
                forall|j: int| 0 <= j < order.len() ==> order@[j] < 4,
                start_index == s0.vcount * 240 && s0.vcount < 160,
                bg_priorities.len() == 240,
                self.regs == s0.regs && self.vcount == s0.vcount,
                self.dot == s0.dot && self.needs_to_render == s0.needs_to_render,
                self.vram@ == s0.vram@ && self.oam@ == s0.oam@,
                self.bg_palettes@ == s0.bg_palettes@ && self.obj_palettes@ == s0.obj_palettes@,
                forall|x: int|
                    0 <= x < 240 ==> #[trigger] self.pixels@[start_index + x] == s0.composite(order@.take(k as int), x),
                forall|x: int|
                    0 <= x < 240 ==> #[trigger] bg_priorities@[x] == s0.composite_priority(order@.take(k as int), x, 4),
                forall|j: int|
                    0 <= j < PIXELS && !(start_index <= j < start_index + 240) ==> self.pixels@[j]
                        == s0.pixels@[j],
            decreases order.len() - k,
        {
            proof {
                assert(order@.take(k as int + 1).drop_last() =~= order@.take(k as int));
                assert(order@.take(k as int + 1).last() == order@[k as int]);
            }
            let ghost before = *self;
            let ghost prios = bg_priorities@;
            self.render_text_line(order[k], bg_priorities);
            proof {
                assert forall|x: int| 0 <= x < 240 implies #[trigger] bg_priorities@[x] == s0.composite_priority(
                    order@.take(k as int + 1),
                    x,
                    4,
                ) by {
                    let (p, c) = before.text_color(order@[k as int] as int, x);
                    assert(before.text_color(order@[k as int] as int, x) == s0.text_color(order@[k as int] as int, x));
                    assert(before.regs == s0.regs);
                }
                assert forall|x: int| 0 <= x < 240 implies #[trigger] self.pixels@[start_index + x] == s0.composite(
                    order@.take(k as int + 1),
                    x,
                ) by {
                    let (p, c) = before.text_color(order@[k as int] as int, x);
                    assert(before.text_color(order@[k as int] as int, x) == s0.text_color(order@[k as int] as int, x));
                    assert(before.regs == s0.regs);
                    if c == 0 {
                        assert(bg_priorities@[x] == prios[x]);
                    } else {
                        assert(bg_priorities@[x] == s0.regs.bgcnt_of(order@[k as int] as int).priority as u16);
                    }
                }
            }
            k = k + 1;
        }
        proof {
            assert(order@.take(order.len() as int) =~= order@);
        }
    }

    /// Mode 3: one 15-bit colour per pixel in VRAM.
    fn render_mode3_line(&mut self)
        requires
            old(self).wf(),
            old(self).vcount < 160,
            old(self).regs.dispcnt.mode == BGMode::Mode3,
        ensures
            final(self).wf(),
            forall|x: int|
                0 <= x < 240 ==> #[trigger] final(self).pixels@[old(self).vcount * 240 + x] == old(
                    self,
                ).background_pixel(x, old(self).pixels@[old(self).vcount * 240 + x]),
            forall|i: int|
                0 <= i < PIXELS && !(old(self).vcount * 240 <= i < old(self).vcount * 240 + 240)
                    ==> final(self).pixels@[i] == old(self).pixels@[i],
            final(self).regs == old(self).regs && final(self).vcount == old(self).vcount,
            final(self).dot == old(self).dot && final(self).needs_to_render == old(self).needs_to_render,
            final(self).vram@ == old(self).vram@ && final(self).oam@ == old(self).oam@,
            final(self).bg_palettes@ == old(self).bg_palettes@ && final(self).obj_palettes@ == old(self).obj_palettes@,
    {
        let ghost s0 = *self;
        let start_index = self.vcount as usize * 240;
        let mut x: usize = 0;
        while x < 240
            invariant
                s0 == *old(self),
                self.wf(),
                x <= 240,
                start_index == s0.vcount * 240 && s0.vcount < 160,
                s0.regs.dispcnt.mode == BGMode::Mode3,
                self.regs == s0.regs && self.vcount == s0.vcount,
                self.dot == s0.dot && self.needs_to_render == s0.needs_to_render,
                self.vram@ == s0.vram@ && self.oam@ == s0.oam@,
                self.bg_palettes@ == s0.bg_palettes@ && self.obj_palettes@ == s0.obj_palettes@,
                forall|j: int|
                    0 <= j < x ==> #[trigger] self.pixels@[start_index + j] == s0.background_pixel(j, 0),
                forall|j: int|
                    0 <= j < PIXELS && !(start_index <= j < start_index + x) ==> self.pixels@[j]
                        == s0.pixels@[j],
            decreases 240 - x,
        {
            let i = start_index + x;
            let pixel = self.vram[i * 2] as u16 + self.vram[i * 2 + 1] as u16 * 256;
            self.pixels.set(i, pixel);
            x = x + 1;
        }
    }

    /// Mode 4: one palette index per pixel in the frame shown.
    fn render_mode4_line(&mut self)
        requires
            old(self).wf(),
            old(self).vcount < 160,
            old(self).regs.dispcnt.mode == BGMode::Mode4,
        ensures
            final(self).wf(),
            forall|x: int|
                0 <= x < 240 ==> #[trigger] final(self).pixels@[old(self).vcount * 240 + x] == old(
                    self,
                ).background_pixel(x, old(self).pixels@[old(self).vcount * 240 + x]),
            forall|i: int|
                0 <= i < PIXELS && !(old(self).vcount * 240 <= i < old(self).vcount * 240 + 240)
                    ==> final(self).pixels@[i] == old(self).pixels@[i],
            final(self).regs == old(self).regs && final(self).vcount == old(self).vcount,
            final(self).dot == old(self).dot && final(self).needs_to_render == old(self).needs_to_render,
            final(self).vram@ == old(self).vram@ && final(self).oam@ == old(self).oam@,
            final(self).bg_palettes@ == old(self).bg_palettes@ && final(self).obj_palettes@ == old(self).obj_palettes@,
    {
        let ghost s0 = *self;
        let start_index = self.vcount as usize * 240;
        let start_addr: usize = if self.regs.dispcnt.contains(DISPLAY_FRAME_SELECT) { 0xA000 } else { 0 };
        let mut x: usize = 0;
        while x < 240
            invariant
                s0 == *old(self),
                self.wf(),
                x <= 240,
                start_index == s0.vcount * 240 && s0.vcount < 160,
                start_addr == s0.frame_start(),
                s0.regs.dispcnt.mode == BGMode::Mode4,
                self.regs == s0.regs && self.vcount == s0.vcount,
                self.dot == s0.dot && self.needs_to_render == s0.needs_to_render,
                self.vram@ == s0.vram@ && self.oam@ == s0.oam@,
                self.bg_palettes@ == s0.bg_palettes@ && self.obj_palettes@ == s0.obj_palettes@,
                forall|j: int|
                    0 <= j < x ==> #[trigger] self.pixels@[start_index + j] == s0.background_pixel(j, 0),
                forall|j: int|
                    0 <= j < PIXELS && !(start_index <= j < start_index + x) ==> self.pixels@[j]
                        == s0.pixels@[j],
            decreases 240 - x,
        {
            let i = start_index + x;
            let c = self.bg_palettes[self.vram[start_addr + i] as usize];
            self.pixels.set(i, c);
            x = x + 1;
        }
    }

    /// Mode 5: a 160 by 128 picture of 15-bit colours in the frame shown,
    /// the backdrop colour around it.
    fn render_mode5_line(&mut self)
        requires
            old(self).wf(),
            old(self).vcount < 160,
            old(self).regs.dispcnt.mode == BGMode::Mode5,
        ensures
            final(self).wf(),
            forall|x: int|
                0 <= x < 240 ==> #[trigger] final(self).pixels@[old(self).vcount * 240 + x] == old(
                    self,
                ).background_pixel(x, old(self).pixels@[old(self).vcount * 240 + x]),
            forall|i: int|
                0 <= i < PIXELS && !(old(self).vcount * 240 <= i < old(self).vcount * 240 + 240)
                    ==> final(self).pixels@[i] == old(self).pixels@[i],
            final(self).regs == old(self).regs && final(self).vcount == old(self).vcount,
            final(self).dot == old(self).dot && final(self).needs_to_render == old(self).needs_to_render,
            final(self).vram@ == old(self).vram@ && final(self).oam@ == old(self).oam@,
            final(self).bg_palettes@ == old(self).bg_palettes@ && final(self).obj_palettes@ == old(self).obj_palettes@,
    {
        let ghost s0 = *self;
        let start_index = self.vcount as usize * 240;
        let start_addr: usize = if self.regs.dispcnt.contains(DISPLAY_FRAME_SELECT) { 0xA000 } else { 0 };
        let dot_y = self.vcount as usize;
        let mut addr = start_addr + dot_y * 160 * 2;
        let mut x: usize = 0;
        while x < 240
            invariant
                s0 == *old(self),
                self.wf(),
                x <= 240,
                dot_y == s0.vcount && dot_y < 160,
                start_index == s0.vcount * 240,
                start_addr == s0.frame_start(),
                addr == start_addr + dot_y * 320 + (if dot_y >= 128 {
                    0int
                } else if x <= 160 {
                    2 * x
                } else {
                    320int
                }),
                s0.regs.dispcnt.mode == BGMode::Mode5,
                self.regs == s0.regs && self.vcount == s0.vcount,
                self.dot == s0.dot && self.needs_to_render == s0.needs_to_render,
                self.vram@ == s0.vram@ && self.oam@ == s0.oam@,
                self.bg_palettes@ == s0.bg_palettes@ && self.obj_palettes@ == s0.obj_palettes@,
                forall|j: int|
                    0 <= j < x ==> #[trigger] self.pixels@[start_index + j] == s0.background_pixel(j, 0),
                forall|j: int|
                    0 <= j < PIXELS && !(start_index <= j < start_index + x) ==> self.pixels@[j]
                        == s0.pixels@[j],
            decreases 240 - x,
        {
            let pixel = if x >= 160 || dot_y >= 128 {
                self.bg_palettes[0]
            } else {
                let p = self.vram[addr] as u16 + self.vram[addr + 1] as u16 * 256;
                addr = addr + 2;
                p
            };
            self.pixels.set(dot_y * 240 + x, pixel);
            x = x + 1;
        }
    }

    /// Draws the background of the current line for the display mode, and
    /// leaves in `bg_priorities` the priority of each pixel's layer.
    /// Modes 1 and 2 draw nothing.
    fn render_background_line(&mut self, bg_priorities: &mut Vec<u16>)
        requires
            old(self).wf(),
            old(self).vcount < 160,
            old(bg_priorities)@ == Seq::new(240, |i: int| 4u16),
        ensures
            final(self).wf(),
            final(bg_priorities).len() == 240,
            forall|x: int|
                0 <= x < 240 ==> #[trigger] final(self).pixels@[old(self).vcount * 240 + x] == old(
                    self,
                ).background_pixel(x, old(self).pixels@[old(self).vcount * 240 + x]),
            forall|x: int| 0 <= x < 240 ==> #[trigger] final(bg_priorities)@[x] == old(self).background_priority(x),
            forall|i: int|
                0 <= i < PIXELS && !(old(self).vcount * 240 <= i < old(self).vcount * 240 + 240)
                    ==> final(self).pixels@[i] == old(self).pixels@[i],
            final(self).regs == old(self).regs && final(self).vcount == old(self).vcount,
            final(self).dot == old(self).dot && final(self).needs_to_render == old(self).needs_to_render,
            final(self).vram@ == old(self).vram@ && final(self).oam@ == old(self).oam@,
            final(self).bg_palettes@ == old(self).bg_palettes@ && final(self).obj_palettes@ == old(self).obj_palettes@,
    {
        match self.regs.dispcnt.mode {
            BGMode::Mode0 => self.render_mode0_line(bg_priorities),
            BGMode::Mode3 => self.render_mode3_line(),
            BGMode::Mode4 => self.render_mode4_line(),
            BGMode::Mode5 => self.render_mode5_line(),
            _ => {},
        }
    }

}

/// The width and height of an object of shape `shape` (0: square,
/// 1: wide, 2: tall) and size `size` (0 to 3).
pub open spec fn obj_dims(shape: int, size: int) -> (int, int) {
    if size == 0 {
        if shape == 0 { (8, 8) } else if shape == 1 { (16, 8) } else { (8, 16) }
    } else if size == 1 {
        if shape == 0 { (16, 16) } else if shape == 1 { (32, 8) } else { (8, 32) }
    } else if size == 2 {
        if shape == 0 { (32, 32) } else if shape == 1 { (32, 16) } else { (16, 32) }
    } else {
        if shape == 0 { (64, 64) } else if shape == 1 { (64, 32) } else { (32, 64) }
    }
}

fn obj_size_of(shape: u16, size: u16) -> (r: (i32, i32))
    requires
        shape < 3 && size < 4,
    ensures
        r.0 == obj_dims(shape as int, size as int).0 && r.1 == obj_dims(shape as int, size as int).1,
{
    match size {
        0 => if shape == 0 { (8, 8) } else if shape == 1 { (16, 8) } else { (8, 16) },
        1 => if shape == 0 { (16, 16) } else if shape == 1 { (32, 8) } else { (8, 32) },
        2 => if shape == 0 { (32, 32) } else if shape == 1 { (32, 16) } else { (16, 32) },
        _ => if shape == 0 { (64, 64) } else if shape == 1 { (64, 32) } else { (32, 64) },
    }
}

impl PPU {
    /// Attribute `k` (0 to 2) of object `n` (0 to 127) in OAM.
    pub open spec fn attr(&self, n: int, k: int) -> u16 {
        le16(self.oam@[8 * n + 2 * k], self.oam@[8 * n + 2 * k + 1])
    }

    pub open spec fn obj_shape(&self, n: int) -> int {
        self.attr(n, 0) as int / 16384
    }

    pub open spec fn obj_size(&self, n: int) -> int {
        self.attr(n, 1) as int / 16384
    }

    /// The key by which objects are drawn: shape, then size.
    pub open spec fn obj_key(&self, n: int) -> int {
        self.obj_shape(n) * 4 + self.obj_size(n)
    }

    /// Whether the double-size (or, without rotation, disable) flag is set.
    pub open spec fn obj_double(&self, n: int) -> bool {
        (self.attr(n, 0) / 512) % 2 == 1
    }

    /// The width of object `n` on screen.
    pub open spec fn obj_width(&self, n: int) -> int {
        let w = obj_dims(self.obj_shape(n), self.obj_size(n)).0;
        if self.obj_double(n) { 2 * w } else { w }
    }

    /// Whether object `n` is shown on the current line: it has a defined
    /// shape, is not disabled, and its rows (wrapping past line 255) cover
    /// the line.
    pub open spec fn obj_visible(&self, n: int) -> bool {
        let rot_scaling = (self.attr(n, 0) / 256) % 2 == 1;
        let h = obj_dims(self.obj_shape(n), self.obj_size(n)).1;
        let height = if self.obj_double(n) { 2 * h } else { h };
        let obj_y = self.attr(n, 0) % 256;
        let y_end = obj_y + height;
        let y = self.vcount + if y_end > 256 { 256int } else { 0 };
        &&& self.obj_shape(n) < 3
        &&& rot_scaling || !self.obj_double(n)
        &&& obj_y <= y < y_end
    }

    /// The screen column of the left edge of object `n` (a signed 9-bit
    /// value).
    pub open spec fn obj_x(&self, n: int) -> int {
        let x = self.attr(n, 1) % 512;
        if x >= 256 { x - 512 } else { x as int }
    }

    /// The palette and colour number of object `n` at column `dot_x` of the
    /// current line.
    pub open spec fn obj_color(&self, n: int, dot_x: int) -> (int, int) {
        let x_diff = dot_x - self.obj_x(n);
        let y_diff = (self.vcount - self.attr(n, 0) % 256) % 256;
        let tiles_1d = self.regs.dispcnt.flags & OBJ_TILES1D == OBJ_TILES1D;
        let tile_num = (self.attr(n, 2) % 1024) as int + if tiles_1d {
            (y_diff / 8 * self.obj_width(n) + x_diff) / 8
        } else {
            0
        };
        tile_color(
            self.vram@,
            0x10000,
            tile_num,
            (self.attr(n, 1) / 4096) % 2 == 1,
            (self.attr(n, 1) / 8192) % 2 == 1,
            if (self.attr(n, 0) / 8192) % 2 == 1 { 8 } else { 4 },
            x_diff % 8,
            y_diff % 8,
            ((self.attr(n, 2) / 4096) % 16) as int,
        )
    }

    /// Whether object `n` draws over column `x`, where the background has
    /// priority `bg_priority`: it covers the column there, its pixel is not
    /// transparent, and its priority is not behind the background's.
    pub open spec fn obj_draws(&self, n: int, x: int, bg_priority: u16) -> bool {
        &&& self.obj_x(n) <= x < self.obj_x(n) + self.obj_width(n)
        &&& self.obj_color(n, x).1 != 0
        &&& bg_priority >= (self.attr(n, 2) / 1024) % 4
    }

    /// The visible objects among the first `n` with key `key`, in OAM order.
    pub open spec fn objs_with_key(&self, key: int, n: int) -> Seq<usize>
        decreases n,
    {
        if n <= 0 {
            Seq::empty()
        } else if self.obj_key(n - 1) == key && self.obj_visible(n - 1) {
            self.objs_with_key(key, n - 1).push((n - 1) as usize)
        } else {
            self.objs_with_key(key, n - 1)
        }
    }

    /// The visible objects with a key below `key`, by key and then in OAM
    /// order.
    pub open spec fn objs_below_key(&self, key: int) -> Seq<usize>
        decreases key,
    {
        if key <= 0 {
            Seq::empty()
        } else {
            self.objs_below_key(key - 1) + self.objs_with_key(key - 1, 128)
        }
    }

    /// The objects of the current line in the order they are drawn.
    pub open spec fn obj_order(&self) -> Seq<usize> {
        self.objs_below_key(16)
    }

    /// The colour of column `x` after drawing the objects `objs` in turn
    /// over `base`: the last one that draws there.
    pub open spec fn obj_composite(&self, objs: Seq<usize>, x: int, base: u16, bg_priority: u16) -> u16
        decreases objs.len(),
    {
        if objs.len() == 0 {
            base
        } else if self.obj_draws(objs.last() as int, x, bg_priority) {
            let (p, c) = self.obj_color(objs.last() as int, x);
            self.obj_palettes@[p * 16 + c]
        } else {
            self.obj_composite(objs.drop_last(), x, base, bg_priority)
        }
    }

    fn oam_attr(&self, n: usize, k: usize) -> (r: u16)
        requires
            self.wf(),
            n < 128 && k < 3,
        ensures
            r == self.attr(n as int, k as int),
    {
        let i = 8 * n + 2 * k;
        self.oam[i] as u16 + self.oam[i + 1] as u16 * 256
    }

    fn obj_visible_exec(&self, n: usize) -> (r: bool)
        requires
            self.wf(),
            n < 128,
        ensures
            r == self.obj_visible(n as int),
    {
        let a0 = self.oam_attr(n, 0);
        let a1 = self.oam_attr(n, 1);
        let shape = a0 / 16384;
        let size = a1 / 16384;
        if shape >= 3 {
            return false;
        }
        let (_, obj_height) = obj_size_of(shape, size);
        let rot_scaling = (a0 / 256) % 2 == 1;
        let double_size_disable = (a0 / 512) % 2 == 1;
        if !rot_scaling && double_size_disable {
            return false;
        }
        let obj_height = if double_size_disable { obj_height * 2 } else { obj_height };
        let obj_y = (a0 % 256) as i32;
        let y_end = obj_y + obj_height;
        let y = self.vcount as i32 + if y_end > 256 { 256 } else { 0 };
        obj_y <= y && y < y_end
    }

    /// The objects of `obj_order`.
    fn obj_order_exec(&self) -> (r: Vec<usize>)
        requires
            self.wf(),
        ensures
            r@ == self.obj_order(),
            forall|j: int| 0 <= j < r.len() ==> r@[j] < 128 && self.obj_visible(r@[j] as int),
    {
        let mut order: Vec<usize> = Vec::new();
        let mut key: u16 = 0;
        while key < 16
            invariant
                self.wf(),
                key <= 16,
                order@ == self.objs_below_key(key as int),
                forall|j: int| 0 <= j < order.len() ==> order@[j] < 128 && self.obj_visible(order@[j] as int),
            decreases 16 - key,
        {
            let mut n: usize = 0;
            while n < 128
                invariant
                    self.wf(),
                    key < 16,
                    n <= 128,
                    order@ == self.objs_below_key(key as int) + self.objs_with_key(key as int, n as int),
                    forall|j: int| 0 <= j < order.len() ==> order@[j] < 128 && self.obj_visible(order@[j] as int),
                decreases 128 - n,
            {
                let k = (self.oam_attr(n, 0) / 16384) * 4 + self.oam_attr(n, 1) / 16384;
                if k == key && self.obj_visible_exec(n) {
                    order.push(n);
                }
                proof {
                    let base = self.objs_below_key(key as int);
                    if self.obj_key(n as int) == key && self.obj_visible(n as int) {
                        assert(self.objs_with_key(key as int, n + 1) == self.objs_with_key(key as int, n as int).push(
                            n,
                        ));
                        assert(base + self.objs_with_key(key as int, n + 1) =~= (base + self.objs_with_key(
                            key as int,
                            n as int,
                        )).push(n));
                    }
                }
                n = n + 1;
            }
            key = key + 1;
        }
        order
    }
}

impl PPU {
    /// Draws the objects of the current line over it; `bg_priorities` holds
    /// the priority of the background at each column.
    fn render_oam_line(&mut self, bg_priorities: &Vec<u16>)
        requires
            old(self).wf(),
            old(self).vcount < 160,
            bg_priorities.len() == 240,
        ensures
            final(self).wf(),
            forall|x: int|
                0 <= x < 240 ==> #[trigger] final(self).pixels@[old(self).vcount * 240 + x] == old(self).obj_composite(
                    old(self).obj_order(),
                    x,
                    old(self).pixels@[old(self).vcount * 240 + x],
                    bg_priorities@[x],
                ),
            forall|i: int|
                0 <= i < PIXELS && !(old(self).vcount * 240 <= i < old(self).vcount * 240 + 240)
                    ==> final(self).pixels@[i] == old(self).pixels@[i],
            final(self).regs == old(self).regs && final(self).vcount == old(self).vcount,
            final(self).dot == old(self).dot && final(self).needs_to_render == old(self).needs_to_render,
            final(self).vram@ == old(self).vram@ && final(self).oam@ == old(self).oam@,
            final(self).bg_palettes@ == old(self).bg_palettes@ && final(self).obj_palettes@ == old(self).obj_palettes@,
    {
        let ghost s0 = *self;
        let objs = self.obj_order_exec();
        let line = self.vcount as usize;
        let tiles_1d = self.regs.dispcnt.contains(OBJ_TILES1D);
        let mut dot_x: usize = 0;
        while dot_x < 240
            invariant
                s0 == *old(self),
                self.wf(),
                dot_x <= 240,
                line == s0.vcount && line < 160,
                tiles_1d == (s0.regs.dispcnt.flags & OBJ_TILES1D == OBJ_TILES1D),
                objs@ == s0.obj_order(),
                forall|j: int| 0 <= j < objs.len() ==> objs@[j] < 128 && s0.obj_visible(objs@[j] as int),
                bg_priorities.len() == 240,
                self.regs == s0.regs && self.vcount == s0.vcount,
                self.dot == s0.dot && self.needs_to_render == s0.needs_to_render,
                self.vram@ == s0.vram@ && self.oam@ == s0.oam@,
                self.bg_palettes@ == s0.bg_palettes@ && self.obj_palettes@ == s0.obj_palettes@,
                forall|x: int|
                    0 <= x < dot_x ==> #[trigger] self.pixels@[line * 240 + x] == s0.obj_composite(
                        objs@,
                        x,
                        s0.pixels@[line * 240 + x],
                        bg_priorities@[x],
                    ),
                forall|i: int|
                    0 <= i < PIXELS && !(line * 240 <= i < line * 240 + dot_x) ==> self.pixels@[i] == s0.pixels@[i],
            decreases 240 - dot_x,
        {
            let mut j: usize = 0;
            let ghost i0 = line * 240 + dot_x;
            while j < objs.len()
                invariant
                    s0 == *old(self),
                    self.wf(),
                    dot_x < 240,
                    j <= objs.len(),
                    i0 == line * 240 + dot_x,
                    line == s0.vcount && line < 160,
                    tiles_1d == (s0.regs.dispcnt.flags & OBJ_TILES1D == OBJ_TILES1D),
                    objs@ == s0.obj_order(),
                    forall|j: int| 0 <= j < objs.len() ==> objs@[j] < 128 && s0.obj_visible(objs@[j] as int),
                    bg_priorities.len() == 240,
                    self.regs == s0.regs && self.vcount == s0.vcount,
                    self.dot == s0.dot && self.needs_to_render == s0.needs_to_render,
                    self.vram@ == s0.vram@ && self.oam@ == s0.oam@,
                    self.bg_palettes@ == s0.bg_palettes@ && self.obj_palettes@ == s0.obj_palettes@,
                    self.pixels@[i0] == s0.obj_composite(
                        objs@.take(j as int),
                        dot_x as int,
                        s0.pixels@[i0],
                        bg_priorities@[dot_x as int],
                    ),
                    forall|x: int|
                        0 <= x < dot_x ==> #[trigger] self.pixels@[line * 240 + x] == s0.obj_composite(
                            objs@,
                            x,
                            s0.pixels@[line * 240 + x],
                            bg_priorities@[x],
                        ),
                    forall|i: int|
                        0 <= i < PIXELS && i != i0 && !(line * 240 <= i < line * 240 + dot_x) ==> self.pixels@[i]
                            == s0.pixels@[i],
                decreases objs.len() - j,
            {
                proof {
                    assert(objs@.take(j as int + 1).drop_last() =~= objs@.take(j as int));
                    assert(objs@.take(j as int + 1).last() == objs@[j as int]);
                }
                let ghost before = self.pixels@;
                self.draw_obj_pixel(objs[j], dot_x, bg_priorities[dot_x], tiles_1d);
                proof {
                    assert(self.pixels@ == before.update(i0, self.pixels@[i0]));
                }
                j = j + 1;
            }
            proof {
                assert(objs@.take(objs.len() as int) =~= objs@);
            }
            dot_x = dot_x + 1;
        }
    }

    /// Draws object `n` at column `dot_x` of the current line, where the
    /// background has priority `bg_priority`, if it draws there.
    #[verifier::rlimit(100)]
    fn draw_obj_pixel(&mut self, n: usize, dot_x: usize, bg_priority: u16, tiles_1d: bool)
        requires
            old(self).wf(),
            old(self).vcount < 160,
            n < 128 && dot_x < 240,
            tiles_1d == (old(self).regs.dispcnt.flags & OBJ_TILES1D == OBJ_TILES1D),
        ensures
            final(self).wf(),
            ({
                let i = old(self).vcount * 240 + dot_x;
                &&& final(self).pixels@ == old(self).pixels@.update(i, final(self).pixels@[i])
                &&& old(self).obj_shape(n as int) < 3 && old(self).obj_draws(n as int, dot_x as int, bg_priority)
                    ==> final(self).pixels@[i] == ({
                    let (p, c) = old(self).obj_color(n as int, dot_x as int);
                    old(self).obj_palettes@[p * 16 + c]
                })
                &&& !(old(self).obj_shape(n as int) < 3 && old(self).obj_draws(n as int, dot_x as int, bg_priority))
                    ==> final(self).pixels@[i] == old(self).pixels@[i]
            }),
            final(self).regs == old(self).regs && final(self).vcount == old(self).vcount,
            final(self).dot == old(self).dot && final(self).needs_to_render == old(self).needs_to_render,
            final(self).vram@ == old(self).vram@ && final(self).oam@ == old(self).oam@,
            final(self).bg_palettes@ == old(self).bg_palettes@ && final(self).obj_palettes@ == old(self).obj_palettes@,
    {
        let ghost s0 = *self;
        let line = self.vcount as usize;
        let a0 = self.oam_attr(n, 0);
        let a1 = self.oam_attr(n, 1);
        let a2 = self.oam_attr(n, 2);
        let shape = a0 / 16384;
        let size = a1 / 16384;
        if shape < 3 {
            let double_size = (a0 / 512) % 2 == 1;
            let (w, _) = obj_size_of(shape, size);
            let obj_width = if double_size { w * 2 } else { w };
            let x9 = (a1 % 512) as i32;
            let obj_x = if x9 >= 256 { x9 - 512 } else { x9 };
            let dx = dot_x as i32;
            if obj_x <= dx && dx < obj_x + obj_width {
                let x_diff = (dx - obj_x) as u32;
                let y_diff: u32 = (line as u32 + 256 - (a0 % 256) as u32) % 256;
                let width = obj_width as u32;
                assert(y_diff / 8 * width <= 31 * 128) by (nonlinear_arith)
                    requires
                        y_diff < 256,
                        width <= 128,
                ;
                let offset = if tiles_1d { (y_diff / 8 * width + x_diff) / 8 } else { 0 };
                let tile_num = (a2 % 1024) as usize + offset as usize;
                let flip_x = (a1 / 4096) % 2 == 1;
                let flip_y = (a1 / 8192) % 2 == 1;
                let bit_depth: usize = if (a0 / 8192) % 2 == 1 { 8 } else { 4 };
                let palette_num = ((a2 / 4096) % 16) as usize;
                let (p, c) = self.get_color_from_tile(
                    0x10000,
                    tile_num,
                    flip_x,
                    flip_y,
                    bit_depth,
                    (x_diff % 8) as usize,
                    (y_diff % 8) as usize,
                    palette_num,
                );
                proof {
                    assert(obj_x == s0.obj_x(n as int) && obj_width == s0.obj_width(n as int));
                    assert(y_diff == (s0.vcount - s0.attr(n as int, 0) % 256) % 256);
                    assert(p == s0.obj_color(n as int, dot_x as int).0 && c == s0.obj_color(
                        n as int,
                        dot_x as int,
                    ).1);
                }
                if c != 0 && bg_priority >= (a2 / 1024) % 4 {
                    let color = self.obj_palettes[p * 16 + c];
                    self.pixels.set(line * 240 + dot_x, color);
                }
            }
        }
        proof {
            let i = s0.vcount * 240 + dot_x;
            assert(self.pixels@ =~= s0.pixels@.update(i, self.pixels@[i]));
        }
    }

    /// Pixel `x` of the current line as `render_line` draws it: the
    /// background of the mode, with the objects over it when they are
    /// displayed.
    pub open spec fn line_pixel(&self, x: int) -> u16 {
        let i = self.vcount * 240 + x;
        let bg = self.background_pixel(x, self.pixels@[i]);
        if self.regs.dispcnt.flags & DISPLAY_OBJ == DISPLAY_OBJ {
            self.obj_composite(self.obj_order(), x, bg, self.background_priority(x))
        } else {
            bg
        }
    }

    /// Draws the current line.
    fn render_line(&mut self)
        requires
            old(self).wf(),
            old(self).vcount < 160,
        ensures
            final(self).wf(),
            forall|x: int|
                0 <= x < 240 ==> #[trigger] final(self).pixels@[old(self).vcount * 240 + x] == old(self).line_pixel(x),
            forall|i: int|
                0 <= i < PIXELS && !(old(self).vcount * 240 <= i < old(self).vcount * 240 + 240)
                    ==> final(self).pixels@[i] == old(self).pixels@[i],
            final(self).regs == old(self).regs && final(self).vcount == old(self).vcount,
            final(self).dot == old(self).dot && final(self).needs_to_render == old(self).needs_to_render,
            final(self).vram@ == old(self).vram@ && final(self).oam@ == old(self).oam@,
            final(self).bg_palettes@ == old(self).bg_palettes@ && final(self).obj_palettes@ == old(self).obj_palettes@,
    {
        let ghost s0 = *self;
        let mut bg_priorities: Vec<u16> = vec![4u16; 240];
        assert(bg_priorities@ =~= Seq::new(240, |i: int| 4u16));
        self.render_background_line(&mut bg_priorities);
        let ghost s1 = *self;
        if self.regs.dispcnt.contains(DISPLAY_OBJ) {
            self.render_oam_line(&bg_priorities);
            proof {
                assert(s1.obj_order() =~= s0.obj_order()) by {
                    assert(s1.oam@ == s0.oam@ && s1.vram@ == s0.vram@ && s1.regs == s0.regs && s1.vcount == s0.vcount);
                    lemma_obj_order_depends(s0, s1);
                }
                assert forall|x: int| 0 <= x < 240 implies #[trigger] self.pixels@[s0.vcount * 240 + x] == s0.line_pixel(x)
                    by {
                    lemma_obj_composite_depends(s0, s1, s0.obj_order(), x, s1.pixels@[s0.vcount * 240 + x],
                        bg_priorities@[x]);
                }
            }
        }
    }
}

/// The objects drawn depend on OAM, VRAM, the registers and the line alone.
proof fn lemma_obj_order_depends(a: PPU, b: PPU)
    requires
        a.oam@ == b.oam@,
        a.vram@ == b.vram@,
        a.regs == b.regs,
        a.vcount == b.vcount,
    ensures
        a.obj_order() == b.obj_order(),
{
    assert forall|key: int, n: int| #![trigger a.objs_with_key(key, n)] 0 <= n <= 128 implies a.objs_with_key(key, n)
        == b.objs_with_key(key, n) by {
        lemma_objs_with_key_depends(a, b, key, n);
    }
    lemma_objs_below_key_depends(a, b, 16);
}

proof fn lemma_objs_with_key_depends(a: PPU, b: PPU, key: int, n: int)
    requires
        a.oam@ == b.oam@,
        a.vram@ == b.vram@,
        a.regs == b.regs,
        a.vcount == b.vcount,
    ensures
        a.objs_with_key(key, n) == b.objs_with_key(key, n),
    decreases n,
{
    if n > 0 {
        lemma_objs_with_key_depends(a, b, key, n - 1);
    }
}

proof fn lemma_objs_below_key_depends(a: PPU, b: PPU, key: int)
    requires
        a.oam@ == b.oam@,
        a.vram@ == b.vram@,
        a.regs == b.regs,
        a.vcount == b.vcount,
    ensures
        a.objs_below_key(key) == b.objs_below_key(key),
    decreases key,
{
    if key > 0 {
        lemma_objs_below_key_depends(a, b, key - 1);
        lemma_objs_with_key_depends(a, b, key - 1, 128);
    }
}

/// What the objects draw depends on OAM, VRAM, the registers, the line and
/// the objects' palette alone.
proof fn lemma_obj_composite_depends(a: PPU, b: PPU, objs: Seq<usize>, x: int, base: u16, prio: u16)
    requires
        a.oam@ == b.oam@,
        a.vram@ == b.vram@,
        a.regs == b.regs,
        a.vcount == b.vcount,
        a.obj_palettes@ == b.obj_palettes@,
    ensures
        a.obj_composite(objs, x, base, prio) == b.obj_composite(objs, x, base, prio),
    decreases objs.len(),
{
    if objs.len() > 0 {
        lemma_obj_composite_depends(a, b, objs.drop_last(), x, base, prio);
    }
}

impl PPU {
    /// One dot of the display: the line is drawn at dot 241 of a visible
    /// line, the blanking flags follow the position, the first dot of VBlank
    /// marks the frame as finished, and the position moves on. The result
    /// is the interrupts that the dot requests.
    pub fn emulate_dot(&mut self) -> (r: InterruptRequest)
        requires
            old(self).wf(),
        ensures
            final(self).wf(),
            r.bits == dot_interrupts(old(self).dot, old(self).vcount, old(self).regs.dispstat.vcount_setting),
            final(self).regs == (PPURegisters {
                dispstat: DISPSTAT {
                    flags: blank_flags(old(self).regs.dispstat.flags, old(self).dot, old(self).vcount),
                    ..old(self).regs.dispstat
                },
                ..old(self).regs
            }),
            final(self).dot == (if old(self).dot + 1 == 308 { 0 } else { old(self).dot + 1 }),
            final(self).vcount == (if old(self).dot + 1 == 308 {
                (old(self).vcount + 1) % 228
            } else {
                old(self).vcount as int
            }),
            final(self).needs_to_render == (old(self).needs_to_render || old(self).vcount == 160 && old(self).dot == 0),
            old(self).vcount < 160 && old(self).dot == 241 ==> {
                &&& forall|x: int|
                    0 <= x < 240 ==> #[trigger] final(self).pixels@[old(self).vcount * 240 + x] == old(self).line_pixel(x)
                &&& forall|i: int|
                    0 <= i < PIXELS && !(old(self).vcount * 240 <= i < old(self).vcount * 240 + 240)
                        ==> final(self).pixels@[i] == old(self).pixels@[i]
            },
            !(old(self).vcount < 160 && old(self).dot == 241) ==> final(self).pixels@ == old(self).pixels@,
            final(self).vram@ == old(self).vram@ && final(self).oam@ == old(self).oam@,
            final(self).bg_palettes@ == old(self).bg_palettes@ && final(self).obj_palettes@ == old(self).obj_palettes@,
    {
        if self.vcount < 160 && self.dot == 241 {
            self.render_line();
        }
        let h: u16 = if self.dot < 240 { 0 } else { INTERRUPT_HBLANK };
        let v: u16 = if self.vcount < 160 && self.vcount != 227 { 0 } else { INTERRUPT_VBLANK };
        let f0 = self.regs.dispstat.flags;
        let f1 = if self.dot < 240 { f0 & !DISPSTAT_HBLANK } else { f0 | DISPSTAT_HBLANK };
        let f2 = if self.vcount < 160 && self.vcount != 227 { f1 & !DISPSTAT_VBLANK } else { f1 | DISPSTAT_VBLANK };
        self.regs.dispstat.flags = f2;
        if self.vcount == 160 && self.dot == 0 {
            self.needs_to_render = true;
        }
        let mut m: u16 = 0;
        self.dot = self.dot + 1;
        if self.dot == 308 {
            self.dot = 0;
            self.vcount = (self.vcount + 1) % 228;
            if self.vcount == self.regs.dispstat.vcount_setting {
                m = INTERRUPT_VCOUNTER_MATCH;
            }
        }
        InterruptRequest { bits: h | v | m }
    }
}

} // verus!
