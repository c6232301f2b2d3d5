//! The first picture processing unit: registers, palettes, VRAM, and the
//! bitmap mode 4 renderer.
use vstd::prelude::*;
use crate::gba::{WIDTH, HEIGHT};
use crate::io::ppu::registers::BGMode;

pub mod registers;
pub mod layers;

use registers::{BG01CNT, BG23CNT, DISPCNT, DISPSTAT, DISPLAY_FRAME_SELECT, DISPSTAT_HBLANK, DISPSTAT_VBLANK};
use layers::BG;

verus! {

/// The number of pixels of the picture.
pub const PIXELS: usize = 38400;

/// The dots of a line (240 visible, 68 of HBlank) and the lines of a frame
/// (160 visible, 68 of VBlank).
pub const DOTS_PER_LINE: u16 = 308;
pub const LINES_PER_FRAME: u8 = 228;

/// The dots of a whole frame.
pub const FRAME_DOTS: u32 = 70224;

pub struct PPU {
    pub dispcnt: DISPCNT,
    pub green_swap: bool,
    pub dispstat: DISPSTAT,
    pub vcount: u8,
    pub bg0: BG<BG01CNT>,
    pub bg1: BG<BG01CNT>,
    pub bg2: BG<BG23CNT>,
    pub bg3: BG<BG23CNT>,
    pub bg_colors: Vec<u16>,
    pub obj_colors: Vec<u16>,
    pub vram: Vec<u8>,
    pub dot: u16,
    pub pixels: Vec<u16>,
    pub needs_to_render: bool,
}

/// The palette entry that byte `addr` of palette RAM belongs to: each
/// half of the RAM (backgrounds, then objects) maps its first 256 bytes.
pub open spec fn palette_index(addr: u32) -> int {
    ((addr % 0x400) % 256) as int / 2
}

/// `v` with its low (`high` false) or high byte replaced by `b`.
pub open spec fn with_byte(v: u16, high: bool, b: u8) -> u16 {
    if high { (v & 0x00FF) | (b as u16) << 8u16 } else { (v & 0xFF00) | b as u16 }
}

impl PPU {
    pub open spec fn wf(&self) -> bool {
        &&& self.bg_colors.len() == 0x100
        &&& self.obj_colors.len() == 0x100
        &&& self.vram.len() == 0x18000
        &&& self.pixels.len() == PIXELS
        &&& self.dot < DOTS_PER_LINE
        &&& self.vcount < LINES_PER_FRAME
        &&& self.bg0.cnt.wf() && self.bg1.cnt.wf() && self.bg2.cnt.bg01cnt.wf() && self.bg3.cnt.bg01cnt.wf()
    }

    /// Tests `wf`.
    pub fn is_wf(&self) -> (r: bool)
        ensures
            r == self.wf(),
    {
        self.bg_colors.len() == 0x100 && self.obj_colors.len() == 0x100 && self.vram.len() == 0x18000
            && self.pixels.len() == PIXELS && self.dot < DOTS_PER_LINE && self.vcount < LINES_PER_FRAME
            && self.bg0.cnt.priority < 4 && self.bg0.cnt.tile_block < 4 && self.bg0.cnt.map_block < 4
            && self.bg0.cnt.screen_size < 4 && self.bg1.cnt.priority < 4 && self.bg1.cnt.tile_block < 4
            && self.bg1.cnt.map_block < 4 && self.bg1.cnt.screen_size < 4 && self.bg2.cnt.bg01cnt.priority < 4
            && self.bg2.cnt.bg01cnt.tile_block < 4 && self.bg2.cnt.bg01cnt.map_block < 4
            && self.bg2.cnt.bg01cnt.screen_size < 4 && self.bg3.cnt.bg01cnt.priority < 4
            && self.bg3.cnt.bg01cnt.tile_block < 4 && self.bg3.cnt.bg01cnt.map_block < 4
            && self.bg3.cnt.bg01cnt.screen_size < 4
    }

    /// The dot of the frame that the display is at.
    pub open spec fn position(&self) -> int {
        self.vcount * (DOTS_PER_LINE as int) + self.dot
    }

    /// Equal registers, layers, position and render flag: everything but
    /// the palettes, VRAM and the picture.
    pub open spec fn same_registers(&self, other: &PPU) -> bool {
        &&& self.dispcnt == other.dispcnt && self.green_swap == other.green_swap
        &&& self.dispstat == other.dispstat && self.vcount == other.vcount
        &&& self.bg0 == other.bg0 && self.bg1 == other.bg1 && self.bg2 == other.bg2 && self.bg3 == other.bg3
        &&& self.dot == other.dot && self.needs_to_render == other.needs_to_render
    }

    pub fn new() -> (r: PPU)
        ensures
            r.wf(),
            r.dot == 0,
            r.vcount == 0,
            !r.needs_to_render,
            r.vram@ == Seq::new(0x18000, |i: int| 0u8),
            r.pixels@ == Seq::new(PIXELS as nat, |i: int| 0u16),
    {
        let r = PPU {
            dispcnt: DISPCNT::new(),
            green_swap: false,
            dispstat: DISPSTAT::new(),
            vcount: 0,
            bg0: BG::<BG01CNT>::new(),
            bg1: BG::<BG01CNT>::new(),
            bg2: BG::<BG23CNT>::new_affine(),
            bg3: BG::<BG23CNT>::new_affine(),
            bg_colors: vec![0u16; 0x100],
            obj_colors: vec![0u16; 0x100],
            vram: vec![0u8; 0x18000],
            dot: 0,
            pixels: vec![0u16; PIXELS],
            needs_to_render: false,
        };
        assert(r.vram@ =~= Seq::new(0x18000, |i: int| 0u8));
        assert(r.pixels@ =~= Seq::new(PIXELS as nat, |i: int| 0u16));
        r
    }

    /// The byte at `addr` of palette RAM.
    pub open spec fn palette_byte(&self, addr: u32) -> u8 {
        let colors = if addr % 0x400 < 0x200 { self.bg_colors@ } else { self.obj_colors@ };
        let c = colors[palette_index(addr)];
        if addr % 2 == 0 { (c % 256) as u8 } else { (c / 256) as u8 }
    }

    pub fn read_palette_ram(&self, addr: u32) -> (r: u8)
        requires
            self.wf(),
        ensures
            r == self.palette_byte(addr),
    {
        let a = (addr % 0x400) as usize;
        let index = (a % 256) / 2;
        let c = if a < 0x200 { self.bg_colors[index] } else { self.obj_colors[index] };
        if addr % 2 == 0 { (c % 256) as u8 } else { (c / 256) as u8 }
    }

    /// The palettes after writing `value` at `addr` of palette RAM; the
    /// rest is unchanged.
    pub open spec fn wrote_palette(&self, new: &PPU, addr: u32, value: u8) -> bool {
        let i = palette_index(addr);
        &&& addr % 0x400 < 0x200 ==> new.bg_colors@ == self.bg_colors@.update(i, with_byte(self.bg_colors@[i], addr % 2
            == 1, value)) && new.obj_colors@ == self.obj_colors@
        &&& addr % 0x400 >= 0x200 ==> new.obj_colors@ == self.obj_colors@.update(i, with_byte(self.obj_colors@[i], addr
            % 2 == 1, value)) && new.bg_colors@ == self.bg_colors@
        &&& new.vram@ == self.vram@ && new.pixels@ == self.pixels@
        &&& new.same_registers(self)
    }

    /// VRAM after writing `value` at `addr`; the rest is unchanged.
    pub open spec fn wrote_vram(&self, new: &PPU, addr: u32, value: u8) -> bool {
        &&& new.vram@ == self.vram@.update(addr - 0x0600_0000, value)
        &&& new.bg_colors@ == self.bg_colors@ && new.obj_colors@ == self.obj_colors@
        &&& new.pixels@ == self.pixels@
        &&& new.same_registers(self)
    }

    /// The registers after writing `value` at `addr` of the display's I/O;
    /// the memories, the position and the scroll offsets are unchanged.
    pub open spec fn wrote_register(&self, new: &PPU, addr: u32, value: u8) -> bool {
        let a = addr % 0x1000;
        &&& new.bg_colors@ == self.bg_colors@ && new.obj_colors@ == self.obj_colors@
        &&& new.vram@ == self.vram@ && new.pixels@ == self.pixels@
        &&& new.dot == self.dot && new.vcount == self.vcount && new.needs_to_render == self.needs_to_render
        &&& new.green_swap == (if a == 0x002 { value % 2 == 1 } else { self.green_swap })
        &&& new.dispcnt == (if a < 2 { self.dispcnt.after_write(a as u8, value) } else { self.dispcnt })
        &&& new.dispstat == (if a == 4 || a == 5 { self.dispstat.after_write((a - 4) as u8, value) } else {
            self.dispstat
        })
        &&& new.bg0.cnt == (if a == 8 || a == 9 { self.bg0.cnt.after_write((a - 8) as u8, value) } else {
            self.bg0.cnt
        })
        &&& new.bg1.cnt == (if a == 0xA || a == 0xB { self.bg1.cnt.after_write((a - 0xA) as u8, value) } else {
            self.bg1.cnt
        })
        &&& new.bg2.cnt == (if a == 0xC || a == 0xD { self.bg2.cnt.after_write((a - 0xC) as u8, value) } else {
            self.bg2.cnt
        })
        &&& new.bg3.cnt == (if a == 0xE || a == 0xF { self.bg3.cnt.after_write((a - 0xE) as u8, value) } else {
            self.bg3.cnt
        })
        &&& new.bg0.hofs == self.bg0.hofs && new.bg0.vofs == self.bg0.vofs
        &&& new.bg1.hofs == self.bg1.hofs && new.bg1.vofs == self.bg1.vofs
        &&& new.bg2.hofs == self.bg2.hofs && new.bg2.vofs == self.bg2.vofs
        &&& new.bg3.hofs == self.bg3.hofs && new.bg3.vofs == self.bg3.vofs
    }

    pub fn write_palette_ram(&mut self, addr: u32, value: u8)
        requires
            old(self).wf(),
        ensures
            final(self).wf(),
            old(self).wrote_palette(final(self), addr, value),
    {
        let a = (addr % 0x400) as usize;
        let index = (a % 256) / 2;
        let v = value as u16;
        if a < 0x200 {
            let c = self.bg_colors[index];
            let n = if addr % 2 == 0 { (c & 0xFF00) | v } else { (c & 0x00FF) | v << 8 };
            self.bg_colors.set(index, n);
        } else {
            let c = self.obj_colors[index];
            let n = if addr % 2 == 0 { (c & 0xFF00) | v } else { (c & 0x00FF) | v << 8 };
            self.obj_colors.set(index, n);
        }
    }

    pub fn read_vram(&self, addr: u32) -> (r: u8)
        requires
            self.wf(),
            0x0600_0000 <= addr < 0x0601_8000,
        ensures
            r == self.vram@[addr - 0x0600_0000],
    {
        self.vram[(addr - 0x0600_0000) as usize]
    }

    pub fn write_vram(&mut self, addr: u32, value: u8)
        requires
            old(self).wf(),
            0x0600_0000 <= addr < 0x0601_8000,
        ensures
            final(self).wf(),
            old(self).wrote_vram(final(self), addr, value),
    {
        self.vram.set((addr - 0x0600_0000) as usize, value);
    }

    /// The first byte of the frame shown in mode 4.
    pub open spec fn frame_start(&self) -> int {
        if self.dispcnt.flags & DISPLAY_FRAME_SELECT == DISPLAY_FRAME_SELECT { 0xA000 } else { 0 }
    }

    /// Draws the picture of bitmap mode 4: each pixel is a palette index.
    fn render_mode4(&mut self)
        requires
            old(self).wf(),
        ensures
            final(self).wf(),
            forall|i: int|
                0 <= i < PIXELS ==> #[trigger] final(self).pixels@[i] == old(self).bg_colors@[old(
                    self,
                ).vram@[old(self).frame_start() + i] as int],
            final(self).bg_colors@ == old(self).bg_colors@ && final(self).obj_colors@ == old(self).obj_colors@,
            final(self).vram@ == old(self).vram@,
            final(self).dot == old(self).dot && final(self).vcount == old(self).vcount,
            final(self).dispcnt == old(self).dispcnt && final(self).dispstat == old(self).dispstat,
            final(self).needs_to_render == old(self).needs_to_render,
            final(self).green_swap == old(self).green_swap,
            final(self).bg0 == old(self).bg0 && final(self).bg1 == old(self).bg1,
            final(self).bg2 == old(self).bg2 && final(self).bg3 == old(self).bg3,
    {
        let start: usize = if self.dispcnt.flags & DISPLAY_FRAME_SELECT == DISPLAY_FRAME_SELECT { 0xA000 } else { 0 };
        let mut i: usize = 0;
        while i < PIXELS
            invariant
                self.wf(),
                i <= PIXELS,
                start == old(self).frame_start(),
                self.bg_colors@ == old(self).bg_colors@ && self.obj_colors@ == old(self).obj_colors@,
                self.vram@ == old(self).vram@,
                self.dot == old(self).dot && self.vcount == old(self).vcount,
                self.dispcnt == old(self).dispcnt && self.dispstat == old(self).dispstat,
                self.needs_to_render == old(self).needs_to_render,
                self.green_swap == old(self).green_swap,
                self.bg0 == old(self).bg0 && self.bg1 == old(self).bg1,
                self.bg2 == old(self).bg2 && self.bg3 == old(self).bg3,
                forall|j: int|
                    0 <= j < i ==> #[trigger] self.pixels@[j] == old(self).bg_colors@[old(self).vram@[start + j] as int],
            decreases PIXELS - i,
        {
            let index = self.vram[start + i] as usize;
            let c = self.bg_colors[index];
            self.pixels.set(i, c);
            i = i + 1;
        }
    }

    /// One dot of the display: the blanking flags follow the position, the
    /// first dot of VBlank draws the frame (mode 4; other modes draw
    /// nothing), and the position moves on.
    pub fn emulate_dot(&mut self)
        requires
            old(self).wf(),
        ensures
            final(self).wf(),
            final(self).dot == (if old(self).dot + 1 == DOTS_PER_LINE { 0 } else { old(self).dot + 1 }),
            final(self).vcount == (if old(self).dot + 1 == DOTS_PER_LINE {
                (old(self).vcount + 1) % (LINES_PER_FRAME as int)
            } else {
                old(self).vcount as int
            }),
            (final(self).dispstat.flags & DISPSTAT_HBLANK != 0) == (old(self).dot >= 240),
            (final(self).dispstat.flags & DISPSTAT_VBLANK != 0) == (old(self).vcount >= 160),
            final(self).dispstat.vcount_setting == old(self).dispstat.vcount_setting,
            final(self).needs_to_render == (old(self).needs_to_render || old(self).vcount == 160 && old(self).dot == 0),
            old(self).vcount == 160 && old(self).dot == 0 && old(self).dispcnt.mode == BGMode::Mode4 ==> forall|i: int|
                0 <= i < PIXELS ==> #[trigger] final(self).pixels@[i] == old(self).bg_colors@[old(
                    self,
                ).vram@[old(self).frame_start() + i] as int],
            !(old(self).vcount == 160 && old(self).dot == 0 && old(self).dispcnt.mode == BGMode::Mode4)
                ==> final(self).pixels@ == old(self).pixels@,
            final(self).bg_colors@ == old(self).bg_colors@ && final(self).obj_colors@ == old(self).obj_colors@,
            final(self).vram@ == old(self).vram@,
            final(self).dispcnt == old(self).dispcnt && final(self).green_swap == old(self).green_swap,
            final(self).bg0 == old(self).bg0 && final(self).bg1 == old(self).bg1,
            final(self).bg2 == old(self).bg2 && final(self).bg3 == old(self).bg3,
    {
        let f0 = self.dispstat.flags;
        let f1 = if self.dot < 240 { f0 & !DISPSTAT_HBLANK } else { f0 | DISPSTAT_HBLANK };
        let f = if self.vcount < 160 { f1 & !DISPSTAT_VBLANK } else { f1 | DISPSTAT_VBLANK };
        assert((f0 & !2u16) & 2 == 0 && (f0 | 2u16) & 2 != 0 && (f1 & !1u16) & 2 == f1 & 2 && (f1 | 1u16) & 2 == f1
            & 2 && (f1 & !1u16) & 1 == 0 && (f1 | 1u16) & 1 != 0) by (bit_vector);
        self.dispstat.flags = f;
        if self.vcount == 160 && self.dot == 0 {
            match self.dispcnt.mode {
                BGMode::Mode4 => self.render_mode4(),
                _ => {},
            }
            self.needs_to_render = true;
        }
        self.dot = self.dot + 1;
        if self.dot == DOTS_PER_LINE {
            self.dot = 0;
            self.vcount = (self.vcount + 1) % LINES_PER_FRAME;
        }
    }

    /// The display register byte at `addr`; registers past BG3CNT read 0.
    pub open spec fn register_byte(&self, addr: u32) -> u8 {
        let a = addr % 0x1000;
        if a == 0x000 {
            self.dispcnt.read_spec(0)
        } else if a == 0x001 {
            self.dispcnt.read_spec(1)
        } else if a == 0x002 {
            if self.green_swap { 1 } else { 0 }
        } else if a == 0x004 {
            self.dispstat.read_spec(0)
        } else if a == 0x005 {
            self.dispstat.read_spec(1)
        } else if a == 0x006 {
            self.vcount
        } else if a == 0x008 {
            self.bg0.cnt.read_spec(0)
        } else if a == 0x009 {
            self.bg0.cnt.read_spec(1)
        } else if a == 0x00A {
            self.bg1.cnt.read_spec(0)
        } else if a == 0x00B {
            self.bg1.cnt.read_spec(1)
        } else if a == 0x00C {
            self.bg2.cnt.read_spec(0)
        } else if a == 0x00D {
            self.bg2.cnt.read_spec(1)
        } else if a == 0x00E {
            self.bg3.cnt.read_spec(0)
        } else if a == 0x00F {
            self.bg3.cnt.read_spec(1)
        } else {
            0
        }
    }

    pub fn read8(&self, addr: u32) -> (r: u8)
        requires
            self.wf(),
        ensures
            r == self.register_byte(addr),
    {
        let a = addr % 0x1000;
        match a {
            0x000 => self.dispcnt.read(0),
            0x001 => self.dispcnt.read(1),
            0x002 => self.green_swap as u8,
            0x004 => self.dispstat.read(0),
            0x005 => self.dispstat.read(1),
            0x006 => self.vcount,
            0x008 => self.bg0.cnt.read(0),
            0x009 => self.bg0.cnt.read(1),
            0x00A => self.bg1.cnt.read(0),
            0x00B => self.bg1.cnt.read(1),
            0x00C => self.bg2.cnt.read(0),
            0x00D => self.bg2.cnt.read(1),
            0x00E => self.bg3.cnt.read(0),
            0x00F => self.bg3.cnt.read(1),
            _ => 0,
        }
    }

    /// Writes a display register byte; the mode bits of DISPCNT must name a
    /// mode, and writes past BG3CNT are ignored.
    pub fn write8(&mut self, addr: u32, value: u8)
        requires
            old(self).wf(),
            addr % 0x1000 == 0 ==> value & 7 < 6,
        ensures
            final(self).wf(),
            old(self).wrote_register(final(self), addr, value),
    {
        let a = addr % 0x1000;
        match a {
            0x000 => self.dispcnt.write(0, value),
            0x001 => self.dispcnt.write(1, value),
            0x002 => {
                self.green_swap = value % 2 == 1;
            },
            0x004 => self.dispstat.write(0, value),
            0x005 => self.dispstat.write(1, value),
            0x008 => self.bg0.cnt.write(0, value),
            0x009 => self.bg0.cnt.write(1, value),
            0x00A => self.bg1.cnt.write(0, value),
            0x00B => self.bg1.cnt.write(1, value),
            0x00C => self.bg2.cnt.write(0, value),
            0x00D => self.bg2.cnt.write(1, value),
            0x00E => self.bg3.cnt.write(0, value),
            0x00F => self.bg3.cnt.write(1, value),
            _ => {},
        }
    }
}

} // verus!
