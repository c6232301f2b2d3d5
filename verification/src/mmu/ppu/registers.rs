//! The display registers, as the first renderer keeps them.
use vstd::prelude::*;
use crate::io::ppu::registers::{BGMode, mode_number, mode_of};

verus! {

/// The flags of DISPCNT that a write keeps.
pub const DISPCNT_WRITE_MASK: u16 = 0x3F;
pub const DISPLAY_FRAME_SELECT: u16 = 0x10;
pub const DISPSTAT_VBLANK: u16 = 0x1;
pub const DISPSTAT_HBLANK: u16 = 0x2;
pub const DISPSTAT_FLAGS: u16 = 0x3F;

/// DISPCNT: the display control.
#[derive(Clone, Copy, Debug, PartialEq, Eq, Structural)]
pub struct DISPCNT {
    pub flags: u16,
    pub mode: BGMode,
}

impl DISPCNT {
    pub fn new() -> (r: DISPCNT)
        ensures
            r == (DISPCNT { flags: 0, mode: BGMode::Mode0 }),
    {
        DISPCNT { flags: 0, mode: BGMode::Mode0 }
    }

    pub open spec fn read_spec(&self, byte: u8) -> u8 {
        if byte == 0 { ((self.flags % 256) as u8 | mode_number(self.mode)) as u8 } else { (self.flags / 256) as u8 }
    }

    pub fn read(&self, byte: u8) -> (r: u8)
        requires
            byte < 2,
        ensures
            r == self.read_spec(byte),
    {
        let f = self.flags;
        if byte == 0 { (f % 256) as u8 | self.mode.number() } else { (f / 256) as u8 }
    }

    /// The register after a write of `value` to byte `byte`.
    pub open spec fn after_write(self, byte: u8, value: u8) -> DISPCNT {
        if byte == 0 {
            DISPCNT { flags: (self.flags & 0xFF00) | (value & 0x3F) as u16, mode: mode_of(value & 7) }
        } else {
            DISPCNT { flags: (self.flags & 0x00FF) | ((value as u16) << 8u16 & DISPCNT_WRITE_MASK), ..self }
        }
    }

    /// Writes a byte; the flags keep only the bits of DISPSTAT's mask, as
    /// this renderer has them.
    pub fn write(&mut self, byte: u8, value: u8)
        requires
            byte < 2,
            byte == 0 ==> value & 7 < 6,
        ensures
            *final(self) == old(self).after_write(byte, value),
    {
        let f = self.flags;
        let v = value as u16;
        if byte == 0 {
            self.mode = BGMode::get(value & 0x7);
            self.flags = (f & 0xFF00) | (value & 0x3F) as u16;
        } else {
            self.flags = (f & 0x00FF) | (v << 8 & DISPCNT_WRITE_MASK);
        }
    }
}

/// DISPSTAT: the display status.
#[derive(Clone, Copy, Debug, PartialEq, Eq, Structural)]
pub struct DISPSTAT {
    pub flags: u16,
    pub vcount_setting: u8,
}

impl DISPSTAT {
    pub fn new() -> (r: DISPSTAT)
        ensures
            r == (DISPSTAT { flags: 0, vcount_setting: 0 }),
    {
        DISPSTAT { flags: 0, vcount_setting: 0 }
    }

    pub open spec fn read_spec(&self, byte: u8) -> u8 {
        if byte == 0 { (self.flags % 256) as u8 } else { self.vcount_setting }
    }

    pub fn read(&self, byte: u8) -> (r: u8)
        requires
            byte < 2,
        ensures
            r == self.read_spec(byte),
    {
        if byte == 0 { (self.flags % 256) as u8 } else { self.vcount_setting }
    }

    pub open spec fn after_write(self, byte: u8, value: u8) -> DISPSTAT {
        if byte == 0 {
            DISPSTAT { flags: (value & 0x3F) as u16, ..self }
        } else {
            DISPSTAT { vcount_setting: value, ..self }
        }
    }

    pub fn write(&mut self, byte: u8, value: u8)
        requires
            byte < 2,
        ensures
            *final(self) == old(self).after_write(byte, value),
    {
        if byte == 0 {
            self.flags = (value & 0x3F) as u16;
        } else {
            self.vcount_setting = value;
        }
    }
}

/// BG0CNT and BG1CNT: the control of a text background.
#[derive(Clone, Copy, Debug, PartialEq, Eq, Structural)]
pub struct BG01CNT {
    pub priority: u8,
    pub tile_block: u8,
    pub mosaic: bool,
    pub use_palettes: bool,
    pub map_block: u8,
    pub screen_size: u8,
}

impl BG01CNT {
    pub fn new() -> (r: BG01CNT)
        ensures
            r == BG01CNT::zero(),
    {
        BG01CNT { priority: 0, tile_block: 0, mosaic: false, use_palettes: false, map_block: 0, screen_size: 0 }
    }

    pub open spec fn zero() -> BG01CNT {
        BG01CNT { priority: 0, tile_block: 0, mosaic: false, use_palettes: false, map_block: 0, screen_size: 0 }
    }

    pub open spec fn wf(&self) -> bool {
        self.priority < 4 && self.tile_block < 4 && self.map_block < 4 && self.screen_size < 4
    }

    pub open spec fn read_spec(&self, byte: u8) -> u8 {
        if byte == 0 {
            ((if self.use_palettes { 128int } else { 0 }) + (if self.mosaic { 64int } else { 0 }) + self.tile_block * 4
                + self.priority) as u8
        } else {
            (self.screen_size * 64 + self.map_block) as u8
        }
    }

    pub fn read(&self, byte: u8) -> (r: u8)
        requires
            byte < 2,
            self.wf(),
        ensures
            r == self.read_spec(byte),
    {
        if byte == 0 {
            let b: u8 = if self.use_palettes { 128 } else { 0 };
            let m: u8 = if self.mosaic { 64 } else { 0 };
            b + m + self.tile_block * 4 + self.priority
        } else {
            self.screen_size * 64 + self.map_block
        }
    }

    pub open spec fn after_write(self, byte: u8, value: u8) -> BG01CNT {
        if byte == 0 {
            BG01CNT {
                priority: value % 4,
                tile_block: (value / 4) % 4,
                mosaic: (value / 64) % 2 == 1,
                use_palettes: value >= 128,
                ..self
            }
        } else {
            BG01CNT { map_block: value % 4, screen_size: value / 64, ..self }
        }
    }

    pub fn write(&mut self, byte: u8, value: u8)
        requires
            byte < 2,
        ensures
            final(self).wf() || !old(self).wf(),
            *final(self) == old(self).after_write(byte, value),
    {
        if byte == 0 {
            self.priority = value % 4;
            self.tile_block = value / 4 % 4;
            self.mosaic = value / 64 % 2 == 1;
            self.use_palettes = value >= 128;
        } else {
            self.map_block = value % 4;
            self.screen_size = value / 64;
        }
    }
}

/// BG2CNT and BG3CNT: the control of a background that can be affine, with
/// the wrap-around flag.
#[derive(Clone, Copy, Debug, PartialEq, Eq, Structural)]
pub struct BG23CNT {
    pub bg01cnt: BG01CNT,
    pub wrap: bool,
}

impl BG23CNT {
    pub fn new() -> (r: BG23CNT)
        ensures
            r == (BG23CNT { bg01cnt: BG01CNT::zero(), wrap: false }),
    {
        BG23CNT { bg01cnt: BG01CNT::new(), wrap: false }
    }

    pub open spec fn read_spec(&self, byte: u8) -> u8 {
        if byte == 0 {
            self.bg01cnt.read_spec(0)
        } else {
            self.bg01cnt.read_spec(1) | (if self.wrap { 0x20u8 } else { 0u8 })
        }
    }

    pub fn read(&self, byte: u8) -> (r: u8)
        requires
            byte < 2,
            self.bg01cnt.wf(),
        ensures
            r == self.read_spec(byte),
    {
        if byte == 0 {
            self.bg01cnt.read(0)
        } else {
            self.bg01cnt.read(1) | (if self.wrap { 0x20 } else { 0 })
        }
    }

    /// Writes a byte. The low byte goes to the high byte's fields, and the
    /// high byte to the low byte's fields as well as the wrap flag.
    pub open spec fn after_write(self, byte: u8, value: u8) -> BG23CNT {
        if byte == 0 {
            BG23CNT { bg01cnt: self.bg01cnt.after_write(1, value), ..self }
        } else {
            BG23CNT { bg01cnt: self.bg01cnt.after_write(0, value), wrap: (value / 32) % 2 == 1 }
        }
    }

    pub fn write(&mut self, byte: u8, value: u8)
        requires
            byte < 2,
        ensures
            final(self).bg01cnt.wf() || !old(self).bg01cnt.wf(),
            *final(self) == old(self).after_write(byte, value),
    {
        if byte == 0 {
            self.bg01cnt.write(1, value);
        } else {
            self.bg01cnt.write(0, value);
            self.wrap = value / 32 % 2 == 1;
        }
    }
}

/// BGxHOFS and BGxVOFS.
#[derive(Clone, Copy, Debug, PartialEq, Eq, Structural)]
pub struct OFS {
    pub offset: u16,
}

impl OFS {
    pub fn new() -> (r: OFS)
        ensures
            r.offset == 0,
    {
        OFS { offset: 0 }
    }

    pub fn read(&self, byte: u8) -> (r: u8)
        requires
            byte < 2,
        ensures
            r == (if byte == 0 { self.offset % 256 } else { self.offset / 256 }),
    {
        let o = self.offset;
        if byte == 0 { (o % 256) as u8 } else { (o / 256) as u8 }
    }

    pub fn write(&mut self, byte: u8, value: u8)
        requires
            byte < 2,
        ensures
            byte == 0 ==> final(self).offset == (old(self).offset & 0xFF00) | value as u16,
            byte == 1 ==> final(self).offset == (old(self).offset & 0xFEFF) | (value as u16) << 8u16,
    {
        let o = self.offset;
        let v = value as u16;
        if byte == 0 {
            self.offset = (o & 0xFF00) | v;
        } else {
            self.offset = (o & 0xFEFF) | v << 8;
        }
    }
}

/// A parameter of the affine transformation: sign, 7 bits of integer part
/// and 8 of fraction.
#[derive(Clone, Copy, Debug, PartialEq, Eq, Structural)]
pub struct RotationScalingParameter {
    pub fractional: u8,
    pub integer: u8,
    pub sign: bool,
}

impl RotationScalingParameter {
    pub fn new() -> (r: RotationScalingParameter)
        ensures
            r == (RotationScalingParameter { fractional: 0, integer: 0, sign: false }),
    {
        RotationScalingParameter { fractional: 0, integer: 0, sign: false }
    }

    pub fn read(&self, byte: u8) -> (r: u8)
        requires
            byte < 2,
            self.integer < 0x80,
        ensures
            r == (if byte == 0 { self.fractional as int } else { (if self.sign { 128int } else { 0 }) + self.integer }),
    {
        if byte == 0 {
            self.fractional
        } else {
            let s: u8 = if self.sign { 128 } else { 0 };
            s + self.integer
        }
    }

    pub fn write(&mut self, byte: u8, value: u8)
        requires
            byte < 2,
        ensures
            byte == 0 ==> *final(self) == (RotationScalingParameter { fractional: value, ..*old(self) }),
            byte == 1 ==> *final(self) == (RotationScalingParameter {
                integer: value % 128,
                sign: value >= 128,
                ..*old(self)
            }),
    {
        if byte == 0 {
            self.fractional = value;
        } else {
            self.integer = value % 128;
            self.sign = value >= 128;
        }
    }
}

/// A reference point of an affine background: sign, 19 bits of integer
/// part and 8 of fraction.
#[derive(Clone, Copy, Debug, PartialEq, Eq, Structural)]
pub struct ReferencePointCoord {
    pub fractional: u8,
    pub integer: u32,
    pub sign: bool,
}

impl ReferencePointCoord {
    pub fn new() -> (r: ReferencePointCoord)
        ensures
            r == (ReferencePointCoord { fractional: 0, integer: 0, sign: false }),
    {
        ReferencePointCoord { fractional: 0, integer: 0, sign: false }
    }

    pub fn read(&self, byte: u8) -> (r: u8)
        requires
            byte < 4,
        ensures
            byte == 0 ==> r == self.fractional,
            byte == 1 ==> r == self.integer % 256,
            byte == 2 ==> r == (self.integer / 256) % 256,
            byte == 3 ==> r == (if self.sign { 8u8 } else { 0u8 }) | ((self.integer / 0x10000) % 256) as u8,
    {
        let i = self.integer;
        if byte == 0 {
            self.fractional
        } else if byte == 1 {
            (i % 256) as u8
        } else if byte == 2 {
            (i / 256 % 256) as u8
        } else {
            (if self.sign { 8u8 } else { 0u8 }) | (i / 0x10000 % 256) as u8
        }
    }

    pub fn write(&mut self, byte: u8, value: u8)
        requires
            byte < 4,
        ensures
            byte == 0 ==> *final(self) == (ReferencePointCoord { fractional: value, ..*old(self) }),
            byte == 1 ==> *final(self) == (ReferencePointCoord {
                integer: (old(self).integer & 0xFFFF_FF00) | value as u32,
                ..*old(self)
            }),
            byte == 2 ==> *final(self) == (ReferencePointCoord {
                integer: (old(self).integer & 0xFFFF_00FF) | (value as u32) << 8u32,
                ..*old(self)
            }),
            byte == 3 ==> *final(self) == (ReferencePointCoord {
                integer: (old(self).integer & 0xFFF8_FFFF) | ((value % 8) as u32) << 16u32,
                sign: (value / 16) % 2 == 1,
                ..*old(self)
            }),
    {
        let i = self.integer;
        let v = value as u32;
        if byte == 0 {
            self.fractional = value;
        } else if byte == 1 {
            self.integer = (i & 0xFFFF_FF00) | v;
        } else if byte == 2 {
            self.integer = (i & 0xFFFF_00FF) | v << 8;
        } else {
            self.integer = (i & 0xFFF8_FFFF) | ((value % 8) as u32) << 16;
            self.sign = value / 16 % 2 == 1;
        }
    }
}

} // verus!
