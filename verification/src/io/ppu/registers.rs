//! The display registers.
use vstd::prelude::*;
use crate::io::IORegister;

verus! {

/// The background modes of the display.
#[derive(Clone, Copy, Debug, PartialEq, Eq, Structural)]
pub enum BGMode {
    Mode0,
    Mode1,
    Mode2,
    Mode3,
    Mode4,
    Mode5,
}

pub open spec fn mode_number(mode: BGMode) -> u8 {
    match mode {
        BGMode::Mode0 => 0,
        BGMode::Mode1 => 1,
        BGMode::Mode2 => 2,
        BGMode::Mode3 => 3,
        BGMode::Mode4 => 4,
        BGMode::Mode5 => 5,
    }
}

/// The mode of number `n` (0 to 5).
pub open spec fn mode_of(n: u8) -> BGMode {
    if n == 0 {
        BGMode::Mode0
    } else if n == 1 {
        BGMode::Mode1
    } else if n == 2 {
        BGMode::Mode2
    } else if n == 3 {
        BGMode::Mode3
    } else if n == 4 {
        BGMode::Mode4
    } else {
        BGMode::Mode5
    }
}

impl BGMode {
    /// The mode of number `mode` (0 to 5).
    pub fn get(mode: u8) -> (r: BGMode)
        requires
            mode < 6,
        ensures
            mode_number(r) == mode,
            r == mode_of(mode),
    {
        match mode {
            0 => BGMode::Mode0,
            1 => BGMode::Mode1,
            2 => BGMode::Mode2,
            3 => BGMode::Mode3,
            4 => BGMode::Mode4,
            _ => BGMode::Mode5,
        }
    }

    pub fn number(self) -> (r: u8)
        ensures
            r == mode_number(self),
    {
        match self {
            BGMode::Mode0 => 0,
            BGMode::Mode1 => 1,
            BGMode::Mode2 => 2,
            BGMode::Mode3 => 3,
            BGMode::Mode4 => 4,
            BGMode::Mode5 => 5,
        }
    }
}

/// The defined flags of DISPCNT (bits 3 to 15).
pub const DISPCNT_FLAGS: u16 = 0xFFF8;
pub const DISPLAY_FRAME_SELECT: u16 = 0x0010;
pub const OBJ_TILES1D: u16 = 0x0040;
pub const DISPLAY_BG0: u16 = 0x0100;
pub const DISPLAY_BG1: u16 = 0x0200;
pub const DISPLAY_BG2: u16 = 0x0400;
pub const DISPLAY_BG3: u16 = 0x0800;
pub const DISPLAY_OBJ: u16 = 0x1000;

/// DISPCNT: the display control.
#[derive(Clone, Copy, Debug, PartialEq, Eq, Structural)]
pub struct DISPCNT {
    pub flags: u16,
    pub mode: BGMode,
}

impl DISPCNT {
    pub fn new() -> (r: DISPCNT)
        ensures
            r == (DISPCNT { flags: 0, mode: BGMode::Mode0 }),
    {
        DISPCNT { flags: 0, mode: BGMode::Mode0 }
    }

    /// Whether any of the windows is displayed.
    pub fn windows_enabled(&self) -> (r: bool)
        ensures
            r == (self.flags >= 0x2000),
    {
        self.flags >= 0x2000
    }

    pub fn contains(&self, flag: u16) -> (r: bool)
        ensures
            r == (self.flags & flag == flag),
    {
        self.flags & flag == flag
    }
}

impl DISPCNT {
    /// The register after a write of `value` to byte `byte`.
    pub open spec fn after_write(self, byte: u8, value: u8) -> DISPCNT {
        if byte == 0 {
            DISPCNT { flags: (self.flags & 0xFF00) | (value & 0xF8) as u16, mode: mode_of(value & 7) }
        } else {
            DISPCNT { flags: (self.flags & 0x00FF) | ((value as u16) << 8u16 & DISPCNT_FLAGS), ..self }
        }
    }
}

impl IORegister for DISPCNT {
    open spec fn read_spec(&self, byte: u8) -> u8 {
        if byte == 0 { (self.flags % 256) as u8 | mode_number(self.mode) } else { (self.flags / 256) as u8 }
    }

    open spec fn has_byte(byte: u8) -> bool {
        byte < 2
    }

    /// The mode bits must name a mode.
    open spec fn write_ok(byte: u8, value: u8) -> bool {
        byte == 0 ==> value & 7 < 6
    }

    fn read(&self, byte: u8) -> (r: u8)
        ensures
            byte == 0 ==> r == (self.flags % 256) as u8 | mode_number(self.mode),
            byte == 1 ==> r == self.flags / 256,
    {
        let f = self.flags;
        if byte == 0 { (f % 256) as u8 | self.mode.number() } else { (f / 256) as u8 }
    }

    fn write(&mut self, byte: u8, value: u8)
        ensures
            *final(self) == old(self).after_write(byte, value),
            byte == 0 ==> final(self).flags == (old(self).flags & 0xFF00) | (value & 0xF8) as u16 && mode_number(
                final(self).mode,
            ) == value & 7,
            byte == 1 ==> final(self).flags == (old(self).flags & 0x00FF) | ((value as u16) << 8u16 & DISPCNT_FLAGS)
                && final(self).mode == old(self).mode,
    {
        let f = self.flags;
        let v = value as u16;
        if byte == 0 {
            self.mode = BGMode::get(value & 0x7);
            self.flags = (f & 0xFF00) | (value & 0xF8) as u16;
        } else {
            self.flags = (f & 0x00FF) | (v << 8 & DISPCNT_FLAGS);
        }
    }
}

pub const DISPSTAT_VBLANK: u16 = 0x0001;
pub const DISPSTAT_HBLANK: u16 = 0x0002;
/// The defined flags of DISPSTAT.
pub const DISPSTAT_FLAGS: u16 = 0x3F;

/// DISPSTAT: the display status and its interrupt enables.
#[derive(Clone, Copy, Debug, PartialEq, Eq, Structural)]
pub struct DISPSTAT {
    pub flags: u16,
    pub vcount_setting: u8,
}

impl DISPSTAT {
    pub fn new() -> (r: DISPSTAT)
        ensures
            r == (DISPSTAT { flags: 0, vcount_setting: 0 }),
    {
        DISPSTAT { flags: 0, vcount_setting: 0 }
    }
}

impl DISPSTAT {
    /// The register after a write of `value` to byte `byte`.
    pub open spec fn after_write(self, byte: u8, value: u8) -> DISPSTAT {
        if byte == 0 {
            DISPSTAT { flags: (value & 0x3F) as u16, ..self }
        } else {
            DISPSTAT { vcount_setting: value, ..self }
        }
    }
}

impl IORegister for DISPSTAT {
    open spec fn read_spec(&self, byte: u8) -> u8 {
        if byte == 0 { (self.flags % 256) as u8 } else { self.vcount_setting }
    }

    open spec fn has_byte(byte: u8) -> bool {
        byte < 2
    }

    open spec fn write_ok(byte: u8, value: u8) -> bool {
        true
    }

    fn read(&self, byte: u8) -> (r: u8)
        ensures
            byte == 0 ==> r == self.flags % 256,
            byte == 1 ==> r == self.vcount_setting,
    {
        if byte == 0 { (self.flags % 256) as u8 } else { self.vcount_setting }
    }

    fn write(&mut self, byte: u8, value: u8)
        ensures
            *final(self) == old(self).after_write(byte, value),
            byte == 0 ==> *final(self) == (DISPSTAT { flags: (value & 0x3F) as u16, ..*old(self) }),
            byte == 1 ==> *final(self) == (DISPSTAT { vcount_setting: value, ..*old(self) }),
    {
        if byte == 0 {
            self.flags = (value & 0x3F) as u16;
        } else {
            self.vcount_setting = value;
        }
    }
}

/// BGxCNT: the control of a background.
#[derive(Clone, Copy, Debug, PartialEq, Eq, Structural)]
pub struct BGCNT {
    pub priority: u8,
    pub tile_block: u8,
    pub mosaic: bool,
    pub bpp8: bool,
    pub map_block: u8,
    pub wrap: bool,
    pub screen_size: u8,
}

impl BGCNT {
    pub fn new() -> (r: BGCNT)
        ensures
            r == BGCNT::zero(),
    {
        BGCNT { priority: 0, tile_block: 0, mosaic: false, bpp8: false, map_block: 0, wrap: false, screen_size: 0 }
    }

    pub open spec fn zero() -> BGCNT {
        BGCNT { priority: 0, tile_block: 0, mosaic: false, bpp8: false, map_block: 0, wrap: false, screen_size: 0 }
    }

    pub open spec fn wf(&self) -> bool {
        self.priority < 4 && self.tile_block < 4 && self.map_block < 32 && self.screen_size < 4
    }
}

impl BGCNT {
    /// The register after a write of `value` to byte `byte`.
    pub open spec fn after_write(self, byte: u8, value: u8) -> BGCNT {
        if byte == 0 {
            BGCNT {
                priority: value % 4,
                tile_block: (value / 4) % 4,
                mosaic: (value / 64) % 2 == 1,
                bpp8: value >= 128,
                ..self
            }
        } else {
            BGCNT { map_block: value % 32, wrap: (value / 32) % 2 == 1, screen_size: value / 64, ..self }
        }
    }
}

impl IORegister for BGCNT {
    open spec fn read_spec(&self, byte: u8) -> u8 {
        if byte == 0 {
            ((if self.bpp8 { 128int } else { 0 }) + (if self.mosaic { 64int } else { 0 }) + self.tile_block * 4
                + self.priority) as u8
        } else {
            (self.screen_size * 64 + (if self.wrap { 32int } else { 0 }) + self.map_block) as u8
        }
    }

    open spec fn has_byte(byte: u8) -> bool {
        byte < 2
    }

    open spec fn write_ok(byte: u8, value: u8) -> bool {
        true
    }

    fn read(&self, byte: u8) -> (r: u8)
        ensures
            self.wf() && byte == 0 ==> r == (if self.bpp8 { 128int } else { 0 }) + (if self.mosaic { 64int } else { 0 })
                + self.tile_block * 4 + self.priority,
            self.wf() && byte == 1 ==> r == self.screen_size * 64 + (if self.wrap { 32int } else { 0 })
                + self.map_block,
    {
        if byte == 0 {
            let b: u32 = if self.bpp8 { 128 } else { 0 };
            let m: u32 = if self.mosaic { 64 } else { 0 };
            (b + m + self.tile_block as u32 * 4 + self.priority as u32) as u8
        } else {
            let w: u32 = if self.wrap { 32 } else { 0 };
            (self.screen_size as u32 * 64 + w + self.map_block as u32) as u8
        }
    }

    fn write(&mut self, byte: u8, value: u8)
        ensures
            *final(self) == old(self).after_write(byte, value),
            final(self).wf() || !old(self).wf(),
            byte == 0 ==> *final(self) == (BGCNT {
                priority: value % 4,
                tile_block: (value / 4) % 4,
                mosaic: (value / 64) % 2 == 1,
                bpp8: value >= 128,
                ..*old(self)
            }),
            byte == 1 ==> *final(self) == (BGCNT {
                map_block: value % 32,
                wrap: (value / 32) % 2 == 1,
                screen_size: value / 64,
                ..*old(self)
            }),
    {
        if byte == 0 {
            self.priority = value % 4;
            self.tile_block = value / 4 % 4;
            self.mosaic = value / 64 % 2 == 1;
            self.bpp8 = value >= 128;
        } else {
            self.map_block = value % 32;
            self.wrap = value / 32 % 2 == 1;
            self.screen_size = value / 64;
        }
    }
}

/// BGxHOFS and BGxVOFS: a scroll offset of 9 bits.
#[derive(Clone, Copy, Debug, PartialEq, Eq, Structural)]
pub struct OFS {
    pub offset: u16,
}

impl OFS {
    pub fn new() -> (r: OFS)
        ensures
            r.offset == 0,
    {
        OFS { offset: 0 }
    }
}

impl OFS {
    /// The register after a write of `value` to byte `byte`.
    pub open spec fn after_write(self, byte: u8, value: u8) -> OFS {
        if byte == 0 {
            OFS { offset: (self.offset & 0xFF00) | value as u16 }
        } else {
            OFS { offset: (self.offset & 0xFEFF) | (((value % 2) * 256) as u16) }
        }
    }
}

impl IORegister for OFS {
    open spec fn read_spec(&self, byte: u8) -> u8 {
        if byte == 0 { (self.offset % 256) as u8 } else { (self.offset / 256) as u8 }
    }

    open spec fn has_byte(byte: u8) -> bool {
        byte < 2
    }

    open spec fn write_ok(byte: u8, value: u8) -> bool {
        true
    }

    fn read(&self, byte: u8) -> (r: u8)
        ensures
            r == (if byte == 0 { self.offset % 256 } else { self.offset / 256 }),
    {
        let o = self.offset;
        if byte == 0 { (o % 256) as u8 } else { (o / 256) as u8 }
    }

    fn write(&mut self, byte: u8, value: u8)
        ensures
            *final(self) == old(self).after_write(byte, value),
            byte == 0 ==> final(self).offset == (old(self).offset & 0xFF00) | value as u16,
            byte == 1 ==> final(self).offset == (old(self).offset & 0xFEFF) | (((value % 2) * 256) as u16),
    {
        let o = self.offset;
        let v = value as u16;
        if byte == 0 {
            self.offset = (o & 0xFF00) | v;
        } else {
            self.offset = (o & 0xFEFF) | (value % 2) as u16 * 256;
        }
    }
}

/// A parameter of the affine transformation, in 8.8 fixed point.
#[derive(Clone, Copy, Debug, PartialEq, Eq, Structural)]
pub struct RotationScalingParameter {
    pub value: i16,
}

impl RotationScalingParameter {
    pub fn new() -> (r: RotationScalingParameter)
        ensures
            r.value == 0,
    {
        RotationScalingParameter { value: 0 }
    }
}

impl RotationScalingParameter {
    /// The register after a write of `value` to byte `byte`.
    pub open spec fn after_write(self, byte: u8, value: u8) -> RotationScalingParameter {
        RotationScalingParameter {
            value: (if byte == 0 {
                (self.value as u16 & 0xFF00) | value as u16
            } else {
                (self.value as u16 & 0x00FF) | (value as u16) << 8u16
            }) as i16,
        }
    }
}

impl IORegister for RotationScalingParameter {
    open spec fn read_spec(&self, byte: u8) -> u8 {
        0
    }

    open spec fn has_byte(byte: u8) -> bool {
        byte < 2
    }

    open spec fn write_ok(byte: u8, value: u8) -> bool {
        true
    }

    /// The parameters are write only.
    fn read(&self, byte: u8) -> (r: u8)
        ensures
            r == 0,
    {
        0
    }

    fn write(&mut self, byte: u8, value: u8)
        ensures
            *final(self) == old(self).after_write(byte, value),
            byte == 0 ==> final(self).value as u16 == (old(self).value as u16 & 0xFF00) | value as u16,
            byte == 1 ==> final(self).value as u16 == (old(self).value as u16 & 0x00FF) | (value as u16) << 8u16,
    {
        let old_bits = self.value as u16;
        let v = value as u16;
        let bits: u16 = if byte == 0 { old_bits & 0xFF00 | v } else { old_bits & 0x00FF | v << 8 };
        let nv = bits as i16;
        assert(nv as u16 == bits) by (bit_vector)
            requires nv == bits as i16;
        self.value = nv;
    }
}

/// A reference point of an affine background: 20.8 fixed point, sign
/// extended from 28 bits.
#[derive(Clone, Copy, Debug, PartialEq, Eq, Structural)]
pub struct ReferencePointCoord {
    pub value: i32,
}

impl ReferencePointCoord {
    pub fn new() -> (r: ReferencePointCoord)
        ensures
            r.value == 0,
    {
        ReferencePointCoord { value: 0 }
    }

    /// The integer part.
    pub fn integer(&self) -> (r: i32)
        ensures
            r == self.value >> 8i32,
    {
        self.value >> 8
    }
}

/// `bits` with bit 27 copied into bits 28 to 31.
pub open spec fn sign_extend28(bits: u32) -> u32 {
    if bits & 0x0800_0000 != 0 { bits | 0xF000_0000 } else { bits }
}

impl ReferencePointCoord {
    /// The register after a write of `value` to byte `byte`.
    pub open spec fn after_write(self, byte: u8, value: u8) -> ReferencePointCoord {
        ReferencePointCoord {
            value: (if byte == 0 {
                (self.value as u32 & 0xFFFF_FF00) | value as u32
            } else if byte == 1 {
                (self.value as u32 & 0xFFFF_00FF) | (value as u32) << 8u32
            } else if byte == 2 {
                (self.value as u32 & 0xFF00_FFFF) | (value as u32) << 16u32
            } else {
                sign_extend28((self.value as u32 & 0x00FF_FFFF) | ((value & 0xF) as u32) << 24u32)
            }) as i32,
        }
    }
}

impl IORegister for ReferencePointCoord {
    open spec fn read_spec(&self, byte: u8) -> u8 {
        0
    }

    open spec fn has_byte(byte: u8) -> bool {
        byte < 4
    }

    open spec fn write_ok(byte: u8, value: u8) -> bool {
        true
    }

    fn read(&self, byte: u8) -> (r: u8)
        ensures
            r == 0,
    {
        0
    }

    fn write(&mut self, byte: u8, value: u8)
        ensures
            *final(self) == old(self).after_write(byte, value),
            byte == 0 ==> final(self).value as u32 == (old(self).value as u32 & 0xFFFF_FF00) | value as u32,
            byte == 1 ==> final(self).value as u32 == (old(self).value as u32 & 0xFFFF_00FF) | (value as u32) << 8u32,
            byte == 2 ==> final(self).value as u32 == (old(self).value as u32 & 0xFF00_FFFF) | (value as u32) << 16u32,
            byte == 3 ==> final(self).value as u32 == sign_extend28(
                (old(self).value as u32 & 0x00FF_FFFF) | ((value & 0xF) as u32) << 24u32,
            ),
    {
        let old_bits = self.value as u32;
        let v = value as u32;
        let bits: u32 = if byte == 0 {
            old_bits & 0xFFFF_FF00 | v
        } else if byte == 1 {
            old_bits & 0xFFFF_00FF | v << 8
        } else if byte == 2 {
            old_bits & 0xFF00_FFFF | v << 16
        } else {
            let b = old_bits & 0x00FF_FFFF | ((value & 0xF) as u32) << 24;
            if b & 0x0800_0000 != 0 { b | 0xF000_0000 } else { b }
        };
        let nv = bits as i32;
        assert(nv as u32 == bits) by (bit_vector)
            requires nv == bits as i32;
        self.value = nv;
    }
}

/// WINxH and WINxV: the two coordinates of a window's edges.
#[derive(Clone, Copy, Debug, PartialEq, Eq, Structural)]
pub struct WindowDimensions {
    pub coord2: u8,
    pub coord1: u8,
}

impl WindowDimensions {
    pub fn new() -> (r: WindowDimensions)
        ensures
            r.coord2 == 0 && r.coord1 == 0,
    {
        WindowDimensions { coord2: 0, coord1: 0 }
    }
}

impl WindowDimensions {
    /// The register after a write of `value` to byte `byte`.
    pub open spec fn after_write(self, byte: u8, value: u8) -> WindowDimensions {
        if byte == 0 {
            WindowDimensions { coord2: value, ..self }
        } else {
            WindowDimensions { coord1: value, ..self }
        }
    }
}

impl IORegister for WindowDimensions {
    open spec fn read_spec(&self, byte: u8) -> u8 {
        if byte == 0 { self.coord2 } else { self.coord1 }
    }

    open spec fn has_byte(byte: u8) -> bool {
        byte < 2
    }

    open spec fn write_ok(byte: u8, value: u8) -> bool {
        true
    }

    fn read(&self, byte: u8) -> (r: u8)
        ensures
            r == (if byte == 0 { self.coord2 } else { self.coord1 }),
    {
        if byte == 0 { self.coord2 } else { self.coord1 }
    }

    fn write(&mut self, byte: u8, value: u8)
        ensures
            *final(self) == old(self).after_write(byte, value),
            byte == 0 ==> *final(self) == (WindowDimensions { coord2: value, ..*old(self) }),
            byte == 1 ==> *final(self) == (WindowDimensions { coord1: value, ..*old(self) }),
    {
        if byte == 0 {
            self.coord2 = value;
        } else {
            self.coord1 = value;
        }
    }
}

/// WININ and WINOUT: which layers show inside (or outside) a window.
#[derive(Clone, Copy, Debug, PartialEq, Eq, Structural)]
pub struct WindowControl {
    pub bg0_enable: bool,
    pub bg1_enable: bool,
    pub bg2_enable: bool,
    pub bg3_enable: bool,
    pub obj_enable: bool,
    pub color_special_enable: bool,
}

impl WindowControl {
    pub fn new() -> (r: WindowControl)
        ensures
            r == WindowControl::with_all(false),
    {
        WindowControl {
            bg0_enable: false,
            bg1_enable: false,
            bg2_enable: false,
            bg3_enable: false,
            obj_enable: false,
            color_special_enable: false,
        }
    }

    pub fn all() -> (r: WindowControl)
        ensures
            r == WindowControl::with_all(true),
    {
        WindowControl {
            bg0_enable: true,
            bg1_enable: true,
            bg2_enable: true,
            bg3_enable: true,
            obj_enable: true,
            color_special_enable: true,
        }
    }

    pub open spec fn with_all(b: bool) -> WindowControl {
        WindowControl {
            bg0_enable: b,
            bg1_enable: b,
            bg2_enable: b,
            bg3_enable: b,
            obj_enable: b,
            color_special_enable: b,
        }
    }
}

pub open spec fn flag_bit(b: bool, bit: int) -> int {
    if b { pow2_small(bit) } else { 0 }
}

pub open spec fn pow2_small(bit: int) -> int {
    if bit == 0 {
        1
    } else if bit == 1 {
        2
    } else if bit == 2 {
        4
    } else if bit == 3 {
        8
    } else if bit == 4 {
        16
    } else if bit == 5 {
        32
    } else if bit == 6 {
        64
    } else {
        128
    }
}

impl WindowControl {
    /// The register after a write of `value` to byte `byte`.
    pub open spec fn after_write(self, byte: u8, value: u8) -> WindowControl {
        WindowControl {
            color_special_enable: (value / 32) % 2 == 1,
            obj_enable: (value / 16) % 2 == 1,
            bg3_enable: (value / 8) % 2 == 1,
            bg2_enable: (value / 4) % 2 == 1,
            bg1_enable: (value / 2) % 2 == 1,
            bg0_enable: value % 2 == 1,
        }
    }
}

impl IORegister for WindowControl {
    open spec fn read_spec(&self, byte: u8) -> u8 {
        (flag_bit(self.color_special_enable, 5) + flag_bit(self.obj_enable, 4) + flag_bit(self.bg3_enable, 3)
            + flag_bit(self.bg2_enable, 2) + flag_bit(self.bg1_enable, 1)) as u8
    }

    open spec fn has_byte(byte: u8) -> bool {
        byte == 0
    }

    open spec fn write_ok(byte: u8, value: u8) -> bool {
        true
    }

    /// The enables of BG1 to BG3, OBJ and the special effects (the enable
    /// of BG0 does not read back).
    fn read(&self, byte: u8) -> (r: u8)
        ensures
            r == flag_bit(self.color_special_enable, 5) + flag_bit(self.obj_enable, 4) + flag_bit(self.bg3_enable, 3)
                + flag_bit(self.bg2_enable, 2) + flag_bit(self.bg1_enable, 1),
    {
        (if self.color_special_enable { 32u8 } else { 0 }) + (if self.obj_enable { 16u8 } else { 0 }) + (if self.bg3_enable {
            8u8
        } else {
            0
        }) + (if self.bg2_enable { 4u8 } else { 0 }) + (if self.bg1_enable { 2u8 } else { 0 })
    }

    fn write(&mut self, byte: u8, value: u8)
        ensures
            *final(self) == old(self).after_write(byte, value),
            final(self).color_special_enable == ((value / 32) % 2 == 1),
            final(self).obj_enable == ((value / 16) % 2 == 1),
            final(self).bg3_enable == ((value / 8) % 2 == 1),
            final(self).bg2_enable == ((value / 4) % 2 == 1),
            final(self).bg1_enable == ((value / 2) % 2 == 1),
            final(self).bg0_enable == (value % 2 == 1),
    {
        self.color_special_enable = value / 32 % 2 == 1;
        self.obj_enable = value / 16 % 2 == 1;
        self.bg3_enable = value / 8 % 2 == 1;
        self.bg2_enable = value / 4 % 2 == 1;
        self.bg1_enable = value / 2 % 2 == 1;
        self.bg0_enable = value % 2 == 1;
    }
}

/// The special colour effects.
#[derive(Clone, Copy, Debug, PartialEq, Eq, Structural)]
pub enum ColorSpecialEffect {
    Normal,
    AlphaBlend,
    BrightnessInc,
    BrightnessDec,
}

pub open spec fn effect_number(e: ColorSpecialEffect) -> u8 {
    match e {
        ColorSpecialEffect::Normal => 0,
        ColorSpecialEffect::AlphaBlend => 1,
        ColorSpecialEffect::BrightnessInc => 2,
        ColorSpecialEffect::BrightnessDec => 3,
    }
}

/// The effect with number `n` (0 to 3).
pub open spec fn effect_of(n: u8) -> ColorSpecialEffect {
    if n == 0 {
        ColorSpecialEffect::Normal
    } else if n == 1 {
        ColorSpecialEffect::AlphaBlend
    } else if n == 2 {
        ColorSpecialEffect::BrightnessInc
    } else {
        ColorSpecialEffect::BrightnessDec
    }
}

impl ColorSpecialEffect {
    pub fn from(value: u8) -> (r: ColorSpecialEffect)
        requires
            value < 4,
        ensures
            effect_number(r) == value,
            r == effect_of(value),
    {
        match value {
            0 => ColorSpecialEffect::Normal,
            1 => ColorSpecialEffect::AlphaBlend,
            2 => ColorSpecialEffect::BrightnessInc,
            _ => ColorSpecialEffect::BrightnessDec,
        }
    }

    pub fn number(self) -> (r: u8)
        ensures
            r == effect_number(self),
    {
        match self {
            ColorSpecialEffect::Normal => 0,
            ColorSpecialEffect::AlphaBlend => 1,
            ColorSpecialEffect::BrightnessInc => 2,
            ColorSpecialEffect::BrightnessDec => 3,
        }
    }
}

/// BLDCNT: the layers that the colour effect takes as first and second
/// target, and the effect.
#[derive(Clone, Copy, Debug, PartialEq, Eq, Structural)]
pub struct BLDCNT {
    pub target_pixel1: u8,
    pub effect: ColorSpecialEffect,
    pub target_pixel2: u8,
}

impl BLDCNT {
    pub fn new() -> (r: BLDCNT)
        ensures
            r == (BLDCNT { target_pixel1: 0, effect: ColorSpecialEffect::Normal, target_pixel2: 0 }),
    {
        BLDCNT { target_pixel1: 0, effect: ColorSpecialEffect::Normal, target_pixel2: 0 }
    }
}

impl BLDCNT {
    /// The register after a write of `value` to byte `byte`.
    pub open spec fn after_write(self, byte: u8, value: u8) -> BLDCNT {
        if byte == 0 {
            BLDCNT { target_pixel1: value % 64, effect: effect_of(value / 64), ..self }
        } else {
            BLDCNT { target_pixel2: value % 64, ..self }
        }
    }
}

impl IORegister for BLDCNT {
    open spec fn read_spec(&self, byte: u8) -> u8 {
        if byte == 0 { (effect_number(self.effect) * 64 + self.target_pixel1) as u8 } else { self.target_pixel2 }
    }

    open spec fn has_byte(byte: u8) -> bool {
        byte < 2
    }

    open spec fn write_ok(byte: u8, value: u8) -> bool {
        true
    }

    fn read(&self, byte: u8) -> (r: u8)
        ensures
            byte == 0 && self.target_pixel1 < 64 ==> r == effect_number(self.effect) * 64 + self.target_pixel1,
            byte == 1 ==> r == self.target_pixel2,
    {
        if byte == 0 {
            (self.effect.number() as u32 * 64 + self.target_pixel1 as u32) as u8
        } else {
            self.target_pixel2
        }
    }

    fn write(&mut self, byte: u8, value: u8)
        ensures
            *final(self) == old(self).after_write(byte, value),
            byte == 0 ==> final(self).target_pixel1 == value % 64 && effect_number(final(self).effect) == value / 64
                && final(self).target_pixel2 == old(self).target_pixel2,
            byte == 1 ==> final(self).target_pixel2 == value % 64 && final(self).target_pixel1 == old(
                self,
            ).target_pixel1 && final(self).effect == old(self).effect,
    {
        if byte == 0 {
            self.target_pixel1 = value % 64;
            self.effect = ColorSpecialEffect::from(value / 64);
        } else {
            self.target_pixel2 = value % 64;
        }
    }
}

/// BLDALPHA: the weights of the two targets in alpha blending.
#[derive(Clone, Copy, Debug, PartialEq, Eq, Structural)]
pub struct BLDALPHA {
    pub eva: u8,
    pub evb: u8,
}

impl BLDALPHA {
    pub fn new() -> (r: BLDALPHA)
        ensures
            r.eva == 0 && r.evb == 0,
    {
        BLDALPHA { eva: 0, evb: 0 }
    }
}

impl BLDALPHA {
    /// The register after a write of `value` to byte `byte`.
    pub open spec fn after_write(self, byte: u8, value: u8) -> BLDALPHA {
        if byte == 0 {
            BLDALPHA { eva: value % 32, ..self }
        } else {
            BLDALPHA { evb: value % 32, ..self }
        }
    }
}

impl IORegister for BLDALPHA {
    open spec fn read_spec(&self, byte: u8) -> u8 {
        if byte == 0 { self.eva } else { self.evb }
    }

    open spec fn has_byte(byte: u8) -> bool {
        byte < 2
    }

    open spec fn write_ok(byte: u8, value: u8) -> bool {
        true
    }

    fn read(&self, byte: u8) -> (r: u8)
        ensures
            r == (if byte == 0 { self.eva } else { self.evb }),
    {
        if byte == 0 { self.eva } else { self.evb }
    }

    fn write(&mut self, byte: u8, value: u8)
        ensures
            *final(self) == old(self).after_write(byte, value),
            byte == 0 ==> *final(self) == (BLDALPHA { eva: value % 32, ..*old(self) }),
            byte == 1 ==> *final(self) == (BLDALPHA { evb: value % 32, ..*old(self) }),
    {
        if byte == 0 {
            self.eva = value % 32;
        } else {
            self.evb = value % 32;
        }
    }
}

/// BLDY: the weight of brightness changes.
#[derive(Clone, Copy, Debug, PartialEq, Eq, Structural)]
pub struct BLDY {
    pub evy: u8,
}

impl BLDY {
    pub fn new() -> (r: BLDY)
        ensures
            r.evy == 0,
    {
        BLDY { evy: 0 }
    }
}

impl BLDY {
    /// The register after a write of `value` to byte `byte`.
    pub open spec fn after_write(self, byte: u8, value: u8) -> BLDY {
        if byte == 0 {
            BLDY { evy: value % 32 }
        } else {
            self
        }
    }
}

impl IORegister for BLDY {
    open spec fn read_spec(&self, byte: u8) -> u8 {
        if byte == 0 { self.evy } else { 0 }
    }

    open spec fn has_byte(byte: u8) -> bool {
        byte < 2
    }

    open spec fn write_ok(byte: u8, value: u8) -> bool {
        true
    }

    fn read(&self, byte: u8) -> (r: u8)
        ensures
            r == (if byte == 0 { self.evy } else { 0 }),
    {
        if byte == 0 { self.evy } else { 0 }
    }

    fn write(&mut self, byte: u8, value: u8)
        ensures
            *final(self) == old(self).after_write(byte, value),
            byte == 0 ==> final(self).evy == value % 32,
            byte == 1 ==> *final(self) == *old(self),
    {
        if byte == 0 {
            self.evy = value % 32;
        }
    }
}

/// The background control reads back what was written, for the bits that
/// it keeps.
pub proof fn lemma_bgcnt_read_after_write(v: u8)
    ensures
        (if v >= 128 { 128int } else { 0 }) + (if (v / 64) % 2 == 1 { 64int } else { 0 }) + ((v / 4) % 4) * 4 + v % 4
            == (v & 0xCF) as int,
        (v / 64) * 64 + (if (v / 32) % 2 == 1 { 32int } else { 0 }) + v % 32 == v as int,
{
    assert((if v >= 128 { 128u8 } else { 0 }) + (if (v / 64) % 2 == 1 { 64u8 } else { 0 }) + ((v / 4) % 4) * 4 + v % 4
        == v & 0xCF) by (bit_vector);
}

} // verus!
