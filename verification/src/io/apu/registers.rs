//! The sound control registers.
use vstd::prelude::*;
use crate::io::IORegister;

verus! {

/// The flags that the four low bits of `v` give, channel 1 lowest.
pub open spec fn flags_of(v: u8) -> SoundEnableFlags {
    SoundEnableFlags { channel1: v % 2, channel2: (v / 2) % 2, channel3: (v / 4) % 2, channel4: (v / 8) % 2 }
}

/// Which of the four PSG channels play on one side.
#[derive(Clone, Copy, Debug, PartialEq, Eq, Structural)]
pub struct SoundEnableFlags {
    pub channel1: u8,
    pub channel2: u8,
    pub channel3: u8,
    pub channel4: u8,
}

impl SoundEnableFlags {
    /// Each flag is one bit.
    pub open spec fn wf(&self) -> bool {
        self.channel1 < 2 && self.channel2 < 2 && self.channel3 < 2 && self.channel4 < 2
    }

    pub open spec fn bits(&self) -> int {
        self.channel4 * 8 + self.channel3 * 4 + self.channel2 * 2 + self.channel1
    }

    pub fn new() -> (r: SoundEnableFlags)
        ensures
            r == (SoundEnableFlags { channel1: 0, channel2: 0, channel3: 0, channel4: 0 }),
    {
        SoundEnableFlags { channel4: 0, channel3: 0, channel2: 0, channel1: 0 }
    }

    /// The byte that a read gives.
    pub open spec fn read_spec(&self) -> u8 {
        (self.channel4 * 8 + self.channel3 * 4 + self.channel2 * 2 + self.channel1) as u8
    }

    /// The flags as the four low bits, channel 1 lowest.
    pub fn read(&self) -> (r: u8)
        ensures
            r == self.read_spec(),
            self.wf() ==> r == self.bits(),
    {
        (self.channel4 as u32 * 8 + self.channel3 as u32 * 4 + self.channel2 as u32 * 2 + self.channel1 as u32) as u8
    }

    pub fn write(&mut self, value: u8)
        ensures
            final(self).wf(),
            final(self).bits() == value % 16,
            *final(self) == flags_of(value),
    {
        assert(value / 8 % 2 * 8 + value / 4 % 2 * 4 + value / 2 % 2 * 2 + value % 2 == value % 16) by (nonlinear_arith);
        self.channel1 = value % 2;
        self.channel2 = value / 2 % 2;
        self.channel3 = value / 4 % 2;
        self.channel4 = value / 8 % 2;
    }
}

/// SOUNDCNT: the volumes and the routing of the channels.
pub struct SOUNDCNT {
    pub psg_master_volume_r: u8,
    pub psg_master_volume_l: u8,
    pub psg_enable_r: SoundEnableFlags,
    pub psg_enable_l: SoundEnableFlags,
    pub psg_volume: u8,
    pub dma_sound_a_vol: u8,
    pub dma_sound_b_vol: u8,
}

impl SOUNDCNT {
    pub open spec fn wf(&self) -> bool {
        &&& self.psg_master_volume_r < 8
        &&& self.psg_master_volume_l < 8
        &&& self.psg_enable_r.wf()
        &&& self.psg_enable_l.wf()
        &&& self.psg_volume < 4
        &&& self.dma_sound_a_vol < 2
        &&& self.dma_sound_b_vol < 2
    }

    pub fn is_wf(&self) -> (r: bool)
        ensures
            r == self.wf(),
    {
        let er = &self.psg_enable_r;
        let el = &self.psg_enable_l;
        self.psg_master_volume_r < 8 && self.psg_master_volume_l < 8 && er.channel1 < 2 && er.channel2 < 2
            && er.channel3 < 2 && er.channel4 < 2 && el.channel1 < 2 && el.channel2 < 2 && el.channel3 < 2
            && el.channel4 < 2 && self.psg_volume < 4 && self.dma_sound_a_vol < 2 && self.dma_sound_b_vol < 2
    }

    pub fn new() -> (r: SOUNDCNT)
        ensures
            r.wf(),
            r.psg_master_volume_r == 0,
            r.psg_master_volume_l == 0,
            r.psg_enable_r.bits() == 0,
            r.psg_enable_l.bits() == 0,
            r.psg_volume == 0,
            r.dma_sound_a_vol == 0,
            r.dma_sound_b_vol == 0,
    {
        SOUNDCNT {
            psg_master_volume_r: 0,
            psg_master_volume_l: 0,
            psg_enable_r: SoundEnableFlags::new(),
            psg_enable_l: SoundEnableFlags::new(),
            psg_volume: 0,
            dma_sound_a_vol: 0,
            dma_sound_b_vol: 0,
        }
    }
}

impl SOUNDCNT {
    /// The register after byte `byte` is written.
    pub open spec fn after_write(self, byte: u8, value: u8) -> SOUNDCNT {
        if byte == 0 {
            SOUNDCNT { psg_master_volume_r: value % 8, psg_master_volume_l: (value / 16) % 8, ..self }
        } else if byte == 1 {
            SOUNDCNT { psg_enable_r: flags_of(value % 16), psg_enable_l: flags_of(value / 16), ..self }
        } else {
            SOUNDCNT {
                psg_volume: value % 4,
                dma_sound_a_vol: (value / 4) % 2,
                dma_sound_b_vol: (value / 8) % 2,
                ..self
            }
        }
    }
}

impl IORegister for SOUNDCNT {
    open spec fn read_spec(&self, byte: u8) -> u8 {
        if byte == 0 {
            (self.psg_master_volume_l * 16 + self.psg_master_volume_r) as u8
        } else if byte == 1 {
            (self.psg_enable_l.read_spec() * 16 + self.psg_enable_r.read_spec()) as u8
        } else {
            (self.dma_sound_b_vol * 8 + self.dma_sound_a_vol * 4 + self.psg_volume) as u8
        }
    }

    open spec fn has_byte(byte: u8) -> bool {
        byte < 3
    }

    open spec fn write_ok(byte: u8, value: u8) -> bool {
        true
    }

    fn read(&self, byte: u8) -> (r: u8)
        ensures
            self.wf() ==> r == (if byte == 0 {
                self.psg_master_volume_l * 16 + self.psg_master_volume_r
            } else if byte == 1 {
                self.psg_enable_l.bits() * 16 + self.psg_enable_r.bits()
            } else {
                self.dma_sound_b_vol * 8 + self.dma_sound_a_vol * 4 + self.psg_volume
            }),
    {
        if byte == 0 {
            (self.psg_master_volume_l as u32 * 16 + self.psg_master_volume_r as u32) as u8
        } else if byte == 1 {
            let l = self.psg_enable_l.read();
            let r = self.psg_enable_r.read();
            (l as u32 * 16 + r as u32) as u8
        } else {
            (self.dma_sound_b_vol as u32 * 8 + self.dma_sound_a_vol as u32 * 4 + self.psg_volume as u32) as u8
        }
    }

    fn write(&mut self, byte: u8, value: u8)
        ensures
            old(self).wf() ==> final(self).wf(),
            *final(self) == old(self).after_write(byte, value),
            byte == 0 ==> final(self).psg_master_volume_r == value % 8 && final(self).psg_master_volume_l == (value
                / 16) % 8,
            byte == 1 ==> final(self).psg_enable_r.bits() == value % 16 && final(self).psg_enable_l.bits() == value
                / 16 && final(self).psg_enable_r.wf() && final(self).psg_enable_l.wf(),
            byte == 2 ==> final(self).psg_volume == value % 4 && final(self).dma_sound_a_vol == (value / 4) % 2
                && final(self).dma_sound_b_vol == (value / 8) % 2,
    {
        if byte == 0 {
            self.psg_master_volume_r = value % 8;
            self.psg_master_volume_l = value / 16 % 8;
        } else if byte == 1 {
            self.psg_enable_r.write(value % 16);
            self.psg_enable_l.write(value / 16);
        } else {
            self.psg_volume = value % 4;
            self.dma_sound_a_vol = value / 4 % 2;
            self.dma_sound_b_vol = value / 8 % 2;
        }
    }
}

/// SOUNDBIAS: the bias level of the output and its resolution.
pub struct SOUNDBIAS {
    pub bias_level: u16,
    pub amplitude_res: u8,
}

impl SOUNDBIAS {
    pub fn new() -> (r: SOUNDBIAS)
        ensures
            r.bias_level == 0x100,
            r.amplitude_res == 0,
    {
        SOUNDBIAS { bias_level: 0x100, amplitude_res: 0 }
    }
}

impl SOUNDBIAS {
    /// The register after byte `byte` is written.
    pub open spec fn after_write(self, byte: u8, value: u8) -> SOUNDBIAS {
        if byte == 0 {
            SOUNDBIAS { bias_level: (self.bias_level & 0xFF00) | (value / 2) as u16, ..self }
        } else {
            SOUNDBIAS { bias_level: (self.bias_level & !0x100u16) | (value as u16) << 8u16, amplitude_res: value / 64 }
        }
    }
}

impl IORegister for SOUNDBIAS {
    open spec fn read_spec(&self, byte: u8) -> u8 {
        if byte == 0 {
            (self.bias_level % 128 * 2) as u8
        } else {
            (self.amplitude_res * 64 + self.bias_level / 256) as u8
        }
    }

    open spec fn has_byte(byte: u8) -> bool {
        byte < 2
    }

    open spec fn write_ok(byte: u8, value: u8) -> bool {
        true
    }

    fn read(&self, byte: u8) -> (r: u8)
        ensures
            byte == 0 ==> r == (self.bias_level * 2) % 256,
            byte == 1 && self.amplitude_res < 4 && self.bias_level < 0x200 ==> r == self.amplitude_res * 64
                + self.bias_level / 256,
    {
        let b = self.bias_level;
        if byte == 0 {
            (b % 128 * 2) as u8
        } else {
            (self.amplitude_res as u32 * 64 + (b / 256) as u32) as u8
        }
    }

    fn write(&mut self, byte: u8, value: u8)
        ensures
            *final(self) == old(self).after_write(byte, value),
            byte == 0 ==> final(self).bias_level == (old(self).bias_level & 0xFF00) | (value / 2) as u16
                && final(self).amplitude_res == old(self).amplitude_res,
            byte == 1 ==> final(self).bias_level == (old(self).bias_level & !0x100u16) | (value as u16) << 8u16
                && final(self).amplitude_res == value / 64,
    {
        let b = self.bias_level;
        let v = value as u16;
        if byte == 0 {
            self.bias_level = (b & 0xFF00) | v / 2;
        } else {
            self.bias_level = b & !0x100 | v << 8;
            self.amplitude_res = value / 64;
        }
    }
}

} // verus!
