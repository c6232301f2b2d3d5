//! The wave channel: it plays 4-bit samples from a RAM of two banks.
use vstd::prelude::*;
use crate::io::IORegister;
use super::channel::{Channel, LengthCounter};
use super::components::Timer;

verus! {

/// The volume factor of volume setting `volume` (mute, 100%, 50%, 25%),
/// or 75% when forced.
pub open spec fn wave_volume_factor(volume: u8, force_volume: bool) -> int {
    if force_volume {
        6
    } else if volume == 0 {
        0
    } else if volume == 1 {
        8
    } else if volume == 2 {
        4
    } else {
        2
    }
}

/// The wave channel. Its RAM holds two banks of 16 bytes, bank `b` at
/// `16 * b`; each byte holds two samples, the high nibble first.
pub struct Wave {
    pub use_two_banks: bool,
    pub wave_ram_bank: u8,
    pub enabled: bool,
    pub length_reload: u8,
    pub volume: u8,
    pub force_volume: bool,
    pub sample_rate: u16,
    pub use_length: bool,
    pub length_counter: LengthCounter,
    pub wave_ram: Vec<u8>,
    pub wave_ram_i: usize,
    pub timer: Timer,
}

impl Wave {
    pub open spec fn wf(&self) -> bool {
        &&& self.wave_ram_bank < 2
        &&& self.volume < 4
        &&& self.sample_rate < 0x800
        &&& self.wave_ram@.len() == 32
        &&& self.wave_ram_i < 32
        &&& self.timer.wf()
    }

    pub fn is_wf(&self) -> (r: bool)
        ensures
            r == self.wf(),
    {
        self.wave_ram_bank < 2 && self.volume < 4 && self.sample_rate < 0x800 && self.wave_ram.len() == 32
            && self.wave_ram_i < 32 && self.timer.is_wf()
    }

    /// The period of one sample, in cycles: 8 per unit of `2048 - rate`.
    pub open spec fn reload_value(&self) -> int {
        8 * (2048 - self.sample_rate)
    }

    /// Whether the channel sounds.
    pub open spec fn on(&self) -> bool {
        self.enabled && (!self.use_length || self.length_counter.length != 0)
    }

    /// The sample the channel puts out: the current nibble of the playing
    /// bank, scaled by the volume.
    pub open spec fn sample(&self) -> i16 {
        let byte = self.wave_ram@[self.wave_ram_bank * 16 + self.wave_ram_i / 2];
        let nibble: int = if self.wave_ram_i % 2 == 0 { (byte / 16) as int } else { (byte % 16) as int };
        (wave_volume_factor(self.volume, self.force_volume) * nibble) as i16
    }

    /// The index in the RAM of byte `offset` of the bank that is not playing,
    /// the one the CPU sees.
    pub open spec fn ram_index(&self, offset: int) -> int {
        (1 - self.wave_ram_bank) * 16 + offset
    }

    /// The channel after byte `byte` of its registers is written.
    pub open spec fn after_write(self, byte: u8, value: u8) -> Wave {
        if byte == 0 {
            Wave {
                enabled: (value / 128) % 2 == 1,
                wave_ram_bank: (value / 64) % 2,
                use_two_banks: (value / 32) % 2 == 1,
                ..self
            }
        } else if byte == 2 {
            Wave { length_reload: value, ..self }
        } else if byte == 3 {
            Wave { volume: (value / 32) % 4, force_volume: (value / 128) % 2 == 1, ..self }
        } else if byte == 4 {
            Wave { sample_rate: (self.sample_rate / 256 * 256 + value) as u16, ..self }
        } else if byte == 5 {
            let sr = (self.sample_rate % 256 + (value % 8) * 256) as u16;
            let w = Wave { sample_rate: sr, use_length: (value / 64) % 2 == 1, ..self };
            if value >= 128 {
                Wave {
                    wave_ram_i: 0,
                    timer: Timer { counter: (8 * (2048 - sr)) as u16, ..self.timer },
                    length_counter: LengthCounter { length: (256 - self.length_reload) as u16 },
                    ..w
                }
            } else {
                w
            }
        } else {
            self
        }
    }

    pub fn new() -> (r: Wave)
        ensures
            r.wf(),
            !r.use_two_banks && r.wave_ram_bank == 0 && !r.enabled && r.length_reload == 0,
            r.volume == 0 && !r.force_volume && r.sample_rate == 0 && !r.use_length,
            r.length_counter.length == 0,
            r.wave_ram@ == Seq::new(32, |i: int| 0u8),
            r.wave_ram_i == 0,
            r.timer == (Timer { counter: 16384u16, reload: 16384u16 }),
    {
        let w = Wave {
            use_two_banks: false,
            wave_ram_bank: 0,
            enabled: false,
            length_reload: 0,
            volume: 0,
            force_volume: false,
            sample_rate: 0,
            use_length: false,
            length_counter: LengthCounter::new(),
            wave_ram: vec![0u8; 32],
            wave_ram_i: 0,
            timer: Timer::new(8 * 2048),
        };
        assert(w.wave_ram@ =~= Seq::new(32, |i: int| 0u8));
        w
    }

    fn calc_reload(&self) -> (r: u16)
        requires
            self.sample_rate < 0x800,
        ensures
            r == self.reload_value(),
            r != 0,
    {
        8 * (2048 - self.sample_rate)
    }

    /// The channel after one tick: each time the timer fires, the next
    /// nibble plays; after the last one, the other bank plays when both
    /// are in use.
    pub open spec fn clocked(self) -> Wave {
        let fired = self.timer.counter == 1;
        let wrapped = fired && self.wave_ram_i == 31;
        Wave {
            timer: Timer {
                counter: if fired { self.reload_value() as u16 } else { (self.timer.counter - 1) as u16 },
                ..self.timer
            },
            wave_ram_i: if wrapped {
                0
            } else if fired {
                (self.wave_ram_i + 1) as usize
            } else {
                self.wave_ram_i
            },
            wave_ram_bank: if wrapped && self.use_two_banks {
                (1 - self.wave_ram_bank) as u8
            } else {
                self.wave_ram_bank
            },
            ..self
        }
    }

    /// One tick of the channel.
    pub fn clock(&mut self)
        requires
            old(self).wf(),
        ensures
            final(self).wf(),
            *final(self) == old(self).clocked(),
    {
        let reload = self.calc_reload();
        if self.timer.clock_with_reload(reload) {
            self.wave_ram_i = self.wave_ram_i + 1;
            if self.wave_ram_i == 32 {
                self.wave_ram_i = 0;
                if self.use_two_banks {
                    self.wave_ram_bank = 1 - self.wave_ram_bank;
                }
            }
        }
    }

    /// Byte `offset` of the bank that is not playing.
    pub fn read_wave_ram(&self, offset: u32) -> (r: u8)
        requires
            self.wf(),
            offset < 16,
        ensures
            r == self.wave_ram@[self.ram_index(offset as int)],
    {
        self.wave_ram[(1 - self.wave_ram_bank as usize) * 16 + offset as usize]
    }

    /// Writes byte `offset` of the bank that is not playing.
    pub fn write_wave_ram(&mut self, offset: u32, value: u8)
        requires
            old(self).wf(),
            offset < 16,
        ensures
            final(self).wf(),
            *final(self) == (Wave {
                wave_ram: final(self).wave_ram,
                ..*old(self)
            }),
            final(self).wave_ram@ == old(self).wave_ram@.update(old(self).ram_index(offset as int), value),
    {
        let i = (1 - self.wave_ram_bank as usize) * 16 + offset as usize;
        self.wave_ram.set(i, value);
    }
}

impl Channel for Wave {
    /// The current sample; silence if the channel is in no valid state.
    fn generate_sample(&self) -> (r: i16)
        ensures
            self.wf() ==> r == self.sample(),
    {
        if !self.is_wf() {
            return 0;
        }
        let byte = self.wave_ram[self.wave_ram_bank as usize * 16 + self.wave_ram_i / 2];
        let sample: i16 = if self.wave_ram_i % 2 == 0 { (byte / 16) as i16 } else { (byte % 16) as i16 };
        let volume_factor: i16 = if self.force_volume {
            6
        } else if self.volume == 0 {
            0
        } else if self.volume == 1 {
            8
        } else if self.volume == 2 {
            4
        } else {
            2
        };
        volume_factor * sample
    }

    fn is_on(&self) -> (r: bool)
        ensures
            r == self.on(),
    {
        self.enabled && (!self.use_length || self.length_counter.should_play())
    }
}

impl IORegister for Wave {
    open spec fn has_byte(byte: u8) -> bool {
        byte < 8
    }

    open spec fn write_ok(byte: u8, value: u8) -> bool {
        true
    }

    open spec fn read_spec(&self, byte: u8) -> u8 {
        if byte == 0 {
            ((if self.enabled { 128int } else { 0 }) + self.wave_ram_bank * 64 + (if self.use_two_banks {
                32int
            } else {
                0
            })) as u8
        } else if byte == 3 {
            ((self.volume * 32) % 256) as u8
        } else if byte == 5 {
            if self.use_length { 64 } else { 0 }
        } else {
            0
        }
    }

    fn read(&self, byte: u8) -> (r: u8) {
        if byte == 0 {
            ((if self.enabled { 128u32 } else { 0 }) + self.wave_ram_bank as u32 * 64 + (if self.use_two_banks {
                32u32
            } else {
                0
            })) as u8
        } else if byte == 3 {
            (self.volume as u32 * 32 % 256) as u8
        } else if byte == 5 {
            if self.use_length { 64 } else { 0 }
        } else {
            0
        }
    }

    /// Writes a register byte; a write of bit 7 of byte 5 restarts the
    /// wave from its first sample.
    fn write(&mut self, byte: u8, value: u8)
        ensures
            old(self).wf() ==> final(self).wf() && *final(self) == old(self).after_write(byte, value),
    {
        if !self.is_wf() {
            return;
        }
        if byte == 0 {
            self.enabled = value / 128 % 2 != 0;
            self.wave_ram_bank = value / 64 % 2;
            self.use_two_banks = value / 32 % 2 != 0;
        } else if byte == 2 {
            self.length_reload = value;
        } else if byte == 3 {
            self.volume = value / 32 % 4;
            self.force_volume = value / 128 % 2 != 0;
        } else if byte == 4 {
            self.sample_rate = self.sample_rate / 256 * 256 + value as u16;
        } else if byte == 5 {
            self.sample_rate = self.sample_rate % 256 + (value % 8) as u16 * 256;
            self.use_length = value / 64 % 2 != 0;
            if value >= 128 {
                self.wave_ram_i = 0;
                let reload = self.calc_reload();
                self.timer.reload(reload);
                self.length_counter.reload_length(256 - self.length_reload as u16);
            }
        }
    }
}

/// The readable wave registers read back as written: the enable, bank and
/// banking bits, the volume and the length flag.
pub proof fn lemma_wave_read_after_write(w: Wave, v: u8)
    ensures
        w.after_write(0, v).read_spec(0) == v / 32 * 32,
        w.after_write(3, v).read_spec(3) == (v / 32) % 4 * 32,
        w.after_write(5, v).read_spec(5) == (v / 64) % 2 * 64,
{
    assert((if (v / 128) % 2 == 1 { 128int } else { 0 }) + (v / 64) % 2 * 64 + (if (v / 32) % 2 == 1 { 32int } else {
        0
    }) == v / 32 * 32) by (nonlinear_arith);
    assert((v / 32) % 4 * 32 % 256 == (v / 32) % 4 * 32) by (nonlinear_arith);
}

} // verus!
