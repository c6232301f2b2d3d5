//! The sound unit: two square-wave channels, the wave channel, their
//! sequencer, and the mixer that feeds the output ring.
pub mod registers;
pub mod channel;
pub mod components;
pub mod tone;
pub mod wave;
pub mod noise;
pub mod audio;

use vstd::prelude::*;
use crate::io::IORegister;
use audio::{Audio, VOLUME_FACTOR};
use channel::{Channel, LengthCounter};
use components::Timer;
use registers::{SOUNDBIAS, SOUNDCNT};
use tone::Tone;
use wave::Wave;

verus! {

/// The cycles between two output samples: the clock rate over the sample
/// rate.
pub const CLOCKS_PER_SAMPLE: usize = 512;

/// The cycles between two steps of the frame sequencer (512 Hz).
pub const SEQUENCER_PERIOD: u16 = 32768;

/// The contribution of a channel's sample when its flag is `flag`.
pub open spec fn routed(flag: u8, sample: i16) -> int {
    if flag == 1 {
        sample as int
    } else {
        0
    }
}

fn routed_exec(flag: u8, sample: i16) -> (r: i16)
    ensures
        r == routed(flag, sample),
{
    if flag == 1 {
        sample
    } else {
        0
    }
}

/// The sound unit.
pub struct APU {
    pub tone1: Tone,
    pub tone2: Tone,
    pub wave: Wave,
    pub cnt: SOUNDCNT,
    pub bias: SOUNDBIAS,
    pub master_enable: bool,
    pub audio: Audio,
    pub sequencer_step: u8,
    pub sequencer_clock: Timer,
    pub sample_clock: usize,
}

impl APU {
    pub open spec fn wf(&self) -> bool {
        &&& self.tone1.wf()
        &&& self.tone2.wf()
        &&& self.wave.wf()
        &&& self.cnt.wf()
        &&& self.audio@.wf()
        &&& self.sequencer_step < 8
        &&& self.sequencer_clock.wf()
        &&& 1 <= self.sample_clock <= CLOCKS_PER_SAMPLE
    }

    pub fn is_wf(&self) -> (r: bool)
        ensures
            r == self.wf(),
    {
        self.tone1.is_wf() && self.tone2.is_wf() && self.wave.is_wf() && self.cnt.is_wf() && self.audio.is_wf()
            && self.sequencer_step < 8 && self.sequencer_clock.is_wf() && 1 <= self.sample_clock
            && self.sample_clock <= CLOCKS_PER_SAMPLE
    }

    /// `new` is this unit after a write of `value` to register offset
    /// `off`: a write to the wave RAM changes that byte of the bank that is
    /// not playing, any other write is `after_register_write`.
    pub open spec fn wrote_register(&self, new: &APU, off: int, value: u8) -> bool {
        if 0x90 <= off <= 0x9F {
            &&& new.wave.wave_ram@ == self.wave.wave_ram@.update(self.wave.ram_index(off - 0x90), value)
            &&& (APU { wave: (Wave { wave_ram: self.wave.wave_ram, ..new.wave }), ..*new }) == *self
        } else {
            *new == self.after_register_write(off, value)
        }
    }

    /// The channels after one tick of their timers.
    pub open spec fn channels_clocked(self) -> APU {
        APU { tone1: self.tone1.clocked(), tone2: self.tone2.clocked(), wave: self.wave.clocked(), ..self }
    }

    /// The unit after a tick of the three length counters.
    pub open spec fn lengths_clocked(self) -> APU {
        APU {
            tone1: Tone { length_counter: self.tone1.length_counter.clocked(), ..self.tone1 },
            tone2: Tone { length_counter: self.tone2.length_counter.clocked(), ..self.tone2 },
            wave: Wave { length_counter: self.wave.length_counter.clocked(), ..self.wave },
            ..self
        }
    }

    /// The unit after a tick of the two envelopes.
    pub open spec fn envelopes_clocked(self) -> APU {
        APU {
            tone1: Tone { envelope: self.tone1.envelope.clocked(), ..self.tone1 },
            tone2: Tone { envelope: self.tone2.envelope.clocked(), ..self.tone2 },
            ..self
        }
    }

    /// `next` is this unit after one cycle: nothing happens while the unit
    /// is disabled; else the channels tick, then the sequencer, then the
    /// mixer, which queues a stereo sample every `CLOCKS_PER_SAMPLE` cycles.
    pub open spec fn clock_step(&self, next: &APU) -> bool {
        if !self.master_enable {
            *next == *self
        } else {
            let mid = self.channels_clocked().sequencer_clocked();
            &&& (APU { audio: self.audio, ..*next }) == (APU {
                audio: self.audio,
                sample_clock: if mid.sample_clock == 1 {
                    CLOCKS_PER_SAMPLE
                } else {
                    (mid.sample_clock - 1) as usize
                },
                ..mid
            })
            &&& next.audio@ == (if mid.sample_clock == 1 {
                self.audio@.pushed((VOLUME_FACTOR * mid.left_sample()) as i16).pushed(
                    (VOLUME_FACTOR * mid.right_sample()) as i16,
                )
            } else {
                self.audio@
            })
        }
    }

    /// `b` is `a` after `n` cycles.
    pub open spec fn clock_steps(a: APU, b: APU, n: nat) -> bool
        decreases n,
    {
        if n == 0 {
            a == b
        } else {
            exists|m: APU| APU::clock_steps(a, m, (n - 1) as nat) && #[trigger] m.clock_step(&b)
        }
    }

    /// The unit after one tick of the frame sequencer: when its timer
    /// fires, steps 0, 2, 4 and 6 clock the length counters, steps 2 and 6
    /// the sweep too, and step 7 the envelopes.
    pub open spec fn sequencer_clocked(self) -> APU {
        let fired = self.sequencer_clock.counter == 1;
        let s = APU {
            sequencer_clock: Timer {
                counter: if fired {
                    self.sequencer_clock.reload
                } else {
                    (self.sequencer_clock.counter - 1) as u16
                },
                ..self.sequencer_clock
            },
            ..self
        };
        if !fired {
            s
        } else {
            let step = self.sequencer_step;
            let a = if step == 0 || step == 4 {
                s.lengths_clocked()
            } else if step == 2 || step == 6 {
                let l = s.lengths_clocked();
                APU { tone1: Tone { sweep: l.tone1.sweep.clocked(), ..l.tone1 }, ..l }
            } else if step == 7 {
                s.envelopes_clocked()
            } else {
                s
            };
            APU { sequencer_step: ((step + 1) % 8) as u8, ..a }
        }
    }

    /// The mixed left sample: the sum of the routed channels, times the
    /// left master volume.
    pub open spec fn left_sample(&self) -> int {
        (routed(self.cnt.psg_enable_l.channel1, self.tone1.sample()) + routed(
            self.cnt.psg_enable_l.channel2,
            self.tone2.sample(),
        ) + routed(self.cnt.psg_enable_l.channel3, self.wave.sample())) * self.cnt.psg_master_volume_l
    }

    /// The mixed right sample.
    pub open spec fn right_sample(&self) -> int {
        (routed(self.cnt.psg_enable_r.channel1, self.tone1.sample()) + routed(
            self.cnt.psg_enable_r.channel2,
            self.tone2.sample(),
        ) + routed(self.cnt.psg_enable_r.channel3, self.wave.sample())) * self.cnt.psg_master_volume_r
    }

    /// The status byte of SOUNDCNT_X: the master enable and which channels
    /// sound.
    pub open spec fn status_byte(&self) -> u8 {
        ((if self.master_enable { 128int } else { 0 }) + (if self.wave.on() { 8int } else { 0 }) + (if self.tone2.on() {
            2int
        } else {
            0
        }) + (if self.tone1.on() { 1int } else { 0 })) as u8
    }

    /// The byte that a read of register offset `off` gives.
    pub open spec fn register_byte(&self, off: int) -> u8 {
        if 0x60 <= off <= 0x67 {
            self.tone1.read_spec((off - 0x60) as u8)
        } else if off == 0x68 || off == 0x69 {
            self.tone2.read_spec((off - 0x66) as u8)
        } else if 0x6C <= off <= 0x6F {
            self.tone2.read_spec((off - 0x68) as u8)
        } else if 0x70 <= off <= 0x77 {
            self.wave.read_spec((off - 0x70) as u8)
        } else if 0x80 <= off <= 0x82 {
            self.cnt.read_spec((off - 0x80) as u8)
        } else if off == 0x84 {
            self.status_byte()
        } else if off == 0x88 || off == 0x89 {
            self.bias.read_spec((off - 0x88) as u8)
        } else if 0x90 <= off <= 0x9F {
            self.wave.wave_ram@[self.wave.ram_index(off - 0x90)]
        } else {
            0
        }
    }

    /// The unit after a write of `value` to register offset `off`, outside
    /// the wave RAM. Turning the master enable on resets both tone channels
    /// and writes the value to the first two bytes of SOUNDCNT.
    pub open spec fn after_register_write(self, off: int, value: u8) -> APU {
        if 0x60 <= off <= 0x67 {
            APU { tone1: self.tone1.after_write((off - 0x60) as u8, value), ..self }
        } else if off == 0x68 || off == 0x69 {
            APU { tone2: self.tone2.after_write((off - 0x66) as u8, value), ..self }
        } else if 0x6C <= off <= 0x6F {
            APU { tone2: self.tone2.after_write((off - 0x68) as u8, value), ..self }
        } else if 0x70 <= off <= 0x77 {
            APU { wave: self.wave.after_write((off - 0x70) as u8, value), ..self }
        } else if 0x80 <= off <= 0x82 {
            APU { cnt: self.cnt.after_write((off - 0x80) as u8, value), ..self }
        } else if off == 0x84 {
            let enable = (value / 128) % 2 == 1;
            if !self.master_enable && enable {
                APU {
                    master_enable: true,
                    tone1: Tone::initial(),
                    tone2: Tone::initial(),
                    cnt: self.cnt.after_write(0, value).after_write(1, value),
                    ..self
                }
            } else {
                APU { master_enable: enable, ..self }
            }
        } else if off == 0x88 || off == 0x89 {
            APU { bias: self.bias.after_write((off - 0x88) as u8, value), ..self }
        } else {
            self
        }
    }

    pub fn new() -> (r: APU)
        ensures
            r.wf(),
            r.tone1 == Tone::initial() && r.tone2 == Tone::initial(),
            !r.master_enable,
            r.audio@.count == 0,
            r.sequencer_step == 0,
            r.sequencer_clock.counter == SEQUENCER_PERIOD && r.sequencer_clock.reload == SEQUENCER_PERIOD,
            r.sample_clock == CLOCKS_PER_SAMPLE,
    {
        APU {
            tone1: Tone::new(),
            tone2: Tone::new(),
            wave: Wave::new(),
            cnt: SOUNDCNT::new(),
            bias: SOUNDBIAS::new(),
            master_enable: false,
            audio: Audio::empty(),
            sequencer_step: 0,
            sequencer_clock: Timer::new(SEQUENCER_PERIOD),
            sample_clock: CLOCKS_PER_SAMPLE,
        }
    }

    /// One cycle of the unit, while it is enabled: the channels tick, then
    /// the sequencer, then the mixer, which queues a stereo sample every
    /// `CLOCKS_PER_SAMPLE` cycles.
    pub fn clock(&mut self)
        requires
            old(self).wf(),
        ensures
            final(self).wf(),
            old(self).clock_step(final(self)),
    {
        if !self.master_enable {
            return;
        }
        self.tone1.clock();
        self.tone2.clock();
        self.wave.clock();
        self.clock_sequencer();
        self.generate_sample();
    }

    /// One tick of the frame sequencer.
    pub fn clock_sequencer(&mut self)
        requires
            old(self).wf(),
        ensures
            final(self).wf(),
            *final(self) == old(self).sequencer_clocked(),
    {
        if self.sequencer_clock.clock() {
            let step = self.sequencer_step;
            if step == 0 || step == 4 {
                self.clock_length_counters();
            } else if step == 2 || step == 6 {
                self.clock_length_counters();
                self.tone1.sweep.clock();
            } else if step == 7 {
                self.clock_envelopes();
            }
            self.sequencer_step = (step + 1) % 8;
        }
    }

    fn clock_length_counters(&mut self)
        requires
            old(self).wf(),
        ensures
            final(self).wf(),
            *final(self) == old(self).lengths_clocked(),
    {
        self.tone1.length_counter.clock();
        self.tone2.length_counter.clock();
        self.wave.length_counter.clock();
    }

    fn clock_envelopes(&mut self)
        requires
            old(self).wf(),
        ensures
            final(self).wf(),
            *final(self) == old(self).envelopes_clocked(),
    {
        self.tone1.envelope.clock();
        self.tone2.envelope.clock();
    }

    fn generate_sample(&mut self)
        requires
            old(self).wf(),
        ensures
            final(self).wf(),
            (APU { audio: old(self).audio, ..*final(self) }) == (APU {
                audio: old(self).audio,
                sample_clock: if old(self).sample_clock == 1 {
                    CLOCKS_PER_SAMPLE
                } else {
                    (old(self).sample_clock - 1) as usize
                },
                ..*old(self)
            }),
            final(self).audio@ == (if old(self).sample_clock == 1 {
                old(self).audio@.pushed((VOLUME_FACTOR * old(self).left_sample()) as i16).pushed(
                    (VOLUME_FACTOR * old(self).right_sample()) as i16,
                )
            } else {
                old(self).audio@
            }),
    {
        self.sample_clock = self.sample_clock - 1;
        if self.sample_clock == 0 {
            let c1 = self.tone1.generate_sample();
            let c2 = self.tone2.generate_sample();
            let c3 = self.wave.generate_sample();
            proof {
                lemma_tone_sample_bound(self.tone1);
                lemma_tone_sample_bound(self.tone2);
                lemma_wave_sample_bound(&self.wave);
            }
            let l = routed_exec(self.cnt.psg_enable_l.channel1, c1) + routed_exec(self.cnt.psg_enable_l.channel2, c2)
                + routed_exec(self.cnt.psg_enable_l.channel3, c3);
            let r = routed_exec(self.cnt.psg_enable_r.channel1, c1) + routed_exec(self.cnt.psg_enable_r.channel2, c2)
                + routed_exec(self.cnt.psg_enable_r.channel3, c3);
            let vl = self.cnt.psg_master_volume_l as i16;
            let vr = self.cnt.psg_master_volume_r as i16;
            assert(-2520 <= l * vl <= 2520 && -2520 <= r * vr <= 2520) by (nonlinear_arith)
                requires
                    -360 <= l <= 360,
                    -360 <= r <= 360,
                    0 <= vl < 8,
                    0 <= vr < 8,
            ;
            let left = l * vl;
            let right = r * vr;
            self.audio.queue(left, right);
            self.sample_clock = CLOCKS_PER_SAMPLE;
        }
    }

    /// The byte at register offset `addr` of the sound unit.
    pub fn read_register(&self, addr: u32) -> (r: u8)
        requires
            self.wf(),
            0x0400_0000 <= addr < 0x0400_1000,
            addr != 0x0400_0083,
        ensures
            r == self.register_byte(addr - 0x0400_0000),
    {
        let off = addr - 0x0400_0000;
        if 0x60 <= off && off <= 0x67 {
            self.tone1.read((off - 0x60) as u8)
        } else if off == 0x68 || off == 0x69 {
            self.tone2.read((off - 0x66) as u8)
        } else if 0x6C <= off && off <= 0x6F {
            self.tone2.read((off - 0x68) as u8)
        } else if 0x70 <= off && off <= 0x77 {
            self.wave.read((off - 0x70) as u8)
        } else if 0x80 <= off && off <= 0x82 {
            self.cnt.read((off - 0x80) as u8)
        } else if off == 0x84 {
            let master: u32 = if self.master_enable { 128 } else { 0 };
            let wave_on: u32 = if self.wave.is_on() { 8 } else { 0 };
            let tone2_on: u32 = if self.tone2.is_on() { 2 } else { 0 };
            let tone1_on: u32 = if self.tone1.is_on() { 1 } else { 0 };
            (master + wave_on + tone2_on + tone1_on) as u8
        } else if off == 0x88 || off == 0x89 {
            self.bias.read((off - 0x88) as u8)
        } else if 0x90 <= off && off <= 0x9F {
            self.wave.read_wave_ram(off - 0x90)
        } else {
            0
        }
    }

    /// Writes `value` to register offset `addr` of the sound unit.
    pub fn write_register(&mut self, addr: u32, value: u8)
        requires
            old(self).wf(),
            0x0400_0000 <= addr < 0x0400_1000,
            addr != 0x0400_0083,
        ensures
            final(self).wf(),
            old(self).wrote_register(final(self), addr - 0x0400_0000, value),
    {
        let off = addr - 0x0400_0000;
        if 0x60 <= off && off <= 0x67 {
            self.tone1.write((off - 0x60) as u8, value);
        } else if off == 0x68 || off == 0x69 {
            self.tone2.write((off - 0x66) as u8, value);
        } else if 0x6C <= off && off <= 0x6F {
            self.tone2.write((off - 0x68) as u8, value);
        } else if 0x70 <= off && off <= 0x77 {
            self.wave.write((off - 0x70) as u8, value);
        } else if 0x80 <= off && off <= 0x82 {
            self.cnt.write((off - 0x80) as u8, value);
        } else if off == 0x84 {
            let prev = self.master_enable;
            self.master_enable = value / 128 % 2 != 0;
            if !prev && self.master_enable {
                self.tone1 = Tone::new();
                self.tone2 = Tone::new();
                self.cnt.write(0, value);
                self.cnt.write(1, value);
            }
        } else if off == 0x88 || off == 0x89 {
            self.bias.write((off - 0x88) as u8, value);
        } else if 0x90 <= off && off <= 0x9F {
            self.wave.write_wave_ram(off - 0x90, value);
        }
    }
}

/// A square-wave sample is at most 15 steps of 8 either way.
proof fn lemma_tone_sample_bound(t: Tone)
    requires
        t.wf(),
    ensures
        -120 <= t.sample() <= 120,
{
    let v = t.envelope.cur_volume as int;
    let d = tone::duty_level(t.duty, t.duty_pos as int) as int;
    assert(-120 <= v * d <= 120) by (nonlinear_arith)
        requires
            0 <= v < 16,
            d == 8 || d == -8,
    ;
}

/// A wave sample is at most 15 times 8.
proof fn lemma_wave_sample_bound(w: &Wave)
    requires
        w.wf(),
    ensures
        0 <= w.sample() <= 120,
{
    let byte = w.wave_ram@[w.wave_ram_bank * 16 + w.wave_ram_i / 2];
    let nibble: int = if w.wave_ram_i % 2 == 0 { (byte / 16) as int } else { (byte % 16) as int };
    let f = wave::wave_volume_factor(w.volume, w.force_volume);
    assert(0 <= f * nibble <= 120) by (nonlinear_arith)
        requires
            0 <= f <= 8,
            0 <= nibble <= 15,
    ;
}

} // verus!
