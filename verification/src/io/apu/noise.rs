//! The noise channel: a linear feedback shift register clocked at a
//! programmable rate.
use vstd::prelude::*;
use vstd::arithmetic::power2::{pow2, lemma2_to64, lemma_pow2_strictly_increases};
use crate::io::IORegister;
use super::channel::{Channel, LengthCounter};
use super::components::{Envelope, Timer};

verus! {

/// The base interval of shift setting `shift`: 64 cycles shifted left,
/// kept to 16 bits.
pub open spec fn noise_interval(shift: u8) -> int {
    ((64 * pow2(shift as nat)) % 0x1_0000) as int
}

/// The shift register after one step: the low bit goes out, and when it
/// was set the taps of the 15-bit (or, narrow, 7-bit) register flip.
pub open spec fn lfsr_step(lfsr: u16, counter_width: bool) -> u16 {
    if lfsr % 2 == 1 {
        (lfsr / 2) ^ (if counter_width { 0x60u16 } else { 0x6000u16 })
    } else {
        lfsr / 2
    }
}

/// The noise channel.
pub struct Noise {
    pub length_reload: u8,
    pub envelope: Envelope,
    pub ratio: u8,
    pub counter_width: bool,
    pub shift: u8,
    pub use_length: bool,
    pub length_counter: LengthCounter,
    pub timer: Timer,
    pub lfsr: u16,
}

impl Noise {
    pub open spec fn wf(&self) -> bool {
        &&& self.envelope.wf()
        &&& self.length_reload < 64
        &&& self.ratio < 8
        &&& self.shift < 16
        &&& self.timer.wf()
    }

    pub fn is_wf(&self) -> (r: bool)
        ensures
            r == self.wf(),
    {
        self.envelope.is_wf() && self.length_reload < 64 && self.ratio < 8 && self.shift < 16 && self.timer.is_wf()
    }

    /// The period of one step of the register: half the interval for ratio
    /// 0, else the interval times the ratio, kept to 16 bits.
    pub open spec fn reload_value(&self) -> int {
        let interval = noise_interval(self.shift);
        if self.ratio == 0 {
            interval / 2
        } else {
            (interval * self.ratio) % 0x1_0000
        }
    }

    /// Whether the channel sounds.
    pub open spec fn on(&self) -> bool {
        !self.use_length || self.length_counter.length != 0
    }

    /// The sample the channel puts out: high while the low bit of the
    /// register is clear.
    pub open spec fn sample(&self) -> i16 {
        if self.on() {
            (self.envelope.cur_volume * (if self.lfsr % 2 == 0 { 8int } else { -8int })) as i16
        } else {
            0
        }
    }

    /// The channel after it is restarted.
    pub open spec fn triggered(self) -> Noise {
        let reload = self.reload_value();
        Noise {
            lfsr: 0x7FFF,
            timer: if reload != 0 { Timer { counter: reload as u16, ..self.timer } } else { self.timer },
            envelope: self.envelope.restarted(),
            length_counter: LengthCounter { length: (64 - self.length_reload) as u16 },
            ..self
        }
    }

    /// The channel after byte `byte` of its registers is written.
    pub open spec fn after_write(self, byte: u8, value: u8) -> Noise {
        if byte == 0 {
            Noise { length_reload: value % 64, ..self }
        } else if byte == 1 {
            Noise { envelope: self.envelope.written(value), ..self }
        } else if byte == 4 {
            Noise { ratio: value % 8, counter_width: (value / 8) % 2 == 1, shift: value / 16, ..self }
        } else if byte == 5 {
            let n = Noise { use_length: (value / 64) % 2 == 1, ..self };
            if value >= 128 {
                n.triggered()
            } else {
                n
            }
        } else {
            self
        }
    }

    pub fn new() -> (r: Noise)
        ensures
            r.wf(),
            r.length_reload == 0 && r.envelope == Envelope::initial() && r.ratio == 0,
            !r.counter_width && r.shift == 0 && !r.use_length,
            r.length_counter.length == 0,
            r.timer == (Timer { counter: 8, reload: 8 }),
            r.lfsr == 0x7FFF,
    {
        Noise {
            length_reload: 0,
            envelope: Envelope::new(),
            ratio: 0,
            counter_width: false,
            shift: 0,
            use_length: false,
            length_counter: LengthCounter::new(),
            timer: Timer::new(8),
            lfsr: 0x7FFF,
        }
    }

    fn calc_reload(&self) -> (r: u16)
        requires
            self.shift < 16,
        ensures
            r == self.reload_value(),
    {
        proof {
            lemma2_to64();
            if self.shift < 15 {
                lemma_pow2_strictly_increases(self.shift as nat, 15);
            }
            let p = pow2(self.shift as nat);
            assert(64 * p <= 64 * 32768) by (nonlinear_arith)
                requires
                    p <= 32768,
            ;
            vstd::bits::lemma_u32_shl_is_mul(64, self.shift as u32);
        }
        let wide: u32 = 64u32 << (self.shift as u32);
        let interval: u16 = (wide % 0x1_0000) as u16;
        if self.ratio == 0 {
            interval / 2
        } else {
            let i = interval as u32;
            let r = self.ratio as u32;
            assert(i * r <= 65535 * 255) by (nonlinear_arith)
                requires
                    i <= 65535,
                    r <= 255,
            ;
            (i * r % 0x1_0000) as u16
        }
    }

    /// One tick: while the channel sounds, each time the timer fires the
    /// shift register steps.
    pub fn clock(&mut self)
        requires
            old(self).wf(),
        ensures
            final(self).wf(),
            !old(self).on() || old(self).reload_value() == 0 ==> *final(self) == *old(self),
            old(self).on() && old(self).reload_value() != 0 ==> {
                let fired = old(self).timer.counter == 1;
                *final(self) == Noise {
                    timer: Timer {
                        counter: if fired {
                            old(self).reload_value() as u16
                        } else {
                            (old(self).timer.counter - 1) as u16
                        },
                        ..old(self).timer
                    },
                    lfsr: if fired { lfsr_step(old(self).lfsr, old(self).counter_width) } else { old(self).lfsr },
                    ..*old(self)
                }
            },
    {
        if !self.is_on() {
            return;
        }
        let reload = self.calc_reload();
        if reload != 0 && self.timer.clock_with_reload(reload) {
            let carry = self.lfsr % 2 == 1;
            self.lfsr = self.lfsr / 2;
            if carry {
                let tap: u16 = if self.counter_width { 0x60 } else { 0x6000 };
                self.lfsr = self.lfsr ^ tap;
            }
        }
    }
}

impl Channel for Noise {
    fn generate_sample(&self) -> (r: i16)
        ensures
            r == self.sample(),
    {
        if self.is_on() {
            let level: i16 = if self.lfsr % 2 == 0 { 8 } else { -8 };
            let volume = self.envelope.get_volume();
            assert(-2040 <= volume * level <= 2040) by (nonlinear_arith)
                requires
                    0 <= volume <= 255,
                    level == 8 || level == -8,
            ;
            volume * level
        } else {
            0
        }
    }

    fn is_on(&self) -> (r: bool)
        ensures
            r == self.on(),
    {
        !self.use_length || self.length_counter.should_play()
    }
}

impl IORegister for Noise {
    open spec fn has_byte(byte: u8) -> bool {
        byte < 8
    }

    open spec fn write_ok(byte: u8, value: u8) -> bool {
        true
    }

    open spec fn read_spec(&self, byte: u8) -> u8 {
        if byte == 1 {
            self.envelope.read_spec()
        } else if byte == 4 {
            (self.shift * 16 + (if self.counter_width { 8int } else { 0 }) + self.ratio) as u8
        } else if byte == 5 {
            if self.use_length { 64 } else { 0 }
        } else {
            0
        }
    }

    fn read(&self, byte: u8) -> (r: u8) {
        if byte == 1 {
            self.envelope.read()
        } else if byte == 4 {
            (self.shift as u32 * 16 + (if self.counter_width { 8u32 } else { 0 }) + self.ratio as u32) as u8
        } else if byte == 5 {
            if self.use_length { 64 } else { 0 }
        } else {
            0
        }
    }

    /// Writes a register byte; a write of bit 7 of byte 5 restarts the
    /// channel with a full shift register.
    fn write(&mut self, byte: u8, value: u8)
        ensures
            old(self).wf() ==> final(self).wf() && *final(self) == old(self).after_write(byte, value),
    {
        if !self.is_wf() {
            return;
        }
        if byte == 0 {
            self.length_reload = value % 64;
        } else if byte == 1 {
            self.envelope.write(value);
        } else if byte == 4 {
            self.ratio = value % 8;
            self.counter_width = value / 8 % 2 != 0;
            self.shift = value / 16;
        } else if byte == 5 {
            self.use_length = value / 64 % 2 != 0;
            if value >= 128 {
                self.lfsr = 0x7FFF;
                let reload = self.calc_reload();
                if reload != 0 {
                    self.timer.reload(reload);
                }
                self.envelope.reset();
                self.length_counter.reload_length(64 - self.length_reload as u16);
            }
        }
    }
}

/// The readable noise registers read back as written: the envelope, the
/// clock settings and the length flag.
pub proof fn lemma_noise_read_after_write(n: Noise, v: u8)
    ensures
        n.after_write(1, v).read_spec(1) == v,
        n.after_write(4, v).read_spec(4) == v,
        n.after_write(5, v).read_spec(5) == (v / 64) % 2 * 64,
{
    super::components::lemma_envelope_read_after_write(n.envelope, v);
    assert(v / 16 * 16 + (if (v / 8) % 2 == 1 { 8int } else { 0 }) + v % 8 == v) by (nonlinear_arith);
}

} // verus!
