//! The square-wave channels, with a duty cycle, an envelope and (on the
//! first) a frequency sweep.
use vstd::prelude::*;
use crate::io::IORegister;
use super::channel::{Channel, LengthCounter};
use super::components::{Envelope, Sweep, Timer};

verus! {

/// The level at position `pos` of the 8-step wave of duty setting `duty`:
/// high for 1, 2, 4 or 6 steps (12.5%, 25%, 50%, 75%), then low.
pub open spec fn duty_level(duty: u8, pos: int) -> i16 {
    let high: int = if duty == 0 {
        1
    } else if duty == 1 {
        2
    } else if duty == 2 {
        4
    } else {
        6
    };
    if pos < high {
        8i16
    } else {
        -8i16
    }
}

fn duty_level_exec(duty: u8, pos: usize) -> (r: i16)
    ensures
        r == duty_level(duty, pos as int),
{
    let high: usize = if duty == 0 {
        1
    } else if duty == 1 {
        2
    } else if duty == 2 {
        4
    } else {
        6
    };
    if pos < high {
        8
    } else {
        -8
    }
}

/// A square-wave channel.
pub struct Tone {
    pub sweep: Sweep,
    pub length_reload: u8,
    pub duty: u8,
    pub envelope: Envelope,
    pub use_length: bool,
    pub length_counter: LengthCounter,
    pub timer: Timer,
    pub duty_pos: usize,
}

impl Tone {
    pub open spec fn wf(&self) -> bool {
        &&& self.sweep.wf()
        &&& self.envelope.wf()
        &&& self.duty < 4
        &&& self.length_reload < 64
        &&& self.timer.wf()
        &&& self.duty_pos < 8
    }

    pub fn is_wf(&self) -> (r: bool)
        ensures
            r == self.wf(),
    {
        self.sweep.is_wf() && self.envelope.is_wf() && self.duty < 4 && self.length_reload < 64 && self.timer.is_wf()
            && self.duty_pos < 8
    }

    /// The period of one duty step, in cycles: 16 per unit of
    /// `2048 - frequency`.
    pub open spec fn reload_value(&self) -> int {
        16 * (2048 - self.sweep.freq)
    }

    /// Whether the channel sounds: its length has not run out (when it
    /// counts length) and the sweep has not overflowed.
    pub open spec fn on(&self) -> bool {
        (!self.use_length || self.length_counter.length != 0) && !self.sweep.freq_overflowed
    }

    /// The sample the channel puts out.
    pub open spec fn sample(&self) -> i16 {
        if self.on() {
            (self.envelope.cur_volume * duty_level(self.duty, self.duty_pos as int)) as i16
        } else {
            0
        }
    }

    /// The channel after it is restarted.
    pub open spec fn triggered(self) -> Tone {
        let s = self.sweep.reloaded();
        Tone {
            sweep: s,
            duty_pos: 0,
            timer: Timer { counter: (16 * (2048 - s.freq)) as u16, ..self.timer },
            envelope: self.envelope.restarted(),
            length_counter: LengthCounter { length: (64 - self.length_reload) as u16 },
            ..self
        }
    }

    /// The channel after byte `byte` of its registers is written.
    pub open spec fn after_write(self, byte: u8, value: u8) -> Tone {
        if byte == 0 {
            Tone { sweep: self.sweep.written(value), ..self }
        } else if byte == 2 {
            Tone { duty: value / 64, length_reload: value % 64, ..self }
        } else if byte == 3 {
            Tone { envelope: self.envelope.written(value), ..self }
        } else if byte == 4 {
            Tone { sweep: Sweep { freq: (self.sweep.freq / 256 * 256 + value) as u16, ..self.sweep }, ..self }
        } else if byte == 5 {
            let t = Tone {
                sweep: Sweep { freq: (self.sweep.freq % 256 + (value % 8) * 256) as u16, ..self.sweep },
                use_length: (value / 64) % 2 == 1,
                ..self
            };
            if value >= 128 {
                t.triggered()
            } else {
                t
            }
        } else {
            self
        }
    }

    /// The channel at power-on.
    pub open spec fn initial() -> Tone {
        Tone {
            sweep: Sweep::initial(),
            length_reload: 0,
            duty: 0,
            envelope: Envelope::initial(),
            use_length: false,
            length_counter: LengthCounter { length: 0 },
            timer: Timer { counter: 32768u16, reload: 32768u16 },
            duty_pos: 0,
        }
    }

    pub fn new() -> (r: Tone)
        ensures
            r.wf(),
            r == Tone::initial(),
    {
        Tone {
            sweep: Sweep::new(),
            length_reload: 0,
            duty: 0,
            envelope: Envelope::new(),
            use_length: false,
            length_counter: LengthCounter::new(),
            timer: Timer::new(16 * 2048),
            duty_pos: 0,
        }
    }

    fn calc_reload(&self) -> (r: u16)
        requires
            self.sweep.freq < 0x800,
        ensures
            r == self.reload_value(),
            r != 0,
    {
        16 * (2048 - self.sweep.freq)
    }

    /// The channel after one tick: each time the timer fires, the wave
    /// moves on one step.
    pub open spec fn clocked(self) -> Tone {
        let fired = self.timer.counter == 1;
        Tone {
            timer: Timer {
                counter: if fired { self.reload_value() as u16 } else { (self.timer.counter - 1) as u16 },
                ..self.timer
            },
            duty_pos: if fired { ((self.duty_pos + 1) % 8) as usize } else { self.duty_pos },
            ..self
        }
    }

    /// One tick of the channel.
    pub fn clock(&mut self)
        requires
            old(self).wf(),
        ensures
            final(self).wf(),
            *final(self) == old(self).clocked(),
    {
        let reload = self.calc_reload();
        if self.timer.clock_with_reload(reload) {
            self.duty_pos = (self.duty_pos + 1) % 8;
        }
    }
}

impl Channel for Tone {
    fn generate_sample(&self) -> (r: i16)
        ensures
            r == self.sample(),
    {
        if self.is_on() {
            let level = duty_level_exec(self.duty, self.duty_pos);
            let volume = self.envelope.get_volume();
            volume * level
        } else {
            0
        }
    }

    fn is_on(&self) -> (r: bool)
        ensures
            r == self.on(),
    {
        (!self.use_length || self.length_counter.should_play()) && self.sweep.should_play()
    }
}

impl IORegister for Tone {
    open spec fn has_byte(byte: u8) -> bool {
        byte < 8
    }

    open spec fn write_ok(byte: u8, value: u8) -> bool {
        true
    }

    open spec fn read_spec(&self, byte: u8) -> u8 {
        if byte == 0 {
            self.sweep.read_spec()
        } else if byte == 2 {
            ((self.duty * 64) % 256) as u8
        } else if byte == 3 {
            self.envelope.read_spec()
        } else if byte == 5 {
            if self.use_length { 64 } else { 0 }
        } else {
            0
        }
    }

    fn read(&self, byte: u8) -> (r: u8) {
        if byte == 0 {
            self.sweep.read()
        } else if byte == 2 {
            (self.duty as u32 * 64 % 256) as u8
        } else if byte == 3 {
            self.envelope.read()
        } else if byte == 5 {
            if self.use_length { 64 } else { 0 }
        } else {
            0
        }
    }

    /// Writes a register byte; a write of bit 7 of byte 5 restarts the
    /// channel.
    fn write(&mut self, byte: u8, value: u8)
        ensures
            old(self).wf() ==> final(self).wf() && *final(self) == old(self).after_write(byte, value),
    {
        if !self.is_wf() {
            return;
        }
        if byte == 0 {
            self.sweep.write(value);
        } else if byte == 2 {
            self.duty = value / 64;
            self.length_reload = value % 64;
        } else if byte == 3 {
            self.envelope.write(value);
        } else if byte == 4 {
            self.sweep.freq = self.sweep.freq / 256 * 256 + value as u16;
        } else if byte == 5 {
            self.sweep.freq = self.sweep.freq % 256 + (value % 8) as u16 * 256;
            self.use_length = value / 64 % 2 != 0;
            if value >= 128 {
                self.sweep.reload();
                self.duty_pos = 0;
                let reload = self.calc_reload();
                self.timer.reload(reload);
                self.envelope.reset();
                self.length_counter.reload_length(64 - self.length_reload as u16);
            }
        }
    }
}

/// The readable bits of the square-wave registers read back as written:
/// the sweep (but bit 7), the duty, the envelope and the length flag.
pub proof fn lemma_tone_read_after_write(t: Tone, v: u8)
    ensures
        t.after_write(0, v).read_spec(0) == v % 128,
        t.after_write(2, v).read_spec(2) == v / 64 * 64,
        t.after_write(3, v).read_spec(3) == v,
        t.after_write(5, v).read_spec(5) == (v / 64) % 2 * 64,
{
    super::components::lemma_sweep_read_after_write(t.sweep, v);
    super::components::lemma_envelope_read_after_write(t.envelope, v);
    assert((v / 64) * 64 % 256 == v / 64 * 64) by (nonlinear_arith);
}

} // verus!
