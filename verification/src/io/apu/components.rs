//! The parts that the PSG channels are built from: a down-counting timer,
//! the frequency sweep and the volume envelope.
use vstd::prelude::*;
use vstd::arithmetic::power2::{pow2, lemma_pow2_pos};
use vstd::arithmetic::div_mod::lemma_div_nonincreasing;

verus! {

/// A timer that counts down and fires when it reaches zero, starting over
/// from a reload value.
pub struct Timer {
    pub counter: u16,
    pub reload: u16,
}

impl Timer {
    /// The counter never rests at zero.
    pub open spec fn wf(&self) -> bool {
        self.counter > 0 && self.reload > 0
    }

    pub fn is_wf(&self) -> (r: bool)
        ensures
            r == self.wf(),
    {
        self.counter > 0 && self.reload > 0
    }

    pub fn new(reload: u16) -> (r: Timer)
        requires
            reload != 0,
        ensures
            r.wf(),
            r.counter == reload,
            r.reload == reload,
    {
        Timer { counter: reload, reload }
    }

    /// One tick with the timer's own reload value.
    pub fn clock(&mut self) -> (r: bool)
        requires
            old(self).wf(),
        ensures
            final(self).wf(),
            r == (old(self).counter == 1),
            final(self).reload == old(self).reload,
            final(self).counter == (if r { old(self).reload } else { (old(self).counter - 1) as u16 }),
    {
        let reload = self.reload;
        self.clock_with_reload(reload)
    }

    /// One tick: fires when the counter reaches zero, and then starts over
    /// from `reload`.
    pub fn clock_with_reload(&mut self, reload: u16) -> (r: bool)
        requires
            old(self).wf(),
            reload != 0,
        ensures
            final(self).wf(),
            r == (old(self).counter == 1),
            final(self).reload == old(self).reload,
            final(self).counter == (if r { reload } else { (old(self).counter - 1) as u16 }),
    {
        self.counter = self.counter - 1;
        if self.counter == 0 {
            self.counter = reload;
            true
        } else {
            false
        }
    }

    /// Starts the count over from `reload`.
    pub fn reload(&mut self, reload: u16)
        requires
            reload != 0,
        ensures
            final(self).counter == reload,
            final(self).reload == old(self).reload,
    {
        self.counter = reload;
    }
}

/// The frequency that a sweep step computes from `shadow`: the shadow plus
/// or minus itself shifted right by `shift`.
pub open spec fn sweep_freq(shadow: u16, shift: u8, negate: bool) -> int {
    let operand = shadow as nat / pow2(shift as nat);
    if negate {
        shadow - operand
    } else {
        shadow + operand
    }
}

/// The frequency sweep of the first tone channel.
pub struct Sweep {
    pub shift: u8,
    pub negate: bool,
    pub period: u8,
    pub enabled: bool,
    pub timer: Timer,
    pub freq: u16,
    pub freq_shadow: u16,
    pub freq_overflowed: bool,
}

impl Sweep {
    /// The fields hold what their register bits can hold, and the
    /// frequencies are 11-bit values.
    pub open spec fn wf(&self) -> bool {
        &&& self.shift < 8
        &&& self.period < 8
        &&& self.timer.wf()
        &&& self.freq < 0x800
        &&& self.freq_shadow < 0x800
    }

    /// The next frequency, computed from the shadow.
    pub open spec fn next_freq(&self) -> int {
        sweep_freq(self.freq_shadow, self.shift, self.negate)
    }

    /// The sweep after checking `new_freq`: a frequency past 11 bits stops
    /// the channel.
    pub open spec fn checked(self, new_freq: int) -> Sweep {
        if new_freq >= 0x800 {
            Sweep { freq_overflowed: true, enabled: false, ..self }
        } else {
            self
        }
    }

    /// The sweep after a step of the sweep timer: the new frequency is
    /// taken when it fits, and the one after it is checked.
    pub open spec fn stepped(self) -> Sweep {
        let nf = self.next_freq();
        if nf >= 0x800 {
            self.checked(nf)
        } else {
            let s = Sweep { freq: nf as u16, freq_shadow: nf as u16, ..self };
            s.checked(s.next_freq())
        }
    }

    /// The sweep after its register byte is written.
    pub open spec fn written(self, value: u8) -> Sweep {
        Sweep { shift: value % 8, negate: (value / 8) % 2 == 1, period: (value / 16) % 8, ..self }
    }

    /// The register byte.
    pub open spec fn read_spec(self) -> u8 {
        (self.period * 16 + (if self.negate { 8int } else { 0 }) + self.shift) as u8
    }

    pub fn is_wf(&self) -> (r: bool)
        ensures
            r == self.wf(),
    {
        self.shift < 8 && self.period < 8 && self.timer.is_wf() && self.freq < 0x800 && self.freq_shadow < 0x800
    }

    /// The sweep after the channel is restarted.
    pub open spec fn reloaded(self) -> Sweep {
        let s = Sweep {
            freq_overflowed: false,
            freq_shadow: self.freq,
            enabled: self.period != 0 || self.shift != 0,
            timer: if self.period != 0 { Timer { counter: self.period as u16, ..self.timer } } else { self.timer },
            ..self
        };
        if self.shift != 0 {
            s.checked(s.next_freq())
        } else {
            s
        }
    }

    /// The sweep at power-on: all fields clear.
    pub open spec fn initial() -> Sweep {
        Sweep {
            shift: 0,
            negate: false,
            period: 0,
            enabled: false,
            timer: Timer { counter: 1, reload: 1 },
            freq: 0,
            freq_shadow: 0,
            freq_overflowed: false,
        }
    }

    pub fn new() -> (r: Sweep)
        ensures
            r.wf(),
            r == Sweep::initial(),
    {
        Sweep {
            shift: 0,
            negate: false,
            period: 0,
            enabled: false,
            timer: Timer::new(1),
            freq: 0,
            freq_shadow: 0,
            freq_overflowed: false,
        }
    }

    /// The sweep after one tick of its clock: while the sweep runs, each
    /// time its timer fires the frequency steps.
    pub open spec fn clocked(self) -> Sweep {
        if !self.enabled || self.period == 0 {
            self
        } else {
            let fired = self.timer.counter == 1;
            let t = Timer {
                counter: if fired { self.period as u16 } else { (self.timer.counter - 1) as u16 },
                ..self.timer
            };
            if fired {
                Sweep { timer: t, ..self.stepped() }
            } else {
                Sweep { timer: t, ..self }
            }
        }
    }

    /// One tick of the sweep clock.
    pub fn clock(&mut self)
        requires
            old(self).wf(),
        ensures
            final(self).wf(),
            *final(self) == old(self).clocked(),
    {
        if !self.enabled || self.period == 0 {
            return;
        }
        let period = self.period as u16;
        if self.timer.clock_with_reload(period) {
            let new_freq = self.calc_new_freq();
            if !self.overflowed(new_freq) {
                self.freq = new_freq;
                self.freq_shadow = new_freq;
                let next = self.calc_new_freq();
                self.overflowed(next);
            }
        }
    }

    /// The channel plays while the frequency has not overflowed.
    pub fn should_play(&self) -> (r: bool)
        ensures
            r == !self.freq_overflowed,
    {
        !self.freq_overflowed
    }

    /// Restarts the sweep with the channel.
    pub fn reload(&mut self)
        requires
            old(self).wf(),
        ensures
            final(self).wf(),
            *final(self) == old(self).reloaded(),
    {
        self.freq_overflowed = false;
        self.freq_shadow = self.freq;
        if self.period != 0 {
            self.timer.reload(self.period as u16);
        }
        self.enabled = self.period != 0 || self.shift != 0;
        if self.shift != 0 {
            let next = self.calc_new_freq();
            self.overflowed(next);
        }
    }

    /// The register byte: the period, the direction and the shift.
    pub fn read(&self) -> (r: u8)
        ensures
            r == self.read_spec(),
            self.wf() ==> r == self.period * 16 + (if self.negate { 8int } else { 0 }) + self.shift,
    {
        (self.period as u32 * 16 + (if self.negate { 8u32 } else { 0 }) + self.shift as u32) as u8
    }

    pub fn write(&mut self, value: u8)
        ensures
            *final(self) == old(self).written(value),
    {
        self.shift = value % 8;
        self.negate = value / 8 % 2 != 0;
        self.period = value / 16 % 8;
    }

    fn calc_new_freq(&self) -> (r: u16)
        requires
            self.wf(),
        ensures
            r == self.next_freq(),
    {
        let operand = self.freq_shadow >> (self.shift as u16);
        proof {
            vstd::bits::lemma_u16_shr_is_div(self.freq_shadow, self.shift as u16);
            lemma_pow2_pos(self.shift as nat);
            lemma_div_nonincreasing(self.freq_shadow as int, pow2(self.shift as nat) as int);
        }
        if self.negate {
            self.freq_shadow - operand
        } else {
            self.freq_shadow + operand
        }
    }

    fn overflowed(&mut self, new_freq: u16) -> (r: bool)
        ensures
            r == (new_freq >= 0x800),
            *final(self) == old(self).checked(new_freq as int),
    {
        if new_freq >= 0x800 {
            self.freq_overflowed = true;
            self.enabled = false;
            true
        } else {
            false
        }
    }
}

/// The volume envelope of a PSG channel.
pub struct Envelope {
    pub step_period: u8,
    pub inc: bool,
    pub initial_volume: u8,
    pub cur_volume: u8,
    pub timer: Timer,
    pub active: bool,
}

impl Envelope {
    /// The fields hold what their register bits can hold.
    pub open spec fn wf(&self) -> bool {
        &&& self.step_period < 8
        &&& self.initial_volume < 16
        &&& self.cur_volume < 16
        &&& self.timer.wf()
    }

    /// The envelope after a step of its timer: the volume moves by one
    /// towards its end, and the envelope stops there.
    pub open spec fn stepped(self) -> Envelope {
        if self.inc {
            if self.cur_volume == 15 {
                Envelope { active: false, ..self }
            } else {
                Envelope { cur_volume: (self.cur_volume + 1) as u8, ..self }
            }
        } else {
            if self.cur_volume == 0 {
                Envelope { active: false, ..self }
            } else {
                Envelope { cur_volume: (self.cur_volume - 1) as u8, ..self }
            }
        }
    }

    /// The envelope after the channel is restarted: back at the initial
    /// volume, running.
    pub open spec fn restarted(self) -> Envelope {
        Envelope {
            cur_volume: self.initial_volume,
            active: true,
            timer: if self.step_period != 0 {
                Timer { counter: self.step_period as u16, ..self.timer }
            } else {
                self.timer
            },
            ..self
        }
    }

    /// The envelope after its register byte is written.
    pub open spec fn written(self, value: u8) -> Envelope {
        Envelope { initial_volume: value / 16, inc: (value / 8) % 2 == 1, step_period: value % 8, ..self }
    }

    /// The register byte.
    pub open spec fn read_spec(self) -> u8 {
        (self.initial_volume * 16 + (if self.inc { 8int } else { 0 }) + self.step_period) as u8
    }

    pub fn is_wf(&self) -> (r: bool)
        ensures
            r == self.wf(),
    {
        self.step_period < 8 && self.initial_volume < 16 && self.cur_volume < 16 && self.timer.is_wf()
    }

    /// The envelope at power-on: all fields clear.
    pub open spec fn initial() -> Envelope {
        Envelope {
            step_period: 0,
            inc: false,
            initial_volume: 0,
            cur_volume: 0,
            timer: Timer { counter: 1, reload: 1 },
            active: false,
        }
    }

    pub fn new() -> (r: Envelope)
        ensures
            r.wf(),
            r == Envelope::initial(),
    {
        Envelope {
            step_period: 0,
            inc: false,
            initial_volume: 0,
            cur_volume: 0,
            timer: Timer::new(1),
            active: false,
        }
    }

    /// The envelope after one tick of its clock: while it runs, each time
    /// its timer fires the volume steps.
    pub open spec fn clocked(self) -> Envelope {
        if self.step_period == 0 || !self.active {
            self
        } else {
            let fired = self.timer.counter == 1;
            let t = Timer {
                counter: if fired { self.step_period as u16 } else { (self.timer.counter - 1) as u16 },
                ..self.timer
            };
            if fired {
                Envelope { timer: t, ..self.stepped() }
            } else {
                Envelope { timer: t, ..self }
            }
        }
    }

    /// One tick of the envelope clock.
    pub fn clock(&mut self)
        requires
            old(self).wf(),
        ensures
            final(self).wf(),
            *final(self) == old(self).clocked(),
    {
        if self.step_period == 0 || !self.active {
            return;
        }
        let period = self.step_period as u16;
        if self.timer.clock_with_reload(period) {
            if self.inc {
                if self.cur_volume == 15 {
                    self.active = false;
                } else {
                    self.cur_volume = self.cur_volume + 1;
                }
            } else {
                if self.cur_volume == 0 {
                    self.active = false;
                } else {
                    self.cur_volume = self.cur_volume - 1;
                }
            }
        }
    }

    pub fn get_volume(&self) -> (r: i16)
        ensures
            r == self.cur_volume,
    {
        self.cur_volume as i16
    }

    /// Restarts the envelope at its initial volume.
    pub fn reset(&mut self)
        requires
            old(self).wf(),
        ensures
            final(self).wf(),
            *final(self) == old(self).restarted(),
    {
        self.cur_volume = self.initial_volume;
        if self.step_period != 0 {
            self.timer.reload(self.step_period as u16);
        }
        self.active = true;
    }

    /// The register byte: the initial volume, the direction and the period.
    pub fn read(&self) -> (r: u8)
        ensures
            r == self.read_spec(),
            self.wf() ==> r == self.initial_volume * 16 + (if self.inc { 8int } else { 0 }) + self.step_period,
    {
        (self.initial_volume as u32 * 16 + (if self.inc { 8u32 } else { 0 }) + self.step_period as u32) as u8
    }

    pub fn write(&mut self, value: u8)
        ensures
            *final(self) == old(self).written(value),
    {
        self.initial_volume = value / 16;
        self.inc = value / 8 % 2 != 0;
        self.step_period = value % 8;
    }
}

/// The sweep register reads back what was written, but for its unused
/// bit 7.
pub proof fn lemma_sweep_read_after_write(s: Sweep, v: u8)
    ensures
        s.written(v).read_spec() == v % 128,
{
    assert((v / 16) % 8 * 16 + (if (v / 8) % 2 == 1 { 8int } else { 0 }) + v % 8 == v % 128) by (nonlinear_arith);
}

/// The envelope register reads back what was written.
pub proof fn lemma_envelope_read_after_write(e: Envelope, v: u8)
    ensures
        e.written(v).read_spec() == v,
{
    assert(v / 16 * 16 + (if (v / 8) % 2 == 1 { 8int } else { 0 }) + v % 8 == v) by (nonlinear_arith);
}

} // verus!
