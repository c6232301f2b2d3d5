//! The parts of the sound channels.
use vstd::prelude::*;
use std::collections::VecDeque;

verus! {

/// A sound channel.
pub trait Channel {
    fn generate_sample(&self) -> i16;

    fn is_on(&self) -> bool;
}

/// The length counter of a PSG channel: the channel plays until it runs out.
pub struct LengthCounter {
    pub length: u16,
}

impl LengthCounter {
    pub fn new() -> (r: LengthCounter)
        ensures
            r.length == 0,
    {
        LengthCounter { length: 0 }
    }

    /// The counter after one tick: it counts down, stopping at zero.
    pub open spec fn clocked(self) -> LengthCounter {
        LengthCounter { length: if self.length == 0 { 0 } else { (self.length - 1) as u16 } }
    }

    /// Counts down, stopping at zero.
    pub fn clock(&mut self)
        ensures
            *final(self) == old(self).clocked(),
    {
        if self.length != 0 {
            self.length = self.length - 1;
        }
    }

    pub fn reload_length(&mut self, length: u16)
        ensures
            final(self).length == length,
    {
        self.length = length;
    }

    pub fn should_play(&self) -> (r: bool)
        ensures
            r == (self.length != 0),
    {
        self.length != 0
    }
}

/// Direct Sound: 8-bit samples that DMA feeds into a FIFO of 32 bytes, one
/// played each time the selected timer overflows.
pub struct DMASound {
    pub enable_right: u8,
    pub enable_left: u8,
    pub timer_select: u8,
    pub fifo: VecDeque<i8>,
    pub sample: i16,
}

/// The samples of a FIFO, as they will play.
pub open spec fn fifo_after_write(fifo: Seq<i8>, value: u8) -> Seq<i8> {
    if fifo.len() < 0x20 { fifo.push(value as i8) } else { fifo }
}

impl DMASound {
    pub open spec fn wf(&self) -> bool {
        self.timer_select < 2 && self.enable_right < 2 && self.enable_left < 2 && self.fifo@.len() <= 0x20
    }

    pub fn new() -> (r: DMASound)
        ensures
            r.wf(),
            r.fifo@ == Seq::<i8>::empty(),
            r.sample == 0,
            r.enable_right == 0 && r.enable_left == 0 && r.timer_select == 0,
    {
        DMASound { enable_right: 0, enable_left: 0, timer_select: 0, fifo: VecDeque::new(), sample: 0 }
    }

    /// When the selected timer overflowed, plays the next sample (or
    /// silence); the result asks DMA for more samples when at most 16 remain.
    pub fn clock(&mut self, timers_overflowed: &[bool; 4]) -> (r: bool)
        requires
            old(self).wf(),
        ensures
            final(self).wf(),
            final(self).enable_right == old(self).enable_right,
            final(self).enable_left == old(self).enable_left,
            final(self).timer_select == old(self).timer_select,
            !timers_overflowed@[old(self).timer_select as int] ==> final(self).fifo@ == old(self).fifo@
                && final(self).sample == old(self).sample && !r,
            timers_overflowed@[old(self).timer_select as int] ==> {
                &&& final(self).fifo@ == (if old(self).fifo@.len() > 0 {
                    old(self).fifo@.drop_first()
                } else {
                    old(self).fifo@
                })
                &&& final(self).sample == (if old(self).fifo@.len() > 0 { old(self).fifo@[0] as i16 } else { 0 })
                &&& r == (final(self).fifo@.len() <= 0x10)
            },
    {
        if timers_overflowed[self.timer_select as usize] {
            self.sample = match self.fifo.pop_front() {
                Some(sample) => sample as i16,
                None => 0,
            };
            self.fifo.len() <= 0x10
        } else {
            false
        }
    }

    pub fn read_cnt(&self) -> (r: u8)
        requires
            self.wf(),
        ensures
            r == self.timer_select * 4 + self.enable_left * 2 + self.enable_right,
    {
        (self.timer_select as u32 * 4 + self.enable_left as u32 * 2 + self.enable_right as u32) as u8
    }

    /// Writes the control bits; bit 3 empties the FIFO.
    pub fn write_cnt(&mut self, value: u8)
        requires
            old(self).wf(),
        ensures
            final(self).wf(),
            final(self).enable_right == value % 2,
            final(self).enable_left == (value / 2) % 2,
            final(self).timer_select == (value / 4) % 2,
            (value / 8) % 2 == 1 ==> final(self).fifo@ == Seq::<i8>::empty() && final(self).sample == 0,
            (value / 8) % 2 == 0 ==> final(self).fifo@ == old(self).fifo@ && final(self).sample == old(self).sample,
    {
        self.enable_right = value % 2;
        self.enable_left = value / 2 % 2;
        self.timer_select = value / 4 % 2;
        if value / 8 % 2 == 1 {
            self.fifo.clear();
            self.sample = 0;
        }
    }

    /// Queues a sample, unless the FIFO is full.
    pub fn write_fifo(&mut self, value: u8)
        requires
            old(self).wf(),
        ensures
            final(self).wf(),
            final(self).fifo@ == fifo_after_write(old(self).fifo@, value),
            final(self).sample == old(self).sample,
            final(self).timer_select == old(self).timer_select,
            final(self).enable_right == old(self).enable_right,
            final(self).enable_left == old(self).enable_left,
    {
        if self.fifo.len() < 0x20 {
            self.fifo.push_back(value as i8);
        }
    }
}

impl Channel for DMASound {
    fn generate_sample(&self) -> (r: i16)
        ensures
            r == self.sample,
    {
        self.sample
    }

    /// Direct Sound does not report whether it is on.
    fn is_on(&self) -> (r: bool)
        ensures
            !r,
    {
        false
    }
}

/// The FIFO plays samples in the order they were written: a sample written
/// to a FIFO with room comes out after the ones already there.
pub proof fn lemma_fifo_order(fifo: Seq<i8>, value: u8)
    requires
        0 < fifo.len() < 0x20,
    ensures
        fifo_after_write(fifo, value)[0] == fifo[0],
        fifo_after_write(fifo, value).drop_first() == fifo_after_write(fifo.drop_first(), value),
{
    assert(fifo.push(value as i8).drop_first() =~= fifo.drop_first().push(value as i8));
}

} // verus!
