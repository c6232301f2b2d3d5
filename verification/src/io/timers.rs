//! The four timers: counters that run at a prescaled rate, or count the
//! overflows of the timer before them, and raise an event when they
//! overflow.
use vstd::prelude::*;
use super::IORegister;
use super::interrupt_controller::{
    InterruptRequest, INTERRUPT_TIMER0_OVERFLOW, INTERRUPT_TIMER1_OVERFLOW, INTERRUPT_TIMER2_OVERFLOW,
    INTERRUPT_TIMER3_OVERFLOW,
};
use super::scheduler::{Event, EventType, Scheduler};

verus! {

/// TMCNT_H: the control of a timer.
#[derive(Clone, Copy, Debug, PartialEq, Eq, Structural)]
pub struct TMCNT {
    pub prescaler: u8,
    pub count_up: bool,
    pub irq: bool,
    pub start: bool,
}

impl TMCNT {
    pub fn new() -> (r: TMCNT)
        ensures
            r == (TMCNT { prescaler: 0, count_up: false, irq: false, start: false }),
    {
        TMCNT { prescaler: 0, count_up: false, irq: false, start: false }
    }

    pub open spec fn wf(&self) -> bool {
        self.prescaler < 4
    }

    /// The register after a write of `value` to its low byte.
    pub open spec fn from_byte(value: u8) -> TMCNT {
        TMCNT { start: value >= 128, irq: (value / 64) % 2 == 1, count_up: (value / 4) % 2 == 1, prescaler: value % 4 }
    }
}

impl IORegister for TMCNT {
    open spec fn read_spec(&self, byte: u8) -> u8 {
        if byte == 0 {
            ((if self.start { 128int } else { 0 }) + (if self.irq { 64int } else { 0 }) + (if self.count_up {
                4int
            } else {
                0
            }) + self.prescaler) as u8
        } else {
            0
        }
    }

    open spec fn has_byte(byte: u8) -> bool {
        byte < 2
    }

    open spec fn write_ok(byte: u8, value: u8) -> bool {
        true
    }

    fn read(&self, byte: u8) -> (r: u8)
        ensures
            byte == 0 && self.wf() ==> r == (if self.start { 128int } else { 0 }) + (if self.irq { 64int } else { 0 })
                + (if self.count_up { 4int } else { 0 }) + self.prescaler,
            byte == 1 ==> r == 0,
    {
        if byte == 0 {
            let s: u32 = if self.start { 128 } else { 0 };
            let i: u32 = if self.irq { 64 } else { 0 };
            let c: u32 = if self.count_up { 4 } else { 0 };
            (s + i + c + self.prescaler as u32) as u8
        } else {
            0
        }
    }

    fn write(&mut self, byte: u8, value: u8)
        ensures
            byte == 0 ==> *final(self) == TMCNT::from_byte(value),
            byte == 1 ==> *final(self) == *old(self),
            final(self).wf() || !old(self).wf() && byte == 1,
    {
        if byte == 0 {
            self.start = value >= 128;
            self.irq = value / 64 % 2 == 1;
            self.count_up = value / 4 % 2 == 1;
            self.prescaler = value % 4;
        }
    }
}

/// The control register reads back what was written to its low byte.
pub proof fn lemma_tmcnt_read_after_write(v: u8)
    ensures
        (if v >= 128 { 128int } else { 0 }) + (if (v / 64) % 2 == 1 { 64int } else { 0 }) + (if (v / 4) % 2 == 1 {
            4int
        } else {
            0
        }) + v % 4 == v & 0xC7,
{
    assert((if v >= 128 { 128u8 } else { 0 }) + (if (v / 64) % 2 == 1 { 64u8 } else { 0 }) + (if (v / 4) % 2 == 1 {
        4u8
    } else {
        0
    }) + v % 4 == v & 0xC7) by (bit_vector);
}

/// The cycles per tick of prescaler setting `p`: 1, 64, 256 or 1024.
pub open spec fn prescaler_cycles(p: u8) -> int {
    if p == 0 {
        1
    } else if p == 1 {
        64
    } else if p == 2 {
        256
    } else {
        1024
    }
}

fn prescaler_exec(p: u8) -> (r: usize)
    ensures
        r == prescaler_cycles(p),
{
    if p == 0 {
        1
    } else if p == 1 {
        64
    } else if p == 2 {
        256
    } else {
        1024
    }
}

/// The cycles that scheduling an overflow event may add to the clock: up
/// to one prescaler period to the first tick, and 0xFFFF more ticks.
pub const MAX_EVENT_DELAY: usize = 0x400_0000;

/// One timer. A running timer that does not count up keeps its count in
/// the time since it started: its `counter` holds the reload value, and
/// the count follows from the cycle.
#[derive(Clone, Copy)]
pub struct Timer {
    pub reload: u16,
    pub cnt: TMCNT,
    pub index: usize,
    pub interrupt: InterruptRequest,
    pub counter: u16,
    pub start_cycle: usize,
    pub time_till_first_clock: usize,
    pub timer_len: usize,
}

impl Timer {
    pub open spec fn wf(&self) -> bool {
        self.cnt.wf()
    }

    /// The ticks of the prescaled clock between the timer's first tick and
    /// `global`, when it has reached its first tick.
    pub open spec fn ticks_at(&self, global: int) -> int {
        (global - self.start_cycle - self.time_till_first_clock) / prescaler_cycles(self.cnt.prescaler)
    }

    /// Whether the count at cycle `global` is defined: the cycle is not
    /// before the start, and the count has not passed 16 bits.
    pub open spec fn count_defined(&self, global: int) -> bool {
        let passed = global - self.start_cycle;
        &&& passed >= 0
        &&& passed >= self.time_till_first_clock ==> self.ticks_at(global) < 0x10000 && self.counter + 1
            + self.ticks_at(global) <= 0xFFFF
    }

    /// The count at cycle `global` of a running timer that does not count
    /// up: one more than the reload value at the first tick, and one more
    /// per tick after it.
    pub open spec fn counter_at(&self, global: int) -> u16 {
        if global - self.start_cycle >= self.time_till_first_clock {
            (self.counter + 1 + self.ticks_at(global)) as u16
        } else {
            self.counter
        }
    }

    /// The count that a read at cycle `global` gives.
    pub open spec fn count_read(&self, global: int) -> u16 {
        if self.cnt.count_up || !self.cnt.start {
            self.counter
        } else {
            self.counter_at(global)
        }
    }

    /// The timer after its overflow is scheduled from cycle `global`: the
    /// first tick syncs to the prescaler one cycle after `global`, and the
    /// overflow comes after the ticks from the reload value to 0xFFFF.
    pub open spec fn scheduled(self, global: int) -> Timer {
        let p = prescaler_cycles(self.cnt.prescaler);
        Timer {
            start_cycle: global as usize,
            time_till_first_clock: (p - (global + 1) % p) as usize,
            timer_len: (p * (0xFFFF - self.reload)) as usize,
            ..self
        }
    }

    /// The cycle of the overflow of a scheduled timer.
    pub open spec fn overflow_cycle(&self) -> int {
        self.start_cycle + self.time_till_first_clock + self.timer_len
    }

    /// The timer and the events after a write of `value` to the control
    /// byte at cycle `global`. A timer that was running stores its count;
    /// one that starts (or keeps running) on the prescaled clock has its
    /// overflow scheduled, one cycle later when it starts; one that starts
    /// counting up starts from its reload value.
    pub open spec fn control_written(self, events: Map<EventType, int>, global: int, value: u8) -> (Timer, Map<
        EventType,
        int,
    >) {
        let t0 = if !self.cnt.count_up && self.cnt.start {
            Timer { counter: self.counter_at(global), ..self }
        } else {
            self
        };
        let c = TMCNT::from_byte(value);
        let t1 = Timer { cnt: c, ..t0 };
        let ev = events.remove(EventType::TimerOverflow(self.index));
        let starts = !self.cnt.start && c.start;
        if !c.count_up {
            if starts {
                let t2 = Timer { counter: t1.reload, ..t1 }.scheduled(global + 1);
                (t2, ev.insert(EventType::TimerOverflow(self.index), t2.overflow_cycle()))
            } else if c.start {
                let t2 = t1.scheduled(global);
                (t2, ev.insert(EventType::TimerOverflow(self.index), t2.overflow_cycle()))
            } else {
                (t1, ev)
            }
        } else if starts {
            (Timer { counter: t1.reload, ..t1 }, ev)
        } else {
            (t1, ev)
        }
    }

    /// The timer and the events after a write of `value` to register byte
    /// `byte` at cycle `global`.
    pub open spec fn written(self, events: Map<EventType, int>, global: int, byte: u8, value: u8) -> (Timer, Map<
        EventType,
        int,
    >) {
        if byte == 0 {
            (Timer { reload: (self.reload / 256 * 256 + value) as u16, ..self }, events)
        } else if byte == 1 {
            (Timer { reload: (self.reload % 256 + value * 256) as u16, ..self }, events)
        } else if byte == 2 {
            self.control_written(events, global, value)
        } else {
            (self, events)
        }
    }

    /// Whether a write of `value` to byte `byte` at cycle `global` is
    /// defined: a running timer's count must be defined when its control
    /// changes, and the overflow must be schedulable within the clock's
    /// range.
    pub open spec fn write_defined(&self, global: int, byte: u8) -> bool {
        &&& byte == 2 && !self.cnt.count_up && self.cnt.start ==> self.count_defined(global)
        &&& global + 1 + MAX_EVENT_DELAY <= usize::MAX
    }

    /// The byte that a read of register byte `byte` at cycle `global` gives.
    pub open spec fn register_byte(&self, global: int, byte: u8) -> u8 {
        let c = if !self.cnt.count_up && self.cnt.start && !self.count_defined(global) {
            self.counter
        } else {
            self.count_read(global)
        };
        if byte == 0 {
            (c % 256) as u8
        } else if byte == 1 {
            (c / 256) as u8
        } else {
            self.cnt.read_spec((byte - 2) as u8)
        }
    }

    pub fn count_defined_exec(&self, global: usize) -> (r: bool)
        requires
            self.wf(),
        ensures
            r == self.count_defined(global as int),
    {
        if global < self.start_cycle {
            return false;
        }
        let passed = global - self.start_cycle;
        if passed >= self.time_till_first_clock {
            let ticks = (passed - self.time_till_first_clock) / prescaler_exec(self.cnt.prescaler);
            ticks < 0x10000 && self.counter as usize + 1 + ticks <= 0xFFFF
        } else {
            true
        }
    }

    /// A read of register byte `byte`; a count that is not defined reads as
    /// the stored one.
    pub fn read_register(&self, scheduler: &Scheduler, byte: u8) -> (r: u8)
        requires
            self.wf(),
            byte < 4,
        ensures
            r == self.register_byte(scheduler.cycle as int, byte),
    {
        if !self.cnt.count_up && self.cnt.start && !self.count_defined_exec(scheduler.cycle) {
            if byte == 0 {
                (self.counter % 256) as u8
            } else if byte == 1 {
                (self.counter / 256) as u8
            } else {
                self.cnt.read(byte - 2)
            }
        } else {
            self.read(scheduler, byte)
        }
    }

    pub fn new(index: usize, interrupt: InterruptRequest) -> (r: Timer)
        ensures
            r.wf(),
            r == (Timer {
                reload: 0,
                cnt: TMCNT { prescaler: 0, count_up: false, irq: false, start: false },
                index,
                interrupt,
                counter: 0,
                start_cycle: 0,
                time_till_first_clock: 0,
                timer_len: 0,
            }),
    {
        Timer {
            reload: 0,
            cnt: TMCNT::new(),
            index,
            interrupt,
            counter: 0,
            start_cycle: 0,
            time_till_first_clock: 0,
            timer_len: 0,
        }
    }

    /// One overflow of the timer before a counting-up timer: while it
    /// runs, it counts one up, and when it overflows it starts over from
    /// the reload value and reports the overflow.
    pub fn clock(&mut self) -> (r: bool)
        requires
            old(self).cnt.count_up,
        ensures
            !old(self).cnt.start ==> !r && *final(self) == *old(self),
            old(self).cnt.start ==> r == (old(self).counter == 0xFFFF) && *final(self) == (Timer {
                counter: if r { old(self).reload } else { (old(self).counter + 1) as u16 },
                ..*old(self)
            }),
    {
        if self.cnt.start {
            if self.counter == 0xFFFF {
                self.counter = self.reload;
                return true;
            } else {
                self.counter = self.counter + 1;
            }
        }
        false
    }

    fn calc_counter(&self, global_cycle: usize) -> (r: u16)
        requires
            self.wf(),
            self.count_defined(global_cycle as int),
        ensures
            r == self.counter_at(global_cycle as int),
    {
        let cycles_passed = global_cycle - self.start_cycle;
        if cycles_passed >= self.time_till_first_clock {
            let cycles_passed = cycles_passed - self.time_till_first_clock;
            let counter_change = cycles_passed / prescaler_exec(self.cnt.prescaler);
            self.counter + 1 + counter_change as u16
        } else {
            self.counter
        }
    }

    /// Starts the count over from the reload value.
    pub fn reload(&mut self)
        ensures
            *final(self) == (Timer { counter: old(self).reload, ..*old(self) }),
    {
        self.counter = self.reload;
    }

    /// Schedules the overflow of the timer, `delay` cycles from now.
    pub fn create_event(&mut self, scheduler: &mut Scheduler, delay: usize)
        requires
            old(self).wf(),
            old(scheduler).cycle + delay + MAX_EVENT_DELAY <= usize::MAX,
        ensures
            final(self).wf(),
            *final(self) == old(self).scheduled(old(scheduler).cycle + delay),
            final(scheduler).cycle == old(scheduler).cycle,
            final(scheduler).events() == old(scheduler).events().insert(
                EventType::TimerOverflow(old(self).index),
                final(self).overflow_cycle(),
            ),
    {
        let global_cycle = scheduler.cycle + delay;
        self.start_cycle = global_cycle;
        let prescaler = prescaler_exec(self.cnt.prescaler);
        self.time_till_first_clock = prescaler - (global_cycle + 1) % prescaler;
        assert(prescaler * (0x10000 - self.reload - 1) <= 1024 * 0xFFFF) by (nonlinear_arith)
            requires
                prescaler <= 1024,
                0 <= 0x10000 - self.reload - 1 <= 0xFFFF,
        ;
        self.timer_len = prescaler * (0x10000 - self.reload as usize - 1);
        scheduler.add(
            Event {
                cycle: global_cycle + self.time_till_first_clock + self.timer_len,
                event_type: EventType::TimerOverflow(self.index),
            },
        );
    }

    pub fn is_count_up(&self) -> (r: bool)
        ensures
            r == self.cnt.count_up,
    {
        self.cnt.count_up
    }

    /// Byte `byte` of the timer's registers: the count, then the control.
    pub fn read(&self, scheduler: &Scheduler, byte: u8) -> (r: u8)
        requires
            self.wf(),
            byte < 4,
            !self.cnt.count_up && self.cnt.start ==> self.count_defined(scheduler.cycle as int),
        ensures
            byte == 0 ==> r == self.count_read(scheduler.cycle as int) % 256,
            byte == 1 ==> r == self.count_read(scheduler.cycle as int) / 256,
            byte >= 2 ==> r == self.cnt.read_spec((byte - 2) as u8),
    {
        let global_cycle = scheduler.cycle;
        let counter = if self.is_count_up() || !self.cnt.start {
            self.counter
        } else {
            self.calc_counter(global_cycle)
        };
        if byte == 0 {
            (counter % 256) as u8
        } else if byte == 1 {
            (counter / 256) as u8
        } else {
            self.cnt.read(byte - 2)
        }
    }

    /// Writes byte `byte` of the timer's registers: the reload value, then
    /// the control.
    pub fn write(&mut self, scheduler: &mut Scheduler, byte: u8, value: u8)
        requires
            old(self).wf(),
            byte < 4,
            byte == 2 && !old(self).cnt.count_up && old(self).cnt.start ==> old(self).count_defined(
                old(scheduler).cycle as int,
            ),
            old(scheduler).cycle + 1 + MAX_EVENT_DELAY <= usize::MAX,
        ensures
            final(self).wf(),
            final(scheduler).cycle == old(scheduler).cycle,
            byte == 0 ==> *final(self) == (Timer { reload: (old(self).reload / 256 * 256 + value) as u16, ..*old(self) })
                && final(scheduler).events() == old(scheduler).events(),
            byte == 1 ==> *final(self) == (Timer { reload: (old(self).reload % 256 + value * 256) as u16, ..*old(self) })
                && final(scheduler).events() == old(scheduler).events(),
            byte == 2 ==> (*final(self), final(scheduler).events()) == old(self).control_written(
                old(scheduler).events(),
                old(scheduler).cycle as int,
                value,
            ),
            byte == 3 ==> *final(self) == *old(self) && final(scheduler).events() == old(scheduler).events(),
            (*final(self), final(scheduler).events()) == old(self).written(
                old(scheduler).events(),
                old(scheduler).cycle as int,
                byte,
                value,
            ),
    {
        let global_cycle = scheduler.cycle;
        if byte == 0 {
            self.reload = self.reload / 256 * 256 + value as u16;
        } else if byte == 1 {
            self.reload = self.reload % 256 + value as u16 * 256;
        } else if byte == 2 {
            scheduler.remove(EventType::TimerOverflow(self.index));
            let prev_start = self.cnt.start;
            if !self.is_count_up() && self.cnt.start {
                self.counter = self.calc_counter(global_cycle);
            }
            self.cnt.write(0, value);
            if !self.is_count_up() {
                if !prev_start && self.cnt.start {
                    self.reload();
                    self.create_event(scheduler, 1);
                } else if self.cnt.start {
                    self.create_event(scheduler, 0);
                }
            } else {
                if !prev_start && self.cnt.start {
                    self.counter = self.reload;
                }
            }
        } else {
            self.cnt.write(1, value);
        }
    }
}

/// The four timers.
pub struct Timers {
    pub timers: Vec<Timer>,
}

impl Timers {
    /// Four timers, each knowing its number and its interrupt.
    pub open spec fn wf(&self) -> bool {
        &&& self.timers@.len() == 4
        &&& forall|i: int| 0 <= i < 4 ==> (#[trigger] self.timers@[i]).wf() && self.timers@[i].index == i
    }

    pub fn is_wf(&self) -> (r: bool)
        ensures
            r == self.wf(),
    {
        if self.timers.len() != 4 {
            return false;
        }
        let mut i: usize = 0;
        while i < 4
            invariant
                self.timers@.len() == 4,
                i <= 4,
                forall|j: int| 0 <= j < i ==> (#[trigger] self.timers@[j]).wf() && self.timers@[j].index == j,
            decreases 4 - i,
        {
            if !(self.timers[i].cnt.prescaler < 4 && self.timers[i].index == i) {
                return false;
            }
            i = i + 1;
        }
        true
    }

    pub fn new() -> (r: Timers)
        ensures
            r.wf(),
            r.timers@[0].interrupt.bits == INTERRUPT_TIMER0_OVERFLOW,
            r.timers@[1].interrupt.bits == INTERRUPT_TIMER1_OVERFLOW,
            r.timers@[2].interrupt.bits == INTERRUPT_TIMER2_OVERFLOW,
            r.timers@[3].interrupt.bits == INTERRUPT_TIMER3_OVERFLOW,
            forall|i: int| 0 <= i < 4 ==> !(#[trigger] r.timers@[i]).cnt.start && r.timers@[i].counter == 0
                && r.timers@[i].reload == 0,
    {
        let timers = vec![
            Timer::new(0, InterruptRequest { bits: INTERRUPT_TIMER0_OVERFLOW }),
            Timer::new(1, InterruptRequest { bits: INTERRUPT_TIMER1_OVERFLOW }),
            Timer::new(2, InterruptRequest { bits: INTERRUPT_TIMER2_OVERFLOW }),
            Timer::new(3, InterruptRequest { bits: INTERRUPT_TIMER3_OVERFLOW }),
        ];
        Timers { timers }
    }
}

/// A timer on the prescaled clock counts one up per prescaler period:
/// once past its first tick, the count a period later is one more (while
/// it stays within 16 bits).
pub proof fn lemma_timer_counts_per_period(t: Timer, global: int)
    requires
        t.wf(),
        global - t.start_cycle >= t.time_till_first_clock,
        t.counter + 1 + t.ticks_at(global + prescaler_cycles(t.cnt.prescaler)) <= 0xFFFF,
    ensures
        t.counter_at(global + prescaler_cycles(t.cnt.prescaler)) == t.counter_at(global) + 1,
{
    let p = prescaler_cycles(t.cnt.prescaler);
    let a = global - t.start_cycle - t.time_till_first_clock;
    assert((a + p) / p == a / p + 1) by (nonlinear_arith)
        requires
            p > 0,
            a >= 0,
    ;
    assert(a / p >= 0) by (nonlinear_arith)
        requires
            p > 0,
            a >= 0,
    ;
}

} // verus!
