//! What the bus does when a scheduled event comes due: a timer overflow
//! requests its interrupt, clocks the counting-up timer after it and
//! schedules the next overflow; a step of the frame sequencer schedules the
//! next step.
use vstd::prelude::*;
use super::scheduler::{earliest_at, Event, EventType, Scheduler};
use super::system::IO;
use super::timers::{prescaler_cycles, Timer, MAX_EVENT_DELAY};
use super::interrupt_controller::INTERRUPT_KEYPAD;
use super::keypad::keypad_irq;

verus! {

/// The cycles between two steps of the frame sequencer.
pub const SEQUENCER_STEP_CYCLES: usize = 32768;

/// The timers and interrupt requests after timer `t` overflows with the
/// requests `req`: its interrupt is requested if it asks for one, and the
/// next timer, when it counts up and runs, counts one overflow, which may
/// overflow it in turn.
pub open spec fn cascade(timers: Seq<Timer>, t: int, req: u16) -> (Seq<Timer>, u16)
    decreases 4 - t,
{
    if 0 <= t < 4 {
        let req1 = if timers[t].cnt.irq { req | timers[t].interrupt.bits } else { req };
        if t + 1 < 4 && timers[t + 1].cnt.count_up && timers[t + 1].cnt.start {
            let n = timers[t + 1];
            if n.counter == 0xFFFF {
                cascade(timers.update(t + 1, Timer { counter: n.reload, ..n }), t + 1, req1)
            } else {
                (timers.update(t + 1, Timer { counter: (n.counter + 1) as u16, ..n }), req1)
            }
        } else {
            (timers, req1)
        }
    } else {
        (timers, req)
    }
}

/// The cascade leaves the timers up to `t` as they were.
proof fn lemma_cascade_keeps_earlier(timers: Seq<Timer>, t: int, req: u16, j: int)
    requires
        0 <= j <= t,
        timers.len() == 4,
    ensures
        cascade(timers, t, req).0.len() == 4,
        cascade(timers, t, req).0[j] == timers[j],
    decreases 4 - t,
{
    if 0 <= t < 4 && t + 1 < 4 && timers[t + 1].cnt.count_up && timers[t + 1].cnt.start {
        let n = timers[t + 1];
        if n.counter == 0xFFFF {
            lemma_cascade_keeps_earlier(timers.update(t + 1, Timer { counter: n.reload, ..n }), t + 1, req1_of(timers, t, req), j);
        }
    }
}

spec fn req1_of(timers: Seq<Timer>, t: int, req: u16) -> u16 {
    if timers[t].cnt.irq { req | timers[t].interrupt.bits } else { req }
}

/// `new` is `old` after `event` is handled: a timer overflow cascades as
/// `overflow_handled` says (an event of a timer that does not exist changes
/// nothing), and a step of the frame sequencer schedules the next one.
pub open spec fn event_handled(old: &IO, new: &IO, event: EventType) -> bool {
    &&& new.wf()
    &&& new.same_but_timing(old)
    &&& new.scheduler.cycle == old.scheduler.cycle
    &&& event matches EventType::TimerOverflow(t) ==> (t >= 4 ==> *new == *old)
    &&& event matches EventType::TimerOverflow(t) ==> (t < 4 ==> old.overflow_handled(new, t as int))
    &&& event matches EventType::FrameSequencer(s) ==> {
        &&& new.timers == old.timers
        &&& new.interrupt_controller == old.interrupt_controller
        &&& new.scheduler.events() == old.scheduler.events().insert(
            EventType::FrameSequencer(((s % 8 + 1) % 8) as usize),
            old.scheduler.cycle + SEQUENCER_STEP_CYCLES,
        )
    }
}

/// `a`'s earliest waiting event `e` is due at the current cycle and leaves
/// the queue, which gives `m`; nothing else changes.
pub open spec fn event_taken(a: IO, m: IO, e: EventType) -> bool {
    &&& earliest_at(a.scheduler.events(), a.scheduler.cycle as int)
    &&& a.scheduler.events().contains_key(e) && a.scheduler.events()[e] == a.scheduler.cycle
    &&& m.scheduler.events() == a.scheduler.events().remove(e)
    &&& m.scheduler.cycle == a.scheduler.cycle
    &&& (IO { scheduler: a.scheduler, ..m }) == a
}

/// From `a` to `b`, one due event is taken out of the queue and handled.
pub open spec fn due_event_handled(a: IO, b: IO) -> bool {
    exists|e: EventType, m: IO| #[trigger] event_taken(a, m, e) && event_handled(&m, &b, e)
}

/// Step `i` of `s` handles one due event.
pub open spec fn event_step(s: Seq<IO>, i: int) -> bool {
    due_event_handled(s[i], s[i + 1])
}

/// Each state of `s` follows from the one before by the handling of a due
/// event.
pub open spec fn events_run(s: Seq<IO>) -> bool {
    &&& s.len() >= 1
    &&& forall|i: int| 0 <= i < s.len() - 1 ==> #[trigger] event_step(s, i)
}

/// Whether an event of `m` happens at cycle `c`.
pub open spec fn happens_at(m: Map<EventType, int>, c: int) -> spec_fn(EventType) -> bool {
    |e: EventType| m[e] == c
}

/// The number of the events `m` that happen at cycle `c`.
pub open spec fn due_count(m: Map<EventType, int>, c: int) -> nat {
    m.dom().filter(happens_at(m, c)).len()
}

/// Taking out a due event leaves one fewer due.
proof fn lemma_due_remove(m: Map<EventType, int>, c: int, e: EventType)
    requires
        m.dom().finite(),
        m.contains_key(e),
        m[e] == c,
    ensures
        due_count(m.remove(e), c) + 1 == due_count(m, c),
{
    let r = m.remove(e);
    let f1 = happens_at(m, c);
    let f2 = happens_at(r, c);
    m.dom().lemma_len_filter(f1);
    assert(r.dom().filter(f2) =~= m.dom().filter(f1).remove(e));
    assert(m.dom().filter(f1).contains(e));
}

/// Scheduling an event for another cycle adds none that is due.
proof fn lemma_due_insert_other(m: Map<EventType, int>, c: int, k: EventType, t: int)
    requires
        m.dom().finite(),
        t != c,
    ensures
        due_count(m.insert(k, t), c) <= due_count(m, c),
{
    let r = m.insert(k, t);
    let f1 = happens_at(m, c);
    let f2 = happens_at(r, c);
    m.dom().lemma_len_filter(f1);
    assert(r.dom().filter(f2) =~= m.dom().filter(f1).remove(k));
    vstd::set_lib::lemma_len_subset(m.dom().filter(f1).remove(k), m.dom().filter(f1));
}

/// A timer scheduled at cycle `c` overflows after it.
proof fn lemma_overflow_later(t: Timer, c: int)
    requires
        0 <= c <= usize::MAX,
        t.cnt.prescaler < 4,
    ensures
        t.scheduled(c).overflow_cycle() > c,
{
    let p = prescaler_cycles(t.cnt.prescaler);
    assert(p * (0xFFFF - t.reload) <= 1024 * 0xFFFF && p * (0xFFFF - t.reload) >= 0) by (nonlinear_arith)
        requires
            1 <= p <= 1024,
            0 <= t.reload <= 0xFFFF,
    ;
}

/// Handling a due event leaves no more events due than before.
proof fn lemma_handled_due(m: IO, b: IO, e: EventType)
    requires
        m.wf(),
        event_handled(&m, &b, e),
        m.scheduler.events().dom().finite(),
    ensures
        due_count(b.scheduler.events(), m.scheduler.cycle as int) <= due_count(
            m.scheduler.events(),
            m.scheduler.cycle as int,
        ),
{
    let c = m.scheduler.cycle as int;
    match e {
        EventType::TimerOverflow(t) => {
            if t < 4 {
                let (ts, req) = cascade(m.timers.timers@, t as int, m.interrupt_controller.request.bits);
                lemma_cascade_keeps_earlier(m.timers.timers@, t as int, m.interrupt_controller.request.bits, t as int);
                if !ts[t as int].cnt.count_up {
                    let tt = Timer { counter: ts[t as int].reload, ..ts[t as int] };
                    lemma_overflow_later(tt, c);
                    lemma_due_insert_other(m.scheduler.events(), c, e, tt.scheduled(c).overflow_cycle());
                }
            }
        },
        EventType::FrameSequencer(s) => {
            lemma_due_insert_other(
                m.scheduler.events(),
                c,
                EventType::FrameSequencer(((s % 8 + 1) % 8) as usize),
                c + SEQUENCER_STEP_CYCLES,
            );
        },
    }
}

impl IO {
    /// The bus is `old` but for the timers, the scheduler and the interrupt
    /// requests.
    pub open spec fn same_but_timing(&self, old: &IO) -> bool {
        (IO {
            timers: old.timers,
            scheduler: old.scheduler,
            interrupt_controller: old.interrupt_controller,
            ..*self
        }) == *old && self.interrupt_controller.enable == old.interrupt_controller.enable
            && self.interrupt_controller.master_enable == old.interrupt_controller.master_enable
    }

    /// `new` is this bus after the overflow of timer `t` is handled: the
    /// cascade's timers and requests, and timer `t`, unless it counts up,
    /// back at its reload value with its next overflow scheduled.
    pub open spec fn overflow_handled(&self, new: &IO, t: int) -> bool {
        let (ts, req) = cascade(self.timers.timers@, t, self.interrupt_controller.request.bits);
        let tt = Timer { counter: ts[t].reload, ..ts[t] }.scheduled(self.scheduler.cycle as int);
        &&& new.interrupt_controller.request.bits == req
        &&& !ts[t].cnt.count_up ==> new.timers.timers@ == ts.update(t, tt) && new.scheduler.events()
            == self.scheduler.events().insert(EventType::TimerOverflow(t as usize), tt.overflow_cycle())
        &&& ts[t].cnt.count_up ==> new.timers.timers@ == ts && new.scheduler == self.scheduler
    }

    /// The overflow of timer `timer` and what it cascades into.
    fn handle_overflow(&mut self, timer: usize)
        requires
            old(self).wf(),
            timer < 4,
        ensures
            final(self).wf(),
            final(self).same_but_timing(old(self)),
            final(self).scheduler == old(self).scheduler,
            final(self).timers.timers@ == cascade(old(self).timers.timers@, timer as int, old(
                self,
            ).interrupt_controller.request.bits).0,
            final(self).interrupt_controller.request.bits == cascade(
                old(self).timers.timers@,
                timer as int,
                old(self).interrupt_controller.request.bits,
            ).1,
        decreases 4 - timer,
    {
        let t = self.timers.timers[timer];
        if t.cnt.irq {
            self.interrupt_controller.request(t.interrupt.bits);
        }
        if timer + 1 < 4 && self.timers.timers[timer + 1].is_count_up() {
            let mut n = self.timers.timers[timer + 1];
            let ghost before = self.timers.timers@;
            let fired = n.clock();
            self.timers.timers.set(timer + 1, n);
            proof {
                assert forall|i: int| 0 <= i < 4 implies (#[trigger] self.timers.timers@[i]).wf()
                    && self.timers.timers@[i].index == i by {
                    if i != timer + 1 {
                        assert(self.timers.timers@[i] == before[i]);
                    }
                }
            }
            if fired {
                self.handle_overflow(timer + 1);
            }
        }
    }

    /// Handles `event`, which has come due: a timer overflow cascades, and a
    /// timer on the prescaled clock starts over from its reload value with
    /// its next overflow scheduled; a step of the frame sequencer schedules
    /// the next one (the sound unit steps its sequencer itself).
    pub fn handle_event(&mut self, event: EventType)
        requires
            old(self).wf(),
            old(self).scheduler.cycle + MAX_EVENT_DELAY <= usize::MAX,
        ensures
            event_handled(old(self), final(self), event),
    {
        match event {
            EventType::TimerOverflow(timer) => {
                if timer < 4 {
                    self.handle_overflow(timer);
                    proof {
                        lemma_cascade_keeps_earlier(
                            old(self).timers.timers@,
                            timer as int,
                            old(self).interrupt_controller.request.bits,
                            timer as int,
                        );
                    }
                    if !self.timers.timers[timer].is_count_up() {
                        let ghost before = self.timers.timers@;
                        let mut t = self.timers.timers[timer];
                        t.reload();
                        t.create_event(&mut self.scheduler, 0);
                        self.timers.timers.set(timer, t);
                        proof {
                            assert forall|i: int| 0 <= i < 4 implies (#[trigger] self.timers.timers@[i]).wf()
                                && self.timers.timers@[i].index == i by {
                                if i != timer {
                                    assert(self.timers.timers@[i] == before[i]);
                                }
                            }
                        }
                    }
                }
            },
            EventType::FrameSequencer(step) => {
                self.scheduler.add(
                    Event {
                        cycle: self.scheduler.cycle + SEQUENCER_STEP_CYCLES,
                        event_type: EventType::FrameSequencer((step % 8 + 1) % 8),
                    },
                );
            },
        }
    }

    /// One cycle of the scheduler: the clock moves on and the events that
    /// come due are handled, earliest first, until none is due. The clock
    /// stops where a timer overflow could no longer be scheduled.
    pub fn handle_events(&mut self)
        requires
            old(self).wf(),
        ensures
            final(self).wf(),
            final(self).same_but_timing(old(self)),
            final(self).scheduler.cycle == (if old(self).scheduler.cycle + 1 + MAX_EVENT_DELAY <= usize::MAX {
                old(self).scheduler.cycle + 1
            } else {
                old(self).scheduler.cycle as int
            }),
            old(self).scheduler.cycle + 1 + MAX_EVENT_DELAY > usize::MAX ==> *final(self) == *old(self),
            old(self).scheduler.cycle + 1 + MAX_EVENT_DELAY <= usize::MAX ==> {
                &&& exists|s: Seq<IO>|
                    #[trigger] events_run(s) && s[0] == (IO {
                        scheduler: Scheduler { cycle: (old(self).scheduler.cycle + 1) as usize, ..old(self).scheduler },
                        ..*old(self)
                    }) && s.last() == *final(self)
                &&& !earliest_at(final(self).scheduler.events(), final(self).scheduler.cycle as int)
            },
    {
        if self.scheduler.cycle > usize::MAX - 1 - MAX_EVENT_DELAY {
            return;
        }
        self.scheduler.cycle = self.scheduler.cycle + 1;
        let ghost s1 = *self;
        let ghost c = self.scheduler.cycle as int;
        let ghost mut states: Seq<IO> = seq![*self];
        let ghost mut before = *self;
        let mut next = self.scheduler.get_next_event();
        while next.is_some()
            invariant
                self.wf(),
                self.same_but_timing(old(self)),
                self.scheduler.cycle == s1.scheduler.cycle,
                c == s1.scheduler.cycle,
                self.scheduler.cycle + MAX_EVENT_DELAY <= usize::MAX,
                s1 == (IO {
                    scheduler: Scheduler { cycle: (old(self).scheduler.cycle + 1) as usize, ..old(self).scheduler },
                    ..*old(self)
                }),
                events_run(states),
                states[0] == s1,
                states.last() == before,
                before.wf(),
                before.scheduler.events().dom().finite(),
                next matches Some(e) ==> event_taken(before, *self, e),
                next is None ==> *self == before && !earliest_at(before.scheduler.events(), c),
            decreases due_count(self.scheduler.events(), c) + (if next is Some { 1nat } else { 0nat }),
        {
            let event = next.unwrap();
            let ghost m = *self;
            proof {
                lemma_due_remove(before.scheduler.events(), c, event);
            }
            self.handle_event(event);
            let ghost b = *self;
            proof {
                lemma_handled_due(m, b, event);
                assert(event_taken(before, m, event) && event_handled(&m, &b, event));
                assert(due_event_handled(before, b));
                lemma_events_run_push(states, b);
                states = states.push(b);
                before = b;
            }
            next = self.scheduler.get_next_event();
            proof {
                if next is Some {
                    lemma_due_remove(b.scheduler.events(), c, next->0);
                }
            }
        }
        assert(events_run(states) && states[0] == s1 && states.last() == *self);
    }

    /// Folds the keypad's interrupt into IF, then tells whether an
    /// interrupt reaches the processor: the master enable is set and a
    /// requested source is enabled.
    pub fn interrupts_requested(&mut self) -> (r: bool)
        ensures
            final(self).interrupt_controller.request.bits == (if keypad_irq(
                old(self).keypad.keycnt.bits,
                old(self).keypad.keyinput.bits,
            ) {
                old(self).interrupt_controller.request.bits | INTERRUPT_KEYPAD
            } else {
                old(self).interrupt_controller.request.bits
            }),
            final(self).interrupt_controller.enable == old(self).interrupt_controller.enable,
            final(self).interrupt_controller.master_enable == old(self).interrupt_controller.master_enable,
            (IO { interrupt_controller: old(self).interrupt_controller, ..*final(self) }) == *old(self),
            r == final(self).interrupt_controller.pending(),
    {
        if self.keypad.interrupt_requested() {
            self.interrupt_controller.request(INTERRUPT_KEYPAD);
        }
        self.interrupt_controller.interrupts_requested()
    }
}

/// One more state, reached by the handling of a due event, extends a run.
proof fn lemma_events_run_push(s: Seq<IO>, b: IO)
    requires
        events_run(s),
        due_event_handled(s.last(), b),
    ensures
        events_run(s.push(b)),
{
    let t = s.push(b);
    assert forall|i: int| 0 <= i < t.len() - 1 implies #[trigger] event_step(t, i) by {
        if i < s.len() - 1 {
            assert(event_step(s, i));
            assert(t[i] == s[i] && t[i + 1] == s[i + 1]);
        } else {
            assert(t[i] == s.last() && t[i + 1] == b);
        }
    }
}

} // verus!
