//! The event scheduler: events wait in a priority queue, keyed by the
//! cycle at which they happen, until the clock reaches that cycle.
use vstd::prelude::*;
use priority_queue::PriorityQueue;

verus! {

#[verifier::external_type_specification]
#[verifier::external_body]
#[verifier::reject_recursive_types(I)]
#[verifier::reject_recursive_types(P)]
#[verifier::reject_recursive_types(H)]
pub struct ExPriorityQueue<I, P, H>(PriorityQueue<I, P, H>);

/// Queue items and their priorities.
pub type QueueItems = Map<(bool, usize), usize>;

/// The items of the queue and their priorities.
pub uninterp spec fn queue_contents(q: PriorityQueue<(bool, usize), usize>) -> QueueItems;

/// Whether `p` is the greatest priority in `m`.
pub open spec fn is_top(m: Map<(bool, usize), usize>, p: usize) -> bool {
    forall|k: (bool, usize)| #[trigger] m.contains_key(k) ==> m[k] <= p
}

/// `PriorityQueue::new`: an empty queue.
#[verifier::external_body]
fn queue_new() -> (r: PriorityQueue<(bool, usize), usize>)
    ensures
        queue_contents(r) == QueueItems::empty(),
{
    PriorityQueue::new()
}

/// `PriorityQueue::push`: inserts the item with the priority, or gives an
/// item already there the new priority; returns the old priority then.
#[verifier::external_body]
fn queue_push(q: &mut PriorityQueue<(bool, usize), usize>, item: (bool, usize), priority: usize) -> (r: Option<usize>)
    ensures
        queue_contents(*final(q)) == queue_contents(*old(q)).insert(item, priority),
        r == (if queue_contents(*old(q)).contains_key(item) {
            Some(queue_contents(*old(q))[item])
        } else {
            None
        }),
{
    q.push(item, priority)
}

/// `PriorityQueue::peek`: an item of the greatest priority, with its
/// priority, or `None` when the queue is empty. Which of several items of
/// that priority it gives is not stated.
#[verifier::external_body]
fn queue_peek(q: &PriorityQueue<(bool, usize), usize>) -> (r: Option<((bool, usize), usize)>)
    ensures
        r is None <==> queue_contents(*q) == QueueItems::empty(),
        r matches Some((i, p)) ==> queue_contents(*q).contains_key(i) && queue_contents(*q)[i] == p && is_top(
            queue_contents(*q),
            p,
        ),
{
    match q.peek() {
        Some((i, p)) => Some((*i, *p)),
        None => None,
    }
}

/// Whether `m` holds finitely many items, `n` of them.
pub open spec fn counts(m: QueueItems, n: usize) -> bool {
    m.dom().finite() && m.len() == n
}

/// `PriorityQueue::len`: the number of items, of which the queue holds
/// finitely many (they live in its `IndexMap`).
#[verifier::external_body]
fn queue_len(q: &PriorityQueue<(bool, usize), usize>) -> (r: usize)
    ensures
        counts(queue_contents(*q), r),
{
    q.len()
}

/// `PriorityQueue::pop`: removes an item of the greatest priority and
/// returns it with its priority, or `None` when the queue is empty.
#[verifier::external_body]
fn queue_pop(q: &mut PriorityQueue<(bool, usize), usize>) -> (r: Option<((bool, usize), usize)>)
    ensures
        r is None <==> queue_contents(*old(q)) == QueueItems::empty(),
        r is None ==> queue_contents(*final(q)) == queue_contents(*old(q)),
        r matches Some((i, p)) ==> {
            &&& queue_contents(*old(q)).contains_key(i)
            &&& queue_contents(*old(q))[i] == p
            &&& is_top(queue_contents(*old(q)), p)
            &&& queue_contents(*final(q)) == queue_contents(*old(q)).remove(i)
        },
{
    q.pop()
}

/// `PriorityQueue::remove`: takes the item out, returning it with its
/// priority, or `None` when it is not there.
#[verifier::external_body]
fn queue_remove(q: &mut PriorityQueue<(bool, usize), usize>, item: (bool, usize)) -> (r: Option<((bool, usize), usize)>)
    ensures
        queue_contents(*final(q)) == queue_contents(*old(q)).remove(item),
        r == (if queue_contents(*old(q)).contains_key(item) {
            Some((item, queue_contents(*old(q))[item]))
        } else {
            None
        }),
{
    q.remove(&item)
}

/// The kinds of scheduled events.
#[derive(Clone, Copy, Debug, PartialEq, Eq, Hash, Structural)]
pub enum EventType {
    TimerOverflow(usize),
    FrameSequencer(usize),
}

/// An event and the cycle at which it happens.
#[derive(Clone, Copy, Debug, PartialEq, Eq, Structural)]
pub struct Event {
    pub cycle: usize,
    pub event_type: EventType,
}

/// The queue item of an event type: its kind and its number.
pub open spec fn event_key(e: EventType) -> (bool, usize) {
    match e {
        EventType::TimerOverflow(t) => (false, t),
        EventType::FrameSequencer(s) => (true, s),
    }
}

/// The event type of a queue item.
pub open spec fn key_event(k: (bool, usize)) -> EventType {
    if !k.0 {
        EventType::TimerOverflow(k.1)
    } else {
        EventType::FrameSequencer(k.1)
    }
}

fn event_key_exec(e: EventType) -> (r: (bool, usize))
    ensures
        r == event_key(e),
{
    match e {
        EventType::TimerOverflow(t) => (false, t),
        EventType::FrameSequencer(s) => (true, s),
    }
}

fn key_event_exec(k: (bool, usize)) -> (r: EventType)
    ensures
        r == key_event(k),
{
    if !k.0 {
        EventType::TimerOverflow(k.1)
    } else {
        EventType::FrameSequencer(k.1)
    }
}

/// The queue's priority of an event at `cycle`: the earlier, the higher.
pub open spec fn cycle_priority(cycle: usize) -> usize {
    (usize::MAX - cycle) as usize
}

/// Whether the earliest of the events `m` happens at cycle `c`.
pub open spec fn earliest_at(m: Map<EventType, int>, c: int) -> bool {
    exists|e: EventType|
        m.contains_key(e) && m[e] == c && forall|f: EventType| #[trigger] m.contains_key(f) ==> m[f] >= c
}

/// The clock, and the events waiting for their cycle.
pub struct Scheduler {
    pub cycle: usize,
    pub event_queue: PriorityQueue<(bool, usize), usize>,
}

impl Scheduler {
    /// The events waiting, each with the cycle at which it happens.
    pub open spec fn events(&self) -> Map<EventType, int> {
        let m = queue_contents(self.event_queue);
        Map::new(
            |e: EventType| m.contains_key(event_key(e)),
            |e: EventType| usize::MAX - m[event_key(e)],
        )
    }

    /// The clock at cycle 0, with the first step of the frame sequencer
    /// waiting for the cycle at which it happens, 1/512 of a second in.
    pub fn new() -> (r: Scheduler)
        ensures
            r.cycle == 0,
            r.events() == Map::empty().insert(EventType::FrameSequencer(0), 32768int),
    {
        let mut queue = queue_new();
        queue_push(&mut queue, (true, 0usize), usize::MAX - 32768);
        let r = Scheduler { cycle: 0, event_queue: queue };
        proof {
            assert(r.events() =~= Map::empty().insert(EventType::FrameSequencer(0), 32768int));
        }
        r
    }

    /// The earliest event, taken out of the queue, when it happens at the
    /// current cycle; `None` otherwise, and when nothing is waiting.
    pub fn get_next_event(&mut self) -> (r: Option<EventType>)
        ensures
            final(self).cycle == old(self).cycle,
            old(self).events().dom().finite(),
            r is None ==> *final(self) == *old(self) && !earliest_at(old(self).events(), old(self).cycle as int),
            r matches Some(e) ==> {
                &&& earliest_at(old(self).events(), old(self).cycle as int)
                &&& old(self).events().contains_key(e)
                &&& old(self).events()[e] == old(self).cycle
                &&& final(self).events() == old(self).events().remove(e)
            },
    {
        let ghost m0 = queue_contents(self.event_queue);
        let ghost ev = old(self).events();
        let waiting = queue_len(&self.event_queue);
        proof {
            lemma_events_finite(old(self));
        }
        if waiting == 0 {
            proof {
                assert(m0.dom() =~= Set::<(bool, usize)>::empty());
                assert(ev.dom() =~= Set::<EventType>::empty());
            }
            return None;
        }
        let top = queue_peek(&self.event_queue);
        let (item, priority) = match top {
            Some(t) => t,
            None => {
                proof {
                    assert(ev.dom() =~= Set::<EventType>::empty());
                }
                return None;
            },
        };
        if priority == usize::MAX - self.cycle {
            let popped = queue_pop(&mut self.event_queue);
            match popped {
                Some((k, p)) => {
                    proof {
                        {
                            lemma_key_roundtrip(k, m0);
                            lemma_key_injective();
                            assert(p == priority);
                            assert(self.events() =~= ev.remove(key_event(k)));
                            assert(ev.contains_key(key_event(k)));
                            assert forall|f: EventType| #[trigger] ev.contains_key(f) implies ev[f] >= old(
                                self,
                            ).cycle by {
                                assert(m0.contains_key(event_key(f)));
                            }
                        }
                    }
                    Some(key_event_exec(k))
                },
                None => {
                    proof {
                        assert(m0.contains_key(item));
                    }
                    None
                },
            }
        } else {
            proof {
                lemma_key_injective();
                if earliest_at(ev, old(self).cycle as int) {
                    let e = choose|e: EventType| ev.contains_key(e) && ev[e] == old(self).cycle && forall|f: EventType|
                        #[trigger] ev.contains_key(f) ==> ev[f] >= old(self).cycle;
                    assert(m0.contains_key(item));
                    lemma_key_roundtrip(item, m0);
                    assert(ev.contains_key(key_event(item)));
                    assert(m0.contains_key(event_key(e)));
                    assert(m0[event_key(e)] <= priority);
                }
            }
            None
        }
    }

    /// Schedules `event`, moving it if its type is already waiting.
    pub fn add(&mut self, event: Event)
        ensures
            final(self).cycle == old(self).cycle,
            final(self).events() == old(self).events().insert(event.event_type, event.cycle as int),
    {
        let key = event_key_exec(event.event_type);
        queue_push(&mut self.event_queue, key, usize::MAX - event.cycle);
        proof {
            lemma_key_injective();
            assert(self.events() =~= old(self).events().insert(event.event_type, event.cycle as int));
        }
    }

    /// Unschedules the event of type `event_type`, if it is waiting.
    pub fn remove(&mut self, event_type: EventType)
        ensures
            final(self).cycle == old(self).cycle,
            final(self).events() == old(self).events().remove(event_type),
    {
        let key = event_key_exec(event_type);
        queue_remove(&mut self.event_queue, key);
        proof {
            lemma_key_injective();
            assert(self.events() =~= old(self).events().remove(event_type));
        }
    }
}

/// An event added for the current cycle, when no waiting event is due
/// earlier, makes the earliest event due now: the next `get_next_event`
/// hands out an event.
pub proof fn lemma_added_event_due(events: Map<EventType, int>, e: EventType, c: int)
    requires
        forall|f: EventType| #[trigger] events.contains_key(f) ==> events[f] >= c,
    ensures
        earliest_at(events.insert(e, c), c),
{
    let m = events.insert(e, c);
    assert(m.contains_key(e) && m[e] == c);
    assert forall|f: EventType| #[trigger] m.contains_key(f) implies m[f] >= c by {
        if f != e {
            assert(events.contains_key(f));
        }
    }
}

/// Different event types have different queue items.
proof fn lemma_key_injective()
    ensures
        forall|a: EventType, b: EventType| #[trigger] event_key(a) == #[trigger] event_key(b) ==> a == b,
{
}

/// A queue of finitely many items holds finitely many events.
proof fn lemma_events_finite(s: &Scheduler)
    requires
        queue_contents(s.event_queue).dom().finite(),
    ensures
        s.events().dom().finite(),
{
    let m = queue_contents(s.event_queue);
    let f = |k: (bool, usize)| key_event(k);
    m.dom().lemma_map_finite(f);
    assert forall|e: EventType| #[trigger] s.events().dom().contains(e) implies m.dom().map(f).contains(e) by {
        assert(m.dom().contains(event_key(e)) && f(event_key(e)) == e);
    }
    assert forall|e: EventType| #[trigger] m.dom().map(f).contains(e) implies s.events().dom().contains(e) by {
        let k = choose|k: (bool, usize)| m.dom().contains(k) && f(k) == e;
        lemma_key_roundtrip(k, m);
    }
    assert(s.events().dom() =~= m.dom().map(f));
}

/// Every queue item is the item of an event type.
proof fn lemma_key_roundtrip(k: (bool, usize), m: Map<(bool, usize), usize>)
    ensures
        event_key(key_event(k)) == k,
{
}

} // verus!
