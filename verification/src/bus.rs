use vstd::prelude::*;

verus! {

/// The kind of a bus cycle, as the ARM7TDMI data sheet names them.
#[derive(Clone, Copy, Debug, PartialEq, Eq, Structural)]
pub enum Cycle {
    /// Non-sequential access.
    N,
    /// Sequential access.
    S,
    /// Internal cycle (no memory access).
    I,
}

/// One observable operation on the memory bus.
#[derive(Clone, Copy, Debug, PartialEq, Eq, Structural)]
pub enum BusOp {
    Clock(Cycle, u32, u32),
    Read8(u32, u8),
    Read16(u32, u16),
    Read32(u32, u32),
    Write8(u32, u8),
    Write16(u32, u16),
    Write32(u32, u32),
}

/// The values that the reads among `ops` returned, in order.
pub open spec fn responses(ops: Seq<BusOp>) -> Seq<u32>
    decreases ops.len(),
{
    if ops.len() == 0 {
        Seq::empty()
    } else {
        let rest = responses(ops.drop_last());
        match ops.last() {
            BusOp::Read8(_, v) => rest.push(v as u32),
            BusOp::Read16(_, v) => rest.push(v as u32),
            BusOp::Read32(_, v) => rest.push(v),
            _ => rest,
        }
    }
}

/// The value that a read answered, as a word.
pub open spec fn op_response(op: BusOp) -> Seq<u32> {
    match op {
        BusOp::Read8(_, v) => seq![v as u32],
        BusOp::Read16(_, v) => seq![v as u32],
        BusOp::Read32(_, v) => seq![v],
        _ => Seq::empty(),
    }
}

pub proof fn lemma_responses_push(ops: Seq<BusOp>, op: BusOp)
    ensures
        responses(ops.push(op)) == responses(ops) + op_response(op),
{
    assert(ops.push(op).drop_last() =~= ops);
    assert(responses(ops) + Seq::<u32>::empty() =~= responses(ops));
    match op {
        BusOp::Read8(_, v) => assert(responses(ops).push(v as u32) =~= responses(ops) + seq![v as u32]),
        BusOp::Read16(_, v) => assert(responses(ops).push(v as u32) =~= responses(ops) + seq![v as u32]),
        BusOp::Read32(_, v) => assert(responses(ops).push(v) =~= responses(ops) + seq![v]),
        _ => {},
    }
}

pub proof fn lemma_responses_concat(a: Seq<BusOp>, b: Seq<BusOp>)
    ensures
        responses(a + b) == responses(a) + responses(b),
    decreases b.len(),
{
    if b.len() == 0 {
        assert(a + b =~= a);
        assert(responses(a) + responses(b) =~= responses(a));
    } else {
        let bl = b.drop_last();
        lemma_responses_concat(a, bl);
        assert((a + b) =~= (a + bl).push(b.last()));
        assert(b =~= bl.push(b.last()));
        lemma_responses_push(a + bl, b.last());
        lemma_responses_push(bl, b.last());
        assert(responses(a) + responses(bl) + op_response(b.last()) =~= responses(a) + (responses(bl)
            + op_response(b.last())));
    }
}


/// The values that the reads among the operations after `before` returned.
pub open spec fn new_responses(before: Seq<BusOp>, after: Seq<BusOp>) -> Seq<u32> {
    responses(after.skip(before.len() as int))
}

/// `k` internal cycles.
pub open spec fn idle_cycles(k: nat) -> Seq<BusOp> {
    Seq::new(k, |i: int| BusOp::Clock(Cycle::I, 0, 0))
}

/// One more operation after the trace `t` that followed `o`.
pub proof fn lemma_extend(o: Seq<BusOp>, t: Seq<BusOp>, op: BusOp)
    ensures
        (o + t).push(op) == o + t.push(op),
        responses(t.push(op)) == responses(t) + op_response(op),
{
    assert((o + t).push(op) =~= o + t.push(op));
    lemma_responses_push(t, op);
}

/// A trace `u` after the trace `t` that followed `o`.
pub proof fn lemma_compose(o: Seq<BusOp>, t: Seq<BusOp>, u: Seq<BusOp>)
    ensures
        (o + t) + u == o + (t + u),
        responses(t + u) == responses(t) + responses(u),
{
    assert((o + t) + u =~= o + (t + u));
    lemma_responses_concat(t, u);
}


/// A trace `u` after the trace `t` that followed `o`, seen from both ends.
pub proof fn lemma_then(o: Seq<BusOp>, t: Seq<BusOp>, u: Seq<BusOp>)
    ensures
        (o + t) + u == o + (t + u),
        responses(t + u) == responses(t) + responses(u),
        new_responses(o + t, (o + t) + u) == responses(u),
{
    lemma_compose(o, t, u);
    lemma_after(o + t, u);
}

/// What followed `o` is `t`.
pub proof fn lemma_after(o: Seq<BusOp>, t: Seq<BusOp>)
    ensures
        (o + t).skip(o.len() as int) == t,
        new_responses(o, o + t) == responses(t),
{
    assert((o + t).skip(o.len() as int) =~= t);
}

pub proof fn lemma_responses_empty()
    ensures
        responses(Seq::<BusOp>::empty()) == Seq::<u32>::empty(),
{
}


/// Internal cycles return nothing.
pub proof fn lemma_responses_idle(k: nat)
    ensures
        responses(idle_cycles(k)) == Seq::<u32>::empty(),
    decreases k,
{
    if k > 0 {
        assert(idle_cycles(k) =~= idle_cycles((k - 1) as nat).push(BusOp::Clock(Cycle::I, 0, 0)));
        lemma_responses_idle((k - 1) as nat);
        lemma_responses_push(idle_cycles((k - 1) as nat), BusOp::Clock(Cycle::I, 0, 0));
        assert(Seq::<u32>::empty() + Seq::<u32>::empty() =~= Seq::<u32>::empty());
    } else {
        assert(idle_cycles(0) =~= Seq::<BusOp>::empty());
    }
}


/// Whether `op` is not a read.
pub open spec fn is_not_read(op: BusOp) -> bool {
    !(op is Read8 || op is Read16 || op is Read32)
}

/// A trace without reads has no responses.
pub proof fn lemma_responses_no_reads(t: Seq<BusOp>)
    requires
        forall|i: int| 0 <= i < t.len() ==> is_not_read(#[trigger] t[i]),
    ensures
        responses(t) == Seq::<u32>::empty(),
    decreases t.len(),
{
    if t.len() > 0 {
        lemma_responses_no_reads(t.drop_last());
        assert(t.drop_last().push(t.last()) =~= t);
        lemma_responses_push(t.drop_last(), t.last());
        assert(Seq::<u32>::empty() + Seq::<u32>::empty() =~= Seq::<u32>::empty());
    }
}


/// A trace whose only read is `r` answers what `r` read.
pub proof fn lemma_responses_one_read(a: Seq<BusOp>, r: BusOp, b: Seq<BusOp>)
    requires
        forall|i: int| 0 <= i < a.len() ==> is_not_read(#[trigger] a[i]),
        forall|i: int| 0 <= i < b.len() ==> is_not_read(#[trigger] b[i]),
    ensures
        responses(a.push(r) + b) == op_response(r),
{
    lemma_responses_no_reads(a);
    lemma_responses_no_reads(b);
    lemma_responses_push(a, r);
    lemma_responses_concat(a.push(r), b);
    assert(Seq::<u32>::empty() + op_response(r) + Seq::<u32>::empty() =~= op_response(r));
}

/// The operations performed on a bus, oldest first.
pub type BusTrace = Seq<BusOp>;

/// Reads and writes of the memory bus. Every call is recorded in `ops`.
pub trait MemoryHandler {
    /// The operations performed on this bus so far.
    spec fn ops(&self) -> BusTrace;

    fn read8(&mut self, addr: u32) -> (r: u8)
        ensures
            final(self).ops() == old(self).ops().push(BusOp::Read8(addr, r)),
    ;

    fn read16(&mut self, addr: u32) -> (r: u16)
        ensures
            final(self).ops() == old(self).ops().push(BusOp::Read16(addr, r)),
    ;

    fn read32(&mut self, addr: u32) -> (r: u32)
        ensures
            final(self).ops() == old(self).ops().push(BusOp::Read32(addr, r)),
    ;

    fn write8(&mut self, addr: u32, value: u8)
        ensures
            final(self).ops() == old(self).ops().push(BusOp::Write8(addr, value)),
    ;

    fn write16(&mut self, addr: u32, value: u16)
        ensures
            final(self).ops() == old(self).ops().push(BusOp::Write16(addr, value)),
    ;

    fn write32(&mut self, addr: u32, value: u32)
        ensures
            final(self).ops() == old(self).ops().push(BusOp::Write32(addr, value)),
    ;
}

/// A memory bus that also keeps the system clock.
pub trait IMMU: MemoryHandler {
    fn inc_clock(&mut self, cycle_type: Cycle, addr: u32, access_width: u32)
        requires
            access_width <= 2,
        ensures
            final(self).ops() == old(self).ops().push(BusOp::Clock(cycle_type, addr, access_width)),
    ;
}

} // verus!
