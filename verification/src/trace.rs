//! The kernel trace ring: the last events recorded, oldest first.

use vstd::prelude::*;

verus! {

/// Number of events the ring keeps.
pub const TRACE_LEN: usize = 256;

/// One trace record.
#[derive(Clone, Copy, Debug, PartialEq, Eq, Structural)]
pub struct TraceEvent {
    pub timestamp: u64,
    pub kind: u16,
    pub task_id: u16,
    pub arg: u64,
}

impl Default for TraceEvent {
    fn default() -> (e: TraceEvent)
        ensures
            e == (TraceEvent { timestamp: 0, kind: 0, task_id: 0, arg: 0 }),
    {
        TraceEvent { timestamp: 0, kind: 0, task_id: 0, arg: 0 }
    }
}

/// What is traced.
#[derive(Clone, Copy, Debug, PartialEq, Eq, Structural)]
pub enum TraceKind {
    SwitchTo,
    SyscallEnter,
    PageFault,
    DoubleFault,
    Timer,
}

impl TraceKind {
    /// The code each kind is recorded with.
    pub open spec fn spec_code(self) -> u16 {
        match self {
            TraceKind::SwitchTo => 1,
            TraceKind::SyscallEnter => 2,
            TraceKind::PageFault => 3,
            TraceKind::DoubleFault => 4,
            TraceKind::Timer => 5,
        }
    }

    /// The code this kind is recorded with.
    pub fn code(self) -> (c: u16)
        ensures
            c == self.spec_code(),
    {
        match self {
            TraceKind::SwitchTo => 1,
            TraceKind::SyscallEnter => 2,
            TraceKind::PageFault => 3,
            TraceKind::DoubleFault => 4,
            TraceKind::Timer => 5,
        }
    }
}

/// A ring of trace events; `head` is the slot written next.
pub struct TraceBuffer {
    head: usize,
    events: Vec<TraceEvent>,
}

/// The empty record.
pub open spec fn blank_event() -> TraceEvent {
    TraceEvent { timestamp: 0, kind: 0, task_id: 0, arg: 0 }
}

/// The recorded events in the order a dump lists them: from the slot after
/// the newest around the ring, skipping slots never written (timestamp 0).
pub open spec fn spec_in_order(events: Seq<TraceEvent>, head: int) -> Seq<TraceEvent> {
    Seq::new(TRACE_LEN as nat, |i: int| events[(head + i) % (TRACE_LEN as int)]).filter(
        |e: TraceEvent| e.timestamp != 0,
    )
}

impl TraceBuffer {
    /// The slots and the next slot to write.
    pub closed spec fn spec_state(&self) -> (Seq<TraceEvent>, int) {
        (self.events@, self.head as int)
    }

    /// The ring has its fixed size and the head is a slot.
    pub closed spec fn wf(&self) -> bool {
        self.events@.len() == TRACE_LEN && self.head < TRACE_LEN
    }

    /// An empty ring.
    pub fn new() -> (t: TraceBuffer)
        ensures
            t.wf(),
            t.spec_state() == (Seq::new(TRACE_LEN as nat, |i: int| blank_event()), 0int),
    {
        let mut events: Vec<TraceEvent> = Vec::new();
        let mut i: usize = 0;
        while i < TRACE_LEN
            invariant
                i <= TRACE_LEN,
                events@ == Seq::new(i as nat, |j: int| blank_event()),
            decreases TRACE_LEN - i,
        {
            events.push(TraceEvent { timestamp: 0, kind: 0, task_id: 0, arg: 0 });
            proof {
                assert(events@ =~= Seq::new((i + 1) as nat, |j: int| blank_event()));
            }
            i = i + 1;
        }
        TraceBuffer { head: 0, events }
    }

    /// Record an event at the head, which then moves on (wrapping).
    pub fn record(&mut self, kind: TraceKind, task_id: u16, arg: u64, timestamp: u64)
        requires
            old(self).wf(),
        ensures
            final(self).wf(),
            final(self).spec_state() == (
                old(self).spec_state().0.update(
                    old(self).spec_state().1,
                    TraceEvent { timestamp, kind: kind.spec_code(), task_id, arg },
                ),
                (old(self).spec_state().1 + 1) % (TRACE_LEN as int),
            ),
    {
        let idx = self.head;
        self.events.set(idx, TraceEvent { timestamp, kind: kind.code(), task_id, arg });
        self.head = (idx + 1) % TRACE_LEN;
    }

    /// The recorded events, oldest first.
    pub fn in_order(&self) -> (v: Vec<TraceEvent>)
        requires
            self.wf(),
        ensures
            v@ == spec_in_order(self.spec_state().0, self.spec_state().1),
    {
        let ghost all = Seq::new(TRACE_LEN as nat, |i: int| self.events@[(self.head + i) % (TRACE_LEN as int)]);
        let mut out: Vec<TraceEvent> = Vec::new();
        let mut i: usize = 0;
        while i < TRACE_LEN
            invariant
                i <= TRACE_LEN,
                self.wf(),
                all == Seq::new(TRACE_LEN as nat, |k: int| self.events@[(self.head + k) % (TRACE_LEN as int)]),
                out@ == all.take(i as int).filter(|e: TraceEvent| e.timestamp != 0),
            decreases TRACE_LEN - i,
        {
            let idx = (self.head + i) % TRACE_LEN;
            let e = self.events[idx];
            proof {
                assert(all.take(i + 1) =~= all.take(i as int).push(all[i as int]));
                all.take(i as int).lemma_filter_push(all[i as int], |e: TraceEvent| e.timestamp != 0);
            }
            if e.timestamp != 0 {
                out.push(e);
            }
            i = i + 1;
        }
        proof {
            assert(all.take(TRACE_LEN as int) =~= all);
        }
        out
    }
}

} // verus!
