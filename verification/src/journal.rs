//! The kernel journal: a bounded log of events, the oldest dropped first.

use vstd::prelude::*;
use crate::abi::{Value, ValueView, value_view};
use crate::canon::Symbol;
use crate::symtext::{append_dec, dec_text, spec_symbol_display, symbol_display, value_text};

verus! {

/// How many events the kernel journal keeps.
pub const JOURNAL_CAPACITY: usize = 1024;

/// What an event denotes.
pub struct EventView {
    pub timestamp: u64,
    pub kind: u32,
    pub data: ValueView,
}

/// One journal event: when, what kind, and its data.
#[derive(Debug)]
pub struct Event {
    pub timestamp: u64,
    pub kind: Symbol,
    pub data: Value,
}

impl View for Event {
    type V = EventView;

    open spec fn view(&self) -> EventView {
        EventView { timestamp: self.timestamp, kind: self.kind.0, data: value_view(self.data) }
    }
}

/// The views of a sequence of events.
pub open spec fn events_view(s: Seq<Event>) -> Seq<EventView> {
    s.map_values(|e: Event| e@)
}

impl Event {
    /// An event at a given time.
    pub fn with_timestamp(timestamp: u64, kind: Symbol, data: Value) -> (e: Event)
        ensures
            e@ == (EventView { timestamp, kind: kind.0, data: value_view(data) }),
    {
        Event { timestamp, kind, data }
    }

    /// A copy of the event.
    pub fn copy(&self) -> (e: Event)
        ensures
            e@ == self@,
    {
        Event { timestamp: self.timestamp, kind: self.kind, data: self.data.copy() }
    }
}

/// The events kept after one more is recorded: the oldest is dropped first
/// when the journal is full.
pub open spec fn spec_emit(entries: Seq<EventView>, capacity: nat, e: EventView) -> Seq<EventView> {
    if entries.len() >= capacity {
        entries.drop_first().push(e)
    } else {
        entries.push(e)
    }
}

/// The events kept after an import: those kept before, then the imported
/// ones in order while there is room; the rest are not kept.
pub open spec fn spec_import(entries: Seq<EventView>, capacity: nat, es: Seq<EventView>) -> Seq<EventView> {
    let room: int = if capacity > entries.len() {
        capacity - entries.len()
    } else {
        0
    };
    entries + es.take(if es.len() < room {
        es.len() as int
    } else {
        room
    })
}

/// A bounded journal of events.
pub struct Journal {
    entries: Vec<Event>,
    capacity: usize,
}

impl Journal {
    /// The events kept, oldest first.
    pub closed spec fn entries(&self) -> Seq<EventView> {
        events_view(self.entries@)
    }

    /// How many events it keeps at most.
    pub closed spec fn capacity(&self) -> nat {
        self.capacity as nat
    }

    /// Room for at least one event, and no more kept than that.
    pub closed spec fn wf(&self) -> bool {
        0 < self.capacity && self.entries@.len() <= self.capacity
    }

    /// An empty journal keeping at most `capacity` events.
    pub fn new(capacity: usize) -> (j: Journal)
        requires
            capacity > 0,
        ensures
            j.wf(),
            j.entries() == Seq::<EventView>::empty(),
            j.capacity() == capacity,
    {
        let j = Journal { entries: Vec::new(), capacity };
        assert(j.entries() =~= Seq::<EventView>::empty());
        j
    }

    /// Forget every event.
    pub fn init(&mut self)
        requires
            old(self).wf(),
        ensures
            final(self).wf(),
            final(self).entries() == Seq::<EventView>::empty(),
            final(self).capacity() == old(self).capacity(),
    {
        self.entries = Vec::new();
        assert(self.entries() =~= Seq::<EventView>::empty());
    }

    /// Record an event, dropping the oldest when full.
    pub fn emit(&mut self, e: Event)
        requires
            old(self).wf(),
        ensures
            final(self).wf(),
            final(self).entries() == spec_emit(old(self).entries(), old(self).capacity(), e@),
            final(self).capacity() == old(self).capacity(),
    {
        let ghost before = self.entries();
        let ghost ev = e@;
        if self.entries.len() >= self.capacity {
            self.entries.remove(0);
            proof {
                assert(events_view(self.entries@) =~= before.drop_first());
            }
        }
        let ghost mid = events_view(self.entries@);
        self.entries.push(e);
        proof {
            assert(events_view(self.entries@) =~= mid.push(ev));
        }
    }

    /// Append imported events, in order, while there is room.
    pub fn import(&mut self, events: Vec<Event>)
        requires
            old(self).wf(),
        ensures
            final(self).wf(),
            final(self).entries() == spec_import(old(self).entries(), old(self).capacity(), events_view(events@)),
            final(self).capacity() == old(self).capacity(),
    {
        let ghost start = self.entries();
        let ghost es = events_view(events@);
        let mut i: usize = 0;
        proof {
            assert(start + es.take(0) =~= start);
        }
        while i < events.len() && self.entries.len() < self.capacity
            invariant
                i <= events@.len(),
                es == events_view(events@),
                es.len() == events@.len(),
                self.wf(),
                self.capacity() == old(self).capacity(),
                start.len() + i == self.entries@.len(),
                self.entries() == start + es.take(i as int),
            decreases events@.len() - i,
        {
            let ghost before = self.entries();
            self.entries.push(events[i].copy());
            proof {
                assert(self.entries() =~= before.push(es[i as int]));
                assert(es.take(i + 1) =~= es.take(i as int).push(es[i as int]));
                assert(start + es.take(i + 1) =~= (start + es.take(i as int)).push(es[i as int]));
            }
            i = i + 1;
        }
        proof {
            assert(self.entries() =~= spec_import(start, old(self).capacity(), es));
        }
    }

    /// A copy of the events kept, oldest first.
    pub fn snapshot(&self) -> (v: Vec<Event>)
        ensures
            events_view(v@) == self.entries(),
    {
        let mut v: Vec<Event> = Vec::new();
        let mut i: usize = 0;
        while i < self.entries.len()
            invariant
                i <= self.entries@.len(),
                events_view(v@) == events_view(self.entries@).take(i as int),
            decreases self.entries@.len() - i,
        {
            let ghost before = events_view(v@);
            v.push(self.entries[i].copy());
            proof {
                assert(events_view(v@) =~= before.push(self.entries@[i as int]@));
                assert(events_view(self.entries@).take(i + 1) =~= events_view(self.entries@).take(i as int).push(
                    self.entries@[i as int]@,
                ));
            }
            i = i + 1;
        }
        proof {
            assert(events_view(self.entries@).take(i as int) =~= events_view(self.entries@));
        }
        v
    }
}

/// How a journal dump shows an event: `@` and its time, its kind, its data.
pub open spec fn spec_event_line(e: EventView) -> Seq<char> {
    seq!['@'] + dec_text(e.timestamp as nat) + seq![' '] + spec_symbol_display(e.kind) + seq![' '] + value_text(e.data, true)
}

/// The line a journal dump prints for an event.
pub fn event_line(e: &Event) -> (s: String)
    ensures
        s@ == spec_event_line(e@),
{
    proof {
        reveal_strlit("@");
        assert("@"@ =~= seq!['@']);
        reveal_strlit(" ");
        assert(" "@ =~= seq![' ']);
    }
    let mut s = String::from_str("@");
    append_dec(&mut s, e.timestamp);
    s.append(" ");
    let k = symbol_display(e.kind);
    s.append(k.as_str());
    s.append(" ");
    let d = e.data.to_text(true);
    s.append(d.as_str());
    proof {
        assert(s@ =~= spec_event_line(e@));
    }
    s
}

/// The lines of a journal dump, oldest event first.
pub fn dump_pretty(j: &Journal) -> (lines: Vec<String>)
    ensures
        lines@.len() == j.entries().len(),
        forall|i: int| 0 <= i < lines@.len() ==> #[trigger] lines@[i]@ == spec_event_line(j.entries()[i]),
{
    let events = j.snapshot();
    let mut lines: Vec<String> = Vec::new();
    let mut i: usize = 0;
    while i < events.len()
        invariant
            i <= events@.len(),
            events_view(events@) == j.entries(),
            lines@.len() == i,
            forall|l: int| 0 <= l < i ==> #[trigger] lines@[l]@ == spec_event_line(j.entries()[l]),
        decreases events@.len() - i,
    {
        let line = event_line(&events[i]);
        proof {
            assert(events_view(events@)[i as int] == events@[i as int]@);
        }
        lines.push(line);
        i = i + 1;
    }
    lines
}

/// An import keeps every event the journal held, never makes it hold more
/// than it may keep, and leaves a full journal as it was.
pub proof fn lemma_import_keeps(entries: Seq<EventView>, capacity: nat, es: Seq<EventView>)
    requires
        entries.len() <= capacity,
    ensures
        spec_import(entries, capacity, es).len() <= capacity,
        spec_import(entries, capacity, es).take(entries.len() as int) == entries,
        entries.len() == capacity ==> spec_import(entries, capacity, es) == entries,
{
    assert(spec_import(entries, capacity, es).take(entries.len() as int) =~= entries);
    if entries.len() == capacity {
        assert(spec_import(entries, capacity, es) =~= entries);
    }
}

/// A journal never holds more events than it may keep, and the event just
/// recorded is always its newest, right after the ones it kept before (less
/// the oldest when it was full).
pub proof fn lemma_emit_bounded(entries: Seq<EventView>, capacity: nat, e: EventView)
    requires
        0 < capacity,
        entries.len() <= capacity,
    ensures
        spec_emit(entries, capacity, e).len() <= capacity,
        spec_emit(entries, capacity, e).last() == e,
        spec_emit(entries, capacity, e).drop_last() == (if entries.len() == capacity {
            entries.drop_first()
        } else {
            entries
        }),
{
    assert(spec_emit(entries, capacity, e).drop_last() =~= (if entries.len() == capacity {
        entries.drop_first()
    } else {
        entries
    }));
}

} // verus!
