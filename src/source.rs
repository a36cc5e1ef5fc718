use vstd::prelude::*;

verus! {

/// A weak, non-owning handle through which a parked thread is woken.
///
/// The handle only names the sleep object; parking and waking are done by
/// whoever owns the thread.
#[derive(Clone, Copy, Debug, PartialEq, Eq, Structural)]
pub struct SleepObjectRef {
    pub id: u64,
}

/// State of one event source: its readiness flag and its subscriber.
#[derive(Clone, Copy, Debug, PartialEq, Eq, Structural)]
pub struct SourceSlot {
    pub flag: bool,
    pub subscriber: Option<SleepObjectRef>,
}

/// Outcome that a deadline laid over a wait may produce.
#[derive(Clone, Copy, Debug, PartialEq, Eq, Structural)]
pub enum WaitError {
    Timeout,
}

/// The arena that holds every event source. Sources are never removed, so a
/// handle stays valid for as long as its table lives.
pub struct EventTable {
    slots: Vec<SourceSlot>,
}

/// A handle to one event source of an `EventTable`.
#[derive(Clone, Copy, Debug, PartialEq, Eq, Structural)]
pub struct EventSource {
    index: usize,
}

/// The slots after source `i` was triggered.
pub open spec fn triggered(s: Seq<SourceSlot>, i: int) -> Seq<SourceSlot> {
    s.update(i, SourceSlot { flag: true, subscriber: s[i].subscriber })
}

/// The slots after `who` subscribed to source `i`, replacing any earlier
/// subscriber.
pub open spec fn subscribed(s: Seq<SourceSlot>, i: int, who: SleepObjectRef) -> Seq<SourceSlot> {
    s.update(i, SourceSlot { flag: s[i].flag, subscriber: Some(who) })
}

impl View for EventTable {
    type V = Seq<SourceSlot>;

    closed spec fn view(&self) -> Seq<SourceSlot> {
        self.slots@
    }
}

impl EventTable {
    /// A table without sources.
    pub fn new() -> (r: EventTable)
        ensures
            r@ == Seq::<SourceSlot>::empty(),
    {
        EventTable { slots: Vec::new() }
    }

    /// Number of sources in the table.
    pub fn len(&self) -> (r: usize)
        ensures
            r == self@.len(),
    {
        self.slots.len()
    }

    /// The current state of `src`.
    pub fn slot(&self, src: &EventSource) -> (r: SourceSlot)
        requires
            src.within(self@),
        ensures
            r == self@[src.id()],
    {
        self.slots[src.index]
    }

    /// Registers `who` as the only subscriber of source `src`.
    pub fn subscribe(&mut self, src: &EventSource, who: SleepObjectRef)
        requires
            src.within(old(self)@),
        ensures
            final(self)@ == subscribed(old(self)@, src.id(), who),
    {
        let i = src.index;
        let cur = self.slots[i];
        self.slots.set(i, SourceSlot { flag: cur.flag, subscriber: Some(who) });
    }
}

impl EventSource {
    /// Position of the source in its table.
    pub closed spec fn id(&self) -> int {
        self.index as int
    }

    /// The handle names a source of a table whose slots are `s`.
    pub open spec fn within(&self, s: Seq<SourceSlot>) -> bool {
        0 <= self.id() < s.len()
    }

    /// Position of the source in its table.
    pub fn index(&self) -> (r: usize)
        ensures
            r == self.id(),
    {
        self.index
    }

    /// Adds a source to `table`, with its flag cleared and no subscriber.
    pub fn new(table: &mut EventTable) -> (r: EventSource)
        ensures
            r.id() == old(table)@.len(),
            final(table)@ == old(table)@.push(SourceSlot { flag: false, subscriber: None }),
    {
        let index = table.slots.len();
        table.slots.push(SourceSlot { flag: false, subscriber: None });
        EventSource { index }
    }

    /// Sets the source's flag. Returns the subscriber that is to be woken,
    /// if one is registered; the flag is never cleared here.
    pub fn trigger(&self, table: &mut EventTable) -> (r: Option<SleepObjectRef>)
        requires
            self.within(old(table)@),
        ensures
            final(table)@ == triggered(old(table)@, self.id()),
            r == old(table)@[self.id()].subscriber,
    {
        let i = self.index;
        let cur = table.slots[i];
        table.slots.set(i, SourceSlot { flag: true, subscriber: cur.subscriber });
        cur.subscriber
    }
}

} // verus!
