use vstd::prelude::*;
use crate::source::{subscribed, triggered, EventSource, EventTable, SleepObjectRef, SourceSlot};

verus! {

/// What an `Event` waiter waits for: an optional source, and the one-shot
/// callback that completes the operation.
pub struct EventWait<C> {
    pub source: Option<EventSource>,
    pub callback: Option<C>,
}

/// One pending or completed asynchronous operation.
///
/// `Empty` is trivially complete. An `Event` waiter is ready once its source
/// has been triggered. A `Poll` waiter holds a closure that is asked whether
/// the operation is ready (argument `false`) and, once, told to finish it
/// (argument `true`).
pub enum Waiter<C, P> {
    Empty,
    Event(EventWait<C>),
    Poll(Option<P>),
}

impl<C, P> Waiter<C, P> {
    /// The completion is still held, so the waiter can be completed.
    pub open spec fn valid(&self) -> bool {
        match self {
            Waiter::Empty => true,
            Waiter::Event(e) => e.callback is Some,
            Waiter::Poll(p) => p is Some,
        }
    }

    /// Every source that the waiter names is a source of `s`.
    pub open spec fn refers_within(&self, s: Seq<SourceSlot>) -> bool {
        match self {
            Waiter::Event(e) => match e.source {
                Some(src) => src.within(s),
                None => true,
            },
            _ => true,
        }
    }

    /// The waiter once its completion has been consumed.
    pub open spec fn completed(self) -> Self {
        match self {
            Waiter::Empty => Waiter::Empty,
            Waiter::Event(e) => Waiter::Event(EventWait { source: e.source, callback: None }),
            Waiter::Poll(_) => Waiter::Poll(None),
        }
    }

    /// The sources `s` after the waiter was bound to `who`.
    pub open spec fn bound(&self, s: Seq<SourceSlot>, who: SleepObjectRef) -> Seq<SourceSlot> {
        match self {
            Waiter::Event(e) => match e.source {
                Some(src) => subscribed(s, src.id(), who),
                None => s,
            },
            _ => s,
        }
    }

    /// The waiter can be woken through a sleep object.
    pub open spec fn bindable(&self) -> bool {
        !(self is Poll)
    }
}

impl<C: FnOnce(), P: Fn(bool) -> bool> Waiter<C, P> {
    /// The held closures accept the calls that waiting and completing make.
    pub open spec fn callable(&self) -> bool {
        match self {
            Waiter::Empty => true,
            Waiter::Event(e) => match e.callback {
                Some(c) => c.requires(()),
                None => true,
            },
            Waiter::Poll(p) => match p {
                Some(f) => f.requires((false,)) && f.requires((true,)),
                None => true,
            },
        }
    }

    /// `r` is an answer that a readiness probe may give against sources `s`.
    pub open spec fn reports_ready(&self, s: Seq<SourceSlot>, r: bool) -> bool {
        match self {
            Waiter::Empty => r,
            Waiter::Event(e) => match e.source {
                Some(src) => r == s[src.id()].flag,
                None => r,
            },
            Waiter::Poll(p) => match p {
                Some(f) => f.ensures((false,), r),
                None => r,
            },
        }
    }

    /// What holds once the waiter's completion was invoked: the callback's,
    /// or the closure's in its finishing mode, postcondition.
    pub open spec fn completion_ran(&self) -> bool {
        match self {
            Waiter::Empty => true,
            Waiter::Event(e) => match e.callback {
                Some(c) => c.ensures((), ()),
                None => true,
            },
            Waiter::Poll(p) => match p {
                Some(f) => exists|b: bool| #[trigger] f.ensures((true,), b),
                None => true,
            },
        }
    }

    /// A waiter that is already complete.
    pub fn none() -> (r: Self)
        ensures
            r is Empty,
    {
        Waiter::Empty
    }

    /// A waiter that is ready once `src` is triggered, and that is completed
    /// by calling `f`.
    pub fn event(src: &EventSource, f: C) -> (r: Self)
        ensures
            r == Waiter::<C, P>::Event(EventWait { source: Some(*src), callback: Some(f) }),
    {
        Waiter::Event(EventWait { source: Some(*src), callback: Some(f) })
    }

    /// A waiter whose readiness is asked of `f`, and that `f` finishes.
    pub fn poll(f: P) -> (r: Self)
        ensures
            r == Waiter::<C, P>::Poll(Some(f)),
    {
        Waiter::Poll(Some(f))
    }

    /// Whether the completion is still held.
    pub fn is_valid(&self) -> (r: bool)
        ensures
            r == self.valid(),
    {
        match self {
            Waiter::Empty => true,
            Waiter::Event(e) => e.callback.is_some(),
            Waiter::Poll(p) => p.is_some(),
        }
    }

    /// Whether the operation is ready: always for `Empty`, the source's flag
    /// for `Event` (ready when it names no source), the closure's answer for
    /// `Poll` (ready when the closure is gone).
    pub fn is_ready(&self, table: &EventTable) -> (r: bool)
        requires
            self.refers_within(table@),
            self.callable(),
        ensures
            self.reports_ready(table@, r),
    {
        match self {
            Waiter::Empty => true,
            Waiter::Event(e) => match &e.source {
                Some(src) => table.slot(src).flag,
                None => true,
            },
            Waiter::Poll(p) => match p {
                Some(f) => f(false),
                None => true,
            },
        }
    }

    /// Registers `sleeper` as the subscriber of the waiter's source. Returns
    /// false, and changes nothing, for a `Poll` waiter, which cannot be
    /// signalled.
    pub fn bind_signal(&mut self, table: &mut EventTable, sleeper: SleepObjectRef) -> (r: bool)
        requires
            old(self).refers_within(old(table)@),
        ensures
            *final(self) == *old(self),
            r == old(self).bindable(),
            *old(self) is Poll ==> !r && final(table)@ == old(table)@,
            final(table)@ == old(self).bound(old(table)@, sleeper),
    {
        match self {
            Waiter::Empty => true,
            Waiter::Event(e) => {
                match &e.source {
                    Some(src) => table.subscribe(src, sleeper),
                    None => {},
                }
                true
            },
            Waiter::Poll(_) => false,
        }
    }

    /// Consumes the completion and invokes it. The waiter must still hold it.
    pub fn run_completion(&mut self)
        requires
            old(self).valid(),
            old(self).callable(),
        ensures
            *final(self) == old(self).completed(),
            old(self).completion_ran(),
    {
        let mut cur: Self = Waiter::Empty;
        std::mem::swap(self, &mut cur);
        match cur {
            Waiter::Empty => {},
            Waiter::Event(e) => {
                *self = Waiter::Event(EventWait { source: e.source, callback: None });
                match e.callback {
                    Some(c) => c(),
                    None => {},
                }
            },
            Waiter::Poll(p) => {
                *self = Waiter::Poll(None);
                match p {
                    Some(f) => {
                        let _ = f(true);
                    },
                    None => {},
                }
            },
        }
    }
}

/// The empty waiter is valid, reports ready over any sources, and its
/// completion changes nothing.
pub proof fn lemma_empty_waiter<C: FnOnce(), P: Fn(bool) -> bool>(s: Seq<SourceSlot>, r: bool)
    ensures
        Waiter::<C, P>::Empty.valid(),
        Waiter::<C, P>::Empty.reports_ready(s, r) <==> r,
        Waiter::<C, P>::Empty.completed() == Waiter::<C, P>::Empty,
{
}

/// Completing an `Event` or `Poll` waiter consumes what completes it, so it
/// cannot be completed again.
pub proof fn lemma_completion_consumes<C: FnOnce(), P: Fn(bool) -> bool>(w: Waiter<C, P>)
    requires
        w.valid(),
        !(w is Empty),
    ensures
        !w.completed().valid(),
{
}

/// Readiness is level-triggered: a source triggered before a waiter on it was
/// built and bound still makes that waiter report ready, and only ready.
pub proof fn lemma_level_triggered<C: FnOnce(), P: Fn(bool) -> bool>(
    s: Seq<SourceSlot>,
    src: EventSource,
    f: C,
    who: SleepObjectRef,
)
    requires
        src.within(s),
    ensures
        ({
            let w = Waiter::<C, P>::Event(EventWait { source: Some(src), callback: Some(f) });
            let t = w.bound(triggered(s, src.id()), who);
            w.reports_ready(t, true) && !w.reports_ready(t, false)
        }),
{
}

impl EventSource {
    /// A waiter on this source, completed by calling `f`.
    pub fn wait_on<C: FnOnce(), P: Fn(bool) -> bool>(&self, f: C) -> (r: Waiter<C, P>)
        ensures
            r == Waiter::<C, P>::Event(EventWait { source: Some(*self), callback: Some(f) }),
    {
        Waiter::event(self, f)
    }
}

} // verus!
