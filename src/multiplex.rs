use vstd::prelude::*;
use crate::source::{EventTable, SleepObjectRef, SourceSlot};
use crate::waiter::Waiter;

verus! {

/// The sources `s` after every waiter of `ws` was bound, in order, to `who`.
pub open spec fn bound_all<C, P>(ws: Seq<Waiter<C, P>>, s: Seq<SourceSlot>, who: SleepObjectRef) -> Seq<SourceSlot>
    decreases ws.len(),
{
    if ws.len() == 0 {
        s
    } else {
        ws.last().bound(bound_all(ws.drop_last(), s, who), who)
    }
}

/// `after` is what a single completion pass over sources `s` leaves of
/// `before`: completed, with its completion invoked, where the probe found it
/// ready; untouched where it did not.
pub open spec fn resolved<C: FnOnce(), P: Fn(bool) -> bool>(
    before: Waiter<C, P>,
    after: Waiter<C, P>,
    s: Seq<SourceSlot>,
) -> bool {
    ||| before.reports_ready(s, true) && after == before.completed() && before.completion_ran()
    ||| before.reports_ready(s, false) && after == before
}

/// Every waiter of `ws` can be waited on over sources `s`.
pub open spec fn waitable<C: FnOnce(), P: Fn(bool) -> bool>(ws: Seq<Waiter<C, P>>, s: Seq<SourceSlot>) -> bool {
    forall|j: int|
        0 <= j < ws.len() ==> {
            &&& (#[trigger] ws[j]).valid()
            &&& ws[j].callable()
            &&& ws[j].refers_within(s)
        }
}

/// Binding a waiter changes no flag and no number of sources.
proof fn lemma_bound_keeps_flags<C, P>(w: Waiter<C, P>, s: Seq<SourceSlot>, who: SleepObjectRef)
    requires
        w.refers_within(s),
    ensures
        w.bound(s, who).len() == s.len(),
        forall|k: int| 0 <= k < s.len() ==> (#[trigger] w.bound(s, who)[k]).flag == s[k].flag,
{
}

/// Binding a sequence of waiters changes no flag and no number of sources.
pub proof fn lemma_bound_all_keeps_flags<C, P>(ws: Seq<Waiter<C, P>>, s: Seq<SourceSlot>, who: SleepObjectRef)
    requires
        forall|j: int| 0 <= j < ws.len() ==> (#[trigger] ws[j]).refers_within(s),
    ensures
        bound_all(ws, s, who).len() == s.len(),
        forall|k: int| 0 <= k < s.len() ==> (#[trigger] bound_all(ws, s, who)[k]).flag == s[k].flag,
    decreases ws.len(),
{
    if ws.len() > 0 {
        let rest = ws.drop_last();
        assert forall|j: int| 0 <= j < rest.len() implies (#[trigger] rest[j]).refers_within(s) by {
            assert(rest[j] == ws[j]);
        }
        lemma_bound_all_keeps_flags(rest, s, who);
        let mid = bound_all(rest, s, who);
        assert(ws.last() == ws[ws.len() - 1]);
        lemma_refers_within_same_len(ws.last(), s, mid);
        lemma_bound_keeps_flags(ws.last(), mid, who);
    }
}

/// A waiter that names sources of `s` names sources of any `t` at least as long.
proof fn lemma_refers_within_same_len<C, P>(w: Waiter<C, P>, s: Seq<SourceSlot>, t: Seq<SourceSlot>)
    requires
        w.refers_within(s),
        s.len() <= t.len(),
    ensures
        w.refers_within(t),
{
}

/// After a completion pass, a waiter that was ready has been completed, so it
/// holds its completion no longer unless it is the empty waiter, and a waiter
/// that was not ready is untouched and still valid.
pub proof fn lemma_wait_resolution<C: FnOnce(), P: Fn(bool) -> bool>(
    before: Waiter<C, P>,
    after: Waiter<C, P>,
    s: Seq<SourceSlot>,
)
    requires
        before.valid(),
        resolved(before, after, s),
    ensures
        before.reports_ready(s, true) && !before.reports_ready(s, false) ==> {
            &&& after == before.completed()
            &&& before.completion_ran()
            &&& !(before is Empty) ==> !after.valid()
        },
        before.reports_ready(s, false) && !before.reports_ready(s, true) ==> after == before && after.valid(),
{
}

/// Binds every waiter of `waiters` to `sleeper`, in order; a later waiter on
/// the same source replaces an earlier one's subscription.
pub fn bind_waiters<C: FnOnce(), P: Fn(bool) -> bool>(
    waiters: &mut Vec<Waiter<C, P>>,
    table: &mut EventTable,
    sleeper: SleepObjectRef,
)
    requires
        forall|j: int| 0 <= j < old(waiters)@.len() ==> (#[trigger] old(waiters)@[j]).refers_within(old(table)@),
    ensures
        final(waiters)@ == old(waiters)@,
        final(table)@ == bound_all(old(waiters)@, old(table)@, sleeper),
{
    let ghost w0 = waiters@;
    let ghost t0 = table@;
    let n = waiters.len();
    let mut i: usize = 0;
    while i < n
        invariant
            n == w0.len(),
            0 <= i <= n,
            waiters@ == w0,
            forall|j: int| 0 <= j < w0.len() ==> (#[trigger] w0[j]).refers_within(t0),
            table@ == bound_all(w0.take(i as int), t0, sleeper),
        decreases n - i,
    {
        proof {
            assert forall|j: int| 0 <= j < w0.take(i as int).len() implies (#[trigger] w0.take(i as int)[j]).refers_within(t0) by {
                assert(w0.take(i as int)[j] == w0[j]);
            }
            lemma_bound_all_keeps_flags(w0.take(i as int), t0, sleeper);
            lemma_refers_within_same_len(w0[i as int], t0, table@);
        }
        let _ = waiters[i].bind_signal(table, sleeper);
        proof {
            assert(w0.take(i + 1).drop_last() == w0.take(i as int));
            assert(w0.take(i + 1).last() == w0[i as int]);
        }
        i += 1;
    }
    proof {
        assert(w0.take(n as int) == w0);
    }
}

/// Runs the completion of every waiter that is ready over `table`, once
/// each, and leaves the others untouched.
pub fn complete_ready<C: FnOnce(), P: Fn(bool) -> bool>(waiters: &mut Vec<Waiter<C, P>>, table: &EventTable)
    requires
        waitable(old(waiters)@, table@),
    ensures
        final(waiters)@.len() == old(waiters)@.len(),
        forall|j: int| 0 <= j < old(waiters)@.len() ==> resolved(#[trigger] old(waiters)@[j], final(waiters)@[j], table@),
{
    let ghost w0 = waiters@;
    let n = waiters.len();
    let mut i: usize = 0;
    while i < n
        invariant
            n == w0.len(),
            0 <= i <= n,
            waiters@.len() == n,
            waitable(w0, table@),
            forall|j: int| 0 <= j < i ==> resolved(#[trigger] w0[j], waiters@[j], table@),
            forall|j: int| i <= j < n ==> #[trigger] waiters@[j] == w0[j],
        decreases n - i,
    {
        assert(waiters@[i as int] == w0[i as int]);
        let ready = waiters[i].is_ready(table);
        if ready {
            waiters[i].run_completion();
        }
        i += 1;
    }
}

/// Waits until one of `waiters` is signalled and completes every one that is
/// then ready.
///
/// Each waiter is bound to `sleeper`; `park` then holds the table for as
/// long as the calling thread sleeps on `sleeper`, and hands it back, with
/// every source it had, once the thread is woken. A single pass then runs
/// the completion of each waiter that is ready over the table handed back;
/// the others are left as they were, for a later call.
pub fn wait_on_list<C: FnOnce(), P: Fn(bool) -> bool, W: FnOnce(EventTable) -> EventTable>(
    waiters: &mut Vec<Waiter<C, P>>,
    table: &mut EventTable,
    sleeper: SleepObjectRef,
    park: W,
)
    requires
        old(waiters)@.len() > 0,
        waitable(old(waiters)@, old(table)@),
        forall|t: EventTable| park.requires((t,)),
        forall|t: EventTable, u: EventTable| park.ensures((t,), u) ==> t@.len() <= u@.len(),
    ensures
        final(waiters)@.len() == old(waiters)@.len(),
        exists|t: EventTable|
            t@ == bound_all(old(waiters)@, old(table)@, sleeper) && #[trigger] park.ensures((t,), *final(table)),
        forall|j: int|
            0 <= j < old(waiters)@.len() ==> resolved(#[trigger] old(waiters)@[j], final(waiters)@[j], final(table)@),
{
    let ghost w0 = waiters@;
    let ghost t0 = table@;
    bind_waiters(waiters, table, sleeper);
    let mut held = EventTable::new();
    std::mem::swap(table, &mut held);
    let ghost bound = held;
    let woken = park(held);
    *table = woken;
    proof {
        assert forall|j: int| 0 <= j < w0.len() implies (#[trigger] w0[j]).refers_within(t0) by {}
        lemma_bound_all_keeps_flags(w0, t0, sleeper);
        assert forall|j: int| 0 <= j < w0.len() implies (#[trigger] w0[j]).refers_within(table@) by {
            lemma_refers_within_same_len(w0[j], t0, table@);
        }
        assert(park.ensures((bound,), *table));
    }
    complete_ready(waiters, table);
}

} // verus!
