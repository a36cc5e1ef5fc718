use std::cell::Cell;
use std::rc::Rc;

use event_wait::{
    wait_on_list, bind_waiters, complete_ready, EventSource, EventTable, EventWait, ReadHandle,
    SleepObjectRef, SourceSlot, WaitError, Waiter, WriteHandle,
};

type Cb = Box<dyn FnOnce()>;
type Pl = Box<dyn Fn(bool) -> bool>;
type W = Waiter<Cb, Pl>;

fn recorder(flag: &Rc<Cell<u32>>) -> Cb {
    let f = flag.clone();
    Box::new(move || f.set(f.get() + 1))
}

#[test]
fn scenario_a_trigger_wakes_and_completes() {
    let mut table = EventTable::new();
    let s = EventSource::new(&mut table);
    let done = Rc::new(Cell::new(0u32));
    let sleeper = SleepObjectRef { id: 7 };
    let mut list: Vec<W> = vec![Waiter::event(&s, recorder(&done))];
    wait_on_list(&mut list, &mut table, sleeper, |mut t: EventTable| {
        let woken = s.trigger(&mut t);
        assert_eq!(woken, Some(sleeper));
        t
    });
    assert_eq!(done.get(), 1);
    assert!(!list[0].is_valid());
}

#[test]
fn scenario_b_only_triggered_source_completes() {
    let mut table = EventTable::new();
    let s1 = EventSource::new(&mut table);
    let s2 = EventSource::new(&mut table);
    let d1 = Rc::new(Cell::new(0u32));
    let d2 = Rc::new(Cell::new(0u32));
    let mut list: Vec<W> = vec![Waiter::event(&s1, recorder(&d1)), Waiter::event(&s2, recorder(&d2))];
    wait_on_list(&mut list, &mut table, SleepObjectRef { id: 1 }, |mut t: EventTable| {
        s2.trigger(&mut t);
        t
    });
    assert_eq!(d1.get(), 0);
    assert_eq!(d2.get(), 1);
    assert!(list[0].is_valid());
    assert!(!list[0].is_ready(&table));
    assert!(!list[1].is_valid());
}

#[test]
fn one_pass_completes_every_ready_waiter() {
    let mut table = EventTable::new();
    let s1 = EventSource::new(&mut table);
    let s2 = EventSource::new(&mut table);
    let s3 = EventSource::new(&mut table);
    let count = Rc::new(Cell::new(0u32));
    let polled = Rc::new(Cell::new(0u32));
    let p = polled.clone();
    let poll: Pl = Box::new(move |finish| {
        if finish {
            p.set(p.get() + 1);
        }
        true
    });
    let mut list: Vec<W> = vec![
        Waiter::event(&s1, recorder(&count)),
        Waiter::event(&s2, recorder(&count)),
        Waiter::event(&s3, recorder(&count)),
        Waiter::poll(poll),
        Waiter::none(),
    ];
    wait_on_list(&mut list, &mut table, SleepObjectRef { id: 3 }, |mut t: EventTable| {
        s1.trigger(&mut t);
        s3.trigger(&mut t);
        t
    });
    assert_eq!(count.get(), 2);
    assert_eq!(polled.get(), 1);
    assert!(!list[0].is_valid());
    assert!(list[1].is_valid());
    assert!(!list[2].is_valid());
    assert!(!list[3].is_valid());
    assert!(list[4].is_valid());
}

#[test]
fn level_triggered_before_bind() {
    let mut table = EventTable::new();
    let s = EventSource::new(&mut table);
    assert_eq!(s.trigger(&mut table), None);
    let mut w: W = s.wait_on(Box::new(|| {}));
    assert!(w.bind_signal(&mut table, SleepObjectRef { id: 2 }));
    assert!(w.is_ready(&table));
    assert_eq!(table.slot(&s), SourceSlot { flag: true, subscriber: Some(SleepObjectRef { id: 2 }) });
}

#[test]
fn untriggered_event_is_not_ready() {
    let mut table = EventTable::new();
    let s = EventSource::new(&mut table);
    let w: W = Waiter::event(&s, Box::new(|| {}));
    assert!(!w.is_ready(&table));
    assert!(w.is_valid());
}

#[test]
fn none_waiter_valid_ready_and_noop() {
    let mut table = EventTable::new();
    let mut w: W = Waiter::none();
    assert!(w.is_valid());
    assert!(w.is_ready(&table));
    assert!(w.bind_signal(&mut table, SleepObjectRef { id: 4 }));
    w.run_completion();
    assert!(matches!(w, Waiter::Empty));
    w.run_completion();
    assert!(w.is_valid());
    assert_eq!(table.len(), 0);
}

#[test]
fn poll_waiter_cannot_bind() {
    let mut table = EventTable::new();
    let s = EventSource::new(&mut table);
    let calls = Rc::new(Cell::new(0u32));
    let c = calls.clone();
    let mut w: W = Waiter::poll(Box::new(move |_| {
        c.set(c.get() + 1);
        false
    }));
    assert!(!w.bind_signal(&mut table, SleepObjectRef { id: 5 }));
    assert!(w.is_valid());
    assert_eq!(calls.get(), 0);
    assert_eq!(table.slot(&s), SourceSlot { flag: false, subscriber: None });
}

#[test]
fn poll_waiter_peeks_then_finishes() {
    let table = EventTable::new();
    let log = Rc::new(Cell::new(0u32));
    let l = log.clone();
    let mut w: W = Waiter::poll(Box::new(move |finish| {
        l.set(l.get() * 10 + if finish { 2 } else { 1 });
        true
    }));
    assert!(w.is_ready(&table));
    w.run_completion();
    assert_eq!(log.get(), 12);
    assert!(!w.is_valid());
    assert!(w.is_ready(&table));
}

#[test]
fn run_completion_consumes_callback() {
    let mut table = EventTable::new();
    let s = EventSource::new(&mut table);
    let done = Rc::new(Cell::new(0u32));
    let mut w: W = Waiter::event(&s, recorder(&done));
    assert!(w.is_valid());
    w.run_completion();
    assert_eq!(done.get(), 1);
    assert!(!w.is_valid());
}

#[test]
fn later_binding_replaces_subscriber() {
    let mut table = EventTable::new();
    let s = EventSource::new(&mut table);
    let mut a: W = Waiter::event(&s, Box::new(|| {}));
    let mut b: W = Waiter::event(&s, Box::new(|| {}));
    a.bind_signal(&mut table, SleepObjectRef { id: 10 });
    b.bind_signal(&mut table, SleepObjectRef { id: 11 });
    assert_eq!(s.trigger(&mut table), Some(SleepObjectRef { id: 11 }));
    assert_eq!(s.trigger(&mut table), Some(SleepObjectRef { id: 11 }));
    assert_eq!(table.slot(&s).flag, true);
}

#[test]
fn sources_start_cleared_and_get_increasing_indices() {
    let mut table = EventTable::new();
    let a = EventSource::new(&mut table);
    let b = EventSource::new(&mut table);
    assert_eq!(a.index(), 0);
    assert_eq!(b.index(), 1);
    assert_eq!(table.len(), 2);
    assert_eq!(table.slot(&b), SourceSlot { flag: false, subscriber: None });
    table.subscribe(&a, SleepObjectRef { id: 9 });
    assert_eq!(table.slot(&a), SourceSlot { flag: false, subscriber: Some(SleepObjectRef { id: 9 }) });
}

#[test]
fn bind_then_complete_in_two_steps() {
    let mut table = EventTable::new();
    let s1 = EventSource::new(&mut table);
    let s2 = EventSource::new(&mut table);
    let count = Rc::new(Cell::new(0u32));
    let mut list: Vec<W> = vec![Waiter::event(&s1, recorder(&count)), Waiter::event(&s2, recorder(&count))];
    bind_waiters(&mut list, &mut table, SleepObjectRef { id: 6 });
    assert_eq!(table.slot(&s1).subscriber, Some(SleepObjectRef { id: 6 }));
    assert_eq!(table.slot(&s2).subscriber, Some(SleepObjectRef { id: 6 }));
    assert_eq!(s2.trigger(&mut table), Some(SleepObjectRef { id: 6 }));
    complete_ready(&mut list, &table);
    assert_eq!(count.get(), 1);
    assert!(list[0].is_valid());
    assert!(!list[1].is_valid());
}

#[test]
fn event_without_source_is_ready() {
    let table = EventTable::new();
    let w: W = Waiter::Event(EventWait { source: None, callback: Some(Box::new(|| {})) });
    assert!(w.is_ready(&table));
}

#[test]
fn read_handle_keeps_buffer_and_wait() {
    let mut table = EventTable::new();
    let s = EventSource::new(&mut table);
    let buf = [1u8, 2, 3];
    let done = Rc::new(Cell::new(0u32));
    let h = ReadHandle::new(&buf, EventWait { source: Some(s), callback: Some(recorder(&done)) });
    assert_eq!(h.buffer(), &[1u8, 2, 3]);
    let mut w: W = h.into_waiter();
    assert!(!w.is_ready(&table));
    s.trigger(&mut table);
    assert!(w.is_ready(&table));
    w.run_completion();
    assert_eq!(done.get(), 1);
}

#[test]
fn write_handle_keeps_buffer_and_wait() {
    let mut table = EventTable::new();
    let s = EventSource::new(&mut table);
    let buf = [9u8];
    let h = WriteHandle::new(&buf, EventWait::<Cb> { source: Some(s), callback: Some(Box::new(|| {})) });
    assert_eq!(h.buffer(), &[9u8]);
    let w: W = h.into_waiter();
    assert!(w.is_valid());
    assert!(!w.is_ready(&table));
}

#[test]
fn timeout_error_compares_equal() {
    assert_eq!(WaitError::Timeout, WaitError::Timeout);
}
