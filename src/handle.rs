use vstd::prelude::*;
use crate::waiter::{EventWait, Waiter};

verus! {

/// A pending read: the buffer it fills, tied to the wait that completes it,
/// so that the buffer cannot be reused while the read is in flight.
pub struct ReadHandle<'buf, C> {
    buffer: &'buf [u8],
    wait: EventWait<C>,
}

/// A pending write: the buffer it drains, tied to the wait that completes it.
pub struct WriteHandle<'buf, C> {
    buffer: &'buf [u8],
    wait: EventWait<C>,
}

impl<'buf, C> ReadHandle<'buf, C> {
    /// The bytes of the buffer.
    pub closed spec fn data(&self) -> Seq<u8> {
        self.buffer@
    }

    /// The wait that completes the read.
    pub closed spec fn pending(&self) -> &EventWait<C> {
        &self.wait
    }

    /// Bundles `dst` with the wait `w`.
    pub fn new(dst: &'buf [u8], w: EventWait<C>) -> (r: Self)
        ensures
            r.data() == dst@,
            *r.pending() == w,
    {
        ReadHandle { buffer: dst, wait: w }
    }

    /// The buffer of the read.
    pub fn buffer(&self) -> (r: &'buf [u8])
        ensures
            r@ == self.data(),
    {
        self.buffer
    }

    /// The waiter through which the read is awaited and completed.
    pub fn into_waiter<P>(self) -> (r: Waiter<C, P>)
        ensures
            r == Waiter::<C, P>::Event(*self.pending()),
    {
        Waiter::Event(self.wait)
    }
}

impl<'buf, C> WriteHandle<'buf, C> {
    /// The bytes of the buffer.
    pub closed spec fn data(&self) -> Seq<u8> {
        self.buffer@
    }

    /// The wait that completes the write.
    pub closed spec fn pending(&self) -> &EventWait<C> {
        &self.wait
    }

    /// Bundles `src` with the wait `w`.
    pub fn new(src: &'buf [u8], w: EventWait<C>) -> (r: Self)
        ensures
            r.data() == src@,
            *r.pending() == w,
    {
        WriteHandle { buffer: src, wait: w }
    }

    /// The buffer of the write.
    pub fn buffer(&self) -> (r: &'buf [u8])
        ensures
            r@ == self.data(),
    {
        self.buffer
    }

    /// The waiter through which the write is awaited and completed.
    pub fn into_waiter<P>(self) -> (r: Waiter<C, P>)
        ensures
            r == Waiter::<C, P>::Event(*self.pending()),
    {
        Waiter::Event(self.wait)
    }
}

} // verus!
