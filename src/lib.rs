//! Asynchronous wait support: level-triggered event sources, waiters that
//! stand for one pending operation each, and a multiplexer that completes
//! every waiter that is ready when the waiting thread wakes. The `tcp`
//! module reads the headers of received TCP segments.

pub mod handle;
pub mod multiplex;
pub mod source;
pub mod tcp;
pub mod waiter;

pub use handle::{ReadHandle, WriteHandle};
pub use multiplex::{bind_waiters, complete_ready, wait_on_list};
pub use source::{EventSource, EventTable, SleepObjectRef, SourceSlot, WaitError};
pub use waiter::{EventWait, Waiter};
