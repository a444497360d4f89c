//! The events a channel delivers to its consumer, and the errors a send can
//! report back to a producer.

use vstd::prelude::*;

verus! {

/// An event produced by draining the receiving end of a channel.
#[derive(Debug)]
pub enum Event<T> {
    /// One value was dequeued and is carried here.
    Msg(T),
    /// Every sender handle of this channel has been released: no further
    /// `Msg` event will ever be produced. A drain reports this at most once,
    /// after the values that were still queued.
    Closed,
}

/// The error of a send whose consumer end no longer exists. The undelivered
/// value is handed back so it is never silently lost.
#[derive(Debug)]
pub struct SendError<T>(pub T);

/// The error of a non-blocking send that could not enqueue its value; the
/// value is handed back in either case.
#[derive(Debug)]
pub enum TrySendError<T> {
    /// The queue stood at capacity. The wakeup signal is still left pending,
    /// so the consumer is prompted to drain and make room.
    Full(T),
    /// The consumer end no longer exists; nothing is signaled.
    Disconnected(T),
}

} // verus!
