//! A many-producer / single-consumer channel whose receiving end is a
//! pollable event source.
//!
//! [`channel`] creates an unbounded channel: a [`Sender`] through which
//! producers queue values, and a [`Channel`] that a readiness-based event
//! loop registers and then drains, one [`Event`] per queued value.
//! [`sync_channel`] is the bounded variant, whose [`SyncSender`] is refused
//! (non-blocking) or parked (blocking) once the queue is at capacity.
//!
//! Every send leaves a coalesced wakeup signal pending, so the consumer is
//! woken at least once after any number of sends; a drain clears the signal
//! and empties the queue in one pass. When every sender handle has been
//! released, the next drain reports a terminal [`Event::Closed`].

pub mod event;
pub mod channel;

pub use event::Event;
pub use event::SendError;
pub use event::TrySendError;
pub use channel::channel;
pub use channel::sync_channel;
pub use channel::Sender;
pub use channel::SyncSender;
pub use channel::Channel;
