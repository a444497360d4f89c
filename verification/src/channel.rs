//! The channel itself: the consumer-side event source and the producer-side
//! sender handles.
//!
//! The shared state of one channel — the queue of values, the capacity, the
//! count of live sender handles, the pending wakeup signal and the event-loop
//! registration — lives in a single [`Channel`] value, and every operation of
//! a handle takes that value by `&mut`. Holding the state in one place is what
//! lets every contract say exactly how a send or a drain changes it; the
//! cross-thread plumbing (a lock-free queue, an OS-level wakeup) is the event
//! loop's concern, out of scope here.

use vstd::prelude::*;
use core::marker::PhantomData;
use crate::event::Event;
use crate::event::SendError;
use crate::event::TrySendError;

verus! {

/// The receiving end of a channel: the object a readiness-based event loop
/// registers and, on readiness, drains.
///
/// It owns the whole channel state. Exactly one consumer exists per channel;
/// the handles returned beside it by [`channel`] and [`sync_channel`] operate
/// on it by `&mut`.
///
/// A channel may be moved across threads only while it is unregistered: once
/// registered, its internals are meant to be reached solely through the
/// event loop's single-threaded drain path. As in the lifecycle contracts
/// below, this is a documented precondition of the surrounding loop, not
/// something the channel checks at run time.
pub struct Channel<T> {
    /// Queued values, oldest first.
    queue: Vec<T>,
    /// `Some(n)` for a bounded channel of capacity `n`, `None` for unbounded.
    bound: Option<usize>,
    /// How many sender handles are still alive.
    senders: usize,
    /// Whether the coalesced wakeup signal is pending. Any number of signals
    /// between two drains collapse into this one bit.
    ping: bool,
    /// Whether the channel is registered with the event loop.
    registered: bool,
    /// Whether the consumer end still exists. [`Channel::close`] models the
    /// consumer being dropped; afterwards sends are refused.
    alive: bool,
}

impl<T> Channel<T> {
    /// The values waiting to be drained, oldest first.
    pub closed spec fn queued(&self) -> Seq<T> {
        self.queue@
    }

    /// The capacity of the queue: `None` means unbounded.
    pub closed spec fn capacity(&self) -> Option<usize> {
        self.bound
    }

    /// How many sender handles are still alive.
    pub closed spec fn sender_count(&self) -> int {
        self.senders as int
    }

    /// Whether the coalesced wakeup signal is pending: set by sends and by
    /// the release of a sender handle, cleared by a drain.
    pub closed spec fn ping_pending(&self) -> bool {
        self.ping
    }

    /// Whether the channel is registered with the event loop.
    pub closed spec fn is_registered(&self) -> bool {
        self.registered
    }

    /// Whether the consumer end still exists.
    pub closed spec fn is_open(&self) -> bool {
        self.alive
    }

    /// Whether a non-blocking send would be refused for want of room.
    /// An unbounded channel is never full.
    pub open spec fn is_full(&self) -> bool {
        match self.capacity() {
            Some(b) => self.queued().len() >= b,
            None => false,
        }
    }

    /// Well-formedness: the queue respects the capacity, a closed consumer
    /// keeps no values, and only a live consumer is registered.
    pub open spec fn wf(&self) -> bool {
        &&& (match self.capacity() {
            Some(b) => self.queued().len() <= b,
            None => true,
        })
        &&& (!self.is_open() ==> self.queued().len() == 0)
        &&& (self.is_registered() ==> self.is_open())
    }
}

/// Create a new unbounded channel: a sender handle and the consumer-side
/// event source, over a fresh, empty, unregistered state.
pub fn channel<T>() -> (r: (Sender<T>, Channel<T>))
    ensures
        r.1.wf(),
        r.1.queued() == Seq::<T>::empty(),
        r.1.capacity() is None,
        r.1.sender_count() == 1,
        !r.1.ping_pending(),
        !r.1.is_registered(),
        r.1.is_open(),
{
    let chan = Channel {
        queue: Vec::new(),
        bound: None,
        senders: 1,
        ping: false,
        registered: false,
        alive: true,
    };
    (Sender { _marker: PhantomData }, chan)
}

/// Create a new bounded channel of capacity `bound`: a sender handle and the
/// consumer-side event source, over a fresh, empty, unregistered state.
pub fn sync_channel<T>(bound: usize) -> (r: (SyncSender<T>, Channel<T>))
    ensures
        r.1.wf(),
        r.1.queued() == Seq::<T>::empty(),
        r.1.capacity() == Some(bound),
        r.1.sender_count() == 1,
        !r.1.ping_pending(),
        !r.1.is_registered(),
        r.1.is_open(),
{
    let chan = Channel {
        queue: Vec::new(),
        bound: Some(bound),
        senders: 1,
        ping: false,
        registered: false,
        alive: true,
    };
    (SyncSender { _marker: PhantomData }, chan)
}

/// The `Msg` events a drain delivers for the queued values `q`: one per
/// value, in queue order.
pub open spec fn msg_events<T>(q: Seq<T>) -> Seq<Event<T>> {
    q.map_values(|v: T| Event::Msg(v))
}

/// Everything one drain pass delivers when it finds the wakeup signal
/// pending: the queued values in order, each as a `Msg` event, closed off by
/// a single `Closed` event when every sender handle is gone.
pub open spec fn drain_events<T>(q: Seq<T>, closed: bool) -> Seq<Event<T>> {
    if closed {
        msg_events(q).push(Event::Closed)
    } else {
        msg_events(q)
    }
}

impl<T> Channel<T> {
    /// Process a readiness notification: drain the queue to exhaustion in
    /// one pass.
    ///
    /// When the wakeup signal is pending, the pass clears it, empties the
    /// queue and delivers one `Msg` event per value, oldest first; when no
    /// sender handle is left alive it delivers one final `Closed` event.
    /// When no signal is pending — the readiness was spurious, say a signal
    /// whose values an earlier pass already consumed — the drain is a no-op:
    /// no event, no change. Draining is therefore idempotent and safe to
    /// invoke on every wakeup, whatever is actually pending.
    pub fn process_events(&mut self) -> (events: Vec<Event<T>>)
        requires
            old(self).wf(),
            old(self).is_registered(),
        ensures
            final(self).wf(),
            final(self).capacity() == old(self).capacity(),
            final(self).sender_count() == old(self).sender_count(),
            final(self).is_registered(),
            final(self).is_open() == old(self).is_open(),
            !final(self).ping_pending(),
            old(self).ping_pending() ==> (final(self).queued() == Seq::<T>::empty()
                && events@ == drain_events(old(self).queued(), old(self).sender_count() == 0)),
            !old(self).ping_pending() ==> (final(self).queued() == old(self).queued()
                && events@ == Seq::<Event<T>>::empty()),
    {
        let mut events: Vec<Event<T>> = Vec::new();
        if !self.ping {
            return events;
        }
        self.ping = false;
        let ghost q0: Seq<T> = self.queue@;
        while self.queue.len() != 0
            invariant
                self.queue@.len() <= q0.len(),
                self.queue@ == q0.skip(q0.len() - self.queue@.len()),
                events@ == msg_events(q0.take(q0.len() - self.queue@.len())),
                self.bound == old(self).bound,
                self.senders == old(self).senders,
                self.registered == old(self).registered,
                self.alive == old(self).alive,
                !self.ping,
            decreases self.queue.len(),
        {
            let ghost k: int = q0.len() - self.queue@.len();
            let v = self.queue.remove(0);
            events.push(Event::Msg(v));
            proof {
                assert(v == q0[k]);
                assert(self.queue@ =~= q0.skip(k + 1));
                assert(q0.take(k + 1) =~= q0.take(k).push(q0[k]));
                assert(events@ =~= msg_events(q0.take(k + 1)));
            }
        }
        proof {
            assert(q0.take(q0.len() as int) =~= q0);
        }
        if self.senders == 0 {
            events.push(Event::Closed);
        }
        events
    }

    /// Register the channel with the event loop, so that pending wakeup
    /// signals are delivered to it as readiness. Installing the interest
    /// with the loop's polling backend is the paired wakeup source's own
    /// affair; the channel only records the transition.
    pub fn register(&mut self)
        requires
            old(self).wf(),
            !old(self).is_registered(),
            old(self).is_open(),
        ensures
            final(self).wf(),
            final(self).is_registered(),
            final(self).queued() == old(self).queued(),
            final(self).capacity() == old(self).capacity(),
            final(self).sender_count() == old(self).sender_count(),
            final(self).ping_pending() == old(self).ping_pending(),
            final(self).is_open() == old(self).is_open(),
    {
        self.registered = true;
    }

    /// Renew the registration, say after an interest-mask change: delegated
    /// unchanged to the paired wakeup source, with no behavior of the
    /// channel's own — the state is untouched.
    pub fn reregister(&mut self)
        requires
            old(self).wf(),
            old(self).is_registered(),
        ensures
            *final(self) == *old(self),
    {
    }

    /// Remove the channel from the event loop: no more readiness will be
    /// delivered until it is registered again. The state is otherwise
    /// untouched; queued values stay queued.
    pub fn unregister(&mut self)
        requires
            old(self).wf(),
            old(self).is_registered(),
        ensures
            final(self).wf(),
            !final(self).is_registered(),
            final(self).queued() == old(self).queued(),
            final(self).capacity() == old(self).capacity(),
            final(self).sender_count() == old(self).sender_count(),
            final(self).ping_pending() == old(self).ping_pending(),
            final(self).is_open() == old(self).is_open(),
    {
        self.registered = false;
    }

    /// Destroy the consumer end, as unregistering and then dropping the
    /// channel would: further drains stop, values still queued are discarded
    /// without notification, and every later send is refused with the value
    /// handed back.
    pub fn close(&mut self)
        requires
            old(self).wf(),
        ensures
            final(self).wf(),
            !final(self).is_open(),
            !final(self).is_registered(),
            final(self).queued() == Seq::<T>::empty(),
            final(self).capacity() == old(self).capacity(),
            final(self).sender_count() == old(self).sender_count(),
            final(self).ping_pending() == old(self).ping_pending(),
    {
        self.queue.clear();
        self.registered = false;
        self.alive = false;
    }
}

/// A sender handle of an unbounded channel. Any number of handles may exist;
/// each feeds the same queue and leaves the same wakeup signal pending.
///
/// The channel state counts the live handles, so a handle is never copied or
/// dropped silently: [`Sender::duplicate`] stands for cloning and
/// [`Sender::close`] for destruction, each adjusting the count.
pub struct Sender<T> {
    _marker: PhantomData<T>,
}

impl<T> Sender<T> {
    /// Send a value on an unbounded channel.
    ///
    /// Whatever the queue depth, a send on a live channel succeeds at once —
    /// there is no capacity to run out of — appends the value to the queue,
    /// and leaves the wakeup signal pending so the consumer is woken to
    /// drain. It fails only when the consumer end has been destroyed, and
    /// then hands the value back without signaling.
    pub fn send(&self, chan: &mut Channel<T>, t: T) -> (r: Result<(), SendError<T>>)
        requires
            old(chan).wf(),
            old(chan).capacity() is None,
        ensures
            final(chan).wf(),
            final(chan).capacity() == old(chan).capacity(),
            final(chan).sender_count() == old(chan).sender_count(),
            final(chan).is_registered() == old(chan).is_registered(),
            final(chan).is_open() == old(chan).is_open(),
            old(chan).is_open() ==> (r == Ok::<(), SendError<T>>(())
                && final(chan).queued() == old(chan).queued().push(t)
                && final(chan).ping_pending()),
            !old(chan).is_open() ==> (r == Err::<(), SendError<T>>(SendError(t))
                && final(chan).queued() == old(chan).queued()
                && final(chan).ping_pending() == old(chan).ping_pending()),
    {
        if chan.alive {
            chan.queue.push(t);
            chan.ping = true;
            Ok(())
        } else {
            Err(SendError(t))
        }
    }

    /// Duplicate this handle, as cloning a sender across threads would; the
    /// channel records one more live handle.
    pub fn duplicate(&self, chan: &mut Channel<T>) -> (r: Sender<T>)
        requires
            old(chan).wf(),
            old(chan).sender_count() < usize::MAX,
        ensures
            final(chan).wf(),
            final(chan).sender_count() == old(chan).sender_count() + 1,
            final(chan).queued() == old(chan).queued(),
            final(chan).capacity() == old(chan).capacity(),
            final(chan).ping_pending() == old(chan).ping_pending(),
            final(chan).is_registered() == old(chan).is_registered(),
            final(chan).is_open() == old(chan).is_open(),
    {
        chan.senders = chan.senders + 1;
        Sender { _marker: PhantomData }
    }

    /// Release this handle, as dropping a sender would. The channel records
    /// one less live handle, and the wakeup signal is left pending — whether
    /// or not anything was ever sent — so the consumer gets a chance to
    /// observe the closure once the last handle is gone.
    pub fn close(self, chan: &mut Channel<T>)
        requires
            old(chan).wf(),
            old(chan).sender_count() >= 1,
        ensures
            final(chan).wf(),
            final(chan).sender_count() == old(chan).sender_count() - 1,
            final(chan).ping_pending(),
            final(chan).queued() == old(chan).queued(),
            final(chan).capacity() == old(chan).capacity(),
            final(chan).is_registered() == old(chan).is_registered(),
            final(chan).is_open() == old(chan).is_open(),
    {
        chan.senders = chan.senders - 1;
        chan.ping = true;
    }
}

/// A sender handle of a bounded channel. Handles are counted exactly as for
/// [`Sender`]; the difference is what happens when the queue stands at
/// capacity.
pub struct SyncSender<T> {
    _marker: PhantomData<T>,
}

impl<T> SyncSender<T> {
    /// Send a value on a bounded channel, without blocking.
    ///
    /// On a live channel with room, the value is appended and the wakeup
    /// signal left pending. On a full queue the value is handed back in
    /// [`TrySendError::Full`] — but the wakeup signal is still left pending,
    /// since readiness should prompt the consumer to drain and make room.
    /// When the consumer end has been destroyed the value comes back in
    /// [`TrySendError::Disconnected`] and nothing is signaled: there is no
    /// consumer left to wake.
    pub fn try_send(&self, chan: &mut Channel<T>, t: T) -> (r: Result<(), TrySendError<T>>)
        requires
            old(chan).wf(),
            old(chan).capacity() is Some,
        ensures
            final(chan).wf(),
            final(chan).capacity() == old(chan).capacity(),
            final(chan).sender_count() == old(chan).sender_count(),
            final(chan).is_registered() == old(chan).is_registered(),
            final(chan).is_open() == old(chan).is_open(),
            !old(chan).is_open() ==> (r == Err::<(), TrySendError<T>>(TrySendError::Disconnected(t))
                && final(chan).queued() == old(chan).queued()
                && final(chan).ping_pending() == old(chan).ping_pending()),
            (old(chan).is_open() && old(chan).is_full()) ==> (
                r == Err::<(), TrySendError<T>>(TrySendError::Full(t))
                && final(chan).queued() == old(chan).queued()
                && final(chan).ping_pending()),
            (old(chan).is_open() && !old(chan).is_full()) ==> (
                r == Ok::<(), TrySendError<T>>(())
                && final(chan).queued() == old(chan).queued().push(t)
                && final(chan).ping_pending()),
    {
        if !chan.alive {
            return Err(TrySendError::Disconnected(t));
        }
        let full = match chan.bound {
            Some(b) => chan.queue.len() >= b,
            None => false,
        };
        chan.ping = true;
        if full {
            Err(TrySendError::Full(t))
        } else {
            chan.queue.push(t);
            Ok(())
        }
    }

    /// Send a value on a bounded channel, blocking when it is full.
    ///
    /// On a live channel this succeeds, appends the value and leaves the
    /// wakeup signal pending; when the consumer end has been destroyed the
    /// value comes back in [`SendError`]. A full queue is where the calling
    /// producer thread would be parked until the consumer drains; a drain
    /// cannot run while this call holds the channel state — the deadlock the
    /// thread running the event loop must avoid — so a full queue is ruled
    /// out by precondition here rather than waited out. Use
    /// [`SyncSender::try_send`] to observe fullness.
    pub fn send(&self, chan: &mut Channel<T>, t: T) -> (r: Result<(), SendError<T>>)
        requires
            old(chan).wf(),
            old(chan).capacity() is Some,
            old(chan).is_open() ==> !old(chan).is_full(),
        ensures
            final(chan).wf(),
            final(chan).capacity() == old(chan).capacity(),
            final(chan).sender_count() == old(chan).sender_count(),
            final(chan).is_registered() == old(chan).is_registered(),
            final(chan).is_open() == old(chan).is_open(),
            old(chan).is_open() ==> (r == Ok::<(), SendError<T>>(())
                && final(chan).queued() == old(chan).queued().push(t)
                && final(chan).ping_pending()),
            !old(chan).is_open() ==> (r == Err::<(), SendError<T>>(SendError(t))
                && final(chan).queued() == old(chan).queued()
                && final(chan).ping_pending() == old(chan).ping_pending()),
    {
        match self.try_send(chan, t) {
            Ok(()) => Ok(()),
            Err(TrySendError::Disconnected(v)) => Err(SendError(v)),
            Err(TrySendError::Full(v)) => {
                // the precondition rules a full queue out
                proof {
                    assert(false);
                }
                Err(SendError(v))
            },
        }
    }

    /// Duplicate this handle, as cloning a sender across threads would; the
    /// channel records one more live handle.
    pub fn duplicate(&self, chan: &mut Channel<T>) -> (r: SyncSender<T>)
        requires
            old(chan).wf(),
            old(chan).sender_count() < usize::MAX,
        ensures
            final(chan).wf(),
            final(chan).sender_count() == old(chan).sender_count() + 1,
            final(chan).queued() == old(chan).queued(),
            final(chan).capacity() == old(chan).capacity(),
            final(chan).ping_pending() == old(chan).ping_pending(),
            final(chan).is_registered() == old(chan).is_registered(),
            final(chan).is_open() == old(chan).is_open(),
    {
        chan.senders = chan.senders + 1;
        SyncSender { _marker: PhantomData }
    }

    /// Release this handle, as dropping a sender would. The channel records
    /// one less live handle, and the wakeup signal is left pending — whether
    /// or not anything was ever sent — so the consumer gets a chance to
    /// observe the closure once the last handle is gone.
    pub fn close(self, chan: &mut Channel<T>)
        requires
            old(chan).wf(),
            old(chan).sender_count() >= 1,
        ensures
            final(chan).wf(),
            final(chan).sender_count() == old(chan).sender_count() - 1,
            final(chan).ping_pending(),
            final(chan).queued() == old(chan).queued(),
            final(chan).capacity() == old(chan).capacity(),
            final(chan).is_registered() == old(chan).is_registered(),
            final(chan).is_open() == old(chan).is_open(),
    {
        chan.senders = chan.senders - 1;
        chan.ping = true;
    }
}

/// What one drain pass delivers, position by position: one `Msg` event per
/// queued value, at the value's queue position, and — when every sender is
/// gone — a single `Closed` event after them all.
pub proof fn lemma_drain_events_structure<T>(q: Seq<T>, closed: bool)
    ensures
        drain_events(q, closed).len() == q.len() + (if closed { 1int } else { 0int }),
        forall|k: int| 0 <= k < q.len() ==> drain_events(q, closed)[k] == Event::Msg(q[k]),
        closed ==> drain_events(q, closed)[q.len() as int] == Event::<T>::Closed,
        !closed ==> (forall|k: int|
            0 <= k < drain_events(q, closed).len() ==> drain_events(q, closed)[k] is Msg),
{
}

/// Values sent through a single producer handle before a drain are observed
/// by that drain in the order they were sent: each send appends its value to
/// the queue, so sends in the order `sent` land behind whatever `q0` was
/// already queued, and the drain reports every queued value at its queue
/// position.
pub proof fn lemma_drain_preserves_send_order<T>(
    q0: Seq<T>,
    sent: Seq<T>,
    closed: bool,
    i: int,
    j: int,
)
    requires
        0 <= i <= j < sent.len(),
    ensures
        drain_events(q0 + sent, closed)[q0.len() + i] == Event::Msg(sent[i]),
        drain_events(q0 + sent, closed)[q0.len() + j] == Event::Msg(sent[j]),
{
    lemma_drain_events_structure(q0 + sent, closed);
    assert((q0 + sent)[q0.len() + i] == sent[i]);
    assert((q0 + sent)[q0.len() + j] == sent[j]);
}

/// Once every sender handle has been released, a drain pass that runs
/// delivers exactly one `Closed` event, as its last event, with a `Msg` only
/// for each value still queued before it; when nothing remained queued it
/// delivers exactly one event, `Closed`, and no `Msg` at all.
pub proof fn lemma_closed_is_terminal<T>(q: Seq<T>)
    ensures
        drain_events(q, true).len() == q.len() + 1,
        drain_events(q, true).last() == Event::<T>::Closed,
        forall|k: int| 0 <= k < q.len() ==> drain_events(q, true)[k] is Msg,
        q.len() == 0 ==> drain_events(q, true) == seq![Event::<T>::Closed],
{
    lemma_drain_events_structure(q, true);
    if q.len() == 0 {
        assert(drain_events(q, true) =~= seq![Event::<T>::Closed]);
    }
}

/// A drain pass that finds nothing queued while senders remain delivers no
/// event at all: spurious wakeups are a no-op.
pub proof fn lemma_drain_empty_is_noop<T>()
    ensures
        drain_events(Seq::<T>::empty(), false) == Seq::<Event<T>>::empty(),
{
    assert(drain_events(Seq::<T>::empty(), false) =~= Seq::<Event<T>>::empty());
}

/// An unbounded channel is never full: a send on it always has room,
/// whatever the queue depth, so it never has cause to block.
pub proof fn lemma_unbounded_never_full<T>(c: Channel<T>)
    requires
        c.capacity() is None,
    ensures
        !c.is_full(),
{
}

/// A bounded channel holding as many values as its capacity — as it does
/// after accepting that many sends from empty, each appending one value — is
/// full, so its next non-blocking send is refused with the value handed
/// back.
pub proof fn lemma_full_at_capacity<T>(c: Channel<T>, n: usize)
    requires
        c.capacity() == Some(n),
        c.queued().len() == n,
    ensures
        c.is_full(),
{
}

} // verus!
