//! A model of the fan-in channel: the bounded, ordered,
//! multi-producer/single-consumer queue that carries canonical events from
//! both producers to the publisher. The model makes the channel's contract
//! explicit — FIFO order, a hard capacity bound with backpressure instead of
//! dropping, and closure only once every sender handle is gone — and every
//! operation is proved to preserve it.

use vstd::prelude::*;
use crate::event::PostEvent;

verus! {

/// The capacity the daemon configures its fan-in channel with.
pub const FAN_IN_CAPACITY: usize = 100;

/// What one enqueue attempt came to. A rejected event is handed back to the
/// caller: the channel never swallows an event it did not accept.
#[derive(Debug, Clone, PartialEq, Eq)]
pub enum SendAttempt {
    /// The event was appended at the tail of the queue.
    Accepted,
    /// The channel is at capacity; the caller must suspend and retry. The
    /// event is returned, not dropped.
    Full(PostEvent),
    /// The receiver is gone, so the event can never be delivered. This is
    /// the fatal condition for a producer.
    Closed(PostEvent),
}

/// What one dequeue attempt came to.
#[derive(Debug, Clone, PartialEq, Eq)]
pub enum RecvOutcome {
    /// The event that has waited longest.
    Item(PostEvent),
    /// The queue is empty but senders remain: the receiver must suspend
    /// until an event arrives or the last sender is dropped.
    Pending,
    /// The queue is empty and every sender handle has been dropped: no event
    /// will ever arrive again. The "no more events" signal.
    Disconnected,
}

/// The fan-in channel: a bounded FIFO queue of canonical events, together
/// with the bookkeeping that decides closure — how many sender handles are
/// still live, and whether the receiver still exists.
pub struct FanInChannel {
    /// The queued events, oldest first.
    pub events: Vec<PostEvent>,
    /// The configured capacity; the queue never holds more than this.
    pub capacity: usize,
    /// How many sender handles are still live.
    pub senders: usize,
    /// Whether the receiving end still exists.
    pub receiver_open: bool,
}

impl FanInChannel {
    /// The channel's invariant: the number of concurrently held events never
    /// exceeds the configured capacity.
    pub open spec fn inv(self) -> bool {
        self.events@.len() <= self.capacity
    }

    /// A fresh, empty channel with the given capacity and that many live
    /// sender handles, receiver attached.
    pub fn new(capacity: usize, senders: usize) -> (c: Self)
        requires
            capacity >= 1,
        ensures
            c.inv(),
            c.events@ == Seq::<PostEvent>::empty(),
            c.capacity == capacity,
            c.senders == senders,
            c.receiver_open,
    {
        FanInChannel { events: Vec::new(), capacity, senders, receiver_open: true }
    }

    /// One enqueue attempt by a live sender. Exactly one of three things
    /// happens: with the receiver gone the event comes back as `Closed`;
    /// with space free it is appended at the tail; at capacity it comes back
    /// as `Full` and nothing is dropped — backpressure, not loss.
    pub fn try_send(&mut self, e: PostEvent) -> (r: SendAttempt)
        requires
            old(self).inv(),
            old(self).senders >= 1,
        ensures
            final(self).inv(),
            final(self).capacity == old(self).capacity,
            final(self).senders == old(self).senders,
            final(self).receiver_open == old(self).receiver_open,
            !old(self).receiver_open ==> r == SendAttempt::Closed(e)
                && final(self).events@ == old(self).events@,
            old(self).receiver_open && old(self).events@.len() < old(self).capacity
                ==> r == SendAttempt::Accepted
                && final(self).events@ == old(self).events@.push(e),
            old(self).receiver_open && old(self).events@.len() >= old(self).capacity
                ==> r == SendAttempt::Full(e)
                && final(self).events@ == old(self).events@,
    {
        if !self.receiver_open {
            SendAttempt::Closed(e)
        } else if self.events.len() < self.capacity {
            self.events.push(e);
            SendAttempt::Accepted
        } else {
            SendAttempt::Full(e)
        }
    }

    /// One dequeue attempt by the receiver. The oldest event comes out
    /// first; an empty queue reports `Pending` while any sender is live and
    /// `Disconnected` once all are gone, which is the signal on which the
    /// publisher completes normally.
    pub fn recv(&mut self) -> (r: RecvOutcome)
        requires
            old(self).inv(),
            old(self).receiver_open,
        ensures
            final(self).inv(),
            final(self).capacity == old(self).capacity,
            final(self).senders == old(self).senders,
            final(self).receiver_open == old(self).receiver_open,
            old(self).events@.len() > 0 ==> r == RecvOutcome::Item(old(self).events@[0])
                && final(self).events@ == old(self).events@.drop_first(),
            old(self).events@.len() == 0 && old(self).senders > 0
                ==> r == RecvOutcome::Pending && final(self).events@ == old(self).events@,
            old(self).events@.len() == 0 && old(self).senders == 0
                ==> r == RecvOutcome::Disconnected && final(self).events@ == old(self).events@,
    {
        if self.events.len() > 0 {
            let e = self.events.remove(0);
            proof {
                assert(old(self).events@.remove(0) =~= old(self).events@.drop_first());
            }
            RecvOutcome::Item(e)
        } else if self.senders > 0 {
            RecvOutcome::Pending
        } else {
            RecvOutcome::Disconnected
        }
    }

    /// A producer drops its sender handle. Once the count reaches zero the
    /// channel is closed: nothing can be enqueued any more and the receiver,
    /// after draining, sees `Disconnected`.
    pub fn drop_sender(&mut self)
        requires
            old(self).inv(),
            old(self).senders >= 1,
        ensures
            final(self).inv(),
            final(self).events@ == old(self).events@,
            final(self).capacity == old(self).capacity,
            final(self).senders == old(self).senders - 1,
            final(self).receiver_open == old(self).receiver_open,
    {
        self.senders = self.senders - 1;
    }

    /// The receiver goes away (the publisher task has exited). Every
    /// subsequent enqueue attempt fails with `Closed`.
    pub fn close_receiver(&mut self)
        requires
            old(self).inv(),
        ensures
            final(self).inv(),
            final(self).events@ == old(self).events@,
            final(self).capacity == old(self).capacity,
            final(self).senders == old(self).senders,
            !final(self).receiver_open,
    {
        self.receiver_open = false;
    }
}

} // verus!
