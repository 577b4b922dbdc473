//! The action-submission channel's decision core.
//!
//! External callers push actions into a queue shared between every sender
//! and the one receiver; the receiver drains that shared queue in batches
//! into a private buffer, so the shared side is touched once per batch
//! rather than once per action. A sender that finds the receiver parked
//! behind a registered waker must fire that waker exactly once. The queue
//! and waker bookkeeping is here; the lock around the shared state, the
//! reference counting and the waker itself are the caller's.

use std::collections::VecDeque;
use vstd::prelude::*;

verus! {

/// What one poll of the receiver produced: a value, the end of the stream,
/// or nothing yet.
pub enum Polled<T> {
    /// A value, or `None` when no value can ever arrive again.
    Ready(Option<T>),
    /// Nothing yet: the receiver parked itself behind a registered waker.
    Pending,
}

/// Creates a fresh channel: the state the senders push into, and the
/// receiving half that drains it.
pub fn channel<T>() -> (halves: (Shared<T>, Receiver<T>))
    ensures
        halves.0.queued() == Seq::<T>::empty(),
        !halves.0.has_waker(),
        halves.1.buffered() == Seq::<T>::empty(),
{
    (Shared::new(), Receiver::new())
}

/// The state shared between the senders and the receiver: the values queued
/// but not yet handed over, and whether the receiver is parked behind a
/// registered waker.
pub struct Shared<T> {
    queue: VecDeque<T>,
    waiting: bool,
}

impl<T> Shared<T> {
    /// The values queued on the shared side, oldest first.
    pub closed spec fn queued(&self) -> Seq<T> {
        self.queue@
    }

    /// Whether the receiver has registered a waker and parked.
    pub closed spec fn has_waker(&self) -> bool {
        self.waiting
    }

    /// Creates the shared state of a fresh channel: nothing queued, no waker
    /// registered.
    pub fn new() -> (shared: Self)
        ensures
            shared.queued() == Seq::<T>::empty(),
            !shared.has_waker(),
    {
        Shared { queue: VecDeque::new(), waiting: false }
    }

    /// Queues `value` behind every value already queued and takes the
    /// registered waker, if any.
    ///
    /// Returns `true` exactly when the receiver was parked: the caller must
    /// then fire the receiver's waker, after releasing its lock on this
    /// state. Taking the waker first means it fires once per parking, no
    /// matter how many sends race.
    pub fn send(&mut self, value: T) -> (wake: bool)
        ensures
            final(self).queued() == old(self).queued().push(value),
            wake == old(self).has_waker(),
            !final(self).has_waker(),
    {
        self.queue.push_back(value);
        let wake = self.waiting;
        self.waiting = false;
        wake
    }
}

/// The receiving half: a private buffer the receiver drains without holding
/// the shared state's lock.
pub struct Receiver<T> {
    buffer: VecDeque<T>,
}

impl<T> Receiver<T> {
    /// The values already moved out of the shared queue, oldest first.
    pub closed spec fn buffered(&self) -> Seq<T> {
        self.buffer@
    }

    /// Creates the receiving half of a fresh channel: nothing buffered.
    pub fn new() -> (receiver: Self)
        ensures
            receiver.buffered() == Seq::<T>::empty(),
    {
        Receiver { buffer: VecDeque::new() }
    }

    /// One poll of the receiver, deciding between a buffered value, a batch
    /// taken from the shared queue, the end of the stream, and parking.
    ///
    /// `disconnected` says that no sender remains, so an empty queue can
    /// never refill. In order:
    /// - a buffered value is handed out without touching the shared state;
    /// - otherwise the oldest shared value is handed out and the rest of the
    ///   shared queue moves into the buffer in one batch;
    /// - otherwise, with no sender left, the stream ends;
    /// - otherwise the receiver registers its waker and parks.
    pub fn poll_next(&mut self, shared: &mut Shared<T>, disconnected: bool) -> (polled: Polled<T>)
        ensures
            old(self).buffered().len() > 0 ==> {
                &&& polled matches Polled::Ready(Some(value)) && value == old(self).buffered()[0]
                &&& final(self).buffered() == old(self).buffered().drop_first()
                &&& *final(shared) == *old(shared)
            },
            old(self).buffered().len() == 0 && old(shared).queued().len() > 0 ==> {
                &&& polled matches Polled::Ready(Some(value)) && value == old(shared).queued()[0]
                &&& final(self).buffered() == old(shared).queued().drop_first()
                &&& final(shared).queued() == Seq::<T>::empty()
                &&& final(shared).has_waker() == old(shared).has_waker()
            },
            old(self).buffered().len() == 0 && old(shared).queued().len() == 0 && disconnected
                ==> {
                &&& polled matches Polled::Ready(None)
                &&& final(self).buffered() == old(self).buffered()
                &&& final(shared).queued() == old(shared).queued()
                &&& final(shared).has_waker() == old(shared).has_waker()
            },
            old(self).buffered().len() == 0 && old(shared).queued().len() == 0 && !disconnected
                ==> {
                &&& polled is Pending
                &&& final(self).buffered() == old(self).buffered()
                &&& final(shared).queued() == old(shared).queued()
                &&& final(shared).has_waker()
            },
    {
        if let Some(value) = self.buffer.pop_front() {
            return Polled::Ready(Some(value));
        }
        match shared.queue.pop_front() {
            Some(value) => {
                // Move every other pending value into the buffer in one
                // batch, so later polls skip the shared state entirely.
                std::mem::swap(&mut shared.queue, &mut self.buffer);
                Polled::Ready(Some(value))
            }
            None => {
                if disconnected {
                    Polled::Ready(None)
                } else {
                    shared.waiting = true;
                    Polled::Pending
                }
            }
        }
    }
}

} // verus!
