//! The timer facility: a deadline-ordered queue of pending wakeups.
//!
//! One background thread per process polls this queue: it drains every entry
//! whose deadline has elapsed, fires the drained wakers, and then sleeps
//! until the next remaining deadline, or until a sooner registration wakes it
//! early. The queue itself, the wakeup-entry state machine, and the decision
//! of when to wake the polling thread early are here; the thread, the lock
//! around the queue, and the wakers are the caller's.

use std::collections::VecDeque;
use vstd::prelude::*;

verus! {

/// Entries hold deadlines that never exceed `u64` ticks, weakly increasing
/// from the front; equal deadlines keep their insertion order.
pub open spec fn sorted_by_deadline<Value>(entries: Seq<(u64, Value)>) -> bool {
    forall|i: int, j: int| 0 <= i < j < entries.len() ==> entries[i].0 <= entries[j].0
}

/// Where a new entry with deadline `key` lands in `entries`: just after the
/// longest prefix of deadlines not above `key`, so that equal deadlines fire
/// in the order they were registered.
pub open spec fn insertion_point<Value>(entries: Seq<(u64, Value)>, key: u64) -> int
    decreases entries.len(),
{
    if entries.len() == 0 {
        0
    } else if entries[0].0 <= key {
        1 + insertion_point(entries.drop_first(), key)
    } else {
        0
    }
}

/// Where the insertion point lies: everything before it is at or below
/// `key`, and the entry at it, if any, is strictly above `key` — so for a
/// well-formed queue it marks exactly the elapsed prefix.
pub proof fn lemma_insertion_point_bounds<Value>(entries: Seq<(u64, Value)>, key: u64)
    ensures
        0 <= insertion_point(entries, key) <= entries.len(),
        forall|j: int| 0 <= j < insertion_point(entries, key) ==> entries[j].0 <= key,
        insertion_point(entries, key) < entries.len() ==> entries[insertion_point(
            entries,
            key,
        )].0 > key,
    decreases entries.len(),
{
    if entries.len() > 0 && entries[0].0 <= key {
        lemma_insertion_point_bounds(entries.drop_first(), key);
        assert forall|j: int| 0 <= j < insertion_point(entries, key) implies entries[j].0
            <= key by {
            if j > 0 {
                assert(entries.drop_first()[j - 1] == entries[j]);
            }
        }
    }
}

proof fn lemma_insertion_point_unique<Value>(entries: Seq<(u64, Value)>, key: u64, i: int)
    requires
        0 <= i <= entries.len(),
        forall|j: int| 0 <= j < i ==> entries[j].0 <= key,
        i < entries.len() ==> entries[i as int].0 > key,
    ensures
        i == insertion_point(entries, key),
    decreases entries.len(),
{
    if entries.len() == 0 {
    } else if entries[0].0 <= key {
        assert(i >= 1);
        lemma_insertion_point_unique(entries.drop_first(), key, i - 1);
    } else {
        assert(i == 0);
    }
}

/// A deadline-ordered queue: the front entry is the soonest deadline, and
/// entries with equal deadlines keep the order in which they were inserted.
pub struct Queue<Value> {
    deque: VecDeque<(u64, Value)>,
}

impl<Value> Queue<Value> {
    /// The queued entries, soonest deadline first.
    pub closed spec fn view(&self) -> Seq<(u64, Value)> {
        self.deque@
    }

    /// The queue's ordering invariant.
    pub open spec fn wf(&self) -> bool {
        sorted_by_deadline(self@)
    }

    /// Creates an empty queue.
    pub fn new() -> (queue: Self)
        ensures
            queue@ == Seq::<(u64, Value)>::empty(),
            queue.wf(),
    {
        Queue { deque: VecDeque::new() }
    }

    /// The number of queued entries.
    pub fn len(&self) -> (n: usize)
        ensures
            n == self@.len(),
    {
        self.deque.len()
    }

    /// Returns the soonest queued deadline, if any entry is queued.
    pub fn peek_next(&self) -> (next: Option<u64>)
        ensures
            self@.len() == 0 ==> next is None,
            self@.len() > 0 ==> next == Some(self@[0].0),
    {
        if self.deque.len() == 0 {
            None
        } else {
            Some(self.deque[0].0)
        }
    }

    /// Inserts an entry, keeping deadlines ordered; an entry whose deadline
    /// equals ones already queued goes behind them, so equal deadlines fire
    /// in registration order.
    pub fn insert(&mut self, deadline: u64, value: Value)
        requires
            old(self).wf(),
        ensures
            final(self).wf(),
            final(self)@ == old(self)@.insert(
                insertion_point(old(self)@, deadline),
                (deadline, value),
            ),
    {
        let ghost entries = self.deque@;
        let mut i: usize = 0;
        while i < self.deque.len() && self.deque[i].0 <= deadline
            invariant
                self.deque@ == entries,
                sorted_by_deadline(entries),
                i <= entries.len(),
                forall|j: int| 0 <= j < i ==> entries[j].0 <= deadline,
            decreases entries.len() - i,
        {
            i = i + 1;
        }
        proof {
            lemma_insertion_point_unique(entries, deadline, i as int);
        }
        self.deque.insert(i, (deadline, value));
        proof {
            let placed = entries.insert(i as int, (deadline, value));
            assert forall|a: int, b: int| 0 <= a < b < placed.len() implies placed[a].0
                <= placed[b].0 by {
                if a < i && b > i {
                    assert(placed[a] == entries[a] && placed[b] == entries[b - 1]);
                }
            }
        }
    }

    /// Removes and returns, soonest first, the value of every entry whose
    /// deadline has elapsed (is at or before `now`).
    pub fn drain_until(&mut self, now: u64) -> (fired: Vec<Value>)
        requires
            old(self).wf(),
        ensures
            final(self).wf(),
            final(self)@ == old(self)@.subrange(
                insertion_point(old(self)@, now),
                old(self)@.len() as int,
            ),
            fired@ == old(self)@.subrange(0, insertion_point(old(self)@, now)).map(
                |i: int, entry: (u64, Value)| entry.1,
            ),
    {
        let ghost entries = self.deque@;
        let ghost cut = insertion_point(entries, now);
        proof {
            lemma_insertion_point_bounds(entries, now);
        }
        let mut fired: Vec<Value> = Vec::new();
        let ghost done: int = 0;
        loop
            invariant
                sorted_by_deadline(entries),
                0 <= done <= cut <= entries.len(),
                forall|j: int| 0 <= j < cut ==> entries[j].0 <= now,
                cut < entries.len() ==> entries[cut].0 > now,
                self.deque@ == entries.subrange(done, entries.len() as int),
                fired@ == entries.subrange(0, done).map(|i: int, entry: (u64, Value)| entry.1),
            ensures
                done == cut,
            decreases cut - done,
        {
            let stop = match self.peek_next() {
                None => true,
                Some(next) => next > now,
            };
            if stop {
                proof {
                    if done < cut {
                        assert(self.deque@[0] == entries[done]);
                    }
                }
                break;
            }
            proof {
                assert(self.deque@[0] == entries[done]);
                if done == cut {
                    assert(entries[cut].0 > now);
                }
            }
            match self.deque.pop_front() {
                None => {
                    break;
                }
                Some(entry) => {
                    fired.push(entry.1);
                    proof {
                        done = done + 1;
                        assert(self.deque@ =~= entries.subrange(done, entries.len() as int));
                        assert(fired@ =~= entries.subrange(0, done).map(
                            |i: int, entry: (u64, Value)| entry.1,
                        ));
                    }
                }
            }
        }
        proof {
            assert(final(self)@ == entries.subrange(cut, entries.len() as int));
            assert forall|a: int, b: int|
                0 <= a < b < final(self)@.len() implies final(self)@[a].0 <= final(self)@[b].0 by {
                assert(final(self)@[a] == entries[cut + a] && final(self)@[b] == entries[cut + b]);
            }
        }
        fired
    }
}

/// Timer monotonic firing: in a well-formed queue an entry with a smaller
/// deadline always sits ahead of one with a larger deadline — however the two
/// were ordered at registration — and whenever a drain fires the later
/// deadline, it fired the earlier one too (at an earlier position).
pub proof fn lemma_monotonic_firing<Value>(entries: Seq<(u64, Value)>, now: u64, a: int, b: int)
    requires
        sorted_by_deadline(entries),
        0 <= a < entries.len(),
        0 <= b < entries.len(),
        entries[a].0 < entries[b].0,
    ensures
        a < b,
        b < insertion_point(entries, now) ==> a < insertion_point(entries, now),
{
    lemma_insertion_point_bounds(entries, now);
    if a >= b {
        assert(b < a ==> entries[b].0 <= entries[a].0);
    }
}

/// One pending wakeup's lifecycle: freshly registered (`New`), holding a
/// registered waker (`Waiting`), past its deadline with the waker fired
/// (`Ready`), or finished (`Done`).
#[derive(Clone, Copy, Debug, PartialEq, Eq, Structural)]
pub enum DelayState {
    /// Registered, but not yet polled: no waker exists to fire.
    New,
    /// Polled at least once: a waker is registered and may be fired.
    Waiting,
    /// The deadline elapsed and the waker was fired.
    Ready,
    /// The wakeup was consumed or abandoned.
    Done,
}

/// What the polling thread must do with a drained entry whose deadline has
/// elapsed.
#[derive(Clone, Copy, Debug, PartialEq, Eq, Structural)]
pub enum Elapsed {
    /// Fire the entry's registered waker.
    Fire,
    /// Put the entry back in the queue, un-fired.
    Keep,
    /// Forget the entry.
    Discard,
}

impl DelayState {
    /// The transition the polling thread applies to an entry whose deadline
    /// has elapsed: a `Waiting` entry becomes `Ready` and its waker must be
    /// fired; a `New` entry has no waker yet, so it must be kept queued,
    /// un-fired, until it is polled; elapsed `Ready` and `Done` entries are
    /// spent.
    pub fn on_elapsed(self) -> (r: (DelayState, Elapsed))
        ensures
            self is Waiting ==> r == (DelayState::Ready, Elapsed::Fire),
            self is New ==> r == (DelayState::New, Elapsed::Keep),
            self is Ready ==> r == (DelayState::Ready, Elapsed::Discard),
            self is Done ==> r == (DelayState::Done, Elapsed::Discard),
    {
        match self {
            DelayState::Waiting => (DelayState::Ready, Elapsed::Fire),
            DelayState::New => (DelayState::New, Elapsed::Keep),
            DelayState::Ready => (DelayState::Ready, Elapsed::Discard),
            DelayState::Done => (DelayState::Done, Elapsed::Discard),
        }
    }
}

/// Whether registering a deadline must wake the polling thread early: yes
/// when nothing was scheduled, or when the new deadline is sooner than the
/// soonest one the thread is currently sleeping towards.
pub fn should_wake(pending: Option<u64>, new: u64) -> (wake: bool)
    ensures
        wake <==> (pending is None || new < pending.unwrap()),
{
    match pending {
        None => true,
        Some(next) => new < next,
    }
}

/// The wakeup registry the timer facility keeps behind its lock: the
/// deadline-ordered queue together with the registration rule that decides
/// when the polling thread must be woken early.
pub struct Scheduler<Value> {
    queue: Queue<Value>,
}

impl<Value> Scheduler<Value> {
    /// The registered wakeups, soonest deadline first.
    pub closed spec fn view(&self) -> Seq<(u64, Value)> {
        self.queue@
    }

    /// The registry's ordering invariant.
    pub open spec fn wf(&self) -> bool {
        sorted_by_deadline(self@)
    }

    /// Creates an empty registry.
    pub fn new() -> (scheduler: Self)
        ensures
            scheduler@ == Seq::<(u64, Value)>::empty(),
            scheduler.wf(),
    {
        Scheduler { queue: Queue::new() }
    }

    /// Registers a wakeup and says whether the polling thread must be woken
    /// early: it must exactly when nothing was registered yet, or when the
    /// new deadline is sooner than the soonest already registered.
    pub fn add(&mut self, deadline: u64, value: Value) -> (wake: bool)
        requires
            old(self).wf(),
        ensures
            final(self).wf(),
            final(self)@ == old(self)@.insert(
                insertion_point(old(self)@, deadline),
                (deadline, value),
            ),
            wake <==> (old(self)@.len() == 0 || deadline < old(self)@[0].0),
    {
        let wake = should_wake(self.queue.peek_next(), deadline);
        self.queue.insert(deadline, value);
        wake
    }

    /// Returns the soonest registered deadline: what the polling thread
    /// sleeps towards, if anything is registered.
    pub fn peek_next(&self) -> (next: Option<u64>)
        ensures
            self@.len() == 0 ==> next is None,
            self@.len() > 0 ==> next == Some(self@[0].0),
    {
        self.queue.peek_next()
    }

    /// Removes and returns, soonest first, the value of every wakeup whose
    /// deadline has elapsed.
    pub fn drain_until(&mut self, now: u64) -> (fired: Vec<Value>)
        requires
            old(self).wf(),
        ensures
            final(self).wf(),
            final(self)@ == old(self)@.subrange(
                insertion_point(old(self)@, now),
                old(self)@.len() as int,
            ),
            fired@ == old(self)@.subrange(0, insertion_point(old(self)@, now)).map(
                |i: int, entry: (u64, Value)| entry.1,
            ),
    {
        self.queue.drain_until(now)
    }
}

} // verus!
