//! Effects: actions sent as side effects of performing other actions, and
//! the scheduler modifiers that decide when a delayed action fires.
//!
//! Time is measured in ticks (an abstract, monotonically increasing `u64`
//! unit); callers convert wall-clock instants and durations to ticks.

use std::collections::VecDeque;
use std::marker::PhantomData;
use vstd::prelude::*;
use vstd::std_specs::convert::FromSpec;

verus! {

/// The internal action queue of one runtime instance.
///
/// A transition function receives a mutable handle to this queue and calls
/// [`send`][`Effects::send`] to enqueue follow-up actions. The runtime drains
/// the queue to exhaustion before it looks at the next externally submitted
/// action, which is what keeps internally generated actions ordered ahead of
/// later external ones.
pub struct Effects<Action> {
    queue: VecDeque<Action>,
}

impl<Action> Effects<Action> {
    /// The queued actions, oldest first.
    pub closed spec fn view(&self) -> Seq<Action> {
        self.queue@
    }

    /// Creates an empty effect queue.
    pub fn new() -> (effects: Self)
        ensures
            effects@ == Seq::<Action>::empty(),
    {
        Effects { queue: VecDeque::new() }
    }

    /// Enqueues `action` behind every action already queued.
    pub fn send(&mut self, action: Action)
        ensures
            final(self)@ == old(self)@.push(action),
    {
        self.queue.push_back(action);
    }

    /// Removes and returns the oldest queued action, if any.
    pub fn next(&mut self) -> (action: Option<Action>)
        ensures
            old(self)@.len() == 0 ==> action is None && final(self)@ == old(self)@,
            old(self)@.len() > 0 ==> action == Some(old(self)@[0]) && final(self)@ == old(self)@.drop_first(),
    {
        self.queue.pop_front()
    }

    /// Returns the oldest queued action without removing it, if any.
    pub fn peek(&self) -> (head: Option<&Action>)
        ensures
            self@.len() == 0 ==> head is None,
            self@.len() > 0 ==> head == Some(&self@[0]),
    {
        if self.queue.len() == 0 {
            None
        } else {
            Some(&self.queue[0])
        }
    }

    /// The number of queued actions.
    pub fn len(&self) -> (n: usize)
        ensures
            n == self@.len(),
    {
        self.queue.len()
    }

    /// Returns `true` if no action is queued.
    pub fn is_empty(&self) -> (empty: bool)
        ensures
            empty == (self@.len() == 0),
    {
        self.queue.len() == 0
    }

    /// Moves every action of `other`, oldest first, behind the actions
    /// already queued here.
    pub fn append(&mut self, other: &mut Effects<Action>)
        ensures
            final(self)@ == old(self)@ + old(other)@,
            final(other)@ == Seq::<Action>::empty(),
    {
        self.queue.append(&mut other.queue);
    }

    /// Opens a scope that collects actions of a narrower child type.
    ///
    /// A delegated sub-transition-function sends child actions into the
    /// scope; [`merge`][`Effects::merge`] then forwards them, converted to
    /// the parent action type, in the order they were sent. The scope
    /// buffers until then: to keep the queue in send order, merge a scope
    /// directly after the delegated call that filled it, before anything
    /// else is sent on this handle.
    pub fn scope<Child>(&self) -> (scoped: Scoped<Action, Child>)
        ensures
            scoped@ == Seq::<Child>::empty(),
    {
        Scoped { queue: VecDeque::new(), marker: PhantomData }
    }

    /// Forwards every action collected in `scoped`, oldest first, converting
    /// each to the parent action type.
    ///
    /// The scoped actions land behind whatever this queue holds when `merge`
    /// runs: an action sent on this handle between [`scope`][`Effects::scope`]
    /// and `merge` precedes them, so merge each scope as soon as its
    /// delegated call returns.
    pub fn merge<Child>(&mut self, scoped: Scoped<Action, Child>)
        where Action: From<Child>
        ensures
            final(self)@.len() == old(self)@.len() + scoped@.len(),
            final(self)@.subrange(0, old(self)@.len() as int) == old(self)@,
            Action::obeys_from_spec() ==> final(self)@ == old(self)@ + scoped@.map(
                |i: int, child: Child| Action::from_spec(child),
            ),
    {
        let ghost children = scoped@;
        let ghost mapped = scoped@.map(|i: int, child: Child| Action::from_spec(child));
        let mut queue = scoped.queue;
        let ghost done: int = 0;
        loop
            invariant
                0 <= done <= children.len(),
                mapped == children.map(|i: int, child: Child| Action::from_spec(child)),
                queue@ == children.subrange(done, children.len() as int),
                self@.len() == old(self)@.len() + done,
                self@.subrange(0, old(self)@.len() as int) == old(self)@,
                Action::obeys_from_spec() ==> self@ == old(self)@ + mapped.subrange(0, done),
            ensures
                done == children.len(),
            decreases children.len() - done,
        {
            match queue.pop_front() {
                None => {
                    break;
                }
                Some(child) => {
                    proof {
                        assert(child == children[done]);
                        assert(queue@ =~= children.subrange(done + 1, children.len() as int));
                    }
                    let action = Action::from(child);
                    self.queue.push_back(action);
                    proof {
                        done = done + 1;
                        assert(self@.subrange(0, old(self)@.len() as int) =~= old(self)@);
                        if Action::obeys_from_spec() {
                            assert(0 <= done - 1 < children.len());
                            assert(mapped.len() == children.len());
                            assert(children[done - 1] == child);
                            assert(mapped[done - 1] == Action::from_spec(children[done - 1]));
                            assert(mapped.subrange(0, done) =~= mapped.subrange(
                                0,
                                done - 1,
                            ).push(mapped[done - 1]));
                            assert(self@ =~= old(self)@ + mapped.subrange(0, done));
                        }
                    }
                }
            }
        }
        proof {
            assert(children.subrange(0, children.len() as int) =~= children);
            if Action::obeys_from_spec() {
                assert(mapped.subrange(0, mapped.len() as int) =~= mapped);
            }
        }
    }
}

/// An effect handle narrowed to a child action type.
///
/// Created by [`Effects::scope`]; consumed by [`Effects::merge`].
pub struct Scoped<Action, Child> {
    queue: VecDeque<Child>,
    marker: PhantomData<Action>,
}

impl<Action, Child> Scoped<Action, Child> {
    /// The child actions sent into this scope, oldest first.
    pub closed spec fn view(&self) -> Seq<Child> {
        self.queue@
    }

    /// Enqueues a child action behind every action already in the scope.
    pub fn send(&mut self, child: Child)
        ensures
            final(self)@ == old(self)@.push(child),
    {
        self.queue.push_back(child);
    }
}

/// When a repeating or debounced send uses an interval, that interval can
/// begin immediately (`Leading`) or only after one full period (`Trailing`).
#[derive(Clone, Copy, Debug, PartialEq, Eq, Structural)]
pub enum Interval {
    /// The first action should be sent immediately.
    Leading(u64),
    /// The first action should not be sent until one interval has passed.
    Trailing(u64),
}

impl Interval {
    /// The length of the interval, in ticks.
    pub open spec fn duration_spec(&self) -> u64 {
        match *self {
            Interval::Leading(duration) => duration,
            Interval::Trailing(duration) => duration,
        }
    }

    /// Returns the length of the interval, in ticks.
    pub fn duration(&self) -> (duration: u64)
        ensures
            duration == self.duration_spec(),
    {
        match self {
            Interval::Leading(duration) => *duration,
            Interval::Trailing(duration) => *duration,
        }
    }
}

/// The deadline at which a freshly started (no pending predecessor) debounce
/// window fires: immediately for a leading interval, one full period later
/// for a trailing one.
pub open spec fn fresh_when_spec(now: u64, interval: Interval) -> int {
    match interval {
        Interval::Leading(_) => now as int,
        Interval::Trailing(duration) => now + duration,
    }
}

/// The deadline a debounced send fires at, given the current tick `now` and
/// the deadline of the previous debounced send, if one exists:
/// - a previous deadline still in the future is kept unchanged, so rapid
///   repeated calls collapse onto the same pending deadline;
/// - a previous deadline that fired less than one interval ago re-arms one
///   interval after it;
/// - otherwise a fresh window starts at `now`.
pub open spec fn debounce_when_spec(now: u64, previous: Option<u64>, interval: Interval) -> int {
    let delay = interval.duration_spec();
    match previous {
        Some(prev) => if prev > now {
            prev as int
        } else if prev + delay > now {
            prev + delay
        } else {
            fresh_when_spec(now, interval)
        },
        None => fresh_when_spec(now, interval),
    }
}

/// Computes the deadline for a debounced send and stores it in `previous` as
/// the deadline the *next* call will see.
///
/// The previous pending send, if any, is superseded: the caller cancels the
/// task that `previous` described and schedules a new one at the returned
/// deadline.
pub fn debounce(now: u64, previous: &mut Option<u64>, interval: &Interval) -> (deadline: u64)
    requires
        now + interval.duration_spec() <= u64::MAX,
    ensures
        deadline == debounce_when_spec(now, *old(previous), *interval),
        *final(previous) == Some(deadline),
        deadline >= now,
{
    let delay = interval.duration();
    let deadline: u64 = match *previous {
        Some(prev) => {
            if prev > now {
                prev
            } else if prev + delay > now {
                prev + delay
            } else {
                fresh_when(now, interval)
            }
        }
        None => fresh_when(now, interval),
    };
    *previous = Some(deadline);
    deadline
}

/// Returns the deadline of a freshly started debounce window.
fn fresh_when(now: u64, interval: &Interval) -> (deadline: u64)
    requires
        now + interval.duration_spec() <= u64::MAX,
    ensures
        deadline == fresh_when_spec(now, *interval),
{
    match interval {
        Interval::Leading(_) => now,
        Interval::Trailing(duration) => now + *duration,
    }
}

/// The deadline a coalesced send fires at: a previous deadline still in the
/// future is kept unchanged, so every call inside one window collapses onto
/// a single flush no later than one timeout after the window's first call;
/// a previous deadline that already fired counts as a closed window, and the
/// call starts a new one firing one timeout after `now`.
pub open spec fn coalesce_when_spec(now: u64, previous: Option<u64>, timeout: u64) -> int {
    match previous {
        Some(prev) => if prev > now {
            prev as int
        } else {
            now + timeout
        },
        None => now + timeout,
    }
}

/// Computes the deadline for a coalesced send and stores it in `previous` as
/// the deadline the *next* call will see.
///
/// The previous pending send, if any, is superseded: the caller cancels the
/// task that `previous` described and schedules a new one at the returned
/// deadline, so repeated calls always leave at most one send pending.
pub fn coalesce(now: u64, previous: &mut Option<u64>, timeout: u64) -> (deadline: u64)
    requires
        now + timeout <= u64::MAX,
    ensures
        deadline == coalesce_when_spec(now, *old(previous), timeout),
        *final(previous) == Some(deadline),
        deadline >= now,
{
    let deadline: u64 = match *previous {
        Some(prev) => {
            if prev > now {
                prev
            } else {
                now + timeout
            }
        }
        None => now + timeout,
    };
    *previous = Some(deadline);
    deadline
}

/// The deadline of a one-shot delayed send: `delay` ticks after `now`.
pub fn after_when(now: u64, delay: u64) -> (deadline: u64)
    requires
        now + delay <= u64::MAX,
    ensures
        deadline == now + delay,
{
    now + delay
}

/// The index of the first tick of a repeating send: tick `0` (at the start
/// instant itself) for a leading interval, tick `1` for a trailing one.
pub fn first_tick(interval: &Interval) -> (n: u64)
    ensures
        *interval matches Interval::Leading(_) ==> n == 0,
        *interval matches Interval::Trailing(_) ==> n == 1,
{
    match interval {
        Interval::Leading(_) => 0,
        Interval::Trailing(_) => 1,
    }
}

/// The deadline of the `n`-th tick of a repeating send that started at
/// `start`: `start + n * period` ticks, or `None` once that exceeds the
/// largest representable tick (the repetition then ends).
pub fn every_when(start: u64, period: u64, n: u64) -> (deadline: Option<u64>)
    ensures
        deadline is Some <==> start + period * n <= u64::MAX,
        deadline matches Some(tick) ==> tick == start + period * n,
{
    match period.checked_mul(n) {
        None => None,
        Some(offset) => start.checked_add(offset),
    }
}

/// Debounce collapsing: a first call at `t1` with an empty slot and a
/// trailing interval arms a send at `t1 + delay`; every further call that
/// lands before that deadline observes it still pending and keeps it
/// unchanged, so any number of calls less than one interval apart fire
/// exactly once, at one interval after the first call of the window.
pub proof fn lemma_debounce_collapses(t1: u64, t2: u64, interval: Interval)
    requires
        interval is Trailing,
        t1 + interval.duration_spec() <= u64::MAX,
        t1 <= t2 < t1 + interval.duration_spec(),
    ensures
        debounce_when_spec(t1, None::<u64>, interval) == t1 + interval.duration_spec(),
        debounce_when_spec(
            t2,
            Some((t1 + interval.duration_spec()) as u64),
            interval,
        ) == t1 + interval.duration_spec(),
{
}

/// Debounce re-arming: a call that lands after the previous deadline fired,
/// but less than one interval later, re-arms at one interval after that
/// previous deadline; a call at least one interval after the previous
/// deadline starts a fresh window.
pub proof fn lemma_debounce_rearms(now: u64, prev: u64, interval: Interval)
    requires
        now + interval.duration_spec() <= u64::MAX,
        prev <= now,
    ensures
        prev + interval.duration_spec() > now ==> debounce_when_spec(
            now,
            Some(prev),
            interval,
        ) == prev + interval.duration_spec(),
        prev + interval.duration_spec() <= now ==> debounce_when_spec(
            now,
            Some(prev),
            interval,
        ) == fresh_when_spec(now, interval),
{
}

/// Coalesce windowing: a call with no previous deadline opens a window that
/// flushes one timeout later; every further call inside that window keeps
/// the single pending flush unchanged — no later than one timeout after the
/// window's first call — and a call at or after the flush opens a new
/// window, one timeout after itself.
pub proof fn lemma_coalesce_window(t1: u64, t2: u64, timeout: u64)
    requires
        t1 + timeout <= u64::MAX,
        t2 + timeout <= u64::MAX,
        t1 <= t2,
    ensures
        coalesce_when_spec(t1, None::<u64>, timeout) == t1 + timeout,
        t2 < t1 + timeout ==> coalesce_when_spec(
            t2,
            Some((t1 + timeout) as u64),
            timeout,
        ) == t1 + timeout,
        t2 >= t1 + timeout ==> coalesce_when_spec(
            t2,
            Some((t1 + timeout) as u64),
            timeout,
        ) == t2 + timeout,
{
}

} // verus!
