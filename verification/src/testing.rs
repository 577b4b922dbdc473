//! The deterministic test runtime: synchronous, single-threaded, and strict.
//!
//! Every step asserts the state the reducer must reach, and every effect the
//! reducer emits must be explicitly consumed, in order, by a matching
//! [`recv`][`TestStore::recv`] before the next step or shutdown.

use crate::effects::Effects;
use crate::reducer::Reducer;
use vstd::prelude::*;
use vstd::std_specs::cmp::PartialEqSpec;

verus! {

/// Why a test-runtime step failed.
#[derive(Clone, Copy, Debug, PartialEq, Eq, Structural)]
pub enum TestFailure {
    /// A previously emitted effect was never consumed by a `recv`.
    UnconsumedEffects,
    /// `recv` was called, but the reducer had emitted no effect.
    NoActionReceived,
    /// The oldest emitted effect differs from the action `recv` named.
    UnexpectedAction,
    /// The state after applying the action differs from the expected state.
    UnexpectedState,
}

/// A synchronous runtime for exhaustive, step-by-step tests of a reducer.
pub struct TestStore<State: Reducer> {
    state: State,
    effects: Effects<State::Action>,
}

impl<State: Reducer> TestStore<State> {
    /// The reducer state held by the test runtime.
    pub closed spec fn state_spec(&self) -> State {
        self.state
    }

    /// The effects the reducer has emitted but no `recv` has consumed yet,
    /// oldest first.
    pub closed spec fn pending(&self) -> Seq<State::Action> {
        self.effects@
    }

    /// Creates a test runtime with `state` as its initial state.
    pub fn with_initial(state: State) -> (store: Self)
        ensures
            store.state_spec() == state,
            store.pending() == Seq::<State::Action>::empty(),
    {
        TestStore { state, effects: Effects::new() }
    }

    /// Creates a test runtime with its initial state built by `with`.
    pub fn new<F: FnOnce() -> State>(with: F) -> (store: Self)
        requires
            with.requires(()),
        ensures
            with.ensures((), store.state_spec()),
            store.pending() == Seq::<State::Action>::empty(),
    {
        TestStore::with_initial(with())
    }

    /// Submits an external action and checks the state it must produce.
    ///
    /// Fails with `UnconsumedEffects`, applying nothing, when an effect of an
    /// earlier step is still queued; otherwise applies the action and fails
    /// with `UnexpectedState` when the reducer's state differs from
    /// `expected`.
    pub fn send(&mut self, action: State::Action, expected: &State) -> (r: Result<
        (),
        TestFailure,
    >) where State: PartialEq
        ensures
            old(self).pending().len() > 0 ==> r == Err::<(), TestFailure>(
                TestFailure::UnconsumedEffects,
            ) && *final(self) == *old(self),
            old(self).pending().len() == 0 ==> {
                &&& r == Ok::<(), TestFailure>(()) || r == Err::<(), TestFailure>(
                    TestFailure::UnexpectedState,
                )
                &&& State::obeys_eq_spec() ==> (r == Ok::<(), TestFailure>(()) <==> final(self).state_spec().eq_spec(expected))
            },
    {
        if !self.effects.is_empty() {
            return Err(TestFailure::UnconsumedEffects);
        }
        self.state.reduce(action, &mut self.effects);
        if self.state == *expected {
            Ok(())
        } else {
            Err(TestFailure::UnexpectedState)
        }
    }

    /// Consumes the oldest emitted effect, which must equal `action`, applies
    /// it, and checks the state it must produce.
    ///
    /// Fails with `NoActionReceived` when no effect is queued and with
    /// `UnexpectedAction` when the oldest queued effect differs from
    /// `action`; in both cases nothing is applied. Otherwise the effect is
    /// consumed, the action is applied — effects it emits queue up behind
    /// the ones still unconsumed — and the step fails with
    /// `UnexpectedState` when the reducer's state differs from `expected`.
    pub fn recv(&mut self, action: State::Action, expected: &State) -> (r: Result<
        (),
        TestFailure,
    >) where State: PartialEq, State::Action: PartialEq
        ensures
            old(self).pending().len() == 0 ==> r == Err::<(), TestFailure>(
                TestFailure::NoActionReceived,
            ) && *final(self) == *old(self),
            old(self).pending().len() > 0 && <State::Action as PartialEqSpec>::obeys_eq_spec()
                ==> (r == Err::<(), TestFailure>(TestFailure::UnexpectedAction) <==> !old(self).pending()[0].eq_spec(&action)),
            old(self).pending().len() > 0 && r == Err::<(), TestFailure>(
                TestFailure::UnexpectedAction,
            ) ==> *final(self) == *old(self),
            old(self).pending().len() > 0 && r != Err::<(), TestFailure>(
                TestFailure::UnexpectedAction,
            ) ==> r == Ok::<(), TestFailure>(()) || r == Err::<(), TestFailure>(
                TestFailure::UnexpectedState,
            ),
            old(self).pending().len() > 0 && r != Err::<(), TestFailure>(
                TestFailure::UnexpectedAction,
            ) ==> final(self).pending().len() >= old(self).pending().len() - 1
                && final(self).pending().subrange(0, old(self).pending().len() - 1) == old(
                self,
            ).pending().drop_first(),
            old(self).pending().len() > 0 && r != Err::<(), TestFailure>(
                TestFailure::UnexpectedAction,
            ) && State::obeys_eq_spec() ==> (r == Ok::<(), TestFailure>(()) <==> final(self).state_spec().eq_spec(expected)),
    {
        let head_matches = match self.effects.peek() {
            None => {
                return Err(TestFailure::NoActionReceived);
            }
            Some(head) => *head == action,
        };
        if !head_matches {
            return Err(TestFailure::UnexpectedAction);
        }
        let _received = self.effects.next();
        // Reduce into a fresh queue and append it, so the effects this step
        // emits land behind the ones still waiting to be consumed.
        let mut emitted: Effects<State::Action> = Effects::new();
        self.state.reduce(action, &mut emitted);
        self.effects.append(&mut emitted);
        proof {
            assert(self.effects@.subrange(0, old(self).pending().len() - 1) =~= old(
                self,
            ).pending().drop_first());
        }
        if self.state == *expected {
            Ok(())
        } else {
            Err(TestFailure::UnexpectedState)
        }
    }

    /// Shuts the test runtime down and extracts the reducer's final value.
    ///
    /// Fails with `UnconsumedEffects` when an emitted effect was never
    /// consumed by a `recv`: every effect a test provokes must be explicitly
    /// checked.
    pub fn into_inner(self) -> (r: Result<State::Output, TestFailure>)
        ensures
            self.pending().len() > 0 <==> r == Err::<State::Output, TestFailure>(
                TestFailure::UnconsumedEffects,
            ),
            self.pending().len() == 0 ==> r is Ok && call_ensures(
                State::into_inner,
                (self.state_spec(),),
                r.unwrap(),
            ),
    {
        if !self.effects.is_empty() {
            return Err(TestFailure::UnconsumedEffects);
        }
        let TestStore { state, .. } = self;
        Ok(state.into_inner())
    }
}

impl<State: Reducer + Default> Default for TestStore<State> {
    /// Creates a test runtime with the reducer's default initial state.
    fn default() -> (store: Self)
        ensures
            State::default.ensures((), store.state_spec()),
            store.pending() == Seq::<State::Action>::empty(),
    {
        TestStore::with_initial(State::default())
    }
}

} // verus!
