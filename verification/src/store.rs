//! The deterministic core of the runtime: one state value, one effect queue,
//! and the drain-before-next-external discipline.
//!
//! A threaded runtime wraps this core: it receives external actions over a
//! channel on a dedicated thread and feeds each one to [`Store::send`]. The
//! ordering guarantee lives here: `send` applies the action and then drains
//! every transitively generated internal action before it returns, so no
//! later external action can interleave with them.

use crate::effects::Effects;
use crate::reducer::Reducer;
use vstd::prelude::*;

verus! {

/// Owns a reducer's state together with its internal effect queue.
pub struct Store<State: Reducer> {
    state: State,
    effects: Effects<State::Action>,
    history: Ghost<Seq<State::Action>>,
}

impl<State: Reducer> Store<State> {
    /// The reducer state held by the store.
    pub closed spec fn state_spec(&self) -> State {
        self.state
    }

    /// The internal actions queued but not yet applied, oldest first.
    pub closed spec fn pending(&self) -> Seq<State::Action> {
        self.effects@
    }

    /// Every action the store has applied, in the order it applied them.
    ///
    /// Each call to [`send`][`Store::send`] appends the submitted action
    /// and, directly after it, the internal actions it transitively
    /// generated: actions of different `send` calls never interleave.
    pub closed spec fn history(&self) -> Seq<State::Action> {
        self.history@
    }

    /// Creates a store with `state` as its initial state.
    pub fn new(state: State) -> (store: Self)
        ensures
            store.state_spec() == state,
            store.pending() == Seq::<State::Action>::empty(),
            store.history() == Seq::<State::Action>::empty(),
    {
        Store { state, effects: Effects::new(), history: Ghost(Seq::empty()) }
    }

    /// Creates a store with `state` as its initial state.
    pub fn with_initial(state: State) -> (store: Self)
        ensures
            store.state_spec() == state,
            store.pending() == Seq::<State::Action>::empty(),
            store.history() == Seq::<State::Action>::empty(),
    {
        Store::new(state)
    }

    /// Creates a store with its initial state built by `with`.
    ///
    /// Useful when the state itself cannot be handed across a thread
    /// boundary, but the arguments used to construct it can: the factory
    /// runs wherever the store is built.
    pub fn build<F: FnOnce() -> State>(with: F) -> (store: Self)
        requires
            with.requires(()),
        ensures
            with.ensures((), store.state_spec()),
            store.pending() == Seq::<State::Action>::empty(),
            store.history() == Seq::<State::Action>::empty(),
    {
        Store::new(with())
    }

    /// Applies `action`, then repeatedly pops and applies internal actions
    /// until the effect queue is empty — every action transitively generated
    /// by `action` is fully applied before `send` returns, so nothing
    /// submitted later can interleave with them.
    ///
    /// Returns `true` exactly when the effect queue is empty on return. A
    /// reducer that keeps generating follow-up actions without end exhausts
    /// the drain's step bound instead, and `send` then gives up with actions
    /// still queued and reports `false`.
    pub fn send(&mut self, action: State::Action) -> (drained: bool)
        ensures
            drained <==> final(self).pending().len() == 0,
            final(self).history().subrange(0, old(self).history().len() as int) == old(
                self,
            ).history(),
            final(self).history().len() > old(self).history().len(),
            final(self).history()[old(self).history().len() as int] == action,
    {
        self.state.reduce(action, &mut self.effects);
        self.history = Ghost(self.history@.push(action));
        let ghost base = self.history@;
        let ghost mut applied: Seq<State::Action> = Seq::empty();

        let mut fuel: usize = usize::MAX;
        loop
            invariant
                self.history@ == base + applied,
            ensures
                fuel > 0 ==> self.effects@.len() == 0,
                self.history@ == base + applied,
            decreases fuel,
        {
            if fuel == 0 {
                break;
            }
            match self.effects.next() {
                None => {
                    break;
                }
                Some(internal) => {
                    self.state.reduce(internal, &mut self.effects);
                    self.history = Ghost(self.history@.push(internal));
                    proof {
                        applied = applied.push(internal);
                        assert(self.history@ =~= base + applied);
                    }
                    fuel = fuel - 1;
                }
            }
        }
        proof {
            assert(base =~= old(self).history@.push(action));
            assert(self.history@ =~= old(self).history@ + seq![action] + applied);
            assert(self.history@.subrange(0, old(self).history@.len() as int) =~= old(
                self,
            ).history@);
        }
        self.effects.is_empty()
    }

    /// Stops the store and extracts the reducer's final value.
    ///
    /// This always returns: nothing is awaited, so a reducer whose action
    /// type has no constructors shuts down without ever blocking.
    pub fn into_inner(self) -> (output: State::Output)
        ensures
            call_ensures(State::into_inner, (self.state_spec(),), output),
    {
        let Store { state, .. } = self;
        state.into_inner()
    }
}

impl<State: Reducer + Default> Default for Store<State> {
    /// Creates a store with the reducer's default initial state.
    fn default() -> (store: Self)
        ensures
            State::default.ensures((), store.state_spec()),
            store.pending() == Seq::<State::Action>::empty(),
            store.history() == Seq::<State::Action>::empty(),
    {
        Store::new(State::default())
    }
}

} // verus!
