//! The transition function contract implemented by callers.

use crate::effects::Effects;
use vstd::prelude::*;

verus! {

/// A reducer owns a state value and evolves it one action at a time.
///
/// Follow-up actions are issued through the effect queue handed to
/// [`reduce`][`Reducer::reduce`], never by reaching into the runtime; the
/// runtime applies them, in order, before it looks at the next externally
/// submitted action. A reducer never halts the runtime: failures are
/// expressed as no-ops or as emitted failure actions.
pub trait Reducer: Sized {
    /// All of the possible actions that can be used to modify state.
    type Action;

    /// Returned by [`into_inner`][`Reducer::into_inner`].
    type Output;

    /// Updates the reducer's state in response to the action received.
    fn reduce(&mut self, action: Self::Action, effects: &mut Effects<Self::Action>);

    /// Extracts the final value once the runtime shuts down.
    fn into_inner(self) -> Self::Output;
}

impl<T: Reducer> Reducer for Option<T> {
    type Action = T::Action;

    type Output = Option<T::Output>;

    fn reduce(&mut self, action: Self::Action, effects: &mut Effects<Self::Action>) {
        match self.take() {
            Some(mut state) => {
                state.reduce(action, effects);
                *self = Some(state);
            }
            None => {}
        }
    }

    fn into_inner(self) -> Self::Output {
        match self {
            Some(state) => Some(state.into_inner()),
            None => None,
        }
    }
}

} // verus!
