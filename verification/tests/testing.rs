use composable::effects::Effects;
use composable::reducer::Reducer;
use composable::testing::{TestFailure, TestStore};

#[derive(Clone, Debug, Default, PartialEq)]
struct State {
    n: usize,
}

#[derive(Clone, Copy, Debug, PartialEq)]
enum Action {
    Increment,
    Decrement,
}

// This reducer ensures the value is always an even number.
impl Reducer for State {
    type Action = Action;
    type Output = Self;

    fn reduce(&mut self, action: Action, effects: &mut Effects<Action>) {
        match action {
            Action::Increment => {
                self.n += 1;
                if self.n % 2 == 1 {
                    effects.send(Action::Increment);
                }
            }
            Action::Decrement => {
                self.n -= 1;
                if self.n % 2 == 1 {
                    effects.send(Action::Decrement);
                }
            }
        }
    }

    fn into_inner(self) -> Self {
        self
    }
}

#[test]
fn test_test_store() {
    let mut store = TestStore::with_initial(State::default());

    store.send(Action::Increment, &State { n: 1 }).unwrap();
    store.recv(Action::Increment, &State { n: 2 }).unwrap();

    store.send(Action::Increment, &State { n: 3 }).unwrap();
    store.recv(Action::Increment, &State { n: 4 }).unwrap();

    store.send(Action::Decrement, &State { n: 3 }).unwrap();
    store.recv(Action::Decrement, &State { n: 2 }).unwrap();

    let result = store.into_inner().unwrap();
    assert_eq!(result.n, 2);
}

#[test]
fn recv_with_wrong_action_fails() {
    let mut store = TestStore::with_initial(State::default());
    store.send(Action::Increment, &State { n: 1 }).unwrap();

    let r = store.recv(Action::Decrement, &State { n: 0 });
    assert_eq!(r, Err(TestFailure::UnexpectedAction));

    store.recv(Action::Increment, &State { n: 2 }).unwrap();
    store.into_inner().unwrap();
}

#[test]
fn recv_without_a_queued_effect_fails() {
    let mut store = TestStore::with_initial(State::default());
    let r = store.recv(Action::Increment, &State { n: 1 });
    assert_eq!(r, Err(TestFailure::NoActionReceived));
}

#[test]
fn send_with_an_unconsumed_effect_fails() {
    let mut store = TestStore::with_initial(State::default());
    store.send(Action::Increment, &State { n: 1 }).unwrap();

    let r = store.send(Action::Increment, &State { n: 2 });
    assert_eq!(r, Err(TestFailure::UnconsumedEffects));
}

#[test]
fn shutdown_with_an_unconsumed_effect_fails() {
    let mut store = TestStore::with_initial(State::default());
    store.send(Action::Increment, &State { n: 1 }).unwrap();

    let r = store.into_inner();
    assert_eq!(r, Err(TestFailure::UnconsumedEffects));
}

#[test]
fn send_with_a_wrong_expected_state_fails() {
    let mut store = TestStore::with_initial(State::default());
    let r = store.send(Action::Increment, &State { n: 7 });
    assert_eq!(r, Err(TestFailure::UnexpectedState));
}

#[test]
fn new_runs_the_factory() {
    let store = TestStore::new(|| State { n: 6 });
    let result = store.into_inner().unwrap();
    assert_eq!(result.n, 6);
}

#[derive(Clone, Debug, Default, PartialEq)]
struct Log {
    seen: Vec<u8>,
}

#[derive(Clone, Copy, Debug, PartialEq)]
enum Step {
    Burst,
    Mark(u8),
}

// Bursts emit two marks at once; the first mark emits one more when applied.
impl Reducer for Log {
    type Action = Step;
    type Output = Self;

    fn reduce(&mut self, action: Step, effects: &mut Effects<Step>) {
        match action {
            Step::Burst => {
                effects.send(Step::Mark(1));
                effects.send(Step::Mark(3));
            }
            Step::Mark(n) => {
                self.seen.push(n);
                if n == 1 {
                    effects.send(Step::Mark(9));
                }
            }
        }
    }

    fn into_inner(self) -> Self {
        self
    }
}

#[test]
fn effects_are_consumed_in_emission_order() {
    let mut store = TestStore::with_initial(Log::default());
    store.send(Step::Burst, &Log { seen: vec![] }).unwrap();

    // Consuming the first mark emits another, which queues up behind the
    // marks still waiting.
    store.recv(Step::Mark(1), &Log { seen: vec![1] }).unwrap();
    store.recv(Step::Mark(3), &Log { seen: vec![1, 3] }).unwrap();
    store.recv(Step::Mark(9), &Log { seen: vec![1, 3, 9] }).unwrap();

    let result = store.into_inner().unwrap();
    assert_eq!(result.seen, vec![1, 3, 9]);
}
