//! A unidirectional, effectful state-management runtime.
//!
//! A single state value is evolved by applying discrete actions through a
//! pure transition function (a [`Reducer`]), which may enqueue further
//! actions as side effects. The crate provides the deterministic core of
//! that runtime: the effect queue and its drain discipline, the time-based
//! effect modifiers (delay, repeat, debounce, coalesce), the deadline-ordered
//! timer queue, and a synchronous test runtime for step-by-step assertions.

pub mod channel;
pub mod dependencies;
pub mod effects;
pub mod reducer;
pub mod scheduler;
pub mod store;
pub mod testing;
pub mod theme;

pub use effects::{Effects, Interval};
pub use reducer::Reducer;
pub use store::Store;
pub use testing::TestStore;
