//! A persistent toggle-and-counter instance: one boolean flag and one unsigned
//! 64-bit counter, each read and changed through its own named operations.
//!
//! * [`state`] is the mathematical model: the abstract state, the messages,
//!   and what a sequence of messages makes of a state.
//! * [`instance`] is the executable instance. Each of its operations is
//!   specified by a transition of the model and verified against it.
//! * [`laws`] holds the theorems about the model: what any number of
//!   operations, in any order, can and cannot do to the two fields.

pub mod instance;
pub mod laws;
pub mod state;

pub use instance::CounterOverflow;
pub use instance::ScoreReturn;
pub use instance::Valuechange;
pub use state::Message;
pub use state::State;
