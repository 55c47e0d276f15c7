//! The executable instance and its operations.
//!
//! Every operation takes the instance as an explicit handle: the two reads by
//! shared reference, the two writes by exclusive reference. Nothing here
//! talks to a host. An operation that has something to publish returns it,
//! and delivering it is the caller's business.

use crate::state::State;
use vstd::prelude::*;

verus! {

/// The single live instance: a boolean flag and an unsigned 64-bit counter.
///
/// Contracts speak of an instance through its view, a [`State`].
pub struct Valuechange {
    value: bool,
    score: u64,
}

/// The notification that goes out whenever the counter changes. It carries
/// the counter's new value.
#[derive(Clone, Copy, Debug, PartialEq, Eq, Structural)]
pub struct ScoreReturn {
    pub score: u64,
}

/// The failure of an increment that would take the counter past `u64::MAX`.
#[derive(Clone, Copy, Debug, PartialEq, Eq, Structural)]
pub struct CounterOverflow;

impl View for Valuechange {
    type V = State;

    closed spec fn view(&self) -> State {
        State { flag: self.value, counter: self.score as nat }
    }
}

impl Valuechange {
    /// Creates an instance whose flag is `init_value` and whose counter is
    /// zero.
    pub fn new(init_value: bool) -> (instance: Self)
        ensures
            instance@ == State::initial(init_value),
    {
        Self { value: init_value, score: 0 }
    }

    /// Creates an instance whose flag is `false` and whose counter is zero, by
    /// way of [`Valuechange::new`].
    pub fn default() -> (instance: Self)
        ensures
            instance@ == State::initial(false),
            instance@.flag == false,
            instance@.counter == 0,
    {
        Self::new(Default::default())
    }

    /// Rebuilds an instance from the two scalars that were kept of it between
    /// two invocations.
    pub fn restore(flag: bool, counter: u64) -> (instance: Self)
        ensures
            instance@ == (State { flag, counter: counter as nat }),
    {
        Self { value: flag, score: counter }
    }

    /// Inverts the flag and leaves the counter alone.
    pub fn flip(&mut self)
        ensures
            final(self)@ == old(self)@.flip(),
    {
        self.value = !self.value;
    }

    /// Returns the current flag.
    pub fn get(&self) -> (flag: bool)
        ensures
            flag == self@.flag,
    {
        self.value
    }

    /// Increments the counter by one, leaves the flag alone, and returns the
    /// one notification to publish, which carries the counter's new value.
    ///
    /// The counter must have room for the increment;
    /// [`Valuechange::checked_add_score`] is the same operation for callers
    /// who cannot know that.
    #[must_use]
    pub fn add_score(&mut self) -> (event: ScoreReturn)
        requires
            old(self)@.counter < u64::MAX,
        ensures
            final(self)@ == old(self)@.add_score(),
            event.score == final(self)@.counter,
    {
        self.score = self.score + 1;
        ScoreReturn { score: self.score }
    }

    /// Increments the counter as [`Valuechange::add_score`] does, unless it
    /// already stands at `u64::MAX`: then the instance is left exactly as it
    /// was, nothing is to be published, and the failure is returned.
    pub fn checked_add_score(&mut self) -> (outcome: Result<ScoreReturn, CounterOverflow>)
        ensures
            match outcome {
                Ok(event) => {
                    &&& old(self)@.counter < u64::MAX
                    &&& final(self)@ == old(self)@.add_score()
                    &&& event.score == final(self)@.counter
                },
                Err(_) => {
                    &&& old(self)@.counter == u64::MAX
                    &&& final(self)@ == old(self)@
                },
            },
    {
        if self.score < u64::MAX {
            Ok(self.add_score())
        } else {
            Err(CounterOverflow)
        }
    }

    /// Returns the current counter.
    pub fn get_score(&self) -> (score: u64)
        ensures
            score == self@.counter,
    {
        self.score
    }

    /// The counter of an instance always fits in 64 bits.
    pub proof fn counter_is_bounded(&self)
        ensures
            self@.counter <= u64::MAX,
    {
    }
}

} // verus!
