//! The mathematical model of an instance: its abstract state, the messages
//! it answers, and what a sequence of messages makes of a state.

use vstd::prelude::*;

verus! {

/// What an instance holds, as contracts speak of it: the flag, and the counter
/// as an unbounded natural number.
pub struct State {
    pub flag: bool,
    pub counter: nat,
}

/// The four messages an instance answers once it exists. Construction is not
/// among them: it is what brings the instance about.
pub enum Message {
    /// Invert the flag.
    Flip,
    /// Read the flag.
    Get,
    /// Increment the counter and publish its new value.
    AddScore,
    /// Read the counter.
    GetScore,
}

impl State {
    /// The state of a freshly constructed instance: the given flag, and a
    /// counter of zero.
    pub open spec fn initial(flag: bool) -> State {
        State { flag, counter: 0 }
    }

    /// The state after the flag has been inverted. The counter stays.
    pub open spec fn flip(self) -> State {
        State { flag: !self.flag, counter: self.counter }
    }

    /// The state after the counter has gone up by one. The flag stays.
    pub open spec fn add_score(self) -> State {
        State { flag: self.flag, counter: self.counter + 1 }
    }

    /// The state after one message. The two reads change nothing.
    pub open spec fn apply(self, message: Message) -> State {
        match message {
            Message::Flip => self.flip(),
            Message::AddScore => self.add_score(),
            Message::Get | Message::GetScore => self,
        }
    }

    /// The state after a sequence of messages, handled one at a time from the
    /// first to the last.
    pub open spec fn run(self, messages: Seq<Message>) -> State
        decreases messages.len(),
    {
        if messages.len() == 0 {
            self
        } else {
            self.run(messages.drop_last()).apply(messages.last())
        }
    }
}

/// How often `message` occurs in `messages`.
pub open spec fn occurrences(messages: Seq<Message>, message: Message) -> nat
    decreases messages.len(),
{
    if messages.len() == 0 {
        0
    } else {
        occurrences(messages.drop_last(), message) + if messages.last() == message {
            1nat
        } else {
            0nat
        }
    }
}

/// The sequence that holds `message` exactly `n` times.
pub open spec fn repeated(message: Message, n: nat) -> Seq<Message> {
    Seq::new(n, |i: int| message)
}

} // verus!
