//! What holds of every state and every sequence of messages.
//!
//! The operations of [`crate::instance::Valuechange`] are specified by the
//! transitions of [`State`]; the theorems here say what any number of those
//! transitions, in any order, can and cannot do.

use crate::state::occurrences;
use crate::state::repeated;
use crate::state::Message;
use crate::state::State;
use vstd::prelude::*;

verus! {

/// Flipping twice in a row gives back the state as it was.
pub proof fn flip_twice_restores(s: State)
    ensures
        s.flip().flip() == s,
{
}

/// Running one sequence of messages and then a second is running the two
/// joined end to end.
pub proof fn run_concat(s: State, first: Seq<Message>, second: Seq<Message>)
    ensures
        s.run(first + second) == s.run(first).run(second),
    decreases second.len(),
{
    if second.len() == 0 {
        assert(first + second =~= first);
    } else {
        assert((first + second).drop_last() =~= first + second.drop_last());
        run_concat(s, first, second.drop_last());
    }
}

/// A sequence of messages acts on a state only through how many flips and how
/// many increments it holds: the counter goes up by the number of increments,
/// and the flag is inverted exactly when the number of flips is odd.
pub proof fn run_counts(s: State, messages: Seq<Message>)
    ensures
        s.run(messages).counter == s.counter + occurrences(messages, Message::AddScore),
        s.run(messages).flag == if occurrences(messages, Message::Flip) % 2 == 0 {
            s.flag
        } else {
            !s.flag
        },
    decreases messages.len(),
{
    if messages.len() > 0 {
        run_counts(s, messages.drop_last());
    }
}

/// The sequence of `n` copies of one message holds that message `n` times and
/// no other message at all.
pub proof fn occurrences_of_repeated(message: Message, n: nat, other: Message)
    ensures
        occurrences(repeated(message, n), other) == if other == message {
            n
        } else {
            0
        },
    decreases n,
{
    if n > 0 {
        assert(repeated(message, n).drop_last() =~= repeated(message, (n - 1) as nat));
        occurrences_of_repeated(message, (n - 1) as nat, other);
    }
}

/// Flipping an even number of times in a row gives back the state as it was;
/// flipping an odd number of times inverts the flag, and does nothing else.
pub proof fn repeated_flip(s: State, n: nat)
    ensures
        n % 2 == 0 ==> s.run(repeated(Message::Flip, n)) == s,
        n % 2 == 1 ==> s.run(repeated(Message::Flip, n)) == s.flip(),
{
    run_counts(s, repeated(Message::Flip, n));
    occurrences_of_repeated(Message::Flip, n, Message::Flip);
    occurrences_of_repeated(Message::Flip, n, Message::AddScore);
}

/// After `n` increments in a row the counter stands at what it was plus `n`,
/// and nothing else has changed.
pub proof fn repeated_add_score(s: State, n: nat)
    ensures
        s.run(repeated(Message::AddScore, n)) == (State {
            flag: s.flag,
            counter: s.counter + n,
        }),
{
    run_counts(s, repeated(Message::AddScore, n));
    occurrences_of_repeated(Message::AddScore, n, Message::AddScore);
    occurrences_of_repeated(Message::AddScore, n, Message::Flip);
}

/// No sequence of messages, whatever it holds, leaves the counter lower than
/// it found it.
pub proof fn counter_never_decreases(s: State, messages: Seq<Message>)
    ensures
        s.counter <= s.run(messages).counter,
{
    run_counts(s, messages);
}

/// While a sequence of messages is being handled the counter never steps
/// down: at any point of the sequence it is at least what it was at every
/// earlier point.
pub proof fn counter_never_steps_down(s: State, messages: Seq<Message>, earlier: int, later: int)
    requires
        0 <= earlier <= later <= messages.len(),
    ensures
        s.run(messages.take(earlier)).counter <= s.run(messages.take(later)).counter,
{
    let between = messages.subrange(earlier, later);
    assert(messages.take(later) =~= messages.take(earlier) + between);
    run_concat(s, messages.take(earlier), between);
    counter_never_decreases(s.run(messages.take(earlier)), between);
}

/// A sequence made of flips alone leaves the counter unchanged.
pub proof fn flips_leave_counter(s: State, messages: Seq<Message>)
    requires
        forall|i: int| 0 <= i < messages.len() ==> messages[i] == Message::Flip,
    ensures
        s.run(messages).counter == s.counter,
    decreases messages.len(),
{
    if messages.len() > 0 {
        flips_leave_counter(s, messages.drop_last());
    }
}

/// A sequence made of increments alone leaves the flag unchanged.
pub proof fn add_scores_leave_flag(s: State, messages: Seq<Message>)
    requires
        forall|i: int| 0 <= i < messages.len() ==> messages[i] == Message::AddScore,
    ensures
        s.run(messages).flag == s.flag,
    decreases messages.len(),
{
    if messages.len() > 0 {
        add_scores_leave_flag(s, messages.drop_last());
    }
}

} // verus!
