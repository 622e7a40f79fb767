//! The assembly of one exam: it asks for one piece of outside work at a
//! time, and goes on when it is told the result.

use vstd::prelude::*;
use crate::command::Command;
use crate::library::list_exercises;
use crate::selector::Selector;
use crate::state::{Stage, State};
use crate::transition::{advance, follows, reports, Event, Progress};

verus! {

/// The assembly of one exam. It is in a state that an assembly can be in,
/// always: it begins idle and changes by its steps only.
pub struct Assembly {
    state: State,
}

impl View for Assembly {
    type V = State;

    closed spec fn view(&self) -> State {
        self.state
    }
}

impl Assembly {
    #[verifier::type_invariant]
    spec fn well_formed(self) -> bool {
        self.state.wf()
    }

    /// An assembly at its beginning.
    pub fn start() -> (assembly: Assembly)
        ensures
            assembly@ is Idle,
    {
        Assembly { state: State::Idle }
    }

    /// The state that the assembly is in.
    pub fn state(&self) -> (state: &State)
        ensures
            *state == self@,
            self@.wf(),
    {
        proof {
            use_type_invariant(self);
        }
        &self.state
    }

    /// The outside work that the assembly asks for.
    pub fn command(&self) -> (command: Command)
        ensures
            self@.asks(command),
            command.writes() == self@.asks_to_write(),
            command.creates() == self@.asks_to_create(),
            command is Stop <==> self@.over(),
    {
        proof {
            use_type_invariant(self);
        }
        self.state.command()
    }

    /// Whether the assembly is over, and if so, whether it ended well; it
    /// did not where it failed.
    pub fn ended(&self) -> (end: Option<bool>)
        ensures
            end is Some <==> self@.over(),
            end == Some(true) <==> self@.ended_well(),
            end == Some(false) <==> self@ is Failed,
    {
        self.state.ended()
    }

    /// The assembly after `event`, and what the operator is told; `drawn` is
    /// the exercise that was drawn, where the event calls for a draw. An
    /// event that does not report the work that the assembly asks for
    /// changes nothing, and neither does an event that calls for a draw
    /// where `drawn` is none of the exercises that the level offers.
    pub fn advance(self, event: Event, drawn: Option<String>) -> (next: (Assembly, Progress))
        ensures
            self@.served_by(event, drawn) ==> follows(self@, event, next.0@),
            self@.served_by(event, drawn) && self@.draws_on(event) ==> next.0@.at_work()
                == drawn,
            !self@.served_by(event, drawn) ==> next.0@ == self@,
            next.0@.wf(),
            reports(self@, next.0@, next.1),
    {
        proof {
            use_type_invariant(&self);
        }
        let (state, progress) = advance(self.state, event, drawn);
        (Assembly { state }, progress)
    }

    /// The assembly after `event`, and what the operator is told. Where the
    /// event lists the exercises of the level at hand and there is one at
    /// least, `selector` draws the one that is laid out. An event that does
    /// not report the work that the assembly asks for changes nothing.
    pub fn step(self, event: Event, selector: &mut Selector) -> (next: (Assembly, Progress))
        ensures
            follows(self@, event, next.0@),
            next.0@.wf(),
            reports(self@, next.0@, next.1),
    {
        let draws = match &self.state {
            State::PerLevel { exam, levels, slots, stage } => match stage {
                Stage::Listing => true,
                _ => false,
            },
            _ => false,
        };
        let drawn = if draws {
            match &event {
                Event::ExercisesListed(entries) => selector.draw(list_exercises(entries)),
                _ => None,
            }
        } else {
            None
        };
        self.advance(event, drawn)
    }
}

} // verus!
