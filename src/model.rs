//! The application side of the loop.
use vstd::prelude::*;
use crate::message::{Command, Message};

verus! {

/// Application state with its three operations. The loop owns the model and
/// is the only caller of these. Each operation is described by a spec
/// function of the model, which its result matches; an implementation states
/// its own spec functions in place of the defaults.
///
/// An implementation written outside Verus cannot state them: it keeps the
/// defaults (an empty view, no command, an unchanged state), which then do not
/// describe its code, and nothing proved of the loop's history holds for its
/// runs.
pub trait Model: Sized {
    /// The application's own message payload.
    type Message;

    /// The text that `view` renders for this state.
    open spec fn view_spec(&self) -> Seq<char> {
        Seq::empty()
    }

    /// The command that `init` schedules from this state.
    open spec fn init_spec(&self) -> Option<Command<Self::Message>> {
        None
    }

    /// The state that `update` leaves after handling `message`.
    open spec fn updated_spec(&self, message: Message<Self::Message>) -> Self {
        *self
    }

    /// The command that `update` schedules after handling `message`.
    open spec fn update_command_spec(&self, message: Message<Self::Message>) -> Option<
        Command<Self::Message>,
    > {
        None
    }

    /// Called once, after the first render; may schedule a first command.
    fn init(&self) -> (r: Option<Command<Self::Message>>)
        ensures
            r == self.init_spec(),
    ;

    /// Handles one message, changes the state, and may schedule the next
    /// command.
    fn update(&mut self, message: Message<Self::Message>) -> (r: Option<Command<Self::Message>>)
        ensures
            *final(self) == old(self).updated_spec(message),
            r == old(self).update_command_spec(message),
    ;

    /// Renders the current state as text.
    fn view(&self) -> (r: String)
        ensures
            r@ == self.view_spec(),
    ;
}

} // verus!
