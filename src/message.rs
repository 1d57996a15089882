//! Messages, and the commands that produce them.
use vstd::prelude::*;
use crate::machine::Outcome;

verus! {

/// A captured keypress. No input source fills it yet, so it carries no data.
pub struct Key;

/// An event handed to a model's `update`.
pub enum Message<T> {
    KeyPress(Key),
    Quit,
    App(T),
}

/// Deferred, one-shot work that yields at most one message when performed.
///
/// `yields` names what `perform` returns, and every fact proved about a run
/// of the loop rests on that. An implementation written outside Verus cannot
/// state `yields`: it keeps the default, which says the task yields nothing,
/// and then nothing proved of the loop's history holds for its runs.
pub trait Task<T>: Send {
    /// The message that performing the task yields.
    open spec fn yields(&self) -> Option<Message<T>> {
        None
    }

    fn perform(self: Box<Self>) -> (r: Option<Message<T>>)
        ensures
            r == (*self).yields(),
    ;
}

/// A scheduled unit of work, owned by the loop until it is performed once:
/// either a request to end the loop, or a task of the application.
#[verifier::reject_recursive_types(T)]
pub enum Command<T> {
    Quit,
    Run(Box<dyn Task<T>>),
}

impl<T> Command<T> {
    /// The message that performing the command yields.
    pub open spec fn yields(&self) -> Option<Message<T>> {
        match self {
            Command::Quit => Some(Message::Quit),
            Command::Run(t) => t.yields(),
        }
    }

    /// Performs the command, consuming it.
    pub fn perform(self) -> (r: Option<Message<T>>)
        ensures
            r == self.yields(),
    {
        match self {
            Command::Quit => Some(Message::Quit),
            Command::Run(t) => t.perform(),
        }
    }
}

/// How the loop treats what a command yielded: no message, a quit, or a
/// message for `update` (`KeyPress` and `App` alike).
pub open spec fn outcome_of<T>(m: Option<Message<T>>) -> Outcome {
    match m {
        None => Outcome::Nothing,
        Some(Message::Quit) => Outcome::Quit,
        Some(_) => Outcome::Deliver,
    }
}

/// Classifies what a command yielded.
pub fn outcome<T>(m: &Option<Message<T>>) -> (r: Outcome)
    ensures
        r == outcome_of(*m),
{
    match m {
        None => Outcome::Nothing,
        Some(Message::Quit) => Outcome::Quit,
        Some(_) => Outcome::Deliver,
    }
}

/// A command that, when performed, asks the loop to end.
pub fn quit<T>() -> (r: Option<Command<T>>)
    ensures
        r == Some(Command::<T>::Quit),
        r->0.yields() == Some(Message::<T>::Quit),
{
    Some(Command::Quit)
}

} // verus!
