//! The decisions of the runtime loop, as a state machine over plain values.
//!
//! A run starts in [`Phase::start`]. Each phase awaits one [`Action`]; whoever
//! performs it reports the result back as an [`Event`], and [`Phase::next`]
//! gives the following phase. An event that does not answer the awaited
//! action leaves the phase as it is.
use vstd::prelude::*;

verus! {

/// What came out of executing a command.
#[derive(PartialEq, Eq, Structural, Clone, Copy, Debug)]
pub enum Outcome {
    /// The command produced no message.
    Nothing,
    /// The command produced `Message::Quit`.
    Quit,
    /// The command produced a message that is handed to `update`.
    Deliver,
}

/// Where the loop stands.
#[derive(PartialEq, Eq, Structural, Clone, Copy, Debug)]
pub enum Phase {
    /// The view is to be written. `initial` marks the render that precedes
    /// `init`; `pending` says whether a command waits to be executed.
    Rendering { initial: bool, pending: bool },
    /// `init` is to be called.
    Initializing,
    /// The pending command is to be executed.
    Executing,
    /// A message is to be handed to `update`.
    Dispatching,
    /// No command is pending and no message can arrive: nothing more happens.
    Idle,
    /// A quit message was produced: the loop has ended.
    Terminated,
}

/// The work that a phase awaits.
#[derive(PartialEq, Eq, Structural, Clone, Copy, Debug)]
pub enum Action {
    Render,
    Init,
    Execute,
    Update,
    Wait,
    Stop,
}

/// The report of an action that was performed.
#[derive(PartialEq, Eq, Structural, Clone, Copy, Debug)]
pub enum Event {
    /// The view was written.
    Rendered,
    /// `init` returned; the flag says whether it gave a command.
    Initialized(bool),
    /// The pending command ran, with this outcome.
    Executed(Outcome),
    /// `update` returned; the flag says whether it gave a command.
    Updated(bool),
}

pub open spec fn start_phase() -> Phase {
    Phase::Rendering { initial: true, pending: false }
}

pub open spec fn awaited(p: Phase) -> Action {
    match p {
        Phase::Rendering { .. } => Action::Render,
        Phase::Initializing => Action::Init,
        Phase::Executing => Action::Execute,
        Phase::Dispatching => Action::Update,
        Phase::Idle => Action::Wait,
        Phase::Terminated => Action::Stop,
    }
}

/// Whether `e` reports the action that `p` awaits.
pub open spec fn answers(p: Phase, e: Event) -> bool {
    match (awaited(p), e) {
        (Action::Render, Event::Rendered) => true,
        (Action::Init, Event::Initialized(_)) => true,
        (Action::Execute, Event::Executed(_)) => true,
        (Action::Update, Event::Updated(_)) => true,
        _ => false,
    }
}

pub open spec fn next_phase(p: Phase, e: Event) -> Phase {
    match (p, e) {
        (Phase::Rendering { initial, pending }, Event::Rendered) => {
            if initial {
                Phase::Initializing
            } else if pending {
                Phase::Executing
            } else {
                Phase::Idle
            }
        },
        (Phase::Initializing, Event::Initialized(has_command)) => {
            if has_command {
                Phase::Executing
            } else {
                Phase::Idle
            }
        },
        (Phase::Executing, Event::Executed(o)) => match o {
            Outcome::Nothing => Phase::Rendering { initial: false, pending: false },
            Outcome::Quit => Phase::Terminated,
            Outcome::Deliver => Phase::Dispatching,
        },
        (Phase::Dispatching, Event::Updated(has_command)) => Phase::Rendering {
            initial: false,
            pending: has_command,
        },
        _ => p,
    }
}

/// The phase reached from the start after the events `evs`.
pub open spec fn phase_after(evs: Seq<Event>) -> Phase
    decreases evs.len(),
{
    if evs.len() == 0 {
        start_phase()
    } else {
        next_phase(phase_after(evs.drop_last()), evs.last())
    }
}

/// The action awaited after the first `i` events of `evs`.
pub open spec fn action_at(evs: Seq<Event>, i: int) -> Action {
    awaited(phase_after(evs.take(i)))
}

/// Whether every event of `evs` reports the action that was awaited when it came.
pub open spec fn is_run(evs: Seq<Event>) -> bool {
    forall|i: int| 0 <= i < evs.len() ==> answers(#[trigger] phase_after(evs.take(i)), evs[i])
}

impl Phase {
    /// The phase in which every run begins: the initial render.
    pub fn start() -> (r: Phase)
        ensures
            r == start_phase(),
    {
        Phase::Rendering { initial: true, pending: false }
    }

    /// The action that this phase awaits.
    pub fn action(&self) -> (r: Action)
        ensures
            r == awaited(*self),
    {
        match self {
            Phase::Rendering { .. } => Action::Render,
            Phase::Initializing => Action::Init,
            Phase::Executing => Action::Execute,
            Phase::Dispatching => Action::Update,
            Phase::Idle => Action::Wait,
            Phase::Terminated => Action::Stop,
        }
    }

    /// The phase that follows this one once `e` is reported.
    pub fn next(&self, e: Event) -> (r: Phase)
        ensures
            r == next_phase(*self, e),
    {
        match (*self, e) {
            (Phase::Rendering { initial, pending }, Event::Rendered) => {
                if initial {
                    Phase::Initializing
                } else if pending {
                    Phase::Executing
                } else {
                    Phase::Idle
                }
            },
            (Phase::Initializing, Event::Initialized(has_command)) => {
                if has_command {
                    Phase::Executing
                } else {
                    Phase::Idle
                }
            },
            (Phase::Executing, Event::Executed(o)) => match o {
                Outcome::Nothing => Phase::Rendering { initial: false, pending: false },
                Outcome::Quit => Phase::Terminated,
                Outcome::Deliver => Phase::Dispatching,
            },
            (Phase::Dispatching, Event::Updated(has_command)) => Phase::Rendering {
                initial: false,
                pending: has_command,
            },
            _ => *self,
        }
    }
}

} // verus!
