//! The loop's own state: the model, the phase, and the command or message in
//! hand. Each call of [`Runtime::step`] performs the one action that the
//! phase awaits.
use vstd::prelude::*;
use crate::machine::{
    Action, Event, Outcome, Phase, answers, awaited, is_run, next_phase, phase_after, start_phase,
};
use crate::message::{Command, Message, outcome, outcome_of};
use crate::model::Model;

verus! {

/// What the caller of [`Runtime::step`] must do next.
pub enum Effect {
    /// Write this view to the output and flush it.
    Render(String),
    /// Work was done inside the loop: call `step` again.
    Proceed,
    /// Nothing is pending: the loop makes no further progress.
    Idle,
    /// A quit message was produced: the loop has ended.
    Stop,
}

/// The message that the pending command `c` yields when performed.
pub open spec fn yielded<T>(c: Option<Command<T>>) -> Option<Message<T>> {
    match c {
        Some(c) => c.yields(),
        None => None,
    }
}

pub struct Runtime<M: Model> {
    model: M,
    phase: Phase,
    pending: Option<Command<M::Message>>,
    inbox: Option<Message<M::Message>>,
    events: Ghost<Seq<Event>>,
}

impl<M: Model> Runtime<M> {
    /// The events reported so far, from the start of the run.
    pub closed spec fn history(&self) -> Seq<Event> {
        self.events@
    }

    pub closed spec fn phase_spec(&self) -> Phase {
        self.phase
    }

    /// The model the loop owns.
    pub closed spec fn model_spec(&self) -> M {
        self.model
    }

    /// The command scheduled and not yet performed.
    pub closed spec fn pending_spec(&self) -> Option<Command<M::Message>> {
        self.pending
    }

    /// The message yielded by a command and not yet handed to `update`.
    pub closed spec fn inbox_spec(&self) -> Option<Message<M::Message>> {
        self.inbox
    }

    /// The phase follows the history, the history is a run, and the command
    /// and message in hand are there exactly when the phase needs them.
    pub closed spec fn wf(&self) -> bool {
        &&& is_run(self.events@)
        &&& self.phase == phase_after(self.events@)
        &&& (self.pending is Some <==> (self.phase == Phase::Executing || self.phase
            == Phase::Rendering { initial: false, pending: true }))
        &&& (self.inbox is Some <==> self.phase == Phase::Dispatching)
    }

    /// The history of a well-formed loop is a run, so every law of
    /// [`crate::laws`] holds of it.
    pub proof fn lemma_history_is_run(&self)
        requires
            self.wf(),
        ensures
            is_run(self.history()),
            self.phase_spec() == phase_after(self.history()),
    {
    }

    /// A loop over `model` that has done nothing yet.
    pub fn new(model: M) -> (r: Self)
        ensures
            r.wf(),
            r.history() == Seq::<Event>::empty(),
            r.phase_spec() == start_phase(),
            r.model_spec() == model,
            r.pending_spec() is None,
            r.inbox_spec() is None,
    {
        Runtime { model, phase: Phase::start(), pending: None, inbox: None, events: Ghost(Seq::empty()) }
    }

    /// The phase the loop stands in.
    pub fn phase(&self) -> (r: Phase)
        ensures
            r == self.phase_spec(),
    {
        self.phase
    }

    /// The model, as it stands.
    pub fn model(&self) -> (r: &M)
        ensures
            *r == self.model_spec(),
    {
        &self.model
    }

    /// Records that `e` happened: the phase moves on and the history grows.
    fn report(&mut self, e: Event)
        requires
            is_run(old(self).events@),
            old(self).phase == phase_after(old(self).events@),
            answers(old(self).phase, e),
        ensures
            final(self).events@ == old(self).events@.push(e),
            final(self).phase == next_phase(old(self).phase, e),
            is_run(final(self).events@),
            final(self).phase == phase_after(final(self).events@),
            final(self).model == old(self).model,
            final(self).pending == old(self).pending,
            final(self).inbox == old(self).inbox,
    {
        let ghost before = self.events@;
        self.phase = self.phase.next(e);
        self.events = Ghost(before.push(e));
        proof {
            let evs = self.events@;
            assert(evs.drop_last() =~= before);
            assert forall|i: int| 0 <= i < evs.len() implies answers(
                #[trigger] phase_after(evs.take(i)),
                evs[i],
            ) by {
                if i < before.len() {
                    assert(evs.take(i) =~= before.take(i));
                } else {
                    assert(evs.take(i) =~= before);
                }
            }
        }
    }

    /// Performs the action that the phase awaits, and reports it.
    /// - Render: returns the model's view; nothing else changes.
    /// - Init: the command that `init` returns becomes pending.
    /// - Execute: the pending command is performed once and dropped; a quit
    ///   ends the loop, another message is kept for `update`.
    /// - Update: the kept message is handed to `update`, and the command it
    ///   returns becomes pending.
    /// - Idle or stopped: nothing changes.
    pub fn step(&mut self) -> (r: Effect)
        requires
            old(self).wf(),
        ensures
            final(self).wf(),
            final(self).history().len() == old(self).history().len() + 1
                ==> final(self).phase_spec() == next_phase(
                old(self).phase_spec(),
                final(self).history().last(),
            ),
            old(self).phase_spec() is Rendering ==> {
                &&& r matches Effect::Render(v) && v@ == old(self).model_spec().view_spec()
                &&& final(self).history() == old(self).history().push(Event::Rendered)
                &&& final(self).model_spec() == old(self).model_spec()
                &&& final(self).pending_spec() == old(self).pending_spec()
                &&& final(self).inbox_spec() is None
            },
            old(self).phase_spec() == Phase::Initializing ==> {
                let c = old(self).model_spec().init_spec();
                &&& r is Proceed
                &&& final(self).history() == old(self).history().push(Event::Initialized(c is Some))
                &&& final(self).model_spec() == old(self).model_spec()
                &&& final(self).pending_spec() == c
                &&& final(self).inbox_spec() is None
            },
            old(self).phase_spec() == Phase::Executing ==> {
                let m = yielded(old(self).pending_spec());
                let o = outcome_of(m);
                &&& r is Proceed
                &&& final(self).history() == old(self).history().push(Event::Executed(o))
                &&& final(self).model_spec() == old(self).model_spec()
                &&& final(self).pending_spec() is None
                &&& final(self).inbox_spec() == (if o == Outcome::Deliver {
                    m
                } else {
                    None
                })
            },
            old(self).phase_spec() == Phase::Dispatching ==> {
                let m = old(self).inbox_spec()->0;
                let c = old(self).model_spec().update_command_spec(m);
                &&& r is Proceed
                &&& final(self).history() == old(self).history().push(Event::Updated(c is Some))
                &&& final(self).model_spec() == old(self).model_spec().updated_spec(m)
                &&& final(self).pending_spec() == c
                &&& final(self).inbox_spec() is None
            },
            old(self).phase_spec() == Phase::Idle ==> r is Idle && *final(self) == *old(self),
            old(self).phase_spec() == Phase::Terminated ==> r is Stop && *final(self) == *old(
                self,
            ),
    {
        match self.phase {
            Phase::Rendering { .. } => {
                let v = self.model.view();
                self.report(Event::Rendered);
                Effect::Render(v)
            },
            Phase::Initializing => {
                let c = self.model.init();
                let has_command = c.is_some();
                self.pending = c;
                self.report(Event::Initialized(has_command));
                Effect::Proceed
            },
            Phase::Executing => {
                let c = self.pending.take();
                match c {
                    Some(c) => {
                        let m = c.perform();
                        let o = outcome(&m);
                        if o == Outcome::Deliver {
                            self.inbox = m;
                        }
                        self.report(Event::Executed(o));
                        Effect::Proceed
                    },
                    // Not reached: well-formedness puts a command in hand here.
                    None => Effect::Stop,
                }
            },
            Phase::Dispatching => {
                let m = self.inbox.take();
                match m {
                    Some(m) => {
                        let c = self.model.update(m);
                        let has_command = c.is_some();
                        self.pending = c;
                        self.report(Event::Updated(has_command));
                        Effect::Proceed
                    },
                    // Not reached: well-formedness puts a message in hand here.
                    None => Effect::Stop,
                }
            },
            Phase::Idle => Effect::Idle,
            Phase::Terminated => Effect::Stop,
        }
    }
}

} // verus!
