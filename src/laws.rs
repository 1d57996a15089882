//! Properties of every run of the loop, stated over the state machine of
//! [`crate::machine`].
use vstd::prelude::*;
use crate::machine::{
    Action, Event, Outcome, Phase, action_at, answers, awaited, is_run, next_phase, phase_after,
    start_phase,
};

verus! {

/// The phase after `i + 1` events is the phase after `i` events moved on by
/// the event at `i`.
proof fn lemma_phase_step(evs: Seq<Event>, i: int)
    requires
        0 <= i < evs.len(),
    ensures
        phase_after(evs.take(i + 1)) == next_phase(phase_after(evs.take(i)), evs[i]),
        phase_after(evs.take(0)) == start_phase(),
{
    assert(evs.take(i + 1).drop_last() =~= evs.take(i));
    assert(evs.take(0) =~= Seq::<Event>::empty());
}

/// In a run, the event at `i` reports what was awaited, and the phase after it
/// follows.
proof fn lemma_run_step(evs: Seq<Event>, i: int)
    requires
        is_run(evs),
        0 <= i < evs.len(),
    ensures
        answers(phase_after(evs.take(i)), evs[i]),
        phase_after(evs.take(i + 1)) == next_phase(phase_after(evs.take(i)), evs[i]),
        phase_after(evs.take(0)) == start_phase(),
{
    lemma_phase_step(evs, i);
}

/// A run cannot go on past a phase that awaits no report.
proof fn lemma_run_ends(evs: Seq<Event>, i: int)
    requires
        is_run(evs),
        0 <= i <= evs.len(),
        awaited(phase_after(evs.take(i))) == Action::Wait || awaited(phase_after(evs.take(i)))
            == Action::Stop,
    ensures
        i == evs.len(),
{
    if i < evs.len() {
        lemma_run_step(evs, i);
    }
}

/// Only the very start of a run is the initial render.
proof fn lemma_initial_only_at_start(evs: Seq<Event>, k: int)
    requires
        is_run(evs),
        0 < k <= evs.len(),
    ensures
        phase_after(evs.take(k)) != start_phase(),
        phase_after(evs.take(k)) == Phase::Initializing ==> k == 1,
{
    lemma_run_step(evs, k - 1);
    if k - 1 > 0 {
        lemma_run_step(evs, k - 2);
    }
}

/// The initial view is rendered first, then `init` is called, and if any
/// command is ever executed, the first one runs right after these two steps:
/// exactly one render comes before the first command.
pub proof fn law_initial_render_once(evs: Seq<Event>)
    requires
        is_run(evs),
    ensures
        action_at(evs, 0) == Action::Render,
        evs.len() >= 1 ==> action_at(evs, 1) == Action::Init,
        evs.len() >= 2 ==> action_at(evs, 2) == Action::Execute || action_at(evs, 2)
            == Action::Wait,
        forall|i: int|
            1 <= i <= evs.len() && #[trigger] action_at(evs, i) == Action::Execute ==> i >= 2
                && action_at(evs, 2) == Action::Execute,
{
    assert(evs.take(0) =~= Seq::<Event>::empty());
    if evs.len() >= 1 {
        lemma_run_step(evs, 0);
    }
    if evs.len() >= 2 {
        lemma_run_step(evs, 1);
    }
    assert forall|i: int|
        1 <= i <= evs.len() && #[trigger] action_at(evs, i) == Action::Execute implies i >= 2
            && action_at(evs, 2) == Action::Execute by {
        if i > 2 && action_at(evs, 2) == Action::Wait {
            lemma_run_ends(evs, 2);
        }
    }
}

/// A command that yields no message is followed by a render of the unchanged
/// model, and `update` is never called for it: with nothing pending, the loop
/// then idles.
pub proof fn law_no_message_no_update(evs: Seq<Event>, i: int)
    requires
        is_run(evs),
        0 <= i < evs.len(),
        evs[i] == Event::Executed(Outcome::Nothing),
    ensures
        action_at(evs, i + 1) == Action::Render,
        forall|j: int| i < j <= evs.len() ==> #[trigger] action_at(evs, j) != Action::Update,
        i + 1 < evs.len() ==> action_at(evs, i + 2) == Action::Wait && i + 2 == evs.len(),
{
    lemma_run_step(evs, i);
    if i + 1 < evs.len() {
        lemma_run_step(evs, i + 1);
        lemma_run_ends(evs, i + 2);
    }
}

/// A quit message ends the run: no event can follow it, so nothing is rendered,
/// executed or updated afterwards.
pub proof fn law_quit_terminates(evs: Seq<Event>, i: int)
    requires
        is_run(evs),
        0 <= i < evs.len(),
        evs[i] == Event::Executed(Outcome::Quit),
    ensures
        i + 1 == evs.len(),
        action_at(evs, i + 1) == Action::Stop,
{
    lemma_run_step(evs, i);
    lemma_run_ends(evs, i + 1);
}

/// A delivered message is handed to `update` next, and the command that
/// `update` returns is the one executed after the following render; without
/// one, the loop idles.
pub proof fn law_update_once_per_message(evs: Seq<Event>, i: int)
    requires
        is_run(evs),
        0 <= i < evs.len(),
    ensures
        evs[i] == Event::Executed(Outcome::Deliver) ==> action_at(evs, i + 1) == Action::Update,
        evs[i] == Event::Executed(Outcome::Deliver) && i + 1 < evs.len() ==> evs[i + 1] is Updated,
        evs[i] is Updated ==> action_at(evs, i + 1) == Action::Render,
        evs[i] is Updated && i + 1 < evs.len() ==> action_at(evs, i + 2) == (if evs[i]->Updated_0 {
            Action::Execute
        } else {
            Action::Wait
        }),
{
    lemma_run_step(evs, i);
    if i + 1 < evs.len() {
        lemma_run_step(evs, i + 1);
    }
}

/// No command is executed twice: every execution after the first one is
/// preceded by an `update` that returned a fresh command, and then a render.
pub proof fn law_each_command_once(evs: Seq<Event>, j: int)
    requires
        is_run(evs),
        0 <= j <= evs.len(),
        action_at(evs, j) == Action::Execute,
    ensures
        j == 2 ==> evs[1] == Event::Initialized(true),
        j != 2 ==> j >= 3 && action_at(evs, j - 1) == Action::Render && action_at(evs, j - 2)
            == Action::Update && evs[j - 2] == Event::Updated(true),
{
    assert(evs.take(0) =~= Seq::<Event>::empty());
    lemma_run_step(evs, j - 1);
    lemma_initial_only_at_start(evs, j - 1);
    if phase_after(evs.take(j - 1)) != Phase::Initializing {
        lemma_run_step(evs, j - 2);
        lemma_initial_only_at_start(evs, j - 2);
    }
}

} // verus!
