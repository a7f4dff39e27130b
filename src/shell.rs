//! Control state of the interactive debug shell.
//!
//! The shell reads one line at a time and hands it to a line handler. What
//! comes back from each read (the handler's verdict, end of input, an
//! interrupt or an editing failure) is an event; the state machine below
//! decides whether the shell keeps reading and how it ends.

use vstd::prelude::*;

verus! {

/// What a line handler asks of the shell after one line.
#[derive(Clone, Copy, Debug, PartialEq, Eq, Structural)]
pub enum LoopControl {
    Continue,
    Stop,
}

/// The shell's two states.
#[derive(Clone, Copy, Debug, PartialEq, Eq, Structural)]
pub enum ShellState {
    Running,
    Terminated,
}

/// What one iteration of the shell produced.
#[derive(Clone, Copy, Debug, PartialEq, Eq, Structural)]
pub enum ShellEvent {
    /// A line was read and the handler returned this verdict.
    Handled(LoopControl),
    /// The input stream ended.
    EndOfInput,
    /// The user interrupted the input.
    Interrupted,
    /// Line editing failed for another reason.
    EditError,
}

/// What the shell does after an event.
#[derive(Clone, Copy, Debug, PartialEq, Eq, Structural)]
pub enum ShellAction {
    /// Read the next line.
    ReadNext,
    /// Leave the loop with success.
    Finish,
    /// Print the editing error, then leave the loop with success.
    ReportAndFinish,
}

/// How a run of the shell over a sequence of events came out.
#[derive(Clone, Copy, Debug, PartialEq, Eq, Structural)]
pub enum ShellOutcome {
    /// Every event was consumed and the shell still wants input.
    AwaitingInput,
    /// The shell stopped cleanly.
    Finished,
    /// The shell stopped after reporting an editing error.
    FinishedWithReport,
}

/// The transition of the shell's state machine.
pub open spec fn step_spec(state: ShellState, event: ShellEvent) -> (ShellState, ShellAction) {
    match state {
        ShellState::Terminated => (ShellState::Terminated, ShellAction::Finish),
        ShellState::Running => match event {
            ShellEvent::Handled(LoopControl::Continue) => (ShellState::Running, ShellAction::ReadNext),
            ShellEvent::Handled(LoopControl::Stop) => (ShellState::Terminated, ShellAction::Finish),
            ShellEvent::EndOfInput => (ShellState::Terminated, ShellAction::Finish),
            ShellEvent::Interrupted => (ShellState::Terminated, ShellAction::Finish),
            ShellEvent::EditError => (ShellState::Terminated, ShellAction::ReportAndFinish),
        },
    }
}

/// Runs a fresh shell over `events`: how many it consumes before it stops
/// (all of them if it never stops), and how it came out.
pub open spec fn run_spec(events: Seq<ShellEvent>) -> (nat, ShellOutcome)
    decreases events.len(),
{
    if events.len() == 0 {
        (0, ShellOutcome::AwaitingInput)
    } else {
        match step_spec(ShellState::Running, events[0]).1 {
            ShellAction::ReadNext => {
                let rest = run_spec(events.drop_first());
                (rest.0 + 1, rest.1)
            },
            ShellAction::Finish => (1, ShellOutcome::Finished),
            ShellAction::ReportAndFinish => (1, ShellOutcome::FinishedWithReport),
        }
    }
}

/// One transition: the next state and what the shell does next.
pub fn step(state: ShellState, event: ShellEvent) -> (r: (ShellState, ShellAction))
    ensures
        r == step_spec(state, event),
{
    match state {
        ShellState::Terminated => (ShellState::Terminated, ShellAction::Finish),
        ShellState::Running => match event {
            ShellEvent::Handled(LoopControl::Continue) => (ShellState::Running, ShellAction::ReadNext),
            ShellEvent::Handled(LoopControl::Stop) => (ShellState::Terminated, ShellAction::Finish),
            ShellEvent::EndOfInput => (ShellState::Terminated, ShellAction::Finish),
            ShellEvent::Interrupted => (ShellState::Terminated, ShellAction::Finish),
            ShellEvent::EditError => (ShellState::Terminated, ShellAction::ReportAndFinish),
        },
    }
}

/// Drives a fresh shell over a recorded sequence of events until it stops or
/// the events run out; returns how many events it consumed and the outcome.
pub fn run_events(events: &Vec<ShellEvent>) -> (r: (usize, ShellOutcome))
    ensures
        r.0 as nat == run_spec(events@).0,
        r.1 == run_spec(events@).1,
{
    let mut state = ShellState::Running;
    let mut i: usize = 0;
    let outcome = ShellOutcome::AwaitingInput;
    assert(events@.skip(0) =~= events@);
    while i < events.len()
        invariant
            i <= events@.len(),
            state == ShellState::Running,
            outcome == ShellOutcome::AwaitingInput,
            run_spec(events@).0 == run_spec(events@.skip(i as int)).0 + i,
            run_spec(events@).1 == run_spec(events@.skip(i as int)).1,
        decreases events@.len() - i,
    {
        let ghost tail = events@.skip(i as int);
        assert(tail.drop_first() =~= events@.skip(i + 1));
        let (next, action) = step(state, events[i]);
        i = i + 1;
        match action {
            ShellAction::ReadNext => {
                state = next;
            },
            ShellAction::Finish => {
                return (i, ShellOutcome::Finished);
            },
            ShellAction::ReportAndFinish => {
                return (i, ShellOutcome::FinishedWithReport);
            },
        }
    }
    assert(events@.skip(i as int).len() == 0);
    (i, outcome)
}

/// Once the handler answers `Stop`, the shell consumes no further event:
/// whatever input is still unread, the run ends right there, cleanly.
pub proof fn lemma_stop_ends_run(events: Seq<ShellEvent>, i: int)
    requires
        0 <= i < events.len(),
        events[i] == ShellEvent::Handled(LoopControl::Stop),
        forall|j: int| 0 <= j < i ==> events[j] == ShellEvent::Handled(LoopControl::Continue),
    ensures
        run_spec(events) == ((i + 1) as nat, ShellOutcome::Finished),
    decreases i,
{
    if i > 0 {
        let rest = events.drop_first();
        assert forall|j: int| 0 <= j < i - 1 implies rest[j] == ShellEvent::Handled(
            LoopControl::Continue,
        ) by {
            assert(rest[j] == events[j + 1]);
        }
        lemma_stop_ends_run(rest, i - 1);
    }
}

/// End of input stops the shell with success from any state, and a run that
/// meets end of input after lines the handler let through ends cleanly there.
pub proof fn lemma_end_of_input_finishes(state: ShellState, events: Seq<ShellEvent>, i: int)
    requires
        0 <= i < events.len(),
        events[i] == ShellEvent::EndOfInput,
        forall|j: int| 0 <= j < i ==> events[j] == ShellEvent::Handled(LoopControl::Continue),
    ensures
        step_spec(state, ShellEvent::EndOfInput).0 == ShellState::Terminated,
        step_spec(state, ShellEvent::EndOfInput).1 == ShellAction::Finish,
        run_spec(events) == ((i + 1) as nat, ShellOutcome::Finished),
    decreases i,
{
    if i > 0 {
        let rest = events.drop_first();
        assert forall|j: int| 0 <= j < i - 1 implies rest[j] == ShellEvent::Handled(
            LoopControl::Continue,
        ) by {
            assert(rest[j] == events[j + 1]);
        }
        lemma_end_of_input_finishes(state, rest, i - 1);
    }
}

} // verus!
