//! The life cycle of the supervised browser process.
//!
//! The supervisor spawns the browser, waits for it to exit, waits for a
//! request to show the window again, and spawns anew, until quit is
//! requested. Here are its decisions: from the phase it is in, the shared
//! state and what has just happened, to the next phase and what to do next.
//! The caller spawns and waits.

use vstd::prelude::*;
use crate::state::DaemonState;
use crate::state::Operation;
use crate::state::StateView;
use crate::state::state_after;

verus! {

/// How the supervisor's loop ended.
#[derive(Debug, Clone, Copy, PartialEq, Eq, Structural)]
pub enum RunOutcome {
    /// Quit was requested: the loop ends in good order.
    Quit,
    /// The browser could not be started, or the extension not loaded.
    SpawnFailed,
    /// Waiting for the browser's exit failed.
    WaitFailed,
}

/// Where the supervisor is in its loop.
#[derive(Debug, Clone, Copy, PartialEq, Eq, Structural)]
pub enum Phase {
    /// A browser process is being started and the extension loaded into it.
    Spawning,
    /// The browser runs; the supervisor waits for its exit.
    Running,
    /// The browser has exited; the supervisor waits to be asked to show the
    /// window.
    WaitingForShow,
    /// The loop has ended. This phase is final.
    Terminated { outcome: RunOutcome },
}

/// What has just happened.
#[derive(Debug, Clone, Copy, PartialEq, Eq, Structural)]
pub enum SupervisorEvent {
    /// The browser is started and the extension is loaded.
    Spawned { pid: Option<u32> },
    /// Starting the browser or loading the extension failed.
    SpawnFailed,
    /// The browser process has exited.
    Exited,
    /// Waiting for the exit failed.
    WaitFailed,
    /// The wait for a show request was woken.
    Woken,
}

/// What the supervisor does next.
#[derive(Debug, Clone, Copy, PartialEq, Eq, Structural)]
pub enum SupervisorAction {
    /// Start a fresh browser process and load the extension.
    Spawn,
    /// Wait until the browser process exits.
    WaitForExit,
    /// Wait until woken for a show request.
    WaitForShow,
    /// Return to the caller.
    Finish { outcome: RunOutcome },
}

/// What the supervisor is doing while it is in `phase`.
pub open spec fn standing_action(phase: Phase) -> SupervisorAction {
    match phase {
        Phase::Spawning => SupervisorAction::Spawn,
        Phase::Running => SupervisorAction::WaitForExit,
        Phase::WaitingForShow => SupervisorAction::WaitForShow,
        Phase::Terminated { outcome } => SupervisorAction::Finish { outcome },
    }
}

/// The phase that follows when `event` happens in `phase`, with the shared
/// state as it is before the event. An event that does not belong to the
/// phase changes nothing.
pub open spec fn next_phase(phase: Phase, state: StateView, event: SupervisorEvent) -> Phase {
    match (phase, event) {
        (Phase::Spawning, SupervisorEvent::Spawned { .. }) => Phase::Running,
        (Phase::Spawning, SupervisorEvent::SpawnFailed) => Phase::Terminated {
            outcome: RunOutcome::SpawnFailed,
        },
        (Phase::Running, SupervisorEvent::Exited) => if state.quit_requested {
            Phase::Terminated { outcome: RunOutcome::Quit }
        } else {
            Phase::WaitingForShow
        },
        (Phase::Running, SupervisorEvent::WaitFailed) => Phase::Terminated {
            outcome: RunOutcome::WaitFailed,
        },
        (Phase::WaitingForShow, SupervisorEvent::Woken) => if state.quit_requested {
            Phase::Terminated { outcome: RunOutcome::Quit }
        } else {
            Phase::Spawning
        },
        _ => phase,
    }
}

/// The shared state after `event` happens in `phase`: a started process is
/// recorded and the window counts as visible; an exited one is forgotten and
/// the window counts as hidden.
pub open spec fn state_after_event(
    phase: Phase,
    state: StateView,
    event: SupervisorEvent,
) -> StateView {
    match (phase, event) {
        (Phase::Spawning, SupervisorEvent::Spawned { pid }) => state_after(
            state,
            Operation::ProcessStarted { pid },
        ),
        (Phase::Running, SupervisorEvent::Exited) => state_after(state, Operation::ProcessExited),
        _ => state,
    }
}

/// The supervisor of one daemon.
pub struct Supervisor {
    phase: Phase,
}

impl View for Supervisor {
    type V = Phase;

    closed spec fn view(&self) -> Phase {
        self.phase
    }
}

impl Supervisor {
    /// A supervisor about to spawn the first browser process.
    pub fn new() -> (supervisor: Supervisor)
        ensures
            supervisor@ == Phase::Spawning,
    {
        Supervisor { phase: Phase::Spawning }
    }

    pub fn phase(&self) -> (phase: Phase)
        ensures
            phase == self@,
    {
        self.phase
    }

    /// What the supervisor is doing now.
    pub fn action(&self) -> (action: SupervisorAction)
        ensures
            action == standing_action(self@),
    {
        match self.phase {
            Phase::Spawning => SupervisorAction::Spawn,
            Phase::Running => SupervisorAction::WaitForExit,
            Phase::WaitingForShow => SupervisorAction::WaitForShow,
            Phase::Terminated { outcome } => SupervisorAction::Finish { outcome },
        }
    }

    /// Takes in what has happened, writes what it means into the shared
    /// state, and says what to do next.
    pub fn on_event(&mut self, state: &mut DaemonState, event: SupervisorEvent) -> (action:
        SupervisorAction)
        ensures
            final(self)@ == next_phase(old(self)@, old(state)@, event),
            final(state)@ == state_after_event(old(self)@, old(state)@, event),
            action == standing_action(final(self)@),
    {
        match (self.phase, event) {
            (Phase::Spawning, SupervisorEvent::Spawned { pid }) => {
                let _ = state.apply(Operation::ProcessStarted { pid });
                self.phase = Phase::Running;
            },
            (Phase::Spawning, SupervisorEvent::SpawnFailed) => {
                self.phase = Phase::Terminated { outcome: RunOutcome::SpawnFailed };
            },
            (Phase::Running, SupervisorEvent::Exited) => {
                let quit = state.is_quit_requested();
                let _ = state.apply(Operation::ProcessExited);
                if quit {
                    self.phase = Phase::Terminated { outcome: RunOutcome::Quit };
                } else {
                    self.phase = Phase::WaitingForShow;
                }
            },
            (Phase::Running, SupervisorEvent::WaitFailed) => {
                self.phase = Phase::Terminated { outcome: RunOutcome::WaitFailed };
            },
            (Phase::WaitingForShow, SupervisorEvent::Woken) => {
                if state.is_quit_requested() {
                    self.phase = Phase::Terminated { outcome: RunOutcome::Quit };
                } else {
                    self.phase = Phase::Spawning;
                }
            },
            _ => {},
        }
        self.action()
    }
}

/// The phase after each of `events` in turn, with the shared state that
/// results along the way.
pub open spec fn run_events(phase: Phase, state: StateView, events: Seq<SupervisorEvent>) -> (
    Phase,
    StateView,
)
    decreases events.len(),
{
    if events.len() == 0 {
        (phase, state)
    } else {
        let (p, s) = run_events(phase, state, events.drop_last());
        (next_phase(p, s, events.last()), state_after_event(p, s, events.last()))
    }
}

/// The terminated phase is final: whatever happens afterwards, the phase,
/// its outcome and the shared state stay as they are.
pub proof fn lemma_terminated_is_final(
    outcome: RunOutcome,
    state: StateView,
    events: Seq<SupervisorEvent>,
)
    ensures
        run_events(Phase::Terminated { outcome }, state, events) == (
            Phase::Terminated { outcome },
            state,
        ),
    decreases events.len(),
{
    if events.len() > 0 {
        lemma_terminated_is_final(outcome, state, events.drop_last());
    }
}

/// The supervisor never changes whether quit is requested.
pub proof fn lemma_events_keep_quit(phase: Phase, state: StateView, event: SupervisorEvent)
    ensures
        state_after_event(phase, state, event).quit_requested == state.quit_requested,
{
}

/// While the browser runs after a fresh spawn, the window counts as visible
/// and the process is the recorded one; once it has exited, the window counts
/// as hidden and no process is recorded.
pub proof fn lemma_process_is_recorded(state: StateView, pid: Option<u32>)
    ensures
        state_after_event(Phase::Spawning, state, SupervisorEvent::Spawned { pid }).visible,
        state_after_event(
            Phase::Spawning,
            state,
            SupervisorEvent::Spawned { pid },
        ).supervised_pid == pid,
        !state_after_event(Phase::Running, state, SupervisorEvent::Exited).visible,
        state_after_event(Phase::Running, state, SupervisorEvent::Exited).supervised_pid is None,
{
}

/// With quit requested, the loop ends in good order at the next point where
/// the supervisor looks: when the browser exits, or when the wait for a show
/// request is woken. It does not spawn again.
pub proof fn lemma_quit_ends_the_loop(state: StateView)
    requires
        state.quit_requested,
    ensures
        next_phase(Phase::Running, state, SupervisorEvent::Exited) == (Phase::Terminated {
            outcome: RunOutcome::Quit,
        }),
        next_phase(Phase::WaitingForShow, state, SupervisorEvent::Woken) == (Phase::Terminated {
            outcome: RunOutcome::Quit,
        }),
{
}

} // verus!
