//! The child-process lifecycle: a state machine that decides, from the
//! supervisor's state and an incoming event, the next state and the action
//! to take on the child. The unverified runtime around it spawns the child,
//! waits on the OS interrupt and the internal shutdown channel, and carries
//! out the actions decided here.

use vstd::prelude::*;

verus! {

/// Where the supervised run stands.
#[derive(Clone, Copy, PartialEq, Eq, Structural, Debug)]
pub enum SupervisorState {
    /// No spawn has been attempted yet.
    NotStarted,
    /// The child process is alive.
    Running,
    /// The spawn attempt failed; terminal.
    FailedToStart,
    /// The child has been killed or has exited; terminal.
    Terminated,
}

/// What the runtime observed.
#[derive(Clone, Copy, PartialEq, Eq, Structural, Debug)]
pub enum SupervisorEvent {
    /// The spawn attempt produced a live child.
    SpawnSucceeded,
    /// The spawn attempt failed.
    SpawnFailed,
    /// The OS delivered an interrupt or termination signal.
    OsInterrupt,
    /// The internal shutdown channel delivered a value.
    ShutdownRequested,
    /// The child exited on its own.
    ChildExited,
}

/// What the runtime must do next.
#[derive(Clone, Copy, PartialEq, Eq, Structural, Debug)]
pub enum SupervisorAction {
    DoNothing,
    /// Kill the child forcefully, at once.
    KillChild,
}

/// The transition relation: spawn outcomes move a fresh supervisor to
/// Running or FailedToStart; while Running, an OS interrupt or an internal
/// shutdown request kills the child and terminates the run, and a child
/// exit terminates it without a kill. Every other pairing changes nothing.
pub open spec fn step_spec(state: SupervisorState, event: SupervisorEvent) -> (
    SupervisorState,
    SupervisorAction,
) {
    match (state, event) {
        (SupervisorState::NotStarted, SupervisorEvent::SpawnSucceeded) => (
            SupervisorState::Running,
            SupervisorAction::DoNothing,
        ),
        (SupervisorState::NotStarted, SupervisorEvent::SpawnFailed) => (
            SupervisorState::FailedToStart,
            SupervisorAction::DoNothing,
        ),
        (SupervisorState::Running, SupervisorEvent::OsInterrupt) => (
            SupervisorState::Terminated,
            SupervisorAction::KillChild,
        ),
        (SupervisorState::Running, SupervisorEvent::ShutdownRequested) => (
            SupervisorState::Terminated,
            SupervisorAction::KillChild,
        ),
        (SupervisorState::Running, SupervisorEvent::ChildExited) => (
            SupervisorState::Terminated,
            SupervisorAction::DoNothing,
        ),
        _ => (state, SupervisorAction::DoNothing),
    }
}

/// Takes one supervision step.
pub fn step(state: SupervisorState, event: SupervisorEvent) -> (r: (
    SupervisorState,
    SupervisorAction,
))
    ensures
        r == step_spec(state, event),
{
    match (state, event) {
        (SupervisorState::NotStarted, SupervisorEvent::SpawnSucceeded) => (
            SupervisorState::Running,
            SupervisorAction::DoNothing,
        ),
        (SupervisorState::NotStarted, SupervisorEvent::SpawnFailed) => (
            SupervisorState::FailedToStart,
            SupervisorAction::DoNothing,
        ),
        (SupervisorState::Running, SupervisorEvent::OsInterrupt) => (
            SupervisorState::Terminated,
            SupervisorAction::KillChild,
        ),
        (SupervisorState::Running, SupervisorEvent::ShutdownRequested) => (
            SupervisorState::Terminated,
            SupervisorAction::KillChild,
        ),
        (SupervisorState::Running, SupervisorEvent::ChildExited) => (
            SupervisorState::Terminated,
            SupervisorAction::DoNothing,
        ),
        _ => (state, SupervisorAction::DoNothing),
    }
}

/// Signal handling: while a child is running, an internal shutdown request
/// and an OS interrupt each make the supervisor kill the child, and the run
/// reaches the Terminated state.
pub proof fn lemma_running_signal_kills_child(event: SupervisorEvent)
    requires
        event == SupervisorEvent::ShutdownRequested || event == SupervisorEvent::OsInterrupt,
    ensures
        step_spec(SupervisorState::Running, event) == (
            SupervisorState::Terminated,
            SupervisorAction::KillChild,
        ),
{
}

} // verus!
