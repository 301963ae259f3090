//! Decisions of the loop that watches the wrapped command.

use vstd::prelude::*;

verus! {

/// What one poll of the child process reported.
#[derive(Debug, Clone, Copy, PartialEq, Eq, Structural)]
pub enum ChildStatus {
    /// It has ended, with its exit code if it has one.
    Exited(Option<i32>),
    Running,
    WaitFailed,
}

/// What the watching loop does next.
#[derive(Debug, Clone, Copy, PartialEq, Eq, Structural)]
pub enum SupervisorAction {
    /// Stop watching and exit with this code.
    Finish(i32),
    /// Wait a moment and poll again.
    Sleep,
    /// Terminate the child; the run then exits with code 1.
    Kill,
}

/// An interrupt wins; otherwise an ended child gives its code (1 without one),
/// a failed wait gives 1, and a running child is polled again.
pub fn next_action(terminate_requested: bool, status: ChildStatus) -> (r: SupervisorAction)
    ensures
        terminate_requested ==> r == SupervisorAction::Kill,
        !terminate_requested ==> r == match status {
            ChildStatus::Exited(Some(c)) => SupervisorAction::Finish(c),
            ChildStatus::Exited(None) => SupervisorAction::Finish(1),
            ChildStatus::Running => SupervisorAction::Sleep,
            ChildStatus::WaitFailed => SupervisorAction::Finish(1),
        },
{
    if terminate_requested {
        return SupervisorAction::Kill;
    }
    match status {
        ChildStatus::Exited(Some(c)) => SupervisorAction::Finish(c),
        ChildStatus::Exited(None) => SupervisorAction::Finish(1),
        ChildStatus::Running => SupervisorAction::Sleep,
        ChildStatus::WaitFailed => SupervisorAction::Finish(1),
    }
}

} // verus!
