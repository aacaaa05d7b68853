use vstd::prelude::*;

verus! {

/// Control state of one pipeline run, as seen by the writer commit manager.
///
/// The intended shape is
/// `Idle -> Ingesting -> { Committing -> Merging? -> Done }` on success and
/// `Ingesting/Committing -> Failed -> RollingBack -> Aborted` on a fatal
/// error. `Ingesting` is the only state in which documents are submitted.
#[derive(Clone, Copy, Debug, PartialEq, Eq, Structural)]
pub enum RunState {
    Idle,
    Ingesting,
    Committing,
    Merging,
    Done,
    Failed,
    RollingBack,
    Aborted,
}

/// Observable events that move a run between control states.
#[derive(Clone, Copy, Debug, PartialEq, Eq, Structural)]
pub enum RunEvent {
    /// The pipeline threads are up and the writer handle is held.
    Start,
    /// The document queue closed and drained without a fatal error.
    QueueDrained,
    /// The input stream failed mid-run; nothing may be committed.
    InputFailed,
    /// The index engine rejected a document submission.
    SubmitFailed,
    CommitSucceeded,
    CommitFailed,
    /// Consolidation finished, successfully or not; either way the commit
    /// it followed stands.
    MergeFinished,
    RollbackStarted,
    /// Rollback finished, successfully or not; either way the run is over
    /// and has failed.
    RollbackFinished,
}

/// The transition function of the run state machine. An event that makes no
/// sense in the current state leaves the state unchanged.
pub open spec fn next_state(s: RunState, ev: RunEvent, force_merge: bool) -> RunState {
    match (s, ev) {
        (RunState::Idle, RunEvent::Start) => RunState::Ingesting,
        (RunState::Ingesting, RunEvent::QueueDrained) => RunState::Committing,
        (RunState::Ingesting, RunEvent::InputFailed) => RunState::Failed,
        (RunState::Ingesting, RunEvent::SubmitFailed) => RunState::Failed,
        (RunState::Committing, RunEvent::CommitSucceeded) => if force_merge {
            RunState::Merging
        } else {
            RunState::Done
        },
        (RunState::Committing, RunEvent::CommitFailed) => RunState::Failed,
        (RunState::Merging, RunEvent::MergeFinished) => RunState::Done,
        (RunState::Failed, RunEvent::RollbackStarted) => RunState::RollingBack,
        (RunState::RollingBack, RunEvent::RollbackFinished) => RunState::Aborted,
        _ => s,
    }
}

/// Take one step of the run state machine.
pub fn step(s: RunState, ev: RunEvent, force_merge: bool) -> (t: RunState)
    ensures
        t == next_state(s, ev, force_merge),
{
    match (s, ev) {
        (RunState::Idle, RunEvent::Start) => RunState::Ingesting,
        (RunState::Ingesting, RunEvent::QueueDrained) => RunState::Committing,
        (RunState::Ingesting, RunEvent::InputFailed) => RunState::Failed,
        (RunState::Ingesting, RunEvent::SubmitFailed) => RunState::Failed,
        (RunState::Committing, RunEvent::CommitSucceeded) => if force_merge {
            RunState::Merging
        } else {
            RunState::Done
        },
        (RunState::Committing, RunEvent::CommitFailed) => RunState::Failed,
        (RunState::Merging, RunEvent::MergeFinished) => RunState::Done,
        (RunState::Failed, RunEvent::RollbackStarted) => RunState::RollingBack,
        (RunState::RollingBack, RunEvent::RollbackFinished) => RunState::Aborted,
        _ => s,
    }
}

/// A run is over in `Done` (success; the commit stands) or `Aborted`
/// (failure; the rollback ran).
pub open spec fn is_terminal(s: RunState) -> bool {
    s == RunState::Done || s == RunState::Aborted
}

/// Commit and rollback are mutually exclusive exits: a step can only land in
/// `Committing` from an `Ingesting` state whose queue drained cleanly, never
/// from any state on the failure path.
pub proof fn lemma_commit_only_after_clean_drain(s: RunState, ev: RunEvent, force_merge: bool)
    ensures
        next_state(s, ev, force_merge) == RunState::Committing ==> (s == RunState::Ingesting
            && ev == RunEvent::QueueDrained) || s == RunState::Committing,
{
}

/// Success is only reached through a successful commit: a step lands in
/// `Done` only out of `Committing` or `Merging`, never off the failure path.
pub proof fn lemma_done_needs_commit(s: RunState, ev: RunEvent, force_merge: bool)
    ensures
        next_state(s, ev, force_merge) == RunState::Done ==> (s == RunState::Committing
            && ev == RunEvent::CommitSucceeded && !force_merge) || (s == RunState::Merging
            && ev == RunEvent::MergeFinished) || s == RunState::Done,
{
}

/// Consolidation runs only on explicit request and only right after a
/// successful commit.
pub proof fn lemma_merge_needs_request_and_commit(s: RunState, ev: RunEvent, force_merge: bool)
    ensures
        next_state(s, ev, force_merge) == RunState::Merging ==> (s == RunState::Committing
            && ev == RunEvent::CommitSucceeded && force_merge) || s == RunState::Merging,
{
}

/// A failed run always passes through rollback: a step lands in `Aborted`
/// only out of `RollingBack`.
pub proof fn lemma_abort_needs_rollback(s: RunState, ev: RunEvent, force_merge: bool)
    ensures
        next_state(s, ev, force_merge) == RunState::Aborted ==> (s == RunState::RollingBack
            && ev == RunEvent::RollbackFinished) || s == RunState::Aborted,
{
}

/// Terminal states are absorbing: once a run is `Done` or `Aborted`, no
/// event moves it anywhere else.
pub proof fn lemma_terminal_absorbing(s: RunState, ev: RunEvent, force_merge: bool)
    ensures
        is_terminal(s) ==> next_state(s, ev, force_merge) == s,
{
}

} // verus!
