use tantivy_ingest::control::{step, RunEvent, RunState};

#[test]
fn successful_run_without_merge() {
    let mut s = RunState::Idle;
    s = step(s, RunEvent::Start, false);
    assert_eq!(s, RunState::Ingesting);
    s = step(s, RunEvent::QueueDrained, false);
    assert_eq!(s, RunState::Committing);
    s = step(s, RunEvent::CommitSucceeded, false);
    assert_eq!(s, RunState::Done);
}

#[test]
fn successful_run_with_forced_merge() {
    let mut s = RunState::Idle;
    s = step(s, RunEvent::Start, true);
    s = step(s, RunEvent::QueueDrained, true);
    s = step(s, RunEvent::CommitSucceeded, true);
    assert_eq!(s, RunState::Merging);
    s = step(s, RunEvent::MergeFinished, true);
    assert_eq!(s, RunState::Done);
}

#[test]
fn input_failure_goes_through_rollback() {
    let mut s = RunState::Ingesting;
    s = step(s, RunEvent::InputFailed, false);
    assert_eq!(s, RunState::Failed);
    s = step(s, RunEvent::RollbackStarted, false);
    s = step(s, RunEvent::RollbackFinished, false);
    assert_eq!(s, RunState::Aborted);
}

#[test]
fn submission_failure_goes_through_rollback() {
    let mut s = RunState::Ingesting;
    s = step(s, RunEvent::SubmitFailed, false);
    assert_eq!(s, RunState::Failed);
    s = step(s, RunEvent::RollbackStarted, false);
    assert_eq!(s, RunState::RollingBack);
    s = step(s, RunEvent::RollbackFinished, false);
    assert_eq!(s, RunState::Aborted);
}

#[test]
fn commit_failure_goes_through_rollback() {
    let mut s = RunState::Committing;
    s = step(s, RunEvent::CommitFailed, true);
    assert_eq!(s, RunState::Failed);
    s = step(s, RunEvent::RollbackStarted, true);
    s = step(s, RunEvent::RollbackFinished, true);
    assert_eq!(s, RunState::Aborted);
}

#[test]
fn terminal_states_absorb_every_event() {
    let events = [
        RunEvent::Start,
        RunEvent::QueueDrained,
        RunEvent::InputFailed,
        RunEvent::SubmitFailed,
        RunEvent::CommitSucceeded,
        RunEvent::CommitFailed,
        RunEvent::MergeFinished,
        RunEvent::RollbackStarted,
        RunEvent::RollbackFinished,
    ];
    for ev in events {
        assert_eq!(step(RunState::Done, ev, true), RunState::Done);
        assert_eq!(step(RunState::Aborted, ev, true), RunState::Aborted);
    }
}

#[test]
fn unexpected_events_do_not_move_the_machine() {
    assert_eq!(step(RunState::Idle, RunEvent::CommitSucceeded, false), RunState::Idle);
    assert_eq!(step(RunState::Ingesting, RunEvent::MergeFinished, false), RunState::Ingesting);
    assert_eq!(step(RunState::Failed, RunEvent::CommitSucceeded, false), RunState::Failed);
}
