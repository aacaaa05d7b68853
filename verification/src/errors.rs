use vstd::prelude::*;

verus! {

/// The stage of a run at which a fatal error arose.
///
/// Per-record parse failures are recoverable and are not represented here:
/// they are logged and the offending line is dropped. Every other failure
/// is fatal to its stage and carries exactly one of these tags.
#[derive(Clone, Copy, Debug, PartialEq, Eq, Structural)]
pub enum FatalStage {
    /// The input stream could not be read.
    Input,
    /// The index engine rejected a document submission.
    Submit,
    /// The final commit failed.
    Commit,
    /// The rollback after a fatal error itself failed; nothing further
    /// can be recovered.
    Rollback,
    /// Consolidation after a successful commit failed; the commit stands.
    Merge,
}

/// A fatal pipeline error: the stage that failed plus the collaborator's
/// own description of the fault.
#[derive(Debug)]
pub struct PipelineError {
    pub stage: FatalStage,
    pub detail: String,
}

impl PipelineError {
    pub fn new(stage: FatalStage, detail: String) -> (e: Self)
        ensures
            e.stage == stage,
            e.detail == detail,
    {
        PipelineError { stage, detail }
    }
}

} // verus!
