//! What can go wrong within one cycle, and at which stage.

use vstd::prelude::*;

verus! {

/// Why a fetch did not yield a snapshot.
#[derive(Clone, Copy, Debug, PartialEq, Eq, Structural)]
pub enum FetchError {
    /// The request never got an answer: connection failure or timeout.
    Transport,
    /// The source answered with a status outside the success range.
    Remote { status: u16 },
    /// The source answered with success, but the body is no snapshot.
    Decode,
}

/// Why an artifact was not committed.
#[derive(Clone, Copy, Debug, PartialEq, Eq, Structural)]
pub enum CommitError {
    /// The artifact has no canonical byte form.
    Serialization,
    /// Storage did not take the bytes.
    Persistence,
}

/// The three stages of a cycle, in the order they run.
#[derive(Clone, Copy, Debug, PartialEq, Eq, Structural)]
pub enum Stage {
    Fetch,
    Build,
    Commit,
}

/// The single failure of a cycle: the originating error under the stage
/// that raised it. Building has no error of its own.
#[derive(Clone, Copy, Debug, PartialEq, Eq, Structural)]
pub enum CycleError {
    Fetch(FetchError),
    Commit(CommitError),
}

impl Stage {
    /// Name of the stage as it appears in reports.
    pub open spec fn label(self) -> Seq<char> {
        match self {
            Stage::Fetch => "fetch stage"@,
            Stage::Build => "build stage"@,
            Stage::Commit => "commit stage"@,
        }
    }

    /// Returns the name of the stage as it appears in reports.
    pub fn name(&self) -> (text: &'static str)
        ensures
            text@ == self.label(),
    {
        match self {
            Stage::Fetch => "fetch stage",
            Stage::Build => "build stage",
            Stage::Commit => "commit stage",
        }
    }
}

impl CycleError {
    /// The stage that a failure belongs to.
    pub open spec fn spec_stage(&self) -> Stage {
        match *self {
            CycleError::Fetch(_) => Stage::Fetch,
            CycleError::Commit(_) => Stage::Commit,
        }
    }

    /// Returns the stage at which the cycle failed.
    #[verifier::when_used_as_spec(spec_stage)]
    pub fn stage(&self) -> (stage: Stage)
        ensures
            stage == self.spec_stage(),
    {
        match self {
            CycleError::Fetch(_) => Stage::Fetch,
            CycleError::Commit(_) => Stage::Commit,
        }
    }
}

} // verus!
