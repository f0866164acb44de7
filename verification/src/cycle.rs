//! One cycle of the pipeline as a state machine: fetch, build, commit.
//!
//! The machine decides; its driver performs. Each step takes the event that
//! answers the last action and names the next action. The data that an
//! action works on is held by the state.

use vstd::prelude::*;
use crate::artifact::{assembled, is_utc_time_text, is_uuid_text, InscriptionData};
use crate::client::{fetch_outcome, FetchReply};
use crate::commit::{commit_outcome, PendingCommit};
use crate::digest::is_reference;
use crate::error::{CommitError, CycleError};
use crate::leaderboard::LeaderboardData;

verus! {

/// Where a cycle stands.
#[derive(Debug, PartialEq, Eq)]
pub enum CycleState {
    /// Nothing has been done yet.
    Ready,
    /// The request is out; the reply is awaited.
    Fetching,
    /// The artifact is built; its canonical text is awaited.
    Encoding(InscriptionData),
    /// The commit is staged; the answer of storage is awaited.
    Persisting(PendingCommit),
    /// The cycle is over: the reference, or the one failure.
    Done(Result<String, CycleError>),
}

/// What the driver reports back.
#[derive(Clone, Debug, PartialEq, Eq)]
pub enum CycleEvent {
    /// The cycle is to begin.
    Started,
    /// The fetch request was answered, or was not.
    Replied(FetchReply),
    /// The artifact was serialized to this canonical text, or could not be.
    Encoded(Option<String>),
    /// Storage took the staged bytes, or did not.
    Written(bool),
}

/// What the driver has to do next.
#[derive(Clone, Copy, Debug, PartialEq, Eq, Structural)]
pub enum CycleAction {
    /// Issue the fetch request and report the reply.
    Fetch,
    /// Serialize the artifact held by the state and report the text.
    Encode,
    /// Write the staged content under the staged file name and report
    /// whether that worked.
    Persist,
    /// Take the outcome held by the state; the cycle is over.
    Finish,
    /// The event answered nothing that was asked; nothing is to be done.
    Nothing,
}

/// An artifact that packages `snapshot` under some identifier of the
/// textual form of a random UUID and some creation time in UTC.
pub open spec fn packaged(snapshot: LeaderboardData, artifact: InscriptionData) -> bool {
    &&& assembled(
        snapshot,
        artifact@.inscription_metadata.inscription_id,
        artifact@.inscription_metadata.created_at,
        artifact,
    )
    &&& is_uuid_text(artifact@.inscription_metadata.inscription_id)
    &&& is_utc_time_text(artifact@.inscription_metadata.created_at)
}

/// The commit staged for `artifact` with canonical text `content`, under
/// some time stamp.
pub open spec fn staged(artifact: InscriptionData, content: String, pending: PendingCommit) -> bool {
    &&& exists|stamp: Seq<char>|
        (#[trigger] pending.prepared_from(
            artifact@.inscription_metadata.inscription_id,
            content,
            stamp,
        ))
    &&& pending.well_formed()
}

/// The failure of a cycle at the commit stage, or its success.
pub open spec fn closed(pending: PendingCommit, written: bool) -> Result<String, CycleError> {
    match commit_outcome(pending, written) {
        Ok(reference) => Ok(reference),
        Err(cause) => Err(CycleError::Commit(cause)),
    }
}

/// The steps that a cycle may take.
///
/// A cycle runs fetch, build and commit in this order and stops at the
/// first failure, which it reports under the stage that raised it. An
/// event that does not answer the pending action changes nothing.
pub open spec fn cycle_step(
    state: CycleState,
    event: CycleEvent,
    next: CycleState,
    action: CycleAction,
) -> bool {
    match (state, event) {
        (CycleState::Ready, CycleEvent::Started) => {
            &&& next == CycleState::Fetching
            &&& action == CycleAction::Fetch
        },
        (CycleState::Fetching, CycleEvent::Replied(reply)) => match fetch_outcome(reply) {
            Ok(snapshot) => {
                &&& next is Encoding
                &&& packaged(snapshot, next->Encoding_0)
                &&& action == CycleAction::Encode
            },
            Err(cause) => {
                &&& next == CycleState::Done(Err(CycleError::Fetch(cause)))
                &&& action == CycleAction::Finish
            },
        },
        (CycleState::Encoding(artifact), CycleEvent::Encoded(text)) => match text {
            Some(content) => {
                &&& next is Persisting
                &&& staged(artifact, content, next->Persisting_0)
                &&& action == CycleAction::Persist
            },
            None => {
                &&& next == CycleState::Done(
                    Err(CycleError::Commit(CommitError::Serialization)),
                )
                &&& action == CycleAction::Finish
            },
        },
        (CycleState::Persisting(pending), CycleEvent::Written(written)) => {
            &&& next == CycleState::Done(closed(pending, written))
            &&& action == CycleAction::Finish
        },
        _ => {
            &&& next == state
            &&& action == CycleAction::Nothing
        },
    }
}

impl CycleState {
    /// Every reference held has the public reference format.
    pub open spec fn well_formed(self) -> bool {
        match self {
            CycleState::Persisting(pending) => pending.well_formed(),
            CycleState::Done(Ok(reference)) => is_reference(reference@),
            _ => true,
        }
    }

    /// The state in which every cycle begins.
    pub fn new() -> (state: CycleState)
        ensures
            state == CycleState::Ready,
            state.well_formed(),
    {
        CycleState::Ready
    }

    /// The artifact to serialize, while its canonical text is awaited.
    pub fn artifact(&self) -> (artifact: Option<&InscriptionData>)
        ensures
            match *self {
                CycleState::Encoding(held) => artifact == Some(&held),
                _ => artifact is None,
            },
    {
        match self {
            CycleState::Encoding(held) => Some(held),
            _ => None,
        }
    }

    /// The staged commit to write, while the answer of storage is awaited.
    pub fn pending(&self) -> (pending: Option<&PendingCommit>)
        ensures
            match *self {
                CycleState::Persisting(held) => pending == Some(&held),
                _ => pending is None,
            },
    {
        match self {
            CycleState::Persisting(held) => Some(held),
            _ => None,
        }
    }

    /// The outcome of the cycle, once it is over.
    pub fn outcome(self) -> (outcome: Option<Result<String, CycleError>>)
        ensures
            match self {
                CycleState::Done(held) => outcome == Some(held),
                _ => outcome is None,
            },
    {
        match self {
            CycleState::Done(held) => Some(held),
            _ => None,
        }
    }
}

/// Nothing is written unless fetch, build and serialization succeeded: the
/// driver is asked to persist only in answer to a canonical text, which is
/// only asked for once a snapshot was fetched and packaged.
pub proof fn lemma_persist_follows_encoding(
    state: CycleState,
    event: CycleEvent,
    next: CycleState,
    action: CycleAction,
)
    requires
        cycle_step(state, event, next, action),
    ensures
        action == CycleAction::Persist ==> state is Encoding && event is Encoded
            && event->Encoded_0 is Some,
        action == CycleAction::Encode ==> state is Fetching && event is Replied && fetch_outcome(
            event->Replied_0,
        ) is Ok,
{
}

/// A cycle ends in a reference only when storage took the bytes: success
/// is reached from a staged commit by a successful write and not
/// otherwise, and the reference is the staged one.
pub proof fn lemma_success_follows_write(
    state: CycleState,
    event: CycleEvent,
    next: CycleState,
    action: CycleAction,
)
    requires
        cycle_step(state, event, next, action),
        next is Done,
        next->Done_0 is Ok,
        !(state is Done),
    ensures
        state is Persisting,
        event == CycleEvent::Written(true),
        next->Done_0->Ok_0 == state->Persisting_0.reference,
{
}

/// A failed fetch ends the cycle at once, under the fetch stage, and asks
/// for nothing to be serialized or written.
pub proof fn lemma_failed_fetch_ends_cycle(
    reply: FetchReply,
    next: CycleState,
    action: CycleAction,
)
    requires
        cycle_step(CycleState::Fetching, CycleEvent::Replied(reply), next, action),
        fetch_outcome(reply) is Err,
    ensures
        next == CycleState::Done(Err(CycleError::Fetch(fetch_outcome(reply)->Err_0))),
        next->Done_0->Err_0.spec_stage() == crate::error::Stage::Fetch,
        action == CycleAction::Finish,
{
}

/// Steps keep references in the public reference format.
pub proof fn lemma_step_keeps_well_formed(
    state: CycleState,
    event: CycleEvent,
    next: CycleState,
    action: CycleAction,
)
    requires
        cycle_step(state, event, next, action),
        state.well_formed(),
    ensures
        next.well_formed(),
{
}

} // verus!
