//! The leaderboard client: what it asks of the source and how it judges
//! the answer.

use vstd::prelude::*;
use crate::error::FetchError;
use crate::leaderboard::LeaderboardData;

verus! {

/// Seconds after which an unanswered request counts as failed.
pub const FETCH_TIMEOUT_SECS: u64 = 30;

/// A single `GET`, fully described.
#[derive(Clone, Debug, PartialEq, Eq)]
pub struct FetchRequest {
    pub url: String,
    pub timeout_secs: u64,
}

/// What came back for a [`FetchRequest`].
#[derive(Clone, Debug, PartialEq, Eq)]
pub enum FetchReply {
    /// No answer: the connection failed or the timeout elapsed.
    Unreachable,
    /// An answer with its status code. `body` is the snapshot decoded from
    /// the payload, or `None` if the payload does not decode; it is only
    /// looked at when the status is a success.
    Answered { status: u16, body: Option<LeaderboardData> },
}

/// The address of the leaderboard under a base address.
pub open spec fn leaderboard_url(base: Seq<char>) -> Seq<char> {
    base + "/api/leaderboard"@
}

/// The success range of status codes: 200 up to and including 299.
pub open spec fn is_success(status: u16) -> bool {
    200 <= status < 300
}

/// Decides whether a status code lies in the success range.
pub fn is_success_status(status: u16) -> (ok: bool)
    ensures
        ok == is_success(status),
{
    200 <= status && status < 300
}

/// The judgement on a reply: transport failures first, then the status,
/// then the body.
pub open spec fn fetch_outcome(reply: FetchReply) -> Result<LeaderboardData, FetchError> {
    match reply {
        FetchReply::Unreachable => Err(FetchError::Transport),
        FetchReply::Answered { status, body } => if !is_success(status) {
            Err(FetchError::Remote { status })
        } else {
            match body {
                Some(snapshot) => Ok(snapshot),
                None => Err(FetchError::Decode),
            }
        },
    }
}

} // verus!
