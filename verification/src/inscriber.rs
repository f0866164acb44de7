//! The inscriber: its configuration and the steps of the pipeline.

use vstd::prelude::*;
use vstd::string::*;
use crate::artifact::{
    assembled, fresh_identifier, is_utc_time_text, is_uuid_text, utc_now_rfc3339, InscriptionData,
};
use crate::client::{
    fetch_outcome, is_success_status, leaderboard_url, FetchReply, FetchRequest,
    FETCH_TIMEOUT_SECS,
};
use crate::commit::{
    canonical_bytes, lemma_stamp_pattern_is_plain, utc_now_formatted, PendingCommit,
};
use crate::digest::{
    hex_encode, hex_text, lemma_hex_text_shape, lemma_reference_is_well_formed, reference_suffix,
    sha256, sha256_digest,
};
use crate::cycle::{cycle_step, CycleAction, CycleEvent, CycleState};
use crate::error::{CommitError, CycleError, FetchError};
use crate::leaderboard::LeaderboardData;
use crate::scheduler::{
    scheduler_step, SchedulerAction, SchedulerEvent, SchedulerState, CYCLE_INTERVAL_SECS,
};

verus! {

/// Configuration of the pipeline, fixed once at startup.
///
/// The ledger endpoint, its credentials and the wallet name are carried for
/// a committer that talks to a ledger; committing as done here does not
/// read them.
#[derive(Clone, Debug, PartialEq, Eq)]
pub struct Slop100Inscriber {
    pub api_base_url: String,
    pub bitcoin_rpc_url: String,
    pub bitcoin_rpc_user: String,
    pub bitcoin_rpc_password: String,
    pub wallet_name: String,
}

/// The configured value if there is one, else the default.
pub open spec fn or_default(configured: Option<String>, default: Seq<char>) -> Seq<char> {
    match configured {
        Some(value) => value@,
        None => default,
    }
}

fn setting(configured: Option<String>, default: &str) -> (value: String)
    ensures
        value@ == or_default(configured, default@),
{
    match configured {
        Some(value) => value,
        None => default.to_owned(),
    }
}

impl Slop100Inscriber {
    /// Builds the configuration from what the environment holds, falling
    /// back to the default of each setting that is absent.
    pub fn new(
        api_base_url: Option<String>,
        bitcoin_rpc_url: Option<String>,
        bitcoin_rpc_user: Option<String>,
        bitcoin_rpc_password: Option<String>,
        wallet_name: Option<String>,
    ) -> (inscriber: Self)
        ensures
            inscriber.api_base_url@ == or_default(
                api_base_url,
                "https://same-bf8ljyus7gw-latest.netlify.app"@,
            ),
            inscriber.bitcoin_rpc_url@ == or_default(bitcoin_rpc_url, "http://localhost:8332"@),
            inscriber.bitcoin_rpc_user@ == or_default(bitcoin_rpc_user, "bitcoin"@),
            inscriber.bitcoin_rpc_password@ == or_default(bitcoin_rpc_password, "password"@),
            inscriber.wallet_name@ == or_default(wallet_name, "slop100"@),
    {
        Slop100Inscriber {
            api_base_url: setting(api_base_url, "https://same-bf8ljyus7gw-latest.netlify.app"),
            bitcoin_rpc_url: setting(bitcoin_rpc_url, "http://localhost:8332"),
            bitcoin_rpc_user: setting(bitcoin_rpc_user, "bitcoin"),
            bitcoin_rpc_password: setting(bitcoin_rpc_password, "password"),
            wallet_name: setting(wallet_name, "slop100"),
        }
    }

    /// The one request that a fetch issues: a `GET` of the leaderboard under
    /// the configured base address, bounded by the fetch timeout.
    pub fn fetch_request(&self) -> (request: FetchRequest)
        ensures
            request.url@ == leaderboard_url(self.api_base_url@),
            request.timeout_secs == FETCH_TIMEOUT_SECS,
    {
        let mut url = self.api_base_url.clone();
        url.append("/api/leaderboard");
        FetchRequest { url, timeout_secs: FETCH_TIMEOUT_SECS }
    }

    /// Judges the reply to the fetch request.
    ///
    /// A reply that never came is a transport error; a status outside the
    /// success range is a remote error carrying that status, whatever the
    /// body; a successful status yields the decoded snapshot, or a decode
    /// error if there is none. Nothing is retried here.
    pub fn fetch_leaderboard(&self, reply: FetchReply) -> (result: Result<
        LeaderboardData,
        FetchError,
    >)
        ensures
            result == fetch_outcome(reply),
    {
        match reply {
            FetchReply::Unreachable => Err(FetchError::Transport),
            FetchReply::Answered { status, body } => {
                if !is_success_status(status) {
                    return Err(FetchError::Remote { status });
                }
                match body {
                    Some(snapshot) => Ok(snapshot),
                    None => Err(FetchError::Decode),
                }
            },
        }
    }

    /// Packages a fetched snapshot into an artifact.
    ///
    /// The snapshot goes in untouched, whether or not it is consistent. The
    /// identifier is drawn afresh and has the textual form of a random
    /// UUID; the creation time is read from the clock at this moment and
    /// written in UTC.
    /// Protocol name, version and content type are the fixed ones. Packaging
    /// has no failure of its own.
    pub fn prepare_inscription_data(&self, leaderboard: LeaderboardData) -> (artifact:
        InscriptionData)
        ensures
            assembled(
                leaderboard,
                artifact@.inscription_metadata.inscription_id,
                artifact@.inscription_metadata.created_at,
                artifact,
            ),
            is_uuid_text(artifact@.inscription_metadata.inscription_id),
            is_utc_time_text(artifact@.inscription_metadata.created_at),
    {
        let inscription_id = fresh_identifier();
        let created_at = utc_now_rfc3339();
        InscriptionData::assemble(leaderboard, inscription_id, created_at)
    }

    /// Derives the content identifier of `content`: its SHA-256 digest in
    /// lowercase hexadecimal.
    ///
    /// The identifier depends on the bytes alone, so equal content always
    /// gets the same identifier and the identifier can be checked against
    /// what was stored. Since an artifact carries its creation time and its
    /// protocol name, so does every identifier derived from its bytes.
    pub fn generate_mock_txid(&self, content: &[u8]) -> (txid: String)
        ensures
            txid@ == hex_text(sha256_digest(content@)),
            txid@.len() == 64,
    {
        let digest = sha256(content);
        let txid = hex_encode(digest.as_slice());
        proof {
            lemma_hex_text_shape(digest@);
        }
        txid
    }

    /// Stages the commit of an artifact whose canonical text and commit time
    /// stamp are given.
    ///
    /// Without a canonical text there is nothing to commit: the result is a
    /// serialization error. With one, the result holds the text as it is to
    /// be written, the reference derived from its bytes, and the file name
    /// derived from the artifact's identifier and the time stamp.
    pub fn create_inscription_at(
        &self,
        data: &InscriptionData,
        json_data: Option<String>,
        stamp: &str,
    ) -> (result: Result<PendingCommit, CommitError>)
        ensures
            match json_data {
                None => result == Err::<PendingCommit, CommitError>(CommitError::Serialization),
                Some(content) => {
                    &&& result is Ok
                    &&& result->Ok_0.prepared_from(
                        data@.inscription_metadata.inscription_id,
                        content,
                        stamp@,
                    )
                    &&& result->Ok_0.well_formed()
                },
            },
    {
        match json_data {
            None => Err(CommitError::Serialization),
            Some(content) => {
                let mut reference = self.generate_mock_txid(content.as_str().as_bytes());
                reference.append("i0");
                let mut filename = "inscription_".to_owned();
                filename.append(data.inscription_metadata.inscription_id.as_str());
                filename.append("_");
                filename.append(stamp);
                filename.append(".json");
                proof {
                    reveal_strlit("i0");
                    assert("i0"@ =~= reference_suffix());
                    lemma_reference_is_well_formed(sha256_digest(canonical_bytes(content@)));
                }
                Ok(PendingCommit { reference, filename, content })
            },
        }
    }

    /// Stages the commit of an artifact whose canonical text is given,
    /// stamping the file name with the time read from the clock.
    ///
    /// Behaves as [`Self::create_inscription_at`] does for the time stamp
    /// that the clock gives at this moment; the clock is not read when
    /// there is no canonical text.
    pub fn create_inscription(&self, data: &InscriptionData, json_data: Option<String>) -> (result:
        Result<PendingCommit, CommitError>)
        ensures
            match json_data {
                None => result == Err::<PendingCommit, CommitError>(CommitError::Serialization),
                Some(content) => {
                    &&& result is Ok
                    &&& exists|stamp: Seq<char>|
                        (#[trigger] result->Ok_0.prepared_from(
                            data@.inscription_metadata.inscription_id,
                            content,
                            stamp,
                        ))
                    &&& result->Ok_0.well_formed()
                },
            },
    {
        match json_data {
            None => Err(CommitError::Serialization),
            Some(content) => {
                proof {
                    lemma_stamp_pattern_is_plain();
                }
                let stamp = utc_now_formatted("%Y%m%d_%H%M%S");
                self.create_inscription_at(data, Some(content), stamp.as_str())
            },
        }
    }

    /// Takes one step of a cycle: fetch, build, commit.
    ///
    /// Given where the cycle stands and the event that the driver reports,
    /// returns where it stands next and what the driver has to do. The
    /// cycle stops at the first failure and reports it under its stage; it
    /// asks for a write last, and only once everything before succeeded.
    /// Nothing is retried.
    pub fn inscribe_daily_leaderboard(&self, state: CycleState, event: CycleEvent) -> (step: (
        CycleState,
        CycleAction,
    ))
        ensures
            cycle_step(state, event, step.0, step.1),
            state.well_formed() ==> step.0.well_formed(),
    {
        match (state, event) {
            (CycleState::Ready, CycleEvent::Started) => (CycleState::Fetching, CycleAction::Fetch),
            (CycleState::Fetching, CycleEvent::Replied(reply)) => {
                match self.fetch_leaderboard(reply) {
                    Ok(snapshot) => {
                        let artifact = self.prepare_inscription_data(snapshot);
                        (CycleState::Encoding(artifact), CycleAction::Encode)
                    },
                    Err(cause) => (
                        CycleState::Done(Err(CycleError::Fetch(cause))),
                        CycleAction::Finish,
                    ),
                }
            },
            (CycleState::Encoding(artifact), CycleEvent::Encoded(text)) => {
                match self.create_inscription(&artifact, text) {
                    Ok(pending) => (CycleState::Persisting(pending), CycleAction::Persist),
                    Err(cause) => (
                        CycleState::Done(Err(CycleError::Commit(cause))),
                        CycleAction::Finish,
                    ),
                }
            },
            (CycleState::Persisting(pending), CycleEvent::Written(written)) => {
                match pending.complete(written) {
                    Ok(reference) => (CycleState::Done(Ok(reference)), CycleAction::Finish),
                    Err(cause) => (
                        CycleState::Done(Err(CycleError::Commit(cause))),
                        CycleAction::Finish,
                    ),
                }
            },
            (state, _) => (state, CycleAction::Nothing),
        }
    }

    /// Takes one step of the scheduler.
    ///
    /// Given where the scheduler stands and the event that the driver
    /// reports, returns where it stands next and what the driver has to do:
    /// run a cycle at once on startup, and after each cycle, failed or not,
    /// report its outcome and wait the full interval before the next.
    pub fn run_scheduler(&self, state: SchedulerState, event: SchedulerEvent) -> (step: (
        SchedulerState,
        SchedulerAction,
    ))
        ensures
            step == scheduler_step(state, event),
    {
        match (state, event) {
            (SchedulerState::Idle, SchedulerEvent::Started) => (
                SchedulerState::Running { initial: true },
                SchedulerAction::RunCycle,
            ),
            (SchedulerState::Running { initial }, SchedulerEvent::CycleFinished(outcome)) => (
                SchedulerState::Waiting,
                SchedulerAction::ReportAndWait {
                    initial,
                    outcome,
                    wait_secs: CYCLE_INTERVAL_SECS,
                },
            ),
            (SchedulerState::Waiting, SchedulerEvent::IntervalElapsed) => (
                SchedulerState::Running { initial: false },
                SchedulerAction::RunCycle,
            ),
            (state, _) => (state, SchedulerAction::Nothing),
        }
    }
}

} // verus!
