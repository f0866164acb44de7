//! Fetch, package and commit a ranked leaderboard snapshot.
//!
//! The crate holds the decisions of the pipeline: what is requested, how a
//! reply is judged, how an artifact is assembled, how it is identified and
//! named once it is committed, how one cycle is sequenced and how cycles are
//! scheduled. Network, clock-driven waiting and storage are left to the
//! program that drives the two state machines found here.

pub mod artifact;
pub mod client;
pub mod commit;
pub mod cycle;
pub mod digest;
pub mod error;
pub mod inscriber;
pub mod leaderboard;
pub mod mode;
pub mod scheduler;
