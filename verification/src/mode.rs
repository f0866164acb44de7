//! The two ways to run: one cycle, or the schedule.

use vstd::prelude::*;

verus! {

/// How the process is asked to run.
#[derive(Clone, Copy, Debug, PartialEq, Eq, Structural)]
pub enum Mode {
    /// Run one cycle, then exit.
    Once,
    /// Hand over to the scheduler, for good.
    Schedule,
}

/// The mode that a word selects; any word but `once` and `schedule`
/// selects none.
pub open spec fn mode_of(word: Seq<char>) -> Option<Mode> {
    if word == "once"@ {
        Some(Mode::Once)
    } else if word == "schedule"@ {
        Some(Mode::Schedule)
    } else {
        None
    }
}

impl Mode {
    /// Reads a mode from the word given on the command line. `None` means
    /// a usage error.
    pub fn parse(word: &str) -> (mode: Option<Mode>)
        ensures
            mode == mode_of(word@),
    {
        let given = word.to_owned();
        if given == "once".to_owned() {
            Some(Mode::Once)
        } else if given == "schedule".to_owned() {
            Some(Mode::Schedule)
        } else {
            None
        }
    }
}

} // verus!
