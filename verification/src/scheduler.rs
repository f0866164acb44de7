//! The scheduler as a state machine: one cycle at once on startup, then one
//! after every full interval, for as long as the process lives.

use vstd::prelude::*;
use crate::error::CycleError;

verus! {

/// Seconds between the end of one cycle and the start of the next: a day.
pub const CYCLE_INTERVAL_SECS: u64 = 86_400;

/// Where the scheduler stands. There is no final state.
#[derive(Clone, Copy, Debug, PartialEq, Eq, Structural)]
pub enum SchedulerState {
    /// Before the first cycle.
    Idle,
    /// A cycle is running; `initial` tells whether it is the first.
    Running { initial: bool },
    /// Between two cycles.
    Waiting,
}

/// What the driver reports back.
#[derive(Debug, PartialEq, Eq)]
pub enum SchedulerEvent {
    /// The scheduler was handed control.
    Started,
    /// The running cycle is over, with this outcome.
    CycleFinished(Result<String, CycleError>),
    /// The interval asked for has elapsed.
    IntervalElapsed,
}

/// What the driver has to do next.
#[derive(Debug, PartialEq, Eq)]
pub enum SchedulerAction {
    /// Run one cycle to its end and report the outcome.
    RunCycle,
    /// Report the outcome of the cycle just run, then wait `wait_secs`
    /// seconds from now and report that they elapsed.
    ReportAndWait { initial: bool, outcome: Result<String, CycleError>, wait_secs: u64 },
    /// The event answered nothing that was asked; nothing is to be done.
    Nothing,
}

/// The step that the scheduler takes on an event.
///
/// The first cycle starts at once. Whatever a cycle comes to, its outcome is
/// reported and the full interval is waited before the next one starts. An
/// event that does not answer the pending action changes nothing.
pub open spec fn scheduler_step(state: SchedulerState, event: SchedulerEvent) -> (
    SchedulerState,
    SchedulerAction,
) {
    match (state, event) {
        (SchedulerState::Idle, SchedulerEvent::Started) => (
            SchedulerState::Running { initial: true },
            SchedulerAction::RunCycle,
        ),
        (SchedulerState::Running { initial }, SchedulerEvent::CycleFinished(outcome)) => (
            SchedulerState::Waiting,
            SchedulerAction::ReportAndWait { initial, outcome, wait_secs: CYCLE_INTERVAL_SECS },
        ),
        (SchedulerState::Waiting, SchedulerEvent::IntervalElapsed) => (
            SchedulerState::Running { initial: false },
            SchedulerAction::RunCycle,
        ),
        _ => (state, SchedulerAction::Nothing),
    }
}

/// The events of a run in which the cycles come to `outcomes`, one after
/// the other: the start, then for each cycle its end, with the elapsed
/// interval between two cycles.
pub open spec fn run_events(outcomes: Seq<Result<String, CycleError>>) -> Seq<SchedulerEvent>
    decreases outcomes.len(),
{
    if outcomes.len() == 0 {
        seq![SchedulerEvent::Started]
    } else if outcomes.len() == 1 {
        seq![SchedulerEvent::Started, SchedulerEvent::CycleFinished(outcomes[0])]
    } else {
        run_events(outcomes.drop_last()) + seq![
            SchedulerEvent::IntervalElapsed,
            SchedulerEvent::CycleFinished(outcomes.last()),
        ]
    }
}

/// The state reached from `state` by taking `events` in order.
pub open spec fn state_after(state: SchedulerState, events: Seq<SchedulerEvent>) -> SchedulerState
    decreases events.len(),
{
    if events.len() == 0 {
        state
    } else {
        scheduler_step(state_after(state, events.drop_last()), events.last()).0
    }
}

/// Failure isolation: where the scheduler goes after a cycle, and how long
/// it waits, does not depend on what the cycle came to. A failure neither
/// stops the scheduler nor shortens the interval.
pub proof fn lemma_failure_isolation(
    initial: bool,
    first: Result<String, CycleError>,
    second: Result<String, CycleError>,
)
    ensures
        scheduler_step(
            SchedulerState::Running { initial },
            SchedulerEvent::CycleFinished(first),
        ).0 == SchedulerState::Waiting,
        scheduler_step(
            SchedulerState::Running { initial },
            SchedulerEvent::CycleFinished(first),
        ).0 == scheduler_step(
            SchedulerState::Running { initial },
            SchedulerEvent::CycleFinished(second),
        ).0,
        scheduler_step(
            SchedulerState::Running { initial },
            SchedulerEvent::CycleFinished(first),
        ).1 == (SchedulerAction::ReportAndWait {
            initial,
            outcome: first,
            wait_secs: CYCLE_INTERVAL_SECS,
        }),
{
}

/// No overlap: a cycle is started only while none is running, and while
/// one is running no event starts another.
pub proof fn lemma_no_overlap(state: SchedulerState, event: SchedulerEvent)
    ensures
        scheduler_step(state, event).1 == SchedulerAction::RunCycle ==> !(state is Running)
            && scheduler_step(state, event).0 is Running,
        state is Running ==> scheduler_step(state, event).1 != SchedulerAction::RunCycle,
        state is Running && !(event is CycleFinished) ==> scheduler_step(state, event).0 == state,
{
}

/// No final state: from every state some event leads on, and none leads
/// back to the state before the first cycle.
pub proof fn lemma_never_stops(state: SchedulerState)
    ensures
        exists|event: SchedulerEvent| #[trigger] scheduler_step(state, event).0 != state,
        forall|event: SchedulerEvent|
            !(state is Idle) ==> !(#[trigger] scheduler_step(state, event).0 is Idle),
{
    match state {
        SchedulerState::Idle => {
            assert(scheduler_step(state, SchedulerEvent::Started).0 != state);
        },
        SchedulerState::Running { initial } => {
            let event = SchedulerEvent::CycleFinished(
                Err(CycleError::Fetch(crate::error::FetchError::Transport)),
            );
            assert(scheduler_step(state, event).0 != state);
        },
        SchedulerState::Waiting => {
            assert(scheduler_step(state, SchedulerEvent::IntervalElapsed).0 != state);
        },
    }
}

/// A run of any number of cycles, whatever each of them came to, leaves
/// the scheduler waiting for the next one.
pub proof fn lemma_run_ends_waiting(outcomes: Seq<Result<String, CycleError>>)
    requires
        outcomes.len() >= 1,
    ensures
        state_after(SchedulerState::Idle, run_events(outcomes)) == SchedulerState::Waiting,
    decreases outcomes.len(),
{
    let events = run_events(outcomes);
    if outcomes.len() == 1 {
        let first = seq![SchedulerEvent::Started];
        assert(events.drop_last() =~= first);
        assert(first.drop_last() =~= Seq::<SchedulerEvent>::empty());
        assert(state_after(SchedulerState::Idle, first.drop_last()) == SchedulerState::Idle);
        assert(state_after(SchedulerState::Idle, first) == SchedulerState::Running {
            initial: true,
        });
    } else {
        let before = run_events(outcomes.drop_last());
        lemma_run_ends_waiting(outcomes.drop_last());
        let elapsed = before + seq![SchedulerEvent::IntervalElapsed];
        assert(events.drop_last() =~= elapsed);
        assert(elapsed.drop_last() =~= before);
        assert(elapsed.last() == SchedulerEvent::IntervalElapsed);
        assert(state_after(SchedulerState::Idle, elapsed) == SchedulerState::Running {
            initial: false,
        });
    }
}

} // verus!
