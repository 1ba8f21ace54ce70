//! The run-loop observer bridge: which lifecycle transition each run-loop
//! activity stands for. The "begin" observer runs first on loop entry and
//! after each wait; the "end" observer runs last before each wait and on
//! loop exit.
use vstd::prelude::*;

verus! {

/// The run loop is entered.
pub const RUN_LOOP_ENTRY: u64 = 1;

/// The run loop is about to sleep.
pub const RUN_LOOP_BEFORE_WAITING: u64 = 32;

/// The run loop has woken from sleep.
pub const RUN_LOOP_AFTER_WAITING: u64 = 64;

/// The run loop is exiting.
pub const RUN_LOOP_EXIT: u64 = 128;

/// The activities the highest-priority observer is registered for.
pub const BEGIN_ACTIVITIES: u64 = RUN_LOOP_ENTRY | RUN_LOOP_AFTER_WAITING;

/// The activities the lowest-priority observer is registered for.
pub const END_ACTIVITIES: u64 = RUN_LOOP_EXIT | RUN_LOOP_BEFORE_WAITING;

/// The lifecycle transition a run-loop activity calls for.
#[derive(Clone, Copy, Debug, PartialEq, Eq, Structural)]
pub enum RunLoopTransition {
    /// `handle_wakeup_transition`.
    Wakeup,
    /// `handle_events_cleared`.
    EventsCleared,
    /// The loop exits: the process is torn down.
    Exit,
}

/// The transition for an activity seen by the "begin" observer; `None` for
/// an activity it is not registered for.
pub fn begin_transition(activity: u64) -> (r: Option<RunLoopTransition>)
    ensures
        r == (if activity == RUN_LOOP_ENTRY || activity == RUN_LOOP_AFTER_WAITING {
            Some(RunLoopTransition::Wakeup)
        } else {
            None
        }),
{
    if activity == RUN_LOOP_ENTRY || activity == RUN_LOOP_AFTER_WAITING {
        Some(RunLoopTransition::Wakeup)
    } else {
        None
    }
}

/// The transition for an activity seen by the "end" observer; `None` for
/// an activity it is not registered for.
pub fn end_transition(activity: u64) -> (r: Option<RunLoopTransition>)
    ensures
        r == (if activity == RUN_LOOP_BEFORE_WAITING {
            Some(RunLoopTransition::EventsCleared)
        } else if activity == RUN_LOOP_EXIT {
            Some(RunLoopTransition::Exit)
        } else {
            None
        }),
{
    if activity == RUN_LOOP_BEFORE_WAITING {
        Some(RunLoopTransition::EventsCleared)
    } else if activity == RUN_LOOP_EXIT {
        Some(RunLoopTransition::Exit)
    } else {
        None
    }
}

} // verus!
